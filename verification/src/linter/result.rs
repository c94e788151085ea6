//! The outcome of running one rule.
use vstd::prelude::*;
use crate::linter::violation::{RuleViolation, ViolationView};

verus! {

/// Outcome of running a single rule's `check`. `Skipped` tells "the rule
/// could not run because it lacked the inputs it needs" apart from "the rule
/// had nothing to say" (`Passed`).
#[derive(Clone, Debug)]
pub enum CheckOutcome {
    Passed,
    Violations(Vec<RuleViolation>),
    Skipped { reason: String },
}

pub enum OutcomeView {
    Passed,
    Violations(Seq<ViolationView>),
    Skipped(Seq<char>),
}

pub open spec fn violation_views(v: Seq<RuleViolation>) -> Seq<ViolationView> {
    v.map_values(|x: RuleViolation| x@)
}

impl View for CheckOutcome {
    type V = OutcomeView;

    open spec fn view(&self) -> OutcomeView {
        match self {
            CheckOutcome::Passed => OutcomeView::Passed,
            CheckOutcome::Violations(v) => OutcomeView::Violations(violation_views(v@)),
            CheckOutcome::Skipped { reason } => OutcomeView::Skipped(reason@),
        }
    }
}

/// The violations of an outcome: none for `Passed` and `Skipped`.
pub open spec fn outcome_violations(o: OutcomeView) -> Seq<ViolationView> {
    match o {
        OutcomeView::Violations(v) => v,
        _ => Seq::empty(),
    }
}

/// The outcome that a list of violations stands for: `Passed` when the list
/// is empty.
pub open spec fn outcome_of(v: Seq<ViolationView>) -> OutcomeView {
    if v.len() == 0 {
        OutcomeView::Passed
    } else {
        OutcomeView::Violations(v)
    }
}

/// The outcome of a single violation.
pub open spec fn one(v: ViolationView) -> OutcomeView {
    OutcomeView::Violations(seq![v])
}

/// `seq![v]` when `b` holds, else the empty sequence.
pub open spec fn opt_v(b: bool, v: ViolationView) -> Seq<ViolationView> {
    if b {
        seq![v]
    } else {
        Seq::empty()
    }
}

/// Appends `x` to `v` when `c` holds.
pub fn push_when(v: &mut Vec<RuleViolation>, c: bool, x: RuleViolation)
    ensures
        violation_views(final(v)@) == violation_views(old(v)@) + opt_v(c, x@),
{
    if c {
        v.push(x);
        assert(violation_views(v@) =~= violation_views(old(v)@) + opt_v(c, x@));
    } else {
        assert(violation_views(v@) =~= violation_views(old(v)@) + opt_v(c, x@));
    }
}

impl CheckOutcome {
    /// A `Skipped` outcome with a free-form reason.
    pub fn skipped(reason: &str) -> (r: CheckOutcome)
        ensures
            r@ == OutcomeView::Skipped(reason@),
    {
        CheckOutcome::Skipped { reason: crate::text::string_from(reason) }
    }

    /// The violations of this outcome; empty for `Passed` and `Skipped`.
    pub fn violations(&self) -> (r: &[RuleViolation])
        ensures
            violation_views(r@) == outcome_violations(self@),
    {
        match self {
            CheckOutcome::Violations(v) => v.as_slice(),
            _ => {
                let r: &[RuleViolation] = &[];
                assert(violation_views(r@) =~= Seq::<ViolationView>::empty());
                r
            },
        }
    }

    pub fn is_passed(&self) -> (r: bool)
        ensures
            r == (self@ is Passed),
    {
        match self {
            CheckOutcome::Passed => true,
            _ => false,
        }
    }

    pub fn is_skipped(&self) -> (r: bool)
        ensures
            r == (self@ is Skipped),
    {
        match self {
            CheckOutcome::Skipped { .. } => true,
            _ => false,
        }
    }

    /// The outcome of a list of violations: `Passed` when it is empty.
    pub fn from_violations(violations: Vec<RuleViolation>) -> (r: CheckOutcome)
        ensures
            r@ == outcome_of(violation_views(violations@)),
            violations@.len() == 0 ==> r is Passed,
            violations@.len() > 0 ==> r == CheckOutcome::Violations(violations),
    {
        if violations.len() == 0 {
            CheckOutcome::Passed
        } else {
            CheckOutcome::Violations(violations)
        }
    }

    /// The outcome of a single violation.
    pub fn single(violation: RuleViolation) -> (r: CheckOutcome)
        ensures
            r@ == one(violation@),
    {
        let v = vec![violation];
        assert(violation_views(v@) =~= seq![violation@]);
        CheckOutcome::Violations(v)
    }
}

impl From<Vec<RuleViolation>> for CheckOutcome {
    fn from(violations: Vec<RuleViolation>) -> (r: CheckOutcome) {
        CheckOutcome::from_violations(violations)
    }
}

impl vstd::std_specs::convert::FromSpecImpl<Vec<RuleViolation>> for CheckOutcome {
    open spec fn obeys_from_spec() -> bool {
        true
    }

    open spec fn from_spec(violations: Vec<RuleViolation>) -> CheckOutcome {
        if violations@.len() == 0 {
            CheckOutcome::Passed
        } else {
            CheckOutcome::Violations(violations)
        }
    }
}

/// A single rule's outcome paired with the id of the rule that produced it.
#[derive(Clone, Debug)]
pub struct RuleResult {
    pub rule_id: &'static str,
    pub outcome: CheckOutcome,
}

pub struct ResultView {
    pub rule_id: Seq<char>,
    pub outcome: OutcomeView,
}

impl View for RuleResult {
    type V = ResultView;

    open spec fn view(&self) -> ResultView {
        ResultView { rule_id: self.rule_id@, outcome: self.outcome@ }
    }
}

} // verus!
