//! The rule interface.
use vstd::prelude::*;
use crate::linter::lint_target::{LintTarget, TargetView};
use crate::linter::result::{CheckOutcome, OutcomeView};
use crate::linter::violation::{error_v, warn_v, RuleSeverity, RuleViolation};
use crate::text::{trim_chars, trim_ws, CharClass};

verus! {

/// Static metadata describing a rule. `description` is the rule itself: what
/// is checked, what is valid, what is not. `autofix_notes` describes what the
/// rule's fix does, when it has one; the two are kept apart so that consumers
/// can show rule descriptions without the mechanics of the fixes.
#[derive(Clone, Copy, Debug)]
pub struct RuleMetadata {
    pub id: &'static str,
    pub description: &'static str,
    pub autofix_notes: Option<&'static str>,
}

pub trait Rule {
    /// The rule's id. The rules of this crate define it; for other
    /// implementations it is left unspecified.
    open spec fn rule_id(&self) -> Seq<char> {
        arbitrary()
    }

    /// What `check` reports for `target`. The rules of this crate define it;
    /// for other implementations it is left unspecified.
    open spec fn outcome(&self, target: TargetView) -> OutcomeView {
        arbitrary()
    }

    fn metadata(&self) -> (r: RuleMetadata)
        ensures
            r.id@ == self.rule_id(),
    ;

    fn check(&self, target: &LintTarget) -> (r: CheckOutcome)
        ensures
            r@ == self.outcome(target@),
    ;

    /// An `Error`-severity violation with `message`.
    fn error(&self, message: String) -> (r: RuleViolation)
        ensures
            r@ == error_v(message@),
    {
        RuleViolation { severity: RuleSeverity::Error, message, fix: None }
    }

    /// A `Warn`-severity violation with `message`.
    fn warn(&self, message: String) -> (r: RuleViolation)
        ensures
            r@ == warn_v(message@),
    {
        RuleViolation { severity: RuleSeverity::Warn, message, fix: None }
    }
}

/// The value trimmed of white space, where it is present and something is
/// left after trimming.
pub open spec fn present_trimmed(o: Option<Seq<char>>) -> Option<Seq<char>> {
    match o {
        Some(v) => if trim_ws(v).len() > 0 {
            Some(trim_ws(v))
        } else {
            None
        },
        None => None,
    }
}

pub fn present_trimmed_exec(o: &Option<String>) -> (r: Option<Vec<char>>)
    ensures
        match r {
            Some(v) => present_trimmed(crate::track::opt_text(*o)) == Some(v@),
            None => present_trimmed(crate::track::opt_text(*o)) is None,
        },
{
    match o {
        Some(s) => {
            let t = trim_chars(CharClass::WhiteSpace, &crate::text::chars_of(s.as_str()));
            if t.len() > 0 {
                Some(t)
            } else {
                None
            }
        },
        None => None,
    }
}

} // verus!
