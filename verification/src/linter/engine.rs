//! The engine that runs rules against a target and applies their fixes.
use vstd::prelude::*;
use crate::linter::lint_target::{LintTarget, TargetView};
use crate::linter::result::{outcome_violations, violation_views, ResultView, RuleResult};
use crate::linter::rule::Rule;
use crate::linter::rules::{track_only_rule_seq, track_only_rules, BuiltinRule};
use crate::linter::violation::{fix_effect, DecimalRounding, FixView, ViolationView};
use crate::track::{Track, TrackView};

verus! {

/// How many rounds of fixes `run_autofix` runs at most, unless told otherwise.
pub const DEFAULT_MAX_ITERATIONS: u32 = 5;

/// Runs a set of rules against a target, and applies their fixes in a
/// bounded loop until no fixable violation remains or the cap on rounds is
/// reached. The cap breaks oscillation, where a fix of one rule triggers
/// another rule whose fix triggers the first again.
pub struct LintEngine<R> {
    rules: Vec<R>,
    max_iterations: u32,
}

/// What `run_autofix` ends with.
pub struct AutofixOutcome {
    /// Each rule's result after the loop ended. Violations left here could
    /// not be resolved: they had no fix, or the loop hit its cap first.
    pub results: Vec<RuleResult>,
    /// How many rounds of fixes ran. Zero means the first check found nothing
    /// fixable.
    pub iterations: u32,
    /// Whether the loop stopped because it hit its cap with fixes still being
    /// produced, usually a sign of rules that undo each other: the final
    /// check still carries a fix.
    pub hit_max_iterations: bool,
}

pub open spec fn result_views(v: Seq<RuleResult>) -> Seq<ResultView> {
    v.map_values(|x: RuleResult| x@)
}

/// Each rule's id and outcome on `t`, in the order of `rules`.
pub open spec fn check_all<R: Rule>(rules: Seq<R>, t: TargetView) -> Seq<ResultView> {
    rules.map_values(|r: R| ResultView { rule_id: r.rule_id(), outcome: r.outcome(t) })
}

/// The fixes that a list of violations carries, in order.
pub open spec fn violation_fixes(vs: Seq<ViolationView>) -> Seq<FixView>
    decreases vs.len(),
{
    if vs.len() == 0 {
        Seq::empty()
    } else {
        violation_fixes(vs.drop_last()) + match vs.last().fix {
            Some(f) => seq![f],
            None => Seq::<FixView>::empty(),
        }
    }
}

/// The fixes that a list of results carries, rule by rule and violation by
/// violation.
pub open spec fn fixes_of(results: Seq<ResultView>) -> Seq<FixView>
    decreases results.len(),
{
    if results.len() == 0 {
        Seq::empty()
    } else {
        fixes_of(results.drop_last()) + violation_fixes(outcome_violations(results.last().outcome))
    }
}

/// `states` is what applying `fixes` one after another with `rounding` goes
/// through.
pub open spec fn fixes_effect<D: DecimalRounding>(
    fixes: Seq<FixView>,
    states: Seq<TrackView>,
    rounding: D,
) -> bool {
    &&& states.len() == fixes.len() + 1
    &&& forall|i: int|
        0 <= i < fixes.len() ==> fix_effect(#[trigger] fixes[i], states[i], states[i + 1], rounding)
}

/// `t` with its track replaced.
pub open spec fn with_track(t: TargetView, track: TrackView) -> TargetView {
    TargetView { track, id3: t.id3 }
}

/// One round of the loop: check `t` with `rules`, then apply every fix of
/// every result in order with `rounding`, which leaves `after`.
pub open spec fn autofix_round<R: Rule, D: DecimalRounding>(
    rules: Seq<R>,
    t: TargetView,
    after: TrackView,
    rounding: D,
) -> bool {
    exists|states: Seq<TrackView>|
        #[trigger] fixes_effect(fixes_of(check_all(rules, t)), states, rounding) && states[0]
            == t.track && states.last() == after
}

/// `trace` is the tracks that successive rounds went through from `start`,
/// every round having had a fix to apply.
pub open spec fn autofix_trace<R: Rule, D: DecimalRounding>(
    rules: Seq<R>,
    start: TargetView,
    trace: Seq<TrackView>,
    rounding: D,
) -> bool {
    forall|i: int|
        0 <= i < trace.len() - 1 ==> {
            &&& fixes_of(check_all(rules, with_track(start, #[trigger] trace[i]))).len() > 0
            &&& autofix_round(rules, with_track(start, trace[i]), trace[i + 1], rounding)
        }
}

/// A fix changes only the fields of a track, never its file.
pub proof fn lemma_fix_keeps_file<D: DecimalRounding>(
    f: FixView,
    before: TrackView,
    after: TrackView,
    rounding: D,
)
    requires
        fix_effect(f, before, after, rounding),
    ensures
        after.file_path == before.file_path,
        after.mtime == before.mtime,
{
}

pub proof fn lemma_fixes_effect_push<D: DecimalRounding>(
    fixes: Seq<FixView>,
    states: Seq<TrackView>,
    f: FixView,
    next: TrackView,
    rounding: D,
)
    requires
        fixes_effect(fixes, states, rounding),
        fix_effect(f, states.last(), next, rounding),
    ensures
        fixes_effect(fixes.push(f), states.push(next), rounding),
{
    assert forall|i: int| 0 <= i < fixes.push(f).len() implies fix_effect(
        #[trigger] fixes.push(f)[i],
        states.push(next)[i],
        states.push(next)[i + 1],
        rounding,
    ) by {
        if i < fixes.len() {
            assert(fixes.push(f)[i] == fixes[i]);
            assert(states.push(next)[i] == states[i]);
            assert(states.push(next)[i + 1] == states[i + 1]);
        }
    }
}

impl LintEngine<BuiltinRule> {
    /// An engine with the built-in track rules and the default cap.
    pub fn new() -> (r: Self)
        ensures
            r.rule_seq() == track_only_rule_seq(),
            r.cap() == DEFAULT_MAX_ITERATIONS,
    {
        LintEngine { rules: track_only_rules(), max_iterations: DEFAULT_MAX_ITERATIONS }
    }
}

impl Default for LintEngine<BuiltinRule> {
    fn default() -> (r: Self)
        ensures
            r.rule_seq() == track_only_rule_seq(),
            r.cap() == DEFAULT_MAX_ITERATIONS,
    {
        Self::new()
    }
}

impl<R: Rule> LintEngine<R> {
    /// The rules, in the order in which they run.
    pub closed spec fn rule_seq(&self) -> Seq<R> {
        self.rules@
    }

    /// The cap on rounds of fixes.
    pub closed spec fn cap(&self) -> u32 {
        self.max_iterations
    }

    /// This engine with its rules replaced.
    pub fn with_rules<S: Rule>(self, rules: Vec<S>) -> (r: LintEngine<S>)
        ensures
            r.rule_seq() == rules@,
            r.cap() == self.cap(),
    {
        LintEngine { rules, max_iterations: self.max_iterations }
    }

    /// This engine with its cap on rounds replaced.
    pub fn with_max_iterations(self, n: u32) -> (r: Self)
        ensures
            r.rule_seq() == self.rule_seq(),
            r.cap() == n,
    {
        LintEngine { rules: self.rules, max_iterations: n }
    }

    /// Runs every rule once against `target`, in order. No fix is applied.
    pub fn check(&self, target: &LintTarget) -> (r: Vec<RuleResult>)
        ensures
            result_views(r@) == check_all(self.rule_seq(), target@),
    {
        let mut out: Vec<RuleResult> = Vec::new();
        let mut i: usize = 0;
        while i < self.rules.len()
            invariant
                i <= self.rules.len(),
                out@.len() == i,
                result_views(out@) == check_all(self.rules@.subrange(0, i as int), target@),
            decreases self.rules.len() - i,
        {
            let rule = &self.rules[i];
            let id = rule.metadata().id;
            let outcome = rule.check(target);
            let ghost prev = out@;
            out.push(RuleResult { rule_id: id, outcome });
            proof {
                let ghost rs = self.rules@.subrange(0, i + 1);
                assert forall|k: int| 0 <= k < i + 1 implies #[trigger] result_views(out@)[k]
                    == check_all(rs, target@)[k] by {
                    if k < i {
                        assert(out@[k] == prev[k]);
                        assert(result_views(prev)[k] == check_all(
                            self.rules@.subrange(0, i as int),
                            target@,
                        )[k]);
                    }
                }
                assert(result_views(out@) =~= check_all(rs, target@));
            }
            i = i + 1;
        }
        assert(self.rules@.subrange(0, self.rules.len() as int) =~= self.rules@);
        out
    }

    /// Applies the fixes of `target`'s violations until none is left, or
    /// until the cap on rounds is hit. Changes `target.track` in place; the
    /// raw tag is left as it was, so rules that read it see the original
    /// frames throughout.
    pub fn run_autofix<D: DecimalRounding>(&self, target: &mut LintTarget, rounding: &D) -> (r:
        AutofixOutcome)
        ensures
            final(target).id3 == old(target).id3,
            final(target)@.track.file_path == old(target)@.track.file_path,
            final(target)@.track.mtime == old(target)@.track.mtime,
            result_views(r.results@) == check_all(self.rule_seq(), final(target)@),
            r.iterations <= self.cap(),
            r.hit_max_iterations ==> r.iterations == self.cap(),
            r.iterations == 0 ==> final(target)@ == old(target)@,
            r.hit_max_iterations == (fixes_of(check_all(self.rule_seq(), final(target)@)).len() > 0),
            exists|trace: Seq<TrackView>|
                #[trigger] autofix_trace(self.rule_seq(), old(target)@, trace, *rounding) && trace.len()
                    == r.iterations + 1 && trace[0] == old(target)@.track && trace.last()
                    == final(target)@.track,
    {
        let ghost start = target@;
        assert(start == old(target)@);
        let ghost mut trace: Seq<TrackView> = seq![target.track@];
        let mut iteration: u32 = 0;
        while iteration < self.max_iterations
            invariant
                iteration <= self.max_iterations,
                start == old(target)@,
                target.id3 == start.id3,
                target.track@.file_path == start.track.file_path,
                target.track@.mtime == start.track.mtime,
                trace.len() == iteration + 1,
                trace[0] == start.track,
                trace.last() == target.track@,
                autofix_trace(self.rules@, start, trace, *rounding),
            decreases self.max_iterations - iteration,
        {
            let results = self.check(target);
            assert(target@ == with_track(start, target.track@));
            if !has_fix(&results) {
                assert(autofix_trace(self.rule_seq(), old(target)@, trace, *rounding));
                return AutofixOutcome { results, iterations: iteration, hit_max_iterations: false };
            }
            let ghost before = target.track@;
            apply_fixes(&results, &mut target.track, rounding);
            proof {
                let next = trace.push(target.track@);
                assert forall|i: int| 0 <= i < next.len() - 1 implies {
                    &&& fixes_of(check_all(self.rules@, with_track(start, #[trigger] next[i]))).len() > 0
                    &&& autofix_round(self.rules@, with_track(start, next[i]), next[i + 1], *rounding)
                } by {
                    if i < trace.len() - 1 {
                        assert(next[i] == trace[i]);
                        assert(next[i + 1] == trace[i + 1]);
                    } else {
                        assert(next[i] == before);
                        assert(next[i + 1] == target.track@);
                    }
                }
                trace = next;
            }
            iteration = iteration + 1;
        }
        let results = self.check(target);
        let hit = has_fix(&results);
        assert(autofix_trace(self.rule_seq(), old(target)@, trace, *rounding));
        AutofixOutcome { results, iterations: self.max_iterations, hit_max_iterations: hit }
    }
}

/// Whether some violation of `results` carries a fix.
fn has_fix(results: &Vec<RuleResult>) -> (r: bool)
    ensures
        r == (fixes_of(result_views(results@)).len() > 0),
{
    let ghost rv = result_views(results@);
    let mut ri: usize = 0;
    while ri < results.len()
        invariant
            ri <= results.len(),
            rv == result_views(results@),
            fixes_of(rv.subrange(0, ri as int)).len() == 0,
        decreases results.len() - ri,
    {
        let vs = results[ri].outcome.violations();
        let ghost vv = violation_views(vs@);
        let mut vi: usize = 0;
        while vi < vs.len()
            invariant
                ri < results.len(),
                rv == result_views(results@),
                fixes_of(rv.subrange(0, ri as int)).len() == 0,
                vi <= vs.len(),
                vv == violation_views(vs@),
                vv == outcome_violations(rv[ri as int].outcome),
                violation_fixes(vv.subrange(0, vi as int)).len() == 0,
            decreases vs.len() - vi,
        {
            assert(vv.subrange(0, vi + 1).drop_last() =~= vv.subrange(0, vi as int));
            if vs[vi].fix.is_some() {
                assert(violation_fixes(vv.subrange(0, vi + 1)).len() > 0);
                proof {
                    lemma_violation_fixes_prefix(vv, vi + 1);
                    lemma_fixes_of_prefix(rv, ri + 1);
                    assert(rv.subrange(0, ri + 1).drop_last() =~= rv.subrange(0, ri as int));
                }
                return true;
            }
            vi = vi + 1;
        }
        assert(vv.subrange(0, vs.len() as int) =~= vv);
        assert(rv.subrange(0, ri + 1).drop_last() =~= rv.subrange(0, ri as int));
        ri = ri + 1;
    }
    assert(rv.subrange(0, results.len() as int) =~= rv);
    false
}

/// A prefix carries no more fixes than the whole.
proof fn lemma_violation_fixes_prefix(vs: Seq<ViolationView>, k: int)
    requires
        0 <= k <= vs.len(),
    ensures
        violation_fixes(vs.subrange(0, k)).len() <= violation_fixes(vs).len(),
    decreases vs.len() - k,
{
    if k < vs.len() {
        lemma_violation_fixes_prefix(vs, k + 1);
        assert(vs.subrange(0, k + 1).drop_last() =~= vs.subrange(0, k));
    } else {
        assert(vs.subrange(0, k) =~= vs);
    }
}

/// A prefix of the results carries no more fixes than all of them.
proof fn lemma_fixes_of_prefix(rs: Seq<ResultView>, k: int)
    requires
        0 <= k <= rs.len(),
    ensures
        fixes_of(rs.subrange(0, k)).len() <= fixes_of(rs).len(),
    decreases rs.len() - k,
{
    if k < rs.len() {
        lemma_fixes_of_prefix(rs, k + 1);
        assert(rs.subrange(0, k + 1).drop_last() =~= rs.subrange(0, k));
    } else {
        assert(rs.subrange(0, k) =~= rs);
    }
}

/// Applies every fix of every violation of `results` to `track`, in order.
fn apply_fixes<D: DecimalRounding>(results: &Vec<RuleResult>, track: &mut Track, rounding: &D)
    ensures
        final(track)@.file_path == old(track)@.file_path,
        final(track)@.mtime == old(track)@.mtime,
        exists|states: Seq<TrackView>|
            #[trigger] fixes_effect(fixes_of(result_views(results@)), states, *rounding) && states[0] == old(track)@
                && states.last() == final(track)@,
{
    let ghost rv = result_views(results@);
    let ghost mut states: Seq<TrackView> = seq![track@];
    let mut ri: usize = 0;
    while ri < results.len()
        invariant
            ri <= results.len(),
            rv == result_views(results@),
            fixes_effect(fixes_of(rv.subrange(0, ri as int)), states, *rounding),
            states[0] == old(track)@,
            states.last() == track@,
            track@.file_path == old(track)@.file_path,
            track@.mtime == old(track)@.mtime,
        decreases results.len() - ri,
    {
        let vs = results[ri].outcome.violations();
        let ghost vv = violation_views(vs@);
        let ghost done = fixes_of(rv.subrange(0, ri as int));
        assert(vv.subrange(0, 0) =~= Seq::<ViolationView>::empty());
        assert(done + violation_fixes(vv.subrange(0, 0)) =~= done);
        let mut vi: usize = 0;
        while vi < vs.len()
            invariant
                vi <= vs.len(),
                vv == violation_views(vs@),
                fixes_effect(done + violation_fixes(vv.subrange(0, vi as int)), states, *rounding),
                states[0] == old(track)@,
                states.last() == track@,
                track@.file_path == old(track)@.file_path,
                track@.mtime == old(track)@.mtime,
            decreases vs.len() - vi,
        {
            assert(vv.subrange(0, vi + 1).drop_last() =~= vv.subrange(0, vi as int));
            let ghost so_far = done + violation_fixes(vv.subrange(0, vi as int));
            match &vs[vi].fix {
                Some(f) => {
                    let ghost before = track@;
                    f.apply(track, rounding);
                    proof {
                        lemma_fix_keeps_file(f@, before, track@, *rounding);
                        lemma_fixes_effect_push(so_far, states, f@, track@, *rounding);
                        states = states.push(track@);
                        assert(so_far.push(f@) =~= done + violation_fixes(
                            vv.subrange(0, vi + 1),
                        ));
                    }
                },
                None => {
                    assert(so_far =~= done + violation_fixes(vv.subrange(0, vi + 1)));
                },
            }
            vi = vi + 1;
        }
        assert(vv.subrange(0, vs.len() as int) =~= vv);
        assert(rv.subrange(0, ri + 1).drop_last() =~= rv.subrange(0, ri as int));
        ri = ri + 1;
    }
    assert(rv.subrange(0, results.len() as int) =~= rv);
}

} // verus!
