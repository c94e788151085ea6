//! The lint-fix stage: the lint engine and its fixes, run on a track's latest
//! revision.
use vstd::prelude::*;
use id3::Tag;
use crate::linter::engine::{autofix_trace, check_all, fixes_of, result_views, LintEngine};
use crate::linter::lint_target::{LintTarget, TargetView};
use crate::linter::rules::BuiltinRule;
use crate::linter::violation::DecimalRounding;
use crate::processing::stages::{LintFixError, LintFixResult};
use crate::track::{Track, TrackFields, TrackFile, TrackView};

verus! {

/// Lints the track whose latest revision holds `last_revision`, applying
/// fixes with the engine's `run_autofix` until none is left or the engine's
/// cap is hit: the fields are where that run ends, and the results and the
/// cap-hit flag are the run's own. The revision is the
/// source of truth for the track's state: earlier stages chained their
/// changes into it. Without one the stage has nothing to work on.
pub fn process_lint_fix<D: DecimalRounding>(
    file: TrackFile,
    last_revision: Option<TrackFields>,
    tag: Tag,
    engine: &LintEngine<BuiltinRule>,
    rounding: &D,
) -> (r: Result<LintFixResult, LintFixError>)
    ensures
        last_revision is None ==> r matches Err(LintFixError::NoRevision),
        last_revision is Some ==> r is Ok,
        r matches Ok(out) ==> {
            let end = TargetView {
                track: TrackView { file_path: file.file_path@, mtime: file.mtime, fields: out.fields@ },
                id3: Some(tag),
            };
            let start = TargetView {
                track: TrackView {
                    file_path: file.file_path@,
                    mtime: file.mtime,
                    fields: last_revision.unwrap()@,
                },
                id3: Some(tag),
            };
            &&& result_views(out.results@) == check_all(engine.rule_seq(), end)
            &&& out.hit_max_iterations == (fixes_of(check_all(engine.rule_seq(), end)).len() > 0)
            &&& exists|trace: Seq<TrackView>|
                {
                    &&& #[trigger] autofix_trace(engine.rule_seq(), start, trace, *rounding)
                    &&& trace[0] == start.track
                    &&& trace.last() == end.track
                    &&& trace.len() <= engine.cap() + 1
                    &&& out.hit_max_iterations ==> trace.len() == engine.cap() + 1
                }
        },
{
    let fields = match last_revision {
        Some(f) => f,
        None => {
            return Err(LintFixError::NoRevision);
        },
    };
    let mut target = LintTarget { track: Track { file, fields }, id3: Some(tag) };
    let outcome = engine.run_autofix(&mut target, rounding);
    Ok(LintFixResult {
        fields: target.track.fields,
        results: outcome.results,
        hit_max_iterations: outcome.hit_max_iterations,
    })
}

} // verus!
