//! Rule `disc.requires-track`.
use vstd::prelude::*;
use crate::linter::lint_target::{LintTarget, TargetView};
use crate::linter::result::{one, CheckOutcome, OutcomeView};
use crate::linter::rule::{Rule, RuleMetadata};
use crate::linter::violation::error_v;
use crate::text::string_from;
use crate::track::TrackView;

verus! {

/// If the disc is present, the track must be present too.
pub struct DiscRequiresTrackRule;

/// If the disc is present, the track must be present too.
pub open spec fn disc_requires_track_outcome(t: TrackView) -> OutcomeView {
    if t.fields.disc is Some && t.fields.track is None {
        one(error_v("Disc is present but track is missing"@))
    } else {
        OutcomeView::Passed
    }
}

impl Rule for DiscRequiresTrackRule {
    open spec fn rule_id(&self) -> Seq<char> {
        "disc.requires-track"@
    }

    open spec fn outcome(&self, target: TargetView) -> OutcomeView {
        disc_requires_track_outcome(target.track)
    }

    fn metadata(&self) -> RuleMetadata {
        RuleMetadata {
            id: "disc.requires-track",
            description: "If disc is present, track must also be present.\n\nValid:\n- disc=1/2, track=01/10\n- disc missing, track missing\n\nInvalid:\n- disc=1/2, track missing (disc context without track index)\n",
            autofix_notes: None,
        }
    }

    fn check(&self, target: &LintTarget) -> CheckOutcome {
        let track = &target.track;
        if track.fields.disc.is_some() && track.fields.track.is_none() {
            return CheckOutcome::single(self.error(string_from("Disc is present but track is missing")));
        }
        CheckOutcome::Passed
    }
}

} // verus!
