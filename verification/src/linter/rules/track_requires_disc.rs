//! Rule `track.requires-disc`.
use vstd::prelude::*;
use crate::linter::lint_target::{LintTarget, TargetView};
use crate::linter::result::{one, CheckOutcome, OutcomeView};
use crate::linter::rule::{Rule, RuleMetadata};
use crate::linter::violation::error_v;
use crate::text::string_from;
use crate::track::TrackView;

verus! {

/// If the track is present, the disc must be present too.
pub struct TrackRequiresDiscRule;

/// If the track is present, the disc must be present too.
pub open spec fn track_requires_disc_outcome(t: TrackView) -> OutcomeView {
    if t.fields.track is Some && t.fields.disc is None {
        one(error_v("Track is present but disc is missing"@))
    } else {
        OutcomeView::Passed
    }
}

impl Rule for TrackRequiresDiscRule {
    open spec fn rule_id(&self) -> Seq<char> {
        "track.requires-disc"@
    }

    open spec fn outcome(&self, target: TargetView) -> OutcomeView {
        track_requires_disc_outcome(target.track)
    }

    fn metadata(&self) -> RuleMetadata {
        RuleMetadata {
            id: "track.requires-disc",
            description: "If track is present, disc must also be present.\n\nValid:\n- track=01/10, disc=1/1\n- track missing, disc missing\n\nInvalid:\n- track=01/10, disc missing (track count requires disc context)\n",
            autofix_notes: None,
        }
    }

    fn check(&self, target: &LintTarget) -> CheckOutcome {
        let track = &target.track;
        if track.fields.track.is_some() && track.fields.disc.is_none() {
            return CheckOutcome::single(self.error(string_from("Track is present but disc is missing")));
        }
        CheckOutcome::Passed
    }
}

} // verus!
