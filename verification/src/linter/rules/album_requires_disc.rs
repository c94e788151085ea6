//! Rule `album.requires-disc`.
use vstd::prelude::*;
use crate::linter::lint_target::{LintTarget, TargetView};
use crate::linter::result::{one, CheckOutcome, OutcomeView};
use crate::linter::rule::{Rule, RuleMetadata};
use crate::linter::violation::error_v;
use crate::text::string_from;
use crate::track::TrackView;

verus! {

/// If the album is present, the disc must be present too.
pub struct AlbumRequiresDiscRule;

/// If the album is present, the disc must be present too.
pub open spec fn album_requires_disc_outcome(t: TrackView) -> OutcomeView {
    if t.fields.album is Some && t.fields.disc is None {
        one(error_v("Album is present but disc is missing"@))
    } else {
        OutcomeView::Passed
    }
}

impl Rule for AlbumRequiresDiscRule {
    open spec fn rule_id(&self) -> Seq<char> {
        "album.requires-disc"@
    }

    open spec fn outcome(&self, target: TargetView) -> OutcomeView {
        album_requires_disc_outcome(target.track)
    }

    fn metadata(&self) -> RuleMetadata {
        RuleMetadata {
            id: "album.requires-disc",
            description: "If album is present, disc must also be present.\n\nValid:\n- album=Album, disc=1/1\n- album missing, disc missing\n\nInvalid:\n- album=Album, disc missing (album track must declare disc)\n",
            autofix_notes: None,
        }
    }

    fn check(&self, target: &LintTarget) -> CheckOutcome {
        let track = &target.track;
        if track.fields.album.is_some() && track.fields.disc.is_none() {
            return CheckOutcome::single(self.error(string_from("Album is present but disc is missing")));
        }
        CheckOutcome::Passed
    }
}

} // verus!
