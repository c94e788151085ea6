//! Rule `track.count-format`.
use vstd::prelude::*;
use crate::linter::lint_target::{LintTarget, TargetView};
use crate::linter::result::{one, CheckOutcome, OutcomeView};
use crate::linter::rule::{Rule, RuleMetadata};
use crate::linter::violation::error_v;
use crate::text::string_from;
use crate::track::{CountField, CountFieldView, TrackView};

verus! {

/// A track count, when present, must parse and have a number between 1 and its total.
pub struct TrackCountFormatRule;

/// A track count, when present, must parse and have a number between 1 and its total.
pub open spec fn track_count_format_outcome(t: TrackView) -> OutcomeView {
    match t.fields.track {
        None => OutcomeView::Passed,
        Some(CountFieldView::Invalid(_)) => one(error_v("Track number format is invalid"@)),
        Some(CountFieldView::Valid(c)) => if c.number == 0 || c.total == 0 || c.number > c.total {
            one(error_v("Track number is out of valid range"@))
        } else {
            OutcomeView::Passed
        },
    }
}

impl Rule for TrackCountFormatRule {
    open spec fn rule_id(&self) -> Seq<char> {
        "track.count-format"@
    }

    open spec fn outcome(&self, target: TargetView) -> OutcomeView {
        track_count_format_outcome(target.track)
    }

    fn metadata(&self) -> RuleMetadata {
        RuleMetadata {
            id: "track.count-format",
            description: "Track count must be parseable and internally valid when present.\n\nValid:\n- 01/10\n- 1/1\n\nInvalid:\n- abc (not parseable)\n- 12/10 (track number greater than total)\n",
            autofix_notes: None,
        }
    }

    fn check(&self, target: &LintTarget) -> CheckOutcome {
        let track = &target.track;
        match &track.fields.track {
            None => CheckOutcome::Passed,
            Some(CountField::Invalid(_)) => CheckOutcome::single(
                self.error(string_from("Track number format is invalid")),
            ),
            Some(CountField::Valid(c)) => {
                if c.number == 0 || c.total == 0 || c.number > c.total {
                    CheckOutcome::single(self.error(string_from("Track number is out of valid range")))
                } else {
                    CheckOutcome::Passed
                }
            },
        }
    }
}

} // verus!
