//! Rule `disc.count-format`.
use vstd::prelude::*;
use crate::linter::lint_target::{LintTarget, TargetView};
use crate::linter::result::{one, CheckOutcome, OutcomeView};
use crate::linter::rule::{Rule, RuleMetadata};
use crate::linter::violation::error_v;
use crate::text::string_from;
use crate::track::{CountField, CountFieldView, TrackView};

verus! {

/// A disc count, when present, must parse and have a number between 1 and its total.
pub struct DiscCountFormatRule;

/// A disc count, when present, must parse and have a number between 1 and its total.
pub open spec fn disc_count_format_outcome(t: TrackView) -> OutcomeView {
    match t.fields.disc {
        None => OutcomeView::Passed,
        Some(CountFieldView::Invalid(_)) => one(error_v("Disc number format is invalid"@)),
        Some(CountFieldView::Valid(c)) => if c.number == 0 || c.total == 0 || c.number > c.total {
            one(error_v("Disc number is out of valid range"@))
        } else {
            OutcomeView::Passed
        },
    }
}

impl Rule for DiscCountFormatRule {
    open spec fn rule_id(&self) -> Seq<char> {
        "disc.count-format"@
    }

    open spec fn outcome(&self, target: TargetView) -> OutcomeView {
        disc_count_format_outcome(target.track)
    }

    fn metadata(&self) -> RuleMetadata {
        RuleMetadata {
            id: "disc.count-format",
            description: "Disc count must be parseable and internally valid when present.\n\nValid:\n- 01/02\n- 1/1\n\nInvalid:\n- x/y (not parseable)\n- 3/2 (disc number greater than total)\n",
            autofix_notes: None,
        }
    }

    fn check(&self, target: &LintTarget) -> CheckOutcome {
        let track = &target.track;
        match &track.fields.disc {
            None => CheckOutcome::Passed,
            Some(CountField::Invalid(_)) => CheckOutcome::single(
                self.error(string_from("Disc number format is invalid")),
            ),
            Some(CountField::Valid(c)) => {
                if c.number == 0 || c.total == 0 || c.number > c.total {
                    CheckOutcome::single(self.error(string_from("Disc number is out of valid range")))
                } else {
                    CheckOutcome::Passed
                }
            },
        }
    }
}

} // verus!
