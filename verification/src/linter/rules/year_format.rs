//! Rule `year.format`.
use vstd::prelude::*;
use crate::linter::lint_target::{LintTarget, TargetView};
use crate::linter::result::{one, CheckOutcome, OutcomeView};
use crate::linter::rule::{Rule, RuleMetadata};
use crate::linter::violation::error_v;
use crate::text::{chars_of, decimal_digit, regex_decimal_digit, string_from};
use crate::track::TrackView;

verus! {

/// The year must be four digits (`^\d{4}$`).
pub struct YearFormatRule;

/// Exactly four characters of the class `\d`.
pub open spec fn is_four_digit_year(y: Seq<char>) -> bool {
    y.len() == 4 && forall|i: int| 0 <= i < 4 ==> regex_decimal_digit(#[trigger] y[i])
}

pub open spec fn year_format_outcome(t: TrackView) -> OutcomeView {
    match t.fields.year {
        None => OutcomeView::Passed,
        Some(y) => if is_four_digit_year(y) {
            OutcomeView::Passed
        } else {
            one(error_v("Year must be in YYYY format"@))
        },
    }
}

impl Rule for YearFormatRule {
    open spec fn rule_id(&self) -> Seq<char> {
        "year.format"@
    }

    open spec fn outcome(&self, target: TargetView) -> OutcomeView {
        year_format_outcome(target.track)
    }

    fn metadata(&self) -> RuleMetadata {
        RuleMetadata {
            id: "year.format",
            description: "Year must be a four-digit numeric value.\n\nValid:\n- 2015\n- 1999\n\nInvalid:\n- 15 (too short)\n- 20A5 (non-numeric)\n",
            autofix_notes: None,
        }
    }

    fn check(&self, target: &LintTarget) -> CheckOutcome {
        let year = match &target.track.fields.year {
            Some(y) => chars_of(y.as_str()),
            None => {
                return CheckOutcome::Passed;
            },
        };
        if year.len() == 4 && decimal_digit(year[0]) && decimal_digit(year[1]) && decimal_digit(
            year[2],
        ) && decimal_digit(year[3]) {
            return CheckOutcome::Passed;
        }
        proof {
            if is_four_digit_year(year@) {
                assert(regex_decimal_digit(year@[0]));
                assert(regex_decimal_digit(year@[1]));
                assert(regex_decimal_digit(year@[2]));
                assert(regex_decimal_digit(year@[3]));
            }
        }
        CheckOutcome::single(self.error(string_from("Year must be in YYYY format")))
    }
}

} // verus!
