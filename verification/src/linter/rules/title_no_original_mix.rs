//! Rule `title.no-original-mix`.
use vstd::prelude::*;
use crate::linter::lint_target::{LintTarget, TargetView};
use crate::linter::pattern::{is_match, is_match_exec, replace_all, replace_all_exec, Pattern};
use crate::linter::result::{one, CheckOutcome, OutcomeView};
use crate::linter::rule::{Rule, RuleMetadata};
use crate::linter::violation::{error_v, fix_result, fixed, Fix, FixView};
use crate::text::{chars_of, string_from, string_of, trim_chars, trim_ws, CharClass};
use crate::track::{Track, TrackView};

verus! {

/// The title must not carry an `(Original Mix)` marker.
pub struct TitleNoOriginalMixRule;

pub open spec fn no_original_mix_outcome(t: TrackView) -> OutcomeView {
    match t.fields.title {
        Some(title) => if is_match(Pattern::OriginalMix, title) {
            one(fixed(error_v("Title should not include (Original Mix)"@), FixView::StripOriginalMix))
        } else {
            OutcomeView::Passed
        },
        None => OutcomeView::Passed,
    }
}

/// Replaces each `(Original Mix)` and the white space around it with one
/// space, then trims the result.
pub fn strip_original_mix(title: &str) -> (r: String)
    ensures
        r@ == trim_ws(replace_all(Pattern::OriginalMix, title@)),
{
    let replaced = replace_all_exec(Pattern::OriginalMix, &chars_of(title));
    string_of(&trim_chars(CharClass::WhiteSpace, &replaced))
}

pub fn fix_strip_original_mix(track: &mut Track)
    ensures
        final(track)@ == fix_result(FixView::StripOriginalMix, old(track)@),
{
    let r = match &track.fields.title {
        Some(t) => strip_original_mix(t.as_str()),
        None => {
            return ;
        },
    };
    track.fields.title = Some(r);
}

impl Rule for TitleNoOriginalMixRule {
    open spec fn rule_id(&self) -> Seq<char> {
        "title.no-original-mix"@
    }

    open spec fn outcome(&self, target: TargetView) -> OutcomeView {
        no_original_mix_outcome(target.track)
    }

    fn metadata(&self) -> RuleMetadata {
        RuleMetadata {
            id: "title.no-original-mix",
            description: "Title must not include an Original Mix marker.\n\nValid:\n- Song\n- Song (Artist Remix)\n\nInvalid:\n- Song (Original Mix) (original mix label should be removed)\n- Song (ORIGINAL MIX) (case-insensitive match)\n",
            autofix_notes: Some("Removes the `(Original Mix)` suffix, collapsing surrounding\nwhitespace so middle-of-string occurrences don't leave gaps.\n"),
        }
    }

    fn check(&self, target: &LintTarget) -> CheckOutcome {
        let title = match &target.track.fields.title {
            Some(t) => chars_of(t.as_str()),
            None => {
                return CheckOutcome::Passed;
            },
        };
        if !is_match_exec(Pattern::OriginalMix, &title) {
            return CheckOutcome::Passed;
        }
        CheckOutcome::single(
            self.error(string_from("Title should not include (Original Mix)")).with_fix(
                Fix::StripOriginalMix,
            ),
        )
    }
}

} // verus!
