//! Rule `artist.separator-standardization`.
use vstd::prelude::*;
use crate::linter::lint_target::{LintTarget, TargetView};
use crate::linter::pattern::{is_match, is_match_exec, replace_all, replace_all_exec, Pattern};
use crate::linter::result::{one, CheckOutcome, OutcomeView};
use crate::linter::rule::{Rule, RuleMetadata};
use crate::linter::violation::{error_v, fix_result, fixed, replace_in_artist, Fix, FixView};
use crate::text::{chars_of, string_from, string_of};
use crate::track::{Track, TrackView};

verus! {

/// Artists must be joined with the canonical tokens `&` and `vs`, not with
/// `and`, `vs.` or `versus`.
pub struct ArtistSeparatorStandardizationRule;

pub open spec fn separator_standardization_outcome(t: TrackView) -> OutcomeView {
    match t.fields.artist {
        Some(a) => if is_match(Pattern::NonCanonSeparator, a) {
            one(fixed(error_v("Artist connectors are not canonical"@), FixView::StandardizeSeparators))
        } else {
            OutcomeView::Passed
        },
        None => OutcomeView::Passed,
    }
}

/// Rewrites `and` to `&`, and `vs.` and `versus` to `vs`, where they stand
/// between white space.
pub fn standardize_separators(artist: &str) -> (r: String)
    ensures
        r@ == replace_all(Pattern::NonCanonSeparator, artist@),
{
    string_of(&replace_all_exec(Pattern::NonCanonSeparator, &chars_of(artist)))
}

pub fn fix_standardize_separators(track: &mut Track)
    ensures
        final(track)@ == fix_result(FixView::StandardizeSeparators, old(track)@),
{
    replace_in_artist(track, Pattern::NonCanonSeparator)
}

impl Rule for ArtistSeparatorStandardizationRule {
    open spec fn rule_id(&self) -> Seq<char> {
        "artist.separator-standardization"@
    }

    open spec fn outcome(&self, target: TargetView) -> OutcomeView {
        separator_standardization_outcome(target.track)
    }

    fn metadata(&self) -> RuleMetadata {
        RuleMetadata {
            id: "artist.separator-standardization",
            description: "Artist collaboration separators must use canonical tokens.\n\nValid:\n- A & B\n- A vs B\n\nInvalid:\n- A and B (use &)\n- A vs. B (use vs without period)\n- A versus B (use vs)\n",
            autofix_notes: Some("Rewrites non-canonical tokens to their canonical form:\n- `and` → `&`\n- `vs.` → `vs`\n- `versus` → `vs`\n"),
        }
    }

    fn check(&self, target: &LintTarget) -> CheckOutcome {
        let a = match &target.track.fields.artist {
            Some(a) => chars_of(a.as_str()),
            None => {
                return CheckOutcome::Passed;
            },
        };
        if !is_match_exec(Pattern::NonCanonSeparator, &a) {
            return CheckOutcome::Passed;
        }
        CheckOutcome::single(
            self.error(string_from("Artist connectors are not canonical")).with_fix(
                Fix::StandardizeSeparators,
            ),
        )
    }
}

} // verus!
