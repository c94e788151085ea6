//! Rule `artist.feat-standardization`.
use vstd::prelude::*;
use crate::linter::lint_target::{LintTarget, TargetView};
use crate::linter::pattern::{find_from, first_match, match_end, replace_all, replace_all_exec, Pattern};
use crate::linter::result::{one, CheckOutcome, OutcomeView};
use crate::linter::rule::{Rule, RuleMetadata};
use crate::linter::violation::{error_v, fix_result, fixed, replace_in_artist, Fix, FixView};
use crate::text::{chars_are, chars_of, copy_range, string_from, string_of};
use crate::track::{Track, TrackView};

verus! {

/// The featuring token in the artist must be the canonical `Ft.`.
pub struct ArtistFeatStandardizationRule;

/// The first featuring token in `a` (between white space), as written;
/// `None` when there is none.
pub open spec fn first_feat_token(a: Seq<char>) -> Option<Seq<char>> {
    let p = first_match(Pattern::FeatVariant, a, 0);
    if p < 0 {
        None
    } else {
        Some(a.subrange(p + 1, match_end(Pattern::FeatVariant, a, p) - 1))
    }
}

pub open spec fn feat_standardization_outcome(t: TrackView) -> OutcomeView {
    match t.fields.artist {
        Some(a) => match first_feat_token(a) {
            Some(token) => if token == "Ft."@ {
                OutcomeView::Passed
            } else {
                one(fixed(error_v("Featuring token should be canonical Ft."@), FixView::StandardizeFeat))
            },
            None => OutcomeView::Passed,
        },
        None => OutcomeView::Passed,
    }
}

/// Rewrites every featuring token between white space to ` Ft. `.
pub fn standardize_feat(artist: &str) -> (r: String)
    ensures
        r@ == replace_all(Pattern::FeatVariant, artist@),
{
    string_of(&replace_all_exec(Pattern::FeatVariant, &chars_of(artist)))
}

pub fn fix_standardize_feat(track: &mut Track)
    ensures
        final(track)@ == fix_result(FixView::StandardizeFeat, old(track)@),
{
    replace_in_artist(track, Pattern::FeatVariant)
}

impl Rule for ArtistFeatStandardizationRule {
    open spec fn rule_id(&self) -> Seq<char> {
        "artist.feat-standardization"@
    }

    open spec fn outcome(&self, target: TargetView) -> OutcomeView {
        feat_standardization_outcome(target.track)
    }

    fn metadata(&self) -> RuleMetadata {
        RuleMetadata {
            id: "artist.feat-standardization",
            description: "Featuring token in artist field must be canonical Ft.\n\nValid:\n- Artist A Ft. Artist B\n- Artist A\n\nInvalid:\n- Artist A feat. Artist B (use Ft.)\n- Artist A featuring Artist B (use Ft.)\n",
            autofix_notes: Some("Replaces non-canonical featuring tokens (`feat.`, `featuring`,\n`ft.`, `ft`, case-insensitive) with `Ft.`.\n"),
        }
    }

    fn check(&self, target: &LintTarget) -> CheckOutcome {
        let a = match &target.track.fields.artist {
            Some(a) => chars_of(a.as_str()),
            None => {
                return CheckOutcome::Passed;
            },
        };
        let (p, e) = match find_from(Pattern::FeatVariant, &a, 0) {
            Some(m) => m,
            None => {
                return CheckOutcome::Passed;
            },
        };
        assert(e >= p + 4);
        let token = copy_range(&a, p + 1, e - 1);
        if chars_are(&token, "Ft.") {
            return CheckOutcome::Passed;
        }
        CheckOutcome::single(
            self.error(string_from("Featuring token should be canonical Ft.")).with_fix(
                Fix::StandardizeFeat,
            ),
        )
    }
}

} // verus!
