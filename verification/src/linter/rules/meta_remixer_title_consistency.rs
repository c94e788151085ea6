//! Rule `meta.remixer-title-consistency`.
use vstd::prelude::*;
use crate::linter::lint_target::{LintTarget, TargetView};
use crate::linter::pattern::{find_from, first_match, remix_group_end, remix_group_end_exec, Pattern};
use crate::linter::result::{one, CheckOutcome, OutcomeView};
use crate::linter::rule::{present_trimmed, present_trimmed_exec, Rule, RuleMetadata};
use crate::linter::text_field::{with_field, TagField};
use crate::linter::violation::{error_v, fixed, Fix, FixView};
use crate::text::{chars_eq, chars_of, copy_range, opt_chars, string_from, string_of, trim_chars, trim_ws, CharClass};
use crate::track::{opt_text, or_empty, Track, TrackView};

verus! {

/// The remixer field and the remix note in the title must agree.
pub struct MetaRemixerTitleConsistencyRule;

/// The artist of the first `(Artist Remix)` note in the title, trimmed.
pub open spec fn remix_artist(title: Seq<char>) -> Option<Seq<char>> {
    let p = first_match(Pattern::RemixArtist, title, 0);
    if p < 0 {
        None
    } else {
        Some(trim_ws(title.subrange(p + 1, remix_group_end(title, p + 2))))
    }
}

pub open spec fn remixer_title_outcome(t: TrackView) -> OutcomeView {
    let remixer = present_trimmed(t.fields.remixer);
    let artist = remix_artist(or_empty(t.fields.title));
    match (remixer, artist) {
        (None, Some(_)) => one(
            fixed(error_v("Title has remix signal but remixer field is empty"@), FixView::ExtractRemixer),
        ),
        (Some(_), None) => one(error_v("Remixer is set but title has no remix signal"@)),
        (Some(r), Some(a)) => if r != a {
            one(
                fixed(error_v("Remixer field does not match title remix note"@), FixView::ExtractRemixer),
            )
        } else {
            OutcomeView::Passed
        },
        (None, None) => OutcomeView::Passed,
    }
}

/// The track with the remixer set to the artist of the title's remix note,
/// where the title has one.
pub open spec fn extract_remixer_fixed(t: TrackView) -> TrackView {
    match t.fields.title {
        Some(title) => match remix_artist(title) {
            Some(a) => with_field(TagField::Remixer, t, Some(a)),
            None => t,
        },
        None => t,
    }
}

fn remix_artist_exec(title: &Vec<char>) -> (r: Option<Vec<char>>)
    ensures
        opt_chars(r) == remix_artist(title@),
{
    match find_from(Pattern::RemixArtist, title, 0) {
        None => None,
        Some((p, e)) => {
            assert(p + 2 <= title.len());
            match remix_group_end_exec(title, p + 2) {
                Some(q) => {
                    proof {
                        crate::linter::pattern::lemma_remix_group_end(title@, p + 2);
                    }
                    Some(trim_chars(CharClass::WhiteSpace, &copy_range(title, p + 1, q)))
                },
                None => None,
            }
        },
    }
}

/// Writes the artist of the title's remix note into the remixer field.
pub fn extract_remixer_from_title(track: &mut Track)
    ensures
        final(track)@ == extract_remixer_fixed(old(track)@),
{
    let a = match &track.fields.title {
        Some(t) => remix_artist_exec(&chars_of(t.as_str())),
        None => {
            return ;
        },
    };
    match a {
        Some(a) => {
            track.fields.remixer = Some(string_of(&a));
        },
        None => {},
    }
}

impl Rule for MetaRemixerTitleConsistencyRule {
    open spec fn rule_id(&self) -> Seq<char> {
        "meta.remixer-title-consistency"@
    }

    open spec fn outcome(&self, target: TargetView) -> OutcomeView {
        remixer_title_outcome(target.track)
    }

    fn metadata(&self) -> RuleMetadata {
        RuleMetadata {
            id: "meta.remixer-title-consistency",
            description: "Remixer field and title remix note must agree.\n\nValid:\n- title=Song (Remixer Remix), remixer=Remixer\n- title=Song, remixer missing\n\nInvalid:\n- title=Song (Other Remix), remixer=Remixer (name mismatch)\n- title=Song (Remixer Remix), remixer missing (missing remixer field)\n",
            autofix_notes: Some("Treats the title as authoritative — extracts the artist from the\ntitle's `(Artist Remix)` group and writes it into the remixer\nfield. Fires for both \"remixer empty\" and \"remixer mismatched\"\ncases.\n\nDoes NOT fix the opposite case (remixer set, title has no remix\nnote). Writing a remix suffix into the title requires deciding\nplacement and style, which isn't clear cut.\n"),
        }
    }

    fn check(&self, target: &LintTarget) -> CheckOutcome {
        let fields = &target.track.fields;
        let title = match &fields.title {
            Some(t) => chars_of(t.as_str()),
            None => Vec::new(),
        };
        assert(title@ == or_empty(opt_text(fields.title)));
        let remixer = present_trimmed_exec(&fields.remixer);
        let artist = remix_artist_exec(&title);
        match (remixer, artist) {
            (None, Some(_)) => CheckOutcome::single(
                self.error(string_from("Title has remix signal but remixer field is empty")).with_fix(
                    Fix::ExtractRemixer,
                ),
            ),
            (Some(_), None) => CheckOutcome::single(
                self.error(string_from("Remixer is set but title has no remix signal")),
            ),
            (Some(r), Some(a)) => {
                if !chars_eq(&r, &a) {
                    CheckOutcome::single(
                        self.error(string_from("Remixer field does not match title remix note")).with_fix(
                            Fix::ExtractRemixer,
                        ),
                    )
                } else {
                    CheckOutcome::Passed
                }
            },
            (None, None) => CheckOutcome::Passed,
        }
    }
}

} // verus!
