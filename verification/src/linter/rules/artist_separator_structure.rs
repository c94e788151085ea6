//! Rule `artist.separator-structure`.
use vstd::prelude::*;
use crate::linter::lint_target::{LintTarget, TargetView};
use crate::linter::pattern::{is_match, is_match_exec, Pattern};
use crate::linter::result::{opt_v, outcome_of, push_when, violation_views, CheckOutcome, OutcomeView};
use crate::linter::rule::{Rule, RuleMetadata};
use crate::linter::violation::{
    error_v, fix_result, fixed, replace_in_artist, Fix, FixView, RuleViolation, ViolationView,
};
use crate::text::{
    chars_of, class_contains, in_class, string_from, string_of, trim_chars, trim_end_chars,
    trim_start_chars, CharClass,
};
use crate::track::{Track, TrackView};

verus! {

/// Separators between artists must form a clean structure: no separators or
/// white space at either end, no white space before a comma, no runs of
/// white space, no doubled separators.
pub struct ArtistSeparatorStructureRule;

/// `,`, `&` or white space.
pub fn is_separator_or_ws(c: char) -> (r: bool)
    ensures
        r == in_class(CharClass::SeparatorOrSpace, c),
{
    class_contains(CharClass::SeparatorOrSpace, c)
}

/// `^[,&\s]+` matches.
pub open spec fn leading_junk(a: Seq<char>) -> bool {
    a.len() > 0 && in_class(CharClass::SeparatorOrSpace, a[0])
}

/// `[,&\s]+$` matches.
pub open spec fn trailing_junk(a: Seq<char>) -> bool {
    a.len() > 0 && in_class(CharClass::SeparatorOrSpace, a[a.len() - 1])
}

/// One violation per problem found, in a fixed order. The inner checks look
/// at the artist with separators and white space trimmed from both ends, so
/// that white space at an end is not also reported as a run.
pub open spec fn structure_violations(a: Seq<char>) -> Seq<ViolationView> {
    let body = crate::text::trim_class(CharClass::SeparatorOrSpace, a);
    opt_v(
        leading_junk(a),
        fixed(error_v("Artist has leading separator or whitespace"@), FixView::TrimLeadingJunk),
    ) + opt_v(
        trailing_junk(a),
        fixed(error_v("Artist has trailing separator or whitespace"@), FixView::TrimTrailingJunk),
    ) + opt_v(
        is_match(Pattern::SpaceBeforeComma, body),
        fixed(error_v("Artist has whitespace before comma"@), FixView::SpaceBeforeComma),
    ) + opt_v(
        is_match(Pattern::DoubleSpace, body),
        fixed(error_v("Artist has consecutive whitespace"@), FixView::CollapseSpaces),
    ) + opt_v(
        is_match(Pattern::DoubledComma, body),
        fixed(error_v("Artist has doubled comma separator"@), FixView::CollapseDoubledComma),
    ) + opt_v(
        is_match(Pattern::DoubledAmp, body),
        fixed(error_v("Artist has doubled ampersand separator"@), FixView::CollapseDoubledAmp),
    )
}

pub open spec fn separator_structure_outcome(t: TrackView) -> OutcomeView {
    match t.fields.artist {
        Some(a) => outcome_of(structure_violations(a)),
        None => OutcomeView::Passed,
    }
}

/// Trims separators and white space from the start of the artist.
pub fn fix_trim_leading(track: &mut Track)
    ensures
        final(track)@ == fix_result(FixView::TrimLeadingJunk, old(track)@),
{
    let r = match &track.fields.artist {
        Some(a) => trim_start_chars(CharClass::SeparatorOrSpace, &chars_of(a.as_str())),
        None => {
            return ;
        },
    };
    track.fields.artist = Some(string_of(&r));
}

/// Trims separators and white space from the end of the artist.
pub fn fix_trim_trailing(track: &mut Track)
    ensures
        final(track)@ == fix_result(FixView::TrimTrailingJunk, old(track)@),
{
    let r = match &track.fields.artist {
        Some(a) => trim_end_chars(CharClass::SeparatorOrSpace, &chars_of(a.as_str())),
        None => {
            return ;
        },
    };
    track.fields.artist = Some(string_of(&r));
}

/// Removes the white space before each comma of the artist.
pub fn fix_space_before_comma(track: &mut Track)
    ensures
        final(track)@ == fix_result(FixView::SpaceBeforeComma, old(track)@),
{
    replace_in_artist(track, Pattern::SpaceBeforeComma)
}

/// Collapses each run of white space in the artist to one space.
pub fn fix_collapse_spaces(track: &mut Track)
    ensures
        final(track)@ == fix_result(FixView::CollapseSpaces, old(track)@),
{
    replace_in_artist(track, Pattern::DoubleSpace)
}

/// Collapses each doubled comma in the artist to one.
pub fn fix_collapse_doubled_comma(track: &mut Track)
    ensures
        final(track)@ == fix_result(FixView::CollapseDoubledComma, old(track)@),
{
    replace_in_artist(track, Pattern::DoubledComma)
}

/// Collapses each doubled ampersand in the artist to one.
pub fn fix_collapse_doubled_amp(track: &mut Track)
    ensures
        final(track)@ == fix_result(FixView::CollapseDoubledAmp, old(track)@),
{
    replace_in_artist(track, Pattern::DoubledAmp)
}

impl Rule for ArtistSeparatorStructureRule {
    open spec fn rule_id(&self) -> Seq<char> {
        "artist.separator-structure"@
    }

    open spec fn outcome(&self, target: TargetView) -> OutcomeView {
        separator_structure_outcome(target.track)
    }

    fn metadata(&self) -> RuleMetadata {
        RuleMetadata {
            id: "artist.separator-structure",
            description: "Artist separators must form a clean structure with no malformed\nwhitespace or duplicated separators. Any mix of canonical\nseparators (`,`, `vs`, `&`) is allowed; choice is left to the\nwriter.\n\nSpecifically: no leading or trailing whitespace or separators,\nno whitespace before a comma, no consecutive whitespace inside\nthe body, and no duplicated separators (`,,`, `& &`, etc.).\n\nValid:\n- A & B\n- A vs B\n- A, B, C\n- Technikore vs Dougal & Gammer\n- Aly & Fila, Lostly\n\nInvalid:\n- A & & B (duplicate separator)\n- A ,  B (bad spacing)\n- , A & B (leading separator)\n",
            autofix_notes: Some("Emits one violation per detected issue, each with its own fix:\n- Leading separator/whitespace → trimmed.\n- Trailing separator/whitespace → trimmed.\n- Whitespace before comma → removed.\n- Consecutive whitespace → collapsed to a single space.\n- Doubled comma (`,,`, `, ,`) → collapsed to one.\n- Doubled ampersand (`& &`) → collapsed to one.\n\nMixed-type doubled separators between the same pair (e.g.\n`A , vs B`) are not detected — those need artist tokenization.\n"),
        }
    }

    fn check(&self, target: &LintTarget) -> CheckOutcome {
        let a = match &target.track.fields.artist {
            Some(a) => chars_of(a.as_str()),
            None => {
                return CheckOutcome::Passed;
            },
        };
        let ghost av = a@;
        let body = trim_chars(CharClass::SeparatorOrSpace, &a);
        let mut v: Vec<RuleViolation> = Vec::new();
        let leading = a.len() > 0 && is_separator_or_ws(a[0]);
        push_when(
            &mut v,
            leading,
            self.error(string_from("Artist has leading separator or whitespace")).with_fix(
                Fix::TrimLeadingJunk,
            ),
        );
        assert(violation_views(v@) =~= opt_v(
            leading_junk(av),
            fixed(error_v("Artist has leading separator or whitespace"@), FixView::TrimLeadingJunk),
        ));
        let trailing = a.len() > 0 && is_separator_or_ws(a[a.len() - 1]);
        push_when(
            &mut v,
            trailing,
            self.error(string_from("Artist has trailing separator or whitespace")).with_fix(
                Fix::TrimTrailingJunk,
            ),
        );
        push_when(
            &mut v,
            is_match_exec(Pattern::SpaceBeforeComma, &body),
            self.error(string_from("Artist has whitespace before comma")).with_fix(
                Fix::SpaceBeforeComma,
            ),
        );
        push_when(
            &mut v,
            is_match_exec(Pattern::DoubleSpace, &body),
            self.error(string_from("Artist has consecutive whitespace")).with_fix(
                Fix::CollapseSpaces,
            ),
        );
        push_when(
            &mut v,
            is_match_exec(Pattern::DoubledComma, &body),
            self.error(string_from("Artist has doubled comma separator")).with_fix(
                Fix::CollapseDoubledComma,
            ),
        );
        push_when(
            &mut v,
            is_match_exec(Pattern::DoubledAmp, &body),
            self.error(string_from("Artist has doubled ampersand separator")).with_fix(
                Fix::CollapseDoubledAmp,
            ),
        );
        CheckOutcome::from_violations(v)
    }
}

} // verus!
