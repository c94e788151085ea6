//! Rule `meta.text-trimmed`.
use vstd::prelude::*;
use crate::linter::lint_target::{LintTarget, TargetView};
use crate::linter::result::{opt_v, outcome_of, push_when, violation_views, CheckOutcome, OutcomeView};
use crate::linter::rule::{Rule, RuleMetadata};
use crate::linter::text_field::{field_value, TagField};
use crate::linter::violation::{error_v, fix_result, fixed, Fix, FixView, RuleViolation, ViolationView};
use crate::text::{chars_eq, chars_of, push_str, string_of, trim_chars, trim_ws, CharClass};
use crate::track::{Track, TrackView};

verus! {

/// Text-valued fields must have no white space at either end.
pub struct MetaTextTrimmedRule;

/// The field holds a value with white space at an end.
pub open spec fn field_untrimmed(f: TagField, t: TrackView) -> bool {
    match field_value(f, t) {
        Some(v) => trim_ws(v) != v,
        None => false,
    }
}

/// One violation per field of `fs` with white space at an end, in the order
/// of `fs`, each with a fix that trims that field.
pub open spec fn trim_violations(t: TrackView, fs: Seq<TagField>) -> Seq<ViolationView>
    decreases fs.len(),
{
    if fs.len() == 0 {
        Seq::empty()
    } else {
        trim_violations(t, fs.drop_last()) + opt_v(
            field_untrimmed(fs.last(), t),
            fixed(
                error_v("`"@ + fs.last().name_spec() + "` has leading or trailing whitespace"@),
                FixView::TrimField(fs.last()),
            ),
        )
    }
}

pub open spec fn text_trimmed_outcome(t: TrackView) -> OutcomeView {
    outcome_of(trim_violations(t, TagField::all_spec()))
}

/// Trims white space from both ends of one field.
pub fn fix_trim_field(field: TagField, track: &mut Track)
    ensures
        final(track)@ == fix_result(FixView::TrimField(field), old(track)@),
{
    let r = match field.get(track) {
        Some(v) => string_of(&trim_chars(CharClass::WhiteSpace, &chars_of(v))),
        None => {
            return ;
        },
    };
    field.set(track, r);
}

impl Rule for MetaTextTrimmedRule {
    open spec fn rule_id(&self) -> Seq<char> {
        "meta.text-trimmed"@
    }

    open spec fn outcome(&self, target: TargetView) -> OutcomeView {
        text_trimmed_outcome(target.track)
    }

    fn metadata(&self) -> RuleMetadata {
        RuleMetadata {
            id: "meta.text-trimmed",
            description: "Text-valued tag fields must have no leading or trailing whitespace.\nApplies to every string-valued tag field (artist, title, album,\nremixer, publisher, catalog_id, year, genre, key, bpm).\n\nValid:\n- artist=Artist\n- bpm=128.5\n\nInvalid:\n- artist=\" Artist\" (leading whitespace)\n- title=\"Title  \" (trailing whitespace)\n",
            autofix_notes: Some("Emits one violation per affected field. Each fix trims that\nfield's value.\n\nWhitespace-only values trim to empty strings — emptiness is\ncaught separately by `meta.required-fields-present`.\n"),
        }
    }

    fn check(&self, target: &LintTarget) -> CheckOutcome {
        let track = &target.track;
        let fields = TagField::all();
        let mut v: Vec<RuleViolation> = Vec::new();
        let mut k: usize = 0;
        while k < 10
            invariant
                k <= 10,
                fields@ == TagField::all_spec(),
                violation_views(v@) == trim_violations(track@, TagField::all_spec().subrange(0, k as int)),
            decreases 10 - k,
        {
            let f = fields[k];
            let untrimmed = match f.get(track) {
                Some(value) => {
                    let c = chars_of(value);
                    !chars_eq(&trim_chars(CharClass::WhiteSpace, &c), &c)
                },
                None => false,
            };
            let mut m: Vec<char> = Vec::new();
            push_str(&mut m, "`");
            push_str(&mut m, f.name());
            push_str(&mut m, "` has leading or trailing whitespace");
            push_when(&mut v, untrimmed, self.error(string_of(&m)).with_fix(Fix::TrimField(f)));
            assert(TagField::all_spec().subrange(0, k + 1).drop_last() =~= TagField::all_spec().subrange(
                0,
                k as int,
            ));
            k = k + 1;
        }
        assert(TagField::all_spec().subrange(0, 10) =~= TagField::all_spec());
        CheckOutcome::from_violations(v)
    }
}

} // verus!
