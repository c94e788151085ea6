//! Rule `meta.no-smart-quotes`.
use vstd::prelude::*;
use crate::linter::lint_target::{LintTarget, TargetView};
use crate::linter::result::{opt_v, outcome_of, push_when, violation_views, CheckOutcome, OutcomeView};
use crate::linter::rule::{Rule, RuleMetadata};
use crate::linter::text_field::{field_value, map_field, TextField};
use crate::linter::violation::{error_v, fix_result, fixed, Fix, FixView, RuleViolation, ViolationView};
use crate::text::{chars_of, push_str, string_of};
use crate::track::{Track, TrackView};

verus! {

/// Text fields must not hold smart quotes.
pub struct MetaNoSmartQuotesRule;

/// `“`, `”`, `‘`, `’`, `´` or a backtick.
pub open spec fn is_smart_quote(c: char) -> bool {
    ||| c == '\u{201c}'
    ||| c == '\u{201d}'
    ||| c == '\u{2018}'
    ||| c == '\u{2019}'
    ||| c == '\u{b4}'
    ||| c == '`'
}

/// Double smart quotes become `"`; single ones, acute accents and
/// backticks become `'`; everything else stays.
pub open spec fn quote_replaced(c: char) -> char {
    if c == '\u{201c}' || c == '\u{201d}' {
        '"'
    } else if c == '\u{2018}' || c == '\u{2019}' || c == '\u{b4}' || c == '`' {
        '\''
    } else {
        c
    }
}

pub open spec fn replace_quotes(s: Seq<char>) -> Seq<char> {
    s.map_values(|c: char| quote_replaced(c))
}

pub open spec fn has_quotes(s: Seq<char>) -> bool {
    exists|i: int| 0 <= i < s.len() && #[trigger] is_smart_quote(s[i])
}

/// The field holds a value with a smart quote in it.
pub open spec fn field_has_quotes(f: TextField, t: TrackView) -> bool {
    match field_value(f.tag_field(), t) {
        Some(v) => has_quotes(v),
        None => false,
    }
}

/// One violation per field of `fs` that holds a smart quote, in the order of
/// `fs`, each with `prefix`, the field's name and a backtick as its message,
/// and with a fix for that field alone.
pub open spec fn quote_violations(
    t: TrackView,
    fs: Seq<TextField>,
    prefix: Seq<char>,
    disallowed: bool,
) -> Seq<ViolationView>
    decreases fs.len(),
{
    if fs.len() == 0 {
        Seq::empty()
    } else {
        quote_violations(t, fs.drop_last(), prefix, disallowed) + opt_v(
            field_has_quotes(fs.last(), t),
            fixed(
                error_v(prefix + fs.last().name_spec() + "`"@),
                if disallowed {
                    FixView::ReplaceDisallowed(fs.last())
                } else {
                    FixView::ReplaceSmartQuotes(fs.last())
                },
            ),
        )
    }
}

pub open spec fn smart_quotes_outcome(t: TrackView) -> OutcomeView {
    outcome_of(quote_violations(t, TextField::all_spec(), "Smart quotes in `"@, false))
}

fn quote_replaced_exec(c: char) -> (r: char)
    ensures
        r == quote_replaced(c),
{
    if c == '\u{201c}' || c == '\u{201d}' {
        '"'
    } else if c == '\u{2018}' || c == '\u{2019}' || c == '\u{b4}' || c == '`' {
        '\''
    } else {
        c
    }
}

/// Replaces smart quotes (see `quote_replaced`).
pub fn replace_smart_quotes(s: &str) -> (r: String)
    ensures
        r@ == replace_quotes(s@),
{
    let v = chars_of(s);
    let mut out: Vec<char> = Vec::new();
    let mut i: usize = 0;
    while i < v.len()
        invariant
            i <= v.len(),
            out@ == replace_quotes(v@.subrange(0, i as int)),
        decreases v.len() - i,
    {
        out.push(quote_replaced_exec(v[i]));
        i = i + 1;
        assert(out@ =~= replace_quotes(v@.subrange(0, i as int)));
    }
    assert(v@.subrange(0, v.len() as int) =~= v@);
    string_of(&out)
}

/// Whether `s` holds a smart quote.
pub fn has_smart_quotes(s: &str) -> (r: bool)
    ensures
        r == has_quotes(s@),
{
    let v = chars_of(s);
    let mut i: usize = 0;
    while i < v.len()
        invariant
            i <= v.len(),
            v@ == s@,
            forall|k: int| 0 <= k < i ==> !#[trigger] is_smart_quote(v@[k]),
        decreases v.len() - i,
    {
        let c = v[i];
        if c == '\u{201c}' || c == '\u{201d}' || c == '\u{2018}' || c == '\u{2019}' || c == '\u{b4}'
            || c == '`' {
            assert(is_smart_quote(v@[i as int]));
            return true;
        }
        i = i + 1;
    }
    false
}

/// Replaces smart quotes in one field.
pub fn fix_replace_smart_quotes(field: TextField, track: &mut Track)
    ensures
        final(track)@ == fix_result(FixView::ReplaceSmartQuotes(field), old(track)@),
{
    let r = match field.get(track) {
        Some(v) => replace_smart_quotes(v),
        None => {
            return ;
        },
    };
    field.set(track, r);
}

/// The violations of the smart-quote check over all text fields: `prefix`
/// starts each message, and `disallowed` picks the kind of fix.
pub fn quote_violations_exec(
    track: &Track,
    prefix: &str,
    disallowed: bool,
) -> (r: Vec<RuleViolation>)
    ensures
        violation_views(r@) == quote_violations(track@, TextField::all_spec(), prefix@, disallowed),
{
    let fields = TextField::all();
    let mut v: Vec<RuleViolation> = Vec::new();
    let mut k: usize = 0;
    while k < 5
        invariant
            k <= 5,
            fields@ == TextField::all_spec(),
            violation_views(v@) == quote_violations(
                track@,
                TextField::all_spec().subrange(0, k as int),
                prefix@,
                disallowed,
            ),
        decreases 5 - k,
    {
        let f = fields[k];
        let has = match f.get(track) {
            Some(value) => has_smart_quotes(value),
            None => false,
        };
        let mut m: Vec<char> = Vec::new();
        push_str(&mut m, prefix);
        push_str(&mut m, f.name());
        push_str(&mut m, "`");
        let fix = if disallowed {
            Fix::ReplaceDisallowed(f)
        } else {
            Fix::ReplaceSmartQuotes(f)
        };
        push_when(&mut v, has, RuleViolation::error(string_of(&m)).with_fix(fix));
        assert(TextField::all_spec().subrange(0, k + 1).drop_last() =~= TextField::all_spec().subrange(
            0,
            k as int,
        ));
        k = k + 1;
    }
    assert(TextField::all_spec().subrange(0, 5) =~= TextField::all_spec());
    v
}

impl Rule for MetaNoSmartQuotesRule {
    open spec fn rule_id(&self) -> Seq<char> {
        "meta.no-smart-quotes"@
    }

    open spec fn outcome(&self, target: TargetView) -> OutcomeView {
        smart_quotes_outcome(target.track)
    }

    fn metadata(&self) -> RuleMetadata {
        RuleMetadata {
            id: "meta.no-smart-quotes",
            description: "Text metadata must not contain smart quote characters.\n\nValid:\n- Don't Stop\n- Artist \"Name\"\n\nInvalid:\n- Don’t Stop (contains curly apostrophe)\n- Artist “Name” (contains curly quotes)\n",
            autofix_notes: Some("Replaces smart quotes in every affected text field:\n- `“` `”` → `\"`\n- `‘` `’` `´` `` ` `` → `'`\n\nEmits one violation per affected field so each fix is scoped to\nthe field that triggered it.\n"),
        }
    }

    fn check(&self, target: &LintTarget) -> CheckOutcome {
        CheckOutcome::from_violations(
            quote_violations_exec(&target.track, "Smart quotes in `", false),
        )
    }
}

} // verus!
