//! Rule `meta.disallowed-characters`.
use vstd::prelude::*;
use crate::linter::lint_target::{LintTarget, TargetView};
use crate::linter::result::{outcome_of, CheckOutcome, OutcomeView};
use crate::linter::rule::{Rule, RuleMetadata};
use crate::linter::rules::meta_no_smart_quotes::{
    has_quotes, has_smart_quotes, quote_violations, quote_violations_exec, replace_quotes,
    replace_smart_quotes,
};
use crate::linter::text_field::TextField;
use crate::linter::violation::{fix_result, FixView};
use crate::track::{Track, TrackView};

verus! {

/// Text fields must not hold disallowed characters; for now those are the
/// smart quotes.
pub struct MetaDisallowedCharactersRule;

pub open spec fn disallowed_characters_outcome(t: TrackView) -> OutcomeView {
    outcome_of(quote_violations(t, TextField::all_spec(), "Disallowed characters in `"@, true))
}

/// Replaces disallowed characters (see `quote_replaced`).
pub fn replace_disallowed(s: &str) -> (r: String)
    ensures
        r@ == replace_quotes(s@),
{
    replace_smart_quotes(s)
}

/// Whether `s` holds a disallowed character.
pub fn has_disallowed(s: &str) -> (r: bool)
    ensures
        r == has_quotes(s@),
{
    has_smart_quotes(s)
}

/// Replaces disallowed characters in one field.
pub fn fix_replace_disallowed(field: TextField, track: &mut Track)
    ensures
        final(track)@ == fix_result(FixView::ReplaceDisallowed(field), old(track)@),
{
    let r = match field.get(track) {
        Some(v) => replace_disallowed(v),
        None => {
            return ;
        },
    };
    field.set(track, r);
}

impl Rule for MetaDisallowedCharactersRule {
    open spec fn rule_id(&self) -> Seq<char> {
        "meta.disallowed-characters"@
    }

    open spec fn outcome(&self, target: TargetView) -> OutcomeView {
        disallowed_characters_outcome(target.track)
    }

    fn metadata(&self) -> RuleMetadata {
        RuleMetadata {
            id: "meta.disallowed-characters",
            description: "Text metadata must not contain disallowed characters. Currently\ncovers smart quotes.\n\nValid:\n- Don't Stop\n- Artist \"Name\"\n\nInvalid:\n- Don’t Stop (contains curly apostrophe)\n- Artist “Name” (contains curly quotes)\n",
            autofix_notes: Some("Replaces disallowed characters in every affected text field:\n- `“` `”` → `\"`\n- `‘` `’` `´` `` ` `` → `'`\n\nEmits one violation per affected field so each fix is scoped to\nthe field that triggered it.\n"),
        }
    }

    fn check(&self, target: &LintTarget) -> CheckOutcome {
        CheckOutcome::from_violations(
            quote_violations_exec(&target.track, "Disallowed characters in `", true),
        )
    }
}

} // verus!
