//! Rule `title.mix-suffix-style`.
use vstd::prelude::*;
use crate::linter::lint_target::{LintTarget, TargetView};
use crate::linter::pattern::{
    find_from, first_match, match_end, mix_group_end, mix_group_end_exec, replace_all,
    replace_all_exec, title_case_chars, Pattern,
};
use crate::linter::result::{one, CheckOutcome, OutcomeView};
use crate::linter::rule::{Rule, RuleMetadata};
use crate::linter::violation::{error_v, fix_result, fixed, Fix, FixView};
use crate::text::{chars_eq, chars_of, copy_range, string_from, string_of};
use crate::track::{Track, TrackView};

verus! {

/// The keyword of a mix, edit or version suffix must be in title case.
pub struct TitleMixSuffixStyleRule;

/// The keyword of the mix suffix `s[p..e]`.
pub open spec fn mix_keyword(s: Seq<char>, p: int, e: int) -> Seq<char> {
    s.subrange(mix_group_end(s, p + 1) + 1, e - 1)
}

/// Some mix suffix at or after `i` has a keyword that is not in title case.
pub open spec fn noncanonical_mix_from(s: Seq<char>, i: int) -> bool
    decreases s.len() - i,
{
    let p = first_match(Pattern::MixSuffix, s, i);
    if p < 0 {
        false
    } else {
        let e = match_end(Pattern::MixSuffix, s, p);
        if p < i || e <= p || e > s.len() {
            false
        } else {
            mix_keyword(s, p, e) != crate::linter::pattern::title_case(mix_keyword(s, p, e)) || noncanonical_mix_from(s, e)
        }
    }
}

pub open spec fn mix_suffix_outcome(t: TrackView) -> OutcomeView {
    match t.fields.title {
        Some(title) => if noncanonical_mix_from(title, 0) {
            one(fixed(error_v("Title mix suffix is not canonical"@), FixView::CanonicalizeMixSuffix))
        } else {
            OutcomeView::Passed
        },
        None => OutcomeView::Passed,
    }
}

fn noncanonical_mix_exec(s: &Vec<char>) -> (r: bool)
    ensures
        r == noncanonical_mix_from(s@, 0),
{
    let mut i: usize = 0;
    while i <= s.len()
        invariant
            i <= s.len(),
            noncanonical_mix_from(s@, 0) == noncanonical_mix_from(s@, i as int),
        decreases s.len() - i,
    {
        match find_from(Pattern::MixSuffix, s, i) {
            None => {
                return false;
            },
            Some((p, e)) => {
                let q = match mix_group_end_exec(s, p + 1) {
                    Some(q) => q,
                    None => {
                        return false;
                    },
                };
                proof {
                    crate::linter::pattern::lemma_mix_group_end(s@, p + 1);
                }
                let kw = copy_range(s, q + 1, e - 1);
                if !chars_eq(&kw, &title_case_chars(&kw)) {
                    return true;
                }
                i = e;
            },
        }
    }
    false
}

/// Title-cases the keyword of every mix suffix; the rest of each suffix is
/// kept, so that artist names keep their own casing.
pub fn canonicalize_mix_suffix(title: &str) -> (r: String)
    ensures
        r@ == replace_all(Pattern::MixSuffix, title@),
{
    string_of(&replace_all_exec(Pattern::MixSuffix, &chars_of(title)))
}

/// ASCII upper case for the first character, ASCII lower case for the rest.
pub fn title_case(s: &str) -> (r: String)
    ensures
        r@ == crate::linter::pattern::title_case(s@),
{
    string_of(&title_case_chars(&chars_of(s)))
}

pub fn fix_canonicalize_mix_suffix(track: &mut Track)
    ensures
        final(track)@ == fix_result(FixView::CanonicalizeMixSuffix, old(track)@),
{
    let r = match &track.fields.title {
        Some(t) => canonicalize_mix_suffix(t.as_str()),
        None => {
            return ;
        },
    };
    track.fields.title = Some(r);
}

impl Rule for TitleMixSuffixStyleRule {
    open spec fn rule_id(&self) -> Seq<char> {
        "title.mix-suffix-style"@
    }

    open spec fn outcome(&self, target: TargetView) -> OutcomeView {
        mix_suffix_outcome(target.track)
    }

    fn metadata(&self) -> RuleMetadata {
        RuleMetadata {
            id: "title.mix-suffix-style",
            description: "Mix/edit/version suffix in title must use canonical capitalization.\n\nValid:\n- Song (Artist Remix)\n- Song (Producer Edit)\n\nInvalid:\n- Song (artist remix) (non-canonical suffix style)\n- Song (artist version) (non-canonical suffix style)\n",
            autofix_notes: Some("Title-cases the mix/edit/version keyword inside the parens. The\nartist name portion is left untouched so intentionally lowercase\nartists like `deadmau5` are preserved.\n"),
        }
    }

    fn check(&self, target: &LintTarget) -> CheckOutcome {
        let title = match &target.track.fields.title {
            Some(t) => chars_of(t.as_str()),
            None => {
                return CheckOutcome::Passed;
            },
        };
        if !noncanonical_mix_exec(&title) {
            return CheckOutcome::Passed;
        }
        CheckOutcome::single(
            self.error(string_from("Title mix suffix is not canonical")).with_fix(
                Fix::CanonicalizeMixSuffix,
            ),
        )
    }
}

} // verus!
