//! The text patterns that the lint rules look for, matched with the
//! semantics of a leftmost-first regular-expression search: a match starts
//! at the leftmost position where one exists; at that position the preferred
//! alternative wins (greedy runs as long as possible, lazy groups as short as
//! possible); `replace_all` and repeated captures continue after the end of
//! the previous match.
use vstd::prelude::*;
use crate::text::{
    ascii_lower_seq, ascii_upper, chars_eq, ci_at, ci_at_exec, copy_range, lemma_skip_class,
    lower_chars, push_all, regex_word_char, run_end, run_end_exec, skip_class, to_ascii_upper,
    word_char, ws_at, ws_at_exec, CharClass,
};

verus! {

/// The patterns of the artist and title rules, with the regular expression
/// that each stands for.
#[derive(Clone, Copy, PartialEq, Eq, Debug)]
pub enum Pattern {
    /// `\s+,`
    SpaceBeforeComma,
    /// `\s{2,}`
    DoubleSpace,
    /// `,\s*,`
    DoubledComma,
    /// `&\s*&`
    DoubledAmp,
    /// `(?i)\s(and|vs\.|versus)\s`
    NonCanonSeparator,
    /// `(?i)\s(featuring|feat\.?|ft\.?)\s`
    FeatVariant,
    /// `(?i)\s*\(original mix\)\s*`
    OriginalMix,
    /// `(?i)\(([^\)]*?)\s(remix|edit|mix|version)\)`
    MixSuffix,
    /// `(?i)\(([^\)]+?)\s+remix\)`
    RemixArtist,
}

pub open spec fn lit_and() -> Seq<char> {
    seq!['a', 'n', 'd']
}

pub open spec fn lit_vs_dot() -> Seq<char> {
    seq!['v', 's', '.']
}

pub open spec fn lit_versus() -> Seq<char> {
    seq!['v', 'e', 'r', 's', 'u', 's']
}

pub open spec fn lit_featuring() -> Seq<char> {
    seq!['f', 'e', 'a', 't', 'u', 'r', 'i', 'n', 'g']
}

pub open spec fn lit_feat_dot() -> Seq<char> {
    seq!['f', 'e', 'a', 't', '.']
}

pub open spec fn lit_feat() -> Seq<char> {
    seq!['f', 'e', 'a', 't']
}

pub open spec fn lit_ft_dot() -> Seq<char> {
    seq!['f', 't', '.']
}

pub open spec fn lit_ft() -> Seq<char> {
    seq!['f', 't']
}

pub open spec fn lit_original_mix() -> Seq<char> {
    seq!['(', 'o', 'r', 'i', 'g', 'i', 'n', 'a', 'l', ' ', 'm', 'i', 'x', ')']
}

pub open spec fn lit_remix() -> Seq<char> {
    seq!['r', 'e', 'm', 'i', 'x']
}

pub open spec fn lit_edit() -> Seq<char> {
    seq!['e', 'd', 'i', 't']
}

pub open spec fn lit_mix() -> Seq<char> {
    seq!['m', 'i', 'x']
}

pub open spec fn lit_version() -> Seq<char> {
    seq!['v', 'e', 'r', 's', 'i', 'o', 'n']
}

/// The character at `i` exists and is `c`.
pub open spec fn char_at(s: Seq<char>, i: int, c: char) -> bool {
    0 <= i < s.len() && s[i] == c
}

/// `lit` occurs at `i` (case-insensitively) and white space follows it.
pub open spec fn lit_then_ws(s: Seq<char>, i: int, lit: Seq<char>) -> bool {
    ci_at(s, i, lit) && ws_at(s, i + lit.len())
}

/// `lit` occurs at `i` (case-insensitively) and `)` follows it.
pub open spec fn lit_then_close(s: Seq<char>, i: int, lit: Seq<char>) -> bool {
    ci_at(s, i, lit) && char_at(s, i + lit.len(), ')')
}

/// The length of the first of `remix`, `edit`, `mix`, `version` that occurs
/// at `i` followed by `)`, or -1.
pub open spec fn mix_keyword_len(s: Seq<char>, i: int) -> int {
    if lit_then_close(s, i, lit_remix()) {
        5
    } else if lit_then_close(s, i, lit_edit()) {
        4
    } else if lit_then_close(s, i, lit_mix()) {
        3
    } else if lit_then_close(s, i, lit_version()) {
        7
    } else {
        -1
    }
}

/// The end of the shortest group `[^\)]*?` that starts before `q`, reaches
/// at least `q`, and is followed by white space and a mix keyword in
/// parentheses; -1 when there is none.
pub open spec fn mix_group_end(s: Seq<char>, q: int) -> int
    decreases s.len() - q,
{
    if q < 0 || q >= s.len() {
        -1
    } else if ws_at(s, q) && mix_keyword_len(s, q + 1) >= 0 {
        q
    } else if s[q] == ')' {
        -1
    } else {
        mix_group_end(s, q + 1)
    }
}

/// White space, then `remix`, then `)`, starting at `q`.
pub open spec fn remix_after(s: Seq<char>, q: int) -> bool {
    ws_at(s, q) && lit_then_close(s, run_end(s, q), lit_remix())
}

/// The end of the shortest group `[^\)]+?` that reaches at least `q` and is
/// followed by `\s+remix\)`; -1 when there is none.
pub open spec fn remix_group_end(s: Seq<char>, q: int) -> int
    decreases s.len() - q,
{
    if q < 0 || q >= s.len() {
        -1
    } else if remix_after(s, q) {
        q
    } else if s[q] == ')' {
        -1
    } else {
        remix_group_end(s, q + 1)
    }
}

/// The end of the match of `pat` that starts at `p`, or -1 when no match
/// starts there.
pub open spec fn match_end(pat: Pattern, s: Seq<char>, p: int) -> int {
    match pat {
        Pattern::SpaceBeforeComma => if ws_at(s, p) && char_at(s, run_end(s, p), ',') {
            run_end(s, p) + 1
        } else {
            -1
        },
        Pattern::DoubleSpace => if 0 <= p && run_end(s, p) >= p + 2 {
            run_end(s, p)
        } else {
            -1
        },
        Pattern::DoubledComma => if char_at(s, p, ',') && char_at(s, run_end(s, p + 1), ',') {
            run_end(s, p + 1) + 1
        } else {
            -1
        },
        Pattern::DoubledAmp => if char_at(s, p, '&') && char_at(s, run_end(s, p + 1), '&') {
            run_end(s, p + 1) + 1
        } else {
            -1
        },
        Pattern::NonCanonSeparator => if !ws_at(s, p) {
            -1
        } else if lit_then_ws(s, p + 1, lit_and()) {
            p + 5
        } else if lit_then_ws(s, p + 1, lit_vs_dot()) {
            p + 5
        } else if lit_then_ws(s, p + 1, lit_versus()) {
            p + 8
        } else {
            -1
        },
        Pattern::FeatVariant => if !ws_at(s, p) {
            -1
        } else if lit_then_ws(s, p + 1, lit_featuring()) {
            p + 11
        } else if lit_then_ws(s, p + 1, lit_feat_dot()) {
            p + 7
        } else if lit_then_ws(s, p + 1, lit_feat()) {
            p + 6
        } else if lit_then_ws(s, p + 1, lit_ft_dot()) {
            p + 5
        } else if lit_then_ws(s, p + 1, lit_ft()) {
            p + 4
        } else {
            -1
        },
        Pattern::OriginalMix => if 0 <= p && ci_at(s, run_end(s, p), lit_original_mix()) {
            run_end(s, run_end(s, p) + 14)
        } else {
            -1
        },
        Pattern::MixSuffix => if char_at(s, p, '(') && mix_group_end(s, p + 1) >= 0 {
            mix_group_end(s, p + 1) + mix_keyword_len(s, mix_group_end(s, p + 1) + 1) + 2
        } else {
            -1
        },
        Pattern::RemixArtist => if char_at(s, p, '(') && p + 1 < s.len() && s[p + 1] != ')'
            && remix_group_end(s, p + 2) >= 0 {
            run_end(s, remix_group_end(s, p + 2)) + 6
        } else {
            -1
        },
    }
}

/// The leftmost position at or after `i` where a match of `pat` starts, or -1.
pub open spec fn first_match(pat: Pattern, s: Seq<char>, i: int) -> int
    decreases s.len() + 1 - i,
{
    if i < 0 || i > s.len() {
        -1
    } else if match_end(pat, s, i) >= 0 {
        i
    } else {
        first_match(pat, s, i + 1)
    }
}

/// `Regex::is_match`.
pub open spec fn is_match(pat: Pattern, s: Seq<char>) -> bool {
    first_match(pat, s, 0) >= 0
}

/// `str::to_ascii_uppercase` of the first character and
/// `str::to_ascii_lowercase` of the rest.
pub open spec fn title_case(s: Seq<char>) -> Seq<char> {
    if s.len() == 0 {
        s
    } else {
        seq![ascii_upper(s[0])] + ascii_lower_seq(s.drop_first())
    }
}

/// What a non-canonical artist separator is replaced with: `and` becomes
/// ` & `, `vs.` and `versus` become ` vs ` (compared after ASCII lower-casing);
/// anything else stays as it was.
pub open spec fn separator_replacement(m: Seq<char>) -> Seq<char> {
    let l = ascii_lower_seq(m.subrange(1, m.len() - 1));
    if l == lit_and() {
        seq![' ', '&', ' ']
    } else if l == lit_vs_dot() || l == lit_versus() {
        seq![' ', 'v', 's', ' ']
    } else {
        m
    }
}

/// `(prefix Keyword)`: the group kept as it is, one space, and the keyword in
/// title case.
pub open spec fn mix_replacement(s: Seq<char>, p: int, e: int) -> Seq<char> {
    let q = mix_group_end(s, p + 1);
    seq!['('] + s.subrange(p + 1, q) + seq![' '] + title_case(s.subrange(q + 1, e - 1)) + seq![')']
}

/// The text that `replace_all` puts in place of the match `s[p..e]`.
pub open spec fn replacement(pat: Pattern, s: Seq<char>, p: int, e: int) -> Seq<char> {
    match pat {
        Pattern::SpaceBeforeComma => seq![','],
        Pattern::DoubleSpace => seq![' '],
        Pattern::DoubledComma => seq![','],
        Pattern::DoubledAmp => seq!['&'],
        Pattern::NonCanonSeparator => separator_replacement(s.subrange(p, e)),
        Pattern::FeatVariant => seq![' ', 'F', 't', '.', ' '],
        Pattern::OriginalMix => seq![' '],
        Pattern::MixSuffix => mix_replacement(s, p, e),
        Pattern::RemixArtist => s.subrange(p, e),
    }
}

/// `Regex::replace_all` applied to `s[i..]`.
pub open spec fn replace_from(pat: Pattern, s: Seq<char>, i: int) -> Seq<char>
    decreases s.len() - i,
{
    let p = first_match(pat, s, i);
    if p < 0 {
        s.subrange(i, s.len() as int)
    } else {
        let e = match_end(pat, s, p);
        if p < i || e <= p || e > s.len() {
            s.subrange(i, s.len() as int)
        } else {
            s.subrange(i, p) + replacement(pat, s, p, e) + replace_from(pat, s, e)
        }
    }
}

/// `Regex::replace_all`.
pub open spec fn replace_all(pat: Pattern, s: Seq<char>) -> Seq<char> {
    replace_from(pat, s, 0)
}

/// A character of the class `\w` is at `i`.
pub open spec fn word_at(s: Seq<char>, i: int) -> bool {
    0 <= i < s.len() && regex_word_char(s[i])
}

/// `\b`: a word character on exactly one side of position `i`.
pub open spec fn word_boundary(s: Seq<char>, i: int) -> bool {
    word_at(s, i - 1) != word_at(s, i)
}

/// `lit` occurs at `p` (case-insensitively) with a word boundary on both sides.
pub open spec fn bounded_lit_at(s: Seq<char>, p: int, lit: Seq<char>) -> bool {
    ci_at(s, p, lit) && word_boundary(s, p) && word_boundary(s, p + lit.len())
}

/// `(?i)\b(feat\.?|featuring|ft\.?)\b` matches at `p`.
pub open spec fn feat_token_at(s: Seq<char>, p: int) -> bool {
    ||| bounded_lit_at(s, p, lit_feat_dot())
    ||| bounded_lit_at(s, p, lit_feat())
    ||| bounded_lit_at(s, p, lit_featuring())
    ||| bounded_lit_at(s, p, lit_ft_dot())
    ||| bounded_lit_at(s, p, lit_ft())
}

/// `(?i)\b(feat\.?|featuring|ft\.?)\b` matches somewhere in `s`.
pub open spec fn has_feat_token(s: Seq<char>) -> bool {
    exists|p: int| 0 <= p < s.len() && #[trigger] feat_token_at(s, p)
}

pub proof fn lemma_run_end(s: Seq<char>, i: int)
    requires
        0 <= i <= s.len(),
    ensures
        i <= run_end(s, i) <= s.len(),
        ws_at(s, i) ==> run_end(s, i) >= i + 1,
        !ws_at(s, i) ==> run_end(s, i) == i,
{
    lemma_skip_class(CharClass::WhiteSpace, s, i);
    if ws_at(s, i) {
        lemma_skip_class(CharClass::WhiteSpace, s, i + 1);
    }
}

pub proof fn lemma_mix_group_end(s: Seq<char>, q: int)
    requires
        0 <= q,
    ensures
        mix_group_end(s, q) >= 0 ==> {
            &&& q <= mix_group_end(s, q) < s.len()
            &&& ws_at(s, mix_group_end(s, q))
            &&& mix_keyword_len(s, mix_group_end(s, q) + 1) >= 0
        },
    decreases s.len() - q,
{
    if q < s.len() && !(ws_at(s, q) && mix_keyword_len(s, q + 1) >= 0) && s[q] != ')' {
        lemma_mix_group_end(s, q + 1);
    }
}

pub proof fn lemma_remix_group_end(s: Seq<char>, q: int)
    requires
        0 <= q,
    ensures
        remix_group_end(s, q) >= 0 ==> {
            &&& q <= remix_group_end(s, q) < s.len()
            &&& remix_after(s, remix_group_end(s, q))
        },
    decreases s.len() - q,
{
    if q < s.len() && !remix_after(s, q) && s[q] != ')' {
        lemma_remix_group_end(s, q + 1);
    }
}

/// A match ends after it starts and within the text.
pub proof fn lemma_match_end(pat: Pattern, s: Seq<char>, p: int)
    requires
        0 <= p <= s.len(),
        match_end(pat, s, p) >= 0,
    ensures
        p < match_end(pat, s, p) <= s.len(),
{
    lemma_run_end(s, p);
    match pat {
        Pattern::DoubledComma | Pattern::DoubledAmp => {
            lemma_run_end(s, p + 1);
        },
        Pattern::OriginalMix => {
            lemma_run_end(s, run_end(s, p) + 14);
        },
        Pattern::MixSuffix => {
            lemma_mix_group_end(s, p + 1);
        },
        Pattern::RemixArtist => {
            lemma_remix_group_end(s, p + 2);
            lemma_run_end(s, remix_group_end(s, p + 2));
        },
        _ => {},
    }
}

fn and_chars() -> (r: Vec<char>)
    ensures
        r@ == lit_and(),
{
    vec!['a', 'n', 'd']
}

fn vs_dot_chars() -> (r: Vec<char>)
    ensures
        r@ == lit_vs_dot(),
{
    vec!['v', 's', '.']
}

fn versus_chars() -> (r: Vec<char>)
    ensures
        r@ == lit_versus(),
{
    vec!['v', 'e', 'r', 's', 'u', 's']
}

fn featuring_chars() -> (r: Vec<char>)
    ensures
        r@ == lit_featuring(),
{
    vec!['f', 'e', 'a', 't', 'u', 'r', 'i', 'n', 'g']
}

fn feat_dot_chars() -> (r: Vec<char>)
    ensures
        r@ == lit_feat_dot(),
{
    vec!['f', 'e', 'a', 't', '.']
}

fn feat_chars() -> (r: Vec<char>)
    ensures
        r@ == lit_feat(),
{
    vec!['f', 'e', 'a', 't']
}

fn ft_dot_chars() -> (r: Vec<char>)
    ensures
        r@ == lit_ft_dot(),
{
    vec!['f', 't', '.']
}

fn ft_chars() -> (r: Vec<char>)
    ensures
        r@ == lit_ft(),
{
    vec!['f', 't']
}

fn original_mix_chars() -> (r: Vec<char>)
    ensures
        r@ == lit_original_mix(),
{
    vec!['(', 'o', 'r', 'i', 'g', 'i', 'n', 'a', 'l', ' ', 'm', 'i', 'x', ')']
}

fn remix_chars() -> (r: Vec<char>)
    ensures
        r@ == lit_remix(),
{
    vec!['r', 'e', 'm', 'i', 'x']
}

fn edit_chars() -> (r: Vec<char>)
    ensures
        r@ == lit_edit(),
{
    vec!['e', 'd', 'i', 't']
}

fn mix_chars() -> (r: Vec<char>)
    ensures
        r@ == lit_mix(),
{
    vec!['m', 'i', 'x']
}

fn version_chars() -> (r: Vec<char>)
    ensures
        r@ == lit_version(),
{
    vec!['v', 'e', 'r', 's', 'i', 'o', 'n']
}

fn char_at_exec(s: &Vec<char>, i: usize, c: char) -> (r: bool)
    ensures
        r == char_at(s@, i as int, c),
{
    i < s.len() && s[i] == c
}

fn lit_then_ws_exec(s: &Vec<char>, i: usize, lit: &Vec<char>) -> (r: bool)
    ensures
        r == lit_then_ws(s@, i as int, lit@),
{
    if !ci_at_exec(s, i, lit) {
        return false;
    }
    let len: usize = s.len();
    assert(i + lit@.len() <= len);
    ws_at_exec(s, i + lit.len())
}

fn lit_then_close_exec(s: &Vec<char>, i: usize, lit: &Vec<char>) -> (r: bool)
    ensures
        r == lit_then_close(s@, i as int, lit@),
{
    if !ci_at_exec(s, i, lit) {
        return false;
    }
    let len: usize = s.len();
    assert(i + lit@.len() <= len);
    char_at_exec(s, i + lit.len(), ')')
}

fn mix_keyword_len_exec(s: &Vec<char>, i: usize) -> (r: Option<usize>)
    ensures
        match r {
            Some(k) => mix_keyword_len(s@, i as int) == k as int,
            None => mix_keyword_len(s@, i as int) < 0,
        },
{
    if lit_then_close_exec(s, i, &remix_chars()) {
        Some(5)
    } else if lit_then_close_exec(s, i, &edit_chars()) {
        Some(4)
    } else if lit_then_close_exec(s, i, &mix_chars()) {
        Some(3)
    } else if lit_then_close_exec(s, i, &version_chars()) {
        Some(7)
    } else {
        None
    }
}

pub fn mix_group_end_exec(s: &Vec<char>, q0: usize) -> (r: Option<usize>)
    requires
        q0 <= s.len(),
    ensures
        match r {
            Some(q) => mix_group_end(s@, q0 as int) == q as int,
            None => mix_group_end(s@, q0 as int) < 0,
        },
{
    let mut q = q0;
    while q < s.len()
        invariant
            q0 <= q <= s.len(),
            mix_group_end(s@, q0 as int) == mix_group_end(s@, q as int),
        decreases s.len() - q,
    {
        if ws_at_exec(s, q) && mix_keyword_len_exec(s, q + 1).is_some() {
            return Some(q);
        }
        if s[q] == ')' {
            return None;
        }
        q = q + 1;
    }
    None
}

fn remix_after_exec(s: &Vec<char>, q: usize) -> (r: bool)
    requires
        q <= s.len(),
    ensures
        r == remix_after(s@, q as int),
{
    if !ws_at_exec(s, q) {
        return false;
    }
    let r = run_end_exec(s, q);
    lit_then_close_exec(s, r, &remix_chars())
}

pub fn remix_group_end_exec(s: &Vec<char>, q0: usize) -> (r: Option<usize>)
    requires
        q0 <= s.len(),
    ensures
        match r {
            Some(q) => remix_group_end(s@, q0 as int) == q as int,
            None => remix_group_end(s@, q0 as int) < 0,
        },
{
    let mut q = q0;
    while q < s.len()
        invariant
            q0 <= q <= s.len(),
            remix_group_end(s@, q0 as int) == remix_group_end(s@, q as int),
        decreases s.len() - q,
    {
        if remix_after_exec(s, q) {
            return Some(q);
        }
        if s[q] == ')' {
            return None;
        }
        q = q + 1;
    }
    None
}

/// The end of the match of `pat` that starts at `p`.
pub fn match_end_exec(pat: Pattern, s: &Vec<char>, p: usize) -> (r: Option<usize>)
    requires
        p <= s.len(),
    ensures
        match r {
            Some(e) => match_end(pat, s@, p as int) == e as int && p < e <= s.len(),
            None => match_end(pat, s@, p as int) < 0,
        },
{
    proof {
        lemma_run_end(s@, p as int);
    }
    let r: Option<usize> = match pat {
        Pattern::SpaceBeforeComma => {
            if ws_at_exec(s, p) {
                let e = run_end_exec(s, p);
                if char_at_exec(s, e, ',') {
                    Some(e + 1)
                } else {
                    None
                }
            } else {
                None
            }
        },
        Pattern::DoubleSpace => {
            let e = run_end_exec(s, p);
            if e - p >= 2 {
                Some(e)
            } else {
                None
            }
        },
        Pattern::DoubledComma | Pattern::DoubledAmp => {
            let c = match pat {
                Pattern::DoubledComma => ',',
                _ => '&',
            };
            if char_at_exec(s, p, c) {
                let e = run_end_exec(s, p + 1);
                if char_at_exec(s, e, c) {
                    Some(e + 1)
                } else {
                    None
                }
            } else {
                None
            }
        },
        Pattern::NonCanonSeparator => {
            if !ws_at_exec(s, p) {
                None
            } else if lit_then_ws_exec(s, p + 1, &and_chars()) {
                Some(p + 5)
            } else if lit_then_ws_exec(s, p + 1, &vs_dot_chars()) {
                Some(p + 5)
            } else if lit_then_ws_exec(s, p + 1, &versus_chars()) {
                Some(p + 8)
            } else {
                None
            }
        },
        Pattern::FeatVariant => {
            if !ws_at_exec(s, p) {
                None
            } else if lit_then_ws_exec(s, p + 1, &featuring_chars()) {
                Some(p + 11)
            } else if lit_then_ws_exec(s, p + 1, &feat_dot_chars()) {
                Some(p + 7)
            } else if lit_then_ws_exec(s, p + 1, &feat_chars()) {
                Some(p + 6)
            } else if lit_then_ws_exec(s, p + 1, &ft_dot_chars()) {
                Some(p + 5)
            } else if lit_then_ws_exec(s, p + 1, &ft_chars()) {
                Some(p + 4)
            } else {
                None
            }
        },
        Pattern::OriginalMix => {
            let q = run_end_exec(s, p);
            if ci_at_exec(s, q, &original_mix_chars()) {
                Some(run_end_exec(s, q + 14))
            } else {
                None
            }
        },
        Pattern::MixSuffix => {
            if char_at_exec(s, p, '(') {
                match mix_group_end_exec(s, p + 1) {
                    Some(q) => {
                        proof {
                            lemma_mix_group_end(s@, p + 1);
                        }
                        match mix_keyword_len_exec(s, q + 1) {
                            Some(k) => Some(q + k + 2),
                            None => None,
                        }
                    },
                    None => None,
                }
            } else {
                None
            }
        },
        Pattern::RemixArtist => {
            if char_at_exec(s, p, '(') && p + 1 < s.len() && s[p + 1] != ')' {
                match remix_group_end_exec(s, p + 2) {
                    Some(q) => {
                        proof {
                            lemma_remix_group_end(s@, p + 2);
                        }
                        Some(run_end_exec(s, q) + 6)
                    },
                    None => None,
                }
            } else {
                None
            }
        },
    };
    proof {
        if match_end(pat, s@, p as int) >= 0 {
            lemma_match_end(pat, s@, p as int);
        }
    }
    r
}

/// Where the leftmost match of `pat` at or after `i` starts and ends.
pub fn find_from(pat: Pattern, s: &Vec<char>, i: usize) -> (r: Option<(usize, usize)>)
    requires
        i <= s.len(),
    ensures
        match r {
            Some((p, e)) => {
                &&& first_match(pat, s@, i as int) == p as int
                &&& match_end(pat, s@, p as int) == e as int
                &&& i <= p < e <= s.len()
            },
            None => first_match(pat, s@, i as int) < 0,
        },
{
    let mut p = i;
    while p < s.len()
        invariant
            i <= p <= s.len(),
            first_match(pat, s@, i as int) == first_match(pat, s@, p as int),
        decreases s.len() - p,
    {
        match match_end_exec(pat, s, p) {
            Some(e) => {
                return Some((p, e));
            },
            None => {},
        }
        p = p + 1;
    }
    match match_end_exec(pat, s, p) {
        Some(e) => Some((p, e)),
        None => {
            assert(first_match(pat, s@, p + 1) == -1);
            None
        },
    }
}

/// `Regex::is_match`.
pub fn is_match_exec(pat: Pattern, s: &Vec<char>) -> (r: bool)
    ensures
        r == is_match(pat, s@),
{
    find_from(pat, s, 0).is_some()
}

/// Title case of a character sequence (see `title_case`).
pub fn title_case_chars(s: &Vec<char>) -> (r: Vec<char>)
    ensures
        r@ == title_case(s@),
{
    if s.len() == 0 {
        return Vec::new();
    }
    let mut r: Vec<char> = Vec::new();
    r.push(to_ascii_upper(s[0]));
    let rest = copy_range(s, 1, s.len());
    assert(rest@ =~= s@.drop_first());
    push_all(&mut r, &lower_chars(&rest));
    assert(r@ =~= title_case(s@));
    r
}

fn replacement_exec(pat: Pattern, s: &Vec<char>, p: usize, e: usize) -> (r: Vec<char>)
    requires
        p < e <= s.len(),
        match_end(pat, s@, p as int) == e as int,
    ensures
        r@ == replacement(pat, s@, p as int, e as int),
{
    match pat {
        Pattern::SpaceBeforeComma | Pattern::DoubledComma => {
            let r = vec![','];
            assert(r@ =~= seq![',']);
            r
        },
        Pattern::DoubleSpace | Pattern::OriginalMix => {
            let r = vec![' '];
            assert(r@ =~= seq![' ']);
            r
        },
        Pattern::DoubledAmp => {
            let r = vec!['&'];
            assert(r@ =~= seq!['&']);
            r
        },
        Pattern::FeatVariant => {
            let r = vec![' ', 'F', 't', '.', ' '];
            assert(r@ =~= seq![' ', 'F', 't', '.', ' ']);
            r
        },
        Pattern::NonCanonSeparator => {
            let m = copy_range(s, p, e);
            let l = lower_chars(&copy_range(s, p + 1, e - 1));
            assert(m@.subrange(1, m@.len() - 1) =~= s@.subrange(p + 1, e - 1));
            if chars_eq(&l, &and_chars()) {
                let r = vec![' ', '&', ' '];
                assert(r@ =~= seq![' ', '&', ' ']);
                r
            } else if chars_eq(&l, &vs_dot_chars()) || chars_eq(&l, &versus_chars()) {
                let r = vec![' ', 'v', 's', ' '];
                assert(r@ =~= seq![' ', 'v', 's', ' ']);
                r
            } else {
                m
            }
        },
        Pattern::MixSuffix => {
            proof {
                lemma_mix_group_end(s@, p + 1);
            }
            let q = match mix_group_end_exec(s, p + 1) {
                Some(q) => q,
                None => {
                    return Vec::new();
                },
            };
            let mut r: Vec<char> = Vec::new();
            r.push('(');
            push_all(&mut r, &copy_range(s, p + 1, q));
            r.push(' ');
            push_all(&mut r, &title_case_chars(&copy_range(s, q + 1, e - 1)));
            r.push(')');
            assert(r@ =~= mix_replacement(s@, p as int, e as int));
            r
        },
        Pattern::RemixArtist => copy_range(s, p, e),
    }
}

/// `Regex::replace_all`.
pub fn replace_all_exec(pat: Pattern, s: &Vec<char>) -> (r: Vec<char>)
    ensures
        r@ == replace_all(pat, s@),
{
    let mut out: Vec<char> = Vec::new();
    let mut i: usize = 0;
    while i <= s.len()
        invariant
            i <= s.len(),
            out@ + replace_from(pat, s@, i as int) == replace_from(pat, s@, 0),
        decreases s.len() - i,
    {
        match find_from(pat, s, i) {
            None => {
                let ghost before = out@;
                push_all(&mut out, &copy_range(s, i, s.len()));
                return out;
            },
            Some((p, e)) => {
                let ghost before = out@;
                push_all(&mut out, &copy_range(s, i, p));
                push_all(&mut out, &replacement_exec(pat, s, p, e));
                assert(replace_from(pat, s@, i as int) == s@.subrange(i as int, p as int)
                    + replacement(pat, s@, p as int, e as int) + replace_from(pat, s@, e as int));
                assert(out@ + replace_from(pat, s@, e as int) =~= before + replace_from(
                    pat,
                    s@,
                    i as int,
                ));
                i = e;
            },
        }
    }
    out
}

fn word_at_exec(s: &Vec<char>, i: usize) -> (r: bool)
    ensures
        r == word_at(s@, i as int),
{
    i < s.len() && word_char(s[i])
}

fn word_boundary_exec(s: &Vec<char>, i: usize) -> (r: bool)
    ensures
        r == word_boundary(s@, i as int),
{
    let before = if i == 0 {
        false
    } else {
        word_at_exec(s, i - 1)
    };
    before != word_at_exec(s, i)
}

fn bounded_lit_at_exec(s: &Vec<char>, p: usize, lit: &Vec<char>) -> (r: bool)
    ensures
        r == bounded_lit_at(s@, p as int, lit@),
{
    if !ci_at_exec(s, p, lit) {
        return false;
    }
    let len: usize = s.len();
    assert(p + lit@.len() <= len);
    word_boundary_exec(s, p) && word_boundary_exec(s, p + lit.len())
}

fn feat_token_at_exec(s: &Vec<char>, p: usize) -> (r: bool)
    ensures
        r == feat_token_at(s@, p as int),
{
    bounded_lit_at_exec(s, p, &feat_dot_chars()) || bounded_lit_at_exec(s, p, &feat_chars())
        || bounded_lit_at_exec(s, p, &featuring_chars()) || bounded_lit_at_exec(
        s,
        p,
        &ft_dot_chars(),
    ) || bounded_lit_at_exec(s, p, &ft_chars())
}

/// Whether a featuring token (`feat`, `feat.`, `featuring`, `ft`, `ft.`, in
/// any case) stands as a word of its own in `s`.
pub fn has_feat_token_exec(s: &Vec<char>) -> (r: bool)
    ensures
        r == has_feat_token(s@),
{
    let mut p: usize = 0;
    while p < s.len()
        invariant
            p <= s.len(),
            forall|q: int| 0 <= q < p ==> !#[trigger] feat_token_at(s@, q),
        decreases s.len() - p,
    {
        if feat_token_at_exec(s, p) {
            return true;
        }
        p = p + 1;
    }
    false
}

} // verus!
