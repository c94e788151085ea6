//! Character classes and sequence operations shared by the lint rules.
//!
//! Tag text is handled as sequences of `char`: every rule reads a field as a
//! `Vec<char>`, works on it, and writes a `String` back.
use vstd::prelude::*;

verus! {

/// The Unicode `White_Space` property: the set that both `char::is_whitespace`
/// and the regular-expression class `\s` stand for.
pub open spec fn is_white_space(c: char) -> bool {
    ||| ('\u{9}' <= c && c <= '\u{d}')
    ||| c == ' '
    ||| c == '\u{85}'
    ||| c == '\u{a0}'
    ||| c == '\u{1680}'
    ||| ('\u{2000}' <= c && c <= '\u{200a}')
    ||| c == '\u{2028}'
    ||| c == '\u{2029}'
    ||| c == '\u{202f}'
    ||| c == '\u{205f}'
    ||| c == '\u{3000}'
}

pub fn white_space(c: char) -> (r: bool)
    ensures
        r == is_white_space(c),
{
    ('\u{9}' <= c && c <= '\u{d}') || c == ' ' || c == '\u{85}' || c == '\u{a0}' || c == '\u{1680}'
        || ('\u{2000}' <= c && c <= '\u{200a}') || c == '\u{2028}' || c == '\u{2029}' || c
        == '\u{202f}' || c == '\u{205f}' || c == '\u{3000}'
}

pub open spec fn is_ascii_digit(c: char) -> bool {
    '0' <= c && c <= '9'
}

/// `char::to_ascii_uppercase`.
pub open spec fn ascii_upper(c: char) -> char {
    if 'a' <= c && c <= 'z' {
        ((c as int) - 32) as char
    } else {
        c
    }
}

/// `char::to_ascii_lowercase`.
pub open spec fn ascii_lower(c: char) -> char {
    if 'A' <= c && c <= 'Z' {
        ((c as int) + 32) as char
    } else {
        c
    }
}

pub fn to_ascii_upper(c: char) -> (r: char)
    ensures
        r == ascii_upper(c),
{
    if 'a' <= c && c <= 'z' {
        let b: u8 = c as u8;
        assert(b as int == c as int);
        (b - 32) as char
    } else {
        c
    }
}

pub fn to_ascii_lower(c: char) -> (r: char)
    ensures
        r == ascii_lower(c),
{
    if 'A' <= c && c <= 'Z' {
        let b: u8 = c as u8;
        assert(b as int == c as int);
        (b + 32) as char
    } else {
        c
    }
}

pub open spec fn ascii_upper_seq(s: Seq<char>) -> Seq<char> {
    s.map_values(|c: char| ascii_upper(c))
}

pub open spec fn ascii_lower_seq(s: Seq<char>) -> Seq<char> {
    s.map_values(|c: char| ascii_lower(c))
}

pub fn upper_chars(s: &Vec<char>) -> (r: Vec<char>)
    ensures
        r@ == ascii_upper_seq(s@),
{
    let mut r: Vec<char> = Vec::new();
    let mut i: usize = 0;
    while i < s.len()
        invariant
            i <= s.len(),
            r@ == ascii_upper_seq(s@.subrange(0, i as int)),
        decreases s.len() - i,
    {
        let c = to_ascii_upper(s[i]);
        r.push(c);
        i = i + 1;
        assert(r@ =~= ascii_upper_seq(s@.subrange(0, i as int)));
    }
    assert(s@.subrange(0, s.len() as int) =~= s@);
    r
}

pub fn lower_chars(s: &Vec<char>) -> (r: Vec<char>)
    ensures
        r@ == ascii_lower_seq(s@),
{
    let mut r: Vec<char> = Vec::new();
    let mut i: usize = 0;
    while i < s.len()
        invariant
            i <= s.len(),
            r@ == ascii_lower_seq(s@.subrange(0, i as int)),
        decreases s.len() - i,
    {
        let c = to_ascii_lower(s[i]);
        r.push(c);
        i = i + 1;
        assert(r@ =~= ascii_lower_seq(s@.subrange(0, i as int)));
    }
    assert(s@.subrange(0, s.len() as int) =~= s@);
    r
}

/// Case-insensitive equality of a text character with a pattern character,
/// as a case-insensitive regular expression compares them: the pattern
/// character stands for its whole simple case-folding class. For the ASCII
/// letters that class is the lower and upper case letter, plus KELVIN SIGN
/// for `k` and LATIN SMALL LETTER LONG S for `s`. Pattern characters are
/// written in lower case.
pub open spec fn fold_eq(c: char, l: char) -> bool {
    ||| c == l
    ||| ('a' <= l && l <= 'z' && c == ascii_upper(l))
    ||| (l == 'k' && c == '\u{212a}')
    ||| (l == 's' && c == '\u{17f}')
}

pub fn fold_eq_exec(c: char, l: char) -> (r: bool)
    ensures
        r == fold_eq(c, l),
{
    if c == l {
        return true;
    }
    if 'a' <= l && l <= 'z' && c == to_ascii_upper(l) {
        return true;
    }
    (l == 'k' && c == '\u{212a}') || (l == 's' && c == '\u{17f}')
}

/// The literal `lit` occurs in `s` at position `i`, compared case-insensitively.
pub open spec fn ci_at(s: Seq<char>, i: int, lit: Seq<char>) -> bool {
    &&& 0 <= i
    &&& i + lit.len() <= s.len()
    &&& forall|j: int| 0 <= j < lit.len() ==> fold_eq(#[trigger] s[i + j], lit[j])
}

pub fn ci_at_exec(s: &Vec<char>, i: usize, lit: &Vec<char>) -> (r: bool)
    ensures
        r == ci_at(s@, i as int, lit@),
{
    if i > s.len() || lit.len() > s.len() - i {
        return false;
    }
    let mut j: usize = 0;
    while j < lit.len()
        invariant
            i + lit@.len() <= s@.len(),
            i + lit.len() <= s.len(),
            j <= lit@.len(),
            forall|k: int| 0 <= k < j ==> fold_eq(#[trigger] s@[i + k], lit@[k]),
        decreases lit.len() - j,
    {
        if !fold_eq_exec(s[i + j], lit[j]) {
            return false;
        }
        j = j + 1;
    }
    true
}

/// The character at `i` exists and is white space.
pub open spec fn ws_at(s: Seq<char>, i: int) -> bool {
    0 <= i < s.len() && is_white_space(s[i])
}

pub fn ws_at_exec(s: &Vec<char>, i: usize) -> (r: bool)
    ensures
        r == ws_at(s@, i as int),
{
    i < s.len() && white_space(s[i])
}

/// The character classes by which text is trimmed.
#[derive(Clone, Copy, PartialEq, Eq, Debug)]
pub enum CharClass {
    /// Unicode white space.
    WhiteSpace,
    /// `,`, `&` and white space: what may separate artist names.
    SeparatorOrSpace,
    /// The digit `0`.
    Zero,
}

pub open spec fn in_class(cls: CharClass, c: char) -> bool {
    match cls {
        CharClass::WhiteSpace => is_white_space(c),
        CharClass::SeparatorOrSpace => c == ',' || c == '&' || is_white_space(c),
        CharClass::Zero => c == '0',
    }
}

pub fn class_contains(cls: CharClass, c: char) -> (r: bool)
    ensures
        r == in_class(cls, c),
{
    match cls {
        CharClass::WhiteSpace => white_space(c),
        CharClass::SeparatorOrSpace => c == ',' || c == '&' || white_space(c),
        CharClass::Zero => c == '0',
    }
}

/// The first position at or after `i` whose character is not in `cls`.
pub open spec fn skip_class(cls: CharClass, s: Seq<char>, i: int) -> int
    decreases s.len() - i,
{
    if 0 <= i < s.len() && in_class(cls, s[i]) {
        skip_class(cls, s, i + 1)
    } else {
        i
    }
}

/// The position just after the last character before `j` that is not in `cls`.
pub open spec fn back_class(cls: CharClass, s: Seq<char>, j: int) -> int
    decreases j,
{
    if 0 < j <= s.len() && in_class(cls, s[j - 1]) {
        back_class(cls, s, j - 1)
    } else {
        j
    }
}

/// The end of the white-space run that starts at `i`.
pub open spec fn run_end(s: Seq<char>, i: int) -> int {
    skip_class(CharClass::WhiteSpace, s, i)
}

/// `str::trim_start_matches` with a class of characters.
pub open spec fn trim_start_class(cls: CharClass, s: Seq<char>) -> Seq<char> {
    s.subrange(skip_class(cls, s, 0), s.len() as int)
}

/// `str::trim_end_matches` with a class of characters.
pub open spec fn trim_end_class(cls: CharClass, s: Seq<char>) -> Seq<char> {
    s.subrange(0, back_class(cls, s, s.len() as int))
}

/// `str::trim_matches` with a class of characters.
pub open spec fn trim_class(cls: CharClass, s: Seq<char>) -> Seq<char> {
    trim_end_class(cls, trim_start_class(cls, s))
}

/// `str::trim`.
pub open spec fn trim_ws(s: Seq<char>) -> Seq<char> {
    trim_class(CharClass::WhiteSpace, s)
}

pub proof fn lemma_skip_class(cls: CharClass, s: Seq<char>, i: int)
    requires
        0 <= i <= s.len(),
    ensures
        i <= skip_class(cls, s, i) <= s.len(),
        forall|k: int| i <= k < skip_class(cls, s, i) ==> in_class(cls, #[trigger] s[k]),
        skip_class(cls, s, i) < s.len() ==> !in_class(cls, s[skip_class(cls, s, i)]),
    decreases s.len() - i,
{
    if i < s.len() && in_class(cls, s[i]) {
        lemma_skip_class(cls, s, i + 1);
    }
}

pub proof fn lemma_back_class(cls: CharClass, s: Seq<char>, j: int)
    requires
        0 <= j <= s.len(),
    ensures
        0 <= back_class(cls, s, j) <= j,
        forall|k: int| back_class(cls, s, j) <= k < j ==> in_class(cls, #[trigger] s[k]),
        back_class(cls, s, j) > 0 ==> !in_class(cls, s[back_class(cls, s, j) - 1]),
    decreases j,
{
    if 0 < j && in_class(cls, s[j - 1]) {
        lemma_back_class(cls, s, j - 1);
    }
}

pub fn skip_class_exec(cls: CharClass, s: &Vec<char>, i: usize) -> (r: usize)
    requires
        i <= s.len(),
    ensures
        r == skip_class(cls, s@, i as int),
        i <= r <= s.len(),
{
    proof {
        lemma_skip_class(cls, s@, i as int);
    }
    let mut k = i;
    while k < s.len() && class_contains(cls, s[k])
        invariant
            i <= k <= s.len(),
            skip_class(cls, s@, i as int) == skip_class(cls, s@, k as int),
        decreases s.len() - k,
    {
        k = k + 1;
    }
    k
}

pub fn back_class_exec(cls: CharClass, s: &Vec<char>, j: usize) -> (r: usize)
    requires
        j <= s.len(),
    ensures
        r == back_class(cls, s@, j as int),
        r <= j,
{
    proof {
        lemma_back_class(cls, s@, j as int);
    }
    let mut k = j;
    while k > 0 && class_contains(cls, s[k - 1])
        invariant
            k <= j <= s.len(),
            back_class(cls, s@, j as int) == back_class(cls, s@, k as int),
        decreases k,
    {
        k = k - 1;
    }
    k
}

/// The white-space run that starts at `i` ends at `run_end_exec(s, i)`.
pub fn run_end_exec(s: &Vec<char>, i: usize) -> (r: usize)
    requires
        i <= s.len(),
    ensures
        r == run_end(s@, i as int),
        i <= r <= s.len(),
{
    skip_class_exec(CharClass::WhiteSpace, s, i)
}

/// A copy of `s[a..b]`.
pub fn copy_range(s: &Vec<char>, a: usize, b: usize) -> (r: Vec<char>)
    requires
        a <= b <= s.len(),
    ensures
        r@ == s@.subrange(a as int, b as int),
{
    let mut r: Vec<char> = Vec::new();
    let mut k = a;
    while k < b
        invariant
            a <= k <= b <= s.len(),
            r@ == s@.subrange(a as int, k as int),
        decreases b - k,
    {
        r.push(s[k]);
        k = k + 1;
        assert(r@ =~= s@.subrange(a as int, k as int));
    }
    r
}

/// Appends `t` to `out`.
pub fn push_all(out: &mut Vec<char>, t: &Vec<char>)
    ensures
        final(out)@ == old(out)@ + t@,
{
    let mut k: usize = 0;
    while k < t.len()
        invariant
            k <= t.len(),
            out@ == old(out)@ + t@.subrange(0, k as int),
        decreases t.len() - k,
    {
        out.push(t[k]);
        k = k + 1;
        assert(out@ =~= old(out)@ + t@.subrange(0, k as int));
    }
    assert(t@.subrange(0, t.len() as int) =~= t@);
}

pub fn trim_start_chars(cls: CharClass, s: &Vec<char>) -> (r: Vec<char>)
    ensures
        r@ == trim_start_class(cls, s@),
{
    let a = skip_class_exec(cls, s, 0);
    copy_range(s, a, s.len())
}

pub fn trim_end_chars(cls: CharClass, s: &Vec<char>) -> (r: Vec<char>)
    ensures
        r@ == trim_end_class(cls, s@),
{
    let b = back_class_exec(cls, s, s.len());
    copy_range(s, 0, b)
}

pub fn trim_chars(cls: CharClass, s: &Vec<char>) -> (r: Vec<char>)
    ensures
        r@ == trim_class(cls, s@),
{
    let t = trim_start_chars(cls, s);
    trim_end_chars(cls, &t)
}

/// Calls `String::push`, which appends one character.
#[verifier::external_body]
fn push_char(s: &mut String, c: char)
    ensures
        final(s)@ == old(s)@.push(c),
{
    s.push(c)
}

/// The characters of `s`, in order.
pub fn chars_of(s: &str) -> (r: Vec<char>)
    ensures
        r@ == s@,
{
    let n = s.unicode_len();
    let mut r: Vec<char> = Vec::new();
    let mut i: usize = 0;
    while i < n
        invariant
            n == s@.len(),
            i <= n,
            r@ == s@.subrange(0, i as int),
        decreases n - i,
    {
        r.push(s.get_char(i));
        i = i + 1;
        assert(r@ =~= s@.subrange(0, i as int));
    }
    assert(s@.subrange(0, n as int) =~= s@);
    r
}

/// A `String` holding the characters of `v`.
pub fn string_of(v: &Vec<char>) -> (r: String)
    ensures
        r@ == v@,
{
    let mut r = String::new();
    let mut i: usize = 0;
    while i < v.len()
        invariant
            i <= v.len(),
            r@ == v@.subrange(0, i as int),
        decreases v.len() - i,
    {
        push_char(&mut r, v[i]);
        i = i + 1;
        assert(r@ =~= v@.subrange(0, i as int));
    }
    assert(v@.subrange(0, v.len() as int) =~= v@);
    r
}

/// A `String` holding the characters of `s`.
pub fn string_from(s: &str) -> (r: String)
    ensures
        r@ == s@,
{
    String::from_str(s)
}

/// The view of an optional character vector.
pub open spec fn opt_chars(o: Option<Vec<char>>) -> Option<Seq<char>> {
    match o {
        Some(v) => Some(v@),
        None => None,
    }
}

/// Appends the characters of `s` to `out`.
pub fn push_str(out: &mut Vec<char>, s: &str)
    ensures
        final(out)@ == old(out)@ + s@,
{
    let v = chars_of(s);
    push_all(out, &v);
}

/// Whether the characters of `v` are those of `s`.
pub fn chars_are(v: &Vec<char>, s: &str) -> (r: bool)
    ensures
        r == (v@ == s@),
{
    let w = chars_of(s);
    chars_eq(v, &w)
}

/// Equality of two character sequences.
pub fn chars_eq(a: &Vec<char>, b: &Vec<char>) -> (r: bool)
    ensures
        r == (a@ == b@),
{
    if a.len() != b.len() {
        return false;
    }
    let mut i: usize = 0;
    while i < a.len()
        invariant
            a.len() == b.len(),
            i <= a.len(),
            forall|k: int| 0 <= k < i ==> a@[k] == b@[k],
        decreases a.len() - i,
    {
        if a[i] != b[i] {
            return false;
        }
        i = i + 1;
    }
    assert(a@ =~= b@);
    true
}

/// Whether the one-character text `c` matches the regular expression
/// `pattern` of the `regex` crate; `false` where `pattern` is not a valid
/// expression. A function of its arguments alone.
pub uninterp spec fn regex_char_match(pattern: Seq<char>, c: char) -> bool;

/// Compiles `pattern` with `regex::Regex::new` and asks
/// `regex::Regex::is_match` whether the one-character text `c` matches it;
/// an invalid pattern gives `false`. The contract claims only that the
/// answer is `regex_char_match` of the pattern and the character.
#[verifier::external_body]
fn char_matches(pattern: &str, c: char) -> (r: bool)
    ensures
        r == regex_char_match(pattern@, c),
{
    let mut buf = [0u8; 4];
    match regex::Regex::new(pattern) {
        Ok(re) => re.is_match(c.encode_utf8(&mut buf)),
        Err(_) => false,
    }
}

/// Membership of `c` in the class `\w` of the `regex` crate (Unicode word
/// characters).
pub open spec fn regex_word_char(c: char) -> bool {
    regex_char_match("\\A\\w\\z"@, c)
}

/// Membership of `c` in the class `\d` of the `regex` crate (Unicode
/// decimal digits).
pub open spec fn regex_decimal_digit(c: char) -> bool {
    regex_char_match("\\A\\d\\z"@, c)
}

/// Whether `c` is a word character, as `\w` of the `regex` crate has it.
pub fn word_char(c: char) -> (r: bool)
    ensures
        r == regex_word_char(c),
{
    char_matches("\\A\\w\\z", c)
}

/// Whether `c` is a decimal digit, as `\d` of the `regex` crate has it.
pub fn decimal_digit(c: char) -> (r: bool)
    ensures
        r == regex_decimal_digit(c),
{
    char_matches("\\A\\d\\z", c)
}

} // verus!
