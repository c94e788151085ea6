//! Decimal digits: reading an unsigned number the way `str::parse::<u32>` does,
//! and writing one the way `format!("{}")` and `format!("{:02}")` do.
use vstd::prelude::*;
use crate::text::is_ascii_digit;

verus! {

pub open spec fn all_ascii_digits(s: Seq<char>) -> bool {
    forall|i: int| 0 <= i < s.len() ==> is_ascii_digit(#[trigger] s[i])
}

pub open spec fn digit_value(c: char) -> nat {
    ((c as int) - ('0' as int)) as nat
}

/// The number written by the decimal digits `s` (most significant first).
pub open spec fn decimal_value(s: Seq<char>) -> nat
    decreases s.len(),
{
    if s.len() == 0 {
        0
    } else {
        decimal_value(s.drop_last()) * 10 + digit_value(s.last())
    }
}

/// The digits of `s` after an optional leading `+`.
pub open spec fn unsigned_digits(s: Seq<char>) -> Seq<char> {
    if s.len() > 0 && s[0] == '+' {
        s.drop_first()
    } else {
        s
    }
}

/// What `str::parse::<u32>` gives: an optional `+`, then one or more ASCII
/// digits whose value fits in a `u32`.
pub open spec fn parse_u32(s: Seq<char>) -> Option<u32> {
    let d = unsigned_digits(s);
    if d.len() > 0 && all_ascii_digits(d) && decimal_value(d) <= u32::MAX {
        Some(decimal_value(d) as u32)
    } else {
        None
    }
}

proof fn lemma_decimal_value_prefix_grows(s: Seq<char>, k: int)
    requires
        0 <= k <= s.len(),
        all_ascii_digits(s),
    ensures
        decimal_value(s.subrange(0, k)) <= decimal_value(s),
    decreases s.len() - k,
{
    if k < s.len() {
        lemma_decimal_value_prefix_grows(s, k + 1);
        assert(s.subrange(0, k + 1).drop_last() =~= s.subrange(0, k));
    } else {
        assert(s.subrange(0, k) =~= s);
    }
}

/// The value of the digits `s[a..b]` if it is at most `cap`, else `None`.
fn capped_value(s: &Vec<char>, a: usize, b: usize, cap: u32) -> (r: Option<u32>)
    requires
        a <= b <= s.len(),
        all_ascii_digits(s@.subrange(a as int, b as int)),
    ensures
        match r {
            Some(v) => v == decimal_value(s@.subrange(a as int, b as int)) && v <= cap,
            None => decimal_value(s@.subrange(a as int, b as int)) > cap,
        },
{
    let ghost d = s@.subrange(a as int, b as int);
    let mut acc: u32 = 0;
    let mut k = a;
    while k < b
        invariant
            a <= k <= b <= s.len(),
            d == s@.subrange(a as int, b as int),
            all_ascii_digits(d),
            acc == decimal_value(s@.subrange(a as int, k as int)),
            acc <= cap,
        decreases b - k,
    {
        let c = s[k];
        assert(d[k - a] == c);
        assert(s@.subrange(a as int, k + 1).drop_last() =~= s@.subrange(a as int, k as int));
        let dv: u32 = (c as u32) - ('0' as u32);
        if dv > cap || acc > (cap - dv) / 10 {
            proof {
                assert(decimal_value(s@.subrange(a as int, k + 1)) == acc * 10 + dv);
                assert(acc * 10 + dv > cap) by (nonlinear_arith)
                    requires dv > cap || acc > (cap - dv) / 10, dv <= 9, acc >= 0;
                lemma_decimal_value_prefix_grows(d, (k + 1 - a) as int);
                assert(d.subrange(0, (k + 1 - a) as int) =~= s@.subrange(a as int, k + 1));
            }
            return None;
        }
        proof {
            assert(acc * 10 + dv <= cap) by (nonlinear_arith)
                requires acc <= (cap - dv) / 10, dv <= 9, dv <= cap;
        }
        acc = acc * 10 + dv;
        k = k + 1;
    }
    Some(acc)
}


/// Whether every character of `s[a..b]` is an ASCII digit.
pub fn digits_only(s: &Vec<char>, a: usize, b: usize) -> (r: bool)
    requires
        a <= b <= s.len(),
    ensures
        r == all_ascii_digits(s@.subrange(a as int, b as int)),
{
    let mut k = a;
    while k < b
        invariant
            a <= k <= b <= s.len(),
            all_ascii_digits(s@.subrange(a as int, k as int)),
        decreases b - k,
    {
        if !('0' <= s[k] && s[k] <= '9') {
            assert(s@.subrange(a as int, b as int)[k - a] == s@[k as int]);
            return false;
        }
        k = k + 1;
        assert forall|i: int| 0 <= i < k - a implies is_ascii_digit(
            #[trigger] s@.subrange(a as int, k as int)[i],
        ) by {
            if i < k - 1 - a {
                assert(s@.subrange(a as int, k - 1)[i] == s@.subrange(a as int, k as int)[i]);
            }
        }
    }
    true
}

/// `str::parse::<u32>` applied to `s[a..b]`.
pub fn parse_u32_range(s: &Vec<char>, a: usize, b: usize) -> (r: Option<u32>)
    requires
        a <= b <= s.len(),
    ensures
        r == parse_u32(s@.subrange(a as int, b as int)),
{
    let ghost t = s@.subrange(a as int, b as int);
    let mut start = a;
    if a < b && s[a] == '+' {
        start = a + 1;
        assert(unsigned_digits(t) =~= s@.subrange(start as int, b as int));
    } else {
        assert(unsigned_digits(t) =~= s@.subrange(start as int, b as int));
    }
    if start == b || !digits_only(s, start, b) {
        return None;
    }
    capped_value(s, start, b, u32::MAX)
}

/// `str::parse::<u32>`.
pub fn parse_u32_chars(s: &Vec<char>) -> (r: Option<u32>)
    ensures
        r == parse_u32(s@),
{
    assert(s@.subrange(0, s.len() as int) =~= s@);
    parse_u32_range(s, 0, s.len())
}

pub open spec fn digit_char(d: nat) -> char {
    (('0' as int) + d) as char
}

/// The decimal digits of `n`, as `format!("{}", n)` writes them.
pub open spec fn decimal_digits(n: nat) -> Seq<char>
    decreases n,
{
    if n < 10 {
        seq![digit_char(n)]
    } else {
        decimal_digits(n / 10).push(digit_char(n % 10))
    }
}

/// `format!("{:02}", n)`: the decimal digits of `n`, zero-padded to two.
pub open spec fn pad2(n: nat) -> Seq<char> {
    if n < 10 {
        seq!['0', digit_char(n)]
    } else {
        decimal_digits(n)
    }
}

pub fn format_decimal(n: u32) -> (r: Vec<char>)
    ensures
        r@ == decimal_digits(n as nat),
    decreases n,
{
    if n < 10 {
        let c = ((n as u8) + ('0' as u8)) as char;
        let mut r: Vec<char> = Vec::new();
        r.push(c);
        assert(r@ =~= seq![digit_char(n as nat)]);
        r
    } else {
        let mut r = format_decimal(n / 10);
        let d = n % 10;
        let c = ((d as u8) + ('0' as u8)) as char;
        r.push(c);
        r
    }
}

pub fn format_pad2(n: u32) -> (r: Vec<char>)
    ensures
        r@ == pad2(n as nat),
{
    if n < 10 {
        let c = ((n as u8) + ('0' as u8)) as char;
        let mut r: Vec<char> = Vec::new();
        r.push('0');
        r.push(c);
        assert(r@ =~= seq!['0', digit_char(n as nat)]);
        r
    } else {
        format_decimal(n)
    }
}

} // verus!
