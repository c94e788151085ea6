//! Rule `key.canonical-camelot`.
use vstd::prelude::*;
use crate::linter::lint_target::{LintTarget, TargetView};
use crate::linter::result::{one, CheckOutcome, OutcomeView};
use crate::linter::rule::{Rule, RuleMetadata};
use crate::linter::text_field::{with_field, TagField};
use crate::linter::violation::{error_v, fixed, Fix, FixView};
use crate::numbers::{format_pad2, pad2, parse_u32, parse_u32_range};
use crate::text::{
    ascii_lower_seq, ascii_upper_seq, chars_are, chars_of, lower_chars, opt_chars, push_all,
    push_str, string_of, trim_chars, trim_ws, upper_chars, CharClass,
};
use crate::track::{Track, TrackView};

verus! {

/// The key must be in canonical, zero-padded Camelot notation (`01A`..`12B`).
pub struct KeyCanonicalCamelotRule;

/// `^(0[1-9]|1[0-2])[AB]$`.
pub open spec fn is_canonical_camelot(k: Seq<char>) -> bool {
    &&& k.len() == 3
    &&& ((k[0] == '0' && '1' <= k[1] && k[1] <= '9') || (k[0] == '1' && '0' <= k[1] && k[1] <= '2'))
    &&& (k[2] == 'A' || k[2] == 'B')
}

/// A Camelot key in any case and padding (`1A`, `01a`), as canonical Camelot.
pub open spec fn parse_camelot_spec(s: Seq<char>) -> Option<Seq<char>> {
    let u = ascii_upper_seq(s);
    if u.len() == 0 || (u.last() != 'A' && u.last() != 'B') {
        None
    } else {
        match parse_u32(u.drop_last()) {
            Some(n) => if 1 <= n && n <= 12 {
                Some(pad2(n as nat).push(u.last()))
            } else {
                None
            },
            None => None,
        }
    }
}

/// The Camelot number of OpenKey number `n`.
pub open spec fn openkey_to_camelot(n: u32) -> nat {
    (((n - 1 + 7) % 12) + 1) as nat
}

/// An OpenKey key (`1d`..`12d` major, `1m`..`12m` minor), as canonical Camelot.
pub open spec fn parse_openkey_spec(s: Seq<char>) -> Option<Seq<char>> {
    let l = ascii_lower_seq(s);
    if l.len() == 0 || (l.last() != 'd' && l.last() != 'm') {
        None
    } else {
        match parse_u32(l.drop_last()) {
            Some(n) => if 1 <= n && n <= 12 {
                Some(
                    pad2(openkey_to_camelot(n)).push(
                        if l.last() == 'd' {
                            'B'
                        } else {
                            'A'
                        },
                    ),
                )
            } else {
                None
            },
            None => None,
        }
    }
}

/// The Camelot number of a major key, sharps read as the equal flats.
pub open spec fn major_number(note: Seq<char>) -> Option<u32> {
    if note == "C"@ {
        Some(8)
    } else if note == "G"@ {
        Some(9)
    } else if note == "D"@ {
        Some(10)
    } else if note == "A"@ {
        Some(11)
    } else if note == "E"@ {
        Some(12)
    } else if note == "B"@ {
        Some(1)
    } else if note == "Gb"@ || note == "F#"@ {
        Some(2)
    } else if note == "Db"@ || note == "C#"@ {
        Some(3)
    } else if note == "Ab"@ || note == "G#"@ {
        Some(4)
    } else if note == "Eb"@ || note == "D#"@ {
        Some(5)
    } else if note == "Bb"@ || note == "A#"@ {
        Some(6)
    } else if note == "F"@ {
        Some(7)
    } else {
        None
    }
}

/// The Camelot number of a minor key, sharps read as the equal flats.
pub open spec fn minor_number(note: Seq<char>) -> Option<u32> {
    if note == "A"@ {
        Some(8)
    } else if note == "E"@ {
        Some(9)
    } else if note == "B"@ {
        Some(10)
    } else if note == "Gb"@ || note == "F#"@ {
        Some(11)
    } else if note == "Db"@ || note == "C#"@ {
        Some(12)
    } else if note == "Ab"@ || note == "G#"@ {
        Some(1)
    } else if note == "Eb"@ || note == "D#"@ {
        Some(2)
    } else if note == "Bb"@ || note == "A#"@ {
        Some(3)
    } else if note == "F"@ {
        Some(4)
    } else if note == "C"@ {
        Some(5)
    } else if note == "G"@ {
        Some(6)
    } else if note == "D"@ {
        Some(7)
    } else {
        None
    }
}

/// A key in musical notation (`C`, `Am`, `F#`, `Bbm`), as canonical Camelot.
pub open spec fn parse_musical_spec(s: Seq<char>) -> Option<Seq<char>> {
    if s.len() > 0 && s.last() == 'm' {
        match minor_number(s.drop_last()) {
            Some(n) => Some(pad2(n as nat).push('A')),
            None => None,
        }
    } else {
        match major_number(s) {
            Some(n) => Some(pad2(n as nat).push('B')),
            None => None,
        }
    }
}

/// The canonical Camelot form of a key in any of the three notations.
pub open spec fn canonical_key(k: Seq<char>) -> Option<Seq<char>> {
    match parse_camelot_spec(k) {
        Some(c) => Some(c),
        None => match parse_openkey_spec(k) {
            Some(c) => Some(c),
            None => parse_musical_spec(k),
        },
    }
}

pub open spec fn key_outcome(t: TrackView) -> OutcomeView {
    match t.fields.key {
        None => OutcomeView::Passed,
        Some(raw) => {
            let k = trim_ws(raw);
            if is_canonical_camelot(k) {
                OutcomeView::Passed
            } else {
                match parse_camelot_spec(k) {
                    Some(c) => one(
                        fixed(
                            error_v(
                                "Key `"@ + k + "` is non-canonical Camelot; should be `"@ + c
                                    + "`"@,
                            ),
                            FixView::CanonicalKey,
                        ),
                    ),
                    None => match parse_openkey_spec(k) {
                        Some(c) => one(
                            fixed(
                                error_v(
                                    "Key `"@ + k + "` is OpenKey notation; canonical Camelot is `"@
                                        + c + "`"@,
                                ),
                                FixView::CanonicalKey,
                            ),
                        ),
                        None => match parse_musical_spec(k) {
                            Some(c) => one(
                                fixed(
                                    error_v(
                                        "Key `"@ + k
                                            + "` is musical notation; canonical Camelot is `"@ + c
                                            + "`"@,
                                    ),
                                    FixView::CanonicalKey,
                                ),
                            ),
                            None => one(
                                error_v("Key `"@ + k + "` is not in a recognized notation"@),
                            ),
                        },
                    },
                }
            }
        },
    }
}

/// The track with its key rewritten in canonical Camelot, where it is in a
/// recognized notation.
pub open spec fn canonical_key_fixed(t: TrackView) -> TrackView {
    match t.fields.key {
        None => t,
        Some(raw) => match canonical_key(trim_ws(raw)) {
            Some(c) => with_field(TagField::Key, t, Some(c)),
            None => t,
        },
    }
}

fn camelot_chars(s: &Vec<char>) -> (r: Option<Vec<char>>)
    ensures
        opt_chars(r) == parse_camelot_spec(s@),
{
    let u = upper_chars(s);
    if u.len() == 0 {
        return None;
    }
    let suffix = u[u.len() - 1];
    if suffix != 'A' && suffix != 'B' {
        return None;
    }
    assert(u@.drop_last() =~= u@.subrange(0, u.len() - 1));
    match parse_u32_range(&u, 0, u.len() - 1) {
        Some(n) => {
            if 1 <= n && n <= 12 {
                let mut r = format_pad2(n);
                r.push(suffix);
                Some(r)
            } else {
                None
            }
        },
        None => None,
    }
}

fn openkey_chars(s: &Vec<char>) -> (r: Option<Vec<char>>)
    ensures
        opt_chars(r) == parse_openkey_spec(s@),
{
    let l = lower_chars(s);
    if l.len() == 0 {
        return None;
    }
    let suffix = l[l.len() - 1];
    if suffix != 'd' && suffix != 'm' {
        return None;
    }
    assert(l@.drop_last() =~= l@.subrange(0, l.len() - 1));
    match parse_u32_range(&l, 0, l.len() - 1) {
        Some(n) => {
            if 1 <= n && n <= 12 {
                let cn = ((n - 1 + 7) % 12) + 1;
                let mut r = format_pad2(cn);
                let letter = if suffix == 'd' {
                    'B'
                } else {
                    'A'
                };
                r.push(letter);
                Some(r)
            } else {
                None
            }
        },
        None => None,
    }
}

fn major_number_chars(note: &Vec<char>) -> (r: Option<u32>)
    ensures
        r == major_number(note@),
{
    if chars_are(note, "C") {
        Some(8)
    } else if chars_are(note, "G") {
        Some(9)
    } else if chars_are(note, "D") {
        Some(10)
    } else if chars_are(note, "A") {
        Some(11)
    } else if chars_are(note, "E") {
        Some(12)
    } else if chars_are(note, "B") {
        Some(1)
    } else if chars_are(note, "Gb") || chars_are(note, "F#") {
        Some(2)
    } else if chars_are(note, "Db") || chars_are(note, "C#") {
        Some(3)
    } else if chars_are(note, "Ab") || chars_are(note, "G#") {
        Some(4)
    } else if chars_are(note, "Eb") || chars_are(note, "D#") {
        Some(5)
    } else if chars_are(note, "Bb") || chars_are(note, "A#") {
        Some(6)
    } else if chars_are(note, "F") {
        Some(7)
    } else {
        None
    }
}

fn minor_number_chars(note: &Vec<char>) -> (r: Option<u32>)
    ensures
        r == minor_number(note@),
{
    if chars_are(note, "A") {
        Some(8)
    } else if chars_are(note, "E") {
        Some(9)
    } else if chars_are(note, "B") {
        Some(10)
    } else if chars_are(note, "Gb") || chars_are(note, "F#") {
        Some(11)
    } else if chars_are(note, "Db") || chars_are(note, "C#") {
        Some(12)
    } else if chars_are(note, "Ab") || chars_are(note, "G#") {
        Some(1)
    } else if chars_are(note, "Eb") || chars_are(note, "D#") {
        Some(2)
    } else if chars_are(note, "Bb") || chars_are(note, "A#") {
        Some(3)
    } else if chars_are(note, "F") {
        Some(4)
    } else if chars_are(note, "C") {
        Some(5)
    } else if chars_are(note, "G") {
        Some(6)
    } else if chars_are(note, "D") {
        Some(7)
    } else {
        None
    }
}

fn musical_chars(s: &Vec<char>) -> (r: Option<Vec<char>>)
    ensures
        opt_chars(r) == parse_musical_spec(s@),
{
    if s.len() > 0 && s[s.len() - 1] == 'm' {
        let note = crate::text::copy_range(s, 0, s.len() - 1);
        assert(note@ =~= s@.drop_last());
        match minor_number_chars(&note) {
            Some(n) => {
                let mut r = format_pad2(n);
                r.push('A');
                Some(r)
            },
            None => None,
        }
    } else {
        match major_number_chars(s) {
            Some(n) => {
                let mut r = format_pad2(n);
                r.push('B');
                Some(r)
            },
            None => None,
        }
    }
}

fn canonical_key_chars(k: &Vec<char>) -> (r: Option<Vec<char>>)
    ensures
        opt_chars(r) == canonical_key(k@),
{
    match camelot_chars(k) {
        Some(c) => Some(c),
        None => match openkey_chars(k) {
            Some(c) => Some(c),
            None => musical_chars(k),
        },
    }
}

fn opt_string(o: Option<Vec<char>>) -> (r: Option<String>)
    ensures
        crate::track::opt_text(r) == opt_chars(o),
{
    match o {
        Some(v) => Some(string_of(&v)),
        None => None,
    }
}

/// A Camelot key in any case and padding, as canonical Camelot.
pub fn parse_camelot(s: &str) -> (r: Option<String>)
    ensures
        crate::track::opt_text(r) == parse_camelot_spec(s@),
{
    opt_string(camelot_chars(&chars_of(s)))
}

/// An OpenKey key, as canonical Camelot.
pub fn parse_openkey(s: &str) -> (r: Option<String>)
    ensures
        crate::track::opt_text(r) == parse_openkey_spec(s@),
{
    opt_string(openkey_chars(&chars_of(s)))
}

/// A key in musical notation, as canonical Camelot.
pub fn parse_musical(s: &str) -> (r: Option<String>)
    ensures
        crate::track::opt_text(r) == parse_musical_spec(s@),
{
    opt_string(musical_chars(&chars_of(s)))
}

/// The Camelot number of a major key.
pub fn musical_major_to_number(note: &str) -> (r: Option<u32>)
    ensures
        r == major_number(note@),
{
    major_number_chars(&chars_of(note))
}

/// The Camelot number of a minor key.
pub fn musical_minor_to_number(note: &str) -> (r: Option<u32>)
    ensures
        r == minor_number(note@),
{
    minor_number_chars(&chars_of(note))
}

/// Rewrites the key in canonical Camelot notation, where it is in a
/// recognized notation.
pub fn fix_to_canonical_camelot(track: &mut Track)
    ensures
        final(track)@ == canonical_key_fixed(old(track)@),
{
    let c = match &track.fields.key {
        Some(k) => canonical_key_chars(&trim_chars(CharClass::WhiteSpace, &chars_of(k.as_str()))),
        None => {
            return ;
        },
    };
    match c {
        Some(c) => {
            track.fields.key = Some(string_of(&c));
        },
        None => {},
    }
}

fn key_message(head: &str, k: &Vec<char>, mid: &str, c: &Vec<char>) -> (r: String)
    ensures
        r@ == head@ + k@ + mid@ + c@ + "`"@,
{
    let mut m: Vec<char> = Vec::new();
    push_str(&mut m, head);
    push_all(&mut m, k);
    push_str(&mut m, mid);
    push_all(&mut m, c);
    push_str(&mut m, "`");
    string_of(&m)
}

impl Rule for KeyCanonicalCamelotRule {
    open spec fn rule_id(&self) -> Seq<char> {
        "key.canonical-camelot"@
    }

    open spec fn outcome(&self, target: TargetView) -> OutcomeView {
        key_outcome(target.track)
    }

    fn metadata(&self) -> RuleMetadata {
        RuleMetadata {
            id: "key.canonical-camelot",
            description: "Key must use canonical Camelot notation, zero-padded.\n\nValid:\n- 01A..12A (minor)\n- 01B..12B (major)\n\nInvalid:\n- 1A (not zero-padded)\n- 01a (suffix must be uppercase)\n- Am (musical notation, not Camelot)\n- 1d (OpenKey notation, not Camelot)\n",
            autofix_notes: Some("Recognizes and converts these notations into canonical Camelot:\n- Non-canonical Camelot: `1A`, `1a`, `01a`.\n- OpenKey: `1d`/`1m` … `12d`/`12m`.\n- Standard musical: `C`, `Am`, `F#`, `Bbm`. Sharps are accepted as\n  aliases of the equivalent flat (`F#` = `Gb`, `C#` = `Db`, etc.).\n\nAnything outside these notations is reported but left unfixed.\n"),
        }
    }

    fn check(&self, target: &LintTarget) -> CheckOutcome {
        let k = match &target.track.fields.key {
            Some(k) => trim_chars(CharClass::WhiteSpace, &chars_of(k.as_str())),
            None => {
                return CheckOutcome::Passed;
            },
        };
        if k.len() == 3 && ((k[0] == '0' && '1' <= k[1] && k[1] <= '9') || (k[0] == '1' && '0'
            <= k[1] && k[1] <= '2')) && (k[2] == 'A' || k[2] == 'B') {
            return CheckOutcome::Passed;
        }
        match camelot_chars(&k) {
            Some(c) => {
                let m = key_message("Key `", &k, "` is non-canonical Camelot; should be `", &c);
                return CheckOutcome::single(self.error(m).with_fix(Fix::CanonicalKey));
            },
            None => {},
        }
        match openkey_chars(&k) {
            Some(c) => {
                let m = key_message("Key `", &k, "` is OpenKey notation; canonical Camelot is `", &c);
                return CheckOutcome::single(self.error(m).with_fix(Fix::CanonicalKey));
            },
            None => {},
        }
        match musical_chars(&k) {
            Some(c) => {
                let m = key_message("Key `", &k, "` is musical notation; canonical Camelot is `", &c);
                return CheckOutcome::single(self.error(m).with_fix(Fix::CanonicalKey));
            },
            None => {},
        }
        let mut m: Vec<char> = Vec::new();
        push_str(&mut m, "Key `");
        push_all(&mut m, &k);
        push_str(&mut m, "` is not in a recognized notation");
        CheckOutcome::single(self.error(string_of(&m)))
    }
}

} // verus!
