//! Properties of the rules' fixes that hold for every track.
use vstd::prelude::*;
use crate::linter::lint_target::TargetView;
use crate::linter::result::OutcomeView;
use crate::linter::rule::Rule;
use crate::linter::rules::file_supported_extension::FileSupportedExtensionRule;
use crate::linter::rules::track_count_format::TrackCountFormatRule;
use crate::linter::rules::artist_separator_structure::{leading_junk, trailing_junk};
use crate::linter::rules::bpm_numeric::{decimals, is_decimal_number, strip_zero_fixed};
use crate::linter::rules::key_canonical_camelot::{
    canonical_key, canonical_key_fixed, is_canonical_camelot, key_outcome, major_number,
    minor_number, openkey_to_camelot, parse_camelot_spec, parse_openkey_spec,
};
use crate::linter::rules::meta_no_smart_quotes::{field_has_quotes, is_smart_quote, replace_quotes};
use crate::linter::rules::meta_remixer_title_consistency::{
    extract_remixer_fixed, remix_artist, remixer_title_outcome,
};
use crate::linter::rules::meta_text_trimmed::field_untrimmed;
use crate::linter::text_field::{field_value, with_field, TagField, TextField};
use crate::linter::violation::{fix_effect, fix_result, DecimalRounding, FixView};
use crate::numbers::{all_ascii_digits, decimal_digits, digit_char, pad2};
use crate::text::{
    back_class, is_white_space, lemma_back_class, lemma_skip_class, skip_class, trim_end_class,
    trim_start_class, trim_ws, CharClass,
};
use crate::track::{first_index_of, lemma_first_index_from, path_extension, CountFieldView, TrackView};

verus! {

/// The one field each fix is aimed at.
pub open spec fn fix_target(fix: FixView) -> TagField {
    match fix {
        FixView::StandardizeFeat => TagField::Artist,
        FixView::StandardizeSeparators => TagField::Artist,
        FixView::TrimLeadingJunk => TagField::Artist,
        FixView::TrimTrailingJunk => TagField::Artist,
        FixView::SpaceBeforeComma => TagField::Artist,
        FixView::CollapseSpaces => TagField::Artist,
        FixView::CollapseDoubledComma => TagField::Artist,
        FixView::CollapseDoubledAmp => TagField::Artist,
        FixView::RoundBpmToTwoDecimals => TagField::Bpm,
        FixView::StripBpmTrailingZero => TagField::Bpm,
        FixView::CanonicalKey => TagField::Key,
        FixView::ReplaceDisallowed(f) => f.tag_field(),
        FixView::ReplaceSmartQuotes(f) => f.tag_field(),
        FixView::TrimField(f) => f,
        FixView::ExtractRemixer => TagField::Remixer,
        FixView::CanonicalizeMixSuffix => TagField::Title,
        FixView::StripOriginalMix => TagField::Title,
        FixView::Assign(f, _) => f,
    }
}

/// Setting one field leaves the others, and the rest of the track, as they
/// were.
proof fn lemma_with_field_other(f: TagField, t: TrackView, v: Option<Seq<char>>, g: TagField)
    requires
        f != g,
    ensures
        field_value(g, with_field(f, t, v)) == field_value(g, t),
        with_field(f, t, v).fields.media_hash == t.fields.media_hash,
        with_field(f, t, v).fields.disc == t.fields.disc,
        with_field(f, t, v).fields.track == t.fields.track,
        with_field(f, t, v).file_path == t.file_path,
        with_field(f, t, v).mtime == t.mtime,
{
}

/// Every fix changes at most the one field it is aimed at: every other
/// field, the media hash, the disc and track numbers and the file stay as
/// they were, whatever the track.
pub proof fn law_fix_touches_only_its_field<D: DecimalRounding>(
    fix: FixView,
    before: TrackView,
    after: TrackView,
    rounding: D,
    g: TagField,
)
    requires
        fix_effect(fix, before, after, rounding),
        fix_target(fix) != g,
    ensures
        field_value(g, after) == field_value(g, before),
        after.fields.media_hash == before.fields.media_hash,
        after.fields.disc == before.fields.disc,
        after.fields.track == before.fields.track,
        after.file_path == before.file_path,
        after.mtime == before.mtime,
{
    let f = fix_target(fix);
    match fix {
        FixView::RoundBpmToTwoDecimals => {
            lemma_with_field_other(f, before, after.fields.bpm, g);
        },
        FixView::Assign(_, v) => {
            lemma_with_field_other(f, before, Some(v), g);
        },
        _ => {
            let v = field_value(f, after);
            if after != before {
                assert(after == with_field(f, before, v));
                lemma_with_field_other(f, before, v, g);
            }
        },
    }
}

/// Trimming white space twice gives what trimming once gave.
pub proof fn lemma_trim_ws_idempotent(s: Seq<char>)
    ensures
        trim_ws(trim_ws(s)) == trim_ws(s),
{
    let cls = CharClass::WhiteSpace;
    lemma_skip_class(cls, s, 0);
    let u = s.subrange(skip_class(cls, s, 0), s.len() as int);
    lemma_back_class(cls, u, u.len() as int);
    let b = back_class(cls, u, u.len() as int);
    let w = u.subrange(0, b);
    assert(w == trim_ws(s));
    if w.len() > 0 {
        assert(w[0] == u[0]);
        assert(u[0] == s[skip_class(cls, s, 0)]);
        assert(skip_class(cls, w, 0) == 0);
        assert(w.subrange(0, w.len() as int) =~= w);
        assert(w[w.len() - 1] == u[b - 1]);
        assert(back_class(cls, w, w.len() as int) == w.len());
        assert(w.subrange(0, w.len() as int) =~= w);
    } else {
        assert(skip_class(cls, w, 0) == 0);
        assert(back_class(cls, w, 0) == 0);
        assert(w.subrange(0, 0) =~= w);
    }
}

/// After its trim fix, a field has no white space at either end.
pub proof fn law_trim_fix_resolves(f: TagField, t: TrackView)
    ensures
        !field_untrimmed(f, fix_result(FixView::TrimField(f), t)),
{
    match field_value(f, t) {
        Some(v) => {
            lemma_trim_ws_idempotent(v);
            assert(field_value(f, fix_result(FixView::TrimField(f), t)) == Some(trim_ws(v)));
        },
        None => {},
    }
}

/// After its smart-quote fix, or its disallowed-character fix, a field holds
/// no smart quote; the disallowed characters are the smart quotes.
pub proof fn law_smart_quote_fix_resolves(f: TextField, t: TrackView)
    ensures
        !field_has_quotes(f, fix_result(FixView::ReplaceSmartQuotes(f), t)),
        !field_has_quotes(f, fix_result(FixView::ReplaceDisallowed(f), t)),
{
    match field_value(f.tag_field(), t) {
        Some(v) => {
            let r = replace_quotes(v);
            assert(field_value(f.tag_field(), fix_result(FixView::ReplaceSmartQuotes(f), t)) == Some(
                r,
            ));
            assert(field_value(f.tag_field(), fix_result(FixView::ReplaceDisallowed(f), t)) == Some(
                r,
            ));
            assert forall|i: int| 0 <= i < r.len() implies !is_smart_quote(#[trigger] r[i]) by {}
        },
        None => {},
    }
}

/// Text that starts and ends with something other than white space is its
/// own trim.
pub proof fn lemma_trim_ws_unpadded(s: Seq<char>)
    requires
        s.len() > 0,
        !is_white_space(s[0]),
        !is_white_space(s[s.len() - 1]),
    ensures
        trim_ws(s) == s,
{
    let cls = CharClass::WhiteSpace;
    assert(skip_class(cls, s, 0) == 0);
    assert(s.subrange(0, s.len() as int) =~= s);
    assert(back_class(cls, s, s.len() as int) == s.len());
}

/// `pad2` of a key number is one of `01`..`09`, `10`..`12`.
proof fn lemma_pad2_key_number(m: nat)
    requires
        1 <= m <= 12,
    ensures
        pad2(m).len() == 2,
        (pad2(m)[0] == '0' && '1' <= pad2(m)[1] && pad2(m)[1] <= '9') || (pad2(m)[0] == '1' && '0'
            <= pad2(m)[1] && pad2(m)[1] <= '2'),
{
    if m >= 10 {
        assert(m / 10 == 1 && m % 10 <= 2) by (nonlinear_arith)
            requires
                10 <= m <= 12,
        ;
        assert(decimal_digits(1) == seq![digit_char(1)]);
        assert(decimal_digits(m) == decimal_digits(1).push(digit_char((m % 10) as nat)));
    }
}

/// A key that the key fix can rewrite becomes a canonical Camelot key.
pub proof fn lemma_canonical_key_is_canonical(k: Seq<char>)
    requires
        canonical_key(k) is Some,
    ensures
        is_canonical_camelot(canonical_key(k).unwrap()),
{
    match parse_camelot_spec(k) {
        Some(c) => {
            let u = crate::text::ascii_upper_seq(k);
            let n = crate::numbers::parse_u32(u.drop_last()).unwrap();
            lemma_pad2_key_number(n as nat);
        },
        None => match parse_openkey_spec(k) {
            Some(c) => {
                let l = crate::text::ascii_lower_seq(k);
                let n = crate::numbers::parse_u32(l.drop_last()).unwrap();
                lemma_pad2_key_number(openkey_to_camelot(n));
            },
            None => {
                if k.len() > 0 && k.last() == 'm' {
                    lemma_pad2_key_number(minor_number(k.drop_last()).unwrap() as nat);
                } else {
                    lemma_pad2_key_number(major_number(k).unwrap() as nat);
                }
            },
        },
    }
}

/// After the key fix, the key rule passes, wherever the key was in a
/// notation the fix recognizes.
pub proof fn law_key_fix_resolves(t: TrackView)
    requires
        t.fields.key matches Some(raw) && canonical_key(trim_ws(raw)) is Some,
    ensures
        key_outcome(canonical_key_fixed(t)) == OutcomeView::Passed,
{
    let raw = t.fields.key.unwrap();
    let c = canonical_key(trim_ws(raw)).unwrap();
    lemma_canonical_key_is_canonical(trim_ws(raw));
    lemma_trim_ws_unpadded(c);
    assert(canonical_key_fixed(t).fields.key == Some(c));
}

/// The first position of `c` in `s` is `k` when `s[k]` is `c` and no
/// earlier character is.
proof fn lemma_first_index_is(s: Seq<char>, c: char, k: int)
    requires
        0 <= k < s.len(),
        s[k] == c,
        forall|j: int| 0 <= j < k ==> s[j] != c,
    ensures
        first_index_of(s, c) == k,
{
    lemma_first_index_from(s, c, 0);
}

/// `c` does not occur in `s`.
proof fn lemma_first_index_none(s: Seq<char>, c: char)
    requires
        forall|j: int| 0 <= j < s.len() ==> s[j] != c,
    ensures
        first_index_of(s, c) == -1,
{
    lemma_first_index_from(s, c, 0);
}

/// After the trailing-zero fix, a numeric BPM is still numeric and has no
/// trailing zero in its decimals.
pub proof fn law_strip_zero_fix_resolves(t: TrackView)
    requires
        t.fields.bpm matches Some(b) && is_decimal_number(trim_ws(b)),
    ensures
        ({
            let x = trim_ws(strip_zero_fixed(t).fields.bpm.unwrap());
            is_decimal_number(x) && !(decimals(x).len() > 0 && decimals(x).last() == '0')
        }),
{
    let b = t.fields.bpm.unwrap();
    let x = trim_ws(b);
    lemma_trim_ws_idempotent(b);
    let k = first_index_of(x, '.');
    lemma_first_index_from(x, '.', 0);
    if k >= 0 {
        let whole = x.subrange(0, k);
        let dec = x.subrange(k + 1, x.len() as int);
        lemma_back_class(CharClass::Zero, dec, dec.len() as int);
        let stripped = trim_end_class(CharClass::Zero, dec);
        assert(all_ascii_digits(whole));
        assert(all_ascii_digits(dec));
        assert(forall|j: int| 0 <= j < whole.len() ==> #[trigger] whole[j] != '.') by {
            assert forall|j: int| 0 <= j < whole.len() implies #[trigger] whole[j] != '.' by {
                assert(crate::text::is_ascii_digit(whole[j]));
            }
        }
        if stripped.len() == 0 {
            assert(strip_zero_fixed(t).fields.bpm == Some(whole));
            assert(crate::text::is_ascii_digit(whole[0]));
            assert(crate::text::is_ascii_digit(whole[whole.len() - 1]));
            lemma_trim_ws_unpadded(whole);
            lemma_first_index_none(whole, '.');
        } else {
            let n = whole + seq!['.'] + stripped;
            assert(strip_zero_fixed(t).fields.bpm == Some(n));
            assert(stripped[stripped.len() - 1] == dec[stripped.len() - 1]);
            assert(crate::text::is_ascii_digit(dec[stripped.len() - 1]));
            assert(n[0] == whole[0]);
            assert(crate::text::is_ascii_digit(whole[0]));
            assert(n[n.len() - 1] == stripped[stripped.len() - 1]);
            lemma_trim_ws_unpadded(n);
            assert(n[k] == '.');
            assert forall|j: int| 0 <= j < k implies n[j] != '.' by {
                assert(n[j] == whole[j]);
            }
            lemma_first_index_is(n, '.', k);
            assert(n.subrange(0, k) =~= whole);
            assert(n.subrange(k + 1, n.len() as int) =~= stripped);
            assert forall|j: int| 0 <= j < stripped.len() implies crate::text::is_ascii_digit(
                #[trigger] stripped[j],
            ) by {
                assert(stripped[j] == dec[j]);
            }
        }
    }
}

/// After its fixes, the artist has no separator or white space at the end
/// each fix trims: the leading fix leaves no leading junk, the trailing fix
/// no trailing junk.
pub proof fn law_junk_trim_fixes_resolve(t: TrackView)
    ensures
        fix_result(FixView::TrimLeadingJunk, t).fields.artist matches Some(a) ==> !leading_junk(a),
        fix_result(FixView::TrimTrailingJunk, t).fields.artist matches Some(a) ==> !trailing_junk(a),
{
    match t.fields.artist {
        Some(a) => {
            let cls = CharClass::SeparatorOrSpace;
            lemma_skip_class(cls, a, 0);
            lemma_back_class(cls, a, a.len() as int);
            let l = trim_start_class(cls, a);
            let r = trim_end_class(cls, a);
            assert(fix_result(FixView::TrimLeadingJunk, t).fields.artist == Some(l));
            assert(fix_result(FixView::TrimTrailingJunk, t).fields.artist == Some(r));
            if l.len() > 0 {
                assert(l[0] == a[skip_class(cls, a, 0)]);
            }
            if r.len() > 0 {
                assert(r[r.len() - 1] == a[back_class(cls, a, a.len() as int) - 1]);
            }
        },
        None => {},
    }
}

/// After the remixer fix, the remixer field and the title's remix note
/// agree, wherever the note names an artist.
pub proof fn law_remixer_fix_resolves(t: TrackView)
    requires
        t.fields.title matches Some(title) && remix_artist(title) matches Some(a) && a.len() > 0,
    ensures
        remixer_title_outcome(extract_remixer_fixed(t)) == OutcomeView::Passed,
{
    let title = t.fields.title.unwrap();
    let p = crate::linter::pattern::first_match(crate::linter::pattern::Pattern::RemixArtist, title, 0);
    let x = title.subrange(p + 1, crate::linter::pattern::remix_group_end(title, p + 2));
    lemma_trim_ws_idempotent(x);
    let after = extract_remixer_fixed(t);
    assert(after.fields.title == t.fields.title);
}

/// A canonical Camelot key is its own canonical form.
pub proof fn lemma_canonical_key_of_canonical(c: Seq<char>)
    requires
        is_canonical_camelot(c),
    ensures
        canonical_key(c) == Some(c),
{
    let u = crate::text::ascii_upper_seq(c);
    assert(u =~= c);
    let d = c.drop_last();
    assert(d =~= seq![c[0], c[1]]);
    assert(crate::numbers::unsigned_digits(d) == d);
    assert(d.drop_last() =~= seq![c[0]]);
    assert(seq![c[0]].drop_last() =~= Seq::<char>::empty());
    assert(crate::numbers::decimal_value(Seq::<char>::empty()) == 0);
    assert(seq![c[0]].last() == c[0]);
    assert(crate::numbers::decimal_value(seq![c[0]]) == crate::numbers::digit_value(c[0]));
    let n = crate::numbers::decimal_value(d);
    assert(n == crate::numbers::digit_value(c[0]) * 10 + crate::numbers::digit_value(c[1]));
    assert(all_ascii_digits(d));
    assert(crate::numbers::parse_u32(d) == Some(n as u32));
    if c[0] == '0' {
        assert(n < 10);
        assert(digit_char(n) == c[1]);
        assert(pad2(n) =~= seq![c[0], c[1]]);
    } else {
        assert(10 <= n <= 12);
        assert(n / 10 == 1 && n % 10 == crate::numbers::digit_value(c[1])) by (nonlinear_arith)
            requires
                n == 10 + crate::numbers::digit_value(c[1]),
                crate::numbers::digit_value(c[1]) <= 2,
        ;
        assert(decimal_digits(1) == seq![digit_char(1)]);
        assert(decimal_digits(n) == decimal_digits(1).push(digit_char((n % 10) as nat)));
        assert(digit_char(1) == c[0]);
        assert(digit_char((n % 10) as nat) == c[1]);
        assert(pad2(n) =~= seq![c[0], c[1]]);
    }
    assert(pad2(n).push(u.last()) =~= c);
}

/// Applying the key fix twice leaves what applying it once left.
pub proof fn law_key_fix_idempotent(t: TrackView)
    ensures
        canonical_key_fixed(canonical_key_fixed(t)) == canonical_key_fixed(t),
{
    match t.fields.key {
        Some(raw) => match canonical_key(trim_ws(raw)) {
            Some(c) => {
                lemma_canonical_key_is_canonical(trim_ws(raw));
                lemma_trim_ws_unpadded(c);
                lemma_canonical_key_of_canonical(c);
                let once = canonical_key_fixed(t);
                assert(once.fields.key == Some(c));
                assert(canonical_key_fixed(once) == with_field(TagField::Key, once, Some(c)));
            },
            None => {},
        },
        None => {},
    }
}

/// Reading a number is blind to ASCII case: lowering the text first reads
/// the same number, or fails the same way.
pub proof fn lemma_parse_u32_lower(p: Seq<char>)
    ensures
        crate::numbers::parse_u32(crate::text::ascii_lower_seq(p)) == crate::numbers::parse_u32(p),
{
    let q = crate::text::ascii_lower_seq(p);
    let dp = crate::numbers::unsigned_digits(p);
    let dq = crate::numbers::unsigned_digits(q);
    assert(dq.len() == dp.len());
    assert forall|i: int| 0 <= i < dq.len() implies #[trigger] dq[i] == crate::text::ascii_lower(
        dp[i],
    ) by {
        if p.len() > 0 && p[0] == '+' {
            assert(dq[i] == q[i + 1]);
        }
    }
    assert(all_ascii_digits(dq) == all_ascii_digits(dp)) by {
        if all_ascii_digits(dp) {
            assert forall|i: int| 0 <= i < dq.len() implies crate::text::is_ascii_digit(
                #[trigger] dq[i],
            ) by {
                assert(crate::text::is_ascii_digit(dp[i]));
            }
        }
        if all_ascii_digits(dq) {
            assert forall|i: int| 0 <= i < dp.len() implies crate::text::is_ascii_digit(
                #[trigger] dp[i],
            ) by {
                assert(crate::text::is_ascii_digit(dq[i]));
            }
        }
    }
    if all_ascii_digits(dp) {
        assert forall|i: int| 0 <= i < dq.len() implies #[trigger] dq[i] == dp[i] by {
            assert(crate::text::is_ascii_digit(dp[i]));
        }
        assert(dq =~= dp);
    }
}

/// An OpenKey key read directly: its last character is `d`, `m`, `D` or
/// `M`, and what comes before reads as a number `n` from 1 to 12. It is
/// Camelot number `(n + 6) % 12 + 1`, zero-padded, with `B` for `d` (major)
/// and `A` for `m` (minor); every other text is no OpenKey key.
pub open spec fn openkey_formula(s: Seq<char>) -> Option<Seq<char>> {
    if s.len() > 0 && (s.last() == 'd' || s.last() == 'D' || s.last() == 'm' || s.last() == 'M') {
        match crate::numbers::parse_u32(s.drop_last()) {
            Some(n) => if 1 <= n && n <= 12 {
                Some(
                    pad2(((n + 6) % 12 + 1) as nat).push(
                        if s.last() == 'd' || s.last() == 'D' {
                            'B'
                        } else {
                            'A'
                        },
                    ),
                )
            } else {
                None
            },
            None => None,
        }
    } else {
        None
    }
}

/// Reading OpenKey notation gives exactly the OpenKey formula.
pub proof fn law_openkey_formula(s: Seq<char>)
    ensures
        parse_openkey_spec(s) == openkey_formula(s),
{
    let l = crate::text::ascii_lower_seq(s);
    if s.len() > 0 {
        assert(l.drop_last() =~= crate::text::ascii_lower_seq(s.drop_last()));
        lemma_parse_u32_lower(s.drop_last());
        assert(l.last() == crate::text::ascii_lower(s.last()));
    }
}

/// The file-extension rule passes exactly for a file whose extension, in
/// ASCII lower case, is `mp3`, `aif` or `aiff`; any other file, one without
/// an extension among them, gets one violation.
pub proof fn law_supported_extensions_pass(target: TargetView)
    ensures
        (FileSupportedExtensionRule.outcome(target) == OutcomeView::Passed) <==> (path_extension(
            target.track.file_path,
        ) matches Some(e) && (crate::text::ascii_lower_seq(e) == seq!['m', 'p', '3']
            || crate::text::ascii_lower_seq(e) == seq!['a', 'i', 'f'] || crate::text::ascii_lower_seq(
            e,
        ) == seq!['a', 'i', 'f', 'f'])),
        FileSupportedExtensionRule.outcome(target) != OutcomeView::Passed ==> (
        FileSupportedExtensionRule.outcome(target) matches OutcomeView::Violations(v) && v.len()
            == 1),
{
    reveal_strlit("mp3");
    reveal_strlit("aif");
    reveal_strlit("aiff");
    assert("mp3"@ =~= seq!['m', 'p', '3']);
    assert("aif"@ =~= seq!['a', 'i', 'f']);
    assert("aiff"@ =~= seq!['a', 'i', 'f', 'f']);
}

/// A parsed track count passes the track-count rule exactly when its number
/// is at least 1 and at most its total (so never when the total is 0); an
/// unparsed count never passes; a missing one always does.
pub proof fn law_track_count_range(target: TargetView)
    ensures
        target.track.fields.track matches Some(CountFieldView::Valid(c)) ==> ((
        TrackCountFormatRule.outcome(target) == OutcomeView::Passed) <==> (1 <= c.number
            && c.number <= c.total)),
        target.track.fields.track matches Some(CountFieldView::Invalid(_)) ==> (
        TrackCountFormatRule.outcome(target) != OutcomeView::Passed),
        target.track.fields.track is None ==> TrackCountFormatRule.outcome(target)
            == OutcomeView::Passed,
{
}

} // verus!
