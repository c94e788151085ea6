//! When each structural and metadata rule passes, stated for every target in
//! terms of the track's fields.
use vstd::prelude::*;
use crate::linter::lint_target::TargetView;
use crate::linter::result::OutcomeView;
use crate::linter::rule::{present_trimmed, Rule};
use crate::linter::rules::album_requires_disc::AlbumRequiresDiscRule;
use crate::linter::rules::disc_count_format::DiscCountFormatRule;
use crate::linter::rules::disc_requires_track::DiscRequiresTrackRule;
use crate::linter::rules::meta_publisher_catalog_pairing::MetaPublisherCatalogPairingRule;
use crate::linter::rules::meta_required_fields_present::MetaRequiredFieldsPresentRule;
use crate::linter::rules::track_requires_disc::TrackRequiresDiscRule;
use crate::linter::rules::year_format::YearFormatRule;
use crate::linter::violation::RuleSeverity;
use crate::text::{
    back_class, is_white_space, lemma_back_class, lemma_skip_class, regex_decimal_digit,
    skip_class, trim_ws, CharClass,
};
use crate::track::{CountFieldView, TrackView};
use crate::linter::laws::lemma_trim_ws_unpadded;
use crate::linter::rules::key_canonical_camelot::KeyCanonicalCamelotRule;
use crate::linter::rules::meta_no_smart_quotes::{field_has_quotes, quote_violations, MetaNoSmartQuotesRule};
use crate::linter::rules::meta_text_trimmed::{field_untrimmed, trim_violations, MetaTextTrimmedRule};
use crate::linter::text_field::{field_value, TagField, TextField};

verus! {

/// The value is there and holds something other than white space.
pub open spec fn has_content(o: Option<Seq<char>>) -> bool {
    o matches Some(v) && exists|i: int| 0 <= i < v.len() && !is_white_space(#[trigger] v[i])
}

/// A value trims to something exactly when it holds a character other than
/// white space.
pub proof fn lemma_present_trimmed_content(o: Option<Seq<char>>)
    ensures
        (present_trimmed(o) is Some) == has_content(o),
{
    match o {
        Some(v) => {
            let cls = CharClass::WhiteSpace;
            lemma_skip_class(cls, v, 0);
            let k = skip_class(cls, v, 0);
            let u = v.subrange(k, v.len() as int);
            lemma_back_class(cls, u, u.len() as int);
            if has_content(o) {
                let i = choose|i: int| 0 <= i < v.len() && !is_white_space(#[trigger] v[i]);
                assert(k <= i);
                assert(u.len() > 0);
                assert(!is_white_space(u[0]));
                assert(back_class(cls, u, u.len() as int) > 0);
                assert(trim_ws(v).len() > 0);
            } else {
                if trim_ws(v).len() > 0 {
                    let b = back_class(cls, u, u.len() as int);
                    assert(u[b - 1] == v[k + b - 1]);
                    assert(!is_white_space(v[k + b - 1]));
                }
            }
        },
        None => {},
    }
}

/// A parsed disc count passes the disc-count rule exactly when its number is
/// at least 1 and at most its total; an unparsed count never passes; a
/// missing one always does.
pub proof fn law_disc_count_range(target: TargetView)
    ensures
        target.track.fields.disc matches Some(CountFieldView::Valid(c)) ==> ((
        DiscCountFormatRule.outcome(target) == OutcomeView::Passed) <==> (1 <= c.number
            && c.number <= c.total)),
        target.track.fields.disc matches Some(CountFieldView::Invalid(_)) ==> (
        DiscCountFormatRule.outcome(target) != OutcomeView::Passed),
        target.track.fields.disc is None ==> DiscCountFormatRule.outcome(target)
            == OutcomeView::Passed,
{
}

/// The rules that tie album, disc and track together: an album needs a
/// disc, a disc needs a track, a track needs a disc. Each passes exactly when
/// its first field is missing or its second is present.
pub proof fn law_field_dependencies(target: TargetView)
    ensures
        (AlbumRequiresDiscRule.outcome(target) == OutcomeView::Passed) <==> (
        target.track.fields.album is None || target.track.fields.disc is Some),
        (DiscRequiresTrackRule.outcome(target) == OutcomeView::Passed) <==> (
        target.track.fields.disc is None || target.track.fields.track is Some),
        (TrackRequiresDiscRule.outcome(target) == OutcomeView::Passed) <==> (
        target.track.fields.track is None || target.track.fields.disc is Some),
{
}

/// The year rule passes exactly when there is no year, or the year is four
/// characters that are all decimal digits.
pub proof fn law_year_format(target: TargetView)
    ensures
        (YearFormatRule.outcome(target) == OutcomeView::Passed) <==> (target.track.fields.year is None
            || (target.track.fields.year matches Some(y) && y.len() == 4 && regex_decimal_digit(y[0])
            && regex_decimal_digit(y[1]) && regex_decimal_digit(y[2]) && regex_decimal_digit(
            y[3]))),
{
    match target.track.fields.year {
        Some(y) => {
            if y.len() == 4 && regex_decimal_digit(y[0]) && regex_decimal_digit(y[1])
                && regex_decimal_digit(y[2]) && regex_decimal_digit(y[3]) {
                assert forall|i: int| 0 <= i < 4 implies regex_decimal_digit(#[trigger] y[i]) by {
                    if i == 0 {
                    } else if i == 1 {
                    } else if i == 2 {
                    } else {
                    }
                }
            }
        },
        None => {},
    }
}

/// The required-fields rule passes exactly when artist, title and media hash
/// each hold something other than white space; otherwise it reports one
/// error for each of them that does not.
pub proof fn law_required_fields(target: TargetView)
    ensures
        ({
            let f = target.track.fields;
            let missing = (if has_content(f.artist) {
                0int
            } else {
                1int
            }) + (if has_content(f.title) {
                0int
            } else {
                1int
            }) + (if has_content(f.media_hash) {
                0int
            } else {
                1int
            });
            &&& (MetaRequiredFieldsPresentRule.outcome(target) == OutcomeView::Passed) <==> (
            has_content(f.artist) && has_content(f.title) && has_content(f.media_hash))
            &&& MetaRequiredFieldsPresentRule.outcome(target) matches OutcomeView::Violations(v)
                ==> v.len() == missing && forall|k: int|
                0 <= k < v.len() ==> (#[trigger] v[k]).severity == RuleSeverity::Error
        }),
{
    let f = target.track.fields;
    lemma_present_trimmed_content(f.artist);
    lemma_present_trimmed_content(f.title);
    lemma_present_trimmed_content(f.media_hash);
}

/// The publisher and catalog number go together: the rule passes when both
/// hold something or neither does; a publisher alone is a warning, a catalog
/// number alone an error.
pub proof fn law_publisher_catalog_pairing(target: TargetView)
    ensures
        ({
            let f = target.track.fields;
            let o = MetaPublisherCatalogPairingRule.outcome(target);
            &&& (o == OutcomeView::Passed) <==> (has_content(f.publisher) == has_content(
                f.catalog_id,
            ))
            &&& has_content(f.publisher) && !has_content(f.catalog_id) ==> (o matches OutcomeView::Violations(
                v,
            ) && v.len() == 1 && v[0].severity == RuleSeverity::Warn)
            &&& !has_content(f.publisher) && has_content(f.catalog_id) ==> (o matches OutcomeView::Violations(
                v,
            ) && v.len() == 1 && v[0].severity == RuleSeverity::Error)
        }),
{
    lemma_present_trimmed_content(target.track.fields.publisher);
    lemma_present_trimmed_content(target.track.fields.catalog_id);
}

/// A value equals its own trim exactly when it is empty or neither starts
/// nor ends with white space.
pub proof fn lemma_trimmed_ends(v: Seq<char>)
    ensures
        (trim_ws(v) == v) == (v.len() == 0 || (!is_white_space(v[0]) && !is_white_space(
            v[v.len() - 1],
        ))),
{
    let cls = CharClass::WhiteSpace;
    lemma_skip_class(cls, v, 0);
    let k = skip_class(cls, v, 0);
    let u = v.subrange(k, v.len() as int);
    lemma_back_class(cls, u, u.len() as int);
    if v.len() == 0 {
        assert(trim_ws(v) =~= v);
    } else if !is_white_space(v[0]) && !is_white_space(v[v.len() - 1]) {
        lemma_trim_ws_unpadded(v);
    } else if is_white_space(v[0]) {
        assert(k >= 1);
        assert(trim_ws(v).len() < v.len());
    } else {
        assert(k == 0);
        assert(u =~= v);
        assert(back_class(cls, u, u.len() as int) < u.len());
        assert(trim_ws(v).len() < v.len());
    }
}

proof fn lemma_trim_violations_none(t: TrackView, fs: Seq<TagField>)
    ensures
        (trim_violations(t, fs).len() == 0) == (forall|i: int|
            0 <= i < fs.len() ==> !field_untrimmed(#[trigger] fs[i], t)),
    decreases fs.len(),
{
    if fs.len() > 0 {
        lemma_trim_violations_none(t, fs.drop_last());
        if forall|i: int| 0 <= i < fs.len() ==> !field_untrimmed(#[trigger] fs[i], t) {
            assert forall|i: int| 0 <= i < fs.drop_last().len() implies !field_untrimmed(
                #[trigger] fs.drop_last()[i],
                t,
            ) by {
                assert(fs.drop_last()[i] == fs[i]);
            }
            assert(!field_untrimmed(fs[fs.len() - 1], t));
        }
        if trim_violations(t, fs).len() == 0 {
            assert forall|i: int| 0 <= i < fs.len() implies !field_untrimmed(#[trigger] fs[i], t) by {
                if i < fs.len() - 1 {
                    assert(fs.drop_last()[i] == fs[i]);
                }
            }
        }
    }
}

/// The value, where there is one, is empty or neither starts nor ends with
/// white space.
pub open spec fn unpadded(o: Option<Seq<char>>) -> bool {
    o matches Some(v) ==> (v.len() == 0 || (!is_white_space(v[0]) && !is_white_space(
        v[v.len() - 1],
    )))
}

/// The text-trimmed rule passes exactly when no text field holds a value
/// that starts or ends with white space; an empty value is fine.
pub proof fn law_text_trimmed_passes(target: TargetView)
    ensures
        (MetaTextTrimmedRule.outcome(target) == OutcomeView::Passed) <==> (forall|f: TagField|
            unpadded(#[trigger] field_value(f, target.track))),
{
    let t = target.track;
    let fs = TagField::all_spec();
    lemma_trim_violations_none(t, fs);
    assert forall|f: TagField| #[trigger] field_untrimmed(f, t) == !unpadded(field_value(f, t)) by {
        match field_value(f, t) {
            Some(v) => lemma_trimmed_ends(v),
            None => {},
        }
    }
    if forall|i: int| 0 <= i < fs.len() ==> !field_untrimmed(#[trigger] fs[i], t) {
        assert forall|f: TagField| unpadded(#[trigger] field_value(f, t)) by {
            match f {
                TagField::Artist => assert(!field_untrimmed(fs[0], t)),
                TagField::Title => assert(!field_untrimmed(fs[1], t)),
                TagField::Album => assert(!field_untrimmed(fs[2], t)),
                TagField::Remixer => assert(!field_untrimmed(fs[3], t)),
                TagField::Publisher => assert(!field_untrimmed(fs[4], t)),
                TagField::CatalogId => assert(!field_untrimmed(fs[5], t)),
                TagField::Year => assert(!field_untrimmed(fs[6], t)),
                TagField::Genre => assert(!field_untrimmed(fs[7], t)),
                TagField::Key => assert(!field_untrimmed(fs[8], t)),
                TagField::Bpm => assert(!field_untrimmed(fs[9], t)),
            }
        }
    }
    if forall|f: TagField| unpadded(#[trigger] field_value(f, t)) {
        assert forall|i: int| 0 <= i < fs.len() implies !field_untrimmed(#[trigger] fs[i], t) by {
            assert(unpadded(field_value(fs[i], t)));
        }
    }
}

/// `“`, `”`, `‘`, `’`, `´` or a backtick.
pub open spec fn quote_char(c: char) -> bool {
    c == '\u{201c}' || c == '\u{201d}' || c == '\u{2018}' || c == '\u{2019}' || c == '\u{b4}' || c
        == '`'
}

proof fn lemma_quote_violations_none(
    t: TrackView,
    fs: Seq<TextField>,
    prefix: Seq<char>,
    disallowed: bool,
)
    ensures
        (quote_violations(t, fs, prefix, disallowed).len() == 0) == (forall|i: int|
            0 <= i < fs.len() ==> !field_has_quotes(#[trigger] fs[i], t)),
    decreases fs.len(),
{
    if fs.len() > 0 {
        lemma_quote_violations_none(t, fs.drop_last(), prefix, disallowed);
        if forall|i: int| 0 <= i < fs.len() ==> !field_has_quotes(#[trigger] fs[i], t) {
            assert forall|i: int| 0 <= i < fs.drop_last().len() implies !field_has_quotes(
                #[trigger] fs.drop_last()[i],
                t,
            ) by {
                assert(fs.drop_last()[i] == fs[i]);
            }
            assert(!field_has_quotes(fs[fs.len() - 1], t));
        }
        if quote_violations(t, fs, prefix, disallowed).len() == 0 {
            assert forall|i: int| 0 <= i < fs.len() implies !field_has_quotes(#[trigger] fs[i], t) by {
                if i < fs.len() - 1 {
                    assert(fs.drop_last()[i] == fs[i]);
                }
            }
        }
    }
}

/// The value, where there is one, holds no smart quote.
pub open spec fn quote_free(o: Option<Seq<char>>) -> bool {
    o matches Some(v) ==> forall|i: int| 0 <= i < v.len() ==> !quote_char(#[trigger] v[i])
}

/// The smart-quote rule passes exactly when none of artist, title, album,
/// remixer and publisher holds `“`, `”`, `‘`, `’`, `´` or a backtick.
pub proof fn law_no_smart_quotes_passes(target: TargetView)
    ensures
        (MetaNoSmartQuotesRule.outcome(target) == OutcomeView::Passed) <==> (forall|f: TextField|
            quote_free(#[trigger] field_value(f.tag_field(), target.track))),
{
    let t = target.track;
    let fs = TextField::all_spec();
    lemma_quote_violations_none(t, fs, "Smart quotes in `"@, false);
    assert forall|f: TextField| #[trigger] field_has_quotes(f, t) == !quote_free(
        field_value(f.tag_field(), t),
    ) by {
        match field_value(f.tag_field(), t) {
            Some(v) => {
                if crate::linter::rules::meta_no_smart_quotes::has_quotes(v) {
                    let i = choose|i: int|
                        0 <= i < v.len()
                            && #[trigger] crate::linter::rules::meta_no_smart_quotes::is_smart_quote(
                            v[i],
                        );
                    assert(quote_char(v[i]));
                }
                if !quote_free(Some(v)) {
                    let i = choose|i: int| 0 <= i < v.len() && quote_char(#[trigger] v[i]);
                    assert(crate::linter::rules::meta_no_smart_quotes::is_smart_quote(v[i]));
                }
            },
            None => {},
        }
    }
    if forall|i: int| 0 <= i < fs.len() ==> !field_has_quotes(#[trigger] fs[i], t) {
        assert forall|f: TextField| quote_free(#[trigger] field_value(f.tag_field(), t)) by {
            match f {
                TextField::Artist => assert(!field_has_quotes(fs[0], t)),
                TextField::Title => assert(!field_has_quotes(fs[1], t)),
                TextField::Album => assert(!field_has_quotes(fs[2], t)),
                TextField::Remixer => assert(!field_has_quotes(fs[3], t)),
                TextField::Publisher => assert(!field_has_quotes(fs[4], t)),
            }
        }
    }
    if forall|f: TextField| quote_free(#[trigger] field_value(f.tag_field(), t)) {
        assert forall|i: int| 0 <= i < fs.len() implies !field_has_quotes(#[trigger] fs[i], t) by {
            assert(quote_free(field_value(fs[i].tag_field(), t)));
        }
    }
}

/// The key rule passes exactly when there is no key, or the key, trimmed of
/// white space, is canonical Camelot: `01`..`12`, then `A` or `B`.
pub proof fn law_key_rule_passes(target: TargetView)
    ensures
        (KeyCanonicalCamelotRule.outcome(target) == OutcomeView::Passed) <==> (
        target.track.fields.key is None || (target.track.fields.key matches Some(raw) && {
            let k = trim_ws(raw);
            &&& k.len() == 3
            &&& (k[0] == '0' && '1' <= k[1] && k[1] <= '9') || (k[0] == '1' && '0' <= k[1] && k[1]
                <= '2')
            &&& k[2] == 'A' || k[2] == 'B'
        })),
{
}

} // verus!
