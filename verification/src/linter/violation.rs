//! Violations and the fixes that resolve them.
use vstd::prelude::*;
use crate::linter::pattern::{replace_all, replace_all_exec, Pattern};
use crate::linter::rules::bpm_numeric::{fix_round_to_two_decimals, rounded_bpm, fix_strip_trailing_decimal_zero, strip_zero_fixed};
use crate::linter::rules::key_canonical_camelot::{canonical_key_fixed, fix_to_canonical_camelot};
use crate::linter::rules::meta_no_smart_quotes::replace_quotes;
use crate::linter::rules::meta_remixer_title_consistency::{extract_remixer_fixed, extract_remixer_from_title};
use crate::linter::rules::{artist_feat_standardization, artist_separator_standardization, artist_separator_structure, meta_disallowed_characters, meta_no_smart_quotes, meta_text_trimmed, title_mix_suffix_style, title_no_original_mix};
use crate::linter::text_field::{map_field, with_field, TagField, TextField};
use crate::text::{chars_of, string_of, trim_end_class, trim_start_class, trim_ws, CharClass};
use crate::track::{Track, TrackView};

verus! {

#[derive(Clone, Copy, PartialEq, Eq, Debug, Structural)]
pub enum RuleSeverity {
    /// A hard violation that must be resolved before a track is allowed to
    /// belong in the catalog.
    Error,
    /// A soft signal that may not require action: shown to the user, but it
    /// does not block acceptance.
    Warn,
}

/// Rounds decimal text to two places, as the BPM fix needs. Implementors
/// give `None` where the text is not a number.
pub trait DecimalRounding {
    /// What `round_two_decimals` gives for `text`. An implementation in
    /// verified code defines it and is held to it; for an implementation
    /// outside verified code nothing checks its answers against it.
    open spec fn rounding_of(&self, text: Seq<char>) -> Option<Seq<char>> {
        arbitrary()
    }

    fn round_two_decimals(&self, text: &str) -> (r: Option<String>)
        ensures
            crate::track::opt_text(r) == self.rounding_of(text@),
    ;
}

/// A deferred change that resolves a violation. Every fix reads the track as
/// it is when the fix runs, so fixes from several rules can be chained on the
/// same track.
#[derive(Clone, Debug)]
pub enum Fix {
    /// Rewrites featuring tokens in the artist to `Ft.`.
    StandardizeFeat,
    /// Rewrites `and`, `vs.` and `versus` between artists to `&` and `vs`.
    StandardizeSeparators,
    /// Trims separators and white space from the start of the artist.
    TrimLeadingJunk,
    /// Trims separators and white space from the end of the artist.
    TrimTrailingJunk,
    /// Removes white space before commas in the artist.
    SpaceBeforeComma,
    /// Collapses runs of white space in the artist to one space.
    CollapseSpaces,
    /// Collapses doubled commas in the artist.
    CollapseDoubledComma,
    /// Collapses doubled ampersands in the artist.
    CollapseDoubledAmp,
    /// Rounds the BPM to two decimal places.
    RoundBpmToTwoDecimals,
    /// Strips trailing zeros (and a bare dot) from the BPM's decimals.
    StripBpmTrailingZero,
    /// Rewrites the key in canonical Camelot notation.
    CanonicalKey,
    /// Replaces disallowed characters in one text field.
    ReplaceDisallowed(TextField),
    /// Replaces smart quotes in one text field.
    ReplaceSmartQuotes(TextField),
    /// Trims white space from both ends of one field.
    TrimField(TagField),
    /// Writes the artist of the title's remix note into the remixer field.
    ExtractRemixer,
    /// Title-cases the keyword of every mix suffix in the title.
    CanonicalizeMixSuffix,
    /// Removes `(Original Mix)` from the title.
    StripOriginalMix,
    /// Sets one field to a given value.
    Assign(TagField, String),
}

pub enum FixView {
    StandardizeFeat,
    StandardizeSeparators,
    TrimLeadingJunk,
    TrimTrailingJunk,
    SpaceBeforeComma,
    CollapseSpaces,
    CollapseDoubledComma,
    CollapseDoubledAmp,
    RoundBpmToTwoDecimals,
    StripBpmTrailingZero,
    CanonicalKey,
    ReplaceDisallowed(TextField),
    ReplaceSmartQuotes(TextField),
    TrimField(TagField),
    ExtractRemixer,
    CanonicalizeMixSuffix,
    StripOriginalMix,
    Assign(TagField, Seq<char>),
}

impl View for Fix {
    type V = FixView;

    open spec fn view(&self) -> FixView {
        match self {
            Fix::StandardizeFeat => FixView::StandardizeFeat,
            Fix::StandardizeSeparators => FixView::StandardizeSeparators,
            Fix::TrimLeadingJunk => FixView::TrimLeadingJunk,
            Fix::TrimTrailingJunk => FixView::TrimTrailingJunk,
            Fix::SpaceBeforeComma => FixView::SpaceBeforeComma,
            Fix::CollapseSpaces => FixView::CollapseSpaces,
            Fix::CollapseDoubledComma => FixView::CollapseDoubledComma,
            Fix::CollapseDoubledAmp => FixView::CollapseDoubledAmp,
            Fix::RoundBpmToTwoDecimals => FixView::RoundBpmToTwoDecimals,
            Fix::StripBpmTrailingZero => FixView::StripBpmTrailingZero,
            Fix::CanonicalKey => FixView::CanonicalKey,
            Fix::ReplaceDisallowed(f) => FixView::ReplaceDisallowed(*f),
            Fix::ReplaceSmartQuotes(f) => FixView::ReplaceSmartQuotes(*f),
            Fix::TrimField(f) => FixView::TrimField(*f),
            Fix::ExtractRemixer => FixView::ExtractRemixer,
            Fix::CanonicalizeMixSuffix => FixView::CanonicalizeMixSuffix,
            Fix::StripOriginalMix => FixView::StripOriginalMix,
            Fix::Assign(f, v) => FixView::Assign(*f, v@),
        }
    }
}

/// `t` with the artist, where there is one, replaced by every match of
/// `pat` in it replaced.
pub open spec fn artist_replaced(pat: Pattern, t: TrackView) -> TrackView {
    map_field(TagField::Artist, t, |a: Seq<char>| replace_all(pat, a))
}

/// Replaces every match of `pat` in the artist, where there is one.
pub fn replace_in_artist(track: &mut Track, pat: Pattern)
    ensures
        final(track)@ == artist_replaced(pat, old(track)@),
{
    let r = match &track.fields.artist {
        Some(a) => replace_all_exec(pat, &chars_of(a.as_str())),
        None => {
            return ;
        },
    };
    track.fields.artist = Some(string_of(&r));
}

/// The track that a fix other than the BPM rounding leaves.
pub open spec fn fix_result(fix: FixView, t: TrackView) -> TrackView {
    match fix {
        FixView::StandardizeFeat => artist_replaced(Pattern::FeatVariant, t),
        FixView::StandardizeSeparators => artist_replaced(Pattern::NonCanonSeparator, t),
        FixView::TrimLeadingJunk => map_field(
            TagField::Artist,
            t,
            |a: Seq<char>| trim_start_class(CharClass::SeparatorOrSpace, a),
        ),
        FixView::TrimTrailingJunk => map_field(
            TagField::Artist,
            t,
            |a: Seq<char>| trim_end_class(CharClass::SeparatorOrSpace, a),
        ),
        FixView::SpaceBeforeComma => artist_replaced(Pattern::SpaceBeforeComma, t),
        FixView::CollapseSpaces => artist_replaced(Pattern::DoubleSpace, t),
        FixView::CollapseDoubledComma => artist_replaced(Pattern::DoubledComma, t),
        FixView::CollapseDoubledAmp => artist_replaced(Pattern::DoubledAmp, t),
        FixView::RoundBpmToTwoDecimals => t,
        FixView::StripBpmTrailingZero => strip_zero_fixed(t),
        FixView::CanonicalKey => canonical_key_fixed(t),
        FixView::ReplaceDisallowed(f) => map_field(f.tag_field(), t, |v: Seq<char>| replace_quotes(v)),
        FixView::ReplaceSmartQuotes(f) => map_field(f.tag_field(), t, |v: Seq<char>| replace_quotes(v)),
        FixView::TrimField(f) => map_field(f, t, |v: Seq<char>| trim_ws(v)),
        FixView::ExtractRemixer => extract_remixer_fixed(t),
        FixView::CanonicalizeMixSuffix => map_field(
            TagField::Title,
            t,
            |v: Seq<char>| replace_all(Pattern::MixSuffix, v),
        ),
        FixView::StripOriginalMix => map_field(
            TagField::Title,
            t,
            |v: Seq<char>| trim_ws(replace_all(Pattern::OriginalMix, v)),
        ),
        FixView::Assign(f, v) => with_field(f, t, Some(v)),
    }
}

/// What applying `fix` to `before` with `rounding` leaves: the BPM
/// rounding replaces the BPM by what `rounding` gives for it; every other
/// fix leaves exactly `fix_result`.
pub open spec fn fix_effect<D: DecimalRounding>(
    fix: FixView,
    before: TrackView,
    after: TrackView,
    rounding: D,
) -> bool {
    match fix {
        FixView::RoundBpmToTwoDecimals => after == rounded_bpm(before, rounding),
        _ => after == fix_result(fix, before),
    }
}

impl Fix {
    /// Applies this fix to `track`.
    pub fn apply<D: DecimalRounding>(&self, track: &mut Track, rounding: &D)
        ensures
            fix_effect(self@, old(track)@, final(track)@, *rounding),
    {
        match self {
            Fix::StandardizeFeat => artist_feat_standardization::fix_standardize_feat(track),
            Fix::StandardizeSeparators => artist_separator_standardization::fix_standardize_separators(track),
            Fix::TrimLeadingJunk => artist_separator_structure::fix_trim_leading(track),
            Fix::TrimTrailingJunk => artist_separator_structure::fix_trim_trailing(track),
            Fix::SpaceBeforeComma => artist_separator_structure::fix_space_before_comma(track),
            Fix::CollapseSpaces => artist_separator_structure::fix_collapse_spaces(track),
            Fix::CollapseDoubledComma => artist_separator_structure::fix_collapse_doubled_comma(track),
            Fix::CollapseDoubledAmp => artist_separator_structure::fix_collapse_doubled_amp(track),
            Fix::RoundBpmToTwoDecimals => fix_round_to_two_decimals(track, rounding),
            Fix::StripBpmTrailingZero => fix_strip_trailing_decimal_zero(track),
            Fix::CanonicalKey => fix_to_canonical_camelot(track),
            Fix::ReplaceDisallowed(f) => meta_disallowed_characters::fix_replace_disallowed(*f, track),
            Fix::ReplaceSmartQuotes(f) => meta_no_smart_quotes::fix_replace_smart_quotes(*f, track),
            Fix::TrimField(f) => meta_text_trimmed::fix_trim_field(*f, track),
            Fix::ExtractRemixer => extract_remixer_from_title(track),
            Fix::CanonicalizeMixSuffix => title_mix_suffix_style::fix_canonicalize_mix_suffix(track),
            Fix::StripOriginalMix => title_no_original_mix::fix_strip_original_mix(track),
            Fix::Assign(f, v) => {
                f.set(track, v.clone());
            },
        }
    }
}

/// A single violation produced by a rule. The rule that produced it is
/// recorded by the `RuleResult` that carries it.
#[derive(Clone, Debug)]
pub struct RuleViolation {
    pub severity: RuleSeverity,
    pub message: String,
    /// The fix that resolves this violation; absent when it cannot be fixed
    /// safely without a human.
    pub fix: Option<Fix>,
}

pub struct ViolationView {
    pub severity: RuleSeverity,
    pub message: Seq<char>,
    pub fix: Option<FixView>,
}

pub open spec fn opt_fix(f: Option<Fix>) -> Option<FixView> {
    match f {
        Some(x) => Some(x@),
        None => None,
    }
}

impl View for RuleViolation {
    type V = ViolationView;

    open spec fn view(&self) -> ViolationView {
        ViolationView { severity: self.severity, message: self.message@, fix: opt_fix(self.fix) }
    }
}

/// An error-severity violation with `message` and no fix.
pub open spec fn error_v(message: Seq<char>) -> ViolationView {
    ViolationView { severity: RuleSeverity::Error, message, fix: None }
}

/// A warn-severity violation with `message` and no fix.
pub open spec fn warn_v(message: Seq<char>) -> ViolationView {
    ViolationView { severity: RuleSeverity::Warn, message, fix: None }
}

/// `v` with `fix` attached.
pub open spec fn fixed(v: ViolationView, fix: FixView) -> ViolationView {
    ViolationView { fix: Some(fix), ..v }
}

impl RuleViolation {
    /// An `Error`-severity violation with `message` and no fix.
    pub fn error(message: String) -> (r: Self)
        ensures
            r@ == error_v(message@),
    {
        RuleViolation { severity: RuleSeverity::Error, message, fix: None }
    }

    /// Attaches a fix to this violation.
    pub fn with_fix(self, fix: Fix) -> (r: Self)
        ensures
            r@ == fixed(self@, fix@),
    {
        RuleViolation { severity: self.severity, message: self.message, fix: Some(fix) }
    }
}

} // verus!
