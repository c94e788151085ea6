pub mod album_requires_disc;
pub mod artist_feat_standardization;
pub mod artist_separator_standardization;
pub mod artist_separator_structure;
pub mod bpm_numeric;
pub mod disc_count_format;
pub mod disc_requires_track;
pub mod file_supported_extension;
pub mod key_canonical_camelot;
pub mod meta_disallowed_characters;
pub mod meta_no_smart_quotes;
pub mod meta_publisher_catalog_pairing;
pub mod meta_remixer_title_consistency;
pub mod meta_required_fields_present;
pub mod meta_text_trimmed;
pub mod path_matches_canonical;
pub mod title_mix_suffix_style;
pub mod title_no_featuring_token;
pub mod title_no_original_mix;
pub mod track_count_format;
pub mod track_requires_disc;
pub mod year_format;

use vstd::prelude::*;
use crate::linter::lint_target::{LintTarget, TargetView};
use crate::linter::result::{CheckOutcome, OutcomeView};
use crate::linter::rule::{Rule, RuleMetadata};
use self::file_supported_extension::{FileSupportedExtensionRule, file_supported_extension_outcome};
use self::path_matches_canonical::{PathMatchesCanonicalRule, path_matches_canonical_outcome};
use self::key_canonical_camelot::{KeyCanonicalCamelotRule, key_outcome};
use self::track_count_format::{TrackCountFormatRule, track_count_format_outcome};
use self::disc_count_format::{DiscCountFormatRule, disc_count_format_outcome};
use self::album_requires_disc::{AlbumRequiresDiscRule, album_requires_disc_outcome};
use self::disc_requires_track::{DiscRequiresTrackRule, disc_requires_track_outcome};
use self::track_requires_disc::{TrackRequiresDiscRule, track_requires_disc_outcome};
use self::meta_publisher_catalog_pairing::{MetaPublisherCatalogPairingRule, publisher_catalog_outcome};
use self::meta_required_fields_present::{MetaRequiredFieldsPresentRule, required_fields_outcome};
use self::meta_no_smart_quotes::{MetaNoSmartQuotesRule, smart_quotes_outcome};
use self::title_mix_suffix_style::{TitleMixSuffixStyleRule, mix_suffix_outcome};
use self::title_no_original_mix::{TitleNoOriginalMixRule, no_original_mix_outcome};
use self::title_no_featuring_token::{TitleNoFeaturingTokenRule, no_featuring_token_outcome};
use self::meta_remixer_title_consistency::{MetaRemixerTitleConsistencyRule, remixer_title_outcome};
use self::artist_separator_standardization::{ArtistSeparatorStandardizationRule, separator_standardization_outcome};
use self::artist_separator_structure::{ArtistSeparatorStructureRule, separator_structure_outcome};
use self::artist_feat_standardization::{ArtistFeatStandardizationRule, feat_standardization_outcome};
use self::year_format::{YearFormatRule, year_format_outcome};
use self::bpm_numeric::{BpmNumericRule, bpm_outcome};
use self::meta_disallowed_characters::{MetaDisallowedCharactersRule, disallowed_characters_outcome};
use self::meta_text_trimmed::{MetaTextTrimmedRule, text_trimmed_outcome};

verus! {

/// The rules of this crate, as one type so that an engine can hold any of them.
#[derive(Clone, Copy, PartialEq, Eq, Debug, Structural)]
pub enum BuiltinRule {
    FileSupportedExtension,
    PathMatchesCanonical,
    KeyCanonicalCamelot,
    TrackCountFormat,
    DiscCountFormat,
    AlbumRequiresDisc,
    DiscRequiresTrack,
    TrackRequiresDisc,
    MetaPublisherCatalogPairing,
    MetaRequiredFieldsPresent,
    MetaNoSmartQuotes,
    TitleMixSuffixStyle,
    TitleNoOriginalMix,
    TitleNoFeaturingToken,
    MetaRemixerTitleConsistency,
    ArtistSeparatorStandardization,
    ArtistSeparatorStructure,
    ArtistFeatStandardization,
    YearFormat,
    BpmNumeric,
    MetaDisallowedCharacters,
    MetaTextTrimmed,
}

impl Rule for BuiltinRule {
    open spec fn rule_id(&self) -> Seq<char> {
        match self {
            BuiltinRule::FileSupportedExtension => "file.supported-extension"@,
            BuiltinRule::PathMatchesCanonical => "path.matches-canonical"@,
            BuiltinRule::KeyCanonicalCamelot => "key.canonical-camelot"@,
            BuiltinRule::TrackCountFormat => "track.count-format"@,
            BuiltinRule::DiscCountFormat => "disc.count-format"@,
            BuiltinRule::AlbumRequiresDisc => "album.requires-disc"@,
            BuiltinRule::DiscRequiresTrack => "disc.requires-track"@,
            BuiltinRule::TrackRequiresDisc => "track.requires-disc"@,
            BuiltinRule::MetaPublisherCatalogPairing => "meta.publisher-catalog-pairing"@,
            BuiltinRule::MetaRequiredFieldsPresent => "meta.required-fields-present"@,
            BuiltinRule::MetaNoSmartQuotes => "meta.no-smart-quotes"@,
            BuiltinRule::TitleMixSuffixStyle => "title.mix-suffix-style"@,
            BuiltinRule::TitleNoOriginalMix => "title.no-original-mix"@,
            BuiltinRule::TitleNoFeaturingToken => "title.no-featuring-token"@,
            BuiltinRule::MetaRemixerTitleConsistency => "meta.remixer-title-consistency"@,
            BuiltinRule::ArtistSeparatorStandardization => "artist.separator-standardization"@,
            BuiltinRule::ArtistSeparatorStructure => "artist.separator-structure"@,
            BuiltinRule::ArtistFeatStandardization => "artist.feat-standardization"@,
            BuiltinRule::YearFormat => "year.format"@,
            BuiltinRule::BpmNumeric => "bpm.numeric"@,
            BuiltinRule::MetaDisallowedCharacters => "meta.disallowed-characters"@,
            BuiltinRule::MetaTextTrimmed => "meta.text-trimmed"@,
        }
    }

    open spec fn outcome(&self, target: TargetView) -> OutcomeView {
        match self {
            BuiltinRule::FileSupportedExtension => file_supported_extension_outcome(target.track),
            BuiltinRule::PathMatchesCanonical => path_matches_canonical_outcome(target.track),
            BuiltinRule::KeyCanonicalCamelot => key_outcome(target.track),
            BuiltinRule::TrackCountFormat => track_count_format_outcome(target.track),
            BuiltinRule::DiscCountFormat => disc_count_format_outcome(target.track),
            BuiltinRule::AlbumRequiresDisc => album_requires_disc_outcome(target.track),
            BuiltinRule::DiscRequiresTrack => disc_requires_track_outcome(target.track),
            BuiltinRule::TrackRequiresDisc => track_requires_disc_outcome(target.track),
            BuiltinRule::MetaPublisherCatalogPairing => publisher_catalog_outcome(target.track),
            BuiltinRule::MetaRequiredFieldsPresent => required_fields_outcome(target.track),
            BuiltinRule::MetaNoSmartQuotes => smart_quotes_outcome(target.track),
            BuiltinRule::TitleMixSuffixStyle => mix_suffix_outcome(target.track),
            BuiltinRule::TitleNoOriginalMix => no_original_mix_outcome(target.track),
            BuiltinRule::TitleNoFeaturingToken => no_featuring_token_outcome(target.track),
            BuiltinRule::MetaRemixerTitleConsistency => remixer_title_outcome(target.track),
            BuiltinRule::ArtistSeparatorStandardization => separator_standardization_outcome(target.track),
            BuiltinRule::ArtistSeparatorStructure => separator_structure_outcome(target.track),
            BuiltinRule::ArtistFeatStandardization => feat_standardization_outcome(target.track),
            BuiltinRule::YearFormat => year_format_outcome(target.track),
            BuiltinRule::BpmNumeric => bpm_outcome(target.track),
            BuiltinRule::MetaDisallowedCharacters => disallowed_characters_outcome(target.track),
            BuiltinRule::MetaTextTrimmed => text_trimmed_outcome(target.track),
        }
    }

    fn metadata(&self) -> RuleMetadata {
        match self {
            BuiltinRule::FileSupportedExtension => FileSupportedExtensionRule.metadata(),
            BuiltinRule::PathMatchesCanonical => PathMatchesCanonicalRule.metadata(),
            BuiltinRule::KeyCanonicalCamelot => KeyCanonicalCamelotRule.metadata(),
            BuiltinRule::TrackCountFormat => TrackCountFormatRule.metadata(),
            BuiltinRule::DiscCountFormat => DiscCountFormatRule.metadata(),
            BuiltinRule::AlbumRequiresDisc => AlbumRequiresDiscRule.metadata(),
            BuiltinRule::DiscRequiresTrack => DiscRequiresTrackRule.metadata(),
            BuiltinRule::TrackRequiresDisc => TrackRequiresDiscRule.metadata(),
            BuiltinRule::MetaPublisherCatalogPairing => MetaPublisherCatalogPairingRule.metadata(),
            BuiltinRule::MetaRequiredFieldsPresent => MetaRequiredFieldsPresentRule.metadata(),
            BuiltinRule::MetaNoSmartQuotes => MetaNoSmartQuotesRule.metadata(),
            BuiltinRule::TitleMixSuffixStyle => TitleMixSuffixStyleRule.metadata(),
            BuiltinRule::TitleNoOriginalMix => TitleNoOriginalMixRule.metadata(),
            BuiltinRule::TitleNoFeaturingToken => TitleNoFeaturingTokenRule.metadata(),
            BuiltinRule::MetaRemixerTitleConsistency => MetaRemixerTitleConsistencyRule.metadata(),
            BuiltinRule::ArtistSeparatorStandardization => ArtistSeparatorStandardizationRule.metadata(),
            BuiltinRule::ArtistSeparatorStructure => ArtistSeparatorStructureRule.metadata(),
            BuiltinRule::ArtistFeatStandardization => ArtistFeatStandardizationRule.metadata(),
            BuiltinRule::YearFormat => YearFormatRule.metadata(),
            BuiltinRule::BpmNumeric => BpmNumericRule.metadata(),
            BuiltinRule::MetaDisallowedCharacters => MetaDisallowedCharactersRule.metadata(),
            BuiltinRule::MetaTextTrimmed => MetaTextTrimmedRule.metadata(),
        }
    }

    fn check(&self, target: &LintTarget) -> CheckOutcome {
        match self {
            BuiltinRule::FileSupportedExtension => FileSupportedExtensionRule.check(target),
            BuiltinRule::PathMatchesCanonical => PathMatchesCanonicalRule.check(target),
            BuiltinRule::KeyCanonicalCamelot => KeyCanonicalCamelotRule.check(target),
            BuiltinRule::TrackCountFormat => TrackCountFormatRule.check(target),
            BuiltinRule::DiscCountFormat => DiscCountFormatRule.check(target),
            BuiltinRule::AlbumRequiresDisc => AlbumRequiresDiscRule.check(target),
            BuiltinRule::DiscRequiresTrack => DiscRequiresTrackRule.check(target),
            BuiltinRule::TrackRequiresDisc => TrackRequiresDiscRule.check(target),
            BuiltinRule::MetaPublisherCatalogPairing => MetaPublisherCatalogPairingRule.check(target),
            BuiltinRule::MetaRequiredFieldsPresent => MetaRequiredFieldsPresentRule.check(target),
            BuiltinRule::MetaNoSmartQuotes => MetaNoSmartQuotesRule.check(target),
            BuiltinRule::TitleMixSuffixStyle => TitleMixSuffixStyleRule.check(target),
            BuiltinRule::TitleNoOriginalMix => TitleNoOriginalMixRule.check(target),
            BuiltinRule::TitleNoFeaturingToken => TitleNoFeaturingTokenRule.check(target),
            BuiltinRule::MetaRemixerTitleConsistency => MetaRemixerTitleConsistencyRule.check(target),
            BuiltinRule::ArtistSeparatorStandardization => ArtistSeparatorStandardizationRule.check(target),
            BuiltinRule::ArtistSeparatorStructure => ArtistSeparatorStructureRule.check(target),
            BuiltinRule::ArtistFeatStandardization => ArtistFeatStandardizationRule.check(target),
            BuiltinRule::YearFormat => YearFormatRule.check(target),
            BuiltinRule::BpmNumeric => BpmNumericRule.check(target),
            BuiltinRule::MetaDisallowedCharacters => MetaDisallowedCharactersRule.check(target),
            BuiltinRule::MetaTextTrimmed => MetaTextTrimmedRule.check(target),
        }
    }
}

/// The rules that need nothing but the track, in the order in which they run.
pub open spec fn track_only_rule_seq() -> Seq<BuiltinRule> {
    seq![
        BuiltinRule::FileSupportedExtension,
        BuiltinRule::PathMatchesCanonical,
        BuiltinRule::KeyCanonicalCamelot,
        BuiltinRule::TrackCountFormat,
        BuiltinRule::DiscCountFormat,
        BuiltinRule::AlbumRequiresDisc,
        BuiltinRule::DiscRequiresTrack,
        BuiltinRule::TrackRequiresDisc,
        BuiltinRule::MetaPublisherCatalogPairing,
        BuiltinRule::MetaRequiredFieldsPresent,
        BuiltinRule::MetaNoSmartQuotes,
        BuiltinRule::TitleMixSuffixStyle,
        BuiltinRule::TitleNoOriginalMix,
        BuiltinRule::TitleNoFeaturingToken,
        BuiltinRule::MetaRemixerTitleConsistency,
        BuiltinRule::ArtistSeparatorStandardization,
        BuiltinRule::ArtistSeparatorStructure,
        BuiltinRule::ArtistFeatStandardization,
        BuiltinRule::YearFormat,
        BuiltinRule::BpmNumeric,
    ]
}

/// The rules that need nothing but the track, in the order in which they run.
pub fn track_only_rules() -> (r: Vec<BuiltinRule>)
    ensures
        r@ == track_only_rule_seq(),
{
    let r = vec![
        BuiltinRule::FileSupportedExtension,
        BuiltinRule::PathMatchesCanonical,
        BuiltinRule::KeyCanonicalCamelot,
        BuiltinRule::TrackCountFormat,
        BuiltinRule::DiscCountFormat,
        BuiltinRule::AlbumRequiresDisc,
        BuiltinRule::DiscRequiresTrack,
        BuiltinRule::TrackRequiresDisc,
        BuiltinRule::MetaPublisherCatalogPairing,
        BuiltinRule::MetaRequiredFieldsPresent,
        BuiltinRule::MetaNoSmartQuotes,
        BuiltinRule::TitleMixSuffixStyle,
        BuiltinRule::TitleNoOriginalMix,
        BuiltinRule::TitleNoFeaturingToken,
        BuiltinRule::MetaRemixerTitleConsistency,
        BuiltinRule::ArtistSeparatorStandardization,
        BuiltinRule::ArtistSeparatorStructure,
        BuiltinRule::ArtistFeatStandardization,
        BuiltinRule::YearFormat,
        BuiltinRule::BpmNumeric,
    ];
    assert(r@ =~= track_only_rule_seq());
    r
}

} // verus!
