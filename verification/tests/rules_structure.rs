use tune_manager::linter::lint_target::LintTarget;
use tune_manager::linter::rule::Rule;
use tune_manager::linter::rules::album_requires_disc::AlbumRequiresDiscRule;
use tune_manager::linter::rules::disc_count_format::DiscCountFormatRule;
use tune_manager::linter::rules::disc_requires_track::DiscRequiresTrackRule;
use tune_manager::linter::rules::file_supported_extension::FileSupportedExtensionRule;
use tune_manager::linter::rules::meta_publisher_catalog_pairing::MetaPublisherCatalogPairingRule;
use tune_manager::linter::rules::meta_required_fields_present::MetaRequiredFieldsPresentRule;
use tune_manager::linter::rules::path_matches_canonical::PathMatchesCanonicalRule;
use tune_manager::linter::rules::track_count_format::TrackCountFormatRule;
use tune_manager::linter::rules::track_requires_disc::TrackRequiresDiscRule;
use tune_manager::linter::rules::year_format::YearFormatRule;
use tune_manager::linter::violation::RuleSeverity;
use tune_manager::track::{CountField, Track, TrackFields, TrackFile};

fn make_track() -> Track {
    Track {
        file: TrackFile {
            file_path: "Publisher/[RLS] Album/Disc 2/01. [10A] Artist - Title.mp3".to_string(),
            mtime: 1,
        },
        fields: TrackFields {
            media_hash: Some("abc123".to_string()),
            artist: Some("Artist".to_string()),
            title: Some("Title".to_string()),
            album: Some("Album".to_string()),
            remixer: Some("Remixer".to_string()),
            publisher: Some("Publisher".to_string()),
            catalog_id: Some("RLS".to_string()),
            year: Some("2015".to_string()),
            genre: Some("Genre".to_string()),
            key: Some("10A".to_string()),
            bpm: Some("170".to_string()),
            disc: Some(CountField::parse("2/4")),
            track: Some(CountField::parse("1/10")),
        },
    }
}

fn target(track: Track) -> LintTarget {
    track.into()
}

#[test]
fn album_requires_disc_ok_case() {
    assert!(AlbumRequiresDiscRule.check(&make_track().into()).is_passed());
}

#[test]
fn album_requires_disc_fail_case() {
    let mut track = make_track();
    track.fields.disc = None;
    assert_eq!(AlbumRequiresDiscRule.check(&track.into()).violations().len(), 1);
}

#[test]
fn album_requires_disc_message() {
    let mut track = make_track();
    track.fields.disc = None;
    let result = AlbumRequiresDiscRule.check(&target(track));
    assert_eq!(result.violations()[0].message, "Album is present but disc is missing");
    assert_eq!(result.violations()[0].severity, RuleSeverity::Error);
    assert!(result.violations()[0].fix.is_none());
}

#[test]
fn album_requires_disc_without_album() {
    let mut track = make_track();
    track.fields.album = None;
    track.fields.disc = None;
    assert!(AlbumRequiresDiscRule.check(&target(track)).is_passed());
}

#[test]
fn disc_requires_track_ok_case() {
    assert!(DiscRequiresTrackRule.check(&make_track().into()).is_passed());
}

#[test]
fn disc_requires_track_fail_case() {
    let mut track = make_track();
    track.fields.track = None;
    assert_eq!(DiscRequiresTrackRule.check(&track.into()).violations().len(), 1);
}

#[test]
fn track_requires_disc_ok_case() {
    assert!(TrackRequiresDiscRule.check(&make_track().into()).is_passed());
}

#[test]
fn track_requires_disc_fail_case() {
    let mut track = make_track();
    track.fields.disc = None;
    assert_eq!(TrackRequiresDiscRule.check(&track.into()).violations().len(), 1);
}

#[test]
fn disc_count_format_ok_case() {
    assert!(DiscCountFormatRule.check(&make_track().into()).is_passed());
}

#[test]
fn disc_count_format_fail_case() {
    let mut track = make_track();
    track.fields.disc = Some(CountField::Invalid("x".to_string()));
    assert_eq!(DiscCountFormatRule.check(&track.into()).violations().len(), 1);
}

#[test]
fn disc_count_out_of_range() {
    let mut track = make_track();
    track.fields.disc = Some(CountField::parse("3/2"));
    let result = DiscCountFormatRule.check(&target(track));
    assert_eq!(result.violations()[0].message, "Disc number is out of valid range");
}

#[test]
fn track_count_format_ok_case() {
    assert!(TrackCountFormatRule.check(&make_track().into()).is_passed());
}

#[test]
fn track_count_format_fail_case() {
    let mut track = make_track();
    track.fields.track = Some(CountField::Invalid("x".to_string()));
    assert_eq!(TrackCountFormatRule.check(&track.into()).violations().len(), 1);
}

#[test]
fn track_count_bare_number_has_no_total() {
    let mut track = make_track();
    track.fields.track = Some(CountField::parse("5"));
    let result = TrackCountFormatRule.check(&target(track));
    assert_eq!(result.violations()[0].message, "Track number is out of valid range");
}

#[test]
fn count_field_parses_number_and_total() {
    match CountField::parse("01/10") {
        CountField::Valid(c) => {
            assert_eq!(c.number, 1);
            assert_eq!(c.total, 10);
        }
        CountField::Invalid(_) => panic!("expected a valid count"),
    }
    match CountField::parse("a/b") {
        CountField::Invalid(s) => assert_eq!(s, "a/b"),
        CountField::Valid(_) => panic!("expected an invalid count"),
    }
}

#[test]
fn year_format_ok_case() {
    assert!(YearFormatRule.check(&make_track().into()).is_passed());
}

#[test]
fn year_format_fail_case() {
    let mut track = make_track();
    track.fields.year = Some("15".to_string());
    assert_eq!(YearFormatRule.check(&track.into()).violations().len(), 1);
}

#[test]
fn fail_case_with_whitespace() {
    let mut track = make_track();
    track.fields.year = Some(" 2015 ".to_string());
    assert_eq!(YearFormatRule.check(&track.into()).violations().len(), 1);
}

#[test]
fn year_with_letter_fails() {
    let mut track = make_track();
    track.fields.year = Some("20A5".to_string());
    let result = YearFormatRule.check(&target(track));
    assert_eq!(result.violations()[0].message, "Year must be in YYYY format");
}

#[test]
fn file_supported_extension_ok_case() {
    assert!(FileSupportedExtensionRule.check(&make_track().into()).is_passed());
}

#[test]
fn file_supported_extension_fail_case() {
    let mut track = make_track();
    track.file.file_path = "x/test.ogg".to_string();
    assert_eq!(FileSupportedExtensionRule.check(&track.into()).violations().len(), 1);
}

#[test]
fn file_extension_is_case_insensitive_and_takes_aif() {
    let mut track = make_track();
    track.file.file_path = "x/Artist - Title.AIF".to_string();
    assert!(FileSupportedExtensionRule.check(&target(track)).is_passed());
    let mut track = make_track();
    track.file.file_path = "x/Artist - Title".to_string();
    assert_eq!(FileSupportedExtensionRule.check(&target(track)).violations().len(), 1);
}

#[test]
fn path_matches_canonical_ok_case() {
    let track = make_track();
    assert!(PathMatchesCanonicalRule.check(&track.into()).is_passed());
}

#[test]
fn path_matches_canonical_fail_case() {
    let mut track = make_track();
    track.file.file_path = "Publisher/[RLS] Album/Disc 2/99. [10A] Artist - Title.MP3".to_string();
    assert_eq!(PathMatchesCanonicalRule.check(&track.into()).violations().len(), 1);
}

#[test]
fn canonical_path_of_a_single() {
    let mut track = make_track();
    track.fields.album = None;
    track.fields.disc = None;
    track.fields.track = None;
    track.file.file_path = "/music/Publisher/[+singles]/[10A] Artist - Title.MP3".to_string();
    let canonical: String = track.canonical_path().into_iter().collect();
    assert_eq!(canonical, "Publisher/[+singles]/[10A] Artist - Title.mp3");
    assert!(PathMatchesCanonicalRule.check(&target(track)).violations().len() == 1);
}

#[test]
fn path_mismatch_message_names_canonical_path() {
    let mut track = make_track();
    track.file.file_path = "WrongPublisher/[RLS] Album/Disc 2/01. [10A] Artist - Title.mp3".to_string();
    let result = PathMatchesCanonicalRule.check(&target(track));
    assert_eq!(
        result.violations()[0].message,
        "Path does not match canonical path: Publisher/[RLS] Album/Disc 2/01. [10A] Artist - Title.mp3"
    );
}

#[test]
fn ok_both_present() {
    assert!(MetaPublisherCatalogPairingRule.check(&make_track().into()).is_passed());
}

#[test]
fn ok_both_missing() {
    let mut track = make_track();
    track.fields.publisher = None;
    track.fields.catalog_id = None;
    assert!(MetaPublisherCatalogPairingRule.check(&track.into()).is_passed());
}

#[test]
fn warn_publisher_without_catalog() {
    let mut track = make_track();
    track.fields.catalog_id = None;
    let result = MetaPublisherCatalogPairingRule.check(&track.into());
    assert_eq!(result.violations().len(), 1);
    assert_eq!(result.violations()[0].severity, RuleSeverity::Warn);
}

#[test]
fn error_catalog_without_publisher() {
    let mut track = make_track();
    track.fields.publisher = None;
    let result = MetaPublisherCatalogPairingRule.check(&track.into());
    assert_eq!(result.violations().len(), 1);
    assert_eq!(result.violations()[0].severity, RuleSeverity::Error);
}

#[test]
fn warn_whitespace_catalog() {
    let mut track = make_track();
    track.fields.catalog_id = Some("   ".to_string());
    let result = MetaPublisherCatalogPairingRule.check(&track.into());
    assert_eq!(result.violations().len(), 1);
    assert_eq!(result.violations()[0].severity, RuleSeverity::Warn);
}

#[test]
fn meta_required_fields_present_ok_case() {
    assert!(MetaRequiredFieldsPresentRule.check(&make_track().into()).is_passed());
}

#[test]
fn fail_missing_artist() {
    let mut track = make_track();
    track.fields.artist = None;
    assert_eq!(MetaRequiredFieldsPresentRule.check(&track.into()).violations().len(), 1);
}

#[test]
fn fail_missing_title() {
    let mut track = make_track();
    track.fields.title = None;
    assert_eq!(MetaRequiredFieldsPresentRule.check(&track.into()).violations().len(), 1);
}

#[test]
fn fail_missing_media_hash() {
    let mut track = make_track();
    track.fields.media_hash = None;
    assert_eq!(MetaRequiredFieldsPresentRule.check(&track.into()).violations().len(), 1);
}

#[test]
fn fail_missing_all() {
    let mut track = make_track();
    track.fields.artist = None;
    track.fields.title = None;
    track.fields.media_hash = None;
    assert_eq!(MetaRequiredFieldsPresentRule.check(&track.into()).violations().len(), 3);
}

#[test]
fn fail_whitespace_only() {
    let mut track = make_track();
    track.fields.artist = Some("   ".to_string());
    assert_eq!(MetaRequiredFieldsPresentRule.check(&track.into()).violations().len(), 1);
}

#[test]
fn fail_empty_string() {
    let mut track = make_track();
    track.fields.title = Some(String::new());
    assert_eq!(MetaRequiredFieldsPresentRule.check(&track.into()).violations().len(), 1);
}

#[test]
fn required_fields_messages_name_the_fields_in_order() {
    let mut track = make_track();
    track.fields.artist = None;
    track.fields.media_hash = Some(" ".to_string());
    let result = MetaRequiredFieldsPresentRule.check(&target(track));
    let messages: Vec<&str> = result.violations().iter().map(|v| v.message.as_str()).collect();
    assert_eq!(
        messages,
        vec![
            "Required field `artist` is missing or empty",
            "Required field `media_hash` is missing or empty"
        ]
    );
}
