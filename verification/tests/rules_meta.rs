use tune_manager::linter::lint_target::LintTarget;
use tune_manager::linter::rule::Rule;
use tune_manager::linter::rules::meta_disallowed_characters::{
    has_disallowed, replace_disallowed, MetaDisallowedCharactersRule,
};
use tune_manager::linter::rules::meta_no_smart_quotes::{
    has_smart_quotes, replace_smart_quotes, MetaNoSmartQuotesRule,
};
use tune_manager::linter::rules::meta_remixer_title_consistency::{
    extract_remixer_from_title, MetaRemixerTitleConsistencyRule,
};
use tune_manager::linter::rules::meta_text_trimmed::MetaTextTrimmedRule;
use tune_manager::linter::text_field::{TagField, TextField};
use tune_manager::linter::violation::DecimalRounding;
use tune_manager::track::{CountField, Track, TrackFields, TrackFile};

fn make_track() -> Track {
    Track {
        file: TrackFile {
            file_path: "Publisher/[RLS] Album/Disc 2/01. [10A] Artist - Title.mp3".to_string(),
            mtime: 1,
        },
        fields: TrackFields {
            media_hash: Some("abc123".to_string()),
            artist: Some("Artist".to_string()),
            title: Some("Title".to_string()),
            album: Some("Album".to_string()),
            remixer: Some("Remixer".to_string()),
            publisher: Some("Publisher".to_string()),
            catalog_id: Some("RLS".to_string()),
            year: Some("2015".to_string()),
            genre: Some("Genre".to_string()),
            key: Some("10A".to_string()),
            bpm: Some("170".to_string()),
            disc: Some(CountField::parse("2/4")),
            track: Some(CountField::parse("1/10")),
        },
    }
}

struct F64Rounding;

impl DecimalRounding for F64Rounding {
    fn round_two_decimals(&self, text: &str) -> Option<String> {
        text.parse::<f64>().ok().map(|n| format!("{:.2}", n))
    }
}

fn target(track: Track) -> LintTarget {
    track.into()
}

#[test]
fn meta_no_smart_quotes_ok_case() {
    assert!(MetaNoSmartQuotesRule.check(&make_track().into()).is_passed());
}

#[test]
fn meta_no_smart_quotes_fail_case() {
    let mut track = make_track();
    track.fields.title = Some("Don\u{2019}t Stop".to_string());
    assert_eq!(MetaNoSmartQuotesRule.check(&target(track)).violations().len(), 1);
}

#[test]
fn meta_no_smart_quotes_one_violation_per_affected_field() {
    let mut track = make_track();
    track.fields.title = Some("Don\u{2019}t Stop".to_string());
    track.fields.album = Some("\u{201c}Greatest Hits\u{201d}".to_string());
    assert_eq!(MetaNoSmartQuotesRule.check(&target(track)).violations().len(), 2);
}

#[test]
fn meta_no_smart_quotes_fix_targets_only_the_violation_field() {
    let mut track = make_track();
    track.fields.title = Some("Don\u{2019}t Stop".to_string());
    track.fields.album = Some("Album".to_string());
    let result = MetaNoSmartQuotesRule.check(&target(track.clone()));
    assert_eq!(result.violations().len(), 1);
    result.violations()[0].fix.as_ref().unwrap().apply(&mut track, &F64Rounding);
    assert_eq!(track.fields.title.as_deref(), Some("Don't Stop"));
    assert_eq!(track.fields.album.as_deref(), Some("Album"));
}

#[test]
fn meta_no_smart_quotes_fix_double_smart_quotes() {
    let mut track = make_track();
    track.fields.title = Some("\u{201c}Hello\u{201d}".to_string());
    let result = MetaNoSmartQuotesRule.check(&target(track.clone()));
    result.violations()[0].fix.as_ref().unwrap().apply(&mut track, &F64Rounding);
    assert_eq!(track.fields.title.as_deref(), Some(r#""Hello""#));
}

#[test]
fn meta_no_smart_quotes_fix_backtick_and_acute() {
    let mut track = make_track();
    track.fields.title = Some("It`s \u{b4}ok\u{b4}".to_string());
    let result = MetaNoSmartQuotesRule.check(&target(track.clone()));
    result.violations()[0].fix.as_ref().unwrap().apply(&mut track, &F64Rounding);
    assert_eq!(track.fields.title.as_deref(), Some("It's 'ok'"));
}

#[test]
fn meta_no_smart_quotes_fix_each_field_when_multiple_violate() {
    let mut track = make_track();
    track.fields.title = Some("Don\u{2019}t Stop".to_string());
    track.fields.artist = Some("A\u{2019}B".to_string());
    let result = MetaNoSmartQuotesRule.check(&target(track.clone()));
    for v in result.violations() {
        v.fix.as_ref().unwrap().apply(&mut track, &F64Rounding);
    }
    assert_eq!(track.fields.title.as_deref(), Some("Don't Stop"));
    assert_eq!(track.fields.artist.as_deref(), Some("A'B"));
}

#[test]
fn smart_quote_messages_follow_field_order() {
    let mut track = make_track();
    track.fields.publisher = Some("\u{2018}Label\u{2019}".to_string());
    track.fields.artist = Some("A\u{2019}B".to_string());
    let result = MetaNoSmartQuotesRule.check(&target(track));
    let messages: Vec<&str> = result.violations().iter().map(|v| v.message.as_str()).collect();
    assert_eq!(messages, vec!["Smart quotes in `artist`", "Smart quotes in `publisher`"]);
    assert_eq!(replace_smart_quotes("\u{2018}a\u{201d}"), "'a\"");
    assert!(!has_smart_quotes("plain 'text'"));
}

#[test]
fn meta_disallowed_characters_ok_case() {
    assert!(MetaDisallowedCharactersRule.check(&make_track().into()).is_passed());
}

#[test]
fn meta_disallowed_characters_fail_case() {
    let mut track = make_track();
    track.fields.title = Some("Don\u{2019}t Stop".to_string());
    assert_eq!(MetaDisallowedCharactersRule.check(&target(track)).violations().len(), 1);
}

#[test]
fn meta_disallowed_characters_one_violation_per_affected_field() {
    let mut track = make_track();
    track.fields.title = Some("Don\u{2019}t Stop".to_string());
    track.fields.album = Some("\u{201c}Greatest Hits\u{201d}".to_string());
    assert_eq!(MetaDisallowedCharactersRule.check(&target(track)).violations().len(), 2);
}

#[test]
fn meta_disallowed_characters_fix_targets_only_the_violation_field() {
    let mut track = make_track();
    track.fields.title = Some("Don\u{2019}t Stop".to_string());
    track.fields.album = Some("Album".to_string());
    let result = MetaDisallowedCharactersRule.check(&target(track.clone()));
    assert_eq!(result.violations().len(), 1);
    result.violations()[0].fix.as_ref().unwrap().apply(&mut track, &F64Rounding);
    assert_eq!(track.fields.title.as_deref(), Some("Don't Stop"));
    assert_eq!(track.fields.album.as_deref(), Some("Album"));
}

#[test]
fn meta_disallowed_characters_fix_double_smart_quotes() {
    let mut track = make_track();
    track.fields.title = Some("\u{201c}Hello\u{201d}".to_string());
    let result = MetaDisallowedCharactersRule.check(&target(track.clone()));
    result.violations()[0].fix.as_ref().unwrap().apply(&mut track, &F64Rounding);
    assert_eq!(track.fields.title.as_deref(), Some(r#""Hello""#));
}

#[test]
fn meta_disallowed_characters_fix_backtick_and_acute() {
    let mut track = make_track();
    track.fields.title = Some("It`s \u{b4}ok\u{b4}".to_string());
    let result = MetaDisallowedCharactersRule.check(&target(track.clone()));
    result.violations()[0].fix.as_ref().unwrap().apply(&mut track, &F64Rounding);
    assert_eq!(track.fields.title.as_deref(), Some("It's 'ok'"));
}

#[test]
fn meta_disallowed_characters_fix_each_field_when_multiple_violate() {
    let mut track = make_track();
    track.fields.title = Some("Don\u{2019}t Stop".to_string());
    track.fields.artist = Some("A\u{2019}B".to_string());
    let result = MetaDisallowedCharactersRule.check(&target(track.clone()));
    for v in result.violations() {
        v.fix.as_ref().unwrap().apply(&mut track, &F64Rounding);
    }
    assert_eq!(track.fields.title.as_deref(), Some("Don't Stop"));
    assert_eq!(track.fields.artist.as_deref(), Some("A'B"));
}

#[test]
fn disallowed_messages_and_helpers() {
    let mut track = make_track();
    track.fields.remixer = Some("R\u{b4}".to_string());
    let result = MetaDisallowedCharactersRule.check(&target(track));
    assert_eq!(result.violations()[0].message, "Disallowed characters in `remixer`");
    assert!(has_disallowed("`"));
    assert_eq!(replace_disallowed("\u{201d}"), "\"");
}

#[test]
fn meta_text_trimmed_ok_case() {
    assert!(MetaTextTrimmedRule.check(&make_track().into()).is_passed());
}

#[test]
fn fail_leading_space_in_artist() {
    let mut track = make_track();
    track.fields.artist = Some(" Artist".to_string());
    assert_eq!(MetaTextTrimmedRule.check(&target(track)).violations().len(), 1);
}

#[test]
fn fail_trailing_space_in_title() {
    let mut track = make_track();
    track.fields.title = Some("Title ".to_string());
    assert_eq!(MetaTextTrimmedRule.check(&target(track)).violations().len(), 1);
}

#[test]
fn meta_text_trimmed_one_violation_per_affected_field() {
    let mut track = make_track();
    track.fields.artist = Some(" Artist ".to_string());
    track.fields.bpm = Some(" 128.5".to_string());
    assert_eq!(MetaTextTrimmedRule.check(&target(track)).violations().len(), 2);
}

#[test]
fn fix_targets_only_violated_field() {
    let mut track = make_track();
    track.fields.artist = Some(" Artist".to_string());
    let original_title = track.fields.title.clone();
    let result = MetaTextTrimmedRule.check(&target(track.clone()));
    result.violations()[0].fix.as_ref().unwrap().apply(&mut track, &F64Rounding);
    assert_eq!(track.fields.artist.as_deref(), Some("Artist"));
    assert_eq!(track.fields.title, original_title);
}

#[test]
fn fix_trims_both_sides() {
    let mut track = make_track();
    track.fields.bpm = Some("  128.5  ".to_string());
    let result = MetaTextTrimmedRule.check(&target(track.clone()));
    result.violations()[0].fix.as_ref().unwrap().apply(&mut track, &F64Rounding);
    assert_eq!(track.fields.bpm.as_deref(), Some("128.5"));
}

#[test]
fn whitespace_only_value_trims_to_empty_string() {
    // White space alone is trimmable: the fix leaves an empty string, which
    // meta.required-fields-present catches where it matters.
    let mut track = make_track();
    track.fields.album = Some("   ".to_string());
    let result = MetaTextTrimmedRule.check(&target(track.clone()));
    assert_eq!(result.violations().len(), 1);
    result.violations()[0].fix.as_ref().unwrap().apply(&mut track, &F64Rounding);
    assert_eq!(track.fields.album.as_deref(), Some(""));
}

#[test]
fn empty_string_is_not_a_violation() {
    let mut track = make_track();
    track.fields.album = Some(String::new());
    assert!(MetaTextTrimmedRule.check(&target(track)).is_passed());
}

#[test]
fn trimmed_message_names_the_field() {
    let mut track = make_track();
    track.fields.catalog_id = Some("RLS\u{3000}".to_string());
    let result = MetaTextTrimmedRule.check(&target(track));
    assert_eq!(result.violations()[0].message, "`catalog_id` has leading or trailing whitespace");
}

#[test]
fn meta_remixer_title_consistency_ok_case() {
    let mut track = make_track();
    track.fields.title = Some("Song (Remixer Remix)".to_string());
    track.fields.remixer = Some("Remixer".to_string());
    assert!(MetaRemixerTitleConsistencyRule.check(&target(track)).is_passed());
}

#[test]
fn meta_remixer_title_consistency_fail_case() {
    let mut track = make_track();
    track.fields.title = Some("Song (Other Remix)".to_string());
    track.fields.remixer = Some("Remixer".to_string());
    assert_eq!(MetaRemixerTitleConsistencyRule.check(&target(track)).violations().len(), 1);
}

#[test]
fn fail_inverse_case() {
    let mut track = make_track();
    track.fields.title = Some("Song".to_string());
    track.fields.remixer = Some("Remixer".to_string());
    assert_eq!(MetaRemixerTitleConsistencyRule.check(&target(track)).violations().len(), 1);
}

#[test]
fn ignores_non_remix_mix_token() {
    let mut track = make_track();
    track.fields.title = Some("Song (Extended Mix)".to_string());
    track.fields.remixer = None;
    assert!(MetaRemixerTitleConsistencyRule.check(&target(track)).is_passed());
}

#[test]
fn fail_case_difference() {
    let mut track = make_track();
    track.fields.title = Some("Song (REMIXER Remix)".to_string());
    track.fields.remixer = Some("Remixer".to_string());
    assert_eq!(MetaRemixerTitleConsistencyRule.check(&target(track)).violations().len(), 1);
}

#[test]
fn fix_extracts_artist_when_remixer_empty() {
    let mut track = make_track();
    track.fields.title = Some("Song (Remixer Remix)".to_string());
    track.fields.remixer = None;
    let mut target: LintTarget = track.into();
    let result = MetaRemixerTitleConsistencyRule.check(&target);
    assert_eq!(result.violations().len(), 1);
    result.violations()[0].fix.as_ref().unwrap().apply(&mut target.track, &F64Rounding);
    assert_eq!(target.track.fields.remixer.as_deref(), Some("Remixer"));
}

#[test]
fn fix_overwrites_mismatched_remixer() {
    let mut track = make_track();
    track.fields.title = Some("Song (Other Remix)".to_string());
    track.fields.remixer = Some("Remixer".to_string());
    let mut target: LintTarget = track.into();
    let result = MetaRemixerTitleConsistencyRule.check(&target);
    assert_eq!(result.violations().len(), 1);
    result.violations()[0].fix.as_ref().unwrap().apply(&mut target.track, &F64Rounding);
    assert_eq!(target.track.fields.remixer.as_deref(), Some("Other"));
}

#[test]
fn no_fix_when_title_has_no_remix_note() {
    // Writing a remix note into the title is the ambiguous direction, so
    // there is no fix for it.
    let mut track = make_track();
    track.fields.title = Some("Song".to_string());
    track.fields.remixer = Some("Remixer".to_string());
    let result = MetaRemixerTitleConsistencyRule.check(&target(track));
    assert_eq!(result.violations().len(), 1);
    assert!(result.violations()[0].fix.is_none());
}

#[test]
fn fix_extracts_multi_word_artist() {
    let mut track = make_track();
    track.fields.title = Some("Song (Some Artist Remix)".to_string());
    track.fields.remixer = None;
    let mut target: LintTarget = track.into();
    let result = MetaRemixerTitleConsistencyRule.check(&target);
    result.violations()[0].fix.as_ref().unwrap().apply(&mut target.track, &F64Rounding);
    assert_eq!(target.track.fields.remixer.as_deref(), Some("Some Artist"));
}

#[test]
fn remix_note_details() {
    let mut track = make_track();
    track.fields.title = Some("Song (A  remix) (B Remix)".to_string());
    track.fields.remixer = Some(" A ".to_string());
    assert!(MetaRemixerTitleConsistencyRule.check(&target(track.clone())).is_passed());
    track.fields.remixer = None;
    track.fields.title = None;
    assert!(MetaRemixerTitleConsistencyRule.check(&target(track.clone())).is_passed());
    track.fields.title = Some("Song (X Remix)".to_string());
    extract_remixer_from_title(&mut track);
    assert_eq!(track.fields.remixer.as_deref(), Some("X"));
}

#[test]
fn text_field_selectors() {
    let mut track = make_track();
    let names: Vec<&str> = TextField::all().iter().map(|f| f.name()).collect();
    assert_eq!(names, vec!["artist", "title", "album", "remixer", "publisher"]);
    assert_eq!(TextField::Publisher.get(&track), Some("Publisher"));
    TextField::Remixer.set(&mut track, "Someone".to_string());
    assert_eq!(TextField::Remixer.get(&track), Some("Someone"));
    assert_eq!(TagField::all().len(), 10);
    assert_eq!(TagField::CatalogId.name(), "catalog_id");
    TagField::Genre.set(&mut track, "House".to_string());
    assert_eq!(TagField::Genre.get(&track), Some("House"));
    track.fields.year = None;
    assert_eq!(TagField::Year.get(&track), None);
}
