use tune_manager::linter::lint_target::LintTarget;
use tune_manager::linter::result::CheckOutcome;
use tune_manager::linter::rule::Rule;
use tune_manager::linter::rules::key_canonical_camelot::{
    musical_major_to_number, musical_minor_to_number, parse_camelot, parse_musical,
    parse_openkey, KeyCanonicalCamelotRule,
};
use tune_manager::linter::violation::DecimalRounding;
use tune_manager::track::{CountField, Track, TrackFields, TrackFile};

fn make_track() -> Track {
    Track {
        file: TrackFile {
            file_path: "Publisher/[RLS] Album/Disc 2/01. [10A] Artist - Title.mp3".to_string(),
            mtime: 1,
        },
        fields: TrackFields {
            media_hash: Some("abc123".to_string()),
            artist: Some("Artist".to_string()),
            title: Some("Title".to_string()),
            album: Some("Album".to_string()),
            remixer: Some("Remixer".to_string()),
            publisher: Some("Publisher".to_string()),
            catalog_id: Some("RLS".to_string()),
            year: Some("2015".to_string()),
            genre: Some("Genre".to_string()),
            key: Some("10A".to_string()),
            bpm: Some("170".to_string()),
            disc: Some(CountField::parse("2/4")),
            track: Some(CountField::parse("1/10")),
        },
    }
}

struct F64Rounding;

impl DecimalRounding for F64Rounding {
    fn round_two_decimals(&self, text: &str) -> Option<String> {
        text.parse::<f64>().ok().map(|n| format!("{:.2}", n))
    }
}

fn check_with(key: &str) -> CheckOutcome {
    let mut track = make_track();
    track.fields.key = Some(key.to_string());
    KeyCanonicalCamelotRule.check(&LintTarget::from(track))
}

fn fixed(key: &str) -> String {
    let mut track = make_track();
    track.fields.key = Some(key.to_string());
    let mut target: LintTarget = track.into();
    let result = KeyCanonicalCamelotRule.check(&target);
    result.violations()[0].fix.as_ref().unwrap().apply(&mut target.track, &F64Rounding);
    target.track.fields.key.unwrap()
}

#[test]
fn ok_canonical() {
    assert!(check_with("01A").is_passed());
    assert!(check_with("12B").is_passed());
    assert!(check_with("08A").is_passed());
}

#[test]
fn fail_unpadded_camelot() {
    assert_eq!(check_with("1A").violations().len(), 1);
}

#[test]
fn fail_lowercase_suffix() {
    assert_eq!(check_with("01a").violations().len(), 1);
}

#[test]
fn fail_unrecognized_no_fix() {
    let result = check_with("xyz");
    assert_eq!(result.violations().len(), 1);
    assert!(result.violations()[0].fix.is_none());
}

#[test]
fn fix_camelot_zero_pads() {
    assert_eq!(fixed("1A"), "01A");
    assert_eq!(fixed("9b"), "09B");
    assert_eq!(fixed("12a"), "12A");
}

#[test]
fn fix_camelot_normalizes_case() {
    assert_eq!(fixed("01a"), "01A");
    assert_eq!(fixed("12b"), "12B");
}

#[test]
fn fix_openkey_major() {
    assert_eq!(fixed("1d"), "08B");
    assert_eq!(fixed("12d"), "07B");
    assert_eq!(fixed("6d"), "01B");
}

#[test]
fn fix_openkey_minor() {
    assert_eq!(fixed("1m"), "08A");
    assert_eq!(fixed("12m"), "07A");
    assert_eq!(fixed("9m"), "04A");
}

#[test]
fn fix_musical_major_naturals() {
    assert_eq!(fixed("C"), "08B");
    assert_eq!(fixed("G"), "09B");
    assert_eq!(fixed("D"), "10B");
    assert_eq!(fixed("A"), "11B");
    assert_eq!(fixed("E"), "12B");
    assert_eq!(fixed("B"), "01B");
    assert_eq!(fixed("F"), "07B");
}

#[test]
fn fix_musical_major_flats() {
    assert_eq!(fixed("Gb"), "02B");
    assert_eq!(fixed("Db"), "03B");
    assert_eq!(fixed("Ab"), "04B");
    assert_eq!(fixed("Eb"), "05B");
    assert_eq!(fixed("Bb"), "06B");
}

#[test]
fn fix_musical_major_sharps() {
    assert_eq!(fixed("F#"), "02B");
    assert_eq!(fixed("C#"), "03B");
    assert_eq!(fixed("G#"), "04B");
    assert_eq!(fixed("D#"), "05B");
    assert_eq!(fixed("A#"), "06B");
}

#[test]
fn fix_musical_minor_naturals() {
    assert_eq!(fixed("Am"), "08A");
    assert_eq!(fixed("Em"), "09A");
    assert_eq!(fixed("Bm"), "10A");
    assert_eq!(fixed("Fm"), "04A");
    assert_eq!(fixed("Cm"), "05A");
    assert_eq!(fixed("Gm"), "06A");
    assert_eq!(fixed("Dm"), "07A");
}

#[test]
fn fix_musical_minor_flats() {
    assert_eq!(fixed("Gbm"), "11A");
    assert_eq!(fixed("Dbm"), "12A");
    assert_eq!(fixed("Abm"), "01A");
    assert_eq!(fixed("Ebm"), "02A");
    assert_eq!(fixed("Bbm"), "03A");
}

#[test]
fn fix_musical_minor_sharps() {
    assert_eq!(fixed("F#m"), "11A");
    assert_eq!(fixed("C#m"), "12A");
    assert_eq!(fixed("G#m"), "01A");
    assert_eq!(fixed("D#m"), "02A");
    assert_eq!(fixed("A#m"), "03A");
}

#[test]
fn key_messages_name_the_notation() {
    assert_eq!(
        check_with("1A").violations()[0].message,
        "Key `1A` is non-canonical Camelot; should be `01A`"
    );
    assert_eq!(
        check_with(" 1d ").violations()[0].message,
        "Key `1d` is OpenKey notation; canonical Camelot is `08B`"
    );
    assert_eq!(
        check_with("Am").violations()[0].message,
        "Key `Am` is musical notation; canonical Camelot is `08A`"
    );
    assert_eq!(check_with("xyz").violations()[0].message, "Key `xyz` is not in a recognized notation");
}

#[test]
fn missing_key_passes_and_padded_key_is_trimmed() {
    let mut track = make_track();
    track.fields.key = None;
    assert!(KeyCanonicalCamelotRule.check(&LintTarget::from(track)).is_passed());
    assert!(check_with(" 05B ").is_passed());
}

#[test]
fn camelot_numbers_out_of_range_are_not_camelot() {
    assert_eq!(parse_camelot("13A"), None);
    assert_eq!(parse_camelot("0B"), None);
    assert_eq!(parse_camelot("+7a"), Some("07A".to_string()));
    assert_eq!(parse_openkey("13d"), None);
    assert_eq!(parse_openkey("7M"), Some("02A".to_string()));
    assert_eq!(parse_musical("H"), None);
    assert_eq!(parse_musical("m"), None);
    assert_eq!(musical_major_to_number("Bb"), Some(6));
    assert_eq!(musical_minor_to_number("Bb"), Some(3));
    assert_eq!(musical_minor_to_number("bb"), None);
}

#[test]
fn unrecognized_key_fix_leaves_key() {
    let mut track = make_track();
    track.fields.key = Some("xyz".to_string());
    tune_manager::linter::violation::Fix::CanonicalKey.apply(&mut track, &F64Rounding);
    assert_eq!(track.fields.key.as_deref(), Some("xyz"));
}
