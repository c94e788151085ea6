use tune_manager::linter::lint_target::LintTarget;
use tune_manager::linter::result::CheckOutcome;
use tune_manager::linter::rule::Rule;
use tune_manager::linter::rules::bpm_numeric::{
    fix_round_to_two_decimals, fix_strip_trailing_decimal_zero, BpmNumericRule,
};
use tune_manager::linter::violation::DecimalRounding;
use tune_manager::track::{CountField, Track, TrackFields, TrackFile};

fn make_track() -> Track {
    Track {
        file: TrackFile {
            file_path: "Publisher/[RLS] Album/Disc 2/01. [10A] Artist - Title.mp3".to_string(),
            mtime: 1,
        },
        fields: TrackFields {
            media_hash: Some("abc123".to_string()),
            artist: Some("Artist".to_string()),
            title: Some("Title".to_string()),
            album: Some("Album".to_string()),
            remixer: Some("Remixer".to_string()),
            publisher: Some("Publisher".to_string()),
            catalog_id: Some("RLS".to_string()),
            year: Some("2015".to_string()),
            genre: Some("Genre".to_string()),
            key: Some("10A".to_string()),
            bpm: Some("170".to_string()),
            disc: Some(CountField::parse("2/4")),
            track: Some(CountField::parse("1/10")),
        },
    }
}

struct F64Rounding;

impl DecimalRounding for F64Rounding {
    fn round_two_decimals(&self, text: &str) -> Option<String> {
        text.parse::<f64>().ok().map(|n| format!("{:.2}", n))
    }
}

fn check_with(bpm: &str) -> CheckOutcome {
    let mut track = make_track();
    track.fields.bpm = Some(bpm.to_string());
    BpmNumericRule.check(&LintTarget::from(track))
}

fn fix_all(bpm: &str) -> String {
    let mut track = make_track();
    track.fields.bpm = Some(bpm.to_string());
    let mut target: LintTarget = track.into();
    let result = BpmNumericRule.check(&target);
    for v in result.violations() {
        if let Some(fix) = &v.fix {
            fix.apply(&mut target.track, &F64Rounding);
        }
    }
    target.track.fields.bpm.unwrap()
}

#[test]
fn ok_integer() {
    assert!(check_with("170").is_passed());
}

#[test]
fn ok_one_decimal() {
    assert!(check_with("128.5").is_passed());
}

#[test]
fn ok_two_decimals() {
    assert!(check_with("128.25").is_passed());
}

#[test]
fn whitespace_alone_is_not_a_violation() {
    // White space is the business of meta.text-trimmed, not of this rule.
    assert!(check_with(" 128.5 ").is_passed());
}

#[test]
fn fail_non_numeric() {
    assert_eq!(check_with("fast").violations().len(), 1);
}

#[test]
fn fail_partial_alpha() {
    assert_eq!(check_with("12x").violations().len(), 1);
}

#[test]
fn fail_too_many_decimals() {
    assert_eq!(check_with("128.345").violations().len(), 1);
}

#[test]
fn fail_trailing_zero() {
    assert_eq!(check_with("170.50").violations().len(), 1);
}

#[test]
fn fail_double_zero_decimal() {
    assert_eq!(check_with("170.00").violations().len(), 1);
}

#[test]
fn two_violations_for_too_many_and_trailing_zero() {
    // 170.500 has both: 3 decimals (too many) and a trailing zero.
    let result = check_with("170.500");
    assert_eq!(result.violations().len(), 2);
}

#[test]
fn non_numeric_is_unfixable() {
    let result = check_with("fast");
    assert!(result.violations()[0].fix.is_none());
}

#[test]
fn fix_too_many_decimals_rounds_to_two() {
    assert_eq!(fix_all("128.123"), "128.12");
}

#[test]
fn fix_trailing_zero_strips() {
    assert_eq!(fix_all("170.50"), "170.5");
}

#[test]
fn fix_double_zero_drops_decimal() {
    assert_eq!(fix_all("170.00"), "170");
}

#[test]
fn fix_combined_too_many_and_trailing_zero() {
    // round to 2 -> 170.50, then strip trailing zero -> 170.5
    assert_eq!(fix_all("170.500"), "170.5");
}

#[test]
fn fix_combined_to_integer() {
    // round to 2 -> 170.00, then strip trailing zero -> 170
    assert_eq!(fix_all("170.000"), "170");
}

#[test]
fn bpm_shapes_that_are_not_numbers() {
    assert_eq!(check_with(".5").violations()[0].message, "BPM is not numeric: `.5`");
    assert_eq!(check_with("5.").violations().len(), 1);
    assert_eq!(check_with("1.2.3").violations().len(), 1);
    assert_eq!(check_with("").violations()[0].message, "BPM is not numeric: ``");
    assert_eq!(check_with(" fast ").violations()[0].message, "BPM is not numeric: `fast`");
}

#[test]
fn strip_zero_without_dot_leaves_bpm() {
    let mut track = make_track();
    track.fields.bpm = Some("170".to_string());
    fix_strip_trailing_decimal_zero(&mut track);
    assert_eq!(track.fields.bpm.as_deref(), Some("170"));
    track.fields.bpm = Some(" 12.340 ".to_string());
    fix_strip_trailing_decimal_zero(&mut track);
    assert_eq!(track.fields.bpm.as_deref(), Some("12.34"));
}

#[test]
fn rounding_hands_over_the_trimmed_text() {
    let mut track = make_track();
    track.fields.bpm = Some(" 99.999 ".to_string());
    fix_round_to_two_decimals(&mut track, &F64Rounding);
    assert_eq!(track.fields.bpm.as_deref(), Some("100.00"));
    track.fields.bpm = Some("fast".to_string());
    fix_round_to_two_decimals(&mut track, &F64Rounding);
    assert_eq!(track.fields.bpm.as_deref(), Some("fast"));
}
