use tune_manager::linter::lint_target::LintTarget;
use tune_manager::linter::result::CheckOutcome;
use tune_manager::linter::rule::Rule;
use tune_manager::linter::rules::artist_feat_standardization::{
    standardize_feat, ArtistFeatStandardizationRule,
};
use tune_manager::linter::rules::artist_separator_standardization::{
    standardize_separators, ArtistSeparatorStandardizationRule,
};
use tune_manager::linter::rules::artist_separator_structure::{
    is_separator_or_ws, ArtistSeparatorStructureRule,
};
use tune_manager::linter::violation::DecimalRounding;
use tune_manager::track::{CountField, Track, TrackFields, TrackFile};

fn make_track() -> Track {
    Track {
        file: TrackFile {
            file_path: "Publisher/[RLS] Album/Disc 2/01. [10A] Artist - Title.mp3".to_string(),
            mtime: 1,
        },
        fields: TrackFields {
            media_hash: Some("abc123".to_string()),
            artist: Some("Artist".to_string()),
            title: Some("Title".to_string()),
            album: Some("Album".to_string()),
            remixer: Some("Remixer".to_string()),
            publisher: Some("Publisher".to_string()),
            catalog_id: Some("RLS".to_string()),
            year: Some("2015".to_string()),
            genre: Some("Genre".to_string()),
            key: Some("10A".to_string()),
            bpm: Some("170".to_string()),
            disc: Some(CountField::parse("2/4")),
            track: Some(CountField::parse("1/10")),
        },
    }
}

struct F64Rounding;

impl DecimalRounding for F64Rounding {
    fn round_two_decimals(&self, text: &str) -> Option<String> {
        text.parse::<f64>().ok().map(|n| format!("{:.2}", n))
    }
}

fn with_artist(artist: &str) -> LintTarget {
    let mut track = make_track();
    track.fields.artist = Some(artist.to_string());
    track.into()
}

fn check_with(artist: &str) -> CheckOutcome {
    ArtistSeparatorStructureRule.check(&with_artist(artist))
}

fn fix_all(artist: &str) -> String {
    let mut target = with_artist(artist);
    let result = ArtistSeparatorStructureRule.check(&target);
    for v in result.violations() {
        if let Some(fix) = &v.fix {
            fix.apply(&mut target.track, &F64Rounding);
        }
    }
    target.track.fields.artist.unwrap()
}

fn fixed_with<R: Rule>(rule: R, input: &str) -> String {
    let mut target = with_artist(input);
    let result = rule.check(&target);
    result.violations()[0].fix.as_ref().unwrap().apply(&mut target.track, &F64Rounding);
    target.track.fields.artist.unwrap()
}

#[test]
fn ok_single_artist() {
    assert!(check_with("A").is_passed());
}

#[test]
fn ok_two_with_ampersand() {
    assert!(check_with("A & B").is_passed());
}

#[test]
fn ok_two_with_vs() {
    assert!(check_with("A vs B").is_passed());
}

#[test]
fn ok_two_with_comma() {
    assert!(check_with("A, B").is_passed());
}

#[test]
fn ok_three_with_commas() {
    assert!(check_with("A, B, C").is_passed());
}

#[test]
fn ok_three_mixed_amp_and_comma() {
    assert!(check_with("Aly & Fila, Lostly").is_passed());
}

#[test]
fn ok_three_mixed_vs_and_amp() {
    assert!(check_with("Technikore vs Dougal & Gammer").is_passed());
}

#[test]
fn fail_double_space() {
    assert_eq!(check_with("A  B").violations().len(), 1);
}

#[test]
fn fail_space_before_comma() {
    assert_eq!(check_with("A , B").violations().len(), 1);
}

#[test]
fn fail_doubled_ampersand() {
    assert_eq!(check_with("A & & B").violations().len(), 1);
}

#[test]
fn fail_doubled_comma() {
    // `A,, B` trips just the doubled comma.
    assert_eq!(check_with("A,, B").violations().len(), 1);
}

#[test]
fn fail_doubled_comma_with_leading_space() {
    // `A ,, B` trips both white space before a comma and the doubled comma.
    assert_eq!(check_with("A ,, B").violations().len(), 2);
}

#[test]
fn fail_leading_separator() {
    assert_eq!(check_with(", A & B").violations().len(), 1);
}

#[test]
fn fail_trailing_separator() {
    assert_eq!(check_with("A & B,").violations().len(), 1);
}

#[test]
fn leading_whitespace_does_not_count_as_double_space() {
    // Only the leading junk is reported, not also a run of white space.
    assert_eq!(check_with("  A & B").violations().len(), 1);
}

#[test]
fn multiple_distinct_issues_emit_multiple_violations() {
    // Leading junk, and a doubled ampersand inside.
    assert_eq!(check_with("  A & & B").violations().len(), 2);
}

#[test]
fn fix_trim_leading_separator() {
    assert_eq!(fix_all(", A & B"), "A & B");
}

#[test]
fn fix_trim_trailing_separator() {
    assert_eq!(fix_all("A & B,"), "A & B");
}

#[test]
fn fix_trim_leading_whitespace() {
    assert_eq!(fix_all("  A & B"), "A & B");
}

#[test]
fn fix_collapse_double_space() {
    assert_eq!(fix_all("A  B"), "A B");
}

#[test]
fn fix_space_before_comma() {
    assert_eq!(fix_all("A , B"), "A, B");
}

#[test]
fn fix_doubled_ampersand() {
    assert_eq!(fix_all("A & & B"), "A & B");
}

#[test]
fn fix_doubled_comma() {
    assert_eq!(fix_all("A ,, B"), "A, B");
}

#[test]
fn fix_combined_leading_and_inner() {
    // The fixes run one after another on the same track.
    assert_eq!(fix_all("  A & & B"), "A & B");
}

#[test]
fn structure_messages_come_in_a_fixed_order() {
    let result = check_with(" A  ,, B & & C,");
    let messages: Vec<&str> = result.violations().iter().map(|v| v.message.as_str()).collect();
    assert_eq!(
        messages,
        vec![
            "Artist has leading separator or whitespace",
            "Artist has trailing separator or whitespace",
            "Artist has whitespace before comma",
            "Artist has consecutive whitespace",
            "Artist has doubled comma separator",
            "Artist has doubled ampersand separator",
        ]
    );
    assert_eq!(fix_all(" A  ,, B & & C,"), "A, B & C");
}

#[test]
fn separator_class() {
    assert!(is_separator_or_ws(','));
    assert!(is_separator_or_ws('&'));
    assert!(is_separator_or_ws('\u{a0}'));
    assert!(!is_separator_or_ws('/'));
}

#[test]
fn artist_separator_standardization_ok_case() {
    assert!(ArtistSeparatorStandardizationRule.check(&with_artist("A & B")).is_passed());
}

#[test]
fn artist_separator_standardization_fail_case() {
    assert_eq!(
        ArtistSeparatorStandardizationRule.check(&with_artist("A and B")).violations().len(),
        1
    );
}

#[test]
fn fail_versus() {
    assert_eq!(
        ArtistSeparatorStandardizationRule.check(&with_artist("A versus B")).violations().len(),
        1
    );
}

#[test]
fn fix_and_to_ampersand() {
    assert_eq!(fixed_with(ArtistSeparatorStandardizationRule, "A and B"), "A & B");
}

#[test]
fn fix_vs_dot_to_vs() {
    assert_eq!(fixed_with(ArtistSeparatorStandardizationRule, "A vs. B"), "A vs B");
}

#[test]
fn fix_versus_to_vs() {
    assert_eq!(fixed_with(ArtistSeparatorStandardizationRule, "A versus B"), "A vs B");
}

#[test]
fn fix_mixed_in_one_pass() {
    assert_eq!(fixed_with(ArtistSeparatorStandardizationRule, "A and B versus C"), "A & B vs C");
}

#[test]
fn separators_need_white_space_on_both_sides() {
    assert!(ArtistSeparatorStandardizationRule.check(&with_artist("Sandy vs.B")).is_passed());
    assert_eq!(standardize_separators("A AND\tB"), "A & B");
    // Matches do not overlap: the second `and` starts inside the first match.
    assert_eq!(standardize_separators("A and and B"), "A & and B");
    // The long s folds to `s` in the match, but lower-casing keeps it.
    assert_eq!(standardize_separators("A v\u{17f}. B"), "A v\u{17f}. B");
}

#[test]
fn artist_feat_standardization_ok_case() {
    assert!(ArtistFeatStandardizationRule.check(&with_artist("A Ft. B")).is_passed());
}

#[test]
fn artist_feat_standardization_fail_case() {
    assert_eq!(ArtistFeatStandardizationRule.check(&with_artist("A feat. B")).violations().len(), 1);
}

#[test]
fn fix_feat_dot() {
    assert_eq!(fixed_with(ArtistFeatStandardizationRule, "A feat. B"), "A Ft. B");
}

#[test]
fn fix_featuring() {
    assert_eq!(fixed_with(ArtistFeatStandardizationRule, "A featuring B"), "A Ft. B");
}

#[test]
fn fix_ft_no_dot() {
    assert_eq!(fixed_with(ArtistFeatStandardizationRule, "A ft B"), "A Ft. B");
}

#[test]
fn fix_uppercase() {
    assert_eq!(fixed_with(ArtistFeatStandardizationRule, "A FEAT B"), "A Ft. B");
}

#[test]
fn only_the_first_feat_token_decides() {
    assert_eq!(ArtistFeatStandardizationRule.check(&with_artist("A ft. B")).violations().len(), 1);
    assert_eq!(fixed_with(ArtistFeatStandardizationRule, "A ft. B"), "A Ft. B");
    assert_eq!(ArtistFeatStandardizationRule.check(&with_artist("A FT. B")).violations().len(), 1);
    assert!(ArtistFeatStandardizationRule.check(&with_artist("A Ft. B feat. C")).is_passed());
    assert_eq!(standardize_feat("A ft. B feat. C"), "A Ft. B Ft. C");
    assert!(ArtistFeatStandardizationRule.check(&with_artist("Daft Punk")).is_passed());
}
