use tune_manager::linter::engine::LintEngine;
use tune_manager::linter::lint_target::LintTarget;
use tune_manager::linter::result::CheckOutcome;
use tune_manager::linter::rule::{Rule, RuleMetadata};
use tune_manager::linter::text_field::TagField;
use tune_manager::linter::violation::{DecimalRounding, Fix};
use tune_manager::track::{CountField, Track, TrackFields, TrackFile};

fn make_track() -> Track {
    Track {
        file: TrackFile {
            file_path: "Publisher/[RLS] Album/Disc 2/01. [10A] Artist - Title.mp3".to_string(),
            mtime: 1,
        },
        fields: TrackFields {
            media_hash: Some("abc123".to_string()),
            artist: Some("Artist".to_string()),
            title: Some("Title".to_string()),
            album: Some("Album".to_string()),
            remixer: Some("Remixer".to_string()),
            publisher: Some("Publisher".to_string()),
            catalog_id: Some("RLS".to_string()),
            year: Some("2015".to_string()),
            genre: Some("Genre".to_string()),
            key: Some("10A".to_string()),
            bpm: Some("170".to_string()),
            disc: Some(CountField::parse("2/4")),
            track: Some(CountField::parse("1/10")),
        },
    }
}

struct F64Rounding;

impl DecimalRounding for F64Rounding {
    fn round_two_decimals(&self, text: &str) -> Option<String> {
        text.parse::<f64>().ok().map(|n| format!("{:.2}", n))
    }
}

/// Minimal rules that exercise distinct paths of the engine.
#[derive(Clone, Copy)]
enum TestRule {
    AlwaysPass,
    AlwaysFailNoFix,
    AlwaysSkip,
    StepA,
    StepB,
    OscToA,
    OscToB,
}

fn meta(id: &'static str, description: &'static str) -> RuleMetadata {
    RuleMetadata { id, description, autofix_notes: None }
}

impl TestRule {
    fn rewrite(&self, target: &LintTarget, from: &str, to: &str, msg: &str) -> CheckOutcome {
        if target.track.fields.title.as_deref() == Some(from) {
            CheckOutcome::single(
                self.error(msg.to_string()).with_fix(Fix::Assign(TagField::Title, to.to_string())),
            )
        } else {
            CheckOutcome::Passed
        }
    }
}

impl Rule for TestRule {
    fn metadata(&self) -> RuleMetadata {
        match self {
            TestRule::AlwaysPass => meta("test.always-pass", "Always passes."),
            TestRule::AlwaysFailNoFix => meta("test.always-fail-no-fix", "Always fails with no fix."),
            TestRule::AlwaysSkip => meta("test.always-skip", "Always skips."),
            TestRule::StepA => meta("test.step-a", "Sets title 'start' to 'middle'."),
            TestRule::StepB => meta("test.step-b", "Sets title 'middle' to 'end'."),
            TestRule::OscToA => meta("test.osc-to-a", "If title is 'b', set it to 'a'."),
            TestRule::OscToB => meta("test.osc-to-b", "If title is 'a', set it to 'b'."),
        }
    }

    fn check(&self, target: &LintTarget) -> CheckOutcome {
        match self {
            TestRule::AlwaysPass => CheckOutcome::Passed,
            TestRule::AlwaysFailNoFix => CheckOutcome::single(self.error("nope".to_string())),
            TestRule::AlwaysSkip => CheckOutcome::skipped("no inputs"),
            TestRule::StepA => self.rewrite(target, "start", "middle", "start -> middle"),
            TestRule::StepB => self.rewrite(target, "middle", "end", "middle -> end"),
            TestRule::OscToA => self.rewrite(target, "b", "a", "b -> a"),
            TestRule::OscToB => self.rewrite(target, "a", "b", "a -> b"),
        }
    }
}

fn engine_with(rules: Vec<TestRule>) -> LintEngine<TestRule> {
    LintEngine::new().with_rules(rules)
}

fn target_with_title(title: &str) -> LintTarget {
    let mut track = make_track();
    track.fields.title = Some(title.to_string());
    track.into()
}

#[test]
fn check_returns_one_result_per_rule_in_order() {
    let engine = engine_with(vec![
        TestRule::AlwaysPass,
        TestRule::AlwaysFailNoFix,
        TestRule::AlwaysSkip,
    ]);
    let results = engine.check(&make_track().into());
    assert_eq!(
        results.iter().map(|r| r.rule_id).collect::<Vec<_>>(),
        vec!["test.always-pass", "test.always-fail-no-fix", "test.always-skip"]
    );
    assert!(results[0].outcome.is_passed());
    assert_eq!(results[1].outcome.violations().len(), 1);
    assert!(results[2].outcome.is_skipped());
}

#[test]
fn autofix_zero_iterations_when_all_pass() {
    let engine = engine_with(vec![TestRule::AlwaysPass]);
    let mut target: LintTarget = make_track().into();
    let outcome = engine.run_autofix(&mut target, &F64Rounding);
    assert_eq!(outcome.iterations, 0);
    assert!(!outcome.hit_max_iterations);
    assert!(outcome.results[0].outcome.is_passed());
}

#[test]
fn autofix_zero_iterations_when_no_fixes_available() {
    let engine = engine_with(vec![TestRule::AlwaysFailNoFix]);
    let mut target: LintTarget = make_track().into();
    let outcome = engine.run_autofix(&mut target, &F64Rounding);
    assert_eq!(outcome.iterations, 0);
    assert!(!outcome.hit_max_iterations);
    assert_eq!(outcome.results[0].outcome.violations().len(), 1);
}

#[test]
fn autofix_converges_in_one_iteration_for_single_fix() {
    let engine = engine_with(vec![TestRule::StepA, TestRule::StepB]);
    let mut target = target_with_title("middle");
    let outcome = engine.run_autofix(&mut target, &F64Rounding);
    assert_eq!(outcome.iterations, 1);
    assert!(!outcome.hit_max_iterations);
    assert_eq!(target.track.fields.title.as_deref(), Some("end"));
    assert!(outcome.results.iter().all(|r| r.outcome.is_passed()));
}

#[test]
fn autofix_converges_across_chain_of_fixes() {
    // start -> middle (iter 0) -> end (iter 1) -> all pass (iter 2 check)
    let engine = engine_with(vec![TestRule::StepA, TestRule::StepB]);
    let mut target = target_with_title("start");
    let outcome = engine.run_autofix(&mut target, &F64Rounding);
    assert_eq!(outcome.iterations, 2);
    assert!(!outcome.hit_max_iterations);
    assert_eq!(target.track.fields.title.as_deref(), Some("end"));
}

#[test]
fn autofix_hits_max_iterations_on_oscillation() {
    let engine = engine_with(vec![TestRule::OscToA, TestRule::OscToB]);
    let mut target = target_with_title("a");
    let outcome = engine.run_autofix(&mut target, &F64Rounding);
    assert_eq!(outcome.iterations, 5);
    assert!(outcome.hit_max_iterations);
    // Results reflect the state after the last round, so a violation remains.
    assert!(outcome.results.iter().any(|r| !r.outcome.violations().is_empty()));
}

#[test]
fn autofix_with_max_iterations_override() {
    let engine = engine_with(vec![TestRule::OscToA, TestRule::OscToB]).with_max_iterations(1);
    let mut target = target_with_title("a");
    let outcome = engine.run_autofix(&mut target, &F64Rounding);
    assert_eq!(outcome.iterations, 1);
    assert!(outcome.hit_max_iterations);
}

#[test]
fn autofix_carries_skipped_results_through() {
    let engine = engine_with(vec![TestRule::AlwaysSkip, TestRule::StepA]);
    let mut target = target_with_title("start");
    let outcome = engine.run_autofix(&mut target, &F64Rounding);
    assert_eq!(outcome.iterations, 1);
    let skip = outcome.results.iter().find(|r| r.rule_id == "test.always-skip").unwrap();
    assert!(skip.outcome.is_skipped());
}

#[test]
fn autofix_leaves_unfixable_violations_in_final_results() {
    let engine = engine_with(vec![TestRule::StepA, TestRule::AlwaysFailNoFix]);
    let mut target = target_with_title("start");
    let outcome = engine.run_autofix(&mut target, &F64Rounding);
    // StepA fixes its own violation; AlwaysFailNoFix keeps failing, but it
    // offers no fix, so the loop ends.
    assert!(!outcome.hit_max_iterations);
    let step_a = outcome.results.iter().find(|r| r.rule_id == "test.step-a").unwrap();
    let no_fix = outcome.results.iter().find(|r| r.rule_id == "test.always-fail-no-fix").unwrap();
    assert!(step_a.outcome.is_passed());
    assert_eq!(no_fix.outcome.violations().len(), 1);
}

#[test]
fn autofix_with_zero_cap_runs_no_round() {
    let engine = engine_with(vec![TestRule::StepA]).with_max_iterations(0);
    let mut target = target_with_title("start");
    let outcome = engine.run_autofix(&mut target, &F64Rounding);
    assert_eq!(outcome.iterations, 0);
    assert!(outcome.hit_max_iterations);
    assert_eq!(target.track.fields.title.as_deref(), Some("start"));
}

#[test]
fn autofix_keeps_raw_tag_and_file() {
    let engine = engine_with(vec![TestRule::StepA]);
    let mut target = target_with_title("start");
    let path = target.track.file.file_path.clone();
    let outcome = engine.run_autofix(&mut target, &F64Rounding);
    assert_eq!(outcome.iterations, 1);
    assert!(target.id3.is_none());
    assert_eq!(target.track.file.file_path, path);
}

#[test]
fn default_engine_runs_the_track_rules() {
    let engine = LintEngine::new();
    let results = engine.check(&make_track().into());
    assert_eq!(results.len(), 20);
    assert_eq!(results[0].rule_id, "file.supported-extension");
    assert_eq!(results[19].rule_id, "bpm.numeric");
    // The sample track names a remixer but its title has no remix note.
    for r in &results {
        if r.rule_id == "meta.remixer-title-consistency" {
            assert_eq!(r.outcome.violations().len(), 1);
        } else {
            assert!(r.outcome.is_passed(), "{}", r.rule_id);
        }
    }
}

#[test]
fn default_engine_fixes_a_messy_track() {
    let engine = LintEngine::new();
    let mut track = make_track();
    track.fields.artist = Some("  A and B feat. C".to_string());
    track.fields.key = Some("Am".to_string());
    track.fields.bpm = Some("170.500".to_string());
    let mut target: LintTarget = track.into();
    let outcome = engine.run_autofix(&mut target, &F64Rounding);
    assert!(!outcome.hit_max_iterations);
    assert_eq!(target.track.fields.artist.as_deref(), Some("A & B Ft. C"));
    assert_eq!(target.track.fields.key.as_deref(), Some("08A"));
    assert_eq!(target.track.fields.bpm.as_deref(), Some("170.5"));
}

#[test]
fn autofix_cap_of_zero_with_nothing_fixable_is_no_cap_hit() {
    let engine = engine_with(vec![TestRule::AlwaysPass]).with_max_iterations(0);
    let mut target: LintTarget = make_track().into();
    let outcome = engine.run_autofix(&mut target, &F64Rounding);
    assert_eq!(outcome.iterations, 0);
    assert!(!outcome.hit_max_iterations);
    assert_eq!(outcome.results.len(), 1);
    assert!(outcome.results[0].outcome.is_passed());
}

#[test]
fn autofix_cap_reached_on_convergence_is_no_cap_hit() {
    // StepA then StepB need two rounds; with a cap of two the loop ends at
    // the cap with nothing left to fix.
    let engine = engine_with(vec![TestRule::StepA, TestRule::StepB]).with_max_iterations(2);
    let mut target = target_with_title("start");
    let outcome = engine.run_autofix(&mut target, &F64Rounding);
    assert!(!outcome.hit_max_iterations);
    assert_eq!(outcome.iterations, 2);
    assert_eq!(target.track.fields.title.as_deref(), Some("end"));
}
