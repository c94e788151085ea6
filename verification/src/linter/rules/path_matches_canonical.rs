//! Rule `path.matches-canonical`.
use vstd::prelude::*;
use crate::linter::lint_target::{LintTarget, TargetView};
use crate::linter::result::{one, CheckOutcome, OutcomeView};
use crate::linter::rule::{Rule, RuleMetadata};
use crate::linter::violation::error_v;
use crate::text::{chars_of, push_all, push_str, string_of};
use crate::track::{canonical_path, path_ends_with, path_ends_with_exec, TrackView};

verus! {

/// The file's path must end with the canonical path built from its tags.
pub struct PathMatchesCanonicalRule;

pub open spec fn path_matches_canonical_outcome(t: TrackView) -> OutcomeView {
    if path_ends_with(t.file_path, canonical_path(t)) {
        OutcomeView::Passed
    } else {
        one(error_v("Path does not match canonical path: "@ + canonical_path(t)))
    }
}

impl Rule for PathMatchesCanonicalRule {
    open spec fn rule_id(&self) -> Seq<char> {
        "path.matches-canonical"@
    }

    open spec fn outcome(&self, target: TargetView) -> OutcomeView {
        path_matches_canonical_outcome(target.track)
    }

    fn metadata(&self) -> RuleMetadata {
        RuleMetadata {
            id: "path.matches-canonical",
            description: "Path must exactly match the canonical path generated from track tags.\n\nValid:\n- Publisher/[RLS] Album/01. [10A] Artist - Title.mp3\n- Publisher/[+singles]/[10A] Artist - Title.mp3\n\nInvalid:\n- Publisher/[RLS] Album/99. [10A] Artist - Title.mp3 (wrong track number)\n- WrongPublisher/[RLS] Album/01. [10A] Artist - Title.mp3 (non-canonical directory)\n",
            autofix_notes: None,
        }
    }

    fn check(&self, target: &LintTarget) -> CheckOutcome {
        let track = &target.track;
        let canonical = track.canonical_path();
        let actual = chars_of(track.file.file_path.as_str());
        if path_ends_with_exec(&actual, &canonical) {
            return CheckOutcome::Passed;
        }
        let mut m: Vec<char> = Vec::new();
        push_str(&mut m, "Path does not match canonical path: ");
        push_all(&mut m, &canonical);
        CheckOutcome::single(self.error(string_of(&m)))
    }
}

} // verus!
