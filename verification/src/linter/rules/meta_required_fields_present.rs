//! Rule `meta.required-fields-present`.
use vstd::prelude::*;
use crate::linter::lint_target::{LintTarget, TargetView};
use crate::linter::result::{opt_v, outcome_of, violation_views, CheckOutcome, OutcomeView};
use crate::linter::rule::{present_trimmed, present_trimmed_exec, Rule, RuleMetadata};
use crate::linter::violation::{error_v, RuleViolation};
use crate::text::string_from;
use crate::track::TrackView;

verus! {

/// Artist, title and media hash must be present and not blank.
pub struct MetaRequiredFieldsPresentRule;

pub open spec fn required_fields_outcome(t: TrackView) -> OutcomeView {
    outcome_of(
        opt_v(
            present_trimmed(t.fields.artist) is None,
            error_v("Required field `artist` is missing or empty"@),
        ) + opt_v(
            present_trimmed(t.fields.title) is None,
            error_v("Required field `title` is missing or empty"@),
        ) + opt_v(
            present_trimmed(t.fields.media_hash) is None,
            error_v("Required field `media_hash` is missing or empty"@),
        ),
    )
}

impl Rule for MetaRequiredFieldsPresentRule {
    open spec fn rule_id(&self) -> Seq<char> {
        "meta.required-fields-present"@
    }

    open spec fn outcome(&self, target: TargetView) -> OutcomeView {
        required_fields_outcome(target.track)
    }

    fn metadata(&self) -> RuleMetadata {
        RuleMetadata {
            id: "meta.required-fields-present",
            description: "Required metadata fields (artist, title, media_hash) must be present\nand non-empty.\n\n`media_hash` is written by tune-manager into the UFID frame during\ningest and acts as the track's stable identity. A missing value means\nthe track has not been ingested (or the frame was stripped) and must\nbe backfilled before the track can be reliably tracked.\n\nValid:\n- artist=Artist, title=Title, media_hash=<hex>\n\nInvalid:\n- artist missing\n- title missing\n- media_hash missing\n- any required field set to whitespace-only string\n",
            autofix_notes: None,
        }
    }

    fn check(&self, target: &LintTarget) -> CheckOutcome {
        let fields = &target.track.fields;
        let mut v: Vec<RuleViolation> = Vec::new();
        if present_trimmed_exec(&fields.artist).is_none() {
            v.push(self.error(string_from("Required field `artist` is missing or empty")));
        }
        let ghost a = violation_views(v@);
        if present_trimmed_exec(&fields.title).is_none() {
            v.push(self.error(string_from("Required field `title` is missing or empty")));
        }
        let ghost b = violation_views(v@);
        if present_trimmed_exec(&fields.media_hash).is_none() {
            v.push(self.error(string_from("Required field `media_hash` is missing or empty")));
        }
        let ghost t = target.track@;
        assert(violation_views(v@) =~= opt_v(
            present_trimmed(t.fields.artist) is None,
            error_v("Required field `artist` is missing or empty"@),
        ) + opt_v(
            present_trimmed(t.fields.title) is None,
            error_v("Required field `title` is missing or empty"@),
        ) + opt_v(
            present_trimmed(t.fields.media_hash) is None,
            error_v("Required field `media_hash` is missing or empty"@),
        ));
        CheckOutcome::from_violations(v)
    }
}

} // verus!
