//! Rule `title.no-featuring-token`.
use vstd::prelude::*;
use crate::linter::lint_target::{LintTarget, TargetView};
use crate::linter::pattern::{has_feat_token, has_feat_token_exec};
use crate::linter::result::{one, CheckOutcome, OutcomeView};
use crate::linter::rule::{Rule, RuleMetadata};
use crate::linter::violation::error_v;
use crate::text::{chars_of, string_from};
use crate::track::TrackView;

verus! {

/// The title must not carry a featuring token; featuring belongs in the
/// artist field.
pub struct TitleNoFeaturingTokenRule;

pub open spec fn no_featuring_token_outcome(t: TrackView) -> OutcomeView {
    match t.fields.title {
        Some(title) => if has_feat_token(title) {
            one(error_v("Title should not include featuring token"@))
        } else {
            OutcomeView::Passed
        },
        None => OutcomeView::Passed,
    }
}

impl Rule for TitleNoFeaturingTokenRule {
    open spec fn rule_id(&self) -> Seq<char> {
        "title.no-featuring-token"@
    }

    open spec fn outcome(&self, target: TargetView) -> OutcomeView {
        no_featuring_token_outcome(target.track)
    }

    fn metadata(&self) -> RuleMetadata {
        RuleMetadata {
            id: "title.no-featuring-token",
            description: "Title must not include featuring tokens; featuring belongs in artist\nfield.\n\nValid:\n- Song\n- Song (Artist Remix)\n\nInvalid:\n- Song feat. Singer (featuring token in title)\n- Song ft Singer (featuring token in title)\n",
            autofix_notes: None,
        }
    }

    fn check(&self, target: &LintTarget) -> CheckOutcome {
        let title = match &target.track.fields.title {
            Some(t) => chars_of(t.as_str()),
            None => {
                return CheckOutcome::Passed;
            },
        };
        if has_feat_token_exec(&title) {
            return CheckOutcome::single(self.error(string_from("Title should not include featuring token")));
        }
        CheckOutcome::Passed
    }
}

} // verus!
