//! Rule `meta.publisher-catalog-pairing`.
use vstd::prelude::*;
use crate::linter::lint_target::{LintTarget, TargetView};
use crate::linter::result::{one, CheckOutcome, OutcomeView};
use crate::linter::rule::{present_trimmed, present_trimmed_exec, Rule, RuleMetadata};
use crate::linter::violation::{error_v, warn_v};
use crate::text::string_from;
use crate::track::TrackView;

verus! {

/// Publisher and catalog number go together: a publisher without a catalog
/// number is a warning, a catalog number without a publisher an error.
pub struct MetaPublisherCatalogPairingRule;

pub open spec fn publisher_catalog_outcome(t: TrackView) -> OutcomeView {
    let publisher = present_trimmed(t.fields.publisher);
    let catalog = present_trimmed(t.fields.catalog_id);
    if publisher is Some && catalog is None {
        one(warn_v("Publisher is present but catalog_id is missing"@))
    } else if publisher is None && catalog is Some {
        one(error_v("Catalog_id is present but publisher is missing"@))
    } else {
        OutcomeView::Passed
    }
}

impl Rule for MetaPublisherCatalogPairingRule {
    open spec fn rule_id(&self) -> Seq<char> {
        "meta.publisher-catalog-pairing"@
    }

    open spec fn outcome(&self, target: TargetView) -> OutcomeView {
        publisher_catalog_outcome(target.track)
    }

    fn metadata(&self) -> RuleMetadata {
        RuleMetadata {
            id: "meta.publisher-catalog-pairing",
            description: "Publisher and catalog_id should be coupled.\n\nValid:\n- publisher=Label, catalog_id=RLS001\n- both missing\n\nInvalid:\n- publisher=Label, catalog_id missing (warn — catalog number may legitimately be unknown)\n- catalog_id=RLS001, publisher missing (error — orphan catalog number with no label)\n",
            autofix_notes: None,
        }
    }

    fn check(&self, target: &LintTarget) -> CheckOutcome {
        let fields = &target.track.fields;
        let publisher = present_trimmed_exec(&fields.publisher);
        let catalog = present_trimmed_exec(&fields.catalog_id);
        if publisher.is_some() && catalog.is_none() {
            CheckOutcome::single(self.warn(string_from("Publisher is present but catalog_id is missing")))
        } else if publisher.is_none() && catalog.is_some() {
            CheckOutcome::single(self.error(string_from("Catalog_id is present but publisher is missing")))
        } else {
            CheckOutcome::Passed
        }
    }
}

} // verus!
