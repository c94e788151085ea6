//! Rule `file.supported-extension`.
use vstd::prelude::*;
use crate::linter::lint_target::{LintTarget, TargetView};
use crate::linter::result::{one, CheckOutcome, OutcomeView};
use crate::linter::rule::{Rule, RuleMetadata};
use crate::linter::violation::error_v;
use crate::text::{ascii_lower_seq, chars_are, chars_of, lower_chars, string_from};
use crate::track::{path_extension, path_extension_exec, TrackView};

verus! {

/// The file's extension must be one of the supported audio formats.
pub struct FileSupportedExtensionRule;

/// `mp3`, `aif` or `aiff`, in any case.
pub open spec fn supported_extension(e: Seq<char>) -> bool {
    let l = ascii_lower_seq(e);
    l == "mp3"@ || l == "aif"@ || l == "aiff"@
}

pub open spec fn file_supported_extension_outcome(t: TrackView) -> OutcomeView {
    match path_extension(t.file_path) {
        Some(e) => if supported_extension(e) {
            OutcomeView::Passed
        } else {
            one(error_v("File extension is not supported"@))
        },
        None => one(error_v("File extension is not supported"@)),
    }
}

impl Rule for FileSupportedExtensionRule {
    open spec fn rule_id(&self) -> Seq<char> {
        "file.supported-extension"@
    }

    open spec fn outcome(&self, target: TargetView) -> OutcomeView {
        file_supported_extension_outcome(target.track)
    }

    fn metadata(&self) -> RuleMetadata {
        RuleMetadata {
            id: "file.supported-extension",
            description: "File extension must be in the supported audio file set.\n\nValid:\n- Artist - Title.mp3\n- Artist - Title.aif\n\nInvalid:\n- Artist - Title.ogg (unsupported extension)\n- Artist - Title (missing extension)\n",
            autofix_notes: None,
        }
    }

    fn check(&self, target: &LintTarget) -> CheckOutcome {
        let path = chars_of(target.track.file.file_path.as_str());
        match path_extension_exec(&path) {
            Some(e) => {
                let l = lower_chars(&e);
                if chars_are(&l, "mp3") || chars_are(&l, "aif") || chars_are(&l, "aiff") {
                    return CheckOutcome::Passed;
                }
            },
            None => {},
        }
        CheckOutcome::single(self.error(string_from("File extension is not supported")))
    }
}

} // verus!
