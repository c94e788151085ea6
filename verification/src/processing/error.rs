//! Errors of the stages, and which of them ask for the stage to be skipped
//! rather than failed.
use vstd::prelude::*;
use crate::processing::stages::{
    AiError, BeatportError, ContainerError, ConvertError, KeyfinderError, LintFixError,
    MediaHashError, PrepareMediaError,
};
use crate::text::{push_str, string_from, string_of};

verus! {

/// An error of a stage. An error may ask for the stage to be skipped (for
/// instance, when the stage is not configured) rather than failed; its
/// message is then the reason for the skip.
pub trait ProcessingError {
    /// Whether the error asks for a skip. Defined for the errors of this
    /// crate; unspecified for others.
    open spec fn skips(&self) -> bool {
        arbitrary()
    }

    /// The error's message. Defined for the errors of this crate; unspecified
    /// for others.
    open spec fn message_spec(&self) -> Seq<char> {
        arbitrary()
    }

    fn causes_skip(&self) -> (r: bool)
        ensures
            r == self.skips(),
    ;

    fn message(&self) -> (r: String)
        ensures
            r@ == self.message_spec(),
    ;
}

fn concat(a: &str, b: &str, c: &str) -> (r: String)
    ensures
        r@ == a@ + b@ + c@,
{
    let mut m: Vec<char> = Vec::new();
    push_str(&mut m, a);
    push_str(&mut m, b);
    push_str(&mut m, c);
    string_of(&m)
}

impl ConvertError {
    pub open spec fn message_spec(&self) -> Seq<char> {
        match self {
            ConvertError::BadPath => "Invalid input path"@,
            ConvertError::UnsupportedType(t) => "Cannot convert "@ + t@ + " to aiff file"@,
            ConvertError::Command(_) => "Unable to execute ffmpeg command"@,
            ConvertError::FFMpeg(m) => "Conversion failed: "@ + m@ + ""@,
        }
    }

    pub fn message(&self) -> (r: String)
        ensures
            r@ == self.message_spec(),
    {
        match self {
            ConvertError::BadPath => string_from("Invalid input path"),
            ConvertError::UnsupportedType(t) => concat("Cannot convert ", t.as_str(), " to aiff file"),
            ConvertError::Command(_) => string_from("Unable to execute ffmpeg command"),
            ConvertError::FFMpeg(m) => concat("Conversion failed: ", m.as_str(), ""),
        }
    }
}

impl ContainerError {
    pub open spec fn message_spec(&self) -> Seq<char> {
        match self {
            ContainerError::BadPath => "Invalid input path"@,
            ContainerError::UnsupportedType(t) => "Cannot import file of type "@ + t@ + ""@,
            ContainerError::ConvertError(e) => e.message_spec(),
        }
    }

    pub fn message(&self) -> (r: String)
        ensures
            r@ == self.message_spec(),
    {
        match self {
            ContainerError::BadPath => string_from("Invalid input path"),
            ContainerError::UnsupportedType(t) => concat("Cannot import file of type ", t.as_str(), ""),
            ContainerError::ConvertError(e) => e.message(),
        }
    }
}

impl MediaHashError {
    pub open spec fn message_spec(&self) -> Seq<char> {
        match self {
            MediaHashError::HashingFailed(m) => m@,
            MediaHashError::WriteError(_) => "Failed to write Media Hash to media file"@,
        }
    }

    pub fn message(&self) -> (r: String)
        ensures
            r@ == self.message_spec(),
    {
        match self {
            MediaHashError::HashingFailed(m) => string_from(m.as_str()),
            MediaHashError::WriteError(_) => string_from("Failed to write Media Hash to media file"),
        }
    }
}

impl ProcessingError for PrepareMediaError {
    open spec fn skips(&self) -> bool {
        false
    }

    open spec fn message_spec(&self) -> Seq<char> {
        match self {
            PrepareMediaError::Container(e) => e.message_spec(),
            PrepareMediaError::MediaHash(e) => e.message_spec(),
            PrepareMediaError::Tag(m) => m@,
        }
    }

    fn causes_skip(&self) -> (r: bool) {
        false
    }

    fn message(&self) -> (r: String) {
        match self {
            PrepareMediaError::Container(e) => e.message(),
            PrepareMediaError::MediaHash(e) => e.message(),
            PrepareMediaError::Tag(m) => string_from(m.as_str()),
        }
    }
}

impl ProcessingError for KeyfinderError {
    open spec fn skips(&self) -> bool {
        false
    }

    open spec fn message_spec(&self) -> Seq<char> {
        match self {
            KeyfinderError::BadPath => "Invalid input path"@,
            KeyfinderError::Failed(m) => m@,
        }
    }

    fn causes_skip(&self) -> (r: bool) {
        false
    }

    fn message(&self) -> (r: String) {
        match self {
            KeyfinderError::BadPath => string_from("Invalid input path"),
            KeyfinderError::Failed(m) => string_from(m.as_str()),
        }
    }
}

impl ProcessingError for BeatportError {
    /// Beatport not being configured, and a tag without a Beatport URL, skip
    /// the stage.
    open spec fn skips(&self) -> bool {
        match self {
            BeatportError::NotConfigured | BeatportError::NoUrl => true,
            _ => false,
        }
    }

    open spec fn message_spec(&self) -> Seq<char> {
        match self {
            BeatportError::NotConfigured => "Beatport not configured"@,
            BeatportError::NoUrl => "No Beatport URL found in tag"@,
            BeatportError::InvalidUrl => "Invalid Beatport URL format"@,
            BeatportError::Api(_) => "Beatport API error"@,
            BeatportError::Io(m) => "IO error: "@ + m@ + ""@,
        }
    }

    fn causes_skip(&self) -> (r: bool) {
        match self {
            BeatportError::NotConfigured | BeatportError::NoUrl => true,
            _ => false,
        }
    }

    fn message(&self) -> (r: String) {
        match self {
            BeatportError::NotConfigured => string_from("Beatport not configured"),
            BeatportError::NoUrl => string_from("No Beatport URL found in tag"),
            BeatportError::InvalidUrl => string_from("Invalid Beatport URL format"),
            BeatportError::Api(_) => string_from("Beatport API error"),
            BeatportError::Io(m) => concat("IO error: ", m.as_str(), ""),
        }
    }
}

impl ProcessingError for LintFixError {
    /// A tag without a revision skips the stage.
    open spec fn skips(&self) -> bool {
        true
    }

    open spec fn message_spec(&self) -> Seq<char> {
        "no prior track revision on tag"@
    }

    fn causes_skip(&self) -> (r: bool) {
        true
    }

    fn message(&self) -> (r: String) {
        string_from("no prior track revision on tag")
    }
}

impl ProcessingError for AiError {
    /// The model not being configured skips the stage.
    open spec fn skips(&self) -> bool {
        self is NotConfigured
    }

    open spec fn message_spec(&self) -> Seq<char> {
        match self {
            AiError::NotConfigured => "AI not configured"@,
            AiError::Failed(m) => m@,
        }
    }

    fn causes_skip(&self) -> (r: bool) {
        match self {
            AiError::NotConfigured => true,
            AiError::Failed(_) => false,
        }
    }

    fn message(&self) -> (r: String) {
        match self {
            AiError::NotConfigured => string_from("AI not configured"),
            AiError::Failed(m) => string_from(m.as_str()),
        }
    }
}

} // verus!
