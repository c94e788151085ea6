//! Deciding what a media file needs before it can be imported, and how a
//! file is converted to AIFF.
use vstd::prelude::*;
use crate::processing::stages::{ContainerError, ConvertError};
use crate::text::{ascii_lower_seq, chars_are, chars_of, lower_chars, string_of};
use crate::track::{path_extension, path_extension_exec};

verus! {

/// What a file's container needs.
#[derive(Clone, Copy, PartialEq, Eq, Debug, Structural)]
pub enum ContainerAction {
    /// MP3 or AIFF: usable as it is.
    Valid,
    /// WAV, FLAC or M4A: to be converted to AIFF.
    ConvertToAiff,
}

/// The extension of a path, in ASCII lower case.
pub open spec fn media_extension_spec(p: Seq<char>) -> Option<Seq<char>> {
    match path_extension(p) {
        Some(e) => Some(ascii_lower_seq(e)),
        None => None,
    }
}

pub open spec fn convertible(e: Seq<char>) -> bool {
    e == "wav"@ || e == "flac"@ || e == "m4a"@
}

/// The extension of a path, in ASCII lower case.
pub fn media_extension(path: &str) -> (r: Option<String>)
    ensures
        crate::track::opt_text(r) == media_extension_spec(path@),
{
    match path_extension_exec(&chars_of(path)) {
        Some(e) => Some(string_of(&lower_chars(&e))),
        None => None,
    }
}

/// What the file at `path` needs before import: MP3 and AIFF files are
/// usable; WAV, FLAC and M4A files are to be converted to AIFF; any other
/// extension is refused, and so is a path without one.
pub fn ensure_media_container(path: &str) -> (r: Result<ContainerAction, ContainerError>)
    ensures
        match media_extension_spec(path@) {
            None => r matches Err(ContainerError::BadPath),
            Some(e) => if e == "mp3"@ || e == "aiff"@ {
                r == Ok::<ContainerAction, ContainerError>(ContainerAction::Valid)
            } else if convertible(e) {
                r == Ok::<ContainerAction, ContainerError>(ContainerAction::ConvertToAiff)
            } else {
                r matches Err(ContainerError::UnsupportedType(t)) && t@ == e
            },
        },
{
    let ext = match media_extension(path) {
        Some(e) => e,
        None => {
            return Err(ContainerError::BadPath);
        },
    };
    let v = chars_of(ext.as_str());
    if chars_are(&v, "mp3") || chars_are(&v, "aiff") {
        Ok(ContainerAction::Valid)
    } else if chars_are(&v, "wav") || chars_are(&v, "flac") || chars_are(&v, "m4a") {
        Ok(ContainerAction::ConvertToAiff)
    } else {
        Err(ContainerError::UnsupportedType(ext))
    }
}

/// The audio codec for converting a file with extension `ext` (in lower
/// case) to AIFF: the audio stream of a WAV, FLAC or M4A file is copied as
/// it is, without transcoding; other extensions cannot be converted.
pub fn conversion_codec(ext: &str) -> (r: Result<&'static str, ConvertError>)
    ensures
        if convertible(ext@) {
            r matches Ok(c) && c@ == "copy"@
        } else {
            r matches Err(ConvertError::UnsupportedType(t)) && t@ == ext@
        },
{
    let v = chars_of(ext);
    if chars_are(&v, "wav") || chars_are(&v, "flac") || chars_are(&v, "m4a") {
        Ok("copy")
    } else {
        Err(ConvertError::UnsupportedType(crate::text::string_from(ext)))
    }
}

} // verus!
