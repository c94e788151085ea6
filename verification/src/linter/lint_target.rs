//! What a rule is run against.
use vstd::prelude::*;
use id3::Tag;
use crate::track::{Track, TrackView};

verus! {

/// `id3::Tag`, the raw tag a track was read from; opaque here.
#[verifier::external_type_specification]
#[verifier::external_body]
pub struct ExTag(Tag);

/// The thing a rule is run against. Always carries a `Track`, the parsed
/// view used by most rules. May also carry the raw tag the track was read
/// from, for rules that need frame-level state that does not survive the
/// conversion to `TrackFields`.
pub struct LintTarget {
    pub track: Track,
    pub id3: Option<Tag>,
}

pub struct TargetView {
    pub track: TrackView,
    pub id3: Option<Tag>,
}

impl View for LintTarget {
    type V = TargetView;

    open spec fn view(&self) -> TargetView {
        TargetView { track: self.track@, id3: self.id3 }
    }
}

impl LintTarget {
    /// A target made of a track alone, with no raw tag.
    pub fn from_track(track: Track) -> (r: LintTarget)
        ensures
            r@ == (TargetView { track: track@, id3: None }),
            r.track == track,
            r.id3 is None,
    {
        LintTarget { track, id3: None }
    }
}

impl From<Track> for LintTarget {
    fn from(track: Track) -> (r: LintTarget) {
        LintTarget::from_track(track)
    }
}

impl vstd::std_specs::convert::FromSpecImpl<Track> for LintTarget {
    open spec fn obeys_from_spec() -> bool {
        true
    }

    open spec fn from_spec(track: Track) -> LintTarget {
        LintTarget { track, id3: None }
    }
}

} // verus!
