//! Building the work a stage's processor is handed, and knowing which
//! tracks its status reports are about.
use vstd::prelude::*;
use id3::Tag;
use crate::processing::coordinator::{input_available, TrackProcessingState};
use crate::processing::stages::{
    copy_fields, AiInput, BeatportError, BeatportInput, KeyfinderInput,
    PrepareMediaInput, ProcessingStage, StageInput,
};
use crate::track::{Track, TrackFile, TrackView};

verus! {

/// Calls `Clone::clone` on an `id3::Tag`, whose `Clone` is derived: the copy
/// holds the same frames and version as the original.
#[verifier::external_body]
fn clone_tag(tag: &Tag) -> (r: Tag)
    ensures
        r == *tag,
{
    tag.clone()
}

impl StageInput {
    /// The file the input names; the AI input names a file per track.
    pub open spec fn single_path(&self) -> Option<Seq<char>> {
        match self {
            StageInput::PrepareMedia(i) => Some(i.file_path@),
            StageInput::Keyfinder(i) => Some(i.file_path@),
            StageInput::Beatport(i) => Some(i.file_path@),
            StageInput::LintFix(i) => Some(i.file_path@),
            StageInput::Ai(_) => None,
        }
    }

    /// The files whose tracks a status report for this input is about.
    pub open spec fn reported_paths_spec(&self) -> Seq<Seq<char>> {
        match self {
            StageInput::Ai(i) => Seq::new(i.tracks@.len(), |k: int| i.tracks@[k].file.file_path@),
            _ => seq![self.single_path().unwrap()],
        }
    }

    /// The files whose tracks a status report for this input is about: the
    /// one file of a per-track input, every track's file of an AI input.
    pub fn reported_paths(&self) -> (r: Vec<String>)
        ensures
            r@.len() == self.reported_paths_spec().len(),
            forall|k: int| 0 <= k < r@.len() ==> #[trigger] r@[k]@ == self.reported_paths_spec()[k],
    {
        match self {
            StageInput::PrepareMedia(i) => vec![i.file_path.clone()],
            StageInput::Keyfinder(i) => vec![i.file_path.clone()],
            StageInput::Beatport(i) => vec![i.file_path.clone()],
            StageInput::LintFix(i) => vec![i.file_path.clone()],
            StageInput::Ai(i) => {
                let mut r: Vec<String> = Vec::new();
                let mut k: usize = 0;
                while k < i.tracks.len()
                    invariant
                        k <= i.tracks@.len(),
                        r@.len() == k,
                        forall|j: int| 0 <= j < k ==> #[trigger] r@[j]@ == i.tracks@[j].file.file_path@,
                    decreases i.tracks@.len() - k,
                {
                    r.push(i.tracks[k].file.file_path.clone());
                    k = k + 1;
                }
                r
            },
        }
    }
}

/// The input of stage `stage` for a track in state `t`: PrepareMedia and
/// Keyfinder take the track's file, Beatport takes the file and the tag read
/// by PrepareMedia, so there is none before that tag is there; LintFix is
/// not scheduled by the coordinator, and the AI stage takes the whole batch,
/// so neither has a per-track input here.
pub fn create_stage_input(stage: ProcessingStage, t: &TrackProcessingState) -> (r: Option<StageInput>)
    ensures
        r is Some <==> input_available(*t, stage),
        r matches Some(i) ==> i.stage_spec() == stage && i.single_path() == Some(t.file_path@),
        r matches Some(StageInput::Beatport(i)) ==> t.tag == Some(i.tag),
{
    match stage {
        ProcessingStage::PrepareMedia => Some(
            StageInput::PrepareMedia(PrepareMediaInput { file_path: t.file_path.clone() }),
        ),
        ProcessingStage::Keyfinder => Some(
            StageInput::Keyfinder(KeyfinderInput { file_path: t.file_path.clone() }),
        ),
        ProcessingStage::Beatport => match &t.tag {
            Some(tag) => Some(
                StageInput::Beatport(
                    BeatportInput { file_path: t.file_path.clone(), tag: clone_tag(tag) },
                ),
            ),
            None => None,
        },
        ProcessingStage::LintFix | ProcessingStage::Ai => None,
    }
}

/// The tracks among `revisions` that have one, in order.
pub open spec fn present_tracks(revisions: Seq<Option<Track>>) -> Seq<TrackView>
    decreases revisions.len(),
{
    if revisions.len() == 0 {
        Seq::empty()
    } else {
        present_tracks(revisions.drop_last()) + match revisions.last() {
            Some(t) => seq![t@],
            None => Seq::<TrackView>::empty(),
        }
    }
}

/// The views of `tracks`, in order.
pub open spec fn track_views(tracks: Seq<Track>) -> Seq<TrackView> {
    tracks.map_values(|t: Track| t@)
}

/// A copy of a track.
pub fn copy_track(t: &Track) -> (r: Track)
    ensures
        r@ == t@,
{
    Track {
        file: TrackFile { file_path: t.file.file_path.clone(), mtime: t.file.mtime },
        fields: copy_fields(&t.fields),
    }
}

/// The AI stage's input for a batch: every track that has a last revision,
/// in the batch's order, with that revision's fields; no input at all when
/// no track has one. `revisions` holds, per track, the track with the
/// fields of its last revision, or `None` where there is no revision.
pub fn ai_batch_input(revisions: &Vec<Option<Track>>) -> (r: Option<AiInput>)
    ensures
        match r {
            None => present_tracks(revisions@).len() == 0,
            Some(i) => track_views(i.tracks@) == present_tracks(revisions@) && i.tracks@.len() > 0,
        },
{
    let mut tracks: Vec<Track> = Vec::new();
    let ghost all = revisions@;
    let n = revisions.len();
    let mut k: usize = 0;
    proof {
        assert(all.subrange(0, 0) =~= Seq::<Option<Track>>::empty());
        assert(track_views(tracks@) =~= Seq::<TrackView>::empty());
    }
    while k < n
        invariant
            n == all.len(),
            k <= n,
            revisions@ == all,
            track_views(tracks@) == present_tracks(all.subrange(0, k as int)),
        decreases n - k,
    {
        proof {
            assert(all.subrange(0, k + 1).drop_last() =~= all.subrange(0, k as int));
        }
        let ghost before = tracks@;
        match &revisions[k] {
            Some(t) => {
                let c = copy_track(t);
                tracks.push(c);
                proof {
                    assert(track_views(tracks@) =~= track_views(before) + seq![t@]);
                }
            },
            None => {
                proof {
                    assert(track_views(tracks@) =~= track_views(before) + Seq::<TrackView>::empty());
                }
            },
        }
        k = k + 1;
    }
    proof {
        assert(all.subrange(0, n as int) =~= all);
    }
    if tracks.len() == 0 {
        proof {
            assert(track_views(tracks@).len() == 0);
        }
        None
    } else {
        Some(AiInput { tracks })
    }
}

/// What the Beatport stage looks up for a track: nothing when Beatport is
/// not configured, or the tag holds no Beatport URL, or no track number can
/// be read from that URL; the track number otherwise. `url` is the Beatport
/// URL found in the tag, `track_id` the number read from it.
pub fn beatport_track_id(configured: bool, url: Option<String>, track_id: Option<u64>) -> (r: Result<
    u64,
    BeatportError,
>)
    ensures
        !configured ==> r matches Err(BeatportError::NotConfigured),
        configured && url is None ==> r matches Err(BeatportError::NoUrl),
        configured && url is Some && track_id is None ==> r matches Err(BeatportError::InvalidUrl),
        configured && url is Some && track_id is Some ==> r == Ok::<u64, BeatportError>(
            track_id.unwrap(),
        ),
{
    if !configured {
        return Err(BeatportError::NotConfigured);
    }
    if url.is_none() {
        return Err(BeatportError::NoUrl);
    }
    match track_id {
        Some(id) => Ok(id),
        None => Err(BeatportError::InvalidUrl),
    }
}

} // verus!
