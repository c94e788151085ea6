//! Coordinates batches of tracks through the stages of the pipeline.
//!
//! Each track goes through the stages with these dependencies:
//!
//! ```text
//! PrepareMedia
//!   -> Keyfinder and Beatport (side by side)
//!     -> AI (for the batch as a whole, once every track that has not
//!        failed is through Beatport)
//! ```
//!
//! The LintFix stage is not scheduled here: the coordinator never sends its
//! input, and a batch is complete without it.
//!
//! This module holds the decisions: which stage inputs to send next, how a
//! status report changes a batch, when a batch is complete. Whoever runs the
//! processors sends the inputs, reads the reports and hands them here.
use vstd::prelude::*;
use id3::Tag;
use crate::processing::stages::{ProcessingStage, StageMode, StatusKind};

verus! {

/// Identifies a batch.
#[derive(Clone, Copy, PartialEq, Eq, Debug, Hash, Structural)]
pub struct BatchId(pub u128);

/// Calls `uuid::Uuid::new_v4` and gives the identifier as a number. The
/// identifier is random, so nothing is promised of it.
#[verifier::external_body]
fn random_identifier() -> u128 {
    uuid::Uuid::new_v4().as_u128()
}

impl BatchId {
    /// A fresh, random batch identifier.
    pub fn new() -> BatchId {
        BatchId(random_identifier())
    }
}

/// One value per stage.
#[derive(Clone, Copy, Debug)]
pub struct PerStage<T> {
    pub prepare_media: T,
    pub keyfinder: T,
    pub beatport: T,
    pub lint_fix: T,
    pub ai: T,
}

impl<T: Copy> PerStage<T> {
    pub open spec fn at(self, s: ProcessingStage) -> T {
        match s {
            ProcessingStage::PrepareMedia => self.prepare_media,
            ProcessingStage::Keyfinder => self.keyfinder,
            ProcessingStage::Beatport => self.beatport,
            ProcessingStage::LintFix => self.lint_fix,
            ProcessingStage::Ai => self.ai,
        }
    }

    /// The same value for every stage.
    pub fn uniform(v: T) -> (r: Self)
        ensures
            forall|s: ProcessingStage| #[trigger] r.at(s) == v,
    {
        PerStage { prepare_media: v, keyfinder: v, beatport: v, lint_fix: v, ai: v }
    }

    pub fn get(&self, s: ProcessingStage) -> (r: T)
        ensures
            r == self.at(s),
    {
        match s {
            ProcessingStage::PrepareMedia => self.prepare_media,
            ProcessingStage::Keyfinder => self.keyfinder,
            ProcessingStage::Beatport => self.beatport,
            ProcessingStage::LintFix => self.lint_fix,
            ProcessingStage::Ai => self.ai,
        }
    }

    pub fn set(&mut self, s: ProcessingStage, v: T)
        ensures
            forall|t: ProcessingStage|
                #[trigger] final(self).at(t) == if t == s {
                    v
                } else {
                    old(self).at(t)
                },
    {
        match s {
            ProcessingStage::PrepareMedia => self.prepare_media = v,
            ProcessingStage::Keyfinder => self.keyfinder = v,
            ProcessingStage::Beatport => self.beatport = v,
            ProcessingStage::LintFix => self.lint_fix = v,
            ProcessingStage::Ai => self.ai = v,
        }
    }
}

/// The processing state of one track.
pub struct TrackProcessingState {
    /// Where the track's file is; PrepareMedia may move it.
    pub file_path: String,
    /// The stages dispatched for this track.
    pub stage_dispatched: PerStage<bool>,
    /// The last status of each stage for this track.
    pub stage_status: PerStage<Option<StatusKind>>,
    /// The track's tag, there once PrepareMedia has completed.
    pub tag: Option<Tag>,
}

/// Stage `s` of `t` completed (either way) or was skipped.
pub open spec fn stage_done(t: TrackProcessingState, s: ProcessingStage) -> bool {
    match t.stage_status.at(s) {
        Some(k) => k.done(),
        None => false,
    }
}

/// The stages that `s` waits for are done for `t`.
pub open spec fn prerequisites_done(t: TrackProcessingState, s: ProcessingStage) -> bool {
    match s {
        ProcessingStage::PrepareMedia => true,
        ProcessingStage::Keyfinder => stage_done(t, ProcessingStage::PrepareMedia),
        ProcessingStage::Beatport => stage_done(t, ProcessingStage::PrepareMedia),
        ProcessingStage::LintFix => stage_done(t, ProcessingStage::Keyfinder) && stage_done(
            t,
            ProcessingStage::Beatport,
        ),
        ProcessingStage::Ai => stage_done(t, ProcessingStage::Beatport),
    }
}

/// `s` may run for `t`: its prerequisites are done and it was not dispatched.
pub open spec fn can_run(t: TrackProcessingState, s: ProcessingStage) -> bool {
    prerequisites_done(t, s) && !t.stage_dispatched.at(s)
}

/// Some stage of `t` completed with an error.
pub open spec fn failed(t: TrackProcessingState) -> bool {
    exists|s: ProcessingStage| #[trigger] t.stage_status.at(s) == Some(StatusKind::Failed)
}

/// The input of stage `s` can be built for `t`: Beatport needs the tag; the
/// coordinator builds no LintFix input; AI inputs are built for the batch,
/// not per track.
pub open spec fn input_available(t: TrackProcessingState, s: ProcessingStage) -> bool {
    match s {
        ProcessingStage::PrepareMedia | ProcessingStage::Keyfinder => true,
        ProcessingStage::Beatport => t.tag is Some,
        ProcessingStage::LintFix | ProcessingStage::Ai => false,
    }
}

/// Stage `s` is to be dispatched now for `t`.
pub open spec fn due(t: TrackProcessingState, s: ProcessingStage) -> bool {
    can_run(t, s) && input_available(t, s)
}

impl TrackProcessingState {
    /// A track at `file_path` that nothing has happened to yet.
    pub fn new(file_path: String) -> (r: Self)
        ensures
            r.file_path == file_path,
            r.tag is None,
            forall|s: ProcessingStage| !(#[trigger] r.stage_dispatched.at(s)),
            forall|s: ProcessingStage| (#[trigger] r.stage_status.at(s)) is None,
    {
        TrackProcessingState {
            file_path,
            stage_dispatched: PerStage::uniform(false),
            stage_status: PerStage::uniform(None),
            tag: None,
        }
    }

    pub fn get_stage_status(&self, stage: ProcessingStage) -> (r: Option<StatusKind>)
        ensures
            r == self.stage_status.at(stage),
    {
        self.stage_status.get(stage)
    }

    pub fn set_stage_status(&mut self, stage: ProcessingStage, kind: StatusKind)
        ensures
            final(self).file_path == old(self).file_path,
            final(self).tag == old(self).tag,
            final(self).stage_dispatched == old(self).stage_dispatched,
            forall|s: ProcessingStage|
                #[trigger] final(self).stage_status.at(s) == if s == stage {
                    Some(kind)
                } else {
                    old(self).stage_status.at(s)
                },
    {
        self.stage_status.set(stage, Some(kind))
    }

    pub fn is_stage_done(&self, stage: ProcessingStage) -> (r: bool)
        ensures
            r == stage_done(*self, stage),
    {
        match self.stage_status.get(stage) {
            Some(k) => k.is_done(),
            None => false,
        }
    }

    /// Some stage completed with an error.
    pub fn has_failed_stage(&self) -> (r: bool)
        ensures
            r == failed(*self),
    {
        let st = &self.stage_status;
        let r = st.prepare_media == Some(StatusKind::Failed) || st.keyfinder == Some(
            StatusKind::Failed,
        ) || st.beatport == Some(StatusKind::Failed) || st.lint_fix == Some(StatusKind::Failed)
            || st.ai == Some(StatusKind::Failed);
        proof {
            if r {
                if st.prepare_media == Some(StatusKind::Failed) {
                    assert(self.stage_status.at(ProcessingStage::PrepareMedia) == Some(StatusKind::Failed));
                } else if st.keyfinder == Some(StatusKind::Failed) {
                    assert(self.stage_status.at(ProcessingStage::Keyfinder) == Some(StatusKind::Failed));
                } else if st.beatport == Some(StatusKind::Failed) {
                    assert(self.stage_status.at(ProcessingStage::Beatport) == Some(StatusKind::Failed));
                } else if st.lint_fix == Some(StatusKind::Failed) {
                    assert(self.stage_status.at(ProcessingStage::LintFix) == Some(StatusKind::Failed));
                } else {
                    assert(self.stage_status.at(ProcessingStage::Ai) == Some(StatusKind::Failed));
                }
            } else {
                assert forall|s: ProcessingStage| #[trigger] self.stage_status.at(s) != Some(
                    StatusKind::Failed,
                ) by {
                    match s {
                        ProcessingStage::PrepareMedia => {},
                        ProcessingStage::Keyfinder => {},
                        ProcessingStage::Beatport => {},
                        ProcessingStage::LintFix => {},
                        ProcessingStage::Ai => {},
                    }
                }
            }
        }
        r
    }

    /// The prerequisites of `stage` are done and it was not dispatched yet.
    pub fn can_run_stage(&self, stage: ProcessingStage) -> (r: bool)
        ensures
            r == can_run(*self, stage),
    {
        let ready = match stage {
            ProcessingStage::PrepareMedia => true,
            ProcessingStage::Keyfinder => self.is_stage_done(ProcessingStage::PrepareMedia),
            ProcessingStage::Beatport => self.is_stage_done(ProcessingStage::PrepareMedia),
            ProcessingStage::LintFix => self.is_stage_done(ProcessingStage::Keyfinder)
                && self.is_stage_done(ProcessingStage::Beatport),
            ProcessingStage::Ai => self.is_stage_done(ProcessingStage::Beatport),
        };
        ready && !self.stage_dispatched.get(stage)
    }

    /// Whether the input of `stage` can be built for this track.
    pub fn has_stage_input(&self, stage: ProcessingStage) -> (r: bool)
        ensures
            r == input_available(*self, stage),
    {
        match stage {
            ProcessingStage::PrepareMedia | ProcessingStage::Keyfinder => true,
            ProcessingStage::Beatport => self.tag.is_some(),
            ProcessingStage::LintFix | ProcessingStage::Ai => false,
        }
    }
}

/// A track of a batch, under the path it was added with.
pub struct BatchTrack {
    pub key: String,
    pub state: TrackProcessingState,
}

/// Where a batch is in its lifecycle.
#[derive(Clone, Copy, PartialEq, Eq, Debug, Structural)]
pub enum BatchState {
    Processing,
    Complete,
}

/// A batch of tracks processed together.
pub struct ProcessingBatch {
    pub id: BatchId,
    /// Stages dispatched for the batch as a whole.
    pub stage_dispatched: PerStage<bool>,
    /// The tracks, each under a distinct key.
    pub tracks: Vec<BatchTrack>,
    pub state: BatchState,
}

/// The stages the coordinator schedules: all but LintFix.
pub open spec fn scheduled(s: ProcessingStage) -> bool {
    s != ProcessingStage::LintFix
}

/// Every scheduled stage of every track is done.
pub open spec fn tracks_complete(tracks: Seq<BatchTrack>) -> bool {
    forall|i: int, s: ProcessingStage|
        0 <= i < tracks.len() && scheduled(s) ==> #[trigger] stage_done(tracks[i].state, s)
}

/// Every track that has not failed may run the AI stage.
pub open spec fn tracks_ready_for_ai(tracks: Seq<BatchTrack>) -> bool {
    forall|i: int|
        0 <= i < tracks.len() && !failed(#[trigger] tracks[i].state) ==> can_run(
            tracks[i].state,
            ProcessingStage::Ai,
        )
}

/// The batch's AI stage is to be dispatched now.
pub open spec fn ai_due(tracks: Seq<BatchTrack>, ai_dispatched: bool) -> bool {
    !ai_dispatched && tracks_ready_for_ai(tracks)
}

/// A stage input to send: a stage of one track, or the AI stage of the batch.
#[derive(Clone, Copy, PartialEq, Eq, Debug, Structural)]
pub struct Dispatch {
    pub stage: ProcessingStage,
    /// The track's position in the batch; `None` for the AI stage.
    pub track: Option<usize>,
}

/// The dispatches of stage `s` due among the first `n` tracks, in track order.
pub open spec fn stage_dispatches(tracks: Seq<BatchTrack>, s: ProcessingStage, n: int) -> Seq<
    Dispatch,
>
    decreases n,
{
    if n <= 0 {
        Seq::empty()
    } else {
        stage_dispatches(tracks, s, n - 1) + if due(tracks[n - 1].state, s) {
            seq![Dispatch { stage: s, track: Some((n - 1) as usize) }]
        } else {
            Seq::<Dispatch>::empty()
        }
    }
}

/// What `dispatch_next_stages` sends: the per-track stages in pipeline
/// order, each over the tracks in order, then the batch's AI stage.
pub open spec fn planned_dispatches(tracks: Seq<BatchTrack>, ai_dispatched: bool) -> Seq<Dispatch> {
    let n = tracks.len() as int;
    stage_dispatches(tracks, ProcessingStage::PrepareMedia, n) + stage_dispatches(
        tracks,
        ProcessingStage::Keyfinder,
        n,
    ) + stage_dispatches(tracks, ProcessingStage::Beatport, n) + stage_dispatches(
        tracks,
        ProcessingStage::LintFix,
        n,
    ) + if ai_due(tracks, ai_dispatched) {
        seq![Dispatch { stage: ProcessingStage::Ai, track: None }]
    } else {
        Seq::<Dispatch>::empty()
    }
}

/// `after` is `before` with the dispatched per-track stages marked: every
/// track keeps its key, path, tag and statuses, and a per-track stage is
/// marked where it was due.
pub open spec fn marked_tracks(before: Seq<BatchTrack>, after: Seq<BatchTrack>) -> bool {
    &&& after.len() == before.len()
    &&& forall|i: int|
        0 <= i < before.len() ==> {
            &&& (#[trigger] after[i]).key == before[i].key
            &&& after[i].state.file_path == before[i].state.file_path
            &&& after[i].state.tag == before[i].state.tag
            &&& after[i].state.stage_status == before[i].state.stage_status
            &&& forall|s: ProcessingStage|
                #[trigger] after[i].state.stage_dispatched.at(s) == (
                before[i].state.stage_dispatched.at(s) || (s.mode_spec()
                == StageMode::IndividualTrack && due(before[i].state, s)))
        }
}

/// `p` with the value for `s` replaced.
pub open spec fn with_at<T>(p: PerStage<T>, s: ProcessingStage, v: T) -> PerStage<T> {
    match s {
        ProcessingStage::PrepareMedia => PerStage { prepare_media: v, ..p },
        ProcessingStage::Keyfinder => PerStage { keyfinder: v, ..p },
        ProcessingStage::Beatport => PerStage { beatport: v, ..p },
        ProcessingStage::LintFix => PerStage { lint_fix: v, ..p },
        ProcessingStage::Ai => PerStage { ai: v, ..p },
    }
}

/// Where PrepareMedia left a file, and the tag read from it.
pub struct PreparedMedia {
    pub file_path: String,
    pub tag: Tag,
}

/// A status report for one stage of one track.
pub struct TrackStatusUpdate {
    pub batch_id: BatchId,
    /// The key of the track in its batch.
    pub key: String,
    pub stage: ProcessingStage,
    pub kind: StatusKind,
    /// For a successful PrepareMedia: where the file now is, and its tag.
    pub prepared: Option<PreparedMedia>,
}

/// The report moves the track: a successful PrepareMedia that says where.
pub open spec fn moves_track(u: TrackStatusUpdate) -> bool {
    u.stage == ProcessingStage::PrepareMedia && u.kind == StatusKind::Succeeded && u.prepared is Some
}

/// The track's state once the report is recorded: its status for the stage
/// is the report's; a successful PrepareMedia also sets its path and tag.
pub open spec fn recorded_state(s: TrackProcessingState, u: TrackStatusUpdate) -> TrackProcessingState {
    TrackProcessingState {
        file_path: if moves_track(u) {
            u.prepared.unwrap().file_path
        } else {
            s.file_path
        },
        stage_dispatched: s.stage_dispatched,
        stage_status: with_at(s.stage_status, u.stage, Some(u.kind)),
        tag: if moves_track(u) {
            Some(u.prepared.unwrap().tag)
        } else {
            s.tag
        },
    }
}

/// A report moves the pipeline on when the stage succeeded or was skipped.
pub open spec fn moves_on(k: StatusKind) -> bool {
    k == StatusKind::Succeeded || k == StatusKind::Skipped
}

/// The position of the first batch with `id` at or after `i`, or -1.
pub open spec fn find_batch_from(bs: Seq<ProcessingBatch>, id: BatchId, i: int) -> int
    decreases bs.len() - i,
{
    if i < 0 || i >= bs.len() {
        -1
    } else if bs[i].id == id {
        i
    } else {
        find_batch_from(bs, id, i + 1)
    }
}

/// The position of the first batch with `id`, or -1.
pub open spec fn find_batch(bs: Seq<ProcessingBatch>, id: BatchId) -> int {
    find_batch_from(bs, id, 0)
}

/// The position of the first track with `key` at or after `i`, or -1.
pub open spec fn find_track_from(tracks: Seq<BatchTrack>, key: Seq<char>, i: int) -> int
    decreases tracks.len() - i,
{
    if i < 0 || i >= tracks.len() {
        -1
    } else if tracks[i].key@ == key {
        i
    } else {
        find_track_from(tracks, key, i + 1)
    }
}

/// The position of the first track with `key`, or -1.
pub open spec fn find_track(tracks: Seq<BatchTrack>, key: Seq<char>) -> int {
    find_track_from(tracks, key, 0)
}

/// The keys of `files` in order, each kept at its first occurrence.
pub open spec fn unique_keys(files: Seq<String>) -> Seq<Seq<char>>
    decreases files.len(),
{
    if files.len() == 0 {
        Seq::empty()
    } else {
        let d = unique_keys(files.drop_last());
        if d.contains(files.last()@) {
            d
        } else {
            d.push(files.last()@)
        }
    }
}

/// A track that nothing has happened to yet.
pub open spec fn fresh_track(t: BatchTrack) -> bool {
    &&& t.state.file_path@ == t.key@
    &&& t.state.tag is None
    &&& forall|s: ProcessingStage| !(#[trigger] t.state.stage_dispatched.at(s))
    &&& forall|s: ProcessingStage| (#[trigger] t.state.stage_status.at(s)) is None
}

proof fn lemma_due_same(a: TrackProcessingState, b: TrackProcessingState, s: ProcessingStage)
    requires
        a.stage_status == b.stage_status,
        a.tag == b.tag,
        a.stage_dispatched.at(s) == b.stage_dispatched.at(s),
    ensures
        due(a, s) == due(b, s),
        can_run(a, s) == can_run(b, s),
        failed(a) == failed(b),
{
}

proof fn lemma_stage_dispatches_same(
    t1: Seq<BatchTrack>,
    t2: Seq<BatchTrack>,
    s: ProcessingStage,
    n: int,
)
    requires
        0 <= n <= t1.len(),
        t1.len() == t2.len(),
        forall|i: int| 0 <= i < n ==> due(#[trigger] t1[i].state, s) == due(t2[i].state, s),
    ensures
        stage_dispatches(t1, s, n) == stage_dispatches(t2, s, n),
    decreases n,
{
    if n > 0 {
        lemma_stage_dispatches_same(t1, t2, s, n - 1);
        assert(due(t1[n - 1].state, s) == due(t2[n - 1].state, s));
    }
}

proof fn lemma_stage_dispatches_none(t: Seq<BatchTrack>, s: ProcessingStage, n: int)
    requires
        0 <= n <= t.len(),
        forall|i: int| 0 <= i < n ==> !due(#[trigger] t[i].state, s),
    ensures
        stage_dispatches(t, s, n).len() == 0,
    decreases n,
{
    if n > 0 {
        lemma_stage_dispatches_none(t, s, n - 1);
        assert(!due(t[n - 1].state, s));
    }
}

/// Marks the due tracks of per-track stage `s` as dispatched, and appends
/// their dispatches to `out`, in track order.
fn dispatch_stage(tracks: &mut Vec<BatchTrack>, s: ProcessingStage, out: &mut Vec<Dispatch>)
    requires
        s.mode_spec() == StageMode::IndividualTrack,
    ensures
        final(out)@ == old(out)@ + stage_dispatches(old(tracks)@, s, old(tracks)@.len() as int),
        final(tracks)@.len() == old(tracks)@.len(),
        forall|i: int|
            0 <= i < old(tracks)@.len() ==> {
                &&& (#[trigger] final(tracks)@[i]).key == old(tracks)@[i].key
                &&& final(tracks)@[i].state.file_path == old(tracks)@[i].state.file_path
                &&& final(tracks)@[i].state.tag == old(tracks)@[i].state.tag
                &&& final(tracks)@[i].state.stage_status == old(tracks)@[i].state.stage_status
                &&& forall|t: ProcessingStage|
                    #[trigger] final(tracks)@[i].state.stage_dispatched.at(t) == (old(
                        tracks,
                    )@[i].state.stage_dispatched.at(t) || (t == s && due(old(tracks)@[i].state, s)))
            },
{
    let ghost before = tracks@;
    let mut i: usize = 0;
    while i < tracks.len()
        invariant
            before == old(tracks)@,
            tracks@.len() == before.len(),
            i <= tracks@.len(),
            out@ == old(out)@ + stage_dispatches(before, s, i as int),
            forall|j: int| i <= j < before.len() ==> #[trigger] tracks@[j] == before[j],
            forall|j: int|
                0 <= j < i ==> {
                    &&& (#[trigger] tracks@[j]).key == before[j].key
                    &&& tracks@[j].state.file_path == before[j].state.file_path
                    &&& tracks@[j].state.tag == before[j].state.tag
                    &&& tracks@[j].state.stage_status == before[j].state.stage_status
                    &&& forall|t: ProcessingStage|
                        #[trigger] tracks@[j].state.stage_dispatched.at(t) == (
                        before[j].state.stage_dispatched.at(t) || (t == s && due(before[j].state, s)))
                },
        decreases tracks.len() - i,
    {
        assert(tracks@[i as int] == before[i as int]);
        if tracks[i].state.can_run_stage(s) && tracks[i].state.has_stage_input(s) {
            out.push(Dispatch { stage: s, track: Some(i) });
            tracks[i].state.stage_dispatched.set(s, true);
        }
        i = i + 1;
    }
}

/// Whether every track that has not failed may run the AI stage.
pub fn all_tracks_ready_for_ai(tracks: &Vec<BatchTrack>) -> (r: bool)
    ensures
        r == tracks_ready_for_ai(tracks@),
{
    let mut i: usize = 0;
    while i < tracks.len()
        invariant
            i <= tracks.len(),
            forall|j: int|
                0 <= j < i && !failed(#[trigger] tracks@[j].state) ==> can_run(
                    tracks@[j].state,
                    ProcessingStage::Ai,
                ),
        decreases tracks.len() - i,
    {
        if !tracks[i].state.has_failed_stage() && !tracks[i].state.can_run_stage(ProcessingStage::Ai) {
            return false;
        }
        i = i + 1;
    }
    true
}

/// Sends what is due next for `batch`: each per-track stage whose
/// prerequisites are done, that was not dispatched yet and whose input can be
/// built; then the AI stage for the whole batch, once every track that has
/// not failed is ready for it. What is sent is marked as dispatched, so that
/// nothing is sent twice.
pub fn dispatch_next_stages(batch: &mut ProcessingBatch) -> (r: Vec<Dispatch>)
    ensures
        r@ == planned_dispatches(
            old(batch).tracks@,
            old(batch).stage_dispatched.at(ProcessingStage::Ai),
        ),
        marked_tracks(old(batch).tracks@, final(batch).tracks@),
        final(batch).id == old(batch).id,
        final(batch).state == old(batch).state,
        forall|s: ProcessingStage|
            #[trigger] final(batch).stage_dispatched.at(s) == (old(batch).stage_dispatched.at(s) || (
            s == ProcessingStage::Ai && ai_due(
                old(batch).tracks@,
                old(batch).stage_dispatched.at(ProcessingStage::Ai),
            ))),
        planned_dispatches(
            final(batch).tracks@,
            final(batch).stage_dispatched.at(ProcessingStage::Ai),
        ).len() == 0,
{
    let ghost t0 = batch.tracks@;
    let ghost ai0 = batch.stage_dispatched.at(ProcessingStage::Ai);
    let ghost n = t0.len() as int;
    let mut out: Vec<Dispatch> = Vec::new();
    dispatch_stage(&mut batch.tracks, ProcessingStage::PrepareMedia, &mut out);
    let ghost t1 = batch.tracks@;
    dispatch_stage(&mut batch.tracks, ProcessingStage::Keyfinder, &mut out);
    let ghost t2 = batch.tracks@;
    dispatch_stage(&mut batch.tracks, ProcessingStage::Beatport, &mut out);
    let ghost t3 = batch.tracks@;
    dispatch_stage(&mut batch.tracks, ProcessingStage::LintFix, &mut out);
    let ghost t4 = batch.tracks@;
    proof {
        assert forall|i: int| 0 <= i < n implies due(#[trigger] t1[i].state, ProcessingStage::Keyfinder) == due(
            t0[i].state,
            ProcessingStage::Keyfinder,
        ) by {
            lemma_due_same(t1[i].state, t0[i].state, ProcessingStage::Keyfinder);
        }
        lemma_stage_dispatches_same(t1, t0, ProcessingStage::Keyfinder, n);
        assert forall|i: int| 0 <= i < n implies due(#[trigger] t2[i].state, ProcessingStage::Beatport) == due(
            t0[i].state,
            ProcessingStage::Beatport,
        ) by {
            lemma_due_same(t2[i].state, t1[i].state, ProcessingStage::Beatport);
            lemma_due_same(t1[i].state, t0[i].state, ProcessingStage::Beatport);
        }
        lemma_stage_dispatches_same(t2, t0, ProcessingStage::Beatport, n);
        assert forall|i: int| 0 <= i < n implies due(#[trigger] t3[i].state, ProcessingStage::LintFix) == due(
            t0[i].state,
            ProcessingStage::LintFix,
        ) by {
            lemma_due_same(t3[i].state, t2[i].state, ProcessingStage::LintFix);
            lemma_due_same(t2[i].state, t1[i].state, ProcessingStage::LintFix);
            lemma_due_same(t1[i].state, t0[i].state, ProcessingStage::LintFix);
        }
        lemma_stage_dispatches_same(t3, t0, ProcessingStage::LintFix, n);
        assert forall|i: int| 0 <= i < n implies {
            &&& failed(#[trigger] t4[i].state) == failed(t0[i].state)
            &&& can_run(t4[i].state, ProcessingStage::Ai) == can_run(t0[i].state, ProcessingStage::Ai)
        } by {
            lemma_due_same(t4[i].state, t0[i].state, ProcessingStage::Ai);
        }
        assert(tracks_ready_for_ai(t4) == tracks_ready_for_ai(t0)) by {
            if tracks_ready_for_ai(t0) {
                assert forall|i: int| 0 <= i < n && !failed(#[trigger] t4[i].state) implies can_run(
                    t4[i].state,
                    ProcessingStage::Ai,
                ) by {
                    assert(failed(t4[i].state) == failed(t0[i].state));
                }
            }
            if tracks_ready_for_ai(t4) {
                assert forall|i: int| 0 <= i < n && !failed(#[trigger] t0[i].state) implies can_run(
                    t0[i].state,
                    ProcessingStage::Ai,
                ) by {
                    assert(failed(t4[i].state) == failed(t0[i].state));
                }
            }
        }
        assert forall|i: int| 0 <= i < n implies {
            &&& (#[trigger] t4[i]).key == t0[i].key
            &&& t4[i].state.file_path == t0[i].state.file_path
            &&& t4[i].state.tag == t0[i].state.tag
            &&& t4[i].state.stage_status == t0[i].state.stage_status
            &&& forall|s: ProcessingStage|
                #[trigger] t4[i].state.stage_dispatched.at(s) == (t0[i].state.stage_dispatched.at(s)
                    || (s.mode_spec() == StageMode::IndividualTrack && due(t0[i].state, s)))
        } by {
            assert(due(t1[i].state, ProcessingStage::Keyfinder) == due(t0[i].state, ProcessingStage::Keyfinder));
            assert(due(t2[i].state, ProcessingStage::Beatport) == due(t0[i].state, ProcessingStage::Beatport));
            assert(due(t3[i].state, ProcessingStage::LintFix) == due(t0[i].state, ProcessingStage::LintFix));
            assert forall|s: ProcessingStage|
                #[trigger] t4[i].state.stage_dispatched.at(s) == (t0[i].state.stage_dispatched.at(s)
                    || (s.mode_spec() == StageMode::IndividualTrack && due(t0[i].state, s))) by {
                assert(t1[i].state.stage_dispatched.at(s) == (t0[i].state.stage_dispatched.at(s) || (s == ProcessingStage::PrepareMedia && due(t0[i].state, ProcessingStage::PrepareMedia))));
                assert(t2[i].state.stage_dispatched.at(s) == (t1[i].state.stage_dispatched.at(s) || (s == ProcessingStage::Keyfinder && due(t1[i].state, ProcessingStage::Keyfinder))));
                assert(t3[i].state.stage_dispatched.at(s) == (t2[i].state.stage_dispatched.at(s) || (s == ProcessingStage::Beatport && due(t2[i].state, ProcessingStage::Beatport))));
                assert(t4[i].state.stage_dispatched.at(s) == (t3[i].state.stage_dispatched.at(s) || (s == ProcessingStage::LintFix && due(t3[i].state, ProcessingStage::LintFix))));
            }
        }
    }
    let ghost marked_ai = ai_due(t0, ai0);
    if !batch.stage_dispatched.get(ProcessingStage::Ai) && all_tracks_ready_for_ai(&batch.tracks) {
        out.push(Dispatch { stage: ProcessingStage::Ai, track: None });
        batch.stage_dispatched.set(ProcessingStage::Ai, true);
    }
    proof {
        let t = batch.tracks@;
        let individual = seq![
            ProcessingStage::PrepareMedia,
            ProcessingStage::Keyfinder,
            ProcessingStage::Beatport,
            ProcessingStage::LintFix,
        ];
        assert forall|k: int| 0 <= k < 4 implies stage_dispatches(t, #[trigger] individual[k], n).len() == 0 by {
            let s = individual[k];
            assert forall|i: int| 0 <= i < n implies !due(#[trigger] t[i].state, s) by {
                if !due(t0[i].state, s) {
                    lemma_due_same(t[i].state, t0[i].state, s);
                }
            }
            lemma_stage_dispatches_none(t, s, n);
        }
        assert(stage_dispatches(t, individual[0], n).len() == 0);
        assert(stage_dispatches(t, individual[1], n).len() == 0);
        assert(stage_dispatches(t, individual[2], n).len() == 0);
        assert(stage_dispatches(t, individual[3], n).len() == 0);
    }
    out
}

pub proof fn lemma_find_track_from(tracks: Seq<BatchTrack>, key: Seq<char>, i: int)
    requires
        0 <= i <= tracks.len(),
    ensures
        find_track_from(tracks, key, i) == -1 ==> forall|j: int|
            i <= j < tracks.len() ==> (#[trigger] tracks[j]).key@ != key,
        find_track_from(tracks, key, i) != -1 ==> {
            let k = find_track_from(tracks, key, i);
            &&& i <= k < tracks.len()
            &&& tracks[k].key@ == key
        },
    decreases tracks.len() - i,
{
    if i < tracks.len() && tracks[i].key@ != key {
        lemma_find_track_from(tracks, key, i + 1);
    }
}

pub proof fn lemma_find_batch_from(bs: Seq<ProcessingBatch>, id: BatchId, i: int)
    requires
        0 <= i <= bs.len(),
    ensures
        find_batch_from(bs, id, i) == -1 ==> forall|j: int| i <= j < bs.len() ==> (#[trigger] bs[j]).id != id,
        find_batch_from(bs, id, i) != -1 ==> {
            let k = find_batch_from(bs, id, i);
            &&& i <= k < bs.len()
            &&& bs[k].id == id
        },
    decreases bs.len() - i,
{
    if i < bs.len() && bs[i].id != id {
        lemma_find_batch_from(bs, id, i + 1);
    }
}

/// Two per-stage values that agree on every stage are equal.
pub proof fn lemma_per_stage_ext<T: Copy>(a: PerStage<T>, b: PerStage<T>)
    requires
        forall|s: ProcessingStage| #[trigger] a.at(s) == b.at(s),
    ensures
        a == b,
{
    assert(a.at(ProcessingStage::PrepareMedia) == b.at(ProcessingStage::PrepareMedia));
    assert(a.at(ProcessingStage::Keyfinder) == b.at(ProcessingStage::Keyfinder));
    assert(a.at(ProcessingStage::Beatport) == b.at(ProcessingStage::Beatport));
    assert(a.at(ProcessingStage::LintFix) == b.at(ProcessingStage::LintFix));
    assert(a.at(ProcessingStage::Ai) == b.at(ProcessingStage::Ai));
}

/// The position of the first track with `key`.
pub fn key_index(tracks: &Vec<BatchTrack>, key: &String) -> (r: Option<usize>)
    ensures
        match r {
            Some(i) => find_track(tracks@, key@) == i as int && i < tracks@.len(),
            None => find_track(tracks@, key@) == -1,
        },
{
    let k = crate::text::chars_of(key.as_str());
    let mut i: usize = 0;
    while i < tracks.len()
        invariant
            i <= tracks.len(),
            k@ == key@,
            find_track(tracks@, key@) == find_track_from(tracks@, key@, i as int),
        decreases tracks.len() - i,
    {
        if crate::text::chars_eq(&crate::text::chars_of(tracks[i].key.as_str()), &k) {
            return Some(i);
        }
        i = i + 1;
    }
    None
}

impl ProcessingBatch {
    /// A batch of the tracks at `files`, each added once, in the order in
    /// which they first occur; nothing has happened to any of them yet.
    pub fn new(files: Vec<String>) -> (r: ProcessingBatch)
        ensures
            r.state == BatchState::Processing,
            forall|s: ProcessingStage| !(#[trigger] r.stage_dispatched.at(s)),
            r.tracks@.len() == unique_keys(files@).len(),
            forall|i: int|
                0 <= i < r.tracks@.len() ==> (#[trigger] r.tracks@[i]).key@ == unique_keys(files@)[i]
                    && fresh_track(r.tracks@[i]),
    {
        let mut tracks: Vec<BatchTrack> = Vec::new();
        let mut i: usize = 0;
        while i < files.len()
            invariant
                i <= files.len(),
                tracks@.len() == unique_keys(files@.subrange(0, i as int)).len(),
                forall|j: int|
                    0 <= j < tracks@.len() ==> (#[trigger] tracks@[j]).key@ == unique_keys(
                        files@.subrange(0, i as int),
                    )[j] && fresh_track(tracks@[j]),
            decreases files.len() - i,
        {
            let ghost prefix = files@.subrange(0, i + 1);
            assert(prefix.drop_last() =~= files@.subrange(0, i as int));
            let f = &files[i];
            match key_index(&tracks, f) {
                Some(j) => {
                    proof {
                        lemma_find_track_from(tracks@, f@, 0);
                        assert(unique_keys(files@.subrange(0, i as int))[j as int] == f@);
                    }
                },
                None => {
                    proof {
                        lemma_find_track_from(tracks@, f@, 0);
                        let d = unique_keys(files@.subrange(0, i as int));
                        assert(!d.contains(f@)) by {
                            if d.contains(f@) {
                                let j = choose|j: int| 0 <= j < d.len() && d[j] == f@;
                                assert(tracks@[j].key@ == d[j]);
                            }
                        }
                    }
                    let key = f.clone();
                    let state = TrackProcessingState::new(f.clone());
                    tracks.push(BatchTrack { key, state });
                },
            }
            i = i + 1;
        }
        assert(files@.subrange(0, files.len() as int) =~= files@);
        ProcessingBatch {
            id: BatchId::new(),
            stage_dispatched: PerStage::uniform(false),
            tracks,
            state: BatchState::Processing,
        }
    }

    /// Whether every stage of every track is done.
    pub fn is_complete(&self) -> (r: bool)
        ensures
            r == tracks_complete(self.tracks@),
    {
        let stages = ProcessingStage::all();
        let mut i: usize = 0;
        while i < self.tracks.len()
            invariant
                i <= self.tracks.len(),
                stages@ == ProcessingStage::all_spec(),
                forall|j: int, s: ProcessingStage|
                    0 <= j < i && scheduled(s) ==> #[trigger] stage_done(self.tracks@[j].state, s),
            decreases self.tracks.len() - i,
        {
            let mut k: usize = 0;
            while k < 5
                invariant
                    i < self.tracks.len(),
                    k <= 5,
                    stages@ == ProcessingStage::all_spec(),
                    forall|m: int|
                        0 <= m < k && scheduled(#[trigger] stages@[m]) ==> stage_done(
                            self.tracks@[i as int].state,
                            stages@[m],
                        ),
                decreases 5 - k,
            {
                if stages[k] != ProcessingStage::LintFix && !self.tracks[i].state.is_stage_done(
                    stages[k],
                ) {
                    return false;
                }
                k = k + 1;
            }
            assert forall|s: ProcessingStage| scheduled(s) implies #[trigger] stage_done(
                self.tracks@[i as int].state,
                s,
            ) by {
                match s {
                    ProcessingStage::PrepareMedia => assert(stages@[0] == s),
                    ProcessingStage::Keyfinder => assert(stages@[1] == s),
                    ProcessingStage::Beatport => assert(stages@[2] == s),
                    ProcessingStage::LintFix => assert(stages@[3] == s),
                    ProcessingStage::Ai => assert(stages@[4] == s),
                }
            }
            i = i + 1;
        }
        true
    }
}

/// The batches being processed.
pub struct Batches {
    pub batches: Vec<ProcessingBatch>,
}

impl Batches {
    pub fn new() -> (r: Batches)
        ensures
            r.batches@.len() == 0,
    {
        Batches { batches: Vec::new() }
    }

    /// The position of the batch with `id`.
    pub fn find(&self, id: BatchId) -> (r: Option<usize>)
        ensures
            match r {
                Some(i) => find_batch(self.batches@, id) == i as int && i < self.batches@.len(),
                None => find_batch(self.batches@, id) == -1,
            },
    {
        let mut i: usize = 0;
        while i < self.batches.len()
            invariant
                i <= self.batches.len(),
                find_batch(self.batches@, id) == find_batch_from(self.batches@, id, i as int),
            decreases self.batches.len() - i,
        {
            if self.batches[i].id == id {
                return Some(i);
            }
            i = i + 1;
        }
        None
    }

    /// Stores `batch`, in place of the batch with the same id if there is one.
    pub fn add(&mut self, batch: ProcessingBatch) -> (r: usize)
        ensures
            r < final(self).batches@.len(),
            final(self).batches@[r as int] == batch,
            find_batch(old(self).batches@, batch.id) >= 0 ==> r == find_batch(old(self).batches@, batch.id)
                && final(self).batches@ == old(self).batches@.update(r as int, batch),
            find_batch(old(self).batches@, batch.id) < 0 ==> r == old(self).batches@.len()
                && final(self).batches@ == old(self).batches@.push(batch),
    {
        match self.find(batch.id) {
            Some(i) => {
                proof {
                    lemma_find_batch_from(self.batches@, batch.id, 0);
                }
                self.batches.set(i, batch);
                i
            },
            None => {
                self.batches.push(batch);
                self.batches.len() - 1
            },
        }
    }

}

/// Stores a new batch and sends what is due for it: PrepareMedia for every
/// track of a fresh batch. Gives the batch's position and the dispatches.
pub fn handle_new_batch(batches: &mut Batches, batch: ProcessingBatch) -> (r: (usize, Vec<Dispatch>))
    ensures
        r.0 < final(batches).batches@.len(),
        final(batches).batches@.len() == old(batches).batches@.len() || final(batches).batches@.len()
            == old(batches).batches@.len() + 1,
        forall|j: int|
            0 <= j < old(batches).batches@.len() && j != r.0 ==> #[trigger] final(batches).batches@[j]
                == old(batches).batches@[j],
        find_batch(old(batches).batches@, batch.id) >= 0 ==> r.0 == find_batch(
            old(batches).batches@,
            batch.id,
        ) && final(batches).batches@.len() == old(batches).batches@.len(),
        find_batch(old(batches).batches@, batch.id) < 0 ==> r.0 == old(batches).batches@.len()
            && final(batches).batches@.len() == old(batches).batches@.len() + 1,
        r.1@ == planned_dispatches(batch.tracks@, batch.stage_dispatched.at(ProcessingStage::Ai)),
        marked_tracks(batch.tracks@, final(batches).batches@[r.0 as int].tracks@),
        final(batches).batches@[r.0 as int].id == batch.id,
        final(batches).batches@[r.0 as int].state == batch.state,
        forall|s: ProcessingStage|
            #[trigger] final(batches).batches@[r.0 as int].stage_dispatched.at(s) == (
            batch.stage_dispatched.at(s) || (s == ProcessingStage::Ai && ai_due(
                batch.tracks@,
                batch.stage_dispatched.at(ProcessingStage::Ai),
            ))),
{
    let ghost before = batches.batches@;
    let ghost id = batch.id;
    assert(before == old(batches).batches@);
    let idx = batches.add(batch);
    let ghost added = batches.batches@;
    proof {
        lemma_find_batch_from(before, id, 0);
    }
    assert(added.len() == before.len() || added.len() == before.len() + 1) by {
        if find_batch(before, id) >= 0 {
            assert(added == before.update(idx as int, added[idx as int]));
        } else {
            assert(added.len() == before.len() + 1);
        }
    }
    assert forall|j: int| 0 <= j < before.len() && j != idx implies added[j] == before[j] by {
        if find_batch(before, id) >= 0 {
            assert(added == before.update(idx as int, added[idx as int]));
        } else {
            assert(added == before.push(added[idx as int]));
        }
    }
    let dispatches = dispatch_next_stages(&mut batches.batches[idx]);
    assert(batches.batches@.len() == added.len());
    assert(forall|j: int| 0 <= j < added.len() && j != idx ==> batches.batches@[j] == added[j]);
    (idx, dispatches)
}

/// What a recorded status report is announced as.
#[derive(Clone, Copy, PartialEq, Eq, Debug, Structural)]
pub enum StatusEvent {
    /// The status of stage `stage` of the track at `track` is now `kind`.
    TrackStageUpdate { track: usize, stage: ProcessingStage, kind: StatusKind },
    /// Every scheduled stage of every track of the batch is done.
    BatchCompleted,
}

/// The announcements of a report recorded for the track at `track`: the
/// stage update first, then, when the batch is complete, its completion.
pub open spec fn status_events(
    track: usize,
    stage: ProcessingStage,
    kind: StatusKind,
    batch_complete: bool,
) -> Seq<StatusEvent> {
    seq![StatusEvent::TrackStageUpdate { track, stage, kind }] + if batch_complete {
        seq![StatusEvent::BatchCompleted]
    } else {
        Seq::<StatusEvent>::empty()
    }
}

/// What a status report did.
pub enum StatusOutcome {
    /// No batch has the report's id; nothing changed.
    UnknownBatch,
    /// The batch has no track with the report's key; nothing changed.
    UnknownTrack,
    /// The report was recorded for the track at `track` of the batch at
    /// `batch`; `dispatches` are to be sent; `batch_complete` tells whether
    /// every stage of every track is now done, and `completion_signal`
    /// whether the batch became complete with this report; `events` are
    /// the announcements of the report, in order.
    Applied {
        batch: usize,
        track: usize,
        dispatches: Vec<Dispatch>,
        batch_complete: bool,
        completion_signal: bool,
        events: Vec<StatusEvent>,
    },
}

/// The tracks of `tracks` once report `u` is recorded for the track at `t`.
pub open spec fn recorded_tracks(tracks: Seq<BatchTrack>, t: int, u: TrackStatusUpdate) -> Seq<BatchTrack> {
    tracks.update(t, BatchTrack { key: tracks[t].key, state: recorded_state(tracks[t].state, u) })
}

/// Records a status report for one stage of one track: a successful
/// PrepareMedia moves the track to where the file now is and gives it its
/// tag; the stage's status becomes the reported one; when the stage succeeded
/// or was skipped, what is due next is dispatched; when every stage of every
/// track is done, the batch is complete.
pub fn handle_track_status(batches: &mut Batches, update: TrackStatusUpdate) -> (r: StatusOutcome)
    ensures
        find_batch(old(batches).batches@, update.batch_id) < 0 ==> r is UnknownBatch && *final(batches)
            == *old(batches),
        find_batch(old(batches).batches@, update.batch_id) >= 0 && find_track(
            old(batches).batches@[find_batch(old(batches).batches@, update.batch_id)].tracks@,
            update.key@,
        ) < 0 ==> r is UnknownTrack && *final(batches) == *old(batches),
        find_batch(old(batches).batches@, update.batch_id) >= 0 && find_track(
            old(batches).batches@[find_batch(old(batches).batches@, update.batch_id)].tracks@,
            update.key@,
        ) >= 0 ==> r is Applied,
        r matches StatusOutcome::Applied {
            batch,
            track,
            dispatches,
            batch_complete,
            completion_signal,
            events,
        } ==> {
            let ob = old(batches).batches@[batch as int];
            let fb = final(batches).batches@[batch as int];
            let ai = ProcessingStage::Ai;
            let mid = recorded_tracks(ob.tracks@, track as int, update);
            &&& batch as int == find_batch(old(batches).batches@, update.batch_id)
            &&& track as int == find_track(ob.tracks@, update.key@)
            &&& final(batches).batches@.len() == old(batches).batches@.len()
            &&& forall|j: int|
                0 <= j < old(batches).batches@.len() && j != batch
                    ==> #[trigger] final(batches).batches@[j] == old(batches).batches@[j]
            &&& fb.id == ob.id
            &&& moves_on(update.kind) ==> {
                &&& dispatches@ == planned_dispatches(mid, ob.stage_dispatched.at(ai))
                &&& marked_tracks(mid, fb.tracks@)
                &&& forall|s: ProcessingStage|
                    #[trigger] fb.stage_dispatched.at(s) == (ob.stage_dispatched.at(s) || (s == ai
                        && ai_due(mid, ob.stage_dispatched.at(ai))))
            }
            &&& !moves_on(update.kind) ==> {
                &&& dispatches@.len() == 0
                &&& fb.tracks@ == mid
                &&& fb.stage_dispatched == ob.stage_dispatched
            }
            &&& batch_complete == tracks_complete(fb.tracks@)
            &&& completion_signal == (batch_complete && ob.state == BatchState::Processing)
            &&& events@ == status_events(track, update.stage, update.kind, batch_complete)
            &&& fb.state == if batch_complete {
                BatchState::Complete
            } else {
                ob.state
            }
        },
{
    let b = match batches.find(update.batch_id) {
        Some(b) => b,
        None => {
            return StatusOutcome::UnknownBatch;
        },
    };
    let t = match key_index(&batches.batches[b].tracks, &update.key) {
        Some(t) => t,
        None => {
            return StatusOutcome::UnknownTrack;
        },
    };
    let ghost u = update;
    let ghost ob = batches.batches@[b as int];
    let moves = update.kind == StatusKind::Succeeded || update.kind == StatusKind::Skipped;
    let TrackStatusUpdate { batch_id, key, stage, kind, prepared } = update;
    if stage == ProcessingStage::PrepareMedia && kind == StatusKind::Succeeded {
        match prepared {
            Some(p) => {
                batches.batches[b].tracks[t].state.file_path = p.file_path;
                batches.batches[b].tracks[t].state.tag = Some(p.tag);
            },
            None => {},
        }
    }
    batches.batches[b].tracks[t].state.set_stage_status(stage, kind);
    proof {
        let mid = recorded_tracks(ob.tracks@, t as int, u);
        let now = batches.batches@[b as int].tracks@;
        lemma_per_stage_ext(now[t as int].state.stage_status, mid[t as int].state.stage_status);
        assert(now =~= mid);
    }
    let dispatches = if moves {
        dispatch_next_stages(&mut batches.batches[b])
    } else {
        Vec::new()
    };
    let complete = batches.batches[b].is_complete();
    let signal = complete && batches.batches[b].state == BatchState::Processing;
    if complete {
        batches.batches[b].state = BatchState::Complete;
    }
    let mut events: Vec<StatusEvent> = Vec::new();
    events.push(StatusEvent::TrackStageUpdate { track: t, stage, kind });
    if complete {
        events.push(StatusEvent::BatchCompleted);
    }
    proof {
        assert(events@ =~= status_events(t, stage, kind, complete));
    }
    StatusOutcome::Applied {
        batch: b,
        track: t,
        dispatches,
        batch_complete: complete,
        completion_signal: signal,
        events,
    }
}

/// Every dispatch of stage `s` among the first `n` tracks is for a track
/// whose prerequisites for `s` are done and that had not been dispatched `s`.
proof fn lemma_stage_dispatches_ready(tracks: Seq<BatchTrack>, s: ProcessingStage, n: int, k: int)
    requires
        0 <= n <= tracks.len(),
        tracks.len() <= usize::MAX,
        0 <= k < stage_dispatches(tracks, s, n).len(),
    ensures
        ({
            let d = stage_dispatches(tracks, s, n)[k];
            &&& d.stage == s
            &&& d.track matches Some(i) && i < n && prerequisites_done(tracks[i as int].state, s)
                && !tracks[i as int].state.stage_dispatched.at(s) && due(tracks[i as int].state, s)
        }),
    decreases n,
{
    if n > 0 {
        let prev = stage_dispatches(tracks, s, n - 1);
        if k < prev.len() {
            lemma_stage_dispatches_ready(tracks, s, n - 1, k);
        } else {
            assert(due(tracks[n - 1].state, s));
            assert(stage_dispatches(tracks, s, n)[k] == Dispatch {
                stage: s,
                track: Some((n - 1) as usize),
            });
        }
    }
}

/// A stage is dispatched for a track only when the stages it waits for are
/// done for that track and it was not dispatched for it before; the AI stage
/// is dispatched only once for a batch, and only when every track that has
/// not failed is ready for it.
pub proof fn law_dispatch_waits_for_prerequisites(tracks: Seq<BatchTrack>, ai_dispatched: bool, k: int)
    requires
        tracks.len() <= usize::MAX,
        0 <= k < planned_dispatches(tracks, ai_dispatched).len(),
    ensures
        ({
            let d = planned_dispatches(tracks, ai_dispatched)[k];
            match d.track {
                Some(i) => {
                    &&& 0 <= i < tracks.len()
                    &&& d.stage.mode_spec() == StageMode::IndividualTrack
                    &&& prerequisites_done(tracks[i as int].state, d.stage)
                    &&& !tracks[i as int].state.stage_dispatched.at(d.stage)
                },
                None => {
                    &&& d.stage == ProcessingStage::Ai
                    &&& !ai_dispatched
                    &&& forall|j: int|
                        0 <= j < tracks.len() && !failed(#[trigger] tracks[j].state) ==> stage_done(
                            tracks[j].state,
                            ProcessingStage::Beatport,
                        )
                },
            }
        }),
{
    let n = tracks.len() as int;
    let a = stage_dispatches(tracks, ProcessingStage::PrepareMedia, n);
    let b = stage_dispatches(tracks, ProcessingStage::Keyfinder, n);
    let c = stage_dispatches(tracks, ProcessingStage::Beatport, n);
    let d = stage_dispatches(tracks, ProcessingStage::LintFix, n);
    let e = if ai_due(tracks, ai_dispatched) {
        seq![Dispatch { stage: ProcessingStage::Ai, track: None }]
    } else {
        Seq::<Dispatch>::empty()
    };
    assert(planned_dispatches(tracks, ai_dispatched) == a + b + c + d + e);
    if k < a.len() {
        lemma_stage_dispatches_ready(tracks, ProcessingStage::PrepareMedia, n, k);
    } else if k < a.len() + b.len() {
        lemma_stage_dispatches_ready(tracks, ProcessingStage::Keyfinder, n, k - a.len());
    } else if k < a.len() + b.len() + c.len() {
        lemma_stage_dispatches_ready(tracks, ProcessingStage::Beatport, n, k - a.len() - b.len());
    } else if k < a.len() + b.len() + c.len() + d.len() {
        lemma_stage_dispatches_ready(
            tracks,
            ProcessingStage::LintFix,
            n,
            k - a.len() - b.len() - c.len(),
        );
    } else {
        assert forall|j: int|
            0 <= j < tracks.len() && !failed(#[trigger] tracks[j].state) implies stage_done(
            tracks[j].state,
            ProcessingStage::Beatport,
        ) by {
            assert(can_run(tracks[j].state, ProcessingStage::Ai));
        }
    }
}

/// Once a stage is marked dispatched for a track, it stays marked when a
/// status report is recorded, whether or not what is due is dispatched after
/// it; and no dispatch of that stage for that track is planned again.
pub proof fn law_no_stage_dispatched_twice(
    before: Seq<BatchTrack>,
    t: int,
    u: TrackStatusUpdate,
    after: Seq<BatchTrack>,
    ai_dispatched: bool,
    i: int,
    s: ProcessingStage,
)
    requires
        before.len() <= usize::MAX,
        0 <= t < before.len(),
        0 <= i < before.len(),
        before[i].state.stage_dispatched.at(s),
        after == recorded_tracks(before, t, u) || marked_tracks(recorded_tracks(before, t, u), after),
    ensures
        after[i].state.stage_dispatched.at(s),
        forall|k: int|
            0 <= k < planned_dispatches(after, ai_dispatched).len() ==> #[trigger] planned_dispatches(
                after,
                ai_dispatched,
            )[k] != (Dispatch { stage: s, track: Some(i as usize) }),
{
    let mid = recorded_tracks(before, t, u);
    assert(mid[i].state.stage_dispatched == before[i].state.stage_dispatched);
    if after != mid {
        assert(after[i].state.stage_dispatched.at(s));
    }
    assert forall|k: int|
        0 <= k < planned_dispatches(after, ai_dispatched).len() implies #[trigger] planned_dispatches(
        after,
        ai_dispatched,
    )[k] != (Dispatch { stage: s, track: Some(i as usize) }) by {
        law_dispatch_waits_for_prerequisites(after, ai_dispatched, k);
    }
}

/// Stage `s` of `t` has a final status: it succeeded, failed or was
/// skipped.
pub open spec fn finished(t: TrackProcessingState, s: ProcessingStage) -> bool {
    ||| t.stage_status.at(s) == Some(StatusKind::Succeeded)
    ||| t.stage_status.at(s) == Some(StatusKind::Failed)
    ||| t.stage_status.at(s) == Some(StatusKind::Skipped)
}

/// A batch is complete exactly when each of its tracks has PrepareMedia,
/// Keyfinder, Beatport and AI each finished (succeeded, failed or skipped);
/// a stage still waiting, running or not yet reported keeps it incomplete.
pub proof fn law_batch_complete_when_every_stage_finished(tracks: Seq<BatchTrack>)
    ensures
        tracks_complete(tracks) <==> forall|i: int|
            0 <= i < tracks.len() ==> {
                &&& finished(#[trigger] tracks[i].state, ProcessingStage::PrepareMedia)
                &&& finished(tracks[i].state, ProcessingStage::Keyfinder)
                &&& finished(tracks[i].state, ProcessingStage::Beatport)
                &&& finished(tracks[i].state, ProcessingStage::Ai)
            },
{
    assert forall|i: int, s: ProcessingStage|
        0 <= i < tracks.len() implies #[trigger] stage_done(tracks[i].state, s) == finished(
        tracks[i].state,
        s,
    ) by {}
    if forall|i: int|
        0 <= i < tracks.len() ==> {
            &&& finished(#[trigger] tracks[i].state, ProcessingStage::PrepareMedia)
            &&& finished(tracks[i].state, ProcessingStage::Keyfinder)
            &&& finished(tracks[i].state, ProcessingStage::Beatport)
            &&& finished(tracks[i].state, ProcessingStage::Ai)
        } {
        assert forall|i: int, s: ProcessingStage|
            0 <= i < tracks.len() && scheduled(s) implies #[trigger] stage_done(tracks[i].state, s) by {
            assert(finished(tracks[i].state, ProcessingStage::PrepareMedia));
            match s {
                ProcessingStage::PrepareMedia => {},
                ProcessingStage::Keyfinder => {},
                ProcessingStage::Beatport => {},
                ProcessingStage::LintFix => {},
                ProcessingStage::Ai => {},
            }
        }
    }
    if tracks_complete(tracks) {
        assert forall|i: int| 0 <= i < tracks.len() implies {
            &&& finished(#[trigger] tracks[i].state, ProcessingStage::PrepareMedia)
            &&& finished(tracks[i].state, ProcessingStage::Keyfinder)
            &&& finished(tracks[i].state, ProcessingStage::Beatport)
            &&& finished(tracks[i].state, ProcessingStage::Ai)
        } by {
            assert(stage_done(tracks[i].state, ProcessingStage::PrepareMedia));
            assert(stage_done(tracks[i].state, ProcessingStage::Keyfinder));
            assert(stage_done(tracks[i].state, ProcessingStage::Beatport));
            assert(stage_done(tracks[i].state, ProcessingStage::Ai));
        }
    }
}

/// Recording a report sets the reported stage's status to the reported
/// kind and leaves every other stage's status and every dispatch mark as it
/// was; only a successful PrepareMedia that says where the file now is
/// changes the track's path and tag, to the ones it gives.
pub proof fn law_report_records_status(s: TrackProcessingState, u: TrackStatusUpdate)
    ensures
        ({
            let r = recorded_state(s, u);
            &&& r.stage_status.at(u.stage) == Some(u.kind)
            &&& forall|x: ProcessingStage|
                x != u.stage ==> #[trigger] r.stage_status.at(x) == s.stage_status.at(x)
            &&& r.stage_dispatched == s.stage_dispatched
            &&& (u.stage == ProcessingStage::PrepareMedia && u.kind == StatusKind::Succeeded
                && u.prepared is Some) ==> r.file_path == u.prepared.unwrap().file_path && r.tag
                == Some(u.prepared.unwrap().tag)
            &&& !(u.stage == ProcessingStage::PrepareMedia && u.kind == StatusKind::Succeeded
                && u.prepared is Some) ==> r.file_path == s.file_path && r.tag == s.tag
        }),
{
    let r = recorded_state(s, u);
    assert forall|x: ProcessingStage| x != u.stage implies #[trigger] r.stage_status.at(x)
        == s.stage_status.at(x) by {
        match u.stage {
            ProcessingStage::PrepareMedia => {},
            ProcessingStage::Keyfinder => {},
            ProcessingStage::Beatport => {},
            ProcessingStage::LintFix => {},
            ProcessingStage::Ai => {},
        }
    }
    match u.stage {
        ProcessingStage::PrepareMedia => {},
        ProcessingStage::Keyfinder => {},
        ProcessingStage::Beatport => {},
        ProcessingStage::LintFix => {},
        ProcessingStage::Ai => {},
    }
}

proof fn lemma_due_dispatched(tracks: Seq<BatchTrack>, s: ProcessingStage, n: int, i: int)
    requires
        0 <= i < n <= tracks.len(),
        tracks.len() <= usize::MAX,
        due(tracks[i].state, s),
    ensures
        stage_dispatches(tracks, s, n).contains(Dispatch { stage: s, track: Some(i as usize) }),
    decreases n,
{
    let d = Dispatch { stage: s, track: Some(i as usize) };
    let prev = stage_dispatches(tracks, s, n - 1);
    if i < n - 1 {
        lemma_due_dispatched(tracks, s, n - 1, i);
        let k = choose|k: int| 0 <= k < prev.len() && prev[k] == d;
        assert(stage_dispatches(tracks, s, n)[k] == d);
    } else {
        assert(stage_dispatches(tracks, s, n)[prev.len() as int] == d);
    }
}

/// The order of the pipeline, stated per stage: Keyfinder and Beatport are
/// dispatched for a track only once its PrepareMedia has finished (the
/// dispatch of Beatport also needs the track's tag), LintFix never, and
/// every track whose PrepareMedia has finished gets Keyfinder dispatched
/// unless it already had it; the AI stage goes out only when every track
/// that has no failure has finished Beatport.
pub proof fn law_pipeline_order(tracks: Seq<BatchTrack>, ai_dispatched: bool)
    requires
        tracks.len() <= usize::MAX,
    ensures
        forall|k: int|
            0 <= k < planned_dispatches(tracks, ai_dispatched).len() ==> {
                let d = #[trigger] planned_dispatches(tracks, ai_dispatched)[k];
                &&& d.stage != ProcessingStage::LintFix
                &&& (d.stage == ProcessingStage::Keyfinder || d.stage == ProcessingStage::Beatport)
                    ==> (d.track matches Some(i) && finished(
                    tracks[i as int].state,
                    ProcessingStage::PrepareMedia,
                ))
                &&& d.stage == ProcessingStage::Beatport ==> (d.track matches Some(i)
                    && tracks[i as int].state.tag is Some)
                &&& d.stage == ProcessingStage::Ai ==> forall|j: int|
                    0 <= j < tracks.len() && !(exists|x: ProcessingStage|
                        #[trigger] tracks[j].state.stage_status.at(x) == Some(StatusKind::Failed))
                        ==> finished(#[trigger] tracks[j].state, ProcessingStage::Beatport)
            },
        forall|i: int|
            0 <= i < tracks.len() && finished(#[trigger] tracks[i].state, ProcessingStage::PrepareMedia)
                && !tracks[i].state.stage_dispatched.at(ProcessingStage::Keyfinder)
                ==> planned_dispatches(tracks, ai_dispatched).contains(
                Dispatch { stage: ProcessingStage::Keyfinder, track: Some(i as usize) },
            ),
{
    let n = tracks.len() as int;
    let a = stage_dispatches(tracks, ProcessingStage::PrepareMedia, n);
    let b = stage_dispatches(tracks, ProcessingStage::Keyfinder, n);
    let c = stage_dispatches(tracks, ProcessingStage::Beatport, n);
    let l = stage_dispatches(tracks, ProcessingStage::LintFix, n);
    let e = if ai_due(tracks, ai_dispatched) {
        seq![Dispatch { stage: ProcessingStage::Ai, track: None }]
    } else {
        Seq::<Dispatch>::empty()
    };
    assert forall|i: int| 0 <= i < n implies !due(#[trigger] tracks[i].state, ProcessingStage::LintFix) by {}
    lemma_stage_dispatches_none(tracks, ProcessingStage::LintFix, n);
    assert(planned_dispatches(tracks, ai_dispatched) == a + b + c + l + e);
    assert forall|k: int| 0 <= k < planned_dispatches(tracks, ai_dispatched).len() implies {
        let d = #[trigger] planned_dispatches(tracks, ai_dispatched)[k];
        &&& d.stage != ProcessingStage::LintFix
        &&& (d.stage == ProcessingStage::Keyfinder || d.stage == ProcessingStage::Beatport) ==> (
        d.track matches Some(i) && finished(tracks[i as int].state, ProcessingStage::PrepareMedia))
        &&& d.stage == ProcessingStage::Beatport ==> (d.track matches Some(i)
            && tracks[i as int].state.tag is Some)
        &&& d.stage == ProcessingStage::Ai ==> forall|j: int|
            0 <= j < tracks.len() && !(exists|x: ProcessingStage|
                #[trigger] tracks[j].state.stage_status.at(x) == Some(StatusKind::Failed))
                ==> finished(#[trigger] tracks[j].state, ProcessingStage::Beatport)
    } by {
        let d = planned_dispatches(tracks, ai_dispatched)[k];
        if k < a.len() {
            lemma_stage_dispatches_ready(tracks, ProcessingStage::PrepareMedia, n, k);
            assert(d == a[k]);
        } else if k < a.len() + b.len() {
            lemma_stage_dispatches_ready(tracks, ProcessingStage::Keyfinder, n, k - a.len());
            assert(d == b[k - a.len()]);
        } else if k < a.len() + b.len() + c.len() {
            lemma_stage_dispatches_ready(tracks, ProcessingStage::Beatport, n, k - a.len() - b.len());
            assert(d == c[k - a.len() - b.len()]);
        } else {
            assert(d == e[k - a.len() - b.len() - c.len()]);
            assert(ai_due(tracks, ai_dispatched));
            assert forall|j: int|
                0 <= j < tracks.len() && !(exists|x: ProcessingStage|
                    #[trigger] tracks[j].state.stage_status.at(x) == Some(StatusKind::Failed))
                    implies finished(#[trigger] tracks[j].state, ProcessingStage::Beatport) by {
                assert(!failed(tracks[j].state));
                assert(can_run(tracks[j].state, ProcessingStage::Ai));
            }
        }
    }
    assert forall|i: int|
        0 <= i < tracks.len() && finished(#[trigger] tracks[i].state, ProcessingStage::PrepareMedia)
            && !tracks[i].state.stage_dispatched.at(ProcessingStage::Keyfinder)
            implies planned_dispatches(tracks, ai_dispatched).contains(
        Dispatch { stage: ProcessingStage::Keyfinder, track: Some(i as usize) },
    ) by {
        let dd = Dispatch { stage: ProcessingStage::Keyfinder, track: Some(i as usize) };
        lemma_due_dispatched(tracks, ProcessingStage::Keyfinder, n, i);
        let a = stage_dispatches(tracks, ProcessingStage::PrepareMedia, n);
        let b = stage_dispatches(tracks, ProcessingStage::Keyfinder, n);
        let rest = stage_dispatches(tracks, ProcessingStage::Beatport, n) + stage_dispatches(
            tracks,
            ProcessingStage::LintFix,
            n,
        ) + if ai_due(tracks, ai_dispatched) {
            seq![Dispatch { stage: ProcessingStage::Ai, track: None }]
        } else {
            Seq::<Dispatch>::empty()
        };
        assert(planned_dispatches(tracks, ai_dispatched) =~= a + b + rest);
        let k = choose|k: int| 0 <= k < b.len() && b[k] == dd;
        assert((a + b + rest)[a.len() + k] == dd);
    }
}

/// A batch of at least one track that nothing has happened to yet gets
/// PrepareMedia dispatched for each of its tracks, in order, and nothing else.
pub proof fn law_fresh_batch_starts_with_prepare_media(tracks: Seq<BatchTrack>)
    requires
        0 < tracks.len() <= usize::MAX,
        forall|i: int| 0 <= i < tracks.len() ==> fresh_track(#[trigger] tracks[i]),
    ensures
        planned_dispatches(tracks, false) == Seq::new(
            tracks.len(),
            |i: int| Dispatch { stage: ProcessingStage::PrepareMedia, track: Some(i as usize) },
        ),
{
    let n = tracks.len() as int;
    lemma_fresh_prepare(tracks, n);
    assert forall|i: int| 0 <= i < n implies !due(#[trigger] tracks[i].state, ProcessingStage::Keyfinder) by {
        assert(fresh_track(tracks[i]));
        assert(tracks[i].state.stage_status.at(ProcessingStage::PrepareMedia) is None);
    }
    lemma_stage_dispatches_none(tracks, ProcessingStage::Keyfinder, n);
    assert forall|i: int| 0 <= i < n implies !due(#[trigger] tracks[i].state, ProcessingStage::Beatport) by {
        assert(fresh_track(tracks[i]));
        assert(tracks[i].state.stage_status.at(ProcessingStage::PrepareMedia) is None);
    }
    lemma_stage_dispatches_none(tracks, ProcessingStage::Beatport, n);
    assert forall|i: int| 0 <= i < n implies !due(#[trigger] tracks[i].state, ProcessingStage::LintFix) by {
        assert(fresh_track(tracks[i]));
        assert(tracks[i].state.stage_status.at(ProcessingStage::Keyfinder) is None);
    }
    lemma_stage_dispatches_none(tracks, ProcessingStage::LintFix, n);
    {
        assert(fresh_track(tracks[0]));
        assert(tracks[0].state.stage_status.at(ProcessingStage::Beatport) is None);
        assert(!failed(tracks[0].state)) by {
            if failed(tracks[0].state) {
                let s = choose|s: ProcessingStage| #[trigger] tracks[0].state.stage_status.at(s) == Some(StatusKind::Failed);
                assert(tracks[0].state.stage_status.at(s) is None);
            }
        }
        assert(!can_run(tracks[0].state, ProcessingStage::Ai));
        assert(!ai_due(tracks, false));
    }
    let a = stage_dispatches(tracks, ProcessingStage::PrepareMedia, n);
    let b = stage_dispatches(tracks, ProcessingStage::Keyfinder, n);
    let c = stage_dispatches(tracks, ProcessingStage::Beatport, n);
    let d = stage_dispatches(tracks, ProcessingStage::LintFix, n);
    assert(b =~= Seq::<Dispatch>::empty());
    assert(c =~= Seq::<Dispatch>::empty());
    assert(d =~= Seq::<Dispatch>::empty());
    let e = if ai_due(tracks, false) {
        seq![Dispatch { stage: ProcessingStage::Ai, track: None }]
    } else {
        Seq::<Dispatch>::empty()
    };
    assert(e =~= Seq::<Dispatch>::empty());
    assert(planned_dispatches(tracks, false) == a + b + c + d + e);
    assert(a + b + c + d + e =~= a);
    assert(planned_dispatches(tracks, false) =~= Seq::new(
        tracks.len(),
        |i: int| Dispatch { stage: ProcessingStage::PrepareMedia, track: Some(i as usize) },
    ));
}

proof fn lemma_fresh_prepare(tracks: Seq<BatchTrack>, n: int)
    requires
        0 <= n <= tracks.len(),
        tracks.len() <= usize::MAX,
        forall|i: int| 0 <= i < tracks.len() ==> fresh_track(#[trigger] tracks[i]),
    ensures
        stage_dispatches(tracks, ProcessingStage::PrepareMedia, n) == Seq::new(
            n as nat,
            |i: int| Dispatch { stage: ProcessingStage::PrepareMedia, track: Some(i as usize) },
        ),
    decreases n,
{
    if n > 0 {
        lemma_fresh_prepare(tracks, n - 1);
        assert(fresh_track(tracks[n - 1]));
        assert(due(tracks[n - 1].state, ProcessingStage::PrepareMedia));
        assert(stage_dispatches(tracks, ProcessingStage::PrepareMedia, n) =~= Seq::new(
            n as nat,
            |i: int| Dispatch { stage: ProcessingStage::PrepareMedia, track: Some(i as usize) },
        ));
    } else {
        assert(stage_dispatches(tracks, ProcessingStage::PrepareMedia, n) =~= Seq::new(
            n as nat,
            |i: int| Dispatch { stage: ProcessingStage::PrepareMedia, track: Some(i as usize) },
        ));
    }
}

} // verus!
