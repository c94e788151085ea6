use id3::{Tag, TagLike};
use tune_manager::processing::coordinator::{
    all_tracks_ready_for_ai, dispatch_next_stages, handle_new_batch, handle_track_status,
    BatchId, BatchState, BatchTrack, Batches, Dispatch, PreparedMedia, ProcessingBatch,
    StatusEvent, StatusOutcome, TrackProcessingState, TrackStatusUpdate,
};
use tune_manager::processing::inputs::{ai_batch_input, create_stage_input};
use tune_manager::processing::stages::{ProcessingStage, StatusKind};
use tune_manager::processing::tag_state::set_revisions_data;
use tune_manager::track::{Track, TrackFields, TrackFile};

fn make_batch_with_track(file_path: &str) -> ProcessingBatch {
    ProcessingBatch::new(vec![file_path.to_string()])
}

/// What the test helpers of the stages report as a completed stage: a
/// success for every stage but Beatport, which is skipped.
fn completed_kind(stage: ProcessingStage) -> StatusKind {
    match stage {
        ProcessingStage::Beatport => StatusKind::Skipped,
        _ => StatusKind::Succeeded,
    }
}

fn mark_stage_complete(track: &mut TrackProcessingState, stage: ProcessingStage) {
    track.set_stage_status(stage, completed_kind(stage));
    track.stage_dispatched.set(stage, true);
}

fn track_mut<'a>(batch: &'a mut ProcessingBatch, key: &str) -> &'a mut TrackProcessingState {
    let i = batch.tracks.iter().position(|t| t.key == key).unwrap();
    &mut batch.tracks[i].state
}

fn track_ref<'a>(batch: &'a ProcessingBatch, key: &str) -> &'a TrackProcessingState {
    let i = batch.tracks.iter().position(|t| t.key == key).unwrap();
    &batch.tracks[i].state
}

fn stages_of(dispatches: &[Dispatch]) -> Vec<ProcessingStage> {
    dispatches.iter().map(|d| d.stage).collect()
}

fn tag_with_revision() -> Tag {
    let mut tag = Tag::new();
    set_revisions_data(&mut tag, br#"{"revisions":[{"tags":{}}]}"#.to_vec());
    tag
}

fn empty_track(path: &str) -> Track {
    Track {
        file: TrackFile { file_path: path.to_string(), mtime: 0 },
        fields: TrackFields::empty(),
    }
}

#[test]
fn test_dispatch_prepare_media_for_new_track() {
    let file_path = "/test/track.mp3";
    let mut batch = make_batch_with_track(file_path);

    let dispatched = dispatch_next_stages(&mut batch);

    // Should dispatch PrepareMedia, and nothing else
    assert_eq!(dispatched.len(), 1);
    assert_eq!(dispatched[0].stage, ProcessingStage::PrepareMedia);

    // Track should be marked as dispatched
    let track = track_ref(&batch, file_path);
    assert!(track.stage_dispatched.get(ProcessingStage::PrepareMedia));

    // The input built for it names the track's file
    let input = create_stage_input(dispatched[0].stage, track).unwrap();
    assert_eq!(input.stage(), ProcessingStage::PrepareMedia);
}

#[test]
fn test_dispatch_after_prepare_media() {
    let file_path = "/test/track.mp3";
    let mut batch = make_batch_with_track(file_path);

    let track = track_mut(&mut batch, file_path);
    mark_stage_complete(track, ProcessingStage::PrepareMedia);
    track.tag = Some(Tag::new());

    let dispatched_stages = stages_of(&dispatch_next_stages(&mut batch));

    // Keyfinder and Beatport run side by side
    assert_eq!(dispatched_stages.len(), 2);
    assert!(dispatched_stages.contains(&ProcessingStage::Keyfinder));
    assert!(dispatched_stages.contains(&ProcessingStage::Beatport));
}

#[test]
fn test_no_dispatch_if_already_dispatched() {
    let file_path = "/test/track.mp3";
    let mut batch = make_batch_with_track(file_path);

    let track = track_mut(&mut batch, file_path);
    mark_stage_complete(track, ProcessingStage::PrepareMedia);
    track.stage_dispatched.set(ProcessingStage::Keyfinder, true);
    track.stage_dispatched.set(ProcessingStage::Beatport, true);
    track.tag = Some(Tag::new());

    assert!(dispatch_next_stages(&mut batch).is_empty());
}

#[test]
fn test_no_dispatch_if_prerequisites_not_met() {
    let file_path = "/test/track.mp3";
    let mut batch = make_batch_with_track(file_path);

    let track = track_mut(&mut batch, file_path);
    track.stage_dispatched.set(ProcessingStage::PrepareMedia, true);

    assert!(dispatch_next_stages(&mut batch).is_empty());
}

#[test]
fn test_dispatch_ai_when_all_tracks_ready() {
    let file_path = "/test/track.mp3";
    let mut batch = make_batch_with_track(file_path);

    let track = track_mut(&mut batch, file_path);
    mark_stage_complete(track, ProcessingStage::PrepareMedia);
    mark_stage_complete(track, ProcessingStage::Keyfinder);
    mark_stage_complete(track, ProcessingStage::Beatport);
    track.tag = Some(tag_with_revision());

    let dispatched = dispatch_next_stages(&mut batch);

    assert_eq!(dispatched[0].stage, ProcessingStage::Ai);
    assert_eq!(dispatched[0].track, None);
    assert!(batch.stage_dispatched.get(ProcessingStage::Ai));
}

#[test]
fn test_no_ai_dispatch_if_already_dispatched() {
    let file_path = "/test/track.mp3";
    let mut batch = make_batch_with_track(file_path);

    let track = track_mut(&mut batch, file_path);
    mark_stage_complete(track, ProcessingStage::PrepareMedia);
    mark_stage_complete(track, ProcessingStage::Keyfinder);
    mark_stage_complete(track, ProcessingStage::Beatport);
    track.tag = Some(Tag::new());

    batch.stage_dispatched.set(ProcessingStage::Ai, true);

    assert!(dispatch_next_stages(&mut batch).is_empty());
}

#[test]
fn test_dispatch_with_multiple_tracks() {
    let file1 = "/test/track1.mp3";
    let file2 = "/test/track2.mp3";
    let mut batch = ProcessingBatch::new(vec![file1.to_string(), file2.to_string()]);

    let track1 = track_mut(&mut batch, file1);
    mark_stage_complete(track1, ProcessingStage::PrepareMedia);
    track1.tag = Some(Tag::new());

    let dispatched_stages = stages_of(&dispatch_next_stages(&mut batch));

    assert_eq!(dispatched_stages.len(), 3);
    assert_eq!(
        dispatched_stages.iter().filter(|s| **s == ProcessingStage::PrepareMedia).count(),
        1
    );
    assert!(dispatched_stages.contains(&ProcessingStage::Keyfinder));
    assert!(dispatched_stages.contains(&ProcessingStage::Beatport));
}

#[test]
fn test_ai_waits_for_all_tracks_before_dispatching() {
    let file1 = "/tmp/track1.mp3";
    let file2 = "/tmp/track2.mp3";
    let mut batch = ProcessingBatch::new(vec![file1.to_string(), file2.to_string()]);

    let track1 = track_mut(&mut batch, file1);
    mark_stage_complete(track1, ProcessingStage::PrepareMedia);
    mark_stage_complete(track1, ProcessingStage::Keyfinder);
    mark_stage_complete(track1, ProcessingStage::Beatport);
    track1.tag = Some(tag_with_revision());

    let track2 = track_mut(&mut batch, file2);
    mark_stage_complete(track2, ProcessingStage::PrepareMedia);
    track2.tag = Some(Tag::new());

    // First dispatch: track1 is ready for AI, but track2 is not
    let dispatched_stages = stages_of(&dispatch_next_stages(&mut batch));
    assert_eq!(dispatched_stages.len(), 2);
    assert!(dispatched_stages.contains(&ProcessingStage::Keyfinder));
    assert!(dispatched_stages.contains(&ProcessingStage::Beatport));
    assert!(!dispatched_stages.contains(&ProcessingStage::Ai));
    assert!(!batch.stage_dispatched.get(ProcessingStage::Ai));

    let track2 = track_mut(&mut batch, file2);
    mark_stage_complete(track2, ProcessingStage::Keyfinder);
    mark_stage_complete(track2, ProcessingStage::Beatport);
    track2.tag = Some(tag_with_revision());

    // Second dispatch: both tracks are now ready for AI
    let dispatched = dispatch_next_stages(&mut batch);
    assert_eq!(dispatched.len(), 1);
    assert_eq!(dispatched[0].stage, ProcessingStage::Ai);

    // The AI input holds both tracks, each with its last revision
    let revisions = vec![Some(empty_track(file1)), Some(empty_track(file2))];
    let ai_input = ai_batch_input(&revisions).unwrap();
    assert_eq!(ai_input.tracks.len(), 2);

    assert!(batch.stage_dispatched.get(ProcessingStage::Ai));

    // No more dispatches
    assert!(dispatch_next_stages(&mut batch).is_empty());
}

#[test]
fn test_all_tracks_ready_for_ai_excludes_failed_tracks() {
    let mut track1 = TrackProcessingState::new("/test/track1.mp3".to_string());
    track1.set_stage_status(ProcessingStage::PrepareMedia, StatusKind::Succeeded);
    track1.set_stage_status(ProcessingStage::Keyfinder, StatusKind::Succeeded);
    track1.set_stage_status(ProcessingStage::Beatport, StatusKind::Skipped);

    let mut track2 = TrackProcessingState::new("/test/track2.mp3".to_string());
    track2.set_stage_status(ProcessingStage::PrepareMedia, StatusKind::Failed);

    let tracks = vec![
        BatchTrack { key: "/test/track1.mp3".to_string(), state: track1 },
        BatchTrack { key: "/test/track2.mp3".to_string(), state: track2 },
    ];

    assert!(all_tracks_ready_for_ai(&tracks));
}

#[test]
fn test_all_tracks_ready_for_ai_waits_for_non_failed_tracks() {
    let mut track1 = TrackProcessingState::new("/test/track1.mp3".to_string());
    track1.set_stage_status(ProcessingStage::PrepareMedia, StatusKind::Succeeded);
    track1.set_stage_status(ProcessingStage::Keyfinder, StatusKind::Succeeded);
    track1.set_stage_status(ProcessingStage::Beatport, StatusKind::Skipped);

    let mut track2 = TrackProcessingState::new("/test/track2.mp3".to_string());
    track2.set_stage_status(ProcessingStage::PrepareMedia, StatusKind::Succeeded);

    let tracks = vec![
        BatchTrack { key: "/test/track1.mp3".to_string(), state: track1 },
        BatchTrack { key: "/test/track2.mp3".to_string(), state: track2 },
    ];

    assert!(!all_tracks_ready_for_ai(&tracks));
}

// ---------------------------------------------------------------------------
// Status reports
// ---------------------------------------------------------------------------

struct TestContext {
    batches: Batches,
    batch_id: BatchId,
    file_path: String,
}

impl TestContext {
    fn new() -> Self {
        let file_path = "/test/track.mp3".to_string();
        let mut batches = Batches::new();
        let batch = make_batch_with_track(&file_path);
        let batch_id = batch.id;
        batches.add(batch);
        TestContext { batches, batch_id, file_path }
    }

    fn handle(&mut self, stage: ProcessingStage, kind: StatusKind) -> StatusOutcome {
        self.handle_prepared(stage, kind, None)
    }

    fn handle_prepared(
        &mut self,
        stage: ProcessingStage,
        kind: StatusKind,
        prepared: Option<PreparedMedia>,
    ) -> StatusOutcome {
        handle_track_status(
            &mut self.batches,
            TrackStatusUpdate {
                batch_id: self.batch_id,
                key: self.file_path.clone(),
                stage,
                kind,
                prepared,
            },
        )
    }

    fn get_track(&self) -> &TrackProcessingState {
        let b = self.batches.find(self.batch_id).unwrap();
        track_ref(&self.batches.batches[b], &self.file_path)
    }
}

fn dispatches_of(outcome: &StatusOutcome) -> Vec<Dispatch> {
    match outcome {
        StatusOutcome::Applied { dispatches, .. } => dispatches.clone(),
        _ => panic!("status was not applied"),
    }
}

#[test]
fn test_successful_stage_completion() {
    let mut ctx = TestContext::new();

    let outcome = ctx.handle_prepared(
        ProcessingStage::PrepareMedia,
        StatusKind::Succeeded,
        Some(PreparedMedia { file_path: "/test/file.aiff".to_string(), tag: Tag::new() }),
    );

    // Next stages were dispatched for the successful completion
    assert!(!dispatches_of(&outcome).is_empty());

    // Track state was updated
    assert_eq!(
        ctx.get_track().get_stage_status(ProcessingStage::PrepareMedia),
        Some(StatusKind::Succeeded)
    );
}

#[test]
fn test_prepare_media_complete() {
    let mut ctx = TestContext::new();
    let converted_path = "/test/track_converted.mp3".to_string();

    let mut tag = Tag::new();
    tag.set_title("Test Track");

    ctx.handle_prepared(
        ProcessingStage::PrepareMedia,
        StatusKind::Succeeded,
        Some(PreparedMedia { file_path: converted_path.clone(), tag }),
    );

    // The file path is now the converted one
    let track = ctx.get_track();
    assert_eq!(track.file_path, converted_path);

    // The tag was set
    assert_eq!(track.tag.as_ref().unwrap().title(), Some("Test Track"));
}

#[test]
fn test_skipped_stage_still_dispatches_next() {
    let mut ctx = TestContext::new();

    let outcome = ctx.handle(ProcessingStage::Keyfinder, StatusKind::Skipped);

    // Next stages were dispatched even though the stage was skipped
    assert!(!dispatches_of(&outcome).is_empty());

    // The stage is recorded as skipped
    assert_eq!(
        ctx.get_track().get_stage_status(ProcessingStage::Keyfinder),
        Some(StatusKind::Skipped)
    );
}

#[test]
fn test_failed_stage_does_not_dispatch_next() {
    let mut ctx = TestContext::new();

    let outcome = ctx.handle(ProcessingStage::PrepareMedia, StatusKind::Failed);

    // Nothing was dispatched for the failed stage
    assert!(dispatches_of(&outcome).is_empty());

    // The failure was still recorded
    assert_eq!(
        ctx.get_track().get_stage_status(ProcessingStage::PrepareMedia),
        Some(StatusKind::Failed)
    );
}

#[test]
fn test_batch_completion_detection() {
    let file_path = "/test/track.mp3";
    let mut batches = Batches::new();
    let mut batch = make_batch_with_track(file_path);

    let track = track_mut(&mut batch, file_path);
    mark_stage_complete(track, ProcessingStage::PrepareMedia);
    mark_stage_complete(track, ProcessingStage::Keyfinder);
    mark_stage_complete(track, ProcessingStage::Beatport);
    track.tag = Some(tag_with_revision());

    let batch_id = batch.id;
    batches.add(batch);

    // Complete the final AI stage
    let outcome = handle_track_status(
        &mut batches,
        TrackStatusUpdate {
            batch_id,
            key: file_path.to_string(),
            stage: ProcessingStage::Ai,
            kind: StatusKind::Succeeded,
            prepared: None,
        },
    );

    // The batch is marked complete, and completion is signalled once
    let b = batches.find(batch_id).unwrap();
    assert_eq!(batches.batches[b].state, BatchState::Complete);
    match outcome {
        StatusOutcome::Applied { batch_complete, completion_signal, events, .. } => {
            assert!(batch_complete);
            assert!(completion_signal);
            // The stage update is announced first, then the completion
            assert_eq!(
                events,
                vec![
                    StatusEvent::TrackStageUpdate {
                        track: 0,
                        stage: ProcessingStage::Ai,
                        kind: StatusKind::Succeeded,
                    },
                    StatusEvent::BatchCompleted,
                ]
            );
        }
        _ => panic!("status was not applied"),
    }
}

#[test]
fn test_unknown_batch_id_logs_error() {
    let mut ctx = TestContext::new();
    let unknown_batch = ProcessingBatch::new(vec!["/fake/file.mp3".to_string()]);

    let outcome = handle_track_status(
        &mut ctx.batches,
        TrackStatusUpdate {
            batch_id: unknown_batch.id,
            key: ctx.file_path.clone(),
            stage: ProcessingStage::PrepareMedia,
            kind: StatusKind::Succeeded,
            prepared: None,
        },
    );

    // Nothing was dispatched
    assert!(matches!(outcome, StatusOutcome::UnknownBatch));
}

#[test]
fn test_unknown_track_logs_error() {
    let mut ctx = TestContext::new();
    let unknown_file = "/test/unknown.mp3";

    let outcome = handle_track_status(
        &mut ctx.batches,
        TrackStatusUpdate {
            batch_id: ctx.batch_id,
            key: unknown_file.to_string(),
            stage: ProcessingStage::PrepareMedia,
            kind: StatusKind::Succeeded,
            prepared: None,
        },
    );

    // The original track is still there, the unknown one is not
    let b = ctx.batches.find(ctx.batch_id).unwrap();
    let batch = &ctx.batches.batches[b];
    assert!(batch.tracks.iter().any(|t| t.key == ctx.file_path));
    assert!(!batch.tracks.iter().any(|t| t.key == unknown_file));

    // Nothing was dispatched
    assert!(matches!(outcome, StatusOutcome::UnknownTrack));
}

#[test]
fn test_callback_system_all_status_transitions() {
    let mut tag = Tag::new();
    tag.set_title("Test Track");
    set_revisions_data(&mut tag, br#"{"revisions":[{"tags":{}}]}"#.to_vec());

    let mut ctx = TestContext::new();
    {
        let b = ctx.batches.find(ctx.batch_id).unwrap();
        let path = ctx.file_path.clone();
        track_mut(&mut ctx.batches.batches[b], &path).tag = Some(tag);
    }

    let kinds = [
        StatusKind::Waiting,
        StatusKind::Running,
        StatusKind::Skipped,
        StatusKind::Succeeded,
        StatusKind::Failed,
    ];
    let mut events = Vec::new();
    for kind in kinds {
        let outcome = ctx.handle(ProcessingStage::Keyfinder, kind);
        assert!(matches!(outcome, StatusOutcome::Applied { .. }));
        events.push(ctx.get_track().get_stage_status(ProcessingStage::Keyfinder).unwrap());
    }

    assert_eq!(events.len(), 5);
    assert_eq!(events, kinds.to_vec());
}

// ---------------------------------------------------------------------------
// Further cases
// ---------------------------------------------------------------------------

#[test]
fn new_batch_dispatches_prepare_media_for_each_track_once() {
    let mut batches = Batches::new();
    let batch = ProcessingBatch::new(vec![
        "/a.mp3".to_string(),
        "/b.mp3".to_string(),
        "/a.mp3".to_string(),
    ]);
    assert_eq!(batch.tracks.len(), 2);
    let (idx, dispatched) = handle_new_batch(&mut batches, batch);
    assert_eq!(idx, 0);
    assert_eq!(
        dispatched,
        vec![
            Dispatch { stage: ProcessingStage::PrepareMedia, track: Some(0) },
            Dispatch { stage: ProcessingStage::PrepareMedia, track: Some(1) },
        ]
    );
    // Dispatching again sends nothing: nothing is sent twice
    assert!(dispatch_next_stages(&mut batches.batches[0]).is_empty());
}

#[test]
fn lint_fix_is_never_dispatched_and_not_awaited() {
    let file_path = "/test/track.mp3";
    let mut batch = make_batch_with_track(file_path);
    let track = track_mut(&mut batch, file_path);
    mark_stage_complete(track, ProcessingStage::PrepareMedia);
    mark_stage_complete(track, ProcessingStage::Keyfinder);
    mark_stage_complete(track, ProcessingStage::Beatport);
    track.tag = Some(Tag::new());
    let stages = stages_of(&dispatch_next_stages(&mut batch));
    assert_eq!(stages, vec![ProcessingStage::Ai]);
    assert!(create_stage_input(ProcessingStage::LintFix, track_ref(&batch, file_path)).is_none());
    mark_stage_complete(track_mut(&mut batch, file_path), ProcessingStage::Ai);
    assert!(batch.is_complete());
}

#[test]
fn beatport_input_needs_the_tag() {
    let state = TrackProcessingState::new("/x.mp3".to_string());
    assert!(create_stage_input(ProcessingStage::Beatport, &state).is_none());
    assert!(create_stage_input(ProcessingStage::Keyfinder, &state).is_some());
    assert!(create_stage_input(ProcessingStage::Ai, &state).is_none());
}

#[test]
fn ai_input_skips_tracks_without_revision() {
    let none: Vec<Option<Track>> = vec![None, None];
    assert!(ai_batch_input(&none).is_none());
    let some = vec![None, Some(empty_track("/b.mp3"))];
    let input = ai_batch_input(&some).unwrap();
    assert_eq!(input.tracks.len(), 1);
    assert_eq!(input.tracks[0].file.file_path, "/b.mp3");
}

#[test]
fn failed_stage_counts_as_done_for_what_waits_on_it() {
    let mut batch = ProcessingBatch::new(vec!["/a.mp3".to_string(), "/b.mp3".to_string()]);
    mark_stage_complete(track_mut(&mut batch, "/a.mp3"), ProcessingStage::PrepareMedia);
    mark_stage_complete(track_mut(&mut batch, "/a.mp3"), ProcessingStage::Keyfinder);
    mark_stage_complete(track_mut(&mut batch, "/a.mp3"), ProcessingStage::Beatport);
    let b = track_mut(&mut batch, "/b.mp3");
    b.set_stage_status(ProcessingStage::PrepareMedia, StatusKind::Failed);
    b.stage_dispatched.set(ProcessingStage::PrepareMedia, true);
    // The failed track no longer holds the AI stage back, and its Keyfinder
    // runs, since a completed stage counts as done whatever its result.
    assert_eq!(
        stages_of(&dispatch_next_stages(&mut batch)),
        vec![ProcessingStage::Keyfinder, ProcessingStage::Ai]
    );
}

#[test]
fn empty_batch_plans_only_the_ai_stage() {
    let mut batches = Batches::new();
    let batch = ProcessingBatch::new(Vec::new());
    let (_, dispatched) = handle_new_batch(&mut batches, batch);
    assert_eq!(dispatched, vec![Dispatch { stage: ProcessingStage::Ai, track: None }]);
    // With no track, there is no AI input to send
    let none: Vec<Option<Track>> = Vec::new();
    assert!(ai_batch_input(&none).is_none());
}
