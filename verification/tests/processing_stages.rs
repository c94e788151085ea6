use id3::frame::UniqueFileIdentifier;
use id3::{Tag, TagLike};
use tune_manager::linter::engine::LintEngine;
use tune_manager::linter::violation::DecimalRounding;
use tune_manager::processing::error::ProcessingError;
use tune_manager::processing::lint_fix::process_lint_fix;
use tune_manager::processing::inputs::beatport_track_id;
use tune_manager::processing::media::{
    conversion_codec, ensure_media_container, media_extension, ContainerAction,
};
use tune_manager::processing::stages::{
    settle, AiError, AiInput, AiResult, BeatportError, BeatportResult, ContainerError,
    ConvertError, ItemStatus, KeyfinderError, KeyfinderInput, KeyfinderResult, LintFixError,
    PrepareMediaError, PrepareMediaResult, ProcessingStage, StageInput, StageMode, StageStatus,
    StatusKind,
};
use tune_manager::processing::tag_state::{
    existing_media_hash, processing_state_data, revisions_data, set_processing_state_data,
    set_revisions_data, MEDIA_HASH_OWNER,
};
use tune_manager::track::{Track, TrackFields, TrackFile};

fn prepare_result(title: Option<&str>, artist: Option<&str>) -> PrepareMediaResult {
    let mut tag = Tag::new();
    let mut fields = TrackFields::empty();
    if let Some(t) = title {
        tag.set_title(t);
        fields.title = Some(t.to_string());
    }
    if let Some(a) = artist {
        tag.set_artist(a);
        fields.artist = Some(a.to_string());
    }
    PrepareMediaResult {
        file_path: "/test/track.mp3".to_string(),
        media_hash: vec![1, 2, 3],
        tag,
        fields,
    }
}

// ---------------------------------------------------------------------------
// Revisions produced by stage statuses
// ---------------------------------------------------------------------------

#[test]
fn test_produce_revision_from_prepare_media() {
    let result = prepare_result(Some("Test Track"), None);

    // PrepareMedia doesn't need a previous revision
    let status = StageStatus::PrepareMedia(ItemStatus::Complete(Ok(result)));
    let revision = status.produce_revision(None);

    assert!(revision.is_some());
}

#[test]
fn test_produce_revision_from_keyfinder_with_previous() {
    let prev_revision = TrackFields::empty();

    let result = KeyfinderResult { detected_key: Some("Am".to_string()) };

    let status = StageStatus::Keyfinder(ItemStatus::Complete(Ok(result)));
    let revision = status.produce_revision(Some(&prev_revision));

    assert!(revision.is_some());
}

#[test]
fn test_produce_revision_from_keyfinder_without_previous() {
    let result = KeyfinderResult { detected_key: Some("Am".to_string()) };

    let status = StageStatus::Keyfinder(ItemStatus::Complete(Ok(result)));
    let revision = status.produce_revision(None);

    // Keyfinder needs a previous revision
    assert!(revision.is_none());
}

#[test]
fn test_produce_revision_from_failed_stage() {
    let error = PrepareMediaError::Container(ContainerError::BadPath);
    let status = StageStatus::PrepareMedia(ItemStatus::Complete(Err(error)));
    let revision = status.produce_revision(None);

    // Failed stages produce no revision
    assert!(revision.is_none());
}

#[test]
fn test_produce_revision_from_running_stage() {
    let status: StageStatus = StageStatus::PrepareMedia(ItemStatus::Running);
    let revision = status.produce_revision(None);

    // Running stages produce no revision
    assert!(revision.is_none());
}

#[test]
fn test_revision_chaining() {
    // PrepareMedia creates the initial revision
    let status = StageStatus::PrepareMedia(ItemStatus::Complete(Ok(prepare_result(
        Some("Test Track"),
        Some("Test Artist"),
    ))));
    let initial_revision = status.produce_revision(None).unwrap();
    assert_eq!(initial_revision.title, Some("Test Track".to_string()));
    assert_eq!(initial_revision.artist, Some("Test Artist".to_string()));
    assert!(initial_revision.key.is_none());

    // Keyfinder chains a new revision holding the key
    let keyfinder = StageStatus::Keyfinder(ItemStatus::Complete(Ok(KeyfinderResult {
        detected_key: Some("Am".to_string()),
    })));
    let latest_revision = keyfinder.produce_revision(Some(&initial_revision)).unwrap();

    // All previous fields are kept, plus the new key
    assert_eq!(latest_revision.title, Some("Test Track".to_string()));
    assert_eq!(latest_revision.artist, Some("Test Artist".to_string()));
    assert_eq!(latest_revision.key, Some("Am".to_string()));
}

#[test]
fn beatport_revision_overlays_known_fields() {
    let mut last = TrackFields::empty();
    last.title = Some("Old".to_string());
    last.artist = Some("Artist".to_string());
    let mut info = TrackFields::empty();
    info.title = Some("New".to_string());
    info.bpm = Some("128".to_string());
    let status =
        StageStatus::Beatport(ItemStatus::Complete(Ok(BeatportResult { track_info: Some(info) })));
    let r = status.produce_revision(Some(&last)).unwrap();
    assert_eq!(r.title, Some("New".to_string()));
    assert_eq!(r.artist, Some("Artist".to_string()));
    assert_eq!(r.bpm, Some("128".to_string()));
}

#[test]
fn ai_revision_takes_the_response_for_the_media_hash() {
    let mut last = TrackFields::empty();
    last.media_hash = Some("h2".to_string());
    let mut first = TrackFields::empty();
    first.title = Some("One".to_string());
    let mut second = TrackFields::empty();
    second.title = Some("Two".to_string());
    let status = StageStatus::Ai(ItemStatus::Complete(Ok(AiResult {
        responses: vec![("h1".to_string(), first), ("h2".to_string(), second)],
    })));
    let r = status.produce_revision(Some(&last)).unwrap();
    assert_eq!(r.title, Some("Two".to_string()));

    last.media_hash = Some("h3".to_string());
    assert!(status.produce_revision(Some(&last)).is_none());
}

// ---------------------------------------------------------------------------
// Processing state kept in the tag
// ---------------------------------------------------------------------------

#[test]
fn test_empty_tag_has_no_completed_stages() {
    let tag = Tag::new();
    assert!(processing_state_data(&tag).is_none());
}

#[test]
fn test_mark_and_get_completed_stage() {
    let mut tag = Tag::new();
    let state = br#"{"completed_stages":["PrepareMedia"]}"#.to_vec();
    set_processing_state_data(&mut tag, state.clone());
    assert_eq!(processing_state_data(&tag), Some(state));
}

#[test]
fn test_mark_multiple_stages() {
    let mut tag = Tag::new();
    set_processing_state_data(&mut tag, br#"{"completed_stages":["PrepareMedia"]}"#.to_vec());
    let both = br#"{"completed_stages":["PrepareMedia","Keyfinder"]}"#.to_vec();
    set_processing_state_data(&mut tag, both.clone());
    assert_eq!(processing_state_data(&tag), Some(both));
    // Only one object holds the processing state
    assert_eq!(tag.encapsulated_objects().count(), 1);
}

#[test]
fn test_empty_tag_has_no_track_revisions() {
    let tag = Tag::new();
    assert!(revisions_data(&tag).is_none());
}

#[test]
fn test_append_track_revision() {
    let mut tag = Tag::new();
    let history = br#"{"revisions":[{"tags":{"title":"Test Title"}}]}"#.to_vec();
    set_revisions_data(&mut tag, history.clone());
    assert_eq!(revisions_data(&tag), Some(history));
}

#[test]
fn test_append_multiple_track_revisions() {
    let mut tag = Tag::new();
    set_revisions_data(&mut tag, br#"{"revisions":[{"tags":{"title":"Title 1"}}]}"#.to_vec());
    let history =
        br#"{"revisions":[{"tags":{"title":"Title 1"}},{"tags":{"title":"Title 2"}}]}"#.to_vec();
    set_revisions_data(&mut tag, history.clone());
    assert_eq!(revisions_data(&tag), Some(history));
}

#[test]
fn state_and_revisions_are_kept_apart() {
    let mut tag = Tag::new();
    set_processing_state_data(&mut tag, b"state".to_vec());
    set_revisions_data(&mut tag, b"history".to_vec());
    assert_eq!(processing_state_data(&tag), Some(b"state".to_vec()));
    assert_eq!(revisions_data(&tag), Some(b"history".to_vec()));
}

#[test]
fn media_hash_is_reused_only_when_alone_and_owned() {
    let mut tag = Tag::new();
    assert!(existing_media_hash(&tag).is_none());
    tag.add_frame(UniqueFileIdentifier {
        owner_identifier: MEDIA_HASH_OWNER.to_string(),
        identifier: vec![7, 8, 9],
    });
    assert_eq!(existing_media_hash(&tag), Some(vec![7, 8, 9]));
    tag.add_frame(UniqueFileIdentifier {
        owner_identifier: "someone-else".to_string(),
        identifier: vec![1],
    });
    assert!(existing_media_hash(&tag).is_none());

    let mut other = Tag::new();
    other.add_frame(UniqueFileIdentifier {
        owner_identifier: "someone-else".to_string(),
        identifier: vec![1],
    });
    assert!(existing_media_hash(&other).is_none());
}

// ---------------------------------------------------------------------------
// Stages, statuses and errors
// ---------------------------------------------------------------------------

#[test]
fn stage_names_and_modes() {
    let all = ProcessingStage::all();
    let names: Vec<&str> = all.iter().map(|s| s.name()).collect();
    assert_eq!(names, vec!["PrepareMedia", "Keyfinder", "Beatport", "LintFix", "Ai"]);
    for s in all {
        assert_eq!(ProcessingStage::from_name(s.name()), Some(s));
    }
    assert_eq!(ProcessingStage::from_name("Unknown"), None);
    assert_eq!(ProcessingStage::Ai.mode(), StageMode::Batch);
    assert_eq!(ProcessingStage::Beatport.mode(), StageMode::IndividualTrack);
}

#[test]
fn skipped_status_carries_stage_and_reason() {
    let st = ProcessingStage::Keyfinder.as_skipped_status("Already has key".to_string());
    assert_eq!(st.stage(), ProcessingStage::Keyfinder);
    assert!(st.is_skipped());
    assert!(st.is_done());
    assert!(!st.is_success());
    assert!(!st.has_failed());
    assert_eq!(st.item_status(), StatusKind::Skipped);
}

#[test]
fn settle_skips_on_skipping_errors_only() {
    let r: Result<BeatportResult, BeatportError> = Err(BeatportError::NoUrl);
    match settle(r) {
        ItemStatus::Skipped(reason) => assert_eq!(reason, "No Beatport URL found in tag"),
        _ => panic!("expected a skip"),
    }
    let r: Result<BeatportResult, BeatportError> = Err(BeatportError::InvalidUrl);
    assert!(matches!(settle(r), ItemStatus::Complete(Err(BeatportError::InvalidUrl))));
    let r: Result<KeyfinderResult, KeyfinderError> =
        Ok(KeyfinderResult { detected_key: None });
    assert!(matches!(settle(r), ItemStatus::Complete(Ok(_))));
    let r: Result<AiResult, AiError> = Err(AiError::NotConfigured);
    assert!(matches!(settle(r), ItemStatus::Skipped(_)));
    let r: Result<AiResult, AiError> = Err(AiError::Failed("boom".to_string()));
    assert!(matches!(settle(r), ItemStatus::Complete(Err(_))));
}

#[test]
fn error_messages() {
    assert_eq!(BeatportError::NotConfigured.message(), "Beatport not configured");
    assert!(BeatportError::NotConfigured.causes_skip());
    assert!(BeatportError::NoUrl.causes_skip());
    assert!(!BeatportError::Api("x".to_string()).causes_skip());
    assert_eq!(BeatportError::Io("gone".to_string()).message(), "IO error: gone");
    assert_eq!(LintFixError::NoRevision.message(), "no prior track revision on tag");
    assert!(LintFixError::NoRevision.causes_skip());
    assert_eq!(
        ConvertError::UnsupportedType("ogg".to_string()).message(),
        "Cannot convert ogg to aiff file"
    );
    assert_eq!(ConvertError::FFMpeg("bad".to_string()).message(), "Conversion failed: bad");
    assert_eq!(
        ContainerError::UnsupportedType("txt".to_string()).message(),
        "Cannot import file of type txt"
    );
    assert_eq!(KeyfinderError::BadPath.message(), "Invalid input path");
    assert!(!PrepareMediaError::Container(ContainerError::BadPath).causes_skip());
    assert_eq!(PrepareMediaError::Container(ContainerError::BadPath).message(), "Invalid input path");
}

#[test]
fn reported_paths_of_inputs() {
    let one = StageInput::Keyfinder(KeyfinderInput { file_path: "/a.mp3".to_string() });
    assert_eq!(one.reported_paths(), vec!["/a.mp3".to_string()]);
    let track = |p: &str| Track {
        file: TrackFile { file_path: p.to_string(), mtime: 0 },
        fields: TrackFields::empty(),
    };
    let ai = StageInput::Ai(AiInput { tracks: vec![track("/a.mp3"), track("/b.mp3")] });
    assert_eq!(ai.reported_paths(), vec!["/a.mp3".to_string(), "/b.mp3".to_string()]);
    assert_eq!(ai.stage(), ProcessingStage::Ai);
}

// ---------------------------------------------------------------------------
// Media containers and conversion
// ---------------------------------------------------------------------------

#[test]
fn media_containers() {
    assert_eq!(media_extension("/music/a.MP3"), Some("mp3".to_string()));
    assert_eq!(media_extension("/music/noext"), None);
    assert!(matches!(ensure_media_container("/m/a.mp3"), Ok(ContainerAction::Valid)));
    assert!(matches!(ensure_media_container("/m/a.AIFF"), Ok(ContainerAction::Valid)));
    assert!(matches!(ensure_media_container("/m/a.wav"), Ok(ContainerAction::ConvertToAiff)));
    assert!(matches!(ensure_media_container("/m/a.flac"), Ok(ContainerAction::ConvertToAiff)));
    assert!(matches!(ensure_media_container("/m/a.m4a"), Ok(ContainerAction::ConvertToAiff)));
    match ensure_media_container("/m/a.ogg") {
        Err(ContainerError::UnsupportedType(t)) => assert_eq!(t, "ogg"),
        _ => panic!("expected an unsupported type"),
    }
    assert!(matches!(ensure_media_container("/m/noext"), Err(ContainerError::BadPath)));
}

#[test]
fn conversion_codecs() {
    assert_eq!(conversion_codec("wav").ok(), Some("copy"));
    assert_eq!(conversion_codec("flac").ok(), Some("copy"));
    assert_eq!(conversion_codec("m4a").ok(), Some("copy"));
    assert!(matches!(conversion_codec("mp3"), Err(ConvertError::UnsupportedType(_))));
}

#[test]
fn beatport_lookup_decisions() {
    assert!(matches!(
        beatport_track_id(false, Some("u".to_string()), Some(1)),
        Err(BeatportError::NotConfigured)
    ));
    assert!(matches!(beatport_track_id(true, None, Some(1)), Err(BeatportError::NoUrl)));
    assert!(matches!(
        beatport_track_id(true, Some("u".to_string()), None),
        Err(BeatportError::InvalidUrl)
    ));
    assert_eq!(beatport_track_id(true, Some("u".to_string()), Some(42)).ok(), Some(42));
}

// ---------------------------------------------------------------------------
// The lint-fix stage
// ---------------------------------------------------------------------------

struct TwoPlaces;

impl DecimalRounding for TwoPlaces {
    fn round_two_decimals(&self, text: &str) -> Option<String> {
        text.parse::<f64>().ok().map(|n| format!("{:.2}", n))
    }
}

#[test]
fn lint_fix_needs_a_revision() {
    let engine = LintEngine::new();
    let file = TrackFile { file_path: "/a.mp3".to_string(), mtime: 0 };
    let r = process_lint_fix(file, None, Tag::new(), &engine, &TwoPlaces);
    assert!(matches!(r, Err(LintFixError::NoRevision)));
}

#[test]
fn lint_fix_applies_fixes_to_the_revision() {
    let engine = LintEngine::new();
    let file = TrackFile { file_path: "/a.mp3".to_string(), mtime: 0 };
    let mut fields = TrackFields::empty();
    fields.title = Some("  Title (Original Mix) ".to_string());
    fields.artist = Some("A feat. B".to_string());
    fields.bpm = Some("128.50".to_string());
    let out = process_lint_fix(file, Some(fields), Tag::new(), &engine, &TwoPlaces).unwrap();
    assert_eq!(out.fields.title, Some("Title".to_string()));
    assert_eq!(out.fields.artist, Some("A Ft. B".to_string()));
    assert_eq!(out.fields.bpm, Some("128.5".to_string()));
    assert!(!out.hit_max_iterations);
    assert_eq!(out.results.len(), 20);
}

#[test]
fn inputs_and_statuses_convert_into_their_stage() {
    let input: StageInput = KeyfinderInput { file_path: "/a.mp3".to_string() }.into();
    assert_eq!(input.stage(), ProcessingStage::Keyfinder);
    let status: StageStatus = ItemStatus::<KeyfinderResult, KeyfinderError>::Running.into();
    assert_eq!(status.stage(), ProcessingStage::Keyfinder);
    assert_eq!(status.item_status(), StatusKind::Running);
    let status: StageStatus =
        ItemStatus::<AiResult, AiError>::Complete(Err(AiError::Failed("x".to_string()))).into();
    assert_eq!(status.stage(), ProcessingStage::Ai);
    assert!(status.has_failed());
    assert!(status.is_done());
}
