//! The stages of the import pipeline, what each takes and gives, and the
//! revision of a track's fields that each successful stage produces.
use vstd::prelude::*;
use id3::Tag;
use crate::linter::result::RuleResult;
use crate::processing::error::ProcessingError;
use crate::text::string_from;
use crate::track::{opt_text, FieldsView, Track, TrackFields};

verus! {

/// The stages of the processing pipeline, in the order in which they run.
#[derive(Clone, Copy, PartialEq, Eq, Debug, Hash, Structural)]
pub enum ProcessingStage {
    /// Converts media to a supported format (AIFF/MP3), ensures ID3v2.4 tags,
    /// and computes the media hash.
    PrepareMedia,
    /// Detects the musical key of the audio.
    Keyfinder,
    /// Fetches the track's metadata from Beatport, where its tag names a
    /// Beatport URL.
    Beatport,
    /// Runs the lint engine and applies its fixes; the violations left are
    /// kept on the result for later stages.
    LintFix,
    /// Cleans up and normalizes metadata with a language model, for the batch
    /// as a whole.
    Ai,
}

/// Whether a stage runs per track or once for a whole batch.
#[derive(Clone, Copy, PartialEq, Eq, Debug, Structural)]
pub enum StageMode {
    Batch,
    IndividualTrack,
}

impl ProcessingStage {
    pub open spec fn mode_spec(self) -> StageMode {
        match self {
            ProcessingStage::Ai => StageMode::Batch,
            _ => StageMode::IndividualTrack,
        }
    }

    /// The stages in pipeline order.
    pub open spec fn all_spec() -> Seq<ProcessingStage> {
        seq![
            ProcessingStage::PrepareMedia,
            ProcessingStage::Keyfinder,
            ProcessingStage::Beatport,
            ProcessingStage::LintFix,
            ProcessingStage::Ai,
        ]
    }

    pub open spec fn name_spec(self) -> Seq<char> {
        match self {
            ProcessingStage::PrepareMedia => "PrepareMedia"@,
            ProcessingStage::Keyfinder => "Keyfinder"@,
            ProcessingStage::Beatport => "Beatport"@,
            ProcessingStage::LintFix => "LintFix"@,
            ProcessingStage::Ai => "Ai"@,
        }
    }

    /// The level at which this stage runs.
    pub fn mode(&self) -> (r: StageMode)
        ensures
            r == self.mode_spec(),
    {
        match self {
            ProcessingStage::Ai => StageMode::Batch,
            _ => StageMode::IndividualTrack,
        }
    }

    /// The stages in pipeline order.
    pub fn all() -> (r: [ProcessingStage; 5])
        ensures
            r@ == Self::all_spec(),
    {
        let r = [
            ProcessingStage::PrepareMedia,
            ProcessingStage::Keyfinder,
            ProcessingStage::Beatport,
            ProcessingStage::LintFix,
            ProcessingStage::Ai,
        ];
        assert(r@ =~= Self::all_spec());
        r
    }

    /// The stage's name, as it is written in processing state.
    pub fn name(&self) -> (r: &'static str)
        ensures
            r@ == self.name_spec(),
    {
        match self {
            ProcessingStage::PrepareMedia => "PrepareMedia",
            ProcessingStage::Keyfinder => "Keyfinder",
            ProcessingStage::Beatport => "Beatport",
            ProcessingStage::LintFix => "LintFix",
            ProcessingStage::Ai => "Ai",
        }
    }

    /// The stage with the given name.
    pub fn from_name(name: &str) -> (r: Option<ProcessingStage>)
        ensures
            match r {
                Some(s) => s.name_spec() == name@,
                None => forall|s: ProcessingStage| s.name_spec() != name@,
            },
    {
        let v = crate::text::chars_of(name);
        if crate::text::chars_are(&v, "PrepareMedia") {
            Some(ProcessingStage::PrepareMedia)
        } else if crate::text::chars_are(&v, "Keyfinder") {
            Some(ProcessingStage::Keyfinder)
        } else if crate::text::chars_are(&v, "Beatport") {
            Some(ProcessingStage::Beatport)
        } else if crate::text::chars_are(&v, "LintFix") {
            Some(ProcessingStage::LintFix)
        } else if crate::text::chars_are(&v, "Ai") {
            Some(ProcessingStage::Ai)
        } else {
            assert forall|s: ProcessingStage| s.name_spec() != name@ by {
                match s {
                    ProcessingStage::PrepareMedia => {},
                    ProcessingStage::Keyfinder => {},
                    ProcessingStage::Beatport => {},
                    ProcessingStage::LintFix => {},
                    ProcessingStage::Ai => {},
                }
            }
            None
        }
    }

    /// A status of this stage, marked skipped for `reason`.
    pub fn as_skipped_status(&self, reason: String) -> (r: StageStatus)
        ensures
            r.stage_spec() == *self,
            r.kind_spec() == StatusKind::Skipped,
            r.skip_reason() == Some(reason@),
    {
        match self {
            ProcessingStage::PrepareMedia => StageStatus::PrepareMedia(ItemStatus::Skipped(reason)),
            ProcessingStage::Keyfinder => StageStatus::Keyfinder(ItemStatus::Skipped(reason)),
            ProcessingStage::Beatport => StageStatus::Beatport(ItemStatus::Skipped(reason)),
            ProcessingStage::LintFix => StageStatus::LintFix(ItemStatus::Skipped(reason)),
            ProcessingStage::Ai => StageStatus::Ai(ItemStatus::Skipped(reason)),
        }
    }
}

/// Status of an item handed to a stage's processor.
#[derive(Debug)]
pub enum ItemStatus<Output, Error> {
    /// Queued, not yet started.
    Waiting,
    /// Being processed.
    Running,
    /// Skipped, for the given reason (for instance, the stage is not configured).
    Skipped(String),
    /// Done, with a result.
    Complete(Result<Output, Error>),
}

/// An item status without its payload.
#[derive(Clone, Copy, PartialEq, Eq, Debug, Structural)]
pub enum StatusKind {
    Waiting,
    Running,
    Skipped,
    Succeeded,
    Failed,
}

impl StatusKind {
    /// Completed (either way) or skipped.
    pub open spec fn done(self) -> bool {
        self == StatusKind::Succeeded || self == StatusKind::Failed || self == StatusKind::Skipped
    }

    pub fn is_done(&self) -> (r: bool)
        ensures
            r == self.done(),
    {
        match self {
            StatusKind::Succeeded | StatusKind::Failed | StatusKind::Skipped => true,
            _ => false,
        }
    }
}

impl<Output, Error> ItemStatus<Output, Error> {
    pub open spec fn kind_spec(&self) -> StatusKind {
        match self {
            ItemStatus::Waiting => StatusKind::Waiting,
            ItemStatus::Running => StatusKind::Running,
            ItemStatus::Skipped(_) => StatusKind::Skipped,
            ItemStatus::Complete(Ok(_)) => StatusKind::Succeeded,
            ItemStatus::Complete(Err(_)) => StatusKind::Failed,
        }
    }

    pub open spec fn skip_reason(&self) -> Option<Seq<char>> {
        match self {
            ItemStatus::Skipped(r) => Some(r@),
            _ => None,
        }
    }

    /// The status without its payload.
    pub fn kind(&self) -> (r: StatusKind)
        ensures
            r == self.kind_spec(),
    {
        match self {
            ItemStatus::Waiting => StatusKind::Waiting,
            ItemStatus::Running => StatusKind::Running,
            ItemStatus::Skipped(_) => StatusKind::Skipped,
            ItemStatus::Complete(Ok(_)) => StatusKind::Succeeded,
            ItemStatus::Complete(Err(_)) => StatusKind::Failed,
        }
    }
}

/// What a processor reports once its work is done: an error that asks for
/// the stage to be skipped becomes `Skipped`, with the error's message as the
/// reason; any other result becomes `Complete`.
pub fn settle<Output, Error: ProcessingError>(result: Result<Output, Error>) -> (r: ItemStatus<
    Output,
    Error,
>)
    ensures
        match result {
            Err(e) => if e.skips() {
                r.skip_reason() == Some(e.message_spec())
            } else {
                r == ItemStatus::<Output, Error>::Complete(result)
            },
            Ok(_) => r == ItemStatus::<Output, Error>::Complete(result),
        },
{
    match result {
        Err(e) => {
            if e.causes_skip() {
                ItemStatus::Skipped(e.message())
            } else {
                ItemStatus::Complete(Err(e))
            }
        },
        Ok(o) => ItemStatus::Complete(Ok(o)),
    }
}

// ---------------------------------------------------------------------------
// Inputs, results and errors of the stages.
// ---------------------------------------------------------------------------

/// Why converting a file to AIFF failed.
#[derive(Debug)]
pub enum ConvertError {
    BadPath,
    UnsupportedType(String),
    /// The converter could not be run; the I/O error's message.
    Command(String),
    /// The converter failed; what it wrote to standard error.
    FFMpeg(String),
}

/// Why a file's container cannot be used.
#[derive(Debug)]
pub enum ContainerError {
    BadPath,
    UnsupportedType(String),
    ConvertError(ConvertError),
}

/// Why the media hash could not be had.
#[derive(Debug)]
pub enum MediaHashError {
    /// Computing the hash failed; the reason.
    HashingFailed(String),
    /// Writing the hash into the tag failed; the tag error's message.
    WriteError(String),
}

#[derive(Debug)]
pub enum PrepareMediaError {
    Container(ContainerError),
    MediaHash(MediaHashError),
    /// Reading or writing the tag failed; the tag error's message.
    Tag(String),
}

#[derive(Debug)]
pub struct PrepareMediaInput {
    pub file_path: String,
}

/// What preparing a file gives: where the file now is (it may have been
/// converted), its media hash, its tag, and the fields read from that tag.
#[derive(Debug)]
pub struct PrepareMediaResult {
    pub file_path: String,
    pub media_hash: Vec<u8>,
    pub tag: Tag,
    pub fields: TrackFields,
}

#[derive(Debug)]
pub struct KeyfinderInput {
    pub file_path: String,
}

#[derive(Debug)]
pub struct KeyfinderResult {
    pub detected_key: Option<String>,
}

#[derive(Debug)]
pub enum KeyfinderError {
    BadPath,
    /// The key detector failed; the reason.
    Failed(String),
}

#[derive(Debug)]
pub struct BeatportInput {
    pub file_path: String,
    pub tag: Tag,
}

/// What Beatport knows of a track: the fields it has a value for.
#[derive(Debug)]
pub struct BeatportResult {
    pub track_info: Option<TrackFields>,
}

#[derive(Debug)]
pub enum BeatportError {
    NotConfigured,
    NoUrl,
    InvalidUrl,
    /// The Beatport API failed; its message.
    Api(String),
    /// An I/O error; its message.
    Io(String),
}

#[derive(Debug)]
pub struct LintFixInput {
    pub file_path: String,
    pub tag: Tag,
}

/// Outcome of the lint-fix stage.
#[derive(Debug)]
pub struct LintFixResult {
    /// The fields after the fixes, which become the new revision.
    pub fields: TrackFields,
    /// Every rule's final result after the fix loop ended.
    pub results: Vec<RuleResult>,
    /// Whether the fix loop stopped at its cap without converging.
    pub hit_max_iterations: bool,
}

/// The lint-fix stage fails only when the tag holds no revision yet.
#[derive(Debug)]
pub enum LintFixError {
    NoRevision,
}

#[derive(Debug)]
pub struct AiInput {
    pub tracks: Vec<Track>,
}

/// The cleaned-up fields the model gave, keyed by the media hash of the
/// track they belong to.
#[derive(Debug)]
pub struct AiResult {
    pub responses: Vec<(String, TrackFields)>,
}

#[derive(Debug)]
pub enum AiError {
    NotConfigured,
    /// The request failed; the reason.
    Failed(String),
}

/// The work handed to a stage's processor.
#[derive(Debug)]
pub enum StageInput {
    PrepareMedia(PrepareMediaInput),
    Keyfinder(KeyfinderInput),
    Beatport(BeatportInput),
    LintFix(LintFixInput),
    Ai(AiInput),
}

impl StageInput {
    pub open spec fn stage_spec(&self) -> ProcessingStage {
        match self {
            StageInput::PrepareMedia(_) => ProcessingStage::PrepareMedia,
            StageInput::Keyfinder(_) => ProcessingStage::Keyfinder,
            StageInput::Beatport(_) => ProcessingStage::Beatport,
            StageInput::LintFix(_) => ProcessingStage::LintFix,
            StageInput::Ai(_) => ProcessingStage::Ai,
        }
    }

    /// The stage this input is for.
    pub fn stage(&self) -> (r: ProcessingStage)
        ensures
            r == self.stage_spec(),
    {
        match self {
            StageInput::PrepareMedia(_) => ProcessingStage::PrepareMedia,
            StageInput::Keyfinder(_) => ProcessingStage::Keyfinder,
            StageInput::Beatport(_) => ProcessingStage::Beatport,
            StageInput::LintFix(_) => ProcessingStage::LintFix,
            StageInput::Ai(_) => ProcessingStage::Ai,
        }
    }
}

/// The status of one stage for one track, with the stage's result when it
/// has one.
#[derive(Debug)]
pub enum StageStatus {
    PrepareMedia(ItemStatus<PrepareMediaResult, PrepareMediaError>),
    Keyfinder(ItemStatus<KeyfinderResult, KeyfinderError>),
    Beatport(ItemStatus<BeatportResult, BeatportError>),
    LintFix(ItemStatus<LintFixResult, LintFixError>),
    Ai(ItemStatus<AiResult, AiError>),
}

/// The fields of `last` with those `info` has a value for replaced.
pub open spec fn overlay(last: FieldsView, info: FieldsView) -> FieldsView {
    FieldsView {
        media_hash: if info.media_hash is Some { info.media_hash } else { last.media_hash },
        artist: if info.artist is Some { info.artist } else { last.artist },
        title: if info.title is Some { info.title } else { last.title },
        album: if info.album is Some { info.album } else { last.album },
        remixer: if info.remixer is Some { info.remixer } else { last.remixer },
        publisher: if info.publisher is Some { info.publisher } else { last.publisher },
        catalog_id: if info.catalog_id is Some { info.catalog_id } else { last.catalog_id },
        year: if info.year is Some { info.year } else { last.year },
        genre: if info.genre is Some { info.genre } else { last.genre },
        key: if info.key is Some { info.key } else { last.key },
        bpm: if info.bpm is Some { info.bpm } else { last.bpm },
        disc: if info.disc is Some { info.disc } else { last.disc },
        track: if info.track is Some { info.track } else { last.track },
    }
}

/// The fields of the first response keyed by `hash`.
pub open spec fn ai_response(responses: Seq<(String, TrackFields)>, hash: Seq<char>) -> Option<FieldsView>
    decreases responses.len(),
{
    if responses.len() == 0 {
        None
    } else if responses[0].0@ == hash {
        Some(responses[0].1@)
    } else {
        ai_response(responses.drop_first(), hash)
    }
}

impl StageStatus {
    pub open spec fn stage_spec(&self) -> ProcessingStage {
        match self {
            StageStatus::PrepareMedia(_) => ProcessingStage::PrepareMedia,
            StageStatus::Keyfinder(_) => ProcessingStage::Keyfinder,
            StageStatus::Beatport(_) => ProcessingStage::Beatport,
            StageStatus::LintFix(_) => ProcessingStage::LintFix,
            StageStatus::Ai(_) => ProcessingStage::Ai,
        }
    }

    pub open spec fn kind_spec(&self) -> StatusKind {
        match self {
            StageStatus::PrepareMedia(s) => s.kind_spec(),
            StageStatus::Keyfinder(s) => s.kind_spec(),
            StageStatus::Beatport(s) => s.kind_spec(),
            StageStatus::LintFix(s) => s.kind_spec(),
            StageStatus::Ai(s) => s.kind_spec(),
        }
    }

    pub open spec fn skip_reason(&self) -> Option<Seq<char>> {
        match self {
            StageStatus::PrepareMedia(s) => s.skip_reason(),
            StageStatus::Keyfinder(s) => s.skip_reason(),
            StageStatus::Beatport(s) => s.skip_reason(),
            StageStatus::LintFix(s) => s.skip_reason(),
            StageStatus::Ai(s) => s.skip_reason(),
        }
    }

    /// The revision that this status produces, given the track's last
    /// revision: a successful PrepareMedia gives the fields read from the
    /// tag, and a successful LintFix the fixed fields; Keyfinder, Beatport
    /// and AI build on the last revision and give nothing without one;
    /// anything but success gives nothing.
    pub open spec fn revision_spec(&self, last: Option<FieldsView>) -> Option<FieldsView> {
        match self {
            StageStatus::PrepareMedia(ItemStatus::Complete(Ok(r))) => Some(r.fields@),
            StageStatus::Keyfinder(ItemStatus::Complete(Ok(r))) => match last {
                Some(l) => Some(
                    match r.detected_key {
                        Some(k) => FieldsView { key: Some(k@), ..l },
                        None => l,
                    },
                ),
                None => None,
            },
            StageStatus::Beatport(ItemStatus::Complete(Ok(r))) => match last {
                Some(l) => Some(
                    match r.track_info {
                        Some(info) => overlay(l, info@),
                        None => l,
                    },
                ),
                None => None,
            },
            StageStatus::LintFix(ItemStatus::Complete(Ok(r))) => Some(r.fields@),
            StageStatus::Ai(ItemStatus::Complete(Ok(r))) => match last {
                Some(l) => match l.media_hash {
                    Some(h) => ai_response(r.responses@, h),
                    None => None,
                },
                None => None,
            },
            _ => None,
        }
    }

    /// The stage this status is for.
    pub fn stage(&self) -> (r: ProcessingStage)
        ensures
            r == self.stage_spec(),
    {
        match self {
            StageStatus::PrepareMedia(_) => ProcessingStage::PrepareMedia,
            StageStatus::Keyfinder(_) => ProcessingStage::Keyfinder,
            StageStatus::Beatport(_) => ProcessingStage::Beatport,
            StageStatus::LintFix(_) => ProcessingStage::LintFix,
            StageStatus::Ai(_) => ProcessingStage::Ai,
        }
    }

    /// The status without its payload.
    pub fn item_status(&self) -> (r: StatusKind)
        ensures
            r == self.kind_spec(),
    {
        match self {
            StageStatus::PrepareMedia(s) => s.kind(),
            StageStatus::Keyfinder(s) => s.kind(),
            StageStatus::Beatport(s) => s.kind(),
            StageStatus::LintFix(s) => s.kind(),
            StageStatus::Ai(s) => s.kind(),
        }
    }

    /// Completed (either way) or skipped. A completed stage may have failed.
    pub fn is_done(&self) -> (r: bool)
        ensures
            r == self.kind_spec().done(),
    {
        self.item_status().is_done()
    }

    /// Completed successfully.
    pub fn is_success(&self) -> (r: bool)
        ensures
            r == (self.kind_spec() == StatusKind::Succeeded),
    {
        self.item_status() == StatusKind::Succeeded
    }

    /// Completed with an error.
    pub fn has_failed(&self) -> (r: bool)
        ensures
            r == (self.kind_spec() == StatusKind::Failed),
    {
        self.item_status() == StatusKind::Failed
    }

    /// Skipped.
    pub fn is_skipped(&self) -> (r: bool)
        ensures
            r == (self.kind_spec() == StatusKind::Skipped),
    {
        self.item_status() == StatusKind::Skipped
    }

    /// The revision that this status produces (see `revision_spec`).
    pub fn produce_revision(&self, last: Option<&TrackFields>) -> (r: Option<TrackFields>)
        ensures
            opt_fields(r) == self.revision_spec(opt_fields_ref(last)),
    {
        match self {
            StageStatus::PrepareMedia(ItemStatus::Complete(Ok(r))) => Some(copy_fields(&r.fields)),
            StageStatus::Keyfinder(ItemStatus::Complete(Ok(r))) => match last {
                Some(l) => {
                    let mut f = copy_fields(l);
                    match &r.detected_key {
                        Some(k) => {
                            f.key = Some(string_from(k.as_str()));
                        },
                        None => {},
                    }
                    Some(f)
                },
                None => None,
            },
            StageStatus::Beatport(ItemStatus::Complete(Ok(r))) => match last {
                Some(l) => {
                    let f = match &r.track_info {
                        Some(info) => overlay_exec(l, info),
                        None => copy_fields(l),
                    };
                    Some(f)
                },
                None => None,
            },
            StageStatus::LintFix(ItemStatus::Complete(Ok(r))) => Some(copy_fields(&r.fields)),
            StageStatus::Ai(ItemStatus::Complete(Ok(r))) => match last {
                Some(l) => match &l.media_hash {
                    Some(h) => ai_response_exec(&r.responses, h),
                    None => None,
                },
                None => None,
            },
            _ => None,
        }
    }
}

impl From<PrepareMediaInput> for StageInput {
    fn from(value: PrepareMediaInput) -> (r: StageInput) {
        StageInput::PrepareMedia(value)
    }
}

impl vstd::std_specs::convert::FromSpecImpl<PrepareMediaInput> for StageInput {
    open spec fn obeys_from_spec() -> bool {
        true
    }

    open spec fn from_spec(value: PrepareMediaInput) -> StageInput {
        StageInput::PrepareMedia(value)
    }
}

impl From<KeyfinderInput> for StageInput {
    fn from(value: KeyfinderInput) -> (r: StageInput) {
        StageInput::Keyfinder(value)
    }
}

impl vstd::std_specs::convert::FromSpecImpl<KeyfinderInput> for StageInput {
    open spec fn obeys_from_spec() -> bool {
        true
    }

    open spec fn from_spec(value: KeyfinderInput) -> StageInput {
        StageInput::Keyfinder(value)
    }
}

impl From<BeatportInput> for StageInput {
    fn from(value: BeatportInput) -> (r: StageInput) {
        StageInput::Beatport(value)
    }
}

impl vstd::std_specs::convert::FromSpecImpl<BeatportInput> for StageInput {
    open spec fn obeys_from_spec() -> bool {
        true
    }

    open spec fn from_spec(value: BeatportInput) -> StageInput {
        StageInput::Beatport(value)
    }
}

impl From<LintFixInput> for StageInput {
    fn from(value: LintFixInput) -> (r: StageInput) {
        StageInput::LintFix(value)
    }
}

impl vstd::std_specs::convert::FromSpecImpl<LintFixInput> for StageInput {
    open spec fn obeys_from_spec() -> bool {
        true
    }

    open spec fn from_spec(value: LintFixInput) -> StageInput {
        StageInput::LintFix(value)
    }
}

impl From<AiInput> for StageInput {
    fn from(value: AiInput) -> (r: StageInput) {
        StageInput::Ai(value)
    }
}

impl vstd::std_specs::convert::FromSpecImpl<AiInput> for StageInput {
    open spec fn obeys_from_spec() -> bool {
        true
    }

    open spec fn from_spec(value: AiInput) -> StageInput {
        StageInput::Ai(value)
    }
}

impl From<ItemStatus<PrepareMediaResult, PrepareMediaError>> for StageStatus {
    fn from(value: ItemStatus<PrepareMediaResult, PrepareMediaError>) -> (r: StageStatus) {
        StageStatus::PrepareMedia(value)
    }
}

impl vstd::std_specs::convert::FromSpecImpl<ItemStatus<PrepareMediaResult, PrepareMediaError>> for StageStatus {
    open spec fn obeys_from_spec() -> bool {
        true
    }

    open spec fn from_spec(value: ItemStatus<PrepareMediaResult, PrepareMediaError>) -> StageStatus {
        StageStatus::PrepareMedia(value)
    }
}

impl From<ItemStatus<KeyfinderResult, KeyfinderError>> for StageStatus {
    fn from(value: ItemStatus<KeyfinderResult, KeyfinderError>) -> (r: StageStatus) {
        StageStatus::Keyfinder(value)
    }
}

impl vstd::std_specs::convert::FromSpecImpl<ItemStatus<KeyfinderResult, KeyfinderError>> for StageStatus {
    open spec fn obeys_from_spec() -> bool {
        true
    }

    open spec fn from_spec(value: ItemStatus<KeyfinderResult, KeyfinderError>) -> StageStatus {
        StageStatus::Keyfinder(value)
    }
}

impl From<ItemStatus<BeatportResult, BeatportError>> for StageStatus {
    fn from(value: ItemStatus<BeatportResult, BeatportError>) -> (r: StageStatus) {
        StageStatus::Beatport(value)
    }
}

impl vstd::std_specs::convert::FromSpecImpl<ItemStatus<BeatportResult, BeatportError>> for StageStatus {
    open spec fn obeys_from_spec() -> bool {
        true
    }

    open spec fn from_spec(value: ItemStatus<BeatportResult, BeatportError>) -> StageStatus {
        StageStatus::Beatport(value)
    }
}

impl From<ItemStatus<LintFixResult, LintFixError>> for StageStatus {
    fn from(value: ItemStatus<LintFixResult, LintFixError>) -> (r: StageStatus) {
        StageStatus::LintFix(value)
    }
}

impl vstd::std_specs::convert::FromSpecImpl<ItemStatus<LintFixResult, LintFixError>> for StageStatus {
    open spec fn obeys_from_spec() -> bool {
        true
    }

    open spec fn from_spec(value: ItemStatus<LintFixResult, LintFixError>) -> StageStatus {
        StageStatus::LintFix(value)
    }
}

impl From<ItemStatus<AiResult, AiError>> for StageStatus {
    fn from(value: ItemStatus<AiResult, AiError>) -> (r: StageStatus) {
        StageStatus::Ai(value)
    }
}

impl vstd::std_specs::convert::FromSpecImpl<ItemStatus<AiResult, AiError>> for StageStatus {
    open spec fn obeys_from_spec() -> bool {
        true
    }

    open spec fn from_spec(value: ItemStatus<AiResult, AiError>) -> StageStatus {
        StageStatus::Ai(value)
    }
}

/// A successful Beatport lookup builds on the last revision: every field
/// that Beatport has a value for takes that value, and every other field
/// keeps the last revision's; a lookup that found nothing keeps the last
/// revision as it is; without a last revision there is no new one.
pub proof fn law_beatport_revision_applies_info(r: BeatportResult, last: FieldsView)
    ensures
        StageStatus::Beatport(ItemStatus::Complete(Ok(r))).revision_spec(None) is None,
        r.track_info is None ==> StageStatus::Beatport(ItemStatus::Complete(Ok(r))).revision_spec(
            Some(last),
        ) == Some(last),
        r.track_info matches Some(info) ==> ({
            let i = info@;
            let v = StageStatus::Beatport(ItemStatus::Complete(Ok(r))).revision_spec(
                Some(last),
            ).unwrap();
            &&& StageStatus::Beatport(ItemStatus::Complete(Ok(r))).revision_spec(Some(last)) is Some
            &&& v.media_hash == if i.media_hash is Some {
                i.media_hash
            } else {
                last.media_hash
            }
            &&& v.artist == if i.artist is Some {
                i.artist
            } else {
                last.artist
            }
            &&& v.title == if i.title is Some {
                i.title
            } else {
                last.title
            }
            &&& v.album == if i.album is Some {
                i.album
            } else {
                last.album
            }
            &&& v.remixer == if i.remixer is Some {
                i.remixer
            } else {
                last.remixer
            }
            &&& v.publisher == if i.publisher is Some {
                i.publisher
            } else {
                last.publisher
            }
            &&& v.catalog_id == if i.catalog_id is Some {
                i.catalog_id
            } else {
                last.catalog_id
            }
            &&& v.year == if i.year is Some {
                i.year
            } else {
                last.year
            }
            &&& v.genre == if i.genre is Some {
                i.genre
            } else {
                last.genre
            }
            &&& v.key == if i.key is Some {
                i.key
            } else {
                last.key
            }
            &&& v.bpm == if i.bpm is Some {
                i.bpm
            } else {
                last.bpm
            }
            &&& v.disc == if i.disc is Some {
                i.disc
            } else {
                last.disc
            }
            &&& v.track == if i.track is Some {
                i.track
            } else {
                last.track
            }
        }),
{
}

/// Keyfinder builds on the last revision: a detected key replaces the key,
/// every other field stays; no key detected keeps the last revision; without
/// a last revision there is no new one.
pub proof fn law_keyfinder_revision_sets_key(r: KeyfinderResult, last: FieldsView)
    ensures
        StageStatus::Keyfinder(ItemStatus::Complete(Ok(r))).revision_spec(None) is None,
        ({
            let v = StageStatus::Keyfinder(ItemStatus::Complete(Ok(r))).revision_spec(
                Some(last),
            ).unwrap();
            &&& StageStatus::Keyfinder(ItemStatus::Complete(Ok(r))).revision_spec(Some(last)) is Some
            &&& v.key == match r.detected_key {
                Some(k) => Some(k@),
                None => last.key,
            }
            &&& v.media_hash == last.media_hash
            &&& v.artist == last.artist
            &&& v.title == last.title
            &&& v.album == last.album
            &&& v.remixer == last.remixer
            &&& v.publisher == last.publisher
            &&& v.catalog_id == last.catalog_id
            &&& v.year == last.year
            &&& v.genre == last.genre
            &&& v.bpm == last.bpm
            &&& v.disc == last.disc
            &&& v.track == last.track
        }),
{
}

/// PrepareMedia and LintFix each give the fields they hold as the new
/// revision, whatever the last one was; a stage that did not succeed gives
/// no revision.
pub proof fn law_revisions_of_whole_results(st: StageStatus, last: Option<FieldsView>)
    ensures
        st matches StageStatus::PrepareMedia(ItemStatus::Complete(Ok(p))) ==> st.revision_spec(last)
            == Some(p.fields@),
        st matches StageStatus::LintFix(ItemStatus::Complete(Ok(l))) ==> st.revision_spec(last)
            == Some(l.fields@),
        st.kind_spec() != StatusKind::Succeeded ==> st.revision_spec(last) is None,
{
}

/// The AI stage gives, for a track whose last revision has a media hash,
/// the fields of the first response keyed by that hash; none when no
/// response has that key, or without a media hash or a last revision.
pub proof fn law_ai_revision_by_media_hash(r: AiResult, last: FieldsView, k: int)
    requires
        last.media_hash matches Some(h) && 0 <= k < r.responses@.len() && r.responses@[k].0@ == h
            && forall|j: int| 0 <= j < k ==> (#[trigger] r.responses@[j]).0@ != h,
    ensures
        StageStatus::Ai(ItemStatus::Complete(Ok(r))).revision_spec(Some(last)) == Some(
            r.responses@[k].1@,
        ),
{
    let h = last.media_hash.unwrap();
    lemma_ai_response_at(r.responses@, h, k);
}

proof fn lemma_ai_response_at(rs: Seq<(String, TrackFields)>, h: Seq<char>, k: int)
    requires
        0 <= k < rs.len(),
        rs[k].0@ == h,
        forall|j: int| 0 <= j < k ==> (#[trigger] rs[j]).0@ != h,
    ensures
        ai_response(rs, h) == Some(rs[k].1@),
    decreases k,
{
    if k > 0 {
        assert(rs[0].0@ != h);
        let t = rs.drop_first();
        assert forall|j: int| 0 <= j < k - 1 implies (#[trigger] t[j]).0@ != h by {
            assert(t[j] == rs[j + 1]);
        }
        lemma_ai_response_at(t, h, k - 1);
    }
}

/// Stages report their results through revisions of the track's fields.
pub trait ProducesRevision {
    /// The revision produced, given the last one. Defined for the types of
    /// this crate; unspecified for others.
    open spec fn revision(&self, last: Option<FieldsView>) -> Option<FieldsView> {
        arbitrary()
    }

    fn produce_revision(&self, last_revision: Option<&TrackFields>) -> (r: Option<TrackFields>)
        ensures
            opt_fields(r) == self.revision(opt_fields_ref(last_revision)),
    ;
}

impl ProducesRevision for StageStatus {
    open spec fn revision(&self, last: Option<FieldsView>) -> Option<FieldsView> {
        self.revision_spec(last)
    }

    fn produce_revision(&self, last_revision: Option<&TrackFields>) -> (r: Option<TrackFields>) {
        StageStatus::produce_revision(self, last_revision)
    }
}

pub open spec fn opt_fields(o: Option<TrackFields>) -> Option<FieldsView> {
    match o {
        Some(f) => Some(f@),
        None => None,
    }
}

pub open spec fn opt_fields_ref(o: Option<&TrackFields>) -> Option<FieldsView> {
    match o {
        Some(f) => Some(f@),
        None => None,
    }
}

fn copy_text(o: &Option<String>) -> (r: Option<String>)
    ensures
        opt_text(r) == opt_text(*o),
{
    match o {
        Some(s) => Some(string_from(s.as_str())),
        None => None,
    }
}

fn copy_count(o: &Option<crate::track::CountField>) -> (r: Option<crate::track::CountField>)
    ensures
        crate::track::opt_count(r) == crate::track::opt_count(*o),
{
    match o {
        Some(crate::track::CountField::Valid(c)) => Some(crate::track::CountField::Valid(*c)),
        Some(crate::track::CountField::Invalid(s)) => Some(
            crate::track::CountField::Invalid(string_from(s.as_str())),
        ),
        None => None,
    }
}

/// A copy of a set of fields.
pub fn copy_fields(f: &TrackFields) -> (r: TrackFields)
    ensures
        r@ == f@,
{
    TrackFields {
        media_hash: copy_text(&f.media_hash),
        artist: copy_text(&f.artist),
        title: copy_text(&f.title),
        album: copy_text(&f.album),
        remixer: copy_text(&f.remixer),
        publisher: copy_text(&f.publisher),
        catalog_id: copy_text(&f.catalog_id),
        year: copy_text(&f.year),
        genre: copy_text(&f.genre),
        key: copy_text(&f.key),
        bpm: copy_text(&f.bpm),
        disc: copy_count(&f.disc),
        track: copy_count(&f.track),
    }
}

fn pick_text(info: &Option<String>, last: &Option<String>) -> (r: Option<String>)
    ensures
        opt_text(r) == if info is Some {
            opt_text(*info)
        } else {
            opt_text(*last)
        },
{
    if info.is_some() {
        copy_text(info)
    } else {
        copy_text(last)
    }
}

fn pick_count(
    info: &Option<crate::track::CountField>,
    last: &Option<crate::track::CountField>,
) -> (r: Option<crate::track::CountField>)
    ensures
        crate::track::opt_count(r) == if info is Some {
            crate::track::opt_count(*info)
        } else {
            crate::track::opt_count(*last)
        },
{
    if info.is_some() {
        copy_count(info)
    } else {
        copy_count(last)
    }
}

fn overlay_exec(last: &TrackFields, info: &TrackFields) -> (r: TrackFields)
    ensures
        r@ == overlay(last@, info@),
{
    TrackFields {
        media_hash: pick_text(&info.media_hash, &last.media_hash),
        artist: pick_text(&info.artist, &last.artist),
        title: pick_text(&info.title, &last.title),
        album: pick_text(&info.album, &last.album),
        remixer: pick_text(&info.remixer, &last.remixer),
        publisher: pick_text(&info.publisher, &last.publisher),
        catalog_id: pick_text(&info.catalog_id, &last.catalog_id),
        year: pick_text(&info.year, &last.year),
        genre: pick_text(&info.genre, &last.genre),
        key: pick_text(&info.key, &last.key),
        bpm: pick_text(&info.bpm, &last.bpm),
        disc: pick_count(&info.disc, &last.disc),
        track: pick_count(&info.track, &last.track),
    }
}

fn ai_response_exec(responses: &Vec<(String, TrackFields)>, hash: &String) -> (r: Option<TrackFields>)
    ensures
        opt_fields(r) == ai_response(responses@, hash@),
{
    let mut i: usize = 0;
    assert(responses@.subrange(0, responses.len() as int) =~= responses@);
    while i < responses.len()
        invariant
            i <= responses.len(),
            ai_response(responses@, hash@) == ai_response(responses@.subrange(i as int, responses.len() as int), hash@),
        decreases responses.len() - i,
    {
        let ghost rest = responses@.subrange(i as int, responses.len() as int);
        assert(rest.drop_first() =~= responses@.subrange(i + 1, responses.len() as int));
        if crate::text::chars_eq(&crate::text::chars_of(responses[i].0.as_str()), &crate::text::chars_of(hash.as_str())) {
            return Some(copy_fields(&responses[i].1));
        }
        i = i + 1;
    }
    None
}

} // verus!
