//! One ingestion run, as a state machine.
//!
//! A run takes the captions of one video into a vector collection. The
//! machine decides; its caller does the outside work. In each state
//! `action` names the work that is outstanding, and `step` takes what that
//! work gave back and moves the run on. A failure ends the run at once, with
//! the stage that it came from.

use crate::captions::{extracted_spec, CaptionsList, CaptionsListView};
use crate::chunker::{
    concat_tokens, lemma_chunks_exist, pre_chunk, token_views, token_windows,
    token_windows_spec, word_windows_spec, DEFAULT_MAX_TOKENS, DEFAULT_OVERLAP, WORD_WINDOW,
};
use crate::html::html_decoded;
use crate::loader::{
    consent_marker, transcript_error, transcript_metadata, watch_url, YoutubeCaptionsLoader,
    YoutubeCaptionsLoaderError,
};
use crate::schema::{clone_metadata, document_views, pair_views, Document, DocumentView, Metadata};
use crate::text::{occurs, views};
use crate::transcript::{
    body_spec, selected_spec, transcript_body, transcript_spec, TrackPolicy, Transcript,
    TranscriptView,
};
use vstd::prelude::*;

verus! {

/// The stages of a run, in their order.
#[derive(Debug, Clone, Copy, PartialEq, Eq, Structural)]
pub enum Stage {
    Pending,
    FetchingPage,
    ExtractingTracks,
    SelectingTrack,
    FetchingTranscript,
    Chunking,
    Provisioning,
    Upserting,
}

/// Why a stage failed.
#[derive(Debug, Clone, Copy, PartialEq, Eq, Structural)]
pub enum YoutubeCaptionsIngesterError {
    /// The captions could not be loaded.
    LoaderError(YoutubeCaptionsLoaderError),
    /// The tokenizer rejected a text or a window of token ids.
    TokenizerError,
    /// The embedding model failed, or gave vectors of the wrong length.
    ModelError,
    /// The vector store failed: on the check for the collection, on its
    /// creation or on the write. After a failed write it is unknown which
    /// records the store holds.
    VectorStoreError,
}

/// The error of a run: the stage that failed and why.
#[derive(Debug, Clone, Copy, PartialEq, Eq, Structural)]
pub struct RunError {
    pub stage: Stage,
    pub error: YoutubeCaptionsIngesterError,
}

/// How the distance between two vectors is measured.
#[derive(Debug, Clone, Copy, PartialEq, Eq, Structural)]
pub enum Distance {
    Cosine,
    Euclid,
    Dot,
}

/// What a vector collection is created with.
#[derive(Debug, PartialEq, Eq)]
pub struct CollectionDescriptor {
    pub name: String,
    pub vector_size: u64,
    pub distance: Distance,
}

/// The mathematical content of a `CollectionDescriptor`.
pub ghost struct CollectionDescriptorView {
    pub name: Seq<char>,
    pub vector_size: u64,
    pub distance: Distance,
}

impl View for CollectionDescriptor {
    type V = CollectionDescriptorView;

    open spec fn view(&self) -> CollectionDescriptorView {
        CollectionDescriptorView {
            name: self.name@,
            vector_size: self.vector_size,
            distance: self.distance,
        }
    }
}

/// What a completed run reports.
#[derive(Debug, PartialEq, Eq)]
pub struct IngestResult {
    pub video_id: String,
    pub chunk_count: usize,
    /// The identifiers that the store gave the records, in the order of the
    /// chunks.
    pub record_ids: Vec<String>,
}

/// The mathematical content of an `IngestResult`.
pub ghost struct IngestResultView {
    pub video_id: Seq<char>,
    pub chunk_count: nat,
    pub record_ids: Seq<Seq<char>>,
}

impl View for IngestResult {
    type V = IngestResultView;

    open spec fn view(&self) -> IngestResultView {
        IngestResultView {
            video_id: self.video_id@,
            chunk_count: self.chunk_count as nat,
            record_ids: views(self.record_ids@),
        }
    }
}

/// What a run is set up with.
#[derive(Debug, PartialEq, Eq)]
pub struct RunConfig {
    pub video_id: String,
    pub collection: CollectionDescriptor,
    /// The number of token ids that a chunk holds at most.
    pub max_tokens: usize,
    /// The number of token ids that neighbouring chunks share.
    pub overlap: usize,
    pub policy: TrackPolicy,
    /// Whether the collection is known to exist, so that the run need not
    /// provide it.
    pub collection_confirmed: bool,
}

/// The mathematical content of a `RunConfig`.
pub ghost struct RunConfigView {
    pub video_id: Seq<char>,
    pub collection: CollectionDescriptorView,
    pub max_tokens: usize,
    pub overlap: usize,
    pub policy: TrackPolicy,
    pub collection_confirmed: bool,
}

impl View for RunConfig {
    type V = RunConfigView;

    open spec fn view(&self) -> RunConfigView {
        RunConfigView {
            video_id: self.video_id@,
            collection: self.collection@,
            max_tokens: self.max_tokens,
            overlap: self.overlap,
            policy: self.policy,
            collection_confirmed: self.collection_confirmed,
        }
    }
}

/// The states of a run. `Tokenizing` and `Detokenizing` make up the stage
/// `Chunking`, `CheckingCollection` and `CreatingCollection` the stage
/// `Provisioning`, `Embedding` and `Writing` the stage `Upserting`.
#[derive(Debug, PartialEq, Eq)]
pub enum RunState {
    Pending,
    /// The watch page is being fetched.
    FetchingPage,
    ExtractingTracks { html: String },
    SelectingTrack { tracks: CaptionsList },
    /// The timed-text document of `transcript` is being fetched.
    FetchingTranscript { transcript: Transcript },
    /// The tokenizer is being called on each of `texts`.
    Tokenizing { transcript: Transcript, texts: Vec<String> },
    /// Each of `windows` is being turned back into text.
    Detokenizing { transcript: Transcript, windows: Vec<Vec<i64>> },
    /// The store is being asked whether the collection exists.
    CheckingCollection { chunks: Vec<Document<Metadata>> },
    CreatingCollection { chunks: Vec<Document<Metadata>> },
    /// The text of each chunk is being embedded.
    Embedding { chunks: Vec<Document<Metadata>> },
    /// The chunks are being written to the store with their vectors.
    Writing { chunks: Vec<Document<Metadata>> },
    Done(IngestResult),
    Failed(RunError),
    Cancelled,
}

/// The mathematical content of a `RunState`.
pub ghost enum RunStateView {
    Pending,
    FetchingPage,
    ExtractingTracks { html: Seq<char> },
    SelectingTrack { tracks: CaptionsListView },
    FetchingTranscript { transcript: TranscriptView },
    Tokenizing { transcript: TranscriptView, texts: Seq<Seq<char>> },
    Detokenizing { transcript: TranscriptView, windows: Seq<Seq<i64>> },
    CheckingCollection { chunks: Seq<DocumentView> },
    CreatingCollection { chunks: Seq<DocumentView> },
    Embedding { chunks: Seq<DocumentView> },
    Writing { chunks: Seq<DocumentView> },
    Done(IngestResultView),
    Failed(RunError),
    Cancelled,
}

impl View for RunState {
    type V = RunStateView;

    open spec fn view(&self) -> RunStateView {
        match *self {
            RunState::Pending => RunStateView::Pending,
            RunState::FetchingPage => RunStateView::FetchingPage,
            RunState::ExtractingTracks { html } => RunStateView::ExtractingTracks { html: html@ },
            RunState::SelectingTrack { tracks } => RunStateView::SelectingTrack {
                tracks: tracks@,
            },
            RunState::FetchingTranscript { transcript } => RunStateView::FetchingTranscript {
                transcript: transcript@,
            },
            RunState::Tokenizing { transcript, texts } => RunStateView::Tokenizing {
                transcript: transcript@,
                texts: views(texts@),
            },
            RunState::Detokenizing { transcript, windows } => RunStateView::Detokenizing {
                transcript: transcript@,
                windows: token_views(windows@),
            },
            RunState::CheckingCollection { chunks } => RunStateView::CheckingCollection {
                chunks: document_views(chunks@),
            },
            RunState::CreatingCollection { chunks } => RunStateView::CreatingCollection {
                chunks: document_views(chunks@),
            },
            RunState::Embedding { chunks } => RunStateView::Embedding {
                chunks: document_views(chunks@),
            },
            RunState::Writing { chunks } => RunStateView::Writing {
                chunks: document_views(chunks@),
            },
            RunState::Done(result) => RunStateView::Done(result@),
            RunState::Failed(error) => RunStateView::Failed(error),
            RunState::Cancelled => RunStateView::Cancelled,
        }
    }
}

/// What the outside work of a run gives back.
#[derive(Debug, PartialEq, Eq)]
pub enum Event {
    /// Nothing: the run had no outside work to wait for.
    Advance,
    /// The body of the watch page.
    Page(String),
    /// The body of the timed-text document.
    TranscriptXml(String),
    /// The token ids of each text, in the order of the texts.
    Tokens(Vec<Vec<i64>>),
    /// The text of each window of token ids, in the order of the windows.
    Texts(Vec<String>),
    /// Whether the collection exists.
    CollectionExists(bool),
    CollectionCreated,
    /// The length of the vector of each chunk, in the order of the chunks.
    VectorLengths(Vec<usize>),
    /// The identifier of each record, in the order of the chunks.
    RecordIds(Vec<String>),
    /// The outside work failed.
    Failure(YoutubeCaptionsIngesterError),
    /// The caller gives the run up.
    Cancel,
}

/// The mathematical content of an `Event`.
pub ghost enum EventView {
    Advance,
    Page(Seq<char>),
    TranscriptXml(Seq<char>),
    Tokens(Seq<Seq<i64>>),
    Texts(Seq<Seq<char>>),
    CollectionExists(bool),
    CollectionCreated,
    VectorLengths(Seq<usize>),
    RecordIds(Seq<Seq<char>>),
    Failure(YoutubeCaptionsIngesterError),
    Cancel,
}

impl View for Event {
    type V = EventView;

    open spec fn view(&self) -> EventView {
        match *self {
            Event::Advance => EventView::Advance,
            Event::Page(body) => EventView::Page(body@),
            Event::TranscriptXml(xml) => EventView::TranscriptXml(xml@),
            Event::Tokens(parts) => EventView::Tokens(token_views(parts@)),
            Event::Texts(texts) => EventView::Texts(views(texts@)),
            Event::CollectionExists(exists) => EventView::CollectionExists(exists),
            Event::CollectionCreated => EventView::CollectionCreated,
            Event::VectorLengths(lengths) => EventView::VectorLengths(lengths@),
            Event::RecordIds(ids) => EventView::RecordIds(views(ids@)),
            Event::Failure(error) => EventView::Failure(error),
            Event::Cancel => EventView::Cancel,
        }
    }
}

/// The outside work that a state waits for.
#[derive(Debug, Clone, Copy, PartialEq, Eq, Structural)]
pub enum Action {
    /// None: step with `Event::Advance`.
    Advance,
    /// Fetch the watch page; answer with `Event::Page`.
    FetchPage,
    /// Fetch the timed-text document; answer with `Event::TranscriptXml`.
    FetchTranscript,
    /// Tokenize each text; answer with `Event::Tokens`.
    Tokenize,
    /// Turn each window of token ids into text; answer with `Event::Texts`.
    Detokenize,
    /// Ask the store for the collection; answer with
    /// `Event::CollectionExists`.
    CheckCollection,
    /// Create the collection; answer with `Event::CollectionCreated`, or,
    /// where the store refuses because the collection exists by now, with
    /// `Event::CollectionExists(true)`.
    CreateCollection,
    /// Embed the text of each chunk; answer with `Event::VectorLengths`.
    Embed,
    /// Write the chunks with their vectors; answer with `Event::RecordIds`.
    Upsert,
    /// None: the run has ended.
    Stop,
}

/// Whether a run in this state has ended.
pub open spec fn is_terminal(s: RunStateView) -> bool {
    s is Done || s is Failed || s is Cancelled
}

/// The stage that a state belongs to. An ended run is in no stage.
pub open spec fn stage_of(s: RunStateView) -> Stage {
    match s {
        RunStateView::FetchingPage => Stage::FetchingPage,
        RunStateView::ExtractingTracks { .. } => Stage::ExtractingTracks,
        RunStateView::SelectingTrack { .. } => Stage::SelectingTrack,
        RunStateView::FetchingTranscript { .. } => Stage::FetchingTranscript,
        RunStateView::Tokenizing { .. } => Stage::Chunking,
        RunStateView::Detokenizing { .. } => Stage::Chunking,
        RunStateView::CheckingCollection { .. } => Stage::Provisioning,
        RunStateView::CreatingCollection { .. } => Stage::Provisioning,
        RunStateView::Embedding { .. } => Stage::Upserting,
        RunStateView::Writing { .. } => Stage::Upserting,
        _ => Stage::Pending,
    }
}

/// The outside work that a state waits for.
pub open spec fn action_spec(s: RunStateView) -> Action {
    match s {
        RunStateView::Pending => Action::Advance,
        RunStateView::FetchingPage => Action::FetchPage,
        RunStateView::ExtractingTracks { .. } => Action::Advance,
        RunStateView::SelectingTrack { .. } => Action::Advance,
        RunStateView::FetchingTranscript { .. } => Action::FetchTranscript,
        RunStateView::Tokenizing { .. } => Action::Tokenize,
        RunStateView::Detokenizing { .. } => Action::Detokenize,
        RunStateView::CheckingCollection { .. } => Action::CheckCollection,
        RunStateView::CreatingCollection { .. } => Action::CreateCollection,
        RunStateView::Embedding { .. } => Action::Embed,
        RunStateView::Writing { .. } => Action::Upsert,
        RunStateView::Done(_) => Action::Stop,
        RunStateView::Failed(_) => Action::Stop,
        RunStateView::Cancelled => Action::Stop,
    }
}

/// A failed run.
pub open spec fn failed(stage: Stage, error: YoutubeCaptionsIngesterError) -> RunStateView {
    RunStateView::Failed(RunError { stage, error })
}

/// A run that failed on loading the captions.
pub open spec fn failed_loading(stage: Stage, error: YoutubeCaptionsLoaderError) -> RunStateView {
    failed(stage, YoutubeCaptionsIngesterError::LoaderError(error))
}

/// The chunks of a transcript: one document for each text, all with the
/// metadata of the transcript.
pub open spec fn chunks_spec(texts: Seq<Seq<char>>, transcript: TranscriptView) -> Seq<
    DocumentView,
> {
    Seq::new(
        texts.len(),
        |i: int|
            DocumentView {
                page_content: texts[i],
                metadata: Some(transcript_metadata(transcript)),
            },
    )
}

/// Whether every vector has the length that the collection is made for.
pub open spec fn lengths_fit(lengths: Seq<usize>, vector_size: u64) -> bool {
    forall|i: int| 0 <= i < lengths.len() ==> #[trigger] lengths[i] == vector_size
}

/// After the watch page: the run fails where the page is the consent form,
/// and goes on with the decoded markup where it is not.
pub open spec fn after_page(body: Seq<char>) -> RunStateView {
    let html = html_decoded(body);
    if occurs(html, consent_marker()) {
        failed_loading(Stage::FetchingPage, YoutubeCaptionsLoaderError::ConsentRequired)
    } else {
        RunStateView::ExtractingTracks { html }
    }
}

/// After the extraction of the manifest from the markup.
pub open spec fn after_extraction(html: Seq<char>) -> RunStateView {
    match extracted_spec(html) {
        Some(tracks) => RunStateView::SelectingTrack { tracks },
        None => failed_loading(
            Stage::ExtractingTracks,
            YoutubeCaptionsLoaderError::ExtractCaptionsJsonError,
        ),
    }
}

/// After the selection of a track from the manifest.
pub open spec fn after_selection(cfg: RunConfigView, tracks: CaptionsListView) -> RunStateView {
    match selected_spec(tracks, cfg.video_id, cfg.policy) {
        Some(transcript) => RunStateView::FetchingTranscript { transcript },
        None => failed_loading(
            Stage::SelectingTrack,
            YoutubeCaptionsLoaderError::NoTracksAvailable,
        ),
    }
}

/// After the timed-text document: the body of the transcript, cut into the
/// word windows that the tokenizer is called on.
pub open spec fn after_transcript(transcript: TranscriptView, xml: Seq<char>) -> RunStateView {
    match transcript_spec(xml) {
        Ok(captions) => RunStateView::Tokenizing {
            transcript,
            texts: word_windows_spec(body_spec(captions), WORD_WINDOW as int),
        },
        Err(e) => failed_loading(Stage::FetchingTranscript, transcript_error(e)),
    }
}

/// After the tokenizer: the token ids of all texts as one stream, cut into
/// windows. The tokenizer owes one list of token ids for each text.
pub open spec fn after_tokens(
    cfg: RunConfigView,
    transcript: TranscriptView,
    texts: Seq<Seq<char>>,
    parts: Seq<Seq<i64>>,
) -> RunStateView {
    if parts.len() == texts.len() {
        RunStateView::Detokenizing {
            transcript,
            windows: token_windows_spec(
                parts.flatten(),
                cfg.max_tokens as int,
                cfg.overlap as int,
            ),
        }
    } else {
        failed(Stage::Chunking, YoutubeCaptionsIngesterError::TokenizerError)
    }
}

/// After the windows were turned into text: the chunks. The tokenizer owes
/// one text for each window. The run goes on to provide the collection,
/// unless it is known to exist.
pub open spec fn after_texts(
    cfg: RunConfigView,
    transcript: TranscriptView,
    windows: Seq<Seq<i64>>,
    texts: Seq<Seq<char>>,
) -> RunStateView {
    if texts.len() == windows.len() {
        let chunks = chunks_spec(texts, transcript);
        if cfg.collection_confirmed {
            RunStateView::Embedding { chunks }
        } else {
            RunStateView::CheckingCollection { chunks }
        }
    } else {
        failed(Stage::Chunking, YoutubeCaptionsIngesterError::TokenizerError)
    }
}

/// Whether the collection is to be created, given whether it exists: it is
/// created only where it does not exist.
pub open spec fn needs_creation(exists: bool) -> bool {
    !exists
}

/// After the check for the collection.
pub open spec fn after_check(chunks: Seq<DocumentView>, exists: bool) -> RunStateView {
    if needs_creation(exists) {
        RunStateView::CreatingCollection { chunks }
    } else {
        RunStateView::Embedding { chunks }
    }
}

/// After the store refused to create the collection: where the collection
/// exists by now, another run has created it in the meantime, and the run
/// goes on as if it had created it itself.
pub open spec fn after_refused_creation(
    s: RunStateView,
    chunks: Seq<DocumentView>,
    exists: bool,
) -> RunStateView {
    if exists {
        RunStateView::Embedding { chunks }
    } else {
        s
    }
}

/// After the embedding: the model owes one vector for each chunk, each of
/// the length that the collection is made for.
pub open spec fn after_embedding(
    cfg: RunConfigView,
    chunks: Seq<DocumentView>,
    lengths: Seq<usize>,
) -> RunStateView {
    if lengths.len() == chunks.len() && lengths_fit(lengths, cfg.collection.vector_size) {
        RunStateView::Writing { chunks }
    } else {
        failed(Stage::Upserting, YoutubeCaptionsIngesterError::ModelError)
    }
}

/// After the write: the store owes one identifier for each chunk.
pub open spec fn after_write(
    cfg: RunConfigView,
    chunks: Seq<DocumentView>,
    ids: Seq<Seq<char>>,
) -> RunStateView {
    if ids.len() == chunks.len() {
        RunStateView::Done(
            IngestResultView { video_id: cfg.video_id, chunk_count: chunks.len(), record_ids: ids },
        )
    } else {
        failed(Stage::Upserting, YoutubeCaptionsIngesterError::VectorStoreError)
    }
}

/// The state that follows `s` on the event `e`. An ended run stays as it is.
/// Any other run is cancelled by `Cancel` and fails on `Failure`, in the
/// stage that it is in. An event that is not what the state waits for leaves
/// the state as it is.
pub open spec fn next_state(cfg: RunConfigView, s: RunStateView, e: EventView) -> RunStateView {
    if is_terminal(s) {
        s
    } else {
        match (s, e) {
            (_, EventView::Cancel) => RunStateView::Cancelled,
            (_, EventView::Failure(error)) => failed(stage_of(s), error),
            (RunStateView::Pending, EventView::Advance) => RunStateView::FetchingPage,
            (RunStateView::FetchingPage, EventView::Page(body)) => after_page(body),
            (RunStateView::ExtractingTracks { html }, EventView::Advance) => after_extraction(
                html,
            ),
            (RunStateView::SelectingTrack { tracks }, EventView::Advance) => after_selection(
                cfg,
                tracks,
            ),
            (
                RunStateView::FetchingTranscript { transcript },
                EventView::TranscriptXml(xml),
            ) => after_transcript(transcript, xml),
            (RunStateView::Tokenizing { transcript, texts }, EventView::Tokens(parts)) => {
                after_tokens(cfg, transcript, texts, parts)
            },
            (RunStateView::Detokenizing { transcript, windows }, EventView::Texts(texts)) => {
                after_texts(cfg, transcript, windows, texts)
            },
            (
                RunStateView::CheckingCollection { chunks },
                EventView::CollectionExists(exists),
            ) => after_check(chunks, exists),
            (
                RunStateView::CreatingCollection { chunks },
                EventView::CollectionCreated,
            ) => RunStateView::Embedding { chunks },
            (
                RunStateView::CreatingCollection { chunks },
                EventView::CollectionExists(exists),
            ) => after_refused_creation(s, chunks, exists),
            (RunStateView::Embedding { chunks }, EventView::VectorLengths(lengths)) => {
                after_embedding(cfg, chunks, lengths)
            },
            (RunStateView::Writing { chunks }, EventView::RecordIds(ids)) => after_write(
                cfg,
                chunks,
                ids,
            ),
            _ => s,
        }
    }
}

/// The state of a run that started in `s` and has seen `events`.
pub open spec fn run_spec(cfg: RunConfigView, s: RunStateView, events: Seq<EventView>) -> RunStateView
    decreases events.len(),
{
    if events.len() == 0 {
        s
    } else {
        next_state(cfg, run_spec(cfg, s, events.drop_last()), events.last())
    }
}

/// What the check-then-create of a collection does to a store that holds
/// the collections `store`: the store after it, and the number of
/// collections that were created.
pub open spec fn ensure_collection_spec(store: Set<Seq<char>>, name: Seq<char>) -> (
    Set<Seq<char>>,
    nat,
) {
    if needs_creation(store.contains(name)) {
        (store.insert(name), 1)
    } else {
        (store, 0)
    }
}

/// Ensuring a collection twice creates at most one collection: the second
/// time nothing is created and the store stays as the first left it, with
/// the collection in it.
pub proof fn lemma_ensure_collection_twice(store: Set<Seq<char>>, name: Seq<char>)
    ensures
        ({
            let (first, created_first) = ensure_collection_spec(store, name);
            let (second, created_second) = ensure_collection_spec(first, name);
            &&& first.contains(name)
            &&& second == first
            &&& created_second == 0
            &&& created_first + created_second <= 1
        }),
{
}

/// An ended run stays as it is, whatever comes, and waits for no outside
/// work.
pub proof fn lemma_ended_run_stays(cfg: RunConfigView, s: RunStateView, events: Seq<EventView>)
    requires
        is_terminal(s),
    ensures
        run_spec(cfg, s, events) == s,
        action_spec(s) == Action::Stop,
    decreases events.len(),
{
    if events.len() > 0 {
        lemma_ended_run_stays(cfg, s, events.drop_last());
    }
}

/// A watch page that is the consent form ends the run, with
/// `ConsentRequired` from the stage `FetchingPage`: whatever comes after it,
/// the run stays failed and asks for no outside work, so no transcript is
/// ever fetched.
pub proof fn lemma_consent_ends_run(cfg: RunConfigView, body: Seq<char>, events: Seq<EventView>)
    requires
        occurs(html_decoded(body), consent_marker()),
    ensures
        ({
            let s = next_state(cfg, RunStateView::FetchingPage, EventView::Page(body));
            &&& s == failed_loading(
                Stage::FetchingPage,
                YoutubeCaptionsLoaderError::ConsentRequired,
            )
            &&& run_spec(cfg, s, events) == s
            &&& action_spec(run_spec(cfg, s, events)) == Action::Stop
        }),
{
    let s = next_state(cfg, RunStateView::FetchingPage, EventView::Page(body));
    lemma_ended_run_stays(cfg, s, events);
}

/// A manifest without tracks ends the run, with `NoTracksAvailable` from
/// the stage `SelectingTrack`.
pub proof fn lemma_no_tracks_ends_run(cfg: RunConfigView, tracks: CaptionsListView)
    requires
        tracks.caption_tracks is None || tracks.caption_tracks->0.len() == 0,
    ensures
        next_state(cfg, RunStateView::SelectingTrack { tracks }, EventView::Advance)
            == failed_loading(Stage::SelectingTrack, YoutubeCaptionsLoaderError::NoTracksAvailable),
{
}

/// What holds of a run that chunks a token stream with at least one token
/// id: there is at least one chunk from then on, and a result names as many
/// record identifiers as chunks, for the video of the run.
pub open spec fn has_chunks(cfg: RunConfigView, s: RunStateView) -> bool {
    match s {
        RunStateView::Detokenizing { windows, .. } => windows.len() >= 1,
        RunStateView::CheckingCollection { chunks } => chunks.len() >= 1,
        RunStateView::CreatingCollection { chunks } => chunks.len() >= 1,
        RunStateView::Embedding { chunks } => chunks.len() >= 1,
        RunStateView::Writing { chunks } => chunks.len() >= 1,
        RunStateView::Done(result) => {
            &&& result.chunk_count >= 1
            &&& result.record_ids.len() == result.chunk_count
            &&& result.video_id == cfg.video_id
        },
        _ => true,
    }
}

/// Whether the tokenizer gave at least one token id wherever it answered.
pub open spec fn tokens_nonempty(events: Seq<EventView>) -> bool {
    forall|i: int|
        0 <= i < events.len() ==> (#[trigger] events[i] matches EventView::Tokens(parts)
            ==> parts.flatten().len() >= 1)
}

/// One step keeps `has_chunks`, where the tokenizer gives at least one token
/// id.
pub proof fn lemma_step_keeps_chunks(cfg: RunConfigView, s: RunStateView, e: EventView)
    requires
        has_chunks(cfg, s),
        e matches EventView::Tokens(parts) ==> parts.flatten().len() >= 1,
    ensures
        has_chunks(cfg, next_state(cfg, s, e)),
{
    match (s, e) {
        (RunStateView::Tokenizing { transcript, texts }, EventView::Tokens(parts)) => {
            lemma_chunks_exist(parts.flatten(), cfg.max_tokens as int, cfg.overlap as int);
        },
        _ => {},
    }
}

/// A completed run reports at least one chunk and exactly one record
/// identifier for each chunk, for the video that it was set up with:
/// whatever the outside work gave back on the way, as long as the tokenizer
/// gave at least one token id.
pub proof fn lemma_completed_run(cfg: RunConfigView, events: Seq<EventView>)
    requires
        tokens_nonempty(events),
    ensures
        has_chunks(cfg, run_spec(cfg, RunStateView::Pending, events)),
        run_spec(cfg, RunStateView::Pending, events) matches RunStateView::Done(result) ==> {
            &&& result.chunk_count >= 1
            &&& result.record_ids.len() == result.chunk_count
            &&& result.video_id == cfg.video_id
        },
    decreases events.len(),
{
    if events.len() > 0 {
        let before = events.drop_last();
        assert forall|i: int| 0 <= i < before.len() implies (#[trigger] before[i] matches EventView::Tokens(
            parts,
        ) ==> parts.flatten().len() >= 1) by {
            assert(before[i] == events[i]);
        }
        lemma_completed_run(cfg, before);
        lemma_step_keeps_chunks(
            cfg,
            run_spec(cfg, RunStateView::Pending, before),
            events.last(),
        );
    }
}

/// The place of a stage in the order of the stages.
pub open spec fn stage_rank(stage: Stage) -> int {
    match stage {
        Stage::Pending => 0,
        Stage::FetchingPage => 1,
        Stage::ExtractingTracks => 2,
        Stage::SelectingTrack => 3,
        Stage::FetchingTranscript => 4,
        Stage::Chunking => 5,
        Stage::Provisioning => 6,
        Stage::Upserting => 7,
    }
}

/// A run passes through its stages in order. A step that does not end the
/// run leaves it in its stage or takes it to the next one; the one stage
/// that can be passed over is `Provisioning`, and only by a run whose
/// collection is known to exist. A run completes only from the last stage.
pub proof fn lemma_stages_in_order(cfg: RunConfigView, s: RunStateView, e: EventView)
    requires
        !is_terminal(s),
    ensures
        ({
            let next = next_state(cfg, s, e);
            let from = stage_rank(stage_of(s));
            let to = stage_rank(stage_of(next));
            &&& !is_terminal(next) ==> {
                ||| to == from
                ||| to == from + 1
                ||| cfg.collection_confirmed && stage_of(s) == Stage::Chunking && stage_of(next)
                    == Stage::Upserting
            }
            &&& next is Done ==> stage_of(s) == Stage::Upserting
            &&& next matches RunStateView::Failed(error) ==> error.stage == stage_of(s)
        }),
{
}

/// A completed run names exactly one record identifier for each chunk, for
/// the video that it was set up with, whatever the outside work gave back.
pub proof fn lemma_result_counts(cfg: RunConfigView, s: RunStateView, e: EventView)
    requires
        !(s is Done),
    ensures
        next_state(cfg, s, e) matches RunStateView::Done(result) ==> {
            &&& s is Writing
            &&& result.chunk_count == s->Writing_chunks.len()
            &&& result.record_ids.len() == result.chunk_count
            &&& result.video_id == cfg.video_id
        },
{
}

/// Takes the captions of one video into a vector collection.
#[derive(Debug, PartialEq, Eq)]
pub struct YoutubeCaptionsIngester {
    pub config: RunConfig,
    pub state: RunState,
}

/// A failed run.
fn fail(stage: Stage, error: YoutubeCaptionsIngesterError) -> (r: RunState)
    ensures
        r@ == failed(stage, error),
{
    RunState::Failed(RunError { stage, error })
}

/// The state after the watch page.
fn on_page(body: String) -> (r: RunState)
    ensures
        r@ == after_page(body@),
{
    let html = YoutubeCaptionsLoader::decode_page(body.as_str());
    if YoutubeCaptionsLoader::consent_required(html.as_str()) {
        fail(
            Stage::FetchingPage,
            YoutubeCaptionsIngesterError::LoaderError(YoutubeCaptionsLoaderError::ConsentRequired),
        )
    } else {
        RunState::ExtractingTracks { html }
    }
}

/// The state after the extraction of the manifest.
fn on_extraction(loader: &YoutubeCaptionsLoader, html: String) -> (r: RunState)
    ensures
        r@ == after_extraction(html@),
{
    match loader.extract_captions_json(html) {
        Ok(tracks) => RunState::SelectingTrack { tracks },
        Err(e) => fail(Stage::ExtractingTracks, YoutubeCaptionsIngesterError::LoaderError(e)),
    }
}

/// The state after the selection of a track.
fn on_selection(config: &RunConfig, loader: &YoutubeCaptionsLoader, tracks: CaptionsList) -> (r:
    RunState)
    requires
        loader@ == config.video_id@,
    ensures
        r@ == after_selection(config@, tracks@),
{
    match loader.select(&tracks, config.policy) {
        Ok(transcript) => RunState::FetchingTranscript { transcript },
        Err(e) => fail(Stage::SelectingTrack, YoutubeCaptionsIngesterError::LoaderError(e)),
    }
}

/// The state after the timed-text document.
fn on_transcript(transcript: Transcript, xml: String) -> (r: RunState)
    ensures
        r@ == after_transcript(transcript@, xml@),
{
    match YoutubeCaptionsLoader::read_transcript(xml.as_str()) {
        Ok(captions) => {
            let body = transcript_body(&captions);
            RunState::Tokenizing { transcript, texts: pre_chunk(body.as_str()) }
        },
        Err(e) => fail(Stage::FetchingTranscript, YoutubeCaptionsIngesterError::LoaderError(e)),
    }
}

/// The state after the tokenizer.
fn on_tokens(config: &RunConfig, transcript: Transcript, texts: Vec<String>, parts: Vec<Vec<i64>>) -> (r:
    RunState)
    ensures
        r@ == after_tokens(config@, transcript@, views(texts@), token_views(parts@)),
{
    if parts.len() == texts.len() {
        let tokens = concat_tokens(&parts);
        RunState::Detokenizing {
            transcript,
            windows: token_windows(&tokens, config.max_tokens, config.overlap),
        }
    } else {
        fail(Stage::Chunking, YoutubeCaptionsIngesterError::TokenizerError)
    }
}

/// The chunks of a transcript: one document for each text.
pub fn chunk_documents(texts: Vec<String>, transcript: &Transcript) -> (r: Vec<Document<Metadata>>)
    ensures
        document_views(r@) == chunks_spec(views(texts@), transcript@),
{
    let metadata = YoutubeCaptionsLoader::metadata_of(transcript);
    let ghost all = views(texts@);
    let mut texts = texts;
    let mut out: Vec<Document<Metadata>> = Vec::new();
    let mut rest: Vec<String> = Vec::new();
    let n = texts.len();
    // The texts are taken from the end, so they are put back in order below.
    while texts.len() > 0
        invariant
            texts.len() + rest.len() == n,
            n == all.len(),
            forall|i: int| 0 <= i < texts.len() ==> (#[trigger] texts@[i])@ == all[i],
            forall|i: int|
                0 <= i < rest.len() ==> (#[trigger] rest@[i])@ == all[n - 1 - i],
        decreases texts.len(),
    {
        let last = texts.pop().unwrap();
        rest.push(last);
    }
    while rest.len() > 0
        invariant
            out.len() + rest.len() == n,
            n == all.len(),
            pair_views(metadata@) == transcript_metadata(transcript@),
            forall|i: int|
                0 <= i < rest.len() ==> (#[trigger] rest@[i])@ == all[n - 1 - i],
            forall|i: int|
                0 <= i < out.len() ==> (#[trigger] out@[i])@ == (DocumentView {
                    page_content: all[i],
                    metadata: Some(transcript_metadata(transcript@)),
                }),
        decreases rest.len(),
    {
        let text = rest.pop().unwrap();
        out.push(Document { page_content: text, metadata: Some(clone_metadata(&metadata)) });
    }
    assert(document_views(out@) =~= chunks_spec(all, transcript@));
    out
}

/// The state after the windows were turned into text.
fn on_texts(config: &RunConfig, transcript: Transcript, windows: Vec<Vec<i64>>, texts: Vec<String>) -> (r:
    RunState)
    ensures
        r@ == after_texts(config@, transcript@, token_views(windows@), views(texts@)),
{
    if texts.len() == windows.len() {
        let chunks = chunk_documents(texts, &transcript);
        if config.collection_confirmed {
            RunState::Embedding { chunks }
        } else {
            RunState::CheckingCollection { chunks }
        }
    } else {
        fail(Stage::Chunking, YoutubeCaptionsIngesterError::TokenizerError)
    }
}

/// The text that the embedding model is probed with for the length of its
/// vectors.
pub fn probe_text() -> (r: &'static str)
    ensures
        r@ == "dummy val"@,
{
    "dummy val"
}

/// The length of the vectors of an embedding model, from the lengths of the
/// vectors that it gave for the probe: that of the first. A model that gave
/// no vector has failed.
pub fn embedding_dimension(lengths: &Vec<usize>) -> (r: Result<u64, YoutubeCaptionsIngesterError>)
    ensures
        match r {
            Ok(n) => lengths.len() > 0 && n == lengths@[0],
            Err(e) => lengths.len() == 0 && e == YoutubeCaptionsIngesterError::ModelError,
        },
{
    if lengths.len() > 0 {
        Ok(lengths[0] as u64)
    } else {
        Err(YoutubeCaptionsIngesterError::ModelError)
    }
}

/// Whether every vector has the length that the collection is made for.
pub fn vector_lengths_fit(lengths: &Vec<usize>, vector_size: u64) -> (r: bool)
    ensures
        r == lengths_fit(lengths@, vector_size),
{
    let mut i: usize = 0;
    while i < lengths.len()
        invariant
            i <= lengths.len(),
            forall|j: int| 0 <= j < i ==> #[trigger] lengths@[j] == vector_size,
        decreases lengths.len() - i,
    {
        if lengths[i] as u64 != vector_size {
            return false;
        }
        i += 1;
    }
    true
}

/// The state after the embedding.
fn on_embedding(config: &RunConfig, chunks: Vec<Document<Metadata>>, lengths: Vec<usize>) -> (r:
    RunState)
    ensures
        r@ == after_embedding(config@, document_views(chunks@), lengths@),
{
    if lengths.len() == chunks.len() && vector_lengths_fit(&lengths, config.collection.vector_size) {
        RunState::Writing { chunks }
    } else {
        fail(Stage::Upserting, YoutubeCaptionsIngesterError::ModelError)
    }
}

/// The state after the write.
fn on_write(config: &RunConfig, chunks: Vec<Document<Metadata>>, ids: Vec<String>) -> (r: RunState)
    ensures
        r@ == after_write(config@, document_views(chunks@), views(ids@)),
{
    if ids.len() == chunks.len() {
        RunState::Done(
            IngestResult {
                video_id: config.video_id.clone(),
                chunk_count: chunks.len(),
                record_ids: ids,
            },
        )
    } else {
        fail(Stage::Upserting, YoutubeCaptionsIngesterError::VectorStoreError)
    }
}

impl RunState {
    /// Whether the run has ended.
    pub fn is_terminal(&self) -> (r: bool)
        ensures
            r == is_terminal(self@),
    {
        match self {
            RunState::Done(_) => true,
            RunState::Failed(_) => true,
            RunState::Cancelled => true,
            _ => false,
        }
    }

    /// The stage that the state belongs to.
    pub fn stage(&self) -> (r: Stage)
        ensures
            r == stage_of(self@),
    {
        match self {
            RunState::FetchingPage => Stage::FetchingPage,
            RunState::ExtractingTracks { .. } => Stage::ExtractingTracks,
            RunState::SelectingTrack { .. } => Stage::SelectingTrack,
            RunState::FetchingTranscript { .. } => Stage::FetchingTranscript,
            RunState::Tokenizing { .. } => Stage::Chunking,
            RunState::Detokenizing { .. } => Stage::Chunking,
            RunState::CheckingCollection { .. } => Stage::Provisioning,
            RunState::CreatingCollection { .. } => Stage::Provisioning,
            RunState::Embedding { .. } => Stage::Upserting,
            RunState::Writing { .. } => Stage::Upserting,
            _ => Stage::Pending,
        }
    }

    /// The outside work that the state waits for.
    pub fn action(&self) -> (r: Action)
        ensures
            r == action_spec(self@),
    {
        match self {
            RunState::Pending => Action::Advance,
            RunState::FetchingPage => Action::FetchPage,
            RunState::ExtractingTracks { .. } => Action::Advance,
            RunState::SelectingTrack { .. } => Action::Advance,
            RunState::FetchingTranscript { .. } => Action::FetchTranscript,
            RunState::Tokenizing { .. } => Action::Tokenize,
            RunState::Detokenizing { .. } => Action::Detokenize,
            RunState::CheckingCollection { .. } => Action::CheckCollection,
            RunState::CreatingCollection { .. } => Action::CreateCollection,
            RunState::Embedding { .. } => Action::Embed,
            RunState::Writing { .. } => Action::Upsert,
            RunState::Done(_) => Action::Stop,
            RunState::Failed(_) => Action::Stop,
            RunState::Cancelled => Action::Stop,
        }
    }
}

impl YoutubeCaptionsIngester {
    /// A run for the video `video_id` into the collection `collection_name`
    /// of vectors of length `embeddings_size`, compared by cosine distance.
    /// Chunks hold at most `DEFAULT_MAX_TOKENS` token ids and share
    /// `DEFAULT_OVERLAP`; the first track is taken; the collection is not
    /// taken to exist.
    pub fn new(video_id: String, collection_name: String, embeddings_size: u64) -> (r: Self)
        requires
            video_id@.len() > 0,
        ensures
            r.config@ == (RunConfigView {
                video_id: video_id@,
                collection: CollectionDescriptorView {
                    name: collection_name@,
                    vector_size: embeddings_size,
                    distance: Distance::Cosine,
                },
                max_tokens: DEFAULT_MAX_TOKENS,
                overlap: DEFAULT_OVERLAP,
                policy: TrackPolicy::First,
                collection_confirmed: false,
            }),
            r.state@ == RunStateView::Pending,
    {
        YoutubeCaptionsIngester {
            config: RunConfig {
                video_id,
                collection: CollectionDescriptor {
                    name: collection_name,
                    vector_size: embeddings_size,
                    distance: Distance::Cosine,
                },
                max_tokens: DEFAULT_MAX_TOKENS,
                overlap: DEFAULT_OVERLAP,
                policy: TrackPolicy::First,
                collection_confirmed: false,
            },
            state: RunState::Pending,
        }
    }

    /// The same run, with chunks of at most `max_tokens` token ids that
    /// share `overlap`.
    pub fn with_chunking(self, max_tokens: usize, overlap: usize) -> (r: Self)
        ensures
            r.config@ == (RunConfigView { max_tokens, overlap, ..self.config@ }),
            r.state@ == self.state@,
    {
        let YoutubeCaptionsIngester { config, state } = self;
        YoutubeCaptionsIngester { config: RunConfig { max_tokens, overlap, ..config }, state }
    }

    /// The same run, with the collection taken to exist: the run will not
    /// provide it.
    pub fn with_confirmed_collection(self) -> (r: Self)
        ensures
            r.config@ == (RunConfigView { collection_confirmed: true, ..self.config@ }),
            r.state@ == self.state@,
    {
        let YoutubeCaptionsIngester { config, state } = self;
        YoutubeCaptionsIngester { config: RunConfig { collection_confirmed: true, ..config }, state }
    }

    /// What is to be created so that the collection exists: the collection
    /// of the run where it does not exist, nothing where it does.
    pub fn ensure_collection(&self, exists: bool) -> (r: Option<CollectionDescriptor>)
        ensures
            match r {
                Some(descriptor) => needs_creation(exists) && descriptor@
                    == self.config.collection@,
                None => !needs_creation(exists),
            },
    {
        if exists {
            None
        } else {
            Some(
                CollectionDescriptor {
                    name: self.config.collection.name.clone(),
                    vector_size: self.config.collection.vector_size,
                    distance: self.config.collection.distance,
                },
            )
        }
    }

    /// The address of the watch page of the video.
    pub fn page_url(&self) -> (r: String)
        ensures
            r@ == watch_url(self.config.video_id@),
    {
        YoutubeCaptionsLoader::new(self.config.video_id.clone()).page_url()
    }

    /// The outside work that the run waits for.
    pub fn action(&self) -> (r: Action)
        ensures
            r == action_spec(self.state@),
    {
        self.state.action()
    }

    /// Moves the run on by what the outside work gave back.
    pub fn step(self, event: Event) -> (r: Self)
        ensures
            r.config@ == self.config@,
            r.state@ == next_state(self.config@, self.state@, event@),
    {
        let YoutubeCaptionsIngester { config, state } = self;
        if state.is_terminal() {
            return YoutubeCaptionsIngester { config, state };
        }
        let next = match (state, event) {
            (_, Event::Cancel) => RunState::Cancelled,
            (state, Event::Failure(error)) => fail(state.stage(), error),
            (RunState::Pending, Event::Advance) => RunState::FetchingPage,
            (RunState::FetchingPage, Event::Page(body)) => on_page(body),
            (RunState::ExtractingTracks { html }, Event::Advance) => {
                let loader = YoutubeCaptionsLoader::new(config.video_id.clone());
                on_extraction(&loader, html)
            },
            (RunState::SelectingTrack { tracks }, Event::Advance) => {
                let loader = YoutubeCaptionsLoader::new(config.video_id.clone());
                on_selection(&config, &loader, tracks)
            },
            (RunState::FetchingTranscript { transcript }, Event::TranscriptXml(xml)) => {
                on_transcript(transcript, xml)
            },
            (RunState::Tokenizing { transcript, texts }, Event::Tokens(parts)) => on_tokens(
                &config,
                transcript,
                texts,
                parts,
            ),
            (RunState::Detokenizing { transcript, windows }, Event::Texts(texts)) => on_texts(
                &config,
                transcript,
                windows,
                texts,
            ),
            (RunState::CheckingCollection { chunks }, Event::CollectionExists(exists)) => {
                if exists {
                    RunState::Embedding { chunks }
                } else {
                    RunState::CreatingCollection { chunks }
                }
            },
            (RunState::CreatingCollection { chunks }, Event::CollectionCreated) => {
                RunState::Embedding { chunks }
            },
            (RunState::CreatingCollection { chunks }, Event::CollectionExists(exists)) => {
                if exists {
                    RunState::Embedding { chunks }
                } else {
                    RunState::CreatingCollection { chunks }
                }
            },
            (RunState::Embedding { chunks }, Event::VectorLengths(lengths)) => on_embedding(
                &config,
                chunks,
                lengths,
            ),
            (RunState::Writing { chunks }, Event::RecordIds(ids)) => on_write(&config, chunks, ids),
            (state, _) => state,
        };
        YoutubeCaptionsIngester { config, state: next }
    }
}

} // verus!
