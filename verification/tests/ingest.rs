use caption_ingest::captions::CaptionsList;
use caption_ingest::ingest::{
    chunk_documents, embedding_dimension, probe_text, vector_lengths_fit, Action,
    CollectionDescriptor, Distance, Event, IngestResult, RunError, RunState, Stage,
    YoutubeCaptionsIngester, YoutubeCaptionsIngesterError,
};
use caption_ingest::loader::{YoutubeCaptionsLoader, YoutubeCaptionsLoaderError};
use caption_ingest::schema::Document;
use caption_ingest::transcript::{TrackPolicy, Transcript};

fn s(text: &str) -> String {
    text.to_string()
}

fn page() -> String {
    s("<html>{\"x\":1,\"captions\":{\"playerCaptionsTracklistRenderer\":{\"captionTracks\":[\
       {\"baseUrl\":\"https://example.test/timedtext?v=abc&amp;lang=en\",\"languageCode\":\"en\",\"isTranslatable\":true,\"kind\":\"asr\"},\
       {\"baseUrl\":\"https://example.test/timedtext?v=abc&amp;lang=de\",\"languageCode\":\"de\",\"isTranslatable\":true}]}},\
       \"videoDetails\":{}}</html>")
}

fn xml() -> String {
    s("<transcript><text>one two</text><text>three</text><text>four five six</text></transcript>")
}

fn run() -> YoutubeCaptionsIngester {
    YoutubeCaptionsIngester::new(s("abc"), s("videos"), 3).with_chunking(4, 1)
}

fn transcript() -> Transcript {
    Transcript {
        video_id: s("abc"),
        url: s("https://example.test/timedtext?v=abc&lang=en"),
        language_code: s("en"),
        is_generated: true,
        translation_langs: vec![],
    }
}

fn failed(stage: Stage, error: YoutubeCaptionsIngesterError) -> RunState {
    RunState::Failed(RunError { stage, error })
}

fn loading(error: YoutubeCaptionsLoaderError) -> YoutubeCaptionsIngesterError {
    YoutubeCaptionsIngesterError::LoaderError(error)
}

/// One token id for each letter of each word.
fn tokenize(texts: &Vec<String>) -> Vec<Vec<i64>> {
    texts
        .iter()
        .map(|t| t.chars().filter(|c| !c.is_whitespace()).map(|c| c as i64).collect())
        .collect()
}

fn detokenize(windows: &Vec<Vec<i64>>) -> Vec<String> {
    windows
        .iter()
        .map(|w| w.iter().map(|id| char::from_u32(*id as u32).unwrap()).collect())
        .collect()
}

fn chunks_of(state: &RunState) -> Vec<Document<Vec<(String, String)>>> {
    match state {
        RunState::CheckingCollection { chunks }
        | RunState::CreatingCollection { chunks }
        | RunState::Embedding { chunks }
        | RunState::Writing { chunks } => chunks
            .iter()
            .map(|d| Document { page_content: d.page_content.clone(), metadata: d.metadata.clone() })
            .collect(),
        _ => panic!("the run holds no chunks"),
    }
}

/// Drives a run to the state in which it holds its chunks.
fn chunked(run: YoutubeCaptionsIngester) -> YoutubeCaptionsIngester {
    let run = run.step(Event::Advance).step(Event::Page(page()));
    let run = run.step(Event::Advance).step(Event::Advance);
    let run = run.step(Event::TranscriptXml(xml()));
    let tokens = match &run.state {
        RunState::Tokenizing { texts, .. } => tokenize(texts),
        _ => panic!("the run is not tokenizing"),
    };
    let run = run.step(Event::Tokens(tokens));
    let texts = match &run.state {
        RunState::Detokenizing { windows, .. } => detokenize(windows),
        _ => panic!("the run is not detokenizing"),
    };
    run.step(Event::Texts(texts))
}

#[test]
fn a_new_run_is_pending_with_the_defaults() {
    let run = YoutubeCaptionsIngester::new(s("abc"), s("videos"), 384);
    assert_eq!(run.state, RunState::Pending);
    assert_eq!(run.config.video_id, "abc");
    assert_eq!(
        run.config.collection,
        CollectionDescriptor { name: s("videos"), vector_size: 384, distance: Distance::Cosine }
    );
    assert_eq!(run.config.max_tokens, 128);
    assert_eq!(run.config.overlap, 16);
    assert_eq!(run.config.policy, TrackPolicy::First);
    assert!(!run.config.collection_confirmed);
    assert_eq!(run.action(), Action::Advance);
    assert_eq!(run.page_url(), "https://www.youtube.com/watch?v=abc");
    let run = run.with_chunking(64, 8).with_confirmed_collection();
    assert_eq!(run.config.max_tokens, 64);
    assert_eq!(run.config.overlap, 8);
    assert!(run.config.collection_confirmed);
    assert_eq!(run.state, RunState::Pending);
}

#[test]
fn a_run_passes_through_every_stage_in_order() {
    let run = run();
    assert_eq!(run.state.stage(), Stage::Pending);

    let run = run.step(Event::Advance);
    assert_eq!(run.state, RunState::FetchingPage);
    assert_eq!(run.action(), Action::FetchPage);

    let run = run.step(Event::Page(page()));
    assert_eq!(run.state.stage(), Stage::ExtractingTracks);
    assert_eq!(run.action(), Action::Advance);

    let run = run.step(Event::Advance);
    assert_eq!(run.state.stage(), Stage::SelectingTrack);
    assert_eq!(run.action(), Action::Advance);

    let run = run.step(Event::Advance);
    assert_eq!(run.state, RunState::FetchingTranscript { transcript: transcript() });
    assert_eq!(run.action(), Action::FetchTranscript);

    let run = run.step(Event::TranscriptXml(xml()));
    assert_eq!(
        run.state,
        RunState::Tokenizing { transcript: transcript(), texts: vec![s("one two three four five six")] }
    );
    assert_eq!(run.state.stage(), Stage::Chunking);
    assert_eq!(run.action(), Action::Tokenize);

    let run = run.step(Event::Tokens(vec![vec![1, 2, 3, 4, 5, 6, 7, 8]]));
    assert_eq!(
        run.state,
        RunState::Detokenizing {
            transcript: transcript(),
            windows: vec![vec![1, 2, 3, 4], vec![4, 5, 6, 7], vec![7, 8]],
        }
    );
    assert_eq!(run.state.stage(), Stage::Chunking);
    assert_eq!(run.action(), Action::Detokenize);

    let run = run.step(Event::Texts(vec![s("first"), s("second"), s("third")]));
    let chunks = chunks_of(&run.state);
    assert_eq!(chunks.len(), 3);
    assert_eq!(chunks[1].page_content, "second");
    for chunk in &chunks {
        assert_eq!(chunk.metadata, Some(YoutubeCaptionsLoader::metadata_of(&transcript())));
    }
    assert!(matches!(run.state, RunState::CheckingCollection { .. }));
    assert_eq!(run.state.stage(), Stage::Provisioning);
    assert_eq!(run.action(), Action::CheckCollection);

    let run = run.step(Event::CollectionExists(false));
    assert!(matches!(run.state, RunState::CreatingCollection { .. }));
    assert_eq!(run.state.stage(), Stage::Provisioning);
    assert_eq!(run.action(), Action::CreateCollection);

    let run = run.step(Event::CollectionCreated);
    assert!(matches!(run.state, RunState::Embedding { .. }));
    assert_eq!(run.state.stage(), Stage::Upserting);
    assert_eq!(run.action(), Action::Embed);

    let run = run.step(Event::VectorLengths(vec![3, 3, 3]));
    assert!(matches!(run.state, RunState::Writing { .. }));
    assert_eq!(chunks_of(&run.state), chunks);
    assert_eq!(run.action(), Action::Upsert);

    let run = run.step(Event::RecordIds(vec![s("id-1"), s("id-2"), s("id-3")]));
    assert_eq!(
        run.state,
        RunState::Done(IngestResult {
            video_id: s("abc"),
            chunk_count: 3,
            record_ids: vec![s("id-1"), s("id-2"), s("id-3")],
        })
    );
    assert!(run.state.is_terminal());
    assert_eq!(run.action(), Action::Stop);
}

#[test]
fn a_completed_run_names_one_record_for_each_chunk() {
    let run = chunked(run());
    let count = chunks_of(&run.state).len();
    assert_eq!(count, 8);
    let run = run.step(Event::CollectionExists(true));
    let run = run.step(Event::VectorLengths(vec![3; count]));
    let ids: Vec<String> = (0..count).map(|i| format!("r{}", i)).collect();
    let run = run.step(Event::RecordIds(ids.clone()));
    match run.state {
        RunState::Done(result) => {
            assert!(result.chunk_count >= 1);
            assert_eq!(result.record_ids.len(), result.chunk_count);
            assert_eq!(result.record_ids, ids);
            assert_eq!(result.video_id, "abc");
        },
        other => panic!("the run did not complete: {:?}", other),
    }
}

#[test]
fn a_transcript_of_whitespace_completes_without_chunks() {
    let run = run().step(Event::Advance).step(Event::Page(page()));
    let run = run.step(Event::Advance).step(Event::Advance);
    let run = run.step(Event::TranscriptXml(s("<transcript><text> </text></transcript>")));
    assert_eq!(run.state, RunState::Tokenizing { transcript: transcript(), texts: vec![] });
    let run = run.step(Event::Tokens(vec![]));
    assert_eq!(run.state, RunState::Detokenizing { transcript: transcript(), windows: vec![] });
    let run = run.step(Event::Texts(vec![])).step(Event::CollectionExists(true));
    let run = run.step(Event::VectorLengths(vec![])).step(Event::RecordIds(vec![]));
    assert_eq!(
        run.state,
        RunState::Done(IngestResult { video_id: s("abc"), chunk_count: 0, record_ids: vec![] })
    );
}

#[test]
fn the_consent_form_fails_the_run_before_any_transcript_is_fetched() {
    let body = s("<html><form action=\"https://consent.youtube.com/s\" method=\"POST\"></form></html>");
    let run = run().step(Event::Advance).step(Event::Page(body));
    let consent = failed(Stage::FetchingPage, loading(YoutubeCaptionsLoaderError::ConsentRequired));
    assert_eq!(run.state, consent);
    assert_eq!(run.action(), Action::Stop);
    let run = run.step(Event::Advance);
    assert_eq!(run.action(), Action::Stop);
    let run = run.step(Event::TranscriptXml(xml())).step(Event::Cancel);
    assert_eq!(run.state, consent);
    assert_eq!(run.action(), Action::Stop);
}

#[test]
fn the_consent_form_is_seen_in_an_escaped_body() {
    let body = s("<form action=&quot;https://consent.youtube.com/s&quot;>");
    let run = run().step(Event::Advance).step(Event::Page(body));
    assert_eq!(
        run.state,
        failed(Stage::FetchingPage, loading(YoutubeCaptionsLoaderError::ConsentRequired))
    );
}

#[test]
fn a_manifest_without_tracks_fails_the_run_with_no_tracks_available() {
    let mut run = run();
    run.state = RunState::SelectingTrack {
        tracks: CaptionsList { caption_tracks: None, translation_languages: None },
    };
    let run = run.step(Event::Advance);
    assert_eq!(
        run.state,
        failed(Stage::SelectingTrack, loading(YoutubeCaptionsLoaderError::NoTracksAvailable))
    );
    assert_eq!(run.action(), Action::Stop);

    let body = s("{\"captions\":{\"playerCaptionsTracklistRenderer\":{\"captionTracks\":[]}},\"videoDetails\":1}");
    let run = self::run().step(Event::Advance).step(Event::Page(body));
    let run = run.step(Event::Advance).step(Event::Advance);
    assert_eq!(
        run.state,
        failed(Stage::SelectingTrack, loading(YoutubeCaptionsLoaderError::NoTracksAvailable))
    );
}

#[test]
fn a_page_without_manifest_fails_the_extraction() {
    let run = run().step(Event::Advance).step(Event::Page(s("<html>nothing here</html>")));
    assert_eq!(run.state, RunState::ExtractingTracks { html: s("<html>nothing here</html>") });
    let run = run.step(Event::Advance);
    assert_eq!(
        run.state,
        failed(
            Stage::ExtractingTracks,
            loading(YoutubeCaptionsLoaderError::ExtractCaptionsJsonError)
        )
    );
}

#[test]
fn a_broken_transcript_fails_the_run() {
    let at_transcript = || {
        let run = run().step(Event::Advance).step(Event::Page(page()));
        run.step(Event::Advance).step(Event::Advance)
    };
    assert_eq!(
        at_transcript().step(Event::TranscriptXml(s("<transcript>"))).state,
        failed(Stage::FetchingTranscript, loading(YoutubeCaptionsLoaderError::TranscriptParseError))
    );
    assert_eq!(
        at_transcript().step(Event::TranscriptXml(s("<transcript/>"))).state,
        failed(Stage::FetchingTranscript, loading(YoutubeCaptionsLoaderError::EmptyTranscriptError))
    );
}

#[test]
fn a_failure_is_wrapped_with_the_stage_it_came_from() {
    let fetch = loading(YoutubeCaptionsLoaderError::FetchHtmlError);
    assert_eq!(run().step(Event::Failure(fetch)).state, failed(Stage::Pending, fetch));
    let run1 = run().step(Event::Advance);
    assert_eq!(run1.step(Event::Failure(fetch)).state, failed(Stage::FetchingPage, fetch));
    let run2 = run().step(Event::Advance).step(Event::Page(page()));
    assert_eq!(
        run2.step(Event::Failure(YoutubeCaptionsIngesterError::ModelError)).state,
        failed(Stage::ExtractingTracks, YoutubeCaptionsIngesterError::ModelError)
    );
    let run3 = run().step(Event::Advance).step(Event::Page(page())).step(Event::Advance);
    assert_eq!(run3.step(Event::Failure(fetch)).state, failed(Stage::SelectingTrack, fetch));
    let run4 = run().step(Event::Advance).step(Event::Page(page()));
    let run4 = run4.step(Event::Advance).step(Event::Advance);
    assert_eq!(run4.step(Event::Failure(fetch)).state, failed(Stage::FetchingTranscript, fetch));
    let run5 = run().step(Event::Advance).step(Event::Page(page()));
    let run5 = run5.step(Event::Advance).step(Event::Advance).step(Event::TranscriptXml(xml()));
    let tokenizer = YoutubeCaptionsIngesterError::TokenizerError;
    assert_eq!(run5.step(Event::Failure(tokenizer)).state, failed(Stage::Chunking, tokenizer));
    let store = YoutubeCaptionsIngesterError::VectorStoreError;
    assert_eq!(chunked(run()).step(Event::Failure(store)).state, failed(Stage::Provisioning, store));
    let run6 = chunked(run()).step(Event::CollectionExists(false));
    assert_eq!(run6.step(Event::Failure(store)).state, failed(Stage::Provisioning, store));
    let model = YoutubeCaptionsIngesterError::ModelError;
    let run7 = chunked(run()).step(Event::CollectionExists(true));
    assert_eq!(run7.step(Event::Failure(model)).state, failed(Stage::Upserting, model));
    let run8 = chunked(run()).step(Event::CollectionExists(true));
    let run8 = run8.step(Event::VectorLengths(vec![3; 8]));
    assert_eq!(run8.step(Event::Failure(store)).state, failed(Stage::Upserting, store));
}

#[test]
fn a_run_can_be_cancelled_until_it_has_ended() {
    assert_eq!(run().step(Event::Cancel).state, RunState::Cancelled);
    assert_eq!(run().step(Event::Advance).step(Event::Cancel).state, RunState::Cancelled);
    let run1 = chunked(run()).step(Event::Cancel);
    assert_eq!(run1.state, RunState::Cancelled);
    assert_eq!(run1.action(), Action::Stop);
    assert!(run1.state.is_terminal());
    let run1 = run1.step(Event::Failure(YoutubeCaptionsIngesterError::ModelError));
    assert_eq!(run1.state, RunState::Cancelled);
    let done = chunked(run())
        .step(Event::CollectionExists(true))
        .step(Event::VectorLengths(vec![3; 8]))
        .step(Event::RecordIds(vec![s("r"); 8]));
    assert!(matches!(done.state, RunState::Done(_)));
    assert!(matches!(done.step(Event::Cancel).state, RunState::Done(_)));
}

#[test]
fn the_tokenizer_owes_one_answer_for_each_item() {
    let run1 = run().step(Event::Advance).step(Event::Page(page()));
    let run1 = run1.step(Event::Advance).step(Event::Advance).step(Event::TranscriptXml(xml()));
    let mismatch = failed(Stage::Chunking, YoutubeCaptionsIngesterError::TokenizerError);
    assert_eq!(run1.step(Event::Tokens(vec![vec![1], vec![2]])).state, mismatch);
    let run2 = run().step(Event::Advance).step(Event::Page(page()));
    let run2 = run2.step(Event::Advance).step(Event::Advance).step(Event::TranscriptXml(xml()));
    let run2 = run2.step(Event::Tokens(vec![vec![1, 2, 3, 4, 5]]));
    assert_eq!(run2.step(Event::Texts(vec![s("only one")])).state, mismatch);
}

#[test]
fn a_vector_of_the_wrong_length_is_fatal() {
    let at_embedding = || chunked(run()).step(Event::CollectionExists(true));
    let model = failed(Stage::Upserting, YoutubeCaptionsIngesterError::ModelError);
    let mut lengths = vec![3; 8];
    lengths[5] = 4;
    assert_eq!(at_embedding().step(Event::VectorLengths(lengths)).state, model);
    assert_eq!(at_embedding().step(Event::VectorLengths(vec![3; 7])).state, model);
    assert_eq!(at_embedding().step(Event::VectorLengths(vec![3; 9])).state, model);
    assert!(vector_lengths_fit(&vec![384, 384], 384));
    assert!(vector_lengths_fit(&vec![], 384));
    assert!(!vector_lengths_fit(&vec![384, 383], 384));
}

#[test]
fn the_store_owes_one_identifier_for_each_chunk() {
    let at_writing =
        || chunked(run()).step(Event::CollectionExists(true)).step(Event::VectorLengths(vec![3; 8]));
    let store = failed(Stage::Upserting, YoutubeCaptionsIngesterError::VectorStoreError);
    assert_eq!(at_writing().step(Event::RecordIds(vec![s("r"); 7])).state, store);
    assert_eq!(at_writing().step(Event::RecordIds(vec![])).state, store);
}

#[test]
fn a_confirmed_collection_is_not_provided_again() {
    let run = chunked(run().with_confirmed_collection());
    assert!(matches!(run.state, RunState::Embedding { .. }));
    assert_eq!(run.action(), Action::Embed);
}

#[test]
fn a_collection_that_another_run_created_in_the_meantime_is_no_failure() {
    let run = chunked(run()).step(Event::CollectionExists(false));
    assert_eq!(run.action(), Action::CreateCollection);
    let before = chunks_of(&run.state);
    let run = run.step(Event::CollectionExists(false));
    assert!(matches!(run.state, RunState::CreatingCollection { .. }));
    let run = run.step(Event::CollectionExists(true));
    assert!(matches!(run.state, RunState::Embedding { .. }));
    assert_eq!(chunks_of(&run.state), before);
}

#[test]
fn ensuring_a_collection_twice_creates_it_once() {
    let run = run();
    let mut store: Vec<String> = Vec::new();
    let mut created = 0;
    for _ in 0..2 {
        let exists = store.contains(&run.config.collection.name);
        if let Some(descriptor) = run.ensure_collection(exists) {
            assert_eq!(
                descriptor,
                CollectionDescriptor { name: s("videos"), vector_size: 3, distance: Distance::Cosine }
            );
            store.push(descriptor.name);
            created += 1;
        }
    }
    assert_eq!(created, 1);
    assert_eq!(store, vec![s("videos")]);
    assert_eq!(run.ensure_collection(true), None);
}

#[test]
fn an_event_that_the_state_does_not_wait_for_changes_nothing() {
    let run1 = run().step(Event::Page(page()));
    assert_eq!(run1.state, RunState::Pending);
    let run2 = run().step(Event::Advance).step(Event::Advance);
    assert_eq!(run2.state, RunState::FetchingPage);
    let run3 = run2.step(Event::TranscriptXml(xml())).step(Event::CollectionCreated);
    assert_eq!(run3.state, RunState::FetchingPage);
    let run4 = chunked(run());
    let before = chunks_of(&run4.state);
    let run4 = run4.step(Event::CollectionCreated).step(Event::RecordIds(vec![]));
    assert!(matches!(run4.state, RunState::CheckingCollection { .. }));
    assert_eq!(chunks_of(&run4.state), before);
}

#[test]
fn the_dimension_of_a_model_is_the_length_of_its_first_vector() {
    assert_eq!(probe_text(), "dummy val");
    assert_eq!(embedding_dimension(&vec![384]), Ok(384));
    assert_eq!(embedding_dimension(&vec![768, 1]), Ok(768));
    assert_eq!(embedding_dimension(&vec![]), Err(YoutubeCaptionsIngesterError::ModelError));
}

#[test]
fn chunks_carry_the_metadata_of_their_transcript() {
    let t = transcript();
    let chunks = chunk_documents(vec![s("a"), s("b"), s("c")], &t);
    let contents: Vec<&str> = chunks.iter().map(|c| c.page_content.as_str()).collect();
    assert_eq!(contents, vec!["a", "b", "c"]);
    for chunk in &chunks {
        assert_eq!(
            chunk.metadata,
            Some(vec![
                (s("video_id"), s("abc")),
                (s("language_code"), s("en")),
                (s("translation_langs"), s("")),
                (s("is_generated"), s("true")),
            ])
        );
    }
    assert_eq!(chunk_documents(vec![], &t), vec![]);
}
