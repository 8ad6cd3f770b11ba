use caption_ingest::captions::{CaptionTrack, CaptionsList, TrackKind};
use caption_ingest::loader::{YoutubeCaptionsLoader, YoutubeCaptionsLoaderError};
use caption_ingest::transcript::{
    captions_of, choose_track, node_is_caption, parse_transcript, select_transcript,
    transcript_body, TrackPolicy, Transcript, TranscriptError, XmlNode,
};

fn s(text: &str) -> String {
    text.to_string()
}

fn two_tracks() -> CaptionsList {
    CaptionsList {
        caption_tracks: Some(vec![
            CaptionTrack {
                base_url: s("https://example.test/en"),
                language_code: s("en"),
                is_translatable: true,
                kind: TrackKind::Asr,
            },
            CaptionTrack {
                base_url: s("https://example.test/de"),
                language_code: s("de"),
                is_translatable: false,
                kind: TrackKind::Manual,
            },
        ]),
        translation_languages: Some(vec![s("fr")]),
    }
}

#[test]
fn three_text_nodes_give_the_joined_string() {
    let xml = "<?xml version=\"1.0\" encoding=\"utf-8\" ?><transcript>\
               <text start=\"0.1\" dur=\"1.5\">a</text>\
               <text start=\"1.6\" dur=\"2\">b</text>\
               <text start=\"3.6\" dur=\"1\">c</text></transcript>";
    let captions = parse_transcript(xml).unwrap();
    assert_eq!(captions, vec![s("a"), s("b"), s("c")]);
    assert_eq!(transcript_body(&captions), "a b c");
}

#[test]
fn captions_keep_the_order_of_the_document() {
    let xml = "<transcript><text>zeta</text><p><text>alpha</text></p><text>mid</text></transcript>";
    assert_eq!(parse_transcript(xml), Ok(vec![s("zeta"), s("alpha"), s("mid")]));
}

#[test]
fn character_references_in_captions_are_decoded() {
    let xml = "<transcript><text>it&amp;#39;s &amp;quot;fine&amp;quot; &amp;amp; more &lt;3</text></transcript>";
    assert_eq!(parse_transcript(xml), Ok(vec![s("it's \"fine\" & more <3")]));
}

#[test]
fn malformed_xml_is_a_parse_error() {
    assert_eq!(parse_transcript("<transcript><text>a</transcript>"), Err(TranscriptError::TranscriptParseError));
    assert_eq!(parse_transcript(""), Err(TranscriptError::TranscriptParseError));
    assert_eq!(parse_transcript("not xml"), Err(TranscriptError::TranscriptParseError));
    assert_eq!(
        YoutubeCaptionsLoader::read_transcript("<a><b></a>"),
        Err(YoutubeCaptionsLoaderError::TranscriptParseError)
    );
}

#[test]
fn a_document_without_captions_is_an_empty_transcript() {
    assert_eq!(parse_transcript("<transcript/>"), Err(TranscriptError::EmptyTranscriptError));
    assert_eq!(
        parse_transcript("<transcript><line>a</line></transcript>"),
        Err(TranscriptError::EmptyTranscriptError)
    );
    assert_eq!(
        YoutubeCaptionsLoader::read_transcript("<transcript/>"),
        Err(YoutubeCaptionsLoaderError::EmptyTranscriptError)
    );
}

#[test]
fn a_caption_without_text_is_a_parse_error() {
    assert_eq!(
        parse_transcript("<transcript><text>a</text><text/></transcript>"),
        Err(TranscriptError::TranscriptParseError)
    );
    assert_eq!(
        parse_transcript("<transcript><text><b/>tail</text></transcript>"),
        Err(TranscriptError::TranscriptParseError)
    );
}

#[test]
fn only_text_elements_in_no_namespace_are_captions() {
    let xml = "<t xmlns:y=\"urn:y\"><y:text>other</y:text><text>mine</text><Text>case</Text><!--text--></t>";
    assert_eq!(parse_transcript(xml), Ok(vec![s("mine")]));
}

#[test]
fn a_caption_is_the_first_text_of_its_element() {
    let xml = "<t><text>head<b>bold</b>tail</text></t>";
    assert_eq!(parse_transcript(xml), Ok(vec![s("head")]));
}

#[test]
fn captions_of_reads_the_nodes_it_is_given() {
    let node = |namespace: Option<&str>, name: &str, text: Option<&str>| XmlNode {
        namespace: namespace.map(s),
        name: s(name),
        text: text.map(s),
    };
    let nodes = vec![
        node(None, "", None),
        node(None, "transcript", None),
        node(None, "text", Some("one &amp; two")),
        node(None, "", Some("one &amp; two")),
        node(Some("urn:y"), "text", Some("skipped")),
        node(None, "text", Some("three")),
    ];
    assert!(node_is_caption(&nodes[2]));
    assert!(!node_is_caption(&nodes[3]));
    assert!(!node_is_caption(&nodes[4]));
    assert_eq!(captions_of(&nodes), Ok(vec![s("one & two"), s("three")]));
    assert_eq!(captions_of(&Vec::new()), Err(TranscriptError::EmptyTranscriptError));
    let broken = vec![node(None, "text", Some("a")), node(None, "text", None)];
    assert_eq!(captions_of(&broken), Err(TranscriptError::TranscriptParseError));
}

#[test]
fn each_track_resolves_to_one_transcript() {
    let transcripts = Transcript::from_captions_list(two_tracks(), s("XZtlD_m59sM")).unwrap();
    assert_eq!(
        transcripts,
        vec![
            Transcript {
                video_id: s("XZtlD_m59sM"),
                url: s("https://example.test/en"),
                language_code: s("en"),
                is_generated: true,
                translation_langs: vec![],
            },
            Transcript {
                video_id: s("XZtlD_m59sM"),
                url: s("https://example.test/de"),
                language_code: s("de"),
                is_generated: false,
                translation_langs: vec![],
            },
        ]
    );
}

#[test]
fn a_manifest_without_tracks_resolves_to_no_transcript() {
    let none = CaptionsList { caption_tracks: None, translation_languages: None };
    assert_eq!(Transcript::from_captions_list(none, s("id")), Ok(vec![]));
    let empty = CaptionsList { caption_tracks: Some(vec![]), translation_languages: None };
    assert_eq!(Transcript::from_captions_list(empty, s("id")), Ok(vec![]));
}

#[test]
fn the_first_track_is_selected() {
    let selected = select_transcript(&two_tracks(), "id", TrackPolicy::First).unwrap();
    assert_eq!(selected.url, "https://example.test/en");
    assert_eq!(selected.language_code, "en");
    assert_eq!(selected.video_id, "id");
    assert!(selected.is_generated);
    assert_eq!(choose_track(TrackPolicy::First, 3), Some(0));
    assert_eq!(choose_track(TrackPolicy::First, 0), None);
}

#[test]
fn no_tracks_available_is_reported_not_raised() {
    let none = CaptionsList { caption_tracks: None, translation_languages: None };
    assert_eq!(select_transcript(&none, "id", TrackPolicy::First), None);
    let loader = YoutubeCaptionsLoader::new(s("id"));
    assert_eq!(
        loader.select(&none, TrackPolicy::First),
        Err(YoutubeCaptionsLoaderError::NoTracksAvailable)
    );
    let empty = CaptionsList { caption_tracks: Some(vec![]), translation_languages: None };
    assert_eq!(
        loader.select(&empty, TrackPolicy::First),
        Err(YoutubeCaptionsLoaderError::NoTracksAvailable)
    );
}
