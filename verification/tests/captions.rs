use caption_ingest::captions::{
    decode_captions_list, decode_manifest, decode_track, decode_tracks, extract_manifest,
    locate_manifest, CaptionTrack, CaptionsList, TrackKind,
};
use caption_ingest::json::{member, parse_json, Json};
use caption_ingest::loader::{YoutubeCaptionsLoader, YoutubeCaptionsLoaderError};

fn s(text: &str) -> String {
    text.to_string()
}

fn page(manifest: &str) -> String {
    format!(
        "<html><script>var r = {{\"responseContext\":{{}},\"captions\":{},\"videoDetails\":{{\"videoId\":\"x\"}}}};</script></html>",
        manifest
    )
}

fn track(url: &str, code: &str, translatable: bool, kind: TrackKind) -> CaptionTrack {
    CaptionTrack {
        base_url: s(url),
        language_code: s(code),
        is_translatable: translatable,
        kind,
    }
}

#[test]
fn extraction_returns_the_embedded_track_list() {
    let html = page(
        "{\"playerCaptionsTracklistRenderer\":{\"captionTracks\":[\
         {\"baseUrl\":\"https://example.test/timedtext?lang=en\",\"name\":{\"simpleText\":\"English\"},\"languageCode\":\"en\",\"kind\":\"asr\",\"isTranslatable\":true},\
         {\"baseUrl\":\"https://example.test/timedtext?lang=de\",\"languageCode\":\"de\",\"isTranslatable\":false}],\
         \"translationLanguages\":[{\"languageCode\":\"fr\",\"languageName\":{\"simpleText\":\"French\"}},{\"languageCode\":\"el\"}]}}",
    );
    let expected = CaptionsList {
        caption_tracks: Some(vec![
            track("https://example.test/timedtext?lang=en", "en", true, TrackKind::Asr),
            track("https://example.test/timedtext?lang=de", "de", false, TrackKind::Manual),
        ]),
        translation_languages: Some(vec![s("fr"), s("el")]),
    };
    assert_eq!(extract_manifest(&html), Some(expected));
}

#[test]
fn extraction_through_the_loader_gives_the_same_list() {
    let html = page(
        "{\"playerCaptionsTracklistRenderer\":{\"captionTracks\":[{\"baseUrl\":\"u\",\"languageCode\":\"en\",\"isTranslatable\":true,\"kind\":\"asr\"}]}}",
    );
    let loader = YoutubeCaptionsLoader::new(s("XZtlD_m59sM"));
    assert_eq!(
        loader.extract_captions_json(html),
        Ok(CaptionsList {
            caption_tracks: Some(vec![track("u", "en", true, TrackKind::Asr)]),
            translation_languages: None,
        })
    );
}

#[test]
fn extraction_fails_without_the_captions_marker() {
    let html = s("<html>{\"playerCaptionsTracklistRenderer\":{\"captionTracks\":[]},\"videoDetails\":{}}</html>");
    assert_eq!(extract_manifest(&html), None);
    let loader = YoutubeCaptionsLoader::new(s("id"));
    assert_eq!(
        loader.extract_captions_json(html),
        Err(YoutubeCaptionsLoaderError::ExtractCaptionsJsonError)
    );
}

#[test]
fn extraction_fails_without_the_video_details_marker() {
    let html = s("{\"captions\":{\"playerCaptionsTracklistRenderer\":{\"captionTracks\":[]}}}");
    assert_eq!(locate_manifest(&html), None);
    assert_eq!(extract_manifest(&html), None);
}

#[test]
fn extraction_fails_where_the_markers_stand_in_the_wrong_order() {
    let html = s("{\"x\":1,\"videoDetails\":{},\"captions\":{\"playerCaptionsTracklistRenderer\":{}}}");
    assert_eq!(extract_manifest(&html), None);
}

#[test]
fn extraction_fails_on_a_manifest_that_is_no_json() {
    assert_eq!(extract_manifest(&page("{\"playerCaptionsTracklistRenderer\":")), None);
    assert_eq!(extract_manifest(&page("")), None);
}

#[test]
fn extraction_fails_on_a_manifest_of_another_shape() {
    assert_eq!(extract_manifest(&page("{}")), None);
    assert_eq!(extract_manifest(&page("[1,2]")), None);
    assert_eq!(extract_manifest(&page("{\"playerCaptionsTracklistRenderer\":null}")), None);
    assert_eq!(extract_manifest(&page("{\"playerCaptionsTracklistRenderer\":[]}")), None);
    assert_eq!(
        extract_manifest(&page("{\"playerCaptionsTracklistRenderer\":{\"captionTracks\":{}}}")),
        None
    );
    assert_eq!(
        extract_manifest(&page(
            "{\"playerCaptionsTracklistRenderer\":{\"captionTracks\":[{\"baseUrl\":1,\"languageCode\":\"en\",\"isTranslatable\":true}]}}"
        )),
        None
    );
    assert_eq!(
        extract_manifest(&page(
            "{\"playerCaptionsTracklistRenderer\":{\"translationLanguages\":[{\"languageName\":\"French\"}]}}"
        )),
        None
    );
}

#[test]
fn a_manifest_with_an_empty_track_array_is_no_error() {
    assert_eq!(
        extract_manifest(&page("{\"playerCaptionsTracklistRenderer\":{\"captionTracks\":[]}}")),
        Some(CaptionsList { caption_tracks: Some(vec![]), translation_languages: None })
    );
}

#[test]
fn a_manifest_without_tracks_is_no_error() {
    let none = CaptionsList { caption_tracks: None, translation_languages: None };
    assert_eq!(extract_manifest(&page("{\"playerCaptionsTracklistRenderer\":{}}")), Some(none));
    assert_eq!(
        extract_manifest(&page(
            "{\"playerCaptionsTracklistRenderer\":{\"captionTracks\":null,\"translationLanguages\":null}}"
        )),
        Some(CaptionsList { caption_tracks: None, translation_languages: None })
    );
}

#[test]
fn the_manifest_is_what_stands_between_the_leftmost_markers() {
    let html = s("a\"captions\":{\"k\":1},\"videoDetails\":2,\"captions\":3,\"videoDetails\":4");
    assert_eq!(locate_manifest(&html), Some(s("{\"k\":1}")));
}

#[test]
fn a_track_is_automatic_exactly_for_the_kind_asr() {
    let of = |kind: &str| {
        let text = format!(
            "{{\"baseUrl\":\"u\",\"languageCode\":\"en\",\"isTranslatable\":false{}}}",
            kind
        );
        decode_track(&parse_json(&text).unwrap()).map(|t| t.kind)
    };
    assert_eq!(of(",\"kind\":\"asr\""), Some(TrackKind::Asr));
    assert_eq!(of(",\"kind\":\"ASR\""), Some(TrackKind::Manual));
    assert_eq!(of(",\"kind\":\"\""), Some(TrackKind::Manual));
    assert_eq!(of(",\"kind\":null"), Some(TrackKind::Manual));
    assert_eq!(of(""), Some(TrackKind::Manual));
    assert_eq!(of(",\"kind\":7"), None);
}

#[test]
fn a_track_needs_its_three_members() {
    let full = Json::Object(vec![
        (s("baseUrl"), Json::String(s("u"))),
        (s("languageCode"), Json::String(s("en"))),
        (s("isTranslatable"), Json::Bool(true)),
    ]);
    assert_eq!(decode_track(&full), Some(track("u", "en", true, TrackKind::Manual)));
    let without_url = Json::Object(vec![
        (s("languageCode"), Json::String(s("en"))),
        (s("isTranslatable"), Json::Bool(true)),
    ]);
    assert_eq!(decode_track(&without_url), None);
    let without_code =
        Json::Object(vec![(s("baseUrl"), Json::String(s("u"))), (s("isTranslatable"), Json::Bool(true))]);
    assert_eq!(decode_track(&without_code), None);
    let without_flag =
        Json::Object(vec![(s("baseUrl"), Json::String(s("u"))), (s("languageCode"), Json::String(s("en")))]);
    assert_eq!(decode_track(&without_flag), None);
    assert_eq!(decode_track(&Json::Array(vec![])), None);
    assert_eq!(decode_track(&Json::Null), None);
}

#[test]
fn tracks_come_out_in_the_order_of_the_array() {
    let item = |code: &str| {
        Json::Object(vec![
            (s("baseUrl"), Json::String(format!("u-{}", code))),
            (s("languageCode"), Json::String(s(code))),
            (s("isTranslatable"), Json::Bool(false)),
        ])
    };
    let array = Json::Array(vec![item("b"), item("a"), item("c")]);
    let codes: Vec<String> =
        decode_tracks(&array).unwrap().into_iter().map(|t| t.language_code).collect();
    assert_eq!(codes, vec![s("b"), s("a"), s("c")]);
    assert_eq!(decode_tracks(&Json::Array(vec![item("a"), Json::Null])), None);
    assert_eq!(decode_tracks(&Json::Object(vec![])), None);
}

#[test]
fn the_renderer_must_be_an_object() {
    assert_eq!(decode_captions_list(&Json::Null), None);
    assert_eq!(decode_captions_list(&Json::String(s("x"))), None);
    assert_eq!(
        decode_captions_list(&Json::Object(vec![])),
        Some(CaptionsList { caption_tracks: None, translation_languages: None })
    );
    assert_eq!(decode_manifest(&Json::Object(vec![])), None);
}

#[test]
fn parse_json_builds_the_value_that_the_text_denotes() {
    let json = parse_json(" {\"a\": [1, true, null, \"x\\u00e9\", {\"b\": -2.5}], \"c\": false} ").unwrap();
    let expected = Json::Object(vec![
        (
            s("a"),
            Json::Array(vec![
                Json::Number(s("1")),
                Json::Bool(true),
                Json::Null,
                Json::String(s("x\u{e9}")),
                Json::Object(vec![(s("b"), Json::Number(s("-2.5")))]),
            ]),
        ),
        (s("c"), Json::Bool(false)),
    ]);
    assert_eq!(json, expected);
}

#[test]
fn parse_json_refuses_what_is_no_json_value() {
    assert_eq!(parse_json(""), None);
    assert_eq!(parse_json("{"), None);
    assert_eq!(parse_json("1 2"), None);
    assert_eq!(parse_json("{\"a\":}"), None);
    assert_eq!(parse_json("'a'"), None);
}

#[test]
fn member_finds_the_value_under_a_key() {
    let object = Json::Object(vec![(s("a"), Json::Bool(true)), (s("b"), Json::Null)]);
    assert_eq!(member(&object, "a"), Some(&Json::Bool(true)));
    assert_eq!(member(&object, "b"), Some(&Json::Null));
    assert_eq!(member(&object, "c"), None);
    assert_eq!(member(&Json::Array(vec![]), "a"), None);
}
