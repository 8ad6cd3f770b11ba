//! The caption-track manifest that a watch page embeds, and its extraction.
//!
//! The manifest stands in the page as a JSON object between two literal
//! markers. Its member `playerCaptionsTracklistRenderer` lists the caption
//! tracks of the video.

use crate::json::{member, member_spec, parse_json, parsed_json, Json};
use crate::text::{lemma_first_index_none, occurs, split_once, split_once_spec, text_eq, views};
use vstd::prelude::*;

verus! {

/// Who wrote a caption track.
#[derive(Debug, Clone, Copy, PartialEq, Eq, Structural)]
pub enum TrackKind {
    /// Written by a person.
    Manual,
    /// Produced by automatic speech recognition.
    Asr,
}

/// One caption track of a video.
#[derive(Debug, PartialEq, Eq)]
pub struct CaptionTrack {
    pub base_url: String,
    pub language_code: String,
    pub is_translatable: bool,
    pub kind: TrackKind,
}

/// The mathematical content of a `CaptionTrack`.
pub ghost struct CaptionTrackView {
    pub base_url: Seq<char>,
    pub language_code: Seq<char>,
    pub is_translatable: bool,
    pub kind: TrackKind,
}

impl View for CaptionTrack {
    type V = CaptionTrackView;

    open spec fn view(&self) -> CaptionTrackView {
        CaptionTrackView {
            base_url: self.base_url@,
            language_code: self.language_code@,
            is_translatable: self.is_translatable,
            kind: self.kind,
        }
    }
}

/// The caption manifest of a video. A manifest without tracks is a valid
/// one: the video has no captions.
#[derive(Debug, PartialEq, Eq)]
pub struct CaptionsList {
    pub caption_tracks: Option<Vec<CaptionTrack>>,
    /// The codes of the languages into which tracks can be translated.
    pub translation_languages: Option<Vec<String>>,
}

/// The mathematical content of a `CaptionsList`.
pub ghost struct CaptionsListView {
    pub caption_tracks: Option<Seq<CaptionTrackView>>,
    pub translation_languages: Option<Seq<Seq<char>>>,
}

/// The views of a list of tracks.
pub open spec fn track_views(tracks: Seq<CaptionTrack>) -> Seq<CaptionTrackView> {
    Seq::new(tracks.len(), |i: int| tracks[i]@)
}

impl View for CaptionsList {
    type V = CaptionsListView;

    open spec fn view(&self) -> CaptionsListView {
        CaptionsListView {
            caption_tracks: match self.caption_tracks {
                Some(tracks) => Some(track_views(tracks@)),
                None => None,
            },
            translation_languages: match self.translation_languages {
                Some(codes) => Some(views(codes@)),
                None => None,
            },
        }
    }
}

/// The marker that stands right before the manifest.
pub open spec fn captions_marker() -> Seq<char> {
    "\"captions\":"@
}

/// The marker of the field that follows the manifest.
pub open spec fn video_details_marker() -> Seq<char> {
    ",\"videoDetails"@
}

/// The text between the two markers: what follows the leftmost
/// `"captions":`, up to the leftmost `,"videoDetails` after it.
pub open spec fn manifest_text(html: Seq<char>) -> Option<Seq<char>> {
    match split_once_spec(html, captions_marker()) {
        Some((_, rest)) => match split_once_spec(rest, video_details_marker()) {
            Some((body, _)) => Some(body),
            None => None,
        },
        None => None,
    }
}

/// The kind that a track's `kind` member denotes: automatic exactly for the
/// string `asr`, manual for another string and where there is none.
pub open spec fn kind_spec(json: Option<Json>) -> Option<TrackKind> {
    match json {
        None => Some(TrackKind::Manual),
        Some(Json::Null) => Some(TrackKind::Manual),
        Some(Json::String(s)) => Some(
            if s@ == "asr"@ {
                TrackKind::Asr
            } else {
                TrackKind::Manual
            },
        ),
        Some(_) => None,
    }
}

/// The track that a JSON object denotes: `baseUrl` and `languageCode` are
/// strings, `isTranslatable` is a boolean.
pub open spec fn track_spec(json: Json) -> Option<CaptionTrackView> {
    match (
        member_spec(json, "baseUrl"@),
        member_spec(json, "languageCode"@),
        member_spec(json, "isTranslatable"@),
        kind_spec(member_spec(json, "kind"@)),
    ) {
        (Some(Json::String(url)), Some(Json::String(code)), Some(Json::Bool(t)), Some(kind)) => Some(
            CaptionTrackView {
                base_url: url@,
                language_code: code@,
                is_translatable: t,
                kind,
            },
        ),
        _ => None,
    }
}

/// The language code that a JSON object denotes.
pub open spec fn language_spec(json: Json) -> Option<Seq<char>> {
    match member_spec(json, "languageCode"@) {
        Some(Json::String(code)) => Some(code@),
        _ => None,
    }
}

/// The tracks that a JSON array denotes, where each item denotes one.
pub open spec fn tracks_spec(json: Json) -> Option<Seq<CaptionTrackView>> {
    match json {
        Json::Array(items) => if forall|i: int|
            0 <= i < items.len() ==> track_spec(#[trigger] items[i]) is Some {
            Some(Seq::new(items.len() as nat, |i: int| track_spec(items[i]).unwrap()))
        } else {
            None
        },
        _ => None,
    }
}

/// The language codes that a JSON array denotes, where each item denotes one.
pub open spec fn languages_spec(json: Json) -> Option<Seq<Seq<char>>> {
    match json {
        Json::Array(items) => if forall|i: int|
            0 <= i < items.len() ==> language_spec(#[trigger] items[i]) is Some {
            Some(Seq::new(items.len() as nat, |i: int| language_spec(items[i]).unwrap()))
        } else {
            None
        },
        _ => None,
    }
}

/// Whether an optional member is left out: absent, or `null`.
pub open spec fn is_absent(json: Option<Json>) -> bool {
    json is None || json == Some(Json::Null)
}

/// The manifest that the renderer object denotes. Its two members are
/// optional; one that is present must be an array of the right items.
pub open spec fn captions_list_spec(renderer: Json) -> Option<CaptionsListView> {
    let tracks = member_spec(renderer, "captionTracks"@);
    let languages = member_spec(renderer, "translationLanguages"@);
    if !(renderer is Object) {
        None
    } else if !is_absent(tracks) && tracks_spec(tracks.unwrap()) is None {
        None
    } else if !is_absent(languages) && languages_spec(languages.unwrap()) is None {
        None
    } else {
        Some(
            CaptionsListView {
                caption_tracks: if is_absent(tracks) {
                    None
                } else {
                    tracks_spec(tracks.unwrap())
                },
                translation_languages: if is_absent(languages) {
                    None
                } else {
                    languages_spec(languages.unwrap())
                },
            },
        )
    }
}

/// The manifest that a parsed manifest text denotes: that of its member
/// `playerCaptionsTracklistRenderer`.
pub open spec fn manifest_spec(json: Json) -> Option<CaptionsListView> {
    match member_spec(json, "playerCaptionsTracklistRenderer"@) {
        Some(renderer) => captions_list_spec(renderer),
        None => None,
    }
}

/// The manifest that a watch page embeds; `None` where a marker is missing,
/// the text between the markers is no JSON value, or the value has not the
/// shape of a manifest.
pub open spec fn extracted_spec(html: Seq<char>) -> Option<CaptionsListView> {
    match manifest_text(html) {
        Some(body) => match parsed_json(body) {
            Some(json) => manifest_spec(json),
            None => None,
        },
        None => None,
    }
}

/// A page without the marker `"captions":` embeds no manifest, and neither
/// does a page in which no `,"videoDetails` follows that marker.
pub proof fn lemma_extraction_needs_markers(html: Seq<char>)
    ensures
        !occurs(html, captions_marker()) ==> extracted_spec(html) is None,
        split_once_spec(html, captions_marker()) matches Some((_, rest)) ==> (!occurs(
            rest,
            video_details_marker(),
        ) ==> extracted_spec(html) is None),
{
    if !occurs(html, captions_marker()) {
        lemma_first_index_none(html, captions_marker());
    }
    match split_once_spec(html, captions_marker()) {
        Some((_, rest)) => {
            if !occurs(rest, video_details_marker()) {
                lemma_first_index_none(rest, video_details_marker());
            }
        },
        None => {},
    }
}

/// The caption track that `json` denotes; `None` where it denotes none.
pub fn decode_track(json: &Json) -> (r: Option<CaptionTrack>)
    ensures
        match r {
            Some(track) => track_spec(*json) == Some(track@),
            None => track_spec(*json) is None,
        },
{
    let base_url = match member(json, "baseUrl") {
        Some(Json::String(s)) => s.clone(),
        _ => {
            return None;
        },
    };
    let language_code = match member(json, "languageCode") {
        Some(Json::String(s)) => s.clone(),
        _ => {
            return None;
        },
    };
    let is_translatable = match member(json, "isTranslatable") {
        Some(Json::Bool(b)) => *b,
        _ => {
            return None;
        },
    };
    let kind = match member(json, "kind") {
        None => TrackKind::Manual,
        Some(Json::Null) => TrackKind::Manual,
        Some(Json::String(s)) => if text_eq(s.as_str(), "asr") {
            TrackKind::Asr
        } else {
            TrackKind::Manual
        },
        Some(_) => {
            return None;
        },
    };
    Some(CaptionTrack { base_url, language_code, is_translatable, kind })
}

/// The caption tracks that the array `json` denotes; `None` where `json` is
/// no array or an item denotes no track.
pub fn decode_tracks(json: &Json) -> (r: Option<Vec<CaptionTrack>>)
    ensures
        match r {
            Some(tracks) => tracks_spec(*json) == Some(track_views(tracks@)),
            None => tracks_spec(*json) is None,
        },
{
    match json {
        Json::Array(items) => {
            let mut out: Vec<CaptionTrack> = Vec::new();
            let mut i: usize = 0;
            while i < items.len()
                invariant
                    i <= items.len(),
                    out.len() == i,
                    *json == Json::Array(*items),
                    forall|k: int| 0 <= k < i ==> track_spec(#[trigger] items@[k]) == Some(out@[k]@),
                decreases items.len() - i,
            {
                match decode_track(&items[i]) {
                    Some(track) => {
                        out.push(track);
                    },
                    None => {
                        assert(track_spec(items@[i as int]) is None);
                        return None;
                    },
                }
                i += 1;
            }
            assert(track_views(out@) =~= Seq::new(
                items.len() as nat,
                |i: int| track_spec(items[i]).unwrap(),
            ));
            Some(out)
        },
        _ => None,
    }
}

/// The language codes that the array `json` denotes; `None` where `json` is
/// no array or an item denotes no code.
pub fn decode_languages(json: &Json) -> (r: Option<Vec<String>>)
    ensures
        match r {
            Some(codes) => languages_spec(*json) == Some(views(codes@)),
            None => languages_spec(*json) is None,
        },
{
    match json {
        Json::Array(items) => {
            let mut out: Vec<String> = Vec::new();
            let mut i: usize = 0;
            while i < items.len()
                invariant
                    i <= items.len(),
                    out.len() == i,
                    *json == Json::Array(*items),
                    forall|k: int|
                        0 <= k < i ==> language_spec(#[trigger] items@[k]) == Some(out@[k]@),
                decreases items.len() - i,
            {
                match member(&items[i], "languageCode") {
                    Some(Json::String(code)) => {
                        out.push(code.clone());
                    },
                    _ => {
                        assert(language_spec(items@[i as int]) is None);
                        return None;
                    },
                }
                i += 1;
            }
            assert(views(out@) =~= Seq::new(
                items.len() as nat,
                |i: int| language_spec(items[i]).unwrap(),
            ));
            Some(out)
        },
        _ => None,
    }
}

/// The manifest that the renderer object `json` denotes; `None` where it has
/// not the shape of one.
pub fn decode_captions_list(json: &Json) -> (r: Option<CaptionsList>)
    ensures
        match r {
            Some(list) => captions_list_spec(*json) == Some(list@),
            None => captions_list_spec(*json) is None,
        },
{
    match json {
        Json::Object(_) => {},
        _ => {
            return None;
        },
    }
    let caption_tracks = match member(json, "captionTracks") {
        None => None,
        Some(Json::Null) => None,
        Some(value) => match decode_tracks(value) {
            Some(tracks) => Some(tracks),
            None => {
                return None;
            },
        },
    };
    let translation_languages = match member(json, "translationLanguages") {
        None => None,
        Some(Json::Null) => None,
        Some(value) => match decode_languages(value) {
            Some(codes) => Some(codes),
            None => {
                return None;
            },
        },
    };
    Some(CaptionsList { caption_tracks, translation_languages })
}

/// The manifest that a parsed manifest text denotes.
pub fn decode_manifest(json: &Json) -> (r: Option<CaptionsList>)
    ensures
        match r {
            Some(list) => manifest_spec(*json) == Some(list@),
            None => manifest_spec(*json) is None,
        },
{
    match member(json, "playerCaptionsTracklistRenderer") {
        Some(renderer) => decode_captions_list(renderer),
        None => None,
    }
}

/// The text of the manifest in a watch page: what stands between the two
/// markers. `None` where a marker is missing.
pub fn locate_manifest(html: &str) -> (r: Option<String>)
    ensures
        match r {
            Some(body) => manifest_text(html@) == Some(body@),
            None => manifest_text(html@) is None,
        },
{
    match split_once(html, "\"captions\":") {
        Some((_, rest)) => match split_once(rest.as_str(), ",\"videoDetails") {
            Some((body, _)) => Some(body),
            None => None,
        },
        None => None,
    }
}

/// The caption manifest that a watch page embeds. `None` where a marker is
/// missing or what stands between the markers is no manifest.
pub fn extract_manifest(html: &str) -> (r: Option<CaptionsList>)
    ensures
        match r {
            Some(list) => extracted_spec(html@) == Some(list@),
            None => extracted_spec(html@) is None,
        },
{
    match locate_manifest(html) {
        Some(body) => match parse_json(body.as_str()) {
            Some(json) => decode_manifest(&json),
            None => None,
        },
        None => None,
    }
}

} // verus!
