//! Document loaders: what each is made from, the documents it builds from
//! what was read, and the errors it reports.

use crate::captions::{extract_manifest, extracted_spec, CaptionsList};
use crate::html::{decode_html_entities, html_decoded};
use crate::schema::{pair_views, Document, DocumentView, EmptyMetadata, Metadata};
use crate::text::{contains, join, join_spec, occurs, views};
use crate::transcript::{
    body_spec, parse_transcript, select_transcript, selected_spec, transcript_body,
    transcript_spec, TrackPolicy, Transcript, TranscriptError, TranscriptView,
};
use std::path::PathBuf;
use vstd::prelude::*;

verus! {

/// `std::path::PathBuf`, carried as it is.
#[verifier::external_type_specification]
#[verifier::external_body]
pub struct ExPathBuf(std::path::PathBuf);

/// Why a loader could not produce its documents.
#[derive(Debug, PartialEq, Eq)]
pub enum LoaderError {
    /// The underlying read failed; the text is the system's message.
    IoError(String),
    FileReadError(String),
    SourceReadError(String),
}

/// Why the captions of a video could not be loaded.
#[derive(Debug, Clone, Copy, PartialEq, Eq, Structural)]
pub enum YoutubeCaptionsLoaderError {
    /// The watch page or the transcript could not be fetched.
    FetchHtmlError,
    /// The platform answered with its consent form in place of the page.
    ConsentRequired,
    /// The page holds no caption manifest between the two markers: its
    /// format has changed.
    ExtractCaptionsJsonError,
    /// The manifest lists no caption track: the video has no captions.
    NoTracksAvailable,
    /// The transcript is not well-formed XML.
    TranscriptParseError,
    /// The transcript holds no caption.
    EmptyTranscriptError,
}

/// The text that marks the platform's consent form.
pub open spec fn consent_marker() -> Seq<char> {
    "action=\"https://consent.youtube.com/s\""@
}

/// The address of the watch page of a video.
pub open spec fn watch_url(video_id: Seq<char>) -> Seq<char> {
    "https://www.youtube.com/watch?v="@ + video_id
}

/// The text of a boolean.
pub open spec fn bool_text(b: bool) -> Seq<char> {
    if b {
        "true"@
    } else {
        "false"@
    }
}

/// The metadata that every document of a transcript carries.
pub open spec fn transcript_metadata(t: TranscriptView) -> Seq<(Seq<char>, Seq<char>)> {
    seq![
        ("video_id"@, t.video_id),
        ("language_code"@, t.language_code),
        ("translation_langs"@, join_spec(t.translation_langs, ","@)),
        ("is_generated"@, bool_text(t.is_generated)),
    ]
}

/// The loader's error for a failed reading of a transcript.
pub open spec fn transcript_error(e: TranscriptError) -> YoutubeCaptionsLoaderError {
    match e {
        TranscriptError::TranscriptParseError => YoutubeCaptionsLoaderError::TranscriptParseError,
        TranscriptError::EmptyTranscriptError => YoutubeCaptionsLoaderError::EmptyTranscriptError,
    }
}

/// Loads the captions of one video as a document.
#[derive(Debug)]
pub struct YoutubeCaptionsLoader {
    video_id: String,
}

impl View for YoutubeCaptionsLoader {
    type V = Seq<char>;

    /// The identifier of the video.
    closed spec fn view(&self) -> Seq<char> {
        self.video_id@
    }
}

impl YoutubeCaptionsLoader {
    /// A loader for the video `video_id`.
    pub fn new(video_id: String) -> (r: Self)
        ensures
            r@ == video_id@,
    {
        Self { video_id }
    }

    /// The identifier of the video.
    pub fn video_id(&self) -> (r: &String)
        ensures
            r@ == self@,
    {
        &self.video_id
    }

    /// The address of the watch page of the video `video_id`.
    pub fn create_url(&self, video_id: &str) -> (r: String)
        ensures
            r@ == watch_url(video_id@),
    {
        let mut url = "https://www.youtube.com/watch?v=".to_owned();
        url.append(video_id);
        url
    }

    /// The address of the watch page of the loader's video.
    pub fn page_url(&self) -> (r: String)
        ensures
            r@ == watch_url(self@),
    {
        self.create_url(self.video_id.as_str())
    }

    /// The markup of a watch page, from the body that was fetched: the body
    /// with its HTML character references decoded.
    pub fn decode_page(body: &str) -> (r: String)
        ensures
            r@ == html_decoded(body@),
            !body@.contains('&') ==> r@ == body@,
    {
        decode_html_entities(body)
    }

    /// Whether the markup is the platform's consent form.
    pub fn consent_required(html: &str) -> (r: bool)
        ensures
            r == occurs(html@, consent_marker()),
    {
        contains(html, "action=\"https://consent.youtube.com/s\"")
    }

    /// The caption manifest that the markup of a watch page embeds.
    pub fn extract_captions_json(&self, html: String) -> (r: Result<
        CaptionsList,
        YoutubeCaptionsLoaderError,
    >)
        ensures
            match r {
                Ok(list) => extracted_spec(html@) == Some(list@),
                Err(e) => e == YoutubeCaptionsLoaderError::ExtractCaptionsJsonError
                    && extracted_spec(html@) is None,
            },
    {
        match extract_manifest(html.as_str()) {
            Some(list) => Ok(list),
            None => Err(YoutubeCaptionsLoaderError::ExtractCaptionsJsonError),
        }
    }

    /// The transcript to fetch: the track of the manifest that `policy`
    /// chooses.
    pub fn select(&self, list: &CaptionsList, policy: TrackPolicy) -> (r: Result<
        Transcript,
        YoutubeCaptionsLoaderError,
    >)
        ensures
            match r {
                Ok(t) => selected_spec(list@, self@, policy) == Some(t@),
                Err(e) => e == YoutubeCaptionsLoaderError::NoTracksAvailable && selected_spec(
                    list@,
                    self@,
                    policy,
                ) is None,
            },
    {
        match select_transcript(list, self.video_id.as_str(), policy) {
            Some(t) => Ok(t),
            None => Err(YoutubeCaptionsLoaderError::NoTracksAvailable),
        }
    }

    /// The captions of a transcript, from the timed-text document that was
    /// fetched.
    pub fn read_transcript(xml: &str) -> (r: Result<Vec<String>, YoutubeCaptionsLoaderError>)
        ensures
            match r {
                Ok(captions) => transcript_spec(xml@) == Ok::<Seq<Seq<char>>, TranscriptError>(
                    views(captions@),
                ),
                Err(e) => transcript_spec(xml@) is Err && e == transcript_error(
                    transcript_spec(xml@)->Err_0,
                ),
            },
    {
        match parse_transcript(xml) {
            Ok(captions) => Ok(captions),
            Err(TranscriptError::TranscriptParseError) => Err(
                YoutubeCaptionsLoaderError::TranscriptParseError,
            ),
            Err(TranscriptError::EmptyTranscriptError) => Err(
                YoutubeCaptionsLoaderError::EmptyTranscriptError,
            ),
        }
    }

    /// The metadata that every document of a transcript carries.
    pub fn metadata_of(transcript: &Transcript) -> (r: Metadata)
        ensures
            pair_views(r@) == transcript_metadata(transcript@),
    {
        let mut out: Vec<(String, String)> = Vec::new();
        out.push(("video_id".to_owned(), transcript.video_id.clone()));
        out.push(("language_code".to_owned(), transcript.language_code.clone()));
        out.push(("translation_langs".to_owned(), join(&transcript.translation_langs, ",")));
        let generated = if transcript.is_generated {
            "true".to_owned()
        } else {
            "false".to_owned()
        };
        out.push(("is_generated".to_owned(), generated));
        assert(pair_views(out@) =~= transcript_metadata(transcript@));
        out
    }

    /// The document of a transcript: its captions joined with single spaces,
    /// with the transcript's metadata.
    pub fn document(transcript: &Transcript, captions: &Vec<String>) -> (r: Document<Metadata>)
        ensures
            r@ == (DocumentView {
                page_content: body_spec(views(captions@)),
                metadata: Some(transcript_metadata(transcript@)),
            }),
    {
        Document {
            page_content: transcript_body(captions),
            metadata: Some(Self::metadata_of(transcript)),
        }
    }

    /// The error of a load whose watch page could not be fetched.
    pub fn fetch_failure(&self) -> (r: LoaderError)
        ensures
            r matches LoaderError::SourceReadError(m) && m@ == "Failed to fetch HTML for "@
                + self@,
    {
        let mut message = "Failed to fetch HTML for ".to_owned();
        message.append(self.video_id.as_str());
        LoaderError::SourceReadError(message)
    }
}

/// Loads a plain-text file as one document.
#[derive(Debug, PartialEq, Eq)]
pub struct TextFileLoader {
    pub path: String,
}

impl TextFileLoader {
    /// A loader for the file at `path`.
    pub fn new(path: String) -> (r: Self)
        ensures
            r.path == path,
    {
        Self { path }
    }

    /// The document of the file, from the text that was read: the text, with
    /// the file's path as its `source_file`.
    pub fn document(&self, content: String) -> (r: Document<Metadata>)
        ensures
            r@ == (DocumentView {
                page_content: content@,
                metadata: Some(seq![("source_file"@, self.path@)]),
            }),
    {
        let mut metadata: Vec<(String, String)> = Vec::new();
        metadata.push(("source_file".to_owned(), self.path.clone()));
        assert(pair_views(metadata@) =~= seq![("source_file"@, self.path@)]);
        Document { page_content: content, metadata: Some(metadata) }
    }
}

/// Loads the text of a PDF file as one document.
#[derive(Debug, PartialEq, Eq)]
pub struct PdfFileLoader {
    pub path: PathBuf,
}

impl PdfFileLoader {
    /// A loader for the file at `path`.
    pub fn new(path: PathBuf) -> (r: Self)
        ensures
            r.path == path,
    {
        Self { path }
    }

    /// The document of the file, from the text that was extracted: the text,
    /// without metadata.
    pub fn document(&self, content: String) -> (r: Document<EmptyMetadata>)
        ensures
            r.page_content == content,
            r.metadata is None,
    {
        Document::new(content)
    }
}

} // verus!
