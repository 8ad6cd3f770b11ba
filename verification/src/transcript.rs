//! Transcripts: the fetchable tracks of a video and the captions that a
//! timed-text document holds.

use crate::captions::{CaptionTrack, CaptionTrackView, CaptionsList, CaptionsListView, TrackKind};
use crate::html::{decode_html_entities, html_decoded};
use crate::loader::LoaderError;
use crate::text::{join, join_spec, text_eq, views};
use vstd::prelude::*;

verus! {

/// One resolved, fetchable caption track of a video.
#[derive(Debug, PartialEq, Eq)]
pub struct Transcript {
    pub video_id: String,
    pub url: String,
    pub language_code: String,
    pub is_generated: bool,
    pub translation_langs: Vec<String>,
}

/// The mathematical content of a `Transcript`.
pub ghost struct TranscriptView {
    pub video_id: Seq<char>,
    pub url: Seq<char>,
    pub language_code: Seq<char>,
    pub is_generated: bool,
    pub translation_langs: Seq<Seq<char>>,
}

impl View for Transcript {
    type V = TranscriptView;

    open spec fn view(&self) -> TranscriptView {
        TranscriptView {
            video_id: self.video_id@,
            url: self.url@,
            language_code: self.language_code@,
            is_generated: self.is_generated,
            translation_langs: views(self.translation_langs@),
        }
    }
}

/// The views of a list of transcripts.
pub open spec fn transcript_views(transcripts: Seq<Transcript>) -> Seq<TranscriptView> {
    Seq::new(transcripts.len(), |i: int| transcripts[i]@)
}

/// The transcript that a caption track of the video `video_id` resolves to.
/// It is generated exactly where the track came from speech recognition.
pub open spec fn transcript_of(track: CaptionTrackView, video_id: Seq<char>) -> TranscriptView {
    TranscriptView {
        video_id,
        url: track.base_url,
        language_code: track.language_code,
        is_generated: track.kind == TrackKind::Asr,
        translation_langs: Seq::empty(),
    }
}

/// The transcripts of a manifest: one for each track, in the manifest's
/// order; none where the manifest lists no tracks.
pub open spec fn transcripts_spec(list: CaptionsListView, video_id: Seq<char>) -> Seq<
    TranscriptView,
> {
    match list.caption_tracks {
        Some(tracks) => Seq::new(tracks.len(), |i: int| transcript_of(tracks[i], video_id)),
        None => Seq::empty(),
    }
}

/// How one track is chosen among those of a manifest.
#[derive(Debug, Clone, Copy, PartialEq, Eq, Structural)]
pub enum TrackPolicy {
    /// The first track that the manifest lists.
    First,
}

/// The index of the track that `policy` chooses among `count` tracks.
pub open spec fn chosen_index(policy: TrackPolicy, count: nat) -> Option<int> {
    match policy {
        TrackPolicy::First => if count > 0 {
            Some(0)
        } else {
            None
        },
    }
}

/// The transcript that `policy` selects from a manifest; `None` where the
/// manifest offers no track.
pub open spec fn selected_spec(
    list: CaptionsListView,
    video_id: Seq<char>,
    policy: TrackPolicy,
) -> Option<TranscriptView> {
    let all = transcripts_spec(list, video_id);
    match chosen_index(policy, all.len()) {
        Some(i) => Some(all[i]),
        None => None,
    }
}

impl Transcript {
    /// The transcripts of a manifest, one for each of its tracks.
    pub fn from_captions_list(captions_list: CaptionsList, video_id: String) -> (r: Result<
        Vec<Transcript>,
        LoaderError,
    >)
        ensures
            r matches Ok(transcripts) && transcript_views(transcripts@) == transcripts_spec(
                captions_list@,
                video_id@,
            ),
    {
        let mut out: Vec<Transcript> = Vec::new();
        match &captions_list.caption_tracks {
            Some(tracks) => {
                let mut i: usize = 0;
                while i < tracks.len()
                    invariant
                        i <= tracks.len(),
                        out.len() == i,
                        forall|k: int|
                            0 <= k < i ==> (#[trigger] out@[k])@ == transcript_of(
                                tracks@[k]@,
                                video_id@,
                            ),
                    decreases tracks.len() - i,
                {
                    out.push(Transcript::of_track(&tracks[i], video_id.as_str()));
                    i += 1;
                }
                assert(transcript_views(out@) =~= transcripts_spec(captions_list@, video_id@));
            },
            None => {
                assert(transcript_views(out@) =~= transcripts_spec(captions_list@, video_id@));
            },
        }
        Ok(out)
    }

    /// The transcript that one caption track of the video resolves to.
    pub fn of_track(track: &CaptionTrack, video_id: &str) -> (r: Transcript)
        ensures
            r@ == transcript_of(track@, video_id@),
    {
        let r = Transcript {
            video_id: video_id.to_owned(),
            url: track.base_url.clone(),
            language_code: track.language_code.clone(),
            is_generated: track.kind == TrackKind::Asr,
            translation_langs: Vec::new(),
        };
        assert(views(r.translation_langs@) =~= Seq::empty());
        r
    }
}

/// The index that `policy` chooses among `count` tracks.
pub fn choose_track(policy: TrackPolicy, count: usize) -> (r: Option<usize>)
    ensures
        match r {
            Some(i) => i < count && chosen_index(policy, count as nat) == Some(i as int),
            None => chosen_index(policy, count as nat) is None,
        },
{
    match policy {
        TrackPolicy::First => if count > 0 {
            Some(0)
        } else {
            None
        },
    }
}

/// Selects one transcript among the tracks of a manifest; `None` where the
/// manifest offers none.
pub fn select_transcript(list: &CaptionsList, video_id: &str, policy: TrackPolicy) -> (r: Option<
    Transcript,
>)
    ensures
        match r {
            Some(t) => selected_spec(list@, video_id@, policy) == Some(t@),
            None => selected_spec(list@, video_id@, policy) is None,
        },
{
    match &list.caption_tracks {
        Some(tracks) => match choose_track(policy, tracks.len()) {
            Some(i) => Some(Transcript::of_track(&tracks[i], video_id)),
            None => None,
        },
        None => None,
    }
}

/// A node of an XML document, as the transcript reader sees it.
#[derive(Debug, PartialEq, Eq)]
pub struct XmlNode {
    /// The namespace of an element's name.
    pub namespace: Option<String>,
    /// The local name of an element; empty for any other node.
    pub name: String,
    /// For an element, the text of its first child where that is a text
    /// node; for a text or a comment node, its own text.
    pub text: Option<String>,
}

/// The mathematical content of an `XmlNode`.
pub ghost struct XmlNodeView {
    pub namespace: Option<Seq<char>>,
    pub name: Seq<char>,
    pub text: Option<Seq<char>>,
}

/// The view of an optional string.
pub open spec fn optional_view(s: Option<String>) -> Option<Seq<char>> {
    match s {
        Some(t) => Some(t@),
        None => None,
    }
}

impl View for XmlNode {
    type V = XmlNodeView;

    open spec fn view(&self) -> XmlNodeView {
        XmlNodeView {
            namespace: optional_view(self.namespace),
            name: self.name@,
            text: optional_view(self.text),
        }
    }
}

/// The views of a list of nodes.
pub open spec fn node_views(nodes: Seq<XmlNode>) -> Seq<XmlNodeView> {
    Seq::new(nodes.len(), |i: int| nodes[i]@)
}

/// `roxmltree::Error`: why a text is no well-formed document.
#[verifier::external_type_specification]
#[verifier::external_body]
pub struct ExXmlError(roxmltree::Error);

/// The nodes of the XML document that a text denotes, the root node first
/// and then in document order; `None` for a text that is no well-formed
/// document.
pub uninterp spec fn xml_nodes(text: Seq<char>) -> Option<Seq<XmlNodeView>>;

/// `roxmltree::Document::parse`, then `descendants` with each node handed out
/// as its `tag_name` and its `text`: succeeds exactly on the well-formed
/// documents, and then returns the document's nodes in document order.
#[verifier::external_body]
fn parse_xml(text: &str) -> (r: Result<Vec<XmlNode>, roxmltree::Error>)
    ensures
        match r {
            Ok(nodes) => xml_nodes(text@) == Some(node_views(nodes@)),
            Err(_) => xml_nodes(text@) is None,
        },
{
    let doc = roxmltree::Document::parse(text)?;
    Ok(
        doc.descendants().map(
            |n| XmlNode {
                namespace: n.tag_name().namespace().map(|s| s.to_string()),
                name: n.tag_name().name().to_string(),
                text: n.text().map(|s| s.to_string()),
            },
        ).collect(),
    )
}

/// Why a timed-text document gave no transcript.
#[derive(Debug, Clone, Copy, PartialEq, Eq, Structural)]
pub enum TranscriptError {
    /// The document is not well-formed XML, or one of its captions has no
    /// text.
    TranscriptParseError,
    /// The document holds no caption.
    EmptyTranscriptError,
}

/// Whether a node is a caption: an element named `text`, in no namespace.
pub open spec fn is_caption(node: XmlNodeView) -> bool {
    node.namespace is None && node.name == "text"@
}

/// The texts of the captions among `nodes`, in order.
pub open spec fn caption_texts(nodes: Seq<XmlNodeView>) -> Seq<Option<Seq<char>>> {
    nodes.filter(|n: XmlNodeView| is_caption(n)).map_values(|n: XmlNodeView| n.text)
}

/// The captions of a document: the text of each caption with its HTML
/// character references decoded, in document order. A caption without text
/// is an error, and so is a document without captions.
pub open spec fn captions_spec(nodes: Seq<XmlNodeView>) -> Result<Seq<Seq<char>>, TranscriptError> {
    let texts = caption_texts(nodes);
    if exists|i: int| 0 <= i < texts.len() && texts[i] is None {
        Err(TranscriptError::TranscriptParseError)
    } else if texts.len() == 0 {
        Err(TranscriptError::EmptyTranscriptError)
    } else {
        Ok(texts.map_values(|t: Option<Seq<char>>| html_decoded(t.unwrap())))
    }
}

/// The captions of a timed-text document.
pub open spec fn transcript_spec(xml: Seq<char>) -> Result<Seq<Seq<char>>, TranscriptError> {
    match xml_nodes(xml) {
        Some(nodes) => captions_spec(nodes),
        None => Err(TranscriptError::TranscriptParseError),
    }
}

/// The body of a transcript: its captions joined with single spaces.
pub open spec fn body_spec(captions: Seq<Seq<char>>) -> Seq<char> {
    join_spec(captions, " "@)
}

/// Whether `node` is a caption.
pub fn node_is_caption(node: &XmlNode) -> (r: bool)
    ensures
        r == is_caption(node@),
{
    node.namespace.is_none() && text_eq(node.name.as_str(), "text")
}

/// The captions among the nodes of a document, in document order.
pub fn captions_of(nodes: &Vec<XmlNode>) -> (r: Result<Vec<String>, TranscriptError>)
    ensures
        match r {
            Ok(captions) => captions_spec(node_views(nodes@)) == Ok::<
                Seq<Seq<char>>,
                TranscriptError,
            >(views(captions@)),
            Err(e) => captions_spec(node_views(nodes@)) == Err::<Seq<Seq<char>>, TranscriptError>(
                e,
            ),
        },
{
    let ghost all = node_views(nodes@);
    let ghost decode = |t: Option<Seq<char>>| html_decoded(t.unwrap());
    let mut out: Vec<String> = Vec::new();
    let mut missing = false;
    let mut i: usize = 0;
    proof {
        reveal(Seq::filter);
        assert(all.take(0) =~= Seq::empty());
        assert(caption_texts(all.take(0)) =~= Seq::empty());
    }
    while i < nodes.len()
        invariant
            i <= nodes.len(),
            all == node_views(nodes@),
            decode == |t: Option<Seq<char>>| html_decoded(t.unwrap()),
            missing <==> exists|k: int|
                0 <= k < caption_texts(all.take(i as int)).len() && caption_texts(
                    all.take(i as int),
                )[k] is None,
            !missing ==> views(out@) == caption_texts(all.take(i as int)).map_values(decode),
        decreases nodes.len() - i,
    {
        let ghost before = caption_texts(all.take(i as int));
        let ghost after = caption_texts(all.take(i + 1));
        proof {
            reveal(Seq::filter);
            assert(all.take(i + 1).drop_last() =~= all.take(i as int));
            assert(all.take(i + 1).last() == nodes@[i as int]@);
            if is_caption(nodes@[i as int]@) {
                assert(after =~= before.push(nodes@[i as int]@.text));
            } else {
                assert(after =~= before);
            }
        }
        if node_is_caption(&nodes[i]) {
            match &nodes[i].text {
                Some(t) => {
                    let line = decode_html_entities(t.as_str());
                    let ghost old_out = views(out@);
                    out.push(line);
                    proof {
                        assert(views(out@) =~= old_out.push(html_decoded(t@)));
                        if !missing {
                            assert(after.map_values(decode) =~= before.map_values(decode).push(
                                html_decoded(t@),
                            ));
                        } else {
                            let k = choose|k: int| 0 <= k < before.len() && before[k] is None;
                            assert(after[k] is None);
                        }
                    }
                },
                None => {
                    proof {
                        assert(after[before.len() as int] is None);
                    }
                    missing = true;
                },
            }
        } else {
            proof {
                if missing {
                    let k = choose|k: int| 0 <= k < before.len() && before[k] is None;
                    assert(after[k] is None);
                }
            }
        }
        i += 1;
    }
    assert(all.take(nodes.len() as int) =~= all);
    if missing {
        Err(TranscriptError::TranscriptParseError)
    } else if out.len() == 0 {
        Err(TranscriptError::EmptyTranscriptError)
    } else {
        Ok(out)
    }
}

/// The captions of a timed-text document, in document order.
pub fn parse_transcript(xml: &str) -> (r: Result<Vec<String>, TranscriptError>)
    ensures
        match r {
            Ok(captions) => transcript_spec(xml@) == Ok::<Seq<Seq<char>>, TranscriptError>(
                views(captions@),
            ),
            Err(e) => transcript_spec(xml@) == Err::<Seq<Seq<char>>, TranscriptError>(e),
        },
{
    match parse_xml(xml) {
        Ok(nodes) => captions_of(&nodes),
        Err(_) => Err(TranscriptError::TranscriptParseError),
    }
}

/// The body of a transcript: its captions joined with single spaces.
pub fn transcript_body(captions: &Vec<String>) -> (r: String)
    ensures
        r@ == body_spec(views(captions@)),
{
    join(captions, " ")
}

} // verus!
