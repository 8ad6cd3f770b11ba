//! Documents: a text with what is known about it.

use crate::text::text_eq;
use vstd::prelude::*;

verus! {

/// The metadata of a document that carries none.
#[derive(Debug, Clone, Copy, PartialEq, Eq, Structural)]
pub struct EmptyMetadata;

/// Metadata as an ordered list of keys with their values.
pub type Metadata = Vec<(String, String)>;

/// A text with optional metadata of type `M`.
#[derive(Debug, PartialEq, Eq)]
pub struct Document<M> {
    pub page_content: String,
    pub metadata: Option<M>,
}

/// The mathematical content of a list of pairs of strings.
pub open spec fn pair_views(pairs: Seq<(String, String)>) -> Seq<(Seq<char>, Seq<char>)> {
    Seq::new(pairs.len(), |i: int| (pairs[i].0@, pairs[i].1@))
}

/// The mathematical content of a document with keyed metadata.
pub ghost struct DocumentView {
    pub page_content: Seq<char>,
    pub metadata: Option<Seq<(Seq<char>, Seq<char>)>>,
}

impl View for Document<Metadata> {
    type V = DocumentView;

    open spec fn view(&self) -> DocumentView {
        DocumentView {
            page_content: self.page_content@,
            metadata: match self.metadata {
                Some(pairs) => Some(pair_views(pairs@)),
                None => None,
            },
        }
    }
}

/// The views of a list of documents.
pub open spec fn document_views(docs: Seq<Document<Metadata>>) -> Seq<DocumentView> {
    Seq::new(docs.len(), |i: int| docs[i]@)
}

/// The index of the first pair under `key`.
pub open spec fn key_index(pairs: Seq<(Seq<char>, Seq<char>)>, key: Seq<char>) -> Option<int> {
    if exists|i: int| is_first_key(pairs, key, i) {
        Some(choose|i: int| is_first_key(pairs, key, i))
    } else {
        None
    }
}

/// `i` is the index of the first pair under `key`.
pub open spec fn is_first_key(pairs: Seq<(Seq<char>, Seq<char>)>, key: Seq<char>, i: int) -> bool {
    &&& 0 <= i < pairs.len()
    &&& pairs[i].0 == key
    &&& forall|j: int| 0 <= j < i ==> (#[trigger] pairs[j]).0 != key
}

/// No key stands in the metadata twice.
pub open spec fn keys_distinct(pairs: Seq<(Seq<char>, Seq<char>)>) -> bool {
    forall|i: int, j: int|
        0 <= i < j < pairs.len() ==> (#[trigger] pairs[i]).0 != (#[trigger] pairs[j]).0
}

/// The metadata with `value` under `key`: in the place of the first pair
/// under that key, or at the end where there is none.
pub open spec fn with_pair(
    pairs: Seq<(Seq<char>, Seq<char>)>,
    key: Seq<char>,
    value: Seq<char>,
) -> Seq<(Seq<char>, Seq<char>)> {
    match key_index(pairs, key) {
        Some(i) => pairs.update(i, (key, value)),
        None => pairs.push((key, value)),
    }
}

/// Adding a pair keeps the keys distinct.
pub proof fn lemma_with_pair_keeps_keys_distinct(
    pairs: Seq<(Seq<char>, Seq<char>)>,
    key: Seq<char>,
    value: Seq<char>,
)
    requires
        keys_distinct(pairs),
    ensures
        keys_distinct(with_pair(pairs, key, value)),
{
    let after = with_pair(pairs, key, value);
    if exists|i: int| is_first_key(pairs, key, i) {
        let k = choose|i: int| is_first_key(pairs, key, i);
        assert forall|i: int, j: int| 0 <= i < j < after.len() implies (#[trigger] after[i]).0 != (
        #[trigger] after[j]).0 by {
            assert(pairs[i].0 != pairs[j].0);
        }
    } else {
        assert forall|i: int, j: int| 0 <= i < j < after.len() implies (#[trigger] after[i]).0 != (
        #[trigger] after[j]).0 by {
            if j < pairs.len() {
                assert(pairs[i].0 != pairs[j].0);
            } else {
                assert(!is_first_key(pairs, key, i));
                lemma_no_first_key(pairs, key, i);
            }
        }
    }
}

/// Where no pair is the first under `key`, no pair stands under it.
proof fn lemma_no_first_key(pairs: Seq<(Seq<char>, Seq<char>)>, key: Seq<char>, i: int)
    requires
        !exists|k: int| is_first_key(pairs, key, k),
        0 <= i < pairs.len(),
    ensures
        pairs[i].0 != key,
    decreases i,
{
    if pairs[i].0 == key {
        if exists|j: int| 0 <= j < i && (#[trigger] pairs[j]).0 == key {
            let j = choose|j: int| 0 <= j < i && (#[trigger] pairs[j]).0 == key;
            lemma_no_first_key(pairs, key, j);
        } else {
            assert(is_first_key(pairs, key, i));
        }
    }
}

impl<M> Document<M> {
    /// A document of the given text, without metadata.
    pub fn new(content: String) -> (r: Self)
        ensures
            r.page_content == content,
            r.metadata is None,
    {
        Document { page_content: content, metadata: None }
    }

    /// The metadata of the document, if it carries any.
    pub fn metadata(&self) -> (r: Option<&M>)
        ensures
            match r {
                Some(m) => self.metadata == Some(*m),
                None => self.metadata is None,
            },
    {
        self.metadata.as_ref()
    }
}

/// The index of the first pair under `key`.
pub fn find_key(pairs: &Metadata, key: &str) -> (r: Option<usize>)
    ensures
        match r {
            Some(i) => i < pairs.len() && key_index(pair_views(pairs@), key@) == Some(i as int),
            None => key_index(pair_views(pairs@), key@) is None,
        },
{
    let ghost all = pair_views(pairs@);
    let mut i: usize = 0;
    while i < pairs.len()
        invariant
            i <= pairs.len(),
            all == pair_views(pairs@),
            forall|j: int| 0 <= j < i ==> (#[trigger] all[j]).0 != key@,
        decreases pairs.len() - i,
    {
        assert(all[i as int].0 == pairs@[i as int].0@);
        if text_eq(pairs[i].0.as_str(), key) {
            proof {
                assert(is_first_key(all, key@, i as int));
                let k = choose|k: int| is_first_key(all, key@, k);
                if k < i {
                    assert(all[k].0 != key@);
                }
            }
            return Some(i);
        }
        i += 1;
    }
    proof {
        if exists|k: int| is_first_key(all, key@, k) {
            let k = choose|k: int| is_first_key(all, key@, k);
            assert(all[k].0 != key@);
        }
    }
    None
}

impl Document<Metadata> {
    /// Puts `value` under `key`: in the place of the value that stood under
    /// it, or as a new pair at the end.
    pub fn add_metadata(&mut self, key: String, value: String)
        ensures
            final(self).page_content == old(self).page_content,
            final(self)@.metadata == Some(
                with_pair(
                    match old(self)@.metadata {
                        Some(pairs) => pairs,
                        None => Seq::empty(),
                    },
                    key@,
                    value@,
                ),
            ),
    {
        match &mut self.metadata {
            Some(pairs) => {
                let ghost before = pair_views(pairs@);
                match find_key(pairs, key.as_str()) {
                    Some(i) => {
                        pairs.set(i, (key, value));
                        assert(pair_views(pairs@) =~= before.update(i as int, (key@, value@)));
                    },
                    None => {
                        pairs.push((key, value));
                        assert(pair_views(pairs@) =~= before.push((key@, value@)));
                    },
                }
            },
            None => {
                let mut pairs: Vec<(String, String)> = Vec::new();
                let ghost before = pair_views(pairs@);
                assert(before =~= Seq::empty());
                proof {
                    if exists|k: int| is_first_key(before, key@, k) {
                        let k = choose|k: int| is_first_key(before, key@, k);
                    }
                }
                pairs.push((key, value));
                assert(pair_views(pairs@) =~= before.push((key@, value@)));
                self.metadata = Some(pairs);
            },
        }
    }
}

/// A copy of `pairs`.
pub fn clone_metadata(pairs: &Metadata) -> (r: Metadata)
    ensures
        pair_views(r@) == pair_views(pairs@),
{
    let mut out: Vec<(String, String)> = Vec::new();
    let mut i: usize = 0;
    while i < pairs.len()
        invariant
            i <= pairs.len(),
            out.len() == i,
            forall|j: int|
                0 <= j < i ==> (#[trigger] out@[j]).0@ == pairs@[j].0@ && out@[j].1@
                    == pairs@[j].1@,
        decreases pairs.len() - i,
    {
        out.push((pairs[i].0.clone(), pairs[i].1.clone()));
        i += 1;
    }
    assert(pair_views(out@) =~= pair_views(pairs@));
    out
}

} // verus!
