//! The queue of videos that were handed in for ingestion, kept in memory.
//!
//! An entry is kept in a slot. Slots are never reused: deleting an entry
//! empties its slot. The entry in slot `i` has the identifier `i + 1`, and
//! an entry is deleted by the number of its slot.

use vstd::prelude::*;

verus! {

/// A video that was handed in for ingestion.
#[derive(Debug, PartialEq, Eq)]
pub struct IngestEntry {
    pub id: u64,
    pub video_id: String,
}

/// What an entry is created from.
#[derive(Debug, PartialEq, Eq)]
pub struct IngestEntryForCreate {
    pub video_id: String,
}

/// The mathematical content of an `IngestEntry`.
pub ghost struct IngestEntryView {
    pub id: u64,
    pub video_id: Seq<char>,
}

impl View for IngestEntry {
    type V = IngestEntryView;

    open spec fn view(&self) -> IngestEntryView {
        IngestEntryView { id: self.id, video_id: self.video_id@ }
    }
}

/// Why the queue refused.
#[derive(Debug, Clone, Copy, PartialEq, Eq, Structural)]
pub enum EntryError {
    /// The slot does not exist or is empty.
    IngestEntryDeleteFailIdNotFound { id: u64 },
}

/// The view of a slot.
pub open spec fn slot_view(slot: Option<IngestEntry>) -> Option<IngestEntryView> {
    match slot {
        Some(entry) => Some(entry@),
        None => None,
    }
}

/// The views of a list of entries.
pub open spec fn entry_views(entries: Seq<IngestEntry>) -> Seq<IngestEntryView> {
    Seq::new(entries.len(), |i: int| entries[i]@)
}

/// The entries in a list of slots, in the order of the slots.
pub open spec fn entries_spec(slots: Seq<Option<IngestEntryView>>) -> Seq<IngestEntryView> {
    slots.filter(|slot: Option<IngestEntryView>| slot is Some).map_values(
        |slot: Option<IngestEntryView>| slot.unwrap(),
    )
}

/// Every entry has the identifier of its slot: one more than the slot's
/// number.
pub open spec fn ids_follow_slots(slots: Seq<Option<IngestEntryView>>) -> bool {
    forall|i: int|
        0 <= i < slots.len() ==> ((#[trigger] slots[i]) matches Some(entry) ==> entry.id == i + 1)
}

/// The queue of the videos that were handed in.
#[derive(Debug)]
pub struct ModelController {
    ingest_entries: Vec<Option<IngestEntry>>,
}

impl View for ModelController {
    type V = Seq<Option<IngestEntryView>>;

    /// The slots of the queue.
    closed spec fn view(&self) -> Seq<Option<IngestEntryView>> {
        Seq::new(self.ingest_entries@.len(), |i: int| slot_view(self.ingest_entries@[i]))
    }
}

impl ModelController {
    /// Whether every entry has the identifier of its slot.
    pub open spec fn wf(&self) -> bool {
        ids_follow_slots(self@)
    }

    /// An empty queue.
    pub fn new() -> (r: Self)
        ensures
            r@ == Seq::<Option<IngestEntryView>>::empty(),
            r.wf(),
    {
        let r = ModelController { ingest_entries: Vec::new() };
        assert(r@ =~= Seq::<Option<IngestEntryView>>::empty());
        r
    }

    /// The number of slots.
    pub fn slots(&self) -> (r: usize)
        ensures
            r == self@.len(),
    {
        self.ingest_entries.len()
    }

    /// Puts a new entry into a new slot at the end, with the identifier of
    /// that slot.
    pub fn create_ingest_entry(&mut self, ingest_entry_fc: IngestEntryForCreate) -> (r: IngestEntry)
        requires
            old(self)@.len() < u64::MAX,
        ensures
            r@ == (IngestEntryView {
                id: (old(self)@.len() + 1) as u64,
                video_id: ingest_entry_fc.video_id@,
            }),
            final(self)@ == old(self)@.push(Some(r@)),
            old(self).wf() ==> final(self).wf(),
    {
        let id = self.ingest_entries.len() as u64 + 1;
        let ghost before = self@;
        let kept = IngestEntry { id, video_id: ingest_entry_fc.video_id.clone() };
        let ingest_entry = IngestEntry { id, video_id: ingest_entry_fc.video_id };
        self.ingest_entries.push(Some(kept));
        assert(self@ =~= before.push(Some(ingest_entry@)));
        ingest_entry
    }

    /// The entries of the queue, in the order of their slots.
    pub fn list_ingest_entries(&self) -> (r: Vec<IngestEntry>)
        ensures
            entry_views(r@) == entries_spec(self@),
    {
        let ghost all = self@;
        let mut out: Vec<IngestEntry> = Vec::new();
        let mut i: usize = 0;
        proof {
            reveal(Seq::filter);
            assert(all.take(0) =~= Seq::empty());
            assert(entry_views(out@) =~= entries_spec(all.take(0)));
        }
        while i < self.ingest_entries.len()
            invariant
                i <= self.ingest_entries.len(),
                all == self@,
                all.len() == self.ingest_entries.len(),
                entry_views(out@) == entries_spec(all.take(i as int)),
            decreases self.ingest_entries.len() - i,
        {
            let ghost before = entries_spec(all.take(i as int));
            proof {
                reveal(Seq::filter);
                assert(all.take(i + 1).drop_last() =~= all.take(i as int));
                assert(all.take(i + 1).last() == slot_view(self.ingest_entries@[i as int]));
            }
            match &self.ingest_entries[i] {
                Some(entry) => {
                    let ghost old_out = entry_views(out@);
                    out.push(IngestEntry { id: entry.id, video_id: entry.video_id.clone() });
                    proof {
                        assert(entry_views(out@) =~= old_out.push(entry@));
                        assert(entries_spec(all.take(i + 1)) =~= before.push(entry@));
                    }
                },
                None => {
                    proof {
                        assert(entries_spec(all.take(i + 1)) =~= before);
                    }
                },
            }
            i += 1;
        }
        assert(all.take(self.ingest_entries.len() as int) =~= all);
        out
    }

    /// Takes the entry out of slot `id` and leaves the slot empty. Where
    /// there is no such slot, or it is empty, the queue stays as it is.
    pub fn delete_ingest_entry(&mut self, id: u64) -> (r: Result<IngestEntry, EntryError>)
        ensures
            match r {
                Ok(entry) => {
                    &&& id < old(self)@.len()
                    &&& old(self)@[id as int] == Some(entry@)
                    &&& final(self)@ == old(self)@.update(id as int, None)
                },
                Err(e) => {
                    &&& e == EntryError::IngestEntryDeleteFailIdNotFound { id }
                    &&& id >= old(self)@.len() || old(self)@[id as int] is None
                    &&& final(self)@ == old(self)@
                },
            },
            old(self).wf() ==> final(self).wf(),
    {
        let ghost before = self@;
        if id >= self.ingest_entries.len() as u64 {
            return Err(EntryError::IngestEntryDeleteFailIdNotFound { id });
        }
        let slot = id as usize;
        assert(before[slot as int] == slot_view(self.ingest_entries@[slot as int]));
        let found = match &self.ingest_entries[slot] {
            Some(entry) => Some(IngestEntry { id: entry.id, video_id: entry.video_id.clone() }),
            None => None,
        };
        match found {
            Some(entry) => {
                self.ingest_entries.set(slot, None);
                assert(self@ =~= before.update(slot as int, None));
                Ok(entry)
            },
            None => Err(EntryError::IngestEntryDeleteFailIdNotFound { id }),
        }
    }
}

} // verus!
