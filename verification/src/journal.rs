//! The activity journal: the record of every activity id that was taken
//! in, and the only guard against applying an activity twice.

use vstd::prelude::*;
use crate::text::str_eq;

verus! {

/// One line of the journal: an activity id and when it was first seen.
#[derive(Debug, Clone)]
pub struct ActivityJournalEntry {
    pub ap_id: String,
    pub published: i64,
}

/// What an attempt to record an id found.
#[derive(Debug, Clone, Copy, PartialEq, Eq, Structural)]
pub enum JournalOutcome {
    /// The id was new and is now on record.
    Inserted,
    /// The id was on record already; nothing changed.
    AlreadyExists,
}

/// The journal. No id is on record twice, and an entry, once made, is
/// never changed or removed.
pub struct ActivityJournal {
    entries: Vec<ActivityJournalEntry>,
}

/// The ids of a run of entries, in order.
pub open spec fn ids_of(entries: Seq<ActivityJournalEntry>) -> Seq<Seq<char>> {
    Seq::new(entries.len(), |i: int| entries[i].ap_id@)
}

/// The ids on record after an attempt to record `ap_id`, and what the
/// attempt found.
pub open spec fn recorded(ids: Seq<Seq<char>>, ap_id: Seq<char>) -> (Seq<Seq<char>>, JournalOutcome) {
    if ids.contains(ap_id) {
        (ids, JournalOutcome::AlreadyExists)
    } else {
        (ids.push(ap_id), JournalOutcome::Inserted)
    }
}

/// `after` is `before` with one entry more at its end, made of the id and the time.
pub open spec fn appended(
    before: Seq<ActivityJournalEntry>,
    after: Seq<ActivityJournalEntry>,
    ap_id: Seq<char>,
    now: i64,
) -> bool {
    &&& after.len() == before.len() + 1
    &&& after.drop_last() == before
    &&& after.last().ap_id@ == ap_id
    &&& after.last().published == now
}

impl ActivityJournal {
    /// The entries in the order in which they were made.
    pub closed spec fn entries(&self) -> Seq<ActivityJournalEntry> {
        self.entries@
    }

    /// The ids on record, in the order in which they were first seen.
    pub open spec fn ids(&self) -> Seq<Seq<char>> {
        ids_of(self.entries())
    }

    /// No id is on record twice.
    pub open spec fn wf(&self) -> bool {
        self.ids().no_duplicates()
    }

    /// Whether the id is on record.
    pub open spec fn has(&self, ap_id: Seq<char>) -> bool {
        self.ids().contains(ap_id)
    }

    /// An empty journal.
    pub fn new() -> (r: ActivityJournal)
        ensures
            r.entries() == Seq::<ActivityJournalEntry>::empty(),
            r.wf(),
    {
        ActivityJournal { entries: Vec::new() }
    }

    /// How many ids are on record.
    pub fn len(&self) -> (r: usize)
        ensures
            r == self.entries().len(),
    {
        self.entries.len()
    }

    /// Where the id stands in the journal, if it is on record.
    fn position(&self, ap_id: &str) -> (r: Option<usize>)
        ensures
            match r {
                Some(i) => i < self.entries().len() && self.ids()[i as int] == ap_id@,
                None => !self.has(ap_id@),
            },
    {
        let mut i: usize = 0;
        while i < self.entries.len()
            invariant
                i <= self.entries.len(),
                forall|k: int| 0 <= k < i ==> #[trigger] self.ids()[k] != ap_id@,
            decreases self.entries.len() - i,
        {
            if str_eq(self.entries[i].ap_id.as_str(), ap_id) {
                return Some(i);
            }
            i += 1;
        }
        None
    }

    /// Whether the id is on record.
    pub fn contains(&self, ap_id: &str) -> (r: bool)
        ensures
            r == self.has(ap_id@),
    {
        self.position(ap_id).is_some()
    }

    /// When the id was first seen, if it is on record.
    pub fn first_seen(&self, ap_id: &str) -> (r: Option<i64>)
        ensures
            r is Some <==> self.has(ap_id@),
            r matches Some(t) ==> exists|i: int|
                0 <= i < self.entries().len() && #[trigger] self.entries()[i].ap_id@ == ap_id@
                    && self.entries()[i].published == t,
    {
        match self.position(ap_id) {
            Some(i) => {
                assert(self.ids()[i as int] == self.entries()[i as int].ap_id@);
                Some(self.entries[i].published)
            },
            None => None,
        }
    }

    /// Records the id unless it is on record already. A new id is added
    /// at the end with `now` as the time it was first seen; a known id
    /// leaves the journal exactly as it was. Looking the id up and adding
    /// it are one step: whoever calls holds the journal alone.
    pub fn record_if_new(&mut self, ap_id: &str, now: i64) -> (r: JournalOutcome)
        requires
            old(self).wf(),
        ensures
            final(self).wf(),
            (final(self).ids(), r) == recorded(old(self).ids(), ap_id@),
            r == JournalOutcome::AlreadyExists ==> final(self).entries() == old(self).entries(),
            r == JournalOutcome::Inserted ==> appended(
                old(self).entries(),
                final(self).entries(),
                ap_id@,
                now,
            ),
            final(self).has(ap_id@),
    {
        if self.position(ap_id).is_some() {
            return JournalOutcome::AlreadyExists;
        }
        let ghost before = self.entries@;
        self.entries.push(ActivityJournalEntry { ap_id: ap_id.to_owned(), published: now });
        proof {
            let after = self.entries@;
            assert(after.drop_last() =~= before);
            assert forall|i: int, j: int|
                0 <= i < after.len() && 0 <= j < after.len() && i != j implies ids_of(after)[i]
                != ids_of(after)[j] by {
                if i < before.len() && j < before.len() {
                    assert(ids_of(before)[i] != ids_of(before)[j]);
                } else if i < before.len() {
                    assert(ids_of(before)[i] != ap_id@);
                } else {
                    assert(ids_of(before)[j] != ap_id@);
                }
            }
            assert(ids_of(after)[after.len() - 1] == ap_id@);
            assert(ids_of(after) =~= ids_of(before).push(ap_id@));
        }
        JournalOutcome::Inserted
    }
}

/// Puts a received activity on record, so that the same activity is not
/// taken in and processed a second time.
pub fn insert_received_activity(journal: &mut ActivityJournal, ap_id: &str, now: i64) -> (r:
    JournalOutcome)
    requires
        old(journal).wf(),
    ensures
        (final(journal).ids(), r) == recorded(old(journal).ids(), ap_id@),
        r == JournalOutcome::AlreadyExists ==> final(journal).entries() == old(journal).entries(),
        r == JournalOutcome::Inserted ==> appended(
            old(journal).entries(),
            final(journal).entries(),
            ap_id@,
            now,
        ),
        final(journal).has(ap_id@),
        final(journal).wf(),
{
    journal.record_if_new(ap_id, now)
}

/// An id that was recorded once is found on record at every later
/// delivery, and that delivery leaves the journal as it was.
pub proof fn lemma_redelivery_changes_nothing(ids: Seq<Seq<char>>, ap_id: Seq<char>)
    ensures
        recorded(recorded(ids, ap_id).0, ap_id) == (
            recorded(ids, ap_id).0,
            JournalOutcome::AlreadyExists,
        ),
{
    if !ids.contains(ap_id) {
        assert(ids.push(ap_id)[ids.len() as int] == ap_id);
    }
}

/// Of two deliveries of one id that the journal has not seen, taken in
/// either order, the first is inserted and the second finds it on record:
/// exactly one of them is new.
pub proof fn lemma_one_of_two_is_new(ids: Seq<Seq<char>>, ap_id: Seq<char>)
    requires
        !ids.contains(ap_id),
    ensures
        recorded(ids, ap_id).1 == JournalOutcome::Inserted,
        recorded(recorded(ids, ap_id).0, ap_id).1 == JournalOutcome::AlreadyExists,
        recorded(recorded(ids, ap_id).0, ap_id).0 == ids.push(ap_id),
{
    lemma_redelivery_changes_nothing(ids, ap_id);
}

/// Recording keeps every id that was on record, in its place, and keeps
/// the journal free of repeated ids.
pub proof fn lemma_recording_keeps_history(ids: Seq<Seq<char>>, ap_id: Seq<char>)
    requires
        ids.no_duplicates(),
    ensures
        recorded(ids, ap_id).0.no_duplicates(),
        ids.is_prefix_of(recorded(ids, ap_id).0),
        recorded(ids, ap_id).0.contains(ap_id),
{
    let after = recorded(ids, ap_id).0;
    if !ids.contains(ap_id) {
        assert(after[ids.len() as int] == ap_id);
        assert forall|i: int, j: int|
            0 <= i < after.len() && 0 <= j < after.len() && i != j implies after[i] != after[j] by {
            if i < ids.len() && j < ids.len() {
            } else if i < ids.len() {
                assert(ids.contains(ids[i]));
            } else {
                assert(ids.contains(ids[j]));
            }
        }
    }
}

} // verus!
