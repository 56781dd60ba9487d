//! The journal: an append-only log of mood entries, each given an identity
//! on the way in.
use vstd::prelude::*;
use crate::mood::{Entry, EntryError, EntryView, validation_error};

verus! {

/// The largest identity the journal hands out.
pub const MAX_ID: i32 = 2147483647;

/// Entries in the order they were appended; the entry at position `i` has
/// identity `i + 1`.
pub open spec fn numbered(s: Seq<EntryView>) -> bool {
    forall|i: int| 0 <= i < s.len() ==> #[trigger] s[i].id == Some((i + 1) as i32)
}

/// The log after a successful append of `e`.
pub open spec fn appended(s: Seq<EntryView>, e: EntryView) -> Seq<EntryView> {
    s.push(e.with_id(Some((s.len() + 1) as i32)))
}

/// What an append of `e` to the log `s` answers.
pub open spec fn append_outcome(s: Seq<EntryView>, e: EntryView) -> Result<i32, EntryError> {
    match validation_error(e) {
        Some(err) => Err(err),
        None => if s.len() >= MAX_ID {
            Err(EntryError::StoreFull)
        } else {
            Ok((s.len() + 1) as i32)
        },
    }
}

/// The journal of mood entries.
pub struct EntryStore {
    entries: Vec<Entry>,
}

impl View for EntryStore {
    type V = Seq<EntryView>;

    closed spec fn view(&self) -> Seq<EntryView> {
        self.entries@.map_values(|e: Entry| e@)
    }
}

impl EntryStore {
    /// Every stored entry is valid and numbered by its position.
    pub open spec fn wf(&self) -> bool {
        &&& numbered(self@)
        &&& forall|i: int| 0 <= i < self@.len() ==> (#[trigger] self@[i]).valid()
        &&& self@.len() <= MAX_ID
    }

    /// An empty journal.
    pub fn new() -> (r: EntryStore)
        ensures
            r.wf(),
            r@ == Seq::<EntryView>::empty(),
    {
        let r = EntryStore { entries: Vec::new() };
        assert(r@ =~= Seq::<EntryView>::empty());
        r
    }

    /// Number of stored entries.
    pub fn len(&self) -> (r: usize)
        ensures
            r == self@.len(),
    {
        self.entries.len()
    }

    /// Stores `entry` under the next identity and returns that identity. An
    /// entry with an empty mood or a malformed time is refused, and so is any
    /// entry once every identity is taken; a refused entry leaves the journal
    /// as it was. The identity the entry came with is not kept.
    pub fn append(&mut self, entry: Entry) -> (r: Result<i32, EntryError>)
        requires
            old(self).wf(),
        ensures
            final(self).wf(),
            r == append_outcome(old(self)@, entry@),
            r is Ok ==> final(self)@ == appended(old(self)@, entry@),
            r is Err ==> final(self)@ == old(self)@,
    {
        match entry.validate() {
            Err(err) => return Err(err),
            Ok(()) => {},
        }
        if self.entries.len() >= MAX_ID as usize {
            return Err(EntryError::StoreFull);
        }
        let id: i32 = (self.entries.len() + 1) as i32;
        let mut stored = entry;
        stored.id = Some(id);
        self.entries.push(stored);
        assert(self@ =~= appended(old(self)@, entry@));
        Ok(id)
    }

    /// Every stored entry, in the order of appending.
    pub fn list_all(&self) -> (r: &[Entry])
        ensures
            r@.map_values(|e: Entry| e@) == self@,
    {
        self.entries.as_slice()
    }
}

/// An append that succeeds hands out an identity that no earlier entry has,
/// and listing the journal afterwards shows an entry with that identity and
/// the appended fields; the earlier entries stay as they were.
pub proof fn appended_entry_is_listed(s: Seq<EntryView>, e: EntryView)
    requires
        numbered(s),
        append_outcome(s, e) is Ok,
    ensures
        ({
            let id = append_outcome(s, e)->Ok_0;
            let t = appended(s, e);
            &&& numbered(t)
            &&& forall|i: int| 0 <= i < s.len() ==> #[trigger] s[i].id != Some(id)
            &&& exists|i: int| 0 <= i < t.len() && #[trigger] t[i].id == Some(id) && t[i].same_fields(e)
            &&& t.subrange(0, s.len() as int) == s
        }),
{
    let id = append_outcome(s, e)->Ok_0;
    let t = appended(s, e);
    assert(t[s.len() as int].id == Some(id));
    assert(t[s.len() as int].with_id(None) == e.with_id(None));
    assert(t.subrange(0, s.len() as int) =~= s);
    assert forall|i: int| 0 <= i < t.len() implies #[trigger] t[i].id == Some((i + 1) as i32) by {
        if i < s.len() {
            assert(t[i] == s[i]);
        }
    }
}

/// A refused append leaves the journal as it was; an entry with an empty
/// mood is always refused.
pub proof fn empty_mood_is_refused(s: Seq<EntryView>, e: EntryView)
    requires
        e.mood.len() == 0,
    ensures
        append_outcome(s, e) == Err::<i32, EntryError>(EntryError::EmptyMood),
{
}

} // verus!
