//! A recorder of what the engine was asked to do, for tests to inspect.

use vstd::prelude::*;
use crate::byte_map::ByteMap;
use crate::types::AccountId;

verus! {

/// An event that a contract emitted.
pub struct EmittedEvent {
    /// The topics of the event.
    pub topics: Vec<Vec<u8>>,
    /// The data of the event.
    pub data: Vec<u8>,
}

/// The byte strings that a vector of byte vectors holds.
pub open spec fn byte_strings(items: Seq<Vec<u8>>) -> Seq<Seq<u8>> {
    Seq::new(items.len(), |i: int| items[i]@)
}

/// A counter one step further; it stays where it is once it is full.
pub open spec fn bumped(count: usize) -> usize {
    if count < usize::MAX {
        (count + 1) as usize
    } else {
        count
    }
}

/// Records reads, writes, touched cells, events and debug messages.
pub struct DebugInfo {
    emitted_events: Vec<EmittedEvent>,
    emitted_debug_messages: Vec<String>,
    count_reads: ByteMap<usize>,
    count_writes: ByteMap<usize>,
    cells_per_account: ByteMap<ByteMap<bool>>,
}

impl DebugInfo {
    /// The invariant of the representation.
    pub closed spec fn wf(&self) -> bool {
        &&& self.count_reads.wf()
        &&& self.count_writes.wf()
        &&& self.cells_per_account.wf()
        &&& forall|account: Seq<u8>| #[trigger]
            self.cells_per_account@.contains_key(account)
                ==> self.cells_per_account@[account].wf()
    }

    /// The events recorded so far, oldest first.
    pub closed spec fn events(&self) -> Seq<EmittedEvent> {
        self.emitted_events@
    }

    /// The debug messages recorded so far, oldest first.
    pub closed spec fn messages(&self) -> Seq<Seq<char>> {
        Seq::new(self.emitted_debug_messages@.len(), |i: int| self.emitted_debug_messages@[i]@)
    }

    /// How often storage was read for `account`.
    pub closed spec fn reads(&self, account: Seq<u8>) -> usize {
        if self.count_reads@.contains_key(account) {
            self.count_reads@[account]
        } else {
            0
        }
    }

    /// How often storage was written for `account`.
    pub closed spec fn writes(&self, account: Seq<u8>) -> usize {
        if self.count_writes@.contains_key(account) {
            self.count_writes@[account]
        } else {
            0
        }
    }

    /// The cells that were written and not cleared since, each as the pair of
    /// its owner and its key.
    pub closed spec fn touched(&self) -> Set<(Seq<u8>, Seq<u8>)> {
        Set::new(
            |cell: (Seq<u8>, Seq<u8>)|
                self.cells_per_account@.contains_key(cell.0)
                    && self.cells_per_account@[cell.0]@.contains_key(cell.1),
        )
    }

    /// Whether this recorder differs from `before` by one more read counted
    /// for `account`, and by nothing else.
    pub open spec fn counted_read(&self, before: &DebugInfo, account: Seq<u8>) -> bool {
        &&& self.reads(account) == bumped(before.reads(account))
        &&& forall|other: Seq<u8>| other != account ==> self.reads(other) == before.reads(other)
        &&& forall|other: Seq<u8>| self.writes(other) == before.writes(other)
        &&& self.events() == before.events()
        &&& self.messages() == before.messages()
        &&& self.touched() == before.touched()
    }

    /// Whether this recorder differs from `before` by one more write counted
    /// for `account`, and by nothing else but the touched cells, of which
    /// this says nothing.
    pub open spec fn counted_write(&self, before: &DebugInfo, account: Seq<u8>) -> bool {
        &&& self.writes(account) == bumped(before.writes(account))
        &&& forall|other: Seq<u8>| other != account ==> self.writes(other) == before.writes(other)
        &&& forall|other: Seq<u8>| self.reads(other) == before.reads(other)
        &&& self.events() == before.events()
        &&& self.messages() == before.messages()
    }

    /// Creates a recorder that has recorded nothing.
    pub fn new() -> (info: Self)
        ensures
            info.wf(),
            info.events() == Seq::<EmittedEvent>::empty(),
            info.messages() == Seq::<Seq<char>>::empty(),
            forall|account: Seq<u8>| info.reads(account) == 0 && info.writes(account) == 0,
            info.touched() == Set::<(Seq<u8>, Seq<u8>)>::empty(),
    {
        let info = DebugInfo {
            emitted_events: Vec::new(),
            emitted_debug_messages: Vec::new(),
            count_reads: ByteMap::new(),
            count_writes: ByteMap::new(),
            cells_per_account: ByteMap::new(),
        };
        assert(info.messages() =~= Seq::<Seq<char>>::empty());
        assert(info.touched() =~= Set::<(Seq<u8>, Seq<u8>)>::empty());
        info
    }

    /// Counts one more read for `account`.
    pub fn inc_reads(&mut self, account: AccountId)
        requires
            old(self).wf(),
        ensures
            final(self).wf(),
            final(self).reads(account@) == bumped(old(self).reads(account@)),
            forall|other: Seq<u8>| other != account@ ==> final(self).reads(other) == old(self).reads(other),
            forall|other: Seq<u8>| final(self).writes(other) == old(self).writes(other),
            final(self).events() == old(self).events(),
            final(self).messages() == old(self).messages(),
            final(self).touched() == old(self).touched(),
    {
        let count = match self.count_reads.get(account.as_bytes()) {
            Some(count) => *count,
            None => 0,
        };
        let next = if count < usize::MAX {
            count + 1
        } else {
            count
        };
        self.count_reads.insert(account.0, next);
    }

    /// Counts one more write for `account`.
    pub fn inc_writes(&mut self, account: AccountId)
        requires
            old(self).wf(),
        ensures
            final(self).wf(),
            final(self).writes(account@) == bumped(old(self).writes(account@)),
            forall|other: Seq<u8>| other != account@ ==> final(self).writes(other) == old(self).writes(other),
            forall|other: Seq<u8>| final(self).reads(other) == old(self).reads(other),
            final(self).events() == old(self).events(),
            final(self).messages() == old(self).messages(),
            final(self).touched() == old(self).touched(),
    {
        let count = match self.count_writes.get(account.as_bytes()) {
            Some(count) => *count,
            None => 0,
        };
        let next = if count < usize::MAX {
            count + 1
        } else {
            count
        };
        self.count_writes.insert(account.0, next);
    }

    /// Notes that `account` has written its cell `key`.
    pub fn record_cell_for_account(&mut self, account: AccountId, key: Vec<u8>)
        requires
            old(self).wf(),
        ensures
            final(self).wf(),
            final(self).touched() == old(self).touched().insert((account@, key@)),
            forall|other: Seq<u8>| final(self).reads(other) == old(self).reads(other),
            forall|other: Seq<u8>| final(self).writes(other) == old(self).writes(other),
            final(self).events() == old(self).events(),
            final(self).messages() == old(self).messages(),
    {
        let mut own = match self.cells_per_account.remove(account.as_bytes()) {
            Some(own) => own,
            None => ByteMap::new(),
        };
        own.insert(key, true);
        self.cells_per_account.insert(account.0, own);
        assert(final(self).touched() =~= old(self).touched().insert((account@, key@)));
    }

    /// Forgets that `account` has written its cell `key`, and says whether it
    /// was noted.
    pub fn remove_cell_for_account(&mut self, account: AccountId, key: Vec<u8>) -> (noted: bool)
        requires
            old(self).wf(),
        ensures
            final(self).wf(),
            noted == old(self).touched().contains((account@, key@)),
            final(self).touched() == old(self).touched().remove((account@, key@)),
            forall|other: Seq<u8>| final(self).reads(other) == old(self).reads(other),
            forall|other: Seq<u8>| final(self).writes(other) == old(self).writes(other),
            final(self).events() == old(self).events(),
            final(self).messages() == old(self).messages(),
    {
        match self.cells_per_account.remove(account.as_bytes()) {
            Some(own) => {
                let mut own = own;
                let removed = own.remove(key.as_slice());
                self.cells_per_account.insert(account.0, own);
                assert(final(self).touched() =~= old(self).touched().remove((account@, key@)));
                removed.is_some()
            },
            None => {
                assert(final(self).touched() =~= old(self).touched().remove((account@, key@)));
                false
            },
        }
    }

    /// Appends a debug message to the log.
    pub fn record_debug_message(&mut self, message: String)
        requires
            old(self).wf(),
        ensures
            final(self).wf(),
            final(self).messages() == old(self).messages().push(message@),
            final(self).events() == old(self).events(),
            final(self).touched() == old(self).touched(),
            forall|other: Seq<u8>| final(self).reads(other) == old(self).reads(other),
            forall|other: Seq<u8>| final(self).writes(other) == old(self).writes(other),
    {
        self.emitted_debug_messages.push(message);
        assert(final(self).messages() =~= old(self).messages().push(message@));
    }

    /// Appends an event to the log.
    pub fn record_event(&mut self, event: EmittedEvent)
        requires
            old(self).wf(),
        ensures
            final(self).wf(),
            final(self).events() == old(self).events().push(event),
            final(self).messages() == old(self).messages(),
            final(self).touched() == old(self).touched(),
            forall|other: Seq<u8>| final(self).reads(other) == old(self).reads(other),
            forall|other: Seq<u8>| final(self).writes(other) == old(self).writes(other),
    {
        self.emitted_events.push(event);
    }

    /// Returns how often storage was read for `account`.
    pub fn count_reads(&self, account: &[u8]) -> (count: usize)
        requires
            self.wf(),
        ensures
            count == self.reads(account@),
    {
        match self.count_reads.get(account) {
            Some(count) => *count,
            None => 0,
        }
    }

    /// Returns how often storage was written for `account`.
    pub fn count_writes(&self, account: &[u8]) -> (count: usize)
        requires
            self.wf(),
        ensures
            count == self.writes(account@),
    {
        match self.count_writes.get(account) {
            Some(count) => *count,
            None => 0,
        }
    }

    /// Tells whether `account` has written its cell `key` and not cleared it.
    pub fn is_cell_touched(&self, account: &[u8], key: &[u8]) -> (noted: bool)
        requires
            self.wf(),
        ensures
            noted == self.touched().contains((account@, key@)),
    {
        match self.cells_per_account.get(account) {
            Some(own) => own.contains_key(key),
            None => false,
        }
    }

    /// Returns how many events were recorded.
    pub fn event_count(&self) -> (count: usize)
        ensures
            count == self.events().len(),
    {
        self.emitted_events.len()
    }

    /// Returns the event recorded at place `index`, counted from the oldest.
    pub fn event(&self, index: usize) -> (event: &EmittedEvent)
        requires
            index < self.events().len(),
        ensures
            *event == self.events()[index as int],
    {
        &self.emitted_events[index]
    }

    /// Returns how many debug messages were recorded.
    pub fn message_count(&self) -> (count: usize)
        ensures
            count == self.messages().len(),
    {
        self.emitted_debug_messages.len()
    }

    /// Returns the debug message recorded at place `index`, counted from the
    /// oldest.
    pub fn message(&self, index: usize) -> (message: &str)
        requires
            index < self.messages().len(),
        ensures
            message@ == self.messages()[index as int],
    {
        self.emitted_debug_messages[index].as_str()
    }
}

} // verus!
