//! The table of requests that this node has sent and that still wait for
//! their reply.

use crate::direct_message::{DirectMessage, DirectMessageView};
use vstd::prelude::*;

verus! {

/// One outstanding request: the message, under the id it was sent with.
struct PendingRequest {
    msg_id: String,
    message: DirectMessage,
}

/// Maps the id of each outstanding request to the direct message that was
/// sent under it.
///
/// An id is opaque: the table only ever asks whether two ids are the same.
/// At most one request is outstanding under an id. Looking a request up does
/// not remove it, so a duplicate reply sees the same request as the first.
pub struct PendingRequestTable {
    entries: Vec<PendingRequest>,
}

/// No id occurs twice.
spec fn distinct_ids(entries: Seq<PendingRequest>) -> bool {
    forall|i: int, j: int|
        #![trigger entries[i], entries[j]]
        0 <= i < j < entries.len() ==> entries[i].msg_id@ != entries[j].msg_id@
}

/// Some entry is stored under `id`.
spec fn holds(entries: Seq<PendingRequest>, id: Seq<char>) -> bool {
    exists|i: int| 0 <= i < entries.len() && (#[trigger] entries[i]).msg_id@ == id
}

/// Where the entry under `id` is stored.
spec fn index_of(entries: Seq<PendingRequest>, id: Seq<char>) -> int {
    choose|i: int| 0 <= i < entries.len() && (#[trigger] entries[i]).msg_id@ == id
}

/// The map that a sequence of entries with distinct ids stands for.
spec fn entries_map(entries: Seq<PendingRequest>) -> Map<Seq<char>, DirectMessageView> {
    Map::new(
        |id: Seq<char>| holds(entries, id),
        |id: Seq<char>| entries[index_of(entries, id)].message@,
    )
}

/// With distinct ids, the entry at `i` is the one found under its own id.
proof fn lemma_found_at(entries: Seq<PendingRequest>, i: int)
    requires
        distinct_ids(entries),
        0 <= i < entries.len(),
    ensures
        holds(entries, entries[i].msg_id@),
        index_of(entries, entries[i].msg_id@) == i,
        entries_map(entries).contains_key(entries[i].msg_id@),
        entries_map(entries)[entries[i].msg_id@] == entries[i].message@,
{
    let id = entries[i].msg_id@;
    let j = index_of(entries, id);
    assert(0 <= j < entries.len() && entries[j].msg_id@ == id);
    if j < i {
        assert(entries[j].msg_id@ != entries[i].msg_id@);
    } else if i < j {
        assert(entries[i].msg_id@ != entries[j].msg_id@);
    }
}

/// Appending an entry under a new id stores it and leaves the rest as it was.
proof fn lemma_push(entries: Seq<PendingRequest>, entry: PendingRequest)
    requires
        distinct_ids(entries),
        !holds(entries, entry.msg_id@),
    ensures
        distinct_ids(entries.push(entry)),
        entries_map(entries.push(entry)) == entries_map(entries).insert(
            entry.msg_id@,
            entry.message@,
        ),
{
    let after = entries.push(entry);
    assert forall|i: int, j: int|
        #![trigger after[i], after[j]]
        0 <= i < j < after.len() implies after[i].msg_id@ != after[j].msg_id@ by {
        if j == entries.len() {
            assert(entries[i].msg_id@ != entry.msg_id@);
        } else {
            assert(entries[i].msg_id@ != entries[j].msg_id@);
        }
    }
    let expected = entries_map(entries).insert(entry.msg_id@, entry.message@);
    assert forall|id: Seq<char>|
        #![trigger entries_map(after).dom().contains(id)]
        entries_map(after).dom().contains(id) implies expected.dom().contains(id) by {
        let i = index_of(after, id);
        assert(0 <= i < after.len() && after[i].msg_id@ == id);
        if i < entries.len() {
            assert(entries[i].msg_id@ == id);
        }
    }
    assert forall|id: Seq<char>|
        #![trigger expected.dom().contains(id)]
        expected.dom().contains(id) implies entries_map(after).dom().contains(id)
        && entries_map(after)[id] == expected[id] by {
        if id == entry.msg_id@ {
            assert(after[entries.len() as int].msg_id@ == id);
            lemma_found_at(after, entries.len() as int);
        } else {
            let i = index_of(entries, id);
            assert(0 <= i < entries.len() && entries[i].msg_id@ == id);
            assert(after[i] == entries[i]);
            lemma_found_at(after, i);
            lemma_found_at(entries, i);
        }
    }
    assert(entries_map(after) =~= expected);
}

/// Replacing the entry at `i` by one under the same id changes that id's
/// message and leaves the rest as it was.
proof fn lemma_update(entries: Seq<PendingRequest>, i: int, entry: PendingRequest)
    requires
        distinct_ids(entries),
        0 <= i < entries.len(),
        entries[i].msg_id@ == entry.msg_id@,
    ensures
        distinct_ids(entries.update(i, entry)),
        entries_map(entries.update(i, entry)) == entries_map(entries).insert(
            entry.msg_id@,
            entry.message@,
        ),
{
    let after = entries.update(i, entry);
    assert forall|a: int, b: int|
        #![trigger after[a], after[b]]
        0 <= a < b < after.len() implies after[a].msg_id@ != after[b].msg_id@ by {
        assert(entries[a].msg_id@ != entries[b].msg_id@);
    }
    let expected = entries_map(entries).insert(entry.msg_id@, entry.message@);
    assert forall|id: Seq<char>|
        #![trigger entries_map(after).dom().contains(id)]
        entries_map(after).dom().contains(id) implies expected.dom().contains(id) by {
        let a = index_of(after, id);
        assert(0 <= a < after.len() && after[a].msg_id@ == id);
        assert(entries[a].msg_id@ == id);
    }
    assert forall|id: Seq<char>|
        #![trigger expected.dom().contains(id)]
        expected.dom().contains(id) implies entries_map(after).dom().contains(id)
        && entries_map(after)[id] == expected[id] by {
        if id == entry.msg_id@ {
            lemma_found_at(after, i);
        } else {
            let a = index_of(entries, id);
            assert(0 <= a < entries.len() && entries[a].msg_id@ == id);
            assert(after[a] == entries[a]);
            lemma_found_at(after, a);
            lemma_found_at(entries, a);
        }
    }
    assert(entries_map(after) =~= expected);
}

/// Taking the entry at `i` out forgets its id and leaves the rest as it was.
proof fn lemma_remove(entries: Seq<PendingRequest>, i: int)
    requires
        distinct_ids(entries),
        0 <= i < entries.len(),
    ensures
        distinct_ids(entries.remove(i)),
        entries_map(entries.remove(i)) == entries_map(entries).remove(entries[i].msg_id@),
{
    let after = entries.remove(i);
    assert forall|a: int, b: int|
        #![trigger after[a], after[b]]
        0 <= a < b < after.len() implies after[a].msg_id@ != after[b].msg_id@ by {
        let a0 = if a < i { a } else { a + 1 };
        let b0 = if b < i { b } else { b + 1 };
        assert(after[a] == entries[a0] && after[b] == entries[b0]);
        assert(entries[a0].msg_id@ != entries[b0].msg_id@);
    }
    let expected = entries_map(entries).remove(entries[i].msg_id@);
    assert forall|id: Seq<char>|
        #![trigger entries_map(after).dom().contains(id)]
        entries_map(after).dom().contains(id) implies expected.dom().contains(id) by {
        let a = index_of(after, id);
        assert(0 <= a < after.len() && after[a].msg_id@ == id);
        let a0 = if a < i { a } else { a + 1 };
        assert(after[a] == entries[a0]);
        assert(entries[a0].msg_id@ == id);
        if a0 < i {
            assert(entries[a0].msg_id@ != entries[i].msg_id@);
        } else {
            assert(entries[i].msg_id@ != entries[a0].msg_id@);
        }
    }
    assert forall|id: Seq<char>|
        #![trigger expected.dom().contains(id)]
        expected.dom().contains(id) implies entries_map(after).dom().contains(id)
        && entries_map(after)[id] == expected[id] by {
        let a0 = index_of(entries, id);
        assert(0 <= a0 < entries.len() && entries[a0].msg_id@ == id);
        assert(a0 != i);
        let a = if a0 < i { a0 } else { a0 - 1 };
        assert(after[a] == entries[a0]);
        lemma_found_at(after, a);
        lemma_found_at(entries, a0);
    }
    assert(entries_map(after) =~= expected);
}

/// With distinct ids, the map holds as many requests as there are entries.
proof fn lemma_size(entries: Seq<PendingRequest>)
    requires
        distinct_ids(entries),
    ensures
        entries_map(entries).dom().finite(),
        entries_map(entries).len() == entries.len(),
    decreases entries.len(),
{
    if entries.len() == 0 {
        assert(entries_map(entries) =~= Map::<Seq<char>, DirectMessageView>::empty());
    } else {
        let rest = entries.drop_last();
        let last = entries.last();
        assert forall|i: int, j: int|
        #![trigger rest[i], rest[j]]
        0 <= i < j < rest.len() implies rest[i].msg_id@ != rest[j].msg_id@ by {
            assert(entries[i].msg_id@ != entries[j].msg_id@);
        }
        if holds(rest, last.msg_id@) {
            let i = index_of(rest, last.msg_id@);
            assert(0 <= i < rest.len() && rest[i].msg_id@ == last.msg_id@);
            assert(entries[i].msg_id@ != entries[entries.len() - 1].msg_id@);
        }
        lemma_size(rest);
        lemma_push(rest, last);
        assert(rest.push(last) =~= entries);
    }
}

impl View for PendingRequestTable {
    type V = Map<Seq<char>, DirectMessageView>;

    closed spec fn view(&self) -> Map<Seq<char>, DirectMessageView> {
        entries_map(self.entries@)
    }
}

impl PendingRequestTable {
    #[verifier::type_invariant]
    spec fn well_formed(&self) -> bool {
        distinct_ids(self.entries@)
    }

    /// A table with no outstanding request.
    pub fn new() -> (table: PendingRequestTable)
        ensures
            table@ == Map::<Seq<char>, DirectMessageView>::empty(),
    {
        let table = PendingRequestTable { entries: Vec::new() };
        assert(table@ =~= Map::<Seq<char>, DirectMessageView>::empty());
        table
    }

    /// How many requests are outstanding.
    pub fn len(&self) -> (n: usize)
        ensures
            self@.dom().finite(),
            n == self@.len(),
    {
        proof {
            use_type_invariant(self);
            lemma_size(self.entries@);
        }
        self.entries.len()
    }

    /// Whether no request is outstanding.
    pub fn is_empty(&self) -> (empty: bool)
        ensures
            empty == (self@ == Map::<Seq<char>, DirectMessageView>::empty()),
    {
        proof {
            use_type_invariant(self);
            lemma_size(self.entries@);
            if self.entries@.len() == 0 {
                assert(self@ =~= Map::<Seq<char>, DirectMessageView>::empty());
            }
        }
        self.entries.len() == 0
    }

    /// Where the request under `msg_id` is stored, if there is one.
    fn position(&self, msg_id: &String) -> (found: Option<usize>)
        ensures
            match found {
                Some(i) => i < self.entries@.len() && self.entries@[i as int].msg_id@ == msg_id@,
                None => !holds(self.entries@, msg_id@),
            },
    {
        let mut i: usize = 0;
        while i < self.entries.len()
            invariant
                i <= self.entries@.len(),
                forall|k: int| 0 <= k < i ==> (#[trigger] self.entries@[k]).msg_id@ != msg_id@,
            decreases self.entries@.len() - i,
        {
            if self.entries[i].msg_id == *msg_id {
                return Some(i);
            }
            i = i + 1;
        }
        None
    }

    /// Whether a request is outstanding under `msg_id`.
    pub fn contains_key(&self, msg_id: &str) -> (found: bool)
        ensures
            found == self@.contains_key(msg_id@),
    {
        let key = msg_id.to_owned();
        let found = self.position(&key);
        proof {
            use_type_invariant(self);
            if let Some(i) = found {
                lemma_found_at(self.entries@, i as int);
            }
        }
        found.is_some()
    }

    /// The request that is outstanding under `msg_id`, if there is one. The
    /// table is left as it is.
    pub fn get(&self, msg_id: &str) -> (found: Option<&DirectMessage>)
        ensures
            match found {
                Some(message) => self@.contains_key(msg_id@) && self@[msg_id@] == message@,
                None => !self@.contains_key(msg_id@),
            },
    {
        let key = msg_id.to_owned();
        match self.position(&key) {
            Some(i) => {
                proof {
                    use_type_invariant(self);
                    lemma_found_at(self.entries@, i as int);
                }
                Some(&self.entries[i].message)
            },
            None => None,
        }
    }

    /// Records `message` as the request outstanding under `msg_id`, in place of
    /// an earlier one if there was one, and returns the earlier one.
    pub fn insert(&mut self, msg_id: String, message: DirectMessage) -> (previous: Option<
        DirectMessage,
    >)
        ensures
            final(self)@ == old(self)@.insert(msg_id@, message@),
            match previous {
                Some(earlier) => old(self)@.contains_key(msg_id@) && old(self)@[msg_id@]
                    == earlier@,
                None => !old(self)@.contains_key(msg_id@),
            },
    {
        proof {
            use_type_invariant(&*self);
        }
        let entry = PendingRequest { msg_id, message };
        let found = self.position(&entry.msg_id);
        let mut entries: Vec<PendingRequest> = Vec::new();
        std::mem::swap(&mut self.entries, &mut entries);
        let previous = match found {
            Some(i) => {
                proof {
                    lemma_found_at(entries@, i as int);
                    lemma_update(entries@, i as int, entry);
                }
                let mut slot = entry;
                std::mem::swap(&mut entries[i], &mut slot);
                Some(slot.message)
            },
            None => {
                proof {
                    lemma_push(entries@, entry);
                }
                entries.push(entry);
                None
            },
        };
        self.entries = entries;
        previous
    }

    /// Forgets the request outstanding under `msg_id` and returns it, if there
    /// was one.
    pub fn remove(&mut self, msg_id: &str) -> (removed: Option<DirectMessage>)
        ensures
            final(self)@ == old(self)@.remove(msg_id@),
            match removed {
                Some(message) => old(self)@.contains_key(msg_id@) && old(self)@[msg_id@]
                    == message@,
                None => !old(self)@.contains_key(msg_id@),
            },
    {
        proof {
            use_type_invariant(&*self);
        }
        let key = msg_id.to_owned();
        match self.position(&key) {
            Some(i) => {
                let mut entries: Vec<PendingRequest> = Vec::new();
                std::mem::swap(&mut self.entries, &mut entries);
                proof {
                    lemma_found_at(entries@, i as int);
                    lemma_remove(entries@, i as int);
                }
                let entry = entries.remove(i);
                self.entries = entries;
                Some(entry.message)
            },
            None => {
                assert(old(self)@.remove(msg_id@) =~= old(self)@);
                None
            },
        }
    }
}

} // verus!
