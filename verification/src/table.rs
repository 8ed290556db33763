//! The table that owns every operation in flight, keyed by operation
//! identity. No key is held twice.

use vstd::prelude::*;
use crate::hash::Level;
use crate::operation::{
    EndorsingRights, Key, OperationDecodedContents, PrecheckerError, PrecheckerOperation, PrecheckerOperationState,
};

verus! {

/// A key with the record that it owns.
#[derive(Debug)]
pub struct Entry {
    pub key: Key,
    pub operation: PrecheckerOperation,
}

#[derive(Debug)]
pub struct OperationTable {
    pub entries: Vec<Entry>,
}

/// Whether `key` is the key of one of `entries`.
pub open spec fn holds_key(entries: Seq<Entry>, key: Seq<u8>) -> bool {
    exists|i: int| 0 <= i < entries.len() && #[trigger] entries[i].key@ == key
}

/// The place of `key` among `entries`, where it has one.
pub open spec fn place_of(entries: Seq<Entry>, key: Seq<u8>) -> int {
    choose|i: int| 0 <= i < entries.len() && #[trigger] entries[i].key@ == key
}

/// No two of `entries` share a key.
pub open spec fn keys_distinct(entries: Seq<Entry>) -> bool {
    forall|i: int, j: int|
        0 <= i < entries.len() && 0 <= j < entries.len() && #[trigger] entries[i].key@ == #[trigger] entries[j].key@
            ==> i == j
}

/// The records of `entries`, by key.
pub open spec fn records_of(entries: Seq<Entry>) -> Map<Seq<u8>, PrecheckerOperation> {
    Map::new(
        |key: Seq<u8>| holds_key(entries, key),
        |key: Seq<u8>| entries[place_of(entries, key)].operation,
    )
}

/// `records` with the record under `key` given a new state, and new decoded
/// contents where some are given.
pub open spec fn moved(
    records: Map<Seq<u8>, PrecheckerOperation>,
    key: Seq<u8>,
    state: PrecheckerOperationState,
    contents: Option<OperationDecodedContents>,
) -> Map<Seq<u8>, PrecheckerOperation> {
    records.insert(
        key,
        PrecheckerOperation {
            raw_operation: records[key].raw_operation,
            decoded_contents: if contents.is_some() {
                contents
            } else {
                records[key].decoded_contents
            },
            state,
        },
    )
}

/// A record as the end of a protocol resolution leaves it: untouched where
/// it did not wait for the protocol; where it did, ready to decode after a
/// resolution that succeeded, and ended in `Error` after one that failed.
pub open spec fn settled_if_waiting(record: PrecheckerOperation, failure: Option<PrecheckerError>) -> PrecheckerOperation {
    if record.state is PendingProtocolVersion {
        PrecheckerOperation {
            raw_operation: record.raw_operation,
            decoded_contents: record.decoded_contents,
            state: match failure {
                Some(error) => PrecheckerOperationState::Error { error },
                None => PrecheckerOperationState::ProtocolVersionReady,
            },
        }
    } else {
        record
    }
}

/// `records` after the end of a protocol resolution.
pub open spec fn settled_waiting(
    records: Map<Seq<u8>, PrecheckerOperation>,
    failure: Option<PrecheckerError>,
) -> Map<Seq<u8>, PrecheckerOperation> {
    Map::new(|key: Seq<u8>| records.contains_key(key), |key: Seq<u8>| settled_if_waiting(records[key], failure))
}

/// The record is an endorsement of `level` that waits for its rights.
pub open spec fn waits_for_rights(record: PrecheckerOperation, level: Level) -> bool {
    record.state is PendingEndorsingRights && record.decoded_contents.is_some()
        && record.decoded_contents.unwrap().level == level
}

/// `after` is `before` as a delivery of `rights` leaves it: holding rights
/// of that level and with those owners where it waited for them, untouched
/// where not.
pub open spec fn rights_given(before: PrecheckerOperation, after: PrecheckerOperation, rights: EndorsingRights) -> bool {
    if waits_for_rights(before, rights.level) {
        &&& after.raw_operation == before.raw_operation
        &&& after.decoded_contents == before.decoded_contents
        &&& after.state is EndorsingRightsReady
        &&& after.state->EndorsingRightsReady_rights.level == rights.level
        &&& after.state->EndorsingRightsReady_rights.slot_owners@ == rights.slot_owners@
    } else {
        after == before
    }
}

/// A record as a failed fetch of the rights of `level` leaves it: ended in
/// `Error` where it waited for them, untouched where not.
pub open spec fn rights_denied(record: PrecheckerOperation, level: Level, error: PrecheckerError) -> PrecheckerOperation {
    if waits_for_rights(record, level) {
        PrecheckerOperation {
            raw_operation: record.raw_operation,
            decoded_contents: record.decoded_contents,
            state: PrecheckerOperationState::Error { error },
        }
    } else {
        record
    }
}

/// With distinct keys, the record found under an entry's key is that entry's.
pub proof fn lemma_record_at(entries: Seq<Entry>, i: int)
    requires
        keys_distinct(entries),
        0 <= i < entries.len(),
    ensures
        records_of(entries).contains_key(entries[i].key@),
        records_of(entries)[entries[i].key@] == entries[i].operation,
        place_of(entries, entries[i].key@) == i,
{
    let key = entries[i].key@;
    assert(holds_key(entries, key));
    let j = place_of(entries, key);
    assert(0 <= j < entries.len() && entries[j].key@ == key);
}

/// Where records change and every key stays at its place, the keys stay
/// distinct, the same keys are held, and the record under each key is the
/// one at the key's place.
pub proof fn lemma_changed_in_place(before: Seq<Entry>, after: Seq<Entry>)
    requires
        keys_distinct(before),
        after.len() == before.len(),
        forall|j: int| 0 <= j < before.len() ==> #[trigger] after[j].key@ == before[j].key@,
    ensures
        keys_distinct(after),
        records_of(after).dom() == records_of(before).dom(),
        forall|q: Seq<u8>| #[trigger]
            records_of(before).contains_key(q) ==> {
                let j = place_of(before, q);
                &&& 0 <= j < before.len()
                &&& before[j].key@ == q
                &&& records_of(before)[q] == before[j].operation
                &&& records_of(after)[q] == after[j].operation
            },
{
    assert forall|a: int, b: int|
        0 <= a < after.len() && 0 <= b < after.len() && #[trigger] after[a].key@ == #[trigger] after[b].key@
        implies a == b by {
        assert(before[a].key@ == before[b].key@);
    }
    assert forall|q: Seq<u8>| #[trigger] records_of(after).contains_key(q) <==> records_of(before).contains_key(q) by {
        if holds_key(after, q) {
            let j = place_of(after, q);
            assert(before[j].key@ == q);
        }
        if holds_key(before, q) {
            let j = place_of(before, q);
            assert(after[j].key@ == q);
        }
    }
    assert(records_of(after).dom() =~= records_of(before).dom());
    assert forall|q: Seq<u8>| #[trigger] records_of(before).contains_key(q) implies {
        let j = place_of(before, q);
        &&& 0 <= j < before.len()
        &&& before[j].key@ == q
        &&& records_of(before)[q] == before[j].operation
        &&& records_of(after)[q] == after[j].operation
    } by {
        let j = place_of(before, q);
        lemma_record_at(before, j);
        assert(after[j].key@ == q);
        lemma_record_at(after, j);
    }
}

impl View for OperationTable {
    type V = Map<Seq<u8>, PrecheckerOperation>;

    open spec fn view(&self) -> Map<Seq<u8>, PrecheckerOperation> {
        records_of(self.entries@)
    }
}

impl OperationTable {
    /// No key is held twice.
    pub open spec fn wf(&self) -> bool {
        keys_distinct(self.entries@)
    }

    /// The state of the operation under `key`, where the table holds one.
    pub open spec fn state_of(&self, key: Seq<u8>) -> Option<PrecheckerOperationState> {
        if self@.contains_key(key) {
            Some(self@[key].state)
        } else {
            None
        }
    }

    /// A table that holds no entry.
    pub fn new() -> (table: Self)
        ensures
            table.wf(),
            table.entries@.len() == 0,
            table@ == Map::<Seq<u8>, PrecheckerOperation>::empty(),
    {
        let table = OperationTable { entries: Vec::new() };
        assert(table@ =~= Map::<Seq<u8>, PrecheckerOperation>::empty());
        table
    }

    pub fn len(&self) -> (n: usize)
        ensures
            n == self.entries@.len(),
    {
        self.entries.len()
    }

    /// The place of `key` in the table.
    pub fn find(&self, key: &Key) -> (place: Option<usize>)
        requires
            self.wf(),
        ensures
            match place {
                Some(i) => i < self.entries@.len() && self.entries@[i as int].key@ == key@
                    && self@.contains_key(key@) && self@[key@] == self.entries@[i as int].operation,
                None => !self@.contains_key(key@),
            },
    {
        let mut i: usize = 0;
        while i < self.entries.len()
            invariant
                self.wf(),
                i <= self.entries@.len(),
                forall|j: int| 0 <= j < i ==> self.entries@[j].key@ != key@,
            decreases self.entries@.len() - i,
        {
            if self.entries[i].key.same_as(key) {
                proof {
                    lemma_record_at(self.entries@, i as int);
                }
                return Some(i);
            }
            i += 1;
        }
        None
    }

    pub fn contains(&self, key: &Key) -> (held: bool)
        requires
            self.wf(),
        ensures
            held == self@.contains_key(key@),
    {
        self.find(key).is_some()
    }

    /// The record under `key`.
    pub fn get(&self, key: &Key) -> (record: Option<&PrecheckerOperation>)
        requires
            self.wf(),
        ensures
            match record {
                Some(r) => self@.contains_key(key@) && *r == self@[key@],
                None => !self@.contains_key(key@),
            },
    {
        match self.find(key) {
            Some(i) => Some(&self.entries[i].operation),
            None => None,
        }
    }

    /// Adds a record under a key that the table does not hold; a key that it
    /// holds keeps its record.
    pub fn insert_new(&mut self, key: Key, operation: PrecheckerOperation) -> (added: bool)
        requires
            old(self).wf(),
        ensures
            final(self).wf(),
            added == !old(self)@.contains_key(key@),
            added ==> final(self)@ == old(self)@.insert(key@, operation),
            !added ==> final(self)@ == old(self)@,
    {
        if self.contains(&key) {
            return false;
        }
        let ghost before = self.entries@;
        let ghost k = key@;
        self.entries.push(Entry { key, operation });
        proof {
            let after = self.entries@;
            assert(keys_distinct(after)) by {
                assert forall|i: int, j: int|
                    0 <= i < after.len() && 0 <= j < after.len() && #[trigger] after[i].key@ == #[trigger] after[j].key@
                    implies i == j by {
                    if i < before.len() && j < before.len() {
                        assert(before[i].key@ == before[j].key@);
                    } else if i < before.len() {
                        assert(before[i].key@ == k);
                        assert(holds_key(before, k));
                    } else if j < before.len() {
                        assert(before[j].key@ == k);
                        assert(holds_key(before, k));
                    }
                }
            }
            assert forall|q: Seq<u8>| #[trigger] records_of(after).contains_key(q) <==> records_of(before).insert(k, operation).contains_key(q) by {
                if holds_key(after, q) {
                    let i = place_of(after, q);
                    if i < before.len() {
                        assert(before[i].key@ == q);
                    }
                }
                if holds_key(before, q) {
                    let i = place_of(before, q);
                    assert(after[i].key@ == q);
                }
                if q == k {
                    assert(after[before.len() as int].key@ == k);
                }
            }
            assert forall|q: Seq<u8>| #[trigger] records_of(after).contains_key(q) implies records_of(after)[q] == records_of(before).insert(k, operation)[q] by {
                let i = place_of(after, q);
                lemma_record_at(after, i);
                if i < before.len() {
                    assert(before[i].key@ == q);
                    lemma_record_at(before, i);
                }
            }
            assert(records_of(after) =~= records_of(before).insert(k, operation));
        }
        true
    }

    /// Gives the record under `key` a new state, and new decoded contents
    /// where some are given.
    pub fn advance(
        &mut self,
        key: &Key,
        state: PrecheckerOperationState,
        contents: Option<OperationDecodedContents>,
    )
        requires
            old(self).wf(),
            old(self)@.contains_key(key@),
        ensures
            final(self).wf(),
            final(self)@ == moved(old(self)@, key@, state, contents),
    {
        let place = self.find(key);
        let i: usize = place.unwrap();
        let ghost before = self.entries@;
        let held = self.entries.remove(i);
        let decoded = if contents.is_some() {
            contents
        } else {
            held.operation.decoded_contents
        };
        let record = PrecheckerOperation {
            raw_operation: held.operation.raw_operation,
            decoded_contents: decoded,
            state,
        };
        self.entries.insert(i, Entry { key: held.key, operation: record });
        proof {
            let after = self.entries@;
            assert forall|j: int| 0 <= j < after.len() implies #[trigger] after[j].key@ == before[j].key@ by {}
            assert forall|j: int| 0 <= j < after.len() && j != i implies #[trigger] after[j] == before[j] by {}
            lemma_changed_in_place(before, after);
            lemma_record_at(before, i as int);
            let target = records_of(before).insert(key@, record);
            assert forall|q: Seq<u8>| #[trigger] target.contains_key(q) implies records_of(after)[q] == target[q] by {
                assert(records_of(before).contains_key(q));
            }
            assert(records_of(after) =~= target);
        }
    }

    /// Takes the record under `key` out of the table.
    pub fn remove(&mut self, key: &Key) -> (taken: Option<PrecheckerOperation>)
        requires
            old(self).wf(),
        ensures
            final(self).wf(),
            final(self)@ == old(self)@.remove(key@),
            match taken {
                Some(r) => old(self)@.contains_key(key@) && r == old(self)@[key@],
                None => !old(self)@.contains_key(key@),
            },
    {
        match self.find(key) {
            None => {
                assert(self@ =~= old(self)@.remove(key@));
                None
            },
            Some(i) => {
                let ghost before = self.entries@;
                let held = self.entries.remove(i);
                proof {
                    let after = self.entries@;
                    assert forall|j: int| 0 <= j < after.len() implies #[trigger] after[j] == before[if j < i { j } else { j + 1 }] by {}
                    assert(keys_distinct(after)) by {
                        assert forall|a: int, b: int|
                            0 <= a < after.len() && 0 <= b < after.len() && #[trigger] after[a].key@ == #[trigger] after[b].key@
                            implies a == b by {
                            let a2 = if a < i { a } else { a + 1 };
                            let b2 = if b < i { b } else { b + 1 };
                            assert(before[a2].key@ == before[b2].key@);
                        }
                    }
                    let target = records_of(before).remove(key@);
                    assert forall|q: Seq<u8>| #[trigger] records_of(after).contains_key(q) <==> target.contains_key(q) by {
                        if holds_key(after, q) {
                            let j = place_of(after, q);
                            let j2 = if j < i { j } else { j + 1 };
                            assert(before[j2].key@ == q);
                            assert(before[i as int].key@ == key@);
                        }
                        if holds_key(before, q) && q != key@ {
                            let j = place_of(before, q);
                            let j2 = if j < i { j } else { j - 1 };
                            assert(after[j2].key@ == q);
                        }
                    }
                    assert forall|q: Seq<u8>| #[trigger] records_of(after).contains_key(q) implies records_of(after)[q] == target[q] by {
                        let j = place_of(after, q);
                        lemma_record_at(after, j);
                        let j2 = if j < i { j } else { j + 1 };
                        assert(before[j2].key@ == q);
                        lemma_record_at(before, j2);
                    }
                    assert(records_of(after) =~= target);
                }
                Some(held.operation)
            },
        }
    }

    /// Moves every record that waits for the protocol: on to decoding where
    /// there is no failure, into `Error` where there is one.
    pub fn settle_waiting(&mut self, failure: Option<PrecheckerError>)
        requires
            old(self).wf(),
        ensures
            final(self).wf(),
            final(self)@ == settled_waiting(old(self)@, failure),
    {
        let ghost before = self.entries@;
        let n: usize = self.entries.len();
        let mut i: usize = 0;
        while i < n
            invariant
                i <= n,
                n == before.len(),
                self.entries@.len() == n,
                forall|j: int| 0 <= j < n ==> #[trigger] self.entries@[j].key == before[j].key,
                forall|j: int| 0 <= j < i ==> #[trigger] self.entries@[j].operation == settled_if_waiting(before[j].operation, failure),
                forall|j: int| i <= j < n ==> #[trigger] self.entries@[j] == before[j],
            decreases n - i,
        {
            let waiting = match &self.entries[i].operation.state {
                PrecheckerOperationState::PendingProtocolVersion => true,
                _ => false,
            };
            if waiting {
                let ghost mid = self.entries@;
                let held = self.entries.remove(i);
                let record = PrecheckerOperation {
                    raw_operation: held.operation.raw_operation,
                    decoded_contents: held.operation.decoded_contents,
                    state: match failure {
                        Some(error) => PrecheckerOperationState::Error { error },
                        None => PrecheckerOperationState::ProtocolVersionReady,
                    },
                };
                self.entries.insert(i, Entry { key: held.key, operation: record });
                proof {
                    let now = self.entries@;
                    assert forall|j: int| 0 <= j < n && j != i implies #[trigger] now[j] == mid[j] by {}
                    assert(now[i as int].key == mid[i as int].key);
                }
            }
            i += 1;
        }
        proof {
            let after = self.entries@;
            lemma_changed_in_place(before, after);
            let target = settled_waiting(records_of(before), failure);
            assert forall|q: Seq<u8>| #[trigger] target.contains_key(q) implies records_of(after)[q] == target[q] by {
                assert(records_of(before).contains_key(q));
            }
            assert(records_of(after) =~= target);
        }
    }

    /// Whether the record at place `i` waits for the rights of `level`.
    fn waits_at(&self, i: usize, level: Level) -> (yes: bool)
        requires
            i < self.entries@.len(),
        ensures
            yes == waits_for_rights(self.entries@[i as int].operation, level),
    {
        let record = &self.entries[i].operation;
        let parked = match &record.state {
            PrecheckerOperationState::PendingEndorsingRights => true,
            _ => false,
        };
        match &record.decoded_contents {
            Some(contents) => parked && contents.level == level,
            None => false,
        }
    }

    /// Gives a copy of `rights` to every record that waits for the rights of
    /// their level.
    pub fn give_rights(&mut self, rights: &EndorsingRights)
        requires
            old(self).wf(),
        ensures
            final(self).wf(),
            final(self)@.dom() == old(self)@.dom(),
            forall|key: Seq<u8>| #[trigger]
                old(self)@.contains_key(key) ==> rights_given(old(self)@[key], final(self)@[key], *rights),
    {
        let ghost before = self.entries@;
        let n: usize = self.entries.len();
        let mut i: usize = 0;
        while i < n
            invariant
                i <= n,
                n == before.len(),
                self.entries@.len() == n,
                forall|j: int| 0 <= j < n ==> #[trigger] self.entries@[j].key == before[j].key,
                forall|j: int| 0 <= j < i ==> rights_given(before[j].operation, #[trigger] self.entries@[j].operation, *rights),
                forall|j: int| i <= j < n ==> #[trigger] self.entries@[j] == before[j],
            decreases n - i,
        {
            if self.waits_at(i, rights.level) {
                let ghost mid = self.entries@;
                let held = self.entries.remove(i);
                let record = PrecheckerOperation {
                    raw_operation: held.operation.raw_operation,
                    decoded_contents: held.operation.decoded_contents,
                    state: PrecheckerOperationState::EndorsingRightsReady { rights: rights.copy() },
                };
                self.entries.insert(i, Entry { key: held.key, operation: record });
                proof {
                    let now = self.entries@;
                    assert forall|j: int| 0 <= j < n && j != i implies #[trigger] now[j] == mid[j] by {}
                    assert(now[i as int].key == mid[i as int].key);
                }
            }
            i += 1;
        }
        proof {
            let after = self.entries@;
            lemma_changed_in_place(before, after);
            assert forall|q: Seq<u8>| #[trigger] records_of(before).contains_key(q) implies rights_given(
                records_of(before)[q],
                records_of(after)[q],
                *rights,
            ) by {
                let j = place_of(before, q);
                assert(rights_given(before[j].operation, after[j].operation, *rights));
            }
        }
    }

    /// Ends in `Error` every record that waits for the rights of `level`.
    pub fn deny_rights(&mut self, level: Level, error: PrecheckerError)
        requires
            old(self).wf(),
        ensures
            final(self).wf(),
            final(self)@ == old(self)@.map_values(|record: PrecheckerOperation| rights_denied(record, level, error)),
    {
        let ghost before = self.entries@;
        let n: usize = self.entries.len();
        let mut i: usize = 0;
        while i < n
            invariant
                i <= n,
                n == before.len(),
                self.entries@.len() == n,
                forall|j: int| 0 <= j < n ==> #[trigger] self.entries@[j].key == before[j].key,
                forall|j: int| 0 <= j < i ==> #[trigger] self.entries@[j].operation == rights_denied(before[j].operation, level, error),
                forall|j: int| i <= j < n ==> #[trigger] self.entries@[j] == before[j],
            decreases n - i,
        {
            if self.waits_at(i, level) {
                let ghost mid = self.entries@;
                let held = self.entries.remove(i);
                let record = PrecheckerOperation {
                    raw_operation: held.operation.raw_operation,
                    decoded_contents: held.operation.decoded_contents,
                    state: PrecheckerOperationState::Error { error },
                };
                self.entries.insert(i, Entry { key: held.key, operation: record });
                proof {
                    let now = self.entries@;
                    assert forall|j: int| 0 <= j < n && j != i implies #[trigger] now[j] == mid[j] by {}
                    assert(now[i as int].key == mid[i as int].key);
                }
            }
            i += 1;
        }
        proof {
            let after = self.entries@;
            lemma_changed_in_place(before, after);
            let target = records_of(before).map_values(
                |record: PrecheckerOperation| rights_denied(record, level, error),
            );
            assert forall|q: Seq<u8>| #[trigger] target.contains_key(q) implies records_of(after)[q] == target[q] by {
                assert(records_of(before).contains_key(q));
            }
            assert(records_of(after) =~= target);
        }
    }
}

} // verus!
