//! The record store: one record per storage key.

use vstd::prelude::*;
use crate::domain::{Domain, DomainView};
use crate::error::Error;
use crate::key::{derive_key, spec_derive_key};

verus! {

/// A stored record: the storage set aside for it, and what it holds.
#[derive(Debug, PartialEq, Eq)]
pub struct Record {
    /// Bytes of storage allocated when the record was created.
    pub space: usize,
    pub domain: Domain,
}

/// What a `Record` holds, as plain values.
pub struct RecordView {
    pub space: nat,
    pub domain: DomainView,
}

impl View for Record {
    type V = RecordView;

    open spec fn view(&self) -> RecordView {
        RecordView { space: self.space as nat, domain: self.domain@ }
    }
}

impl Clone for Record {
    fn clone(&self) -> (copy: Record)
        ensures
            copy@ == self@,
    {
        Record { space: self.space, domain: self.domain.clone() }
    }
}

impl RecordView {
    /// This record with its type set to `dom_type` and all else as it was.
    pub open spec fn with_type(self, dom_type: u8) -> RecordView {
        RecordView { domain: DomainView { dom_type, ..self.domain }, ..self }
    }
}

/// A storage location in use: a key and the record kept there.
#[derive(Debug, PartialEq, Eq)]
struct Slot {
    key: Vec<u8>,
    record: Record,
}

/// Whether no two of these slots have the same key.
spec fn distinct_keys(slots: Seq<Slot>) -> bool {
    forall|i: int, j: int|
        0 <= i < slots.len() && 0 <= j < slots.len() && i != j ==> (#[trigger] slots[i]).key@ != (
        #[trigger] slots[j]).key@
}

/// The map from key to record that these slots make up. Where a key occurs
/// twice, the later slot counts.
spec fn contents(slots: Seq<Slot>) -> Map<Seq<u8>, RecordView>
    decreases slots.len(),
{
    if slots.len() == 0 {
        Map::empty()
    } else {
        contents(slots.drop_last()).insert(slots.last().key@, slots.last().record@)
    }
}

/// Leaving out the last slot keeps the keys distinct.
proof fn lemma_distinct_front(slots: Seq<Slot>)
    requires
        distinct_keys(slots),
        slots.len() > 0,
    ensures
        distinct_keys(slots.drop_last()),
{
    let front = slots.drop_last();
    assert forall|a: int, b: int| 0 <= a < front.len() && 0 <= b < front.len() && a != b implies (
    #[trigger] front[a]).key@ != (#[trigger] front[b]).key@ by {
        assert(slots[a].key@ != slots[b].key@);
    }
}

/// Slots that agree key by key and record by record make up the same map.
proof fn lemma_contents_same(a: Seq<Slot>, b: Seq<Slot>)
    requires
        a.len() == b.len(),
        forall|j: int|
            0 <= j < a.len() ==> (#[trigger] a[j]).key@ == b[j].key@ && a[j].record@
                == b[j].record@,
    ensures
        contents(a) == contents(b),
        distinct_keys(b) ==> distinct_keys(a),
    decreases a.len(),
{
    if a.len() > 0 {
        lemma_contents_same(a.drop_last(), b.drop_last());
        assert(a[a.len() - 1].key@ == b[a.len() - 1].key@);
    }
    if distinct_keys(b) {
        assert forall|i: int, j: int| 0 <= i < a.len() && 0 <= j < a.len() && i != j implies (
        #[trigger] a[i]).key@ != (#[trigger] a[j]).key@ by {
            assert(b[i].key@ != b[j].key@);
        }
    }
}

/// A key is in use exactly when some slot has it.
proof fn lemma_contents_dom(slots: Seq<Slot>, key: Seq<u8>)
    ensures
        contents(slots).contains_key(key) <==> exists|i: int|
            0 <= i < slots.len() && (#[trigger] slots[i]).key@ == key,
    decreases slots.len(),
{
    if slots.len() > 0 {
        let front = slots.drop_last();
        lemma_contents_dom(front, key);
        if contents(slots).contains_key(key) {
            if slots.last().key@ == key {
                assert(slots[slots.len() - 1].key@ == key);
            } else {
                let i = choose|i: int| 0 <= i < front.len() && (#[trigger] front[i]).key@ == key;
                assert(slots[i].key@ == key);
            }
        }
        if exists|i: int| 0 <= i < slots.len() && (#[trigger] slots[i]).key@ == key {
            let i = choose|i: int| 0 <= i < slots.len() && (#[trigger] slots[i]).key@ == key;
            if i < slots.len() - 1 {
                assert(front[i].key@ == key);
            }
        }
    }
}

/// A slot with a key that is not in use can join, and the keys stay distinct.
proof fn lemma_distinct_push(slots: Seq<Slot>, slot: Slot)
    requires
        distinct_keys(slots),
        !contents(slots).contains_key(slot.key@),
    ensures
        distinct_keys(slots.push(slot)),
        contents(slots.push(slot)) == contents(slots).insert(slot.key@, slot.record@),
{
    let after = slots.push(slot);
    lemma_contents_dom(slots, slot.key@);
    assert(after.drop_last() =~= slots);
    assert forall|a: int, b: int| 0 <= a < after.len() && 0 <= b < after.len() && a != b implies (
    #[trigger] after[a]).key@ != (#[trigger] after[b]).key@ by {
        if a < slots.len() && b < slots.len() {
            assert(slots[a].key@ != slots[b].key@);
        } else if a < slots.len() {
            assert(slots[a].key@ != slot.key@);
        } else {
            assert(slots[b].key@ != slot.key@);
        }
    }
}

/// With distinct keys, each slot's key leads to that slot's record.
proof fn lemma_contents_at(slots: Seq<Slot>, i: int)
    requires
        distinct_keys(slots),
        0 <= i < slots.len(),
    ensures
        contents(slots).contains_key(slots[i].key@),
        contents(slots)[slots[i].key@] == slots[i].record@,
    decreases slots.len(),
{
    let front = slots.drop_last();
    if i < slots.len() - 1 {
        lemma_distinct_front(slots);
        lemma_contents_at(front, i);
        assert(front[i] == slots[i]);
        assert(slots[i].key@ != slots[slots.len() - 1].key@);
    }
}

/// With distinct keys, putting another record into slot `i` changes the
/// entry at that slot's key and nothing else.
proof fn lemma_contents_replace(slots: Seq<Slot>, i: int, slot: Slot)
    requires
        distinct_keys(slots),
        0 <= i < slots.len(),
        slot.key@ == slots[i].key@,
    ensures
        distinct_keys(slots.update(i, slot)),
        contents(slots.update(i, slot)) == contents(slots).insert(slot.key@, slot.record@),
    decreases slots.len(),
{
    let after = slots.update(i, slot);
    assert(distinct_keys(after)) by {
        assert forall|a: int, b: int|
            0 <= a < after.len() && 0 <= b < after.len() && a != b implies (
        #[trigger] after[a]).key@ != (#[trigger] after[b]).key@ by {
            assert(slots[a].key@ != slots[b].key@);
        }
    }
    let front = slots.drop_last();
    if i == slots.len() - 1 {
        assert(after.drop_last() =~= front);
        assert(contents(after) =~= contents(slots).insert(slot.key@, slot.record@));
    } else {
        lemma_distinct_front(slots);
        lemma_contents_replace(front, i, slot);
        assert(after.drop_last() =~= front.update(i, slot));
        assert(after.last() == slots.last());
        assert(slots[i].key@ != slots[slots.len() - 1].key@);
        assert(contents(after) =~= contents(slots).insert(slot.key@, slot.record@));
    }
}

/// Maps storage keys to records. A key holds at most one record, and a
/// record, once created, stays under its key.
///
/// Records are found by comparing keys one by one, in the order of creation.
/// Two stores compare equal if they hold the same records, created in the
/// same order.
#[derive(Debug, PartialEq, Eq)]
pub struct RecordStore {
    slots: Vec<Slot>,
}

impl View for RecordStore {
    type V = Map<Seq<u8>, RecordView>;

    closed spec fn view(&self) -> Map<Seq<u8>, RecordView> {
        contents(self.slots@)
    }
}

impl Clone for RecordStore {
    /// A second store with the same records under the same keys.
    fn clone(&self) -> (copy: RecordStore)
        ensures
            copy@ == self@,
    {
        proof {
            use_type_invariant(self);
        }
        let mut slots: Vec<Slot> = Vec::new();
        let mut i: usize = 0;
        while i < self.slots.len()
            invariant
                i <= self.slots@.len(),
                slots@.len() == i,
                forall|j: int|
                    0 <= j < i ==> (#[trigger] slots@[j]).key@ == self.slots@[j].key@
                        && slots@[j].record@ == self.slots@[j].record@,
            decreases self.slots@.len() - i,
        {
            let slot = &self.slots[i];
            slots.push(Slot { key: slot.key.clone(), record: slot.record.clone() });
            i += 1;
        }
        proof {
            lemma_contents_same(slots@, self.slots@);
        }
        RecordStore { slots }
    }
}

/// Whether two byte strings are the same.
fn same_bytes(a: &[u8], b: &[u8]) -> (same: bool)
    ensures
        same == (a@ == b@),
{
    if a.len() != b.len() {
        return false;
    }
    let mut i: usize = 0;
    while i < a.len()
        invariant
            a@.len() == b@.len(),
            i <= a@.len(),
            forall|j: int| 0 <= j < i ==> a@[j] == b@[j],
        decreases a@.len() - i,
    {
        if a[i] != b[i] {
            return false;
        }
        i += 1;
    }
    assert(a@ =~= b@);
    true
}

impl RecordStore {
    #[verifier::type_invariant]
    spec fn keys_are_distinct(self) -> bool {
        distinct_keys(self.slots@)
    }

    /// A store that holds no record.
    pub fn new() -> (store: RecordStore)
        ensures
            store@ == Map::<Seq<u8>, RecordView>::empty(),
    {
        RecordStore { slots: Vec::new() }
    }

    /// The slot that has `key`, if any.
    fn find(&self, key: &[u8]) -> (found: Option<usize>)
        ensures
            match found {
                Some(i) => i < self.slots@.len() && self.slots@[i as int].key@ == key@,
                None => forall|i: int|
                    0 <= i < self.slots@.len() ==> (#[trigger] self.slots@[i]).key@ != key@,
            },
    {
        let mut i: usize = 0;
        while i < self.slots.len()
            invariant
                i <= self.slots@.len(),
                forall|j: int| 0 <= j < i ==> (#[trigger] self.slots@[j]).key@ != key@,
            decreases self.slots@.len() - i,
        {
            if same_bytes(self.slots[i].key.as_slice(), key) {
                return Some(i);
            }
            i += 1;
        }
        None
    }

    /// Looks up the record kept at `key`.
    pub fn get(&self, key: &[u8]) -> (found: Option<&Record>)
        ensures
            match found {
                Some(record) => self@.contains_key(key@) && record@ == self@[key@],
                None => !self@.contains_key(key@),
            },
    {
        proof {
            use_type_invariant(self);
            lemma_contents_dom(self.slots@, key@);
        }
        match self.find(key) {
            Some(i) => {
                proof {
                    lemma_contents_at(self.slots@, i as int);
                }
                Some(&self.slots[i].record)
            },
            None => None,
        }
    }

    /// Creates the record of `id`: derives its key, and stores `domain` there
    /// in storage that fits it exactly. Refused if the key is in use.
    pub fn create(&mut self, id: u64, domain: Domain) -> (res: Result<(), Error>)
        requires
            domain@.size() <= usize::MAX,
        ensures
            ({
                let key = spec_derive_key(id);
                let record = RecordView { space: domain@.size(), domain: domain@ };
                match res {
                    Ok(()) => !old(self)@.contains_key(key) && final(self)@ == old(self)@.insert(
                        key,
                        record,
                    ),
                    Err(e) => e == Error::DuplicateRecord && old(self)@.contains_key(key)
                        && final(self)@ == old(self)@,
                }
            }),
    {
        proof {
            use_type_invariant(&*self);
        }
        let key = derive_key(id);
        proof {
            lemma_contents_dom(self.slots@, key@);
        }
        if self.find(key.as_slice()).is_some() {
            return Err(Error::DuplicateRecord);
        }
        let space = Domain::calculate_size(domain.name_len());
        let slot = Slot { key, record: Record { space, domain } };
        proof {
            lemma_distinct_push(self.slots@, slot);
        }
        // The slots leave the store while they change, and come back with
        // their keys distinct again.
        let mut slots: Vec<Slot> = Vec::new();
        core::mem::swap(&mut self.slots, &mut slots);
        slots.push(slot);
        self.slots = slots;
        Ok(())
    }

    /// Sets the type of the record of `id` and leaves the rest of it as it
    /// is. Refused if `id` has no record.
    pub fn update(&mut self, id: u64, dom_type: u8) -> (res: Result<(), Error>)
        ensures
            ({
                let key = spec_derive_key(id);
                match res {
                    Ok(()) => old(self)@.contains_key(key) && final(self)@ == old(self)@.insert(
                        key,
                        old(self)@[key].with_type(dom_type),
                    ),
                    Err(e) => e == Error::RecordNotFound && !old(self)@.contains_key(key)
                        && final(self)@ == old(self)@,
                }
            }),
    {
        proof {
            use_type_invariant(&*self);
        }
        let key = derive_key(id);
        proof {
            lemma_contents_dom(self.slots@, key@);
        }
        match self.find(key.as_slice()) {
            None => Err(Error::RecordNotFound),
            Some(i) => {
                let ghost before = self.slots@;
                let mut slots: Vec<Slot> = Vec::new();
                core::mem::swap(&mut self.slots, &mut slots);
                slots[i].record.domain.dom_type = dom_type;
                proof {
                    lemma_contents_at(before, i as int);
                    lemma_contents_replace(before, i as int, slots@[i as int]);
                    assert(slots@ =~= before.update(i as int, slots@[i as int]));
                }
                self.slots = slots;
                Ok(())
            },
        }
    }

    /// Whether a record is kept at `key`.
    pub fn contains(&self, key: &[u8]) -> (found: bool)
        ensures
            found == self@.contains_key(key@),
    {
        self.get(key).is_some()
    }
}

} // verus!
