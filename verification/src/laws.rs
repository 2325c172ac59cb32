//! What holds of the ledger whatever is done with it.

use vstd::prelude::*;
use crate::domain::{DomainView, Pubkey};
use crate::error::Error;
use crate::event::EventView;
use crate::key::{lemma_derive_key_injective, spec_derive_key};
use crate::model::{Op, State};

verus! {

/// The empty ledger is consistent.
pub proof fn law_empty_is_consistent()
    ensures
        State::empty().consistent(),
{
}

/// Every operation leaves a consistent ledger consistent, whether it takes
/// place or is refused. A creation that takes place must find the counter
/// below `u64::MAX`, so that the counter can move on.
pub proof fn law_operations_keep_consistent(s: State, op: Op)
    requires
        s.consistent(),
        s.assigned(op) is Some ==> s.counter.id < u64::MAX,
    ensures
        s.step(op).consistent(),
{
    let after = s.step(op);
    assert forall|key: Seq<u8>| after.records.contains_key(key) <==> after.allocated(key) by {
        assert(s.records.contains_key(key) <==> s.allocated(key));
        if let Some(id) = s.assigned(op) {
            if after.records.contains_key(key) {
                if key == spec_derive_key(id) {
                    assert(id < after.counter.id && spec_derive_key(id) == key);
                } else {
                    let earlier = choose|earlier: u64|
                        earlier < s.counter.id && #[trigger] spec_derive_key(earlier) == key;
                    assert(earlier < after.counter.id && spec_derive_key(earlier) == key);
                }
            }
            if after.allocated(key) {
                let found = choose|found: u64|
                    found < after.counter.id && #[trigger] spec_derive_key(found) == key;
                if found != id {
                    assert(found < s.counter.id && spec_derive_key(found) == key);
                }
            }
        }
    }
}

/// Once `initialize` has been called, calling it again is refused with
/// `AlreadyInitialized` and changes nothing, the next id included. This holds
/// whether or not the first call was itself refused.
pub proof fn law_initialize_only_once(s: State, first: u8, second: u8)
    ensures
        s.step(Op::Initialize { bump: first }).initialize(second) == Err::<State, Error>(
            Error::AlreadyInitialized,
        ),
        s.step(Op::Initialize { bump: first }).step(Op::Initialize { bump: second }) == s.step(
            Op::Initialize { bump: first },
        ),
{
}

/// In a consistent ledger the key of the next id is free: a creation is
/// refused only for want of `initialize`, never with `DuplicateRecord`.
pub proof fn law_create_never_collides(s: State, owner: Pubkey, domain_type: u8, name: Seq<char>)
    requires
        s.consistent(),
    ensures
        s.create_domain(owner, domain_type, name) is Ok <==> s.counter.initialized,
        s.create_domain(owner, domain_type, name) is Err ==> s.create_domain(
            owner,
            domain_type,
            name,
        ) == Err::<(State, u64), Error>(Error::NotInitialized),
{
    let key = spec_derive_key(s.counter.id);
    assert(s.records.contains_key(key) <==> s.allocated(key));
    if s.allocated(key) {
        let earlier = choose|earlier: u64|
            earlier < s.counter.id && #[trigger] spec_derive_key(earlier) == key;
        lemma_derive_key_injective(earlier, s.counter.id);
    }
}

/// An update of an id that has no record is refused with `RecordNotFound`
/// and leaves the whole ledger as it was.
pub proof fn law_update_of_missing_record(s: State, id: u64, domain_type: u8)
    requires
        s.record_of(id) is None,
    ensures
        s.update_domain(id, domain_type) == Err::<State, Error>(Error::RecordNotFound),
        s.step(Op::UpdateDomain { id, domain_type }) == s,
{
}

/// In a consistent ledger an update takes place exactly for the ids that a
/// creation has handed out before.
pub proof fn law_update_follows_creation(s: State, id: u64, domain_type: u8)
    requires
        s.consistent(),
    ensures
        s.update_domain(id, domain_type) is Ok <==> id < s.counter.id,
{
    let key = spec_derive_key(id);
    assert(s.records.contains_key(key) <==> s.allocated(key));
    if s.allocated(key) {
        let earlier = choose|earlier: u64|
            earlier < s.counter.id && #[trigger] spec_derive_key(earlier) == key;
        lemma_derive_key_injective(earlier, id);
    }
}

/// A creation fills a key that was free and leaves every other record as it
/// was; an update changes the type of one record and nothing else in it, and
/// leaves the counter alone.
pub proof fn law_mutations_touch_one_record(s: State, op: Op, other: u64)
    ensures
        match op {
            Op::CreateDomain { owner, domain_type, name } => s.assigned(op) matches Some(id) ==> {
                &&& s.record_of(id) is None
                &&& s.step(op).record_of(id) matches Some(r) && r.domain == (DomainView {
                    owner,
                    name,
                    dom_type: domain_type,
                }) && r.space == r.domain.size()
                &&& other != id ==> s.step(op).record_of(other) == s.record_of(other)
            },
            Op::UpdateDomain { id, domain_type } => s.accepts(op) ==> {
                &&& s.step(op).counter == s.counter
                &&& s.record_of(id) matches Some(before) && s.step(op).record_of(id) == Some(
                    before.with_type(domain_type),
                )
                &&& other != id ==> s.step(op).record_of(other) == s.record_of(other)
            },
            Op::Initialize { bump } => s.step(op).records == s.records,
        },
{
    match op {
        Op::CreateDomain { owner, domain_type, name } => {
            if let Some(id) = s.assigned(op) {
                lemma_derive_key_injective(id, other);
            }
        },
        Op::UpdateDomain { id, domain_type } => {
            lemma_derive_key_injective(id, other);
        },
        Op::Initialize { bump } => {},
    }
}

/// No operation removes a record or changes its owner, its name or the
/// storage it was given at creation.
pub proof fn law_step_keeps_records(s: State, op: Op, id: u64)
    ensures
        s.record_of(id) matches Some(before) ==> s.step(op).record_of(id) matches Some(after)
            && after.domain.owner == before.domain.owner && after.domain.name
            == before.domain.name && after.space == before.space,
{
    match op {
        Op::CreateDomain { owner, domain_type, name } => {
            if let Some(created) = s.assigned(op) {
                lemma_derive_key_injective(created, id);
            }
        },
        Op::UpdateDomain { id: updated, domain_type } => {
            lemma_derive_key_injective(updated, id);
        },
        Op::Initialize { bump } => {},
    }
}

/// A record, once created, is there for good: after any run of operations it
/// still has its owner, its name and the storage it was given at creation.
/// Only its type may have changed.
pub proof fn law_records_are_permanent(s: State, ops: Seq<Op>, id: u64)
    ensures
        s.record_of(id) matches Some(before) ==> s.run(ops).record_of(id) matches Some(after)
            && after.domain.owner == before.domain.owner && after.domain.name
            == before.domain.name && after.space == before.space,
    decreases ops.len(),
{
    if ops.len() > 0 {
        law_step_keeps_records(s, ops.first(), id);
        law_records_are_permanent(s.step(ops.first()), ops.drop_first(), id);
    }
}

/// Every successful creation emits exactly one `DomainCreated`, and every
/// successful update exactly one `DomainUpdated`; the event tells what the
/// record holds afterwards. A refused operation emits nothing, and neither
/// does `initialize`.
pub proof fn law_one_event_per_mutation(s: State, op: Op)
    ensures
        !s.accepts(op) ==> s.step(op) == s,
        match op {
            Op::CreateDomain { owner, domain_type, name } => s.assigned(op) matches Some(id) ==> {
                &&& s.step(op).events == s.events.push(
                    EventView::DomainCreated { id, owner, name, dom_type: domain_type },
                )
                &&& s.step(op).record_of(id) matches Some(r) && r.domain == (DomainView {
                    owner,
                    name,
                    dom_type: domain_type,
                })
            },
            Op::UpdateDomain { id, domain_type } => s.accepts(op) ==> {
                &&& s.step(op).events == s.events.push(
                    EventView::DomainUpdated { id, dom_type: domain_type },
                )
                &&& s.step(op).record_of(id) matches Some(r) && r.domain.dom_type == domain_type
            },
            Op::Initialize { bump } => s.step(op).events == s.events,
        },
{
}

/// Starting from a consistent ledger, the successful creations in any run of
/// operations are given the ids `next`, `next + 1`, `next + 2`, ... in
/// order, where `next` is the counter at the start; the counter ends that
/// many ids further, and the ledger ends consistent. The run may hold any
/// operations in any order, refused ones too. It must not ask the counter
/// for more ids than a `u64` can count.
pub proof fn law_ids_are_consecutive(s: State, ops: Seq<Op>)
    requires
        s.consistent(),
        s.counter.id + s.assigned_ids(ops).len() <= u64::MAX,
    ensures
        forall|k: int|
            0 <= k < s.assigned_ids(ops).len() ==> #[trigger] s.assigned_ids(ops)[k]
                == s.counter.id + k,
        s.run(ops).counter.id == s.counter.id + s.assigned_ids(ops).len(),
        s.run(ops).consistent(),
    decreases ops.len(),
{
    if ops.len() > 0 {
        let op = ops.first();
        let next = s.step(op);
        let rest = ops.drop_first();
        if s.assigned(op) is Some {
            assert(s.assigned_ids(ops).len() == 1 + next.assigned_ids(rest).len());
        }
        law_operations_keep_consistent(s, op);
        law_ids_are_consecutive(next, rest);
        assert forall|k: int| 0 <= k < s.assigned_ids(ops).len() implies #[trigger] s.assigned_ids(
            ops,
        )[k] == s.counter.id + k by {
            if s.assigned(op) is Some && k > 0 {
                assert(s.assigned_ids(ops)[k] == next.assigned_ids(rest)[k - 1]);
            }
        }
    }
}

/// On a ledger that started empty, the ids given to successful creations are
/// 0, 1, 2, ...: strictly increasing, without gap or repeat, whatever else is
/// asked of the ledger in between.
pub proof fn law_ids_count_up_from_zero(ops: Seq<Op>)
    requires
        State::empty().assigned_ids(ops).len() <= u64::MAX,
    ensures
        forall|k: int|
            0 <= k < State::empty().assigned_ids(ops).len() ==> #[trigger] State::empty().assigned_ids(
                ops,
            )[k] == k,
{
    law_empty_is_consistent();
    law_ids_are_consecutive(State::empty(), ops);
}

/// No two creations are ever given the same id or the same storage key,
/// however the requests of different parties are interleaved: `ops` is any
/// such interleaving, and each operation in it is one atomic step.
pub proof fn law_ids_never_repeat(s: State, ops: Seq<Op>, i: int, j: int)
    requires
        s.consistent(),
        s.counter.id + s.assigned_ids(ops).len() <= u64::MAX,
        0 <= i < j < s.assigned_ids(ops).len(),
    ensures
        s.assigned_ids(ops)[i] < s.assigned_ids(ops)[j],
        spec_derive_key(s.assigned_ids(ops)[i]) != spec_derive_key(s.assigned_ids(ops)[j]),
{
    law_ids_are_consecutive(s, ops);
    lemma_derive_key_injective(s.assigned_ids(ops)[i], s.assigned_ids(ops)[j]);
}

} // verus!
