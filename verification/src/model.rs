//! The ledger as a mathematical state, and what each operation does to it.
//!
//! The contracts of the executable operations are stated against these
//! transitions, and so are the laws of the ledger.

use vstd::prelude::*;
use crate::counter::ProgramInfo;
use crate::domain::{DomainView, Pubkey};
use crate::error::Error;
use crate::event::EventView;
use crate::key::spec_derive_key;
use crate::records::RecordView;

verus! {

/// A request to the ledger.
pub enum Op {
    Initialize { bump: u8 },
    CreateDomain { owner: Pubkey, domain_type: u8, name: Seq<char> },
    UpdateDomain { id: u64, domain_type: u8 },
}

/// The whole ledger: the counter, the records by storage key, and the events
/// emitted so far, oldest first.
#[verifier::ext_equal]
pub struct State {
    pub counter: ProgramInfo,
    pub records: Map<Seq<u8>, RecordView>,
    pub events: Seq<EventView>,
}

impl State {
    /// The ledger before anything happened.
    pub open spec fn empty() -> State {
        State { counter: ProgramInfo::blank(), records: Map::empty(), events: Seq::empty() }
    }

    /// The record of `id`, if there is one.
    pub open spec fn record_of(self, id: u64) -> Option<RecordView> {
        if self.records.contains_key(spec_derive_key(id)) {
            Some(self.records[spec_derive_key(id)])
        } else {
            None
        }
    }

    /// Whether `key` is the key of an id that the counter has handed out.
    pub open spec fn allocated(self, key: Seq<u8>) -> bool {
        exists|id: u64| id < self.counter.id && #[trigger] spec_derive_key(id) == key
    }

    /// What every ledger that started empty satisfies: the keys in use are
    /// exactly those of the ids handed out so far, every record sits in
    /// storage that fits it exactly, and a counter that was never initialized
    /// has handed out nothing.
    pub open spec fn consistent(self) -> bool {
        &&& forall|key: Seq<u8>| self.records.contains_key(key) <==> #[trigger] self.allocated(key)
        &&& forall|key: Seq<u8>| #[trigger]
            self.records.contains_key(key) ==> self.records[key].space
                == self.records[key].domain.size()
        &&& !self.counter.initialized ==> self.counter.id == 0
    }

    /// `initialize`: refused once the counter is initialized; otherwise the
    /// counter starts at 0, initialized, with the given bump.
    pub open spec fn initialize(self, bump: u8) -> Result<State, Error> {
        if self.counter.initialized {
            Err(Error::AlreadyInitialized)
        } else {
            Ok(State { counter: ProgramInfo { id: 0, initialized: true, bump }, ..self })
        }
    }

    /// `create_domain`: the new record gets the counter's current id and is
    /// stored at the key derived from it, in storage that fits it exactly;
    /// the counter moves on by one and one `DomainCreated` is emitted. The
    /// result holds the state afterwards and the id that was assigned.
    pub open spec fn create_domain(self, owner: Pubkey, domain_type: u8, name: Seq<char>) -> Result<
        (State, u64),
        Error,
    > {
        let id = self.counter.id;
        let key = spec_derive_key(id);
        let domain = DomainView { owner, name, dom_type: domain_type };
        if !self.counter.initialized {
            Err(Error::NotInitialized)
        } else if self.records.contains_key(key) {
            Err(Error::DuplicateRecord)
        } else {
            Ok(
                (
                    State {
                        counter: self.counter.incremented(),
                        records: self.records.insert(
                            key,
                            RecordView { space: domain.size(), domain },
                        ),
                        events: self.events.push(
                            EventView::DomainCreated { id, owner, name, dom_type: domain_type },
                        ),
                    },
                    id,
                ),
            )
        }
    }

    /// `update_domain`: the record of `id` gets the new type and keeps its
    /// owner, name and storage; one `DomainUpdated` is emitted. No check is
    /// made of who asks.
    pub open spec fn update_domain(self, id: u64, domain_type: u8) -> Result<State, Error> {
        let key = spec_derive_key(id);
        if !self.records.contains_key(key) {
            Err(Error::RecordNotFound)
        } else {
            Ok(
                State {
                    records: self.records.insert(key, self.records[key].with_type(domain_type)),
                    events: self.events.push(
                        EventView::DomainUpdated { id, dom_type: domain_type },
                    ),
                    ..self
                },
            )
        }
    }

    /// Whether `op` takes place: whether it is not refused.
    pub open spec fn accepts(self, op: Op) -> bool {
        match op {
            Op::Initialize { bump } => self.initialize(bump) is Ok,
            Op::CreateDomain { owner, domain_type, name } => self.create_domain(
                owner,
                domain_type,
                name,
            ) is Ok,
            Op::UpdateDomain { id, domain_type } => self.update_domain(id, domain_type) is Ok,
        }
    }

    /// The ledger after `op`. A refused operation leaves it as it was.
    pub open spec fn step(self, op: Op) -> State {
        match op {
            Op::Initialize { bump } => match self.initialize(bump) {
                Ok(after) => after,
                Err(_) => self,
            },
            Op::CreateDomain { owner, domain_type, name } => match self.create_domain(
                owner,
                domain_type,
                name,
            ) {
                Ok((after, _)) => after,
                Err(_) => self,
            },
            Op::UpdateDomain { id, domain_type } => match self.update_domain(id, domain_type) {
                Ok(after) => after,
                Err(_) => self,
            },
        }
    }

    /// The id that `op` assigns: that of the record it creates, if it
    /// creates one.
    pub open spec fn assigned(self, op: Op) -> Option<u64> {
        match op {
            Op::CreateDomain { owner, domain_type, name } => match self.create_domain(
                owner,
                domain_type,
                name,
            ) {
                Ok((_, id)) => Some(id),
                Err(_) => None,
            },
            _ => None,
        }
    }

    /// The ledger after all of `ops`, one after the other.
    pub open spec fn run(self, ops: Seq<Op>) -> State
        decreases ops.len(),
    {
        if ops.len() == 0 {
            self
        } else {
            self.step(ops.first()).run(ops.drop_first())
        }
    }

    /// The ids that the successful creations among `ops` are given, in the
    /// order of the creations.
    pub open spec fn assigned_ids(self, ops: Seq<Op>) -> Seq<u64>
        decreases ops.len(),
    {
        if ops.len() == 0 {
            Seq::empty()
        } else {
            let rest = self.step(ops.first()).assigned_ids(ops.drop_first());
            match self.assigned(ops.first()) {
                Some(id) => seq![id] + rest,
                None => rest,
            }
        }
    }
}

} // verus!
