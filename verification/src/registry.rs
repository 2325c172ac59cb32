//! The ledger in one piece: counter, record store and event sink together.

use vstd::prelude::*;
use crate::counter::ProgramInfo;
use crate::domain::{spec_name_len, Domain, Pubkey};
use crate::error::Error;
use crate::event::EventSink;
use crate::operations::{
    create_domain, initialize, ledger, update_domain, CreateDomain, Initialize, UpdateDomain,
};
use crate::laws::{
    law_create_never_collides, law_empty_is_consistent, law_operations_keep_consistent,
};
use crate::model::{Op, State};
use crate::records::{Record, RecordStore};

verus! {

/// A ledger of domain records. Every operation is one atomic step: it either
/// takes place in full, or it is refused and leaves the ledger as it was.
///
/// A `Registry` is changed only through `&mut self`, so two operations never
/// overlap: each sees the state that the one before it left. Callers that
/// share one between threads put it behind a lock of their own.
///
/// Whatever is done with it, a `Registry` stays consistent in the sense of
/// `State::consistent`.
#[derive(Debug, PartialEq, Eq)]
pub struct Registry {
    program_info: ProgramInfo,
    records: RecordStore,
    events: EventSink,
}

impl View for Registry {
    type V = State;

    closed spec fn view(&self) -> State {
        ledger(self.program_info, self.records, self.events)
    }
}

impl Clone for Registry {
    /// A second ledger in the same state.
    fn clone(&self) -> (copy: Registry)
        ensures
            copy@ == self@,
    {
        proof {
            use_type_invariant(self);
        }
        Registry {
            program_info: self.program_info,
            records: self.records.clone(),
            events: self.events.clone(),
        }
    }
}

impl Registry {
    #[verifier::type_invariant]
    spec fn is_consistent(self) -> bool {
        self@.consistent()
    }

    /// An empty ledger, not yet initialized.
    pub fn new() -> (registry: Registry)
        ensures
            registry@ == State::empty(),
            registry@.consistent(),
    {
        proof {
            law_empty_is_consistent();
        }
        Registry {
            program_info: ProgramInfo::new(),
            records: RecordStore::new(),
            events: EventSink::new(),
        }
    }

    /// Initializes the ledger, once. A second call is refused with
    /// `AlreadyInitialized` and changes nothing.
    pub fn initialize(&mut self) -> (res: Result<(), Error>)
        ensures
            match res {
                Ok(()) => old(self)@.initialize(0) == Ok::<State, Error>(final(self)@),
                Err(e) => old(self)@.initialize(0) == Err::<State, Error>(e) && final(self)@
                    == old(self)@,
            },
            final(self)@.consistent(),
    {
        proof {
            use_type_invariant(&*self);
            law_operations_keep_consistent(self@, Op::Initialize { bump: 0 });
        }
        let mut program_info = self.program_info;
        let res = initialize(Initialize { program_info: &mut program_info, bump: 0 });
        self.program_info = program_info;
        res
    }

    /// Creates a record owned by `owner` and returns the id assigned to it.
    ///
    /// Refused with `NotInitialized` before `initialize`, and for no other
    /// reason: in a `Registry` the key of the next id is always free. A
    /// refused call changes nothing and emits nothing.
    ///
    /// The next id must be below `u64::MAX`, and the size of the record must
    /// fit in a `usize`.
    pub fn create_domain(&mut self, owner: Pubkey, domain_type: u8, name: String) -> (res: Result<
        u64,
        Error,
    >)
        requires
            old(self)@.counter.id < u64::MAX,
            Domain::spec_calculate_size(spec_name_len(name@)) <= usize::MAX,
        ensures
            res is Ok <==> old(self)@.counter.initialized,
            match res {
                Ok(id) => old(self)@.create_domain(owner, domain_type, name@) == Ok::<
                    (State, u64),
                    Error,
                >((final(self)@, id)),
                Err(e) => old(self)@.create_domain(owner, domain_type, name@) == Err::<
                    (State, u64),
                    Error,
                >(e) && final(self)@ == old(self)@,
            },
            final(self)@.consistent(),
    {
        proof {
            use_type_invariant(&*self);
            law_operations_keep_consistent(
                self@,
                Op::CreateDomain { owner, domain_type, name: name@ },
            );
            law_create_never_collides(self@, owner, domain_type, name@);
        }
        // The parts leave the registry for the call and come back together.
        let mut taken = Registry::new();
        core::mem::swap(self, &mut taken);
        let Registry { mut program_info, mut records, mut events } = taken;
        let res = create_domain(
            CreateDomain {
                program_info: &mut program_info,
                records: &mut records,
                owner,
                events: &mut events,
            },
            domain_type,
            name,
        );
        *self = Registry { program_info, records, events };
        res
    }

    /// Sets the type of the record of `id`; its owner and name stay as they
    /// are. Whoever asks may do so: the owner is not checked.
    ///
    /// Refused with `RecordNotFound` if `id` has no record. A refused call
    /// changes nothing and emits nothing.
    pub fn update_domain(&mut self, id: u64, domain_type: u8) -> (res: Result<(), Error>)
        ensures
            match res {
                Ok(()) => old(self)@.update_domain(id, domain_type) == Ok::<State, Error>(
                    final(self)@,
                ),
                Err(e) => old(self)@.update_domain(id, domain_type) == Err::<State, Error>(e)
                    && final(self)@ == old(self)@,
            },
            final(self)@.consistent(),
    {
        proof {
            use_type_invariant(&*self);
            law_operations_keep_consistent(self@, Op::UpdateDomain { id, domain_type });
        }
        // The parts leave the registry for the call and come back together.
        let mut taken = Registry::new();
        core::mem::swap(self, &mut taken);
        let Registry { program_info, mut records, mut events } = taken;
        let res = update_domain(
            UpdateDomain { program_info: &program_info, records: &mut records, events: &mut events },
            id,
            domain_type,
        );
        *self = Registry { program_info, records, events };
        res
    }

    /// The id that the next created record will get.
    pub fn next_id(&self) -> (id: u64)
        ensures
            id == self@.counter.id,
    {
        self.program_info.id
    }

    /// Whether `initialize` has taken place.
    pub fn is_initialized(&self) -> (initialized: bool)
        ensures
            initialized == self@.counter.initialized,
    {
        self.program_info.initialized
    }

    /// Looks up the record kept at `key`.
    pub fn get(&self, key: &[u8]) -> (found: Option<&Record>)
        ensures
            match found {
                Some(record) => self@.records.contains_key(key@) && record@
                    == self@.records[key@],
                None => !self@.records.contains_key(key@),
            },
    {
        self.records.get(key)
    }

    /// The events emitted so far, oldest first.
    pub fn events(&self) -> (sink: &EventSink)
        ensures
            sink@ == self@.events,
    {
        &self.events
    }
}

} // verus!
