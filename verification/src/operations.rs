//! The three operations of the ledger, each on the parts of the ledger that
//! it touches.
//!
//! A caller that keeps the parts itself hands them over in a context. Who
//! wants the ledger in one piece uses `Registry`, which makes these calls.

use vstd::prelude::*;
use crate::counter::ProgramInfo;
use crate::domain::{spec_name_len, Domain, Pubkey};
use crate::error::Error;
use crate::event::{Event, EventSink};
use crate::model::State;
use crate::records::RecordStore;

verus! {

/// What `initialize` works on.
pub struct Initialize<'a> {
    /// The counter to initialize.
    pub program_info: &'a mut ProgramInfo,
    /// A byte to keep beside the counter for whoever hosts the ledger. The
    /// ledger stores it and never reads it.
    pub bump: u8,
}

/// What `create_domain` works on.
pub struct CreateDomain<'a> {
    /// The counter that assigns the id.
    pub program_info: &'a mut ProgramInfo,
    /// The store that receives the record.
    pub records: &'a mut RecordStore,
    /// The identity that creates the record and will own it.
    pub owner: Pubkey,
    /// Where the creation is announced.
    pub events: &'a mut EventSink,
}

/// What `update_domain` works on.
pub struct UpdateDomain<'a> {
    /// The counter, which an update reads nothing of and leaves alone.
    pub program_info: &'a ProgramInfo,
    /// The store that holds the record.
    pub records: &'a mut RecordStore,
    /// Where the update is announced.
    pub events: &'a mut EventSink,
}

/// The ledger that these three parts make up.
pub open spec fn ledger(program_info: ProgramInfo, records: RecordStore, events: EventSink) -> State {
    State { counter: program_info, records: records@, events: events@ }
}

/// Initializes the counter, once. A second call is refused with
/// `AlreadyInitialized` and leaves the counter as it is.
pub fn initialize(ctx: Initialize<'_>) -> (res: Result<(), Error>)
    ensures
        ({
            let before = *old(ctx.program_info);
            let after = *final(ctx.program_info);
            if before.initialized {
                res == Err::<(), Error>(Error::AlreadyInitialized) && after == before
            } else {
                res == Ok::<(), Error>(()) && after == (ProgramInfo {
                    id: 0,
                    initialized: true,
                    bump: ctx.bump,
                })
            }
        }),
{
    if ctx.program_info.initialized {
        return Err(Error::AlreadyInitialized);
    }
    ctx.program_info.initialized = true;
    ctx.program_info.id = 0;
    ctx.program_info.bump = ctx.bump;
    Ok(())
}

/// Creates a record owned by `ctx.owner` and returns the id assigned to it.
///
/// The id is the counter's current value. The record goes to the key derived
/// from that id, the counter moves on by one, and then one `DomainCreated`
/// is emitted.
///
/// Refused with `NotInitialized` before `initialize`, and with
/// `DuplicateRecord` if the key derived from the next id is in use. A
/// refused call changes nothing and emits nothing.
///
/// The counter must be below `u64::MAX`, and the size of the record must fit
/// in a `usize`.
pub fn create_domain(ctx: CreateDomain<'_>, domain_type: u8, name: String) -> (res: Result<
    u64,
    Error,
>)
    requires
        old(ctx.program_info).id < u64::MAX,
        Domain::spec_calculate_size(spec_name_len(name@)) <= usize::MAX,
    ensures
        ({
            let before = ledger(*old(ctx.program_info), *old(ctx.records), *old(ctx.events));
            let after = ledger(*final(ctx.program_info), *final(ctx.records), *final(ctx.events));
            match res {
                Ok(id) => before.create_domain(ctx.owner, domain_type, name@) == Ok::<
                    (State, u64),
                    Error,
                >((after, id)),
                Err(e) => before.create_domain(ctx.owner, domain_type, name@) == Err::<
                    (State, u64),
                    Error,
                >(e) && after == before,
            }
        }),
{
    if !ctx.program_info.initialized {
        return Err(Error::NotInitialized);
    }
    let owner = ctx.owner;
    let announced = name.clone();
    let domain = Domain { owner, name, dom_type: domain_type };
    match ctx.records.create(ctx.program_info.id, domain) {
        Err(e) => Err(e),
        Ok(()) => {
            let id = ctx.program_info.allocate_next_id();
            ctx.events.emit(
                Event::DomainCreated { id, owner, name: announced, dom_type: domain_type },
            );
            Ok(id)
        },
    }
}

/// Sets the type of the record of `id`, then emits one `DomainUpdated`. The
/// record's owner, name and storage stay as they are. Whoever asks may do
/// so: the owner is not checked.
///
/// Refused with `RecordNotFound` if `id` has no record. A refused call
/// changes nothing and emits nothing.
pub fn update_domain(ctx: UpdateDomain<'_>, id: u64, domain_type: u8) -> (res: Result<(), Error>)
    ensures
        ({
            let before = ledger(*ctx.program_info, *old(ctx.records), *old(ctx.events));
            let after = ledger(*ctx.program_info, *final(ctx.records), *final(ctx.events));
            match res {
                Ok(()) => before.update_domain(id, domain_type) == Ok::<State, Error>(after),
                Err(e) => before.update_domain(id, domain_type) == Err::<State, Error>(e) && after
                    == before,
            }
        }),
{
    match ctx.records.update(id, domain_type) {
        Err(e) => Err(e),
        Ok(()) => {
            ctx.events.emit(Event::DomainUpdated { id, dom_type: domain_type });
            Ok(())
        },
    }
}

} // verus!
