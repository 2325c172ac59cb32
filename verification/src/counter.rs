//! The singleton counter that hands out record ids.

use vstd::prelude::*;
use crate::error::Error;

verus! {

/// The allocation state of the whole ledger.
///
/// `id` is the next id to assign. It starts at 0 and grows by exactly one per
/// created record.
#[derive(Clone, Copy, Debug, PartialEq, Eq)]
pub struct ProgramInfo {
    pub id: u64,
    pub initialized: bool,
    pub bump: u8,
}

impl ProgramInfo {
    /// The counter before `initialize`: nothing assigned, not initialized.
    pub open spec fn blank() -> ProgramInfo {
        ProgramInfo { id: 0, initialized: false, bump: 0 }
    }

    /// This counter after one id was handed out.
    pub open spec fn incremented(self) -> ProgramInfo
        recommends
            self.id < u64::MAX,
    {
        ProgramInfo { id: (self.id + 1) as u64, ..self }
    }

    /// A counter as it is before `initialize`.
    pub fn new() -> (info: ProgramInfo)
        ensures
            info == Self::blank(),
    {
        ProgramInfo { id: 0, initialized: false, bump: 0 }
    }

    /// Moves the counter forward by one.
    pub fn increment(&mut self) -> (res: Result<(), Error>)
        requires
            old(self).id < u64::MAX,
        ensures
            res is Ok,
            *final(self) == old(self).incremented(),
            final(self).id == old(self).id + 1,
    {
        self.id += 1;
        Ok(())
    }

    /// Hands out the next id: returns the current `id` and moves the counter
    /// forward by one, in a single step.
    pub fn allocate_next_id(&mut self) -> (id: u64)
        requires
            old(self).id < u64::MAX,
        ensures
            id == old(self).id,
            *final(self) == old(self).incremented(),
    {
        let id = self.id;
        let _ = self.increment();
        id
    }
}

} // verus!
