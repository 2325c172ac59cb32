//! The ways an operation on the ledger can be refused.

use vstd::prelude::*;

verus! {

/// Why an operation was refused. A refused operation changes nothing and
/// emits nothing.
#[derive(Clone, Copy, Debug, PartialEq, Eq)]
pub enum Error {
    /// `initialize` was called on a counter that is already initialized.
    AlreadyInitialized,
    /// A record was to be created while the counter is not yet initialized.
    NotInitialized,
    /// A record was to be created at a key that already holds one.
    DuplicateRecord,
    /// A record was to be updated at a key that holds none.
    RecordNotFound,
}

impl Error {
    /// The text that `message` gives for this error.
    pub open spec fn spec_message(self) -> Seq<char> {
        match self {
            Error::AlreadyInitialized => "Program is already initialized"@,
            Error::NotInitialized => "Program is not initialized"@,
            Error::DuplicateRecord => "Record already exists"@,
            Error::RecordNotFound => "Record not found"@,
        }
    }

    /// A short description for people.
    pub fn message(&self) -> (text: String)
        ensures
            text@ == self.spec_message(),
    {
        match self {
            Error::AlreadyInitialized => "Program is already initialized".to_owned(),
            Error::NotInitialized => "Program is not initialized".to_owned(),
            Error::DuplicateRecord => "Record already exists".to_owned(),
            Error::RecordNotFound => "Record not found".to_owned(),
        }
    }
}

} // verus!
