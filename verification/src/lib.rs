//! A small deterministic ledger of domain records.
//!
//! A counter hands out sequential ids, a record store keeps one record per id
//! at a key derived from that id, and every successful mutation appends one
//! event to an append-only sink. All executable code here is verified against
//! the contracts it carries.
//!
//! - `counter`: the counter, `ProgramInfo`.
//! - `domain`: the record type, `Domain`, and the storage a record needs.
//! - `le`: integers as little-endian bytes.
//! - `key`: the storage key of an id.
//! - `layout`: the stored form of the counter and of a record.
//! - `records`: the record store.
//! - `event`: events and the sink that collects them.
//! - `operations`: `initialize`, `create_domain` and `update_domain`, on
//!   parts that the caller holds.
//! - `registry`: the same three on a ledger in one piece, `Registry`.
//! - `model`: the ledger as a mathematical state; the contracts refer to it.
//! - `laws`: what is proved of every ledger and every run of operations.

pub mod counter;
pub mod domain;
pub mod error;
pub mod event;
pub mod key;
pub mod laws;
pub mod layout;
pub mod le;
pub mod model;
pub mod operations;
pub mod records;
pub mod registry;

pub use counter::ProgramInfo;
pub use domain::{Domain, DomainView, Pubkey};
pub use error::Error;
pub use event::{Event, EventSink, EventView};
pub use key::derive_key;
pub use model::{Op, State};
pub use operations::{
    create_domain, initialize, update_domain, CreateDomain, Initialize, UpdateDomain,
};
pub use records::{Record, RecordStore, RecordView};
pub use registry::Registry;
