//! Deterministic addressing: the storage key of a record is a pure function
//! of its id, and no other id has the same key.

use vstd::prelude::*;
use crate::le::{le_bytes, lemma_le_bytes_injective, spec_le_bytes};

verus! {

/// Bytes in a storage key.
pub const KEY_LEN: usize = 8;

/// The storage key of the record with this id: the id in eight bytes, least
/// significant byte first.
pub open spec fn spec_derive_key(id: u64) -> Seq<u8> {
    spec_le_bytes(id, KEY_LEN as nat)
}

/// Derives the storage key of the record with this id.
pub fn derive_key(id: u64) -> (key: Vec<u8>)
    ensures
        key@ == spec_derive_key(id),
{
    le_bytes(id, KEY_LEN)
}

/// Different ids never share a key: a key stands for one id only.
pub proof fn lemma_derive_key_injective(a: u64, b: u64)
    ensures
        spec_derive_key(a) == spec_derive_key(b) <==> a == b,
{
    lemma_le_bytes_injective(a, b);
}

} // verus!
