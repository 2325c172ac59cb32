//! Integers as bytes, least significant byte first.

use vstd::prelude::*;
use vstd::bytes::{
    lemma_auto_spec_u64_to_from_le_bytes, spec_u64_to_le_bytes, spec_u64_to_le_bytes_to_open,
};

verus! {

/// The lowest `width` bytes of `value`, least significant byte first: byte
/// `i` holds bits `8 * i` to `8 * i + 7`.
pub open spec fn spec_le_bytes(value: u64, width: nat) -> Seq<u8> {
    Seq::new(width, |i: int| ((value >> ((8 * i) as u64)) & 0xff) as u8)
}

/// Writes out the lowest `width` bytes of `value`, least significant byte
/// first.
pub fn le_bytes(value: u64, width: usize) -> (bytes: Vec<u8>)
    requires
        width <= 8,
    ensures
        bytes@ == spec_le_bytes(value, width as nat),
{
    let mut bytes: Vec<u8> = Vec::new();
    let mut i: usize = 0;
    while i < width
        invariant
            i <= width <= 8,
            bytes@ == spec_le_bytes(value, i as nat),
        decreases width - i,
    {
        let shift: u64 = 8 * (i as u64);
        bytes.push(((value >> shift) & 0xff) as u8);
        i += 1;
        assert(bytes@ =~= spec_le_bytes(value, i as nat));
    }
    bytes
}

/// Eight bytes tell the whole value: different values never have the same
/// eight bytes.
pub proof fn lemma_le_bytes_injective(a: u64, b: u64)
    ensures
        spec_le_bytes(a, 8) == spec_le_bytes(b, 8) <==> a == b,
{
    lemma_matches_vstd(a);
    lemma_matches_vstd(b);
    lemma_auto_spec_u64_to_from_le_bytes();
}

/// The eight bytes of a value are vstd's little-endian bytes of it.
proof fn lemma_matches_vstd(value: u64)
    ensures
        spec_le_bytes(value, 8) == spec_u64_to_le_bytes(value),
{
    spec_u64_to_le_bytes_to_open(value);
    assert(value >> 0 == value) by (bit_vector);
    assert(spec_le_bytes(value, 8) =~= spec_u64_to_le_bytes(value));
}

} // verus!
