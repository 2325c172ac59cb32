//! The stored form of the counter and of a record, byte for byte.
//!
//! The counter is stored as its tag, the next id in eight bytes, the
//! initialized flag in one byte and the bump in one byte. A record is stored
//! as its tag, the owner's 32 bytes, the name behind a four-byte length, and
//! the type byte. Integers have their least significant byte first.

use vstd::prelude::*;
use vstd::utf8::{encode_utf8, encode_utf8_decode_utf8};
use crate::counter::ProgramInfo;
use crate::domain::{spec_name_len, Domain, DomainView};
use crate::le::{le_bytes, lemma_le_bytes_injective, spec_le_bytes};

verus! {

/// The tag in front of the stored counter: the first eight bytes of the
/// SHA-256 of `account:ProgramInfo`.
pub const PROGRAM_INFO_TAG: [u8; 8] = [154, 4, 116, 39, 15, 89, 227, 100];

/// The tag in front of a stored record: the first eight bytes of the SHA-256
/// of `account:Domain`.
pub const DOMAIN_TAG: [u8; 8] = [167, 191, 231, 63, 146, 41, 115, 27];

/// Bytes of the stored counter.
pub const PROGRAM_INFO_SIZE: usize = 18;

/// The longest name, in bytes, whose length the four-byte prefix can tell.
pub const MAX_NAME_LEN: usize = 0xffff_ffff;

/// The stored form of the counter.
pub open spec fn spec_program_info_bytes(info: ProgramInfo) -> Seq<u8> {
    PROGRAM_INFO_TAG@ + spec_le_bytes(info.id, 8) + seq![
        if info.initialized {
            1u8
        } else {
            0u8
        },
        info.bump,
    ]
}

/// The stored form of a record.
pub open spec fn spec_domain_bytes(domain: DomainView) -> Seq<u8>
    recommends
        spec_name_len(domain.name) <= MAX_NAME_LEN,
{
    DOMAIN_TAG@ + domain.owner@ + spec_le_bytes(spec_name_len(domain.name) as u64, 4)
        + encode_utf8(domain.name) + seq![domain.dom_type]
}

impl ProgramInfo {
    /// Writes the counter out in its stored form.
    pub fn to_bytes(&self) -> (bytes: Vec<u8>)
        ensures
            bytes@ == spec_program_info_bytes(*self),
    {
        let mut bytes: Vec<u8> = Vec::new();
        bytes.extend_from_slice(PROGRAM_INFO_TAG.as_slice());
        let id = le_bytes(self.id, 8);
        bytes.extend_from_slice(id.as_slice());
        bytes.push(if self.initialized { 1 } else { 0 });
        bytes.push(self.bump);
        assert(bytes@ =~= spec_program_info_bytes(*self));
        bytes
    }
}

impl Domain {
    /// Writes the record out in its stored form. There is none for a name of
    /// more than `MAX_NAME_LEN` bytes.
    pub fn to_bytes(&self) -> (bytes: Option<Vec<u8>>)
        ensures
            match bytes {
                Some(stored) => spec_name_len(self.name@) <= MAX_NAME_LEN && stored@
                    == spec_domain_bytes(self@),
                None => spec_name_len(self.name@) > MAX_NAME_LEN,
            },
    {
        let name = self.name.as_str().as_bytes();
        if name.len() > MAX_NAME_LEN {
            return None;
        }
        let mut bytes: Vec<u8> = Vec::new();
        bytes.extend_from_slice(DOMAIN_TAG.as_slice());
        bytes.extend_from_slice(self.owner.as_slice());
        let prefix = le_bytes(name.len() as u64, 4);
        bytes.extend_from_slice(prefix.as_slice());
        bytes.extend_from_slice(name);
        bytes.push(self.dom_type);
        assert(bytes@ =~= spec_domain_bytes(self@));
        Some(bytes)
    }
}

/// The stored counter takes `PROGRAM_INFO_SIZE` bytes.
pub proof fn lemma_program_info_bytes_len(info: ProgramInfo)
    ensures
        spec_program_info_bytes(info).len() == PROGRAM_INFO_SIZE,
{
}

/// The stored form of a record fills the storage computed for it exactly: no
/// byte is missing and none is left over.
pub proof fn lemma_domain_bytes_len(domain: DomainView)
    ensures
        spec_domain_bytes(domain).len() == domain.size(),
{
}

/// The stored form tells the whole counter: different counters are never
/// stored alike.
pub proof fn lemma_program_info_bytes_injective(a: ProgramInfo, b: ProgramInfo)
    ensures
        spec_program_info_bytes(a) == spec_program_info_bytes(b) <==> a == b,
{
    if spec_program_info_bytes(a) == spec_program_info_bytes(b) {
        let sa = spec_program_info_bytes(a);
        let sb = spec_program_info_bytes(b);
        assert(sa.subrange(8, 16) =~= spec_le_bytes(a.id, 8));
        assert(sb.subrange(8, 16) =~= spec_le_bytes(b.id, 8));
        lemma_le_bytes_injective(a.id, b.id);
        assert(sa[16] == sb[16]);
        assert(sa[17] == sb[17]);
    }
}

/// The stored form tells the whole record: different records are never
/// stored alike.
pub proof fn lemma_domain_bytes_injective(a: DomainView, b: DomainView)
    requires
        spec_name_len(a.name) <= MAX_NAME_LEN,
        spec_name_len(b.name) <= MAX_NAME_LEN,
    ensures
        spec_domain_bytes(a) == spec_domain_bytes(b) <==> a == b,
{
    if spec_domain_bytes(a) == spec_domain_bytes(b) {
        let sa = spec_domain_bytes(a);
        let sb = spec_domain_bytes(b);
        let n = spec_name_len(a.name) as int;
        assert(sa.len() == 45 + n);
        assert(sb.len() == 45 + spec_name_len(b.name));
        assert(spec_name_len(b.name) == n);
        assert(sa.subrange(8, 40) =~= a.owner@);
        assert(sb.subrange(8, 40) =~= b.owner@);
        assert(a.owner =~= b.owner);
        assert(sa.subrange(44, 44 + n) =~= encode_utf8(a.name));
        assert(sb.subrange(44, 44 + n) =~= encode_utf8(b.name));
        encode_utf8_decode_utf8(a.name);
        encode_utf8_decode_utf8(b.name);
        assert(sa[44 + n] == a.dom_type);
        assert(sb[44 + n] == b.dom_type);
    }
}

} // verus!
