//! The record kept for each id, and the storage it needs.

use vstd::prelude::*;
use vstd::utf8::encode_utf8;

verus! {

/// A 32-byte public key: the identity of a record's owner.
pub type Pubkey = [u8; 32];

/// Bytes of the tag that tells record kinds apart in shared storage.
pub const DISCRIMINATOR_LEN: usize = 8;

/// Bytes of an owner's public key.
pub const PUBKEY_LEN: usize = 32;

/// Bytes of the length prefix in front of a stored string.
pub const LENGTH_PREFIX_LEN: usize = 4;

/// Bytes of the type field.
pub const DOM_TYPE_LEN: usize = 1;

/// A domain record. Its id is not stored in it: the id decides the key under
/// which the record is kept.
#[derive(Debug, PartialEq, Eq)]
pub struct Domain {
    pub owner: Pubkey,
    pub name: String,
    pub dom_type: u8,
}

/// What a `Domain` holds, as plain values.
pub struct DomainView {
    pub owner: Pubkey,
    pub name: Seq<char>,
    pub dom_type: u8,
}

impl View for Domain {
    type V = DomainView;

    open spec fn view(&self) -> DomainView {
        DomainView { owner: self.owner, name: self.name@, dom_type: self.dom_type }
    }
}

impl Clone for Domain {
    fn clone(&self) -> (copy: Domain)
        ensures
            copy@ == self@,
    {
        Domain { owner: self.owner, name: self.name.clone(), dom_type: self.dom_type }
    }
}

/// The number of bytes that `name` takes in UTF-8.
pub open spec fn spec_name_len(name: Seq<char>) -> nat {
    encode_utf8(name).len()
}

impl DomainView {
    /// The bytes of storage that this record occupies: the length of its
    /// stored form.
    pub open spec fn size(self) -> nat {
        Domain::spec_calculate_size(spec_name_len(self.name))
    }
}

impl Domain {
    /// Storage for a record whose name is `len` bytes long: the tag, the
    /// owner, the name behind its length, and the type byte, and nothing
    /// more.
    pub open spec fn spec_calculate_size(len: nat) -> nat {
        DISCRIMINATOR_LEN as nat + PUBKEY_LEN as nat + (LENGTH_PREFIX_LEN as nat + len)
            + DOM_TYPE_LEN as nat
    }

    /// Computes the storage for a record whose name is `len` bytes long.
    pub fn calculate_size(len: usize) -> (size: usize)
        requires
            Self::spec_calculate_size(len as nat) <= usize::MAX,
        ensures
            size == Self::spec_calculate_size(len as nat),
    {
        DISCRIMINATOR_LEN + PUBKEY_LEN + (LENGTH_PREFIX_LEN + len) + DOM_TYPE_LEN
    }

    /// The length of this record's name in bytes.
    pub fn name_len(&self) -> (len: usize)
        ensures
            len == spec_name_len(self.name@),
    {
        self.name.as_str().as_bytes().len()
    }
}

} // verus!
