//! The hash that stands for a header. It is std's `DefaultHasher`, fed the
//! header's fields one after the other.

use crate::header::Header;
use std::collections::hash_map::DefaultHasher;
use std::hash::Hasher;
use vstd::bytes::{spec_u64_to_le_bytes, u64_to_le_bytes};
use vstd::prelude::*;
use vstd::std_specs::hash::DefaultHasherAdditionalSpecFns;

verus! {

/// What the hasher is fed for `header`: one write of eight little-endian bytes
/// per field, in the order `parent`, `height`, `extrinsics_root`,
/// `state_root`, `consensus_digest`.
pub open spec fn hash_input(header: Header<u64>) -> Seq<Seq<u8>> {
    seq![
        spec_u64_to_le_bytes(header.parent),
        spec_u64_to_le_bytes(header.height),
        spec_u64_to_le_bytes(header.extrinsics_root),
        spec_u64_to_le_bytes(header.state_root),
        spec_u64_to_le_bytes(header.consensus_digest),
    ]
}

/// The hash of a sealed header: what a fresh `DefaultHasher` finishes with
/// after the writes of `hash_input`. It depends on all five fields, the digest
/// included, and on nothing else.
pub open spec fn header_hash(header: Header<u64>) -> u64 {
    DefaultHasher::spec_finish(hash_input(header))
}

/// Hashes a sealed header.
pub fn hash(header: &Header<u64>) -> (digest: u64)
    ensures
        digest == header_hash(*header),
{
    let mut hasher = DefaultHasher::new();
    hasher.write(u64_to_le_bytes(header.parent).as_slice());
    hasher.write(u64_to_le_bytes(header.height).as_slice());
    hasher.write(u64_to_le_bytes(header.extrinsics_root).as_slice());
    hasher.write(u64_to_le_bytes(header.state_root).as_slice());
    hasher.write(u64_to_le_bytes(header.consensus_digest).as_slice());
    proof {
        assert(hasher@ =~= hash_input(*header));
    }
    hasher.finish()
}

} // verus!
