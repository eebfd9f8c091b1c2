//! The block header, generic over the proof that a consensus engine puts in it.

use vstd::prelude::*;

verus! {

/// A fixed-size reference to a block, to a state or to a set of extrinsics.
pub type Hash = u64;

/// The metadata of one block. `Digest` is the type of the proof that the
/// consensus engine in use attaches: `()` while the header is still partial,
/// the engine's own digest once it is sealed.
#[derive(Debug, PartialEq, Eq, Hash, Structural)]
pub struct Header<Digest> {
    /// The parent block.
    pub parent: Hash,
    /// The block number: the parent's height plus one in a well-formed chain.
    pub height: u64,
    /// Summary of the extrinsics that the block carries.
    pub extrinsics_root: Hash,
    /// Summary of the state after the block was executed.
    pub state_root: Hash,
    /// The engine's proof; for proof of work, the winning nonce.
    pub consensus_digest: Digest,
}

impl<Digest> Header<Digest> {
    /// This header with its digest replaced by `digest` and every other field kept.
    pub open spec fn with_digest<D>(self, digest: D) -> Header<D> {
        Header {
            parent: self.parent,
            height: self.height,
            extrinsics_root: self.extrinsics_root,
            state_root: self.state_root,
            consensus_digest: digest,
        }
    }

    /// Whether `self` and `other` agree on every field but the digest.
    pub open spec fn same_block<D>(self, other: Header<D>) -> bool {
        &&& self.parent == other.parent
        &&& self.height == other.height
        &&& self.extrinsics_root == other.extrinsics_root
        &&& self.state_root == other.state_root
    }

    /// Builds the header that carries `digest` in place of this header's own
    /// digest. Nothing else changes, and `self` is left as it was.
    pub fn sealed_with<D>(&self, digest: D) -> (sealed: Header<D>)
        ensures
            sealed == self.with_digest(digest),
    {
        Header {
            parent: self.parent,
            height: self.height,
            extrinsics_root: self.extrinsics_root,
            state_root: self.state_root,
            consensus_digest: digest,
        }
    }
}

impl<Digest: Clone> Clone for Header<Digest> {
    /// The clone is the same block; its digest is a clone of this header's.
    fn clone(&self) -> (copy: Self)
        ensures
            copy.same_block(*self),
            cloned(self.consensus_digest, copy.consensus_digest),
    {
        Header {
            parent: self.parent,
            height: self.height,
            extrinsics_root: self.extrinsics_root,
            state_root: self.state_root,
            consensus_digest: self.consensus_digest.clone(),
        }
    }
}

} // verus!
