//! What every consensus engine owes a block header.

use crate::header::Header;
use vstd::prelude::*;

verus! {

/// A consensus engine: a rule that says which headers are sealed acceptably,
/// and a way of producing such a seal.
///
/// Code that assembles or receives blocks is written against this trait and
/// never asks which engine it holds.
pub trait Consensus {
    /// The proof that this engine stores in a header's `consensus_digest`.
    type Digest;

    /// The engine's rule: whether `header` carries an acceptable seal, given
    /// the digest of its parent. It is a function of the engine's
    /// configuration and of these two values alone.
    spec fn accepts(&self, parent_digest: Self::Digest, header: Header<Self::Digest>) -> bool;

    /// Decides whether `header` is sealed acceptably. The verdict is the
    /// engine's rule, so the same header always gets the same verdict.
    fn validate(&self, parent_digest: &Self::Digest, header: &Header<Self::Digest>) -> (valid:
        bool)
        ensures
            valid == self.accepts(*parent_digest, *header),
    ;

    /// Tries to seal `partial_header`. `None` means that the engine found no
    /// seal within its search space, which a caller has to expect. A header
    /// that does come back is the same block as `partial_header`, with only
    /// the digest filled in, and `validate` accepts it.
    fn seal(&self, parent_digest: &Self::Digest, partial_header: Header<()>) -> (sealed: Option<
        Header<Self::Digest>,
    >)
        ensures
            sealed matches Some(header) ==> header.same_block(partial_header) && self.accepts(
                *parent_digest,
                header,
            ),
    ;
}

} // verus!
