//! Proof of work: a header is acceptable when its hash lies below a threshold,
//! and sealing is the search for a nonce that brings it there.

use crate::consensus::Consensus;
use crate::hashing::{hash, header_hash};
use crate::header::Header;
use vstd::prelude::*;

verus! {

/// A proof-of-work engine. Its only state is the threshold, fixed when the
/// engine is made: the smaller it is, the fewer hashes lie below it and the
/// longer the search for a seal takes.
pub struct Pow {
    threshold: u64,
}

impl Pow {
    /// The threshold of this engine: a header is acceptable when its hash is
    /// strictly smaller.
    pub closed spec fn spec_threshold(&self) -> u64 {
        self.threshold
    }

    /// Whether `nonce` solves the puzzle for `partial`: the header sealed with
    /// it hashes below the threshold.
    pub open spec fn solves(&self, partial: Header<()>, nonce: u64) -> bool {
        header_hash(partial.with_digest(nonce)) < self.threshold()
    }

    /// Whether `nonce` is the smallest nonce in `start..end` that solves the
    /// puzzle for `partial`.
    pub open spec fn is_first_solution(
        &self,
        partial: Header<()>,
        start: u64,
        end: u64,
        nonce: u64,
    ) -> bool {
        &&& start <= nonce < end
        &&& self.solves(partial, nonce)
        &&& forall|n: u64| start <= n < nonce ==> !#[trigger] self.solves(partial, n)
    }

    /// The smallest nonce in `start..end` that solves the puzzle for
    /// `partial`, if there is one.
    pub open spec fn first_solution(&self, partial: Header<()>, start: u64, end: u64) -> Option<
        u64,
    > {
        if exists|n: u64| self.is_first_solution(partial, start, end, n) {
            Some(choose|n: u64| self.is_first_solution(partial, start, end, n))
        } else {
            None
        }
    }

    /// What a search of the nonces `start..end` yields for `partial`: the
    /// header sealed with the first solution, or `None` where the range holds
    /// no solution.
    pub open spec fn sealed_in_range(&self, partial: Header<()>, start: u64, end: u64) -> Option<
        Header<u64>,
    > {
        match self.first_solution(partial, start, end) {
            Some(nonce) => Some(partial.with_digest(nonce)),
            None => None,
        }
    }

    /// What `seal` yields for `partial`: the search covers every nonce below
    /// `u64::MAX`, which itself is never tried.
    pub open spec fn sealed(&self, partial: Header<()>) -> Option<Header<u64>> {
        self.sealed_in_range(partial, 0, u64::MAX)
    }

    /// An engine with the given threshold.
    pub fn new(threshold: u64) -> (engine: Pow)
        ensures
            engine.threshold() == threshold,
    {
        Pow { threshold }
    }

    /// The threshold of this engine.
    #[verifier::when_used_as_spec(spec_threshold)]
    pub fn threshold(&self) -> (threshold: u64)
        ensures
            threshold == self.spec_threshold(),
    {
        self.threshold
    }

    /// Searches the nonces `start..end` in ascending order and seals
    /// `partial_header` with the first one that solves the puzzle. Every nonce
    /// of the range is tried before the search gives up; an empty range gives
    /// `None` at once.
    pub fn seal_in_range(&self, partial_header: &Header<()>, start: u64, end: u64) -> (sealed:
        Option<Header<u64>>)
        ensures
            sealed == self.sealed_in_range(*partial_header, start, end),
            match sealed {
                Some(header) => {
                    &&& header == partial_header.with_digest(header.consensus_digest)
                    &&& self.is_first_solution(
                        *partial_header,
                        start,
                        end,
                        header.consensus_digest,
                    )
                },
                None => forall|n: u64|
                    start <= n < end ==> !#[trigger] self.solves(*partial_header, n),
            },
    {
        let mut nonce: u64 = start;
        while nonce < end
            invariant
                start <= nonce,
                forall|n: u64| start <= n < nonce ==> !#[trigger] self.solves(*partial_header, n),
            decreases end - nonce,
        {
            let candidate = partial_header.sealed_with(nonce);
            if hash(&candidate) < self.threshold {
                proof {
                    self.lemma_first_solution_is_unique(*partial_header, start, end, nonce);
                }
                return Some(candidate);
            }
            nonce = nonce + 1;
        }
        None
    }
}

impl Consensus for Pow {
    type Digest = u64;

    /// Proof of work looks at the header alone: its hash, taken over all five
    /// fields, has to lie strictly below the threshold. The parent's digest
    /// plays no part.
    open spec fn accepts(&self, parent_digest: u64, header: Header<u64>) -> bool {
        header_hash(header) < self.threshold()
    }

    /// Checks that the hash of `header` lies below the threshold.
    fn validate(&self, _parent_digest: &u64, header: &Header<u64>) -> (valid: bool)
        ensures
            valid == (header_hash(*header) < self.threshold()),
    {
        hash(header) < self.threshold
    }

    /// Mines a seal for `partial_header`: tries the nonces from 0 upwards and
    /// stops at the first that solves the puzzle. `None` comes back only when
    /// every nonce below `u64::MAX` has been tried in vain.
    fn seal(&self, _parent_digest: &u64, partial_header: Header<()>) -> (sealed: Option<
        Header<u64>,
    >)
        ensures
            sealed == self.sealed(partial_header),
            match sealed {
                Some(header) => {
                    &&& header == partial_header.with_digest(header.consensus_digest)
                    &&& self.is_first_solution(partial_header, 0, u64::MAX, header.consensus_digest)
                },
                None => forall|n: u64| n < u64::MAX ==> !#[trigger] self.solves(partial_header, n),
            },
    {
        self.seal_in_range(&partial_header, 0, u64::MAX)
    }
}

/// An engine of moderate difficulty: its threshold is a hundredth of the hash
/// range, so about one header in a hundred is acceptable as it stands.
pub fn moderate_difficulty_pow() -> (engine: Pow)
    ensures
        engine.threshold() == u64::MAX / 100,
{
    Pow { threshold: u64::MAX / 100 }
}

/// An engine that asks for no work: its threshold is `u64::MAX`, the highest
/// there is, so it accepts every header whose hash is not `u64::MAX` itself.
pub fn trivial_always_valid_pow() -> (engine: Pow)
    ensures
        engine.threshold() == u64::MAX,
{
    Pow { threshold: u64::MAX }
}

impl Pow {
    /// A range has at most one first solution, so a nonce that is one is what
    /// `first_solution` picks.
    pub proof fn lemma_first_solution_is_unique(
        &self,
        partial: Header<()>,
        start: u64,
        end: u64,
        nonce: u64,
    )
        requires
            self.is_first_solution(partial, start, end, nonce),
        ensures
            self.first_solution(partial, start, end) == Some(nonce),
            self.sealed_in_range(partial, start, end) == Some(partial.with_digest(nonce)),
    {
    }

    /// Where some nonce of a range solves the puzzle, the range has a first
    /// solution.
    proof fn lemma_solution_has_first(&self, partial: Header<()>, start: u64, end: u64, nonce: u64)
        requires
            start <= nonce < end,
            self.solves(partial, nonce),
        ensures
            exists|n: u64| self.is_first_solution(partial, start, end, n),
        decreases nonce - start,
    {
        if exists|n: u64| start <= n < nonce && self.solves(partial, n) {
            let earlier = choose|n: u64| start <= n < nonce && self.solves(partial, n);
            self.lemma_solution_has_first(partial, start, end, earlier);
        } else {
            assert(self.is_first_solution(partial, start, end, nonce));
        }
    }

    /// `first_solution` in full: the nonce it gives lies in the range, solves
    /// the puzzle and has no solution before it; it gives `None` exactly when
    /// no nonce of the range solves the puzzle.
    pub proof fn lemma_first_solution_is_least(&self, partial: Header<()>, start: u64, end: u64)
        ensures
            match self.first_solution(partial, start, end) {
                Some(nonce) => self.is_first_solution(partial, start, end, nonce),
                None => forall|n: u64| start <= n < end ==> !#[trigger] self.solves(partial, n),
            },
    {
        if self.first_solution(partial, start, end) is None {
            assert forall|n: u64| start <= n < end implies !#[trigger] self.solves(partial, n) by {
                if self.solves(partial, n) {
                    self.lemma_solution_has_first(partial, start, end, n);
                }
            }
        }
    }

    /// A header that `seal` produces passes `validate`, whatever the
    /// threshold and whatever the parent's digest.
    pub proof fn lemma_seal_round_trip(&self, parent_digest: u64, partial: Header<()>)
        ensures
            self.sealed(partial) matches Some(header) ==> self.accepts(parent_digest, header),
    {
        self.lemma_first_solution_is_least(partial, 0, u64::MAX);
    }

    /// Sealing fills in the digest and nothing else: `parent`, `height`,
    /// `extrinsics_root` and `state_root` of a sealed header are those of the
    /// partial header it was made from, and the digest is a nonce below
    /// `u64::MAX`.
    pub proof fn lemma_seal_keeps_block(&self, partial: Header<()>)
        ensures
            self.sealed(partial) matches Some(header) ==> {
                &&& header.parent == partial.parent
                &&& header.height == partial.height
                &&& header.extrinsics_root == partial.extrinsics_root
                &&& header.state_root == partial.state_root
                &&& header.consensus_digest < u64::MAX
            },
    {
        self.lemma_first_solution_is_least(partial, 0, u64::MAX);
    }

    /// `seal` gives up only when it must: it returns `None` exactly when no
    /// nonce below `u64::MAX` solves the puzzle, and otherwise the header
    /// sealed with the smallest such nonce.
    pub proof fn lemma_seal_finds_least_nonce(&self, partial: Header<()>)
        ensures
            match self.sealed(partial) {
                Some(header) => {
                    &&& header == partial.with_digest(header.consensus_digest)
                    &&& self.is_first_solution(partial, 0, u64::MAX, header.consensus_digest)
                },
                None => forall|n: u64| n < u64::MAX ==> !#[trigger] self.solves(partial, n),
            },
    {
        self.lemma_first_solution_is_least(partial, 0, u64::MAX);
    }

    /// The verdict on a header does not depend on the parent's digest.
    pub proof fn lemma_validate_ignores_parent(&self, first: u64, second: u64, header: Header<u64>)
        ensures
            self.accepts(first, header) == self.accepts(second, header),
    {
    }

    /// A lower threshold is the harder puzzle: what an engine accepts, every
    /// engine with a threshold at least as high accepts too.
    pub proof fn lemma_lower_threshold_is_stricter(
        &self,
        easier: Pow,
        parent_digest: u64,
        header: Header<u64>,
    )
        requires
            self.threshold() <= easier.threshold(),
            self.accepts(parent_digest, header),
        ensures
            easier.accepts(parent_digest, header),
    {
    }

    /// With the threshold at `u64::MAX` every header is accepted, whatever its
    /// digest, unless its hash is `u64::MAX` itself: no hash is accepted that
    /// is not strictly below the threshold.
    pub proof fn lemma_trivial_accepts(&self, parent_digest: u64, header: Header<u64>)
        requires
            self.threshold() == u64::MAX,
            header_hash(header) != u64::MAX,
        ensures
            self.accepts(parent_digest, header),
    {
    }

    /// With the threshold at `u64::MAX` the search ends at the first nonce it
    /// tries: `seal` gives the header sealed with 0, unless that header's hash
    /// is `u64::MAX` itself.
    pub proof fn lemma_trivial_seals_with_zero(&self, partial: Header<()>)
        requires
            self.threshold() == u64::MAX,
            header_hash(partial.with_digest(0u64)) != u64::MAX,
        ensures
            self.sealed(partial) == Some(partial.with_digest(0u64)),
    {
        self.lemma_first_solution_is_unique(partial, 0, u64::MAX, 0);
    }

    /// With the threshold at 0 nothing is accepted, since no hash is below 0.
    pub proof fn lemma_zero_threshold_rejects(&self, parent_digest: u64, header: Header<u64>)
        requires
            self.threshold() == 0,
        ensures
            !self.accepts(parent_digest, header),
    {
    }

    /// With the threshold at 0 no search finds a seal, over whatever range it
    /// runs: `seal` tries every nonce below `u64::MAX` and gives `None`.
    pub proof fn lemma_zero_threshold_never_seals(&self, partial: Header<()>, start: u64, end: u64)
        requires
            self.threshold() == 0,
        ensures
            self.sealed_in_range(partial, start, end) is None,
            self.sealed(partial) is None,
    {
        self.lemma_first_solution_is_least(partial, start, end);
        self.lemma_first_solution_is_least(partial, 0, u64::MAX);
    }
}

} // verus!
