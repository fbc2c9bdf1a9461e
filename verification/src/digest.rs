use std::collections::hash_map::DefaultHasher;
use std::hash::Hasher;
use vstd::prelude::*;
use vstd::std_specs::hash::DefaultHasherAdditionalSpecFns;

verus! {

/// A digest strategy turns a byte string into a 64-bit digest.
///
/// The digest must be a deterministic function of the strategy's state and of
/// the input bytes: `digest_of` names that function in specifications, and
/// `digest` computes it. A sketch owns exactly one strategy, injected at
/// construction, so callers may substitute their own (for fixed test digests,
/// or for different distribution properties) in place of the default.
pub trait DigestStrategy: Sized {
    /// The digest this strategy assigns to `bytes`.
    spec fn digest_of(&self, bytes: Seq<u8>) -> u64;

    /// Compute the 64-bit digest of `bytes`.
    fn digest(&self, bytes: &[u8]) -> (d: u64)
        ensures
            d == self.digest_of(bytes@),
    ;
}

/// The digest function of a strategy as a single spec-level value, so that a
/// sketch's abstract view can carry it without naming the strategy's type.
pub open spec fn strategy_fn<D: DigestStrategy>(strategy: D) -> spec_fn(Seq<u8>) -> u64 {
    |bytes: Seq<u8>| strategy.digest_of(bytes)
}

/// The default digest strategy: hash the bytes with a fresh
/// `std::collections::hash_map::DefaultHasher` for each call, so the digest
/// depends on the input bytes alone.
#[derive(Clone, Copy, Debug)]
pub struct DefaultDigest;

impl DigestStrategy for DefaultDigest {
    open spec fn digest_of(&self, bytes: Seq<u8>) -> u64 {
        DefaultHasher::spec_finish(seq![bytes])
    }

    fn digest(&self, bytes: &[u8]) -> (d: u64) {
        let mut hasher = DefaultHasher::new();
        hasher.write(bytes);
        proof {
            assert(hasher@ =~= seq![bytes@]);
        }
        hasher.finish()
    }
}

} // verus!
