//! Laws that relate the operations of the library.
use crate::point::multiply_spec;
use crate::streebog::{digest_256_spec, digest_512_spec, hash_spec, one_block, zero_block};
use vstd::prelude::*;

verus! {

/// Both digests have their fixed lengths, and they differ only in the
/// starting value: all zero bytes for the 512-bit digest, all `0x01` bytes
/// (then cut to its first half) for the 256-bit digest.
pub proof fn lemma_digest_lengths(m: Seq<u8>)
    ensures
        digest_512_spec(m).len() == 64,
        digest_256_spec(m).len() == 32,
        digest_512_spec(m) == hash_spec(zero_block(), m),
        digest_256_spec(m) == hash_spec(one_block(), m).subrange(0, 32),
{
}

/// The 512-bit digest is a function of the message alone: equal messages
/// give equal digests.
pub proof fn lemma_digest_deterministic(m1: Seq<u8>, m2: Seq<u8>)
    requires
        m1 == m2,
    ensures
        digest_512_spec(m1) == digest_512_spec(m2),
{
}

/// Reducing a scalar in `[0, q)` modulo `q` leaves its multiple of a point
/// unchanged.
pub proof fn lemma_multiply_reduced_scalar(g: (int, int), k: int, q: int, p: int, a: int)
    requires
        0 <= k < q,
    ensures
        multiply_spec(g, (k % q) as nat, p, a) == multiply_spec(g, k as nat, p, a),
{
    vstd::arithmetic::div_mod::lemma_small_mod(k as nat, q as nat);
}

} // verus!
