//! The compression function and the hash driver.
use crate::block::{
    add_spec, linear_permutation_bijective, lps_spec, xor, xor_spec, Block, BLOCK_SIZE,
};
use crate::tables::C;
use vstd::prelude::*;

verus! {

/// One step of the key schedule: `K_{i+1} = LPS(K_i ^ C[i])`.
pub open spec fn key_schedule_spec(k: Seq<u8>, i: int) -> Seq<u8> {
    lps_spec(xor_spec(k, C@[i]@))
}

/// State and round key of the keyed permutation after `i` rounds.
pub open spec fn e_rounds(k: Seq<u8>, m: Seq<u8>, i: nat) -> (Seq<u8>, Seq<u8>)
    decreases i,
{
    if i == 0 {
        (xor_spec(k, m), k)
    } else {
        let (s, key) = e_rounds(k, m, (i - 1) as nat);
        let next = key_schedule_spec(key, i - 1);
        (xor_spec(next, lps_spec(s)), next)
    }
}

/// The keyed permutation `E(K, m)` of twelve rounds.
pub open spec fn e_spec(k: Seq<u8>, m: Seq<u8>) -> Seq<u8> {
    e_rounds(k, m, 12).0
}

/// The compression function `g_N(h, m)`.
pub open spec fn compression_spec(n: Seq<u8>, h: Seq<u8>, m: Seq<u8>) -> Seq<u8> {
    xor_spec(xor_spec(e_spec(lps_spec(xor_spec(h, n)), m), h), m)
}

/// The block of 64 zero bytes.
pub open spec fn zero_block() -> Seq<u8> {
    Seq::new(64, |i: int| 0u8)
}

/// The block of 64 bytes `0x01`: the starting value of the 256-bit digest.
pub open spec fn one_block() -> Seq<u8> {
    Seq::new(64, |i: int| 1u8)
}

/// The number 512 as a block.
pub open spec fn n512_block() -> Seq<u8> {
    Seq::new(64, |i: int| if i == 62 { 2u8 } else { 0u8 })
}

/// The bit length `8 * len` of a final fragment as a block (its low 16 bits).
pub open spec fn length_block(len: nat) -> Seq<u8> {
    Seq::new(
        64,
        |i: int|
            if i == 62 {
                ((len * 8) / 256 % 256) as u8
            } else if i == 63 {
                ((len * 8) % 256) as u8
            } else {
                0u8
            },
    )
}

/// The final fragment (shorter than 64 bytes) at the end of a block, with
/// the marker byte `0x01` just before it.
pub open spec fn padding_spec(m: Seq<u8>) -> Seq<u8> {
    Seq::new(
        64,
        |i: int|
            if i >= 64 - m.len() {
                m[i - (64 - m.len())]
            } else if m.len() < 64 && i == 63 - m.len() {
                1u8
            } else {
                0u8
            },
    )
}

/// Chaining value, counter and checksum after every full 64-byte block of `m`
/// has been absorbed, taken from the end of `m` toward its start.
pub open spec fn absorb(h: Seq<u8>, n: Seq<u8>, sigma: Seq<u8>, m: Seq<u8>) -> (
    Seq<u8>,
    Seq<u8>,
    Seq<u8>,
)
    decreases m.len(),
{
    if m.len() < 64 {
        (h, n, sigma)
    } else {
        let section = m.subrange(m.len() - 64, m.len() as int);
        absorb(
            compression_spec(n, h, section),
            add_spec(n, n512_block()),
            add_spec(sigma, section),
            m.subrange(0, m.len() - 64),
        )
    }
}

/// The digest of `m` from the starting value `iv`, before any truncation.
pub open spec fn hash_spec(iv: Seq<u8>, m: Seq<u8>) -> Seq<u8> {
    let (h, n, sigma) = absorb(iv, zero_block(), zero_block(), m);
    let rest = m.subrange(0, (m.len() % 64) as int);
    let section = padding_spec(rest);
    let h1 = compression_spec(n, h, section);
    let n1 = add_spec(n, length_block(rest.len()));
    let sigma1 = add_spec(sigma, section);
    let h2 = compression_spec(zero_block(), h1, n1);
    compression_spec(zero_block(), h2, sigma1)
}

/// The 512-bit digest of `m`.
pub open spec fn digest_512_spec(m: Seq<u8>) -> Seq<u8> {
    hash_spec(zero_block(), m)
}

/// The 256-bit digest of `m`: the first half of the digest from the
/// starting value of all `0x01` bytes.
pub open spec fn digest_256_spec(m: Seq<u8>) -> Seq<u8> {
    hash_spec(one_block(), m).subrange(0, 32)
}

/// One step of the key schedule.
pub fn key_schedule(k: Block, i: usize) -> (r: Block)
    requires
        i < 12,
    ensures
        r@ == key_schedule_spec(k@, i as int),
{
    linear_permutation_bijective(xor(k, C[i]))
}

/// The keyed permutation `E(k, m)`.
pub fn e_transformation(k: Block, m: Block) -> (r: Block)
    ensures
        r@ == e_spec(k@, m@),
{
    let mut s = xor(k, m);
    let mut key = k;
    let mut i: usize = 0;
    while i < 12
        invariant
            i <= 12,
            (s@, key@) == e_rounds(k@, m@, i as nat),
        decreases 12 - i,
    {
        s = linear_permutation_bijective(s);
        key = key_schedule(key, i);
        s = xor(key, s);
        i += 1;
    }
    s
}

/// The compression function `g_n(h, m)`.
pub fn compression(n: Block, h: Block, m: Block) -> (r: Block)
    ensures
        r@ == compression_spec(n@, h@, m@),
{
    let k = xor(h, n);
    let k = linear_permutation_bijective(k);
    let t = e_transformation(k, m);
    let t = xor(t, h);
    xor(t, m)
}

/// Places the first `len` bytes of `m` at the end of a block, preceded by the
/// marker byte `0x01` when they do not fill it.
pub fn padding(m: &[u8], len: usize) -> (r: Block)
    requires
        len <= 64,
        len <= m@.len(),
    ensures
        r@ == padding_spec(m@.subrange(0, len as int)),
{
    let mut output = [0u8; 64];
    let mut i: usize = 0;
    while i < len
        invariant
            len <= 64,
            len <= m@.len(),
            i <= len,
            forall|j: int| 0 <= j < 64 - len ==> output@[j] == 0u8,
            forall|j: int| 0 <= j < i ==> output@[64 - len + j] == m@[j],
        decreases len - i,
    {
        output[BLOCK_SIZE - len + i] = m[i];
        i += 1;
    }
    if len < BLOCK_SIZE {
        output[BLOCK_SIZE - len - 1] = 0x01;
    }
    assert(output@ =~= padding_spec(m@.subrange(0, len as int)));
    output
}

/// The digest of `message` from the starting value `iv`.
pub fn hash(iv: Block, message: &[u8]) -> (r: Block)
    ensures
        r@ == hash_spec(iv@, message@),
{
    let mut h = iv;
    let mut n = [0u8; 64];
    let mut sigma = [0u8; 64];
    let mut n_512 = [0u8; 64];
    n_512[62] = 0x02;
    assert(n@ =~= zero_block());
    assert(sigma@ =~= zero_block());
    assert(n_512@ =~= n512_block());
    let ghost m = message@;

    let mut len: usize = message.len();
    assert(m.subrange(0, len as int) =~= m);
    while len >= BLOCK_SIZE
        invariant
            m == message@,
            len <= m.len(),
            (m.len() - len) % 64 == 0,
            n_512@ == n512_block(),
            absorb(iv@, zero_block(), zero_block(), m) == absorb(
                h@,
                n@,
                sigma@,
                m.subrange(0, len as int),
            ),
        decreases len,
    {
        let mut section = [0u8; 64];
        let mut i: usize = 0;
        while i < BLOCK_SIZE
            invariant
                m == message@,
                64 <= len <= m.len(),
                i <= 64,
                forall|j: int| 0 <= j < i ==> section@[j] == m[len - 64 + j],
            decreases 64 - i,
        {
            section[i] = message[len - BLOCK_SIZE + i];
            i += 1;
        }
        let ghost prefix = m.subrange(0, len as int);
        assert(section@ =~= prefix.subrange(prefix.len() - 64, prefix.len() as int));
        assert(m.subrange(0, len - 64) =~= prefix.subrange(0, prefix.len() - 64));
        h = compression(n, h, section);
        n = crate::block::add(n, n_512);
        sigma = crate::block::add(sigma, section);
        len -= BLOCK_SIZE;
    }
    assert(len as int == m.len() % 64) by {
        vstd::arithmetic::div_mod::lemma_fundamental_div_mod_converse(
            m.len() as int,
            64,
            (m.len() - len) / 64,
            len as int,
        );
    }
    let section = padding(message, len);

    let mut v = [0u8; 64];
    let v0 = [0u8; 64];
    let bits: usize = len * 8;
    v[63] = (bits % 256) as u8;
    v[62] = (bits / 256) as u8;
    assert(v@ =~= length_block(len as nat));
    assert(v0@ =~= zero_block());
    assert(m.subrange(0, len as int).len() == len);

    h = compression(n, h, section);
    n = crate::block::add(n, v);
    sigma = crate::block::add(sigma, section);
    h = compression(v0, h, n);
    h = compression(v0, h, sigma);
    h
}

/// The 512-bit digest of `message`.
pub fn hash_512(message: &[u8]) -> (r: Block)
    ensures
        r@ == digest_512_spec(message@),
        r@.len() == 64,
{
    let iv = [0u8; 64];
    assert(iv@ =~= zero_block());
    hash(iv, message)
}

/// The 256-bit digest of `message`.
pub fn hash_256(message: &[u8]) -> (r: [u8; 32])
    ensures
        r@ == digest_256_spec(message@),
        r@.len() == 32,
{
    let iv = [1u8; 64];
    assert(iv@ =~= one_block());
    let full = hash(iv, message);
    let mut output = [0u8; 32];
    let mut i: usize = 0;
    while i < 32
        invariant
            i <= 32,
            forall|j: int| 0 <= j < i ==> output@[j] == full@[j],
        decreases 32 - i,
    {
        output[i] = full[i];
        i += 1;
    }
    assert(output@ =~= full@.subrange(0, 32));
    output
}

} // verus!
