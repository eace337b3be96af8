//! The 64-byte block primitives of the round function.
use crate::tables::{A, PI, TAU};
use vstd::prelude::*;

verus! {

/// Number of bytes in a block.
pub const BLOCK_SIZE: usize = 64;

/// A 512-bit value, most significant byte first.
pub type Block = [u8; 64];

/// Byte-wise exclusive-or of two blocks.
pub open spec fn xor_spec(x: Seq<u8>, y: Seq<u8>) -> Seq<u8> {
    Seq::new(64, |i: int| x[i] ^ y[i])
}

/// Byte-wise substitution through `PI`.
pub open spec fn sub_spec(x: Seq<u8>) -> Seq<u8> {
    Seq::new(64, |i: int| PI@[x[i] as int])
}

/// Byte permutation: byte `i` of the result is byte `TAU[i]` of the input.
pub open spec fn perm_spec(x: Seq<u8>) -> Seq<u8> {
    Seq::new(64, |i: int| x[TAU@[i] as int])
}

/// Bit `j` of lane `lane`, counting from the most significant bit of the lane.
pub open spec fn lane_bit(x: Seq<u8>, lane: int, j: int) -> bool {
    (x[8 * lane + j / 8] >> ((7 - j % 8) as u8)) & 1u8 == 1u8
}

/// Exclusive-or of the rows `A[0..j]` selected by the first `j` bits of a lane.
pub open spec fn lane_mix(x: Seq<u8>, lane: int, j: nat) -> u64
    decreases j,
{
    if j == 0 {
        0
    } else {
        let t = lane_mix(x, lane, (j - 1) as nat);
        if lane_bit(x, lane, j - 1) {
            t ^ A@[j - 1]
        } else {
            t
        }
    }
}

/// The linear transform: each 8-byte lane is multiplied by the matrix `A`
/// and written back most significant byte first.
pub open spec fn linear_spec(x: Seq<u8>) -> Seq<u8> {
    Seq::new(64, |k: int| (lane_mix(x, k / 8, 64) >> ((56 - 8 * (k % 8)) as u64)) as u8)
}

/// The full round substitution `L(P(S(x)))`.
pub open spec fn lps_spec(x: Seq<u8>) -> Seq<u8> {
    linear_spec(perm_spec(sub_spec(x)))
}

/// Carry into byte `i - 1` when adding the bytes `i..64` of two blocks.
pub open spec fn carry_spec(x: Seq<u8>, y: Seq<u8>, i: int) -> nat
    decreases 64 - i,
{
    if i >= 64 || i < 0 {
        0
    } else {
        (x[i] + y[i] + carry_spec(x, y, i + 1)) as nat / 256
    }
}

/// Addition of two blocks modulo 2^512, carries moving toward byte 0.
pub open spec fn add_spec(x: Seq<u8>, y: Seq<u8>) -> Seq<u8> {
    Seq::new(64, |i: int| ((x[i] + y[i] + carry_spec(x, y, i + 1)) % 256) as u8)
}

/// `256^n`.
pub open spec fn pow256(n: nat) -> nat
    decreases n,
{
    if n == 0 {
        1
    } else {
        256 * pow256((n - 1) as nat)
    }
}

/// The value of the bytes `i..64` of a block, most significant byte first.
pub open spec fn suffix_val(x: Seq<u8>, i: int) -> nat
    decreases 64 - i,
{
    if i >= 64 || i < 0 {
        0
    } else {
        x[i] as nat * pow256((63 - i) as nat) + suffix_val(x, i + 1)
    }
}

/// The value of a block read as a big-endian integer.
pub open spec fn block_val(x: Seq<u8>) -> nat {
    suffix_val(x, 0)
}

proof fn lemma_suffix_bound(x: Seq<u8>, i: int)
    requires
        0 <= i <= 64,
    ensures
        suffix_val(x, i) < pow256((64 - i) as nat),
    decreases 64 - i,
{
    if i < 64 {
        lemma_suffix_bound(x, i + 1);
        let w = pow256((63 - i) as nat);
        let b = x[i] as nat;
        let rest = suffix_val(x, i + 1);
        assert(b * w + rest < 256 * w) by (nonlinear_arith)
            requires
                b < 256,
                rest < w,
        ;
    }
}

proof fn lemma_add_suffix(x: Seq<u8>, y: Seq<u8>, i: int)
    requires
        0 <= i <= 64,
        x.len() == 64,
        y.len() == 64,
    ensures
        suffix_val(add_spec(x, y), i) + carry_spec(x, y, i) * pow256((64 - i) as nat)
            == suffix_val(x, i) + suffix_val(y, i),
    decreases 64 - i,
{
    if i < 64 {
        lemma_add_suffix(x, y, i + 1);
        let t = (x[i] + y[i] + carry_spec(x, y, i + 1)) as nat;
        let w = pow256((63 - i) as nat);
        let lo = (t % 256) as nat;
        let hi = t / 256;
        assert(add_spec(x, y)[i] as nat == lo);
        assert(carry_spec(x, y, i) == hi);
        assert(pow256((64 - i) as nat) == 256 * w);
        assert(pow256((64 - (i + 1)) as nat) == w);
        assert(suffix_val(add_spec(x, y), i) == lo * w + suffix_val(add_spec(x, y), i + 1));
        assert(suffix_val(x, i) == x[i] as nat * w + suffix_val(x, i + 1));
        assert(suffix_val(y, i) == y[i] as nat * w + suffix_val(y, i + 1));
        assert(lo * w + hi * (256 * w) == t * w) by (nonlinear_arith)
            requires
                t == hi * 256 + lo,
        ;
        assert(t * w == x[i] as nat * w + y[i] as nat * w + carry_spec(x, y, i + 1) * w)
            by (nonlinear_arith)
            requires
                t == x[i] as nat + y[i] as nat + carry_spec(x, y, i + 1),
        ;
        assert(carry_spec(x, y, i) * pow256((64 - i) as nat) == hi * (256 * w));
        let sr = suffix_val(add_spec(x, y), i + 1);
        let c1 = carry_spec(x, y, i + 1);
        assert(sr + c1 * w == suffix_val(x, i + 1) + suffix_val(y, i + 1));
        assert(lo * w + sr + hi * (256 * w) == suffix_val(x, i) + suffix_val(y, i));
    } else {
        assert(carry_spec(x, y, i) == 0);
        assert(suffix_val(add_spec(x, y), i) == 0);
    }
}

/// The byte-wise addition with carries is addition of the big-endian values
/// modulo 2^512.
pub proof fn lemma_add_value(x: Seq<u8>, y: Seq<u8>)
    requires
        x.len() == 64,
        y.len() == 64,
    ensures
        block_val(add_spec(x, y)) == (block_val(x) + block_val(y)) % pow256(64),
{
    lemma_add_suffix(x, y, 0);
    lemma_suffix_bound(add_spec(x, y), 0);
    vstd::arithmetic::div_mod::lemma_fundamental_div_mod_converse(
        (block_val(x) + block_val(y)) as int,
        pow256(64) as int,
        carry_spec(x, y, 0) as int,
        block_val(add_spec(x, y)) as int,
    );
}

/// Byte-wise exclusive-or of two blocks.
pub fn xor(k: Block, a: Block) -> (r: Block)
    ensures
        r@ == xor_spec(k@, a@),
{
    let mut output = [0u8; 64];
    let mut i: usize = 0;
    while i < BLOCK_SIZE
        invariant
            i <= 64,
            forall|j: int| 0 <= j < i ==> output@[j] == k@[j] ^ a@[j],
        decreases 64 - i,
    {
        output[i] = k[i] ^ a[i];
        i += 1;
    }
    assert(output@ =~= xor_spec(k@, a@));
    output
}

/// Byte-wise substitution through `PI`.
pub fn bijective(a: Block) -> (r: Block)
    ensures
        r@ == sub_spec(a@),
{
    let mut output = [0u8; 64];
    let mut i: usize = 0;
    while i < BLOCK_SIZE
        invariant
            i <= 64,
            forall|j: int| 0 <= j < i ==> output@[j] == PI@[a@[j] as int],
        decreases 64 - i,
    {
        output[i] = PI[a[i] as usize];
        i += 1;
    }
    assert(output@ =~= sub_spec(a@));
    output
}

/// Byte permutation through `TAU`.
pub fn permutation(a: Block) -> (r: Block)
    ensures
        r@ == perm_spec(a@),
{
    let mut output = [0u8; 64];
    let mut i: usize = 0;
    while i < BLOCK_SIZE
        invariant
            i <= 64,
            forall|j: int| 0 <= j < 64 ==> TAU@[j] < 64,
            forall|j: int| 0 <= j < i ==> output@[j] == a@[TAU@[j] as int],
        decreases 64 - i,
    {
        output[i] = a[TAU[i]];
        i += 1;
    }
    assert(output@ =~= perm_spec(a@));
    output
}

/// The linear transform, lane by lane.
pub fn linear(a: Block) -> (r: Block)
    ensures
        r@ == linear_spec(a@),
{
    let mut output = [0u8; 64];
    let mut i: usize = 0;
    while i < 8
        invariant
            i <= 8,
            forall|k: int| 0 <= k < 8 * i ==> output@[k] == linear_spec(a@)[k],
        decreases 8 - i,
    {
        let mut t: u64 = 0;
        let mut j: usize = 0;
        while j < 64
            invariant
                i < 8,
                j <= 64,
                t == lane_mix(a@, i as int, j as nat),
            decreases 64 - j,
        {
            let byte = a[i * 8 + j / 8];
            let shift = (7 - j % 8) as u8;
            if (byte >> shift) & 1u8 == 1u8 {
                t = t ^ A[j];
            }
            j += 1;
        }
        let mut k: usize = 0;
        while k < 8
            invariant
                i < 8,
                k <= 8,
                t == lane_mix(a@, i as int, 64),
                forall|m: int| 0 <= m < 8 * i + k ==> output@[m] == linear_spec(a@)[m],
            decreases 8 - k,
        {
            output[i * 8 + k] = (t >> (56 - 8 * k as u64)) as u8;
            assert(((8 * i + k) as int) / 8 == i as int && ((8 * i + k) as int) % 8 == k as int);
            k += 1;
        }
        i += 1;
    }
    assert(output@ =~= linear_spec(a@));
    output
}

/// The full round substitution `L(P(S(a)))`.
pub fn linear_permutation_bijective(a: Block) -> (r: Block)
    ensures
        r@ == lps_spec(a@),
{
    linear(permutation(bijective(a)))
}

/// Addition of two blocks read as big-endian integers, modulo 2^512.
pub fn add(l: Block, r: Block) -> (res: Block)
    ensures
        res@ == add_spec(l@, r@),
        block_val(res@) == (block_val(l@) + block_val(r@)) % pow256(64),
{
    let mut result = [0u8; 64];
    let mut carry: u16 = 0;
    let mut k: usize = 64;
    while k > 0
        invariant
            k <= 64,
            carry as nat == carry_spec(l@, r@, k as int),
            carry <= 1,
            forall|m: int| k <= m < 64 ==> result@[m] == add_spec(l@, r@)[m],
        decreases k,
    {
        let i = k - 1;
        let t: u16 = l[i] as u16 + r[i] as u16 + carry;
        result[i] = (t % 256) as u8;
        carry = t / 256;
        k = i;
    }
    assert(result@ =~= add_spec(l@, r@));
    proof {
        lemma_add_value(l@, r@);
    }
    result
}

} // verus!
