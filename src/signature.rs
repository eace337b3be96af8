//! Signing and verification of messages under GOST R 34.10-2012.
use crate::block::Block;
use crate::curve::Curve;
use crate::natural::{be_val, has_inverse, inverse, le_val, min_le_bytes, Natural};
use crate::point::{add_spec, multiply_spec, opt_view, reduced, Point};
use crate::streebog::{digest_512_spec, hash_512};
use vstd::arithmetic::div_mod::lemma_sub_mod_noop;
use vstd::prelude::*;

verus! {

/// The digest of `message` read as a little-endian integer, modulo `q`,
/// with zero replaced by one.
pub open spec fn digest_scalar(message: Seq<u8>, q: int) -> int {
    let e = le_val(digest_512_spec(message)) as int % q;
    if e == 0 {
        1
    } else {
        e
    }
}

/// The pair `(r, s)` signed with the scalar `k`, or `None` where `k`, `r` or
/// `s` is zero (or a point step has no inverse).
pub open spec fn sign_spec(
    e: int,
    d: int,
    k: int,
    g: (int, int),
    p: int,
    a: int,
    q: int,
) -> Option<(int, int)> {
    if k == 0 {
        None
    } else {
        match multiply_spec(g, k as nat, p, a) {
            None => None,
            Some(c) => {
                let r = c.0 % q;
                let s = (r * d + k * e) % q;
                if r == 0 || s == 0 {
                    None
                } else {
                    Some((r, s))
                }
            },
        }
    }
}

/// The outcome of verifying the pair `(r, s)` for the digest scalar `e`
/// against the public point `pub_pt`.
pub open spec fn verify_spec(
    r: int,
    s: int,
    e: int,
    g: (int, int),
    pub_pt: (int, int),
    p: int,
    a: int,
    q: int,
) -> bool {
    if !(0 < r < q && 0 < s < q) || !has_inverse(e, q) {
        false
    } else {
        let v = inverse(e, q);
        let z1 = (s * v) % q;
        let z2 = (-(r * v)) % q;
        match (multiply_spec(g, z1 as nat, p, a), multiply_spec(pub_pt, z2 as nat, p, a)) {
            (Some(c1), Some(c2)) => match add_spec(c1, c2, p, a) {
                Some(c) => c.0 % q == r,
                None => false,
            },
            _ => false,
        }
    }
}

/// The scalar of the concatenated shortest little-endian digits of `r` and
/// `s`, read big-endian.
pub open spec fn concat_spec(r: nat, s: nat) -> nat {
    be_val(min_le_bytes(r) + min_le_bytes(s))
}

/// Parameters that signing and verification work with: moduli above one and a
/// generator with reduced coordinates.
pub open spec fn valid_setup(curve: Curve, g: Point) -> bool {
    curve.p@ > 1 && curve.q@ > 1 && reduced(g@, curve.p@ as int)
}

/// A signature: the scalars `r` and `s`, and `sign`, their concatenation.
#[derive(Clone, Debug)]
pub struct Signature {
    pub sign: Natural,
    pub r: Natural,
    pub s: Natural,
}

/// The shortest little-endian digits of `r` followed by those of `s`.
fn wire_bytes(r: &Natural, s: &Natural) -> (out: Vec<u8>)
    ensures
        out@ == min_le_bytes(r@) + min_le_bytes(s@),
{
    let mut bytes = r.to_min_le_bytes();
    let mut tail = s.to_min_le_bytes();
    bytes.append(&mut tail);
    bytes
}

/// The digest of `message` read as a little-endian integer, modulo `q`, with
/// zero replaced by one.
fn message_scalar(message: &[u8], q: &Natural) -> (r: Natural)
    requires
        q@ > 1,
    ensures
        r@ == digest_scalar(message@, q@ as int),
{
    let hash: Block = hash_512(message);
    let mut digits: Vec<u8> = Vec::new();
    let mut i: usize = 0;
    while i < 64
        invariant
            i <= 64,
            digits@ == hash@.subrange(0, i as int),
        decreases 64 - i,
    {
        digits.push(hash[i]);
        i += 1;
        assert(digits@ =~= hash@.subrange(0, i as int));
    }
    assert(hash@.subrange(0, 64) =~= hash@);
    let e = Natural::from_le_bytes(digits).modulo(q);
    if e.is_zero() {
        Natural::from_u8(1)
    } else {
        e
    }
}

impl Signature {
    /// Signs `message` with the private scalar `key` and the per-signature
    /// scalar `k`; `None` where `k`, `r` or `s` comes out zero.
    pub fn sign_with_k(message: &[u8], key: &Natural, curve: &Curve, generator: &Point, k: &Natural) -> (r: Option<Signature>)
        requires
            valid_setup(*curve, *generator),
        ensures
            r is Some <==> sign_spec(
                digest_scalar(message@, curve.q@ as int),
                key@ as int,
                k@ as int,
                generator@,
                curve.p@ as int,
                curve.a@ as int,
                curve.q@ as int,
            ) is Some,
            r matches Some(sig) ==> sign_spec(
                digest_scalar(message@, curve.q@ as int),
                key@ as int,
                k@ as int,
                generator@,
                curve.p@ as int,
                curve.a@ as int,
                curve.q@ as int,
            ) == Some((sig.r@ as int, sig.s@ as int)) && sig.sign@ == concat_spec(sig.r@, sig.s@),
    {
        let e = message_scalar(message, &curve.q);
        if k.is_zero() {
            return None;
        }
        let big_c = match generator.multiply(k, &curve.p, &curve.a) {
            None => return None,
            Some(c) => c,
        };
        let r = big_c.x.modulo(&curve.q);
        let s = r.times(key).plus(&k.times(&e)).modulo(&curve.q);
        if r.is_zero() || s.is_zero() {
            return None;
        }
        let sign = Natural::from_be_bytes(&wire_bytes(&r, &s));
        Some(Signature { sign, r, s })
    }

    /// Signs `message` with the private scalar `key`, drawing the
    /// per-signature scalar at random in `[0, q)` until `k`, `r` and `s` are
    /// all non-zero; `None` only once every draw of a bounded number has failed.
    pub fn sign(message: &[u8], key: &Natural, curve: &Curve, generator: &Point) -> (r: Option<Signature>)
        requires
            valid_setup(*curve, *generator),
        ensures
            r matches Some(sig) ==> exists|k: int|
                0 < k < curve.q@ && #[trigger] sign_spec(
                    digest_scalar(message@, curve.q@ as int),
                    key@ as int,
                    k,
                    generator@,
                    curve.p@ as int,
                    curve.a@ as int,
                    curve.q@ as int,
                ) == Some((sig.r@ as int, sig.s@ as int)),
            r matches Some(sig) ==> sig.sign@ == concat_spec(sig.r@, sig.s@),
    {
        let mut attempts: u64 = 0;
        while attempts < u64::MAX
            invariant
                valid_setup(*curve, *generator),
            decreases u64::MAX - attempts,
        {
            let k = Natural::random_below(&curve.q);
            match Signature::sign_with_k(message, key, curve, generator, &k) {
                Some(sig) => {
                    return Some(sig);
                },
                None => {},
            }
            attempts += 1;
        }
        None
    }

    /// The wire form: the shortest little-endian digits of `r` followed by
    /// those of `s`, with no length prefix.
    pub fn to_wire_bytes(&self) -> (out: Vec<u8>)
        ensures
            out@ == min_le_bytes(self.r@) + min_le_bytes(self.s@),
    {
        wire_bytes(&self.r, &self.s)
    }

    /// Whether the signature holds for `message` under the public point
    /// `public`.
    pub fn verify(&self, message: &[u8], curve: &Curve, generator: &Point, public: &Point) -> (r: bool)
        requires
            valid_setup(*curve, *generator),
            reduced(public@, curve.p@ as int),
        ensures
            r == verify_spec(
                self.r@ as int,
                self.s@ as int,
                digest_scalar(message@, curve.q@ as int),
                generator@,
                public@,
                curve.p@ as int,
                curve.a@ as int,
                curve.q@ as int,
            ),
    {
        let q = &curve.q;
        if !(!self.r.is_zero() && self.r.less_than(q) && !self.s.is_zero() && self.s.less_than(q)) {
            return false;
        }
        let e = message_scalar(message, q);
        let v = match e.mod_inverse(q) {
            None => return false,
            Some(v) => v,
        };
        let z1 = self.s.times(&v).modulo(q);
        let rv = self.r.times(&v).modulo(q);
        let z2 = Natural::from_u8(0).plus(q).minus(&rv).modulo(q);
        proof {
            let (pr, pq) = (self.r@ as int * v@ as int, q@ as int);
            lemma_sub_mod_noop(0, pr, pq);
            vstd::arithmetic::div_mod::lemma_mod_add_multiples_vanish(0 - rv@, pq);
        }
        let c1 = match generator.multiply(&z1, &curve.p, &curve.a) {
            None => return false,
            Some(c) => c,
        };
        let c2 = match public.multiply(&z2, &curve.p, &curve.a) {
            None => return false,
            Some(c) => c,
        };
        let big_c = match c1.add(&c2, &curve.p, &curve.a) {
            None => return false,
            Some(c) => c,
        };
        big_c.x.modulo(q).equals(&self.r)
    }
}

} // verus!
