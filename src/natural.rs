//! Non-negative integers of any size, with their arithmetic carried out by
//! `num_bigint_dig`.
use num_bigint_dig::{BigUint, ModInverse, RandBigInt};
use num_traits::Num;
use std::cmp::Ordering;
use vstd::arithmetic::div_mod::{lemma_mul_mod_noop_left, lemma_mul_mod_noop_right};
use vstd::prelude::*;
use vstd::string::StringSliceAdditionalSpecFns;

verus! {

/// The value of little-endian base-256 digits.
pub open spec fn le_val(s: Seq<u8>) -> nat
    decreases s.len(),
{
    if s.len() == 0 {
        0
    } else {
        s[0] as nat + 256 * le_val(s.skip(1))
    }
}

/// Whether `s` is a non-empty string of ASCII decimal digits.
pub open spec fn is_decimal(s: Seq<u8>) -> bool {
    s.len() > 0 && forall|i: int| 0 <= i < s.len() ==> 48 <= #[trigger] s[i] <= 57
}

/// The value of a string of ASCII decimal digits.
pub open spec fn decimal_val(s: Seq<u8>) -> nat
    decreases s.len(),
{
    if s.len() == 0 {
        0
    } else {
        decimal_val(s.drop_last()) * 10 + (s.last() - 48) as nat
    }
}

/// The value of big-endian base-256 digits.
pub open spec fn be_val(s: Seq<u8>) -> nat {
    le_val(s.reverse())
}

/// The shortest little-endian base-256 digits of `v`: one digit for zero.
pub open spec fn min_le_bytes(v: nat) -> Seq<u8>
    decreases v,
{
    if v < 256 {
        seq![v as u8]
    } else {
        seq![(v % 256) as u8] + min_le_bytes(v / 256)
    }
}

/// Whether `y` in `[0, m)` is an inverse of `a` modulo `m`.
pub open spec fn is_inverse(a: int, m: int, y: int) -> bool {
    0 <= y < m && (a * y) % m == 1
}

/// Whether `a` has an inverse modulo `m`.
pub open spec fn has_inverse(a: int, m: int) -> bool {
    exists|y: int| #[trigger] is_inverse(a, m, y)
}

/// The inverse of `a` modulo `m`, in `[0, m)`, where it exists.
pub open spec fn inverse(a: int, m: int) -> int {
    choose|y: int| #[trigger] is_inverse(a, m, y)
}

/// Relies on `BigUint::from_bytes_le`, `Add` and `BigUint::to_bytes_le`:
/// the little-endian digits of the sum.
#[verifier::external_body]
fn digits_add(a: &Vec<u8>, b: &Vec<u8>) -> (r: Vec<u8>)
    ensures
        le_val(r@) == le_val(a@) + le_val(b@),
{
    (BigUint::from_bytes_le(a) + BigUint::from_bytes_le(b)).to_bytes_le()
}

/// Relies on `BigUint::from_bytes_le`, `Sub` and `BigUint::to_bytes_le`:
/// the little-endian digits of the difference (`Sub` panics below zero).
#[verifier::external_body]
fn digits_sub(a: &Vec<u8>, b: &Vec<u8>) -> (r: Vec<u8>)
    requires
        le_val(a@) >= le_val(b@),
    ensures
        le_val(r@) == le_val(a@) - le_val(b@),
{
    (BigUint::from_bytes_le(a) - BigUint::from_bytes_le(b)).to_bytes_le()
}

/// Relies on `BigUint::from_bytes_le`, `Mul` and `BigUint::to_bytes_le`:
/// the little-endian digits of the product.
#[verifier::external_body]
fn digits_mul(a: &Vec<u8>, b: &Vec<u8>) -> (r: Vec<u8>)
    ensures
        le_val(r@) == le_val(a@) * le_val(b@),
{
    (BigUint::from_bytes_le(a) * BigUint::from_bytes_le(b)).to_bytes_le()
}

/// Relies on `BigUint::from_bytes_le`, `Rem` and `BigUint::to_bytes_le`:
/// the little-endian digits of the remainder (`Rem` panics on a zero divisor).
#[verifier::external_body]
fn digits_rem(a: &Vec<u8>, b: &Vec<u8>) -> (r: Vec<u8>)
    requires
        le_val(b@) > 0,
    ensures
        le_val(r@) == le_val(a@) % le_val(b@),
{
    (BigUint::from_bytes_le(a) % BigUint::from_bytes_le(b)).to_bytes_le()
}

/// Relies on `BigUint::from_bytes_le`, `Div` and `BigUint::to_bytes_le`:
/// the little-endian digits of the quotient (`Div` panics on a zero divisor).
#[verifier::external_body]
fn digits_div(a: &Vec<u8>, b: &Vec<u8>) -> (r: Vec<u8>)
    requires
        le_val(b@) > 0,
    ensures
        le_val(r@) == le_val(a@) / le_val(b@),
{
    (BigUint::from_bytes_le(a) / BigUint::from_bytes_le(b)).to_bytes_le()
}

/// Relies on `BigUint::from_bytes_le`, `Shr<usize>` and `BigUint::to_bytes_le`:
/// a shift right by one bit halves the value, rounding down.
#[verifier::external_body]
fn digits_half(a: &Vec<u8>) -> (r: Vec<u8>)
    ensures
        le_val(r@) == le_val(a@) / 2,
{
    (BigUint::from_bytes_le(a) >> 1usize).to_bytes_le()
}

/// Relies on `BigUint::from_bytes_le` and `Ord::cmp` of `BigUint`: the order
/// of the two values.
#[verifier::external_body]
fn digits_cmp(a: &Vec<u8>, b: &Vec<u8>) -> (r: Ordering)
    ensures
        (r == Ordering::Less) == (le_val(a@) < le_val(b@)),
        (r == Ordering::Equal) == (le_val(a@) == le_val(b@)),
        (r == Ordering::Greater) == (le_val(a@) > le_val(b@)),
{
    BigUint::from_bytes_le(a).cmp(&BigUint::from_bytes_le(b))
}

/// Relies on `ModInverse::mod_inverse` of `BigUint` (extended Euclid): `None`
/// when the gcd of `a` and `m` is not one, else a non-negative inverse.
#[verifier::external_body]
fn digits_mod_inverse(a: &Vec<u8>, m: &Vec<u8>) -> (r: Option<Vec<u8>>)
    requires
        le_val(a@) < le_val(m@),
        le_val(m@) > 1,
    ensures
        r is None ==> !has_inverse(le_val(a@) as int, le_val(m@) as int),
        r matches Some(v) ==> (le_val(a@) * le_val(v@)) % le_val(m@) == 1,
{
    let inv = BigUint::from_bytes_le(a).mod_inverse(&BigUint::from_bytes_le(m))?;
    let (_, digits) = inv.to_bytes_le();
    Some(digits)
}

/// Relies on `RandBigInt::gen_biguint_below` over `rand::thread_rng`: a
/// random value below the bound (it panics on a zero bound).
#[verifier::external_body]
fn digits_random_below(bound: &Vec<u8>) -> (r: Vec<u8>)
    requires
        le_val(bound@) > 0,
    ensures
        le_val(r@) < le_val(bound@),
{
    rand::thread_rng().gen_biguint_below(&BigUint::from_bytes_le(bound)).to_bytes_le()
}

/// Relies on `Num::from_str_radix` of `BigUint` in base ten, which reads a
/// string of decimal digits as its value.
#[verifier::external_body]
fn digits_from_decimal(s: &str) -> (r: Option<Vec<u8>>)
    requires
        is_decimal(s.spec_bytes()),
    ensures
        r is Some,
        r matches Some(v) ==> le_val(v@) == decimal_val(s.spec_bytes()),
{
    match BigUint::from_str_radix(s, 10) {
        Ok(v) => Some(v.to_bytes_le()),
        Err(_) => None,
    }
}

/// A non-negative integer of any size, as little-endian base-256 digits.
#[derive(Clone, Debug)]
pub struct Natural {
    pub digits: Vec<u8>,
}

impl View for Natural {
    type V = nat;

    open spec fn view(&self) -> nat {
        le_val(self.digits@)
    }
}

/// Modular inverses are unique.
pub proof fn lemma_inverse_unique(a: int, m: int, y1: int, y2: int)
    requires
        m > 1,
        0 <= y1 < m,
        0 <= y2 < m,
        (a * y1) % m == 1,
        (a * y2) % m == 1,
    ensures
        y1 == y2,
{
    lemma_mul_mod_noop_right(y1, a * y2, m);
    lemma_mul_mod_noop_left(a * y1, y2, m);
    assert(y1 * (a * y2) == (a * y1) * y2) by (nonlinear_arith);
    assert(y1 % m == y1 && y2 % m == y2) by (nonlinear_arith)
        requires
            0 <= y1 < m,
            0 <= y2 < m,
    ;
    assert((y1 * 1) % m == y1);
    assert((1 * y2) % m == y2);
}

impl Natural {
    /// The integer whose little-endian base-256 digits are `digits`.
    pub fn from_le_bytes(digits: Vec<u8>) -> (r: Natural)
        ensures
            r@ == le_val(digits@),
    {
        Natural { digits }
    }

    /// A copy of the value.
    pub fn duplicate(&self) -> (r: Natural)
        ensures
            r@ == self@,
    {
        Natural { digits: self.digits.clone() }
    }

    /// Little-endian base-256 digits of the value.
    pub fn to_le_bytes(&self) -> (r: Vec<u8>)
        ensures
            le_val(r@) == self@,
    {
        self.digits.clone()
    }

    /// A value below 256.
    pub fn from_u8(v: u8) -> (r: Natural)
        ensures
            r@ == v as nat,
    {
        let r = Natural { digits: vec![v] };
        proof {
            assert(r.digits@.skip(1).len() == 0);
            assert(le_val(r.digits@.skip(1)) == 0);
        }
        r
    }

    /// The value of a string of decimal digits; `None` for any other string.
    pub fn from_decimal(s: &str) -> (r: Option<Natural>)
        ensures
            r is Some <==> is_decimal(s.spec_bytes()),
            r matches Some(v) ==> v@ == decimal_val(s.spec_bytes()),
    {
        let bytes = s.as_bytes();
        if bytes.len() == 0 {
            return None;
        }
        let mut i: usize = 0;
        while i < bytes.len()
            invariant
                bytes@ == s.spec_bytes(),
                i <= bytes@.len(),
                forall|j: int| 0 <= j < i ==> 48 <= #[trigger] bytes@[j] <= 57,
            decreases bytes@.len() - i,
        {
            if bytes[i] < 48 || bytes[i] > 57 {
                return None;
            }
            i += 1;
        }
        match digits_from_decimal(s) {
            Some(digits) => Some(Natural { digits }),
            None => None,
        }
    }

    /// Sum.
    pub fn plus(&self, other: &Natural) -> (r: Natural)
        ensures
            r@ == self@ + other@,
    {
        Natural { digits: digits_add(&self.digits, &other.digits) }
    }

    /// Difference, where it is not negative.
    pub fn minus(&self, other: &Natural) -> (r: Natural)
        requires
            self@ >= other@,
        ensures
            r@ == self@ - other@,
    {
        Natural { digits: digits_sub(&self.digits, &other.digits) }
    }

    /// Product.
    pub fn times(&self, other: &Natural) -> (r: Natural)
        ensures
            r@ == self@ * other@,
    {
        Natural { digits: digits_mul(&self.digits, &other.digits) }
    }

    /// Remainder of the division by a positive `m`.
    pub fn modulo(&self, m: &Natural) -> (r: Natural)
        requires
            m@ > 0,
        ensures
            r@ == self@ % m@,
    {
        Natural { digits: digits_rem(&self.digits, &m.digits) }
    }

    /// Quotient of the division by a positive `m`, rounded down.
    pub fn divided_by(&self, m: &Natural) -> (r: Natural)
        requires
            m@ > 0,
        ensures
            r@ == self@ / m@,
    {
        Natural { digits: digits_div(&self.digits, &m.digits) }
    }

    /// The value as a byte, where it is below 256.
    pub fn low_byte(&self) -> (r: u8)
        requires
            self@ < 256,
        ensures
            r as nat == self@,
    {
        if self.digits.len() == 0 {
            0
        } else {
            proof {
                assert(le_val(self.digits@) == self.digits@[0] + 256 * le_val(self.digits@.skip(1)));
            }
            self.digits[0]
        }
    }

    /// The shortest little-endian base-256 digits of the value.
    pub fn to_min_le_bytes(&self) -> (r: Vec<u8>)
        ensures
            r@ == min_le_bytes(self@),
    {
        let base = Natural::from_u8(255).plus(&Natural::from_u8(1));
        let mut out: Vec<u8> = Vec::new();
        let mut v = self.duplicate();
        out.push(v.modulo(&base).low_byte());
        v = v.divided_by(&base);
        proof {
            if self@ >= 256 {
                assert(v@ > 0);
            }
            assert(out@ + (if v@ == 0 { seq![] } else { min_le_bytes(v@) }) =~= min_le_bytes(self@));
        }
        while !v.is_zero()
            invariant
                base@ == 256,
                out@ + (if v@ == 0 { seq![] } else { min_le_bytes(v@) }) == min_le_bytes(self@),
            decreases v@,
        {
            let ghost old_out = out@;
            let ghost old_v = v@;
            out.push(v.modulo(&base).low_byte());
            v = v.divided_by(&base);
            proof {
                if old_v >= 256 {
                    assert(v@ > 0);
                }
                assert(old_out + min_le_bytes(old_v) =~= out@ + (if v@ == 0 { seq![] } else { min_le_bytes(v@) }));
            }
        }
        assert(out@ =~= out@ + seq![]);
        out
    }

    /// The integer whose big-endian base-256 digits are `bytes`.
    pub fn from_be_bytes(bytes: &Vec<u8>) -> (r: Natural)
        ensures
            r@ == be_val(bytes@),
    {
        let mut digits: Vec<u8> = Vec::new();
        let mut i: usize = bytes.len();
        while i > 0
            invariant
                i <= bytes@.len(),
                digits@ == bytes@.subrange(i as int, bytes@.len() as int).reverse(),
            decreases i,
        {
            i -= 1;
            digits.push(bytes[i]);
            assert(digits@ =~= bytes@.subrange(i as int, bytes@.len() as int).reverse());
        }
        assert(bytes@.subrange(0, bytes@.len() as int) =~= bytes@);
        Natural { digits }
    }

    /// Half of the value, rounded down.
    pub fn half(&self) -> (r: Natural)
        ensures
            r@ == self@ / 2,
    {
        Natural { digits: digits_half(&self.digits) }
    }

    /// Order of two values.
    pub fn compare(&self, other: &Natural) -> (r: Ordering)
        ensures
            (r == Ordering::Less) == (self@ < other@),
            (r == Ordering::Equal) == (self@ == other@),
            (r == Ordering::Greater) == (self@ > other@),
    {
        digits_cmp(&self.digits, &other.digits)
    }

    /// Whether two values are equal.
    pub fn equals(&self, other: &Natural) -> (r: bool)
        ensures
            r == (self@ == other@),
    {
        match self.compare(other) {
            Ordering::Equal => true,
            _ => false,
        }
    }

    /// Whether the value is zero.
    pub fn is_zero(&self) -> (r: bool)
        ensures
            r == (self@ == 0),
    {
        self.equals(&Natural::from_u8(0))
    }

    /// Whether the value is below `other`.
    pub fn less_than(&self, other: &Natural) -> (r: bool)
        ensures
            r == (self@ < other@),
    {
        match self.compare(other) {
            Ordering::Less => true,
            _ => false,
        }
    }

    /// The inverse modulo `m`, in `[0, m)`; `None` where there is none.
    pub fn mod_inverse(&self, m: &Natural) -> (r: Option<Natural>)
        requires
            m@ > 1,
        ensures
            r is Some <==> has_inverse(self@ as int, m@ as int),
            r matches Some(v) ==> v@ == inverse(self@ as int, m@ as int),
    {
        let reduced = self.modulo(m);
        proof {
            let (a, n) = (self@ as int, m@ as int);
            assert forall|y: int| #[trigger] is_inverse(a, n, y) == is_inverse(a % n, n, y) by {
                lemma_mul_mod_noop_left(a, y, n);
            }
        }
        match digits_mod_inverse(&reduced.digits, &m.digits) {
            None => None,
            Some(digits) => {
                let v = Natural { digits }.modulo(m);
                proof {
                    let (a, y, n) = (reduced@ as int, le_val(digits@) as int, m@ as int);
                    lemma_mul_mod_noop_right(a, y, n);
                    assert(is_inverse(a, n, v@ as int));
                    assert(is_inverse(self@ as int, n, v@ as int));
                    let w = inverse(self@ as int, n);
                    lemma_inverse_unique(self@ as int, n, v@ as int, w);
                }
                Some(v)
            },
        }
    }

    /// A random value below a positive `bound`.
    pub fn random_below(bound: &Natural) -> (r: Natural)
        requires
            bound@ > 0,
        ensures
            r@ < bound@,
    {
        Natural { digits: digits_random_below(&bound.digits) }
    }
}

} // verus!
