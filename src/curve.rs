//! Parameters of a short Weierstrass curve `y^2 = x^3 + a*x + b (mod p)`.
use crate::natural::Natural;
use crate::point::Point;
use vstd::prelude::*;

verus! {

/// Curve coefficients `a` and `b`, prime modulus `p`, curve order `m` and the
/// prime order `q` of the subgroup that signatures use.
#[derive(Clone, Debug)]
pub struct Curve {
    pub a: Natural,
    pub b: Natural,
    pub p: Natural,
    pub m: Natural,
    pub q: Natural,
}

/// Whether `pt` satisfies `y^2 = x^3 + a*x + b (mod p)`.
pub open spec fn on_curve(pt: (int, int), a: int, b: int, p: int) -> bool {
    (pt.1 * pt.1) % p == (pt.0 * pt.0 * pt.0 + a * pt.0 + b) % p
}

impl Curve {
    /// Bundles the five parameters.
    pub fn new(a: Natural, b: Natural, p: Natural, m: Natural, q: Natural) -> (r: Curve)
        ensures
            r.a@ == a@,
            r.b@ == b@,
            r.p@ == p@,
            r.m@ == m@,
            r.q@ == q@,
    {
        Curve { a, b, p, m, q }
    }

    /// Whether `pt` lies on the curve.
    pub fn contains(&self, pt: &Point) -> (r: bool)
        requires
            self.p@ > 0,
        ensures
            r == on_curve(pt@, self.a@ as int, self.b@ as int, self.p@ as int),
    {
        let lhs = pt.y.times(&pt.y).modulo(&self.p);
        let rhs = pt.x.times(&pt.x).times(&pt.x).plus(&self.a.times(&pt.x)).plus(&self.b).modulo(
            &self.p,
        );
        lhs.equals(&rhs)
    }

    /// Whether the sentinel `(0, 0)` of the point at infinity is off the
    /// curve, so that it cannot be mistaken for a point of it.
    pub fn sentinel_is_off_curve(&self) -> (r: bool)
        requires
            self.p@ > 0,
        ensures
            r == !on_curve((0, 0), self.a@ as int, self.b@ as int, self.p@ as int),
    {
        !self.contains(&Point::identity())
    }
}

} // verus!
