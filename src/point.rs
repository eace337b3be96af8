//! Affine point arithmetic on a short Weierstrass curve over `F_p`, with
//! `(0, 0)` standing for the point at infinity.
use crate::natural::{has_inverse, inverse, Natural};
use vstd::arithmetic::div_mod::{
    lemma_fundamental_div_mod_converse, lemma_mul_mod_noop_left, lemma_mul_mod_noop_right,
    lemma_small_mod, lemma_sub_mod_noop,
};
use vstd::prelude::*;

verus! {

/// Doubling of `pt`: the point at infinity stays where it is; otherwise
/// `None` where `2 * y` has no inverse modulo `p`.
pub open spec fn double_spec(pt: (int, int), p: int, a: int) -> Option<(int, int)> {
    let den = (2 * pt.1) % p;
    if pt == (0int, 0int) {
        Some((0, 0))
    } else if !has_inverse(den, p) {
        None
    } else {
        let lambda = ((pt.0 * pt.0 * 3 + a) * inverse(den, p)) % p;
        let x = (lambda * lambda - 2 * pt.0) % p;
        Some((x, (lambda * (pt.0 - x) - pt.1) % p))
    }
}

/// Sum of `l` and `r`; `None` where the slope's denominator has no inverse
/// modulo `p`.
pub open spec fn add_spec(l: (int, int), r: (int, int), p: int, a: int) -> Option<(int, int)> {
    if l.0 == r.0 && (l.1 + r.1) % p == 0 {
        Some((0, 0))
    } else if l == r {
        double_spec(l, p, a)
    } else if l == (0int, 0int) {
        Some(r)
    } else if r == (0int, 0int) {
        Some(l)
    } else {
        let num = (r.1 - l.1) % p;
        let den = (r.0 - l.0) % p;
        if den == 0 {
            Some((0, 0))
        } else if !has_inverse(den, p) {
            None
        } else {
            let lambda = (num * inverse(den, p)) % p;
            let x = (lambda * lambda - l.0 - r.0) % p;
            Some((x, (lambda * (l.0 - x) - l.1) % p))
        }
    }
}

/// Double-and-add from the lowest bit of `n`: `acc` gathers the sum, `pt`
/// is doubled after every bit but the last.
pub open spec fn mul_acc(acc: (int, int), pt: (int, int), n: nat, p: int, a: int) -> Option<
    (int, int),
>
    decreases n,
{
    if n == 0 {
        Some(acc)
    } else {
        let next = if n % 2 == 1 {
            add_spec(acc, pt, p, a)
        } else {
            Some(acc)
        };
        match next {
            None => None,
            Some(acc2) => if n / 2 == 0 {
                Some(acc2)
            } else {
                match double_spec(pt, p, a) {
                    None => None,
                    Some(d) => mul_acc(acc2, d, n / 2, p, a),
                }
            },
        }
    }
}

/// The multiple `n * pt`.
pub open spec fn multiply_spec(pt: (int, int), n: nat, p: int, a: int) -> Option<(int, int)> {
    mul_acc((0, 0), pt, n, p, a)
}

/// Every multiple of the point at infinity is the point at infinity.
pub proof fn lemma_multiply_identity(n: nat, p: int, a: int)
    requires
        p > 0,
    ensures
        multiply_spec((0, 0), n, p, a) == Some((0int, 0int)),
{
    lemma_mul_acc_identity((0, 0), n, p, a);
}

/// Adding multiples of the point at infinity leaves the sum unchanged.
proof fn lemma_mul_acc_identity(acc: (int, int), n: nat, p: int, a: int)
    requires
        p > 0,
        reduced(acc, p),
    ensures
        mul_acc(acc, (0, 0), n, p, a) == Some(acc),
    decreases n,
{
    if n > 0 {
        if acc.0 == 0 && acc.1 == 0 {
            lemma_small_mod(0, p as nat);
        } else if acc.0 == 0 {
            lemma_small_mod(acc.1 as nat, p as nat);
        }
        assert(n % 2 == 1 ==> add_spec(acc, (0, 0), p, a) == Some(acc));
        assert(double_spec((0, 0), p, a) == Some((0int, 0int)));
        lemma_mul_acc_identity(acc, n / 2, p, a);
    }
}

/// A point with both coordinates in `[0, p)`.
pub open spec fn reduced(pt: (int, int), p: int) -> bool {
    0 <= pt.0 < p && 0 <= pt.1 < p
}

/// The coordinates of a point, where there is one.
pub open spec fn opt_view(r: Option<Point>) -> Option<(int, int)> {
    match r {
        Some(q) => Some(q@),
        None => None,
    }
}

/// `(a - b) mod p` for `a` and `b` in `[0, p)`.
fn mod_sub(a: &Natural, b: &Natural, p: &Natural) -> (r: Natural)
    requires
        a@ < p@,
        b@ < p@,
    ensures
        r@ == (a@ as int - b@ as int) % (p@ as int),
        r@ < p@,
{
    if b.less_than(a) || b.equals(a) {
        let r = a.minus(b);
        proof {
            lemma_small_mod(r@, p@);
        }
        r
    } else {
        let r = a.plus(p).minus(b);
        proof {
            lemma_fundamental_div_mod_converse(a@ - b@, p@ as int, -1, r@ as int);
        }
        r
    }
}

/// `(a * b) mod p`.
fn mod_mul(a: &Natural, b: &Natural, p: &Natural) -> (r: Natural)
    requires
        p@ > 0,
    ensures
        r@ == (a@ as int * b@ as int) % (p@ as int),
        r@ < p@,
{
    a.times(b).modulo(p)
}

/// A point of the curve, or the sentinel `(0, 0)` for the point at infinity.
#[derive(Clone, Debug)]
pub struct Point {
    pub x: Natural,
    pub y: Natural,
}

impl View for Point {
    type V = (int, int);

    open spec fn view(&self) -> (int, int) {
        (self.x@ as int, self.y@ as int)
    }
}

impl Point {
    /// The point `(x, y)`.
    pub fn new(x: Natural, y: Natural) -> (r: Point)
        ensures
            r@ == (x@ as int, y@ as int),
    {
        Point { x, y }
    }

    /// The point at infinity, `(0, 0)`.
    pub fn identity() -> (r: Point)
        ensures
            r@ == (0int, 0int),
    {
        Point { x: Natural::from_u8(0), y: Natural::from_u8(0) }
    }

    /// A copy of the point.
    pub fn duplicate(&self) -> (r: Point)
        ensures
            r@ == self@,
    {
        Point { x: self.x.duplicate(), y: self.y.duplicate() }
    }

    /// The point doubled: the point at infinity stays where it is; otherwise
    /// `None` where `2 * y` has no inverse modulo `p`.
    pub fn double(&self, p: &Natural, a: &Natural) -> (r: Option<Point>)
        requires
            p@ > 1,
            reduced(self@, p@ as int),
        ensures
            opt_view(r) == double_spec(self@, p@ as int, a@ as int),
            r matches Some(q) ==> reduced(q@, p@ as int),
    {
        if self.x.is_zero() && self.y.is_zero() {
            return Some(Point::identity());
        }
        let two_y = self.y.plus(&self.y).modulo(p);
        let inv = match two_y.mod_inverse(p) {
            None => return None,
            Some(v) => v,
        };
        let num = self.x.times(&self.x).times(&Natural::from_u8(3)).plus(a).modulo(p);
        let lambda = mod_mul(&num, &inv, p);
        let lambda2 = mod_mul(&lambda, &lambda, p);
        let two_x = self.x.plus(&self.x).modulo(p);
        let x = mod_sub(&lambda2, &two_x, p);
        let dx = mod_sub(&self.x, &x, p);
        let t = mod_mul(&lambda, &dx, p);
        let y = mod_sub(&t, &self.y, p);
        proof {
            let (px, py, pp, pa) = (self.x@ as int, self.y@ as int, p@ as int, a@ as int);
            let l = lambda@ as int;
            lemma_mul_mod_noop_left(px * px * 3 + pa, inv@ as int, pp);
            lemma_sub_mod_noop(l * l, 2 * px, pp);
            lemma_mul_mod_noop_right(l, px - x@, pp);
            lemma_small_mod(self.y@, p@);
            lemma_sub_mod_noop(l * (px - x@), py, pp);
        }
        Some(Point { x, y })
    }

    /// The sum of two points; `None` where the slope needs an inverse modulo
    /// `p` that does not exist.
    pub fn add(&self, other: &Point, p: &Natural, a: &Natural) -> (r: Option<Point>)
        requires
            p@ > 1,
            reduced(self@, p@ as int),
            reduced(other@, p@ as int),
        ensures
            opt_view(r) == add_spec(self@, other@, p@ as int, a@ as int),
            r matches Some(q) ==> reduced(q@, p@ as int),
    {
        let same_x = self.x.equals(&other.x);
        if same_x && self.y.plus(&other.y).modulo(p).is_zero() {
            Some(Point::identity())
        } else if same_x && self.y.equals(&other.y) {
            self.double(p, a)
        } else if self.x.is_zero() && self.y.is_zero() {
            Some(other.duplicate())
        } else if other.x.is_zero() && other.y.is_zero() {
            Some(self.duplicate())
        } else {
            let num = mod_sub(&other.y, &self.y, p);
            let den = mod_sub(&other.x, &self.x, p);
            if den.is_zero() {
                return Some(Point::identity());
            }
            let inv = match den.mod_inverse(p) {
                None => return None,
                Some(v) => v,
            };
            let lambda = mod_mul(&num, &inv, p);
            let lambda2 = mod_mul(&lambda, &lambda, p);
            let sum_x = self.x.plus(&other.x).modulo(p);
            let x = mod_sub(&lambda2, &sum_x, p);
            let dx = mod_sub(&self.x, &x, p);
            let t = mod_mul(&lambda, &dx, p);
            let y = mod_sub(&t, &self.y, p);
            proof {
                let (lx, ly, rx, pp) = (self.x@ as int, self.y@ as int, other.x@ as int, p@ as int);
                let l = lambda@ as int;
                lemma_sub_mod_noop(l * l, lx + rx, pp);
                lemma_mul_mod_noop_right(l, lx - x@, pp);
                lemma_small_mod(self.y@, p@);
                lemma_sub_mod_noop(l * (lx - x@), ly, pp);
            }
            Some(Point { x, y })
        }
    }

    /// The multiple `n * self` by double-and-add from the lowest bit of `n`;
    /// `None` where a step needs an inverse modulo `p` that does not exist.
    pub fn multiply(&self, n: &Natural, p: &Natural, a: &Natural) -> (r: Option<Point>)
        requires
            p@ > 1,
            reduced(self@, p@ as int),
        ensures
            opt_view(r) == multiply_spec(self@, n@, p@ as int, a@ as int),
            r matches Some(q) ==> reduced(q@, p@ as int),
            self@ == (0int, 0int) ==> opt_view(r) == Some((0int, 0int)),
    {
        proof {
            lemma_multiply_identity(n@, p@ as int, a@ as int);
        }
        let mut output = Point::identity();
        let mut current = self.duplicate();
        let mut k = n.duplicate();
        let two = Natural::from_u8(2);
        while !k.is_zero()
            invariant
                p@ > 1,
                two@ == 2,
                multiply_spec((0, 0), n@, p@ as int, a@ as int) == Some((0int, 0int)),
                reduced(output@, p@ as int),
                reduced(current@, p@ as int),
                multiply_spec(self@, n@, p@ as int, a@ as int) == mul_acc(
                    output@,
                    current@,
                    k@,
                    p@ as int,
                    a@ as int,
                ),
            decreases k@,
        {
            if !k.modulo(&two).is_zero() {
                output = match output.add(&current, p, a) {
                    None => return None,
                    Some(v) => v,
                };
            }
            k = k.half();
            if !k.is_zero() {
                current = match current.double(p, a) {
                    None => return None,
                    Some(v) => v,
                };
            }
        }
        Some(output)
    }
}

} // verus!
