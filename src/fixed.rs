use vstd::prelude::*;

verus! {

/// Fixed-point steps in one world unit (and in one texture repeat).
pub const FIXED_ONE: i64 = 65536;

/// Largest magnitude accepted for a world coordinate, in fixed-point steps.
pub const COORD_LIMIT: i64 = 1099511627776;

/// A point or a vector in fixed-point units.
#[derive(Clone, Copy, Debug, PartialEq, Eq, Structural)]
pub struct Point {
    pub x: i64,
    pub y: i64,
}

/// Whether an integer lies within `[-bound, bound]`.
pub open spec fn within(v: int, bound: int) -> bool {
    -bound <= v <= bound
}

/// Whether both coordinates of a point lie within the world coordinate range.
pub open spec fn point_in_range(p: Point) -> bool {
    within(p.x as int, COORD_LIMIT as int) && within(p.y as int, COORD_LIMIT as int)
}

/// Division rounded towards negative infinity, for a positive divisor.
pub fn floor_div(a: i64, d: i64) -> (q: i64)
    requires
        d > 0,
    ensures
        q == a as int / d as int,
{
    proof {
        let (ai, di) = (a as int, d as int);
        vstd::arithmetic::div_mod::lemma_fundamental_div_mod(ai, di);
        let q = ai / di;
        let r = ai % di;
        assert(0 <= r < di);
        assert(ai == di * q + r);
        assert(ai >= 0 ==> 0 <= q <= ai) by (nonlinear_arith)
            requires
                ai == di * q + r,
                0 <= r < di,
                di > 0,
        ;
        assert(ai < 0 ==> ai <= q < 0) by (nonlinear_arith)
            requires
                ai == di * q + r,
                0 <= r < di,
                di > 0,
        ;
    }
    match a.checked_div_euclid(d) {
        Some(q) => q,
        None => 0,
    }
}

} // verus!
