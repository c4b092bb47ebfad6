use vstd::prelude::*;

verus! {

/// A point or vector in world units.
#[derive(Clone, Copy, Debug, PartialEq, Eq, Structural)]
pub struct Point {
    pub x: i32,
    pub y: i32,
}

/// Squared Euclidean length of the vector from `a` to `b`.
pub open spec fn dist_sq(a: Point, b: Point) -> int {
    (b.x - a.x) * (b.x - a.x) + (b.y - a.y) * (b.y - a.y)
}

/// `r` is the integer square root of `n`: the largest `r` with `r * r <= n`.
pub open spec fn is_isqrt(n: int, r: int) -> bool {
    0 <= r && r * r <= n && n < (r + 1) * (r + 1)
}

/// The integer square root of a non-negative `n`.
pub open spec fn int_sqrt(n: int) -> int {
    choose|r: int| is_isqrt(n, r)
}

/// Every non-negative integer has an integer square root.
pub proof fn lemma_isqrt_exists(n: int)
    requires
        0 <= n,
    ensures
        is_isqrt(n, int_sqrt(n)),
    decreases n,
{
    if n == 0 {
        assert(is_isqrt(0, 0));
    } else {
        lemma_isqrt_exists(n - 1);
        let r = int_sqrt(n - 1);
        if (r + 1) * (r + 1) <= n {
            assert(n < (r + 2) * (r + 2)) by (nonlinear_arith)
                requires n - 1 < (r + 1) * (r + 1), 0 <= r;
            assert(is_isqrt(n, r + 1));
        } else {
            assert(is_isqrt(n, r));
        }
    }
}

/// The integer square root is unique.
pub proof fn lemma_isqrt_unique(n: int, a: int, b: int)
    requires
        is_isqrt(n, a),
        is_isqrt(n, b),
    ensures
        a == b,
{
    if a < b {
        assert((a + 1) * (a + 1) <= b * b) by (nonlinear_arith)
            requires 0 <= a, a + 1 <= b;
    } else if b < a {
        assert((b + 1) * (b + 1) <= a * a) by (nonlinear_arith)
            requires 0 <= b, b + 1 <= a;
    }
}

/// A non-negative value whose square is at most `n` is at most the root of `n`.
pub proof fn lemma_isqrt_bounds(n: int, r: int, a: int)
    requires
        is_isqrt(n, r),
        0 <= a,
        a * a <= n,
    ensures
        a <= r,
{
    if a > r {
        assert((r + 1) * (r + 1) <= a * a) by (nonlinear_arith)
            requires 0 <= r, r + 1 <= a;
    }
}

impl Point {
    pub fn new(x: i32, y: i32) -> (r: Point)
        ensures
            r.x == x,
            r.y == y,
    {
        Point { x, y }
    }

    /// The vector from `self` to `to`, with wide components.
    pub fn delta_to(&self, to: &Point) -> (r: (i64, i64))
        ensures
            r.0 == to.x - self.x,
            r.1 == to.y - self.y,
    {
        (to.x as i64 - self.x as i64, to.y as i64 - self.y as i64)
    }
}

/// Squared distance between two points; exact for any pair of `i32` points.
pub fn distance_squared(a: &Point, b: &Point) -> (r: u128)
    ensures
        r == dist_sq(*a, *b),
        r < 0x4_0000_0000_0000_0000,
{
    let (dx, dy) = a.delta_to(b);
    let ax: u128 = if dx < 0 { (-dx) as u128 } else { dx as u128 };
    let ay: u128 = if dy < 0 { (-dy) as u128 } else { dy as u128 };
    assert(ax * ax == dx * dx) by (nonlinear_arith)
        requires ax == dx || ax == -dx;
    assert(ay * ay == dy * dy) by (nonlinear_arith)
        requires ay == dy || ay == -dy;
    assert(ax * ax < 0x1_0000_0000_0000_0000) by (nonlinear_arith)
        requires ax < 0x1_0000_0000u128;
    assert(ay * ay < 0x1_0000_0000_0000_0000) by (nonlinear_arith)
        requires ay < 0x1_0000_0000u128;
    ax * ax + ay * ay
}

/// Integer square root, by bisection.
pub fn isqrt(n: u128) -> (r: u128)
    requires
        n < 0x4_0000_0000_0000_0000,
    ensures
        is_isqrt(n as int, r as int),
        r == int_sqrt(n as int),
        r < 0x2_0000_0000,
{
    let mut lo: u128 = 0;
    let mut hi: u128 = 0x2_0000_0000;
    assert(hi * hi == 0x4_0000_0000_0000_0000u128) by (nonlinear_arith)
        requires hi == 0x2_0000_0000u128;
    while hi - lo > 1
        invariant
            lo < hi <= 0x2_0000_0000,
            lo * lo <= n,
            n < hi * hi,
        decreases hi - lo,
    {
        let mid: u128 = lo + (hi - lo) / 2;
        assert(mid * mid < 0x4_0000_0000_0000_0000u128) by (nonlinear_arith)
            requires mid < 0x2_0000_0000u128;
        if mid * mid <= n {
            lo = mid;
        } else {
            hi = mid;
        }
    }
    assert(n < (lo + 1) * (lo + 1));
    proof {
        let w = int_sqrt(n as int);
        assert(is_isqrt(n as int, lo as int));
        assert(is_isqrt(n as int, w));
        lemma_isqrt_unique(n as int, lo as int, w);
    }
    lo
}

} // verus!
