//! Integer geometry over pixel-space landmark points.
use vstd::prelude::*;

verus! {

/// A landmark denormalized to pixel coordinates.
#[derive(Clone, Copy, Debug, PartialEq, Eq, Structural)]
pub struct Point {
    pub x: i32,
    pub y: i32,
}

impl Point {
    pub fn new(x: i32, y: i32) -> (r: Point)
        ensures
            r.x == x,
            r.y == y,
    {
        Point { x, y }
    }
}

/// Squared Euclidean distance between two points, in square pixels.
pub open spec fn sq_dist(p: Point, q: Point) -> nat {
    let dx = p.x - q.x;
    let dy = p.y - q.y;
    (dx * dx + dy * dy) as nat
}

/// `r` is the integer square root of `n`, rounded down.
pub open spec fn is_floor_sqrt(r: nat, n: nat) -> bool {
    r * r <= n && n < (r + 1) * (r + 1)
}

/// The integer square root of `n`, rounded down.
pub open spec fn floor_sqrt(n: nat) -> nat {
    choose|r: nat| is_floor_sqrt(r, n)
}

/// Distance between two points in tenths of a pixel, rounded down:
/// the largest `d` with `d * d <= 100 * sq_dist(p, q)`.
pub open spec fn tenths_distance(p: Point, q: Point) -> nat {
    floor_sqrt(100 * sq_dist(p, q))
}

proof fn lemma_floor_sqrt_unique(r1: nat, r2: nat, n: nat)
    requires
        is_floor_sqrt(r1, n),
        is_floor_sqrt(r2, n),
    ensures
        r1 == r2,
{
    if r1 < r2 {
        assert((r1 + 1) * (r1 + 1) <= r2 * r2) by (nonlinear_arith)
            requires
                r1 + 1 <= r2,
        ;
    } else if r2 < r1 {
        assert((r2 + 1) * (r2 + 1) <= r1 * r1) by (nonlinear_arith)
            requires
                r2 + 1 <= r1,
        ;
    }
}

/// Any witness of the rounded-down square root is the one `floor_sqrt` picks.
pub proof fn lemma_floor_sqrt_is(r: nat, n: nat)
    requires
        is_floor_sqrt(r, n),
    ensures
        floor_sqrt(n) == r,
{
    let s = floor_sqrt(n);
    assert(is_floor_sqrt(s, n));
    lemma_floor_sqrt_unique(r, s, n);
}

/// Distance is zero from a point to itself, and does not depend on the
/// order of its two arguments.
pub proof fn lemma_distance_laws(p1: Point, p2: Point)
    ensures
        tenths_distance(p1, p1) == 0,
        tenths_distance(p1, p2) == tenths_distance(p2, p1),
{
    assert(sq_dist(p1, p1) == 0);
    assert(is_floor_sqrt(0, 0)) by (nonlinear_arith);
    lemma_floor_sqrt_is(0, 0);
    let dx = p1.x - p2.x;
    let dy = p1.y - p2.y;
    assert((-dx) * (-dx) == dx * dx) by (nonlinear_arith);
    assert((-dy) * (-dy) == dy * dy) by (nonlinear_arith);
    assert(sq_dist(p1, p2) == sq_dist(p2, p1));
}

/// Rounded-down square root of a value below 2^72.
fn isqrt(n: u128) -> (r: u64)
    requires
        n < 0x1_0000_0000_0000_0000_00,
    ensures
        is_floor_sqrt(r as nat, n as nat),
{
    let mut lo: u128 = 0;
    let mut hi: u128 = 0x10_0000_0000;
    assert(hi * hi == 0x1_0000_0000_0000_0000_00) by (nonlinear_arith)
        requires
            hi == 0x10_0000_0000,
    ;
    while hi - lo > 1
        invariant
            lo < hi <= 0x10_0000_0000,
            lo * lo <= n,
            n < hi * hi,
        decreases hi - lo,
    {
        let mid: u128 = lo + (hi - lo) / 2;
        assert(mid * mid <= 0x1_0000_0000_0000_0000_00) by (nonlinear_arith)
            requires
                mid <= 0x10_0000_0000,
        ;
        if mid * mid <= n {
            lo = mid;
        } else {
            hi = mid;
        }
    }
    lo as u64
}

/// Euclidean distance between two points in tenths of a pixel, rounded down.
pub fn distance(p1: Point, p2: Point) -> (r: u64)
    ensures
        r as nat == tenths_distance(p1, p2),
        r < 0x20_0000_0000,
{
    let dx: i128 = p1.x as i128 - p2.x as i128;
    let dy: i128 = p1.y as i128 - p2.y as i128;
    assert(dx * dx <= 0x1_0000_0000_0000_0000 && dy * dy <= 0x1_0000_0000_0000_0000) by (nonlinear_arith)
        requires
            -0x1_0000_0000 <= dx <= 0x1_0000_0000,
            -0x1_0000_0000 <= dy <= 0x1_0000_0000,
    ;
    assert(dx * dx >= 0 && dy * dy >= 0) by (nonlinear_arith);
    let sq: i128 = dx * dx + dy * dy;
    let n: u128 = (100 * sq) as u128;
    let r = isqrt(n);
    proof {
        lemma_floor_sqrt_is(r as nat, n as nat);
        assert(r < 0x20_0000_0000) by (nonlinear_arith)
            requires
                r * r <= n,
                n < 0x1_0000_0000_0000_0000_00,
        ;
    }
    r
}

} // verus!
