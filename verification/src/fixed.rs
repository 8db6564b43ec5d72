//! Fixed-point arithmetic for the simulation.
//!
//! World lengths, speeds and 0..1 ratios are held in thousandths of a world
//! unit ("milliunits"), so the integer `1000` stands for `1.0`. Interpolation
//! helpers divide only nonnegative quantities, which keeps executable
//! (truncating) division and mathematical (Euclidean) division in agreement.

use vstd::prelude::*;

verus! {

/// One whole unit in fixed-point representation: `1000` thousandths.
pub const FP_ONE: i64 = 1000;

pub open spec fn spec_clamp(x: int, lo: int, hi: int) -> int {
    if x < lo {
        lo
    } else if x > hi {
        hi
    } else {
        x
    }
}

/// Clamp `x` into the closed interval `[lo, hi]`.
pub fn clamp_i64(x: i64, lo: i64, hi: i64) -> (r: i64)
    requires
        lo <= hi,
    ensures
        r == spec_clamp(x as int, lo as int, hi as int),
        lo <= r <= hi,
{
    if x < lo {
        lo
    } else if x > hi {
        hi
    } else {
        x
    }
}

pub fn max_i64(x: i64, y: i64) -> (r: i64)
    ensures
        r == vstd::math::max(x as int, y as int),
{
    if x >= y {
        x
    } else {
        y
    }
}

pub fn min_i64(x: i64, y: i64) -> (r: i64)
    ensures
        r == vstd::math::min(x as int, y as int),
{
    if x <= y {
        x
    } else {
        y
    }
}

/// Linear interpolation from `a` to `b` by the ratio `t` (in thousandths,
/// clamped to `[0, 1]` by the callers). The difference is scaled through a
/// nonnegative magnitude so that no negative value is ever divided.
pub open spec fn spec_lerp(a: int, b: int, t: int) -> int {
    if b >= a {
        a + ((b - a) * t) / (FP_ONE as int)
    } else {
        a - ((a - b) * t) / (FP_ONE as int)
    }
}

/// The ratio (in thousandths, clamped to `[0, 1]`) at which `t` sits between
/// `a` and `b`; the mirror of `spec_lerp`. Meaningful only for `a != b`.
pub open spec fn spec_inverse_lerp(a: int, b: int, t: int) -> int {
    if b > a {
        (spec_clamp(t - a, 0, b - a) * (FP_ONE as int)) / (b - a)
    } else {
        (spec_clamp(a - t, 0, a - b) * (FP_ONE as int)) / (a - b)
    }
}

/// Bound used by the interpolation helpers so products stay inside `i64`.
pub const LERP_LIMIT: i64 = 2_000_000_000;

pub fn lerp(a: i64, b: i64, t: i64) -> (r: i64)
    requires
        0 <= t <= FP_ONE,
        -LERP_LIMIT <= a <= LERP_LIMIT,
        -LERP_LIMIT <= b <= LERP_LIMIT,
    ensures
        r == spec_lerp(a as int, b as int, t as int),
        vstd::math::min(a as int, b as int) <= r <= vstd::math::max(a as int, b as int),
{
    if b >= a {
        let d: i64 = b - a;
        assert(0 <= d * t <= d * 1000) by (nonlinear_arith)
            requires
                0 <= d <= 4_000_000_000i64,
                0 <= t <= 1000,
        ;
        let scaled: i64 = (d * t) / FP_ONE;
        assert(scaled <= d) by (nonlinear_arith)
            requires
                0 <= d,
                d * t <= d * 1000,
                scaled == (d * t) / 1000,
        ;
        a + scaled
    } else {
        let d: i64 = a - b;
        assert(0 <= d * t <= d * 1000) by (nonlinear_arith)
            requires
                0 <= d <= 4_000_000_000i64,
                0 <= t <= 1000,
        ;
        let scaled: i64 = (d * t) / FP_ONE;
        assert(scaled <= d) by (nonlinear_arith)
            requires
                0 <= d,
                d * t <= d * 1000,
                scaled == (d * t) / 1000,
        ;
        a - scaled
    }
}

/// Where `t` sits between `a` and `b`, as a ratio in thousandths clamped to
/// `[0, 1]`.
pub fn inverse_lerp(a: i64, b: i64, t: i64) -> (r: i64)
    requires
        a != b,
        -LERP_LIMIT <= a <= LERP_LIMIT,
        -LERP_LIMIT <= b <= LERP_LIMIT,
        -LERP_LIMIT <= t <= LERP_LIMIT,
    ensures
        r == spec_inverse_lerp(a as int, b as int, t as int),
        0 <= r <= FP_ONE,
{
    if b > a {
        let d: i64 = b - a;
        let n: i64 = clamp_i64(t - a, 0, d);
        assert(0 <= n * 1000 <= d * 1000) by (nonlinear_arith)
            requires
                0 <= n <= d <= 4_000_000_000i64,
        ;
        let scaled: i64 = (n * FP_ONE) / d;
        assert(scaled <= 1000) by (nonlinear_arith)
            requires
                0 < d,
                n * 1000 <= d * 1000,
                scaled == (n * 1000) / (d as int),
        ;
        scaled
    } else {
        let d: i64 = a - b;
        let n: i64 = clamp_i64(a - t, 0, d);
        assert(0 <= n * 1000 <= d * 1000) by (nonlinear_arith)
            requires
                0 <= n <= d <= 4_000_000_000i64,
        ;
        let scaled: i64 = (n * FP_ONE) / d;
        assert(scaled <= 1000) by (nonlinear_arith)
            requires
                0 < d,
                n * 1000 <= d * 1000,
                scaled == (n * 1000) / (d as int),
        ;
        scaled
    }
}

/// The integer square root: the largest `r` with `r * r <= n`.
pub open spec fn spec_isqrt(n: int) -> int
    decreases n,
{
    if n <= 0 {
        0
    } else {
        let r = spec_isqrt(n - 1);
        if (r + 1) * (r + 1) <= n {
            r + 1
        } else {
            r
        }
    }
}

pub proof fn lemma_isqrt_bounds(n: int)
    requires
        n >= 0,
    ensures
        spec_isqrt(n) >= 0,
        spec_isqrt(n) * spec_isqrt(n) <= n,
        n < (spec_isqrt(n) + 1) * (spec_isqrt(n) + 1),
    decreases n,
{
    if n > 0 {
        lemma_isqrt_bounds(n - 1);
        let r = spec_isqrt(n - 1);
        assert(spec_isqrt(n) == if (r + 1) * (r + 1) <= n {
            r + 1
        } else {
            r
        });
        if (r + 1) * (r + 1) <= n {
            assert(n < (r + 2) * (r + 2)) by (nonlinear_arith)
                requires
                    (n - 1) < (r + 1) * (r + 1),
                    r >= 0,
            ;
        }
    }
}

pub proof fn lemma_isqrt_unique(n: int, r: int)
    requires
        n >= 0,
        r >= 0,
        r * r <= n,
        n < (r + 1) * (r + 1),
    ensures
        r == spec_isqrt(n),
{
    lemma_isqrt_bounds(n);
    let s = spec_isqrt(n);
    if r < s {
        assert(false) by (nonlinear_arith)
            requires
                0 <= r < s,
                s * s <= n,
                n < (r + 1) * (r + 1),
        ;
    }
    if s < r {
        assert(false) by (nonlinear_arith)
            requires
                0 <= s < r,
                r * r <= n,
                n < (s + 1) * (s + 1),
        ;
    }
}

/// The integer square root, by binary search on the answer.
pub fn isqrt(n: u64) -> (r: u64)
    requires
        n < 4_611_686_018_427_387_904,
    ensures
        r == spec_isqrt(n as int),
        r * r <= n,
        n < (r + 1) * (r + 1),
        r < 2_147_483_648,
{
    let mut lo: u64 = 0;
    let mut hi: u64 = 2_147_483_648;
    assert(hi * hi > n) by (nonlinear_arith)
        requires
            hi == 2_147_483_648u64,
            n < 4_611_686_018_427_387_904,
    ;
    while lo + 1 < hi
        invariant
            lo < hi <= 2_147_483_648,
            lo * lo <= n,
            n < hi * hi,
        decreases hi - lo,
    {
        let mid: u64 = lo + (hi - lo) / 2;
        assert(mid * mid < 4_611_686_018_427_387_904) by (nonlinear_arith)
            requires
                mid < 2_147_483_648u64,
        ;
        if mid * mid <= n {
            lo = mid;
        } else {
            hi = mid;
        }
    }
    proof {
        lemma_isqrt_unique(n as int, lo as int);
    }
    lo
}

/// A value scaled by a nonnegative ratio `num / den`, the division applied
/// to the magnitude so that both rounding directions agree.
pub open spec fn spec_scale_div(a: int, num: int, den: int) -> int {
    if a >= 0 {
        (a * num) / den
    } else {
        -(((-a) * num) / den)
    }
}

pub fn scale_div(a: i64, num: i64, den: i64) -> (r: i64)
    requires
        -2_000_000_000 <= a <= 2_000_000_000,
        0 <= num <= 2_000_000_000,
        0 < den,
    ensures
        r == spec_scale_div(a as int, num as int, den as int),
{
    if a >= 0 {
        assert(0 <= a * num <= 4_000_000_000_000_000_000) by (nonlinear_arith)
            requires
                0 <= a <= 2_000_000_000,
                0 <= num <= 2_000_000_000,
        ;
        (a * num) / den
    } else {
        let m: i64 = -a;
        assert(0 <= m * num <= 4_000_000_000_000_000_000) by (nonlinear_arith)
            requires
                0 <= m <= 2_000_000_000,
                0 <= num <= 2_000_000_000,
        ;
        -((m * num) / den)
    }
}

/// A two-dimensional point or direction in fixed-point milliunits.
#[derive(Clone, Copy, Debug, PartialEq, Eq, Structural)]
pub struct Vec2Fp {
    pub x: i64,
    pub y: i64,
}

impl Vec2Fp {
    pub fn new(x: i64, y: i64) -> (r: Vec2Fp)
        ensures
            r.x == x,
            r.y == y,
    {
        Vec2Fp { x, y }
    }

    pub open spec fn spec_is_zero(self) -> bool {
        self.x == 0 && self.y == 0
    }

    pub fn is_zero(&self) -> (r: bool)
        ensures
            r == self.spec_is_zero(),
    {
        self.x == 0 && self.y == 0
    }

    pub fn zero() -> (r: Vec2Fp)
        ensures
            r.spec_is_zero(),
    {
        Vec2Fp { x: 0, y: 0 }
    }

    /// The vector's length in milliunits, rounded down.
    pub open spec fn spec_len(self) -> int {
        spec_isqrt(self.x * self.x + self.y * self.y)
    }

    /// The vector rescaled to (near) unit length, in milliunits.
    pub open spec fn spec_normalized(self) -> Vec2Fp {
        Vec2Fp {
            x: spec_scale_div(self.x as int, FP_ONE as int, self.spec_len()) as i64,
            y: spec_scale_div(self.y as int, FP_ONE as int, self.spec_len()) as i64,
        }
    }

    /// Rescale to (near) unit length: each component is scaled by
    /// `1000 / length`, on its magnitude.
    pub fn normalized(&self) -> (r: Vec2Fp)
        requires
            !self.spec_is_zero(),
            -1_000_000 <= self.x <= 1_000_000,
            -1_000_000 <= self.y <= 1_000_000,
        ensures
            r == self.spec_normalized(),
            1 <= self.spec_len() <= 1_414_214,
            -1000 <= r.x <= 1000,
            -1000 <= r.y <= 1000,
    {
        let xm: i64 = if self.x >= 0 {
            self.x
        } else {
            -self.x
        };
        let ym: i64 = if self.y >= 0 {
            self.y
        } else {
            -self.y
        };
        assert(xm * xm == self.x * self.x && 0 <= xm * xm <= 1_000_000_000_000) by (nonlinear_arith)
            requires
                xm == (if self.x >= 0 { self.x as int } else { -(self.x as int) }),
                -1_000_000 <= self.x <= 1_000_000,
        ;
        assert(ym * ym == self.y * self.y && 0 <= ym * ym <= 1_000_000_000_000) by (nonlinear_arith)
            requires
                ym == (if self.y >= 0 { self.y as int } else { -(self.y as int) }),
                -1_000_000 <= self.y <= 1_000_000,
        ;
        let n2: i64 = xm * xm + ym * ym;
        assert(n2 >= 1) by (nonlinear_arith)
            requires
                n2 == xm * xm + ym * ym,
                xm >= 1 || ym >= 1,
                xm >= 0 && ym >= 0,
        ;
        let l: u64 = isqrt(n2 as u64);
        proof {
            // The length bounds the components: l + 1 > |x| and l + 1 > |y|.
            assert(l >= xm && l >= ym && l >= 1 && l <= 1_414_214) by (nonlinear_arith)
                requires
                    l * l <= n2 < (l + 1) * (l + 1),
                    n2 == xm * xm + ym * ym,
                    1 <= n2 <= 2_000_000_000_000,
                    xm >= 0 && ym >= 0,
                    l >= 0,
            ;
        }
        let nx: i64 = scale_div(self.x, FP_ONE, l as i64);
        let ny: i64 = scale_div(self.y, FP_ONE, l as i64);
        proof {
            assert(-1000 <= nx <= 1000) by (nonlinear_arith)
                requires
                    nx == spec_scale_div(self.x as int, 1000, l as int),
                    l >= xm >= 0,
                    l >= 1,
                    xm == (if self.x >= 0 { self.x as int } else { -(self.x as int) }),
            ;
            assert(-1000 <= ny <= 1000) by (nonlinear_arith)
                requires
                    ny == spec_scale_div(self.y as int, 1000, l as int),
                    l >= ym >= 0,
                    l >= 1,
                    ym == (if self.y >= 0 { self.y as int } else { -(self.y as int) }),
            ;
        }
        Vec2Fp { x: nx, y: ny }
    }
}

} // verus!
