//! Integer 2D vectors.
use vstd::prelude::*;

verus! {

pub open spec fn fits_i32(v: int) -> bool {
    i32::MIN <= v <= i32::MAX
}

/// `r` is the integer square root of `n`: the largest `r` with `r * r <= n`.
pub open spec fn is_isqrt(n: int, r: int) -> bool {
    0 <= r && r * r <= n < (r + 1) * (r + 1)
}

/// The integer square root of a non-negative `n`.
pub open spec fn isqrt_of(n: int) -> int {
    choose|r: int| is_isqrt(n, r)
}

/// A non-negative integer has exactly one integer square root.
pub proof fn lemma_isqrt_unique(n: int, r1: int, r2: int)
    requires
        is_isqrt(n, r1),
        is_isqrt(n, r2),
    ensures
        r1 == r2,
{
    if r1 < r2 {
        assert((r1 + 1) * (r1 + 1) <= r2 * r2) by (nonlinear_arith)
            requires
                0 <= r1 < r2,
        ;
    } else if r2 < r1 {
        assert((r2 + 1) * (r2 + 1) <= r1 * r1) by (nonlinear_arith)
            requires
                0 <= r2 < r1,
        ;
    }
}

/// Integer square root of a non-negative `i32`, by bisection.
fn isqrt(n: i32) -> (r: i32)
    requires
        n >= 0,
    ensures
        is_isqrt(n as int, r as int),
        r == isqrt_of(n as int),
{
    let mut lo: i64 = 0;
    let mut hi: i64 = 46341;
    assert(46341 * 46341 > i32::MAX);
    while hi - lo > 1
        invariant
            0 <= lo < hi <= 46341,
            lo * lo <= n,
            n < hi * hi,
        decreases hi - lo,
    {
        let mid: i64 = lo + (hi - lo) / 2;
        assert(mid * mid <= 46341 * 46341) by (nonlinear_arith)
            requires
                0 <= mid <= 46341,
        ;
        if mid * mid <= n as i64 {
            lo = mid;
        } else {
            hi = mid;
        }
    }
    proof {
        lemma_isqrt_unique(n as int, lo as int, isqrt_of(n as int));
    }
    lo as i32
}

/// Truncating integer division, as Rust's `/` computes it: the quotient of
/// the magnitudes, negated when the operands' signs differ.
pub open spec fn trunc_div(a: int, b: int) -> int {
    let q = abs(a) / abs(b);
    if (a < 0) == (b < 0) {
        q
    } else {
        -q
    }
}

pub open spec fn abs(a: int) -> int {
    if a < 0 {
        -a
    } else {
        a
    }
}

proof fn lemma_quotient_halves(x: int, d: int)
    requires
        0 <= x,
        2 <= d,
    ensures
        0 <= x / d <= x / 2,
{
    vstd::arithmetic::div_mod::lemma_div_is_ordered_by_denominator(x, 2, d);
    vstd::arithmetic::div_mod::lemma_div_pos_is_pos(x, d);
}

/// `a / b` for any divisor, with the result stated as `trunc_div`.
fn div_toward_zero(a: i32, b: i32) -> (r: i32)
    requires
        b != 0,
        !(a == i32::MIN && b == -1),
    ensures
        r == trunc_div(a as int, b as int),
{
    if b > 0 {
        a / b
    } else if b == i32::MIN {
        if a == i32::MIN {
            assert(abs(a as int) / abs(b as int) == 1) by {
                vstd::arithmetic::div_mod::lemma_div_by_self(abs(b as int));
            }
            1
        } else {
            assert(abs(a as int) / abs(b as int) == 0) by {
                vstd::arithmetic::div_mod::lemma_basic_div(abs(a as int), abs(b as int));
            }
            0
        }
    } else {
        let nb: i32 = -b;
        proof {
            if nb >= 2 {
                lemma_quotient_halves(abs(a as int), nb as int);
            }
        }
        let q = a / nb;
        -q
    }
}

/// A 2D vector with `i32` coordinates.
#[derive(Debug, Clone, Copy, PartialEq, Eq, Structural)]
pub struct Vector2Int {
    pub x: i32,
    pub y: i32,
}

impl Vector2Int {
    /// The squared length `x² + y²`.
    pub open spec fn norm_squared(self) -> int {
        self.x * self.x + self.y * self.y
    }

    pub fn new(x: i32, y: i32) -> (r: Vector2Int)
        ensures
            r == (Vector2Int { x, y }),
    {
        Vector2Int { x, y }
    }

    /// The vector `(0, 0)`.
    pub fn zero() -> (r: Vector2Int)
        ensures
            r == (Vector2Int { x: 0, y: 0 }),
    {
        Vector2Int { x: 0, y: 0 }
    }

    /// The integer square root of `x² + y²`.
    pub fn length(&self) -> (r: i32)
        requires
            fits_i32(self.norm_squared()),
        ensures
            r == isqrt_of(self.norm_squared()),
            is_isqrt(self.norm_squared(), r as int),
    {
        proof {
            assert(0 <= self.x * self.x) by (nonlinear_arith);
            assert(0 <= self.y * self.y) by (nonlinear_arith);
        }
        isqrt(self.x * self.x + self.y * self.y)
    }

    /// Each coordinate divided (towards zero) by the integer length, or the
    /// zero vector when that length is zero.
    pub fn normalize(&self) -> (r: Vector2Int)
        requires
            fits_i32(self.norm_squared()),
        ensures
            isqrt_of(self.norm_squared()) == 0 ==> r == (Vector2Int { x: 0, y: 0 }),
            isqrt_of(self.norm_squared()) != 0 ==> r == (Vector2Int {
                x: trunc_div(self.x as int, isqrt_of(self.norm_squared())) as i32,
                y: trunc_div(self.y as int, isqrt_of(self.norm_squared())) as i32,
            }),
    {
        let len = self.length();
        if len != 0 {
            Vector2Int { x: self.x / len, y: self.y / len }
        } else {
            Vector2Int::zero()
        }
    }

    /// The scalar product `x * ox + y * oy`.
    pub fn dot(&self, other: Vector2Int) -> (r: i32)
        requires
            fits_i32(self.x * other.x),
            fits_i32(self.y * other.y),
            fits_i32(self.x * other.x + self.y * other.y),
        ensures
            r == self.x * other.x + self.y * other.y,
    {
        self.x * other.x + self.y * other.y
    }

    /// The square of the distance between two points: `dx² + dy²`.
    pub fn distance(&self, other: Vector2Int) -> (r: i32)
        requires
            fits_i32(self.x - other.x),
            fits_i32(self.y - other.y),
            fits_i32(
                (self.x - other.x) * (self.x - other.x) + (self.y - other.y) * (self.y - other.y),
            ),
        ensures
            r == (self.x - other.x) * (self.x - other.x) + (self.y - other.y) * (self.y - other.y),
    {
        let dx = self.x - other.x;
        let dy = self.y - other.y;
        proof {
            assert(0 <= dx * dx) by (nonlinear_arith);
            assert(0 <= dy * dy) by (nonlinear_arith);
        }
        dx * dx + dy * dy
    }
}

impl From<(i32, i32)> for Vector2Int {
    fn from(v: (i32, i32)) -> (r: Vector2Int) {
        Vector2Int { x: v.0, y: v.1 }
    }
}

impl vstd::std_specs::convert::FromSpecImpl<(i32, i32)> for Vector2Int {
    open spec fn obeys_from_spec() -> bool {
        true
    }

    open spec fn from_spec(v: (i32, i32)) -> Vector2Int {
        Vector2Int { x: v.0, y: v.1 }
    }
}

impl std::ops::Add for Vector2Int {
    type Output = Vector2Int;

    /// Component-wise sum.
    fn add(self, rhs: Vector2Int) -> (r: Vector2Int) {
        Vector2Int::new(self.x + rhs.x, self.y + rhs.y)
    }
}

impl vstd::std_specs::ops::AddSpecImpl for Vector2Int {
    open spec fn obeys_add_spec() -> bool {
        true
    }

    open spec fn add_req(self, rhs: Vector2Int) -> bool {
        fits_i32(self.x + rhs.x) && fits_i32(self.y + rhs.y)
    }

    open spec fn add_spec(self, rhs: Vector2Int) -> Vector2Int {
        Vector2Int { x: (self.x + rhs.x) as i32, y: (self.y + rhs.y) as i32 }
    }
}

impl std::ops::Sub for Vector2Int {
    type Output = Vector2Int;

    /// Component-wise difference.
    fn sub(self, rhs: Vector2Int) -> (r: Vector2Int) {
        Vector2Int::new(self.x - rhs.x, self.y - rhs.y)
    }
}

impl vstd::std_specs::ops::SubSpecImpl for Vector2Int {
    open spec fn obeys_sub_spec() -> bool {
        true
    }

    open spec fn sub_req(self, rhs: Vector2Int) -> bool {
        fits_i32(self.x - rhs.x) && fits_i32(self.y - rhs.y)
    }

    open spec fn sub_spec(self, rhs: Vector2Int) -> Vector2Int {
        Vector2Int { x: (self.x - rhs.x) as i32, y: (self.y - rhs.y) as i32 }
    }
}

impl std::ops::Mul<i32> for Vector2Int {
    type Output = Vector2Int;

    /// Both coordinates multiplied by a scalar.
    fn mul(self, rhs: i32) -> (r: Vector2Int) {
        Vector2Int::new(self.x * rhs, self.y * rhs)
    }
}

impl vstd::std_specs::ops::MulSpecImpl<i32> for Vector2Int {
    open spec fn obeys_mul_spec() -> bool {
        true
    }

    open spec fn mul_req(self, rhs: i32) -> bool {
        fits_i32(self.x * rhs) && fits_i32(self.y * rhs)
    }

    open spec fn mul_spec(self, rhs: i32) -> Vector2Int {
        Vector2Int { x: (self.x * rhs) as i32, y: (self.y * rhs) as i32 }
    }
}

impl std::ops::Div<i32> for Vector2Int {
    type Output = Vector2Int;

    /// Both coordinates divided by a scalar, rounding towards zero.
    fn div(self, rhs: i32) -> (r: Vector2Int) {
        Vector2Int::new(div_toward_zero(self.x, rhs), div_toward_zero(self.y, rhs))
    }
}

impl vstd::std_specs::ops::DivSpecImpl<i32> for Vector2Int {
    open spec fn obeys_div_spec() -> bool {
        true
    }

    open spec fn div_req(self, rhs: i32) -> bool {
        rhs != 0 && !(rhs == -1 && (self.x == i32::MIN || self.y == i32::MIN))
    }

    open spec fn div_spec(self, rhs: i32) -> Vector2Int {
        Vector2Int {
            x: trunc_div(self.x as int, rhs as int) as i32,
            y: trunc_div(self.y as int, rhs as int) as i32,
        }
    }
}

} // verus!
