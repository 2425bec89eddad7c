//! Signed decimal fixed-point numbers with saturating arithmetic.
//!
//! Every quantity of the kinetic model (speeds, brakes, limits, frame
//! counters) is a `Fixed`: a count of millionths held in an `i64`. Results
//! that leave the range of `i64` stick to the nearest bound, quotients are
//! rounded toward zero, and roots are rounded down, so every operation is
//! total and has one exact integer meaning.

use vstd::prelude::*;

verus! {

/// Number of raw units in one whole unit.
pub const SCALE: i64 = 1_000_000;

/// A fixed-point number: `micros` counts millionths.
#[derive(Copy, Clone, Debug, PartialEq, Eq, Structural)]
pub struct Fixed {
    pub micros: i64,
}

/// The value nearest to `v` that an `i64` can hold.
pub open spec fn saturate(v: int) -> int {
    if v < i64::MIN {
        i64::MIN as int
    } else if v > i64::MAX {
        i64::MAX as int
    } else {
        v
    }
}

/// Distance of `v` from zero.
pub open spec fn distance(v: int) -> int {
    if v < 0 {
        -v
    } else {
        v
    }
}

/// `a / b` rounded toward zero, for `b != 0`.
pub open spec fn quotient(a: int, b: int) -> int {
    if (a < 0) == (b < 0) {
        distance(a) / distance(b)
    } else {
        -(distance(a) / distance(b))
    }
}

/// Whether `r` is the square root of `n` rounded down.
pub open spec fn is_root(n: int, r: int) -> bool {
    0 <= r && r * r <= n && n < (r + 1) * (r + 1)
}

/// The square root of `n` rounded down; meaningful for `n >= 0`.
pub open spec fn root(n: int) -> int {
    choose|r: int| is_root(n, r)
}

/// A number has at most one rounded-down square root, and `root` names it.
pub proof fn lemma_root_unique(n: int, r: int)
    requires
        is_root(n, r),
    ensures
        root(n) == r,
{
    let c = root(n);
    assert(is_root(n, c));
    if c < r {
        assert((c + 1) * (c + 1) <= r * r) by (nonlinear_arith)
            requires
                0 <= c,
                c + 1 <= r,
        ;
    } else if r < c {
        assert((r + 1) * (r + 1) <= c * c) by (nonlinear_arith)
            requires
                0 <= r,
                r + 1 <= c,
        ;
    }
}

/// Every number that is not negative has a rounded-down square root, and
/// `root` names it.
pub proof fn lemma_root_exists(n: int)
    requires
        n >= 0,
    ensures
        is_root(n, root(n)),
    decreases n,
{
    if n == 0 {
        assert(is_root(0, 0));
    } else {
        lemma_root_exists(n - 1);
        let r = root(n - 1);
        if n < (r + 1) * (r + 1) {
            assert(is_root(n, r));
        } else {
            assert((r + 1) * (r + 1) <= n < (r + 2) * (r + 2)) by (nonlinear_arith)
                requires
                    0 <= r,
                    r * r <= n - 1,
                    n - 1 < (r + 1) * (r + 1),
                    n >= (r + 1) * (r + 1),
            ;
            assert(is_root(n, r + 1));
        }
    }
}

/// The product of two `i64` values fits an `i128` with room to spare.
pub proof fn lemma_product_bound(a: int, b: int)
    requires
        -0x8000_0000_0000_0000 <= a <= 0x8000_0000_0000_0000,
        -0x8000_0000_0000_0000 <= b <= 0x8000_0000_0000_0000,
    ensures
        -0x4000_0000_0000_0000_0000_0000_0000_0000 <= a * b
            <= 0x4000_0000_0000_0000_0000_0000_0000_0000,
{
    assert(-0x4000_0000_0000_0000_0000_0000_0000_0000 <= a * b
        <= 0x4000_0000_0000_0000_0000_0000_0000_0000) by (nonlinear_arith)
        requires
            -0x8000_0000_0000_0000 <= a <= 0x8000_0000_0000_0000,
            -0x8000_0000_0000_0000 <= b <= 0x8000_0000_0000_0000,
    ;
}

/// Multiplying by one changes nothing.
pub proof fn lemma_mul_one(x: Fixed)
    ensures
        x.mul_spec(Fixed::one_spec()) == x,
        Fixed::one_spec().mul_spec(x) == x,
{
    reveal(Fixed::mul_spec);
    let m = x.micros as int;
    assert(m * 1_000_000 == 1_000_000 * m);
    assert(distance(m * 1_000_000) == distance(m) * 1_000_000);
    assert((distance(m) * 1_000_000) / 1_000_000 == distance(m));
}

/// Multiplying by zero gives zero.
pub proof fn lemma_mul_zero(x: Fixed)
    ensures
        x.mul_spec(Fixed::zero_spec()) == Fixed::zero_spec(),
        Fixed::zero_spec().mul_spec(x) == Fixed::zero_spec(),
{
    reveal(Fixed::mul_spec);
    let m = x.micros as int;
    assert(m * 0 == 0);
    assert(0 * m == 0);
    assert(0int / 1_000_000 == 0);
}

/// Multiplying by minus one negates.
pub proof fn lemma_mul_minus_one(x: Fixed)
    ensures
        x.mul_spec(Fixed::one_spec().neg_spec()) == x.neg_spec(),
{
    reveal(Fixed::mul_spec);
    let m = x.micros as int;
    assert(m * (-1_000_000) == -(m * 1_000_000));
    assert(distance(m * (-1_000_000)) == distance(m) * 1_000_000);
    assert((distance(m) * 1_000_000) / 1_000_000 == distance(m));
}

/// Zero divided by anything is zero.
pub proof fn lemma_zero_div(y: Fixed)
    ensures
        Fixed::zero_spec().div_spec(y) == Fixed::zero_spec(),
{
    reveal(Fixed::div_spec);
    if y.micros != 0 {
        let d = distance(y.micros as int);
        assert(0 * 1_000_000 == 0);
        assert(0int / d == 0) by (nonlinear_arith)
            requires
                d > 0,
        ;
    }
}

/// Dividing by one changes nothing.
pub proof fn lemma_div_one(x: Fixed)
    ensures
        x.div_spec(Fixed::one_spec()) == x,
{
    reveal(Fixed::div_spec);
    let m = x.micros as int;
    assert(distance(m * 1_000_000) == distance(m) * 1_000_000);
    assert((distance(m) * 1_000_000) / 1_000_000 == distance(m));
}

/// A part divided by the whole lies between zero and one.
pub proof fn lemma_div_of_part(part: Fixed, whole: Fixed)
    requires
        0 <= part.micros <= whole.micros,
        0 < whole.micros,
    ensures
        0 <= part.div_spec(whole).micros <= SCALE,
{
    reveal(Fixed::div_spec);
    let a = part.micros as int;
    let b = whole.micros as int;
    assert(0 <= (a * 1_000_000) / b <= 1_000_000) by (nonlinear_arith)
        requires
            0 <= a <= b,
            0 < b,
    ;
}

/// Multiplying by a factor between minus one and zero turns a number
/// round without moving it further from zero.
pub proof fn lemma_mul_turns(x: Fixed, factor: Fixed)
    requires
        -SCALE <= factor.micros <= 0,
    ensures
        x.micros >= 0 ==> -x.micros <= x.mul_spec(factor).micros <= 0,
        x.micros <= 0 ==> 0 <= x.mul_spec(factor).micros <= -x.micros,
{
    reveal(Fixed::mul_spec);
    let m = distance(x.micros as int);
    let f = -(factor.micros as int);
    assert(0 <= (m * f) / 1_000_000 <= m) by (nonlinear_arith)
        requires
            0 <= m,
            0 <= f <= 1_000_000,
    ;
    assert(distance(x.micros * factor.micros) == m * f) by (nonlinear_arith)
        requires
            m == distance(x.micros as int),
            f == -(factor.micros as int),
            0 <= f,
    ;
    assert(x.micros >= 0 ==> x.micros * factor.micros <= 0) by (nonlinear_arith)
        requires
            factor.micros <= 0,
    ;
    assert(x.micros <= 0 ==> x.micros * factor.micros >= 0) by (nonlinear_arith)
        requires
            factor.micros <= 0,
    ;
}

/// Rounds `n` down to its square root by bisection.
pub fn integer_root(n: u128) -> (r: u128)
    ensures
        r == root(n as int),
        is_root(n as int, r as int),
        r < 0x1_0000_0000_0000_0000,
{
    let mut lo: u128 = 0;
    let mut hi: u128 = 0x1_0000_0000_0000_0000;
    assert(hi * hi > n) by (nonlinear_arith)
        requires
            hi == 0x1_0000_0000_0000_0000,
            n <= u128::MAX,
    ;
    while hi - lo > 1
        invariant
            lo < hi <= 0x1_0000_0000_0000_0000,
            lo * lo <= n,
            n < hi * hi,
        decreases hi - lo,
    {
        let mid: u128 = lo + (hi - lo) / 2;
        assert(mid * mid <= 0xffff_ffff_ffff_ffff * 0xffff_ffff_ffff_ffff) by (nonlinear_arith)
            requires
                0 <= mid <= 0xffff_ffff_ffff_ffff,
        ;
        if mid * mid <= n {
            lo = mid;
        } else {
            hi = mid;
        }
    }
    proof {
        assert(hi == lo + 1);
        lemma_root_unique(n as int, lo as int);
    }
    lo
}

/// Narrows a wide intermediate result to the range of `i64`.
fn narrow(v: i128) -> (r: Fixed)
    ensures
        r.micros == saturate(v as int),
{
    if v > i64::MAX as i128 {
        Fixed { micros: i64::MAX }
    } else if v < i64::MIN as i128 {
        Fixed { micros: i64::MIN }
    } else {
        Fixed { micros: v as i64 }
    }
}

impl Fixed {
    /// The number zero.
    pub open spec fn zero_spec() -> Fixed {
        Fixed { micros: 0 }
    }

    /// The number one.
    pub open spec fn one_spec() -> Fixed {
        Fixed { micros: SCALE }
    }

    /// The whole number `n`.
    pub open spec fn from_int_spec(n: i32) -> Fixed {
        Fixed { micros: (n * SCALE) as i64 }
    }

    /// The sum, saturated.
    pub open spec fn add_spec(self, rhs: Fixed) -> Fixed {
        Fixed { micros: saturate(self.micros + rhs.micros) as i64 }
    }

    /// The difference, saturated.
    pub open spec fn sub_spec(self, rhs: Fixed) -> Fixed {
        Fixed { micros: saturate(self.micros - rhs.micros) as i64 }
    }

    /// The negation, saturated: the lowest value negates to the highest.
    pub open spec fn neg_spec(self) -> Fixed {
        Fixed { micros: saturate(-self.micros) as i64 }
    }

    /// The distance from zero, saturated.
    pub open spec fn abs_spec(self) -> Fixed {
        Fixed { micros: saturate(distance(self.micros as int)) as i64 }
    }

    /// One for a value at or above zero, minus one below it.
    pub open spec fn signum_spec(self) -> Fixed {
        if self.micros >= 0 {
            Fixed { micros: SCALE }
        } else {
            Fixed { micros: (-SCALE) as i64 }
        }
    }

    /// The product, rounded toward zero and saturated.
    #[verifier::opaque]
    pub open spec fn mul_spec(self, rhs: Fixed) -> Fixed {
        Fixed { micros: saturate(quotient(self.micros * rhs.micros, SCALE as int)) as i64 }
    }

    /// The quotient, rounded toward zero and saturated.
    /// Division by zero sticks to the bound on the side of the dividend, and
    /// zero over zero is zero.
    #[verifier::opaque]
    pub open spec fn div_spec(self, rhs: Fixed) -> Fixed {
        if rhs.micros == 0 {
            if self.micros > 0 {
                Fixed { micros: i64::MAX }
            } else if self.micros < 0 {
                Fixed { micros: i64::MIN }
            } else {
                Fixed { micros: 0 }
            }
        } else {
            Fixed { micros: saturate(quotient(self.micros * SCALE, rhs.micros as int)) as i64 }
        }
    }

    /// The square root, rounded down.
    /// The root of a value at or below zero is zero.
    #[verifier::opaque]
    pub open spec fn sqrt_spec(self) -> Fixed {
        if self.micros <= 0 {
            Fixed { micros: 0 }
        } else {
            Fixed { micros: root(self.micros * SCALE) as i64 }
        }
    }

    /// The larger of the two.
    pub open spec fn max_spec(self, rhs: Fixed) -> Fixed {
        if self.micros >= rhs.micros {
            self
        } else {
            rhs
        }
    }

    /// The smaller of the two.
    pub open spec fn min_spec(self, rhs: Fixed) -> Fixed {
        if self.micros <= rhs.micros {
            self
        } else {
            rhs
        }
    }

    /// The number zero.
    pub fn zero() -> (r: Fixed)
        ensures
            r == Fixed::zero_spec(),
    {
        Fixed { micros: 0 }
    }

    /// The number one.
    pub fn one() -> (r: Fixed)
        ensures
            r == Fixed::one_spec(),
    {
        Fixed { micros: SCALE }
    }

    /// The fixed-point number that holds `micros` millionths.
    pub fn from_micros(micros: i64) -> (r: Fixed)
        ensures
            r.micros == micros,
    {
        Fixed { micros }
    }

    /// The whole number `n`.
    pub fn from_int(n: i32) -> (r: Fixed)
        ensures
            r == Fixed::from_int_spec(n),
            r.micros == n * SCALE,
    {
        let wide: i64 = n as i64;
        Fixed { micros: wide * SCALE }
    }

    /// Saturating sum.
    pub fn add(self, rhs: Fixed) -> (r: Fixed)
        ensures
            r == self.add_spec(rhs),
    {
        narrow(self.micros as i128 + rhs.micros as i128)
    }

    /// Saturating difference.
    pub fn sub(self, rhs: Fixed) -> (r: Fixed)
        ensures
            r == self.sub_spec(rhs),
    {
        narrow(self.micros as i128 - rhs.micros as i128)
    }

    /// Saturating negation.
    pub fn neg(self) -> (r: Fixed)
        ensures
            r == self.neg_spec(),
    {
        narrow(0 - self.micros as i128)
    }

    /// Saturating absolute value.
    pub fn abs(self) -> (r: Fixed)
        ensures
            r == self.abs_spec(),
    {
        if self.micros < 0 {
            narrow(0 - self.micros as i128)
        } else {
            self
        }
    }

    /// The sign of the value as plus or minus one; zero counts as positive.
    pub fn signum(self) -> (r: Fixed)
        ensures
            r == self.signum_spec(),
    {
        if self.micros >= 0 {
            Fixed { micros: SCALE }
        } else {
            Fixed { micros: -SCALE }
        }
    }

    /// Saturating product, rounded toward zero.
    pub fn mul(self, rhs: Fixed) -> (r: Fixed)
        ensures
            r == self.mul_spec(rhs),
    {
        proof {
            reveal(Fixed::mul_spec);
            lemma_product_bound(self.micros as int, rhs.micros as int);
        }
        let product: i128 = (self.micros as i128) * (rhs.micros as i128);
        narrow(product / (SCALE as i128))
    }

    /// Saturating quotient, rounded toward zero.
    pub fn div(self, rhs: Fixed) -> (r: Fixed)
        ensures
            r == self.div_spec(rhs),
    {
        proof {
            reveal(Fixed::div_spec);
        }
        if rhs.micros == 0 {
            if self.micros > 0 {
                Fixed { micros: i64::MAX }
            } else if self.micros < 0 {
                Fixed { micros: i64::MIN }
            } else {
                Fixed { micros: 0 }
            }
        } else {
            let scaled: i128 = (self.micros as i128) * 1_000_000;
            let divisor: i128 = rhs.micros as i128;
            let n: i128 = if scaled < 0 { 0 - scaled } else { scaled };
            let d: i128 = if divisor < 0 { 0 - divisor } else { divisor };
            let q: i128 = if (scaled < 0) == (divisor < 0) { n / d } else { 0 - n / d };
            narrow(q)
        }
    }

    /// Square root, rounded down.
    pub fn sqrt(self) -> (r: Fixed)
        ensures
            r == self.sqrt_spec(),
    {
        proof {
            reveal(Fixed::sqrt_spec);
        }
        if self.micros <= 0 {
            Fixed { micros: 0 }
        } else {
            let scaled: u128 = (self.micros as u128) * 1_000_000;
            let r: u128 = integer_root(scaled);
            proof {
                assert(r < 0x1_0000_0000_0000) by (nonlinear_arith)
                    requires
                        r * r <= scaled,
                        scaled < 0x1_0000_0000_0000 * 0x1_0000_0000_0000,
                        0 <= r,
                ;
            }
            Fixed { micros: r as i64 }
        }
    }

    /// The larger of two values.
    pub fn max(self, rhs: Fixed) -> (r: Fixed)
        ensures
            r == self.max_spec(rhs),
    {
        if self.micros >= rhs.micros {
            self
        } else {
            rhs
        }
    }

    /// The smaller of two values.
    pub fn min(self, rhs: Fixed) -> (r: Fixed)
        ensures
            r == self.min_spec(rhs),
    {
        if self.micros <= rhs.micros {
            self
        } else {
            rhs
        }
    }
}

} // verus!
