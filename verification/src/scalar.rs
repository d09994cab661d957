//! Fixed-point numbers.
//!
//! Every quantity of the simulation (a length, a speed, a span of time, a
//! coefficient) is a `Scalar`: a signed 64-bit count of billionths. Whole
//! results that leave the 64-bit range stop at its ends, and a product is
//! rounded toward zero, so every operation is total and gives the same value
//! on every machine.

use vstd::prelude::*;

verus! {

/// How many raw units make one whole.
pub const SCALE: i64 = 1_000_000_000;

/// The raw value nearest to `n` that sixty-four bits can hold.
pub open spec fn saturate(n: int) -> int {
    if n > i64::MAX {
        i64::MAX as int
    } else if n < i64::MIN {
        i64::MIN as int
    } else {
        n
    }
}

/// `n` divided by `SCALE`, rounded toward zero.
pub open spec fn rescale(n: int) -> int {
    if n >= 0 {
        n / (SCALE as int)
    } else {
        -((-n) / (SCALE as int))
    }
}

/// Whether `n` is a raw value that sixty-four bits can hold.
pub open spec fn representable(n: int) -> bool {
    i64::MIN <= n <= i64::MAX
}

/// A fixed-point number; `raw` counts billionths.
#[derive(Clone, Copy, Debug, PartialEq, Eq, Structural)]
pub struct Scalar {
    pub raw: i64,
}

impl View for Scalar {
    type V = int;

    /// The raw count of billionths, as a mathematical integer.
    open spec fn view(&self) -> int {
        self.raw as int
    }
}

fn clamp(n: i128) -> (r: i64)
    ensures
        r == saturate(n as int),
{
    if n > i64::MAX as i128 {
        i64::MAX
    } else if n < i64::MIN as i128 {
        i64::MIN
    } else {
        n as i64
    }
}

proof fn lemma_product_bounds(a: int, b: int)
    requires
        i64::MIN <= a <= i64::MAX,
        i64::MIN <= b <= i64::MAX,
    ensures
        -0x4000_0000_0000_0000_0000_0000_0000_0000 <= a * b
            <= 0x4000_0000_0000_0000_0000_0000_0000_0000,
{
    assert(-0x4000_0000_0000_0000_0000_0000_0000_0000 <= a * b
        <= 0x4000_0000_0000_0000_0000_0000_0000_0000) by (nonlinear_arith)
        requires
            -0x8000_0000_0000_0000 <= a <= 0x7fff_ffff_ffff_ffff,
            -0x8000_0000_0000_0000 <= b <= 0x7fff_ffff_ffff_ffff,
    ;
}

impl Scalar {
    /// The number zero.
    pub open spec fn spec_zero() -> Scalar {
        Scalar { raw: 0 }
    }

    /// The number zero.
    #[verifier::when_used_as_spec(spec_zero)]
    pub fn zero() -> (r: Scalar)
        ensures
            r == Scalar::spec_zero(),
    {
        Scalar { raw: 0 }
    }

    /// The number one.
    pub open spec fn spec_one() -> Scalar {
        Scalar { raw: SCALE }
    }

    /// The number one.
    #[verifier::when_used_as_spec(spec_one)]
    pub fn one() -> (r: Scalar)
        ensures
            r == Scalar::spec_one(),
    {
        Scalar { raw: SCALE }
    }

    /// The whole number `n`.
    pub open spec fn spec_from_int(n: i32) -> Scalar {
        Scalar { raw: (n * SCALE) as i64 }
    }

    /// The whole number `n`. Every 32-bit whole number is representable.
    #[verifier::when_used_as_spec(spec_from_int)]
    pub fn from_int(n: i32) -> (r: Scalar)
        ensures
            r == Scalar::spec_from_int(n),
            r@ == n * SCALE,
    {
        Scalar { raw: (n as i64) * SCALE }
    }

    /// The sum, stopped at the ends of the range.
    pub open spec fn spec_plus(self, rhs: Scalar) -> Scalar {
        Scalar { raw: saturate(self.raw + rhs.raw) as i64 }
    }

    /// The sum, stopped at the ends of the range.
    #[verifier::when_used_as_spec(spec_plus)]
    pub fn plus(self, rhs: Scalar) -> (r: Scalar)
        ensures
            r == self.spec_plus(rhs),
            r@ == saturate(self@ + rhs@),
    {
        Scalar { raw: clamp(self.raw as i128 + rhs.raw as i128) }
    }

    /// The difference, stopped at the ends of the range.
    pub open spec fn spec_minus(self, rhs: Scalar) -> Scalar {
        Scalar { raw: saturate(self.raw - rhs.raw) as i64 }
    }

    /// The difference, stopped at the ends of the range.
    #[verifier::when_used_as_spec(spec_minus)]
    pub fn minus(self, rhs: Scalar) -> (r: Scalar)
        ensures
            r == self.spec_minus(rhs),
            r@ == saturate(self@ - rhs@),
    {
        Scalar { raw: clamp(self.raw as i128 - rhs.raw as i128) }
    }

    /// The product, rounded toward zero to a billionth and stopped at the
    /// ends of the range.
    pub open spec fn spec_times(self, rhs: Scalar) -> Scalar {
        Scalar { raw: saturate(rescale(self.raw * rhs.raw)) as i64 }
    }

    /// The product, rounded toward zero to a billionth and stopped at the
    /// ends of the range.
    #[verifier::when_used_as_spec(spec_times)]
    pub fn times(self, rhs: Scalar) -> (r: Scalar)
        ensures
            r == self.spec_times(rhs),
            r@ == saturate(rescale(self@ * rhs@)),
    {
        proof {
            lemma_product_bounds(self.raw as int, rhs.raw as int);
        }
        let product: i128 = (self.raw as i128) * (rhs.raw as i128);
        let quotient: i128 = if product >= 0 {
            product / (SCALE as i128)
        } else {
            -((-product) / (SCALE as i128))
        };
        Scalar { raw: clamp(quotient) }
    }
}

} // verus!
