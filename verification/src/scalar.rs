//! The exact scalar the quantity types carry and the formulas compute on.
//!
//! A scalar is a signed fixed-point number counted in nanos (billionths),
//! extended with the special values of the formulas' error channel: a signed
//! zero, a signed infinity and a not-a-number. The arithmetic here mirrors
//! the IEEE-754 rules for those special values — a division by zero yields
//! an infinity whose sign is the quotient of the operand signs, a zero over
//! zero or an infinity over infinity yields a not-a-number, and a
//! not-a-number propagates through every operation — while finite results
//! are exact up to one truncation to the nano grid per operation, and a
//! finite result too large for the grid overflows to the signed infinity.
//! Every operation is total and fully specified: each executable function's
//! contract equates its result with a specification function of the
//! operands alone.

use vstd::prelude::*;

verus! {

/// Nanos per unit: the denominator of the fixed-point grid.
pub const NANO: u64 = 1_000_000_000;

/// A fixed-point scalar extended with the IEEE-754 special values.
///
/// A finite scalar is `±nanos / 1_000_000_000`; `negative` with `nanos == 0`
/// is the negative zero. Equality is structural, so two not-a-numbers are
/// equal and the two zeros are not.
#[derive(Clone, Copy, Debug, PartialEq, Eq, Structural)]
pub enum Scalar {
    /// A finite value, sign and magnitude in nanos.
    Finite { negative: bool, nanos: u64 },
    /// Positive or negative infinity.
    Infinite { negative: bool },
    /// The not-a-number outcome of an undefined operation.
    NotANumber,
}

/// The non-negative finite scalar of `nanos` billionths.
pub open spec fn pos(nanos: u64) -> Scalar {
    Scalar::Finite { negative: false, nanos }
}

/// The scalar one.
pub open spec fn one() -> Scalar {
    pos(NANO)
}

/// Negation: flips the sign of a finite value or an infinity; a
/// not-a-number stays a not-a-number.
pub open spec fn spec_neg(a: Scalar) -> Scalar {
    match a {
        Scalar::Finite { negative, nanos } => Scalar::Finite { negative: !negative, nanos },
        Scalar::Infinite { negative } => Scalar::Infinite { negative: !negative },
        Scalar::NotANumber => Scalar::NotANumber,
    }
}

/// Addition. Opposite infinities yield a not-a-number; an infinity absorbs
/// a finite addend; finite magnitudes add or cancel by sign, an exact tie
/// giving the positive zero, and a magnitude beyond the grid overflowing to
/// the signed infinity.
pub open spec fn spec_add(a: Scalar, b: Scalar) -> Scalar {
    match (a, b) {
        (Scalar::NotANumber, _) => Scalar::NotANumber,
        (_, Scalar::NotANumber) => Scalar::NotANumber,
        (Scalar::Infinite { negative: na }, Scalar::Infinite { negative: nb }) => {
            if na == nb {
                Scalar::Infinite { negative: na }
            } else {
                Scalar::NotANumber
            }
        },
        (Scalar::Infinite { negative }, Scalar::Finite { .. }) => Scalar::Infinite { negative },
        (Scalar::Finite { .. }, Scalar::Infinite { negative }) => Scalar::Infinite { negative },
        (
            Scalar::Finite { negative: na, nanos: ma },
            Scalar::Finite { negative: nb, nanos: mb },
        ) => {
            if na == nb {
                if ma + mb > u64::MAX {
                    Scalar::Infinite { negative: na }
                } else {
                    Scalar::Finite { negative: na, nanos: (ma + mb) as u64 }
                }
            } else if ma == mb {
                Scalar::Finite { negative: false, nanos: 0 }
            } else if ma > mb {
                Scalar::Finite { negative: na, nanos: (ma - mb) as u64 }
            } else {
                Scalar::Finite { negative: nb, nanos: (mb - ma) as u64 }
            }
        },
    }
}

/// Subtraction: addition of the negated subtrahend.
pub open spec fn spec_sub(a: Scalar, b: Scalar) -> Scalar {
    spec_add(a, spec_neg(b))
}

/// Multiplication. The sign is the exclusive-or of the operand signs; an
/// infinity times a zero yields a not-a-number; finite magnitudes multiply
/// and truncate to the nano grid, overflowing to the signed infinity.
pub open spec fn spec_mul(a: Scalar, b: Scalar) -> Scalar {
    match (a, b) {
        (Scalar::NotANumber, _) => Scalar::NotANumber,
        (_, Scalar::NotANumber) => Scalar::NotANumber,
        (Scalar::Infinite { negative: na }, Scalar::Infinite { negative: nb }) => Scalar::Infinite {
            negative: na != nb,
        },
        (Scalar::Infinite { negative: na }, Scalar::Finite { negative: nb, nanos: mb }) => {
            if mb == 0 {
                Scalar::NotANumber
            } else {
                Scalar::Infinite { negative: na != nb }
            }
        },
        (Scalar::Finite { negative: na, nanos: ma }, Scalar::Infinite { negative: nb }) => {
            if ma == 0 {
                Scalar::NotANumber
            } else {
                Scalar::Infinite { negative: na != nb }
            }
        },
        (
            Scalar::Finite { negative: na, nanos: ma },
            Scalar::Finite { negative: nb, nanos: mb },
        ) => {
            if (ma * mb) / (NANO as int) > u64::MAX {
                Scalar::Infinite { negative: na != nb }
            } else {
                Scalar::Finite { negative: na != nb, nanos: ((ma * mb) / (NANO as int)) as u64 }
            }
        },
    }
}

/// Division. The sign is the exclusive-or of the operand signs; an infinity
/// over an infinity and a zero over a zero yield a not-a-number; a nonzero
/// finite value over a zero yields the signed infinity; a finite value over
/// an infinity yields the signed zero; finite magnitudes divide and truncate
/// to the nano grid, overflowing to the signed infinity.
pub open spec fn spec_div(a: Scalar, b: Scalar) -> Scalar {
    match (a, b) {
        (Scalar::NotANumber, _) => Scalar::NotANumber,
        (_, Scalar::NotANumber) => Scalar::NotANumber,
        (Scalar::Infinite { .. }, Scalar::Infinite { .. }) => Scalar::NotANumber,
        (Scalar::Infinite { negative: na }, Scalar::Finite { negative: nb, .. }) => {
            Scalar::Infinite { negative: na != nb }
        },
        (Scalar::Finite { negative: na, .. }, Scalar::Infinite { negative: nb }) => Scalar::Finite {
            negative: na != nb,
            nanos: 0,
        },
        (
            Scalar::Finite { negative: na, nanos: ma },
            Scalar::Finite { negative: nb, nanos: mb },
        ) => {
            if mb == 0 {
                if ma == 0 {
                    Scalar::NotANumber
                } else {
                    Scalar::Infinite { negative: na != nb }
                }
            } else if (ma * NANO) / (mb as int) > u64::MAX {
                Scalar::Infinite { negative: na != nb }
            } else {
                Scalar::Finite { negative: na != nb, nanos: ((ma * NANO) / (mb as int)) as u64 }
            }
        },
    }
}

/// The integer square root: the unique `r >= 0` with `r * r <= n` and
/// `n < (r + 1) * (r + 1)`.
pub open spec fn spec_isqrt(n: int) -> int {
    choose|r: int| 0 <= r && #[trigger] (r * r) <= n && n < (r + 1) * (r + 1)
}

/// Square root. The square root of a negative value — negative infinity or
/// a finite negative with nonzero magnitude — is a not-a-number; the square
/// root of either zero is that zero; a positive finite magnitude takes the
/// integer square root of its count of squared-nano units, truncating to
/// the nano grid.
pub open spec fn spec_sqrt(a: Scalar) -> Scalar {
    match a {
        Scalar::NotANumber => Scalar::NotANumber,
        Scalar::Infinite { negative } => {
            if negative {
                Scalar::NotANumber
            } else {
                Scalar::Infinite { negative: false }
            }
        },
        Scalar::Finite { negative, nanos } => {
            if nanos == 0 {
                Scalar::Finite { negative, nanos: 0 }
            } else if negative {
                Scalar::NotANumber
            } else {
                Scalar::Finite { negative: false, nanos: spec_isqrt(nanos * NANO) as u64 }
            }
        },
    }
}

/// Squares on non-negative integers grow with their argument.
proof fn lemma_sq_monotone(a: int, b: int)
    by (nonlinear_arith)
    requires
        0 <= a <= b,
    ensures
        a * a <= b * b,
{
}

/// A product of bounded non-negative factors is bounded by the product of
/// the bounds.
proof fn lemma_mul_bounds(a: int, b: int, ca: int, cb: int)
    by (nonlinear_arith)
    requires
        0 <= a <= ca,
        0 <= b <= cb,
    ensures
        a * b <= ca * cb,
{
}

/// Scaling by a positive factor and dividing by it again is the identity.
proof fn lemma_mul_div_cancel(n: int, m: int)
    by (nonlinear_arith)
    requires
        0 <= n,
        1 <= m,
    ensures
        (n * m) / m == n,
{
}

/// The integer square root is unique, so any witness determines it.
proof fn lemma_isqrt_is(n: int, r: int)
    requires
        0 <= r,
        r * r <= n,
        n < (r + 1) * (r + 1),
    ensures
        spec_isqrt(n) == r,
{
    assert(exists|q: int| 0 <= q && #[trigger] (q * q) <= n && n < (q + 1) * (q + 1)) by {
        assert(0 <= r && r * r <= n && n < (r + 1) * (r + 1));
    }
    let c = spec_isqrt(n);
    assert(0 <= c && c * c <= n && n < (c + 1) * (c + 1));
    if c < r {
        lemma_sq_monotone(c + 1, r);
        assert(false);
    }
    if r < c {
        lemma_sq_monotone(r + 1, c);
        assert(false);
    }
}

/// Binary search for the integer square root of a scaled magnitude.
fn isqrt_u128(n: u128) -> (r: u64)
    requires
        n <= 0xFFFF_FFFF_FFFF_FFFF * 1_000_000_000,
    ensures
        r * r <= n,
        n < (r + 1) * (r + 1),
        r == spec_isqrt(n as int),
{
    let mut lo: u64 = 0;
    let mut hi: u64 = 136_000_000_000_000;
    proof {
        assert((136_000_000_000_000 as int) * (136_000_000_000_000 as int) > 0xFFFF_FFFF_FFFF_FFFF
            * 1_000_000_000) by (nonlinear_arith);
    }
    while hi - lo > 1
        invariant
            lo < hi <= 136_000_000_000_000,
            lo * lo <= n,
            n < hi * hi,
        decreases hi - lo,
    {
        let mid: u64 = lo + (hi - lo) / 2;
        proof {
            lemma_mul_bounds(mid as int, mid as int, 136_000_000_000_000, 136_000_000_000_000);
        }
        let sq: u128 = (mid as u128) * (mid as u128);
        if sq <= n {
            lo = mid;
        } else {
            hi = mid;
        }
    }
    proof {
        lemma_isqrt_is(n as int, lo as int);
    }
    lo
}

impl Scalar {
    /// Negates the scalar.
    pub fn neg(self) -> (r: Scalar)
        ensures
            r == spec_neg(self),
    {
        match self {
            Scalar::Finite { negative, nanos } => Scalar::Finite { negative: !negative, nanos },
            Scalar::Infinite { negative } => Scalar::Infinite { negative: !negative },
            Scalar::NotANumber => Scalar::NotANumber,
        }
    }

    /// Adds two scalars.
    pub fn add_to(self, other: Scalar) -> (r: Scalar)
        ensures
            r == spec_add(self, other),
    {
        match (self, other) {
            (Scalar::NotANumber, _) => Scalar::NotANumber,
            (_, Scalar::NotANumber) => Scalar::NotANumber,
            (Scalar::Infinite { negative: na }, Scalar::Infinite { negative: nb }) => {
                if na == nb {
                    Scalar::Infinite { negative: na }
                } else {
                    Scalar::NotANumber
                }
            },
            (Scalar::Infinite { negative }, Scalar::Finite { .. }) => Scalar::Infinite { negative },
            (Scalar::Finite { .. }, Scalar::Infinite { negative }) => Scalar::Infinite { negative },
            (
                Scalar::Finite { negative: na, nanos: ma },
                Scalar::Finite { negative: nb, nanos: mb },
            ) => {
                if na == nb {
                    let sum: u128 = (ma as u128) + (mb as u128);
                    if sum > u64::MAX as u128 {
                        Scalar::Infinite { negative: na }
                    } else {
                        Scalar::Finite { negative: na, nanos: sum as u64 }
                    }
                } else if ma == mb {
                    Scalar::Finite { negative: false, nanos: 0 }
                } else if ma > mb {
                    Scalar::Finite { negative: na, nanos: ma - mb }
                } else {
                    Scalar::Finite { negative: nb, nanos: mb - ma }
                }
            },
        }
    }

    /// Subtracts `other` from the scalar.
    pub fn sub_by(self, other: Scalar) -> (r: Scalar)
        ensures
            r == spec_sub(self, other),
    {
        self.add_to(other.neg())
    }

    /// Multiplies two scalars.
    pub fn mul_by(self, other: Scalar) -> (r: Scalar)
        ensures
            r == spec_mul(self, other),
    {
        match (self, other) {
            (Scalar::NotANumber, _) => Scalar::NotANumber,
            (_, Scalar::NotANumber) => Scalar::NotANumber,
            (Scalar::Infinite { negative: na }, Scalar::Infinite { negative: nb }) => {
                Scalar::Infinite { negative: na != nb }
            },
            (Scalar::Infinite { negative: na }, Scalar::Finite { negative: nb, nanos: mb }) => {
                if mb == 0 {
                    Scalar::NotANumber
                } else {
                    Scalar::Infinite { negative: na != nb }
                }
            },
            (Scalar::Finite { negative: na, nanos: ma }, Scalar::Infinite { negative: nb }) => {
                if ma == 0 {
                    Scalar::NotANumber
                } else {
                    Scalar::Infinite { negative: na != nb }
                }
            },
            (
                Scalar::Finite { negative: na, nanos: ma },
                Scalar::Finite { negative: nb, nanos: mb },
            ) => {
                proof {
                    lemma_mul_bounds(
                        ma as int,
                        mb as int,
                        0xFFFF_FFFF_FFFF_FFFF,
                        0xFFFF_FFFF_FFFF_FFFF,
                    );
                }
                let q: u128 = ((ma as u128) * (mb as u128)) / (NANO as u128);
                if q > u64::MAX as u128 {
                    Scalar::Infinite { negative: na != nb }
                } else {
                    Scalar::Finite { negative: na != nb, nanos: q as u64 }
                }
            },
        }
    }

    /// Divides the scalar by `other`.
    pub fn div_by(self, other: Scalar) -> (r: Scalar)
        ensures
            r == spec_div(self, other),
    {
        match (self, other) {
            (Scalar::NotANumber, _) => Scalar::NotANumber,
            (_, Scalar::NotANumber) => Scalar::NotANumber,
            (Scalar::Infinite { .. }, Scalar::Infinite { .. }) => Scalar::NotANumber,
            (Scalar::Infinite { negative: na }, Scalar::Finite { negative: nb, .. }) => {
                Scalar::Infinite { negative: na != nb }
            },
            (Scalar::Finite { negative: na, .. }, Scalar::Infinite { negative: nb }) => {
                Scalar::Finite { negative: na != nb, nanos: 0 }
            },
            (
                Scalar::Finite { negative: na, nanos: ma },
                Scalar::Finite { negative: nb, nanos: mb },
            ) => {
                if mb == 0 {
                    if ma == 0 {
                        Scalar::NotANumber
                    } else {
                        Scalar::Infinite { negative: na != nb }
                    }
                } else {
                    proof {
                        lemma_mul_bounds(
                            ma as int,
                            NANO as int,
                            0xFFFF_FFFF_FFFF_FFFF,
                            1_000_000_000,
                        );
                    }
                    let q: u128 = ((ma as u128) * (NANO as u128)) / (mb as u128);
                    if q > u64::MAX as u128 {
                        Scalar::Infinite { negative: na != nb }
                    } else {
                        Scalar::Finite { negative: na != nb, nanos: q as u64 }
                    }
                }
            },
        }
    }

    /// Takes the square root of the scalar.
    pub fn sqrt(self) -> (r: Scalar)
        ensures
            r == spec_sqrt(self),
    {
        match self {
            Scalar::NotANumber => Scalar::NotANumber,
            Scalar::Infinite { negative } => {
                if negative {
                    Scalar::NotANumber
                } else {
                    Scalar::Infinite { negative: false }
                }
            },
            Scalar::Finite { negative, nanos } => {
                if nanos == 0 {
                    Scalar::Finite { negative, nanos: 0 }
                } else if negative {
                    Scalar::NotANumber
                } else {
                    proof {
                        lemma_mul_bounds(
                            nanos as int,
                            NANO as int,
                            0xFFFF_FFFF_FFFF_FFFF,
                            1_000_000_000,
                        );
                    }
                    let scaled: u128 = (nanos as u128) * (NANO as u128);
                    let root: u64 = isqrt_u128(scaled);
                    Scalar::Finite { negative: false, nanos: root }
                }
            },
        }
    }
}

/// Multiplying by one is the identity on every scalar, the two zeros, the
/// two infinities and the not-a-number included.
pub proof fn lemma_mul_one(a: Scalar)
    ensures
        spec_mul(a, one()) == a,
{
    match a {
        Scalar::Finite { negative, nanos } => {
            lemma_mul_div_cancel(nanos as int, NANO as int);
        },
        _ => {},
    }
}

/// A nonzero finite scalar divided by itself is one.
pub proof fn lemma_div_self(a: Scalar)
    requires
        a matches Scalar::Finite { nanos, .. } && nanos != 0,
    ensures
        spec_div(a, a) == one(),
{
    match a {
        Scalar::Finite { negative, nanos } => {
            assert((nanos * NANO) as int == (NANO * nanos) as int) by (nonlinear_arith);
            lemma_mul_div_cancel(NANO as int, nanos as int);
        },
        _ => {},
    }
}

} // verus!
