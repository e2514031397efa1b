//! Fixed-precision price and quantity values.
//!
//! Both types are decimal-scaled integers: a raw integer count of the
//! smallest representable step together with the number of decimal digits
//! that step stands for. The value represented is `raw / 10^precision`.
//! Fill accounting in the order core is carried out on the raw integers, so
//! no floating arithmetic ever touches quantities that affect it.

use vstd::prelude::*;

use crate::errors::ValidationError;

verus! {

/// `10^e` as a specification-level integer.
pub open spec fn pow10(e: nat) -> nat
    decreases e,
{
    if e == 0 {
        1
    } else {
        10 * pow10((e - 1) as nat)
    }
}

/// `10^e` as a machine integer, for exponents small enough to fit `u64`.
pub fn pow10_u64(e: u8) -> (r: u64)
    requires
        e <= 19,
    ensures
        r == pow10(e as nat),
{
    proof {
        lemma_pow10_19_bound();
        lemma_pow10_increases(e as nat, 19);
    }
    let mut r: u64 = 1;
    let mut i: u8 = 0;
    while i < e
        invariant
            i <= e <= 19,
            r == pow10(i as nat),
            pow10(e as nat) <= u64::MAX,
        decreases e - i,
    {
        proof {
            lemma_pow10_increases(i as nat + 1, e as nat);
        }
        r = r * 10;
        i = i + 1;
    }
    r
}

/// `pow10` is monotone in its exponent.
pub proof fn lemma_pow10_increases(a: nat, b: nat)
    requires
        a <= b,
    ensures
        pow10(a) <= pow10(b),
    decreases b,
{
    if a < b {
        lemma_pow10_increases(a, (b - 1) as nat);
        assert(pow10(b) == 10 * pow10((b - 1) as nat));
    }
}

/// `10^19` still fits in a `u64`.
pub proof fn lemma_pow10_19_bound()
    ensures
        pow10(19) < u64::MAX,
{
    reveal_with_fuel(pow10, 20);
    assert(pow10(19) == 10000000000000000000);
}

/// A quantity of an instrument: `raw / 10^precision` units, never negative.
#[derive(Clone, Copy, Debug, PartialEq, Eq, Structural)]
pub struct Quantity {
    /// Count of steps of size `10^-precision`.
    pub raw: u64,
    /// Number of decimal digits the raw count is scaled by.
    pub precision: u8,
}

impl Quantity {
    /// Builds a quantity directly from its raw step count and precision.
    pub fn from_raw(raw: u64, precision: u8) -> (r: Quantity)
        ensures
            r.raw == raw,
            r.precision == precision,
    {
        Quantity { raw, precision }
    }

    /// Builds a quantity from a whole number of units at the given
    /// precision. Fails when the scaled raw count would not fit in 64 bits,
    /// or the precision exceeds the 19 decimal digits a `u64` can scale
    /// (such a precision is refused for every value).
    pub fn from_int(value: u64, precision: u8) -> (r: Result<Quantity, ValidationError>)
        ensures
            r is Ok <==> (precision <= 19 && value * pow10(precision as nat) <= u64::MAX),
            r matches Ok(q) ==> q.raw == value * pow10(precision as nat) && q.precision
                == precision,
            r is Err ==> r == Err::<Quantity, ValidationError>(ValidationError::QuantityOutOfRange),
    {
        if precision > 19 {
            return Err(ValidationError::QuantityOutOfRange);
        }
        let scale = pow10_u64(precision);
        match value.checked_mul(scale) {
            Some(raw) => Ok(Quantity { raw, precision }),
            None => Err(ValidationError::QuantityOutOfRange),
        }
    }

    /// True when the quantity is strictly positive.
    pub fn is_positive(&self) -> (r: bool)
        ensures
            r == (self.raw > 0),
    {
        self.raw > 0
    }
}

/// A price: `raw / 10^precision` quote units; negative values are admitted
/// (some spread and rate instruments quote below zero).
#[derive(Clone, Copy, Debug, PartialEq, Eq, Structural)]
pub struct Price {
    /// Signed count of steps of size `10^-precision`.
    pub raw: i64,
    /// Number of decimal digits the raw count is scaled by.
    pub precision: u8,
}

impl Price {
    /// Builds a price directly from its raw step count and precision.
    pub fn from_raw(raw: i64, precision: u8) -> (r: Price)
        ensures
            r.raw == raw,
            r.precision == precision,
    {
        Price { raw, precision }
    }

    /// Builds a price from a whole number of quote units at the given
    /// precision. Fails when the scaled raw count would not fit in 64 bits
    /// or the precision exceeds the 19 decimal digits an `i64` can scale.
    pub fn from_int(value: i64, precision: u8) -> (r: Result<Price, ValidationError>)
        ensures
            r is Ok <==> (precision <= 18 && value * pow10(precision as nat) <= i64::MAX && value
                * pow10(precision as nat) >= i64::MIN),
            r matches Ok(p) ==> p.raw == value * pow10(precision as nat) && p.precision
                == precision,
            r is Err ==> r == Err::<Price, ValidationError>(ValidationError::PriceOutOfRange),
    {
        if precision > 18 {
            return Err(ValidationError::PriceOutOfRange);
        }
        proof {
            reveal_with_fuel(pow10, 19);
            assert(pow10(18) == 1000000000000000000);
        }
        let scale_u = pow10_u64(precision);
        let scale: i64 = scale_u as i64;
        match value.checked_mul(scale) {
            Some(raw) => Ok(Price { raw, precision }),
            None => Err(ValidationError::PriceOutOfRange),
        }
    }
}

} // verus!
