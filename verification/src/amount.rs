//! Fixed-point currency amounts.
//!
//! An [`Amount`] mirrors the ledger's 192-bit decimal: a signed count of
//! attos (10^-18 of a whole unit) kept as three little-endian 64-bit limbs in
//! two's complement. Sign and order are read directly off the limbs and are
//! proved here; sums, differences and products are delegated to
//! `scrypto`'s `Decimal`, so that rounding and overflow are exactly the
//! ledger's.

use scrypto::math::{CheckedAdd, CheckedMul, CheckedSub, Decimal, I192};
use vstd::prelude::*;

verus! {

/// Attos in one whole unit: ten to the power eighteen.
pub open spec fn attos_per_unit() -> int {
    1_000_000_000_000_000_000
}

/// The least number of attos an [`Amount`] can hold: minus two to the power 191.
pub open spec fn min_attos() -> int {
    -0x8000_0000_0000_0000_0000_0000_0000_0000_0000_0000_0000_0000int
}

/// The greatest number of attos an [`Amount`] can hold: two to the power 191, less one.
pub open spec fn max_attos() -> int {
    0x7FFF_FFFF_FFFF_FFFF_FFFF_FFFF_FFFF_FFFF_FFFF_FFFF_FFFF_FFFFint
}

/// Whether a number of attos fits in an [`Amount`].
pub open spec fn representable(attos: int) -> bool {
    min_attos() <= attos <= max_attos()
}

/// Whether a fixed-point product fits in an [`Amount`]. The ledger forms a
/// product in a wider integer and narrows it by magnitude, which leaves out
/// the least amount: a product of exactly minus two to the power 191 is
/// refused.
pub open spec fn product_representable(attos: int) -> bool {
    -max_attos() <= attos <= max_attos()
}

/// The product of two fixed-point quantities, both given in attos, as a
/// number of attos: the exact product divided by ten to the power eighteen
/// and rounded toward zero.
pub open spec fn scaled_product(a: int, b: int) -> int {
    let p = a * b;
    if p >= 0 {
        p / attos_per_unit()
    } else {
        -((-p) / attos_per_unit())
    }
}

/// A signed quantity of currency with eighteen decimal places.
///
/// The limbs are the two's-complement digits of the number of attos, least
/// significant first. Every limb pattern is a valid amount.
#[derive(Clone, Copy, Debug, PartialEq, Eq, Structural)]
pub struct Amount {
    pub lo: u64,
    pub mid: u64,
    pub hi: u64,
}

impl View for Amount {
    type V = int;

    /// The number of attos.
    open spec fn view(&self) -> int {
        self.lo + self.mid * 0x1_0000_0000_0000_0000int + self.hi
            * 0x1_0000_0000_0000_0000_0000_0000_0000_0000int - if self.hi >= 0x8000_0000_0000_0000u64 {
            0x1_0000_0000_0000_0000_0000_0000_0000_0000_0000_0000_0000_0000int
        } else {
            0int
        }
    }
}

impl Amount {
    /// The amount of nothing.
    pub fn zero() -> (a: Amount)
        ensures
            a@ == 0,
    {
        Amount { lo: 0, mid: 0, hi: 0 }
    }

    /// One whole unit.
    pub fn one() -> (a: Amount)
        ensures
            a@ == attos_per_unit(),
    {
        Amount { lo: 1_000_000_000_000_000_000, mid: 0, hi: 0 }
    }

    /// The amount of `attos` attos.
    pub fn from_attos(attos: i128) -> (a: Amount)
        ensures
            a@ == attos,
    {
        if attos >= 0 {
            let bits: u128 = attos as u128;
            let lo: u64 = (bits % 0x1_0000_0000_0000_0000) as u64;
            let mid: u64 = (bits / 0x1_0000_0000_0000_0000) as u64;
            Amount { lo, mid, hi: 0 }
        } else {
            let below: u128 = (-(attos + 1)) as u128;
            let bits: u128 = u128::MAX - below;
            let lo: u64 = (bits % 0x1_0000_0000_0000_0000) as u64;
            let mid: u64 = (bits / 0x1_0000_0000_0000_0000) as u64;
            Amount { lo, mid, hi: u64::MAX }
        }
    }

    /// The amount of `units` whole units.
    pub fn from_units(units: u64) -> (a: Amount)
        ensures
            a@ == units * attos_per_unit(),
    {
        let attos: i128 = (units as i128) * 1_000_000_000_000_000_000i128;
        Amount::from_attos(attos)
    }

    /// The limbs as an array, least significant first.
    pub fn digits(&self) -> (d: [u64; 3])
        ensures
            d[0] == self.lo,
            d[1] == self.mid,
            d[2] == self.hi,
    {
        [self.lo, self.mid, self.hi]
    }

    /// The amount whose limbs are `d`, least significant first.
    pub fn from_digits(d: [u64; 3]) -> (a: Amount)
        ensures
            a.lo == d[0],
            a.mid == d[1],
            a.hi == d[2],
    {
        Amount { lo: d[0], mid: d[1], hi: d[2] }
    }

    /// Whether the amount is below zero.
    pub fn is_negative(&self) -> (r: bool)
        ensures
            r == (self@ < 0),
    {
        self.hi >= 0x8000_0000_0000_0000u64
    }

    /// Whether the amount is exactly zero.
    pub fn is_zero(&self) -> (r: bool)
        ensures
            r == (self@ == 0),
    {
        self.lo == 0 && self.mid == 0 && self.hi == 0
    }

    /// Whether this amount is strictly smaller than `other`.
    pub fn less_than(&self, other: &Amount) -> (r: bool)
        ensures
            r == (self@ < other@),
    {
        let self_negative = self.is_negative();
        let other_negative = other.is_negative();
        if self_negative != other_negative {
            self_negative
        } else if self.hi != other.hi {
            self.hi < other.hi
        } else if self.mid != other.mid {
            self.mid < other.mid
        } else {
            self.lo < other.lo
        }
    }

    /// The sum of two amounts, or `None` exactly when it does not fit.
    pub fn checked_add(self, other: Amount) -> (r: Option<Amount>)
        ensures
            match r {
                Some(sum) => sum@ == self@ + other@,
                None => !representable(self@ + other@),
            },
    {
        decimal_checked_add(self, other)
    }

    /// The difference of two amounts, or `None` exactly when it does not fit.
    pub fn checked_sub(self, other: Amount) -> (r: Option<Amount>)
        ensures
            match r {
                Some(difference) => difference@ == self@ - other@,
                None => !representable(self@ - other@),
            },
    {
        decimal_checked_sub(self, other)
    }

    /// The fixed-point product of two amounts, rounded toward zero at the
    /// eighteenth decimal place, or `None` exactly when it does not fit.
    pub fn checked_mul(self, other: Amount) -> (r: Option<Amount>)
        ensures
            match r {
                Some(product) => product@ == scaled_product(self@, other@),
                None => !product_representable(scaled_product(self@, other@)),
            },
    {
        decimal_checked_mul(self, other)
    }

    /// The sum of two amounts that is known to fit.
    pub(crate) fn plus(self, other: Amount) -> (sum: Amount)
        requires
            representable(self@ + other@),
        ensures
            sum@ == self@ + other@,
    {
        match decimal_checked_add(self, other) {
            Some(sum) => sum,
            // not reached: the sum fits
            None => self,
        }
    }

    /// The difference of two amounts that is known to fit.
    pub(crate) fn minus(self, other: Amount) -> (difference: Amount)
        requires
            representable(self@ - other@),
        ensures
            difference@ == self@ - other@,
    {
        match decimal_checked_sub(self, other) {
            Some(difference) => difference,
            // not reached: the difference fits
            None => self,
        }
    }

    /// The fixed-point product of two amounts that is known to fit.
    pub(crate) fn times(self, other: Amount) -> (product: Amount)
        requires
            product_representable(scaled_product(self@, other@)),
        ensures
            product@ == scaled_product(self@, other@),
    {
        match decimal_checked_mul(self, other) {
            Some(product) => product,
            // not reached: the product fits
            None => self,
        }
    }
}

/// `Decimal::checked_add`: the sum of two amounts when it fits, and `None`
/// exactly when it does not. The limbs are handed to `I192::from_digits` and
/// read back with `I192::to_digits`, which keep the same little-endian
/// two's-complement layout.
#[verifier::external_body]
fn decimal_checked_add(a: Amount, b: Amount) -> (r: Option<Amount>)
    ensures
        match r {
            Some(sum) => sum@ == a@ + b@,
            None => !representable(a@ + b@),
        },
{
    let x = Decimal::from_attos(I192::from_digits(a.digits()));
    let y = Decimal::from_attos(I192::from_digits(b.digits()));
    x.checked_add(y).map(|z| Amount::from_digits(z.attos().to_digits()))
}

/// `Decimal::checked_sub`: the difference of two amounts when it fits, and
/// `None` exactly when it does not.
#[verifier::external_body]
fn decimal_checked_sub(a: Amount, b: Amount) -> (r: Option<Amount>)
    ensures
        match r {
            Some(difference) => difference@ == a@ - b@,
            None => !representable(a@ - b@),
        },
{
    let x = Decimal::from_attos(I192::from_digits(a.digits()));
    let y = Decimal::from_attos(I192::from_digits(b.digits()));
    x.checked_sub(y).map(|z| Amount::from_digits(z.attos().to_digits()))
}

/// `Decimal::checked_mul`: the fixed-point product of two amounts, rounded
/// toward zero at the eighteenth decimal place, when it fits, and `None`
/// exactly when it does not. The product is formed in 256 bits, divided by
/// ten to the power eighteen with the quotient truncated, and narrowed to
/// 192 bits by `I192::try_from`, which accepts magnitudes below two to the
/// power 191 only.
#[verifier::external_body]
fn decimal_checked_mul(a: Amount, b: Amount) -> (r: Option<Amount>)
    ensures
        match r {
            Some(product) => product@ == scaled_product(a@, b@),
            None => !product_representable(scaled_product(a@, b@)),
        },
{
    let x = Decimal::from_attos(I192::from_digits(a.digits()));
    let y = Decimal::from_attos(I192::from_digits(b.digits()));
    x.checked_mul(y).map(|z| Amount::from_digits(z.attos().to_digits()))
}

} // verus!
