//! Fixed-point numbers of the ledger: a signed 192-bit count of `10^-18`
//! subunits ("attos"), kept as three 64-bit limbs in two's complement.
//!
//! Comparison and construction are verified here. Sums, differences, products
//! and quotients are computed by the ledger's own `Decimal` type.

use scrypto::prelude::CheckedAdd;
use scrypto::prelude::CheckedDiv;
use scrypto::prelude::CheckedMul;
use scrypto::prelude::CheckedSub;
use scrypto::prelude::CheckedTruncate;
use scrypto::prelude::Decimal as RadixDecimal;
use scrypto::prelude::PreciseDecimal as RadixPreciseDecimal;
use scrypto::prelude::RoundingMode;
use scrypto::prelude::I192;
use scrypto::prelude::I256;
use vstd::prelude::*;

verus! {

/// `2^64`, the weight of the middle limb.
pub open spec fn pow2_64() -> int {
    0x1_0000_0000_0000_0000int
}

/// `2^128`, the weight of the high limb.
pub open spec fn pow2_128() -> int {
    0x1_0000_0000_0000_0000_0000_0000_0000_0000int
}

/// `2^192`, the modulus of the representation.
pub open spec fn pow2_192() -> int {
    0x1_0000_0000_0000_0000_0000_0000_0000_0000_0000_0000_0000_0000int
}

/// `2^256`, the modulus of the wider representation.
pub open spec fn pow2_256() -> int {
    0x1_0000_0000_0000_0000_0000_0000_0000_0000_0000_0000_0000_0000_0000_0000_0000_0000int
}

/// Subunits in one whole unit: `10^18`.
pub open spec fn scale() -> int {
    1_000_000_000_000_000_000int
}

/// The least subunit count a `Decimal` can hold: `-2^191`.
pub open spec fn min_attos() -> int {
    -0x8000_0000_0000_0000_0000_0000_0000_0000_0000_0000_0000_0000int
}

/// The greatest subunit count a `Decimal` can hold: `2^191 - 1`.
pub open spec fn max_attos() -> int {
    0x7fff_ffff_ffff_ffff_ffff_ffff_ffff_ffff_ffff_ffff_ffff_ffffint
}

/// Whether `v` subunits fit in a `Decimal`.
pub open spec fn representable(v: int) -> bool {
    min_attos() <= v <= max_attos()
}

/// Integer quotient rounded toward zero; `b` must not be zero.
pub open spec fn quotient(a: int, b: int) -> int
    recommends
        b != 0,
{
    if a >= 0 && b > 0 {
        a / b
    } else if a < 0 && b > 0 {
        -((-a) / b)
    } else if a >= 0 && b < 0 {
        -(a / (-b))
    } else {
        (-a) / (-b)
    }
}

/// What a checked operation returns when its exact result is `v`:
/// the `Decimal` of `v` subunits if that fits, nothing otherwise.
pub open spec fn holds(r: Option<Decimal>, v: int) -> bool {
    match r {
        Some(d) => representable(v) && d.attos() == v,
        None => !representable(v),
    }
}

/// Whether a result of `v` subunits, computed in a wider format, comes back
/// from being narrowed to a `Decimal`: the ledger narrows every number of
/// the range but the least.
pub open spec fn narrowable(v: int) -> bool {
    min_attos() < v <= max_attos()
}

/// What a product or a quotient returns when its exact result is `v`: the
/// `Decimal` of `v` subunits if that can be narrowed, nothing otherwise.
pub open spec fn narrows(r: Option<Decimal>, v: int) -> bool {
    match r {
        Some(d) => narrowable(v) && d.attos() == v,
        None => !narrowable(v),
    }
}

/// A signed fixed-point number with 18 decimal places.
#[derive(Clone, Copy, Debug, PartialEq, Eq, Hash, Structural)]
pub struct Decimal {
    /// Bits 0..64 of the two's complement subunit count.
    pub lo: u64,
    /// Bits 64..128.
    pub mid: u64,
    /// Bits 128..192; the top bit is the sign.
    pub hi: u64,
}

/// Calls the ledger's `Decimal::checked_add`: the exact sum of the two
/// subunit counts, or nothing when the sum leaves the 192-bit range.
#[verifier::external_body]
fn radix_checked_add(a: Decimal, b: Decimal) -> (r: Option<Decimal>)
    ensures
        holds(r, a.attos() + b.attos()),
{
    let x = RadixDecimal::from_attos(I192::from_digits([a.lo, a.mid, a.hi]));
    let y = RadixDecimal::from_attos(I192::from_digits([b.lo, b.mid, b.hi]));
    match x.checked_add(y) {
        Some(z) => {
            let d = z.attos().to_digits();
            Some(Decimal { lo: d[0], mid: d[1], hi: d[2] })
        },
        None => None,
    }
}

/// Calls the ledger's `Decimal::checked_sub`: the exact difference of the
/// two subunit counts, or nothing when it leaves the 192-bit range.
#[verifier::external_body]
fn radix_checked_sub(a: Decimal, b: Decimal) -> (r: Option<Decimal>)
    ensures
        holds(r, a.attos() - b.attos()),
{
    let x = RadixDecimal::from_attos(I192::from_digits([a.lo, a.mid, a.hi]));
    let y = RadixDecimal::from_attos(I192::from_digits([b.lo, b.mid, b.hi]));
    match x.checked_sub(y) {
        Some(z) => {
            let d = z.attos().to_digits();
            Some(Decimal { lo: d[0], mid: d[1], hi: d[2] })
        },
        None => None,
    }
}

/// Calls the ledger's `Decimal::checked_mul`: the product of the two
/// subunit counts divided by `10^18` and rounded toward zero. The ledger
/// computes it in 256 bits and narrows it, so there is nothing when that
/// leaves the 192-bit range or is the least number of the range.
#[verifier::external_body]
fn radix_checked_mul(a: Decimal, b: Decimal) -> (r: Option<Decimal>)
    ensures
        narrows(r, quotient(a.attos() * b.attos(), scale())),
{
    let x = RadixDecimal::from_attos(I192::from_digits([a.lo, a.mid, a.hi]));
    let y = RadixDecimal::from_attos(I192::from_digits([b.lo, b.mid, b.hi]));
    match x.checked_mul(y) {
        Some(z) => {
            let d = z.attos().to_digits();
            Some(Decimal { lo: d[0], mid: d[1], hi: d[2] })
        },
        None => None,
    }
}

/// Calls the ledger's `Decimal::checked_div`: nothing for a zero divisor;
/// otherwise the dividend's subunit count times `10^18`, divided by the
/// divisor's and rounded toward zero. The ledger computes it in 256 bits
/// and narrows it, so there is nothing when that leaves the 192-bit range
/// or is the least number of the range.
#[verifier::external_body]
fn radix_checked_div(a: Decimal, b: Decimal) -> (r: Option<Decimal>)
    ensures
        b.attos() == 0 ==> r.is_none(),
        b.attos() != 0 ==> narrows(r, quotient(a.attos() * scale(), b.attos())),
{
    let x = RadixDecimal::from_attos(I192::from_digits([a.lo, a.mid, a.hi]));
    let y = RadixDecimal::from_attos(I192::from_digits([b.lo, b.mid, b.hi]));
    match x.checked_div(y) {
        Some(z) => {
            let d = z.attos().to_digits();
            Some(Decimal { lo: d[0], mid: d[1], hi: d[2] })
        },
        None => None,
    }
}

/// A signed fixed-point number with 36 decimal places, in which a lending
/// market may keep its amounts: a 256-bit count of `10^-36` subunits in
/// four 64-bit limbs, two's complement.
#[derive(Clone, Copy, Debug, PartialEq, Eq, Hash, Structural)]
pub struct PreciseDecimal {
    /// Bits 0..64 of the two's complement subunit count.
    pub d0: u64,
    /// Bits 64..128.
    pub d1: u64,
    /// Bits 128..192.
    pub d2: u64,
    /// Bits 192..256; the top bit is the sign.
    pub d3: u64,
}

/// Calls the ledger's `PreciseDecimal::checked_truncate` with
/// `RoundingMode::ToZero`: the subunit count divided by `10^18` and rounded
/// toward zero, which is the number cut off after the 18th decimal place.
/// The ledger narrows it from 256 bits, so there is nothing when that
/// leaves the 192-bit range or is the least number of the range.
#[verifier::external_body]
fn radix_checked_truncate(p: PreciseDecimal) -> (r: Option<Decimal>)
    ensures
        narrows(r, quotient(p.subunits(), scale())),
{
    let x = RadixPreciseDecimal::from_precise_subunits(I256::from_digits([p.d0, p.d1, p.d2, p.d3]));
    match x.checked_truncate(RoundingMode::ToZero) {
        Some(z) => {
            let d = z.attos().to_digits();
            Some(Decimal { lo: d[0], mid: d[1], hi: d[2] })
        },
        None => None,
    }
}

/// The `Decimal` of `v` subunits, for a `v` that fits.
pub open spec fn decimal_of(v: int) -> Decimal {
    let unsigned = if v < 0 {
        v + pow2_192()
    } else {
        v
    };
    Decimal {
        lo: (unsigned % pow2_64()) as u64,
        mid: ((unsigned / pow2_64()) % pow2_64()) as u64,
        hi: (unsigned / pow2_128()) as u64,
    }
}

/// `decimal_of` gives the number of the subunits it is given.
pub proof fn lemma_decimal_of(v: int)
    requires
        representable(v),
    ensures
        decimal_of(v).attos() == v,
{
}

impl PreciseDecimal {
    /// The number's value in subunits of `10^-36`.
    pub open spec fn subunits(self) -> int {
        let unsigned = self.d0 + self.d1 * pow2_64() + self.d2 * pow2_128() + self.d3 * pow2_192();
        if self.d3 >= 0x8000_0000_0000_0000u64 {
            unsigned - pow2_256()
        } else {
            unsigned
        }
    }

    /// Whether the number can be cut off after the 18th decimal place and
    /// held as a `Decimal`.
    pub open spec fn truncates(self) -> bool {
        narrowable(quotient(self.subunits(), scale()))
    }

    /// The number cut off after the 18th decimal place, if it can be.
    pub open spec fn truncation(self) -> Decimal {
        decimal_of(quotient(self.subunits(), scale()))
    }

    /// The number made of the four limbs, least significant first.
    pub fn from_digits(d0: u64, d1: u64, d2: u64, d3: u64) -> (r: PreciseDecimal)
        ensures
            r == (PreciseDecimal { d0, d1, d2, d3 }),
    {
        PreciseDecimal { d0, d1, d2, d3 }
    }

    /// The four limbs, least significant first.
    pub fn to_digits(&self) -> (r: (u64, u64, u64, u64))
        ensures
            r == (self.d0, self.d1, self.d2, self.d3),
    {
        (self.d0, self.d1, self.d2, self.d3)
    }

    /// The number cut off after the 18th decimal place; nothing when that
    /// does not fit a `Decimal` or is the least one.
    pub fn checked_truncate(self) -> (r: Option<Decimal>)
        ensures
            r == (if self.truncates() {
                Some(self.truncation())
            } else {
                None
            }),
    {
        let truncated = radix_checked_truncate(self);
        proof {
            if self.truncates() {
                lemma_decimal_of(quotient(self.subunits(), scale()));
                truncated.unwrap().lemma_attos_injective(self.truncation());
            }
        }
        truncated
    }
}

impl Decimal {
    /// The number's value in subunits.
    pub open spec fn attos(self) -> int {
        let unsigned = self.lo + self.mid * pow2_64() + self.hi * pow2_128();
        if self.hi >= 0x8000_0000_0000_0000u64 {
            unsigned - pow2_192()
        } else {
            unsigned
        }
    }

    /// Every `Decimal` is within the representable range.
    pub proof fn lemma_attos_in_range(self)
        ensures
            representable(self.attos()),
    {
    }

    /// Two numbers with the same value are the same `Decimal`.
    pub proof fn lemma_attos_injective(self, other: Decimal)
        requires
            self.attos() == other.attos(),
        ensures
            self == other,
    {
    }

    /// The number zero.
    pub fn zero() -> (r: Decimal)
        ensures
            r == (Decimal { lo: 0, mid: 0, hi: 0 }),
            r.attos() == 0,
    {
        Decimal { lo: 0, mid: 0, hi: 0 }
    }

    /// The number one.
    pub fn one() -> (r: Decimal)
        ensures
            r.attos() == scale(),
    {
        Decimal { lo: 1_000_000_000_000_000_000, mid: 0, hi: 0 }
    }

    /// The number made of the three limbs, least significant first.
    pub fn from_digits(lo: u64, mid: u64, hi: u64) -> (r: Decimal)
        ensures
            r == (Decimal { lo, mid, hi }),
    {
        Decimal { lo, mid, hi }
    }

    /// The three limbs, least significant first.
    pub fn to_digits(&self) -> (r: (u64, u64, u64))
        ensures
            r == (self.lo, self.mid, self.hi),
    {
        (self.lo, self.mid, self.hi)
    }

    /// The non-negative number of `attos` subunits.
    pub fn from_attos(attos: u128) -> (r: Decimal)
        ensures
            r.attos() == attos,
    {
        let lo = (attos % 0x1_0000_0000_0000_0000u128) as u64;
        let mid = (attos / 0x1_0000_0000_0000_0000u128) as u64;
        Decimal { lo, mid, hi: 0 }
    }

    /// The whole number `units`.
    pub fn from_units(units: u64) -> (r: Decimal)
        ensures
            r.attos() == units * scale(),
    {
        let wide: u128 = units as u128;
        assert(wide * 1_000_000_000_000_000_000u128 <= u128::MAX) by (nonlinear_arith)
            requires
                wide <= u64::MAX,
        ;
        Decimal::from_attos(wide * 1_000_000_000_000_000_000u128)
    }

    /// Whether the number is zero.
    pub fn is_zero(&self) -> (r: bool)
        ensures
            r == (self.attos() == 0),
    {
        self.lo == 0 && self.mid == 0 && self.hi == 0
    }

    /// Whether the number is below zero.
    pub fn is_negative(&self) -> (r: bool)
        ensures
            r == (self.attos() < 0),
    {
        self.hi >= 0x8000_0000_0000_0000u64
    }

    /// Whether the number is above zero.
    pub fn is_positive(&self) -> (r: bool)
        ensures
            r == (self.attos() > 0),
    {
        !self.is_negative() && !self.is_zero()
    }

    /// Whether `self` is strictly less than `other`.
    pub fn lt(&self, other: &Decimal) -> (r: bool)
        ensures
            r == (self.attos() < other.attos()),
    {
        let self_negative = self.hi >= 0x8000_0000_0000_0000u64;
        let other_negative = other.hi >= 0x8000_0000_0000_0000u64;
        if self_negative != other_negative {
            self_negative
        } else if self.hi != other.hi {
            self.hi < other.hi
        } else if self.mid != other.mid {
            self.mid < other.mid
        } else {
            self.lo < other.lo
        }
    }

    /// Whether `self` is less than or equal to `other`.
    pub fn le(&self, other: &Decimal) -> (r: bool)
        ensures
            r == (self.attos() <= other.attos()),
    {
        !other.lt(self)
    }

    /// The sum, or nothing when it does not fit.
    pub fn checked_add(self, other: Decimal) -> (r: Option<Decimal>)
        ensures
            holds(r, self.attos() + other.attos()),
    {
        radix_checked_add(self, other)
    }

    /// The difference, or nothing when it does not fit.
    pub fn checked_sub(self, other: Decimal) -> (r: Option<Decimal>)
        ensures
            holds(r, self.attos() - other.attos()),
    {
        radix_checked_sub(self, other)
    }

    /// The product rounded toward zero at the 18th decimal place, or nothing
    /// when it does not fit or is the least number.
    pub fn checked_mul(self, other: Decimal) -> (r: Option<Decimal>)
        ensures
            narrows(r, quotient(self.attos() * other.attos(), scale())),
    {
        radix_checked_mul(self, other)
    }

    /// The quotient rounded toward zero at the 18th decimal place; nothing
    /// when the divisor is zero, or the quotient does not fit or is the
    /// least number.
    pub fn checked_div(self, other: Decimal) -> (r: Option<Decimal>)
        ensures
            other.attos() == 0 ==> r.is_none(),
            other.attos() != 0 ==> narrows(r, quotient(self.attos() * scale(), other.attos())),
    {
        radix_checked_div(self, other)
    }

    /// The negation, or nothing for the least number, which has none.
    pub fn checked_neg(self) -> (r: Option<Decimal>)
        ensures
            holds(r, -self.attos()),
    {
        Decimal::zero().checked_sub(self)
    }

    /// The absolute value, or nothing for the least number, which has none.
    pub fn checked_abs(self) -> (r: Option<Decimal>)
        ensures
            holds(r, if self.attos() < 0 { -self.attos() } else { self.attos() }),
    {
        if self.is_negative() {
            self.checked_neg()
        } else {
            proof {
                self.lemma_attos_in_range();
            }
            Some(self)
        }
    }
}

} // verus!
