//! Fixed-point decimals with 18 fractional digits, and the two rounded-down
//! operations the governance rules are built on.
use vstd::prelude::*;

verus! {

/// The number of atomic units in one whole: 10^18.
pub const DECIMAL_FRACTIONAL: u128 = 1_000_000_000_000_000_000;

/// The number of atomic units in one percent: 10^16.
pub const PERCENT_FRACTIONAL: u128 = 10_000_000_000_000_000;

/// `numerator / denominator` in atomic units, rounded down.
pub open spec fn ratio_atomics(numerator: int, denominator: int) -> int {
    numerator * DECIMAL_FRACTIONAL / denominator
}

/// `amount` times the decimal holding `atomics` atomic units, rounded down.
pub open spec fn mul_floor(amount: int, atomics: int) -> int {
    amount * atomics / (DECIMAL_FRACTIONAL as int)
}

/// Why a ratio could not be formed.
#[derive(Clone, Copy, Debug, PartialEq, Eq, Structural)]
pub enum CheckedFromRatioError {
    DivideByZero,
    Overflow,
}

/// A non-negative fixed-point number: `atomics / 10^18`.
#[derive(Clone, Copy, Debug, PartialEq, Eq, PartialOrd, Ord, Hash, Structural)]
pub struct Decimal {
    pub atomics: u128,
}

/// `cosmwasm_std::Decimal::checked_from_ratio`, on plain integers. The
/// contract restates its source: the atomics are
/// `numerator * 10^18 / denominator` rounded down, computed without
/// intermediate overflow; a zero denominator and a quotient beyond `u128`
/// are the two errors.
#[verifier::external_body]
fn cw_checked_from_ratio(numerator: u128, denominator: u128) -> (r: Result<
    u128,
    CheckedFromRatioError,
>)
    ensures
        match r {
            Ok(atomics) => denominator != 0 && atomics == ratio_atomics(
                numerator as int,
                denominator as int,
            ),
            Err(CheckedFromRatioError::DivideByZero) => denominator == 0,
            Err(CheckedFromRatioError::Overflow) => denominator != 0 && ratio_atomics(
                numerator as int,
                denominator as int,
            ) > u128::MAX,
        },
{
    match cosmwasm_std::Decimal::checked_from_ratio(numerator, denominator) {
        Ok(d) => Ok(d.atomics().u128()),
        Err(cosmwasm_std::CheckedFromRatioError::DivideByZero) => Err(
            CheckedFromRatioError::DivideByZero,
        ),
        Err(cosmwasm_std::CheckedFromRatioError::Overflow) => Err(CheckedFromRatioError::Overflow),
    }
}

/// `cosmwasm_std::Uint128::checked_mul_floor` with a `cosmwasm_std::Decimal`
/// as the fraction. The contract restates its source: the result is
/// `amount * atomics / 10^18` rounded down, computed in 256 bits, and there
/// is none exactly when that does not fit in `u128`.
#[verifier::external_body]
fn cw_checked_mul_floor(amount: u128, atomics: u128) -> (r: Option<u128>)
    ensures
        r == (if mul_floor(amount as int, atomics as int) <= u128::MAX {
            Some(mul_floor(amount as int, atomics as int) as u128)
        } else {
            None
        }),
{
    let fraction = cosmwasm_std::Decimal::raw(atomics);
    match cosmwasm_std::Uint128::new(amount).checked_mul_floor(fraction) {
        Ok(v) => Some(v.u128()),
        Err(_) => None,
    }
}

/// Why a product of an amount and a ratio could not be formed.
#[derive(Clone, Copy, Debug, PartialEq, Eq, Structural)]
pub enum CheckedMultiplyRatioError {
    DivideByZero,
    Overflow,
}

/// `amount * numerator / denominator`, rounded down, or why there is no
/// such amount.
pub open spec fn multiply_ratio(amount: int, numerator: int, denominator: int) -> Result<
    u128,
    CheckedMultiplyRatioError,
> {
    if denominator == 0 {
        Err(CheckedMultiplyRatioError::DivideByZero)
    } else if amount * numerator / denominator > u128::MAX {
        Err(CheckedMultiplyRatioError::Overflow)
    } else {
        Ok((amount * numerator / denominator) as u128)
    }
}

/// `cosmwasm_std::Uint128::checked_multiply_ratio`, on plain integers.
/// The contract restates its source: a zero denominator is an error;
/// else the product is formed in 256 bits and divided, rounding down, and
/// a quotient beyond `u128` is the other error.
#[verifier::external_body]
fn cw_checked_multiply_ratio(amount: u128, numerator: u128, denominator: u128) -> (r: Result<
    u128,
    CheckedMultiplyRatioError,
>)
    ensures
        r == multiply_ratio(amount as int, numerator as int, denominator as int),
{
    match cosmwasm_std::Uint128::new(amount).checked_multiply_ratio(numerator, denominator) {
        Ok(v) => Ok(v.u128()),
        Err(cosmwasm_std::CheckedMultiplyRatioError::DivideByZero) => Err(
            CheckedMultiplyRatioError::DivideByZero,
        ),
        Err(cosmwasm_std::CheckedMultiplyRatioError::Overflow) => Err(
            CheckedMultiplyRatioError::Overflow,
        ),
    }
}

/// `amount * numerator / denominator`, rounded down.
pub fn checked_multiply_ratio(amount: u128, numerator: u128, denominator: u128) -> (r: Result<
    u128,
    CheckedMultiplyRatioError,
>)
    ensures
        r == multiply_ratio(amount as int, numerator as int, denominator as int),
{
    cw_checked_multiply_ratio(amount, numerator, denominator)
}

impl View for Decimal {
    type V = Decimal;

    open spec fn view(&self) -> Decimal {
        *self
    }
}

impl Decimal {
    /// The decimal 0.
    pub fn zero() -> (d: Decimal)
        ensures
            d.atomics == 0,
    {
        Decimal { atomics: 0 }
    }

    /// The decimal 1.
    pub fn one() -> (d: Decimal)
        ensures
            d.atomics == DECIMAL_FRACTIONAL,
    {
        Decimal { atomics: DECIMAL_FRACTIONAL }
    }

    /// The decimal holding exactly `atomics` atomic units.
    pub fn raw(atomics: u128) -> (d: Decimal)
        ensures
            d.atomics == atomics,
    {
        Decimal { atomics }
    }

    /// `x` percent.
    pub fn percent(x: u64) -> (d: Decimal)
        ensures
            d.atomics == x * PERCENT_FRACTIONAL,
    {
        assert(x * PERCENT_FRACTIONAL <= u128::MAX) by (nonlinear_arith)
            requires
                x <= u64::MAX,
        ;
        let wide: u128 = x as u128;
        Decimal { atomics: wide * PERCENT_FRACTIONAL }
    }

    /// The atomic units of this decimal.
    pub fn atomics(&self) -> (a: u128)
        ensures
            a == self.atomics,
    {
        self.atomics
    }

    /// Whether this decimal is 0.
    pub fn is_zero(&self) -> (b: bool)
        ensures
            b == (self.atomics == 0),
    {
        self.atomics == 0
    }

    /// Whether this decimal lies in the closed interval from 0 to 1.
    pub open spec fn zero_to_one(self) -> bool {
        self.atomics <= DECIMAL_FRACTIONAL
    }

    /// `numerator / denominator` as a decimal, rounded down to 18
    /// fractional digits, or why there is no such decimal.
    pub open spec fn ratio(numerator: int, denominator: int) -> Result<
        Decimal,
        CheckedFromRatioError,
    > {
        if denominator == 0 {
            Err(CheckedFromRatioError::DivideByZero)
        } else if ratio_atomics(numerator, denominator) > u128::MAX {
            Err(CheckedFromRatioError::Overflow)
        } else {
            Ok(Decimal { atomics: ratio_atomics(numerator, denominator) as u128 })
        }
    }

    /// `numerator / denominator`, rounded down to 18 fractional digits.
    pub fn checked_from_ratio(numerator: u128, denominator: u128) -> (r: Result<
        Decimal,
        CheckedFromRatioError,
    >)
        ensures
            r == Decimal::ratio(numerator as int, denominator as int),
    {
        match cw_checked_from_ratio(numerator, denominator) {
            Ok(atomics) => Ok(Decimal { atomics }),
            Err(e) => Err(e),
        }
    }

    /// The smaller of two decimals.
    pub fn min(self, other: Decimal) -> (d: Decimal)
        ensures
            d.atomics == if self.atomics <= other.atomics {
                self.atomics
            } else {
                other.atomics
            },
    {
        if self.atomics <= other.atomics {
            self
        } else {
            other
        }
    }
}

/// `amount * ratio`, rounded down; `None` when the product does not fit.
pub fn checked_mul_floor(amount: u128, ratio: Decimal) -> (r: Option<u128>)
    ensures
        r == (if mul_floor(amount as int, ratio.atomics as int) <= u128::MAX {
            Some(mul_floor(amount as int, ratio.atomics as int) as u128)
        } else {
            None
        }),
{
    cw_checked_mul_floor(amount, ratio.atomics)
}

} // verus!
