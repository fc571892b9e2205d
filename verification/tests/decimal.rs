use terrapoker::decimal::{
    checked_mul_floor, checked_multiply_ratio, CheckedFromRatioError, CheckedMultiplyRatioError,
    Decimal, DECIMAL_FRACTIONAL, PERCENT_FRACTIONAL,
};
use terrapoker::errors::{checked_add, checked_sub, OverflowError, OverflowOperation};

#[test]
fn decimal_constants() {
    assert_eq!(DECIMAL_FRACTIONAL, 10u128.pow(18));
    assert_eq!(PERCENT_FRACTIONAL, 10u128.pow(16));
    assert_eq!(Decimal::zero().atomics(), 0);
    assert!(Decimal::zero().is_zero());
    assert_eq!(Decimal::one().atomics(), DECIMAL_FRACTIONAL);
    assert!(!Decimal::one().is_zero());
    assert_eq!(Decimal::percent(50).atomics(), 500_000_000_000_000_000);
    assert_eq!(Decimal::percent(100), Decimal::one());
    assert_eq!(Decimal::percent(u64::MAX).atomics(), u64::MAX as u128 * PERCENT_FRACTIONAL);
    assert_eq!(Decimal::raw(7).atomics(), 7);
    assert_eq!(Decimal::percent(3).min(Decimal::percent(2)), Decimal::percent(2));
    assert_eq!(Decimal::percent(2).min(Decimal::percent(3)), Decimal::percent(2));
    assert!(Decimal::percent(10) < Decimal::percent(11));
}

#[test]
fn decimal_agrees_with_cosmwasm() {
    assert_eq!(cosmwasm_std::Decimal::one().atomics().u128(), Decimal::one().atomics());
    assert_eq!(cosmwasm_std::Decimal::percent(37).atomics().u128(), Decimal::percent(37).atomics());
    for (n, d) in [(1u128, 3u128), (2, 3), (0, 5), (7, 7), (10, 4), (u128::MAX / DECIMAL_FRACTIONAL, 1)] {
        assert_eq!(
            Decimal::checked_from_ratio(n, d).unwrap().atomics(),
            cosmwasm_std::Decimal::from_ratio(n, d).atomics().u128()
        );
    }
    for (amount, atomics) in [(300u128, 333_333_333_333_333_333u128), (1, 1), (5, 1_500_000_000_000_000_000)] {
        assert_eq!(
            checked_mul_floor(amount, Decimal::raw(atomics)).unwrap(),
            (cosmwasm_std::Uint128::new(amount) * cosmwasm_std::Decimal::raw(atomics)).u128()
        );
    }
}

#[test]
fn ratio_rounds_down_and_reports_its_errors() {
    assert_eq!(Decimal::checked_from_ratio(1, 3), Ok(Decimal::raw(333_333_333_333_333_333)));
    assert_eq!(Decimal::checked_from_ratio(2, 3), Ok(Decimal::raw(666_666_666_666_666_666)));
    assert_eq!(Decimal::checked_from_ratio(5, 2), Ok(Decimal::raw(2_500_000_000_000_000_000)));
    assert_eq!(Decimal::checked_from_ratio(0, 9), Ok(Decimal::zero()));
    assert_eq!(Decimal::checked_from_ratio(1, 0), Err(CheckedFromRatioError::DivideByZero));
    assert_eq!(Decimal::checked_from_ratio(0, 0), Err(CheckedFromRatioError::DivideByZero));
    assert_eq!(Decimal::checked_from_ratio(u128::MAX, 1), Err(CheckedFromRatioError::Overflow));
    // the product is formed beyond 128 bits before it is divided
    assert_eq!(Decimal::checked_from_ratio(u128::MAX, u128::MAX), Ok(Decimal::one()));
}

#[test]
fn mul_floor_rounds_down_and_reports_overflow() {
    assert_eq!(checked_mul_floor(100, Decimal::percent(50)), Some(50));
    assert_eq!(checked_mul_floor(3, Decimal::percent(50)), Some(1));
    assert_eq!(checked_mul_floor(1, Decimal::raw(999_999_999_999_999_999)), Some(0));
    assert_eq!(checked_mul_floor(0, Decimal::raw(u128::MAX)), Some(0));
    assert_eq!(checked_mul_floor(u128::MAX, Decimal::one()), Some(u128::MAX));
    assert_eq!(checked_mul_floor(u128::MAX, Decimal::raw(DECIMAL_FRACTIONAL + 1)), None);
    assert_eq!(checked_mul_floor(u128::MAX, Decimal::percent(50)), Some(u128::MAX / 2));
}

#[test]
fn multiply_ratio_rounds_down_and_reports_its_errors() {
    assert_eq!(checked_multiply_ratio(5, 99, 100), Ok(4));
    assert_eq!(checked_multiply_ratio(10, 1, 3), Ok(3));
    assert_eq!(checked_multiply_ratio(u128::MAX, u128::MAX, u128::MAX), Ok(u128::MAX));
    assert_eq!(checked_multiply_ratio(1, 1, 0), Err(CheckedMultiplyRatioError::DivideByZero));
    assert_eq!(checked_multiply_ratio(u128::MAX, 2, 1), Err(CheckedMultiplyRatioError::Overflow));
}

#[test]
fn checked_arithmetic_names_its_operands() {
    assert_eq!(checked_sub(5, 3), Ok(2));
    assert_eq!(checked_sub(3, 3), Ok(0));
    assert_eq!(
        checked_sub(3, 5),
        Err(OverflowError { operation: OverflowOperation::Sub, operand1: 3, operand2: 5 })
    );
    assert_eq!(checked_add(u128::MAX - 1, 1), Ok(u128::MAX));
    assert_eq!(
        checked_add(u128::MAX, 1),
        Err(OverflowError { operation: OverflowOperation::Add, operand1: u128::MAX, operand2: 1 })
    );
}
