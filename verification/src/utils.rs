//! Helpers that the contracts share.
use vstd::prelude::*;
use vstd::string::*;
use crate::common::{Response, ResponseModel};
use crate::decimal::{
    checked_mul_floor,
    checked_multiply_ratio,
    mul_floor,
    ratio_atomics,
    CheckedFromRatioError,
    CheckedMultiplyRatioError,
    Decimal,
    DECIMAL_FRACTIONAL,
};
use crate::errors::{
    add_overflow,
    ErrorModel,
    OverflowError,
    OverflowOperation,
    StdError,
    StdResult,
};

verus! {

/// The response of the action `action`: it asks for nothing and reports
/// the action.
pub open spec fn action_response(action: Seq<char>) -> ResponseModel {
    ResponseModel { messages: Seq::empty(), attributes: seq![("action"@, action)] }
}

/// A response that reports the action `action`.
pub fn make_response(action: &str) -> (response: Response)
    ensures
        response@ == action_response(action@),
{
    let response = Response::new().add_attribute("action", action);
    assert(response@.attributes =~= seq![("action"@, action@)]);
    response
}

/// The character of the decimal digit `d`.
pub open spec fn digit_char(d: int) -> char {
    if d == 0 {
        '0'
    } else if d == 1 {
        '1'
    } else if d == 2 {
        '2'
    } else if d == 3 {
        '3'
    } else if d == 4 {
        '4'
    } else if d == 5 {
        '5'
    } else if d == 6 {
        '6'
    } else if d == 7 {
        '7'
    } else if d == 8 {
        '8'
    } else {
        '9'
    }
}

/// The decimal notation of `n`, without leading zeros.
pub open spec fn decimal_text(n: nat) -> Seq<char>
    decreases n,
{
    if n < 10 {
        seq![digit_char(n as int)]
    } else {
        decimal_text(n / 10).push(digit_char((n % 10) as int))
    }
}

/// The text of the decimal digit `d`.
fn digit_str(d: u8) -> (s: &'static str)
    requires
        d < 10,
    ensures
        s@ == seq![digit_char(d as int)],
{
    proof {
        reveal_strlit("0");
        reveal_strlit("1");
        reveal_strlit("2");
        reveal_strlit("3");
        reveal_strlit("4");
        reveal_strlit("5");
        reveal_strlit("6");
        reveal_strlit("7");
        reveal_strlit("8");
        reveal_strlit("9");
    }
    let s = if d == 0 {
        "0"
    } else if d == 1 {
        "1"
    } else if d == 2 {
        "2"
    } else if d == 3 {
        "3"
    } else if d == 4 {
        "4"
    } else if d == 5 {
        "5"
    } else if d == 6 {
        "6"
    } else if d == 7 {
        "7"
    } else if d == 8 {
        "8"
    } else {
        "9"
    };
    assert(s@ =~= seq![digit_char(d as int)]);
    s
}

/// The decimal notation of `n`.
pub fn u128_to_string(n: u128) -> (s: String)
    ensures
        s@ == decimal_text(n as nat),
    decreases n,
{
    if n < 10 {
        String::from_str(digit_str(n as u8))
    } else {
        let mut s = u128_to_string(n / 10);
        s.append(digit_str((n % 10) as u8));
        assert(s@ =~= decimal_text(n as nat));
        s
    }
}

/// The decimal notation of `n`.
pub fn u64_to_string(n: u64) -> (s: String)
    ensures
        s@ == decimal_text(n as nat),
{
    u128_to_string(n as u128)
}

/// Accepts `value` where it lies between 0 and 1, both included, and
/// else says which value, by its `name`, does not.
pub fn validate_zero_to_one(value: Decimal, name: &str) -> (r: StdResult<()>)
    ensures
        value.zero_to_one() ==> r is Ok,
        !value.zero_to_one() ==> (r matches Err(e) && e@ == ErrorModel::Text(
            name@ + " must be 0 to 1"@,
        )),
{
    if value.atomics <= DECIMAL_FRACTIONAL {
        Ok(())
    } else {
        let mut msg = String::from_str(name);
        msg.append(" must be 0 to 1");
        Err(StdError::GenericErr { msg })
    }
}


/// The first element of `vec` that `predicate` accepts, if it accepts
/// one.
pub fn find<T, P: Fn(&T) -> bool>(vec: &[T], predicate: P) -> (r: Option<&T>)
    requires
        forall|i: int| 0 <= i < vec@.len() ==> predicate.requires((&vec@[i],)),
    ensures
        match r {
            Some(found) => exists|i: int|
                {
                    &&& 0 <= i < vec@.len()
                    &&& *found == vec@[i]
                    &&& predicate.ensures((&vec@[i],), true)
                    &&& forall|j: int| 0 <= j < i ==> predicate.ensures((&vec@[j],), false)
                },
            None => forall|i: int| 0 <= i < vec@.len() ==> predicate.ensures((&vec@[i],), false),
        },
{
    let mut i: usize = 0;
    while i < vec.len()
        invariant
            i <= vec.len(),
            forall|i: int| 0 <= i < vec@.len() ==> predicate.requires((&vec@[i],)),
            forall|j: int| 0 <= j < i ==> predicate.ensures((&vec@[j],), false),
        decreases vec.len() - i,
    {
        if predicate(&vec[i]) {
            return Some(&vec[i]);
        }
        i += 1;
    }
    None
}

/// Applies `f` to the first element of `vec` that `predicate` accepts.
/// Where it accepts none, what `new` makes is added at the end.
pub fn find_mut_or_push<T, P: Fn(&T) -> bool, N: Fn() -> T, F: Fn(&mut T)>(
    vec: &mut Vec<T>,
    predicate: P,
    new: N,
    f: F,
)
    requires
        forall|i: int| 0 <= i < old(vec)@.len() ==> predicate.requires((&old(vec)@[i],)),
        new.requires(()),
        forall|r: &mut T| old(vec)@.contains(*r) ==> #[trigger] f.requires((r,)),
    ensures
        ({
            &&& forall|i: int|
                0 <= i < old(vec)@.len() ==> predicate.ensures((&old(vec)@[i],), false)
            &&& final(vec)@.len() == old(vec)@.len() + 1
            &&& final(vec)@.drop_last() == old(vec)@
            &&& new.ensures((), final(vec)@.last())
        }) || (exists|i: int, r: &mut T|
            {
                &&& 0 <= i < old(vec)@.len()
                &&& predicate.ensures((&old(vec)@[i],), true)
                &&& forall|j: int| 0 <= j < i ==> predicate.ensures((&old(vec)@[j],), false)
                &&& final(vec)@.len() == old(vec)@.len()
                &&& forall|j: int|
                    0 <= j < old(vec)@.len() && j != i ==> final(vec)@[j] == old(vec)@[j]
                &&& *r == old(vec)@[i]
                &&& *final(r) == final(vec)@[i]
                &&& f.ensures((r,), ())
            }),
{
    let mut i: usize = 0;
    while i < vec.len()
        invariant
            i <= vec.len(),
            vec@ == old(vec)@,
            forall|i: int| 0 <= i < old(vec)@.len() ==> predicate.requires((&old(vec)@[i],)),
            forall|r: &mut T| old(vec)@.contains(*r) ==> #[trigger] f.requires((r,)),
            forall|j: int| 0 <= j < i ==> predicate.ensures((&vec@[j],), false),
        decreases vec.len() - i,
    {
        if predicate(&vec[i]) {
            f(&mut vec[i]);
            return ;
        }
        i += 1;
    }
    vec.push(new());
    assert(vec@.drop_last() =~= old(vec)@);
}

/// The sum of `values`.
pub open spec fn total(values: Seq<u128>) -> int
    decreases values.len(),
{
    if values.len() == 0 {
        0
    } else {
        total(values.drop_last()) + values.last()
    }
}

/// A prefix of `values` sums to no more than all of them, and no single
/// value is more than the sum.
pub proof fn lemma_total_prefix(values: Seq<u128>, i: int)
    requires
        0 <= i <= values.len(),
    ensures
        0 <= total(values.take(i)) <= total(values),
        i < values.len() ==> total(values.take(i)) + values[i] <= total(values),
    decreases values.len(),
{
    if values.len() == 0 {
        assert(values.take(i) =~= values);
    } else if i == values.len() {
        assert(values.take(i) =~= values);
        lemma_total_prefix(values.drop_last(), values.len() - 1);
        assert(values.drop_last().take(values.len() - 1) =~= values.drop_last());
    } else {
        lemma_total_prefix(values.drop_last(), i);
        assert(values.drop_last().take(i) =~= values.take(i));
        if i == values.len() - 1 {
            assert(values.take(i) =~= values.drop_last());
        }
    }
}

/// The sum of `values`, or the addition at which it leaves `u128`.
pub fn checked_total(values: &Vec<u128>) -> (r: Result<u128, OverflowError>)
    ensures
        match r {
            Ok(sum) => sum == total(values@),
            Err(_) => total(values@) > u128::MAX,
        },
{
    let mut sum: u128 = 0;
    let mut i: usize = 0;
    while i < values.len()
        invariant
            i <= values.len(),
            sum == total(values@.take(i as int)),
        decreases values.len() - i,
    {
        proof {
            assert(values@.take(i + 1).drop_last() =~= values@.take(i as int));
            lemma_total_prefix(values@, i + 1);
        }
        if values[i] > u128::MAX - sum {
            return Err(OverflowError::new(OverflowOperation::Add, sum, values[i]));
        }
        sum = sum + values[i];
        i += 1;
    }
    assert(values@.take(i as int) =~= values@);
    Ok(sum)
}

/// A share of a whole: no more than the whole.
proof fn lemma_part_of(value: int, part: int, whole: int)
    requires
        0 <= value,
        0 <= part <= whole,
        0 < whole,
    ensures
        0 <= value * part / whole <= value,
{
    assert(0 <= value * part <= value * whole) by (nonlinear_arith)
        requires
            0 <= value,
            0 <= part <= whole,
    ;
    assert(0 <= (value * part) / whole <= value) by (nonlinear_arith)
        requires
            0 <= value * part <= value * whole,
            0 < whole,
    ;
}

/// Splits `value` in the proportions `ratio`: each part is `value` times
/// its proportion of the sum of the proportions, rounded down. There are
/// no parts where the proportions cannot be added up, or add up to
/// nothing.
pub fn split_uint128(value: u128, ratio: &Vec<u128>) -> (r: Result<Vec<u128>, StdError>)
    ensures
        match r {
            Ok(parts) => {
                &&& total(ratio@) <= u128::MAX
                &&& ratio@.len() > 0 ==> total(ratio@) > 0
                &&& parts@.len() == ratio@.len()
                &&& forall|i: int|
                    0 <= i < ratio@.len() ==> #[trigger] parts@[i] == value * ratio@[i] / total(
                        ratio@,
                    )
            },
            Err(StdError::Overflow { source }) => total(ratio@) > u128::MAX,
            Err(StdError::DivideByZero) => total(ratio@) == 0 && ratio@.len() > 0,
            Err(_) => false,
        },
{
    let total_amount = match checked_total(ratio) {
        Ok(v) => v,
        Err(source) => {
            return Err(StdError::Overflow { source });
        },
    };
    let mut parts: Vec<u128> = Vec::new();
    let mut i: usize = 0;
    while i < ratio.len()
        invariant
            i <= ratio.len(),
            parts.len() == i,
            total_amount == total(ratio@),
            i > 0 ==> total_amount > 0,
            forall|j: int|
                0 <= j < i ==> #[trigger] parts@[j] == value * ratio@[j] / (total_amount as int),
        decreases ratio.len() - i,
    {
        proof {
            lemma_total_prefix(ratio@, i as int);
            if total_amount > 0 {
                lemma_part_of(value as int, ratio@[i as int] as int, total_amount as int);
            }
        }
        match checked_multiply_ratio(value, ratio[i], total_amount) {
            Ok(part) => {
                parts.push(part);
            },
            Err(CheckedMultiplyRatioError::DivideByZero) => {
                return Err(StdError::DivideByZero);
            },
            Err(CheckedMultiplyRatioError::Overflow) => {
                return Err(
                    StdError::Overflow {
                        source: OverflowError::new(OverflowOperation::Mul, value, ratio[i]),
                    },
                );
            },
        }
        i += 1;
    }
    Ok(parts)
}

/// `value` times each of the decimals `ratio`, rounded down. There are no
/// products where one of them does not fit.
pub fn split_ratio_uint128(value: u128, ratio: &Vec<Decimal>) -> (r: Result<Vec<u128>, OverflowError>)
    ensures
        match r {
            Ok(parts) => {
                &&& parts@.len() == ratio@.len()
                &&& forall|i: int|
                    0 <= i < ratio@.len() ==> #[trigger] parts@[i] == mul_floor(
                        value as int,
                        ratio@[i].atomics as int,
                    )
            },
            Err(e) => exists|i: int|
                0 <= i < ratio@.len() && mul_floor(value as int, ratio@[i].atomics as int)
                    > u128::MAX,
        },
{
    let mut parts: Vec<u128> = Vec::new();
    let mut i: usize = 0;
    while i < ratio.len()
        invariant
            i <= ratio.len(),
            parts.len() == i,
            forall|j: int|
                0 <= j < i ==> #[trigger] parts@[j] == mul_floor(
                    value as int,
                    ratio@[j].atomics as int,
                ),
        decreases ratio.len() - i,
    {
        match checked_mul_floor(value, ratio[i]) {
            Some(part) => {
                parts.push(part);
            },
            None => {
                return Err(OverflowError::new(OverflowOperation::Mul, value, ratio[i].atomics));
            },
        }
        i += 1;
    }
    Ok(parts)
}

/// Each of `values` as a share of their sum, rounded down to 18
/// fractional digits. There are no shares where the values cannot be
/// added up, or add up to nothing.
pub fn to_ratio_uint128(values: &Vec<u128>) -> (r: Result<Vec<Decimal>, StdError>)
    ensures
        match r {
            Ok(shares) => {
                &&& total(values@) <= u128::MAX
                &&& values@.len() > 0 ==> total(values@) > 0
                &&& shares@.len() == values@.len()
                &&& forall|i: int|
                    0 <= i < values@.len() ==> (#[trigger] shares@[i]).atomics == ratio_atomics(
                        values@[i] as int,
                        total(values@),
                    )
            },
            Err(StdError::Overflow { source }) => total(values@) > u128::MAX,
            Err(StdError::DivideByZero) => total(values@) == 0 && values@.len() > 0,
            Err(_) => false,
        },
{
    let total_amount = match checked_total(values) {
        Ok(v) => v,
        Err(source) => {
            return Err(StdError::Overflow { source });
        },
    };
    let mut shares: Vec<Decimal> = Vec::new();
    let mut i: usize = 0;
    while i < values.len()
        invariant
            i <= values.len(),
            shares.len() == i,
            total_amount == total(values@),
            i > 0 ==> total_amount > 0,
            forall|j: int|
                0 <= j < i ==> (#[trigger] shares@[j]).atomics == ratio_atomics(
                    values@[j] as int,
                    total_amount as int,
                ),
        decreases values.len() - i,
    {
        proof {
            lemma_total_prefix(values@, i as int);
            if total_amount > 0 {
                let v = values@[i as int] as int;
                let t = total_amount as int;
                let f = DECIMAL_FRACTIONAL as int;
                assert(v * f == f * v) by (nonlinear_arith);
                lemma_part_of(f, v, t);
            }
        }
        match Decimal::checked_from_ratio(values[i], total_amount) {
            Ok(share) => {
                shares.push(share);
            },
            Err(CheckedFromRatioError::DivideByZero) => {
                return Err(StdError::DivideByZero);
            },
            Err(CheckedFromRatioError::Overflow) => {
                return Err(
                    StdError::Overflow {
                        source: OverflowError::new(
                            OverflowOperation::Mul,
                            values[i],
                            DECIMAL_FRACTIONAL,
                        ),
                    },
                );
            },
        }
        i += 1;
    }
    Ok(shares)
}

/// What is left of `value` once the surcharge `ratio` that it includes is
/// taken out: `value * 1 / (1 + ratio)`, rounded down.
pub open spec fn base_amount(value: u128, ratio: Decimal) -> int {
    value * DECIMAL_FRACTIONAL / (ratio.atomics + DECIMAL_FRACTIONAL)
}

/// Splits `value`, which includes a surcharge of `ratio` on its base,
/// into the surcharge and the base. There is no split where `1 + ratio`
/// is no decimal.
pub fn calc_ratio_amount(value: u128, ratio: Decimal) -> (r: Result<(u128, u128), OverflowError>)
    ensures
        ratio.atomics + DECIMAL_FRACTIONAL <= u128::MAX ==> r == Ok::<
            (u128, u128),
            OverflowError,
        >(((value - base_amount(value, ratio)) as u128, base_amount(value, ratio) as u128)),
        ratio.atomics + DECIMAL_FRACTIONAL > u128::MAX ==> r == Err::<
            (u128, u128),
            OverflowError,
        >(add_overflow(ratio.atomics, DECIMAL_FRACTIONAL)),
{
    if ratio.atomics > u128::MAX - DECIMAL_FRACTIONAL {
        return Err(OverflowError::new(OverflowOperation::Add, ratio.atomics, DECIMAL_FRACTIONAL));
    }
    let whole = ratio.atomics + DECIMAL_FRACTIONAL;
    proof {
        lemma_part_of(value as int, DECIMAL_FRACTIONAL as int, whole as int);
    }
    match checked_multiply_ratio(value, DECIMAL_FRACTIONAL, whole) {
        Ok(base) => Ok((value - base, base)),
        Err(_) => Err(OverflowError::new(OverflowOperation::Mul, value, DECIMAL_FRACTIONAL)),
    }
}

/// The longest address that stands for an account and not for a contract.
pub const TERRA_ADDRESS_LENGTH: usize = 44;

/// Whether `address` is that of a contract: it is longer, in bytes, than
/// the address of an account.
pub fn is_contract(address: &str) -> (b: bool)
    ensures
        b == (address.spec_bytes().len() > TERRA_ADDRESS_LENGTH),
{
    address.as_bytes().len() > TERRA_ADDRESS_LENGTH
}

/// Whether the stretches of a distribution schedule, each from a start
/// block up to an end block, are not empty and follow each other without
/// overlap.
pub open spec fn valid_schedule(schedule: Seq<(u64, u64, u128)>) -> bool {
    forall|i: int|
        0 <= i < schedule.len() ==> (#[trigger] schedule[i]).0 < schedule[i].1 && (i > 0
            ==> schedule[i - 1].1 <= schedule[i].0)
}

/// Whether `distribution_schedule` is a valid schedule.
pub fn is_valid_schedule(distribution_schedule: &Vec<(u64, u64, u128)>) -> (b: bool)
    ensures
        b == valid_schedule(distribution_schedule@),
{
    let mut check_block: u64 = 0;
    let mut i: usize = 0;
    while i < distribution_schedule.len()
        invariant
            i <= distribution_schedule.len(),
            i > 0 ==> check_block == distribution_schedule@[i - 1].1,
            i == 0 ==> check_block == 0,
            forall|j: int|
                0 <= j < i ==> (#[trigger] distribution_schedule@[j]).0
                    < distribution_schedule@[j].1 && (j > 0 ==> distribution_schedule@[j - 1].1
                    <= distribution_schedule@[j].0),
        decreases distribution_schedule.len() - i,
    {
        let (start, end, _amount) = distribution_schedule[i];
        if start < check_block || start >= end {
            return false;
        }
        check_block = end;
        i += 1;
    }
    true
}


/// Whether the character `c` occurs in `s`.
pub fn contains_char(s: &str, c: char) -> (b: bool)
    ensures
        b == s@.contains(c),
{
    let n = s.unicode_len();
    let mut i: usize = 0;
    while i < n
        invariant
            n == s@.len(),
            i <= n,
            forall|j: int| 0 <= j < i ==> s@[j] != c,
        decreases n - i,
    {
        if s.get_char(i) == c {
            return true;
        }
        i += 1;
    }
    false
}

/// What goes between a URL and a parameter that is added to it: `?`
/// where the URL has no query yet; else `&`, unless the URL ends in `&`
/// or `?` already.
pub open spec fn query_separator(url: Seq<char>) -> Seq<char> {
    if url.contains('?') {
        if url.last() == '&' || url.last() == '?' {
            Seq::empty()
        } else {
            seq!['&']
        }
    } else {
        seq!['?']
    }
}

/// The URL `url` with the parameter `key=value` added at its end.
pub open spec fn with_query_parameter(url: Seq<char>, key: Seq<char>, value: Seq<char>) -> Seq<
    char,
> {
    url + query_separator(url) + key + seq!['='] + value
}

/// Adds the parameter `key=value` at the end of the URL `url`.
pub fn add_query_parameter(url: &str, key: &str, value: &str) -> (result: String)
    ensures
        result@ == with_query_parameter(url@, key@, value@),
{
    proof {
        reveal_strlit("&");
        reveal_strlit("?");
        reveal_strlit("=");
    }
    let mut result = String::from_str(url);
    if contains_char(url, '?') {
        let n = url.unicode_len();
        let last = url.get_char(n - 1);
        if !(last == '&' || last == '?') {
            result.append("&");
            assert(result@ =~= url@ + seq!['&']);
        } else {
            assert(result@ =~= url@ + Seq::<char>::empty());
        }
    } else {
        result.append("?");
        assert(result@ =~= url@ + seq!['?']);
    }
    result.append(key);
    result.append("=");
    result.append(value);
    assert(result@ =~= with_query_parameter(url@, key@, value@));
    result
}

/// Why a text is not the decimal notation of an amount.
#[derive(Clone, Copy, Debug, PartialEq, Eq, Structural)]
pub enum ParseIntError {
    /// The text is empty.
    Empty,
    /// The text holds something that is no digit, or a sign alone.
    InvalidDigit,
    /// The number does not fit.
    PosOverflow,
}

/// Whether `c` is a decimal digit.
pub open spec fn is_digit(c: char) -> bool {
    '0' <= c <= '9'
}

/// The value of the decimal digit `c`.
pub open spec fn digit_value(c: char) -> int {
    c as int - '0' as int
}

/// The number that the digits `s` denote.
pub open spec fn digits_value(s: Seq<char>) -> int
    decreases s.len(),
{
    if s.len() == 0 {
        0
    } else {
        digits_value(s.drop_last()) * 10 + digit_value(s.last())
    }
}

/// The digits of `s`: all of it but for a leading `+`.
pub open spec fn unsigned_part(s: Seq<char>) -> Seq<char> {
    if s.len() > 0 && s[0] == '+' {
        s.skip(1)
    } else {
        s
    }
}

/// The amount that `s` denotes: digits, after at most one `+`, that make
/// a number within `u128`.
pub open spec fn parsed(s: Seq<char>) -> Result<u128, ParseIntError> {
    let digits = unsigned_part(s);
    if s.len() == 0 {
        Err(ParseIntError::Empty)
    } else if digits.len() == 0 || !(forall|i: int| 0 <= i < digits.len() ==> is_digit(digits[i])) {
        Err(ParseIntError::InvalidDigit)
    } else if digits_value(digits) > u128::MAX {
        Err(ParseIntError::PosOverflow)
    } else {
        Ok(digits_value(digits) as u128)
    }
}

/// Digits denote no negative number, and more digits no smaller one.
pub proof fn lemma_digits_grow(s: Seq<char>, i: int)
    requires
        0 <= i <= s.len(),
        forall|j: int| 0 <= j < s.len() ==> is_digit(s[j]),
    ensures
        0 <= digits_value(s.take(i)) <= digits_value(s),
    decreases s.len(),
{
    if s.len() == 0 {
        assert(s.take(i) =~= s);
    } else if i == s.len() {
        assert(s.take(i) =~= s);
        lemma_digits_grow(s.drop_last(), s.len() - 1);
        assert(s.drop_last().take(s.len() - 1) =~= s.drop_last());
    } else {
        lemma_digits_grow(s.drop_last(), i);
        assert(s.drop_last().take(i) =~= s.take(i));
        lemma_digits_grow(s.drop_last(), s.len() - 1);
        assert(s.drop_last().take(s.len() - 1) =~= s.drop_last());
    }
}

/// Reads an amount in decimal notation.
pub fn parse_uint128(value: &str) -> (r: Result<u128, ParseIntError>)
    ensures
        r == parsed(value@),
{
    let n = value.unicode_len();
    if n == 0 {
        return Err(ParseIntError::Empty);
    }
    let start: usize = if value.get_char(0) == '+' {
        1
    } else {
        0
    };
    let ghost digits = unsigned_part(value@);
    if start == n {
        return Err(ParseIntError::InvalidDigit);
    }
    let mut bad: bool = false;
    let mut k: usize = start;
    while k < n
        invariant
            n == value@.len(),
            start <= k <= n,
            digits == value@.skip(start as int),
            bad == !(forall|j: int| 0 <= j < k - start ==> is_digit(digits[j])),
        decreases n - k,
    {
        let c = value.get_char(k);
        assert(c == digits[k - start]);
        if !('0' <= c && c <= '9') {
            bad = true;
        }
        k += 1;
    }
    if bad {
        return Err(ParseIntError::InvalidDigit);
    }
    let mut amount: u128 = 0;
    let mut i: usize = start;
    while i < n
        invariant
            n == value@.len(),
            start <= i <= n,
            digits == value@.skip(start as int),
            digits == unsigned_part(value@),
            start < n,
            forall|j: int| 0 <= j < digits.len() ==> is_digit(digits[j]),
            amount == digits_value(digits.take(i - start)),
        decreases n - i,
    {
        let c = value.get_char(i);
        assert(c == digits[i - start]);
        assert(is_digit(c));
        let d: u128 = (c as u32 - '0' as u32) as u128;
        proof {
            assert(d == digit_value(c));
            assert(digits.take(i - start + 1).drop_last() =~= digits.take(i - start));
            assert(digits.take(i - start + 1).last() == c);
            lemma_digits_grow(digits, i - start + 1);
        }
        if amount > (u128::MAX - d) / 10 {
            assert(amount * 10 + d > u128::MAX);
            return Err(ParseIntError::PosOverflow);
        }
        amount = amount * 10 + d;
        i += 1;
    }
    assert(digits.take(n - start) =~= digits);
    Ok(amount)
}


/// The text that `str::to_lowercase` makes of `s`.
pub uninterp spec fn lowercase(s: Seq<char>) -> Seq<char>;

/// `str::to_lowercase` of the standard library: the lowercase equivalent
/// of a text, by the rules of Unicode. The contract gives the result its
/// name and says nothing else of it.
#[verifier::external_body]
fn str_to_lowercase(s: &str) -> (r: String)
    ensures
        r@ == lowercase(s@),
{
    s.to_lowercase()
}

/// The sentence that says that an address is not in lowercase.
pub open spec fn not_lowercase_message(addr: Seq<char>) -> Seq<char> {
    "Address "@ + addr + " should be lowercase"@
}

/// Accepts the address `addr` where `lowered`, its lowercase equivalent,
/// is the address itself.
pub fn check_lowercase(addr: &str, lowered: &str) -> (r: StdResult<()>)
    ensures
        lowered@ == addr@ ==> r is Ok,
        lowered@ != addr@ ==> (r matches Err(e) && e@ == ErrorModel::Text(
            not_lowercase_message(addr@),
        )),
{
    let same = String::from_str(lowered) == String::from_str(addr);
    if same {
        Ok(())
    } else {
        let mut msg = String::from_str("Address ");
        msg.append(addr);
        msg.append(" should be lowercase");
        Err(StdError::GenericErr { msg })
    }
}

/// Accepts the address `addr` where it is in lowercase, and hands it
/// back. Whether it is the address of an account is for the chain to
/// say.
pub fn addr_validate_to_lower(addr: &str) -> (r: StdResult<String>)
    ensures
        lowercase(addr@) == addr@ ==> (r matches Ok(a) && a@ == addr@),
        lowercase(addr@) != addr@ ==> (r matches Err(e) && e@ == ErrorModel::Text(
            not_lowercase_message(addr@),
        )),
{
    let lowered = str_to_lowercase(addr);
    match check_lowercase(addr, lowered.as_str()) {
        Ok(()) => Ok(String::from_str(addr)),
        Err(e) => Err(e),
    }
}


/// Whether `pattern` stands in `s` at the position `i`.
pub open spec fn occurs_at(s: Seq<char>, pattern: Seq<char>, i: int) -> bool {
    0 <= i && i + pattern.len() <= s.len() && s.subrange(i, i + pattern.len()) == pattern
}

/// Whether `i` is the first position at which `pattern` stands in `s`.
pub open spec fn first_at(s: Seq<char>, pattern: Seq<char>, i: int) -> bool {
    occurs_at(s, pattern, i) && forall|j: int| 0 <= j < i ==> !occurs_at(s, pattern, j)
}

/// The first position at which `pattern` stands in `s`, if it stands
/// there at all.
pub open spec fn first_occurrence(s: Seq<char>, pattern: Seq<char>) -> Option<int> {
    if exists|i: int| occurs_at(s, pattern, i) {
        Some(choose|i: int| first_at(s, pattern, i))
    } else {
        None
    }
}

/// There is one first position at most, and the search finds it.
pub proof fn lemma_first_occurrence(s: Seq<char>, pattern: Seq<char>, i: int)
    requires
        first_at(s, pattern, i),
    ensures
        first_occurrence(s, pattern) == Some(i),
{
    let k = choose|k: int| first_at(s, pattern, k);
    assert(first_at(s, pattern, k));
    if k < i {
        assert(!occurs_at(s, pattern, k));
    }
    if i < k {
        assert(!occurs_at(s, pattern, i));
    }
}

/// Whether `tail`, after the character `head`, stands in `s` at the
/// position `at`.
fn stands_at(s: &str, at: usize, head: char, tail: &str) -> (b: bool)
    requires
        at <= s@.len(),
    ensures
        b == occurs_at(s@, seq![head] + tail@, at as int),
{
    let n = s.unicode_len();
    let m = tail.unicode_len();
    let ghost pattern = seq![head] + tail@;
    if m >= n - at {
        return false;
    }
    if s.get_char(at) != head {
        assert(s@.subrange(at as int, at + pattern.len())[0] == s@[at as int]);
        assert(pattern[0] == head);
        return false;
    }
    let mut t: usize = 0;
    while t < m
        invariant
            n == s@.len(),
            m == tail@.len(),
            at + m < n,
            t <= m,
            pattern == seq![head] + tail@,
            s@[at as int] == head,
            forall|j: int| 0 <= j < t ==> s@[at + 1 + j] == tail@[j],
        decreases m - t,
    {
        if s.get_char(at + 1 + t) != tail.get_char(t) {
            assert(s@.subrange(at as int, at + pattern.len())[1 + t] == s@[at + 1 + t]);
            assert(pattern[1 + t] == tail@[t as int]);
            return false;
        }
        t += 1;
    }
    assert(s@.subrange(at as int, at + pattern.len()) =~= pattern);
    true
}

/// The first position, counted from `start`, at which `tail` after the
/// character `head` stands in `s` behind `start`.
fn find_from(s: &str, start: usize, head: char, tail: &str) -> (r: Option<usize>)
    requires
        start <= s@.len(),
    ensures
        match first_occurrence(s@.skip(start as int), seq![head] + tail@) {
            Some(i) => r == Some(i as usize) && 0 <= i && start + i + 1 + tail@.len() <= s@.len(),
            None => r is None,
        },
{
    let n = s.unicode_len();
    let ghost rest = s@.skip(start as int);
    let ghost pattern = seq![head] + tail@;
    let mut i: usize = 0;
    while i < n - start
        invariant
            n == s@.len(),
            start <= n,
            i <= n - start,
            rest == s@.skip(start as int),
            pattern == seq![head] + tail@,
            forall|j: int| 0 <= j < i ==> !occurs_at(rest, pattern, j),
        decreases n - start - i,
    {
        let here = stands_at(s, start + i, head, tail);
        proof {
            if start + i + pattern.len() <= n {
                assert(rest.subrange(i as int, i + pattern.len()) =~= s@.subrange(
                    start + i,
                    start + i + pattern.len(),
                ));
            }
            assert(here == occurs_at(rest, pattern, i as int));
        }
        if here {
            proof {
                lemma_first_occurrence(rest, pattern, i as int);
            }
            return Some(i);
        }
        i += 1;
    }
    assert forall|j: int| !occurs_at(rest, pattern, j) by {
        if occurs_at(rest, pattern, j) {
            assert(j < n - start);
        }
    }
    None
}

/// The URL `url`, in which the parameter `key` stands at the position
/// `key_start` of a query, with `value` for that parameter. An `=` is put
/// behind the key unless one stands there. Where the URL ends with the
/// key, or one character behind it, the value is put at the end. Else the
/// value takes the place of what stands behind the `=`, up to the position
/// at which the next `&` is found, counted as the text behind the `=` counts
/// it, or up to the end of the URL.
pub open spec fn with_value_at(url: Seq<char>, key_start: int, key: Seq<char>, value: Seq<char>) -> Seq<
    char,
> {
    let key_end = key_start + key.len() - 1;
    let with_sign = if key_end >= url.len() - 1 {
        url.push('=')
    } else if url[key_end + 1] != '=' {
        url.insert(key_end + 1, '=')
    } else {
        url
    };
    let value_start = key_start + key.len() + 1;
    if value_start > url.len() - 1 {
        with_sign + value
    } else {
        let value_end = match first_occurrence(with_sign.skip(value_start), seq!['&']) {
            Some(i) => i,
            None => url.len() - 1,
        };
        if value_start > value_end {
            with_sign.take(value_start) + value + with_sign.skip(value_start)
        } else {
            with_sign.take(value_start) + value + with_sign.skip(value_end + 1)
        }
    }
}

/// Where the parameter `key` stands in the query of `url`, the part from
/// the first `?` on: behind the first `?key`, or else behind the first
/// `&key`.
pub open spec fn key_position(url: Seq<char>, key: Seq<char>) -> Option<int> {
    match first_occurrence(url, seq!['?']) {
        None => None,
        Some(query_start) => {
            let query = url.skip(query_start);
            match first_occurrence(query, seq!['?'] + key) {
                Some(i) => Some(query_start + i + 1),
                None => match first_occurrence(query, seq!['&'] + key) {
                    Some(i) => Some(query_start + i + 1),
                    None => None,
                },
            }
        },
    }
}

/// The URL `url` with `value` for the parameter `key`: in place of the
/// value the parameter has in the query, or added at the end where the
/// query does not have it.
pub open spec fn with_parameter(url: Seq<char>, key: Seq<char>, value: Seq<char>) -> Seq<char> {
    match key_position(url, key) {
        None => with_query_parameter(url, key, value),
        Some(key_start) => with_value_at(url, key_start, key, value),
    }
}

/// Whether an ampersand stands in `url` in its escaped form, `&amp`.
pub open spec fn has_escaped_ampersand(url: Seq<char>) -> bool {
    first_occurrence(url, seq!['&', 'a', 'm', 'p']) is Some
}

/// Whether an ampersand stands in `url` in its escaped form, `&amp`.
pub fn contains_escaped_ampersand(url: &str) -> (b: bool)
    ensures
        b == has_escaped_ampersand(url@),
{
    proof {
        reveal_strlit("amp");
    }
    let tail = "amp";
    assert(seq!['&'] + tail@ =~= seq!['&', 'a', 'm', 'p']);
    assert(url@.skip(0) =~= url@);
    find_from(url, 0, '&', tail).is_some()
}

/// Gives the parameter `key` of the URL `url` the value `value`. The URL
/// is one of plain ASCII characters, in which no ampersand is escaped.
pub fn put_query_parameter(url: &str, key: &str, value: &str) -> (result: String)
    requires
        is_ascii(url),
        !has_escaped_ampersand(url@),
    ensures
        result@ == with_parameter(url@, key@, value@),
{
    proof {
        reveal_strlit("");
        reveal_strlit("=");
    }
    let empty = "";
    assert(empty@ =~= Seq::<char>::empty());
    let n = url.unicode_len();
    assert(url@.skip(0) =~= url@);
    assert(seq!['?'] + empty@ =~= seq!['?']);
    let query_start_index = match find_from(url, 0, '?', empty) {
        None => {
            return add_query_parameter(url, key, value);
        },
        Some(i) => i,
    };
    let found = match find_from(url, query_start_index, '?', key) {
        Some(i) => Some(i),
        None => find_from(url, query_start_index, '&', key),
    };
    let key_start_index = match found {
        None => {
            return add_query_parameter(url, key, value);
        },
        Some(i) => query_start_index + i + 1,
    };
    let key_length = key.unicode_len();
    // the position behind the key, where the `=` belongs
    let sign_index = key_start_index + key_length;
    let mut result = String::from_str(url);
    let ghost with_sign;
    if sign_index >= n {
        result.append("=");
        result.append(value);
        assert(result@ =~= url@.push('=') + value@);
        return result;
    } else if url.get_char(sign_index) != '=' {
        result = String::from_str(url.substring_char(0, sign_index));
        result.append("=");
        result.append(url.substring_char(sign_index, n));
        proof {
            with_sign = url@.insert(sign_index as int, '=');
            assert(result@ =~= with_sign);
        }
    } else {
        proof {
            with_sign = url@;
        }
    }
    let value_start_index = sign_index + 1;
    if value_start_index >= n {
        result.append(value);
        return result;
    }
    let length = result.as_str().unicode_len();
    assert(seq!['&'] + empty@ =~= seq!['&']);
    let value_end_index = match find_from(result.as_str(), value_start_index, '&', empty) {
        Some(i) => i,
        None => n - 1,
    };
    let tail_start = if value_start_index > value_end_index {
        value_start_index
    } else {
        value_end_index + 1
    };
    let mut replaced = String::from_str(result.as_str().substring_char(0, value_start_index));
    replaced.append(value);
    replaced.append(result.as_str().substring_char(tail_start, length));
    assert(replaced@ =~= with_sign.take(value_start_index as int) + value@ + with_sign.skip(
        tail_start as int,
    ));
    replaced
}

} // verus!
