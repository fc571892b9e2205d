use terrapoker::common::attr;
use terrapoker::decimal::Decimal;
use terrapoker::errors::{
    ContractError, Kind, OverflowError, OverflowOperation, StdError, TerraPokerError,
};
use terrapoker::utils::{
    add_query_parameter, addr_validate_to_lower, calc_ratio_amount, check_lowercase,
    checked_total, contains_char, contains_escaped_ampersand, find, find_mut_or_push, is_contract,
    is_valid_schedule, make_response, parse_uint128, put_query_parameter, split_ratio_uint128,
    split_uint128, to_ratio_uint128, u128_to_string, u64_to_string, validate_zero_to_one,
    ParseIntError,
};
use terrapoker::ListResponse;

#[test]
fn list_response_holds_the_items() {
    let page = ListResponse::new(vec![1u64, 2, 3]);
    assert_eq!(page.items, vec![1u64, 2, 3]);
    let empty: ListResponse<String> = ListResponse::new(vec![]);
    assert!(empty.items.is_empty());
}

#[test]
fn make_response_reports_the_action() {
    let response = make_response("instantiate");
    assert!(response.messages.is_empty());
    assert_eq!(response.attributes, vec![attr("action", "instantiate")]);
    let response = response.add_attribute("poll_id", "3");
    assert_eq!(response.attributes, vec![attr("action", "instantiate"), attr("poll_id", "3")]);
}

#[test]
fn numbers_are_written_in_decimal() {
    assert_eq!(u128_to_string(0), "0");
    assert_eq!(u128_to_string(7), "7");
    assert_eq!(u128_to_string(10), "10");
    assert_eq!(u128_to_string(1234567890), "1234567890");
    assert_eq!(u128_to_string(u128::MAX), u128::MAX.to_string());
    assert_eq!(u64_to_string(u64::MAX), u64::MAX.to_string());
    for n in [9u128, 99, 100, 101, 999_999, 1_000_000] {
        assert_eq!(u128_to_string(n), n.to_string());
        assert_eq!(parse_uint128(&u128_to_string(n)), Ok(n));
    }
}

#[test]
fn amounts_are_read_from_decimal() {
    assert_eq!(parse_uint128("0"), Ok(0));
    assert_eq!(parse_uint128("42"), Ok(42));
    assert_eq!(parse_uint128("+42"), Ok(42));
    assert_eq!(parse_uint128("007"), Ok(7));
    assert_eq!(parse_uint128(&u128::MAX.to_string()), Ok(u128::MAX));
    assert_eq!(parse_uint128(""), Err(ParseIntError::Empty));
    assert_eq!(parse_uint128("+"), Err(ParseIntError::InvalidDigit));
    assert_eq!(parse_uint128("-1"), Err(ParseIntError::InvalidDigit));
    assert_eq!(parse_uint128("12a"), Err(ParseIntError::InvalidDigit));
    assert_eq!(parse_uint128(" 12"), Err(ParseIntError::InvalidDigit));
    assert_eq!(parse_uint128("1+2"), Err(ParseIntError::InvalidDigit));
    assert_eq!(parse_uint128("١٢"), Err(ParseIntError::InvalidDigit));
    assert_eq!(
        parse_uint128("340282366920938463463374607431768211456"),
        Err(ParseIntError::PosOverflow)
    );
    assert_eq!(
        parse_uint128("3402823669209384634633746074317682114550"),
        Err(ParseIntError::PosOverflow)
    );
    for text in ["0", "42", "+42", "", "+", "-1", "12a", "340282366920938463463374607431768211456"] {
        assert_eq!(parse_uint128(text).is_ok(), text.parse::<u128>().is_ok(), "{:?}", text);
    }
}

#[test]
fn find_reports_the_first_match() {
    let values = vec![3u64, 8, 5, 8];
    assert_eq!(find(&values, |v: &u64| *v > 4), Some(&8));
    assert_eq!(find(&values, |v: &u64| *v % 5 == 0), Some(&5));
    assert_eq!(find(&values, |v: &u64| *v > 8), None);
    let empty: Vec<u64> = vec![];
    assert_eq!(find(&empty, |_v: &u64| true), None);
}

#[test]
fn find_mut_or_push_changes_the_first_match_or_adds() {
    let mut values = vec![(1u64, 10u64), (2, 20), (2, 30)];
    find_mut_or_push(&mut values, |v: &(u64, u64)| v.0 == 2, || (2, 0), |v: &mut (u64, u64)| v.1 += 1);
    assert_eq!(values, vec![(1, 10), (2, 21), (2, 30)]);
    find_mut_or_push(&mut values, |v: &(u64, u64)| v.0 == 3, || (3, 0), |v: &mut (u64, u64)| v.1 += 1);
    assert_eq!(values, vec![(1, 10), (2, 21), (2, 30), (3, 0)]);
    let mut empty: Vec<u64> = vec![];
    find_mut_or_push(&mut empty, |_v: &u64| true, || 9, |v: &mut u64| *v = 0);
    assert_eq!(empty, vec![9]);
}

#[test]
fn query_parameters_are_added() {
    assert_eq!(add_query_parameter("http://a.b", "k", "v"), "http://a.b?k=v");
    assert_eq!(add_query_parameter("http://a.b?", "k", "v"), "http://a.b?k=v");
    assert_eq!(add_query_parameter("http://a.b?x=1", "k", "v"), "http://a.b?x=1&k=v");
    assert_eq!(add_query_parameter("http://a.b?x=1&", "k", "v"), "http://a.b?x=1&k=v");
    assert_eq!(add_query_parameter("", "k", "v"), "?k=v");
    assert_eq!(add_query_parameter("a&", "k", ""), "a&?k=");
    assert_eq!(add_query_parameter("é?ü", "ä", "ö"), "é?ü&ä=ö");
    assert!(contains_char("a?b", '?'));
    assert!(!contains_char("ab", '?'));
    assert!(!contains_char("", '?'));
}

#[test]
fn sums_and_splits() {
    assert_eq!(checked_total(&vec![]), Ok(0));
    assert_eq!(checked_total(&vec![1, 2, 3]), Ok(6));
    assert!(checked_total(&vec![u128::MAX, 1]).is_err());

    assert_eq!(split_uint128(100, &vec![1, 1, 2]), Ok(vec![25, 25, 50]));
    assert_eq!(split_uint128(10, &vec![1, 2]), Ok(vec![3, 6]));
    assert_eq!(split_uint128(10, &vec![]), Ok(vec![]));
    assert_eq!(split_uint128(u128::MAX, &vec![u128::MAX]), Ok(vec![u128::MAX]));
    assert_eq!(split_uint128(10, &vec![0, 0]), Err(StdError::DivideByZero));
    assert!(matches!(split_uint128(10, &vec![u128::MAX, 1]), Err(StdError::Overflow { .. })));

    assert_eq!(
        split_ratio_uint128(200, &vec![Decimal::percent(50), Decimal::percent(1), Decimal::one()]),
        Ok(vec![100, 2, 200])
    );
    assert_eq!(
        split_ratio_uint128(u128::MAX, &vec![Decimal::percent(200)]),
        Err(OverflowError {
            operation: OverflowOperation::Mul,
            operand1: u128::MAX,
            operand2: Decimal::percent(200).atomics(),
        })
    );

    assert_eq!(
        to_ratio_uint128(&vec![1, 1, 2]),
        Ok(vec![Decimal::percent(25), Decimal::percent(25), Decimal::percent(50)])
    );
    assert_eq!(
        to_ratio_uint128(&vec![1, 2]),
        Ok(vec![Decimal::raw(333_333_333_333_333_333), Decimal::raw(666_666_666_666_666_666)])
    );
    assert_eq!(to_ratio_uint128(&vec![0]), Err(StdError::DivideByZero));
    assert_eq!(to_ratio_uint128(&vec![]), Ok(vec![]));
}

#[test]
fn surcharge_is_taken_out_of_a_value() {
    // 110 includes a surcharge of 10% on a base of 100
    assert_eq!(calc_ratio_amount(110, Decimal::percent(10)), Ok((10, 100)));
    assert_eq!(calc_ratio_amount(100, Decimal::zero()), Ok((0, 100)));
    assert_eq!(calc_ratio_amount(100, Decimal::percent(100)), Ok((50, 50)));
    assert_eq!(calc_ratio_amount(10, Decimal::percent(200)), Ok((7, 3)));
    assert_eq!(calc_ratio_amount(u128::MAX, Decimal::zero()), Ok((0, u128::MAX)));
    assert!(calc_ratio_amount(1, Decimal::raw(u128::MAX)).is_err());
}

#[test]
fn contracts_have_long_addresses() {
    assert!(!is_contract("terra1x46rqay4d3cssq8gxxvqz8xt6nwlz4td20k38v"));
    assert!(is_contract("terra14z56l0fp2lsf86zy3hty2z47ezkhnthtr9yq76dvs3fjs9pgwss5nl3xv"));
    assert!(!is_contract(""));
    assert!(!is_contract(&"a".repeat(44)));
    assert!(is_contract(&"a".repeat(45)));
    // the length counts bytes
    assert!(is_contract(&"é".repeat(23)));
}

#[test]
fn schedules_must_follow_each_other() {
    assert!(is_valid_schedule(&vec![]));
    assert!(is_valid_schedule(&vec![(0, 10, 5), (10, 20, 5), (25, 30, 1)]));
    assert!(!is_valid_schedule(&vec![(0, 10, 5), (9, 20, 5)]));
    assert!(!is_valid_schedule(&vec![(5, 5, 1)]));
    assert!(!is_valid_schedule(&vec![(6, 5, 1)]));
    assert!(!is_valid_schedule(&vec![(0, 10, 5), (10, 20, 5), (15, 30, 1)]));
}

#[test]
fn zero_to_one_is_validated() {
    assert_eq!(validate_zero_to_one(Decimal::zero(), "quorum"), Ok(()));
    assert_eq!(validate_zero_to_one(Decimal::one(), "quorum"), Ok(()));
    assert_eq!(
        validate_zero_to_one(Decimal::raw(Decimal::one().atomics() + 1), "quorum"),
        Err(StdError::GenericErr { msg: "quorum must be 0 to 1".to_string() })
    );
    assert_eq!(
        validate_zero_to_one(Decimal::percent(101), "threshold").unwrap_err().to_string(),
        "threshold must be 0 to 1"
    );
}

#[test]
fn errors_say_what_went_wrong() {
    let sentences = [
        (StdError::InsufficientFunds, "Insufficient funds sent"),
        (StdError::InsufficientDeposit, "Must deposit more than the proposal deposit"),
        (StdError::PollNotFound, "Poll does not exist"),
        (StdError::VotingClosed, "Poll is not in progress"),
        (StdError::AlreadyVoted, "User has already voted."),
        (StdError::InsufficientBalance, "User does not have enough staked tokens."),
        (StdError::VotingNotYetClosed, "Voting period has not expired"),
        (StdError::PollNotInProgress, "Poll is not in progress"),
        (StdError::PollNotPassed, "Poll is not in passed status"),
        (StdError::ExecutionNotDue, "Execution delay period has not expired"),
        (StdError::ExecutionInProgress, "Another execution is in progress"),
        (StdError::ExecutionDelayTooShort, "execution_delay_period must be greater than 1000"),
        (StdError::NothingStaked, "Nothing staked"),
        (StdError::DivideByZero, "Divide by zero"),
        (StdError::generic_err("anything"), "anything"),
        (StdError::not_found(Kind::Poll), "Poll not found"),
        (StdError::not_found(Kind::StakerState), "StakerState not found"),
    ];
    for (error, sentence) in sentences {
        assert_eq!(error.to_string(), sentence);
        assert_eq!(ContractError::Std(error).to_string(), sentence);
    }
    assert_eq!(ContractError::Unauthorized {}.to_string(), "Unauthorized");
    assert_eq!(ContractError::InvalidZeroAmount {}.to_string(), "Invalid zero amount");
    assert_eq!(ContractError::AssetMismatch {}.to_string(), "Asset mismatch");
    assert_eq!(ContractError::NotFound {}.to_string(), "Not found");
    assert_eq!(ContractError::ExceedLimit {}.to_string(), "Exceed limit");
    assert_eq!(ContractError::AlreadyExists {}.to_string(), "Already exists");
    assert_eq!(
        TerraPokerError::generic("reason"),
        TerraPokerError::Std(StdError::GenericErr { msg: "reason".to_string() })
    );
    for (kind, name) in [
        (Kind::ContractConfig, "ContractConfig"),
        (Kind::PollConfig, "PollConfig"),
        (Kind::PollState, "PollState"),
        (Kind::VoteInfo, "VoteInfo"),
        (Kind::PollExecutionContext, "PollExecutionContext"),
        (Kind::StakingConfig, "StakingConfig"),
        (Kind::StakingState, "StakingState"),
        (Kind::ReplyId, "reply_id"),
    ] {
        assert_eq!(kind.to_string(), name);
    }
}

#[test]
fn query_parameters_are_put() {
    // a URL without the parameter gets it at the end
    assert_eq!(put_query_parameter("http://a.b", "k", "v"), "http://a.b?k=v");
    assert_eq!(put_query_parameter("http://a.b?x=1", "k", "v"), "http://a.b?x=1&k=v");
    // a parameter at the end of the URL gets the value
    assert_eq!(put_query_parameter("http://a.b?k=1", "k", "v"), "http://a.b?k=v");
    assert_eq!(put_query_parameter("http://a.b?k", "k", "v"), "http://a.b?k=v");
    assert_eq!(put_query_parameter("http://a.b?k=", "k", "v"), "http://a.b?k=v");
    assert_eq!(put_query_parameter("http://a.b?x=1&k=2", "k", "v"), "http://a.b?x=1&k=v");
    assert_eq!(put_query_parameter("http://a.b?a=1&key=value", "key", "n"), "http://a.b?a=1&key=n");
    assert_eq!(put_query_parameter("x&y?k=1", "k", "v"), "x&y?k=v");
    assert_eq!(put_query_parameter("u?k=1?k=2", "k", "v"), "u?k=v");
    // with a parameter behind it, the value is cut at the position at which the
    // `&` is found behind the `=`, a position that counts from there
    assert_eq!(put_query_parameter("http://a.b?k=1&x=2", "k", "v"), "http://a.b?k=v1&x=2");
    assert_eq!(
        put_query_parameter("http://a.b?key=value&other=1", "key", "new"),
        "http://a.b?key=newvalue&other=1"
    );
    assert_eq!(put_query_parameter("u?k=abcdefgh&z=1", "k", "V"), "u?k=Vfgh&z=1");
    // a key is found at the start of a longer one
    assert_eq!(put_query_parameter("http://a.b?kx", "k", "v"), "http://a.b?k=xv");
    assert_eq!(put_query_parameter("u?kk=1&k=2", "k", "v"), "u?k=vk=1&k=2");
    // the empty key stands behind the `?`
    assert_eq!(put_query_parameter("?", "", "v"), "?=v");
    assert_eq!(put_query_parameter("a?b", "", "v"), "a?=bv");
    assert!(contains_escaped_ampersand("a?b=1&amp;c=2"));
    assert!(!contains_escaped_ampersand("a?b=1&am;c=2"));
    assert!(!contains_escaped_ampersand(""));
}

#[test]
fn addresses_must_be_lowercase() {
    assert_eq!(addr_validate_to_lower("terra1abc"), Ok("terra1abc".to_string()));
    assert_eq!(addr_validate_to_lower(""), Ok(String::new()));
    assert_eq!(
        addr_validate_to_lower("Terra1abc"),
        Err(StdError::GenericErr { msg: "Address Terra1abc should be lowercase".to_string() })
    );
    assert!(addr_validate_to_lower("terra1ABC").is_err());
    assert_eq!(check_lowercase("a", "a"), Ok(()));
    assert_eq!(
        check_lowercase("A", "a").unwrap_err().to_string(),
        "Address A should be lowercase"
    );
}
