//! The failures the library reports. Every failure aborts the call that
//! met it and leaves the storage as it was.
use vstd::prelude::*;
use vstd::string::*;

verus! {

/// The arithmetic operation that left the range of its type.
#[derive(Clone, Copy, Debug, PartialEq, Eq, Structural)]
pub enum OverflowOperation {
    Add,
    Sub,
    Mul,
}

/// An amount computation that does not fit: `operand1 <operation> operand2`.
#[derive(Clone, Copy, Debug, PartialEq, Eq, Structural)]
pub struct OverflowError {
    pub operation: OverflowOperation,
    pub operand1: u128,
    pub operand2: u128,
}

impl OverflowError {
    pub fn new(operation: OverflowOperation, operand1: u128, operand2: u128) -> (e: OverflowError)
        ensures
            e == (OverflowError { operation, operand1, operand2 }),
    {
        OverflowError { operation, operand1, operand2 }
    }
}

/// `a - b`, or the overflow error that names both operands.
pub fn checked_sub(a: u128, b: u128) -> (r: Result<u128, OverflowError>)
    ensures
        r == (if a >= b {
            Ok::<u128, OverflowError>((a - b) as u128)
        } else {
            Err::<u128, OverflowError>(
                OverflowError { operation: OverflowOperation::Sub, operand1: a, operand2: b },
            )
        }),
{
    if a >= b {
        Ok(a - b)
    } else {
        Err(OverflowError::new(OverflowOperation::Sub, a, b))
    }
}

/// `a + b`, or the overflow error that names both operands.
pub fn checked_add(a: u128, b: u128) -> (r: Result<u128, OverflowError>)
    ensures
        r == (if a + b <= u128::MAX {
            Ok::<u128, OverflowError>((a + b) as u128)
        } else {
            Err::<u128, OverflowError>(
                OverflowError { operation: OverflowOperation::Add, operand1: a, operand2: b },
            )
        }),
{
    if a <= u128::MAX - b {
        Ok(a + b)
    } else {
        Err(OverflowError::new(OverflowOperation::Add, a, b))
    }
}

/// The kinds of record that can be missing from the storage.
#[derive(Clone, Copy, Debug, PartialEq, Eq, Structural)]
pub enum Kind {
    ContractConfig,
    PollConfig,
    PollState,
    Poll,
    VoteInfo,
    PollExecutionContext,
    StakingConfig,
    StakingState,
    StakerState,
    ReplyId,
    ContractState,
    Allowance,
    Config,
}

impl Kind {
    /// The name of the kind.
    pub open spec fn name(self) -> Seq<char> {
        match self {
            Kind::ContractConfig => "ContractConfig"@,
            Kind::PollConfig => "PollConfig"@,
            Kind::PollState => "PollState"@,
            Kind::Poll => "Poll"@,
            Kind::VoteInfo => "VoteInfo"@,
            Kind::PollExecutionContext => "PollExecutionContext"@,
            Kind::StakingConfig => "StakingConfig"@,
            Kind::StakingState => "StakingState"@,
            Kind::StakerState => "StakerState"@,
            Kind::ReplyId => "reply_id"@,
            Kind::ContractState => "ContractState"@,
            Kind::Allowance => "Allowance"@,
            Kind::Config => "Config"@,
        }
    }

    /// The name of the kind, as a string.
    pub fn to_string(&self) -> (s: String)
        ensures
            s@ == self.name(),
    {
        match self {
            Kind::ContractConfig => String::from_str("ContractConfig"),
            Kind::PollConfig => String::from_str("PollConfig"),
            Kind::PollState => String::from_str("PollState"),
            Kind::Poll => String::from_str("Poll"),
            Kind::VoteInfo => String::from_str("VoteInfo"),
            Kind::PollExecutionContext => String::from_str("PollExecutionContext"),
            Kind::StakingConfig => String::from_str("StakingConfig"),
            Kind::StakingState => String::from_str("StakingState"),
            Kind::StakerState => String::from_str("StakerState"),
            Kind::ReplyId => String::from_str("reply_id"),
            Kind::ContractState => String::from_str("ContractState"),
            Kind::Allowance => String::from_str("Allowance"),
            Kind::Config => String::from_str("Config"),
        }
    }
}

/// The reasons for which a call is refused, each with the sentence it is
/// reported with (see [`StdError::message`]).
#[derive(Clone, Debug, PartialEq)]
pub enum StdError {
    /// A free-form reason.
    GenericErr { msg: String },
    /// Something of the given kind is not in the storage.
    NotFound { kind: Kind },
    /// An amount computation left the range of `u128`.
    Overflow { source: OverflowError },
    /// A ratio with a zero denominator.
    DivideByZero,
    /// A stake of zero tokens.
    InsufficientFunds,
    /// A proposal deposit below the configured one.
    InsufficientDeposit,
    /// No poll has the given id.
    PollNotFound,
    /// A vote on a poll that is decided or whose voting period is over.
    VotingClosed,
    /// A second vote of one voter on one poll.
    AlreadyVoted,
    /// A vote heavier than the voter's unlocked balance.
    InsufficientBalance,
    /// An attempt to end a poll whose voting period is not over.
    VotingNotYetClosed,
    /// An attempt to end a poll that is already decided.
    PollNotInProgress,
    /// An attempt to execute a poll that has not passed.
    PollNotPassed,
    /// An attempt to execute a poll before its delay has elapsed.
    ExecutionNotDue,
    /// An attempt to execute a poll while the execution of another one
    /// is under way or has stopped at a step that failed.
    ExecutionInProgress,
    /// An execution delay period that is not above the fixed minimum.
    ExecutionDelayTooShort,
    /// An unstake request while no voting share exists.
    NothingStaked,
}

impl StdError {
    /// The sentence this reason is reported with.
    pub open spec fn message(self) -> Seq<char> {
        match self {
            StdError::GenericErr { msg } => msg@,
            StdError::NotFound { kind } => kind.name() + " not found"@,
            StdError::Overflow { source } => "Overflow"@,
            StdError::DivideByZero => "Divide by zero"@,
            StdError::InsufficientFunds => "Insufficient funds sent"@,
            StdError::InsufficientDeposit => "Must deposit more than the proposal deposit"@,
            StdError::PollNotFound => "Poll does not exist"@,
            StdError::VotingClosed => "Poll is not in progress"@,
            StdError::AlreadyVoted => "User has already voted."@,
            StdError::InsufficientBalance => "User does not have enough staked tokens."@,
            StdError::VotingNotYetClosed => "Voting period has not expired"@,
            StdError::PollNotInProgress => "Poll is not in progress"@,
            StdError::PollNotPassed => "Poll is not in passed status"@,
            StdError::ExecutionNotDue => "Execution delay period has not expired"@,
            StdError::ExecutionInProgress => "Another execution is in progress"@,
            StdError::ExecutionDelayTooShort => "execution_delay_period must be greater than 1000"@,
            StdError::NothingStaked => "Nothing staked"@,
        }
    }

    /// A free-form reason.
    pub fn generic_err(msg: &str) -> (e: StdError)
        ensures
            e matches StdError::GenericErr { msg: m } && m@ == msg@,
    {
        StdError::GenericErr { msg: String::from_str(msg) }
    }

    /// Something of kind `kind` is missing.
    pub fn not_found(kind: Kind) -> (e: StdError)
        ensures
            e == (StdError::NotFound { kind }),
    {
        StdError::NotFound { kind }
    }

    /// The sentence this reason is reported with, as a string.
    pub fn to_string(&self) -> (s: String)
        ensures
            s@ == self.message(),
    {
        match self {
            StdError::GenericErr { msg } => msg.clone(),
            StdError::NotFound { kind } => {
                let mut s = kind.to_string();
                s.append(" not found");
                s
            },
            StdError::Overflow { source } => String::from_str("Overflow"),
            StdError::DivideByZero => String::from_str("Divide by zero"),
            StdError::InsufficientFunds => String::from_str("Insufficient funds sent"),
            StdError::InsufficientDeposit => String::from_str(
                "Must deposit more than the proposal deposit",
            ),
            StdError::PollNotFound => String::from_str("Poll does not exist"),
            StdError::VotingClosed => String::from_str("Poll is not in progress"),
            StdError::AlreadyVoted => String::from_str("User has already voted."),
            StdError::InsufficientBalance => String::from_str(
                "User does not have enough staked tokens.",
            ),
            StdError::VotingNotYetClosed => String::from_str("Voting period has not expired"),
            StdError::PollNotInProgress => String::from_str("Poll is not in progress"),
            StdError::PollNotPassed => String::from_str("Poll is not in passed status"),
            StdError::ExecutionNotDue => String::from_str("Execution delay period has not expired"),
            StdError::ExecutionInProgress => String::from_str("Another execution is in progress"),
            StdError::ExecutionDelayTooShort => String::from_str(
                "execution_delay_period must be greater than 1000",
            ),
            StdError::NothingStaked => String::from_str("Nothing staked"),
        }
    }
}

/// The result of a call that fails with a reason only.
pub type StdResult<T> = Result<T, StdError>;

/// The model of an error: a free-form reason is its text, every other
/// error is itself.
pub ghost enum ErrorModel {
    Text(Seq<char>),
    Plain(ContractError),
}

impl View for StdError {
    type V = ErrorModel;

    open spec fn view(&self) -> ErrorModel {
        match *self {
            StdError::GenericErr { msg } => ErrorModel::Text(msg@),
            _ => ErrorModel::Plain(ContractError::Std(*self)),
        }
    }
}

impl View for ContractError {
    type V = ErrorModel;

    open spec fn view(&self) -> ErrorModel {
        match *self {
            ContractError::Std(e) => e@,
            _ => ErrorModel::Plain(*self),
        }
    }
}

/// The model of the reason `e`, which is no free-form one.
pub open spec fn reason(e: StdError) -> ErrorModel {
    ErrorModel::Plain(ContractError::Std(e))
}

/// The model of a missing record of kind `kind`.
pub open spec fn missing(kind: Kind) -> ErrorModel {
    reason(StdError::NotFound { kind })
}

/// The model of an amount computation that does not fit.
pub open spec fn overflow(e: OverflowError) -> ErrorModel {
    ErrorModel::Plain(ContractError::OverflowError(e))
}

/// The overflow of the sum `a + b`.
pub open spec fn add_overflow(a: u128, b: u128) -> OverflowError {
    OverflowError { operation: OverflowOperation::Add, operand1: a, operand2: b }
}

/// The model of a sum `a + b` that does not fit, as the error of a
/// contract call.
pub open spec fn sum_overflow(a: u128, b: u128) -> ErrorModel {
    overflow(add_overflow(a, b))
}

/// The model of the refusal of a caller.
pub open spec fn unauthorized() -> ErrorModel {
    ErrorModel::Plain(ContractError::Unauthorized {  })
}

/// The error of a library call that needs no more than a reason or a
/// refusal of the caller.
#[derive(Clone, Debug, PartialEq)]
pub enum TerraPokerError {
    Std(StdError),
    Unauthorized,
}

impl TerraPokerError {
    /// The free-form reason `msg`.
    pub fn generic(msg: &str) -> (e: TerraPokerError)
        ensures
            e matches TerraPokerError::Std(StdError::GenericErr { msg: m }) && m@ == msg@,
    {
        TerraPokerError::Std(StdError::generic_err(msg))
    }
}

/// The error of a contract call.
#[derive(Clone, Debug, PartialEq)]
pub enum ContractError {
    Std(StdError),
    OverflowError(OverflowError),
    /// The caller is not the one this call is reserved for.
    Unauthorized {  },
    InvalidZeroAmount {  },
    AssetMismatch {  },
    NotFound {  },
    ExceedLimit {  },
    AlreadyExists {  },
}

impl ContractError {
    /// The sentence this error is reported with.
    pub open spec fn message(self) -> Seq<char> {
        match self {
            ContractError::Std(e) => e.message(),
            ContractError::OverflowError(e) => "Overflow"@,
            ContractError::Unauthorized {  } => "Unauthorized"@,
            ContractError::InvalidZeroAmount {  } => "Invalid zero amount"@,
            ContractError::AssetMismatch {  } => "Asset mismatch"@,
            ContractError::NotFound {  } => "Not found"@,
            ContractError::ExceedLimit {  } => "Exceed limit"@,
            ContractError::AlreadyExists {  } => "Already exists"@,
        }
    }

    /// The sentence this error is reported with, as a string.
    pub fn to_string(&self) -> (s: String)
        ensures
            s@ == self.message(),
    {
        match self {
            ContractError::Std(e) => e.to_string(),
            ContractError::OverflowError(e) => String::from_str("Overflow"),
            ContractError::Unauthorized {  } => String::from_str("Unauthorized"),
            ContractError::InvalidZeroAmount {  } => String::from_str("Invalid zero amount"),
            ContractError::AssetMismatch {  } => String::from_str("Asset mismatch"),
            ContractError::NotFound {  } => String::from_str("Not found"),
            ContractError::ExceedLimit {  } => String::from_str("Exceed limit"),
            ContractError::AlreadyExists {  } => String::from_str("Already exists"),
        }
    }
}

} // verus!
