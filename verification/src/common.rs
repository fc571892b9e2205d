//! The values that every part of the contract exchanges: the caller and
//! the block of a call, the calls it asks for in return, and the steps of
//! a proposal.
use vstd::prelude::*;
use vstd::string::*;
use crate::errors::{ContractError, ErrorModel};

pub mod executions;
pub mod queries;
pub mod states;

use crate::store::{models, Duplicate};

verus! {

/// The result of a contract call.
pub type ContractResult<T> = Result<T, ContractError>;

/// The direction of a paginated listing.
#[derive(Clone, Copy, Debug, PartialEq, Eq, Structural)]
pub enum OrderBy {
    Asc,
    Desc,
}

/// The block a call runs in.
#[derive(Clone, Copy, Debug, PartialEq, Eq, Structural)]
pub struct BlockInfo {
    pub height: u64,
}

/// The contract a call runs in.
#[derive(Debug, PartialEq, Eq)]
pub struct ContractInfo {
    pub address: String,
}

/// Where and when a call runs.
#[derive(Debug, PartialEq, Eq)]
pub struct Env {
    pub block: BlockInfo,
    pub contract: ContractInfo,
}

/// Who makes a call.
#[derive(Debug, PartialEq, Eq)]
pub struct MessageInfo {
    pub sender: String,
}

impl Env {
    /// A copy of this environment.
    pub fn duplicate(&self) -> (r: Env)
        ensures
            r.block == self.block,
            r.contract.address@ == self.contract.address@,
    {
        Env {
            block: self.block,
            contract: ContractInfo { address: self.contract.address.clone() },
        }
    }
}

impl MessageInfo {
    /// A copy of this caller.
    pub fn duplicate(&self) -> (r: MessageInfo)
        ensures
            r.sender@ == self.sender@,
    {
        MessageInfo { sender: self.sender.clone() }
    }
}

/// One step of a proposal, as submitted: a payload for a target contract,
/// and its place in the order of steps.
#[derive(Debug, PartialEq, Eq)]
pub struct ExecutionMsg {
    pub order: u64,
    pub contract: String,
    pub msg: Vec<u8>,
}

/// One step of a proposal, as stored.
#[derive(Debug, PartialEq, Eq)]
pub struct Execution {
    pub order: u64,
    pub contract: String,
    pub msg: Vec<u8>,
}

/// The model of a step, stored or submitted.
pub ghost struct ExecutionModel {
    pub order: u64,
    pub contract: Seq<char>,
    pub msg: Seq<u8>,
}

impl View for ExecutionMsg {
    type V = ExecutionModel;

    open spec fn view(&self) -> ExecutionModel {
        ExecutionModel { order: self.order, contract: self.contract@, msg: self.msg@ }
    }
}

impl View for Execution {
    type V = ExecutionModel;

    open spec fn view(&self) -> ExecutionModel {
        ExecutionModel { order: self.order, contract: self.contract@, msg: self.msg@ }
    }
}

impl Duplicate for ExecutionMsg {
    fn duplicate(&self) -> (r: Self) {
        ExecutionMsg {
            order: self.order,
            contract: self.contract.clone(),
            msg: self.msg.clone(),
        }
    }
}

impl Duplicate for Execution {
    fn duplicate(&self) -> (r: Self) {
        Execution { order: self.order, contract: self.contract.clone(), msg: self.msg.clone() }
    }
}

impl Clone for ExecutionMsg {
    fn clone(&self) -> (r: Self)
        ensures
            r@ == self@,
    {
        self.duplicate()
    }
}

impl Clone for Execution {
    fn clone(&self) -> (r: Self)
        ensures
            r@ == self@,
    {
        self.duplicate()
    }
}

impl Execution {
    /// The step in the form it is submitted and reported in.
    pub fn to_msg(&self) -> (r: ExecutionMsg)
        ensures
            r@ == self@,
    {
        ExecutionMsg {
            order: self.order,
            contract: self.contract.clone(),
            msg: self.msg.clone(),
        }
    }
}

impl ExecutionMsg {
    /// The step in the form it is stored in.
    pub fn to_execution(&self) -> (r: Execution)
        ensures
            r@ == self@,
    {
        Execution { order: self.order, contract: self.contract.clone(), msg: self.msg.clone() }
    }
}

/// What a call asks another contract to do.
#[derive(Debug, PartialEq, Eq)]
pub enum Call {
    /// Mint `amount` of the token to `recipient`.
    Mint { recipient: String, amount: u128 },
    /// Burn `amount` of the token held by the caller.
    Burn { amount: u128 },
    /// Transfer `amount` of the token to `recipient`.
    Transfer { recipient: String, amount: u128 },
    /// Distribute pending rewards.
    Distribute,
    /// Mint the voting shares for a stake that has arrived.
    StakeGovernanceTokenHook { staker: String, amount: u128 },
    /// Lock the withdrawal for voting shares that are given back.
    UnstakeGovernanceTokenHook { staker: String, amount: u128 },
    /// Dispatch the given steps of a proposal.
    RunExecution { executions: Vec<ExecutionMsg> },
    /// An opaque payload: one step of a proposal.
    Raw { msg: Vec<u8> },
}

/// The model of a [`Call`].
pub ghost enum CallModel {
    Mint { recipient: Seq<char>, amount: u128 },
    Burn { amount: u128 },
    Transfer { recipient: Seq<char>, amount: u128 },
    Distribute,
    StakeGovernanceTokenHook { staker: Seq<char>, amount: u128 },
    UnstakeGovernanceTokenHook { staker: Seq<char>, amount: u128 },
    RunExecution { executions: Seq<ExecutionModel> },
    Raw { msg: Seq<u8> },
}

impl View for Call {
    type V = CallModel;

    open spec fn view(&self) -> CallModel {
        match *self {
            Call::Mint { recipient, amount } => CallModel::Mint { recipient: recipient@, amount },
            Call::Burn { amount } => CallModel::Burn { amount },
            Call::Transfer { recipient, amount } => CallModel::Transfer {
                recipient: recipient@,
                amount,
            },
            Call::Distribute => CallModel::Distribute,
            Call::StakeGovernanceTokenHook { staker, amount } => {
                CallModel::StakeGovernanceTokenHook { staker: staker@, amount }
            },
            Call::UnstakeGovernanceTokenHook { staker, amount } => {
                CallModel::UnstakeGovernanceTokenHook { staker: staker@, amount }
            },
            Call::RunExecution { executions } => CallModel::RunExecution {
                executions: models(executions@),
            },
            Call::Raw { msg } => CallModel::Raw { msg: msg@ },
        }
    }
}

/// When the contract wants to hear how a call it asked for has ended.
#[derive(Clone, Copy, Debug, PartialEq, Eq, Structural)]
pub enum ReplyOn {
    Always,
    Error,
    Success,
    Never,
}

/// A call to the contract at `contract_addr`, to be made once the current
/// call has ended. With `reply_on` other than `Never`, its outcome comes
/// back to the contract under `id`.
#[derive(Debug, PartialEq, Eq)]
pub struct SubMsg {
    pub id: u64,
    pub contract_addr: String,
    pub call: Call,
    pub reply_on: ReplyOn,
}

/// The model of a [`SubMsg`].
pub ghost struct SubMsgModel {
    pub id: u64,
    pub contract_addr: Seq<char>,
    pub call: CallModel,
    pub reply_on: ReplyOn,
}

impl View for SubMsg {
    type V = SubMsgModel;

    open spec fn view(&self) -> SubMsgModel {
        SubMsgModel {
            id: self.id,
            contract_addr: self.contract_addr@,
            call: self.call@,
            reply_on: self.reply_on,
        }
    }
}

/// The model of a call to `contract_addr` whose outcome the contract
/// does not ask for.
pub open spec fn plain_call(contract_addr: Seq<char>, call: CallModel) -> SubMsgModel {
    SubMsgModel { id: 0, contract_addr, call, reply_on: ReplyOn::Never }
}

/// The model of a call to `contract_addr` whose outcome comes back under
/// `id`.
pub open spec fn watched_call(contract_addr: Seq<char>, call: CallModel, id: u64) -> SubMsgModel {
    SubMsgModel { id, contract_addr, call, reply_on: ReplyOn::Always }
}

/// What holds after a command: where `expected` is a new storage and a
/// response, the command succeeded with both; where it is an error, the
/// command failed with it and the storage is as it was.
pub open spec fn committed<S>(
    before: S,
    after: S,
    r: ContractResult<Response>,
    expected: Result<(S, ResponseModel), ErrorModel>,
) -> bool {
    match expected {
        Ok((s, response)) => r matches Ok(x) && x@ == response && after == s,
        Err(e) => r matches Err(x) && x@ == e && after == before,
    }
}

/// What holds after a call that changes nothing: it succeeded with the
/// expected response, or failed with the expected error.
pub open spec fn responded(
    r: ContractResult<Response>,
    expected: Result<ResponseModel, ErrorModel>,
) -> bool {
    match expected {
        Ok(response) => r matches Ok(x) && x@ == response,
        Err(e) => r matches Err(x) && x@ == e,
    }
}

/// What holds after a query: it succeeded with an answer of the expected
/// model, or failed with the expected error.
pub open spec fn answered<T: View>(r: ContractResult<T>, expected: Result<T::V, ErrorModel>) -> bool {
    match expected {
        Ok(answer) => r matches Ok(x) && x@ == answer,
        Err(e) => r matches Err(x) && x@ == e,
    }
}

/// The outcome of a command that changes nothing.
pub open spec fn unchanged<S>(s: S, outcome: Result<ResponseModel, ErrorModel>) -> Result<
    (S, ResponseModel),
    ErrorModel,
> {
    match outcome {
        Ok(response) => Ok((s, response)),
        Err(e) => Err(e),
    }
}

/// What the token ledgers report to a call. Which of the values a call
/// looks at, and for which account and height it wants them, its own
/// description says.
#[derive(Clone, Copy, Debug, PartialEq, Eq, Structural)]
pub struct Ledger {
    /// The number of voting shares.
    pub gov_token_total_supply: u128,
    /// The voting shares of the account that the call is about.
    pub gov_token_balance: u128,
    /// The staking tokens that the contract holds.
    pub staking_token_balance: u128,
}

impl SubMsg {
    /// A call whose outcome the contract does not ask for.
    pub fn new(contract_addr: &str, call: Call) -> (m: SubMsg)
        ensures
            m@ == plain_call(contract_addr@, call@),
    {
        SubMsg {
            id: 0,
            contract_addr: String::from_str(contract_addr),
            call,
            reply_on: ReplyOn::Never,
        }
    }

    /// A call whose outcome comes back under `id`.
    pub fn reply_always(contract_addr: &str, call: Call, id: u64) -> (m: SubMsg)
        ensures
            m@ == watched_call(contract_addr@, call@, id),
    {
        SubMsg {
            id,
            contract_addr: String::from_str(contract_addr),
            call,
            reply_on: ReplyOn::Always,
        }
    }
}

/// A key and a value that a call reports.
#[derive(Debug, PartialEq, Eq)]
pub struct Attribute {
    pub key: String,
    pub value: String,
}

impl View for Attribute {
    type V = (Seq<char>, Seq<char>);

    open spec fn view(&self) -> (Seq<char>, Seq<char>) {
        (self.key@, self.value@)
    }
}

/// The attribute `key = value`.
pub fn attr(key: &str, value: &str) -> (a: Attribute)
    ensures
        a@ == (key@, value@),
{
    Attribute { key: String::from_str(key), value: String::from_str(value) }
}

/// What a call that succeeded hands back: the calls it asks for, in the
/// order in which they are to be made, and what it reports.
#[derive(Debug, PartialEq, Eq)]
pub struct Response {
    pub messages: Vec<SubMsg>,
    pub attributes: Vec<Attribute>,
}

/// The model of a [`Response`].
pub ghost struct ResponseModel {
    pub messages: Seq<SubMsgModel>,
    pub attributes: Seq<(Seq<char>, Seq<char>)>,
}

impl View for Response {
    type V = ResponseModel;

    open spec fn view(&self) -> ResponseModel {
        ResponseModel { messages: models(self.messages@), attributes: models(self.attributes@) }
    }
}

impl ResponseModel {
    /// The response that asks for nothing and reports nothing.
    pub open spec fn empty() -> ResponseModel {
        ResponseModel { messages: Seq::empty(), attributes: Seq::empty() }
    }
}

impl Response {
    /// The response that asks for nothing and reports nothing.
    pub fn new() -> (r: Response)
        ensures
            r@ == ResponseModel::empty(),
    {
        let r = Response { messages: Vec::new(), attributes: Vec::new() };
        assert(r@.messages =~= Seq::empty());
        assert(r@.attributes =~= Seq::empty());
        r
    }

    /// Adds the attribute `key = value` after those already there.
    pub fn add_attribute(self, key: &str, value: &str) -> (r: Response)
        ensures
            r@ == (ResponseModel {
                messages: self@.messages,
                attributes: self@.attributes.push((key@, value@)),
            }),
    {
        let mut r = self;
        let ghost before = r.attributes@;
        r.attributes.push(attr(key, value));
        assert(models(r.attributes@) =~= models(before).push((key@, value@)));
        r
    }

    /// Adds the call `msg` after those already there.
    pub fn add_submessage(self, msg: SubMsg) -> (r: Response)
        ensures
            r@ == (ResponseModel {
                messages: self@.messages.push(msg@),
                attributes: self@.attributes,
            }),
    {
        let mut r = self;
        let ghost before = r.messages@;
        r.messages.push(msg);
        assert(models(r.messages@) =~= models(before).push(msg@));
        r
    }
}

/// How a call that the contract asked to hear about has ended.
#[derive(Debug, PartialEq, Eq)]
pub struct Reply {
    pub id: u64,
    /// `None` when the call succeeded, else what it reported.
    pub error: Option<String>,
}

} // verus!
