use vstd::prelude::*;
use crate::common::states::{ContractConfig, ContractConfigModel};
use crate::common::{committed, ContractResult, Env, MessageInfo, Response, ResponseModel};
use crate::errors::ErrorModel;
use crate::governance::execute_msgs::ContractConfigInitMsg;
use crate::storage::{Storage, StorageModel};
use crate::utils::{action_response, make_response};

verus! {

/// Setting up the contract: it remembers its own address and those of
/// the two tokens.
pub open spec fn instantiate_spec(
    s: StorageModel,
    contract_address: Seq<char>,
    msg: ContractConfigInitMsg,
) -> Result<(StorageModel, ResponseModel), ErrorModel> {
    Ok(
        (
            StorageModel {
                contract_config: Some(
                    ContractConfigModel {
                        address: contract_address,
                        governance_token: msg.governance_token@,
                        staking_token: msg.staking_token@,
                    },
                ),
                ..s
            },
            action_response("instantiate"@),
        ),
    )
}

/// Sets up the contract. The addresses of the tokens are taken as they
/// are given.
pub fn instantiate(storage: &mut Storage, env: Env, _info: MessageInfo, msg: ContractConfigInitMsg) -> (r:
    ContractResult<Response>)
    requires
        old(storage).wf(),
    ensures
        final(storage).wf(),
        committed(
            old(storage)@,
            final(storage)@,
            r,
            instantiate_spec(old(storage)@, env.contract.address@, msg),
        ),
{
    let response = make_response("instantiate");
    let config = ContractConfig {
        address: env.contract.address,
        governance_token: msg.governance_token,
        staking_token: msg.staking_token,
    };
    let _saved = config.save(storage);
    Ok(response)
}

} // verus!
