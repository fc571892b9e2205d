use vstd::prelude::*;
use crate::common::states::ContractConfig;
use crate::common::{answered, ContractResult, Env};
use crate::errors::{missing, ContractError, ErrorModel, Kind};
use crate::governance::query_msgs::{ContractConfigResponse, ContractConfigResponseModel};
use crate::storage::{Storage, StorageModel};

verus! {

/// The two tokens the contract works with.
pub open spec fn contract_config_spec(s: StorageModel) -> Result<
    ContractConfigResponseModel,
    ErrorModel,
> {
    match s.contract_config {
        Some(c) => Ok(
            ContractConfigResponseModel {
                governance_token: c.governance_token,
                staking_token: c.staking_token,
            },
        ),
        None => Err(missing(Kind::ContractConfig)),
    }
}

/// The two tokens the contract works with.
pub fn get_contract_config(storage: &Storage, _env: Env) -> (r: ContractResult<
    ContractConfigResponse,
>)
    ensures
        answered(r, contract_config_spec(storage@)),
{
    match ContractConfig::load(storage) {
        Ok(c) => Ok(
            ContractConfigResponse {
                governance_token: c.governance_token,
                staking_token: c.staking_token,
            },
        ),
        Err(e) => Err(ContractError::Std(e)),
    }
}

} // verus!
