use vstd::prelude::*;
use crate::errors::{checked_sub, missing, reason, ErrorModel, Kind, StdError, StdResult};
use crate::errors::{OverflowError, OverflowOperation};
use crate::storage::{Storage, StorageModel};
use crate::store::Duplicate;

verus! {

/// Who the contract is and which tokens it works with.
#[derive(Debug, PartialEq, Eq)]
pub struct ContractConfig {
    /// The address of the contract itself.
    pub address: String,
    /// The token that stands for voting shares.
    pub governance_token: String,
    /// The token that is staked.
    pub staking_token: String,
}

/// The model of a [`ContractConfig`].
pub ghost struct ContractConfigModel {
    pub address: Seq<char>,
    pub governance_token: Seq<char>,
    pub staking_token: Seq<char>,
}

impl View for ContractConfig {
    type V = ContractConfigModel;

    open spec fn view(&self) -> ContractConfigModel {
        ContractConfigModel {
            address: self.address@,
            governance_token: self.governance_token@,
            staking_token: self.staking_token@,
        }
    }
}

impl Duplicate for ContractConfig {
    fn duplicate(&self) -> (r: Self) {
        ContractConfig {
            address: self.address.clone(),
            governance_token: self.governance_token.clone(),
            staking_token: self.staking_token.clone(),
        }
    }
}

impl Clone for ContractConfig {
    fn clone(&self) -> (r: Self)
        ensures
            r@ == self@,
    {
        self.duplicate()
    }
}

impl ContractConfig {
    /// Stores this configuration in place of the one that was there.
    pub fn save(&self, storage: &mut Storage) -> (r: StdResult<()>)
        requires
            old(storage).wf(),
        ensures
            r is Ok,
            final(storage).wf(),
            final(storage)@ == (StorageModel { contract_config: Some(self@), ..old(storage)@ }),
    {
        storage.contract_config = Some(self.duplicate());
        Ok(())
    }

    /// The stored configuration.
    pub fn load(storage: &Storage) -> (r: StdResult<ContractConfig>)
        ensures
            match storage@.contract_config {
                Some(c) => r matches Ok(v) && v@ == c,
                None => r matches Err(e) && e == (StdError::NotFound {
                    kind: Kind::ContractConfig,
                }),
            },
    {
        match &storage.contract_config {
            Some(c) => Ok(c.duplicate()),
            None => Err(StdError::not_found(Kind::ContractConfig)),
        }
    }

    /// Whether `address` is the token that stands for voting shares.
    pub fn is_governance_token(&self, address: &String) -> (b: bool)
        ensures
            b == (self.governance_token@ == address@),
    {
        self.governance_token == *address
    }

    /// Whether `address` is the token that is staked.
    pub fn is_staking_token(&self, address: &String) -> (b: bool)
        ensures
            b == (self.staking_token@ == address@),
    {
        self.staking_token == *address
    }
}

/// The free pool: what is left of `contract_balance`, the staking tokens
/// the contract holds, once the withdrawals that wait for their unlock
/// height are set aside.
pub open spec fn free_pool(s: StorageModel, contract_balance: u128) -> Result<u128, ErrorModel> {
    if s.contract_config is None {
        Err(missing(Kind::ContractConfig))
    } else if s.staking_state is None {
        Err(missing(Kind::StakingState))
    } else if contract_balance < s.staking_state->0.total_unstake_locked {
        Err(
            reason(
                StdError::Overflow {
                    source: OverflowError {
                        operation: OverflowOperation::Sub,
                        operand1: contract_balance,
                        operand2: s.staking_state->0.total_unstake_locked,
                    },
                },
            ),
        )
    } else {
        Ok((contract_balance - s.staking_state->0.total_unstake_locked) as u128)
    }
}

/// The free pool of staked tokens, given the balance of staking tokens
/// that the token ledger reports for the contract.
pub fn load_contract_staking_token_balance(storage: &Storage, contract_balance: u128) -> (r:
    StdResult<u128>)
    ensures
        match free_pool(storage@, contract_balance) {
            Ok(v) => r == Ok::<u128, StdError>(v),
            Err(e) => r matches Err(x) && x@ == e,
        },
{
    if storage.contract_config.is_none() {
        return Err(StdError::not_found(Kind::ContractConfig));
    }
    match storage.staking_state {
        None => Err(StdError::not_found(Kind::StakingState)),
        Some(state) => match checked_sub(contract_balance, state.total_unstake_locked) {
            Ok(v) => Ok(v),
            Err(source) => Err(StdError::Overflow { source }),
        },
    }
}

} // verus!
