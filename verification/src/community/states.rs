use vstd::prelude::*;
use crate::common::OrderBy;
use crate::errors::{checked_add, checked_sub, Kind, OverflowError, StdError, StdResult};
use crate::poll::states::{is_descending, page_limit, page_size, runs_down};
use crate::storage::staker_key;
use crate::store::{
    delete,
    lookup,
    models,
    put,
    text_of,
    walk,
    Bucket,
    Cursor,
    Duplicate,
    Record,
    StoreKey,
    Walk,
};

verus! {

/// The largest page a listing of allowances hands out.
pub const MAX_LIMIT: u32 = 30;

/// The page a listing of allowances hands out when none is asked for.
pub const DEFAULT_LIMIT: u32 = 10;

/// Who runs the fund and which token it manages.
#[derive(Debug, PartialEq, Eq)]
pub struct ContractConfig {
    pub admin: String,
    pub managing_token: String,
}

/// The model of a [`ContractConfig`].
pub ghost struct ContractConfigModel {
    pub admin: Seq<char>,
    pub managing_token: Seq<char>,
}

impl View for ContractConfig {
    type V = ContractConfigModel;

    open spec fn view(&self) -> ContractConfigModel {
        ContractConfigModel { admin: self.admin@, managing_token: self.managing_token@ }
    }
}

impl Duplicate for ContractConfig {
    fn duplicate(&self) -> (r: Self) {
        ContractConfig { admin: self.admin.clone(), managing_token: self.managing_token.clone() }
    }
}

/// How much of the fund is promised in allowances that are not used up.
#[derive(Clone, Copy, Debug, PartialEq, Eq, Structural)]
pub struct ContractState {
    pub remain_allowance_amount: u128,
}

/// The balance of the fund: all of it, what is promised, and what is
/// free.
#[derive(Clone, Copy, Debug, PartialEq, Eq, Structural)]
pub struct BalanceResponse {
    pub total_balance: u128,
    pub allowance_amount: u128,
    pub free_balance: u128,
}

/// What an address may take out of the fund.
#[derive(Debug, PartialEq, Eq)]
pub struct Allowance {
    pub address: String,
    /// All that was ever allowed and not taken back.
    pub allowed_amount: u128,
    /// What is left of it.
    pub remain_amount: u128,
}

/// The model of an [`Allowance`].
pub ghost struct AllowanceModel {
    pub address: Seq<char>,
    pub allowed_amount: u128,
    pub remain_amount: u128,
}

impl AllowanceModel {
    /// The allowance of an address that was never allowed anything.
    pub open spec fn default(address: Seq<char>) -> AllowanceModel {
        AllowanceModel { address, allowed_amount: 0, remain_amount: 0 }
    }
}

impl View for Allowance {
    type V = AllowanceModel;

    open spec fn view(&self) -> AllowanceModel {
        AllowanceModel {
            address: self.address@,
            allowed_amount: self.allowed_amount,
            remain_amount: self.remain_amount,
        }
    }
}

impl Duplicate for Allowance {
    fn duplicate(&self) -> (r: Self) {
        Allowance {
            address: self.address.clone(),
            allowed_amount: self.allowed_amount,
            remain_amount: self.remain_amount,
        }
    }
}

impl Clone for Allowance {
    fn clone(&self) -> (r: Self)
        ensures
            r@ == self@,
    {
        self.duplicate()
    }
}

impl Record for Allowance {
    open spec fn key_of(m: AllowanceModel) -> StoreKey {
        staker_key(m.address)
    }

    open spec fn valid(m: AllowanceModel) -> bool {
        true
    }

    fn key_num(&self) -> (n: u64) {
        0
    }

    fn key_text(&self) -> (t: &str) {
        self.address.as_str()
    }
}

/// An allowance, as it is reported.
#[derive(Debug, PartialEq, Eq)]
pub struct AllowanceResponse {
    pub address: String,
    pub allowed_amount: u128,
    pub remain_amount: u128,
}

impl View for AllowanceResponse {
    type V = AllowanceModel;

    open spec fn view(&self) -> AllowanceModel {
        AllowanceModel {
            address: self.address@,
            allowed_amount: self.allowed_amount,
            remain_amount: self.remain_amount,
        }
    }
}

/// A page of allowances.
#[derive(Debug, PartialEq, Eq)]
pub struct AllowancesResponse {
    pub allowances: Vec<AllowanceResponse>,
}

/// Everything the community fund keeps between calls.
#[derive(Debug)]
pub struct Storage {
    pub contract_config: Option<ContractConfig>,
    pub admin_nominee: Option<String>,
    pub contract_state: Option<ContractState>,
    /// The allowances, by address.
    pub allowances: Bucket<Allowance>,
}

/// The model of the [`Storage`] of the community fund.
pub ghost struct StorageModel {
    pub contract_config: Option<ContractConfigModel>,
    pub admin_nominee: Option<Seq<char>>,
    pub contract_state: Option<ContractState>,
    pub allowances: Seq<AllowanceModel>,
}

impl View for Storage {
    type V = StorageModel;

    open spec fn view(&self) -> StorageModel {
        StorageModel {
            contract_config: match self.contract_config {
                Some(c) => Some(c@),
                None => None,
            },
            admin_nominee: text_of(self.admin_nominee),
            contract_state: self.contract_state,
            allowances: self.allowances@,
        }
    }
}

impl Storage {
    /// The allowances are in the order of their addresses.
    pub open spec fn wf(&self) -> bool {
        self.allowances.wf()
    }

    /// The storage of a fund that has not been set up.
    pub fn new() -> (s: Storage)
        ensures
            s.wf(),
            s@ == (StorageModel {
                contract_config: None,
                admin_nominee: None,
                contract_state: None,
                allowances: Seq::empty(),
            }),
    {
        Storage {
            contract_config: None,
            admin_nominee: None,
            contract_state: None,
            allowances: Bucket::new(),
        }
    }
}

impl ContractConfig {
    /// Stores this configuration in place of the one that was there.
    pub fn save(&self, storage: &mut Storage) -> (r: StdResult<()>)
        requires
            old(storage).wf(),
        ensures
            r is Ok,
            final(storage).wf(),
            final(storage)@ == (StorageModel { contract_config: Some(self@), ..old(storage)@ }),
    {
        storage.contract_config = Some(self.duplicate());
        Ok(())
    }

    /// The stored configuration.
    pub fn load(storage: &Storage) -> (r: StdResult<ContractConfig>)
        ensures
            match storage@.contract_config {
                Some(c) => r matches Ok(v) && v@ == c,
                None => r matches Err(e) && e == (StdError::NotFound {
                    kind: Kind::ContractConfig,
                }),
            },
    {
        match &storage.contract_config {
            Some(c) => Ok(c.duplicate()),
            None => Err(StdError::not_found(Kind::ContractConfig)),
        }
    }

    /// The address that is nominated to run the fund, if one is.
    pub fn may_load_admin_nominee(storage: &Storage) -> (r: StdResult<Option<String>>)
        ensures
            r matches Ok(o) && text_of(o) == storage@.admin_nominee,
    {
        Ok(crate::store::duplicate_text(&storage.admin_nominee))
    }

    /// Nominates `address` to run the fund.
    pub fn save_admin_nominee(storage: &mut Storage, address: &String) -> (r: StdResult<()>)
        requires
            old(storage).wf(),
        ensures
            r is Ok,
            final(storage).wf(),
            final(storage)@ == (StorageModel { admin_nominee: Some(address@), ..old(storage)@ }),
    {
        storage.admin_nominee = Some(address.clone());
        Ok(())
    }

    /// Whether `address` runs the fund.
    pub fn is_admin(&self, address: &String) -> (b: bool)
        ensures
            b == (self.admin@ == address@),
    {
        self.admin == *address
    }
}

impl ContractState {
    /// Stores this state in place of the one that was there.
    pub fn save(&self, storage: &mut Storage) -> (r: StdResult<()>)
        requires
            old(storage).wf(),
        ensures
            r is Ok,
            final(storage).wf(),
            final(storage)@ == (StorageModel { contract_state: Some(*self), ..old(storage)@ }),
    {
        storage.contract_state = Some(*self);
        Ok(())
    }

    /// The stored state.
    pub fn load(storage: &Storage) -> (r: StdResult<ContractState>)
        ensures
            r == (match storage@.contract_state {
                Some(c) => Ok::<ContractState, StdError>(c),
                None => Err::<ContractState, StdError>(
                    StdError::NotFound { kind: Kind::ContractState },
                ),
            }),
    {
        match storage.contract_state {
            Some(c) => Ok(c),
            None => Err(StdError::not_found(Kind::ContractState)),
        }
    }

    /// The balance of the fund, given the balance `total_balance` of the
    /// managed token that the token ledger reports for it: what is not
    /// promised in allowances is free. There is no balance where more is
    /// promised than the fund holds.
    pub fn load_balance(&self, total_balance: u128) -> (r: StdResult<BalanceResponse>)
        ensures
            r == (if total_balance >= self.remain_allowance_amount {
                Ok::<BalanceResponse, StdError>(
                    BalanceResponse {
                        total_balance,
                        allowance_amount: self.remain_allowance_amount,
                        free_balance: (total_balance - self.remain_allowance_amount) as u128,
                    },
                )
            } else {
                Err::<BalanceResponse, StdError>(
                    StdError::Overflow {
                        source: OverflowError {
                            operation: crate::errors::OverflowOperation::Sub,
                            operand1: total_balance,
                            operand2: self.remain_allowance_amount,
                        },
                    },
                )
            }),
    {
        match checked_sub(total_balance, self.remain_allowance_amount) {
            Ok(free_balance) => Ok(
                BalanceResponse {
                    total_balance,
                    allowance_amount: self.remain_allowance_amount,
                    free_balance,
                },
            ),
            Err(source) => Err(StdError::Overflow { source }),
        }
    }
}

/// The bounds of a listing of allowances.
pub open spec fn allowance_walk(
    start_after: Option<Seq<char>>,
    limit: Option<u32>,
    order_by: Option<OrderBy>,
) -> Walk {
    Walk {
        prefix: None,
        after: match start_after {
            Some(a) => Some(staker_key(a)),
            None => None,
        },
        descending: runs_down(order_by),
        limit: page_size(limit, DEFAULT_LIMIT, MAX_LIMIT),
    }
}

/// The allowance stored for `address`, or the one of an address that was
/// never allowed anything.
pub open spec fn allowance_at(allowances: Seq<AllowanceModel>, address: Seq<char>) -> AllowanceModel {
    match lookup::<Allowance>(allowances, staker_key(address)) {
        Some(m) => m,
        None => AllowanceModel::default(address),
    }
}

impl Allowance {
    /// The allowance of an address that was never allowed anything.
    pub fn default(address: &String) -> (r: Allowance)
        ensures
            r@ == AllowanceModel::default(address@),
    {
        Allowance { address: address.clone(), allowed_amount: 0, remain_amount: 0 }
    }

    /// Stores this allowance under its address, in place of the one that
    /// was there.
    pub fn save(&self, storage: &mut Storage) -> (r: StdResult<()>)
        requires
            old(storage).wf(),
        ensures
            r is Ok,
            final(storage).wf(),
            final(storage)@ == (StorageModel {
                allowances: put::<Allowance>(old(storage)@.allowances, self@),
                ..old(storage)@
            }),
    {
        storage.allowances.put(self.duplicate());
        Ok(())
    }

    /// Removes the allowance stored under the address of this one.
    pub fn delete(&self, storage: &mut Storage)
        requires
            old(storage).wf(),
        ensures
            final(storage).wf(),
            final(storage)@ == (StorageModel {
                allowances: delete::<Allowance>(old(storage)@.allowances, staker_key(self.address@)),
                ..old(storage)@
            }),
    {
        storage.allowances.delete(0, self.address.as_str());
    }

    /// Stores this allowance while something is left of it, and removes
    /// it once nothing is.
    pub fn save_or_delete(&self, storage: &mut Storage) -> (r: StdResult<()>)
        requires
            old(storage).wf(),
        ensures
            r is Ok,
            final(storage).wf(),
            final(storage)@ == (StorageModel {
                allowances: if self.remain_amount == 0 {
                    delete::<Allowance>(old(storage)@.allowances, staker_key(self.address@))
                } else {
                    put::<Allowance>(old(storage)@.allowances, self@)
                },
                ..old(storage)@
            }),
    {
        if self.remain_amount == 0 {
            self.delete(storage);
            Ok(())
        } else {
            self.save(storage)
        }
    }

    /// The allowance stored for `address`.
    pub fn load(storage: &Storage, address: &String) -> (r: StdResult<Allowance>)
        requires
            storage.wf(),
        ensures
            match lookup::<Allowance>(storage@.allowances, staker_key(address@)) {
                Some(m) => r matches Ok(v) && v@ == m,
                None => r matches Err(e) && e == (StdError::NotFound { kind: Kind::Allowance }),
            },
    {
        match storage.allowances.get(0, address.as_str()) {
            Some(a) => Ok(a.duplicate()),
            None => Err(StdError::not_found(Kind::Allowance)),
        }
    }

    /// The allowance stored for `address`, if there is one.
    pub fn may_load(storage: &Storage, address: &String) -> (r: StdResult<Option<Allowance>>)
        requires
            storage.wf(),
        ensures
            r matches Ok(o) && match lookup::<Allowance>(
                storage@.allowances,
                staker_key(address@),
            ) {
                Some(m) => o matches Some(v) && v@ == m,
                None => o is None,
            },
    {
        match storage.allowances.get(0, address.as_str()) {
            Some(a) => Ok(Some(a.duplicate())),
            None => Ok(None),
        }
    }

    /// The allowance stored for `address`, or the one of an address that
    /// was never allowed anything.
    pub fn load_or_default(storage: &Storage, address: &String) -> (r: StdResult<Allowance>)
        requires
            storage.wf(),
        ensures
            r matches Ok(v) && v@ == allowance_at(storage@.allowances, address@),
    {
        match storage.allowances.get(0, address.as_str()) {
            Some(a) => Ok(a.duplicate()),
            None => Ok(Allowance::default(address)),
        }
    }

    /// A page of allowances in the order of their addresses, ascending or
    /// (unless asked otherwise) descending, starting strictly after the
    /// address `start_after`.
    pub fn query(
        storage: &Storage,
        start_after: Option<String>,
        limit: Option<u32>,
        order_by: Option<OrderBy>,
    ) -> (r: StdResult<AllowancesResponse>)
        ensures
            r matches Ok(v) && models(v.allowances@) == walk::<Allowance>(
                storage@.allowances,
                allowance_walk(text_of(start_after), limit, order_by),
            ),
    {
        let size = page_limit(limit, DEFAULT_LIMIT, MAX_LIMIT);
        let after = match start_after {
            Some(a) => Some(Cursor { num: 0, text: a }),
            None => None,
        };
        let found = storage.allowances.walk(None, after, is_descending(order_by), size);
        let mut allowances: Vec<AllowanceResponse> = Vec::new();
        let mut i: usize = 0;
        while i < found.len()
            invariant
                i <= found.len(),
                allowances.len() == i,
                forall|j: int| 0 <= j < i ==> (#[trigger] allowances[j])@ == found[j]@,
            decreases found.len() - i,
        {
            let allowance = &found[i];
            allowances.push(
                AllowanceResponse {
                    address: allowance.address.clone(),
                    allowed_amount: allowance.allowed_amount,
                    remain_amount: allowance.remain_amount,
                },
            );
            i += 1;
        }
        assert(models(allowances@) =~= models(found@));
        Ok(AllowancesResponse { allowances })
    }

    /// Allows `amount` more: to all that was allowed, and to what is left
    /// of it. Nothing changes where one of the two would not fit.
    pub fn increase(&mut self, amount: u128) -> (r: Result<(), OverflowError>)
        ensures
            old(self).allowed_amount + amount <= u128::MAX && old(self).remain_amount + amount
                <= u128::MAX ==> r is Ok && final(self)@ == (AllowanceModel {
                allowed_amount: (old(self).allowed_amount + amount) as u128,
                remain_amount: (old(self).remain_amount + amount) as u128,
                ..old(self)@
            }),
            old(self).allowed_amount + amount > u128::MAX || old(self).remain_amount + amount
                > u128::MAX ==> r is Err && final(self)@ == old(self)@,
    {
        let allowed = match checked_add(self.allowed_amount, amount) {
            Ok(v) => v,
            Err(e) => {
                return Err(e);
            },
        };
        let remain = match checked_add(self.remain_amount, amount) {
            Ok(v) => v,
            Err(e) => {
                return Err(e);
            },
        };
        self.allowed_amount = allowed;
        self.remain_amount = remain;
        Ok(())
    }

    /// Takes `amount` off: from all that was allowed, and from what is
    /// left of it. Nothing changes where one of the two is less than
    /// `amount`.
    pub fn decrease(&mut self, amount: u128) -> (r: StdResult<()>)
        ensures
            old(self).allowed_amount >= amount && old(self).remain_amount >= amount ==> r is Ok
                && final(self)@ == (AllowanceModel {
                allowed_amount: (old(self).allowed_amount - amount) as u128,
                remain_amount: (old(self).remain_amount - amount) as u128,
                ..old(self)@
            }),
            old(self).allowed_amount < amount || old(self).remain_amount < amount ==> (r matches Err(
                StdError::Overflow { source },
            )) && final(self)@ == old(self)@,
    {
        let allowed = match checked_sub(self.allowed_amount, amount) {
            Ok(v) => v,
            Err(source) => {
                return Err(StdError::Overflow { source });
            },
        };
        let remain = match checked_sub(self.remain_amount, amount) {
            Ok(v) => v,
            Err(source) => {
                return Err(StdError::Overflow { source });
            },
        };
        self.allowed_amount = allowed;
        self.remain_amount = remain;
        Ok(())
    }
}

} // verus!
