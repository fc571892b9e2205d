use vstd::prelude::*;
use vstd::string::*;
use crate::common::Env;
use crate::errors::{checked_sub, ErrorModel, Kind, OverflowError, OverflowOperation, StdError, StdResult};
use crate::storage::{no_text, poll_key};
use crate::store::{duplicate_text, put, text_of, Bucket, Duplicate, Record, StoreKey};
use crate::utils::{decimal_text, u128_to_string};

verus! {

/// The supply of the token as it stood from a block on.
#[derive(Clone, Copy, Debug, PartialEq, Eq, Structural)]
pub struct SupplyRecord {
    pub height: u64,
    pub total_supply: u128,
}

impl View for SupplyRecord {
    type V = SupplyRecord;

    open spec fn view(&self) -> SupplyRecord {
        *self
    }
}

impl Duplicate for SupplyRecord {
    fn duplicate(&self) -> (r: Self) {
        *self
    }
}

impl Record for SupplyRecord {
    open spec fn key_of(m: SupplyRecord) -> StoreKey {
        poll_key(m.height)
    }

    open spec fn valid(m: SupplyRecord) -> bool {
        true
    }

    fn key_num(&self) -> (n: u64) {
        self.height
    }

    fn key_text(&self) -> (t: &str) {
        no_text()
    }
}

/// Who runs the token, and which contract governs with it.
#[derive(Debug, PartialEq, Eq)]
pub struct Config {
    pub admin: String,
    pub governance: String,
}

/// The model of a [`Config`].
pub ghost struct ConfigModel {
    pub admin: Seq<char>,
    pub governance: Seq<char>,
}

impl View for Config {
    type V = ConfigModel;

    open spec fn view(&self) -> ConfigModel {
        ConfigModel { admin: self.admin@, governance: self.governance@ }
    }
}

impl Duplicate for Config {
    fn duplicate(&self) -> (r: Self) {
        Config { admin: self.admin.clone(), governance: self.governance.clone() }
    }
}

/// What the token keeps between calls, its balances apart.
#[derive(Debug)]
pub struct Storage {
    pub config: Option<Config>,
    pub admin_nominee: Option<String>,
    /// The supply, by the block from which on it stood.
    pub total_supply_history: Bucket<SupplyRecord>,
}

/// The model of the [`Storage`] of the token.
pub ghost struct StorageModel {
    pub config: Option<ConfigModel>,
    pub admin_nominee: Option<Seq<char>>,
    pub total_supply_history: Seq<SupplyRecord>,
}

impl View for Storage {
    type V = StorageModel;

    open spec fn view(&self) -> StorageModel {
        StorageModel {
            config: match self.config {
                Some(c) => Some(c@),
                None => None,
            },
            admin_nominee: text_of(self.admin_nominee),
            total_supply_history: self.total_supply_history@,
        }
    }
}

impl Storage {
    /// The history of the supply is in the order of its blocks.
    pub open spec fn wf(&self) -> bool {
        self.total_supply_history.wf()
    }

    /// The storage of a token that has not been set up.
    pub fn new() -> (s: Storage)
        ensures
            s.wf(),
            s@ == (StorageModel {
                config: None,
                admin_nominee: None,
                total_supply_history: Seq::empty(),
            }),
    {
        Storage { config: None, admin_nominee: None, total_supply_history: Bucket::new() }
    }
}

/// Records that the supply is `total_supply` from the block of `env` on.
pub fn capture_total_supply_history(storage: &mut Storage, env: &Env, total_supply: u128) -> (r:
    StdResult<()>)
    requires
        old(storage).wf(),
    ensures
        r is Ok,
        final(storage).wf(),
        final(storage)@ == (StorageModel {
            total_supply_history: put::<SupplyRecord>(
                old(storage)@.total_supply_history,
                SupplyRecord { height: env.block.height, total_supply },
            ),
            ..old(storage)@
        }),
{
    storage.total_supply_history.put(SupplyRecord { height: env.block.height, total_supply });
    Ok(())
}

/// The supply at the block `block`: what the last record at or before
/// that block says, and nothing where there is none.
pub open spec fn supply_at(history: Seq<SupplyRecord>, block: u64) -> u128
    decreases history.len(),
{
    if history.len() == 0 {
        0
    } else if history.last().height <= block {
        history.last().total_supply
    } else {
        supply_at(history.drop_last(), block)
    }
}

/// The supply of the token at the block `block`.
pub fn get_total_supply_at(storage: &Storage, block: u64) -> (r: StdResult<u128>)
    ensures
        r == Ok::<u128, StdError>(supply_at(storage@.total_supply_history, block)),
{
    let ghost history = storage@.total_supply_history;
    let mut i: usize = storage.total_supply_history.len();
    assert(history.take(i as int) =~= history);
    while i > 0
        invariant
            i <= history.len(),
            history == storage@.total_supply_history,
            supply_at(history, block) == supply_at(history.take(i as int), block),
        decreases i,
    {
        let record = storage.total_supply_history.at(i - 1);
        assert(history.take(i as int).last() == history[i - 1]);
        if record.height <= block {
            return Ok(record.total_supply);
        }
        assert(history.take(i as int).drop_last() =~= history.take(i - 1));
        i -= 1;
    }
    Ok(0)
}

impl Config {
    /// Stores this configuration in place of the one that was there.
    pub fn save(&self, storage: &mut Storage) -> (r: StdResult<()>)
        requires
            old(storage).wf(),
        ensures
            r is Ok,
            final(storage).wf(),
            final(storage)@ == (StorageModel { config: Some(self@), ..old(storage)@ }),
    {
        storage.config = Some(self.duplicate());
        Ok(())
    }

    /// The stored configuration.
    pub fn load(storage: &Storage) -> (r: StdResult<Config>)
        ensures
            match storage@.config {
                Some(c) => r matches Ok(v) && v@ == c,
                None => r matches Err(e) && e == (StdError::NotFound { kind: Kind::Config }),
            },
    {
        match &storage.config {
            Some(c) => Ok(c.duplicate()),
            None => Err(StdError::not_found(Kind::Config)),
        }
    }

    /// Whether `address` runs the token.
    pub fn is_admin(&self, address: &String) -> (b: bool)
        ensures
            b == (self.admin@ == address@),
    {
        self.admin == *address
    }

    /// Whether `address` is the contract that governs with the token.
    pub fn is_governance(&self, address: &String) -> (b: bool)
        ensures
            b == (self.governance@ == address@),
    {
        self.governance == *address
    }

    /// The address that is nominated to run the token, if one is.
    pub fn may_load_admin_nominee(storage: &Storage) -> (r: StdResult<Option<String>>)
        ensures
            r matches Ok(o) && text_of(o) == storage@.admin_nominee,
    {
        Ok(duplicate_text(&storage.admin_nominee))
    }

    /// Nominates `address` to run the token.
    pub fn save_admin_nominee(storage: &mut Storage, address: &String) -> (r: StdResult<()>)
        requires
            old(storage).wf(),
        ensures
            r is Ok,
            final(storage).wf(),
            final(storage)@ == (StorageModel { admin_nominee: Some(address@), ..old(storage)@ }),
    {
        storage.admin_nominee = Some(address.clone());
        Ok(())
    }
}

/// The sentence that says why a balance cannot be moved.
pub open spec fn locked_message(balance: u128, locked: u128, available: u128) -> Seq<char> {
    "your balance locked in governance contract. (total balance: "@ + decimal_text(balance as nat)
        + ", locked: "@ + decimal_text(locked as nat) + ", available: "@ + decimal_text(
        available as nat,
    ) + ")"@
}

/// Whether `amount` can be moved out of a balance of `balance` of which
/// the votes of its holder lock `locked`. More than the balance may be
/// asked for: that fails where the balance is moved, not here. Of what
/// the balance covers, only what is not locked can go.
pub open spec fn available_balance_fault(balance: u128, locked: u128, amount: u128) -> Option<
    ErrorModel,
> {
    if balance < locked {
        Some(
            crate::errors::reason(
                StdError::Overflow {
                    source: OverflowError {
                        operation: OverflowOperation::Sub,
                        operand1: balance,
                        operand2: locked,
                    },
                },
            ),
        )
    } else if amount > balance || balance - locked >= amount {
        None
    } else {
        Some(ErrorModel::Text(locked_message(balance, locked, (balance - locked) as u128)))
    }
}

/// Checks that `amount` can be moved out of a balance of `balance` of
/// which `locked` is locked.
pub fn check_available_balance(balance: u128, locked: u128, amount: u128) -> (r: StdResult<()>)
    ensures
        match available_balance_fault(balance, locked, amount) {
            None => r is Ok,
            Some(e) => r matches Err(x) && x@ == e,
        },
{
    let available = match checked_sub(balance, locked) {
        Ok(v) => v,
        Err(source) => {
            return Err(StdError::Overflow { source });
        },
    };
    if amount > balance {
        Ok(())
    } else if available >= amount {
        Ok(())
    } else {
        let mut msg = String::from_str(
            "your balance locked in governance contract. (total balance: ",
        );
        msg.append(u128_to_string(balance).as_str());
        msg.append(", locked: ");
        msg.append(u128_to_string(locked).as_str());
        msg.append(", available: ");
        msg.append(u128_to_string(available).as_str());
        msg.append(")");
        assert(msg@ =~= locked_message(balance, locked, available));
        Err(StdError::GenericErr { msg })
    }
}

} // verus!
