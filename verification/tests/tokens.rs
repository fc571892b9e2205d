use terrapoker::common::{attr, BlockInfo, Call, ContractInfo, Env, MessageInfo, OrderBy, SubMsg};
use terrapoker::community::states::{
    Allowance, BalanceResponse, ContractConfig, ContractState, Storage as FundStorage,
};
use terrapoker::errors::{ContractError, Kind, OverflowError, OverflowOperation, StdError};
use terrapoker::xtpt::executions::{approve_admin_nominee, mint, update_config};
use terrapoker::xtpt::queries::{query_available_balance, query_config, AvailableBalanceMsg};
use terrapoker::xtpt::state::{
    capture_total_supply_history, check_available_balance, get_total_supply_at, Config,
    Storage as TokenStorage,
};

fn env_at(height: u64) -> Env {
    Env { block: BlockInfo { height }, contract: ContractInfo { address: "token".to_string() } }
}

fn info(sender: &str) -> MessageInfo {
    MessageInfo { sender: sender.to_string() }
}

fn sub_overflow(a: u128, b: u128) -> StdError {
    StdError::Overflow {
        source: OverflowError { operation: OverflowOperation::Sub, operand1: a, operand2: b },
    }
}

#[test]
fn supply_history_answers_for_every_block() {
    let mut storage = TokenStorage::new();
    assert_eq!(get_total_supply_at(&storage, 5), Ok(0));
    capture_total_supply_history(&mut storage, &env_at(20), 200).unwrap();
    capture_total_supply_history(&mut storage, &env_at(10), 100).unwrap();
    capture_total_supply_history(&mut storage, &env_at(30), 50).unwrap();
    capture_total_supply_history(&mut storage, &env_at(20), 250).unwrap();
    assert_eq!(get_total_supply_at(&storage, 9), Ok(0));
    assert_eq!(get_total_supply_at(&storage, 10), Ok(100));
    assert_eq!(get_total_supply_at(&storage, 19), Ok(100));
    assert_eq!(get_total_supply_at(&storage, 20), Ok(250));
    assert_eq!(get_total_supply_at(&storage, 29), Ok(250));
    assert_eq!(get_total_supply_at(&storage, 30), Ok(50));
    assert_eq!(get_total_supply_at(&storage, u64::MAX), Ok(50));
}

#[test]
fn locked_balance_cannot_be_moved() {
    assert_eq!(check_available_balance(100, 40, 60), Ok(()));
    assert_eq!(check_available_balance(100, 40, 0), Ok(()));
    // more than the balance is let through: it fails where the balance is moved
    assert_eq!(check_available_balance(100, 40, 101), Ok(()));
    assert_eq!(
        check_available_balance(100, 40, 61),
        Err(StdError::GenericErr {
            msg: "your balance locked in governance contract. (total balance: 100, locked: 40, available: 60)"
                .to_string()
        })
    );
    assert_eq!(check_available_balance(10, 11, 1), Err(sub_overflow(10, 11)));
    assert_eq!(
        query_available_balance(100, 40),
        Ok(AvailableBalanceMsg { total: 100, locked: 40, available: 60 })
    );
    assert_eq!(query_available_balance(1, 2), Err(sub_overflow(1, 2)));
}

#[test]
fn token_admin_is_handed_over_by_nomination() {
    let mut storage = TokenStorage::new();
    assert_eq!(query_config(&storage), Err(StdError::NotFound { kind: Kind::Config }));
    Config { admin: "admin".to_string(), governance: "gov".to_string() }
        .save(&mut storage)
        .unwrap();
    let config = Config::load(&storage).unwrap();
    assert!(config.is_admin(&"admin".to_string()));
    assert!(!config.is_admin(&"gov".to_string()));
    assert!(config.is_governance(&"gov".to_string()));

    let refused =
        update_config(&mut storage, env_at(1), info("other"), Some("next".to_string()), None);
    assert_eq!(refused, Err(ContractError::Unauthorized {}));
    assert_eq!(
        approve_admin_nominee(&mut storage, env_at(1), info("next")),
        Err(ContractError::Unauthorized {})
    );

    let response = update_config(
        &mut storage,
        env_at(1),
        info("admin"),
        Some("next".to_string()),
        Some("gov2".to_string()),
    )
    .unwrap();
    assert_eq!(
        response.attributes,
        vec![
            attr("action", "update_config"),
            attr("is_updated_admin_nominee", "true"),
            attr("is_updated_governance", "true"),
        ]
    );
    let config = query_config(&storage).unwrap();
    assert_eq!(config.admin, "admin");
    assert_eq!(config.governance, "gov2");
    assert_eq!(Config::may_load_admin_nominee(&storage), Ok(Some("next".to_string())));

    let wrong = approve_admin_nominee(&mut storage, env_at(1), info("admin"));
    assert_eq!(wrong.unwrap_err().to_string(), "It is not admin nominee");
    let response = approve_admin_nominee(&mut storage, env_at(1), info("next")).unwrap();
    assert_eq!(
        response.attributes,
        vec![attr("action", "approve_admin_nominee"), attr("is_updated_admin", "true")]
    );
    assert_eq!(Config::load(&storage).unwrap().admin, "next");
}

#[test]
fn governance_mints_through_the_token_itself() {
    let response = mint(env_at(1), info("gov"), "staker".to_string(), 12).unwrap();
    assert_eq!(
        response.messages,
        vec![SubMsg::new("token", Call::Mint { recipient: "staker".to_string(), amount: 12 })]
    );
    assert_eq!(response.attributes, vec![attr("action", "mint"), attr("amount", "12")]);
}

#[test]
fn allowances_go_up_and_down() {
    let mut allowance = Allowance::default(&"a".to_string());
    assert_eq!((allowance.allowed_amount, allowance.remain_amount), (0, 0));
    allowance.increase(100).unwrap();
    allowance.decrease(30).unwrap();
    assert_eq!((allowance.allowed_amount, allowance.remain_amount), (70, 70));
    assert_eq!(allowance.decrease(71), Err(sub_overflow(70, 71)));
    assert_eq!((allowance.allowed_amount, allowance.remain_amount), (70, 70));
    allowance.remain_amount = 10;
    assert_eq!(allowance.decrease(11), Err(sub_overflow(10, 11)));
    assert_eq!((allowance.allowed_amount, allowance.remain_amount), (70, 10));
    assert!(allowance.increase(u128::MAX).is_err());
    assert_eq!((allowance.allowed_amount, allowance.remain_amount), (70, 10));
}

#[test]
fn allowances_are_stored_while_something_is_left() {
    let mut storage = FundStorage::new();
    for (address, amount) in [("c", 3u128), ("a", 1), ("b", 2)] {
        let mut allowance = Allowance::load_or_default(&storage, &address.to_string()).unwrap();
        allowance.increase(amount).unwrap();
        allowance.save_or_delete(&mut storage).unwrap();
    }
    let addresses = |storage: &FundStorage, after: Option<&str>, order: Option<OrderBy>| {
        Allowance::query(storage, after.map(|a| a.to_string()), None, order)
            .unwrap()
            .allowances
            .iter()
            .map(|a| (a.address.clone(), a.remain_amount))
            .collect::<Vec<(String, u128)>>()
    };
    assert_eq!(
        addresses(&storage, None, Some(OrderBy::Asc)),
        vec![("a".to_string(), 1), ("b".to_string(), 2), ("c".to_string(), 3)]
    );
    assert_eq!(addresses(&storage, Some("c"), None), vec![("b".to_string(), 2), ("a".to_string(), 1)]);

    let mut b = Allowance::load(&storage, &"b".to_string()).unwrap();
    b.decrease(2).unwrap();
    b.save_or_delete(&mut storage).unwrap();
    assert_eq!(Allowance::may_load(&storage, &"b".to_string()), Ok(None));
    assert_eq!(
        Allowance::load(&storage, &"b".to_string()),
        Err(StdError::NotFound { kind: Kind::Allowance })
    );
    let a = Allowance::load(&storage, &"a".to_string()).unwrap();
    a.delete(&mut storage);
    assert_eq!(addresses(&storage, None, Some(OrderBy::Asc)), vec![("c".to_string(), 3)]);
}

#[test]
fn fund_balance_is_what_is_not_promised() {
    let mut storage = FundStorage::new();
    assert_eq!(ContractState::load(&storage), Err(StdError::NotFound { kind: Kind::ContractState }));
    ContractState { remain_allowance_amount: 40 }.save(&mut storage).unwrap();
    let state = ContractState::load(&storage).unwrap();
    assert_eq!(
        state.load_balance(100),
        Ok(BalanceResponse { total_balance: 100, allowance_amount: 40, free_balance: 60 })
    );
    assert_eq!(state.load_balance(39), Err(sub_overflow(39, 40)));

    ContractConfig { admin: "admin".to_string(), managing_token: "token".to_string() }
        .save(&mut storage)
        .unwrap();
    let config = ContractConfig::load(&storage).unwrap();
    assert!(config.is_admin(&"admin".to_string()));
    assert!(!config.is_admin(&"token".to_string()));
    assert_eq!(ContractConfig::may_load_admin_nominee(&storage), Ok(None));
    ContractConfig::save_admin_nominee(&mut storage, &"next".to_string()).unwrap();
    assert_eq!(ContractConfig::may_load_admin_nominee(&storage), Ok(Some("next".to_string())));
}
