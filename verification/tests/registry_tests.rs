use ft_ledger::ledger::{Ledger, MINIMUM_STORAGE_COST};
use ft_ledger::token::Contract;
use ft_ledger::Error;

#[test]
fn register_rejects_short_deposit() {
    let mut ledger = Ledger::new();
    let a = "alice".to_string();
    assert_eq!(
        ledger.register(&a, MINIMUM_STORAGE_COST - 1),
        Err(Error::InsufficientDeposit)
    );
    assert!(!ledger.is_registered(&a));
}

#[test]
fn register_refunds_excess() {
    let mut ledger = Ledger::new();
    let a = "alice".to_string();
    let refund = ledger.register(&a, MINIMUM_STORAGE_COST + 17).unwrap();
    assert_eq!(refund, 17);
    assert!(ledger.is_registered(&a));
    assert_eq!(ledger.balance_of(&a), 0);
}

#[test]
fn register_twice_is_a_noop_with_full_refund() {
    let mut ledger = Ledger::new();
    let a = "alice".to_string();
    ledger.register(&a, MINIMUM_STORAGE_COST).unwrap();
    let refund = ledger.register(&a, 5).unwrap();
    assert_eq!(refund, 5);
    assert!(ledger.is_registered(&a));
}

#[test]
fn registered_with_zero_is_not_unregistered() {
    let mut ledger = Ledger::new();
    let a = "alice".to_string();
    let b = "bob".to_string();
    ledger.register(&a, MINIMUM_STORAGE_COST).unwrap();
    assert_eq!(ledger.balance_of(&a), 0);
    assert_eq!(ledger.balance_of(&b), 0);
    assert!(ledger.is_registered(&a));
    assert!(!ledger.is_registered(&b));
}

#[test]
fn unregister_of_unknown_account_reports_not_closed() {
    let mut ledger = Ledger::new();
    let a = "alice".to_string();
    assert_eq!(ledger.unregister(&a, false), Ok((false, 0)));
}

#[test]
fn unregister_refuses_nonzero_balance_without_force() {
    let owner = "owner".to_string();
    let mut contract = Contract::new_default_metadata(
        owner.clone(),
        1_000,
        "SonnyCoin".to_string(),
        "SCN".to_string(),
        24,
    );
    assert_eq!(
        contract.token.unregister(&owner, false),
        Err(Error::NonZeroBalance)
    );
    assert!(contract.token.is_registered(&owner));
    assert_eq!(contract.balance_of(&owner), 1_000);
}

#[test]
fn forced_unregister_burns_balance() {
    let owner = "owner".to_string();
    let b = "b".to_string();
    let mut contract = Contract::new_default_metadata(
        owner.clone(),
        1_000,
        "SonnyCoin".to_string(),
        "SCN".to_string(),
        24,
    );
    contract.token.register(&b, MINIMUM_STORAGE_COST).unwrap();
    contract.transfer(&owner, &b, 400, None).unwrap();

    let (closed, refund) = contract.token.unregister(&b, true).unwrap();
    assert!(closed);
    assert_eq!(refund, MINIMUM_STORAGE_COST);
    assert!(!contract.token.is_registered(&b));
    // the burned balance leaves the supply; the owner's share is untouched
    assert_eq!(contract.total_supply(), 600);
    assert_eq!(contract.balance_of(&owner), 600);
    assert_eq!(contract.balance_of(&b), 0);
}
