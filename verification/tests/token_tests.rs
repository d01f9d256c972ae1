use ft_ledger::ledger::MINIMUM_STORAGE_COST;
use ft_ledger::token::{CallbackOutcome, Contract};
use ft_ledger::Error;

const TOTAL_SUPPLY: u128 = 1_000_000_000_000_000;

fn new_contract(owner: &str) -> Contract {
    Contract::new_default_metadata(
        owner.to_string(),
        TOTAL_SUPPLY,
        "SonnyCoin".to_string(),
        "SCN".to_string(),
        24,
    )
}

#[test]
fn test_new() {
    let owner = "bob".to_string();
    let contract = new_contract("bob");
    assert_eq!(contract.total_supply(), TOTAL_SUPPLY);
    assert_eq!(contract.balance_of(&owner), TOTAL_SUPPLY);
}

#[test]
fn test_transfer() {
    let owner = "charlie".to_string();
    let other = "bob".to_string();
    let mut contract = new_contract("charlie");
    contract.token.register(&other, MINIMUM_STORAGE_COST).unwrap();

    let transfer_amount = TOTAL_SUPPLY / 3;
    contract
        .transfer(&owner, &other, transfer_amount, None)
        .unwrap();

    assert_eq!(contract.balance_of(&owner), TOTAL_SUPPLY - transfer_amount);
    assert_eq!(contract.balance_of(&other), transfer_amount);
}

#[test]
fn metadata_defaults() {
    let contract = new_contract("alice");
    let m = contract.metadata();
    assert_eq!(m.name, "SonnyCoin");
    assert_eq!(m.symbol, "SCN");
    assert_eq!(m.decimals, 24);
    assert_eq!(m.spec_version, "ft-1.0.0");
    assert!(m.icon.is_none());
    assert!(m.reference.is_none());
    assert!(m.reference_hash.is_none());
}

#[test]
fn transfer_rejects_zero_amount() {
    let owner = "alice".to_string();
    let other = "bob".to_string();
    let mut contract = new_contract("alice");
    contract.token.register(&other, MINIMUM_STORAGE_COST).unwrap();
    assert_eq!(
        contract.transfer(&owner, &other, 0, None),
        Err(Error::ZeroAmount)
    );
    assert_eq!(contract.balance_of(&owner), TOTAL_SUPPLY);
}

#[test]
fn transfer_rejects_self_transfer() {
    let owner = "alice".to_string();
    let mut contract = new_contract("alice");
    assert_eq!(
        contract.transfer(&owner, &owner, 5, None),
        Err(Error::SelfTransfer)
    );
}

#[test]
fn transfer_rejects_insufficient_balance() {
    let owner = "alice".to_string();
    let other = "bob".to_string();
    let mut contract = new_contract("alice");
    contract.token.register(&other, MINIMUM_STORAGE_COST).unwrap();
    assert_eq!(
        contract.transfer(&other, &owner, 1, None),
        Err(Error::InsufficientBalance)
    );
    assert_eq!(
        contract.transfer(&owner, &other, TOTAL_SUPPLY + 1, None),
        Err(Error::InsufficientBalance)
    );
}

#[test]
fn transfer_rejects_unregistered_receiver() {
    let owner = "alice".to_string();
    let other = "bob".to_string();
    let mut contract = new_contract("alice");
    assert_eq!(
        contract.transfer(&owner, &other, 5, None),
        Err(Error::ReceiverNotRegistered)
    );
    assert_eq!(contract.balance_of(&owner), TOTAL_SUPPLY);
}

#[test]
fn transfer_and_call_partial_refund() {
    let owner = "alice".to_string();
    let app = "app".to_string();
    let mut contract = new_contract("alice");
    contract.token.register(&app, MINIMUM_STORAGE_COST).unwrap();

    let pending = contract
        .transfer_and_call(&owner, &app, 1_000, None, "pay".to_string())
        .unwrap();
    assert_eq!(pending.sender, "alice");
    assert_eq!(pending.receiver, "app");
    assert_eq!(pending.amount, 1_000);
    assert_eq!(pending.message, "pay");
    // phase one is committed and visible before resolution
    assert_eq!(contract.balance_of(&app), 1_000);

    // the receiver accepts 700 and declares 300 unused
    let res = contract.resolve_transfer(&pending, CallbackOutcome::Declared(300));
    assert_eq!(res.refunded, 300);
    assert_eq!(res.forfeited, 0);
    assert_eq!(contract.balance_of(&app), 700);
    assert_eq!(contract.balance_of(&owner), TOTAL_SUPPLY - 700);
    assert_eq!(contract.total_supply(), TOTAL_SUPPLY);
}

#[test]
fn transfer_and_call_failed_callback_refunds_all() {
    let owner = "alice".to_string();
    let app = "app".to_string();
    let mut contract = new_contract("alice");
    contract.token.register(&app, MINIMUM_STORAGE_COST).unwrap();

    let pending = contract
        .transfer_and_call(&owner, &app, 1_000, None, String::new())
        .unwrap();
    let res = contract.resolve_transfer(&pending, CallbackOutcome::Failed);
    assert_eq!(res.refunded, 1_000);
    assert_eq!(contract.balance_of(&app), 0);
    assert_eq!(contract.balance_of(&owner), TOTAL_SUPPLY);
    assert_eq!(contract.total_supply(), TOTAL_SUPPLY);
}

#[test]
fn transfer_and_call_malformed_declaration_counts_as_full() {
    let owner = "alice".to_string();
    let app = "app".to_string();
    let mut contract = new_contract("alice");
    contract.token.register(&app, MINIMUM_STORAGE_COST).unwrap();

    let pending = contract
        .transfer_and_call(&owner, &app, 100, None, String::new())
        .unwrap();
    // declaring more than was transferred is clamped to the full amount
    let res = contract.resolve_transfer(&pending, CallbackOutcome::Declared(250));
    assert_eq!(res.refunded, 100);
    assert_eq!(contract.balance_of(&app), 0);
}

#[test]
fn transfer_and_call_refund_clamped_to_receiver_balance() {
    let owner = "alice".to_string();
    let app = "app".to_string();
    let sink = "sink".to_string();
    let mut contract = new_contract("alice");
    contract.token.register(&app, MINIMUM_STORAGE_COST).unwrap();
    contract.token.register(&sink, MINIMUM_STORAGE_COST).unwrap();

    let pending = contract
        .transfer_and_call(&owner, &app, 1_000, None, String::new())
        .unwrap();
    // the receiver spends most of it while the call is in flight
    contract.transfer(&app, &sink, 900, None).unwrap();

    let res = contract.resolve_transfer(&pending, CallbackOutcome::Failed);
    assert_eq!(res.refunded, 100);
    assert_eq!(contract.balance_of(&app), 0);
    assert_eq!(contract.balance_of(&owner), TOTAL_SUPPLY - 900);
    assert_eq!(contract.total_supply(), TOTAL_SUPPLY);
}

#[test]
fn transfer_and_call_sender_gone_forfeits_refund() {
    let owner = "alice".to_string();
    let app = "app".to_string();
    let mut contract = new_contract("alice");
    contract.token.register(&app, MINIMUM_STORAGE_COST).unwrap();

    let pending = contract
        .transfer_and_call(&owner, &app, TOTAL_SUPPLY, None, String::new())
        .unwrap();
    // the sender closes its account while the call is in flight
    let (closed, _refund) = contract.token.unregister(&owner, false).unwrap();
    assert!(closed);

    let res = contract.resolve_transfer(&pending, CallbackOutcome::Declared(400));
    assert_eq!(res.refunded, 0);
    assert_eq!(res.forfeited, 400);
    // the unused amount stays with the receiver; the supply is untouched
    assert_eq!(contract.balance_of(&app), TOTAL_SUPPLY);
    assert_eq!(contract.total_supply(), TOTAL_SUPPLY);
}

#[test]
fn maximum_supply_moves_and_burns() {
    let owner = "owner".to_string();
    let b = "b".to_string();
    let mut contract = Contract::new_default_metadata(
        owner.clone(),
        u128::MAX,
        "SonnyCoin".to_string(),
        "SCN".to_string(),
        24,
    );
    contract.token.register(&b, MINIMUM_STORAGE_COST).unwrap();
    contract.transfer(&owner, &b, u128::MAX, None).unwrap();
    assert_eq!(contract.balance_of(&b), u128::MAX);
    assert_eq!(contract.balance_of(&owner), 0);
    let (closed, _refund) = contract.token.unregister(&b, true).unwrap();
    assert!(closed);
    assert_eq!(contract.total_supply(), 0);
}

#[test]
fn end_to_end_supply_conserved() {
    let owner = "owner".to_string();
    let b = "b".to_string();
    let mut contract = Contract::new_default_metadata(
        owner.clone(),
        1_000_000_000_000_000,
        "SonnyCoin".to_string(),
        "SCN".to_string(),
        24,
    );
    let refund = contract.token.register(&b, MINIMUM_STORAGE_COST).unwrap();
    assert_eq!(refund, 0);
    contract
        .transfer(&owner, &b, 300_000_000_000_000, None)
        .unwrap();
    assert_eq!(contract.balance_of(&owner), 700_000_000_000_000);
    assert_eq!(contract.balance_of(&b), 300_000_000_000_000);
    assert_eq!(contract.total_supply(), 1_000_000_000_000_000);
}
