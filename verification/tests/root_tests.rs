use ft_ledger::ledger::MINIMUM_STORAGE_COST;
use ft_ledger::metadata::Metadata;
use ft_ledger::root::ContractRoot;
use ft_ledger::Error;

fn default_metadata() -> Metadata {
    Metadata::new_default("SonnyCoin".to_string(), "SCN".to_string(), 24)
}

#[test]
fn entrypoints_fail_before_initialization() {
    let mut root = ContractRoot::new();
    let a = "alice".to_string();
    let b = "bob".to_string();
    assert!(!root.is_initialized());
    assert_eq!(root.balance_of(&a), Err(Error::NotInitialized));
    assert_eq!(root.total_supply(), Err(Error::NotInitialized));
    assert_eq!(
        root.register(&a, MINIMUM_STORAGE_COST),
        Err(Error::NotInitialized)
    );
    assert_eq!(root.unregister(&a, true), Err(Error::NotInitialized));
    assert_eq!(
        root.transfer(&a, &b, 5, None),
        Err(Error::NotInitialized)
    );
    assert!(root.metadata().is_err());
}

#[test]
fn init_runs_once() {
    let mut root = ContractRoot::new();
    let owner = "owner".to_string();
    assert_eq!(root.init(owner.clone(), 1_000, default_metadata()), Ok(()));
    assert!(root.is_initialized());
    assert_eq!(root.total_supply(), Ok(1_000));
    assert_eq!(root.balance_of(&owner), Ok(1_000));
    assert_eq!(
        root.init(owner.clone(), 1_000, default_metadata()),
        Err(Error::AlreadyInitialized)
    );
    assert_eq!(root.total_supply(), Ok(1_000));
}

#[test]
fn root_round_trip() {
    let mut root = ContractRoot::new();
    let owner = "owner".to_string();
    let b = "b".to_string();
    root.init(owner.clone(), 10_000, default_metadata()).unwrap();
    root.register(&b, MINIMUM_STORAGE_COST).unwrap();
    root.transfer(&owner, &b, 2_500, None).unwrap();

    let pending = root
        .transfer_and_call(&owner, &b, 1_000, None, "hi".to_string())
        .unwrap();
    let res = root
        .resolve_transfer(&pending, ft_ledger::token::CallbackOutcome::Declared(250))
        .unwrap();
    assert_eq!(res.refunded, 250);
    assert_eq!(root.balance_of(&b), Ok(2_500 + 750));
    assert_eq!(root.balance_of(&owner), Ok(10_000 - 2_500 - 750));
    assert_eq!(root.total_supply(), Ok(10_000));
    assert_eq!(root.metadata().unwrap().symbol, "SCN");
}
