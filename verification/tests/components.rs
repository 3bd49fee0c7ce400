use boscora::address::Address;
use boscora::auth::Authorization;
use boscora::ledger::{AssetLedger, LedgerError};
use boscora::ownable::{Ownable, OwnableError};
use boscora::payment::{PaymentRail, TransferError};
use boscora::store::RegistryStore;
use boscora::types::{DataKey, GeoCoordinates, HealthStatus};

#[test]
fn addresses_are_equal_by_their_text() {
    let a = Address::new("GABC");
    assert_eq!(a, Address::new("GABC"));
    assert_ne!(a, Address::new("GABD"));
    assert_ne!(a, Address::new("GAB"));
    assert_eq!(a.clone(), a);
    assert_eq!(a.as_str(), "GABC");
}

#[test]
fn authorization_permits_its_signers_only() {
    let a = Address::new("GA");
    let b = Address::new("GB");
    let c = Address::new("GC");
    assert!(!Authorization::none().permits(&a));
    let auth = Authorization::of(&a);
    assert!(auth.permits(&a));
    assert!(!auth.permits(&b));
    let auth = auth.and(&b);
    assert!(auth.permits(&a));
    assert!(auth.permits(&b));
    assert!(!auth.permits(&c));
}

#[test]
fn gate_is_bound_once() {
    let a = Address::new("GA");
    let b = Address::new("GB");
    let mut gate = Ownable::new();
    assert_eq!(gate.get_owner(), None);
    assert_eq!(gate.enforce_owner_auth(&Authorization::of(&a)), Err(OwnableError::OwnerNotSet));
    assert_eq!(gate.set_owner(&a), Ok(()));
    assert_eq!(gate.get_owner(), Some(a.clone()));
    assert_eq!(gate.set_owner(&b), Err(OwnableError::OwnerAlreadySet));
    assert_eq!(gate.get_owner(), Some(a.clone()));
    assert_eq!(gate.enforce_owner_auth(&Authorization::of(&a)), Ok(a.clone()));
    assert_eq!(gate.enforce_owner_auth(&Authorization::of(&b)), Err(OwnableError::Unauthorized));
    assert_eq!(gate.enforce_owner_auth(&Authorization::none()), Err(OwnableError::Unauthorized));
}

#[test]
fn rail_moves_exactly_the_amount() {
    let a = Address::new("GA");
    let b = Address::new("GB");
    let c = Address::new("GC");
    let mut rail = PaymentRail::new();
    assert_eq!(rail.balance(&a), 0);
    assert_eq!(rail.deposit(&a, 100), Ok(()));
    assert_eq!(rail.deposit(&c, 5), Ok(()));
    let auth = Authorization::of(&a);
    assert_eq!(rail.check_transfer(&auth, &a, &b, 30), None);
    assert_eq!(rail.balance(&a), 100);
    assert_eq!(rail.transfer(&auth, &a, &b, 30), Ok(()));
    assert_eq!(rail.balance(&a), 70);
    assert_eq!(rail.balance(&b), 30);
    assert_eq!(rail.balance(&c), 5);
    assert_eq!(rail.transfer(&auth, &a, &b, 70), Ok(()));
    assert_eq!(rail.balance(&a), 0);
    assert_eq!(rail.balance(&b), 100);
    assert_eq!(rail.transfer(&auth, &a, &b, 0), Ok(()));
    assert_eq!(rail.transfer(&auth, &a, &a, 0), Ok(()));
    assert_eq!(rail.balance(&a), 0);
}

#[test]
fn rail_refuses_in_order_and_changes_nothing() {
    let a = Address::new("GA");
    let b = Address::new("GB");
    let mut rail = PaymentRail::new();
    rail.deposit(&a, 100).unwrap();
    rail.deposit(&b, i128::MAX).unwrap();
    let none = Authorization::none();
    let auth = Authorization::of(&a);

    assert_eq!(rail.transfer(&none, &a, &b, -1), Err(TransferError::NegativeAmount));
    assert_eq!(rail.transfer(&none, &a, &b, 101), Err(TransferError::Unauthorized));
    assert_eq!(rail.transfer(&Authorization::of(&b), &a, &b, 1), Err(TransferError::Unauthorized));
    assert_eq!(rail.transfer(&auth, &a, &b, 101), Err(TransferError::InsufficientBalance));
    assert_eq!(rail.transfer(&auth, &a, &b, 1), Err(TransferError::BalanceOverflow));
    assert_eq!(rail.check_transfer(&auth, &a, &b, 1), Some(TransferError::BalanceOverflow));
    assert_eq!(rail.check_transfer(&auth, &a, &b, 101), Some(TransferError::InsufficientBalance));
    assert_eq!(rail.check_transfer(&none, &a, &b, 1), Some(TransferError::Unauthorized));
    assert_eq!(rail.check_transfer(&none, &a, &b, -1), Some(TransferError::NegativeAmount));
    // Paying oneself cannot overflow.
    assert_eq!(rail.transfer(&Authorization::of(&b), &b, &b, i128::MAX), Ok(()));
    assert_eq!(rail.balance(&a), 100);
    assert_eq!(rail.balance(&b), i128::MAX);

    assert_eq!(rail.deposit(&a, -1), Err(TransferError::NegativeAmount));
    assert_eq!(rail.deposit(&b, 1), Err(TransferError::BalanceOverflow));
    assert_eq!(rail.deposit(&b, 0), Ok(()));
    assert_eq!(rail.balance(&a), 100);
    assert_eq!(rail.balance(&b), i128::MAX);
}

#[test]
fn ledger_records_holders() {
    let a = Address::new("GA");
    let b = Address::new("GB");
    let mut ledger = AssetLedger::new();
    assert_eq!(ledger.name(), None);
    assert_eq!(ledger.symbol(), None);
    assert_eq!(ledger.base_uri(), None);
    ledger.set_metadata("ipfs://c", "Name", "SYM");
    assert_eq!(ledger.name(), Some(String::from("Name")));
    assert_eq!(ledger.symbol(), Some(String::from("SYM")));
    assert_eq!(ledger.base_uri(), Some(String::from("ipfs://c")));
    assert!(!ledger.is_minted(1));
    assert_eq!(ledger.owner_of(1), Err(LedgerError::NonExistentToken));
    ledger.mint(&a, 1);
    ledger.mint(&b, 2);
    assert!(ledger.is_minted(1));
    assert_eq!(ledger.owner_of(1), Ok(a));
    assert_eq!(ledger.owner_of(2), Ok(b));
    assert_eq!(ledger.owner_of(3), Err(LedgerError::NonExistentToken));
}

#[test]
fn store_keeps_each_key_apart() {
    let mut store = RegistryStore::new();
    let keys = [
        DataKey::OracleContract,
        DataKey::Geo(1),
        DataKey::MaxParcels,
        DataKey::PaymentToken,
        DataKey::Price,
    ];
    for k in keys.iter() {
        assert!(!store.has(k));
    }
    assert_eq!(store.oracle(), None);
    assert_eq!(store.max_parcels(), None);
    assert_eq!(store.payment_token(), None);
    assert_eq!(store.price(), None);
    assert_eq!(store.geo(1), None);

    store.set_oracle(&Address::new("CORACLE"));
    assert!(store.has(&DataKey::OracleContract));
    assert!(!store.has(&DataKey::PaymentToken));
    store.set_max_parcels(500);
    store.set_payment_token(&Address::new("CPAYMENT"));
    store.set_price(500_000_000);
    store.set_geo(1, GeoCoordinates { latitude: -34, longitude: -58 });
    for k in keys.iter() {
        assert!(store.has(k));
    }
    assert!(!store.has(&DataKey::Geo(2)));
    assert_eq!(store.oracle(), Some(Address::new("CORACLE")));
    assert_eq!(store.max_parcels(), Some(500));
    assert_eq!(store.payment_token(), Some(Address::new("CPAYMENT")));
    assert_eq!(store.price(), Some(500_000_000));
    assert_eq!(store.geo(1), Some(GeoCoordinates { latitude: -34, longitude: -58 }));
    assert_eq!(store.geo(2), None);
}

#[test]
fn growth_stages_are_numbered_in_order() {
    let stages = [
        HealthStatus::Germinating,
        HealthStatus::Sprouted,
        HealthStatus::ReadyForTransplant,
        HealthStatus::Planted,
    ];
    for (i, s) in stages.iter().enumerate() {
        assert_eq!(s.stage(), i as u32);
        assert_eq!(HealthStatus::from_stage(i as u32), Some(*s));
    }
    assert_eq!(HealthStatus::from_stage(4), None);
    assert_eq!(HealthStatus::from_stage(u32::MAX), None);
}
