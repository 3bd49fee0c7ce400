use boscora::address::Address;
use boscora::auth::Authorization;
use boscora::errors::ContractErrors;
use boscora::nft::{check_request, missing_field, total_due, BoscoraNFT, MintError};
use boscora::oracle::ImpactOracle;
use boscora::ownable::Ownable;
use boscora::payment::{PaymentRail, TransferError};
use boscora::store::RegistryStore;
use boscora::types::{GeoCoordinates, ParcelRequest};

fn request(token_id: u32) -> ParcelRequest {
    ParcelRequest { token_id, geo: GeoCoordinates { latitude: 0, longitude: 0 } }
}

fn gate(admin: Option<&Address>) -> Ownable {
    let mut gate = Ownable::new();
    if let Some(a) = admin {
        gate.set_owner(a).unwrap();
    }
    gate
}

fn store(max_parcels: Option<u32>, payment_token: bool, price: Option<i128>) -> RegistryStore {
    let mut store = RegistryStore::new();
    if let Some(m) = max_parcels {
        store.set_max_parcels(m);
    }
    if payment_token {
        store.set_payment_token(&Address::new("CPAYMENT"));
    }
    if let Some(p) = price {
        store.set_price(p);
    }
    store
}

#[test]
fn missing_configuration_is_reported_field_by_field() {
    let admin = Address::new("GADMIN");
    let investor = Address::new("GINVESTOR");
    let auth = Authorization::of(&investor);
    let cases = [
        (None, false, false, None, ContractErrors::MaxParcelsNotSet),
        (None, true, true, Some(5), ContractErrors::MaxParcelsNotSet),
        (Some(10), false, false, None, ContractErrors::OwnerNotSet),
        (Some(10), false, true, Some(5), ContractErrors::OwnerNotSet),
        (Some(10), true, false, None, ContractErrors::PaymentTokenNotSet),
        (Some(10), true, false, Some(5), ContractErrors::PaymentTokenNotSet),
        (Some(10), true, true, None, ContractErrors::PriceNotSet),
    ];
    for (max_parcels, owner, token, price, expected) in cases {
        let mut rail = PaymentRail::new();
        rail.deposit(&investor, 100).unwrap();
        let mut nft = BoscoraNFT::assemble(
            gate(if owner { Some(&admin) } else { None }),
            store(max_parcels, token, price),
        );
        assert_eq!(nft.load_config().err(), Some(expected));
        assert_eq!(nft.ledger().name(), None);
        let r = nft.mint(&auth, &mut rail, &investor, &vec![request(1)]);
        assert_eq!(r, Err(MintError::Contract(expected)));
        assert!(nft.events().is_empty());
        assert_eq!(rail.balance(&investor), 100);
    }
}

#[test]
fn first_missing_field_is_named() {
    assert_eq!(missing_field(false, false, false, false), Some(ContractErrors::MaxParcelsNotSet));
    assert_eq!(missing_field(false, true, true, true), Some(ContractErrors::MaxParcelsNotSet));
    assert_eq!(missing_field(true, false, false, false), Some(ContractErrors::OwnerNotSet));
    assert_eq!(missing_field(true, false, true, true), Some(ContractErrors::OwnerNotSet));
    assert_eq!(missing_field(true, true, false, false), Some(ContractErrors::PaymentTokenNotSet));
    assert_eq!(missing_field(true, true, false, true), Some(ContractErrors::PaymentTokenNotSet));
    assert_eq!(missing_field(true, true, true, false), Some(ContractErrors::PriceNotSet));
    assert_eq!(missing_field(true, true, true, true), None);
}

#[test]
fn complete_configuration_loads() {
    let admin = Address::new("GADMIN");
    let nft = BoscoraNFT::new(&admin, &Address::new("CORACLE"), 500, &Address::new("CPAYMENT"), 42);
    let config = nft.load_config().unwrap();
    assert_eq!(config.max_parcels, 500);
    assert_eq!(config.owner, admin);
    assert_eq!(config.payment_token, Address::new("CPAYMENT"));
    assert_eq!(config.price, 42);
}

#[test]
fn consent_is_checked_before_configuration() {
    let investor = Address::new("GINVESTOR");
    let mut rail = PaymentRail::new();
    let mut nft = BoscoraNFT::assemble(Ownable::new(), RegistryStore::new());
    let r = nft.mint(&Authorization::none(), &mut rail, &investor, &vec![request(1)]);
    assert_eq!(r, Err(MintError::Unauthorized));
}

#[test]
fn oracle_address_must_be_set() {
    let admin = Address::new("GADMIN");
    let nft = BoscoraNFT::assemble(gate(Some(&admin)), store(Some(10), true, Some(5)));
    let mut oracle = ImpactOracle::new();
    oracle.update_impact_metrics(1, 1, 1, 1).unwrap();
    assert_eq!(nft.get_live_impact(&oracle, 1), Err(ContractErrors::OracleAddressNotSet));
    assert_eq!(nft.get_live_impact(&oracle, 2), Err(ContractErrors::OracleAddressNotSet));
}

#[test]
fn total_due_is_price_times_count() {
    assert_eq!(total_due(500_000_000, 1), Some(500_000_000));
    assert_eq!(total_due(500_000_000, 3), Some(1_500_000_000));
    assert_eq!(total_due(7, 0), Some(0));
    assert_eq!(total_due(0, 1_000_000), Some(0));
    assert_eq!(total_due(-4, 5), Some(-20));
    assert_eq!(total_due(i128::MAX, 1), Some(i128::MAX));
    assert_eq!(total_due(i128::MAX, 2), None);
    assert_eq!(total_due(i128::MAX / 2 + 1, 2), None);
    assert_eq!(total_due(i128::MAX / 2, 2), Some(i128::MAX - 1));
    assert_eq!(total_due(i128::MIN, 1), Some(i128::MIN));
    assert_eq!(total_due(i128::MIN, 2), None);
}

#[test]
fn total_due_that_overflows_refuses_the_mint() {
    let admin = Address::new("GADMIN");
    let investor = Address::new("GINVESTOR");
    let mut rail = PaymentRail::new();
    rail.deposit(&investor, i128::MAX).unwrap();
    let mut nft =
        BoscoraNFT::new(&admin, &Address::new("CORACLE"), 10, &Address::new("CPAYMENT"), i128::MAX);
    let auth = Authorization::of(&investor);
    let r = nft.mint(&auth, &mut rail, &investor, &vec![request(1), request(2)]);
    assert_eq!(r, Err(MintError::AmountOverflow));
    assert_eq!(rail.balance(&investor), i128::MAX);
    // One parcel at that price can still be paid.
    assert_eq!(nft.mint(&auth, &mut rail, &investor, &vec![request(1)]), Ok(()));
    assert_eq!(rail.balance(&investor), 0);
    assert_eq!(rail.balance(&admin), i128::MAX);
}

#[test]
fn settlement_failure_refuses_the_mint_before_the_requests_are_read() {
    let admin = Address::new("GADMIN");
    let investor = Address::new("GINVESTOR");
    let auth = Authorization::of(&investor);

    // Too little on the rail; the batch is wrong as well, but payment comes first.
    let mut rail = PaymentRail::new();
    rail.deposit(&investor, 599).unwrap();
    let mut nft = BoscoraNFT::new(&admin, &Address::new("CORACLE"), 10, &Address::new("CPAYMENT"), 300);
    let r = nft.mint(&auth, &mut rail, &investor, &vec![request(1), request(0)]);
    assert_eq!(r, Err(MintError::Payment(TransferError::InsufficientBalance)));
    assert_eq!(rail.balance(&investor), 599);
    assert!(nft.events().is_empty());

    // A price below zero is refused by the rail.
    let mut nft = BoscoraNFT::new(&admin, &Address::new("CORACLE"), 10, &Address::new("CPAYMENT"), -1);
    let r = nft.mint(&auth, &mut rail, &investor, &vec![request(1)]);
    assert_eq!(r, Err(MintError::Payment(TransferError::NegativeAmount)));

    // The administrator cannot hold more.
    let mut rail = PaymentRail::new();
    rail.deposit(&investor, 10).unwrap();
    rail.deposit(&admin, i128::MAX - 9).unwrap();
    let mut nft = BoscoraNFT::new(&admin, &Address::new("CORACLE"), 10, &Address::new("CPAYMENT"), 10);
    let r = nft.mint(&auth, &mut rail, &investor, &vec![request(1)]);
    assert_eq!(r, Err(MintError::Payment(TransferError::BalanceOverflow)));
    assert_eq!(rail.balance(&investor), 10);
    assert_eq!(rail.balance(&admin), i128::MAX - 9);
}

#[test]
fn request_is_checked_for_range_then_for_uniqueness() {
    assert_eq!(check_request(500, false, 0), Some(ContractErrors::InvalidParcelId));
    assert_eq!(check_request(500, true, 0), Some(ContractErrors::InvalidParcelId));
    assert_eq!(check_request(500, false, 501), Some(ContractErrors::InvalidParcelId));
    assert_eq!(check_request(500, true, 501), Some(ContractErrors::InvalidParcelId));
    assert_eq!(check_request(500, true, 1), Some(ContractErrors::ParcelAlreadyDonated));
    assert_eq!(check_request(500, true, 500), Some(ContractErrors::ParcelAlreadyDonated));
    assert_eq!(check_request(500, false, 1), None);
    assert_eq!(check_request(500, false, 500), None);
    assert_eq!(check_request(0, false, 0), Some(ContractErrors::InvalidParcelId));
    assert_eq!(check_request(0, false, 1), Some(ContractErrors::InvalidParcelId));
    assert_eq!(check_request(u32::MAX, false, u32::MAX), None);
}

#[test]
fn batch_check_reads_without_minting() {
    let admin = Address::new("GADMIN");
    let investor = Address::new("GINVESTOR");
    let mut rail = PaymentRail::new();
    rail.deposit(&investor, 1_000).unwrap();
    let mut nft = BoscoraNFT::new(&admin, &Address::new("CORACLE"), 10, &Address::new("CPAYMENT"), 1);
    assert_eq!(nft.check_batch(10, &vec![request(1), request(2)]), None);
    assert_eq!(nft.check_batch(10, &vec![]), None);
    assert_eq!(nft.check_batch(1, &vec![request(1), request(2)]), Some(ContractErrors::InvalidParcelId));
    assert_eq!(
        nft.check_batch(10, &vec![request(1), request(1)]),
        Some(ContractErrors::ParcelAlreadyDonated)
    );
    nft.mint(&Authorization::of(&investor), &mut rail, &investor, &vec![request(2)]).unwrap();
    assert_eq!(
        nft.check_batch(10, &vec![request(1), request(2)]),
        Some(ContractErrors::ParcelAlreadyDonated)
    );
}

#[test]
fn parcels_stored_before_assembly_count_as_donated() {
    let admin = Address::new("GADMIN");
    let investor = Address::new("GINVESTOR");
    let mut rail = PaymentRail::new();
    rail.deposit(&investor, 1_000).unwrap();
    let mut store = store(Some(10), true, Some(5));
    store.set_geo(3, GeoCoordinates { latitude: 8, longitude: 9 });
    let mut nft = BoscoraNFT::assemble(gate(Some(&admin)), store);
    let r = nft.mint(&Authorization::of(&investor), &mut rail, &investor, &vec![request(3)]);
    assert_eq!(r, Err(MintError::Contract(ContractErrors::ParcelAlreadyDonated)));
    assert_eq!(nft.geo_coordinates(3), Ok(GeoCoordinates { latitude: 8, longitude: 9 }));
}

#[test]
fn conditions_carry_their_codes() {
    let all = [
        (ContractErrors::MaxParcelsNotSet, 1),
        (ContractErrors::OwnerNotSet, 2),
        (ContractErrors::PaymentTokenNotSet, 3),
        (ContractErrors::PriceNotSet, 4),
        (ContractErrors::InvalidParcelId, 5),
        (ContractErrors::ParcelAlreadyDonated, 6),
        (ContractErrors::OracleAddressNotSet, 7),
        (ContractErrors::MetricsNotFound, 8),
        (ContractErrors::NoGeoDataFound, 9),
    ];
    for (e, code) in all {
        assert_eq!(e.code(), code);
    }
}
