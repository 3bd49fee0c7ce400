use crate::address::{identity_of, Address};
use crate::types::{DataKey, GeoCoordinates};
use std::collections::HashMap;
use vstd::prelude::*;

verus! {

broadcast use vstd::std_specs::hash::group_hash_axioms;

/// What a registry store holds under each of its logical keys.
pub struct StoreState {
    pub oracle: Option<Seq<char>>,
    pub max_parcels: Option<u32>,
    pub payment_token: Option<Seq<char>>,
    pub price: Option<i128>,
    pub geo: Map<u32, GeoCoordinates>,
}

impl StoreState {
    /// Whether a value is stored under `key`.
    pub open spec fn has(self, key: DataKey) -> bool {
        match key {
            DataKey::OracleContract => self.oracle is Some,
            DataKey::Geo(token_id) => self.geo.contains_key(token_id),
            DataKey::MaxParcels => self.max_parcels is Some,
            DataKey::PaymentToken => self.payment_token is Some,
            DataKey::Price => self.price is Some,
        }
    }

    /// The store that holds nothing.
    pub open spec fn empty() -> StoreState {
        StoreState {
            oracle: None,
            max_parcels: None,
            payment_token: None,
            price: None,
            geo: Map::empty(),
        }
    }
}

/// The registry store: the configuration of the engine and the coordinates
/// of every minted parcel, each under its logical key.
pub struct RegistryStore {
    oracle: Option<Address>,
    max_parcels: Option<u32>,
    payment_token: Option<Address>,
    price: Option<i128>,
    geo: HashMap<u32, GeoCoordinates>,
}

impl View for RegistryStore {
    type V = StoreState;

    closed spec fn view(&self) -> StoreState {
        StoreState {
            oracle: identity_of(self.oracle),
            max_parcels: self.max_parcels,
            payment_token: identity_of(self.payment_token),
            price: self.price,
            geo: self.geo@,
        }
    }
}

impl RegistryStore {
    /// A store that holds nothing.
    pub fn new() -> (store: RegistryStore)
        ensures
            store@ == StoreState::empty(),
    {
        RegistryStore {
            oracle: None,
            max_parcels: None,
            payment_token: None,
            price: None,
            geo: HashMap::new(),
        }
    }

    /// Whether a value is stored under `key`.
    pub fn has(&self, key: &DataKey) -> (b: bool)
        ensures
            b == self@.has(*key),
    {
        match key {
            DataKey::OracleContract => self.oracle.is_some(),
            DataKey::Geo(token_id) => self.geo.contains_key(token_id),
            DataKey::MaxParcels => self.max_parcels.is_some(),
            DataKey::PaymentToken => self.payment_token.is_some(),
            DataKey::Price => self.price.is_some(),
        }
    }

    /// The address of the oracle, if stored.
    pub fn oracle(&self) -> (o: Option<Address>)
        ensures
            identity_of(o) == self@.oracle,
    {
        match &self.oracle {
            Some(a) => Some(a.clone()),
            None => None,
        }
    }

    /// Stores the address of the oracle.
    pub fn set_oracle(&mut self, oracle: &Address)
        ensures
            final(self)@ == (StoreState { oracle: Some(oracle@), ..old(self)@ }),
    {
        self.oracle = Some(oracle.clone());
    }

    /// The largest token id that may be minted, if stored.
    pub fn max_parcels(&self) -> (m: Option<u32>)
        ensures
            m == self@.max_parcels,
    {
        self.max_parcels
    }

    /// Stores the largest token id that may be minted.
    pub fn set_max_parcels(&mut self, max_parcels: u32)
        ensures
            final(self)@ == (StoreState { max_parcels: Some(max_parcels), ..old(self)@ }),
    {
        self.max_parcels = Some(max_parcels);
    }

    /// The address of the payment asset, if stored.
    pub fn payment_token(&self) -> (t: Option<Address>)
        ensures
            identity_of(t) == self@.payment_token,
    {
        match &self.payment_token {
            Some(a) => Some(a.clone()),
            None => None,
        }
    }

    /// Stores the address of the payment asset.
    pub fn set_payment_token(&mut self, payment_token: &Address)
        ensures
            final(self)@ == (StoreState { payment_token: Some(payment_token@), ..old(self)@ }),
    {
        self.payment_token = Some(payment_token.clone());
    }

    /// The price of one parcel, if stored.
    pub fn price(&self) -> (p: Option<i128>)
        ensures
            p == self@.price,
    {
        self.price
    }

    /// Stores the price of one parcel.
    pub fn set_price(&mut self, price: i128)
        ensures
            final(self)@ == (StoreState { price: Some(price), ..old(self)@ }),
    {
        self.price = Some(price);
    }

    /// The coordinates stored for `token_id`, if any.
    pub fn geo(&self, token_id: u32) -> (g: Option<GeoCoordinates>)
        ensures
            g == if self@.geo.contains_key(token_id) {
                Some(self@.geo[token_id])
            } else {
                None
            },
    {
        match self.geo.get(&token_id) {
            Some(g) => Some(*g),
            None => None,
        }
    }

    /// Stores `geo` as the coordinates of `token_id`.
    pub fn set_geo(&mut self, token_id: u32, geo: GeoCoordinates)
        ensures
            final(self)@ == (StoreState {
                geo: old(self)@.geo.insert(token_id, geo),
                ..old(self)@
            }),
    {
        self.geo.insert(token_id, geo);
    }
}

} // verus!
