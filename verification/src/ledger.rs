use crate::address::Address;
use std::collections::HashMap;
use vstd::prelude::*;

verus! {

broadcast use vstd::std_specs::hash::group_hash_axioms;

/// Why the asset ledger turned a query down.
#[derive(Clone, Copy, Debug, PartialEq, Eq)]
pub enum LedgerError {
    /// The token was never minted.
    NonExistentToken,
}

/// What describes a collection of tokens as a whole.
pub struct Collection {
    /// Content pointer of the collection.
    pub base_uri: Seq<char>,
    pub name: Seq<char>,
    pub symbol: Seq<char>,
}

struct Metadata {
    base_uri: String,
    name: String,
    symbol: String,
}

/// The asset ledger: which identity holds each minted token, and the
/// metadata of the collection once it is registered.
pub struct AssetLedger {
    owners: HashMap<u32, Address>,
    metadata: Option<Metadata>,
}

impl View for AssetLedger {
    type V = Map<u32, Seq<char>>;

    closed spec fn view(&self) -> Map<u32, Seq<char>> {
        self.owners@.map_values(|a: Address| a@)
    }
}

impl AssetLedger {
    /// The metadata of the collection, once registered.
    pub closed spec fn collection(&self) -> Option<Collection> {
        match self.metadata {
            Some(m) => Some(Collection { base_uri: m.base_uri@, name: m.name@, symbol: m.symbol@ }),
            None => None,
        }
    }

    /// A ledger on which no token is minted and no metadata is registered.
    pub fn new() -> (ledger: AssetLedger)
        ensures
            ledger@ == Map::<u32, Seq<char>>::empty(),
            ledger.collection() is None,
    {
        let ledger = AssetLedger { owners: HashMap::new(), metadata: None };
        assert(ledger@ =~= Map::<u32, Seq<char>>::empty());
        ledger
    }

    /// Registers the metadata of the collection, replacing any earlier one.
    pub fn set_metadata(&mut self, base_uri: &str, name: &str, symbol: &str)
        ensures
            final(self).collection() == Some(
                Collection { base_uri: base_uri@, name: name@, symbol: symbol@ },
            ),
            final(self)@ == old(self)@,
    {
        self.metadata = Some(
            Metadata {
                base_uri: base_uri.to_owned(),
                name: name.to_owned(),
                symbol: symbol.to_owned(),
            },
        );
    }

    /// The name of the collection, once registered.
    pub fn name(&self) -> (name: Option<String>)
        ensures
            match name {
                Some(text) => self.collection() is Some && text@ == self.collection()->0.name,
                None => self.collection() is None,
            },
    {
        match &self.metadata {
            Some(m) => Some(m.name.clone()),
            None => None,
        }
    }

    /// The symbol of the collection, once registered.
    pub fn symbol(&self) -> (symbol: Option<String>)
        ensures
            match symbol {
                Some(text) => self.collection() is Some && text@ == self.collection()->0.symbol,
                None => self.collection() is None,
            },
    {
        match &self.metadata {
            Some(m) => Some(m.symbol.clone()),
            None => None,
        }
    }

    /// The content pointer of the collection, once registered.
    pub fn base_uri(&self) -> (base_uri: Option<String>)
        ensures
            match base_uri {
                Some(text) => self.collection() is Some && text@ == self.collection()->0.base_uri,
                None => self.collection() is None,
            },
    {
        match &self.metadata {
            Some(m) => Some(m.base_uri.clone()),
            None => None,
        }
    }

    /// Whether `token_id` is minted.
    pub fn is_minted(&self, token_id: u32) -> (b: bool)
        ensures
            b == self@.contains_key(token_id),
    {
        self.owners.contains_key(&token_id)
    }

    /// Records `to` as the holder of `token_id`.
    pub fn mint(&mut self, to: &Address, token_id: u32)
        ensures
            final(self)@ == old(self)@.insert(token_id, to@),
            final(self).collection() == old(self).collection(),
    {
        self.owners.insert(token_id, to.clone());
        assert(final(self)@ =~= old(self)@.insert(token_id, to@));
    }

    /// The holder of `token_id`; fails for a token that was never minted.
    pub fn owner_of(&self, token_id: u32) -> (r: Result<Address, LedgerError>)
        ensures
            match r {
                Ok(a) => self@.contains_key(token_id) && self@[token_id] == a@,
                Err(e) => !self@.contains_key(token_id),
            },
    {
        match self.owners.get(&token_id) {
            Some(a) => Ok(a.clone()),
            None => Err(LedgerError::NonExistentToken),
        }
    }
}

} // verus!
