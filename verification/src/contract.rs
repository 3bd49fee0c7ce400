use crate::address::{identity_of, Address};
use crate::auth::Authorization;
use crate::ledger::{AssetLedger, Collection, LedgerError};
use crate::ownable::{Ownable, OwnableError};
pub use crate::types::GeoCoordinates;
use std::collections::HashMap;
use vstd::prelude::*;

verus! {

broadcast use vstd::std_specs::hash::group_hash_axioms;

/// Name of the parcel collection.
pub const COLLECTION_NAME: &'static str = "Boscora Impact";

/// Symbol of the parcel collection.
pub const COLLECTION_SYMBOL: &'static str = "BSCR";

/// Content pointer of the parcel collection.
pub const COLLECTION_URI: &'static str = "ipfs://collection";

/// The logical keys under which the engine stores what it knows of a
/// parcel.
#[derive(Clone, Copy, Debug, PartialEq, Eq)]
pub enum DataKey {
    /// Coordinates of the parcel with the given token id.
    Geo(u32),
    /// Descriptor link of the parcel with the given token id.
    Uri(u32),
}

/// One attribute of a parcel descriptor.
#[derive(Clone, Debug, PartialEq, Eq)]
pub struct MetadataAttribute {
    pub trait_type: String,
    pub value: String,
}

/// The layout of a parcel descriptor.
#[derive(Clone, Debug, PartialEq, Eq)]
pub struct BoscoraMetadata {
    pub name: String,
    pub description: String,
    pub image: String,
    pub attributes: Vec<MetadataAttribute>,
}

/// What the engine found wrong with a parcel.
#[derive(Clone, Copy, Debug, PartialEq, Eq)]
pub enum ParcelError {
    /// The parcel is already minted.
    DuplicateId,
    /// The parcel was never minted.
    NotFound,
    /// No coordinates are stored for the parcel.
    NoGeoData,
}

impl ParcelError {
    /// The text under which the condition is reported.
    pub fn message(&self) -> (text: &'static str)
        ensures
            text@ == match *self {
                ParcelError::DuplicateId => "duplicate id"@,
                ParcelError::NotFound => "not found"@,
                ParcelError::NoGeoData => "no geo data"@,
            },
    {
        match self {
            ParcelError::DuplicateId => "duplicate id",
            ParcelError::NotFound => "not found",
            ParcelError::NoGeoData => "no geo data",
        }
    }
}

/// Decides whether a parcel may be minted, given whether it is minted
/// already.
pub fn check_new(already_minted: bool) -> (v: Option<ParcelError>)
    ensures
        v == if already_minted {
            Some(ParcelError::DuplicateId)
        } else {
            None
        },
{
    if already_minted {
        Some(ParcelError::DuplicateId)
    } else {
        None
    }
}

/// Decides whether a parcel may be relinked, given whether it is minted.
pub fn check_minted(minted: bool) -> (v: Option<ParcelError>)
    ensures
        v == if minted {
            None
        } else {
            Some(ParcelError::NotFound)
        },
{
    if minted {
        None
    } else {
        Some(ParcelError::NotFound)
    }
}

/// Why a privileged operation was turned down. An operation that is turned
/// down changes nothing.
#[derive(Clone, Copy, Debug, PartialEq, Eq)]
pub enum Failure {
    /// The access gate refused the invocation.
    Gate(OwnableError),
    /// The engine found the parcel wrong.
    Parcel(ParcelError),
}

/// Everything the administrator-gated engine holds.
pub struct ContractState {
    /// The administrator, who alone may mint and relink.
    pub owner: Option<Seq<char>>,
    /// The holder of each minted token.
    pub owners: Map<u32, Seq<char>>,
    /// The metadata of the collection.
    pub collection: Option<Collection>,
    /// The coordinates of each minted parcel.
    pub geo: Map<u32, GeoCoordinates>,
    /// The descriptor link of each minted parcel.
    pub uri: Map<u32, Seq<char>>,
}

impl ContractState {
    /// Every parcel that has a holder or a link has coordinates.
    pub open spec fn wf(self) -> bool {
        &&& self.owners.dom().subset_of(self.geo.dom())
        &&& self.uri.dom().subset_of(self.geo.dom())
    }

    /// Whether a value is stored under `key`.
    pub open spec fn has(self, key: DataKey) -> bool {
        match key {
            DataKey::Geo(token_id) => self.geo.contains_key(token_id),
            DataKey::Uri(token_id) => self.uri.contains_key(token_id),
        }
    }

    /// Why a mint of `token_id` is turned down, if it is: the access gate
    /// is asked first, then the parcel must be new.
    pub open spec fn mint_refusal(self, signers: Set<Seq<char>>, token_id: u32) -> Option<Failure> {
        match Ownable::spec_enforce(self.owner, signers) {
            Err(e) => Some(Failure::Gate(e)),
            Ok(_) => if self.geo.contains_key(token_id) {
                Some(Failure::Parcel(ParcelError::DuplicateId))
            } else {
                None
            },
        }
    }

    /// The state after `token_id` is minted to `to`.
    pub open spec fn minted(
        self,
        to: Seq<char>,
        token_id: u32,
        metadata_uri: Seq<char>,
        geo: GeoCoordinates,
    ) -> ContractState {
        ContractState {
            owner: self.owner,
            owners: self.owners.insert(token_id, to),
            collection: self.collection,
            geo: self.geo.insert(token_id, geo),
            uri: self.uri.insert(token_id, metadata_uri),
        }
    }

    /// Why a new link for `token_id` is turned down, if it is: the access
    /// gate is asked first, then the parcel must be minted.
    pub open spec fn relink_refusal(self, signers: Set<Seq<char>>, token_id: u32) -> Option<
        Failure,
    > {
        match Ownable::spec_enforce(self.owner, signers) {
            Err(e) => Some(Failure::Gate(e)),
            Ok(_) => if self.geo.contains_key(token_id) {
                None
            } else {
                Some(Failure::Parcel(ParcelError::NotFound))
            },
        }
    }

    /// The descriptor link of `token_id`: the stored one, or the empty text
    /// where none is stored.
    pub open spec fn token_uri(self, token_id: u32) -> Seq<char> {
        if self.uri.contains_key(token_id) {
            self.uri[token_id]
        } else {
            Seq::empty()
        }
    }
}

/// The metadata that the engine registers for its collection.
pub open spec fn collection() -> Collection {
    Collection { base_uri: COLLECTION_URI@, name: COLLECTION_NAME@, symbol: COLLECTION_SYMBOL@ }
}

/// The administrator-gated parcel engine: only the administrator mints,
/// and each parcel carries a descriptor link that the administrator may
/// replace.
pub struct BoscoraContract {
    gate: Ownable,
    ledger: AssetLedger,
    geo: HashMap<u32, GeoCoordinates>,
    uri: HashMap<u32, String>,
}

impl View for BoscoraContract {
    type V = ContractState;

    closed spec fn view(&self) -> ContractState {
        ContractState {
            owner: self.gate@,
            owners: self.ledger@,
            collection: self.ledger.collection(),
            geo: self.geo@,
            uri: self.uri@.map_values(|s: String| s@),
        }
    }
}

impl BoscoraContract {
    #[verifier::type_invariant]
    spec fn well_formed(self) -> bool {
        self@.wf()
    }

    /// Sets the engine up with `admin` as the administrator, registers the
    /// metadata of the collection, and leaves nothing minted.
    pub fn new(admin: &Address) -> (contract: BoscoraContract)
        ensures
            contract@ == (ContractState {
                owner: Some(admin@),
                owners: Map::empty(),
                collection: Some(collection()),
                geo: Map::empty(),
                uri: Map::empty(),
            }),
            contract@.wf(),
    {
        let mut gate = Ownable::new();
        let _ = gate.set_owner(admin);
        let uri: HashMap<u32, String> = HashMap::new();
        proof {
            lemma_no_links(uri);
        }
        let mut ledger = AssetLedger::new();
        ledger.set_metadata(COLLECTION_URI, COLLECTION_NAME, COLLECTION_SYMBOL);
        let contract = BoscoraContract { gate, ledger, geo: HashMap::new(), uri };
        contract
    }

    /// Whether a value is stored under `key`.
    pub fn has(&self, key: &DataKey) -> (b: bool)
        ensures
            b == self@.has(*key),
    {
        match key {
            DataKey::Geo(token_id) => self.geo.contains_key(token_id),
            DataKey::Uri(token_id) => self.uri.contains_key(token_id),
        }
    }

    /// Mints `token_id` to `to` with its descriptor link and coordinates.
    /// Only the administrator may mint, and each parcel is minted once: a
    /// second mint of it is turned down and the first stands.
    pub fn mint(
        &mut self,
        auth: &Authorization,
        to: &Address,
        token_id: u32,
        metadata_uri: &str,
        geo: GeoCoordinates,
    ) -> (r: Result<(), Failure>)
        ensures
            match old(self)@.mint_refusal(auth@, token_id) {
                Some(e) => r == Err::<(), Failure>(e) && final(self)@ == old(self)@,
                None => r is Ok && final(self)@ == old(self)@.minted(
                    to@,
                    token_id,
                    metadata_uri@,
                    geo,
                ),
            },
            old(self)@.wf(),
            final(self)@.wf(),
    {
        proof {
            use_type_invariant(&*self);
        }
        if let Err(e) = self.gate.enforce_owner_auth(auth) {
            return Err(Failure::Gate(e));
        }
        if let Some(e) = check_new(self.geo.contains_key(&token_id)) {
            return Err(Failure::Parcel(e));
        }
        // Nothing can fail from here on. The parts are taken out, coordinates
        // last, updated and put back, coordinates first, so that every
        // parcel with a holder or a link has coordinates at each step.
        let mut ledger = AssetLedger::new();
        core::mem::swap(&mut self.ledger, &mut ledger);
        let mut uri: HashMap<u32, String> = HashMap::new();
        proof {
            lemma_no_links(uri);
        }
        core::mem::swap(&mut self.uri, &mut uri);
        let mut geos: HashMap<u32, GeoCoordinates> = HashMap::new();
        core::mem::swap(&mut self.geo, &mut geos);
        let link = metadata_uri.to_owned();
        proof {
            lemma_link_stored(uri@, token_id, link);
        }
        ledger.mint(to, token_id);
        uri.insert(token_id, link);
        geos.insert(token_id, geo);
        self.geo = geos;
        self.uri = uri;
        self.ledger = ledger;
        Ok(())
    }

    /// Replaces the descriptor link of `token_id`. Only the administrator
    /// may relink, and only a minted parcel.
    pub fn set_metadata_uri(&mut self, auth: &Authorization, token_id: u32, new_uri: &str) -> (r:
        Result<(), Failure>)
        ensures
            match old(self)@.relink_refusal(auth@, token_id) {
                Some(e) => r == Err::<(), Failure>(e) && final(self)@ == old(self)@,
                None => r is Ok && final(self)@ == (ContractState {
                    uri: old(self)@.uri.insert(token_id, new_uri@),
                    ..old(self)@
                }),
            },
            old(self)@.wf(),
            final(self)@.wf(),
    {
        proof {
            use_type_invariant(&*self);
        }
        if let Err(e) = self.gate.enforce_owner_auth(auth) {
            return Err(Failure::Gate(e));
        }
        if let Some(e) = check_minted(self.geo.contains_key(&token_id)) {
            return Err(Failure::Parcel(e));
        }
        let mut uri: HashMap<u32, String> = HashMap::new();
        proof {
            lemma_no_links(uri);
        }
        core::mem::swap(&mut self.uri, &mut uri);
        let link = new_uri.to_owned();
        proof {
            lemma_link_stored(uri@, token_id, link);
        }
        uri.insert(token_id, link);
        self.uri = uri;
        Ok(())
    }

    /// The coordinates of `token_id`; fails for a parcel that was never
    /// minted.
    pub fn geo_coordinates(&self, token_id: u32) -> (r: Result<GeoCoordinates, ParcelError>)
        ensures
            r == if self@.geo.contains_key(token_id) {
                Ok::<GeoCoordinates, ParcelError>(self@.geo[token_id])
            } else {
                Err::<GeoCoordinates, ParcelError>(ParcelError::NoGeoData)
            },
    {
        match self.geo.get(&token_id) {
            Some(g) => Ok(*g),
            None => Err(ParcelError::NoGeoData),
        }
    }

    /// The descriptor link of `token_id`, or the empty text where none is
    /// stored.
    pub fn token_uri(&self, token_id: u32) -> (uri: String)
        ensures
            uri@ == self@.token_uri(token_id),
    {
        match self.uri.get(&token_id) {
            Some(s) => s.clone(),
            None => String::new(),
        }
    }

    /// The holder of `token_id`, as the asset ledger has it; fails for a
    /// token that was never minted.
    pub fn owner_of(&self, token_id: u32) -> (r: Result<Address, LedgerError>)
        ensures
            match r {
                Ok(a) => self@.owners.contains_key(token_id) && self@.owners[token_id] == a@,
                Err(e) => !self@.owners.contains_key(token_id),
            },
    {
        self.ledger.owner_of(token_id)
    }

    /// The asset ledger of the engine.
    pub fn ledger(&self) -> (ledger: &AssetLedger)
        ensures
            ledger@ == self@.owners,
            ledger.collection() == self@.collection,
    {
        &self.ledger
    }

    /// The administrator, if one is bound.
    pub fn get_owner(&self) -> (o: Option<Address>)
        ensures
            identity_of(o) == self@.owner,
    {
        self.gate.get_owner()
    }
}

proof fn lemma_no_links(uri: HashMap<u32, String>)
    requires
        uri@ == Map::<u32, String>::empty(),
    ensures
        uri@.map_values(|s: String| s@) == Map::<u32, Seq<char>>::empty(),
{
    assert(uri@.map_values(|s: String| s@) =~= Map::<u32, Seq<char>>::empty());
}

proof fn lemma_link_stored(links: Map<u32, String>, token_id: u32, link: String)
    ensures
        links.insert(token_id, link).map_values(|s: String| s@) == links.map_values(
            |s: String| s@,
        ).insert(token_id, link@),
{
    assert(links.insert(token_id, link).map_values(|s: String| s@) =~= links.map_values(
        |s: String| s@,
    ).insert(token_id, link@));
}

} // verus!
