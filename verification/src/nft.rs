use crate::address::{identity_of, Address};
use crate::auth::Authorization;
use crate::errors::ContractErrors;
use crate::events::{records, Mint, MintRecord};
use crate::ledger::{AssetLedger, Collection, LedgerError};
use crate::oracle::OracleInterface;
use crate::ownable::Ownable;
use crate::payment::{PaymentRail, TransferError};
use crate::store::{RegistryStore, StoreState};
use crate::types::{DataKey, GeoCoordinates, ImpactMetrics, ParcelRequest};
use std::collections::HashSet;
use vstd::prelude::*;

verus! {

broadcast use vstd::std_specs::hash::group_hash_axioms;

/// Name of the parcel collection.
pub const COLLECTION_NAME: &'static str = "Boscora Impacta";

/// Symbol of the parcel collection.
pub const COLLECTION_SYMBOL: &'static str = "BSCR";

/// Content pointer of the parcel collection.
pub const COLLECTION_URI: &'static str = "ipfs://collection-metadata";

/// Descriptor that every parcel shares.
pub const TOKEN_URI: &'static str =
    "data:application/json;base64,eyJuYW1lIjoiQm9zY29yYSAtIEltcGFjdGEiLCJkZXNjcmlwdGlvbiI6IlBhcmNlbGEgZGUgUmVzdGF1cmFjaW9uIGVuIEJvc3F1ZXMgZGUgQWd1YSIsImltYWdlIjoiaHR0cHM6Ly9ib3NxdWVzZGVhZ3VhLmFyL2xvZ28ucG5nIn0=";

/// Why a mint was turned down. A mint that is turned down changes nothing.
#[derive(Clone, Copy, Debug, PartialEq, Eq)]
pub enum MintError {
    /// The recipient has not consented to the invocation.
    Unauthorized,
    /// A condition of the engine itself.
    Contract(ContractErrors),
    /// The total due is more than the payment asset can express.
    AmountOverflow,
    /// The payment rail refused the settlement.
    Payment(TransferError),
}

/// The configuration that a mint runs under, loaded once per call.
#[derive(Debug)]
pub struct MintConfig {
    pub max_parcels: u32,
    pub owner: Address,
    pub payment_token: Address,
    pub price: i128,
}

/// A mint configuration with its addresses taken as identities.
pub struct MintTerms {
    pub max_parcels: u32,
    pub owner: Seq<char>,
    pub payment_token: Seq<char>,
    pub price: i128,
}

impl View for MintConfig {
    type V = MintTerms;

    open spec fn view(&self) -> MintTerms {
        MintTerms {
            max_parcels: self.max_parcels,
            owner: self.owner@,
            payment_token: self.payment_token@,
            price: self.price,
        }
    }
}

/// Everything the pay-to-mint engine holds.
pub struct NftState {
    /// The administrator, who receives the payments.
    pub owner: Option<Seq<char>>,
    /// Configuration and parcel coordinates.
    pub store: StoreState,
    /// The holder of each minted token.
    pub owners: Map<u32, Seq<char>>,
    /// The metadata of the collection, once registered.
    pub collection: Option<Collection>,
    /// The notifications published so far, oldest first.
    pub events: Seq<MintRecord>,
}

impl NftState {
    /// Every token that has a holder has coordinates.
    pub open spec fn wf(self) -> bool {
        self.owners.dom().subset_of(self.store.geo.dom())
    }

    /// The configuration of a mint, or the first field found missing.
    pub open spec fn config(self) -> Result<MintTerms, ContractErrors> {
        match spec_missing_field(
            self.store.max_parcels is Some,
            self.owner is Some,
            self.store.payment_token is Some,
            self.store.price is Some,
        ) {
            Some(e) => Err(e),
            None => Ok(
                MintTerms {
                    max_parcels: self.store.max_parcels->0,
                    owner: self.owner->0,
                    payment_token: self.store.payment_token->0,
                    price: self.store.price->0,
                },
            ),
        }
    }

    /// The state after one request of a mint to `to` is recorded.
    pub open spec fn record(self, to: Seq<char>, request: ParcelRequest) -> NftState {
        NftState {
            owner: self.owner,
            store: StoreState {
                geo: self.store.geo.insert(request.token_id, request.geo),
                ..self.store
            },
            owners: self.owners.insert(request.token_id, to),
            collection: self.collection,
            events: self.events.push(MintRecord { to, token_id: request.token_id }),
        }
    }

    /// The state after the first `n` requests of `batch` are recorded for
    /// `to`, in batch order.
    pub open spec fn record_batch(self, to: Seq<char>, batch: Seq<ParcelRequest>, n: nat) -> NftState
        decreases n,
    {
        if n == 0 {
            self
        } else {
            self.record_batch(to, batch, (n - 1) as nat).record(to, batch[n - 1])
        }
    }
}

/// The first configuration field found missing, if any. The fields are
/// looked up in a fixed order: supply cap, administrator, payment asset,
/// price.
pub open spec fn spec_missing_field(
    has_max_parcels: bool,
    has_owner: bool,
    has_payment_token: bool,
    has_price: bool,
) -> Option<ContractErrors> {
    if !has_max_parcels {
        Some(ContractErrors::MaxParcelsNotSet)
    } else if !has_owner {
        Some(ContractErrors::OwnerNotSet)
    } else if !has_payment_token {
        Some(ContractErrors::PaymentTokenNotSet)
    } else if !has_price {
        Some(ContractErrors::PriceNotSet)
    } else {
        None
    }
}

/// The total due for `count` parcels at `price` each, unless it is more
/// than the payment asset can express.
pub open spec fn spec_total_due(price: i128, count: nat) -> Option<i128> {
    if i128::MIN <= price * count <= i128::MAX {
        Some((price * count) as i128)
    } else {
        None
    }
}

/// What is wrong with a request for `token_id` under a supply cap of
/// `max_parcels`, if anything. The range is checked before uniqueness.
pub open spec fn spec_check_request(max_parcels: u32, already_donated: bool, token_id: u32) -> Option<
    ContractErrors,
> {
    if token_id == 0 || token_id > max_parcels {
        Some(ContractErrors::InvalidParcelId)
    } else if already_donated {
        Some(ContractErrors::ParcelAlreadyDonated)
    } else {
        None
    }
}

/// Whether the parcel of request `k` is taken when its turn comes: minted
/// before the call, or asked for by an earlier request of the same batch.
pub open spec fn donated_before(minted: Set<u32>, batch: Seq<ParcelRequest>, k: int) -> bool {
    minted.contains(batch[k].token_id) || exists|j: int|
        0 <= j < k && #[trigger] batch[j].token_id == batch[k].token_id
}

/// What is wrong with request `k` of `batch` when its turn comes.
pub open spec fn violation_at(
    max_parcels: u32,
    minted: Set<u32>,
    batch: Seq<ParcelRequest>,
    k: int,
) -> Option<ContractErrors> {
    spec_check_request(max_parcels, donated_before(minted, batch, k), batch[k].token_id)
}

/// The first thing wrong, in batch order, among the first `n` requests of
/// `batch`.
pub open spec fn violation_within(
    max_parcels: u32,
    minted: Set<u32>,
    batch: Seq<ParcelRequest>,
    n: nat,
) -> Option<ContractErrors>
    decreases n,
{
    if n == 0 {
        None
    } else {
        match violation_within(max_parcels, minted, batch, (n - 1) as nat) {
            Some(e) => Some(e),
            None => violation_at(max_parcels, minted, batch, n - 1),
        }
    }
}

/// Why a mint of `batch` to `to` is turned down, if it is. The checks are
/// listed in the order in which the first failure wins: consent of the
/// recipient, configuration, total due, settlement, then the requests in
/// batch order.
pub open spec fn mint_refusal(
    state: NftState,
    balances: Map<Seq<char>, int>,
    signers: Set<Seq<char>>,
    to: Seq<char>,
    batch: Seq<ParcelRequest>,
) -> Option<MintError> {
    if !signers.contains(to) {
        Some(MintError::Unauthorized)
    } else {
        match state.config() {
            Err(e) => Some(MintError::Contract(e)),
            Ok(terms) => match spec_total_due(terms.price, batch.len()) {
                None => Some(MintError::AmountOverflow),
                Some(due) => match PaymentRail::transfer_refusal(
                    balances,
                    signers,
                    to,
                    terms.owner,
                    due as int,
                ) {
                    Some(e) => Some(MintError::Payment(e)),
                    None => match violation_within(
                        terms.max_parcels,
                        state.store.geo.dom(),
                        batch,
                        batch.len(),
                    ) {
                        Some(e) => Some(MintError::Contract(e)),
                        None => None,
                    },
                },
            },
        }
    }
}

/// The balances after a mint of `batch` to `to` that is not turned down.
pub open spec fn settled(
    state: NftState,
    balances: Map<Seq<char>, int>,
    to: Seq<char>,
    batch: Seq<ParcelRequest>,
) -> Map<Seq<char>, int> {
    PaymentRail::moved(
        balances,
        to,
        state.config()->Ok_0.owner,
        state.config()->Ok_0.price * batch.len(),
    )
}

/// What a live impact query answers when the store holds `oracle` as the
/// oracle's address and the oracle holds `recorded` for the token.
pub open spec fn spec_live_impact(oracle: Option<Seq<char>>, recorded: Option<ImpactMetrics>) -> Result<
    ImpactMetrics,
    ContractErrors,
> {
    if oracle is None {
        Err(ContractErrors::OracleAddressNotSet)
    } else {
        match recorded {
            Some(m) => Ok(m),
            None => Err(ContractErrors::MetricsNotFound),
        }
    }
}

proof fn lemma_violation_persists(
    max_parcels: u32,
    minted: Set<u32>,
    batch: Seq<ParcelRequest>,
    k: nat,
    n: nat,
)
    requires
        k < n,
        violation_within(max_parcels, minted, batch, k) is None,
        violation_at(max_parcels, minted, batch, k as int) is Some,
    ensures
        violation_within(max_parcels, minted, batch, n) == violation_at(
            max_parcels,
            minted,
            batch,
            k as int,
        ),
    decreases n,
{
    if n > k + 1 {
        lemma_violation_persists(max_parcels, minted, batch, k, (n - 1) as nat);
    }
}

/// Decides which configuration field a mint misses first, given which of
/// them are stored.
pub fn missing_field(
    has_max_parcels: bool,
    has_owner: bool,
    has_payment_token: bool,
    has_price: bool,
) -> (missing: Option<ContractErrors>)
    ensures
        missing == spec_missing_field(has_max_parcels, has_owner, has_payment_token, has_price),
{
    if !has_max_parcels {
        Some(ContractErrors::MaxParcelsNotSet)
    } else if !has_owner {
        Some(ContractErrors::OwnerNotSet)
    } else if !has_payment_token {
        Some(ContractErrors::PaymentTokenNotSet)
    } else if !has_price {
        Some(ContractErrors::PriceNotSet)
    } else {
        None
    }
}

/// Computes the total due for `count` parcels at `price` each with checked
/// arithmetic.
pub fn total_due(price: i128, count: usize) -> (due: Option<i128>)
    ensures
        due == spec_total_due(price, count as nat),
{
    price.checked_mul(count as i128)
}

/// Decides whether a request for `token_id` may be minted under a supply
/// cap of `max_parcels`, given whether the parcel is already taken.
pub fn check_request(max_parcels: u32, already_donated: bool, token_id: u32) -> (v: Option<
    ContractErrors,
>)
    ensures
        v == spec_check_request(max_parcels, already_donated, token_id),
{
    if token_id == 0 || token_id > max_parcels {
        Some(ContractErrors::InvalidParcelId)
    } else if already_donated {
        Some(ContractErrors::ParcelAlreadyDonated)
    } else {
        None
    }
}

/// The pay-to-mint parcel engine: anyone may mint a parcel for themselves
/// by paying the unit price to the administrator.
pub struct BoscoraNFT {
    gate: Ownable,
    store: RegistryStore,
    ledger: AssetLedger,
    events: Vec<Mint>,
}

impl View for BoscoraNFT {
    type V = NftState;

    closed spec fn view(&self) -> NftState {
        NftState {
            owner: self.gate@,
            store: self.store@,
            owners: self.ledger@,
            collection: self.ledger.collection(),
            events: records(self.events@),
        }
    }
}

/// The metadata that the engine registers for its collection.
pub open spec fn collection() -> Collection {
    Collection { base_uri: COLLECTION_URI@, name: COLLECTION_NAME@, symbol: COLLECTION_SYMBOL@ }
}

impl BoscoraNFT {
    #[verifier::type_invariant]
    spec fn well_formed(self) -> bool {
        self.ledger@.dom().subset_of(self.store@.geo.dom())
    }

    /// Sets the engine up: binds the administrator, stores the oracle's
    /// address, the supply cap, the payment asset and the unit price, and
    /// registers the metadata of the collection. Nothing is minted and
    /// nothing is published yet.
    pub fn new(
        admin: &Address,
        oracle: &Address,
        max_parcels: u32,
        payment_token: &Address,
        price: i128,
    ) -> (nft: BoscoraNFT)
        ensures
            nft@ == (NftState {
                owner: Some(admin@),
                store: StoreState {
                    oracle: Some(oracle@),
                    max_parcels: Some(max_parcels),
                    payment_token: Some(payment_token@),
                    price: Some(price),
                    geo: Map::empty(),
                },
                owners: Map::empty(),
                collection: Some(collection()),
                events: Seq::empty(),
            }),
            nft@.wf(),
    {
        let mut gate = Ownable::new();
        let _ = gate.set_owner(admin);
        let mut store = RegistryStore::new();
        store.set_oracle(oracle);
        store.set_max_parcels(max_parcels);
        store.set_payment_token(payment_token);
        store.set_price(price);
        let mut ledger = AssetLedger::new();
        ledger.set_metadata(COLLECTION_URI, COLLECTION_NAME, COLLECTION_SYMBOL);
        let nft = BoscoraNFT { gate, store, ledger, events: Vec::new() };
        assert(nft@.events =~= Seq::<MintRecord>::empty());
        nft
    }

    /// An engine over an access gate and a store as they stand, with
    /// nothing minted, nothing published and no metadata registered. Fields
    /// that the store lacks stay unset.
    pub fn assemble(gate: Ownable, store: RegistryStore) -> (nft: BoscoraNFT)
        ensures
            nft@ == (NftState {
                owner: gate@,
                store: store@,
                owners: Map::empty(),
                collection: None,
                events: Seq::empty(),
            }),
            nft@.wf(),
    {
        let nft = BoscoraNFT { gate, store, ledger: AssetLedger::new(), events: Vec::new() };
        assert(nft@.events =~= Seq::<MintRecord>::empty());
        nft
    }

    /// Loads the configuration of a mint, failing on the first field that
    /// is not set.
    pub fn load_config(&self) -> (r: Result<MintConfig, ContractErrors>)
        ensures
            match r {
                Ok(c) => self@.config() == Ok::<MintTerms, ContractErrors>(c@),
                Err(e) => self@.config() == Err::<MintTerms, ContractErrors>(e),
            },
    {
        let max_parcels = self.store.max_parcels();
        let owner = self.gate.get_owner();
        let payment_token = self.store.payment_token();
        let price = self.store.price();
        if let Some(e) = missing_field(
            max_parcels.is_some(),
            owner.is_some(),
            payment_token.is_some(),
            price.is_some(),
        ) {
            return Err(e);
        }
        let max_parcels = max_parcels.unwrap();
        let owner = owner.unwrap();
        let payment_token = payment_token.unwrap();
        let price = price.unwrap();
        Ok(MintConfig { max_parcels, owner, payment_token, price })
    }

    /// Finds the first thing wrong with `parcels`, in batch order, under a
    /// supply cap of `max_parcels`.
    pub fn check_batch(&self, max_parcels: u32, parcels: &Vec<ParcelRequest>) -> (v: Option<
        ContractErrors,
    >)
        ensures
            v == violation_within(
                max_parcels,
                self@.store.geo.dom(),
                parcels@,
                parcels@.len(),
            ),
    {
        let ghost minted = self@.store.geo.dom();
        let mut seen: HashSet<u32> = HashSet::new();
        let mut i: usize = 0;
        while i < parcels.len()
            invariant
                0 <= i <= parcels@.len(),
                minted == self@.store.geo.dom(),
                violation_within(max_parcels, minted, parcels@, i as nat) is None,
                forall|id: u32|
                    seen@.contains(id) <==> exists|j: int|
                        0 <= j < i && #[trigger] parcels@[j].token_id == id,
            decreases parcels@.len() - i,
        {
            let token_id = parcels[i].token_id;
            let taken = self.store.has(&DataKey::Geo(token_id)) || seen.contains(&token_id);
            assert(taken == donated_before(minted, parcels@, i as int));
            let v = check_request(max_parcels, taken, token_id);
            if v.is_some() {
                proof {
                    lemma_violation_persists(
                        max_parcels,
                        minted,
                        parcels@,
                        i as nat,
                        parcels@.len(),
                    );
                }
                return v;
            }
            seen.insert(token_id);
            assert(violation_within(max_parcels, minted, parcels@, (i + 1) as nat) is None);
            i += 1;
        }
        None
    }

    /// Mints the parcels of `parcels` to `to`, who pays the unit price for
    /// each to the administrator in one settlement on `rail`.
    ///
    /// The mint goes through, or it is turned down and changes nothing:
    /// neither the engine nor the rail. When it goes through, every request
    /// is recorded in batch order: the holder, the coordinates and one
    /// notification each.
    pub fn mint(
        &mut self,
        auth: &Authorization,
        rail: &mut PaymentRail,
        to: &Address,
        parcels: &Vec<ParcelRequest>,
    ) -> (r: Result<(), MintError>)
        ensures
            match mint_refusal(old(self)@, old(rail)@, auth@, to@, parcels@) {
                Some(e) => {
                    &&& r == Err::<(), MintError>(e)
                    &&& final(self)@ == old(self)@
                    &&& final(rail)@ == old(rail)@
                },
                None => {
                    &&& r is Ok
                    &&& final(self)@ == old(self)@.record_batch(to@, parcels@, parcels@.len())
                    &&& final(rail)@ == settled(old(self)@, old(rail)@, to@, parcels@)
                },
            },
            old(self)@.wf(),
            final(self)@.wf(),
    {
        proof {
            use_type_invariant(&*self);
        }
        if !auth.permits(to) {
            return Err(MintError::Unauthorized);
        }
        let config = match self.load_config() {
            Ok(c) => c,
            Err(e) => return Err(MintError::Contract(e)),
        };
        let due = match total_due(config.price, parcels.len()) {
            Some(d) => d,
            None => return Err(MintError::AmountOverflow),
        };
        if let Some(e) = rail.check_transfer(auth, to, &config.owner, due) {
            return Err(MintError::Payment(e));
        }
        if let Some(e) = self.check_batch(config.max_parcels, parcels) {
            return Err(MintError::Contract(e));
        }
        if let Err(e) = rail.transfer(auth, to, &config.owner, due) {
            return Err(MintError::Payment(e));
        }
        // Nothing can fail from here on. The parts are taken out, updated
        // and put back, ledger last, so that every token with a holder has
        // coordinates at each step.
        let mut ledger = AssetLedger::new();
        core::mem::swap(&mut self.ledger, &mut ledger);
        let mut store = RegistryStore::new();
        core::mem::swap(&mut self.store, &mut store);
        let mut events: Vec<Mint> = Vec::new();
        core::mem::swap(&mut self.events, &mut events);
        let ghost owner = old(self)@.owner;
        let mut i: usize = 0;
        while i < parcels.len()
            invariant
                0 <= i <= parcels@.len(),
                (NftState {
                    owner,
                    store: store@,
                    owners: ledger@,
                    collection: ledger.collection(),
                    events: records(events@),
                }) == old(self)@.record_batch(to@, parcels@, i as nat),
                ledger@.dom().subset_of(store@.geo.dom()),
            decreases parcels@.len() - i,
        {
            let request = parcels[i];
            let ghost logged = events@;
            store.set_geo(request.token_id, request.geo);
            ledger.mint(to, request.token_id);
            events.push(Mint { to: to.clone(), token_id: request.token_id });
            proof {
                assert(records(events@) =~= records(logged).push(
                    MintRecord { to: to@, token_id: request.token_id },
                ));
            }
            i += 1;
        }
        self.events = events;
        self.store = store;
        self.ledger = ledger;
        Ok(())
    }

    /// Asks `oracle` for the live impact metrics of `token_id`. Every call
    /// asks anew; what the oracle answers is passed on as it is.
    pub fn get_live_impact<O: OracleInterface>(&self, oracle: &O, token_id: u32) -> (r: Result<
        ImpactMetrics,
        ContractErrors,
    >)
        ensures
            r == spec_live_impact(self@.store.oracle, oracle.recorded(token_id)),
    {
        if !self.store.has(&DataKey::OracleContract) {
            return Err(ContractErrors::OracleAddressNotSet);
        }
        match oracle.get_metrics(token_id) {
            Some(m) => Ok(m),
            None => Err(ContractErrors::MetricsNotFound),
        }
    }

    /// The coordinates of `token_id`; fails for a parcel that was never
    /// minted.
    pub fn geo_coordinates(&self, token_id: u32) -> (r: Result<GeoCoordinates, ContractErrors>)
        ensures
            r == if self@.store.geo.contains_key(token_id) {
                Ok::<GeoCoordinates, ContractErrors>(self@.store.geo[token_id])
            } else {
                Err::<GeoCoordinates, ContractErrors>(ContractErrors::NoGeoDataFound)
            },
    {
        match self.store.geo(token_id) {
            Some(g) => Ok(g),
            None => Err(ContractErrors::NoGeoDataFound),
        }
    }

    /// The holder of `token_id`, as the asset ledger has it; fails for a
    /// token that was never minted.
    pub fn owner_of(&self, token_id: u32) -> (r: Result<Address, LedgerError>)
        ensures
            match r {
                Ok(a) => self@.owners.contains_key(token_id) && self@.owners[token_id] == a@,
                Err(e) => !self@.owners.contains_key(token_id),
            },
    {
        self.ledger.owner_of(token_id)
    }

    /// The descriptor of `token_id`: the same fixed text for every token.
    pub fn token_uri(&self, token_id: u32) -> (uri: String)
        ensures
            uri@ == TOKEN_URI@,
    {
        TOKEN_URI.to_owned()
    }

    /// The administrator, if one is bound.
    pub fn get_owner(&self) -> (o: Option<Address>)
        ensures
            identity_of(o) == self@.owner,
    {
        self.gate.get_owner()
    }

    /// The asset ledger of the engine.
    pub fn ledger(&self) -> (ledger: &AssetLedger)
        ensures
            ledger@ == self@.owners,
            ledger.collection() == self@.collection,
    {
        &self.ledger
    }

    /// The notifications published so far, oldest first.
    pub fn events(&self) -> (log: &Vec<Mint>)
        ensures
            records(log@) == self@.events,
    {
        &self.events
    }
}

} // verus!
