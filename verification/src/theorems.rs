use crate::errors::ContractErrors;
use crate::events::MintRecord;
use crate::nft::{
    donated_before, mint_refusal, settled, spec_live_impact, spec_total_due, violation_at,
    violation_within, MintError, NftState,
};
use crate::oracle::lookup;
use crate::payment::PaymentRail;
use crate::types::{ImpactMetrics, ParcelRequest};
use vstd::prelude::*;

verus! {

/// Every request of `batch` asks for a parcel in `[1, max_parcels]` that was
/// not minted before and that no other request of the batch asks for.
pub open spec fn clean_batch(max_parcels: u32, minted: Set<u32>, batch: Seq<ParcelRequest>) -> bool {
    forall|k: int|
        0 <= k < batch.len() ==> {
            &&& 1 <= (#[trigger] batch[k]).token_id <= max_parcels
            &&& !minted.contains(batch[k].token_id)
            &&& forall|j: int| 0 <= j < k ==> (#[trigger] batch[j]).token_id != batch[k].token_id
        }
}

/// Whether a mint of `batch` to `to` gets as far as looking at the
/// requests: the recipient has consented, the configuration is complete,
/// the total due can be expressed and the rail accepts the settlement.
pub open spec fn settles(
    state: NftState,
    balances: Map<Seq<char>, int>,
    signers: Set<Seq<char>>,
    to: Seq<char>,
    batch: Seq<ParcelRequest>,
) -> bool {
    &&& signers.contains(to)
    &&& state.config() is Ok
    &&& spec_total_due(state.config()->Ok_0.price, batch.len()) is Some
    &&& PaymentRail::transfer_refusal(
        balances,
        signers,
        to,
        state.config()->Ok_0.owner,
        state.config()->Ok_0.price * batch.len(),
    ) is None
}

proof fn lemma_clean_prefix(max_parcels: u32, minted: Set<u32>, batch: Seq<ParcelRequest>, n: nat)
    requires
        n <= batch.len(),
    ensures
        violation_within(max_parcels, minted, batch, n) is None <==> forall|k: int|
            0 <= k < n ==> violation_at(max_parcels, minted, batch, k) is None,
    decreases n,
{
    if n > 0 {
        lemma_clean_prefix(max_parcels, minted, batch, (n - 1) as nat);
    }
}

proof fn lemma_violation_stays(
    max_parcels: u32,
    minted: Set<u32>,
    batch: Seq<ParcelRequest>,
    m: nat,
    n: nat,
)
    requires
        m <= n,
        violation_within(max_parcels, minted, batch, m) is Some,
    ensures
        violation_within(max_parcels, minted, batch, n) == violation_within(
            max_parcels,
            minted,
            batch,
            m,
        ),
    decreases n,
{
    if n > m {
        lemma_violation_stays(max_parcels, minted, batch, m, (n - 1) as nat);
    }
}

proof fn lemma_violation_is_one_of(
    max_parcels: u32,
    minted: Set<u32>,
    batch: Seq<ParcelRequest>,
    n: nat,
)
    requires
        n <= batch.len(),
        violation_within(max_parcels, minted, batch, n) is Some,
    ensures
        exists|k: int|
            0 <= k < n && violation_within(max_parcels, minted, batch, n) == violation_at(
                max_parcels,
                minted,
                batch,
                k,
            ),
    decreases n,
{
    if violation_within(max_parcels, minted, batch, (n - 1) as nat) is Some {
        lemma_violation_is_one_of(max_parcels, minted, batch, (n - 1) as nat);
    }
}

/// Whether one of the first `n` requests of `batch` asks for parcel `id`.
pub open spec fn asks_for(batch: Seq<ParcelRequest>, n: nat, id: u32) -> bool {
    exists|k: int| 0 <= k < n && #[trigger] batch[k].token_id == id
}

proof fn lemma_recorded_frame(state: NftState, to: Seq<char>, batch: Seq<ParcelRequest>, n: nat)
    requires
        n <= batch.len(),
    ensures
        ({
            let after = state.record_batch(to, batch, n);
            &&& after.owner == state.owner
            &&& after.collection == state.collection
            &&& after.store.oracle == state.store.oracle
            &&& after.store.max_parcels == state.store.max_parcels
            &&& after.store.payment_token == state.store.payment_token
            &&& after.store.price == state.store.price
            &&& after.events.len() == state.events.len() + n
            &&& forall|i: int|
                0 <= i < state.events.len() ==> after.events[i] == state.events[i]
            &&& forall|k: int|
                0 <= k < n ==> #[trigger] after.events[state.events.len() + k] == (MintRecord {
                    to,
                    token_id: batch[k].token_id,
                })
        }),
    decreases n,
{
    if n > 0 {
        lemma_recorded_frame(state, to, batch, (n - 1) as nat);
    }
}

proof fn lemma_recorded_parcels(state: NftState, to: Seq<char>, batch: Seq<ParcelRequest>, n: nat)
    requires
        n <= batch.len(),
    ensures
        ({
            let after = state.record_batch(to, batch, n);
            &&& forall|id: u32|
                #[trigger] after.store.geo.contains_key(id) <==> state.store.geo.contains_key(id)
                    || asks_for(batch, n, id)
            &&& forall|id: u32|
                #[trigger] after.owners.contains_key(id) <==> state.owners.contains_key(id)
                    || asks_for(batch, n, id)
            &&& forall|id: u32|
                !asks_for(batch, n, id) ==> #[trigger] after.store.geo[id] == state.store.geo[id]
            &&& forall|id: u32|
                !asks_for(batch, n, id) ==> #[trigger] after.owners[id] == state.owners[id]
        }),
    decreases n,
{
    if n > 0 {
        let m = (n - 1) as nat;
        lemma_recorded_parcels(state, to, batch, m);
        let before = state.record_batch(to, batch, m);
        let after = state.record_batch(to, batch, n);
        let last = batch[n - 1].token_id;
        assert(after == before.record(to, batch[n - 1]));
        assert forall|id: u32| asks_for(batch, n, id) <==> asks_for(batch, m, id) || id == last by {
            if asks_for(batch, m, id) {
                let k = choose|k: int| 0 <= k < m && #[trigger] batch[k].token_id == id;
                assert(0 <= k < n && batch[k].token_id == id);
            }
            if id == last {
                assert(batch[n - 1].token_id == id);
            }
            if asks_for(batch, n, id) {
                let k = choose|k: int| 0 <= k < n && #[trigger] batch[k].token_id == id;
                if k < m {
                    assert(0 <= k < m && batch[k].token_id == id);
                }
            }
        }
    }
}

proof fn lemma_recorded_request(
    state: NftState,
    to: Seq<char>,
    batch: Seq<ParcelRequest>,
    n: nat,
    k: int,
)
    requires
        n <= batch.len(),
        0 <= k < n,
        forall|j: int| k < j < n ==> #[trigger] batch[j].token_id != batch[k].token_id,
    ensures
        state.record_batch(to, batch, n).store.geo[batch[k].token_id] == batch[k].geo,
        state.record_batch(to, batch, n).owners[batch[k].token_id] == to,
    decreases n,
{
    if k < n - 1 {
        lemma_recorded_request(state, to, batch, (n - 1) as nat, k);
        assert(batch[n - 1].token_id != batch[k].token_id);
    }
}

/// A batch passes the checks on its requests exactly when each request
/// asks for a parcel that is in range, was not minted before and is asked
/// for once.
pub proof fn theorem_clean_batch_passes(
    max_parcels: u32,
    minted: Set<u32>,
    batch: Seq<ParcelRequest>,
)
    ensures
        violation_within(max_parcels, minted, batch, batch.len()) is None <==> clean_batch(
            max_parcels,
            minted,
            batch,
        ),
{
    lemma_clean_prefix(max_parcels, minted, batch, batch.len());
    if !clean_batch(max_parcels, minted, batch) {
        let k = choose|k: int|
            0 <= k < batch.len() && !({
                &&& 1 <= (#[trigger] batch[k]).token_id <= max_parcels
                &&& !minted.contains(batch[k].token_id)
                &&& forall|j: int| 0 <= j < k ==> (#[trigger] batch[j]).token_id != batch[k].token_id
            });
        assert(violation_at(max_parcels, minted, batch, k) is Some);
    }
}

/// A mint goes through exactly when it gets as far as the requests and the
/// batch is clean.
pub proof fn theorem_mint_goes_through(
    state: NftState,
    balances: Map<Seq<char>, int>,
    signers: Set<Seq<char>>,
    to: Seq<char>,
    batch: Seq<ParcelRequest>,
)
    ensures
        mint_refusal(state, balances, signers, to, batch) is None <==> {
            &&& settles(state, balances, signers, to, batch)
            &&& clean_batch(state.config()->Ok_0.max_parcels, state.store.geo.dom(), batch)
        },
{
    if state.config() is Ok {
        theorem_clean_batch_passes(state.config()->Ok_0.max_parcels, state.store.geo.dom(), batch);
    }
}

/// After a mint of a clean batch to `to`, every parcel of the batch is held
/// by `to` and lies at the coordinates of its request; one notification per
/// request is published, in batch order; and the configuration and the
/// metadata of the collection are as they were.
pub proof fn theorem_mint_assigns_parcels(
    state: NftState,
    balances: Map<Seq<char>, int>,
    signers: Set<Seq<char>>,
    to: Seq<char>,
    batch: Seq<ParcelRequest>,
)
    requires
        settles(state, balances, signers, to, batch),
        clean_batch(state.config()->Ok_0.max_parcels, state.store.geo.dom(), batch),
    ensures
        mint_refusal(state, balances, signers, to, batch) is None,
        ({
            let after = state.record_batch(to, batch, batch.len());
            &&& forall|k: int|
                0 <= k < batch.len() ==> {
                    &&& after.owners.contains_key((#[trigger] batch[k]).token_id)
                    &&& after.owners[batch[k].token_id] == to
                    &&& after.store.geo.contains_key(batch[k].token_id)
                    &&& after.store.geo[batch[k].token_id] == batch[k].geo
                }
            &&& after.events.len() == state.events.len() + batch.len()
            &&& forall|k: int|
                0 <= k < batch.len() ==> after.events[state.events.len() + k] == (MintRecord {
                    to,
                    token_id: (#[trigger] batch[k]).token_id,
                })
            &&& after.config() == state.config()
            &&& after.store.oracle == state.store.oracle
            &&& after.collection == state.collection
        }),
{
    theorem_mint_goes_through(state, balances, signers, to, batch);
    lemma_recorded_frame(state, to, batch, batch.len());
    lemma_recorded_parcels(state, to, batch, batch.len());
    let after = state.record_batch(to, batch, batch.len());
    assert forall|k: int| 0 <= k < batch.len() implies {
        &&& after.owners.contains_key((#[trigger] batch[k]).token_id)
        &&& after.owners[batch[k].token_id] == to
        &&& after.store.geo.contains_key(batch[k].token_id)
        &&& after.store.geo[batch[k].token_id] == batch[k].geo
    } by {
        lemma_recorded_request(state, to, batch, batch.len(), k);
        assert(asks_for(batch, batch.len(), batch[k].token_id));
    }
}

/// A mint that goes through takes exactly the unit price times the number
/// of requests from the recipient and gives it to the administrator, and
/// moves nothing else. A recipient who is the administrator pays itself,
/// so the statement leaves that case out.
pub proof fn theorem_mint_charges_recipient(
    state: NftState,
    balances: Map<Seq<char>, int>,
    signers: Set<Seq<char>>,
    to: Seq<char>,
    batch: Seq<ParcelRequest>,
)
    requires
        mint_refusal(state, balances, signers, to, batch) is None,
        to != state.config()->Ok_0.owner,
    ensures
        ({
            let terms = state.config()->Ok_0;
            let after = settled(state, balances, to, batch);
            &&& after[to] == balances[to] - terms.price * batch.len()
            &&& after[terms.owner] == balances[terms.owner] + terms.price * batch.len()
            &&& forall|who: Seq<char>|
                who != to && who != terms.owner ==> after[who] == balances[who]
            &&& after[to] >= 0
        }),
{
}

/// A mint never touches a parcel that was minted before: its holder and
/// its coordinates stay, and so does every earlier notification. A parcel
/// that is neither minted before nor asked for stays unminted.
pub proof fn theorem_mint_keeps_earlier_parcels(
    state: NftState,
    balances: Map<Seq<char>, int>,
    signers: Set<Seq<char>>,
    to: Seq<char>,
    batch: Seq<ParcelRequest>,
)
    requires
        state.wf(),
        mint_refusal(state, balances, signers, to, batch) is None,
    ensures
        ({
            let after = state.record_batch(to, batch, batch.len());
            &&& after.wf()
            &&& forall|id: u32| #[trigger]
                state.store.geo.contains_key(id) ==> after.store.geo.contains_key(id)
                    && after.store.geo[id] == state.store.geo[id]
            &&& forall|id: u32| #[trigger]
                state.owners.contains_key(id) ==> after.owners.contains_key(id)
                    && after.owners[id] == state.owners[id]
            &&& forall|i: int|
                0 <= i < state.events.len() ==> after.events[i] == state.events[i]
            &&& forall|id: u32|
                !state.store.geo.contains_key(id) && !asks_for(batch, batch.len(), id) ==> !(
                #[trigger] after.store.geo.contains_key(id)) && !after.owners.contains_key(id)
        }),
{
    theorem_mint_goes_through(state, balances, signers, to, batch);
    lemma_recorded_frame(state, to, batch, batch.len());
    lemma_recorded_parcels(state, to, batch, batch.len());
    let after = state.record_batch(to, batch, batch.len());
    assert forall|id: u32| state.owners.contains_key(id) implies state.store.geo.contains_key(
        id,
    ) by {
        assert(state.owners.dom().contains(id));
    }
    assert(after.owners.dom().subset_of(after.store.geo.dom()));
}

/// A batch that asks for a parcel minted before is turned down as already
/// donated, wherever the request stands, as long as the requests up to it
/// are in range: the first thing wrong in batch order decides.
pub proof fn theorem_minted_parcel_refused(
    state: NftState,
    balances: Map<Seq<char>, int>,
    signers: Set<Seq<char>>,
    to: Seq<char>,
    batch: Seq<ParcelRequest>,
    k: int,
)
    requires
        settles(state, balances, signers, to, batch),
        0 <= k < batch.len(),
        state.store.geo.contains_key(batch[k].token_id),
        forall|j: int|
            0 <= j <= k ==> 1 <= (#[trigger] batch[j]).token_id <= state.config()->Ok_0.max_parcels,
    ensures
        mint_refusal(state, balances, signers, to, batch) == Some(
            MintError::Contract(ContractErrors::ParcelAlreadyDonated),
        ),
{
    let max_parcels = state.config()->Ok_0.max_parcels;
    let minted = state.store.geo.dom();
    let upto = (k + 1) as nat;
    assert(violation_at(max_parcels, minted, batch, k) == Some(
        ContractErrors::ParcelAlreadyDonated,
    ));
    lemma_clean_prefix(max_parcels, minted, batch, upto);
    lemma_violation_is_one_of(max_parcels, minted, batch, upto);
    let first = choose|i: int|
        0 <= i < upto && violation_within(max_parcels, minted, batch, upto) == violation_at(
            max_parcels,
            minted,
            batch,
            i,
        );
    lemma_violation_stays(max_parcels, minted, batch, upto, batch.len());
}

/// A batch that asks for a parcel outside `[1, max_parcels]` is turned down
/// as invalid, wherever the request stands, as long as no request before it
/// asks for a parcel that is taken: the first thing wrong in batch order
/// decides.
pub proof fn theorem_out_of_range_refused(
    state: NftState,
    balances: Map<Seq<char>, int>,
    signers: Set<Seq<char>>,
    to: Seq<char>,
    batch: Seq<ParcelRequest>,
    k: int,
)
    requires
        settles(state, balances, signers, to, batch),
        0 <= k < batch.len(),
        batch[k].token_id == 0 || batch[k].token_id > state.config()->Ok_0.max_parcels,
        forall|j: int| 0 <= j < k ==> !donated_before(state.store.geo.dom(), batch, j),
    ensures
        mint_refusal(state, balances, signers, to, batch) == Some(
            MintError::Contract(ContractErrors::InvalidParcelId),
        ),
{
    let max_parcels = state.config()->Ok_0.max_parcels;
    let minted = state.store.geo.dom();
    let upto = (k + 1) as nat;
    assert(violation_at(max_parcels, minted, batch, k) == Some(ContractErrors::InvalidParcelId));
    lemma_clean_prefix(max_parcels, minted, batch, upto);
    lemma_violation_is_one_of(max_parcels, minted, batch, upto);
    lemma_violation_stays(max_parcels, minted, batch, upto, batch.len());
}

/// A mint to which the recipient has not consented is turned down as
/// unauthorized, whatever else holds.
pub proof fn theorem_unauthorized_mint_refused(
    state: NftState,
    balances: Map<Seq<char>, int>,
    signers: Set<Seq<char>>,
    to: Seq<char>,
    batch: Seq<ParcelRequest>,
)
    requires
        !signers.contains(to),
    ensures
        mint_refusal(state, balances, signers, to, batch) == Some(MintError::Unauthorized),
{
}

/// Once a parcel is minted, every later mint that asks for it is turned
/// down as already donated, as long as the requests up to it are in range.
pub proof fn theorem_second_mint_refused(
    state: NftState,
    balances: Map<Seq<char>, int>,
    signers: Set<Seq<char>>,
    to: Seq<char>,
    batch: Seq<ParcelRequest>,
    later_balances: Map<Seq<char>, int>,
    later_signers: Set<Seq<char>>,
    later_to: Seq<char>,
    later_batch: Seq<ParcelRequest>,
    i: int,
    k: int,
)
    requires
        mint_refusal(state, balances, signers, to, batch) is None,
        0 <= i < batch.len(),
        0 <= k < later_batch.len(),
        later_batch[k].token_id == batch[i].token_id,
        settles(
            state.record_batch(to, batch, batch.len()),
            later_balances,
            later_signers,
            later_to,
            later_batch,
        ),
        forall|j: int|
            0 <= j <= k ==> 1 <= (#[trigger] later_batch[j]).token_id
                <= state.config()->Ok_0.max_parcels,
    ensures
        mint_refusal(
            state.record_batch(to, batch, batch.len()),
            later_balances,
            later_signers,
            later_to,
            later_batch,
        ) == Some(MintError::Contract(ContractErrors::ParcelAlreadyDonated)),
{
    lemma_recorded_frame(state, to, batch, batch.len());
    lemma_recorded_parcels(state, to, batch, batch.len());
    let after = state.record_batch(to, batch, batch.len());
    assert(asks_for(batch, batch.len(), later_batch[k].token_id)) by {
        assert(batch[i].token_id == later_batch[k].token_id);
    }
    assert(after.store.geo.contains_key(later_batch[k].token_id));
    theorem_minted_parcel_refused(after, later_balances, later_signers, later_to, later_batch, k);
}

/// A live impact query answers with exactly the metrics that the oracle
/// recorded last for the token, and fails with `MetricsNotFound` while the
/// oracle has recorded none for it.
pub proof fn theorem_live_impact_follows_oracle(
    oracle: Seq<char>,
    measurements: Map<u32, ImpactMetrics>,
    token_id: u32,
    metrics: ImpactMetrics,
)
    ensures
        spec_live_impact(Some(oracle), lookup(measurements.insert(token_id, metrics), token_id))
            == Ok::<ImpactMetrics, ContractErrors>(metrics),
        !measurements.contains_key(token_id) ==> spec_live_impact(
            Some(oracle),
            lookup(measurements, token_id),
        ) == Err::<ImpactMetrics, ContractErrors>(ContractErrors::MetricsNotFound),
        spec_live_impact(Some(oracle), lookup(Map::empty(), token_id)) == Err::<
            ImpactMetrics,
            ContractErrors,
        >(ContractErrors::MetricsNotFound),
{
}

} // verus!
