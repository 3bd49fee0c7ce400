//! A verified issuance and registry engine for reforestation parcels.
//!
//! Each parcel is a uniquely identified, non-fungible record bound to
//! immutable geographic coordinates. Minting settles a fixed unit price on a
//! payment rail, and holders can read live impact metrics that an oracle
//! records for their parcel.
//!
//! The engine is written over explicit state. What a deployed contract
//! reaches through its host (the ledger's storage, the consent of a signer,
//! the payment asset, the oracle) is a value here that an operation takes
//! and gives back, so that every operation has a contract over the whole of
//! it and Verus proves the contract:
//!
//! - [`address`] and [`auth`]: identities, and the proof of authorization
//!   that a privileged operation checks first.
//! - [`store`], [`ownable`], [`ledger`], [`payment`], [`oracle`]: the
//!   registry store, the access gate, the asset ledger, the payment rail and
//!   the oracle, each with the operations the engine asks of it.
//! - [`nft`]: the pay-to-mint engine. A mint goes through as a whole or is
//!   turned down and changes nothing; which of the two, and why, is a
//!   function of the state before the call.
//! - [`contract`]: the administrator-gated engine, where only the
//!   administrator mints and each parcel carries a descriptor link.
//! - [`theorems`]: what follows for every state and every batch.
//!
//! The decisions that do not need the state ([`nft::missing_field`],
//! [`nft::total_due`], [`nft::check_request`], [`contract::check_new`],
//! [`contract::check_minted`]) are functions of plain values, for a
//! deployment that keeps its state elsewhere.

pub mod address;
pub mod auth;
pub mod contract;
pub mod errors;
pub mod events;
pub mod ledger;
pub mod nft;
pub mod oracle;
pub mod ownable;
pub mod payment;
pub mod store;
pub mod theorems;
pub mod types;
