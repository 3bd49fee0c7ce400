use crate::address::Address;
use vstd::prelude::*;

verus! {

/// The notification published for each parcel that is minted.
#[derive(Clone, Debug, PartialEq, Eq)]
pub struct Mint {
    /// The recipient, by which the notification is indexed.
    pub to: Address,
    pub token_id: u32,
}

/// A mint notification with the recipient taken as an identity.
pub struct MintRecord {
    pub to: Seq<char>,
    pub token_id: u32,
}

impl View for Mint {
    type V = MintRecord;

    open spec fn view(&self) -> MintRecord {
        MintRecord { to: self.to@, token_id: self.token_id }
    }
}

/// The notifications of a log, oldest first.
pub open spec fn records(log: Seq<Mint>) -> Seq<MintRecord> {
    log.map_values(|m: Mint| m@)
}

} // verus!
