use vstd::prelude::*;

verus! {

/// Every terminal condition the parcel engine raises on its own account.
#[derive(Clone, Copy, Debug, PartialEq, Eq, PartialOrd, Ord)]
pub enum ContractErrors {
    MaxParcelsNotSet,
    OwnerNotSet,
    PaymentTokenNotSet,
    PriceNotSet,
    InvalidParcelId,
    ParcelAlreadyDonated,
    OracleAddressNotSet,
    MetricsNotFound,
    NoGeoDataFound,
}

impl ContractErrors {
    /// The numeric code under which the condition is reported on the ledger.
    pub open spec fn spec_code(self) -> u32 {
        match self {
            ContractErrors::MaxParcelsNotSet => 1,
            ContractErrors::OwnerNotSet => 2,
            ContractErrors::PaymentTokenNotSet => 3,
            ContractErrors::PriceNotSet => 4,
            ContractErrors::InvalidParcelId => 5,
            ContractErrors::ParcelAlreadyDonated => 6,
            ContractErrors::OracleAddressNotSet => 7,
            ContractErrors::MetricsNotFound => 8,
            ContractErrors::NoGeoDataFound => 9,
        }
    }

    /// Returns the numeric code of the condition.
    pub fn code(&self) -> (c: u32)
        ensures
            c == self.spec_code(),
            1 <= c <= 9,
    {
        match self {
            ContractErrors::MaxParcelsNotSet => 1,
            ContractErrors::OwnerNotSet => 2,
            ContractErrors::PaymentTokenNotSet => 3,
            ContractErrors::PriceNotSet => 4,
            ContractErrors::InvalidParcelId => 5,
            ContractErrors::ParcelAlreadyDonated => 6,
            ContractErrors::OracleAddressNotSet => 7,
            ContractErrors::MetricsNotFound => 8,
            ContractErrors::NoGeoDataFound => 9,
        }
    }
}

} // verus!
