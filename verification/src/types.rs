use vstd::prelude::*;

verus! {

/// The growth stage that the oracle reports for a parcel. The stages are
/// listed in the order a planting passes through them; the engine reads the
/// current stage and enforces no transition between them.
#[derive(Clone, Copy, Debug, PartialEq, Eq)]
pub enum HealthStatus {
    Germinating,
    Sprouted,
    ReadyForTransplant,
    Planted,
}

impl HealthStatus {
    /// The position of the stage in the order of growth, starting at zero.
    pub open spec fn spec_stage(self) -> u32 {
        match self {
            HealthStatus::Germinating => 0,
            HealthStatus::Sprouted => 1,
            HealthStatus::ReadyForTransplant => 2,
            HealthStatus::Planted => 3,
        }
    }

    /// The stage at position `stage`, if there is one.
    pub open spec fn spec_from_stage(stage: u32) -> Option<HealthStatus> {
        if stage == 0 {
            Some(HealthStatus::Germinating)
        } else if stage == 1 {
            Some(HealthStatus::Sprouted)
        } else if stage == 2 {
            Some(HealthStatus::ReadyForTransplant)
        } else if stage == 3 {
            Some(HealthStatus::Planted)
        } else {
            None
        }
    }

    /// Returns the position of the stage in the order of growth.
    pub fn stage(&self) -> (n: u32)
        ensures
            n == self.spec_stage(),
            HealthStatus::spec_from_stage(n) == Some(*self),
    {
        match self {
            HealthStatus::Germinating => 0,
            HealthStatus::Sprouted => 1,
            HealthStatus::ReadyForTransplant => 2,
            HealthStatus::Planted => 3,
        }
    }

    /// Returns the stage at position `stage`, or `None` past the last one.
    pub fn from_stage(stage: u32) -> (h: Option<HealthStatus>)
        ensures
            h == HealthStatus::spec_from_stage(stage),
            h is Some <==> stage <= 3,
            h is Some ==> h->0.spec_stage() == stage,
    {
        match stage {
            0 => Some(HealthStatus::Germinating),
            1 => Some(HealthStatus::Sprouted),
            2 => Some(HealthStatus::ReadyForTransplant),
            3 => Some(HealthStatus::Planted),
            _ => None,
        }
    }
}

/// What the oracle measures for one parcel.
#[derive(Clone, Copy, Debug, PartialEq, Eq)]
pub struct ImpactMetrics {
    /// Biomass, in grams.
    pub biomass: i128,
    /// Captured carbon dioxide, in milligrams.
    pub co2_captured: i128,
    /// Current growth stage.
    pub health: HealthStatus,
}

/// The logical keys of the registry store.
#[derive(Clone, Copy, Debug, PartialEq, Eq)]
pub enum DataKey {
    /// Address of the oracle.
    OracleContract,
    /// Coordinates of the parcel with the given token id.
    Geo(u32),
    /// Largest token id that may be minted.
    MaxParcels,
    /// Address of the payment asset.
    PaymentToken,
    /// Price of one parcel, in the smallest unit of the payment asset.
    Price,
}

/// Where a parcel lies.
#[derive(Clone, Copy, Debug, PartialEq, Eq)]
pub struct GeoCoordinates {
    pub latitude: i32,
    pub longitude: i32,
}

/// One item of a mint batch: the parcel to mint and where it lies.
#[derive(Clone, Copy, Debug, PartialEq, Eq)]
pub struct ParcelRequest {
    pub token_id: u32,
    pub geo: GeoCoordinates,
}

} // verus!
