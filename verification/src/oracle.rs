use crate::types::{HealthStatus, ImpactMetrics};
use std::collections::HashMap;
use vstd::prelude::*;

verus! {

broadcast use vstd::std_specs::hash::group_hash_axioms;

/// What the engine asks of an oracle: a point lookup by asset id.
pub trait OracleInterface {
    /// The metrics that the oracle currently holds for `asset_id`, if any.
    spec fn recorded(&self, asset_id: u32) -> Option<ImpactMetrics>;

    /// Returns the metrics that the oracle currently holds for `asset_id`.
    fn get_metrics(&self, asset_id: u32) -> (m: Option<ImpactMetrics>)
        ensures
            m == self.recorded(asset_id),
    ;
}

/// Why an oracle turned a measurement down.
#[derive(Clone, Copy, Debug, PartialEq, Eq)]
pub enum OracleError {
    /// The growth stage is past the last one.
    UnknownHealthStage,
}

/// An oracle that keeps the latest measurement of each asset in memory.
pub struct ImpactOracle {
    metrics: HashMap<u32, ImpactMetrics>,
}

impl View for ImpactOracle {
    type V = Map<u32, ImpactMetrics>;

    closed spec fn view(&self) -> Map<u32, ImpactMetrics> {
        self.metrics@
    }
}

/// The metrics that a record of measurements holds for `asset_id`, if any.
pub open spec fn lookup(measurements: Map<u32, ImpactMetrics>, asset_id: u32) -> Option<
    ImpactMetrics,
> {
    if measurements.contains_key(asset_id) {
        Some(measurements[asset_id])
    } else {
        None
    }
}

impl ImpactOracle {
    /// An oracle that has measured nothing.
    pub fn new() -> (oracle: ImpactOracle)
        ensures
            oracle@ == Map::<u32, ImpactMetrics>::empty(),
    {
        ImpactOracle { metrics: HashMap::new() }
    }

    /// Records a measurement of `asset_id`, replacing any earlier one.
    /// `health` is the position of the growth stage; a position past the
    /// last stage is refused and changes nothing.
    pub fn update_impact_metrics(
        &mut self,
        asset_id: u32,
        biomass: i128,
        co2: i128,
        health: u32,
    ) -> (r: Result<(), OracleError>)
        ensures
            match HealthStatus::spec_from_stage(health) {
                Some(stage) => r is Ok && final(self)@ == old(self)@.insert(
                    asset_id,
                    ImpactMetrics { biomass, co2_captured: co2, health: stage },
                ),
                None => r is Err && final(self)@ == old(self)@,
            },
    {
        match HealthStatus::from_stage(health) {
            Some(stage) => {
                self.metrics.insert(
                    asset_id,
                    ImpactMetrics { biomass, co2_captured: co2, health: stage },
                );
                Ok(())
            },
            None => Err(OracleError::UnknownHealthStage),
        }
    }
}

impl OracleInterface for ImpactOracle {
    open spec fn recorded(&self, asset_id: u32) -> Option<ImpactMetrics> {
        lookup(self@, asset_id)
    }

    fn get_metrics(&self, asset_id: u32) -> (m: Option<ImpactMetrics>) {
        match self.metrics.get(&asset_id) {
            Some(m) => Some(*m),
            None => None,
        }
    }
}

} // verus!
