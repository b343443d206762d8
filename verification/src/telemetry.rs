//! Telemetry readback.
//!
//! A real deployment plugs a hardware poller in here; this service produces a
//! bounded synthetic reading for any known corridor. A baseline sample stands
//! in whenever a reading cannot be had, so that a recalibration is never
//! aborted for want of telemetry.

use crate::service::CorridorService;
use crate::types::{Drift, ServiceError, ServiceErrorView, TelemetryData};
use vstd::prelude::*;

verus! {

/// The synthetic reading reported for a healthy corridor.
pub open spec fn spec_synthetic_sample() -> TelemetryData {
    TelemetryData {
        ber_e15: 1100,
        temp_milli_c: 47500,
        power_milli_pj_per_bit: 900,
        drift: Drift::Low,
        utilization_milli_percent: 85300,
        error_count: 0,
    }
}

/// The baseline sample substituted when no reading can be had.
pub open spec fn spec_baseline_sample() -> TelemetryData {
    TelemetryData {
        ber_e15: 1000,
        temp_milli_c: 25000,
        power_milli_pj_per_bit: 1000,
        drift: Drift::Unknown,
        utilization_milli_percent: 0,
        error_count: 0,
    }
}

/// The synthetic reading for a healthy corridor: a bit-error rate of
/// 1.1e-12, 47.5 degrees Celsius, 0.9 pJ/bit, low drift, 85.3% utilization,
/// no errors.
pub fn synthetic_sample() -> (t: TelemetryData)
    ensures
        t == spec_synthetic_sample(),
{
    TelemetryData {
        ber_e15: 1100,
        temp_milli_c: 47500,
        power_milli_pj_per_bit: 900,
        drift: Drift::Low,
        utilization_milli_percent: 85300,
        error_count: 0,
    }
}

/// The baseline sample: the nominal bit-error rate, room temperature,
/// 1 pJ/bit, unknown drift, idle, no errors.
pub fn baseline_sample() -> (t: TelemetryData)
    ensures
        t == spec_baseline_sample(),
{
    TelemetryData {
        ber_e15: 1000,
        temp_milli_c: 25000,
        power_milli_pj_per_bit: 1000,
        drift: Drift::Unknown,
        utilization_milli_percent: 0,
        error_count: 0,
    }
}

impl CorridorService {
    /// Read telemetry for one corridor: the synthetic sample for a known id,
    /// `NotFound` naming the id otherwise. Never mutates the registry.
    pub fn get_telemetry(&self, id: &str) -> (r: Result<TelemetryData, ServiceError>)
        ensures
            r matches Ok(t) ==> self.contains_id(id@) && t == spec_synthetic_sample(),
            r matches Err(e) ==> !self.contains_id(id@) && e@ == (ServiceErrorView::NotFound {
                id: id@,
            }),
    {
        match self.find_index(id) {
            Some(i) => Ok(synthetic_sample()),
            None => Err(ServiceError::NotFound { id: id.to_owned() }),
        }
    }
}

} // verus!
