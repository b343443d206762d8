//! The metrics projector: per-lane observability samples.
//!
//! Purely a function of a corridor snapshot and an optional telemetry
//! reading; it carries no state of its own, so the same inputs always give
//! the same samples. The exporter in the surrounding binary turns each sample
//! into one gauge set per lane.

use crate::types::{Corridor, CorridorView, Drift, TelemetryData};
use vstd::prelude::*;

verus! {

/// One observability record for one lane of a corridor.
#[derive(Clone, Copy, Debug, PartialEq, Eq, Structural)]
pub struct LaneSample {
    /// Lane number, counted from one.
    pub lane: u32,
    /// The lane's nominal wavelength.
    pub lambda_nm: u32,
    /// Bit-error rate in units of 1e-20: the aggregate rate jittered
    /// deterministically by one part in 1e5 per lane index.
    pub ber_e20: u64,
    pub temp_milli_c: u64,
    pub power_milli_pj_per_bit: u64,
    pub utilization_milli_percent: u64,
    pub error_count: u64,
}

/// The telemetry the projector works from: the reading supplied, or the
/// nominal figures assumed for a corridor that has not been read yet.
pub open spec fn spec_projector_input(telem: Option<TelemetryData>) -> TelemetryData {
    match telem {
        Some(t) => t,
        None => TelemetryData {
            ber_e15: 1000,
            temp_milli_c: 40000,
            power_milli_pj_per_bit: 1000,
            drift: Drift::Unknown,
            utilization_milli_percent: 0,
            error_count: 0,
        },
    }
}

/// The sample projected for lane index `i` (counted from zero) of a corridor
/// with wavelength plan `c.lambda_nm`, from telemetry `t`: the bit-error rate
/// is jittered by a factor of (1 + i/1e5), the temperature raised by 0.05
/// degrees per lane, the power by 0.005 pJ/bit per lane.
pub open spec fn spec_lane_sample(c: CorridorView, t: TelemetryData, i: int) -> LaneSample {
    LaneSample {
        lane: (i + 1) as u32,
        lambda_nm: c.lambda_nm[i],
        ber_e20: (t.ber_e15 * (100000 + i)) as u64,
        temp_milli_c: (t.temp_milli_c + i * 50) as u64,
        power_milli_pj_per_bit: (t.power_milli_pj_per_bit + i * 5) as u64,
        utilization_milli_percent: t.utilization_milli_percent,
        error_count: t.error_count,
    }
}

/// Whether every lane's jittered figures fit their fields, so that the
/// projection is exact.
pub open spec fn spec_projection_fits(c: CorridorView, t: TelemetryData) -> bool {
    &&& c.lambda_nm.len() < 0x1_0000_0000
    &&& t.ber_e15 * (100000 + c.lambda_nm.len()) <= u64::MAX
    &&& t.temp_milli_c + c.lambda_nm.len() * 50 <= u64::MAX
    &&& t.power_milli_pj_per_bit + c.lambda_nm.len() * 5 <= u64::MAX
}

/// One observability record per lane of `c`, derived from `telem` (or from
/// the nominal figures when `telem` is absent). Idempotent: recomputable at
/// any time from its inputs alone.
pub fn project_lane_samples(c: &Corridor, telem: Option<TelemetryData>) -> (r: Vec<LaneSample>)
    requires
        spec_projection_fits(c@, spec_projector_input(telem)),
    ensures
        r@.len() == c.lambda_nm@.len(),
        forall|i: int|
            0 <= i < r@.len() ==> r@[i] == spec_lane_sample(
                c@,
                spec_projector_input(telem),
                i,
            ),
{
    let t = match telem {
        Some(t) => t,
        None => TelemetryData {
            ber_e15: 1000,
            temp_milli_c: 40000,
            power_milli_pj_per_bit: 1000,
            drift: Drift::Unknown,
            utilization_milli_percent: 0,
            error_count: 0,
        },
    };
    let mut r: Vec<LaneSample> = Vec::new();
    let mut i: usize = 0;
    while i < c.lambda_nm.len()
        invariant
            i <= c.lambda_nm@.len(),
            r@.len() == i,
            t == spec_projector_input(telem),
            spec_projection_fits(c@, t),
            forall|j: int| 0 <= j < i ==> r@[j] == spec_lane_sample(c@, t, j),
        decreases c.lambda_nm@.len() - i,
    {
        let lane_index = i as u64;
        proof {
            assert(t.ber_e15 * (100000 + i as int) <= t.ber_e15 * (100000
                + c.lambda_nm@.len())) by (nonlinear_arith)
                requires
                    0 <= i < c.lambda_nm@.len(),
                    t.ber_e15 >= 0,
            ;
        }
        let sample = LaneSample {
            lane: (i as u32) + 1,
            lambda_nm: c.lambda_nm[i],
            ber_e20: t.ber_e15 * (100000 + lane_index),
            temp_milli_c: t.temp_milli_c + lane_index * 50,
            power_milli_pj_per_bit: t.power_milli_pj_per_bit + lane_index * 5,
            utilization_milli_percent: t.utilization_milli_percent,
            error_count: t.error_count,
        };
        r.push(sample);
        i = i + 1;
    }
    r
}

} // verus!
