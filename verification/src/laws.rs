//! Laws the service obeys, stated and proved once for every input.

use crate::calibration::spec_fallback_outcome;
use crate::calibration::{
    FALLBACK_CONVERGENCE_TIME_MS, FALLBACK_EYE_MARGIN_MILLI, FALLBACK_FINAL_BER_E15,
    FALLBACK_POWER_SAVINGS_MILLI_PERCENT,
};
use crate::service::{spec_achievable, spec_eye_margin, CorridorService};
use crate::types::EyeMargin;
use vstd::prelude::*;

verus! {

/// In a well-formed registry, ids are unique: no two slots carry the same id,
/// however many corridors were admitted. Since every allocation preserves
/// well-formedness, the ids returned over any run of allocations are pairwise
/// distinct.
pub proof fn lemma_registry_ids_unique(s: &CorridorService)
    requires
        s.wf(),
    ensures
        forall|i: int, j: int|
            0 <= i < s.corridors@.len() && 0 <= j < s.corridors@.len() && i != j
                ==> s.corridors@[i].corridor.id@ != s.corridors@[j].corridor.id@,
{
    assert forall|i: int, j: int|
        0 <= i < s.corridors@.len() && 0 <= j < s.corridors@.len() && i
            != j implies s.corridors@[i].corridor.id@ != s.corridors@[j].corridor.id@ by {
        s.lemma_ids_unique(i, j);
    }
}

/// The estimator's policy: the achievable bandwidth is never negative and
/// never falls short of the requested minimum, so under this estimator a
/// fresh corridor's eye margin is always `Good`.
pub proof fn lemma_estimator_policy(min_gbps: u32)
    ensures
        spec_achievable(min_gbps) >= 0,
        spec_achievable(min_gbps) >= min_gbps,
        spec_eye_margin(spec_achievable(min_gbps), min_gbps) == EyeMargin::Good,
{
    assert(min_gbps as int * 104 / 100 >= min_gbps as int) by (nonlinear_arith);
}

/// The eye-margin rating takes exactly two values: `Good` precisely when the
/// achievable bandwidth meets the requested minimum, `Marginal` precisely
/// when it falls short — never anything else, and never a rejection.
pub proof fn lemma_eye_margin_rating(achievable_gbps: u32, min_gbps: u32)
    ensures
        spec_eye_margin(achievable_gbps, min_gbps) == EyeMargin::Good <==> achievable_gbps
            >= min_gbps,
        spec_eye_margin(achievable_gbps, min_gbps) == EyeMargin::Marginal <==> achievable_gbps
            < min_gbps,
{
}

/// Reads are deterministic: in a well-formed registry a given id names at
/// most one slot, so two lookups of the same id with no mutation in between
/// see the same corridor record.
pub proof fn lemma_get_deterministic(s: &CorridorService, i: int, j: int)
    requires
        s.wf(),
        0 <= i < s.corridors@.len(),
        0 <= j < s.corridors@.len(),
        s.corridors@[i].corridor.id@ == s.corridors@[j].corridor.id@,
    ensures
        i == j,
        s.corridors@[i].corridor@ == s.corridors@[j].corridor@,
{
    if i != j {
        s.lemma_ids_unique(i, j);
    }
}

/// The fallback outcome is the same on every run: converged, no wavelength
/// shift and no power adjustment on any lane, and fixed convergence time,
/// final bit-error rate, final eye margin and power savings.
pub proof fn lemma_fallback_deterministic(lane_count: nat)
    ensures
        spec_fallback_outcome(lane_count).converged == true,
        spec_fallback_outcome(lane_count).lambda_shifts_milli_nm.len() == lane_count,
        spec_fallback_outcome(lane_count).laser_power_adjust_milli_db.len() == lane_count,
        forall|i: int|
            0 <= i < lane_count ==> spec_fallback_outcome(lane_count).lambda_shifts_milli_nm[i]
                == 0,
        forall|i: int|
            0 <= i < lane_count ==> spec_fallback_outcome(lane_count).laser_power_adjust_milli_db[i]
                == 0,
        spec_fallback_outcome(lane_count).convergence_time_ms == FALLBACK_CONVERGENCE_TIME_MS,
        spec_fallback_outcome(lane_count).final_ber_e15 == FALLBACK_FINAL_BER_E15,
        spec_fallback_outcome(lane_count).final_eye_margin_milli == FALLBACK_EYE_MARGIN_MILLI,
        spec_fallback_outcome(lane_count).power_savings_milli_percent
            == FALLBACK_POWER_SAVINGS_MILLI_PERCENT,
{
}

} // verus!
