//! The calibration orchestrator.
//!
//! A recalibration drives one corridor through the state machine
//! Active → Calibrating → Active. The caller first opens the attempt
//! ([`CorridorService::recalibrate_begin`]), which marks the corridor
//! Calibrating and composes the request for the external calibration peer;
//! the surrounding binary then makes the bounded single-attempt peer call;
//! finally the caller closes the attempt
//! ([`CorridorService::recalibrate_finish`]) with the peer's outcome — or
//! with none, on any connection failure, non-success status, malformed body
//! or timeout — and the corridor returns to Active either way. When no peer
//! outcome is supplied, a deterministic synthetic outcome is substituted;
//! recalibration always returns a result.

use crate::service::CorridorService;
use crate::telemetry::spec_synthetic_sample;
use crate::types::{
    CorridorStatus, CorridorView, HelioCalibrationRequest, HelioCalibrationRequestView,
    RecalibrateRequest, RecalibrateRequestView, RecalibrateResponse, RecalibrateResponseView,
    ServiceError, ServiceErrorView, TelemetryData,
};
use vstd::prelude::*;

verus! {

/// Bias applied to every lane by the fallback outcome, in microvolts (1.2 mV).
pub const FALLBACK_BIAS_MICROVOLT: i64 = 1200;

/// Convergence time reported by the fallback outcome, in milliseconds.
pub const FALLBACK_CONVERGENCE_TIME_MS: u64 = 150;

/// Bit-error rate reported by the fallback outcome, in units of 1e-15
/// (that is, 1e-12).
pub const FALLBACK_FINAL_BER_E15: u64 = 1000;

/// Eye margin reported by the fallback outcome, in milli-units (0.8).
pub const FALLBACK_EYE_MARGIN_MILLI: u64 = 800;

/// Power savings reported by the fallback outcome, in milli-percent (10%).
pub const FALLBACK_POWER_SAVINGS_MILLI_PERCENT: i64 = 10000;

/// Eye margin reported to the peer as the corridor's current one, in
/// milli-units (0.8).
pub const CURRENT_EYE_MARGIN_MILLI: u64 = 800;

/// The deterministic synthetic outcome substituted when the calibration peer
/// fails: converged, a fixed bias on every lane, no wavelength or power
/// shifts, a fixed convergence time, the nominal healthy bit-error rate and
/// eye margin, and a fixed power-savings estimate.
pub open spec fn spec_fallback_outcome(lane_count: nat) -> RecalibrateResponseView {
    RecalibrateResponseView {
        status: "converged"@,
        converged: true,
        bias_voltages_microvolt: Seq::new(lane_count, |i: int| FALLBACK_BIAS_MICROVOLT),
        lambda_shifts_milli_nm: Seq::new(lane_count, |i: int| 0i64),
        laser_power_adjust_milli_db: Seq::new(lane_count, |i: int| 0i64),
        convergence_time_ms: FALLBACK_CONVERGENCE_TIME_MS,
        final_ber_e15: FALLBACK_FINAL_BER_E15,
        final_eye_margin_milli: FALLBACK_EYE_MARGIN_MILLI,
        power_savings_milli_percent: FALLBACK_POWER_SAVINGS_MILLI_PERCENT,
    }
}

/// The request composed for the calibration peer on behalf of corridor `c`,
/// from the caller's targets `req` and the corridor's telemetry `t`.
pub open spec fn spec_calibration_call(
    c: CorridorView,
    req: RecalibrateRequestView,
    t: TelemetryData,
) -> HelioCalibrationRequestView {
    HelioCalibrationRequestView {
        corridor_id: c.id,
        target_ber_e15: req.target_ber_e15,
        ambient_profile: req.ambient_profile,
        current_ber_e15: t.ber_e15,
        current_eye_margin_milli: CURRENT_EYE_MARGIN_MILLI,
        temperature_milli_c: t.temp_milli_c,
        lambda_count: c.lanes,
    }
}

/// `n` copies of `value`.
fn repeat_i64(value: i64, n: usize) -> (r: Vec<i64>)
    ensures
        r@ == Seq::new(n as nat, |i: int| value),
{
    let mut r: Vec<i64> = Vec::new();
    let mut i: usize = 0;
    while i < n
        invariant
            i <= n,
            r@ == Seq::new(i as nat, |j: int| value),
        decreases n - i,
    {
        r.push(value);
        i = i + 1;
        proof {
            assert(r@ =~= Seq::new(i as nat, |j: int| value));
        }
    }
    r
}

/// The fallback outcome for a corridor with `lane_count` lanes; reproducible
/// across runs.
pub fn fallback_outcome(lane_count: usize) -> (r: RecalibrateResponse)
    ensures
        r@ == spec_fallback_outcome(lane_count as nat),
{
    RecalibrateResponse {
        status: String::from_str("converged"),
        converged: true,
        bias_voltages_microvolt: repeat_i64(FALLBACK_BIAS_MICROVOLT, lane_count),
        lambda_shifts_milli_nm: repeat_i64(0, lane_count),
        laser_power_adjust_milli_db: repeat_i64(0, lane_count),
        convergence_time_ms: FALLBACK_CONVERGENCE_TIME_MS,
        final_ber_e15: FALLBACK_FINAL_BER_E15,
        final_eye_margin_milli: FALLBACK_EYE_MARGIN_MILLI,
        power_savings_milli_percent: FALLBACK_POWER_SAVINGS_MILLI_PERCENT,
    }
}

impl CorridorService {
    /// The wavelength-plan length of the corridor with id `id`; zero for an
    /// unknown id. The fallback outcome sizes its per-lane vectors by this.
    pub open spec fn spec_lane_count(&self, id: Seq<char>) -> nat {
        if self.contains_id(id) {
            let i = choose|i: int|
                0 <= i < self.corridors@.len() && (#[trigger] self.corridors@[i]).corridor.id@
                    == id;
            self.corridors@[i].corridor.lambda_nm@.len()
        } else {
            0
        }
    }

    /// Open a recalibration attempt: mark the corridor Calibrating (visible
    /// to every reader at once), take a telemetry reading, and compose the
    /// request for the calibration peer. For an unknown id, `NotFound` and no
    /// change at all.
    pub fn recalibrate_begin(&mut self, id: &str, req: &RecalibrateRequest) -> (r: Result<
        HelioCalibrationRequest,
        ServiceError,
    >)
        requires
            old(self).wf(),
        ensures
            final(self).wf(),
            final(self).next_id == old(self).next_id,
            r matches Err(e) ==> !old(self).contains_id(id@) && e@ == (ServiceErrorView::NotFound {
                id: id@,
            }) && *final(self) == *old(self),
            r matches Ok(call) ==> old(self).contains_id(id@) && {
                &&& exists|i: int|
                    0 <= i < old(self).corridors@.len() && (#[trigger] old(
                        self,
                    ).corridors@[i]).corridor.id@ == id@ && call@ == spec_calibration_call(
                        old(self).corridors@[i].corridor@,
                        req@,
                        spec_synthetic_sample(),
                    )
                &&& final(self).corridors@.len() == old(self).corridors@.len()
                &&& forall|i: int|
                    0 <= i < old(self).corridors@.len() ==> if old(
                        self,
                    ).corridors@[i].corridor.id@ == id@ {
                        (#[trigger] final(self).corridors@[i]).num == old(
                            self,
                        ).corridors@[i].num && final(self).corridors@[i].corridor@ == old(
                            self,
                        ).corridors@[i].corridor@.with_status(CorridorStatus::Calibrating)
                    } else {
                        final(self).corridors@[i] == old(self).corridors@[i]
                    }
            },
    {
        let ghost pre = *self;
        let snapshot = match self.get_corridor(id) {
            Ok(c) => c,
            Err(e) => {
                return Err(e);
            },
        };
        let ghost wi = choose|i: int|
            0 <= i < pre.corridors@.len() && (#[trigger] pre.corridors@[i]).corridor.id@ == id@
                && snapshot@ == pre.corridors@[i].corridor@;
        match self.update_status(id, CorridorStatus::Calibrating) {
            Ok(u) => (),
            Err(e) => (),
        };
        proof {
            assert(self.corridors@[wi].corridor@ == pre.corridors@[wi].corridor@.with_status(
                CorridorStatus::Calibrating,
            ));
            assert(self.corridors@[wi].corridor.id@ == id@);
            assert(self.contains_id(id@));
        }
        let telemetry = match self.get_telemetry(id) {
            Ok(t) => t,
            Err(e) => crate::telemetry::baseline_sample(),
        };
        let call = HelioCalibrationRequest {
            corridor_id: snapshot.id,
            target_ber_e15: req.target_ber_e15,
            ambient_profile: req.ambient_profile.clone(),
            current_ber_e15: telemetry.ber_e15,
            current_eye_margin_milli: CURRENT_EYE_MARGIN_MILLI,
            temperature_milli_c: telemetry.temp_milli_c,
            lambda_count: snapshot.lanes,
        };
        proof {
            assert(telemetry == spec_synthetic_sample());
            assert(call@ == spec_calibration_call(
                pre.corridors@[wi].corridor@,
                req@,
                spec_synthetic_sample(),
            ));
        }
        Ok(call)
    }

    /// Close a recalibration attempt: adopt the peer's outcome verbatim when
    /// one arrived, substitute the deterministic fallback when none did, and
    /// return the corridor to Active either way. Never fails: a peer failure
    /// is absorbed, never surfaced.
    pub fn recalibrate_finish(&mut self, id: &str, peer: Option<RecalibrateResponse>) -> (r:
        RecalibrateResponse)
        requires
            old(self).wf(),
        ensures
            final(self).wf(),
            final(self).next_id == old(self).next_id,
            final(self).corridors@.len() == old(self).corridors@.len(),
            forall|i: int|
                0 <= i < old(self).corridors@.len() ==> if old(self).corridors@[i].corridor.id@
                    == id@ {
                    (#[trigger] final(self).corridors@[i]).num == old(self).corridors@[i].num
                        && final(self).corridors@[i].corridor@ == old(
                        self,
                    ).corridors@[i].corridor@.with_status(CorridorStatus::Active)
                } else {
                    final(self).corridors@[i] == old(self).corridors@[i]
                },
            peer matches Some(p) ==> r == p,
            peer is None ==> r@ == spec_fallback_outcome(old(self).spec_lane_count(id@)),
    {
        let lane_count: usize = match self.find_index(id) {
            Some(i) => {
                let n = self.corridors[i].corridor.lambda_nm.len();
                proof {
                    let j = choose|j: int|
                        0 <= j < self.corridors@.len() && (#[trigger] self.corridors@[j]).corridor.id@
                            == id@;
                    if j != i as int {
                        self.lemma_ids_unique(j, i as int);
                    }
                }
                n
            },
            None => 0,
        };
        let outcome = match peer {
            Some(p) => p,
            None => fallback_outcome(lane_count),
        };
        match self.update_status(id, CorridorStatus::Active) {
            Ok(u) => (),
            Err(e) => (),
        };
        outcome
    }
}

} // verus!
