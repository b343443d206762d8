//! Data model: corridors, telemetry samples, calibration outcomes, errors.
//!
//! Quantities that the wire format carries as fractional numbers are held
//! here as scaled integers so that every contract over them is exact:
//! bit-error rates in units of 1e-15, temperatures in millidegrees Celsius,
//! power in milli-picojoule per bit, utilization and power savings in
//! milli-percent, eye margin in milli-units, bias voltages in microvolts,
//! wavelength shifts in milli-nanometres, power adjustments in milli-decibels.

use vstd::prelude::*;

verus! {

/// Physical substrate of a corridor; a closed set.
#[derive(Clone, Copy, Debug, PartialEq, Eq, Structural)]
pub enum CorridorType {
    SiCorridor,
    CarbonCorridor,
}

/// Lifecycle state of a corridor.
#[derive(Clone, Copy, Debug, PartialEq, Eq, Structural)]
pub enum CorridorStatus {
    Active,
    Calibrating,
    Error,
    Maintenance,
}

/// Qualitative signal-quality headroom rating; a closed set. `Good` is
/// rendered as `"ok"` on the wire, `Marginal` as `"marginal"`.
#[derive(Clone, Copy, Debug, PartialEq, Eq, Structural)]
pub enum EyeMargin {
    Good,
    Marginal,
}

/// Drift classification of a telemetry reading; a closed set.
#[derive(Clone, Copy, Debug, PartialEq, Eq, Structural)]
pub enum Drift {
    Low,
    Unknown,
}

/// Quality-of-service settings requested for a corridor.
#[derive(Clone, Debug)]
pub struct QoSSettings {
    pub pfc: bool,
    pub priority: String,
}

/// Abstract value of a [`QoSSettings`].
pub ghost struct QoSView {
    pub pfc: bool,
    pub priority: Seq<char>,
}

impl View for QoSSettings {
    type V = QoSView;

    open spec fn view(&self) -> QoSView {
        QoSView { pfc: self.pfc, priority: self.priority@ }
    }
}

/// An allocation request for a new corridor.
#[derive(Clone, Debug)]
pub struct CorridorRequest {
    pub corridor_type: CorridorType,
    pub lanes: u32,
    pub lambda_nm: Vec<u32>,
    pub min_gbps: u32,
    pub latency_budget_ns: u32,
    pub reach_mm: u32,
    pub mode: String,
    pub qos: QoSSettings,
    pub attestation_required: bool,
    pub attestation_ticket: Option<String>,
}

/// Abstract value of a [`CorridorRequest`].
pub ghost struct CorridorRequestView {
    pub corridor_type: CorridorType,
    pub lanes: u32,
    pub lambda_nm: Seq<u32>,
    pub min_gbps: u32,
    pub latency_budget_ns: u32,
    pub reach_mm: u32,
    pub mode: Seq<char>,
    pub qos: QoSView,
    pub attestation_required: bool,
    pub attestation_ticket: Option<Seq<char>>,
}

impl View for CorridorRequest {
    type V = CorridorRequestView;

    open spec fn view(&self) -> CorridorRequestView {
        CorridorRequestView {
            corridor_type: self.corridor_type,
            lanes: self.lanes,
            lambda_nm: self.lambda_nm@,
            min_gbps: self.min_gbps,
            latency_budget_ns: self.latency_budget_ns,
            reach_mm: self.reach_mm,
            mode: self.mode@,
            qos: self.qos@,
            attestation_ticket: match self.attestation_ticket {
                Some(t) => Some(t@),
                None => None,
            },
            attestation_required: self.attestation_required,
        }
    }
}

/// An admitted corridor: the request-derived fields plus the fields the
/// service computes at admission and mutates during recalibration.
#[derive(Clone, Debug)]
pub struct Corridor {
    pub id: String,
    pub corridor_type: CorridorType,
    pub lanes: u32,
    pub lambda_nm: Vec<u32>,
    pub min_gbps: u32,
    pub latency_budget_ns: u32,
    pub reach_mm: u32,
    pub mode: String,
    pub qos: QoSSettings,
    pub attestation_required: bool,
    pub attestation_ticket: Option<String>,
    pub achievable_gbps: u32,
    pub ber_e15: u64,
    pub eye_margin: EyeMargin,
    pub created_at_unix_ms: i64,
    pub status: CorridorStatus,
}

/// Abstract value of a [`Corridor`].
pub ghost struct CorridorView {
    pub id: Seq<char>,
    pub corridor_type: CorridorType,
    pub lanes: u32,
    pub lambda_nm: Seq<u32>,
    pub min_gbps: u32,
    pub latency_budget_ns: u32,
    pub reach_mm: u32,
    pub mode: Seq<char>,
    pub qos: QoSView,
    pub attestation_required: bool,
    pub attestation_ticket: Option<Seq<char>>,
    pub achievable_gbps: u32,
    pub ber_e15: u64,
    pub eye_margin: EyeMargin,
    pub created_at_unix_ms: i64,
    pub status: CorridorStatus,
}

impl CorridorView {
    /// The same corridor with its lifecycle state replaced.
    pub open spec fn with_status(self, status: CorridorStatus) -> CorridorView {
        CorridorView { status, ..self }
    }
}

impl View for Corridor {
    type V = CorridorView;

    open spec fn view(&self) -> CorridorView {
        CorridorView {
            id: self.id@,
            corridor_type: self.corridor_type,
            lanes: self.lanes,
            lambda_nm: self.lambda_nm@,
            min_gbps: self.min_gbps,
            latency_budget_ns: self.latency_budget_ns,
            reach_mm: self.reach_mm,
            mode: self.mode@,
            qos: self.qos@,
            attestation_required: self.attestation_required,
            attestation_ticket: match self.attestation_ticket {
                Some(t) => Some(t@),
                None => None,
            },
            achievable_gbps: self.achievable_gbps,
            ber_e15: self.ber_e15,
            eye_margin: self.eye_margin,
            created_at_unix_ms: self.created_at_unix_ms,
            status: self.status,
        }
    }
}

/// An element-for-element copy of a vector of wavelengths.
pub(crate) fn copy_u32_vec(v: &Vec<u32>) -> (r: Vec<u32>)
    ensures
        r@ == v@,
{
    let mut r: Vec<u32> = Vec::new();
    let mut i: usize = 0;
    while i < v.len()
        invariant
            i <= v@.len(),
            r@ == v@.subrange(0, i as int),
        decreases v@.len() - i,
    {
        r.push(v[i]);
        i = i + 1;
        proof {
            assert(r@ =~= v@.subrange(0, i as int));
        }
    }
    proof {
        assert(r@ =~= v@);
    }
    r
}

impl Corridor {
    /// A copy of this corridor with the same abstract value; what a reader of
    /// the registry is handed.
    pub fn snapshot(&self) -> (c: Corridor)
        ensures
            c@ == self@,
    {
        Corridor {
            id: self.id.clone(),
            corridor_type: self.corridor_type,
            lanes: self.lanes,
            lambda_nm: copy_u32_vec(&self.lambda_nm),
            min_gbps: self.min_gbps,
            latency_budget_ns: self.latency_budget_ns,
            reach_mm: self.reach_mm,
            mode: self.mode.clone(),
            qos: QoSSettings { pfc: self.qos.pfc, priority: self.qos.priority.clone() },
            attestation_required: self.attestation_required,
            attestation_ticket: match &self.attestation_ticket {
                Some(t) => Some(t.clone()),
                None => None,
            },
            achievable_gbps: self.achievable_gbps,
            ber_e15: self.ber_e15,
            eye_margin: self.eye_margin,
            created_at_unix_ms: self.created_at_unix_ms,
            status: self.status,
        }
    }
}

/// One instantaneous telemetry reading for a corridor; never persisted.
#[derive(Clone, Copy, Debug, PartialEq, Eq, Structural)]
pub struct TelemetryData {
    pub ber_e15: u64,
    pub temp_milli_c: u64,
    pub power_milli_pj_per_bit: u64,
    pub drift: Drift,
    pub utilization_milli_percent: u64,
    pub error_count: u64,
}

/// A request to recalibrate a corridor.
#[derive(Clone, Debug)]
pub struct RecalibrateRequest {
    pub target_ber_e15: u64,
    pub ambient_profile: String,
}

/// Abstract value of a [`RecalibrateRequest`].
pub ghost struct RecalibrateRequestView {
    pub target_ber_e15: u64,
    pub ambient_profile: Seq<char>,
}

impl View for RecalibrateRequest {
    type V = RecalibrateRequestView;

    open spec fn view(&self) -> RecalibrateRequestView {
        RecalibrateRequestView {
            target_ber_e15: self.target_ber_e15,
            ambient_profile: self.ambient_profile@,
        }
    }
}

/// A calibration outcome, produced either by the calibration peer or by the
/// deterministic fallback; always returned to the caller of a recalibration.
#[derive(Clone, Debug)]
pub struct RecalibrateResponse {
    pub status: String,
    pub converged: bool,
    pub bias_voltages_microvolt: Vec<i64>,
    pub lambda_shifts_milli_nm: Vec<i64>,
    pub laser_power_adjust_milli_db: Vec<i64>,
    pub convergence_time_ms: u64,
    pub final_ber_e15: u64,
    pub final_eye_margin_milli: u64,
    pub power_savings_milli_percent: i64,
}

/// Abstract value of a [`RecalibrateResponse`].
pub ghost struct RecalibrateResponseView {
    pub status: Seq<char>,
    pub converged: bool,
    pub bias_voltages_microvolt: Seq<i64>,
    pub lambda_shifts_milli_nm: Seq<i64>,
    pub laser_power_adjust_milli_db: Seq<i64>,
    pub convergence_time_ms: u64,
    pub final_ber_e15: u64,
    pub final_eye_margin_milli: u64,
    pub power_savings_milli_percent: i64,
}

impl View for RecalibrateResponse {
    type V = RecalibrateResponseView;

    open spec fn view(&self) -> RecalibrateResponseView {
        RecalibrateResponseView {
            status: self.status@,
            converged: self.converged,
            bias_voltages_microvolt: self.bias_voltages_microvolt@,
            lambda_shifts_milli_nm: self.lambda_shifts_milli_nm@,
            laser_power_adjust_milli_db: self.laser_power_adjust_milli_db@,
            convergence_time_ms: self.convergence_time_ms,
            final_ber_e15: self.final_ber_e15,
            final_eye_margin_milli: self.final_eye_margin_milli,
            power_savings_milli_percent: self.power_savings_milli_percent,
        }
    }
}

/// The request composed for the calibration peer: the corridor's identity and
/// current condition together with the caller's calibration targets.
#[derive(Clone, Debug)]
pub struct HelioCalibrationRequest {
    pub corridor_id: String,
    pub target_ber_e15: u64,
    pub ambient_profile: String,
    pub current_ber_e15: u64,
    pub current_eye_margin_milli: u64,
    pub temperature_milli_c: u64,
    pub lambda_count: u32,
}

/// Abstract value of a [`HelioCalibrationRequest`].
pub ghost struct HelioCalibrationRequestView {
    pub corridor_id: Seq<char>,
    pub target_ber_e15: u64,
    pub ambient_profile: Seq<char>,
    pub current_ber_e15: u64,
    pub current_eye_margin_milli: u64,
    pub temperature_milli_c: u64,
    pub lambda_count: u32,
}

impl View for HelioCalibrationRequest {
    type V = HelioCalibrationRequestView;

    open spec fn view(&self) -> HelioCalibrationRequestView {
        HelioCalibrationRequestView {
            corridor_id: self.corridor_id@,
            target_ber_e15: self.target_ber_e15,
            ambient_profile: self.ambient_profile@,
            current_ber_e15: self.current_ber_e15,
            current_eye_margin_milli: self.current_eye_margin_milli,
            temperature_milli_c: self.temperature_milli_c,
            lambda_count: self.lambda_count,
        }
    }
}

/// Why a request was refused. A performance shortfall is never a refusal;
/// only an unknown corridor id or a failed attestation is.
#[derive(Clone, Debug)]
pub enum ServiceError {
    /// The named corridor id is not in the registry.
    NotFound { id: String },
    /// Attestation was required but no ticket (or an empty one) was supplied.
    MissingAttestation,
    /// Attestation was required and the supplied ticket did not verify.
    AttestationInvalid,
}

/// Abstract value of a [`ServiceError`].
pub ghost enum ServiceErrorView {
    NotFound { id: Seq<char> },
    MissingAttestation,
    AttestationInvalid,
}

impl View for ServiceError {
    type V = ServiceErrorView;

    open spec fn view(&self) -> ServiceErrorView {
        match self {
            ServiceError::NotFound { id } => ServiceErrorView::NotFound { id: id@ },
            ServiceError::MissingAttestation => ServiceErrorView::MissingAttestation,
            ServiceError::AttestationInvalid => ServiceErrorView::AttestationInvalid,
        }
    }
}

impl ServiceError {
    /// A human-readable description of the error.
    pub fn message(&self) -> (m: String)
        ensures
            self@ matches ServiceErrorView::NotFound { id }
                ==> m@ == "Corridor "@ + id + " not found"@,
            self@ is MissingAttestation
                ==> m@ == "attestation required but no ticket provided"@,
            self@ is AttestationInvalid ==> m@ == "attestation ticket invalid or expired"@,
    {
        match self {
            ServiceError::NotFound { id } => {
                let mut m = String::new();
                m.append("Corridor ");
                m.append(id.as_str());
                m.append(" not found");
                m
            },
            ServiceError::MissingAttestation => {
                String::from_str("attestation required but no ticket provided")
            },
            ServiceError::AttestationInvalid => {
                String::from_str("attestation ticket invalid or expired")
            },
        }
    }
}

} // verus!
