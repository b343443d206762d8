//! Corridor allocation and orchestration service.
//!
//! A corridor is a logical allocation of an optical data-path resource with
//! negotiated performance characteristics. This library holds the verified
//! core of the daemon that manages a fleet of corridors: the in-memory
//! registry keyed by generated unique ids, the admission decision (attestation
//! gating and the performance estimate), telemetry readback, the per-lane
//! metrics projection, and the recalibration state machine with its
//! deterministic fallback when the calibration peer cannot be reached.
//!
//! Network transport, the HTTP surface, and the metrics exporter live in the
//! surrounding binary; they hand this library plain values and take plain
//! values back.

pub mod attestation;
pub mod calibration;
pub mod clock;
pub mod ids;
pub mod laws;
pub mod metrics;
pub mod sdk;
pub mod service;
pub mod telemetry;
pub mod types;
