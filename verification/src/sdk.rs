//! The minimal offline client SDK.
//!
//! A thin client-side mirror of the daemon's allocation surface. This build
//! of the SDK carries the request and handle types and a client handle with
//! its base URL; the transport itself is not implemented, and both allocation
//! calls say so.

use vstd::prelude::*;

verus! {

/// Quality-of-service settings as the SDK sends them.
#[derive(Clone, Debug)]
pub struct QoSConfig {
    pub pfc: bool,
    pub priority: String,
}

/// A corridor allocation request as the SDK sends it.
#[derive(Clone, Debug)]
pub struct CorridorAllocateRequest {
    pub corridor_type: String,
    pub lanes: u32,
    pub lambda_nm: Vec<u32>,
    pub min_gbps: u32,
    pub latency_budget_ns: u32,
    pub reach_mm: u32,
    pub mode: String,
    pub qos: QoSConfig,
    pub attestation_required: bool,
    pub attestation_ticket: Option<String>,
}

/// The slice of a corridor record the SDK reads back.
#[derive(Clone, Debug)]
pub struct Corridor {
    pub id: String,
    pub status: String,
}

/// A far-fabric-memory allocation request as the SDK sends it.
#[derive(Clone, Debug)]
#[allow(non_snake_case)]
pub struct FfmAllocateRequest {
    pub bytes: u64,
    pub latency_class: String,
    pub bandwidth_floor_GBs: u64,
    pub persistence: String,
    pub shareable: bool,
    pub security_domain: String,
    pub attestation_required: Option<bool>,
    pub attestation_ticket: Option<String>,
}

/// The handle a far-fabric-memory allocation returns.
#[derive(Clone, Debug)]
pub struct FfmHandle {
    pub id: String,
    pub bytes: u64,
}

/// A client handle: the daemon's base URL.
#[derive(Clone, Debug)]
pub struct Client {
    pub base_url: String,
}

impl Client {
    /// A client for the daemon at `base`.
    pub fn new(base: String) -> (c: Client)
        ensures
            c.base_url@ == base@,
    {
        Client { base_url: base }
    }

    /// Allocate a corridor. Not implemented in this offline build: always
    /// says so, and never reaches the network.
    pub fn allocate_corridor(&self, _r: &CorridorAllocateRequest) -> (res: Result<Corridor, String>)
        ensures
            res matches Err(m) && m@ == "not implemented in minimal offline SDK"@,
    {
        Err(String::from_str("not implemented in minimal offline SDK"))
    }

    /// Allocate far-fabric memory. Not implemented in this offline build:
    /// always says so, and never reaches the network.
    pub fn allocate_ffm(&self, _r: &FfmAllocateRequest) -> (res: Result<FfmHandle, String>)
        ensures
            res matches Err(m) && m@ == "not implemented in minimal offline SDK"@,
    {
        Err(String::from_str("not implemented in minimal offline SDK"))
    }
}

} // verus!
