//! The corridor service: the registry of admitted corridors and the
//! admission decision.
//!
//! The registry is the only shared mutable state of the daemon. It owns id
//! generation: ids are issued from a counter that only grows, so an id is
//! never reused for the lifetime of the service ([`CorridorService::wf`]).

use crate::ids::{format_id, id_seq, lemma_id_seq_injective};
use crate::types::{
    Corridor, CorridorRequest, CorridorRequestView, CorridorStatus, CorridorView, EyeMargin,
    ServiceError, ServiceErrorView,
};
use vstd::prelude::*;

verus! {

/// Bit-error rate assumed for a freshly admitted corridor, in units of 1e-15
/// (that is, 1e-12).
pub const NOMINAL_BER_E15: u64 = 1000;

/// One registry slot: the counter value the corridor's id was issued from,
/// beside the corridor itself.
pub struct RegistryEntry {
    pub num: u32,
    pub corridor: Corridor,
}

/// The corridor service: every admitted corridor, keyed by generated id,
/// and the id counter.
pub struct CorridorService {
    pub corridors: Vec<RegistryEntry>,
    pub next_id: u32,
}

/// Whether attestation is demanded but no usable ticket accompanies the
/// request (the ticket is absent or empty).
pub open spec fn spec_missing_ticket(req: CorridorRequestView) -> bool {
    req.attestation_required && match req.attestation_ticket {
        None => true,
        Some(t) => t.len() == 0,
    }
}

/// Whether the request is admitted: attestation is either not demanded, or a
/// nonempty ticket was supplied and verified.
pub open spec fn spec_admissible(req: CorridorRequestView, ticket_valid: bool) -> bool {
    !req.attestation_required || (!spec_missing_ticket(req) && ticket_valid)
}

/// The estimator's achievable bandwidth: the requested minimum plus a four
/// percent margin, rounded down, saturated at the field's maximum.
pub open spec fn spec_achievable(min_gbps: u32) -> u32 {
    if min_gbps as int * 104 / 100 > u32::MAX as int {
        u32::MAX
    } else {
        (min_gbps as int * 104 / 100) as u32
    }
}

/// The eye-margin rating: `Good` exactly when the achievable bandwidth meets
/// the requested minimum, `Marginal` otherwise — never any other value.
pub open spec fn spec_eye_margin(achievable_gbps: u32, min_gbps: u32) -> EyeMargin {
    if achievable_gbps >= min_gbps {
        EyeMargin::Good
    } else {
        EyeMargin::Marginal
    }
}

/// The corridor record admitted for `req` under id `id` at time `now_unix_ms`.
pub open spec fn spec_admitted(
    req: CorridorRequestView,
    id: Seq<char>,
    now_unix_ms: i64,
) -> CorridorView {
    CorridorView {
        id,
        corridor_type: req.corridor_type,
        lanes: req.lanes,
        lambda_nm: req.lambda_nm,
        min_gbps: req.min_gbps,
        latency_budget_ns: req.latency_budget_ns,
        reach_mm: req.reach_mm,
        mode: req.mode,
        qos: req.qos,
        attestation_required: req.attestation_required,
        attestation_ticket: req.attestation_ticket,
        achievable_gbps: spec_achievable(req.min_gbps),
        ber_e15: NOMINAL_BER_E15,
        eye_margin: spec_eye_margin(spec_achievable(req.min_gbps), req.min_gbps),
        created_at_unix_ms: now_unix_ms,
        status: CorridorStatus::Active,
    }
}

/// The ticket the attestation service must be asked about before admission:
/// present exactly when the request demands attestation and carries a
/// nonempty ticket. When this returns `None` no verification call is needed:
/// the request is either attestation-free or already rejectable.
pub fn ticket_to_verify(req: &CorridorRequest) -> (r: Option<String>)
    ensures
        match r {
            Some(t) => req.attestation_required && !spec_missing_ticket(req@) && Some(t@)
                == req@.attestation_ticket,
            None => !req.attestation_required || spec_missing_ticket(req@),
        },
{
    if !req.attestation_required {
        return None;
    }
    match &req.attestation_ticket {
        None => None,
        Some(t) => {
            if t.as_str().is_empty() {
                None
            } else {
                Some(t.clone())
            }
        },
    }
}

impl CorridorService {
    /// Well-formedness of the registry: the id counter is ahead of every
    /// issued id, issue order is strictly increasing (so numbers are never
    /// reused), and every stored id is the rendering of its counter value.
    pub open spec fn wf(&self) -> bool {
        &&& 1 <= self.next_id
        &&& forall|i: int|
            0 <= i < self.corridors@.len() ==> (#[trigger] self.corridors@[i]).num < self.next_id
        &&& forall|i: int, j: int|
            0 <= i < j < self.corridors@.len() ==> self.corridors@[i].num
                < self.corridors@[j].num
        &&& forall|i: int|
            0 <= i < self.corridors@.len() ==> (#[trigger] self.corridors@[i]).corridor.id@
                == id_seq(self.corridors@[i].num as nat)
    }

    /// Whether some stored corridor carries the id `id`.
    pub open spec fn contains_id(&self, id: Seq<char>) -> bool {
        exists|i: int|
            0 <= i < self.corridors@.len() && (#[trigger] self.corridors@[i]).corridor.id@ == id
    }

    /// In a well-formed registry, no two slots carry the same id.
    pub proof fn lemma_ids_unique(&self, i: int, j: int)
        requires
            self.wf(),
            0 <= i < self.corridors@.len(),
            0 <= j < self.corridors@.len(),
            i != j,
        ensures
            self.corridors@[i].corridor.id@ != self.corridors@[j].corridor.id@,
    {
        if self.corridors@[i].corridor.id@ == self.corridors@[j].corridor.id@ {
            lemma_id_seq_injective(
                self.corridors@[i].num as nat,
                self.corridors@[j].num as nat,
            );
        }
    }

    /// An empty service: no corridors, the id counter at its start.
    pub fn new() -> (s: CorridorService)
        ensures
            s.wf(),
            s.corridors@.len() == 0,
            s.next_id == 1,
    {
        CorridorService { corridors: Vec::new(), next_id: 1 }
    }

    /// Issue a fresh id: one that no stored corridor carries and that no
    /// earlier call has returned.
    pub fn generate_id(&mut self) -> (id: String)
        requires
            old(self).wf(),
            old(self).next_id < u32::MAX,
        ensures
            final(self).wf(),
            final(self).corridors == old(self).corridors,
            final(self).next_id == old(self).next_id + 1,
            id@ == id_seq(old(self).next_id as nat),
            !old(self).contains_id(id@),
    {
        let id = format_id(self.next_id);
        proof {
            assert forall|i: int|
                0 <= i < self.corridors@.len() implies (#[trigger] self.corridors@[i]).corridor.id@
                != id@ by {
                if self.corridors@[i].corridor.id@ == id@ {
                    lemma_id_seq_injective(self.corridors@[i].num as nat, self.next_id as nat);
                }
            }
        }
        self.next_id = self.next_id + 1;
        id
    }

    /// The slot holding the corridor with id `id`, if any.
    pub(crate) fn find_index(&self, id: &str) -> (r: Option<usize>)
        ensures
            match r {
                Some(i) => i < self.corridors@.len() && self.corridors@[i as int].corridor.id@
                    == id@,
                None => !self.contains_id(id@),
            },
    {
        let key: String = id.to_owned();
        let mut i: usize = 0;
        while i < self.corridors.len()
            invariant
                i <= self.corridors@.len(),
                key@ == id@,
                forall|j: int| 0 <= j < i ==> (#[trigger] self.corridors@[j]).corridor.id@ != id@,
            decreases self.corridors@.len() - i,
        {
            if self.corridors[i].corridor.id == key {
                return Some(i);
            }
            i = i + 1;
        }
        None
    }

    /// Read one corridor: a snapshot of the record with id `id`, or
    /// `NotFound` naming the id.
    pub fn get_corridor(&self, id: &str) -> (r: Result<Corridor, ServiceError>)
        ensures
            match r {
                Ok(c) => exists|i: int|
                    0 <= i < self.corridors@.len() && (#[trigger] self.corridors@[i]).corridor.id@
                        == id@ && c@ == self.corridors@[i].corridor@,
                Err(e) => !self.contains_id(id@) && e@ == (ServiceErrorView::NotFound {
                    id: id@,
                }),
            },
    {
        match self.find_index(id) {
            Some(i) => Ok(self.corridors[i].corridor.snapshot()),
            None => Err(ServiceError::NotFound { id: id.to_owned() }),
        }
    }

    /// A snapshot of every stored corridor, in registry order.
    pub fn list_corridors(&self) -> (r: Vec<Corridor>)
        ensures
            r@.len() == self.corridors@.len(),
            forall|i: int|
                0 <= i < r@.len() ==> (#[trigger] r@[i])@ == self.corridors@[i].corridor@,
    {
        let mut r: Vec<Corridor> = Vec::new();
        let mut i: usize = 0;
        while i < self.corridors.len()
            invariant
                i <= self.corridors@.len(),
                r@.len() == i,
                forall|j: int|
                    0 <= j < i ==> (#[trigger] r@[j])@ == self.corridors@[j].corridor@,
            decreases self.corridors@.len() - i,
        {
            r.push(self.corridors[i].corridor.snapshot());
            i = i + 1;
        }
        r
    }

    /// The admission decision, with the admission time supplied by the
    /// caller. `ticket_valid` is the attestation service's verdict on the
    /// request's ticket; it is consulted only when the request demands
    /// attestation and carries a nonempty ticket (see [`ticket_to_verify`]).
    ///
    /// A nonempty well-attested (or attestation-free) request is always
    /// admitted: a performance shortfall downgrades the eye margin to
    /// `Marginal` but never rejects. On rejection the registry is unchanged.
    pub fn allocate_corridor_at(
        &mut self,
        req: CorridorRequest,
        ticket_valid: bool,
        now_unix_ms: i64,
    ) -> (r: Result<Corridor, ServiceError>)
        requires
            old(self).wf(),
            old(self).next_id < u32::MAX,
        ensures
            final(self).wf(),
            spec_missing_ticket(req@) ==> (r matches Err(e) && e@ is MissingAttestation) && *final(self) == *old(self),
            req.attestation_required && !spec_missing_ticket(req@) && !ticket_valid ==> (
            r matches Err(e) && e@ is AttestationInvalid) && *final(self) == *old(self),
            spec_admissible(req@, ticket_valid) ==> (r matches Ok(c) && {
                &&& c@ == spec_admitted(req@, id_seq(old(self).next_id as nat), now_unix_ms)
                &&& !old(self).contains_id(c@.id)
                &&& final(self).next_id == old(self).next_id + 1
                &&& final(self).corridors@.len() == old(self).corridors@.len() + 1
                &&& forall|i: int|
                    0 <= i < old(self).corridors@.len() ==> final(self).corridors@[i] == old(
                        self,
                    ).corridors@[i]
                &&& final(self).corridors@.last().num == old(self).next_id
                &&& final(self).corridors@.last().corridor@ == c@
            }),
    {
        if req.attestation_required {
            match &req.attestation_ticket {
                None => {
                    return Err(ServiceError::MissingAttestation);
                },
                Some(t) => {
                    if t.as_str().is_empty() {
                        return Err(ServiceError::MissingAttestation);
                    }
                    if !ticket_valid {
                        return Err(ServiceError::AttestationInvalid);
                    }
                },
            }
        }
        let ghost pre = *self;
        let num = self.next_id;
        let id = self.generate_id();
        let wide: u64 = (req.min_gbps as u64) * 104 / 100;
        let achievable_gbps: u32 = if wide > 0xFFFF_FFFF {
            u32::MAX
        } else {
            wide as u32
        };
        let eye_margin = if achievable_gbps >= req.min_gbps {
            EyeMargin::Good
        } else {
            EyeMargin::Marginal
        };
        let corridor = Corridor {
            id,
            corridor_type: req.corridor_type,
            lanes: req.lanes,
            lambda_nm: req.lambda_nm,
            min_gbps: req.min_gbps,
            latency_budget_ns: req.latency_budget_ns,
            reach_mm: req.reach_mm,
            mode: req.mode,
            qos: req.qos,
            attestation_required: req.attestation_required,
            attestation_ticket: req.attestation_ticket,
            achievable_gbps,
            ber_e15: NOMINAL_BER_E15,
            eye_margin,
            created_at_unix_ms: now_unix_ms,
            status: CorridorStatus::Active,
        };
        let snapshot = corridor.snapshot();
        self.corridors.push(RegistryEntry { num, corridor });
        proof {
            assert(self.corridors@.last().corridor@ == snapshot@);
            assert forall|i: int, j: int|
                0 <= i < j < self.corridors@.len() implies self.corridors@[i].num
                < self.corridors@[j].num by {
                if j < pre.corridors@.len() as int {
                } else {
                    assert(self.corridors@[j].num == num);
                }
            }
        }
        Ok(snapshot)
    }

    /// The admission decision stamped with the current wall-clock time. Apart
    /// from `created_at_unix_ms`, which takes whatever the clock read, the
    /// outcome is exactly that of [`Self::allocate_corridor_at`].
    pub fn allocate_corridor(&mut self, req: CorridorRequest, ticket_valid: bool) -> (r: Result<
        Corridor,
        ServiceError,
    >)
        requires
            old(self).wf(),
            old(self).next_id < u32::MAX,
        ensures
            final(self).wf(),
            spec_missing_ticket(req@) ==> (r matches Err(e) && e@ is MissingAttestation) && *final(self) == *old(self),
            req.attestation_required && !spec_missing_ticket(req@) && !ticket_valid ==> (
            r matches Err(e) && e@ is AttestationInvalid) && *final(self) == *old(self),
            spec_admissible(req@, ticket_valid) ==> (r matches Ok(c) && {
                &&& c@ == spec_admitted(
                    req@,
                    id_seq(old(self).next_id as nat),
                    c@.created_at_unix_ms,
                )
                &&& !old(self).contains_id(c@.id)
                &&& final(self).next_id == old(self).next_id + 1
                &&& final(self).corridors@.len() == old(self).corridors@.len() + 1
                &&& forall|i: int|
                    0 <= i < old(self).corridors@.len() ==> final(self).corridors@[i] == old(
                        self,
                    ).corridors@[i]
                &&& final(self).corridors@.last().num == old(self).next_id
                &&& final(self).corridors@.last().corridor@ == c@
            }),
    {
        let now_unix_ms = crate::clock::now_unix_millis();
        self.allocate_corridor_at(req, ticket_valid, now_unix_ms)
    }

    /// Atomically replace the status of the corridor with id `id`; `NotFound`
    /// (and no change at all) for an unknown id.
    pub fn update_status(&mut self, id: &str, status: CorridorStatus) -> (r: Result<
        (),
        ServiceError,
    >)
        requires
            old(self).wf(),
        ensures
            final(self).wf(),
            final(self).next_id == old(self).next_id,
            final(self).corridors@.len() == old(self).corridors@.len(),
            forall|i: int|
                0 <= i < old(self).corridors@.len() ==> if old(
                    self,
                ).corridors@[i].corridor.id@ == id@ {
                    (#[trigger] final(self).corridors@[i]).num == old(self).corridors@[i].num
                        && final(self).corridors@[i].corridor@ == old(
                        self,
                    ).corridors@[i].corridor@.with_status(status)
                } else {
                    final(self).corridors@[i] == old(self).corridors@[i]
                },
            r matches Ok(u) <==> old(self).contains_id(id@),
            r matches Err(e) ==> e@ == (ServiceErrorView::NotFound { id: id@ }) && *final(self)
                == *old(self),
    {
        match self.find_index(id) {
            Some(i) => {
                let ghost pre = *self;
                self.corridors[i].corridor.status = status;
                proof {
                    assert forall|j: int|
                        0 <= j < pre.corridors@.len() && j != i implies pre.corridors@[j].corridor.id@
                        != id@ by {
                        pre.lemma_ids_unique(j, i as int);
                    }
                }
                Ok(())
            },
            None => Err(ServiceError::NotFound { id: id.to_owned() }),
        }
    }
}

} // verus!
