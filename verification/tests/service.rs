use corrd::ids::format_id;
use corrd::metrics::{project_lane_samples, LaneSample};
use corrd::service::{ticket_to_verify, CorridorService};
use corrd::types::{
    Corridor, CorridorRequest, CorridorStatus, CorridorType, Drift, EyeMargin, QoSSettings,
    ServiceError, TelemetryData,
};

fn request(lanes: u32, min_gbps: u32) -> CorridorRequest {
    let mut lambda_nm = Vec::new();
    for i in 0..lanes {
        lambda_nm.push(1550 + i);
    }
    CorridorRequest {
        corridor_type: CorridorType::SiCorridor,
        lanes,
        lambda_nm,
        min_gbps,
        latency_budget_ns: 250,
        reach_mm: 75,
        mode: String::from("waveguide"),
        qos: QoSSettings { pfc: true, priority: String::from("gold") },
        attestation_required: false,
        attestation_ticket: None,
    }
}

fn attested_request(ticket: Option<&str>) -> CorridorRequest {
    let mut req = request(2, 50);
    req.attestation_required = true;
    req.attestation_ticket = ticket.map(String::from);
    req
}

#[test]
fn allocate_eight_lanes_scenario() {
    let mut s = CorridorService::new();
    let c = s.allocate_corridor_at(request(8, 100), false, 7).expect("admitted");
    assert_eq!(c.achievable_gbps, 104);
    assert_eq!(c.eye_margin, EyeMargin::Good);
    assert!(matches!(c.status, CorridorStatus::Active));
    assert_eq!(c.id, "cor-0001");
    assert_eq!(c.ber_e15, 1000);
    assert_eq!(c.lanes, 8);
    assert_eq!(c.lambda_nm.len(), 8);
    assert_eq!(c.min_gbps, 100);
    assert_eq!(c.created_at_unix_ms, 7);
}

#[test]
fn allocate_ids_are_unique() {
    let mut s = CorridorService::new();
    let mut ids: Vec<String> = Vec::new();
    for _ in 0..20 {
        let c = s.allocate_corridor_at(request(2, 10), false, 0).expect("admitted");
        ids.push(c.id);
    }
    for i in 0..ids.len() {
        for j in 0..ids.len() {
            if i != j {
                assert_ne!(ids[i], ids[j]);
            }
        }
    }
    assert_eq!(ids[0], "cor-0001");
    assert_eq!(ids[19], "cor-0014");
}

#[test]
fn id_format_matches_padded_hex() {
    assert_eq!(format_id(1), "cor-0001");
    assert_eq!(format_id(255), "cor-00ff");
    assert_eq!(format_id(0xabc), "cor-0abc");
    assert_eq!(format_id(0x1234), "cor-1234");
    assert_eq!(format_id(0x10000), "cor-10000");
    assert_eq!(format_id(u32::MAX), "cor-ffffffff");
}

#[test]
fn allocate_missing_ticket_is_rejected() {
    let mut s = CorridorService::new();
    let r = s.allocate_corridor_at(attested_request(None), true, 0);
    assert!(matches!(r, Err(ServiceError::MissingAttestation)));
    assert!(s.list_corridors().is_empty());
}

#[test]
fn allocate_empty_ticket_is_rejected() {
    let mut s = CorridorService::new();
    let r = s.allocate_corridor_at(attested_request(Some("")), true, 0);
    assert!(matches!(r, Err(ServiceError::MissingAttestation)));
    assert!(s.list_corridors().is_empty());
}

#[test]
fn allocate_invalid_ticket_is_rejected() {
    let mut s = CorridorService::new();
    let r = s.allocate_corridor_at(attested_request(Some("tkt-1")), false, 0);
    assert!(matches!(r, Err(ServiceError::AttestationInvalid)));
    assert!(s.list_corridors().is_empty());
}

#[test]
fn allocate_valid_ticket_is_admitted() {
    let mut s = CorridorService::new();
    let c = s.allocate_corridor_at(attested_request(Some("tkt-1")), true, 0).expect("admitted");
    assert_eq!(c.attestation_ticket.as_deref(), Some("tkt-1"));
    assert_eq!(s.list_corridors().len(), 1);
}

#[test]
fn ticket_to_verify_cases() {
    assert_eq!(ticket_to_verify(&request(1, 1)), None);
    assert_eq!(ticket_to_verify(&attested_request(None)), None);
    assert_eq!(ticket_to_verify(&attested_request(Some(""))), None);
    assert_eq!(ticket_to_verify(&attested_request(Some("tkt-9"))), Some(String::from("tkt-9")));
}

#[test]
fn achievable_meets_minimum_and_margin_is_good() {
    let mut s = CorridorService::new();
    for min_gbps in [0u32, 1, 25, 100, 999, 1_000_000] {
        let c = s.allocate_corridor_at(request(1, min_gbps), false, 0).expect("admitted");
        assert!(c.achievable_gbps >= min_gbps);
        assert_eq!(c.eye_margin, EyeMargin::Good);
        assert_eq!(c.achievable_gbps as u64, (min_gbps as u64) * 104 / 100);
    }
}

fn assert_same_corridor(a: &Corridor, b: &Corridor) {
    assert_eq!(a.id, b.id);
    assert!(matches!(
        (&a.corridor_type, &b.corridor_type),
        (CorridorType::SiCorridor, CorridorType::SiCorridor)
            | (CorridorType::CarbonCorridor, CorridorType::CarbonCorridor)
    ));
    assert_eq!(a.lanes, b.lanes);
    assert_eq!(a.lambda_nm, b.lambda_nm);
    assert_eq!(a.min_gbps, b.min_gbps);
    assert_eq!(a.latency_budget_ns, b.latency_budget_ns);
    assert_eq!(a.reach_mm, b.reach_mm);
    assert_eq!(a.mode, b.mode);
    assert_eq!(a.qos.pfc, b.qos.pfc);
    assert_eq!(a.qos.priority, b.qos.priority);
    assert_eq!(a.attestation_required, b.attestation_required);
    assert_eq!(a.attestation_ticket, b.attestation_ticket);
    assert_eq!(a.achievable_gbps, b.achievable_gbps);
    assert_eq!(a.ber_e15, b.ber_e15);
    assert_eq!(a.eye_margin, b.eye_margin);
    assert_eq!(a.created_at_unix_ms, b.created_at_unix_ms);
    assert_eq!(a.status, b.status);
}

#[test]
fn get_twice_is_identical() {
    let mut s = CorridorService::new();
    let c = s.allocate_corridor_at(request(4, 40), false, 99).expect("admitted");
    let first = s.get_corridor(&c.id).expect("found");
    let second = s.get_corridor(&c.id).expect("found");
    assert_same_corridor(&first, &second);
    assert_same_corridor(&first, &c);
}

#[test]
fn get_unknown_id_is_not_found() {
    let s = CorridorService::new();
    let r = s.get_corridor("cor-9999");
    match r {
        Err(ServiceError::NotFound { id }) => {
            assert_eq!(id, "cor-9999");
        },
        _ => panic!("expected NotFound"),
    }
}

#[test]
fn not_found_message_names_the_id() {
    let e = ServiceError::NotFound { id: String::from("cor-9999") };
    assert_eq!(e.message(), "Corridor cor-9999 not found");
    assert!(e.message().contains("cor-9999"));
    assert_eq!(
        ServiceError::MissingAttestation.message(),
        "attestation required but no ticket provided"
    );
    assert_eq!(
        ServiceError::AttestationInvalid.message(),
        "attestation ticket invalid or expired"
    );
}

#[test]
fn telemetry_known_id_is_the_synthetic_sample() {
    let mut s = CorridorService::new();
    let c = s.allocate_corridor_at(request(2, 20), false, 0).expect("admitted");
    let t = s.get_telemetry(&c.id).expect("found");
    assert_eq!(t.ber_e15, 1100);
    assert_eq!(t.temp_milli_c, 47500);
    assert_eq!(t.power_milli_pj_per_bit, 900);
    assert_eq!(t.drift, Drift::Low);
    assert_eq!(t.utilization_milli_percent, 85300);
    assert_eq!(t.error_count, 0);
}

#[test]
fn telemetry_unknown_id_is_not_found() {
    let s = CorridorService::new();
    match s.get_telemetry("cor-00aa") {
        Err(ServiceError::NotFound { id }) => assert_eq!(id, "cor-00aa"),
        _ => panic!("expected NotFound"),
    }
}

#[test]
fn update_status_reaches_readers() {
    let mut s = CorridorService::new();
    let c = s.allocate_corridor_at(request(1, 10), false, 0).expect("admitted");
    s.update_status(&c.id, CorridorStatus::Maintenance).expect("known id");
    let read = s.get_corridor(&c.id).expect("found");
    assert!(matches!(read.status, CorridorStatus::Maintenance));
    assert!(matches!(
        s.update_status("cor-ffff", CorridorStatus::Active),
        Err(ServiceError::NotFound { .. })
    ));
}

#[test]
fn lane_samples_without_telemetry_use_nominal_figures() {
    let mut s = CorridorService::new();
    let c = s.allocate_corridor_at(request(2, 20), false, 0).expect("admitted");
    let samples = project_lane_samples(&c, None);
    assert_eq!(samples.len(), 2);
    let expected0 = LaneSample {
        lane: 1,
        lambda_nm: 1550,
        ber_e20: 1000 * 100000,
        temp_milli_c: 40000,
        power_milli_pj_per_bit: 1000,
        utilization_milli_percent: 0,
        error_count: 0,
    };
    let expected1 = LaneSample {
        lane: 2,
        lambda_nm: 1551,
        ber_e20: 1000 * 100001,
        temp_milli_c: 40050,
        power_milli_pj_per_bit: 1005,
        utilization_milli_percent: 0,
        error_count: 0,
    };
    assert_eq!(samples[0], expected0);
    assert_eq!(samples[1], expected1);
}

#[test]
fn lane_samples_jitter_the_reading_per_lane() {
    let mut s = CorridorService::new();
    let c = s.allocate_corridor_at(request(3, 30), false, 0).expect("admitted");
    let t = s.get_telemetry(&c.id).expect("found");
    let samples = project_lane_samples(&c, Some(t));
    assert_eq!(samples.len(), 3);
    assert_eq!(samples[0].ber_e20, 1100 * 100000);
    assert_eq!(samples[1].ber_e20, 1100 * 100001);
    assert_eq!(samples[2].ber_e20, 1100 * 100002);
    assert_eq!(samples[2].temp_milli_c, 47500 + 100);
    assert_eq!(samples[2].power_milli_pj_per_bit, 900 + 10);
    assert_eq!(samples[1].utilization_milli_percent, 85300);
    // Same inputs, same output: the projector is idempotent.
    let again = project_lane_samples(&c, Some(t));
    assert_eq!(samples, again);
}

#[test]
fn list_corridors_snapshots_every_record() {
    let mut s = CorridorService::new();
    let a = s.allocate_corridor_at(request(1, 10), false, 0).expect("admitted");
    let b = s.allocate_corridor_at(request(2, 20), false, 0).expect("admitted");
    let listed = s.list_corridors();
    assert_eq!(listed.len(), 2);
    let ids: Vec<&str> = listed.iter().map(|c| c.id.as_str()).collect();
    assert!(ids.contains(&a.id.as_str()));
    assert!(ids.contains(&b.id.as_str()));
}

#[test]
fn achievable_saturates_at_the_field_maximum() {
    let mut s = CorridorService::new();
    let c = s.allocate_corridor_at(request(1, u32::MAX), false, 0).expect("admitted");
    assert_eq!(c.achievable_gbps, u32::MAX);
    assert_eq!(c.eye_margin, EyeMargin::Good);
}

#[test]
fn empty_wavelength_plan_projects_no_samples() {
    let mut s = CorridorService::new();
    let mut req = request(0, 10);
    req.lambda_nm = Vec::new();
    let c = s.allocate_corridor_at(req, false, 0).expect("admitted");
    assert!(project_lane_samples(&c, None).is_empty());
}

#[test]
fn generate_id_never_repeats() {
    let mut s = CorridorService::new();
    let first = s.generate_id();
    let second = s.generate_id();
    assert_ne!(first, second);
    assert_eq!(first, "cor-0001");
    assert_eq!(second, "cor-0002");
}
