use corrd::attestation::{
    attestation_valid_field, attestation_verdict, verify_attestation_exchange,
    verify_attestation_response,
};
use corrd::calibration::fallback_outcome;
use corrd::sdk;
use corrd::service::CorridorService;
use corrd::types::{
    CorridorRequest, CorridorStatus, CorridorType, QoSSettings, RecalibrateRequest,
    RecalibrateResponse, ServiceError,
};

fn request(lanes: u32, min_gbps: u32) -> CorridorRequest {
    let mut lambda_nm = Vec::new();
    for i in 0..lanes {
        lambda_nm.push(1310 + i);
    }
    CorridorRequest {
        corridor_type: CorridorType::CarbonCorridor,
        lanes,
        lambda_nm,
        min_gbps,
        latency_budget_ns: 500,
        reach_mm: 120,
        mode: String::from("fiber"),
        qos: QoSSettings { pfc: false, priority: String::from("silver") },
        attestation_required: false,
        attestation_ticket: None,
    }
}

fn recal_request() -> RecalibrateRequest {
    RecalibrateRequest { target_ber_e15: 500, ambient_profile: String::from("datacenter") }
}

fn assert_same_outcome(a: &RecalibrateResponse, b: &RecalibrateResponse) {
    assert_eq!(a.status, b.status);
    assert_eq!(a.converged, b.converged);
    assert_eq!(a.bias_voltages_microvolt, b.bias_voltages_microvolt);
    assert_eq!(a.lambda_shifts_milli_nm, b.lambda_shifts_milli_nm);
    assert_eq!(a.laser_power_adjust_milli_db, b.laser_power_adjust_milli_db);
    assert_eq!(a.convergence_time_ms, b.convergence_time_ms);
    assert_eq!(a.final_ber_e15, b.final_ber_e15);
    assert_eq!(a.final_eye_margin_milli, b.final_eye_margin_milli);
    assert_eq!(a.power_savings_milli_percent, b.power_savings_milli_percent);
}

#[test]
fn recalibrate_unknown_id_is_not_found_and_changes_nothing() {
    let mut s = CorridorService::new();
    let kept = s.allocate_corridor_at(request(2, 20), false, 0).expect("admitted");
    let r = s.recalibrate_begin("cor-abcd", &recal_request());
    match r {
        Err(ServiceError::NotFound { id }) => assert_eq!(id, "cor-abcd"),
        _ => panic!("expected NotFound"),
    }
    let listed = s.list_corridors();
    assert_eq!(listed.len(), 1);
    assert_eq!(listed[0].id, kept.id);
    assert!(matches!(listed[0].status, CorridorStatus::Active));
}

#[test]
fn recalibrate_with_peer_down_falls_back_deterministically() {
    let mut s = CorridorService::new();
    let c = s.allocate_corridor_at(request(8, 100), false, 0).expect("admitted");
    let call = s.recalibrate_begin(&c.id, &recal_request()).expect("known id");
    assert_eq!(call.corridor_id, c.id);
    assert_eq!(call.target_ber_e15, 500);
    assert_eq!(call.ambient_profile, "datacenter");
    assert_eq!(call.current_ber_e15, 1100);
    assert_eq!(call.current_eye_margin_milli, 800);
    assert_eq!(call.temperature_milli_c, 47500);
    assert_eq!(call.lambda_count, 8);
    let during = s.get_corridor(&c.id).expect("found");
    assert!(matches!(during.status, CorridorStatus::Calibrating));

    let outcome = s.recalibrate_finish(&c.id, None);
    assert_eq!(outcome.status, "converged");
    assert!(outcome.converged);
    assert_eq!(outcome.bias_voltages_microvolt, vec![1200i64; 8]);
    assert_eq!(outcome.lambda_shifts_milli_nm, vec![0i64; 8]);
    assert_eq!(outcome.laser_power_adjust_milli_db, vec![0i64; 8]);
    assert_eq!(outcome.convergence_time_ms, 150);
    assert_eq!(outcome.final_ber_e15, 1000);
    assert_eq!(outcome.final_eye_margin_milli, 800);
    assert_eq!(outcome.power_savings_milli_percent, 10000);

    let after = s.get_corridor(&c.id).expect("found");
    assert!(matches!(after.status, CorridorStatus::Active));
}

#[test]
fn recalibrate_adopts_a_peer_outcome_verbatim() {
    let mut s = CorridorService::new();
    let c = s.allocate_corridor_at(request(2, 20), false, 0).expect("admitted");
    s.recalibrate_begin(&c.id, &recal_request()).expect("known id");
    let peer = RecalibrateResponse {
        status: String::from("partial"),
        converged: false,
        bias_voltages_microvolt: vec![900, -150],
        lambda_shifts_milli_nm: vec![25, -40],
        laser_power_adjust_milli_db: vec![500, 0],
        convergence_time_ms: 777,
        final_ber_e15: 2500,
        final_eye_margin_milli: 650,
        power_savings_milli_percent: -1200,
    };
    let expected = peer.clone();
    let outcome = s.recalibrate_finish(&c.id, Some(peer));
    assert_same_outcome(&outcome, &expected);
    let after = s.get_corridor(&c.id).expect("found");
    assert!(matches!(after.status, CorridorStatus::Active));
}

#[test]
fn fallback_outcome_is_reproducible() {
    let a = fallback_outcome(4);
    let b = fallback_outcome(4);
    assert_same_outcome(&a, &b);
    assert_eq!(a.bias_voltages_microvolt.len(), 4);
    let empty = fallback_outcome(0);
    assert!(empty.lambda_shifts_milli_nm.is_empty());
    assert!(empty.converged);
}

#[test]
fn attestation_verdict_fails_closed() {
    assert!(attestation_verdict(true, Some(true)));
    assert!(!attestation_verdict(true, Some(false)));
    assert!(!attestation_verdict(true, None));
    assert!(!attestation_verdict(false, Some(true)));
    assert!(!attestation_verdict(false, None));
}

#[test]
fn attestation_response_parsing_fails_closed() {
    assert!(verify_attestation_response(true, "{\"valid\": true}"));
    assert!(!verify_attestation_response(true, "{\"valid\": false}"));
    assert!(!verify_attestation_response(true, "{\"valid\": \"yes\"}"));
    assert!(!verify_attestation_response(true, "{\"other\": true}"));
    assert!(!verify_attestation_response(true, "not json at all"));
    assert!(!verify_attestation_response(true, ""));
    assert!(!verify_attestation_response(false, "{\"valid\": true}"));
}

#[test]
fn attestation_valid_field_reads_the_body() {
    assert_eq!(attestation_valid_field("{\"valid\": true}"), Some(true));
    assert_eq!(attestation_valid_field("{\"valid\": false}"), Some(false));
    assert_eq!(attestation_valid_field("{\"valid\": 1}"), None);
    assert_eq!(attestation_valid_field("{\"other\": true}"), None);
    assert_eq!(attestation_valid_field("[true]"), None);
    assert_eq!(attestation_valid_field("not json"), None);
}

#[test]
fn attestation_exchange_fails_closed_on_transport_failure() {
    assert!(verify_attestation_exchange(Some((true, String::from("{\"valid\": true}")))));
    assert!(!verify_attestation_exchange(Some((false, String::from("{\"valid\": true}")))));
    assert!(!verify_attestation_exchange(Some((true, String::from("{\"valid\": false}")))));
    assert!(!verify_attestation_exchange(Some((true, String::from("garbage")))));
    assert!(!verify_attestation_exchange(None));
}

#[test]
fn sdk_client_is_offline() {
    let client = sdk::Client::new(String::from("http://localhost:8080"));
    assert_eq!(client.base_url, "http://localhost:8080");
    let req = sdk::CorridorAllocateRequest {
        corridor_type: String::from("SiCorridor"),
        lanes: 4,
        lambda_nm: vec![1550, 1551, 1552, 1553],
        min_gbps: 400,
        latency_budget_ns: 250,
        reach_mm: 75,
        mode: String::from("waveguide"),
        qos: sdk::QoSConfig { pfc: true, priority: String::from("gold") },
        attestation_required: false,
        attestation_ticket: None,
    };
    match client.allocate_corridor(&req) {
        Err(m) => assert_eq!(m, "not implemented in minimal offline SDK"),
        Ok(_) => panic!("offline SDK cannot allocate"),
    }
    let ffm = sdk::FfmAllocateRequest {
        bytes: 1 << 30,
        latency_class: String::from("near"),
        bandwidth_floor_GBs: 8,
        persistence: String::from("volatile"),
        shareable: false,
        security_domain: String::from("default"),
        attestation_required: None,
        attestation_ticket: None,
    };
    match client.allocate_ffm(&ffm) {
        Err(m) => assert_eq!(m, "not implemented in minimal offline SDK"),
        Ok(_) => panic!("offline SDK cannot allocate"),
    }
}
