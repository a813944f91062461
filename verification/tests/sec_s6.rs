use umst_manifold::runtime::gate::evidence::{
    AdmissibilityToken, TransitionEvidence, CD_TRANSITION_CATALOG_ID,
};
use umst_manifold::runtime::gate::sec_s6::{
    collect_sec_s6_gate_factor_rows, gate_hcom_prov_gateway_fence_census,
    gate_transition_evidence_probe, hcom_prov_gw_fence_hops, live_attestation_wired,
    manifold_gate_sec_s6_ceremony_closed, manifold_hcom_prov_gw_fence_hops_verified,
    manifold_scert_upstream_slots_verified, manifold_sec_s6_gate_wire_hops,
    manifold_sec_s6_gate_wire_integrity_verified, scert_upstream_slots,
    sec_s6_accel_ac33_honest, sec_s6_accel_ac33_probe, sec_s6_gate_factor_table,
    sec_s6_gate_manifold_probe, sec_s6_gate_wire_matrix, sec_s6_hcom_prov_fence_table,
    sec_s6_hcom_prov_gw_next_hop, sec_s6_honest_fence_holds, sec_s6_master_retick_eligible,
    sec_s6_op5_cleared, sec_s6_production_wired, sec_s6_scert_upstream_table,
    sec_s6_w29_125_deepen_honest, sec_s6_w29_125_deepen_probe, validate_sec_s6_gate_honesty,
    ACCEL_B_2050_AC33_JOB_ID, BOARD_SLICE_ID, GATEWAY_SSOT, HCOM_PROV_GW_WIRE_HOP_COUNT,
    JOB_ID, MANIFOLD_SEC_S6_GATE_WIRE_HOP_COUNT, MANIFOLD_SEC_S6_GATE_WIRE_WIRED_COUNT,
    PRIOR_RECEIPT_PATH_2033, PRIOR_Z126_RECEIPT_PATH, S6_GREEN_CLAIM_BLOCKED,
    SCERT_EXIT_NOT_WIRED, SCHEMA_VERSION, TRUST_SSOT, W29_125_CELL_ID,
    W29_125_DEEPEN_SCHEMA_VERSION, W29_125_HONEST_POSTURE, W29_125_NON_CLAIM,
};

/// The host witness of the identity transition: admissible on the CD channel, unstamped.
fn s6_identity_witness() -> TransitionEvidence {
    TransitionEvidence {
        catalog_id: CD_TRANSITION_CATALOG_ID,
        admissibility: AdmissibilityToken::Admissible,
        observed_at: None,
    }
}

fn s6_evidence_wired() -> bool {
    gate_transition_evidence_probe(&s6_identity_witness())
}

#[test]
fn sec_s6_board_slice_metadata_locked() {
    assert_eq!(BOARD_SLICE_ID, "SEC-S6");
    assert_eq!(JOB_ID, "AGAP-2033-SEC-S6");
    assert_eq!(ACCEL_B_2050_AC33_JOB_ID, "ACCEL-B-2050-AC33");
}

#[test]
fn sec_s6_gate_transition_evidence_probe_honest() {
    assert!(gate_transition_evidence_probe(&s6_identity_witness()));
}

#[test]
fn sec_s6_hcom_prov_census_honest_posture() {
    let census = gate_hcom_prov_gateway_fence_census(s6_evidence_wired());
    assert_eq!(census.board_slice_id, "SEC-S6");
    assert!(census.gate_evidence_wired);
    assert!(census.hcom_prov_fence_hops_verified);
    assert!(census.scert_upstream_slots_verified);
    assert!(census.s6_inspect_delegate_verified);
    assert!(!census.live_attestation_wired);
    assert!(census.s6_green_claim_blocked);
    assert!(!census.production_wired);
    assert_eq!(census.wire_hop_wired_count, 6);
}

#[test]
fn sec_s6_production_and_live_attestation_stay_false() {
    assert!(!sec_s6_production_wired());
    assert!(!live_attestation_wired());
    assert_eq!(SCERT_EXIT_NOT_WIRED, 2);
}

#[test]
fn sec_s6_manifold_wire_hops_cover_gate_and_trust_delegate() {
    let hops = manifold_sec_s6_gate_wire_hops();
    let wired = hops.iter().filter(|h| h.wired).count();
    assert_eq!(wired, 6);
    assert_eq!(hops.len(), 7);
    assert!(hops.iter().any(|h| h.surface.contains("s6_inspect") && h.wired));
    assert!(hops
        .iter()
        .any(|h| h.surface.contains("hcom_prov_gw_production_wired") && !h.wired));
}

#[test]
fn sec_s6_manifold_gate_ceremony_close_predicate() {
    assert!(manifold_gate_sec_s6_ceremony_closed(s6_evidence_wired()));
    let probe = sec_s6_gate_manifold_probe(s6_evidence_wired());
    assert!(probe.ceremony_closed);
    assert!(probe.hcom_prov_fence_hops_verified);
    assert!(probe.scert_upstream_slots_verified);
}

#[test]
fn sec_s6_prior_receipt_paths_pinned() {
    assert!(PRIOR_RECEIPT_PATH_2033.contains("SEC-S6_2033"));
    assert!(PRIOR_Z126_RECEIPT_PATH.contains("COMPOSER_Z126_1232"));
    assert!(TRUST_SSOT.contains("s6_inspect"));
    assert!(GATEWAY_SSOT.contains("sec_hcom_prov_gw"));
}

#[test]
fn sec_s6_hcom_prov_fence_hops_five_of_five_pinned() {
    assert_eq!(hcom_prov_gw_fence_hops().len(), 5);
    assert!(manifold_hcom_prov_gw_fence_hops_verified());
    let table = sec_s6_hcom_prov_fence_table();
    assert!(table.contains("enforce_hcom_prov_semantic_admit"));
    assert!(table.contains("verified=true"));
}

#[test]
fn sec_s6_upstream_slots_four_of_four_partial() {
    assert_eq!(scert_upstream_slots().len(), 4);
    assert!(manifold_scert_upstream_slots_verified());
    let table = sec_s6_scert_upstream_table();
    assert!(table.contains("upstream_green=0/4"));
    assert!(table.contains("H-Arc"));
    assert!(table.contains("M-Arc"));
}

#[test]
fn sec_s6_gate_factor_table_honest_blocked_scert() {
    let table = sec_s6_gate_factor_table();
    assert!(table.contains("SEC-S6 gate factors"));
    assert!(table.contains("scert_credit=BLOCKED"));
    assert!(table.contains("expected_gate_exit=BLOCKED"));
    let rows = collect_sec_s6_gate_factor_rows();
    assert_eq!(rows.len(), 6);
    assert!(rows.iter().all(|r| !r.acceptance_credit));
}

#[test]
fn sec_s6_gate_wire_matrix_renders_honest_counts() {
    let matrix = sec_s6_gate_wire_matrix(s6_evidence_wired());
    assert!(matrix.contains("SEC-S6 manifold gate"));
    assert!(matrix.contains("wired=6/7"));
    assert!(matrix.contains("production_wired=false"));
}

#[test]
fn fleet_composer_accel_ac33_sec_s6_honest() {
    assert!(sec_s6_accel_ac33_honest(s6_evidence_wired()));
    let probe = sec_s6_accel_ac33_probe(s6_evidence_wired());
    assert_eq!(probe.ac33_job_id, ACCEL_B_2050_AC33_JOB_ID);
    assert!(probe.prior_z126_absorbed);
    assert!(probe.ceremony_closed);
}

#[test]
fn sec_s6_validate_gate_honesty_residue_measured() {
    validate_sec_s6_gate_honesty(s6_evidence_wired()).expect("honest SEC-S6 gate census residue");
    assert_eq!(
        sec_s6_hcom_prov_gw_next_hop(),
        "umst-gateway::sec_hcom_prov_gw::hcom_prov_gw_production_wired"
    );
}

#[test]
fn sec_s6_w29_125_honest_fence_no_green_production_master_op5() {
    assert_eq!(W29_125_CELL_ID, "W29-125-SEC_S6");
    assert_eq!(W29_125_DEEPEN_SCHEMA_VERSION, "sec_s6_w29_125_honest_fence_v1");
    assert_eq!(SCHEMA_VERSION, "sec_s6_gate_hcom_prov_gateway_fence_census_v2");
    assert_eq!(W29_125_HONEST_POSTURE, "SEC_S6_MANIFOLD_CENSUS_DEEPEN_ONLY");
    assert!(W29_125_NON_CLAIM.contains("not GREEN"));
    assert!(W29_125_NON_CLAIM.contains("not MASTER_RETICK"));
    assert!(!sec_s6_production_wired());
    assert!(!sec_s6_master_retick_eligible());
    assert!(!sec_s6_op5_cleared());
    assert!(S6_GREEN_CLAIM_BLOCKED);
    assert!(sec_s6_w29_125_deepen_honest(s6_evidence_wired()));
    assert!(sec_s6_honest_fence_holds(s6_evidence_wired()));
    let probe = sec_s6_w29_125_deepen_probe(s6_evidence_wired());
    assert!(!probe.production_wired_claimed);
    assert!(!probe.green_claimed);
    assert!(!probe.op5_pass_claimed);
    assert!(!probe.master_retick_claimed);
    assert!(probe.deepen_honest);
    assert!(probe.honest_fence.contains("master_retick=false"));
    assert!(probe.honest_fence.contains("op5_cleared=false"));
    assert!(probe.honest_fence.contains("hcom_prov_gw_production_open=true"));
    let matrix = sec_s6_gate_wire_matrix(s6_evidence_wired());
    assert!(matrix.contains("honest_fence_holds=true"));
    assert!(matrix.contains("w29_125_cell=W29-125-SEC_S6"));
    assert!(matrix.contains("wire_integrity=true"));
}

#[test]
fn sec_s6_gate_wire_integrity_and_hop_counts_measured() {
    let hops = manifold_sec_s6_gate_wire_hops();
    assert_eq!(hops.len(), MANIFOLD_SEC_S6_GATE_WIRE_HOP_COUNT);
    assert_eq!(
        hops.iter().filter(|h| h.wired).count(),
        MANIFOLD_SEC_S6_GATE_WIRE_WIRED_COUNT
    );
    assert!(manifold_sec_s6_gate_wire_integrity_verified());
    assert!(manifold_hcom_prov_gw_fence_hops_verified());
    assert_eq!(hcom_prov_gw_fence_hops().len(), HCOM_PROV_GW_WIRE_HOP_COUNT);
    let census = gate_hcom_prov_gateway_fence_census(s6_evidence_wired());
    assert_eq!(census.schema_version, SCHEMA_VERSION);
    assert!(!census.production_wired);
    assert!(census.s6_green_claim_blocked);
}

#[test]
fn sec_s6_refused_witness_fails_every_honesty_gate() {
    let refused = TransitionEvidence {
        catalog_id: "",
        admissibility: AdmissibilityToken::Admissible,
        observed_at: None,
    };
    let wired = gate_transition_evidence_probe(&refused);
    assert!(!wired);
    assert!(!manifold_gate_sec_s6_ceremony_closed(wired));
    assert!(!sec_s6_accel_ac33_honest(wired));
    assert!(!sec_s6_honest_fence_holds(wired));
    assert_eq!(
        validate_sec_s6_gate_honesty(wired),
        Err("gate transition evidence probe failed")
    );
    assert!(sec_s6_gate_wire_matrix(wired).contains("honest_fence_holds=false"));
}

#[test]
fn sec_s6_rendered_tables_exact_lines() {
    assert_eq!(
        sec_s6_gate_factor_table(),
        "SEC-S6 gate factors: wired=6/6 credit=0/6 expected_gate_exit=BLOCKED scert_credit=BLOCKED expected_scert_exit=2 sec_s6_production_wired=false"
    );
    let rows = collect_sec_s6_gate_factor_rows();
    assert_eq!(rows[3].detail, "live_attestation_wired=false");
    assert_eq!(
        rows[0].detail,
        "hcom_prov_gw_hops=5 gateway_ssot=umst-gateway/crates/umst-gateway/src/sec_hcom_prov_gw.rs"
    );
    let upstream = sec_s6_scert_upstream_table();
    assert!(upstream.contains(
        "  H-Arc command=:hw-cert --strict --paired exit=2 owner=egoff/egoff/src/slices/14bis_f_S_6_scert_capstone.rs\n"
    ));
    let wire = sec_s6_gate_wire_matrix(true);
    assert!(wire.contains(
        "  7 [open] umst-gateway::sec_hcom_prov_gw::hcom_prov_gw_production_wired — Gateway HCOM prov production ceremony (serial Wave I)\n"
    ));
}
