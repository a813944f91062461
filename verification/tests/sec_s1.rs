use umst_manifold::runtime::gate::evidence::{
    AdmissibilityToken, TransitionEvidence, CD_TRANSITION_CATALOG_ID,
};
use umst_manifold::runtime::gate::sec_s1::{
    collect_sec_s1_gate_factor_rows, gate_transition_evidence_probe, gate_trust_census,
    manifold_gate_sec_s1_ceremony_closed, manifold_s1_all_factors_probed,
    manifold_s1_factor_coverage_probes, manifold_s1_trust_gate_deepen_facets,
    manifold_s1_trust_gate_deepen_facets_verified, manifold_sec_s1_gate_wire_hops,
    manifold_verify_trust_gate_s1_pins, sec_s1_accel_ac28_honest, sec_s1_accel_ac28_probe,
    sec_s1_gate_factor_exit_expectations, sec_s1_gate_factor_table, sec_s1_gate_manifold_probe,
    sec_s1_gate_wire_matrix, sec_s1_honest_fence_holds, sec_s1_master_retick_eligible,
    sec_s1_op5_cleared, sec_s1_production_wired, sec_s1_trust_gate_deepen_matrix,
    sec_s1_trust_gate_deepen_wired_count, sec_s1_w29_120_deepen_honest,
    sec_s1_w29_120_deepen_probe, session_ledger_wired, validate_sec_s1_gate_honesty,
    BOARD_SLICE_ID, FLEET_ACCEL2_AC28_JOB_ID, JOB_ID, PRIOR_RECEIPT_PATH_G72,
    PRIOR_RECEIPT_PATH_H51, PRIOR_RECEIPT_PATH_J33, PRIOR_RECEIPT_PATH_Y79,
    PRIOR_RECEIPT_PATH_Z48, S1_GREEN_CLAIM_BLOCKED, S1_TRUST_INSPECT_CLOSE_SSOT, SCHEMA_VERSION,
    TRUST_GATE_SSOT, TRUST_S1_FACTOR_SSOT, W29_120_CELL_ID, W29_120_DEEPEN_SCHEMA_VERSION,
};

/// The host witness of the identity transition: admissible on the CD channel, unstamped.
fn s1_identity_witness() -> TransitionEvidence {
    TransitionEvidence {
        catalog_id: CD_TRANSITION_CATALOG_ID,
        admissibility: AdmissibilityToken::Admissible,
        observed_at: None,
    }
}

fn s1_evidence_wired() -> bool {
    gate_transition_evidence_probe(&s1_identity_witness())
}

#[test]
fn sec_s1_board_slice_metadata_locked() {
    assert_eq!(BOARD_SLICE_ID, "SEC-S1");
    assert_eq!(JOB_ID, "AGAP-2350-SEC-S1");
    assert_eq!(FLEET_ACCEL2_AC28_JOB_ID, "ACCEL2-AC28-SEC-S1");
}

#[test]
fn sec_s1_gate_transition_evidence_probe_honest() {
    assert!(gate_transition_evidence_probe(&s1_identity_witness()));
}

#[test]
fn sec_s1_trust_census_honest_posture() {
    let census = gate_trust_census(s1_evidence_wired());
    assert_eq!(census.board_slice_id, "SEC-S1");
    assert_eq!(census.schema_version, SCHEMA_VERSION);
    assert!(census.gate_evidence_wired);
    assert_eq!(census.factor_row_count, 6);
    assert!(census.s1_all_factors_probed);
    assert_eq!(census.s1_trust_wire_hop_count, 6);
    assert_eq!(census.s1_migrate_audit_queue_depth, 0);
    assert!(census.s1_green_claim_blocked);
    assert!(!census.session_ledger_wired);
    assert!(!census.production_wired);
    assert_eq!(census.wire_hop_wired_count, 5);
}

#[test]
fn sec_s1_production_stays_false() {
    assert!(!sec_s1_production_wired());
    assert!(!session_ledger_wired());
    assert!(S1_GREEN_CLAIM_BLOCKED);
}

#[test]
fn sec_s1_manifold_wire_hops_five_of_seven_wired() {
    let hops = manifold_sec_s1_gate_wire_hops();
    assert_eq!(hops.len(), 7);
    assert_eq!(hops.iter().filter(|h| h.wired).count(), 5);
    assert!(hops
        .iter()
        .any(|h| h.surface.contains("trust_wrap_wired") && !h.wired));
    assert!(hops
        .iter()
        .any(|h| h.surface.contains("trust_gate_production_wired") && !h.wired));
}

#[test]
fn sec_s1_factor_coverage_six_of_six() {
    assert!(manifold_s1_all_factors_probed());
    let probes = manifold_s1_factor_coverage_probes();
    assert_eq!(probes.len(), 6);
    assert!(probes.iter().all(|p| p.probe_hit));
}

#[test]
fn sec_s1_trust_gate_pins_verified() {
    assert!(manifold_verify_trust_gate_s1_pins());
    assert!(TRUST_S1_FACTOR_SSOT.contains("trust_coordination_factor"));
    assert!(TRUST_GATE_SSOT.contains("sec_ecosystem_trust_gate.rs"));
}

#[test]
fn sec_s1_manifold_gate_ceremony_close_predicate() {
    assert!(manifold_gate_sec_s1_ceremony_closed(s1_evidence_wired()));
    let probe = sec_s1_gate_manifold_probe(s1_evidence_wired());
    assert!(probe.ceremony_closed);
    assert_eq!(probe.wire_hop_wired_count, 5);
}

#[test]
fn sec_s1_prior_receipt_paths_pinned() {
    assert!(PRIOR_RECEIPT_PATH_Y79.contains("Y79"));
    assert!(PRIOR_RECEIPT_PATH_H51.contains("H51"));
    assert!(PRIOR_RECEIPT_PATH_J33.contains("J33"));
    assert!(PRIOR_RECEIPT_PATH_G72.contains("G72"));
}

#[test]
fn sec_s1_gate_factor_table_honest_blocked_scert() {
    let table = sec_s1_gate_factor_table();
    assert!(table.contains("expected_gate_exit=BLOCKED"));
    assert!(table.contains("scert_credit=BLOCKED"));
    let rows = collect_sec_s1_gate_factor_rows();
    assert_eq!(rows.len(), 6);
    assert!(rows.iter().all(|r| r.probe_wired));
    assert!(rows.iter().all(|r| !r.acceptance_credit));
}

#[test]
fn sec_s1_gate_factor_exit_expectations_z48_absorb() {
    let exit = sec_s1_gate_factor_exit_expectations();
    assert_eq!(exit.subcommand, "inspect");
    assert_eq!(exit.slice_id, "SEC-S1");
    assert_eq!(exit.expected_gate_exit, "BLOCKED");
    assert_eq!(exit.scert_credit, "BLOCKED");
    assert_eq!(exit.factor_row_count, 6);
    assert_eq!(exit.s_arc_honest_posture, "1/10");
    assert_eq!(exit.capstone_residue_factor, "session-ledger");
    assert_eq!(exit.palette_keys.len(), 5);
}

#[test]
fn sec_s1_trust_gate_deepen_facets_five_of_seven_wired() {
    assert_eq!(manifold_s1_trust_gate_deepen_facets().len(), 7);
    assert_eq!(sec_s1_trust_gate_deepen_wired_count(), 5);
    assert!(manifold_s1_trust_gate_deepen_facets_verified());
    let matrix = sec_s1_trust_gate_deepen_matrix();
    assert!(matrix.contains("facets_wired=5/7"));
    assert!(matrix.contains("production_wired=false"));
    assert!(matrix.contains("session_ledger_wired=false"));
    assert!(matrix.contains("trust_inspect_close_ssot"));
}

#[test]
fn sec_s1_prior_z48_receipt_path_pinned() {
    assert!(PRIOR_RECEIPT_PATH_Z48.contains("Z48"));
    assert!(S1_TRUST_INSPECT_CLOSE_SSOT.contains("s1_trust_inspect_closed"));
}

#[test]
fn sec_s1_validate_gate_honesty_residue_measured() {
    validate_sec_s1_gate_honesty(s1_evidence_wired()).expect("honest SEC-S1 gate census");
    let matrix = sec_s1_gate_wire_matrix(s1_evidence_wired());
    assert!(matrix.contains("wired=5/7"));
}

#[test]
fn fleet_accel_ac28_sec_s1_trust_gate_deepen_honest() {
    assert!(sec_s1_accel_ac28_honest(s1_evidence_wired()));
    let probe = sec_s1_accel_ac28_probe(s1_evidence_wired());
    assert_eq!(probe.ac28_job_id, FLEET_ACCEL2_AC28_JOB_ID);
    assert!(probe.prior_z48_absorbed);
    assert!(probe.trust_gate_deepen_matrix_verified);
    assert!(probe.ceremony_closed);
    assert_eq!(probe.gate_factor_wired_count, 6);
    assert_eq!(probe.exit_expectations.s_arc_honest_posture, "1/10");
}

#[test]
fn sec_s1_w29_120_honest_fence_no_green_production_master_op5() {
    assert_eq!(W29_120_CELL_ID, "W29-120-SEC_S1");
    assert_eq!(
        W29_120_DEEPEN_SCHEMA_VERSION,
        "sec_s1_w29_120_honest_fence_v1"
    );
    assert_eq!(SCHEMA_VERSION, "sec_s1_gate_trust_census_v3");
    assert!(!sec_s1_production_wired());
    assert!(!session_ledger_wired());
    assert!(S1_GREEN_CLAIM_BLOCKED);
    assert!(!sec_s1_master_retick_eligible());
    assert!(!sec_s1_op5_cleared());
    assert!(sec_s1_w29_120_deepen_honest(s1_evidence_wired()));
    assert!(sec_s1_honest_fence_holds(s1_evidence_wired()));
    let probe = sec_s1_w29_120_deepen_probe(s1_evidence_wired());
    assert!(!probe.green_claimed);
    assert!(!probe.production_wired_claimed);
    assert!(!probe.op5_pass_claimed);
    assert!(!probe.master_retick_claimed);
    assert!(probe.honest_fence.contains("master_retick=false"));
    assert!(probe.non_claim.contains("not MASTER_RETICK"));
    let matrix = sec_s1_gate_wire_matrix(s1_evidence_wired());
    assert!(matrix.contains("w29_120_cell=W29-120-SEC_S1"));
    assert!(matrix.contains("honest_fence_holds=true"));
}

#[test]
fn sec_s1_gate_refuses_when_cold_edge_witness_rejects() {
    let rejected = TransitionEvidence {
        catalog_id: CD_TRANSITION_CATALOG_ID,
        admissibility: AdmissibilityToken::Inadmissible,
        observed_at: None,
    };
    let wired = gate_transition_evidence_probe(&rejected);
    assert!(!wired);
    assert_eq!(
        validate_sec_s1_gate_honesty(wired),
        Err("SEC-S1 gate evidence probe must wire")
    );
    assert!(!sec_s1_accel_ac28_honest(wired));
    let matrix = sec_s1_gate_wire_matrix(wired);
    assert!(matrix.contains("honest_fence_holds=false"));
}
