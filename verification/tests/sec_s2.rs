use umst_manifold::runtime::gate::evidence::{
    AdmissibilityToken, TransitionEvidence, CD_TRANSITION_CATALOG_ID,
};
use umst_manifold::runtime::gate::sec_s2::{
    collect_sec_s2_gate_factor_rows, gate_transition_evidence_probe, gate_trust_refuse_census,
    manifold_gate_sec_s2_ceremony_closed, manifold_s2_all_refuse_paths_probed,
    manifold_s2_extract_fence_facets_verified, manifold_s2_extract_production_fence_facets,
    manifold_s2_refuse_path_coverage_probes, manifold_sec_s2_gate_wire_hops,
    manifold_verify_trust_gate_policy_pins, sec_s2_accel_ac29_honest, sec_s2_accel_ac29_probe,
    sec_s2_extract_fence_wired_count, sec_s2_extract_production_fence_matrix,
    sec_s2_extract_production_fence_next_hop, sec_s2_gate_factor_exit_expectations,
    sec_s2_gate_factor_table, sec_s2_gate_manifold_probe, sec_s2_gate_wire_matrix,
    sec_s2_honest_fence_holds, sec_s2_master_retick_eligible, sec_s2_op5_cleared,
    sec_s2_p1941_k2_honest, sec_s2_p1941_k2_probe, sec_s2_production_wired,
    sec_s2_trust_extract_production_wired, sec_s2_trust_wrap_next_hop,
    sec_s2_w29_121_deepen_honest, sec_s2_w29_121_deepen_probe, session_ledger_wired,
    validate_sec_s2_gate_honesty, BOARD_SLICE_ID, EGOFF_PERMISSION_SSOT, EXTRACT_SSOT,
    FLEET_ACCEL_AC29_JOB_ID, FLEET_P1941_K2_JOB_ID, JOB_ID, PRIOR_RECEIPT_PATH_2033,
    PRIOR_RECEIPT_PATH_G73, PRIOR_RECEIPT_PATH_Y81, S2_EXTRACT_FENCE_FACET_COUNT,
    S2_EXTRACT_FENCE_WIRED_COUNT, S2_FACTOR_SSOT, S2_GREEN_CLAIM_BLOCKED, SCHEMA_VERSION,
    TRUST_SSOT, W29_121_CELL_ID, W29_121_DEEPEN_SCHEMA_VERSION,
};

/// The host witness of the identity transition: admissible on the CD channel, unstamped.
fn s2_identity_witness() -> TransitionEvidence {
    TransitionEvidence {
        catalog_id: CD_TRANSITION_CATALOG_ID,
        admissibility: AdmissibilityToken::Admissible,
        observed_at: None,
    }
}

fn s2_evidence_wired() -> bool {
    gate_transition_evidence_probe(&s2_identity_witness())
}

#[test]
fn sec_s2_board_slice_metadata_locked() {
    assert_eq!(BOARD_SLICE_ID, "SEC-S2");
    assert_eq!(JOB_ID, "AGAP-2033-SEC-S2");
    assert_eq!(FLEET_P1941_K2_JOB_ID, "PRABHU-WAVE-K-1941-K2");
}

#[test]
fn sec_s2_gate_transition_evidence_probe_honest() {
    assert!(gate_transition_evidence_probe(&s2_identity_witness()));
    assert_eq!(s2_identity_witness().admissibility, AdmissibilityToken::Admissible);
}

#[test]
fn sec_s2_trust_refuse_census_honest_posture() {
    let census = gate_trust_refuse_census(s2_evidence_wired());
    assert_eq!(census.board_slice_id, "SEC-S2");
    assert_eq!(census.schema_version, SCHEMA_VERSION);
    assert!(census.gate_evidence_wired);
    assert_eq!(census.factor_row_count, 6);
    assert!(census.s2_all_refuse_paths_probed);
    assert!(census.trust_gate_policy_strict_pinned);
    assert!(census.trust_gate_policy_warn_only_pinned);
    assert_eq!(census.classical_wrap_wrapped, 8);
    assert!(census.wrap_queue_depth >= 1);
    assert!(census.s2_green_claim_blocked);
    assert!(!census.production_wired);
    assert_eq!(census.wire_hop_wired_count, 5);
}

#[test]
fn sec_s2_production_stays_false() {
    assert!(!sec_s2_production_wired());
    assert!(S2_GREEN_CLAIM_BLOCKED);
}

#[test]
fn sec_s2_manifold_wire_hops_cover_gate_and_trust_delegate() {
    let hops = manifold_sec_s2_gate_wire_hops();
    assert_eq!(hops.len(), 7);
    assert_eq!(hops.iter().filter(|h| h.wired).count(), 5);
    assert!(hops.iter().any(|h| h.surface.contains("AdmissibilityToken") && h.wired));
    assert!(hops.iter().any(|h| h.surface.contains("trust_wrap_wired") && !h.wired));
    assert!(hops
        .iter()
        .any(|h| h.surface.contains("trust_gate_production_wired") && !h.wired));
}

#[test]
fn sec_s2_refuse_path_coverage_six_of_six() {
    assert!(manifold_s2_all_refuse_paths_probed());
    let probes = manifold_s2_refuse_path_coverage_probes();
    assert_eq!(probes.len(), 6);
    assert!(probes.iter().all(|p| p.probe_hit));
}

#[test]
fn sec_s2_trust_gate_policy_pins_verified() {
    assert!(manifold_verify_trust_gate_policy_pins());
    assert!(TRUST_SSOT.contains("permission.rs"));
    assert!(S2_FACTOR_SSOT.contains("trust_refuse_factor"));
}

#[test]
fn sec_s2_manifold_gate_ceremony_close_predicate() {
    assert!(manifold_gate_sec_s2_ceremony_closed(s2_evidence_wired()));
    let probe = sec_s2_gate_manifold_probe(s2_evidence_wired());
    assert!(probe.gate_evidence_wired);
    assert!(probe.s2_all_refuse_paths_probed);
    assert!(probe.trust_gate_policy_pins_verified);
    assert!(probe.s2_green_claim_blocked);
    assert!(probe.production_honest_false);
    assert_eq!(probe.wire_hop_wired_count, 5);
    assert!(probe.ceremony_closed);
}

#[test]
fn sec_s2_prior_receipt_paths_pinned() {
    assert!(PRIOR_RECEIPT_PATH_2033.contains("SEC-S2_2033"));
    assert!(PRIOR_RECEIPT_PATH_G73.contains("G73"));
    assert!(PRIOR_RECEIPT_PATH_Y81.contains("Y81"));
    assert!(TRUST_SSOT.contains("permission.rs"));
    assert!(EGOFF_PERMISSION_SSOT.contains("security/permission.rs"));
}

#[test]
fn sec_s2_gate_factor_table_honest_blocked_scert() {
    let table = sec_s2_gate_factor_table();
    assert!(table.contains("expected_gate_exit=BLOCKED"));
    assert!(table.contains("scert_credit=BLOCKED"));
    let rows = collect_sec_s2_gate_factor_rows();
    assert_eq!(rows.len(), 6);
    assert!(rows.iter().all(|r| r.probe_wired));
    assert!(rows.iter().all(|r| !r.acceptance_credit));
}

#[test]
fn sec_s2_gate_factor_exit_expectations_y81_absorb() {
    let exit = sec_s2_gate_factor_exit_expectations();
    assert_eq!(exit.subcommand, "gate-factors");
    assert_eq!(exit.expected_gate_exit, "BLOCKED");
    assert_eq!(exit.scert_credit, "BLOCKED");
    assert_eq!(exit.factor_row_count, 6);
    assert_eq!(exit.palette_keys.len(), 5);
}

#[test]
fn sec_s2_gate_wire_matrix_renders_honest_counts() {
    let matrix = sec_s2_gate_wire_matrix(s2_evidence_wired());
    assert!(matrix.contains("SEC-S2 manifold gate"));
    assert!(matrix.contains("s2_green_claim_blocked=true"));
    assert!(matrix.contains("wired=5/7"));
}

#[test]
fn fleet_composer_p1941_k2_sec_s2_honest() {
    assert!(sec_s2_p1941_k2_honest(s2_evidence_wired()));
    let probe = sec_s2_p1941_k2_probe(s2_evidence_wired());
    assert_eq!(probe.k2_job_id, FLEET_P1941_K2_JOB_ID);
    assert!(probe.prior_2033_absorbed);
    assert!(probe.prior_g73_absorbed);
    assert!(probe.prior_y81_absorbed);
    assert!(probe.ceremony_closed);
    assert!(!probe.production_wired);
    assert_eq!(probe.gate_factor_wired_count, 6);
    assert!(probe.gate_factor_exit_blocked);
}

#[test]
fn sec_s2_validate_gate_honesty_residue_measured() {
    validate_sec_s2_gate_honesty(s2_evidence_wired()).expect("honest SEC-S2 gate census residue");
    assert_eq!(
        sec_s2_trust_wrap_next_hop(),
        "umst-gateway/crates/umst-gateway/src/sec_gw_trust_wrap.rs:trust_wrap_wired"
    );
}

#[test]
fn sec_s2_extract_production_fence_facets_five_of_seven_wired() {
    assert_eq!(
        manifold_s2_extract_production_fence_facets().len(),
        S2_EXTRACT_FENCE_FACET_COUNT
    );
    assert_eq!(sec_s2_extract_fence_wired_count(), S2_EXTRACT_FENCE_WIRED_COUNT);
    assert!(manifold_s2_extract_fence_facets_verified());
    let matrix = sec_s2_extract_production_fence_matrix(s2_evidence_wired());
    assert!(matrix.contains("facets_wired=5/7"));
    assert!(matrix.contains("trust_extract_production_wired=false"));
    assert!(matrix.contains("session_ledger_wired=false"));
    assert!(EXTRACT_SSOT.contains("sec_ecosystem_extract.rs"));
}

#[test]
fn fleet_accel_ac29_sec_s2_extract_production_fence_honest() {
    assert!(sec_s2_accel_ac29_honest(s2_evidence_wired()));
    let probe = sec_s2_accel_ac29_probe(s2_evidence_wired());
    assert_eq!(probe.ac29_job_id, FLEET_ACCEL_AC29_JOB_ID);
    assert!(probe.prior_k2_absorbed);
    assert!(probe.prior_g73_absorbed);
    assert!(probe.prior_h52_absorbed);
    assert!(probe.prior_x48_absorbed);
    assert!(probe.extract_fence_matrix_verified);
    assert!(probe.ceremony_closed);
    assert!(!probe.production_wired);
    assert!(probe.trust_extract_production_wired_honest_false);
    assert_eq!(probe.extract_wired_facet_count, S2_EXTRACT_FENCE_WIRED_COUNT);
    assert!(!sec_s2_trust_extract_production_wired());
    assert_eq!(
        sec_s2_extract_production_fence_next_hop(),
        "umst-foundations/crates/umst-trust/src/sec_ecosystem_extract.rs:session_ledger_wired"
    );
}

#[test]
fn sec_s2_w29_121_honest_fence_no_green_production_master_op5() {
    assert_eq!(W29_121_CELL_ID, "W29-121-SEC_S2");
    assert_eq!(W29_121_DEEPEN_SCHEMA_VERSION, "sec_s2_w29_121_honest_fence_v1");
    assert_eq!(SCHEMA_VERSION, "sec_s2_gate_trust_refuse_census_v3");
    assert!(!sec_s2_production_wired());
    assert!(!sec_s2_trust_extract_production_wired());
    assert!(!session_ledger_wired());
    assert!(S2_GREEN_CLAIM_BLOCKED);
    assert!(!sec_s2_master_retick_eligible());
    assert!(!sec_s2_op5_cleared());
    assert!(sec_s2_w29_121_deepen_honest(s2_evidence_wired()));
    assert!(sec_s2_honest_fence_holds(s2_evidence_wired()));
    let probe = sec_s2_w29_121_deepen_probe(s2_evidence_wired());
    assert!(!probe.green_claimed);
    assert!(!probe.production_wired_claimed);
    assert!(!probe.op5_pass_claimed);
    assert!(!probe.master_retick_claimed);
    assert!(probe.honest_fence.contains("master_retick=false"));
    assert!(probe.honest_fence.contains("trust_extract_production_wired=false"));
    assert!(probe.non_claim.contains("not MASTER_RETICK"));
    let matrix = sec_s2_gate_wire_matrix(s2_evidence_wired());
    assert!(matrix.contains("w29_121_cell=W29-121-SEC_S2"));
    assert!(matrix.contains("honest_fence_holds=true"));
    validate_sec_s2_gate_honesty(s2_evidence_wired()).expect("W29-121 honest fence validates");
}

#[test]
fn sec_s2_gate_refuses_when_cold_edge_witness_rejects() {
    let rejected = TransitionEvidence {
        catalog_id: CD_TRANSITION_CATALOG_ID,
        admissibility: AdmissibilityToken::Inadmissible,
        observed_at: None,
    };
    let wired = gate_transition_evidence_probe(&rejected);
    assert!(!wired);
    assert!(!manifold_gate_sec_s2_ceremony_closed(wired));
    assert!(!sec_s2_honest_fence_holds(wired));
    assert_eq!(
        validate_sec_s2_gate_honesty(wired),
        Err("gate transition evidence probe failed")
    );
    let matrix = sec_s2_gate_wire_matrix(wired);
    assert!(matrix.contains("honest_fence_holds=false"));
}
