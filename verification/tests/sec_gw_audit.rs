use umst_manifold::runtime::gate::evidence::{
    AdmissibilityToken, TransitionEvidence, CD_TRANSITION_CATALOG_ID,
};
use umst_manifold::runtime::gate::sec_gw_audit::{
    gate_admit_audit_census, gate_transition_evidence_probe,
    manifold_gate_sec_gw_audit_ceremony_closed, manifold_gw_audit_admit_stamp_paths,
    manifold_gw_audit_all_stamp_paths_probed, manifold_gw_audit_stamp_legs,
    manifold_gw_audit_stamp_legs_complete, manifold_sec_gw_audit_wire_hops,
    manifold_verify_upstream_gw_wrap_delegate, sec_gw_audit_accel2_ac31_honest,
    sec_gw_audit_accel2_ac31_probe, sec_gw_audit_honesty_probe, sec_gw_audit_manifold_probe,
    sec_gw_audit_production_wired, sec_gw_audit_trust_chain_next_hop, sec_gw_audit_wire_matrix,
    validate_sec_gw_audit_honesty, SecGwAuditHonestyFence, BOARD_SLICE_ID,
    FLEET_ACCEL2_AC31_JOB_ID, GATEWAY_SSOT, GATEWAY_SWARM_SSOT, GW_AUDIT_GREEN_CLAIM_BLOCKED,
    JOB_ID, JSONL_ROTATION_LIVE_HONEST, LIVE_TRUST_CHAIN_MEASURED_HONEST, NON_CLAIM,
    POSTURE_TAG, PRIOR_RECEIPT_PATH_P1710_F1, PRIOR_RECEIPT_PATH_Y51, PRIOR_RECEIPT_PATH_Z08,
    PRIOR_RECEIPT_PATH_Z87, SCHEMA_VERSION, SEC_GW_AUDIT_MASTER_RETICK_ELIGIBLE,
    SEC_GW_AUDIT_OP5_CLAIMED, SEC_GW_AUDIT_PHYSICS_GREEN, W29_117_SEC_GW_AUDIT_DEEPEN_STEP,
    WIRE_HOP_TOTAL_COUNT, WIRE_HOP_WIRED_COUNT_HONEST,
};
use umst_manifold::runtime::gate::sec_gw_wrap::manifold_gate_sec_gw_wrap_ceremony_closed;

/// The host witness of the identity transition: admissible on the CD channel, unstamped.
fn audit_identity_witness() -> TransitionEvidence {
    TransitionEvidence {
        catalog_id: CD_TRANSITION_CATALOG_ID,
        admissibility: AdmissibilityToken::Admissible,
        observed_at: None,
    }
}

fn audit_evidence_wired() -> bool {
    gate_transition_evidence_probe(&audit_identity_witness())
}

#[test]
fn sec_gw_audit_board_slice_metadata_locked() {
    assert_eq!(BOARD_SLICE_ID, "SEC-GW-AUDIT");
    assert_eq!(JOB_ID, "AGAP-2033-SEC-GW-AUDIT");
    assert_eq!(FLEET_ACCEL2_AC31_JOB_ID, "ACCEL-B-2050-AC31");
}

#[test]
fn sec_gw_audit_gate_transition_evidence_probe_honest() {
    assert!(gate_transition_evidence_probe(&audit_identity_witness()));
    assert_eq!(audit_identity_witness().admissibility, AdmissibilityToken::Admissible);
}

#[test]
fn sec_gw_audit_admit_census_honest_posture() {
    let census = gate_admit_audit_census(audit_evidence_wired());
    assert_eq!(census.board_slice_id, "SEC-GW-AUDIT");
    assert_eq!(census.schema_version, SCHEMA_VERSION);
    assert!(census.gate_evidence_wired);
    assert_eq!(census.admit_stamp_path_count, 4);
    assert!(census.all_admit_stamp_paths_probed);
    assert_eq!(census.stamp_leg_count, 2);
    assert_eq!(census.delegate_residual_path_count, 0);
    assert!(census.upstream_gw_wrap_ceremony_closed);
    assert!(census.gateway_stamp_helpers_wired);
    assert!(!census.jsonl_rotation_live);
    assert!(!census.live_trust_chain_measured);
    assert!(census.gw_audit_green_claim_blocked);
    assert!(!census.production_wired);
    assert_eq!(census.wire_hop_wired_count, 6);
}

#[test]
fn sec_gw_audit_production_stays_false() {
    assert!(!sec_gw_audit_production_wired());
    assert!(GW_AUDIT_GREEN_CLAIM_BLOCKED);
    assert!(!JSONL_ROTATION_LIVE_HONEST);
    assert!(!LIVE_TRUST_CHAIN_MEASURED_HONEST);
}

#[test]
fn sec_gw_audit_manifold_wire_hops_six_of_eight_wired() {
    let hops = manifold_sec_gw_audit_wire_hops();
    assert_eq!(hops.len(), 8);
    assert_eq!(hops.iter().filter(|h| h.wired).count(), 6);
    assert!(hops.iter().any(|h| h.surface.contains("AdmissibilityToken") && h.wired));
    assert!(hops.iter().any(|h| h.surface.contains("bounded_jsonl_rotation") && !h.wired));
    assert!(hops
        .iter()
        .any(|h| h.surface.contains("resolve_admit_warrant_from_env") && !h.wired));
}

#[test]
fn sec_gw_audit_admit_stamp_paths_four_of_four() {
    assert!(manifold_gw_audit_all_stamp_paths_probed());
    let paths = manifold_gw_audit_admit_stamp_paths();
    assert_eq!(paths.len(), 4);
    assert!(paths.iter().all(|p| p.census_hit));
    assert!(paths.iter().any(|p| p.path_id == "informational_stdio_delegate"));
    assert!(paths.iter().any(|p| p.path_id == "semantic_stub_delegate"));
}

#[test]
fn sec_gw_audit_stamp_legs_two_of_two() {
    assert!(manifold_gw_audit_stamp_legs_complete());
    let legs = manifold_gw_audit_stamp_legs();
    assert_eq!(legs.len(), 2);
    assert!(legs.iter().any(|l| l.leg_id == "ucrs_seq"));
    assert!(legs.iter().any(|l| l.leg_id == "trust_attestation"));
}

#[test]
fn sec_gw_audit_upstream_gw_wrap_delegate_verified() {
    assert!(manifold_verify_upstream_gw_wrap_delegate(audit_evidence_wired()));
    assert!(manifold_gate_sec_gw_wrap_ceremony_closed(audit_evidence_wired()));
}

#[test]
fn sec_gw_audit_manifold_gate_ceremony_close_predicate() {
    assert!(manifold_gate_sec_gw_audit_ceremony_closed(audit_evidence_wired()));
    let probe = sec_gw_audit_manifold_probe(audit_evidence_wired());
    assert!(probe.gate_evidence_wired);
    assert!(probe.all_admit_stamp_paths_probed);
    assert!(probe.stamp_legs_complete);
    assert!(probe.upstream_gw_wrap_verified);
    assert!(probe.gw_audit_green_claim_blocked);
    assert!(probe.production_honest_false);
    assert!(probe.physics_green_honest_false);
    assert!(probe.master_retick_honest_false);
    assert!(probe.op5_honest_false);
    assert!(probe.honesty_fence_holds);
    assert_eq!(probe.wire_hop_wired_count, WIRE_HOP_WIRED_COUNT_HONEST);
    assert!(probe.ceremony_closed);
}

#[test]
fn sec_gw_audit_w29_117_honesty_fence_blocks_green_production_master_op5() {
    assert_eq!(W29_117_SEC_GW_AUDIT_DEEPEN_STEP, "W29-117-SEC_GW_AUDIT");
    assert!(!SEC_GW_AUDIT_PHYSICS_GREEN);
    assert!(!SEC_GW_AUDIT_MASTER_RETICK_ELIGIBLE);
    assert!(!SEC_GW_AUDIT_OP5_CLAIMED);
    assert!(GW_AUDIT_GREEN_CLAIM_BLOCKED);
    assert!(!sec_gw_audit_production_wired());
    assert!(!JSONL_ROTATION_LIVE_HONEST);
    assert!(!LIVE_TRUST_CHAIN_MEASURED_HONEST);
    let fence = SecGwAuditHonestyFence::measured();
    assert_eq!(fence.deepen_step, W29_117_SEC_GW_AUDIT_DEEPEN_STEP);
    assert!(fence.holds());
    assert!(NON_CLAIM.contains("not GREEN"));
    assert!(NON_CLAIM.contains("not PRODUCTION_WIRED"));
    assert!(NON_CLAIM.contains("not MASTER"));
    assert!(NON_CLAIM.contains("not OP-5"));
    assert!(sec_gw_audit_honesty_probe(audit_evidence_wired()));
}

#[test]
fn sec_gw_audit_prior_receipt_paths_pinned() {
    assert!(PRIOR_RECEIPT_PATH_Y51.contains("Y51"));
    assert!(PRIOR_RECEIPT_PATH_Z87.contains("Z87"));
    assert!(PRIOR_RECEIPT_PATH_Z08.contains("Z08"));
    assert!(PRIOR_RECEIPT_PATH_P1710_F1.contains("F1"));
    assert!(GATEWAY_SSOT.contains("lib_adopt_e_gateway_audit.rs"));
    assert!(GATEWAY_SWARM_SSOT.contains("sec_gw_audit_swarm_rotate.rs"));
}

#[test]
fn sec_gw_audit_wire_matrix_renders_honest_counts() {
    let matrix = sec_gw_audit_wire_matrix();
    assert!(matrix.contains("SEC-GW-AUDIT manifold gate"));
    assert!(matrix.contains("gw_audit_green_claim_blocked=true"));
    assert!(matrix.contains("wired=6/8"));
    assert!(matrix.contains("production_wired=false"));
    assert!(matrix.contains("delegate_residuals=0"));
}

#[test]
fn fleet_composer_accel2_ac31_sec_gw_audit_honest() {
    assert!(sec_gw_audit_accel2_ac31_honest(audit_evidence_wired()));
    let probe = sec_gw_audit_accel2_ac31_probe(audit_evidence_wired());
    assert_eq!(probe.ac31_job_id, FLEET_ACCEL2_AC31_JOB_ID);
    assert!(probe.prior_y51_absorbed);
    assert!(probe.prior_z87_absorbed);
    assert!(probe.prior_z08_absorbed);
    assert!(probe.prior_p1710_f1_absorbed);
    assert!(probe.ceremony_closed);
    assert!(!probe.production_wired);
    assert_eq!(probe.admit_stamp_path_count, 4);
    assert_eq!(probe.delegate_residual_path_count, 0);
    assert!(probe.probe.honesty_fence_holds);
    assert!(probe.probe.physics_green_honest_false);
    assert!(probe.probe.master_retick_honest_false);
    assert!(probe.probe.op5_honest_false);
}

#[test]
fn sec_gw_audit_validate_gate_honesty_residue_measured() {
    validate_sec_gw_audit_honesty(audit_evidence_wired())
        .expect("honest SEC-GW-AUDIT gate census residue");
    assert_eq!(
        sec_gw_audit_trust_chain_next_hop(),
        "umst-gateway/crates/umst-gateway/src/lib_adopt_e_gateway_audit.rs:resolve_admit_warrant_from_env"
    );
    assert_eq!(POSTURE_TAG, "manifold-gate-census-wired-not-production");
    assert_eq!(WIRE_HOP_TOTAL_COUNT, 8);
    assert_eq!(WIRE_HOP_WIRED_COUNT_HONEST, 6);
}

#[test]
fn sec_gw_audit_refused_witness_fails_every_honesty_gate() {
    let refused = TransitionEvidence {
        catalog_id: "",
        admissibility: AdmissibilityToken::Admissible,
        observed_at: None,
    };
    let wired = gate_transition_evidence_probe(&refused);
    assert!(!wired);
    assert!(!manifold_gate_sec_gw_audit_ceremony_closed(wired));
    assert!(!sec_gw_audit_honesty_probe(wired));
    assert!(!sec_gw_audit_accel2_ac31_honest(wired));
    assert_eq!(
        validate_sec_gw_audit_honesty(wired),
        Err("gate transition evidence probe failed")
    );
    assert!(!gate_admit_audit_census(wired).upstream_gw_wrap_ceremony_closed);
}

#[test]
fn sec_gw_audit_wire_matrix_exact_counts_line() {
    let matrix = sec_gw_audit_wire_matrix();
    assert!(matrix.contains(
        "  wired=6/8 admit_stamp_paths=4 stamp_legs=2 delegate_residuals=0 gw_audit_green_claim_blocked=true jsonl_rotation_live=false live_trust_chain_measured=false production_wired=false\n"
    ));
}
