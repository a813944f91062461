use umst_manifold::runtime::gate::evidence::{
    AdmissibilityToken, TransitionEvidence, CD_TRANSITION_CATALOG_ID,
};
use umst_manifold::runtime::gate::sec_s3::{
    gate_palette_ledger_census, gate_transition_evidence_probe,
    manifold_gate_sec_s3_ceremony_closed, manifold_s3_open_residual_fences_verified,
    manifold_s3_revoke_ledger_hops, manifold_s3_revoke_ledger_lifecycle_verified,
    manifold_s3_revoke_posture_facets, manifold_s3_revoke_posture_facets_verified,
    manifold_sec_s3_gate_wire_hops, open_residual_fences, sec_s3_accel_ac05_honest,
    sec_s3_accel_ac05_probe, sec_s3_gate_manifold_probe, sec_s3_gate_wire_matrix,
    sec_s3_master_retick_eligible, sec_s3_open_residual_fence_table, sec_s3_p1606_c5_honest,
    sec_s3_p1606_c5_probe, sec_s3_production_wired, sec_s3_revoke_ledger_lifecycle_matrix,
    sec_s3_revoke_posture_matrix, sec_s3_session_ledger_next_hop, sec_s3_trust_wrap_next_hop,
    sec_s3_w29_deepen_honest, sec_s3_w29_deepen_probe, session_ledger_wired,
    validate_sec_s3_gate_honesty, ACCEL_2030_AC05_JOB_ID, BOARD_SLICE_ID, EGOFF_LEDGER_SSOT,
    EGOFF_PALETTE_SSOT, EGOFF_S3_INTEGRATION_SSOT, FLEET_COMPOSER_F74_RECEIPT_PATH,
    FLEET_COMPOSER_G74_RECEIPT_PATH, FLEET_P1606_C5_JOB_ID, JOB_ID, MASTER_RETICK_ELIGIBLE,
    OPEN_RESIDUAL_HOP_COUNT, PALETTE_PERSISTED_HONEST, PRIOR_RECEIPT_PATH_2033,
    PRIOR_RECEIPT_PATH_2127, SCHEMA_VERSION, TRUST_SSOT, W29_CELL_ID,
};

/// The host witness of the identity transition: admissible on the CD channel, unstamped.
fn s3_identity_witness() -> TransitionEvidence {
    TransitionEvidence {
        catalog_id: CD_TRANSITION_CATALOG_ID,
        admissibility: AdmissibilityToken::Admissible,
        observed_at: None,
    }
}

fn s3_evidence_wired() -> bool {
    gate_transition_evidence_probe(&s3_identity_witness())
}

#[test]
fn sec_s3_board_slice_metadata_locked() {
    assert_eq!(BOARD_SLICE_ID, "SEC-S3");
    assert_eq!(W29_CELL_ID, "W29-122-SEC_S3");
    assert_eq!(JOB_ID, "AGAP-2033-SEC-S3");
    assert_eq!(FLEET_P1606_C5_JOB_ID, "PRABHU-WAVE-C-1606-C5");
    assert_eq!(OPEN_RESIDUAL_HOP_COUNT, 2);
    assert!(!MASTER_RETICK_ELIGIBLE);
}

#[test]
fn sec_s3_gate_transition_evidence_probe_honest() {
    assert!(gate_transition_evidence_probe(&s3_identity_witness()));
    let evidence = s3_identity_witness();
    assert_eq!(evidence.admissibility, AdmissibilityToken::Admissible);
}

#[test]
fn sec_s3_palette_ledger_census_honest_posture() {
    let census = gate_palette_ledger_census(s3_evidence_wired());
    assert_eq!(census.board_slice_id, "SEC-S3");
    assert_eq!(census.w29_cell_id, W29_CELL_ID);
    assert_eq!(census.schema_version, SCHEMA_VERSION);
    assert!(census.gate_evidence_wired);
    assert!(!census.palette_persisted);
    assert!(!census.session_ledger_wired);
    assert!(!census.production_wired);
    assert_eq!(census.open_residual_hop_count, 2);
    assert!(census.open_residual_fences_verified);
    assert!(census.revoke_posture_facets_verified);
    assert!(census.revoke_ledger_lifecycle_verified);
    assert!(census.s3_green_claim_blocked);
    assert!(!census.sled_persistence_claimed);
    assert!(!census.master_retick_eligible);
    assert_eq!(census.wire_hop_wired_count, 5);
}

#[test]
fn sec_s3_session_ledger_and_production_stay_false() {
    assert!(!session_ledger_wired());
    assert!(!sec_s3_production_wired());
    assert!(!PALETTE_PERSISTED_HONEST);
    assert!(!sec_s3_master_retick_eligible());
}

#[test]
fn sec_s3_open_residual_fences_pin_unwired_hops() {
    assert!(manifold_s3_open_residual_fences_verified());
    let fences = open_residual_fences();
    assert_eq!(fences.len(), 2);
    assert_eq!(fences[0].residue_id, "R-sled-session-ledger");
    assert_eq!(fences[1].residue_id, "R-gateway-trust-wrap");
    assert!(fences.iter().all(|f| f.honest_open && f.green_credit_blocked));
    let table = sec_s3_open_residual_fence_table();
    assert!(table.contains("R-sled-session-ledger"));
    assert!(table.contains("R-gateway-trust-wrap"));
    assert!(table.contains("fences_verified=true"));
    assert!(table.contains("production_wired=false"));
    assert!(table.contains("master_retick=false"));
}

#[test]
fn sec_s3_manifold_wire_hops_cover_gate_and_trust_delegate() {
    let hops = manifold_sec_s3_gate_wire_hops();
    assert_eq!(hops.len(), 7);
    assert_eq!(hops.iter().filter(|h| h.wired).count(), 5);
    assert!(hops.iter().any(|h| h.surface.contains("AdmissibilityToken") && h.wired));
    assert!(hops.iter().any(|h| h.surface.contains("session_ledger_wired") && !h.wired));
    assert!(hops.iter().any(|h| h.surface.contains("trust_wrap_wired") && !h.wired));
}

#[test]
fn sec_s3_manifold_gate_ceremony_close_predicate() {
    assert!(manifold_gate_sec_s3_ceremony_closed(s3_evidence_wired()));
    let probe = sec_s3_gate_manifold_probe(s3_evidence_wired());
    assert!(probe.gate_evidence_wired);
    assert!(probe.palette_persisted_honest_false);
    assert!(probe.session_ledger_honest_false);
    assert!(probe.production_honest_false);
    assert!(probe.open_residual_fences_verified);
    assert_eq!(probe.open_residual_hop_count, 2);
    assert!(probe.revoke_posture_facets_verified);
    assert!(probe.revoke_ledger_lifecycle_verified);
    assert!(probe.s3_green_claim_blocked);
    assert!(probe.sled_persistence_honest_false);
    assert!(probe.master_retick_honest_false);
    assert_eq!(probe.wire_hop_wired_count, 5);
    assert!(probe.ceremony_closed);
}

#[test]
fn sec_s3_prior_receipt_paths_pinned() {
    assert!(PRIOR_RECEIPT_PATH_2033.contains("SEC-S3_2033"));
    assert!(PRIOR_RECEIPT_PATH_2127.contains("SEC-S3_2127"));
    assert!(TRUST_SSOT.contains("sec_s3_revoke_posture"));
    assert!(EGOFF_LEDGER_SSOT.contains("security/ledger.rs"));
    assert!(EGOFF_PALETTE_SSOT.contains("security/palette.rs"));
    assert!(FLEET_COMPOSER_F74_RECEIPT_PATH.contains("COMPOSER_F74_SEC_S3_1942"));
    assert!(FLEET_COMPOSER_G74_RECEIPT_PATH.contains("COMPOSER_G74_SEC_S3_2143"));
    assert!(EGOFF_S3_INTEGRATION_SSOT.contains("s2_s3_security_deepen"));
}

#[test]
fn sec_s3_revoke_posture_facets_five_of_eight_wired() {
    assert!(manifold_s3_revoke_posture_facets_verified());
    let facets = manifold_s3_revoke_posture_facets();
    assert_eq!(facets.len(), 8);
    assert_eq!(facets.iter().filter(|f| f.wired).count(), 5);
    let matrix = sec_s3_revoke_posture_matrix();
    assert!(matrix.contains("facets_wired=5/8"));
    assert!(matrix.contains("gate_attestation_revoked_refuse"));
}

#[test]
fn sec_s3_revoke_ledger_lifecycle_six_of_eight_wired() {
    assert!(manifold_s3_revoke_ledger_lifecycle_verified());
    let hops = manifold_s3_revoke_ledger_hops();
    assert_eq!(hops.len(), 8);
    assert_eq!(hops.iter().filter(|h| h.wired).count(), 6);
    let matrix = sec_s3_revoke_ledger_lifecycle_matrix();
    assert!(matrix.contains("lifecycle_wired=6/8"));
    assert!(matrix.contains("gate_admit_refuse"));
    assert!(matrix.contains("sled_persistence"));
}

#[test]
fn fleet_accel_ac05_sec_s3_revoke_posture_deepen_honest() {
    assert!(sec_s3_accel_ac05_honest(s3_evidence_wired()));
    let probe = sec_s3_accel_ac05_probe(s3_evidence_wired());
    assert_eq!(probe.ac05_job_id, ACCEL_2030_AC05_JOB_ID);
    assert!(probe.prior_c5_absorbed);
    assert!(probe.prior_f74_absorbed);
    assert!(probe.prior_g74_absorbed);
    assert!(probe.prior_2127_absorbed);
    assert!(probe.revoke_posture_matrix_verified);
    assert!(probe.revoke_ledger_lifecycle_verified);
    assert!(probe.ceremony_closed);
    assert!(!probe.production_wired);
}

#[test]
fn sec_s3_gate_wire_matrix_renders_honest_counts() {
    let matrix = sec_s3_gate_wire_matrix();
    assert!(matrix.contains("SEC-S3 manifold gate"));
    assert!(matrix.contains("session_ledger_wired=false"));
    assert!(matrix.contains("palette_persisted=false"));
    assert!(matrix.contains("wired=5/7"));
    assert!(matrix.contains("open_residual_fences_verified=true"));
    assert!(matrix.contains("master_retick_eligible=false"));
}

#[test]
fn fleet_composer_p1606_c5_sec_s3_honest() {
    assert!(sec_s3_p1606_c5_honest(s3_evidence_wired()));
    let probe = sec_s3_p1606_c5_probe(s3_evidence_wired());
    assert_eq!(probe.c5_job_id, FLEET_P1606_C5_JOB_ID);
    assert!(probe.prior_2033_absorbed);
    assert!(probe.prior_2127_absorbed);
    assert!(probe.ceremony_closed);
    assert!(!probe.production_wired);
    assert!(!probe.palette_persisted);
}

#[test]
fn sec_s3_w29_122_open_residual_fence_deepen_honest() {
    assert!(sec_s3_w29_deepen_honest(s3_evidence_wired()));
    let probe = sec_s3_w29_deepen_probe(s3_evidence_wired());
    assert_eq!(probe.w29_cell_id, "W29-122-SEC_S3");
    assert_eq!(probe.schema_version, "sec_s3_gate_palette_ledger_census_v3");
    assert_eq!(probe.open_residual_hop_count, 2);
    assert!(probe.open_residual_fences_verified);
    assert!(probe.open_residual_table_residue_pinned);
    assert!(probe.ac05_honest);
    assert!(probe.ceremony_closed);
    assert!(!probe.production_wired);
    assert!(!probe.master_retick_eligible);
    assert!(probe.s3_green_claim_blocked);
}

#[test]
fn sec_s3_validate_gate_honesty_residue_measured() {
    validate_sec_s3_gate_honesty(s3_evidence_wired()).expect("honest SEC-S3 gate census residue");
    assert_eq!(
        sec_s3_session_ledger_next_hop(),
        "egoff/egoff/src/security/ledger.rs:TrustLedger::persist_to_sled"
    );
    assert_eq!(
        sec_s3_trust_wrap_next_hop(),
        "umst-gateway/crates/umst-gateway/src/sec_gw_trust_wrap.rs:trust_wrap_wired"
    );
}

#[test]
fn sec_s3_refused_witness_fails_every_honesty_gate() {
    let refused = TransitionEvidence {
        catalog_id: CD_TRANSITION_CATALOG_ID,
        admissibility: AdmissibilityToken::Inadmissible,
        observed_at: None,
    };
    let wired = gate_transition_evidence_probe(&refused);
    assert!(!wired);
    assert!(!manifold_gate_sec_s3_ceremony_closed(wired));
    assert!(!sec_s3_p1606_c5_honest(wired));
    assert!(!sec_s3_accel_ac05_honest(wired));
    assert!(!sec_s3_w29_deepen_honest(wired));
    assert_eq!(
        validate_sec_s3_gate_honesty(wired),
        Err("gate transition evidence probe failed")
    );
}

#[test]
fn sec_s3_rendered_matrices_exact_lines() {
    let table = sec_s3_open_residual_fence_table();
    assert!(table.starts_with("SEC-S3 open residual fences (W29-122):\n"));
    assert!(table.contains(
        "  R-sled-session-ledger hop=6 honest_open=true green_credit_blocked=true delegate=umst-foundations/crates/umst-trust/src/sled.rs\n"
    ));
    assert!(table.ends_with(
        "  open_residual_hop_count=2 fences_verified=true production_wired=false master_retick=false\n"
    ));
    let lifecycle = sec_s3_revoke_ledger_lifecycle_matrix();
    assert!(lifecycle.contains("  4 gate_admit_refuse wired=true umst-trust::permission::require_trust_gate → AttestationRevoked\n"));
    let wire = sec_s3_gate_wire_matrix();
    assert!(wire.contains("  6 wired=false umst-trust::sec_ecosystem_extract::session_ledger_wired [Sled session ledger persistence]\n"));
}
