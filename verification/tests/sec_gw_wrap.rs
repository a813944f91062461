use umst_manifold::runtime::gate::evidence::{
    AdmissibilityToken, TransitionEvidence, CD_TRANSITION_CATALOG_ID,
};
use umst_manifold::runtime::gate::sec_gw_wrap::{
    gate_transition_evidence_probe, gate_trust_wrap_census,
    manifold_gate_sec_gw_wrap_ceremony_closed, manifold_gw_wrap_admit_surfaces,
    manifold_gw_wrap_all_admit_surfaces_probed, manifold_gw_wrap_ledger_prep_complete,
    manifold_gw_wrap_ledger_prep_hops, manifold_gw_wrap_s4_delegate_complete,
    manifold_gw_wrap_s4_delegate_hops, manifold_gw_wrap_trust_wrap_helpers_wired,
    manifold_sec_gw_wrap_wire_hops, manifold_verify_upstream_gate_delegates,
    sec_gw_wrap_accel2_ac32_honest, sec_gw_wrap_accel2_ac32_probe, sec_gw_wrap_honesty_probe,
    sec_gw_wrap_manifold_probe, sec_gw_wrap_production_wired, sec_gw_wrap_trust_wrap_next_hop,
    sec_gw_wrap_wire_matrix, validate_sec_gw_wrap_honesty, SecGwWrapHonestyFence,
    BOARD_SLICE_ID, FLEET_ACCEL2_AC32_JOB_ID, GATEWAY_PRODUCTION_WIRED_HONEST, GATEWAY_SSOT,
    GATEWAY_TRUST_WRAP_HELPERS_WIRED_HONEST, GW_WRAP_GREEN_CLAIM_BLOCKED, JOB_ID, POSTURE_TAG,
    PRIOR_RECEIPT_PATH_H54, PRIOR_RECEIPT_PATH_P1800_H1, PRIOR_RECEIPT_PATH_Y24,
    PRIOR_RECEIPT_PATH_Z33, SCHEMA_VERSION, SEC_GW_WRAP_CELL_ID,
    SEC_GW_WRAP_MASTER_RETICK_ELIGIBLE, SEC_GW_WRAP_OP5_CLEARED, SEC_GW_WRAP_PHYSICS_GREEN,
    TRUST_WRAP_WIRED_HONEST, W29_118_SEC_GW_WRAP_DEEPEN_STEP,
};
use umst_manifold::runtime::gate::sec_s2::manifold_gate_sec_s2_ceremony_closed;
use umst_manifold::runtime::gate::sec_s3::manifold_gate_sec_s3_ceremony_closed;
use umst_manifold::runtime::gate::sec_s4::manifold_gate_sec_s4_ceremony_closed;

/// The host witness of the identity transition: admissible on the CD channel, unstamped.
fn gw_identity_witness() -> TransitionEvidence {
    TransitionEvidence {
        catalog_id: CD_TRANSITION_CATALOG_ID,
        admissibility: AdmissibilityToken::Admissible,
        observed_at: None,
    }
}

fn gw_evidence_wired() -> bool {
    gate_transition_evidence_probe(&gw_identity_witness())
}

#[test]
fn sec_gw_wrap_board_slice_metadata_locked() {
    assert_eq!(BOARD_SLICE_ID, "SEC-GW-WRAP");
    assert_eq!(JOB_ID, "AGAP-2033-SEC-GW-WRAP");
    assert_eq!(FLEET_ACCEL2_AC32_JOB_ID, "ACCEL-B-2050-AC32");
    assert_eq!(SEC_GW_WRAP_CELL_ID, "W29-118-SEC_GW_WRAP");
    assert_eq!(W29_118_SEC_GW_WRAP_DEEPEN_STEP, "W29-118-SEC_GW_WRAP");
}

#[test]
fn sec_gw_wrap_gate_transition_evidence_probe_honest() {
    assert!(gate_transition_evidence_probe(&gw_identity_witness()));
    assert_eq!(gw_identity_witness().admissibility, AdmissibilityToken::Admissible);
}

#[test]
fn sec_gw_wrap_trust_census_honest_posture() {
    let census = gate_trust_wrap_census(gw_evidence_wired());
    assert_eq!(census.board_slice_id, "SEC-GW-WRAP");
    assert_eq!(census.cell_id, SEC_GW_WRAP_CELL_ID);
    assert_eq!(census.schema_version, SCHEMA_VERSION);
    assert!(census.gate_evidence_wired);
    assert_eq!(census.admit_surface_count, 7);
    assert!(census.all_admit_surfaces_probed);
    assert_eq!(census.ledger_prep_hop_count, 7);
    assert!(census.upstream_s2_ceremony_closed);
    assert!(census.upstream_s3_ceremony_closed);
    assert!(census.upstream_s4_ceremony_closed);
    assert!(!census.session_ledger_provider_wired);
    assert!(!census.trust_wrap_wired);
    assert!(census.gw_wrap_green_claim_blocked);
    assert!(!census.physics_green);
    assert!(!census.master_retick_eligible);
    assert!(!census.op5_cleared);
    assert_eq!(census.s4_delegate_hop_count, 4);
    assert!(census.gateway_trust_wrap_helpers_wired);
    assert!(census.wrap_queue_depth >= 1);
    assert!(!census.production_wired);
    assert_eq!(census.wire_hop_wired_count, 7);
}

#[test]
fn sec_gw_wrap_production_stays_false() {
    assert!(!sec_gw_wrap_production_wired());
    assert!(GW_WRAP_GREEN_CLAIM_BLOCKED);
    assert!(!TRUST_WRAP_WIRED_HONEST);
    assert!(!GATEWAY_PRODUCTION_WIRED_HONEST);
    assert!(!SEC_GW_WRAP_MASTER_RETICK_ELIGIBLE);
    assert!(!SEC_GW_WRAP_OP5_CLEARED);
    assert!(!SEC_GW_WRAP_PHYSICS_GREEN);
}

#[test]
fn sec_gw_wrap_w29_118_honesty_fence_holds() {
    let fence = SecGwWrapHonestyFence::measured();
    assert!(fence.holds());
    assert_eq!(fence.cell_id, "W29-118-SEC_GW_WRAP");
    assert_eq!(fence.deepen_step, "W29-118-SEC_GW_WRAP");
    assert!(!fence.physics_green);
    assert!(!fence.production_wired);
    assert!(!fence.master_retick_eligible);
    assert!(!fence.op5_cleared);
    assert!(fence.green_claim_blocked);
    let probe = sec_gw_wrap_honesty_probe(gw_evidence_wired());
    assert!(probe.fence_holds);
    assert!(probe.deepen_honest);
    assert!(probe.ceremony_closed);
    assert_eq!(probe.posture_tag, POSTURE_TAG);
}

#[test]
fn sec_gw_wrap_manifold_wire_hops_seven_of_ten_wired() {
    let hops = manifold_sec_gw_wrap_wire_hops();
    assert_eq!(hops.len(), 10);
    assert_eq!(hops.iter().filter(|h| h.wired).count(), 7);
    assert!(hops.iter().any(|h| h.surface.contains("AdmissibilityToken") && h.wired));
    assert!(hops.iter().any(|h| h.surface.contains("trust_wrap_wired") && !h.wired));
    assert!(hops
        .iter()
        .any(|h| h.surface.contains("sec_gw_trust_wrap_production_wired") && !h.wired));
}

#[test]
fn sec_gw_wrap_admit_surface_inventory_seven_of_seven() {
    assert!(manifold_gw_wrap_all_admit_surfaces_probed());
    let surfaces = manifold_gw_wrap_admit_surfaces();
    assert_eq!(surfaces.len(), 7);
    assert!(surfaces.iter().all(|s| s.census_hit));
}

#[test]
fn sec_gw_wrap_ledger_prep_hops_seven_of_seven() {
    assert!(manifold_gw_wrap_ledger_prep_complete());
    let hops = manifold_gw_wrap_ledger_prep_hops();
    assert_eq!(hops.len(), 7);
    assert!(hops.iter().all(|h| h.prep_hit));
}

#[test]
fn sec_gw_wrap_s4_delegate_hops_four_of_four() {
    assert!(manifold_gw_wrap_s4_delegate_complete());
    let hops = manifold_gw_wrap_s4_delegate_hops();
    assert_eq!(hops.len(), 4);
    assert!(hops.iter().all(|h| h.census_hit));
    assert!(manifold_gw_wrap_trust_wrap_helpers_wired());
    assert!(GATEWAY_TRUST_WRAP_HELPERS_WIRED_HONEST);
}

#[test]
fn sec_gw_wrap_upstream_gate_delegates_verified() {
    assert!(manifold_verify_upstream_gate_delegates(gw_evidence_wired()));
    assert!(manifold_gate_sec_s2_ceremony_closed(gw_evidence_wired()));
    assert!(manifold_gate_sec_s3_ceremony_closed(gw_evidence_wired()));
    assert!(manifold_gate_sec_s4_ceremony_closed(gw_evidence_wired()));
}

#[test]
fn sec_gw_wrap_manifold_gate_ceremony_close_predicate() {
    assert!(manifold_gate_sec_gw_wrap_ceremony_closed(gw_evidence_wired()));
    let probe = sec_gw_wrap_manifold_probe(gw_evidence_wired());
    assert!(probe.gate_evidence_wired);
    assert!(probe.all_admit_surfaces_probed);
    assert!(probe.ledger_prep_complete);
    assert!(probe.upstream_delegates_verified);
    assert!(probe.gw_wrap_green_claim_blocked);
    assert!(probe.production_honest_false);
    assert!(probe.master_retick_refused);
    assert!(probe.op5_refused);
    assert!(probe.physics_green_refused);
    assert!(probe.honesty_fence_holds);
    assert_eq!(probe.wire_hop_wired_count, 7);
    assert!(probe.ceremony_closed);
}

#[test]
fn sec_gw_wrap_prior_receipt_paths_pinned() {
    assert!(PRIOR_RECEIPT_PATH_P1800_H1.contains("P1800_H1"));
    assert!(PRIOR_RECEIPT_PATH_Z33.contains("Z33"));
    assert!(PRIOR_RECEIPT_PATH_Y24.contains("Y24"));
    assert!(PRIOR_RECEIPT_PATH_H54.contains("H54"));
    assert!(GATEWAY_SSOT.contains("sec_gw_trust_wrap.rs"));
}

#[test]
fn sec_gw_wrap_wire_matrix_renders_honest_counts() {
    let matrix = sec_gw_wrap_wire_matrix();
    assert!(matrix.contains("SEC-GW-WRAP manifold gate"));
    assert!(matrix.contains("gw_wrap_green_claim_blocked=true"));
    assert!(matrix.contains("s4_delegate=4"));
    assert!(matrix.contains("trust_wrap_helpers_wired=true"));
    assert!(matrix.contains("wired=7/10"));
    assert!(matrix.contains("production_wired=false"));
    assert!(matrix.contains("physics_green=false"));
    assert!(matrix.contains("master_retick=false"));
    assert!(matrix.contains("op5_cleared=false"));
    assert!(matrix.contains("cell_id=W29-118-SEC_GW_WRAP"));
}

#[test]
fn fleet_composer_accel2_ac32_sec_gw_wrap_honest() {
    assert!(sec_gw_wrap_accel2_ac32_honest(gw_evidence_wired()));
    let probe = sec_gw_wrap_accel2_ac32_probe(gw_evidence_wired());
    assert_eq!(probe.ac32_job_id, FLEET_ACCEL2_AC32_JOB_ID);
    assert!(probe.prior_h1_absorbed);
    assert!(probe.prior_z33_absorbed);
    assert!(probe.prior_y24_absorbed);
    assert!(probe.prior_h54_absorbed);
    assert!(probe.ceremony_closed);
    assert!(!probe.production_wired);
    assert_eq!(probe.admit_surface_count, 7);
    assert_eq!(probe.ledger_prep_hop_count, 7);
    assert_eq!(probe.s4_delegate_hop_count, 4);
    assert!(probe.gateway_trust_wrap_helpers_wired);
}

#[test]
fn sec_gw_wrap_validate_gate_honesty_residue_measured() {
    validate_sec_gw_wrap_honesty(gw_evidence_wired()).expect("honest SEC-GW-WRAP gate census residue");
    assert_eq!(
        sec_gw_wrap_trust_wrap_next_hop(),
        "umst-gateway/crates/umst-gateway/src/sec_gw_trust_wrap.rs:trust_wrap_wired"
    );
}

#[test]
fn sec_gw_wrap_refused_witness_fails_every_honesty_gate() {
    let refused = TransitionEvidence {
        catalog_id: CD_TRANSITION_CATALOG_ID,
        admissibility: AdmissibilityToken::Inadmissible,
        observed_at: None,
    };
    let wired = gate_transition_evidence_probe(&refused);
    assert!(!wired);
    assert!(!manifold_gate_sec_gw_wrap_ceremony_closed(wired));
    assert!(!manifold_verify_upstream_gate_delegates(wired));
    assert!(!sec_gw_wrap_accel2_ac32_honest(wired));
    assert!(!sec_gw_wrap_honesty_probe(wired).deepen_honest);
    assert_eq!(
        validate_sec_gw_wrap_honesty(wired),
        Err("gate transition evidence probe failed")
    );
    let census = gate_trust_wrap_census(wired);
    assert!(!census.upstream_s2_ceremony_closed);
    assert!(!census.upstream_s4_ceremony_closed);
}

#[test]
fn sec_gw_wrap_wire_matrix_exact_counts_line() {
    let matrix = sec_gw_wrap_wire_matrix();
    assert!(matrix.contains(
        "  wired=7/10 admit_surfaces=7 ledger_prep=7 s4_delegate=4 gw_wrap_green_claim_blocked=true trust_wrap_helpers_wired=true wrap_queue_depth=1 trust_wrap_wired=false session_ledger_provider_wired=false production_wired=false physics_green=false master_retick=false op5_cleared=false cell_id=W29-118-SEC_GW_WRAP\n"
    ));
    assert!(matrix.contains("  10 wired=false umst-gateway::sec_gw_trust_wrap::sec_gw_trust_wrap_production_wired [Gateway production flip (operator-measured live)]\n"));
}
