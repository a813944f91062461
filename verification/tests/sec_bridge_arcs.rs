use umst_manifold::runtime::gate::evidence::{
    AdmissibilityToken, TransitionEvidence, CD_TRANSITION_CATALOG_ID,
};
use umst_manifold::runtime::gate::sec_bridge_arcs::{
    gate_bridge_arcs_census, gate_transition_evidence_probe,
    manifold_bridge_arcs_open_residual_fences_verified,
    manifold_bridge_arcs_thermo_wire_hops_verified, manifold_bridge_arcs_trust_wire_hops_verified,
    manifold_gate_sec_bridge_arcs_ceremony_closed, manifold_sec_bridge_arcs_gate_wire_hops,
    open_residual_fences, sec_bridge_arcs_accel_ac35_honest, sec_bridge_arcs_accel_ac35_probe,
    sec_bridge_arcs_egoff_bridge_next_hop, sec_bridge_arcs_gate_manifold_probe,
    sec_bridge_arcs_gate_wire_matrix, sec_bridge_arcs_master_retick_eligible,
    sec_bridge_arcs_open_residual_fence_table, sec_bridge_arcs_production_wired,
    sec_bridge_arcs_w29_deepen_honest, sec_bridge_arcs_w29_deepen_probe, thermo_wire_hop_ids,
    trust_wire_hop_ids, validate_sec_bridge_arcs_gate_honesty, ARCS_BRIDGE_SSOT,
    ARCS_RUNTIME_SSOT, BOARD_SLICE_ID, BRIDGE_ARCS_GREEN_CLAIM_BLOCKED,
    ECOSYSTEM_TRUST_WIRE_HOP_COUNT, EGOFF_FULL_CRATE_VERIFY_BLOCKED, FLEET_ACCEL_AC35_JOB_ID,
    JOB_ID, MASTER_RETICK_ELIGIBLE, OPEN_RESIDUAL_HOP_COUNT, PRIOR_RECEIPT_PATH_G48,
    PRIOR_RECEIPT_PATH_Y54, PRIOR_RECEIPT_PATH_Z40, PRIOR_RECEIPT_PATH_Z40_ARCS, SCHEMA_VERSION,
    W29_CELL_ID,
};

/// The host witness of the identity transition: admissible on the CD channel, unstamped.
fn bridge_identity_witness() -> TransitionEvidence {
    TransitionEvidence {
        catalog_id: CD_TRANSITION_CATALOG_ID,
        admissibility: AdmissibilityToken::Admissible,
        observed_at: None,
    }
}

fn bridge_evidence_wired() -> bool {
    gate_transition_evidence_probe(&bridge_identity_witness())
}

#[test]
fn sec_bridge_arcs_board_slice_metadata_locked() {
    assert_eq!(BOARD_SLICE_ID, "SEC-BRIDGE-ARCS");
    assert_eq!(JOB_ID, "AGAP-2350-SEC-BRIDGE");
    assert_eq!(W29_CELL_ID, "W29-116-SEC_BRIDGE_ARCS");
    assert_eq!(FLEET_ACCEL_AC35_JOB_ID, "ACCEL-B-2050-AC35");
    assert_eq!(thermo_wire_hop_ids().len(), 4);
    assert_eq!(trust_wire_hop_ids().len(), 3);
    assert_eq!(ECOSYSTEM_TRUST_WIRE_HOP_COUNT, 4);
    assert_eq!(OPEN_RESIDUAL_HOP_COUNT, 2);
    assert_eq!(SCHEMA_VERSION, "sec_bridge_arcs_gate_coordination_census_v2");
}

#[test]
fn sec_bridge_arcs_gate_transition_evidence_probe_honest() {
    assert!(gate_transition_evidence_probe(&bridge_identity_witness()));
    assert_eq!(bridge_identity_witness().admissibility, AdmissibilityToken::Admissible);
}

#[test]
fn sec_bridge_arcs_thermo_wire_hops_match_egoff_inventory() {
    assert!(manifold_bridge_arcs_thermo_wire_hops_verified());
    assert_eq!(thermo_wire_hop_ids()[0], "egoff_ucrs_agent_tick");
    assert_eq!(thermo_wire_hop_ids()[3], "thermo_parity_verify");
}

#[test]
fn sec_bridge_arcs_trust_wire_hops_match_egoff_inventory() {
    assert!(manifold_bridge_arcs_trust_wire_hops_verified());
    assert_eq!(trust_wire_hop_ids()[2], "thermo_parity_after_trust");
}

#[test]
fn sec_bridge_arcs_open_residual_fences_pin_unwired_hops() {
    assert!(manifold_bridge_arcs_open_residual_fences_verified());
    let fences = open_residual_fences();
    assert_eq!(fences.len(), 2);
    assert_eq!(fences[0].residue_id, "R-egoff-runtime");
    assert_eq!(fences[1].residue_id, "R-gateway-tick");
    assert!(fences.iter().all(|f| f.honest_open && f.green_credit_blocked));
    let table = sec_bridge_arcs_open_residual_fence_table();
    assert!(table.contains("R-egoff-runtime"));
    assert!(table.contains("R-gateway-tick"));
    assert!(table.contains("production_wired=false"));
    assert!(table.contains("master_retick=false"));
}

#[test]
fn sec_bridge_arcs_coordination_census_honest_posture() {
    let census = gate_bridge_arcs_census(bridge_evidence_wired());
    assert_eq!(census.board_slice_id, "SEC-BRIDGE-ARCS");
    assert_eq!(census.schema_version, SCHEMA_VERSION);
    assert_eq!(census.w29_cell_id, W29_CELL_ID);
    assert!(census.gate_evidence_wired);
    assert_eq!(census.thermo_wire_hops, 4);
    assert_eq!(census.trust_wire_hops, 3);
    assert_eq!(census.ecosystem_trust_wire_hops, 4);
    assert_eq!(census.open_residual_hop_count, 2);
    assert!(census.open_residual_fences_verified);
    assert!(census.bridge_arcs_green_claim_blocked);
    assert!(census.egoff_full_crate_verify_blocked);
    assert!(!census.master_retick_eligible);
    assert!(!census.production_wired);
    assert_eq!(census.wire_hop_wired_count, 6);
}

#[test]
fn sec_bridge_arcs_production_stays_false() {
    assert!(!sec_bridge_arcs_production_wired());
    assert!(!sec_bridge_arcs_master_retick_eligible());
    assert!(BRIDGE_ARCS_GREEN_CLAIM_BLOCKED);
    assert!(EGOFF_FULL_CRATE_VERIFY_BLOCKED);
    assert!(!MASTER_RETICK_ELIGIBLE);
}

#[test]
fn sec_bridge_arcs_manifold_wire_hops_cover_gate_and_arcs_delegate() {
    let hops = manifold_sec_bridge_arcs_gate_wire_hops();
    assert_eq!(hops.len(), 8);
    assert_eq!(hops.iter().filter(|h| h.wired).count(), 6);
    assert!(hops.iter().any(|h| h.surface.contains("AdmissibilityToken") && h.wired));
    assert!(hops.iter().any(|h| h.surface.contains("egoff_runtime::WIRE_HOPS") && h.wired));
    assert!(hops.iter().any(|h| h.surface.contains("arcs_bridge") && !h.wired));
    assert!(hops.iter().any(|h| h.surface.contains("production_tick_loop") && !h.wired));
}

#[test]
fn sec_bridge_arcs_manifold_gate_ceremony_close_predicate() {
    assert!(manifold_gate_sec_bridge_arcs_ceremony_closed(bridge_evidence_wired()));
    let probe = sec_bridge_arcs_gate_manifold_probe(bridge_evidence_wired());
    assert!(probe.gate_evidence_wired);
    assert!(probe.thermo_wire_hops_verified);
    assert!(probe.trust_wire_hops_verified);
    assert!(probe.open_residual_fences_verified);
    assert!(probe.bridge_arcs_green_claim_blocked);
    assert!(probe.egoff_full_crate_verify_blocked);
    assert!(probe.master_retick_honest_false);
    assert!(probe.production_honest_false);
    assert_eq!(probe.wire_hop_wired_count, 6);
    assert!(probe.ceremony_closed);
}

#[test]
fn sec_bridge_arcs_gate_wire_matrix_renders_honest_counts() {
    let matrix = sec_bridge_arcs_gate_wire_matrix();
    assert!(matrix.contains("SEC-BRIDGE-ARCS manifold gate"));
    assert!(matrix.contains("thermo=4"));
    assert!(matrix.contains("trust=3"));
    assert!(matrix.contains("open_residual=2"));
    assert!(matrix.contains("production_wired=false"));
    assert!(matrix.contains("master_retick=false"));
    assert!(matrix.contains("wired=6/8"));
    assert!(matrix.contains("W29-116-SEC_BRIDGE_ARCS"));
}

#[test]
fn sec_bridge_arcs_prior_receipt_paths_pinned() {
    assert!(PRIOR_RECEIPT_PATH_Y54.contains("COMPOSER_Y54"));
    assert!(PRIOR_RECEIPT_PATH_G48.contains("COMPOSER_G48_BRIDGE"));
    assert!(PRIOR_RECEIPT_PATH_Z40.contains("COMPOSER_Z40_1015"));
    assert!(PRIOR_RECEIPT_PATH_Z40_ARCS.contains("COMPOSER_Z40_0928"));
    assert!(ARCS_RUNTIME_SSOT.contains("egoff_runtime.rs"));
    assert!(ARCS_BRIDGE_SSOT.contains("sec_bridge.rs"));
}

#[test]
fn fleet_composer_accel_ac35_sec_bridge_arcs_honest() {
    assert!(sec_bridge_arcs_accel_ac35_honest(bridge_evidence_wired()));
    let probe = sec_bridge_arcs_accel_ac35_probe(bridge_evidence_wired());
    assert_eq!(probe.ac35_job_id, FLEET_ACCEL_AC35_JOB_ID);
    assert!(probe.prior_y54_absorbed);
    assert!(probe.prior_g48_absorbed);
    assert!(probe.prior_z40_trust_absorbed);
    assert!(probe.prior_z40_arcs_absorbed);
    assert!(probe.open_residual_table_residue_pinned);
    assert!(probe.ceremony_closed);
    assert!(!probe.production_wired);
}

#[test]
fn sec_bridge_arcs_w29_116_deepen_honest() {
    assert!(sec_bridge_arcs_w29_deepen_honest(bridge_evidence_wired()));
    let probe = sec_bridge_arcs_w29_deepen_probe(bridge_evidence_wired());
    assert_eq!(probe.w29_cell_id, "W29-116-SEC_BRIDGE_ARCS");
    assert!(probe.schema_version.contains("_v2"));
    assert_eq!(probe.open_residual_hop_count, 2);
    assert!(probe.open_residual_fences_verified);
    assert!(probe.open_residual_table_residue_pinned);
    assert!(probe.ac35_honest);
    assert!(probe.ceremony_closed);
    assert!(!probe.production_wired);
    assert!(!probe.master_retick_eligible);
    assert!(probe.bridge_arcs_green_claim_blocked);
}

#[test]
fn sec_bridge_arcs_validate_gate_honesty_residue_measured() {
    validate_sec_bridge_arcs_gate_honesty(bridge_evidence_wired())
        .expect("honest SEC-BRIDGE-ARCS gate census residue");
    assert_eq!(
        sec_bridge_arcs_egoff_bridge_next_hop(),
        "egoff/egoff/src/arcs_bridge.rs:CoordinationRuntimeBridge"
    );
}

#[test]
fn sec_bridge_arcs_refused_witness_fails_every_honesty_gate() {
    let refused = TransitionEvidence {
        catalog_id: "",
        admissibility: AdmissibilityToken::Admissible,
        observed_at: None,
    };
    let wired = gate_transition_evidence_probe(&refused);
    assert!(!wired);
    assert!(!manifold_gate_sec_bridge_arcs_ceremony_closed(wired));
    assert!(!sec_bridge_arcs_accel_ac35_honest(wired));
    assert!(!sec_bridge_arcs_w29_deepen_honest(wired));
    assert_eq!(
        validate_sec_bridge_arcs_gate_honesty(wired),
        Err("gate transition evidence probe failed")
    );
    assert!(!gate_bridge_arcs_census(wired).gate_evidence_wired);
    assert!(!sec_bridge_arcs_gate_manifold_probe(wired).ceremony_closed);
}

#[test]
fn sec_bridge_arcs_rendered_lines_exact() {
    let matrix = sec_bridge_arcs_gate_wire_matrix();
    assert!(matrix.contains(
        "  wired=6/8 thermo=4 trust=3 ecosystem_trust=4 open_residual=2 bridge_arcs_green_claim_blocked=true egoff_full_crate_verify_blocked=true master_retick=false production_wired=false\n"
    ));
    assert!(matrix.contains("  7 wired=false egoff::arcs_bridge::CoordinationRuntimeBridge ["));
    let table = sec_bridge_arcs_open_residual_fence_table();
    assert!(table.starts_with("SEC-BRIDGE-ARCS open residual fences (W29-116):\n"));
    assert!(table.contains(
        "  R-egoff-runtime hop=7 honest_open=true green_credit_blocked=true delegate=egoff/egoff/src/arcs_bridge.rs\n"
    ));
    assert!(table.ends_with(
        "  open_residual_hop_count=2 fences_verified=true production_wired=false master_retick=false\n"
    ));
}
