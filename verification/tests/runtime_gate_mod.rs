use umst_manifold::runtime::gate::evidence::{
    AdmissibilityToken, TransitionEvidence, CD_TRANSITION_CATALOG_ID,
};
use umst_manifold::runtime::gate::{
    count_bands_with_role, gate_transition_evidence_probe, manifold_sec_bridge_arcs_gate_wire_hops,
    runtime_gate_barrel_reexports_wired, runtime_gate_green_claim_blocked_all_arcs,
    runtime_gate_mod_census_deepen_honest, runtime_gate_mod_census_honest,
    runtime_gate_mod_census_probe, runtime_gate_mod_master_retick_eligible,
    runtime_gate_mod_op5_cleared, runtime_gate_mod_production_wired, runtime_gate_module_bands,
    runtime_gate_production_wired_any_arc, runtime_gate_sec_validate_all_honest,
    sec_bridge_arcs_accel_ac35_honest, sec_bridge_arcs_production_wired, sec_s3_accel_ac05_honest,
    sec_s4_accel_ac06_honest, sec_s5_accel_ac07_honest, sec_s7_accel_ac08_honest,
    validate_runtime_gate_mod_honesty, verify_runtime_gate_mod_census, RuntimeGateModuleRole,
    BRIDGE_ARCS_GREEN_CLAIM_BLOCKED, RUNTIME_GATE_ALWAYS_ON_MODULE_COUNT,
    RUNTIME_GATE_CORE_MODULE_COUNT, RUNTIME_GATE_GREEN_CLAIM_BLOCKED, RUNTIME_GATE_SEC_ARC_COUNT,
    S3_GREEN_CLAIM_BLOCKED, SEC_BRIDGE_ARCS_BOARD_SLICE_ID,
};

/// The host witness of the identity transition: admissible on the CD channel, unstamped.
fn barrel_identity_witness() -> TransitionEvidence {
    TransitionEvidence {
        catalog_id: CD_TRANSITION_CATALOG_ID,
        admissibility: AdmissibilityToken::Admissible,
        observed_at: None,
    }
}

fn barrel_evidence_wired() -> bool {
    gate_transition_evidence_probe(&barrel_identity_witness())
}

#[test]
fn runtime_gate_module_band_inventory_matches_pinned_counts() {
    let bands = runtime_gate_module_bands();
    assert_eq!(bands.len(), RUNTIME_GATE_ALWAYS_ON_MODULE_COUNT);
    assert_eq!(RUNTIME_GATE_ALWAYS_ON_MODULE_COUNT, 15);
    assert_eq!(RUNTIME_GATE_CORE_MODULE_COUNT, 4);
    assert_eq!(RUNTIME_GATE_SEC_ARC_COUNT, 11);
    let core = bands.iter().filter(|b| b.role == RuntimeGateModuleRole::CoreEvidence).count();
    let arcs = bands.iter().filter(|b| b.role == RuntimeGateModuleRole::SecArc).count();
    assert_eq!(core, 4);
    assert_eq!(arcs, 11);
}

#[test]
fn runtime_gate_barrel_reexports_include_bridge_arcs() {
    assert!(runtime_gate_barrel_reexports_wired());
    assert!(!manifold_sec_bridge_arcs_gate_wire_hops().is_empty());
    assert!(BRIDGE_ARCS_GREEN_CLAIM_BLOCKED);
    assert!(!sec_bridge_arcs_production_wired());
    assert_eq!(SEC_BRIDGE_ARCS_BOARD_SLICE_ID, "SEC-BRIDGE-ARCS");
}

#[test]
fn runtime_gate_mod_census_probe_honest_not_green() {
    let probe = runtime_gate_mod_census_probe(barrel_evidence_wired());
    assert!(runtime_gate_mod_census_honest(&probe));
    assert!(runtime_gate_mod_census_deepen_honest(&probe));
    assert!(!probe.production_wired);
    assert!(!probe.production_wired_any_arc);
    assert!(probe.green_claim_blocked);
    assert!(probe.green_claim_blocked_all_arcs);
    assert!(!probe.master_retick_eligible);
    assert!(!probe.op5_cleared);
    assert_eq!(probe.cell_id, "W30-234-GATE_MOD");
    assert_eq!(probe.sec_arc_count, 11);
}

#[test]
fn runtime_gate_mod_fences_block_invented_posture() {
    assert!(!runtime_gate_mod_production_wired());
    assert!(!runtime_gate_mod_master_retick_eligible());
    assert!(!runtime_gate_mod_op5_cleared());
    assert!(RUNTIME_GATE_GREEN_CLAIM_BLOCKED);
    assert!(runtime_gate_green_claim_blocked_all_arcs());
    assert!(!runtime_gate_production_wired_any_arc());
}

#[test]
fn runtime_gate_mod_verify_and_validate_pass() {
    verify_runtime_gate_mod_census(barrel_evidence_wired()).expect("runtime gate barrel census");
    validate_runtime_gate_mod_honesty(barrel_evidence_wired()).expect("runtime gate barrel honesty");
}

#[test]
fn runtime_gate_sec_accel_helpers_reexported() {
    assert!(sec_s3_accel_ac05_honest(barrel_evidence_wired()));
    assert!(sec_s4_accel_ac06_honest(barrel_evidence_wired()));
    assert!(sec_s5_accel_ac07_honest(barrel_evidence_wired()));
    assert!(sec_s7_accel_ac08_honest(barrel_evidence_wired()));
    assert!(sec_bridge_arcs_accel_ac35_honest(barrel_evidence_wired()));
    assert!(S3_GREEN_CLAIM_BLOCKED);
}

#[test]
fn runtime_gate_mod_refused_witness_fails_closed() {
    let refused = TransitionEvidence {
        catalog_id: "",
        admissibility: AdmissibilityToken::Admissible,
        observed_at: None,
    };
    let wired = gate_transition_evidence_probe(&refused);
    assert!(!wired);
    assert!(!runtime_gate_sec_validate_all_honest(wired));
    let probe = runtime_gate_mod_census_probe(wired);
    assert!(!probe.sec_validate_all_honest);
    assert!(!probe.census_deepen_honest);
    assert!(!runtime_gate_mod_census_honest(&probe));
    assert!(!runtime_gate_mod_census_deepen_honest(&probe));
    assert_eq!(
        verify_runtime_gate_mod_census(wired),
        Err("runtime gate SEC validate honesty residue failed".to_string())
    );
    assert_eq!(
        validate_runtime_gate_mod_honesty(wired),
        Err("runtime gate mod census honesty failed")
    );
}

#[test]
fn runtime_gate_mod_band_role_counter_counts_each_role() {
    let bands = runtime_gate_module_bands();
    assert_eq!(count_bands_with_role(&bands, RuntimeGateModuleRole::CoreEvidence), 4);
    assert_eq!(count_bands_with_role(&bands, RuntimeGateModuleRole::SecArc), 11);
    assert_eq!(bands[0].band_id, "runtime_gate:admissibility_margin");
    assert_eq!(bands[14].module, "sec_bridge_arcs");
    let empty = Vec::new();
    assert_eq!(count_bands_with_role(&empty, RuntimeGateModuleRole::SecArc), 0);
}

#[test]
fn runtime_gate_mod_honesty_gate_rejects_tampered_probe() {
    let mut probe = runtime_gate_mod_census_probe(barrel_evidence_wired());
    assert!(runtime_gate_mod_census_honest(&probe));
    probe.production_wired = true;
    assert!(!runtime_gate_mod_census_honest(&probe));
    assert!(!runtime_gate_mod_census_deepen_honest(&probe));
    let mut renamed = runtime_gate_mod_census_probe(barrel_evidence_wired());
    renamed.cell_id = "W30-000-OTHER";
    assert!(!runtime_gate_mod_census_honest(&renamed));
}
