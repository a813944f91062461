use umst_manifold::runtime::gate::evidence::{
    AdmissibilityToken, TransitionEvidence, CD_TRANSITION_CATALOG_ID,
};
use umst_manifold::runtime::gate::sec_s7::{
    collect_sec_s7_gate_factor_rows, gate_fed_trust_migration_census,
    gate_transition_evidence_probe, manifold_gate_sec_s7_ceremony_closed,
    manifold_s7_all_migrate_surfaces_probed, manifold_s7_migrate_coverage_probes,
    manifold_s7_migrate_queue_residue_pins_verified, manifold_s7_open_residual_fences_verified,
    manifold_sec_s7_gate_wire_hops, manifold_verify_migration_inventory_census,
    migrate_queue_rows, migrate_queue_surfaces, open_residual_fences, sec_s7_accel_ac08_honest,
    sec_s7_accel_ac08_probe, sec_s7_boundary_next_hop, sec_s7_gate_factor_table,
    sec_s7_gate_manifold_probe, sec_s7_gate_wire_matrix, sec_s7_master_retick_eligible,
    sec_s7_migrate_queue_table, sec_s7_op5_cleared, sec_s7_open_residual_fence_table,
    sec_s7_p1931_j2_honest, sec_s7_p1931_j2_probe, sec_s7_production_wired,
    sec_s7_w29_deepen_honest, sec_s7_w29_deepen_probe, validate_sec_s7_gate_honesty,
    ACCEL_2030_AC08_JOB_ID, BOARD_SLICE_ID, FED_TRUST_SSOT, FLEET_P1931_J2_JOB_ID,
    INVENTORY_ROW_COUNT, JOB_ID, MASTER_RETICK_ELIGIBLE, MIGRATE_QUEUE_DEPTH,
    MIGRATION_COMPLETE_HONEST, OP5_CLEARED, OPEN_RESIDUAL_HOP_COUNT, PRIOR_RECEIPT_PATH_2033,
    PRIOR_RECEIPT_PATH_2127, PRIOR_RECEIPT_PATH_Y80, S7_GREEN_CLAIM_BLOCKED,
    SCHEMA_VERSION, S_FED_TRUST_PARTIAL_HONEST, S_FED_TRUST_PRODUCTION_WIRED_HONEST,
    TRUST_SSOT, W29_CELL_ID,
};

/// The host witness of the identity transition: admissible on the CD channel, unstamped.
fn s7_identity_witness() -> TransitionEvidence {
    TransitionEvidence {
        catalog_id: CD_TRANSITION_CATALOG_ID,
        admissibility: AdmissibilityToken::Admissible,
        observed_at: None,
    }
}

fn s7_evidence_wired() -> bool {
    gate_transition_evidence_probe(&s7_identity_witness())
}

#[test]
fn sec_s7_board_slice_metadata_locked() {
    assert_eq!(BOARD_SLICE_ID, "SEC-S7");
    assert_eq!(JOB_ID, "AGAP-2033-SEC-S7");
    assert_eq!(FLEET_P1931_J2_JOB_ID, "PRABHU-WAVE-J-1931-J2");
    assert_eq!(W29_CELL_ID, "W29-126-SEC_S7");
    assert_eq!(SCHEMA_VERSION, "sec_s7_gate_fed_trust_migration_census_v3");
}

#[test]
fn sec_s7_gate_transition_evidence_probe_honest() {
    assert!(gate_transition_evidence_probe(&s7_identity_witness()));
    assert_eq!(s7_identity_witness().admissibility, AdmissibilityToken::Admissible);
}

#[test]
fn sec_s7_migration_inventory_census_at_manifold() {
    assert!(manifold_verify_migration_inventory_census());
    assert_eq!(INVENTORY_ROW_COUNT, 12);
    assert_eq!(MIGRATE_QUEUE_DEPTH, 5);
}

#[test]
fn sec_s7_migrate_coverage_five_by_five() {
    let probes = manifold_s7_migrate_coverage_probes();
    assert_eq!(probes.len(), 5);
    assert!(manifold_s7_all_migrate_surfaces_probed());
    assert!(manifold_s7_migrate_queue_residue_pins_verified());
    assert!(probes.iter().all(|p| p.probe_hit && p.residue_pin_hit));
    assert_eq!(migrate_queue_rows().len(), MIGRATE_QUEUE_DEPTH);
}

#[test]
fn sec_s7_migrate_queue_table_residue_pinned() {
    let table = sec_s7_migrate_queue_table();
    assert!(table.contains("SEC-S7 migrate queue deepen"));
    assert!(table.contains("R-classical-wrap-gateway"));
    assert!(table.contains("R-unsafe-rust-audit"));
    assert!(table.contains("migration_complete_measured=false"));
}

#[test]
fn sec_s7_fed_trust_migration_census_honest_posture() {
    let census = gate_fed_trust_migration_census(s7_evidence_wired());
    assert_eq!(census.board_slice_id, "SEC-S7");
    assert_eq!(census.schema_version, SCHEMA_VERSION);
    assert_eq!(census.w29_cell_id, W29_CELL_ID);
    assert!(census.gate_evidence_wired);
    assert_eq!(census.inventory_row_count, 12);
    assert_eq!(census.migrate_queue_depth, 5);
    assert!(census.migrate_queue_ge_4);
    assert!(census.migrate_queue_ge_5);
    assert_eq!(census.open_residual_hop_count, 2);
    assert!(census.open_residual_fences_verified);
    assert!(!census.migration_complete);
    assert!(census.s7_green_claim_blocked);
    assert!(census.s_fed_trust_partial);
    assert!(!census.s_fed_trust_production_wired);
    assert!(!census.master_retick_eligible);
    assert!(!census.op5_cleared);
    assert!(!census.production_wired);
    assert_eq!(census.wire_hop_wired_count, 5);
}

#[test]
fn sec_s7_production_and_fed_trust_stay_false() {
    assert!(!sec_s7_production_wired());
    assert!(!S_FED_TRUST_PRODUCTION_WIRED_HONEST);
    assert!(!MIGRATION_COMPLETE_HONEST);
    assert!(S7_GREEN_CLAIM_BLOCKED);
    assert!(S_FED_TRUST_PARTIAL_HONEST);
    assert!(!sec_s7_master_retick_eligible());
    assert!(!sec_s7_op5_cleared());
    assert!(!MASTER_RETICK_ELIGIBLE);
    assert!(!OP5_CLEARED);
}

#[test]
fn sec_s7_manifold_wire_hops_cover_gate_and_trust_delegate() {
    let hops = manifold_sec_s7_gate_wire_hops();
    assert_eq!(hops.len(), 7);
    assert_eq!(hops.iter().filter(|h| h.wired).count(), 5);
    assert!(hops.iter().any(|h| h.surface.contains("AdmissibilityToken") && h.wired));
    assert!(hops
        .iter()
        .any(|h| h.surface.contains("sec_s7_boundary_production_wired") && !h.wired));
    assert!(hops
        .iter()
        .any(|h| h.surface.contains("s_fed_trust_production_wired") && !h.wired));
}

#[test]
fn sec_s7_manifold_gate_ceremony_close_predicate() {
    assert!(manifold_gate_sec_s7_ceremony_closed(s7_evidence_wired()));
    let probe = sec_s7_gate_manifold_probe(s7_evidence_wired());
    assert!(probe.gate_evidence_wired);
    assert!(probe.s7_all_migrate_surfaces_probed);
    assert!(probe.migrate_queue_residue_pins_verified);
    assert!(probe.open_residual_fences_verified);
    assert!(probe.migration_inventory_census_verified);
    assert!(probe.migration_complete_honest_false);
    assert!(probe.s7_green_claim_blocked);
    assert!(probe.s_fed_trust_partial_honest);
    assert!(probe.s_fed_trust_production_honest_false);
    assert!(probe.master_retick_honest_false);
    assert!(probe.op5_cleared_honest_false);
    assert!(probe.production_honest_false);
    assert_eq!(probe.wire_hop_wired_count, 5);
    assert!(probe.ceremony_closed);
}

#[test]
fn sec_s7_gate_factor_table_honest_blocked_scert() {
    let table = sec_s7_gate_factor_table();
    assert!(table.contains("SEC-S7 gate factors"));
    assert!(table.contains("scert_credit=BLOCKED"));
    assert!(table.contains("expected_gate_exit=BLOCKED"));
    let rows = collect_sec_s7_gate_factor_rows();
    assert_eq!(rows.len(), 7);
    assert!(rows.iter().filter(|r| r.probe_wired).count() >= 6);
}

#[test]
fn sec_s7_prior_receipt_paths_pinned() {
    assert!(PRIOR_RECEIPT_PATH_2033.contains("SEC-S7_2033"));
    assert!(PRIOR_RECEIPT_PATH_2127.contains("SEC-S7-DRAIN"));
    assert!(PRIOR_RECEIPT_PATH_Y80.contains("COMPOSER_Y80"));
    assert!(TRUST_SSOT.contains("migration.rs"));
    assert!(FED_TRUST_SSOT.contains("sec_s_arc_federation_census"));
}

#[test]
fn sec_s7_gate_wire_matrix_renders_honest_counts() {
    let matrix = sec_s7_gate_wire_matrix();
    assert!(matrix.contains("SEC-S7 manifold gate"));
    assert!(matrix.contains("migrate_queue=5"));
    assert!(matrix.contains("migration_complete=false"));
    assert!(matrix.contains("wired=5/7"));
    assert!(matrix.contains("open_residual=2"));
    assert!(matrix.contains("master_retick=false"));
    assert!(matrix.contains("op5_cleared=false"));
    assert!(matrix.contains("w29_cell_id=W29-126-SEC_S7"));
}

#[test]
fn sec_s7_open_residual_fences_honest_open() {
    assert!(manifold_s7_open_residual_fences_verified());
    assert_eq!(open_residual_fences().len(), 2);
    assert_eq!(OPEN_RESIDUAL_HOP_COUNT, 2);
    let table = sec_s7_open_residual_fence_table();
    assert!(table.contains("R-gateway-boundary"));
    assert!(table.contains("R-s-fed-trust-production"));
    assert!(table.contains("production_wired=false"));
    assert!(table.contains("master_retick=false"));
    assert!(table.contains("op5_cleared=false"));
}

#[test]
fn sec_s7_w29_126_deepen_honest_fences_no_green_production_master_op5() {
    assert!(sec_s7_w29_deepen_honest(s7_evidence_wired()));
    let probe = sec_s7_w29_deepen_probe(s7_evidence_wired());
    assert_eq!(probe.w29_cell_id, "W29-126-SEC_S7");
    assert!(probe.schema_version.contains("_v3"));
    assert!(probe.open_residual_fences_verified);
    assert!(probe.j2_honest);
    assert!(probe.ac08_honest);
    assert!(probe.ceremony_closed);
    assert!(!probe.production_wired);
    assert!(!probe.s_fed_trust_production_wired);
    assert!(!probe.master_retick_eligible);
    assert!(!probe.op5_cleared);
    assert!(probe.s7_green_claim_blocked);
    assert!(probe.non_claim.contains("not GREEN"));
    assert!(probe.non_claim.contains("not MASTER_RETICK"));
    assert!(probe.non_claim.contains("not OP-5 PASS"));
}

#[test]
fn fleet_composer_p1931_j2_sec_s7_honest() {
    assert!(sec_s7_p1931_j2_honest(s7_evidence_wired()));
    let probe = sec_s7_p1931_j2_probe(s7_evidence_wired());
    assert_eq!(probe.j2_job_id, FLEET_P1931_J2_JOB_ID);
    assert!(probe.prior_2033_absorbed);
    assert!(probe.prior_2127_absorbed);
    assert!(probe.prior_y80_absorbed);
    assert!(probe.ceremony_closed);
    assert!(!probe.production_wired);
    assert!(probe.gate_factor_exit_blocked);
}

#[test]
fn fleet_accel_ac08_sec_s7_migrate_queue_deepen_honest() {
    assert!(sec_s7_accel_ac08_honest(s7_evidence_wired()));
    let probe = sec_s7_accel_ac08_probe(s7_evidence_wired());
    assert_eq!(probe.ac08_job_id, ACCEL_2030_AC08_JOB_ID);
    assert!(probe.prior_j2_absorbed);
    assert!(probe.migrate_queue_table_residue_pinned);
    assert!(!probe.migration_complete_measured);
    assert!(probe.ceremony_closed);
}

#[test]
fn sec_s7_validate_gate_honesty_residue_measured() {
    validate_sec_s7_gate_honesty(s7_evidence_wired()).expect("honest SEC-S7 gate census residue");
    assert_eq!(
        sec_s7_boundary_next_hop(),
        "umst-gateway/crates/umst-gateway/src/sec_s7_boundary.rs:R-SEC-S7-BOUNDARY-PROD"
    );
}

#[test]
fn sec_s7_refused_witness_fails_every_honesty_gate() {
    let refused = TransitionEvidence {
        catalog_id: CD_TRANSITION_CATALOG_ID,
        admissibility: AdmissibilityToken::Inadmissible,
        observed_at: None,
    };
    let wired = gate_transition_evidence_probe(&refused);
    assert!(!wired);
    assert!(!manifold_gate_sec_s7_ceremony_closed(wired));
    assert!(!sec_s7_p1931_j2_honest(wired));
    assert!(!sec_s7_accel_ac08_honest(wired));
    assert!(!sec_s7_w29_deepen_honest(wired));
    assert_eq!(
        validate_sec_s7_gate_honesty(wired),
        Err("gate transition evidence probe failed")
    );
}

#[test]
fn sec_s7_rendered_tables_exact_lines() {
    assert_eq!(migrate_queue_surfaces()[4], "egoff/umst-math/umst-ffi-bridge");
    let table = sec_s7_migrate_queue_table();
    assert!(table.contains(
        "  3 surface=umst-field::pwa_adapter residue_id=R-classical-sha256-field-digest migration=closes-SEC-FIELD-PIN-sha3-stamp\n"
    ));
    let wire = sec_s7_gate_wire_matrix();
    assert!(wire.contains(
        "  wired=5/7 inventory=12 migrate_queue=5 migrate_ge_4=true migrate_ge_5=true open_residual=2 migration_complete=false s_fed_trust_partial=true s_fed_trust_production_wired=false master_retick=false op5_cleared=false production_wired=false\n"
    ));
    let residual = sec_s7_open_residual_fence_table();
    assert!(residual.ends_with(
        "honest_fence=census_wired=true production_wired=false green_claim_blocked=true master_retick=false op5_cleared=false s_fed_trust_production_wired=false\n"
    ));
}
