use umst_manifold::runtime::gate::evidence::{
    AdmissibilityToken, TransitionEvidence, CD_TRANSITION_CATALOG_ID,
};
use umst_manifold::runtime::gate::sec_mcp_wrap::{
    collect_sec_mcp_wrap_gate_factor_rows, gate_mcp_wrap_census, gate_transition_evidence_probe,
    gateway_stdio_exec_trust_pre_check_wired, manifold_gate_sec_mcp_wrap_ceremony_closed,
    manifold_mcp_wrap_open_residual_fences_verified,
    manifold_mcp_wrap_refuse_path_matrix_pins_verified, manifold_sec_mcp_wrap_gate_wire_hops,
    open_residual_fences, refuse_path_matrix, sec_mcp_wrap_accel_ac34_honest,
    sec_mcp_wrap_accel_ac34_probe, sec_mcp_wrap_gate_factor_table,
    sec_mcp_wrap_gate_manifold_probe, sec_mcp_wrap_gate_wire_matrix,
    sec_mcp_wrap_master_retick_eligible, sec_mcp_wrap_mcp_delegate_next_hop,
    sec_mcp_wrap_open_residual_fence_table, sec_mcp_wrap_production_wired,
    sec_mcp_wrap_refuse_path_table, sec_mcp_wrap_w29_deepen_honest, sec_mcp_wrap_w29_deepen_probe,
    validate_sec_mcp_wrap_gate_honesty, ACCEL_B_2050_AC34_JOB_ID, BOARD_SLICE_ID, DEEPEN_JOB_ID,
    GATEWAY_SSOT, GATEWAY_STDIO_EXEC_OWNER, JOB_ID, MASTER_RETICK_ELIGIBLE,
    MCP_SSOT, MCP_WRAP_GREEN_CLAIM_BLOCKED, OPEN_RESIDUAL_HOP_COUNT, POSTURE_TAG,
    PRIOR_Y51_RECEIPT_PATH, PRIOR_Y52_RECEIPT_PATH, PRIOR_Z86_RECEIPT_PATH,
    REFUSE_PATH_MATRIX_ROW_COUNT, SCHEMA_VERSION, W29_CELL_ID,
};

/// The host witness of the identity transition: admissible on the CD channel, unstamped.
fn mcp_identity_witness() -> TransitionEvidence {
    TransitionEvidence {
        catalog_id: CD_TRANSITION_CATALOG_ID,
        admissibility: AdmissibilityToken::Admissible,
        observed_at: None,
    }
}

fn mcp_evidence_wired() -> bool {
    gate_transition_evidence_probe(&mcp_identity_witness())
}

#[test]
fn sec_mcp_wrap_board_slice_metadata_locked() {
    assert_eq!(BOARD_SLICE_ID, "SEC-MCP-WRAP");
    assert_eq!(JOB_ID, "AGAP-2033-SEC-MCP-WRAP");
    assert_eq!(DEEPEN_JOB_ID, "AGAP-2350-SEC-MCP-WRAP");
    assert_eq!(W29_CELL_ID, "W29-119-SEC_MCP_WRAP");
    assert_eq!(ACCEL_B_2050_AC34_JOB_ID, "ACCEL-B-2050-AC34");
    assert_eq!(REFUSE_PATH_MATRIX_ROW_COUNT, 6);
    assert_eq!(OPEN_RESIDUAL_HOP_COUNT, 2);
    assert!(SCHEMA_VERSION.contains("_v2"));
}

#[test]
fn sec_mcp_wrap_gate_transition_evidence_probe_honest() {
    assert!(gate_transition_evidence_probe(&mcp_identity_witness()));
    assert_eq!(mcp_identity_witness().admissibility, AdmissibilityToken::Admissible);
}

#[test]
fn sec_mcp_wrap_refuse_path_matrix_six_rows_pinned() {
    let matrix = refuse_path_matrix();
    assert_eq!(matrix.len(), REFUSE_PATH_MATRIX_ROW_COUNT);
    assert!(manifold_mcp_wrap_refuse_path_matrix_pins_verified());
    assert!(matrix.iter().any(|r| r.row_id == "R1" && !r.expect_admit));
    assert!(matrix.iter().any(|r| r.row_id == "R6" && r.revoked));
}

#[test]
fn sec_mcp_wrap_open_residual_fences_pin_unwired_hops() {
    assert!(manifold_mcp_wrap_open_residual_fences_verified());
    let fences = open_residual_fences();
    assert_eq!(fences.len(), 2);
    assert_eq!(fences[0].residue_id, "R-gateway-stdio-exec");
    assert_eq!(fences[1].residue_id, "R-mcp-wrap-production");
    assert!(fences.iter().all(|f| f.honest_open && f.green_credit_blocked));
    let table = sec_mcp_wrap_open_residual_fence_table();
    assert!(table.contains("R-gateway-stdio-exec"));
    assert!(table.contains("R-mcp-wrap-production"));
    assert!(table.contains("production_wired=false"));
    assert!(table.contains("master_retick=false"));
}

#[test]
fn sec_mcp_wrap_gateway_stdio_exec_and_production_honest_open() {
    assert!(!gateway_stdio_exec_trust_pre_check_wired());
    assert!(!sec_mcp_wrap_production_wired());
    assert!(!sec_mcp_wrap_master_retick_eligible());
    assert!(GATEWAY_STDIO_EXEC_OWNER.contains("mcp_stdio_exec_trust_pre_check_wired"));
    assert!(MCP_WRAP_GREEN_CLAIM_BLOCKED);
    assert!(!MASTER_RETICK_ELIGIBLE);
}

#[test]
fn sec_mcp_wrap_manifold_wire_hops_five_of_seven_wired() {
    let hops = manifold_sec_mcp_wrap_gate_wire_hops();
    assert_eq!(hops.len(), 7);
    assert_eq!(hops.iter().filter(|h| h.wired).count(), 5);
    assert!(hops
        .iter()
        .any(|h| h.surface.contains("mcp_stdio_exec_trust_pre_check_wired") && !h.wired));
    assert!(hops
        .iter()
        .any(|h| h.surface.contains("sec_mcp_wrap_production_wired") && !h.wired));
}

#[test]
fn sec_mcp_wrap_wire_hops_ordinal_pin() {
    for (idx, hop) in manifold_sec_mcp_wrap_gate_wire_hops().iter().enumerate() {
        assert_eq!(hop.ordinal, (idx + 1) as u8);
        assert!(!hop.surface.is_empty());
        assert!(!hop.role.is_empty());
    }
}

#[test]
fn sec_mcp_wrap_mcp_wrap_census_honest_posture() {
    let census = gate_mcp_wrap_census(mcp_evidence_wired());
    assert_eq!(census.board_slice_id, "SEC-MCP-WRAP");
    assert_eq!(census.schema_version, SCHEMA_VERSION);
    assert_eq!(census.w29_cell_id, W29_CELL_ID);
    assert!(census.gate_evidence_wired);
    assert_eq!(census.refuse_path_matrix_row_count, 6);
    assert!(census.refuse_path_matrix_pins_verified);
    assert_eq!(census.open_residual_hop_count, 2);
    assert!(census.open_residual_fences_verified);
    assert!(!census.gateway_stdio_exec_trust_pre_check_wired);
    assert!(census.mcp_wrap_green_claim_blocked);
    assert!(!census.master_retick_eligible);
    assert!(!census.production_wired);
    assert_eq!(census.wire_hop_wired_count, 5);
}

#[test]
fn sec_mcp_wrap_manifold_gate_ceremony_close_predicate() {
    assert!(manifold_gate_sec_mcp_wrap_ceremony_closed(mcp_evidence_wired()));
    let probe = sec_mcp_wrap_gate_manifold_probe(mcp_evidence_wired());
    assert!(probe.gate_evidence_wired);
    assert!(probe.refuse_path_matrix_pins_verified);
    assert!(probe.open_residual_fences_verified);
    assert!(probe.gateway_stdio_exec_honest_false);
    assert!(probe.mcp_wrap_green_claim_blocked);
    assert!(probe.master_retick_honest_false);
    assert!(probe.production_honest_false);
    assert_eq!(probe.wire_hop_wired_count, 5);
    assert!(probe.ceremony_closed);
}

#[test]
fn sec_mcp_wrap_gate_factor_table_honest_blocked_scert() {
    let table = sec_mcp_wrap_gate_factor_table(mcp_evidence_wired());
    assert!(table.contains("SEC-MCP-WRAP gate factors"));
    assert!(table.contains("scert_credit=BLOCKED"));
    assert!(table.contains("expected_gate_exit=BLOCKED"));
    assert!(table.contains("open-residual-fences"));
    assert!(table.contains("master_retick=false"));
    let rows = collect_sec_mcp_wrap_gate_factor_rows(mcp_evidence_wired());
    assert_eq!(rows.len(), 6);
}

#[test]
fn sec_mcp_wrap_refuse_path_table_renders_rows() {
    let table = sec_mcp_wrap_refuse_path_table();
    assert!(table.contains("propose_communicative_act"));
    assert!(table.contains("map_to_geometry"));
    assert!(table.contains("pins_verified="));
}

#[test]
fn sec_mcp_wrap_prior_receipt_paths_pinned() {
    assert!(PRIOR_Z86_RECEIPT_PATH.contains("COMPOSER_Z86_1232"));
    assert!(PRIOR_Y52_RECEIPT_PATH.contains("COMPOSER_Y52_0808"));
    assert!(PRIOR_Y51_RECEIPT_PATH.contains("COMPOSER_Y51_0808"));
    assert!(MCP_SSOT.contains("sec_mcp_wrap.rs"));
    assert!(GATEWAY_SSOT.contains("sec_mcp_wrap.rs"));
}

#[test]
fn sec_mcp_wrap_gate_wire_matrix_renders_honest_counts() {
    let matrix = sec_mcp_wrap_gate_wire_matrix();
    assert!(matrix.contains("SEC-MCP-WRAP manifold gate"));
    assert!(matrix.contains("wired=5/7"));
    assert!(matrix.contains("open_residual=2"));
    assert!(matrix.contains("production_wired=false"));
    assert!(matrix.contains("master_retick=false"));
    assert!(matrix.contains("W29-119-SEC_MCP_WRAP"));
}

#[test]
fn fleet_accel_ac34_sec_mcp_wrap_fence_deepen_honest() {
    assert!(sec_mcp_wrap_accel_ac34_honest(mcp_evidence_wired()));
    let probe = sec_mcp_wrap_accel_ac34_probe(mcp_evidence_wired());
    assert_eq!(probe.ac34_job_id, ACCEL_B_2050_AC34_JOB_ID);
    assert!(probe.prior_z86_absorbed);
    assert!(probe.prior_y52_absorbed);
    assert!(probe.refuse_path_table_residue_pinned);
    assert!(probe.open_residual_table_residue_pinned);
    assert!(probe.ceremony_closed);
    assert!(!probe.production_wired);
}

#[test]
fn w29_119_sec_mcp_wrap_deepen_honest() {
    assert!(sec_mcp_wrap_w29_deepen_honest(mcp_evidence_wired()));
    let probe = sec_mcp_wrap_w29_deepen_probe(mcp_evidence_wired());
    assert_eq!(probe.w29_cell_id, "W29-119-SEC_MCP_WRAP");
    assert!(probe.schema_version.contains("_v2"));
    assert_eq!(probe.open_residual_hop_count, 2);
    assert!(probe.open_residual_fences_verified);
    assert!(probe.open_residual_table_residue_pinned);
    assert!(probe.ac34_honest);
    assert!(probe.ceremony_closed);
    assert!(!probe.production_wired);
    assert!(!probe.master_retick_eligible);
    assert!(probe.mcp_wrap_green_claim_blocked);
}

#[test]
fn sec_mcp_wrap_validate_gate_honesty_residue_measured() {
    validate_sec_mcp_wrap_gate_honesty(mcp_evidence_wired())
        .expect("honest SEC-MCP-WRAP gate census residue");
    assert_eq!(
        sec_mcp_wrap_mcp_delegate_next_hop(),
        "umst-concrete-cartridge/crates/umst-mcp/src/sec_mcp_wrap.rs:R-MCP-WRAP-LIVE-MATRIX"
    );
}

#[test]
fn sec_mcp_wrap_refuses_invented_green_production_master() {
    assert!(!sec_mcp_wrap_production_wired());
    assert!(!sec_mcp_wrap_master_retick_eligible());
    assert!(MCP_WRAP_GREEN_CLAIM_BLOCKED);
    let census = gate_mcp_wrap_census(mcp_evidence_wired());
    assert!(!census.production_wired);
    assert!(!census.master_retick_eligible);
    assert!(census.mcp_wrap_green_claim_blocked);
    assert_ne!(POSTURE_TAG, "production");
    assert!(!POSTURE_TAG.contains("GREEN"));
    assert!(!POSTURE_TAG.contains("MASTER"));
}

#[test]
fn sec_mcp_wrap_refused_witness_fails_every_honesty_gate() {
    let refused = TransitionEvidence {
        catalog_id: CD_TRANSITION_CATALOG_ID,
        admissibility: AdmissibilityToken::Inadmissible,
        observed_at: None,
    };
    let wired = gate_transition_evidence_probe(&refused);
    assert!(!wired);
    assert!(!manifold_gate_sec_mcp_wrap_ceremony_closed(wired));
    assert!(!sec_mcp_wrap_accel_ac34_honest(wired));
    assert!(!sec_mcp_wrap_w29_deepen_honest(wired));
    assert_eq!(
        validate_sec_mcp_wrap_gate_honesty(wired),
        Err("gate transition evidence probe failed")
    );
    let table = sec_mcp_wrap_gate_factor_table(wired);
    assert!(table.contains(
        "  manifold-gate-evidence probe_wired=false acceptance_credit=true cold-edge AdmissibilityToken witness\n"
    ));
}

#[test]
fn sec_mcp_wrap_rendered_tables_exact_lines() {
    let table = sec_mcp_wrap_gate_factor_table(true);
    assert!(table.contains(
        "  open-residual-fences probe_wired=true acceptance_credit=false open_residual_hop_count=2 fences_verified=true master_retick=false\n"
    ));
    assert!(table.ends_with(
        "  scert_credit=BLOCKED expected_gate_exit=BLOCKED\n  sec_mcp_wrap_production_wired=false master_retick=false\n"
    ));
    let refuse = sec_mcp_wrap_refuse_path_table();
    assert!(refuse.contains(
        "  R6 tool=map_to_geometry scope=device revoked=true expect_admit=false delegate=umst-concrete-cartridge/crates/umst-mcp/src/mcp_trust_gate.rs\n"
    ));
    assert!(refuse.ends_with("  row_count=6 pins_verified=true production_wired=false\n"));
}
