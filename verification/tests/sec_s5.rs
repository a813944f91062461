use umst_manifold::runtime::gate::evidence::{
    AdmissibilityToken, TransitionEvidence, CD_TRANSITION_CATALOG_ID,
};
use umst_manifold::runtime::gate::sec_s5::{
    collect_sec_s5_gate_factor_rows, consensus_auto_trigger_for_federated,
    gate_synthetic_consensus_census, gate_transition_evidence_probe,
    manifold_gate_sec_s5_ceremony_closed, manifold_ln0_lean_crosswalk,
    manifold_s5_all_scenarios_probed, manifold_s5_consensus_coverage_probes,
    manifold_sec_s5_gate_wire_hops, manifold_session_consensus_summary,
    manifold_verify_s5_consensus_algebra_roundtrip,
    manifold_verify_s5_consensus_algebra_roundtrip_extended, s5_consensus_probe_scenarios,
    sec_s5_accel_ac07_honest, sec_s5_accel_ac07_probe, sec_s5_gate_factor_table,
    sec_s5_gate_manifold_probe, sec_s5_gate_wire_matrix, sec_s5_honest_fence_holds,
    sec_s5_ln0_proof_next_hop, sec_s5_master_retick_eligible, sec_s5_op5_cleared,
    sec_s5_p1812_i2_honest, sec_s5_p1812_i2_probe, sec_s5_production_wired,
    sec_s5_w29_124_deepen_honest, sec_s5_w29_124_deepen_probe, validate_sec_s5_gate_honesty,
    DisagreementKind, ManifoldConsensusStore, BOARD_SLICE_ID, EGOFF_CONSENSUS_SSOT,
    FLEET_ACCEL_AC07_JOB_ID, FLEET_P1812_I2_JOB_ID, JOB_ID, LIVE_FANOUT_WIRED_HONEST,
    LN0_PROOF_WIRED_HONEST, PRIOR_RECEIPT_PATH_2033, PRIOR_RECEIPT_PATH_2127,
    S5_GREEN_CLAIM_BLOCKED, SCHEMA_VERSION, TRUST_SSOT, W29_124_CELL_ID,
    W29_124_DEEPEN_SCHEMA_VERSION,
};

fn s5_identity_witness() -> TransitionEvidence {
    TransitionEvidence {
        catalog_id: CD_TRANSITION_CATALOG_ID,
        admissibility: AdmissibilityToken::Admissible,
        observed_at: None,
    }
}

fn s5_evidence_wired() -> bool {
    gate_transition_evidence_probe(&s5_identity_witness())
}

#[test]
fn sec_s5_board_slice_metadata_locked() {
    assert_eq!(BOARD_SLICE_ID, "SEC-S5");
    assert_eq!(JOB_ID, "AGAP-2033-SEC-S5");
    assert_eq!(FLEET_P1812_I2_JOB_ID, "PRABHU-WAVE-I-1812-I2");
    assert_eq!(FLEET_ACCEL_AC07_JOB_ID, "ACCEL-25-2030-AC07");
}

#[test]
fn sec_s5_gate_transition_evidence_probe_honest() {
    assert!(gate_transition_evidence_probe(&s5_identity_witness()));
    assert_eq!(s5_identity_witness().admissibility, AdmissibilityToken::Admissible);
}

#[test]
fn sec_s5_consensus_algebra_roundtrip_at_manifold() {
    assert!(manifold_verify_s5_consensus_algebra_roundtrip());
    assert!(manifold_verify_s5_consensus_algebra_roundtrip_extended());
}

#[test]
fn sec_s5_ln0_crosswalk_covers_all_scenarios() {
    let crosswalk = manifold_ln0_lean_crosswalk();
    assert_eq!(crosswalk.len(), 8);
    for scenario in s5_consensus_probe_scenarios() {
        assert!(
            crosswalk.iter().any(|r| r.scenario_id == scenario),
            "missing crosswalk for {scenario}"
        );
    }
}

#[test]
fn sec_s5_session_summary_tracks_disagreement() {
    let mut store = ManifoldConsensusStore::new();
    let _ = store.open_consensus_session("summary-track");
    let summary = manifold_session_consensus_summary(&store);
    assert!(summary.disagreement_events >= 1);
    assert!(summary.open_sessions >= 1);
    assert!(summary.unique_disagreement_kinds >= 1);
}

#[test]
fn sec_s5_consensus_coverage_eight_by_eight() {
    let probes = manifold_s5_consensus_coverage_probes();
    assert_eq!(probes.len(), 8);
    assert!(manifold_s5_all_scenarios_probed());
    assert!(probes.iter().all(|p| p.probe_hit));
}

#[test]
fn sec_s5_synthetic_consensus_census_honest_posture() {
    let census = gate_synthetic_consensus_census(s5_evidence_wired());
    assert_eq!(census.board_slice_id, "SEC-S5");
    assert_eq!(census.schema_version, SCHEMA_VERSION);
    assert!(census.gate_evidence_wired);
    assert!(census.s5_all_scenarios_probed);
    assert!(census.algebra_roundtrip_verified);
    assert!(census.extended_algebra_roundtrip_verified);
    assert_eq!(census.ln0_crosswalk_rows, 8);
    assert!(!census.ln0_proof_wired);
    assert!(!census.live_fanout_wired);
    assert!(census.s5_green_claim_blocked);
    assert!(!census.production_wired);
    assert_eq!(census.wire_hop_wired_count, 5);
}

#[test]
fn sec_s5_production_and_ln0_stay_false() {
    assert!(!sec_s5_production_wired());
    assert!(!LN0_PROOF_WIRED_HONEST);
    assert!(!LIVE_FANOUT_WIRED_HONEST);
    assert!(S5_GREEN_CLAIM_BLOCKED);
    assert!(!sec_s5_master_retick_eligible());
    assert!(!sec_s5_op5_cleared());
}

#[test]
fn sec_s5_manifold_wire_hops_cover_gate_and_trust_delegate() {
    let hops = manifold_sec_s5_gate_wire_hops();
    assert_eq!(hops.len(), 7);
    assert_eq!(hops.iter().filter(|h| h.wired).count(), 5);
    assert!(hops.iter().any(|h| h.surface.contains("AdmissibilityToken") && h.wired));
    assert!(hops
        .iter()
        .any(|h| h.surface.contains("MajorityHonestConvergesToTruth") && !h.wired));
    assert!(hops
        .iter()
        .any(|h| h.surface.contains("hcom_prov_gw_production_wired") && !h.wired));
}

#[test]
fn sec_s5_manifold_gate_ceremony_close_predicate() {
    assert!(manifold_gate_sec_s5_ceremony_closed(s5_evidence_wired()));
    let probe = sec_s5_gate_manifold_probe(s5_evidence_wired());
    assert!(probe.gate_evidence_wired);
    assert!(probe.s5_all_scenarios_probed);
    assert!(probe.algebra_roundtrip_verified);
    assert!(probe.extended_algebra_roundtrip_verified);
    assert_eq!(probe.ln0_crosswalk_rows, 8);
    assert!(probe.ln0_proof_honest_false);
    assert!(probe.live_fanout_honest_false);
    assert!(probe.s5_green_claim_blocked);
    assert!(probe.production_honest_false);
    assert_eq!(probe.wire_hop_wired_count, 5);
    assert!(probe.ceremony_closed);
}

#[test]
fn sec_s5_gate_factor_table_honest_blocked_scert() {
    let table = sec_s5_gate_factor_table(s5_evidence_wired());
    assert!(table.contains("SEC-S5 gate factors"));
    assert!(table.contains("scert_credit=BLOCKED"));
    assert!(table.contains("expected_gate_exit=BLOCKED"));
    let rows = collect_sec_s5_gate_factor_rows(s5_evidence_wired());
    assert_eq!(rows.len(), 8);
    assert!(rows.iter().filter(|r| r.probe_wired).count() >= 7);
}

#[test]
fn sec_s5_prior_receipt_paths_pinned() {
    assert!(PRIOR_RECEIPT_PATH_2033.contains("SEC-S5_2033"));
    assert!(PRIOR_RECEIPT_PATH_2127.contains("SEC-S5_2127"));
    assert!(TRUST_SSOT.contains("sec_s5_consensus"));
    assert!(EGOFF_CONSENSUS_SSOT.contains("security/consensus.rs"));
}

#[test]
fn sec_s5_gate_wire_matrix_renders_honest_counts() {
    let matrix = sec_s5_gate_wire_matrix(s5_evidence_wired());
    assert!(matrix.contains("SEC-S5 manifold gate"));
    assert!(matrix.contains("s5_all_scenarios_probed=true"));
    assert!(matrix.contains("extended_roundtrip=true"));
    assert!(matrix.contains("ln0_crosswalk_rows=8"));
    assert!(matrix.contains("ln0_proof_wired=false"));
    assert!(matrix.contains("wired=5/7"));
}

#[test]
fn fleet_composer_accel_ac07_sec_s5_honest() {
    assert!(sec_s5_accel_ac07_honest(s5_evidence_wired()));
    let probe = sec_s5_accel_ac07_probe(s5_evidence_wired());
    assert_eq!(probe.ac07_job_id, FLEET_ACCEL_AC07_JOB_ID);
    assert!(probe.ac07_receipt_honest);
    assert!(probe.prior_i2_absorbed);
    assert!(probe.ceremony_closed);
    assert!(!probe.production_wired);
    assert!(probe.extended_roundtrip_verified);
    assert_eq!(probe.ln0_crosswalk_rows, 8);
    assert!(probe.gate_factor_exit_blocked);
}

#[test]
fn fleet_composer_p1812_i2_sec_s5_honest() {
    assert!(sec_s5_p1812_i2_honest(s5_evidence_wired()));
    let probe = sec_s5_p1812_i2_probe(s5_evidence_wired());
    assert_eq!(probe.i2_job_id, FLEET_P1812_I2_JOB_ID);
    assert!(probe.prior_2033_absorbed);
    assert!(probe.prior_2127_absorbed);
    assert!(probe.ceremony_closed);
    assert!(!probe.production_wired);
    assert!(probe.gate_factor_exit_blocked);
}

#[test]
fn sec_s5_validate_gate_honesty_residue_measured() {
    validate_sec_s5_gate_honesty(s5_evidence_wired()).expect("honest SEC-S5 gate census residue");
    assert_eq!(
        sec_s5_ln0_proof_next_hop(),
        "umst-formal/Lean/Network/MajorityHonestConvergesToTruth.lean:R-LN0-full"
    );
}

#[test]
fn sec_s5_w29_124_honest_fence_no_green_production_master_op5() {
    assert_eq!(W29_124_CELL_ID, "W29-124-SEC_S5");
    assert_eq!(W29_124_DEEPEN_SCHEMA_VERSION, "sec_s5_w29_124_honest_fence_v1");
    assert_eq!(SCHEMA_VERSION, "sec_s5_gate_synthetic_consensus_census_v3");
    assert!(!sec_s5_production_wired());
    assert!(!LN0_PROOF_WIRED_HONEST);
    assert!(!LIVE_FANOUT_WIRED_HONEST);
    assert!(S5_GREEN_CLAIM_BLOCKED);
    assert!(!sec_s5_master_retick_eligible());
    assert!(!sec_s5_op5_cleared());
    assert!(sec_s5_w29_124_deepen_honest(s5_evidence_wired()));
    assert!(sec_s5_honest_fence_holds(s5_evidence_wired()));
    let probe = sec_s5_w29_124_deepen_probe(s5_evidence_wired());
    assert!(!probe.green_claimed);
    assert!(!probe.production_wired_claimed);
    assert!(!probe.op5_pass_claimed);
    assert!(!probe.master_retick_claimed);
    assert!(probe.honest_fence.contains("master_retick=false"));
    assert!(probe.non_claim.contains("not MASTER_RETICK"));
    let matrix = sec_s5_gate_wire_matrix(s5_evidence_wired());
    assert!(matrix.contains("w29_124_cell=W29-124-SEC_S5"));
    assert!(matrix.contains("honest_fence_holds=true"));
}

#[test]
fn sec_s5_store_lifecycle_open_resolve_and_labels() {
    let mut store = ManifoldConsensusStore::new();
    let (id, opened) = store.open_consensus_session("roundtrip-split");
    assert!(opened);
    assert_eq!(id, "manifold-consensus-15");
    assert!(store.has_open_cross_model_disagreement());
    let d = store.sessions[0].disagreement.as_ref().unwrap();
    assert_eq!(d.disagreement_kind, DisagreementKind::EquivalenceClassSplit);
    assert_eq!(d.suggested_provider.as_deref(), Some("grok"));
    assert_eq!(d.canonical_sdf_hash, "6cf645f5672a2b12");
    store.record_consensus_resolution(&id);
    assert!(!store.has_open_cross_model_disagreement());
    let summary = manifold_session_consensus_summary(&store);
    assert_eq!(summary.disagreement_events, 1);
    assert_eq!(summary.resolution_events, 1);
    assert_eq!(summary.open_sessions, 0);
    assert_eq!(summary.unique_disagreement_kinds, 1);
    assert_eq!(DisagreementKind::TimeoutPartial.as_str(), "timeout_partial");
    assert!(consensus_auto_trigger_for_federated());
}

#[test]
fn sec_s5_gate_refuses_when_cold_edge_witness_rejects() {
    let rejected = TransitionEvidence {
        catalog_id: CD_TRANSITION_CATALOG_ID,
        admissibility: AdmissibilityToken::Inadmissible,
        observed_at: None,
    };
    let wired = gate_transition_evidence_probe(&rejected);
    assert!(!wired);
    assert!(!manifold_gate_sec_s5_ceremony_closed(wired));
    assert_eq!(
        validate_sec_s5_gate_honesty(wired),
        Err("gate transition evidence probe failed")
    );
    let table = sec_s5_gate_factor_table(wired);
    assert!(table.contains("wired=7/8"));
}
