use umst_manifold::runtime::gate::evidence::{
    AdmissibilityToken, TransitionEvidence, CD_TRANSITION_CATALOG_ID,
};
use umst_manifold::runtime::gate::sec_s4::{
    gate_side_channel_scrub_census, gate_transition_evidence_probe,
    manifold_gate_sec_s4_ceremony_closed, manifold_ls5_all_k_v1_probed,
    manifold_ls5_k_v1_coverage_probes, manifold_pattern_classes_in_bytes,
    manifold_run_mini_fuzz_histogram, manifold_run_stride_fuzz_histogram,
    manifold_scrub_k_v1_tokens, manifold_sec_s4_gate_wire_hops, manifold_synthetic_fuzz_entry,
    manifold_verify_fuzz_scrub_prop_sample, manifold_verify_fuzz_scrub_stride,
    manifold_verify_scrub_roundtrip, scan_k_v1_pattern_classes, scrub_placeholder,
    sec_s4_accel_ac06_honest, sec_s4_accel_ac06_probe, sec_s4_gate_manifold_probe,
    sec_s4_gate_wire_matrix, sec_s4_l_s5_proof_next_hop, sec_s4_p1800_h3_honest,
    sec_s4_p1800_h3_probe, sec_s4_production_wired, synthetic_probe_bytes,
    validate_sec_s4_gate_honesty, Kv1PatternClass, BOARD_SLICE_ID, EGOFF_SANITIZE_SSOT,
    FLEET_ACCEL_AC06_JOB_ID, FLEET_P1800_H3_JOB_ID, JOB_ID, L_S5_PROOF_WIRED_HONEST,
    MINI_FUZZ_ENTRIES, PRIOR_RECEIPT_PATH_2033, PRIOR_RECEIPT_PATH_2127, PRIOR_RECEIPT_PATH_2350,
    SCHEMA_VERSION, SLED_ANOMALY_AUDIT_WIRED_HONEST, STRIDE_FUZZ_ENTRIES, TRUST_SSOT,
};

fn s4_identity_witness() -> TransitionEvidence {
    TransitionEvidence {
        catalog_id: CD_TRANSITION_CATALOG_ID,
        admissibility: AdmissibilityToken::Admissible,
        observed_at: None,
    }
}

fn s4_evidence_wired() -> bool {
    gate_transition_evidence_probe(&s4_identity_witness())
}

#[test]
fn sec_s4_board_slice_metadata_locked() {
    assert_eq!(BOARD_SLICE_ID, "SEC-S4");
    assert_eq!(JOB_ID, "AGAP-2033-SEC-S4");
    assert_eq!(FLEET_P1800_H3_JOB_ID, "PRABHU-WAVE-H-1800-H3");
}

#[test]
fn sec_s4_gate_transition_evidence_probe_honest() {
    assert!(gate_transition_evidence_probe(&s4_identity_witness()));
    assert_eq!(s4_identity_witness().admissibility, AdmissibilityToken::Admissible);
}

#[test]
fn sec_s4_scrub_roundtrip_all_k_v1_probes() {
    assert!(manifold_verify_scrub_roundtrip());
}

#[test]
fn sec_s4_ls5_k_v1_coverage_eight_by_eight() {
    let probes = manifold_ls5_k_v1_coverage_probes();
    assert_eq!(probes.len(), 8);
    assert!(manifold_ls5_all_k_v1_probed());
    assert!(probes.iter().all(|p| p.probe_hit));
}

#[test]
fn sec_s4_scrub_idempotent_on_placeholder() {
    let placeholder = scrub_placeholder();
    let (scrubbed, count) = manifold_scrub_k_v1_tokens(&placeholder);
    assert_eq!(scrubbed, placeholder);
    assert_eq!(count, 0);
}

#[test]
fn sec_s4_side_channel_census_honest_posture() {
    let census = gate_side_channel_scrub_census(s4_evidence_wired());
    assert_eq!(census.board_slice_id, "SEC-S4");
    assert_eq!(census.schema_version, SCHEMA_VERSION);
    assert!(census.gate_evidence_wired);
    assert!(census.ls5_all_k_v1_probed);
    assert!(census.scrub_roundtrip_verified);
    assert!(census.mini_fuzz_histogram_exhaustive);
    assert!(census.stride_fuzz_histogram_balanced);
    assert!(census.fuzz_scrub_sample_verified);
    assert!(census.fuzz_scrub_stride_verified);
    assert!(census.fuzz_scrub_prop_sample_verified);
    assert!(!census.l_s5_proof_wired);
    assert!(!census.sled_anomaly_audit_wired);
    assert!(!census.production_wired);
    assert_eq!(census.wire_hop_wired_count, 5);
}

#[test]
fn sec_s4_production_and_l_s5_stay_false() {
    assert!(!sec_s4_production_wired());
    assert!(!L_S5_PROOF_WIRED_HONEST);
    assert!(!SLED_ANOMALY_AUDIT_WIRED_HONEST);
}

#[test]
fn sec_s4_manifold_wire_hops_cover_gate_and_trust_delegate() {
    let hops = manifold_sec_s4_gate_wire_hops();
    assert_eq!(hops.len(), 7);
    assert_eq!(hops.iter().filter(|h| h.wired).count(), 5);
    assert!(hops.iter().any(|h| h.surface.contains("AdmissibilityToken") && h.wired));
    assert!(hops.iter().any(|h| h.surface.contains("SanitizePatternCoverage") && !h.wired));
    assert!(hops.iter().any(|h| h.surface.contains("trust_wrap_wired") && !h.wired));
}

#[test]
fn sec_s4_manifold_gate_ceremony_close_predicate() {
    assert!(manifold_gate_sec_s4_ceremony_closed(s4_evidence_wired()));
    let probe = sec_s4_gate_manifold_probe(s4_evidence_wired());
    assert!(probe.gate_evidence_wired);
    assert!(probe.ls5_all_k_v1_probed);
    assert!(probe.scrub_roundtrip_verified);
    assert!(probe.mini_fuzz_histogram_exhaustive);
    assert!(probe.stride_fuzz_histogram_balanced);
    assert!(probe.fuzz_scrub_sample_verified);
    assert!(probe.fuzz_scrub_stride_verified);
    assert!(probe.fuzz_scrub_prop_sample_verified);
    assert!(probe.l_s5_proof_honest_false);
    assert!(probe.sled_anomaly_honest_false);
    assert!(probe.production_honest_false);
    assert_eq!(probe.wire_hop_wired_count, 5);
    assert!(probe.ceremony_closed);
}

#[test]
fn sec_s4_prior_receipt_paths_pinned() {
    assert!(PRIOR_RECEIPT_PATH_2033.contains("SEC-S4_2033"));
    assert!(PRIOR_RECEIPT_PATH_2127.contains("SEC-S4_2127"));
    assert!(PRIOR_RECEIPT_PATH_2350.contains("S-4_2350"));
    assert!(TRUST_SSOT.contains("sec_s4_side_channel"));
    assert!(EGOFF_SANITIZE_SSOT.contains("security/sanitize.rs"));
}

#[test]
fn sec_s4_gate_wire_matrix_renders_honest_counts() {
    let matrix = sec_s4_gate_wire_matrix();
    assert!(matrix.contains("SEC-S4 manifold gate"));
    assert!(matrix.contains("ls5_all_k_v1_probed=true"));
    assert!(matrix.contains("mini_fuzz_exhaustive=true"));
    assert!(matrix.contains("l_s5_proof_wired=false"));
    assert!(matrix.contains("wired=5/7"));
}

#[test]
fn sec_s4_mini_fuzz_histogram_exhaustive_eight_by_eight() {
    let hist = manifold_run_mini_fuzz_histogram(MINI_FUZZ_ENTRIES);
    assert_eq!(hist.entries_run, 8);
    assert_eq!(hist.k_v1_class_histogram.len(), 8);
    assert!(hist.k_v1_exhaustive_in_corpus);
    assert!(hist.k_v1_class_histogram.iter().all(|h| h.hit_count >= 1));
    assert!(hist.scrub_roundtrip_verified);
    assert!(hist.fuzz_scrub_sample_verified);
    assert!(hist.fuzz_scrub_stride_verified);
    assert!(hist.fuzz_scrub_prop_sample_verified);
}

#[test]
fn sec_s4_stride_fuzz_histogram_balanced_twenty_four() {
    let hist = manifold_run_stride_fuzz_histogram(STRIDE_FUZZ_ENTRIES);
    assert_eq!(hist.entries_run, 24);
    assert!(hist.k_v1_rotor_balanced);
    assert_eq!(hist.k_v1_min_class_hits, 3);
    assert_eq!(hist.k_v1_max_class_hits, 3);
    assert!(hist.fuzz_scrub_stride_verified);
    assert!(hist.fuzz_scrub_prop_sample_verified);
}

#[test]
fn sec_s4_fuzz_scrub_stride_witness() {
    assert!(manifold_verify_fuzz_scrub_stride());
}

#[test]
fn sec_s4_fuzz_scrub_prop_sample_witness() {
    assert!(manifold_verify_fuzz_scrub_prop_sample());
}

#[test]
fn fleet_composer_accel_ac06_sec_s4_histogram_honest() {
    assert!(sec_s4_accel_ac06_honest(s4_evidence_wired()));
    let probe = sec_s4_accel_ac06_probe(s4_evidence_wired());
    assert_eq!(probe.ac06_job_id, FLEET_ACCEL_AC06_JOB_ID);
    assert!(probe.prior_h3_absorbed);
    assert!(probe.prior_2350_absorbed);
    assert!(probe.ceremony_closed);
    assert_eq!(probe.histogram_row_count, 8);
    assert!(probe.mini_fuzz_histogram_exhaustive);
    assert!(probe.stride_fuzz_histogram_balanced);
}

#[test]
fn fleet_composer_p1800_h3_sec_s4_honest() {
    assert!(sec_s4_p1800_h3_honest(s4_evidence_wired()));
    let probe = sec_s4_p1800_h3_probe(s4_evidence_wired());
    assert_eq!(probe.h3_job_id, FLEET_P1800_H3_JOB_ID);
    assert!(probe.prior_2033_absorbed);
    assert!(probe.prior_2127_absorbed);
    assert!(probe.prior_2350_absorbed);
    assert!(probe.ceremony_closed);
    assert!(!probe.production_wired);
    assert!(!probe.l_s5_proof_wired);
}

#[test]
fn sec_s4_validate_gate_honesty_residue_measured() {
    validate_sec_s4_gate_honesty(s4_evidence_wired()).expect("honest SEC-S4 gate census residue");
    assert_eq!(
        sec_s4_l_s5_proof_next_hop(),
        "umst-formal/Lean/Crypto/SanitizePatternCoverage.lean:R-LS5-full"
    );
}

#[test]
fn sec_s4_scrub_replaces_tokens_case_insensitively() {
    let input = b"host rapl and RAPL; mac AA:BB:CC:DD:EE:FF end".to_vec();
    let (scrubbed, count) = manifold_scrub_k_v1_tokens(&input);
    assert_eq!(
        String::from_utf8(scrubbed.clone()).unwrap(),
        "host [SCRUBBED] and [SCRUBBED]; mac [SCRUBBED] end"
    );
    assert_eq!(count, 3);
    assert!(!scan_k_v1_pattern_classes(&scrubbed));
    let (again, again_count) = manifold_scrub_k_v1_tokens(&scrubbed);
    assert_eq!(again, scrubbed);
    assert_eq!(again_count, 0);
}

#[test]
fn sec_s4_scan_lists_each_class_once_in_token_order() {
    let bytes = b"rdtsc cache_line timing_variance 00:11:22:33:44:55".to_vec();
    let classes = manifold_pattern_classes_in_bytes(&bytes);
    assert_eq!(
        classes,
        vec![
            Kv1PatternClass::MacAddress,
            Kv1PatternClass::TimingLeakFingerprint,
            Kv1PatternClass::MemoryAccessFingerprint,
        ]
    );
    assert!(!scan_k_v1_pattern_classes(&b"nothing to see".to_vec()));
}

#[test]
fn sec_s4_fuzz_entry_and_synthetic_bytes_shapes() {
    assert_eq!(
        String::from_utf8(manifold_synthetic_fuzz_entry(9)).unwrap(),
        "RAPL energy_uj spike umst-manifold-s4-fuzz-00009"
    );
    assert_eq!(
        String::from_utf8(manifold_synthetic_fuzz_entry(123456)).unwrap(),
        "host mac 00:11:22:33:44:55 umst-manifold-s4-fuzz-123456"
    );
    assert_eq!(synthetic_probe_bytes("rapl-correlated-bytes"), b"RAPL energy_uj spike".to_vec());
    assert!(synthetic_probe_bytes("unknown").is_empty());
}

#[test]
fn sec_s4_gate_refuses_when_cold_edge_witness_rejects() {
    let rejected = TransitionEvidence {
        catalog_id: "",
        admissibility: AdmissibilityToken::Admissible,
        observed_at: None,
    };
    let wired = gate_transition_evidence_probe(&rejected);
    assert!(!wired);
    assert!(!manifold_gate_sec_s4_ceremony_closed(wired));
    assert_eq!(
        validate_sec_s4_gate_honesty(wired),
        Err("gate transition evidence probe failed")
    );
}

#[test]
fn sec_s4_scrub_makes_no_replacement_exactly_on_clean_input() {
    let clean = b"umst-manifold-s4-fuzz-00042 plain telemetry".to_vec();
    assert!(!scan_k_v1_pattern_classes(&clean));
    let (out, count) = manifold_scrub_k_v1_tokens(&clean);
    assert_eq!(count, 0);
    assert_eq!(out, clean);
    let dirty = b"cpu serial : 42".to_vec();
    assert!(scan_k_v1_pattern_classes(&dirty));
    let (_, dirty_count) = manifold_scrub_k_v1_tokens(&dirty);
    assert!(dirty_count > 0);
}

#[test]
fn sec_s4_fuzz_entries_plant_exactly_their_rotor_class() {
    let rotor = [
        Kv1PatternClass::MacAddress,
        Kv1PatternClass::RaplCorrelatedBytes,
        Kv1PatternClass::TimingLeakFingerprint,
        Kv1PatternClass::MemoryAccessFingerprint,
        Kv1PatternClass::GpuUuidV4,
        Kv1PatternClass::CpuinfoSerial,
        Kv1PatternClass::IoPlatformSerial,
        Kv1PatternClass::KernelLeaf,
    ];
    for i in 0u32..24 {
        let entry = manifold_synthetic_fuzz_entry(i);
        assert_eq!(manifold_pattern_classes_in_bytes(&entry), vec![rotor[(i % 8) as usize]]);
    }
}
