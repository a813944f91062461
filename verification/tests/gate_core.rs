use umst_manifold::runtime::gate::admissibility_margin::{
    admissibility_margin_honesty_probe, validate_admissibility_margin_honesty,
    ADMISSIBILITY_MARGIN_EPS_DENOMINATOR, ADMISSIBILITY_MARGIN_EPS_NUMERATOR,
    ADMISSIBILITY_MARGIN_GREEN_CLAIM_BLOCKED, ADMISSIBILITY_MARGIN_MASTER_RETICK_ELIGIBLE,
    ADMISSIBILITY_MARGIN_OP5_CLEARED, ADMISSIBILITY_MARGIN_PRODUCTION_WIRED,
};
use umst_manifold::runtime::gate::cartridge::{
    gate_cartridge_honesty_probe, validate_gate_cartridge_honesty, GATE_CARTRIDGE_CELL_ID,
    GATE_CARTRIDGE_CONCRETE_BACKED, GATE_CARTRIDGE_GREEN_CLAIM_BLOCKED,
    GATE_CARTRIDGE_HOST_CD_ONLY, GATE_CARTRIDGE_MASTER_RETICK_ELIGIBLE,
    GATE_CARTRIDGE_OP5_CLEARED, GATE_CARTRIDGE_PRODUCTION_WIRED,
};
use umst_manifold::runtime::gate::evidence::{
    cold_edge_witness_admits, evidence_honesty_probe, AdmissibilityToken, EvidenceHonestyFence,
    TransitionEvidence, UcrsObservedAtWire, CD_TRANSITION_CATALOG_ID, EVIDENCE_GREEN_CLAIM_BLOCKED,
    EVIDENCE_MASTER_RETICK_ELIGIBLE, EVIDENCE_OP5_CLAIMED, EVIDENCE_PHYSICS_GREEN,
    EVIDENCE_PRODUCTION_WIRED, W29_114_EVIDENCE_DEEPEN_STEP,
};
use umst_manifold::runtime::gate::explain_codes::{
    explain_codes_master_retick_eligible, explain_codes_op5_cleared, explain_codes_posture_honest,
    explain_codes_posture_probe, explain_codes_production_wired, fields_for_code,
    is_top_gate_explain_code, remediation_for_code, top_gate_explain_codes,
    validate_explain_codes_posture_honesty, CELL_ID, EXPLAIN_CODES_GREEN_CLAIM_BLOCKED,
    MANIFEST_BRIDGE_DISABLED, MIX_SPEC_RATIONAL_PARSE_FAIL, MIX_SPEC_WIRE_INVALID,
    THERMODYNAMIC_CD_FAIL, THERMODYNAMIC_FAIL, TOP_GATE_EXPLAIN_CODE_COUNT,
};

/// The host witness of the identity transition: admissible on the CD channel, unstamped.
fn core_identity_witness() -> TransitionEvidence {
    TransitionEvidence {
        catalog_id: CD_TRANSITION_CATALOG_ID,
        admissibility: AdmissibilityToken::Admissible,
        observed_at: None,
    }
}

#[test]
fn admissibility_margin_honesty_fences_block_green_production_master_op5() {
    assert!(!ADMISSIBILITY_MARGIN_PRODUCTION_WIRED);
    assert!(ADMISSIBILITY_MARGIN_GREEN_CLAIM_BLOCKED);
    assert!(!ADMISSIBILITY_MARGIN_MASTER_RETICK_ELIGIBLE);
    assert!(!ADMISSIBILITY_MARGIN_OP5_CLEARED);
    let probe = admissibility_margin_honesty_probe();
    assert!(!probe.production_wired);
    assert!(probe.green_claim_blocked);
    assert!(!probe.master_retick_eligible);
    assert!(!probe.op5_cleared);
    assert!(probe.eps_finite);
    assert!(probe.deepen_honest);
    assert!(validate_admissibility_margin_honesty().is_ok());
}

#[test]
fn admissibility_margin_eps_is_one_ten_thousandth() {
    assert_eq!(ADMISSIBILITY_MARGIN_EPS_NUMERATOR, 1);
    assert_eq!(ADMISSIBILITY_MARGIN_EPS_DENOMINATOR, 10000);
}

#[test]
fn cartridge_honesty_fences_block_green_production_master_op5() {
    assert_eq!(GATE_CARTRIDGE_CELL_ID, "W29-112-CARTRIDGE");
    assert!(!GATE_CARTRIDGE_PRODUCTION_WIRED);
    assert!(GATE_CARTRIDGE_GREEN_CLAIM_BLOCKED);
    assert!(!GATE_CARTRIDGE_MASTER_RETICK_ELIGIBLE);
    assert!(!GATE_CARTRIDGE_OP5_CLEARED);
    assert!(GATE_CARTRIDGE_HOST_CD_ONLY);
    assert!(!GATE_CARTRIDGE_CONCRETE_BACKED);
    let probe = gate_cartridge_honesty_probe();
    assert_eq!(probe.cell_id, "W29-112-CARTRIDGE");
    assert!(!probe.production_wired);
    assert!(probe.green_claim_blocked);
    assert!(!probe.master_retick_eligible);
    assert!(!probe.op5_cleared);
    assert!(probe.host_cd_only);
    assert!(!probe.concrete_backed);
    assert!(probe.deepen_honest);
    assert!(validate_gate_cartridge_honesty().is_ok());
}

#[test]
fn evidence_honesty_fence_refuses_green_production_master_op5() {
    assert_eq!(W29_114_EVIDENCE_DEEPEN_STEP, "W29-114-EVIDENCE");
    let fence = EvidenceHonestyFence::measured();
    assert!(fence.holds());
    assert!(!fence.physics_green);
    assert!(!fence.production_wired);
    assert!(!fence.master_retick_eligible);
    assert!(!fence.op5_claimed);
    assert!(fence.green_claim_blocked);
    assert!(!EVIDENCE_PHYSICS_GREEN);
    assert!(!EVIDENCE_PRODUCTION_WIRED);
    assert!(!EVIDENCE_MASTER_RETICK_ELIGIBLE);
    assert!(!EVIDENCE_OP5_CLAIMED);
    assert!(EVIDENCE_GREEN_CLAIM_BLOCKED);
}

#[test]
fn evidence_honesty_probe_holds() {
    assert!(evidence_honesty_probe(&core_identity_witness()));
}

#[test]
fn evidence_honesty_probe_refuses_stamped_or_rejected_witness() {
    let stamped = core_identity_witness().with_observed_at(UcrsObservedAtWire {
        wall_ms: 1718745600000,
        ucrs_seq: 42,
    });
    assert_eq!(stamped.observed_at, Some(UcrsObservedAtWire { wall_ms: 1718745600000, ucrs_seq: 42 }));
    assert!(!evidence_honesty_probe(&stamped));
    let rejected = TransitionEvidence {
        admissibility: AdmissibilityToken::Inadmissible,
        ..core_identity_witness()
    };
    assert!(!rejected.is_admissible());
    assert!(!evidence_honesty_probe(&rejected));
    assert!(!cold_edge_witness_admits(&rejected));
    let fence = EvidenceHonestyFence { physics_green: true, ..EvidenceHonestyFence::measured() };
    assert!(!fence.holds());
}

#[test]
fn top_codes_count_and_membership() {
    let codes = top_gate_explain_codes();
    assert_eq!(codes.len(), TOP_GATE_EXPLAIN_CODE_COUNT);
    for code in &codes {
        assert!(is_top_gate_explain_code(code));
        assert!(!remediation_for_code(code).is_empty());
    }
    assert!(!is_top_gate_explain_code("not_a_real_code"));
}

#[test]
fn remediation_and_fields_cover_top_codes() {
    assert_eq!(
        remediation_for_code(MIX_SPEC_RATIONAL_PARSE_FAIL),
        "Use rational strings like \"3/4\" for all mix fields (not floats or bare numbers); ensure w_c and temperature_k are present."
    );
    let parse_fields = fields_for_code(MIX_SPEC_RATIONAL_PARSE_FAIL, false);
    assert_eq!(parse_fields[0].path, "mix");

    let cd_no_t = fields_for_code(THERMODYNAMIC_CD_FAIL, false);
    assert!(cd_no_t.iter().any(|f| f.path == "mix.w_c"));
    assert!(!cd_no_t.iter().any(|f| f.path == "mix.temperature_k"));

    let cd_with_t = fields_for_code(THERMODYNAMIC_CD_FAIL, true);
    assert!(cd_with_t.iter().any(|f| f.path == "mix.temperature_k"));

    let thermo = fields_for_code(THERMODYNAMIC_FAIL, true);
    assert_eq!(thermo.len(), 2);

    let bridge = fields_for_code(MANIFEST_BRIDGE_DISABLED, false);
    assert_eq!(bridge[0].path, "build.features");

    assert!(fields_for_code("unknown_reject", false).is_empty());
    assert!(remediation_for_code("unknown_reject").contains("gate_reject"));
}

#[test]
fn explain_codes_honest_fences_no_green_production_master_op5() {
    assert!(!explain_codes_production_wired());
    assert!(EXPLAIN_CODES_GREEN_CLAIM_BLOCKED);
    assert!(!explain_codes_master_retick_eligible());
    assert!(!explain_codes_op5_cleared());

    let probe = explain_codes_posture_probe();
    assert_eq!(probe.cell_id, CELL_ID);
    assert!(probe.vocab_landed);
    assert!(!probe.production_wired);
    assert!(probe.green_claim_blocked);
    assert!(!probe.master_retick_eligible);
    assert!(!probe.op5_cleared);
    assert!(explain_codes_posture_honest(&probe));
    validate_explain_codes_posture_honesty().expect("honest explain_codes posture");
}

#[test]
fn explain_codes_wire_invalid_and_tampered_probe() {
    assert!(is_top_gate_explain_code(MIX_SPEC_WIRE_INVALID));
    assert!(!fields_for_code(MIX_SPEC_WIRE_INVALID, false).is_empty());
    let mut probe = explain_codes_posture_probe();
    probe.production_wired = true;
    assert!(!explain_codes_posture_honest(&probe));
}
