use umst_manifold::runtime::gate::cold_wire::{
    agent_loop_07_cold_wire_posture_not_principal_wrap, agent_loop_07_physics_green,
    agent_loop_07_principal_credit_arm_absent, agent_loop_07_principal_credit_honest,
    agent_loop_07_principal_credit_probe, agent_loop_07_refuse_remainder_overclaim,
    agent_loop_07_remainder_pin, agent_loop_07_remainder_row_closed,
    cold_wire_honest_fence_holds, cold_wire_w29_113_deepen_honest,
    cold_wire_w29_113_deepen_probe, complete_stamp_shape_live_consume,
    is_durable_identity_transition, transition_evidence_to_wire, AdmissibilityWire,
    CreditCommissionParty, CreditExecutorParty, DurableIdentityCreditStamp, PrincipalNamedParty,
    UcrsObservedAtWireSerde, AGENT_LOOP_07_CELL_ID, AGENT_LOOP_07_DEEPEN_SCHEMA_VERSION,
    AGENT_LOOP_07_HONEST_POSTURE, AGENT_LOOP_07_NON_CLAIM, AGENT_LOOP_07_PRINCIPAL_WRAP_POSTURE,
    AGENT_LOOP_07_REMAINDER_GAP, SPINE_EVENT_AXIOM_ANCHOR, W29_113_CELL_ID,
    W29_113_DEEPEN_SCHEMA_VERSION, W29_113_HONEST_POSTURE, W29_113_NON_CLAIM,
};
use umst_manifold::runtime::gate::evidence::{
    AdmissibilityToken, TransitionEvidence, UcrsObservedAtWire, CD_TRANSITION_CATALOG_ID,
};

fn sample_evidence() -> TransitionEvidence {
    TransitionEvidence {
        catalog_id: "umst.gate.cd_transition",
        admissibility: AdmissibilityToken::Admissible,
        observed_at: None,
    }
}

/// The dual-ledger sample of the deepen probe: 2.87e-21 J compute, 150 J material.
fn dual_ledger_sample_nonnegative() -> bool {
    let compute_j: f64 = 2.87e-21;
    let material_j: f64 = 150.0;
    compute_j >= 0.0 && material_j >= 0.0
}

fn human_agent_human() -> DurableIdentityCreditStamp {
    DurableIdentityCreditStamp {
        commissioned_by: CreditCommissionParty::Human,
        executed_by: CreditExecutorParty::Agent,
        principal_named: PrincipalNamedParty::Human,
    }
}

#[test]
fn boundary_stamp_prefers_over_evidence_observed_at() {
    let mut evidence = sample_evidence();
    evidence.observed_at = Some(UcrsObservedAtWire { wall_ms: 1, ucrs_seq: 1 });
    let wire = transition_evidence_to_wire(
        evidence,
        Some(UcrsObservedAtWire { wall_ms: 99, ucrs_seq: 7 }),
        None,
        None,
    );
    let stamp = wire.observed_at.expect("boundary stamp");
    assert_eq!(stamp.wall_ms, 99);
    assert_eq!(stamp.ucrs_seq, 7);
}

#[test]
fn evidence_observed_at_used_when_boundary_stamp_absent() {
    let mut evidence = sample_evidence();
    evidence.observed_at = Some(UcrsObservedAtWire { wall_ms: 55, ucrs_seq: 3 });
    let wire = transition_evidence_to_wire(evidence, None, None, None);
    let stamp = wire.observed_at.expect("evidence stamp");
    assert_eq!(stamp.wall_ms, 55);
    assert_eq!(stamp.ucrs_seq, 3);
}

#[test]
fn ucrs_observed_at_wire_serde_bidirectional() {
    let host = UcrsObservedAtWire { wall_ms: 1_700_000_000_000, ucrs_seq: 9 };
    let serde_form = UcrsObservedAtWireSerde::from(host);
    assert_eq!(serde_form.wall_ms, host.wall_ms);
    assert_eq!(serde_form.ucrs_seq, host.ucrs_seq);
    let back = UcrsObservedAtWire::from(serde_form);
    assert_eq!(back, host);
}

#[test]
fn w29_113_cold_wire_deepen_honest_probe() {
    let probe = cold_wire_w29_113_deepen_probe(dual_ledger_sample_nonnegative());
    assert_eq!(probe.cell_id, W29_113_CELL_ID);
    assert_eq!(probe.schema_version, W29_113_DEEPEN_SCHEMA_VERSION);
    assert_eq!(probe.honest_posture, W29_113_HONEST_POSTURE);
    assert!(!probe.green_claimed);
    assert!(!probe.production_wired_claimed);
    assert!(!probe.op5_pass_claimed);
    assert!(!probe.master_retick_claimed);
    assert!(cold_wire_w29_113_deepen_honest(dual_ledger_sample_nonnegative()));
    assert!(cold_wire_honest_fence_holds(dual_ledger_sample_nonnegative()));
}

#[test]
fn w29_113_non_claim_text_covers_forbidden_invent() {
    for needle in ["not GREEN", "not OP-5 PASS", "not production_wired", "not MASTER_RETICK"] {
        assert!(W29_113_NON_CLAIM.contains(needle), "missing non-claim fragment: {needle}");
    }
}

#[test]
fn agent_loop_07_principal_credit_deepen_honest_probe() {
    let probe = agent_loop_07_principal_credit_probe();
    assert_eq!(probe.cell_id, AGENT_LOOP_07_CELL_ID);
    assert_eq!(probe.schema_version, AGENT_LOOP_07_DEEPEN_SCHEMA_VERSION);
    assert!(!probe.consciousness_claimed);
    assert!(!probe.production_wired_claimed);
    assert!(!probe.green_claimed);
    assert!(agent_loop_07_principal_credit_honest());
    assert!(cold_wire_honest_fence_holds(dual_ledger_sample_nonnegative()));
}

#[test]
fn agent_loop_07_non_claim_covers_principal_executor_collision() {
    assert!(AGENT_LOOP_07_NON_CLAIM.contains("principal stamp ≠ consciousness"));
    assert!(AGENT_LOOP_07_NON_CLAIM.contains("git author ≠ executed_by"));
}

#[test]
fn principal_stamp_refuses_executor_erasure_shape() {
    let mut wire = transition_evidence_to_wire(
        TransitionEvidence {
            catalog_id: CD_TRANSITION_CATALOG_ID,
            admissibility: AdmissibilityToken::Admissible,
            observed_at: None,
        },
        None,
        None,
        Some(human_agent_human()),
    );
    assert!(!wire.refuses_executor_erasure());
    assert!(complete_stamp_shape_live_consume(&wire).is_ok());
    wire.executed_by = None;
    assert!(wire.refuses_executor_erasure());
    assert!(wire.crate_root_export_is_not_git_wrap());
    assert!(agent_loop_07_principal_credit_arm_absent());
    assert!(!agent_loop_07_remainder_pin().git_author_wrap_wired);
    assert!(complete_stamp_shape_live_consume(&wire).is_err());
}

#[test]
fn agent_loop_07_remainder_pin_physics_green_and_row_open() {
    let pin = agent_loop_07_remainder_pin();
    assert!(!pin.physics_green);
    assert!(!pin.remainder_row_closed);
    assert!(!pin.git_author_wrap_wired);
    assert!(!agent_loop_07_physics_green());
    assert!(!agent_loop_07_remainder_row_closed());
    assert!(AGENT_LOOP_07_REMAINDER_GAP.contains("git/PR/author wrap unwrapped"));
}

#[test]
fn agent_loop_07_refuse_remainder_overclaim_holds() {
    let probe = agent_loop_07_principal_credit_probe();
    assert!(!probe.physics_green);
    assert!(!probe.remainder_row_closed);
    assert!(!probe.git_author_wrap_wired);
    assert!(probe.principal_credit_arm_absent);
    agent_loop_07_refuse_remainder_overclaim(&probe).expect("honest probe");
}

#[test]
fn agent_loop_07_refuse_remainder_overclaim_rejects_bool_flip() {
    let mut remainder_closed = agent_loop_07_principal_credit_probe();
    remainder_closed.remainder_row_closed = true;
    assert!(agent_loop_07_refuse_remainder_overclaim(&remainder_closed)
        .unwrap_err()
        .contains("remainder row closed"));

    let mut physics_green = agent_loop_07_principal_credit_probe();
    physics_green.physics_green = true;
    assert!(agent_loop_07_refuse_remainder_overclaim(&physics_green)
        .unwrap_err()
        .contains("physics GREEN"));

    let mut wrap_wired = agent_loop_07_principal_credit_probe();
    wrap_wired.git_author_wrap_wired = true;
    assert!(agent_loop_07_refuse_remainder_overclaim(&wrap_wired)
        .unwrap_err()
        .contains("git/PR/author wrap"));

    let mut arm_wired = agent_loop_07_principal_credit_probe();
    arm_wired.principal_credit_arm_absent = false;
    assert!(agent_loop_07_refuse_remainder_overclaim(&arm_wired)
        .unwrap_err()
        .contains("credit arm wired"));
}

#[test]
fn agent_loop_07_cold_wire_posture_not_principal_wrap_holds() {
    assert!(agent_loop_07_cold_wire_posture_not_principal_wrap());
    assert_eq!(AGENT_LOOP_07_HONEST_POSTURE, "COLD_WIRE_PRINCIPAL_CREDIT_DEEPEN_ONLY");
    assert_eq!(AGENT_LOOP_07_PRINCIPAL_WRAP_POSTURE, "PRINCIPAL_WRAP_UNWIRED");
    assert!(!agent_loop_07_remainder_row_closed());
}

#[test]
fn agent_loop_07_principal_credit_gap_unmeasured_on_collision() {
    assert!(agent_loop_07_principal_credit_arm_absent());
    let credit = human_agent_human();
    assert!(credit.principal_differs_from_executor());
    assert!(credit.principal_credit_gap_unmeasured());
    let aligned = DurableIdentityCreditStamp {
        commissioned_by: CreditCommissionParty::Agent,
        executed_by: CreditExecutorParty::Agent,
        principal_named: PrincipalNamedParty::Agent,
    };
    assert!(!aligned.principal_differs_from_executor());
    assert!(!aligned.principal_credit_gap_unmeasured());
}

#[test]
fn cold_wire_credit_travels_only_on_identity_catalog() {
    let credit = DurableIdentityCreditStamp {
        commissioned_by: CreditCommissionParty::Agent,
        executed_by: CreditExecutorParty::Agent,
        principal_named: PrincipalNamedParty::Agent,
    };
    let wire = transition_evidence_to_wire(
        TransitionEvidence {
            catalog_id: "thermodynamic_mix",
            admissibility: AdmissibilityToken::Inadmissible,
            observed_at: None,
        },
        None,
        Some(SPINE_EVENT_AXIOM_ANCHOR),
        Some(credit),
    );
    assert!(wire.commissioned_by.is_none());
    assert!(wire.executed_by.is_none());
    assert!(wire.principal_named.is_none());
    assert_eq!(wire.admissibility, AdmissibilityWire::Inadmissible);
    assert_eq!(wire.axiom_anchor.as_deref(), Some("physicalSecondLaw"));
    assert!(!is_durable_identity_transition("thermodynamic_mix"));
    let arm = human_agent_human().appropriation_arm();
    assert!(arm.git_author_executor_collision());
    assert!(arm.collision_unmeasured());
    assert!(arm.arm_absent());
    let stamp = human_agent_human().public_stamp();
    assert!(stamp.appropriation_collision_unmeasured(CreditExecutorParty::Agent));
    assert!(!stamp.appropriation_collision_unmeasured(CreditExecutorParty::Human));
}

#[test]
fn cold_wire_admissibility_tokens_stay_distinct_on_the_wire() {
    let admissible = AdmissibilityWire::from(AdmissibilityToken::Admissible);
    let inadmissible = AdmissibilityWire::from(AdmissibilityToken::Inadmissible);
    assert_eq!(admissible, AdmissibilityWire::Admissible);
    assert_eq!(inadmissible, AdmissibilityWire::Inadmissible);
    assert_ne!(admissible, inadmissible);
}

#[test]
fn wire_serializes_observed_at_when_provided() {
    let wire = transition_evidence_to_wire(
        sample_evidence(),
        Some(UcrsObservedAtWire { wall_ms: 1_718_745_600_000, ucrs_seq: 42 }),
        None,
        None,
    );
    assert_eq!(
        wire.observed_at,
        Some(UcrsObservedAtWireSerde { wall_ms: 1_718_745_600_000, ucrs_seq: 42 })
    );
}

#[test]
fn default_build_omits_observed_at_without_stamp() {
    let wire = transition_evidence_to_wire(sample_evidence(), None, None, None);
    assert!(wire.observed_at.is_none());
}

#[test]
fn agent_loop_07_identity_credit_stamp_serializes_on_durable_transition() {
    let credit = DurableIdentityCreditStamp {
        commissioned_by: CreditCommissionParty::Human,
        executed_by: CreditExecutorParty::Agent,
        principal_named: PrincipalNamedParty::Human,
    };
    assert!(credit.principal_differs_from_executor());
    let wire = transition_evidence_to_wire(sample_evidence(), None, None, Some(credit));
    assert_eq!(wire.commissioned_by, Some(CreditCommissionParty::Human));
    assert_eq!(wire.executed_by, Some(CreditExecutorParty::Agent));
    assert_eq!(wire.principal_named, Some(PrincipalNamedParty::Human));
}

#[test]
fn agent_loop_07_credit_omitted_on_non_identity_catalog() {
    let credit = DurableIdentityCreditStamp {
        commissioned_by: CreditCommissionParty::Agent,
        executed_by: CreditExecutorParty::Agent,
        principal_named: PrincipalNamedParty::Agent,
    };
    let wire = transition_evidence_to_wire(
        TransitionEvidence {
            catalog_id: "thermodynamic_mix",
            admissibility: AdmissibilityToken::Admissible,
            observed_at: None,
        },
        None,
        None,
        Some(credit),
    );
    assert!(wire.commissioned_by.is_none());
    assert!(wire.executed_by.is_none());
    assert!(wire.principal_named.is_none());
}

#[test]
fn agent_loop_07_git_pr_commit_stamp_appropriation_arm() {
    let credit = DurableIdentityCreditStamp {
        commissioned_by: CreditCommissionParty::Human,
        executed_by: CreditExecutorParty::Agent,
        principal_named: PrincipalNamedParty::Human,
    };
    let stamp = credit.public_stamp();
    assert_eq!(stamp.git_author, PrincipalNamedParty::Human);
    let arm = credit.appropriation_arm();
    assert!(arm.git_author_executor_collision());
    assert!(arm.collision_unmeasured());
    assert!(arm.arm_absent());
    let wire = transition_evidence_to_wire(sample_evidence(), None, None, Some(credit));
    assert_eq!(wire.git_author, Some(PrincipalNamedParty::Human));
    assert_eq!(wire.pr_principal, Some(PrincipalNamedParty::Human));
    assert_eq!(wire.commit_stamp, Some(PrincipalNamedParty::Human));
}
