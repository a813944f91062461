//! Gate evidence contracts for cold-edge telemetry.
//!
//! The barrel rolls up an inventory and an honesty census over the core evidence modules and
//! the SEC cold-edge arcs. Measured fences only: `production_wired=false`, GREEN claims
//! blocked, MASTER / OP-5 not claimed. Tool readiness is not physics GREEN.
pub mod admissibility_margin;
pub mod cartridge;
pub mod cold_wire;
pub mod evidence;
pub mod explain_codes;
pub mod sec_bridge_arcs;
pub mod sec_gw_audit;
pub mod sec_gw_wrap;
pub mod sec_mcp_wrap;
pub mod sec_s1;
pub mod sec_s2;
pub mod sec_s3;
pub mod sec_s4;
pub mod sec_s5;
pub mod sec_s6;
pub mod sec_s7;

use vstd::prelude::*;
use crate::text::{str_eq, push_str, push_decimal, count_where, lemma_count_step, lemma_take_all};
use self::sec_s4::{fuzz_corpus_honest, hist_exhaustive, hist_balanced};
use self::sec_s5::{consensus_probes_honest, all_scenarios_hit, consensus_split};

pub use self::cartridge::{
    CdTransitionCartridge,
};
pub use self::cold_wire::{
    transition_evidence_to_wire,
    TransitionEvidenceWire,
};
pub use self::evidence::{
    AdmissibilityToken,
    TransitionEvidence,
    UcrsObservedAtWire,
};
pub use self::explain_codes::{
    fields_for_code,
    remediation_for_code,
    GateFieldIssue,
    MANIFEST_BRIDGE_DISABLED,
    MIX_SPEC_RATIONAL_PARSE_FAIL,
    MIX_SPEC_WIRE_INVALID,
    THERMODYNAMIC_CD_FAIL,
    THERMODYNAMIC_FAIL,
    top_gate_explain_codes,
};
pub use self::sec_bridge_arcs::{
    gate_bridge_arcs_census,
    gate_transition_evidence_probe as sec_bridge_arcs_gate_transition_evidence_probe,
    manifold_bridge_arcs_thermo_wire_hops_verified,
    manifold_bridge_arcs_trust_wire_hops_verified,
    manifold_gate_sec_bridge_arcs_ceremony_closed,
    sec_bridge_arcs_accel_ac35_honest,
    sec_bridge_arcs_accel_ac35_probe,
    sec_bridge_arcs_egoff_bridge_next_hop,
    sec_bridge_arcs_gate_manifold_probe,
    sec_bridge_arcs_gate_wire_matrix,
    sec_bridge_arcs_production_wired,
    validate_sec_bridge_arcs_gate_honesty,
    SecBridgeArcsAccelAc35Probe,
    SecBridgeArcsGateCoordinationCensus,
    SecBridgeArcsGateManifoldProbe,
    SecBridgeArcsGateWireHop,
    BOARD_SLICE_ID as SEC_BRIDGE_ARCS_BOARD_SLICE_ID,
    BRIDGE_ARCS_GREEN_CLAIM_BLOCKED,
    EGOFF_FULL_CRATE_VERIFY_BLOCKED,
    FLEET_ACCEL_AC35_JOB_ID,
    FLEET_ACCEL_AC35_RECEIPT_PATH,
    manifold_sec_bridge_arcs_gate_wire_hops,
};
pub use self::sec_gw_audit::{
    gate_admit_audit_census,
    manifold_gate_sec_gw_audit_ceremony_closed,
    manifold_gw_audit_all_stamp_paths_probed,
    manifold_gw_audit_stamp_legs_complete,
    manifold_verify_upstream_gw_wrap_delegate,
    sec_gw_audit_accel2_ac31_honest,
    sec_gw_audit_accel2_ac31_probe,
    sec_gw_audit_manifold_probe,
    sec_gw_audit_production_wired,
    sec_gw_audit_trust_chain_next_hop,
    sec_gw_audit_wire_matrix,
    validate_sec_gw_audit_honesty,
    SecGwAuditAccel2Ac31Probe,
    SecGwAuditManifoldAdmitCensus,
    SecGwAuditManifoldProbe,
    SecGwAuditManifoldWireHop,
    ADMIT_STAMP_PATH_COUNT,
    BOARD_SLICE_ID as SEC_GW_AUDIT_BOARD_SLICE_ID,
    FLEET_ACCEL2_AC31_JOB_ID,
    FLEET_ACCEL2_AC31_RECEIPT_PATH,
    GW_AUDIT_GREEN_CLAIM_BLOCKED,
    manifold_gw_audit_admit_stamp_paths,
    manifold_gw_audit_stamp_legs,
    manifold_sec_gw_audit_wire_hops,
};
pub use self::sec_gw_wrap::{
    gate_trust_wrap_census,
    manifold_gate_sec_gw_wrap_ceremony_closed,
    manifold_gw_wrap_all_admit_surfaces_probed,
    manifold_gw_wrap_ledger_prep_complete,
    manifold_verify_upstream_gate_delegates,
    sec_gw_wrap_accel2_ac32_honest,
    sec_gw_wrap_accel2_ac32_probe,
    sec_gw_wrap_honesty_probe,
    sec_gw_wrap_manifold_probe,
    sec_gw_wrap_production_wired,
    sec_gw_wrap_trust_wrap_next_hop,
    sec_gw_wrap_wire_matrix,
    validate_sec_gw_wrap_honesty,
    SecGwWrapAccel2Ac32Probe,
    SecGwWrapHonestyFence,
    SecGwWrapHonestyProbe,
    SecGwWrapManifoldProbe,
    SecGwWrapManifoldTrustCensus,
    SecGwWrapManifoldWireHop,
    ADMIT_SURFACE_COUNT as GW_WRAP_ADMIT_SURFACE_COUNT,
    BOARD_SLICE_ID as SEC_GW_WRAP_BOARD_SLICE_ID,
    FLEET_ACCEL2_AC32_JOB_ID,
    FLEET_ACCEL2_AC32_RECEIPT_PATH,
    GW_WRAP_GREEN_CLAIM_BLOCKED,
    manifold_gw_wrap_admit_surfaces,
    manifold_gw_wrap_ledger_prep_hops,
    manifold_sec_gw_wrap_wire_hops,
    SEC_GW_WRAP_CELL_ID,
    SEC_GW_WRAP_MASTER_RETICK_ELIGIBLE,
    SEC_GW_WRAP_OP5_CLEARED,
    SEC_GW_WRAP_PHYSICS_GREEN,
    W29_118_SEC_GW_WRAP_DEEPEN_STEP,
};
pub use self::sec_mcp_wrap::{
    collect_sec_mcp_wrap_gate_factor_rows,
    gate_mcp_wrap_census,
    gate_transition_evidence_probe as sec_mcp_wrap_gate_transition_evidence_probe,
    manifold_gate_sec_mcp_wrap_ceremony_closed,
    manifold_mcp_wrap_refuse_path_matrix_pins_verified,
    sec_mcp_wrap_accel_ac34_honest,
    sec_mcp_wrap_accel_ac34_probe,
    sec_mcp_wrap_gate_factor_table,
    sec_mcp_wrap_gate_manifold_probe,
    sec_mcp_wrap_gate_wire_matrix,
    sec_mcp_wrap_mcp_delegate_next_hop,
    sec_mcp_wrap_production_wired,
    sec_mcp_wrap_refuse_path_table,
    validate_sec_mcp_wrap_gate_honesty,
    SecMcpWrapAccelAc34Probe,
    SecMcpWrapGateCensus,
    SecMcpWrapGateFactorRow,
    SecMcpWrapGateManifoldProbe,
    SecMcpWrapGateWireHop,
    ACCEL_AC34_RECEIPT_PATH,
    ACCEL_B_2050_AC34_JOB_ID,
    BOARD_SLICE_ID as SEC_MCP_WRAP_BOARD_SLICE_ID,
    DEEPEN_JOB_ID as SEC_MCP_WRAP_DEEPEN_JOB_ID,
    FLEET_Z86_JOB_ID,
    GATEWAY_STDIO_EXEC_OWNER,
    manifold_sec_mcp_wrap_gate_wire_hops,
    MCP_SSOT,
    MCP_WRAP_GREEN_CLAIM_BLOCKED,
    REFUSE_PATH_MATRIX_ROW_COUNT,
};
pub use self::sec_s1::{
    collect_sec_s1_gate_factor_rows,
    gate_transition_evidence_probe as sec_s1_gate_transition_evidence_probe,
    gate_trust_census,
    manifold_gate_sec_s1_ceremony_closed,
    manifold_s1_all_factors_probed,
    manifold_s1_factor_coverage_probes,
    manifold_verify_trust_gate_s1_pins,
    sec_s1_accel_ac28_honest,
    sec_s1_accel_ac28_probe,
    sec_s1_gate_factor_table,
    sec_s1_gate_manifold_probe,
    sec_s1_gate_wire_matrix,
    sec_s1_production_wired,
    sec_s1_session_ledger_next_hop,
    session_ledger_wired as sec_s1_session_ledger_wired,
    validate_sec_s1_gate_honesty,
    ManifoldS1FactorProbe,
    SecS1AccelAc28Probe,
    SecS1GateFactorRow,
    SecS1GateManifoldProbe,
    SecS1GateTrustCensus,
    SecS1GateWireHop,
    BOARD_SLICE_ID as SEC_S1_BOARD_SLICE_ID,
    EXPECTED_GATE_EXIT as SEC_S1_EXPECTED_GATE_EXIT,
    FLEET_ACCEL2_AC28_JOB_ID,
    FLEET_ACCEL2_AC28_RECEIPT_PATH,
    manifold_sec_s1_gate_wire_hops,
    s1_factor_ids,
    S1_FACTOR_ROW_COUNT,
    S1_GREEN_CLAIM_BLOCKED,
};
pub use self::sec_s2::{
    collect_sec_s2_gate_factor_rows,
    gate_transition_evidence_probe as sec_s2_gate_transition_evidence_probe,
    gate_trust_refuse_census,
    manifold_gate_sec_s2_ceremony_closed,
    manifold_s2_all_refuse_paths_probed,
    manifold_s2_extract_fence_facets_verified,
    manifold_s2_refuse_path_coverage_probes,
    manifold_verify_trust_gate_policy_pins,
    sec_s2_accel_ac29_honest,
    sec_s2_accel_ac29_probe,
    sec_s2_extract_fence_wired_count,
    sec_s2_extract_production_fence_matrix,
    sec_s2_extract_production_fence_next_hop,
    sec_s2_gate_factor_exit_expectations,
    sec_s2_gate_factor_table,
    sec_s2_gate_manifold_probe,
    sec_s2_gate_wire_matrix,
    sec_s2_p1941_k2_honest,
    sec_s2_p1941_k2_probe,
    sec_s2_production_wired,
    sec_s2_trust_extract_production_wired,
    validate_sec_s2_gate_honesty,
    ManifoldS2ExtractProductionFenceFacet,
    ManifoldS2RefusePathProbe,
    SecS2AccelAc29Probe,
    SecS2GateFactorExitExpectations,
    SecS2GateFactorRow,
    SecS2GateManifoldProbe,
    SecS2GateTrustRefuseCensus,
    SecS2GateWireHop,
    SecS2P1941K2Probe,
    BOARD_SLICE_ID as SEC_S2_BOARD_SLICE_ID,
    CLASSICAL_WRAP_TOTAL,
    CLASSICAL_WRAP_WRAPPED,
    EXPECTED_GATE_EXIT,
    EXTRACT_SSOT,
    FLEET_ACCEL_AC29_JOB_ID,
    FLEET_ACCEL_AC29_RECEIPT_PATH,
    FLEET_P1941_K2_JOB_ID,
    FLEET_P1941_K2_RECEIPT_PATH,
    manifold_s2_extract_production_fence_facets,
    manifold_sec_s2_gate_wire_hops,
    S2_EXTRACT_FENCE_FACET_COUNT,
    s2_extract_fence_facet_ids,
    S2_EXTRACT_FENCE_WIRED_COUNT,
    S2_FACTOR_ROW_COUNT,
    s2_gate_factor_palette_keys,
    S2_GREEN_CLAIM_BLOCKED,
    s2_refuse_path_factor_ids,
    TRUST_ADT_SSOT,
    TRUST_GATE_POLICY_STRICT,
    TRUST_GATE_POLICY_WARN_ONLY,
    UCRS_WIRE_PARITY_TEST,
    WRAP_QUEUE_DEPTH,
};
pub use self::sec_s3::{
    gate_palette_ledger_census,
    gate_transition_evidence_probe,
    manifold_gate_sec_s3_ceremony_closed,
    sec_s3_accel_ac05_honest,
    sec_s3_accel_ac05_probe,
    sec_s3_gate_manifold_probe,
    sec_s3_gate_wire_matrix,
    sec_s3_p1606_c5_honest,
    sec_s3_p1606_c5_probe,
    sec_s3_production_wired,
    sec_s3_session_ledger_next_hop,
    session_ledger_wired,
    validate_sec_s3_gate_honesty,
    SecS3AccelAc05Probe,
    SecS3GateManifoldProbe,
    SecS3GatePaletteLedgerCensus,
    SecS3GateWireHop,
    SecS3P1606C5Probe,
    BOARD_SLICE_ID as SEC_S3_BOARD_SLICE_ID,
    FLEET_P1606_C5_JOB_ID,
    FLEET_P1606_C5_RECEIPT_PATH,
    manifold_sec_s3_gate_wire_hops,
    PALETTE_PERSISTED_HONEST,
    S3_GREEN_CLAIM_BLOCKED,
};
pub use self::sec_s4::{
    gate_side_channel_scrub_census,
    gate_transition_evidence_probe as sec_s4_gate_transition_evidence_probe,
    manifold_gate_sec_s4_ceremony_closed,
    manifold_ls5_all_k_v1_probed,
    manifold_ls5_k_v1_coverage_probes,
    manifold_scrub_k_v1_tokens,
    manifold_verify_scrub_roundtrip,
    sec_s4_accel_ac06_honest,
    sec_s4_accel_ac06_probe,
    sec_s4_gate_manifold_probe,
    sec_s4_gate_wire_matrix,
    sec_s4_l_s5_proof_next_hop,
    sec_s4_p1800_h3_honest,
    sec_s4_p1800_h3_probe,
    sec_s4_production_wired,
    validate_sec_s4_gate_honesty,
    ManifoldLs5Kv1Probe,
    SecS4AccelAc06Probe,
    SecS4GateManifoldProbe,
    SecS4GateSideChannelScrubCensus,
    SecS4GateWireHop,
    SecS4P1800H3Probe,
    BOARD_SLICE_ID as SEC_S4_BOARD_SLICE_ID,
    FLEET_P1800_H3_JOB_ID,
    FLEET_P1800_H3_RECEIPT_PATH,
    k_v1_patterns,
    L_S5_PROOF_WIRED_HONEST,
    manifold_sec_s4_gate_wire_hops,
    scrub_placeholder,
};
pub use self::sec_s5::{
    collect_sec_s5_gate_factor_rows,
    gate_synthetic_consensus_census,
    gate_transition_evidence_probe as sec_s5_gate_transition_evidence_probe,
    manifold_gate_sec_s5_ceremony_closed,
    manifold_s5_all_scenarios_probed,
    manifold_s5_consensus_coverage_probes,
    manifold_verify_s5_consensus_algebra_roundtrip,
    sec_s5_accel_ac07_honest,
    sec_s5_accel_ac07_probe,
    sec_s5_gate_factor_table,
    sec_s5_gate_manifold_probe,
    sec_s5_gate_wire_matrix,
    sec_s5_ln0_proof_next_hop,
    sec_s5_p1812_i2_honest,
    sec_s5_p1812_i2_probe,
    sec_s5_production_wired,
    validate_sec_s5_gate_honesty,
    SecS5AccelAc07Probe,
    SecS5GateFactorRow,
    SecS5GateManifoldProbe,
    SecS5GateSyntheticConsensusCensus,
    SecS5GateWireHop,
    SecS5P1812I2Probe,
    BOARD_SLICE_ID as SEC_S5_BOARD_SLICE_ID,
    FLEET_P1812_I2_JOB_ID,
    FLEET_P1812_I2_RECEIPT_PATH,
    LIVE_FANOUT_WIRED_HONEST,
    LN0_PROOF_WIRED_HONEST,
    manifold_sec_s5_gate_wire_hops,
    s5_consensus_probe_scenarios,
    S5_GREEN_CLAIM_BLOCKED,
};
pub use self::sec_s6::{
    collect_sec_s6_gate_factor_rows,
    gate_hcom_prov_gateway_fence_census,
    gate_transition_evidence_probe as sec_s6_gate_transition_evidence_probe,
    manifold_gate_sec_s6_ceremony_closed,
    manifold_hcom_prov_gw_fence_hops_verified,
    manifold_s6_inspect_delegate_verified,
    manifold_scert_upstream_slots_verified,
    sec_s6_accel_ac33_honest,
    sec_s6_accel_ac33_probe,
    sec_s6_gate_factor_table,
    sec_s6_gate_manifold_probe,
    sec_s6_gate_wire_matrix,
    sec_s6_hcom_prov_fence_table,
    sec_s6_hcom_prov_gw_next_hop,
    sec_s6_production_wired,
    sec_s6_scert_upstream_table,
    validate_sec_s6_gate_honesty,
    ManifoldHcomProvGwFenceHop,
    ManifoldS6UpstreamSlot,
    SecS6AccelAc33Probe,
    SecS6GateFactorRow,
    SecS6GateHcomProvGatewayFenceCensus,
    SecS6GateManifoldProbe,
    SecS6GateWireHop,
    ACCEL_AC33_RECEIPT_PATH,
    ACCEL_B_2050_AC33_JOB_ID,
    BOARD_SLICE_ID as SEC_S6_BOARD_SLICE_ID,
    EXPECTED_GATE_EXIT as SEC_S6_EXPECTED_GATE_EXIT,
    hcom_prov_gw_fence_hops,
    HCOM_PROV_GW_WIRE_HOP_COUNT,
    LIVE_ATTESTATION_WIRED_HONEST,
    manifold_sec_s6_gate_wire_hops,
    S6_GREEN_CLAIM_BLOCKED,
    S6_INSPECT_FACTOR_COUNT,
    SCERT_EXIT_NOT_WIRED,
    scert_upstream_slots,
};
pub use self::sec_s7::{
    collect_sec_s7_gate_factor_rows,
    gate_fed_trust_migration_census,
    gate_transition_evidence_probe as sec_s7_gate_transition_evidence_probe,
    manifold_gate_sec_s7_ceremony_closed,
    manifold_s7_all_migrate_surfaces_probed,
    manifold_s7_migrate_coverage_probes,
    manifold_verify_migration_inventory_census,
    sec_s7_accel_ac08_honest,
    sec_s7_accel_ac08_probe,
    sec_s7_boundary_next_hop,
    sec_s7_gate_factor_table,
    sec_s7_gate_manifold_probe,
    sec_s7_gate_wire_matrix,
    sec_s7_p1931_j2_honest,
    sec_s7_p1931_j2_probe,
    sec_s7_production_wired,
    validate_sec_s7_gate_honesty,
    SecS7AccelAc08Probe,
    SecS7GateFedTrustMigrationCensus,
    SecS7GateManifoldProbe,
    SecS7GateWireHop,
    SecS7P1931J2Probe,
    BOARD_SLICE_ID as SEC_S7_BOARD_SLICE_ID,
    FLEET_P1931_J2_JOB_ID,
    FLEET_P1931_J2_RECEIPT_PATH,
    INVENTORY_ROW_COUNT,
    manifold_sec_s7_gate_wire_hops,
    MIGRATE_QUEUE_DEPTH,
    MIGRATION_COMPLETE_HONEST,
    S7_GREEN_CLAIM_BLOCKED,
    S_FED_TRUST_PARTIAL_HONEST,
    S_FED_TRUST_PRODUCTION_WIRED_HONEST,
};

verus! {

/// Cell id for the barrel census.
pub const RUNTIME_GATE_MOD_CELL_ID: &'static str = "W30-234-GATE_MOD";

/// Honest posture tag — census wired, not production / not physics GREEN.
pub const RUNTIME_GATE_MOD_POSTURE_TAG: &'static str = "runtime-gate-barrel-census-wired-not-production";

/// Always-on child modules of the barrel inventory (the wire-format module is not counted).
pub const RUNTIME_GATE_ALWAYS_ON_MODULE_COUNT: usize = 15;

/// Core evidence modules under this barrel (non-SEC).
pub const RUNTIME_GATE_CORE_MODULE_COUNT: usize = 4;

/// SEC cold-edge arcs rolled into the barrel.
pub const RUNTIME_GATE_SEC_ARC_COUNT: usize = 11;

/// Barrel-level GREEN claim fence — honest true (claims blocked).
pub const RUNTIME_GATE_GREEN_CLAIM_BLOCKED: bool = true;

/// Role of a child module in the runtime gate barrel.
#[derive(Debug, Clone, Copy, PartialEq, Eq, Structural)]
pub enum RuntimeGateModuleRole {
    /// Core cold-edge evidence / cartridge surface.
    CoreEvidence,
    /// SEC admit / refuse / wrap / audit arc.
    SecArc,
}

/// One inventory row for a runtime gate child module.
#[derive(Debug, Clone, Copy, PartialEq, Eq)]
pub struct RuntimeGateModuleBand {
    /// Stable band id (`runtime_gate:<module>`).
    pub band_id: &'static str,
    /// Child module name.
    pub module: &'static str,
    /// Role in the barrel.
    pub role: RuntimeGateModuleRole,
}

/// The frozen always-on module inventory, in order.
pub open spec fn module_bands_spec() -> Seq<RuntimeGateModuleBand> {
    seq![
        RuntimeGateModuleBand { band_id: "runtime_gate:admissibility_margin", module: "admissibility_margin", role: RuntimeGateModuleRole::CoreEvidence },
        RuntimeGateModuleBand { band_id: "runtime_gate:cartridge", module: "cartridge", role: RuntimeGateModuleRole::CoreEvidence },
        RuntimeGateModuleBand { band_id: "runtime_gate:evidence", module: "evidence", role: RuntimeGateModuleRole::CoreEvidence },
        RuntimeGateModuleBand { band_id: "runtime_gate:explain_codes", module: "explain_codes", role: RuntimeGateModuleRole::CoreEvidence },
        RuntimeGateModuleBand { band_id: "runtime_gate:sec_s1", module: "sec_s1", role: RuntimeGateModuleRole::SecArc },
        RuntimeGateModuleBand { band_id: "runtime_gate:sec_s2", module: "sec_s2", role: RuntimeGateModuleRole::SecArc },
        RuntimeGateModuleBand { band_id: "runtime_gate:sec_s3", module: "sec_s3", role: RuntimeGateModuleRole::SecArc },
        RuntimeGateModuleBand { band_id: "runtime_gate:sec_s4", module: "sec_s4", role: RuntimeGateModuleRole::SecArc },
        RuntimeGateModuleBand { band_id: "runtime_gate:sec_s5", module: "sec_s5", role: RuntimeGateModuleRole::SecArc },
        RuntimeGateModuleBand { band_id: "runtime_gate:sec_s6", module: "sec_s6", role: RuntimeGateModuleRole::SecArc },
        RuntimeGateModuleBand { band_id: "runtime_gate:sec_s7", module: "sec_s7", role: RuntimeGateModuleRole::SecArc },
        RuntimeGateModuleBand { band_id: "runtime_gate:sec_mcp_wrap", module: "sec_mcp_wrap", role: RuntimeGateModuleRole::SecArc },
        RuntimeGateModuleBand { band_id: "runtime_gate:sec_gw_wrap", module: "sec_gw_wrap", role: RuntimeGateModuleRole::SecArc },
        RuntimeGateModuleBand { band_id: "runtime_gate:sec_gw_audit", module: "sec_gw_audit", role: RuntimeGateModuleRole::SecArc },
        RuntimeGateModuleBand { band_id: "runtime_gate:sec_bridge_arcs", module: "sec_bridge_arcs", role: RuntimeGateModuleRole::SecArc },
    ]
}

/// Frozen always-on module inventory — length [`RUNTIME_GATE_ALWAYS_ON_MODULE_COUNT`].
pub fn runtime_gate_module_bands() -> (r: Vec<RuntimeGateModuleBand>)
    ensures
        r@ == module_bands_spec(),
{
    let r = vec![
        RuntimeGateModuleBand { band_id: "runtime_gate:admissibility_margin", module: "admissibility_margin", role: RuntimeGateModuleRole::CoreEvidence },
        RuntimeGateModuleBand { band_id: "runtime_gate:cartridge", module: "cartridge", role: RuntimeGateModuleRole::CoreEvidence },
        RuntimeGateModuleBand { band_id: "runtime_gate:evidence", module: "evidence", role: RuntimeGateModuleRole::CoreEvidence },
        RuntimeGateModuleBand { band_id: "runtime_gate:explain_codes", module: "explain_codes", role: RuntimeGateModuleRole::CoreEvidence },
        RuntimeGateModuleBand { band_id: "runtime_gate:sec_s1", module: "sec_s1", role: RuntimeGateModuleRole::SecArc },
        RuntimeGateModuleBand { band_id: "runtime_gate:sec_s2", module: "sec_s2", role: RuntimeGateModuleRole::SecArc },
        RuntimeGateModuleBand { band_id: "runtime_gate:sec_s3", module: "sec_s3", role: RuntimeGateModuleRole::SecArc },
        RuntimeGateModuleBand { band_id: "runtime_gate:sec_s4", module: "sec_s4", role: RuntimeGateModuleRole::SecArc },
        RuntimeGateModuleBand { band_id: "runtime_gate:sec_s5", module: "sec_s5", role: RuntimeGateModuleRole::SecArc },
        RuntimeGateModuleBand { band_id: "runtime_gate:sec_s6", module: "sec_s6", role: RuntimeGateModuleRole::SecArc },
        RuntimeGateModuleBand { band_id: "runtime_gate:sec_s7", module: "sec_s7", role: RuntimeGateModuleRole::SecArc },
        RuntimeGateModuleBand { band_id: "runtime_gate:sec_mcp_wrap", module: "sec_mcp_wrap", role: RuntimeGateModuleRole::SecArc },
        RuntimeGateModuleBand { band_id: "runtime_gate:sec_gw_wrap", module: "sec_gw_wrap", role: RuntimeGateModuleRole::SecArc },
        RuntimeGateModuleBand { band_id: "runtime_gate:sec_gw_audit", module: "sec_gw_audit", role: RuntimeGateModuleRole::SecArc },
        RuntimeGateModuleBand { band_id: "runtime_gate:sec_bridge_arcs", module: "sec_bridge_arcs", role: RuntimeGateModuleRole::SecArc },
    ];
    assert(r@ =~= module_bands_spec());
    r
}

/// Whether a band plays the given role.
pub open spec fn band_has_role(role: RuntimeGateModuleRole) -> spec_fn(RuntimeGateModuleBand) -> bool {
    |b: RuntimeGateModuleBand| b.role == role
}

/// Count the bands of an inventory that play the given role.
pub fn count_bands_with_role(bands: &Vec<RuntimeGateModuleBand>, role: RuntimeGateModuleRole) -> (r: usize)
    ensures
        r == count_where(bands@, band_has_role(role)),
{
    let mut n: usize = 0;
    let mut i: usize = 0;
    while i < bands.len()
        invariant
            i <= bands.len(),
            n == count_where(bands@.take(i as int), band_has_role(role)),
            n <= i,
        decreases bands.len() - i,
    {
        proof {
            lemma_count_step(bands@, band_has_role(role), i as int);
        }
        if bands[i].role == role {
            n = n + 1;
        }
        i = i + 1;
    }
    proof {
        lemma_take_all(bands@);
    }
    n
}

/// The inventory holds four core evidence modules and eleven SEC arcs.
pub proof fn lemma_module_band_role_counts()
    ensures
        count_where(module_bands_spec(), band_has_role(RuntimeGateModuleRole::CoreEvidence)) == 4,
        count_where(module_bands_spec(), band_has_role(RuntimeGateModuleRole::SecArc)) == 11,
{
    let s = module_bands_spec();
    let core = band_has_role(RuntimeGateModuleRole::CoreEvidence);
    let arc = band_has_role(RuntimeGateModuleRole::SecArc);
    assert(s.take(0) =~= Seq::<RuntimeGateModuleBand>::empty());
    lemma_count_step(s, core, 0);
    lemma_count_step(s, arc, 0);
    lemma_count_step(s, core, 1);
    lemma_count_step(s, arc, 1);
    lemma_count_step(s, core, 2);
    lemma_count_step(s, arc, 2);
    lemma_count_step(s, core, 3);
    lemma_count_step(s, arc, 3);
    lemma_count_step(s, core, 4);
    lemma_count_step(s, arc, 4);
    lemma_count_step(s, core, 5);
    lemma_count_step(s, arc, 5);
    lemma_count_step(s, core, 6);
    lemma_count_step(s, arc, 6);
    lemma_count_step(s, core, 7);
    lemma_count_step(s, arc, 7);
    lemma_count_step(s, core, 8);
    lemma_count_step(s, arc, 8);
    lemma_count_step(s, core, 9);
    lemma_count_step(s, arc, 9);
    lemma_count_step(s, core, 10);
    lemma_count_step(s, arc, 10);
    lemma_count_step(s, core, 11);
    lemma_count_step(s, arc, 11);
    lemma_count_step(s, core, 12);
    lemma_count_step(s, arc, 12);
    lemma_count_step(s, core, 13);
    lemma_count_step(s, arc, 13);
    lemma_count_step(s, core, 14);
    lemma_count_step(s, arc, 14);
    lemma_take_all(s);
}

/// The residues that the SEC arcs' honesty checks measure beyond the cold-edge evidence:
/// the S-4 synthetic fuzz corpus and the S-5 synthetic consensus probes.
pub open spec fn sec_arc_residues_honest() -> bool {
    fuzz_corpus_honest() && consensus_probes_honest()
}

/// Barrel census probe — measured inventory and honesty fences.
#[derive(Debug, Clone, PartialEq, Eq)]
pub struct RuntimeGateModCensusProbe {
    /// Cell id pin.
    pub cell_id: &'static str,
    /// Posture tag pin.
    pub posture_tag: &'static str,
    /// Measured inventory length.
    pub always_on_module_count: usize,
    /// Measured core evidence module count.
    pub core_module_count: usize,
    /// Measured SEC arc count.
    pub sec_arc_count: usize,
    /// Barrel re-exports resolve.
    pub barrel_reexports_wired: bool,
    /// Every SEC arc honesty residue passes.
    pub sec_validate_all_honest: bool,
    /// GREEN claim fences blocked across the arcs.
    pub green_claim_blocked_all_arcs: bool,
    /// Any arc claims production wired.
    pub production_wired_any_arc: bool,
    /// Barrel production fence — always false until a measured live wire.
    pub production_wired: bool,
    /// Barrel GREEN fence — always true (claims blocked).
    pub green_claim_blocked: bool,
    /// MASTER retick not claimed from the barrel census.
    pub master_retick_eligible: bool,
    /// OP-5 not claimed from the barrel census.
    pub op5_cleared: bool,
    /// Deepen honesty of the whole census.
    pub census_deepen_honest: bool,
}

/// Whether the barrel re-exports resolve for the core and SEC surfaces: the explain-code
/// vocabulary and the S1 / S2 / bridge wire maps are non-empty, the S2 extract fence ids
/// match their pinned count, and every arc's GREEN claim stays blocked. (The float margin
/// epsilon belongs to the host, which owns floating point, and is checked there.)
pub fn runtime_gate_barrel_reexports_wired() -> (r: bool)
    ensures
        r,
{
    let codes = top_gate_explain_codes();
    let s1_hops = manifold_sec_s1_gate_wire_hops();
    let s2_hops = manifold_sec_s2_gate_wire_hops();
    let bridge_hops = manifold_sec_bridge_arcs_gate_wire_hops();
    let facet_ids = s2_extract_fence_facet_ids();
    proof {
        assert(s1_hops@.len() == sec_s1::wire_hops_spec().len());
        assert(s2_hops@.len() == sec_s2::wire_hops_spec().len());
        assert(bridge_hops@.len() == sec_bridge_arcs::wire_hops_spec().len());
        assert(facet_ids@.len() == sec_s2::extract_fence_facet_ids_spec().len());
    }
    codes.len() > 0 && s1_hops.len() > 0 && s2_hops.len() > 0 && bridge_hops.len() > 0
        && facet_ids.len() == S2_EXTRACT_FENCE_FACET_COUNT && S1_GREEN_CLAIM_BLOCKED
        && S2_GREEN_CLAIM_BLOCKED && S3_GREEN_CLAIM_BLOCKED && S5_GREEN_CLAIM_BLOCKED
        && S6_GREEN_CLAIM_BLOCKED && S7_GREEN_CLAIM_BLOCKED && MCP_WRAP_GREEN_CLAIM_BLOCKED
        && GW_WRAP_GREEN_CLAIM_BLOCKED && GW_AUDIT_GREEN_CLAIM_BLOCKED
        && BRIDGE_ARCS_GREEN_CLAIM_BLOCKED
}

/// Whether every SEC arc's honesty residue passes for the measured cold-edge evidence:
/// exactly when the evidence admits and the S-4 fuzz corpus and S-5 consensus probes are
/// honest.
pub fn runtime_gate_sec_validate_all_honest(gate_evidence_wired: bool) -> (r: bool)
    ensures
        r == (gate_evidence_wired && sec_arc_residues_honest()),
{
    validate_sec_s1_gate_honesty(gate_evidence_wired).is_ok()
        && validate_sec_s2_gate_honesty(gate_evidence_wired).is_ok()
        && validate_sec_s3_gate_honesty(gate_evidence_wired).is_ok()
        && validate_sec_s4_gate_honesty(gate_evidence_wired).is_ok()
        && validate_sec_s5_gate_honesty(gate_evidence_wired).is_ok()
        && validate_sec_s6_gate_honesty(gate_evidence_wired).is_ok()
        && validate_sec_s7_gate_honesty(gate_evidence_wired).is_ok()
        && validate_sec_mcp_wrap_gate_honesty(gate_evidence_wired).is_ok()
        && validate_sec_gw_wrap_honesty(gate_evidence_wired).is_ok()
        && validate_sec_gw_audit_honesty(gate_evidence_wired).is_ok()
        && validate_sec_bridge_arcs_gate_honesty(gate_evidence_wired).is_ok()
}

/// Whether any SEC arc claims production wired (it never does).
pub fn runtime_gate_production_wired_any_arc() -> (r: bool)
    ensures
        !r,
{
    sec_s1_production_wired() || sec_s2_production_wired() || sec_s3_production_wired()
        || sec_s4_production_wired() || sec_s5_production_wired() || sec_s6_production_wired()
        || sec_s7_production_wired() || sec_mcp_wrap_production_wired()
        || sec_gw_wrap_production_wired() || sec_gw_audit_production_wired()
        || sec_bridge_arcs_production_wired()
}

/// Whether GREEN claim fences remain blocked across the exported SEC arcs (they do).
pub fn runtime_gate_green_claim_blocked_all_arcs() -> (r: bool)
    ensures
        r,
{
    S1_GREEN_CLAIM_BLOCKED && S2_GREEN_CLAIM_BLOCKED && S3_GREEN_CLAIM_BLOCKED
        && !L_S5_PROOF_WIRED_HONEST && S5_GREEN_CLAIM_BLOCKED && S6_GREEN_CLAIM_BLOCKED
        && S7_GREEN_CLAIM_BLOCKED && MCP_WRAP_GREEN_CLAIM_BLOCKED && GW_WRAP_GREEN_CLAIM_BLOCKED
        && GW_AUDIT_GREEN_CLAIM_BLOCKED && BRIDGE_ARCS_GREEN_CLAIM_BLOCKED
        && RUNTIME_GATE_GREEN_CLAIM_BLOCKED
}

/// Barrel production path — honest false until a measured live production wire.
pub fn runtime_gate_mod_production_wired() -> (r: bool)
    ensures
        !r,
{
    false
}

/// MASTER retick eligibility — honest false (not claimed from the barrel census).
pub fn runtime_gate_mod_master_retick_eligible() -> (r: bool)
    ensures
        !r,
{
    false
}

/// OP-5 clearance — honest false (not claimed from the barrel census).
pub fn runtime_gate_mod_op5_cleared() -> (r: bool)
    ensures
        !r,
{
    false
}

/// The barrel census probe measured for a given cold-edge outcome.
pub open spec fn census_probe_spec(gate_evidence_wired: bool) -> RuntimeGateModCensusProbe {
    RuntimeGateModCensusProbe {
        cell_id: RUNTIME_GATE_MOD_CELL_ID,
        posture_tag: RUNTIME_GATE_MOD_POSTURE_TAG,
        always_on_module_count: 15,
        core_module_count: 4,
        sec_arc_count: 11,
        barrel_reexports_wired: true,
        sec_validate_all_honest: gate_evidence_wired && sec_arc_residues_honest(),
        green_claim_blocked_all_arcs: true,
        production_wired_any_arc: false,
        production_wired: false,
        green_claim_blocked: true,
        master_retick_eligible: false,
        op5_cleared: false,
        census_deepen_honest: gate_evidence_wired && sec_arc_residues_honest(),
    }
}

/// Build the runtime gate barrel census probe from live module measurements.
pub fn runtime_gate_mod_census_probe(gate_evidence_wired: bool) -> (r: RuntimeGateModCensusProbe)
    ensures
        r == census_probe_spec(gate_evidence_wired),
{
    let barrel_reexports_wired = runtime_gate_barrel_reexports_wired();
    let sec_validate_all_honest = runtime_gate_sec_validate_all_honest(gate_evidence_wired);
    let green_claim_blocked_all_arcs = runtime_gate_green_claim_blocked_all_arcs();
    let production_wired_any_arc = runtime_gate_production_wired_any_arc();
    let bands = runtime_gate_module_bands();
    let core_module_count = count_bands_with_role(&bands, RuntimeGateModuleRole::CoreEvidence);
    let sec_arc_count = count_bands_with_role(&bands, RuntimeGateModuleRole::SecArc);
    proof {
        lemma_module_band_role_counts();
    }
    let census_deepen_honest = bands.len() == RUNTIME_GATE_ALWAYS_ON_MODULE_COUNT
        && core_module_count == RUNTIME_GATE_CORE_MODULE_COUNT
        && sec_arc_count == RUNTIME_GATE_SEC_ARC_COUNT && barrel_reexports_wired
        && sec_validate_all_honest && green_claim_blocked_all_arcs && !production_wired_any_arc
        && !runtime_gate_mod_production_wired() && RUNTIME_GATE_GREEN_CLAIM_BLOCKED
        && !runtime_gate_mod_master_retick_eligible() && !runtime_gate_mod_op5_cleared();
    RuntimeGateModCensusProbe {
        cell_id: RUNTIME_GATE_MOD_CELL_ID,
        posture_tag: RUNTIME_GATE_MOD_POSTURE_TAG,
        always_on_module_count: bands.len(),
        core_module_count,
        sec_arc_count,
        barrel_reexports_wired,
        sec_validate_all_honest,
        green_claim_blocked_all_arcs,
        production_wired_any_arc,
        production_wired: runtime_gate_mod_production_wired(),
        green_claim_blocked: RUNTIME_GATE_GREEN_CLAIM_BLOCKED,
        master_retick_eligible: runtime_gate_mod_master_retick_eligible(),
        op5_cleared: runtime_gate_mod_op5_cleared(),
        census_deepen_honest,
    }
}

/// The barrel honesty gate over a probe: pins match, the census is wired, and production /
/// GREEN / MASTER / OP-5 stay blocked.
pub open spec fn census_honest_spec(probe: RuntimeGateModCensusProbe) -> bool {
    &&& probe.cell_id@ == RUNTIME_GATE_MOD_CELL_ID@
    &&& probe.posture_tag@ == RUNTIME_GATE_MOD_POSTURE_TAG@
    &&& probe.always_on_module_count == RUNTIME_GATE_ALWAYS_ON_MODULE_COUNT
    &&& probe.core_module_count == RUNTIME_GATE_CORE_MODULE_COUNT
    &&& probe.sec_arc_count == RUNTIME_GATE_SEC_ARC_COUNT
    &&& probe.barrel_reexports_wired
    &&& probe.sec_validate_all_honest
    &&& probe.green_claim_blocked_all_arcs
    &&& !probe.production_wired_any_arc
    &&& !probe.production_wired
    &&& probe.green_claim_blocked
    &&& !probe.master_retick_eligible
    &&& !probe.op5_cleared
    &&& probe.census_deepen_honest
}

/// Honesty gate — census wired; production / GREEN / MASTER / OP-5 blocked.
pub fn runtime_gate_mod_census_honest(probe: &RuntimeGateModCensusProbe) -> (r: bool)
    ensures
        r == census_honest_spec(*probe),
{
    str_eq(probe.cell_id, RUNTIME_GATE_MOD_CELL_ID) && str_eq(
        probe.posture_tag,
        RUNTIME_GATE_MOD_POSTURE_TAG,
    ) && probe.always_on_module_count == RUNTIME_GATE_ALWAYS_ON_MODULE_COUNT
        && probe.core_module_count == RUNTIME_GATE_CORE_MODULE_COUNT
        && probe.sec_arc_count == RUNTIME_GATE_SEC_ARC_COUNT && probe.barrel_reexports_wired
        && probe.sec_validate_all_honest && probe.green_claim_blocked_all_arcs
        && !probe.production_wired_any_arc && !probe.production_wired && probe.green_claim_blocked
        && !probe.master_retick_eligible && !probe.op5_cleared && probe.census_deepen_honest
}

/// The deepen honesty predicate: the honesty gate, the cell id and the eleven arcs pinned,
/// and the production / GREEN / MASTER / OP-5 fences once more.
pub open spec fn census_deepen_honest_spec(probe: RuntimeGateModCensusProbe) -> bool {
    &&& census_honest_spec(probe)
    &&& probe.cell_id@ == "W30-234-GATE_MOD"@
    &&& probe.sec_arc_count == 11
    &&& !probe.production_wired
    &&& probe.green_claim_blocked
    &&& !probe.master_retick_eligible
    &&& !probe.op5_cleared
}

/// Deepen honesty predicate for the barrel census.
pub fn runtime_gate_mod_census_deepen_honest(probe: &RuntimeGateModCensusProbe) -> (r: bool)
    ensures
        r == census_deepen_honest_spec(*probe),
{
    runtime_gate_mod_census_honest(probe) && str_eq(probe.cell_id, "W30-234-GATE_MOD")
        && probe.sec_arc_count == 11 && !probe.production_wired && probe.green_claim_blocked
        && !probe.master_retick_eligible && !probe.op5_cleared
}

/// The barrel census measured for a cold-edge outcome passes its honesty gate, and its
/// deepen predicate, exactly when the evidence admits and the SEC arc residues are honest;
/// a probe that passes the deepen predicate passes the honesty gate.
pub proof fn lemma_census_probe_honest_iff_residues(gate_evidence_wired: bool, probe: RuntimeGateModCensusProbe)
    ensures
        census_honest_spec(census_probe_spec(gate_evidence_wired)) == (gate_evidence_wired
            && sec_arc_residues_honest()),
        census_deepen_honest_spec(census_probe_spec(gate_evidence_wired)) == (gate_evidence_wired
            && sec_arc_residues_honest()),
        census_deepen_honest_spec(probe) ==> census_honest_spec(probe),
{
}

/// The error that a failing SEC arc residue produces.
pub open spec fn sec_residue_error() -> Seq<char> {
    "runtime gate SEC validate honesty residue failed"@
}

/// Validate the runtime gate barrel census, failing closed on drift or invented posture: it
/// returns the measured probe exactly when the evidence admits and the SEC arc residues are
/// honest, and otherwise the SEC residue error (no other check can fail on the frozen
/// inventory).
pub fn verify_runtime_gate_mod_census(gate_evidence_wired: bool) -> (r: Result<RuntimeGateModCensusProbe, String>)
    ensures
        gate_evidence_wired && sec_arc_residues_honest() ==> r == Ok::<
            RuntimeGateModCensusProbe,
            String,
        >(census_probe_spec(gate_evidence_wired)),
        !(gate_evidence_wired && sec_arc_residues_honest()) ==> (r is Err && r->Err_0@
            == sec_residue_error()),
{
    let probe = runtime_gate_mod_census_probe(gate_evidence_wired);
    if probe.always_on_module_count != RUNTIME_GATE_ALWAYS_ON_MODULE_COUNT {
        let mut msg = String::from_str("runtime gate module count drift: expected ");
        push_decimal(&mut msg, RUNTIME_GATE_ALWAYS_ON_MODULE_COUNT as u64);
        push_str(&mut msg, ", got ");
        push_decimal(&mut msg, probe.always_on_module_count as u64);
        return Err(msg);
    }
    if probe.sec_arc_count != RUNTIME_GATE_SEC_ARC_COUNT {
        let mut msg = String::from_str("runtime gate SEC arc count drift: expected ");
        push_decimal(&mut msg, RUNTIME_GATE_SEC_ARC_COUNT as u64);
        push_str(&mut msg, ", got ");
        push_decimal(&mut msg, probe.sec_arc_count as u64);
        return Err(msg);
    }
    if !probe.barrel_reexports_wired {
        return Err(String::from_str("runtime gate barrel re-exports not wired"));
    }
    if !probe.sec_validate_all_honest {
        return Err(String::from_str("runtime gate SEC validate honesty residue failed"));
    }
    if probe.production_wired_any_arc || probe.production_wired {
        return Err(String::from_str("runtime gate production_wired must stay honest false"));
    }
    if !probe.green_claim_blocked || !probe.green_claim_blocked_all_arcs {
        return Err(String::from_str("runtime gate GREEN claim must stay blocked"));
    }
    if probe.master_retick_eligible {
        return Err(String::from_str("runtime gate must not invent MASTER retick eligibility"));
    }
    if probe.op5_cleared {
        return Err(String::from_str("runtime gate must not invent OP-5 clearance"));
    }
    if !runtime_gate_mod_census_deepen_honest(&probe) {
        return Err(String::from_str("runtime gate barrel deepen honesty predicate failed"));
    }
    Ok(probe)
}

/// Validate the barrel honesty residue, mapping a verify error to one static message: `Ok`
/// exactly when the evidence admits and the SEC arc residues are honest.
pub fn validate_runtime_gate_mod_honesty(gate_evidence_wired: bool) -> (r: Result<(), &'static str>)
    ensures
        gate_evidence_wired && sec_arc_residues_honest() ==> r == Ok::<(), &'static str>(()),
        !(gate_evidence_wired && sec_arc_residues_honest()) ==> r == Err::<(), &'static str>(
            "runtime gate mod census honesty failed",
        ),
{
    match verify_runtime_gate_mod_census(gate_evidence_wired) {
        Ok(_) => Ok(()),
        Err(_) => Err("runtime gate mod census honesty failed"),
    }
}

/// Law: the SEC arc residues are honest — the S-4 fuzz corpus and the S-5 consensus probes
/// both hold — so every census, honesty check and validator here passes exactly when the
/// cold-edge evidence admits.
pub proof fn lemma_sec_arc_residues_honest()
    ensures
        sec_arc_residues_honest(),
{
    sec_s4::lemma_fuzz_corpus_honest();
    sec_s5::lemma_consensus_probes_honest();
}

} // verus!
