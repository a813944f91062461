//! SEC-GW-AUDIT — manifold gate runtime admit-audit delegate census.
//!
//! The manifold gate runtime owns the cold-edge census bridging transition evidence to the
//! SEC-GW-AUDIT four-path `record_admit_gate_verdict_audit` stamp inventory and the upstream
//! SEC-GW-WRAP delegate fence; gateway JSONL live rotation, the
//! `UMST_GATEWAY_AUDIT_TRUST_CHAIN_ROOT` ceremony and the admit-audit production flip stay
//! honestly open.
//!
//! The W29-117 deepen measures the census ceremony and the four-path stamp inventory. Not
//! physics GREEN; PRODUCTION_WIRED, MASTER and OP-5 are refused. Every census takes the
//! measured outcome of the cold-edge evidence probe (`gate_evidence_wired`); the upstream
//! SEC-GW-WRAP ceremony additionally rests on the S-4 fuzz corpus being honest
//! (`fuzz_corpus_honest`).
use vstd::prelude::*;
use crate::text::{
    seq_contains, matches_at, str_eq, str_contains, decimal, bool_text, push_str, push_bool,
    push_decimal, count_where, lemma_count_step, lemma_flatten_step, lemma_take_all,
};
use crate::runtime::gate::evidence::{TransitionEvidence, witness_admits, cold_edge_witness_admits};
use crate::runtime::gate::sec_gw_wrap::{
    gate_trust_wrap_census, manifold_gate_sec_gw_wrap_ceremony_closed,
    manifold_gw_wrap_all_admit_surfaces_probed,
};
use crate::runtime::gate::sec_s4::fuzz_corpus_honest;

verus! {

/// Cell id for this deepen write set.
pub const W29_117_SEC_GW_AUDIT_DEEPEN_STEP: &'static str = "W29-117-SEC_GW_AUDIT";

/// Board slice id.
pub const BOARD_SLICE_ID: &'static str = "SEC-GW-AUDIT";

/// AGAP slot id (2033 gateway admit audit deepen).
pub const JOB_ID: &'static str = "AGAP-2033-SEC-GW-AUDIT";

/// FLEET-COMPOSER ACCEL-B slot AC31 id.
pub const FLEET_ACCEL2_AC31_JOB_ID: &'static str = "ACCEL-B-2050-AC31";

/// FLEET-COMPOSER ACCEL-B AC31 receipt path.
pub const FLEET_ACCEL2_AC31_RECEIPT_PATH: &'static str = "outputs/.tmp/COMPOSER_ACCEL2_AC31.md";

/// Prior FLEET-COMPOSER-Y Y51 stamped admit-path deepen receipt.
pub const PRIOR_RECEIPT_PATH_Y51: &'static str = "outputs/.tmp/COMPOSER_Y51_0808.md";

/// Prior Wave-Z Z87 delegate stamp closure receipt.
pub const PRIOR_RECEIPT_PATH_Z87: &'static str = "outputs/.tmp/COMPOSER_Z87_1232.md";

/// Prior Wave-Z Z08 SEC-GW-AUDIT resume receipt.
pub const PRIOR_RECEIPT_PATH_Z08: &'static str = "outputs/.tmp/COMPOSER_Z08_0928.md";

/// Prior PRABHU-WAVE-F P1710 F1 swarm rotate receipt.
pub const PRIOR_RECEIPT_PATH_P1710_F1: &'static str = "outputs/.tmp/COMPOSER_P1710_F1.md";

/// Gateway admit-audit stamp delegate SSOT (serial next-hop).
pub const GATEWAY_SSOT: &'static str = "umst-gateway/crates/umst-gateway/src/lib_adopt_e_gateway_audit.rs";

/// Gateway audit swarm rotate delegate SSOT.
pub const GATEWAY_SWARM_SSOT: &'static str =
    "umst-gateway/crates/umst-gateway/src/sec_gw_audit_swarm_rotate.rs";

/// Gateway stamped admit record symbol pin.
pub const GATEWAY_ADMIT_RECORD_SSOT: &'static str =
    "umst-gateway/crates/umst-gateway/src/lib_adopt_e_gateway_audit.rs::record_admit_gate_verdict_audit";

/// Operator trust-chain env ceremony symbol pin (honest open).
pub const GATEWAY_TRUST_CHAIN_SSOT: &'static str =
    "umst-gateway/crates/umst-gateway/src/lib_adopt_e_gateway_audit.rs::resolve_admit_warrant_from_env";

/// Honest adoption tier.
pub const POSTURE_TAG: &'static str = "manifold-gate-census-wired-not-production";

/// Operator-visible non-claim — the census is not GREEN / PRODUCTION / MASTER / OP-5.
pub const NON_CLAIM: &'static str =
    "not GREEN; not PRODUCTION_WIRED; not MASTER; not OP-5; JSONL rotation + trust-chain env remain OPEN";

/// Census schema version.
pub const SCHEMA_VERSION: &'static str = "sec_gw_audit_manifold_admit_census_v1";

/// Gateway auto-stamp admit path count (measured at Y51+Z87 — 4/4 delegate wired).
pub const ADMIT_STAMP_PATH_COUNT: usize = 4;

/// Stamp leg count (`ucrs_seq` + `trust_attestation`).
pub const STAMP_LEG_COUNT: usize = 2;

/// Delegate residual path count (Z87 emptied — honest 0 at census tier).
pub const DELEGATE_RESIDUAL_PATH_COUNT: usize = 0;

/// Wired hop count today (6/8 — JSONL rotation and trust-chain env stay open).
pub const WIRE_HOP_WIRED_COUNT_HONEST: u8 = 6;

/// Total wire hop inventory length.
pub const WIRE_HOP_TOTAL_COUNT: usize = 8;

/// SEC-GW-AUDIT GREEN claim blocked — honest true in scaffold deepen.
pub const GW_AUDIT_GREEN_CLAIM_BLOCKED: bool = true;

/// Honest physics posture — the census ceremony is not fleet physics GREEN.
pub const SEC_GW_AUDIT_PHYSICS_GREEN: bool = false;

/// Honest MASTER retick eligibility — always refused at this module.
pub const SEC_GW_AUDIT_MASTER_RETICK_ELIGIBLE: bool = false;

/// Honest OP-5 claim — always refused at this module.
pub const SEC_GW_AUDIT_OP5_CLAIMED: bool = false;

/// Gateway compile-time stamp helpers exported — honest true (helpers only, not live ceremony).
pub const GATEWAY_AUDIT_STAMP_HELPERS_WIRED_HONEST: bool = true;

/// Live JSONL rotation under operator env — honest false until measured.
pub const JSONL_ROTATION_LIVE_HONEST: bool = false;

/// Live `UMST_GATEWAY_AUDIT_TRUST_CHAIN_ROOT` — honest false until operator measure.
pub const LIVE_TRUST_CHAIN_MEASURED_HONEST: bool = false;

/// One hop in the manifold SEC-GW-AUDIT gate runtime wire map.
#[derive(Debug, Clone, Copy, PartialEq, Eq)]
pub struct SecGwAuditManifoldWireHop {
    /// Ordinal (1-based).
    pub ordinal: u8,
    /// Module or symbol surface.
    pub surface: &'static str,
    /// Role in the admit chain.
    pub role: &'static str,
    /// Whether this hop is wired today.
    pub wired: bool,
}

/// Manifold SEC-GW-AUDIT gate runtime wire map (cold-edge evidence to admit-audit census).
pub open spec fn wire_hops_spec() -> Seq<SecGwAuditManifoldWireHop> {
    seq![
        SecGwAuditManifoldWireHop { ordinal: 1, surface: "umst-manifold::runtime::gate::evidence::AdmissibilityToken", role: "Gate admit witness token on cold edge", wired: true },
        SecGwAuditManifoldWireHop { ordinal: 2, surface: "umst-manifold::runtime::gate::cartridge::GateCartridge::transition_evidence", role: "CdTransitionCartridge structured witness", wired: true },
        SecGwAuditManifoldWireHop { ordinal: 3, surface: "umst-manifold::runtime::gate::sec_gw_audit::gate_admit_audit_census", role: "Manifold SEC-GW-AUDIT four-path admit stamp census", wired: true },
        SecGwAuditManifoldWireHop { ordinal: 4, surface: "umst-manifold::runtime::gate::sec_gw_wrap::gate_trust_wrap_census", role: "Upstream SEC-GW-WRAP seven-surface delegate fence", wired: true },
        SecGwAuditManifoldWireHop { ordinal: 5, surface: "umst-gateway::lib_adopt_e_gateway_audit::record_admit_gate_verdict_audit", role: "Gateway stamped GateVerdict JSONL admit record delegate (Y51/Z87)", wired: true },
        SecGwAuditManifoldWireHop { ordinal: 6, surface: "umst-gateway::lib_adopt_e_gateway_audit::GATEWAY_AUDIT_AUTO_STAMP_PATHS", role: "Four-path auto-stamp inventory (informational/embodied/material/semantic)", wired: true },
        SecGwAuditManifoldWireHop { ordinal: 7, surface: "umst-gateway::sec_gw_audit_swarm_rotate::bounded_jsonl_rotation", role: "Operator JSONL bounded rotation ceremony", wired: false },
        SecGwAuditManifoldWireHop { ordinal: 8, surface: "umst-gateway::lib_adopt_e_gateway_audit::resolve_admit_warrant_from_env", role: "Live UMST_GATEWAY_AUDIT_TRUST_CHAIN_ROOT operator measure", wired: false },
    ]
}

/// Manifold SEC-GW-AUDIT gate runtime wire map (cold-edge evidence to admit-audit census).
pub fn manifold_sec_gw_audit_wire_hops() -> (r: Vec<SecGwAuditManifoldWireHop>)
    ensures
        r@ == wire_hops_spec(),
{
    let r = vec![
        SecGwAuditManifoldWireHop { ordinal: 1, surface: "umst-manifold::runtime::gate::evidence::AdmissibilityToken", role: "Gate admit witness token on cold edge", wired: true },
        SecGwAuditManifoldWireHop { ordinal: 2, surface: "umst-manifold::runtime::gate::cartridge::GateCartridge::transition_evidence", role: "CdTransitionCartridge structured witness", wired: true },
        SecGwAuditManifoldWireHop { ordinal: 3, surface: "umst-manifold::runtime::gate::sec_gw_audit::gate_admit_audit_census", role: "Manifold SEC-GW-AUDIT four-path admit stamp census", wired: true },
        SecGwAuditManifoldWireHop { ordinal: 4, surface: "umst-manifold::runtime::gate::sec_gw_wrap::gate_trust_wrap_census", role: "Upstream SEC-GW-WRAP seven-surface delegate fence", wired: true },
        SecGwAuditManifoldWireHop { ordinal: 5, surface: "umst-gateway::lib_adopt_e_gateway_audit::record_admit_gate_verdict_audit", role: "Gateway stamped GateVerdict JSONL admit record delegate (Y51/Z87)", wired: true },
        SecGwAuditManifoldWireHop { ordinal: 6, surface: "umst-gateway::lib_adopt_e_gateway_audit::GATEWAY_AUDIT_AUTO_STAMP_PATHS", role: "Four-path auto-stamp inventory (informational/embodied/material/semantic)", wired: true },
        SecGwAuditManifoldWireHop { ordinal: 7, surface: "umst-gateway::sec_gw_audit_swarm_rotate::bounded_jsonl_rotation", role: "Operator JSONL bounded rotation ceremony", wired: false },
        SecGwAuditManifoldWireHop { ordinal: 8, surface: "umst-gateway::lib_adopt_e_gateway_audit::resolve_admit_warrant_from_env", role: "Live UMST_GATEWAY_AUDIT_TRUST_CHAIN_ROOT operator measure", wired: false },
    ];
    assert(r@ =~= wire_hops_spec());
    r
}

/// One gateway admit-audit auto-stamp path pinned at the manifold boundary.
#[derive(Debug, Clone, Copy, PartialEq, Eq)]
pub struct ManifoldGwAuditAdmitStampPath {
    /// Ordinal (1-based).
    pub ordinal: u8,
    /// Stable path identifier (gateway auto-stamp path row).
    pub path_id: &'static str,
    /// Owning gateway route surface.
    pub route_surface: &'static str,
    /// Wave that wired auto-stamp at the gateway delegate.
    pub wired_by_wave: &'static str,
    /// Whether the manifold census enumerates this path today.
    pub census_hit: bool,
}

/// Four-path gateway admit auto-stamp inventory (pinned from the Y51+Z87 gateway SSOT).
pub open spec fn stamp_paths_spec() -> Seq<ManifoldGwAuditAdmitStampPath> {
    seq![
        ManifoldGwAuditAdmitStampPath { ordinal: 1, path_id: "informational_stdio_delegate", route_surface: "umst-gateway::informational_stdio_route", wired_by_wave: "Y51", census_hit: true },
        ManifoldGwAuditAdmitStampPath { ordinal: 2, path_id: "embodied_gate_check", route_surface: "umst-gateway::embodied_route_consumer", wired_by_wave: "Y51", census_hit: true },
        ManifoldGwAuditAdmitStampPath { ordinal: 3, path_id: "material_mcp_delegate", route_surface: "umst-gateway::sec_mcp_wrap::admit_mcp_tool_call", wired_by_wave: "Z87", census_hit: true },
        ManifoldGwAuditAdmitStampPath { ordinal: 4, path_id: "semantic_stub_delegate", route_surface: "umst-gateway::semantic_wrap_consumer::gate_check_semantic", wired_by_wave: "Z87", census_hit: true },
    ]
}

/// Four-path gateway admit auto-stamp inventory (pinned from the Y51+Z87 gateway SSOT).
pub fn manifold_gw_audit_admit_stamp_paths() -> (r: Vec<ManifoldGwAuditAdmitStampPath>)
    ensures
        r@ == stamp_paths_spec(),
{
    let r = vec![
        ManifoldGwAuditAdmitStampPath { ordinal: 1, path_id: "informational_stdio_delegate", route_surface: "umst-gateway::informational_stdio_route", wired_by_wave: "Y51", census_hit: true },
        ManifoldGwAuditAdmitStampPath { ordinal: 2, path_id: "embodied_gate_check", route_surface: "umst-gateway::embodied_route_consumer", wired_by_wave: "Y51", census_hit: true },
        ManifoldGwAuditAdmitStampPath { ordinal: 3, path_id: "material_mcp_delegate", route_surface: "umst-gateway::sec_mcp_wrap::admit_mcp_tool_call", wired_by_wave: "Z87", census_hit: true },
        ManifoldGwAuditAdmitStampPath { ordinal: 4, path_id: "semantic_stub_delegate", route_surface: "umst-gateway::semantic_wrap_consumer::gate_check_semantic", wired_by_wave: "Z87", census_hit: true },
    ];
    assert(r@ =~= stamp_paths_spec());
    r
}

/// One stamped GateVerdict leg pinned at the manifold census boundary.
#[derive(Debug, Clone, Copy, PartialEq, Eq)]
pub struct ManifoldGwAuditStampLeg {
    /// Ordinal (1-based).
    pub ordinal: u8,
    /// Leg field name in the stamped JSONL row.
    pub leg_id: &'static str,
    /// Whether the census enumerates this leg today.
    pub census_hit: bool,
}

/// Stamp legs of `record_admit_gate_verdict_audit` (Y51 deepen).
pub open spec fn stamp_legs_spec() -> Seq<ManifoldGwAuditStampLeg> {
    seq![
        ManifoldGwAuditStampLeg { ordinal: 1, leg_id: "ucrs_seq", census_hit: true },
        ManifoldGwAuditStampLeg { ordinal: 2, leg_id: "trust_attestation", census_hit: true },
    ]
}

/// Stamp legs of `record_admit_gate_verdict_audit` (Y51 deepen).
pub fn manifold_gw_audit_stamp_legs() -> (r: Vec<ManifoldGwAuditStampLeg>)
    ensures
        r@ == stamp_legs_spec(),
{
    let r = vec![
        ManifoldGwAuditStampLeg { ordinal: 1, leg_id: "ucrs_seq", census_hit: true },
        ManifoldGwAuditStampLeg { ordinal: 2, leg_id: "trust_attestation", census_hit: true },
    ];
    assert(r@ =~= stamp_legs_spec());
    r
}

/// Selects the wired hops of a wire map.
pub open spec fn hop_is_wired() -> spec_fn(SecGwAuditManifoldWireHop) -> bool {
    |h: SecGwAuditManifoldWireHop| h.wired
}

/// Six of the eight gate wire hops are wired today.
pub proof fn lemma_wire_hops_wired_count()
    ensures
        count_where(wire_hops_spec(), hop_is_wired()) == 6,
{
    let s = wire_hops_spec();
    let p = hop_is_wired();
    assert(s.take(0) =~= Seq::<SecGwAuditManifoldWireHop>::empty());
    lemma_count_step(s, p, 0);
    lemma_count_step(s, p, 1);
    lemma_count_step(s, p, 2);
    lemma_count_step(s, p, 3);
    lemma_count_step(s, p, 4);
    lemma_count_step(s, p, 5);
    lemma_count_step(s, p, 6);
    lemma_count_step(s, p, 7);
    lemma_take_all(s);
}

/// Count the wired hops of a wire map.
pub fn count_wired_hops(items: &Vec<SecGwAuditManifoldWireHop>) -> (r: usize)
    ensures
        r == count_where(items@, hop_is_wired()),
{
    let mut n: usize = 0;
    let mut i: usize = 0;
    while i < items.len()
        invariant
            i <= items.len(),
            n == count_where(items@.take(i as int), hop_is_wired()),
            n <= i,
        decreases items.len() - i,
    {
        proof {
            lemma_count_step(items@, hop_is_wired(), i as int);
        }
        if items[i].wired {
            n = n + 1;
        }
        i = i + 1;
    }
    proof {
        lemma_take_all(items@);
    }
    n
}

/// The pinned receipt paths and the non-claim text carry the markers the census checks for.
pub proof fn lemma_ssot_pins()
    ensures
        seq_contains(PRIOR_RECEIPT_PATH_Y51@, "Y51"@),
        seq_contains(PRIOR_RECEIPT_PATH_Z87@, "Z87"@),
        seq_contains(PRIOR_RECEIPT_PATH_Z08@, "Z08"@),
        seq_contains(PRIOR_RECEIPT_PATH_P1710_F1@, "F1"@),
        seq_contains(NON_CLAIM@, "not GREEN"@),
        seq_contains(NON_CLAIM@, "not PRODUCTION_WIRED"@),
        seq_contains(NON_CLAIM@, "not MASTER"@),
        seq_contains(NON_CLAIM@, "not OP-5"@),
{
    reveal_strlit("outputs/.tmp/COMPOSER_Y51_0808.md");
    reveal_strlit("Y51");
    reveal_strlit("outputs/.tmp/COMPOSER_Z87_1232.md");
    reveal_strlit("Z87");
    reveal_strlit("outputs/.tmp/COMPOSER_Z08_0928.md");
    reveal_strlit("Z08");
    reveal_strlit("outputs/.tmp/COMPOSER_P1710_F1.md");
    reveal_strlit("F1");
    reveal_strlit("not GREEN; not PRODUCTION_WIRED; not MASTER; not OP-5; JSONL rotation + trust-chain env remain OPEN");
    reveal_strlit("not GREEN");
    reveal_strlit("not PRODUCTION_WIRED");
    reveal_strlit("not MASTER");
    reveal_strlit("not OP-5");
    assert(PRIOR_RECEIPT_PATH_Y51@.subrange(22, 25) =~= "Y51"@);
    assert(matches_at(PRIOR_RECEIPT_PATH_Y51@, "Y51"@, 22));
    assert(PRIOR_RECEIPT_PATH_Z87@.subrange(22, 25) =~= "Z87"@);
    assert(matches_at(PRIOR_RECEIPT_PATH_Z87@, "Z87"@, 22));
    assert(PRIOR_RECEIPT_PATH_Z08@.subrange(22, 25) =~= "Z08"@);
    assert(matches_at(PRIOR_RECEIPT_PATH_Z08@, "Z08"@, 22));
    assert(PRIOR_RECEIPT_PATH_P1710_F1@.subrange(28, 30) =~= "F1"@);
    assert(matches_at(PRIOR_RECEIPT_PATH_P1710_F1@, "F1"@, 28));
    assert(NON_CLAIM@.subrange(0, 9) =~= "not GREEN"@);
    assert(matches_at(NON_CLAIM@, "not GREEN"@, 0));
    assert(NON_CLAIM@.subrange(11, 31) =~= "not PRODUCTION_WIRED"@);
    assert(matches_at(NON_CLAIM@, "not PRODUCTION_WIRED"@, 11));
    assert(NON_CLAIM@.subrange(33, 43) =~= "not MASTER"@);
    assert(matches_at(NON_CLAIM@, "not MASTER"@, 33));
    assert(NON_CLAIM@.subrange(45, 53) =~= "not OP-5"@);
    assert(matches_at(NON_CLAIM@, "not OP-5"@, 45));
}

/// Exercise gate cold-edge evidence at the manifold SSOT (the identity transition admits).
pub fn gate_transition_evidence_probe(evidence: &TransitionEvidence) -> (r: bool)
    ensures
        r == witness_admits(*evidence),
{
    cold_edge_witness_admits(evidence)
}

/// Whether the live gateway admit-audit production flip is plumbed (honest `false`).
pub fn sec_gw_audit_production_wired() -> (r: bool)
    ensures
        !r,
{
    false
}

/// W29-117 honesty fence — GREEN / PRODUCTION / MASTER / OP-5 refused.
#[derive(Debug, Clone, Copy, PartialEq, Eq)]
pub struct SecGwAuditHonestyFence {
    /// Deepen step cell id.
    pub deepen_step: &'static str,
    /// Physics GREEN invent — must stay false.
    pub physics_green: bool,
    /// Production flip — must stay false.
    pub production_wired: bool,
    /// MASTER retick invent — must stay false.
    pub master_retick_eligible: bool,
    /// OP-5 invent — must stay false.
    pub op5_claimed: bool,
    /// GREEN claim blocked — must stay true.
    pub green_claim_blocked: bool,
    /// Live JSONL rotation — must stay false.
    pub jsonl_rotation_live: bool,
    /// Live trust-chain measure — must stay false.
    pub live_trust_chain_measured: bool,
}

/// The fence condition: invent flags stay false, GREEN stays blocked and the deepen step is
/// named.
pub open spec fn fence_holds_spec(f: SecGwAuditHonestyFence) -> bool {
    &&& !f.physics_green
    &&& !f.production_wired
    &&& !f.master_retick_eligible
    &&& !f.op5_claimed
    &&& f.green_claim_blocked
    &&& !f.jsonl_rotation_live
    &&& !f.live_trust_chain_measured
    &&& f.deepen_step@.len() > 0
}

impl SecGwAuditHonestyFence {
    /// Measured honesty posture for this module.
    pub fn measured() -> (r: Self)
        ensures
            r.deepen_step == W29_117_SEC_GW_AUDIT_DEEPEN_STEP,
            !r.physics_green,
            !r.production_wired,
            !r.master_retick_eligible,
            !r.op5_claimed,
            r.green_claim_blocked,
            !r.jsonl_rotation_live,
            !r.live_trust_chain_measured,
    {
        SecGwAuditHonestyFence {
            deepen_step: W29_117_SEC_GW_AUDIT_DEEPEN_STEP,
            physics_green: SEC_GW_AUDIT_PHYSICS_GREEN,
            production_wired: sec_gw_audit_production_wired(),
            master_retick_eligible: SEC_GW_AUDIT_MASTER_RETICK_ELIGIBLE,
            op5_claimed: SEC_GW_AUDIT_OP5_CLAIMED,
            green_claim_blocked: GW_AUDIT_GREEN_CLAIM_BLOCKED,
            jsonl_rotation_live: JSONL_ROTATION_LIVE_HONEST,
            live_trust_chain_measured: LIVE_TRUST_CHAIN_MEASURED_HONEST,
        }
    }

    /// Fence holds when the invent flags stay false and GREEN remains blocked.
    pub fn holds(self) -> (r: bool)
        ensures
            r == fence_holds_spec(self),
    {
        !self.physics_green && !self.production_wired && !self.master_retick_eligible
            && !self.op5_claimed && self.green_claim_blocked && !self.jsonl_rotation_live
            && !self.live_trust_chain_measured && !self.deepen_step.is_empty()
    }
}

/// The measured fence holds.
pub proof fn lemma_measured_fence_holds(f: SecGwAuditHonestyFence)
    requires
        f.deepen_step == W29_117_SEC_GW_AUDIT_DEEPEN_STEP,
        !f.physics_green,
        !f.production_wired,
        !f.master_retick_eligible,
        !f.op5_claimed,
        f.green_claim_blocked,
        !f.jsonl_rotation_live,
        !f.live_trust_chain_measured,
    ensures
        fence_holds_spec(f),
{
    reveal_strlit("W29-117-SEC_GW_AUDIT");
}

/// Whether all four gateway admit auto-stamp paths are enumerated at the manifold boundary.
pub fn manifold_gw_audit_all_stamp_paths_probed() -> (r: bool)
    ensures
        r,
{
    let items = manifold_gw_audit_admit_stamp_paths();
    let mut all = true;
    let mut i: usize = 0;
    while i < items.len()
        invariant
            items@ == stamp_paths_spec(),
            i <= items.len(),
            all,
        decreases items.len() - i,
    {
        assert(items@[i as int].census_hit);
        all = all && items[i].census_hit;
        i = i + 1;
    }
    items.len() == ADMIT_STAMP_PATH_COUNT && all
}

/// Whether both stamp legs are enumerated at the manifold boundary.
pub fn manifold_gw_audit_stamp_legs_complete() -> (r: bool)
    ensures
        r,
{
    let items = manifold_gw_audit_stamp_legs();
    let mut all = true;
    let mut i: usize = 0;
    while i < items.len()
        invariant
            items@ == stamp_legs_spec(),
            i <= items.len(),
            all,
        decreases items.len() - i,
    {
        assert(items@[i as int].census_hit);
        all = all && items[i].census_hit;
        i = i + 1;
    }
    items.len() == STAMP_LEG_COUNT && all
}

/// Verify the upstream SEC-GW-WRAP delegate ceremony at the manifold boundary: it closes
/// exactly when the cold-edge evidence admits and the S-4 fuzz corpus is honest.
pub fn manifold_verify_upstream_gw_wrap_delegate(gate_evidence_wired: bool) -> (r: bool)
    ensures
        r == (gate_evidence_wired && fuzz_corpus_honest()),
{
    manifold_gate_sec_gw_wrap_ceremony_closed(gate_evidence_wired) && gate_trust_wrap_census(
        gate_evidence_wired,
    ).gate_evidence_wired && manifold_gw_wrap_all_admit_surfaces_probed()
}

/// Aggregated SEC-GW-AUDIT gate admit-audit census on the manifold boundary.
#[derive(Debug, Clone, Copy, PartialEq, Eq)]
pub struct SecGwAuditManifoldAdmitCensus {
    /// Census schema tag.
    pub schema_version: &'static str,
    /// Board slice id.
    pub board_slice_id: &'static str,
    /// Gate transition evidence probe passed.
    pub gate_evidence_wired: bool,
    /// Four admit stamp paths enumerated.
    pub admit_stamp_path_count: usize,
    /// All four admit stamp paths probed in the census.
    pub all_admit_stamp_paths_probed: bool,
    /// Stamp leg count (2/2).
    pub stamp_leg_count: usize,
    /// Delegate residual path count (Z87 honest 0).
    pub delegate_residual_path_count: usize,
    /// Upstream SEC-GW-WRAP ceremony closed.
    pub upstream_gw_wrap_ceremony_closed: bool,
    /// Gateway stamp helpers exported — honest true (not the live ceremony).
    pub gateway_stamp_helpers_wired: bool,
    /// Live JSONL rotation — honest false.
    pub jsonl_rotation_live: bool,
    /// Live trust chain measured — honest false.
    pub live_trust_chain_measured: bool,
    /// SEC-GW-AUDIT GREEN claim blocked.
    pub gw_audit_green_claim_blocked: bool,
    /// Manifold production flip.
    pub production_wired: bool,
    /// Wired hop count.
    pub wire_hop_wired_count: u8,
}

/// Build the manifold SEC-GW-AUDIT gate admit-audit census from live measurements.
pub fn gate_admit_audit_census(gate_evidence_wired: bool) -> (r: SecGwAuditManifoldAdmitCensus)
    ensures
        r.schema_version == SCHEMA_VERSION,
        r.board_slice_id == BOARD_SLICE_ID,
        r.gate_evidence_wired == gate_evidence_wired,
        r.admit_stamp_path_count == ADMIT_STAMP_PATH_COUNT,
        r.all_admit_stamp_paths_probed,
        r.stamp_leg_count == STAMP_LEG_COUNT,
        r.delegate_residual_path_count == DELEGATE_RESIDUAL_PATH_COUNT,
        r.upstream_gw_wrap_ceremony_closed == (gate_evidence_wired && fuzz_corpus_honest()),
        r.gateway_stamp_helpers_wired,
        !r.jsonl_rotation_live,
        !r.live_trust_chain_measured,
        r.gw_audit_green_claim_blocked,
        !r.production_wired,
        r.wire_hop_wired_count == WIRE_HOP_WIRED_COUNT_HONEST,
{
    let hops = manifold_sec_gw_audit_wire_hops();
    let wired = count_wired_hops(&hops);
    proof {
        lemma_wire_hops_wired_count();
    }
    SecGwAuditManifoldAdmitCensus {
        schema_version: SCHEMA_VERSION,
        board_slice_id: BOARD_SLICE_ID,
        gate_evidence_wired,
        admit_stamp_path_count: ADMIT_STAMP_PATH_COUNT,
        all_admit_stamp_paths_probed: manifold_gw_audit_all_stamp_paths_probed(),
        stamp_leg_count: manifold_gw_audit_stamp_legs().len(),
        delegate_residual_path_count: DELEGATE_RESIDUAL_PATH_COUNT,
        upstream_gw_wrap_ceremony_closed: manifold_gate_sec_gw_wrap_ceremony_closed(gate_evidence_wired),
        gateway_stamp_helpers_wired: GATEWAY_AUDIT_STAMP_HELPERS_WIRED_HONEST,
        jsonl_rotation_live: JSONL_ROTATION_LIVE_HONEST,
        live_trust_chain_measured: LIVE_TRUST_CHAIN_MEASURED_HONEST,
        gw_audit_green_claim_blocked: GW_AUDIT_GREEN_CLAIM_BLOCKED,
        production_wired: sec_gw_audit_production_wired(),
        wire_hop_wired_count: wired as u8,
    }
}

/// Whether the manifold gate SEC-GW-AUDIT ceremony is closed at census tier: the four-path
/// stamp census and the upstream SEC-GW-WRAP delegate are measured wired, so it is closed
/// exactly when the cold-edge evidence admits and the S-4 fuzz corpus is honest. Live JSONL
/// rotation and the operator trust-chain env are explicit non-blockers.
pub fn manifold_gate_sec_gw_audit_ceremony_closed(gate_evidence_wired: bool) -> (r: bool)
    ensures
        r == (gate_evidence_wired && fuzz_corpus_honest()),
{
    let census = gate_admit_audit_census(gate_evidence_wired);
    let fence = SecGwAuditHonestyFence::measured();
    proof {
        lemma_measured_fence_holds(fence);
    }
    census.gate_evidence_wired && census.admit_stamp_path_count == ADMIT_STAMP_PATH_COUNT
        && census.all_admit_stamp_paths_probed && census.stamp_leg_count == STAMP_LEG_COUNT
        && census.delegate_residual_path_count == DELEGATE_RESIDUAL_PATH_COUNT
        && census.upstream_gw_wrap_ceremony_closed && census.gateway_stamp_helpers_wired
        && !census.jsonl_rotation_live && !census.live_trust_chain_measured
        && census.gw_audit_green_claim_blocked && !census.production_wired
        && census.wire_hop_wired_count == WIRE_HOP_WIRED_COUNT_HONEST && fence.holds()
        && !SEC_GW_AUDIT_PHYSICS_GREEN && !SEC_GW_AUDIT_MASTER_RETICK_ELIGIBLE
        && !SEC_GW_AUDIT_OP5_CLAIMED && manifold_gw_audit_all_stamp_paths_probed()
        && manifold_gw_audit_stamp_legs_complete() && manifold_verify_upstream_gw_wrap_delegate(
        gate_evidence_wired,
    ) && gate_evidence_wired
}

/// Honesty probe for the W29-117 deepen: the fence holds, the non-claim refuses every invent
/// claim and the census ceremony is closed at the cold-edge tier.
pub fn sec_gw_audit_honesty_probe(gate_evidence_wired: bool) -> (r: bool)
    ensures
        r == (gate_evidence_wired && fuzz_corpus_honest()),
{
    let fence = SecGwAuditHonestyFence::measured();
    proof {
        lemma_measured_fence_holds(fence);
        lemma_ssot_pins();
    }
    fence.holds() && str_contains(NON_CLAIM, "not GREEN") && str_contains(NON_CLAIM, "not PRODUCTION_WIRED")
        && str_contains(NON_CLAIM, "not MASTER") && str_contains(NON_CLAIM, "not OP-5")
        && manifold_gate_sec_gw_audit_ceremony_closed(gate_evidence_wired) && gate_evidence_wired
}

/// Typed probe for SEC-GW-AUDIT manifold gate closure honesty.
#[derive(Debug, Clone, Copy, PartialEq, Eq, Structural)]
pub struct SecGwAuditManifoldProbe {
    /// Gate transition evidence probe.
    pub gate_evidence_wired: bool,
    /// Four admit stamp paths probed.
    pub all_admit_stamp_paths_probed: bool,
    /// Stamp legs complete.
    pub stamp_legs_complete: bool,
    /// Upstream GW-WRAP delegate verified.
    pub upstream_gw_wrap_verified: bool,
    /// GREEN claim blocked.
    pub gw_audit_green_claim_blocked: bool,
    /// Production flip honest false.
    pub production_honest_false: bool,
    /// Physics GREEN invent refused.
    pub physics_green_honest_false: bool,
    /// MASTER retick invent refused.
    pub master_retick_honest_false: bool,
    /// OP-5 invent refused.
    pub op5_honest_false: bool,
    /// W29-117 honesty fence holds.
    pub honesty_fence_holds: bool,
    /// Manifold wire hop wired count.
    pub wire_hop_wired_count: u8,
    /// Manifold ceremony close predicate.
    pub ceremony_closed: bool,
}

/// The manifold probe measured for a given cold-edge outcome.
pub open spec fn manifold_probe_spec(gate_evidence_wired: bool) -> SecGwAuditManifoldProbe {
    SecGwAuditManifoldProbe {
        gate_evidence_wired,
        all_admit_stamp_paths_probed: true,
        stamp_legs_complete: true,
        upstream_gw_wrap_verified: gate_evidence_wired && fuzz_corpus_honest(),
        gw_audit_green_claim_blocked: true,
        production_honest_false: true,
        physics_green_honest_false: true,
        master_retick_honest_false: true,
        op5_honest_false: true,
        honesty_fence_holds: true,
        wire_hop_wired_count: 6,
        ceremony_closed: gate_evidence_wired && fuzz_corpus_honest(),
    }
}

/// Build the introspection probe for SEC-GW-AUDIT done-when checks.
pub fn sec_gw_audit_manifold_probe(gate_evidence_wired: bool) -> (r: SecGwAuditManifoldProbe)
    ensures
        r == manifold_probe_spec(gate_evidence_wired),
{
    let census = gate_admit_audit_census(gate_evidence_wired);
    let fence = SecGwAuditHonestyFence::measured();
    proof {
        lemma_measured_fence_holds(fence);
    }
    SecGwAuditManifoldProbe {
        gate_evidence_wired: census.gate_evidence_wired,
        all_admit_stamp_paths_probed: census.all_admit_stamp_paths_probed,
        stamp_legs_complete: manifold_gw_audit_stamp_legs_complete(),
        upstream_gw_wrap_verified: manifold_verify_upstream_gw_wrap_delegate(gate_evidence_wired),
        gw_audit_green_claim_blocked: census.gw_audit_green_claim_blocked,
        production_honest_false: !census.production_wired,
        physics_green_honest_false: !fence.physics_green,
        master_retick_honest_false: !fence.master_retick_eligible,
        op5_honest_false: !fence.op5_claimed,
        honesty_fence_holds: fence.holds(),
        wire_hop_wired_count: census.wire_hop_wired_count,
        ceremony_closed: manifold_gate_sec_gw_audit_ceremony_closed(gate_evidence_wired),
    }
}

/// FLEET-COMPOSER ACCEL-B AC31 integration probe.
#[derive(Debug, Clone, Copy, PartialEq, Eq)]
pub struct SecGwAuditAccel2Ac31Probe {
    /// AC31 fleet card id.
    pub ac31_job_id: &'static str,
    /// Prior Y51 stamped admit-path absorbed.
    pub prior_y51_absorbed: bool,
    /// Prior Z87 delegate stamp closure absorbed.
    pub prior_z87_absorbed: bool,
    /// Prior Z08 resume absorbed.
    pub prior_z08_absorbed: bool,
    /// Prior P1710 F1 swarm rotate absorbed.
    pub prior_p1710_f1_absorbed: bool,
    /// Manifold ceremony close predicate.
    pub ceremony_closed: bool,
    /// Underlying gate probe.
    pub probe: SecGwAuditManifoldProbe,
    /// Production flip — honest false.
    pub production_wired: bool,
    /// Admit stamp path census count.
    pub admit_stamp_path_count: usize,
    /// Delegate residual path count.
    pub delegate_residual_path_count: usize,
}

/// Build the FLEET-COMPOSER ACCEL-B AC31 integration probe from live measurements.
pub fn sec_gw_audit_accel2_ac31_probe(gate_evidence_wired: bool) -> (r: SecGwAuditAccel2Ac31Probe)
    ensures
        r.ac31_job_id == FLEET_ACCEL2_AC31_JOB_ID,
        r.prior_y51_absorbed,
        r.prior_z87_absorbed,
        r.prior_z08_absorbed,
        r.prior_p1710_f1_absorbed,
        r.ceremony_closed == (gate_evidence_wired && fuzz_corpus_honest()),
        r.probe == manifold_probe_spec(gate_evidence_wired),
        !r.production_wired,
        r.admit_stamp_path_count == ADMIT_STAMP_PATH_COUNT,
        r.delegate_residual_path_count == DELEGATE_RESIDUAL_PATH_COUNT,
{
    let census = gate_admit_audit_census(gate_evidence_wired);
    proof {
        lemma_ssot_pins();
    }
    SecGwAuditAccel2Ac31Probe {
        ac31_job_id: FLEET_ACCEL2_AC31_JOB_ID,
        prior_y51_absorbed: str_contains(PRIOR_RECEIPT_PATH_Y51, "Y51"),
        prior_z87_absorbed: str_contains(PRIOR_RECEIPT_PATH_Z87, "Z87"),
        prior_z08_absorbed: str_contains(PRIOR_RECEIPT_PATH_Z08, "Z08"),
        prior_p1710_f1_absorbed: str_contains(PRIOR_RECEIPT_PATH_P1710_F1, "F1"),
        ceremony_closed: manifold_gate_sec_gw_audit_ceremony_closed(gate_evidence_wired),
        probe: sec_gw_audit_manifold_probe(gate_evidence_wired),
        production_wired: sec_gw_audit_production_wired(),
        admit_stamp_path_count: census.admit_stamp_path_count,
        delegate_residual_path_count: census.delegate_residual_path_count,
    }
}

/// FLEET-COMPOSER ACCEL-B AC31 honesty gate — ceremony closed and production false; honest
/// exactly when the cold-edge evidence admits and the S-4 fuzz corpus is honest.
pub fn sec_gw_audit_accel2_ac31_honest(gate_evidence_wired: bool) -> (r: bool)
    ensures
        r == (gate_evidence_wired && fuzz_corpus_honest()),
{
    let probe = sec_gw_audit_accel2_ac31_probe(gate_evidence_wired);
    str_eq(probe.ac31_job_id, FLEET_ACCEL2_AC31_JOB_ID) && probe.prior_y51_absorbed
        && probe.prior_z87_absorbed && probe.prior_z08_absorbed && probe.prior_p1710_f1_absorbed
        && probe.ceremony_closed && probe.probe.gate_evidence_wired
        && probe.probe.all_admit_stamp_paths_probed && probe.probe.stamp_legs_complete
        && probe.probe.upstream_gw_wrap_verified && probe.probe.gw_audit_green_claim_blocked
        && probe.probe.production_honest_false && probe.probe.physics_green_honest_false
        && probe.probe.master_retick_honest_false && probe.probe.op5_honest_false
        && probe.probe.honesty_fence_holds
        && probe.probe.wire_hop_wired_count == WIRE_HOP_WIRED_COUNT_HONEST
        && !probe.production_wired && probe.admit_stamp_path_count == ADMIT_STAMP_PATH_COUNT
        && probe.delegate_residual_path_count == DELEGATE_RESIDUAL_PATH_COUNT
}

/// Validate SEC-GW-AUDIT gate census honesty, failing closed on fake persistence or
/// production claims: it refuses with the evidence error when the cold-edge evidence does not
/// admit, with the upstream SEC-GW-WRAP error when the S-4 fuzz corpus is not honest, and
/// passes otherwise.
pub fn validate_sec_gw_audit_honesty(gate_evidence_wired: bool) -> (r: Result<(), &'static str>)
    ensures
        !gate_evidence_wired ==> r == Err::<(), &'static str>("gate transition evidence probe failed"),
        gate_evidence_wired && !fuzz_corpus_honest() ==> r == Err::<(), &'static str>("upstream SEC-GW-WRAP ceremony must be closed"),
        gate_evidence_wired && fuzz_corpus_honest() ==> r == Ok::<(), &'static str>(()),
{
    let census = gate_admit_audit_census(gate_evidence_wired);
    let fence = SecGwAuditHonestyFence::measured();
    proof {
        lemma_measured_fence_holds(fence);
        lemma_ssot_pins();
    }
    if !str_eq(fence.deepen_step, W29_117_SEC_GW_AUDIT_DEEPEN_STEP) {
        return Err("W29-117 deepen step id drift");
    }
    if !fence.holds() {
        return Err("sec_gw_audit honesty fence must hold (no invent GREEN/PRODUCTION/MASTER/OP-5)");
    }
    if fence.physics_green || SEC_GW_AUDIT_PHYSICS_GREEN {
        return Err("SEC_GW_AUDIT_PHYSICS_GREEN must stay false — census ≠ fleet physics");
    }
    if fence.master_retick_eligible || SEC_GW_AUDIT_MASTER_RETICK_ELIGIBLE {
        return Err("SEC_GW_AUDIT_MASTER_RETICK_ELIGIBLE must stay false — no invent MASTER");
    }
    if fence.op5_claimed || SEC_GW_AUDIT_OP5_CLAIMED {
        return Err("SEC_GW_AUDIT_OP5_CLAIMED must stay false — no invent OP-5");
    }
    if census.production_wired {
        return Err("sec_gw_audit_production_wired must stay false until operator measure");
    }
    if census.jsonl_rotation_live {
        return Err("jsonl_rotation_live must stay false until live JSONL ceremony");
    }
    if census.live_trust_chain_measured {
        return Err("live_trust_chain_measured must stay false until UMST_GATEWAY_AUDIT_TRUST_CHAIN_ROOT");
    }
    if !census.gw_audit_green_claim_blocked {
        return Err("gw_audit_green_claim_blocked must stay true in scaffold deepen");
    }
    if !census.gate_evidence_wired {
        return Err("gate transition evidence probe failed");
    }
    if census.admit_stamp_path_count != ADMIT_STAMP_PATH_COUNT {
        return Err("four gateway admit stamp paths expected");
    }
    if !census.all_admit_stamp_paths_probed {
        return Err("all four admit stamp paths must be probed");
    }
    if census.stamp_leg_count != STAMP_LEG_COUNT {
        return Err("two stamp legs expected");
    }
    if census.delegate_residual_path_count != DELEGATE_RESIDUAL_PATH_COUNT {
        return Err("delegate residual path count must match Z87 honest 0");
    }
    if !census.upstream_gw_wrap_ceremony_closed {
        return Err("upstream SEC-GW-WRAP ceremony must be closed");
    }
    if manifold_sec_gw_audit_wire_hops().len() != WIRE_HOP_TOTAL_COUNT {
        return Err("eight SEC-GW-AUDIT gate wire hops expected");
    }
    if census.wire_hop_wired_count != WIRE_HOP_WIRED_COUNT_HONEST {
        return Err("six SEC-GW-AUDIT gate wire hops should be wired today");
    }
    if !str_contains(NON_CLAIM, "not GREEN") || !str_contains(NON_CLAIM, "not PRODUCTION_WIRED")
        || !str_contains(NON_CLAIM, "not MASTER") || !str_contains(NON_CLAIM, "not OP-5") {
        return Err("NON_CLAIM must refuse GREEN/PRODUCTION_WIRED/MASTER/OP-5");
    }
    if !manifold_gate_sec_gw_audit_ceremony_closed(gate_evidence_wired) {
        return Err("manifold gate SEC-GW-AUDIT ceremony must be closed at census tier");
    }
    if !sec_gw_audit_honesty_probe(gate_evidence_wired) {
        return Err("W29-117 honesty probe must pass");
    }
    if !sec_gw_audit_accel2_ac31_honest(gate_evidence_wired) {
        return Err("ACCEL-B AC31 probe must be honest");
    }
    Ok(())
}

/// One rendered line of the SEC-GW-AUDIT gate wire map.
pub open spec fn hop_row_text() -> spec_fn(SecGwAuditManifoldWireHop) -> Seq<char> {
    |hop: SecGwAuditManifoldWireHop| "  "@ + decimal(hop.ordinal as nat) + " wired="@ + bool_text(hop.wired) + " "@ + hop.surface@ + " ["@ + hop.role@ + "]\n"@
}

/// A closing line of the SEC-GW-AUDIT gate wire map.
pub open spec fn wire_matrix_counts() -> Seq<char> {
    "  wired="@ + decimal(6 as nat) + "/"@ + decimal(8 as nat) + " admit_stamp_paths="@ + decimal(4 as nat) + " stamp_legs="@ + decimal(2 as nat) + " delegate_residuals="@ + decimal(0 as nat) + " gw_audit_green_claim_blocked="@ + bool_text(true) + " jsonl_rotation_live="@ + bool_text(false) + " live_trust_chain_measured="@ + bool_text(false) + " production_wired="@ + bool_text(false) + "\n"@
}

/// A closing line of the SEC-GW-AUDIT gate wire map.
pub open spec fn wire_matrix_ssots() -> Seq<char> {
    "  gateway_ssot="@ + GATEWAY_SSOT@ + "\n  gateway_swarm_ssot="@ + GATEWAY_SWARM_SSOT@ + "\n"@
}

/// The SEC-GW-AUDIT gate wire map, as rendered for operator receipts.
pub open spec fn wire_matrix_spec() -> Seq<char> {
    "SEC-GW-AUDIT manifold gate admit-audit wire map (AC31):\n"@ + wire_hops_spec().map_values(hop_row_text()).flatten() + wire_matrix_counts() + wire_matrix_ssots()
}

/// Render the SEC-GW-AUDIT gate wire map for operator receipts.
#[verifier::rlimit(60)]
pub fn sec_gw_audit_wire_matrix() -> (r: String)
    ensures
        r@ == wire_matrix_spec(),
{
    let hops_len = manifold_sec_gw_audit_wire_hops().len();
    let legs_len = manifold_gw_audit_stamp_legs().len();
    let wired = count_wired_hops(&manifold_sec_gw_audit_wire_hops());
    proof {
        lemma_wire_hops_wired_count();
    }
    let items = manifold_sec_gw_audit_wire_hops();
    let mut out = String::new();
    push_str(&mut out, "SEC-GW-AUDIT manifold gate admit-audit wire map (AC31):\n");
    let ghost header = out@;
    let mut i: usize = 0;
    while i < items.len()
        invariant
            i <= items.len(),
            items@ == wire_hops_spec(),
            out@ == header + items@.take(i as int).map_values(hop_row_text()).flatten(),
        decreases items.len() - i,
    {
        proof {
            lemma_flatten_step(items@, hop_row_text(), i as int);
        }
        let hop = items[i];
        push_str(&mut out, "  ");
        push_decimal(&mut out, hop.ordinal as u64);
        push_str(&mut out, " wired=");
        push_bool(&mut out, hop.wired);
        push_str(&mut out, " ");
        push_str(&mut out, hop.surface);
        push_str(&mut out, " [");
        push_str(&mut out, hop.role);
        push_str(&mut out, "]\n");
        assert(out@ == header + items@.take(i + 1).map_values(hop_row_text()).flatten());
        i = i + 1;
    }
    proof {
        lemma_take_all(items@);
    }
    push_str(&mut out, "  wired=");
    push_decimal(&mut out, wired as u64);
    push_str(&mut out, "/");
    push_decimal(&mut out, hops_len as u64);
    push_str(&mut out, " admit_stamp_paths=");
    push_decimal(&mut out, ADMIT_STAMP_PATH_COUNT as u64);
    push_str(&mut out, " stamp_legs=");
    push_decimal(&mut out, legs_len as u64);
    push_str(&mut out, " delegate_residuals=");
    push_decimal(&mut out, DELEGATE_RESIDUAL_PATH_COUNT as u64);
    push_str(&mut out, " gw_audit_green_claim_blocked=");
    push_bool(&mut out, GW_AUDIT_GREEN_CLAIM_BLOCKED);
    push_str(&mut out, " jsonl_rotation_live=");
    push_bool(&mut out, JSONL_ROTATION_LIVE_HONEST);
    push_str(&mut out, " live_trust_chain_measured=");
    push_bool(&mut out, LIVE_TRUST_CHAIN_MEASURED_HONEST);
    push_str(&mut out, " production_wired=");
    push_bool(&mut out, sec_gw_audit_production_wired());
    push_str(&mut out, "\n");
    push_str(&mut out, "  gateway_ssot=");
    push_str(&mut out, GATEWAY_SSOT);
    push_str(&mut out, "\n  gateway_swarm_ssot=");
    push_str(&mut out, GATEWAY_SWARM_SSOT);
    push_str(&mut out, "\n");
    assert(out@ =~= wire_matrix_spec());
    out
}

/// Next-hop surface for the operator trust-chain ceremony (gateway-owned).
pub fn sec_gw_audit_trust_chain_next_hop() -> (r: &'static str)
    ensures
        r@ == "umst-gateway/crates/umst-gateway/src/lib_adopt_e_gateway_audit.rs:resolve_admit_warrant_from_env"@,
{
    "umst-gateway/crates/umst-gateway/src/lib_adopt_e_gateway_audit.rs:resolve_admit_warrant_from_env"
}

} // verus!
