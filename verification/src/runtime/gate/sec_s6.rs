//! SEC-S6 — manifold gate runtime HCOM prov gateway fence wire map.
//!
//! The manifold gate runtime owns the cold-edge census bridging transition evidence to the
//! SEC-S6 HCOM prov gateway fence and the `s6_inspect` SSOT; the live operator attestation
//! ceremony and the HCOM prov gateway production flip stay honestly open.
//!
//! Census and HCOM prov gateway fence deepen only (W29-125): no physics or fleet GREEN, no
//! PRODUCTION_WIRED, no MASTER retick, no OP-5 PASS. Every census takes the measured outcome
//! of the cold-edge evidence probe (`gate_evidence_wired`).
use vstd::prelude::*;
use crate::text::{
    seq_contains, matches_at, str_eq, str_contains, string_contains, decimal, bool_text,
    push_str, push_bool, push_decimal, count_where, lemma_count_step, lemma_flatten_step,
    lemma_take_all, lemma_contains_entry, lemma_contains_extend,
};
use crate::runtime::gate::evidence::{TransitionEvidence, witness_admits, cold_edge_witness_admits};

verus! {

/// W29-125 swarm cell id (SEC-S6 honest-fence deepen).
pub const W29_125_CELL_ID: &'static str = "W29-125-SEC_S6";

/// W29-125 honest posture — manifold S-6 HCOM prov gateway fence census deepen only.
pub const W29_125_HONEST_POSTURE: &'static str = "SEC_S6_MANIFOLD_CENSUS_DEEPEN_ONLY";

/// W29-125 explicit non-claims (gate text).
pub const W29_125_NON_CLAIM: &'static str =
    "not GREEN; not OP-5 PASS; not production_wired; not MASTER_RETICK";

/// W29-125 deepen schema version.
pub const W29_125_DEEPEN_SCHEMA_VERSION: &'static str = "sec_s6_w29_125_honest_fence_v1";

/// Honest fence string for meta / fleet probes (GREEN / PRODUCTION / MASTER / OP-5 fenced).
pub const HONEST_FENCE: &'static str =
    "census_wired=true production_wired=false green_claim_blocked=true master_retick=false op5_cleared=false live_attestation_wired=false hcom_prov_gw_production_open=true";

/// Board slice id.
pub const BOARD_SLICE_ID: &'static str = "SEC-S6";

/// AGAP slot id (2033 S-6 upstream table deepen).
pub const JOB_ID: &'static str = "AGAP-2033-SEC-S6";

/// FLEET-COMPOSER ACCEL-B slot AC33 id (hcom prov gateway fence deepen).
pub const ACCEL_B_2050_AC33_JOB_ID: &'static str = "ACCEL-B-2050-AC33";

/// FLEET-COMPOSER ACCEL-B AC33 receipt path.
pub const ACCEL_AC33_RECEIPT_PATH: &'static str = "outputs/.tmp/COMPOSER_ACCEL2_AC33.md";

/// FLEET-COMPOSER-Z Z126 S-6 trust inspect receipt cross-ref.
pub const PRIOR_Z126_RECEIPT_PATH: &'static str = "outputs/.tmp/COMPOSER_Z126_1232.md";

/// FLEET-COMPOSER-H H55 S5 HCOM prov delegate receipt cross-ref.
pub const PRIOR_H55_RECEIPT_PATH: &'static str = "outputs/.tmp/COMPOSER_H55_2242.md";

/// FLEET-COMPOSER-J J34 S5 HCOM prov delegate receipt cross-ref.
pub const PRIOR_J34_RECEIPT_PATH: &'static str = "outputs/.tmp/COMPOSER_J34_2348.md";

/// Prior AGAP-2033 SEC-S6 upstream table receipt.
pub const PRIOR_RECEIPT_PATH_2033: &'static str =
    "old/residuals/residuals/misc-outputs-tmp/COMPLETION_AGAP_AGENT_SEC-S6_2033.md";

/// umst-trust S-6 inspect delegate SSOT (Z126 owner — absorb, do not redo).
pub const TRUST_SSOT: &'static str = "umst-foundations/crates/umst-trust/src/s6_inspect.rs";

/// umst-semantics SEC-HCOM-PROV authority SSOT.
pub const SEMANTICS_SSOT: &'static str =
    "umst-semantics/crates/umst-semantics/src/semantic_trust_provenance.rs";

/// Gateway SEC-HCOM-GW delegate SSOT (serial next-hop).
pub const GATEWAY_SSOT: &'static str = "umst-gateway/crates/umst-gateway/src/sec_hcom_prov_gw.rs";

/// egoff `:scert` capstone upstream probe owner.
pub const EGOFF_SCERT_SSOT: &'static str = "egoff/egoff/src/slices/14bis_f_S_6_scert_capstone.rs";

/// Honest adoption tier.
pub const POSTURE_TAG: &'static str = "manifold-gate-census-wired-not-production";

/// Census schema version (v2 absorbs the W29-125 honest-fence deepen).
pub const SCHEMA_VERSION: &'static str = "sec_s6_gate_hcom_prov_gateway_fence_census_v2";

/// Manifold SEC-S6 gate wire hop count (6 wired + 1 production open).
pub const MANIFOLD_SEC_S6_GATE_WIRE_HOP_COUNT: usize = 7;

/// Manifold SEC-S6 gate wire hops wired today (production hop stays open).
pub const MANIFOLD_SEC_S6_GATE_WIRE_WIRED_COUNT: usize = 6;

/// HCOM prov gateway delegate wire hop count.
pub const HCOM_PROV_GW_WIRE_HOP_COUNT: usize = 5;

/// S-6 inspect factor row count (Z126 six-row matrix).
pub const S6_INSPECT_FACTOR_COUNT: usize = 6;

/// SCERT upstream hw/l/zero/m slot count.
pub const SCERT_UPSTREAM_SLOT_COUNT: usize = 4;

/// Honest operator exit for `:scert --strict --paired` scaffold.
pub const SCERT_EXIT_NOT_WIRED: i32 = 2;

/// Live operator attestation ceremony wired — honest false.
pub const LIVE_ATTESTATION_WIRED_HONEST: bool = false;

/// S-Arc GREEN claim blocked — honest true in scaffold deepen.
pub const S6_GREEN_CLAIM_BLOCKED: bool = true;

/// Operator exit for `:trust gate-factors` — honest BLOCKED until SCERT capstone.
pub const EXPECTED_GATE_EXIT: &'static str = "BLOCKED";

/// One hop in the SEC-HCOM-PROV to gateway semantic admit delegate chain (manifold pin).
#[derive(Debug, Clone, Copy, PartialEq, Eq)]
pub struct ManifoldHcomProvGwFenceHop {
    /// Ordinal (1-based).
    pub ordinal: u8,
    /// Module or symbol surface.
    pub surface: &'static str,
    /// Role in the delegate chain.
    pub role: &'static str,
}

/// HCOM prov gateway fence hops pinned from the gateway delegate wire map.
pub open spec fn fence_hops_spec() -> Seq<ManifoldHcomProvGwFenceHop> {
    seq![
        ManifoldHcomProvGwFenceHop { ordinal: 1, surface: "umst-semantics/src/semantic_trust_provenance.rs::SemanticTrustAttestation", role: "SEC-HCOM-PROV trust attestation SSOT" },
        ManifoldHcomProvGwFenceHop { ordinal: 2, surface: "umst-gateway/src/sec_hcom_prov_gw.rs::enforce_hcom_prov_semantic_admit", role: "Gateway semantic admit — bind attestation trust to SEC-GW-WRAP surface" },
        ManifoldHcomProvGwFenceHop { ordinal: 3, surface: "umst-gateway/src/sec_gw_trust_wrap.rs::enforce_j2_semantic_production_admit", role: "SEC-GW-WRAP `check_admit_surface` at J2+semantic production compose" },
        ManifoldHcomProvGwFenceHop { ordinal: 4, surface: "umst-gateway/src/semantic_compose.rs::compose_j2_semantic_production_trust_stamped", role: "Production compose + trust stamp on semantic admit (JOINT-GATE)" },
        ManifoldHcomProvGwFenceHop { ordinal: 5, surface: "umst-gateway/src/semantic_compose.rs::semantic_conjunct_witness_id_with_trust_stamp", role: "Bind attestation chain root prefix into conjunct witness id on admit" },
    ]
}

/// HCOM prov gateway fence hops pinned from the gateway delegate wire map.
pub fn hcom_prov_gw_fence_hops() -> (r: Vec<ManifoldHcomProvGwFenceHop>)
    ensures
        r@ == fence_hops_spec(),
{
    let r = vec![
        ManifoldHcomProvGwFenceHop { ordinal: 1, surface: "umst-semantics/src/semantic_trust_provenance.rs::SemanticTrustAttestation", role: "SEC-HCOM-PROV trust attestation SSOT" },
        ManifoldHcomProvGwFenceHop { ordinal: 2, surface: "umst-gateway/src/sec_hcom_prov_gw.rs::enforce_hcom_prov_semantic_admit", role: "Gateway semantic admit — bind attestation trust to SEC-GW-WRAP surface" },
        ManifoldHcomProvGwFenceHop { ordinal: 3, surface: "umst-gateway/src/sec_gw_trust_wrap.rs::enforce_j2_semantic_production_admit", role: "SEC-GW-WRAP `check_admit_surface` at J2+semantic production compose" },
        ManifoldHcomProvGwFenceHop { ordinal: 4, surface: "umst-gateway/src/semantic_compose.rs::compose_j2_semantic_production_trust_stamped", role: "Production compose + trust stamp on semantic admit (JOINT-GATE)" },
        ManifoldHcomProvGwFenceHop { ordinal: 5, surface: "umst-gateway/src/semantic_compose.rs::semantic_conjunct_witness_id_with_trust_stamp", role: "Bind attestation chain root prefix into conjunct witness id on admit" },
    ];
    assert(r@ =~= fence_hops_spec());
    r
}

/// One SCERT upstream slot pinned at the manifold boundary (trust-scope honest PARTIAL).
#[derive(Debug, Clone, Copy, PartialEq, Eq)]
pub struct ManifoldS6UpstreamSlot {
    /// Arc label (H/L/Z/M).
    pub arc_name: &'static str,
    /// Operator command string.
    pub command: &'static str,
    /// Honest exit code at scaffold.
    pub exit_code: i32,
    /// Live probe owner.
    pub live_probe_owner: &'static str,
}

/// SCERT upstream hw/l/zero/m slots (pinned from the inspect SSOT and egoff — all PARTIAL at scaffold).
pub open spec fn upstream_slots_spec() -> Seq<ManifoldS6UpstreamSlot> {
    seq![
        ManifoldS6UpstreamSlot { arc_name: "H-Arc", command: ":hw-cert --strict --paired", exit_code: SCERT_EXIT_NOT_WIRED, live_probe_owner: EGOFF_SCERT_SSOT },
        ManifoldS6UpstreamSlot { arc_name: "L-Arc", command: ":lcert --strict", exit_code: SCERT_EXIT_NOT_WIRED, live_probe_owner: EGOFF_SCERT_SSOT },
        ManifoldS6UpstreamSlot { arc_name: "Z-Arc", command: ":zerocert --strict", exit_code: SCERT_EXIT_NOT_WIRED, live_probe_owner: EGOFF_SCERT_SSOT },
        ManifoldS6UpstreamSlot { arc_name: "M-Arc", command: ":mcert --strict --paired", exit_code: SCERT_EXIT_NOT_WIRED, live_probe_owner: EGOFF_SCERT_SSOT },
    ]
}

/// SCERT upstream hw/l/zero/m slots (pinned from the inspect SSOT and egoff — all PARTIAL at scaffold).
pub fn scert_upstream_slots() -> (r: Vec<ManifoldS6UpstreamSlot>)
    ensures
        r@ == upstream_slots_spec(),
{
    let r = vec![
        ManifoldS6UpstreamSlot { arc_name: "H-Arc", command: ":hw-cert --strict --paired", exit_code: SCERT_EXIT_NOT_WIRED, live_probe_owner: EGOFF_SCERT_SSOT },
        ManifoldS6UpstreamSlot { arc_name: "L-Arc", command: ":lcert --strict", exit_code: SCERT_EXIT_NOT_WIRED, live_probe_owner: EGOFF_SCERT_SSOT },
        ManifoldS6UpstreamSlot { arc_name: "Z-Arc", command: ":zerocert --strict", exit_code: SCERT_EXIT_NOT_WIRED, live_probe_owner: EGOFF_SCERT_SSOT },
        ManifoldS6UpstreamSlot { arc_name: "M-Arc", command: ":mcert --strict --paired", exit_code: SCERT_EXIT_NOT_WIRED, live_probe_owner: EGOFF_SCERT_SSOT },
    ];
    assert(r@ =~= upstream_slots_spec());
    r
}

/// One hop in the manifold SEC-S6 gate runtime wire map.
#[derive(Debug, Clone, Copy, PartialEq, Eq)]
pub struct SecS6GateWireHop {
    /// Ordinal (1-based).
    pub ordinal: u8,
    /// Module or symbol surface.
    pub surface: &'static str,
    /// Role in the admit chain.
    pub role: &'static str,
    /// Whether this hop is wired today.
    pub wired: bool,
}

/// Manifold SEC-S6 gate runtime wire map (cold-edge evidence to HCOM prov gateway fence census).
pub open spec fn wire_hops_spec() -> Seq<SecS6GateWireHop> {
    seq![
        SecS6GateWireHop { ordinal: 1, surface: "umst-manifold::runtime::gate::evidence::AdmissibilityToken", role: "Gate admit witness token on cold edge", wired: true },
        SecS6GateWireHop { ordinal: 2, surface: "umst-manifold::runtime::gate::cartridge::GateCartridge::transition_evidence", role: "CdTransitionCartridge structured witness", wired: true },
        SecS6GateWireHop { ordinal: 3, surface: "umst-manifold::runtime::gate::sec_s6::gate_hcom_prov_gateway_fence_census", role: "Manifold gate SEC-S6 HCOM prov gateway fence census", wired: true },
        SecS6GateWireHop { ordinal: 4, surface: "umst-trust::inspect::validate_s6_inspect_honesty", role: "S-6 `:trust inspect` delegate (Z126 owner)", wired: true },
        SecS6GateWireHop { ordinal: 5, surface: "umst-semantics::semantic_trust_provenance::SemanticTrustAttestation", role: "SEC-HCOM-PROV trust attestation authority", wired: true },
        SecS6GateWireHop { ordinal: 6, surface: "umst-gateway::sec_hcom_prov_gw::hcom_prov_gw_done_when_probe", role: "Gateway HCOM prov delegate fixture deepen (H55/J34)", wired: true },
        SecS6GateWireHop { ordinal: 7, surface: "umst-gateway::sec_hcom_prov_gw::hcom_prov_gw_production_wired", role: "Gateway HCOM prov production ceremony (serial Wave I)", wired: false },
    ]
}

/// Manifold SEC-S6 gate runtime wire map (cold-edge evidence to HCOM prov gateway fence census).
pub fn manifold_sec_s6_gate_wire_hops() -> (r: Vec<SecS6GateWireHop>)
    ensures
        r@ == wire_hops_spec(),
{
    let r = vec![
        SecS6GateWireHop { ordinal: 1, surface: "umst-manifold::runtime::gate::evidence::AdmissibilityToken", role: "Gate admit witness token on cold edge", wired: true },
        SecS6GateWireHop { ordinal: 2, surface: "umst-manifold::runtime::gate::cartridge::GateCartridge::transition_evidence", role: "CdTransitionCartridge structured witness", wired: true },
        SecS6GateWireHop { ordinal: 3, surface: "umst-manifold::runtime::gate::sec_s6::gate_hcom_prov_gateway_fence_census", role: "Manifold gate SEC-S6 HCOM prov gateway fence census", wired: true },
        SecS6GateWireHop { ordinal: 4, surface: "umst-trust::inspect::validate_s6_inspect_honesty", role: "S-6 `:trust inspect` delegate (Z126 owner)", wired: true },
        SecS6GateWireHop { ordinal: 5, surface: "umst-semantics::semantic_trust_provenance::SemanticTrustAttestation", role: "SEC-HCOM-PROV trust attestation authority", wired: true },
        SecS6GateWireHop { ordinal: 6, surface: "umst-gateway::sec_hcom_prov_gw::hcom_prov_gw_done_when_probe", role: "Gateway HCOM prov delegate fixture deepen (H55/J34)", wired: true },
        SecS6GateWireHop { ordinal: 7, surface: "umst-gateway::sec_hcom_prov_gw::hcom_prov_gw_production_wired", role: "Gateway HCOM prov production ceremony (serial Wave I)", wired: false },
    ];
    assert(r@ =~= wire_hops_spec());
    r
}

/// Selects the wired hops of a wire map.
pub open spec fn hop_is_wired() -> spec_fn(SecS6GateWireHop) -> bool {
    |h: SecS6GateWireHop| h.wired
}

/// Six of the seven gate wire hops are wired today.
pub proof fn lemma_wire_hops_wired_count()
    ensures
        count_where(wire_hops_spec(), hop_is_wired()) == 6,
{
    let s = wire_hops_spec();
    let p = hop_is_wired();
    assert(s.take(0) =~= Seq::<SecS6GateWireHop>::empty());
    lemma_count_step(s, p, 0);
    lemma_count_step(s, p, 1);
    lemma_count_step(s, p, 2);
    lemma_count_step(s, p, 3);
    lemma_count_step(s, p, 4);
    lemma_count_step(s, p, 5);
    lemma_count_step(s, p, 6);
    lemma_take_all(s);
}

/// Count the wired hops of a gate wire map.
pub fn count_wired_hops(items: &Vec<SecS6GateWireHop>) -> (r: usize)
    ensures
        r == count_where(items@, hop_is_wired()),
{
    let mut n: usize = 0;
    let mut i: usize = 0;
    while i < items.len()
        invariant
            i <= items.len(),
            n == count_where(items@.take(i as int), hop_is_wired()),
            n <= i,
        decreases items.len() - i,
    {
        proof {
            lemma_count_step(items@, hop_is_wired(), i as int);
        }
        if items[i].wired {
            n = n + 1;
        }
        i = i + 1;
    }
    proof {
        lemma_take_all(items@);
    }
    n
}

/// The pinned SSOT and receipt paths carry the markers the census checks for.
pub proof fn lemma_ssot_pins()
    ensures
        seq_contains(PRIOR_RECEIPT_PATH_2033@, "SEC-S6_2033"@),
        seq_contains(PRIOR_Z126_RECEIPT_PATH@, "COMPOSER_Z126_1232"@),
        seq_contains(PRIOR_H55_RECEIPT_PATH@, "COMPOSER_H55_2242"@),
        seq_contains(PRIOR_H55_RECEIPT_PATH@, "COMPOSER_H55"@),
        seq_contains(PRIOR_J34_RECEIPT_PATH@, "COMPOSER_J34"@),
        seq_contains(TRUST_SSOT@, "s6_inspect"@),
        seq_contains(GATEWAY_SSOT@, "sec_hcom_prov_gw"@),
        seq_contains(SEMANTICS_SSOT@, "semantic_trust_provenance"@),
{
    reveal_strlit("old/residuals/residuals/misc-outputs-tmp/COMPLETION_AGAP_AGENT_SEC-S6_2033.md");
    reveal_strlit("SEC-S6_2033");
    reveal_strlit("outputs/.tmp/COMPOSER_Z126_1232.md");
    reveal_strlit("COMPOSER_Z126_1232");
    reveal_strlit("outputs/.tmp/COMPOSER_H55_2242.md");
    reveal_strlit("COMPOSER_H55_2242");
    reveal_strlit("COMPOSER_H55");
    reveal_strlit("outputs/.tmp/COMPOSER_J34_2348.md");
    reveal_strlit("COMPOSER_J34");
    reveal_strlit("umst-foundations/crates/umst-trust/src/s6_inspect.rs");
    reveal_strlit("s6_inspect");
    reveal_strlit("umst-gateway/crates/umst-gateway/src/sec_hcom_prov_gw.rs");
    reveal_strlit("sec_hcom_prov_gw");
    reveal_strlit("umst-semantics/crates/umst-semantics/src/semantic_trust_provenance.rs");
    reveal_strlit("semantic_trust_provenance");
    assert(PRIOR_RECEIPT_PATH_2033@.subrange(63, 74) =~= "SEC-S6_2033"@);
    assert(matches_at(PRIOR_RECEIPT_PATH_2033@, "SEC-S6_2033"@, 63));
    assert(PRIOR_Z126_RECEIPT_PATH@.subrange(13, 31) =~= "COMPOSER_Z126_1232"@);
    assert(matches_at(PRIOR_Z126_RECEIPT_PATH@, "COMPOSER_Z126_1232"@, 13));
    assert(PRIOR_H55_RECEIPT_PATH@.subrange(13, 30) =~= "COMPOSER_H55_2242"@);
    assert(matches_at(PRIOR_H55_RECEIPT_PATH@, "COMPOSER_H55_2242"@, 13));
    assert(PRIOR_H55_RECEIPT_PATH@.subrange(13, 25) =~= "COMPOSER_H55"@);
    assert(matches_at(PRIOR_H55_RECEIPT_PATH@, "COMPOSER_H55"@, 13));
    assert(PRIOR_J34_RECEIPT_PATH@.subrange(13, 25) =~= "COMPOSER_J34"@);
    assert(matches_at(PRIOR_J34_RECEIPT_PATH@, "COMPOSER_J34"@, 13));
    assert(TRUST_SSOT@.subrange(39, 49) =~= "s6_inspect"@);
    assert(matches_at(TRUST_SSOT@, "s6_inspect"@, 39));
    assert(GATEWAY_SSOT@.subrange(37, 53) =~= "sec_hcom_prov_gw"@);
    assert(matches_at(GATEWAY_SSOT@, "sec_hcom_prov_gw"@, 37));
    assert(SEMANTICS_SSOT@.subrange(41, 66) =~= "semantic_trust_provenance"@);
    assert(matches_at(SEMANTICS_SSOT@, "semantic_trust_provenance"@, 41));
}

/// The pinned non-claim and fence texts carry every refusal the deepen checks for.
pub proof fn lemma_fence_texts()
    ensures
        seq_contains(W29_125_NON_CLAIM@, "not GREEN"@),
        seq_contains(W29_125_NON_CLAIM@, "not OP-5 PASS"@),
        seq_contains(W29_125_NON_CLAIM@, "not production_wired"@),
        seq_contains(W29_125_NON_CLAIM@, "not MASTER_RETICK"@),
        seq_contains(HONEST_FENCE@, "production_wired=false"@),
        seq_contains(HONEST_FENCE@, "green_claim_blocked=true"@),
        seq_contains(HONEST_FENCE@, "master_retick=false"@),
        seq_contains(HONEST_FENCE@, "op5_cleared=false"@),
        seq_contains(HONEST_FENCE@, "live_attestation_wired=false"@),
        seq_contains(HONEST_FENCE@, "hcom_prov_gw_production_open=true"@),
{
    reveal_strlit("not GREEN; not OP-5 PASS; not production_wired; not MASTER_RETICK");
    reveal_strlit("not GREEN");
    reveal_strlit("not OP-5 PASS");
    reveal_strlit("not production_wired");
    reveal_strlit("not MASTER_RETICK");
    reveal_strlit("census_wired=true production_wired=false green_claim_blocked=true master_retick=false op5_cleared=false live_attestation_wired=false hcom_prov_gw_production_open=true");
    reveal_strlit("production_wired=false");
    reveal_strlit("green_claim_blocked=true");
    reveal_strlit("master_retick=false");
    reveal_strlit("op5_cleared=false");
    reveal_strlit("live_attestation_wired=false");
    reveal_strlit("hcom_prov_gw_production_open=true");
    assert(W29_125_NON_CLAIM@.subrange(0, 9) =~= "not GREEN"@);
    assert(matches_at(W29_125_NON_CLAIM@, "not GREEN"@, 0));
    assert(W29_125_NON_CLAIM@.subrange(11, 24) =~= "not OP-5 PASS"@);
    assert(matches_at(W29_125_NON_CLAIM@, "not OP-5 PASS"@, 11));
    assert(W29_125_NON_CLAIM@.subrange(26, 46) =~= "not production_wired"@);
    assert(matches_at(W29_125_NON_CLAIM@, "not production_wired"@, 26));
    assert(W29_125_NON_CLAIM@.subrange(48, 65) =~= "not MASTER_RETICK"@);
    assert(matches_at(W29_125_NON_CLAIM@, "not MASTER_RETICK"@, 48));
    assert(HONEST_FENCE@.subrange(18, 40) =~= "production_wired=false"@);
    assert(matches_at(HONEST_FENCE@, "production_wired=false"@, 18));
    assert(HONEST_FENCE@.subrange(41, 65) =~= "green_claim_blocked=true"@);
    assert(matches_at(HONEST_FENCE@, "green_claim_blocked=true"@, 41));
    assert(HONEST_FENCE@.subrange(66, 85) =~= "master_retick=false"@);
    assert(matches_at(HONEST_FENCE@, "master_retick=false"@, 66));
    assert(HONEST_FENCE@.subrange(86, 103) =~= "op5_cleared=false"@);
    assert(matches_at(HONEST_FENCE@, "op5_cleared=false"@, 86));
    assert(HONEST_FENCE@.subrange(104, 132) =~= "live_attestation_wired=false"@);
    assert(matches_at(HONEST_FENCE@, "live_attestation_wired=false"@, 104));
    assert(HONEST_FENCE@.subrange(133, 166) =~= "hcom_prov_gw_production_open=true"@);
    assert(matches_at(HONEST_FENCE@, "hcom_prov_gw_production_open=true"@, 133));
}

/// A fence hop sits at its 1-based position, names a `umst-` or egoff surface and a role.
pub open spec fn fence_hop_well_formed(h: ManifoldHcomProvGwFenceHop, k: int) -> bool {
    &&& h.ordinal == k + 1
    &&& (seq_contains(h.surface@, "umst-"@) || seq_contains(h.surface@, "egoff"@))
    &&& h.role@.len() > 0
    &&& h.surface@.len() > 0
}

/// Every pinned fence hop is well formed.
pub proof fn lemma_fence_hops_well_formed()
    ensures
        forall|k: int| 0 <= k < 5 ==> #[trigger] fence_hop_well_formed(fence_hops_spec()[k], k),
{
    let s = fence_hops_spec();
    reveal_strlit("umst-");
    assert forall|k: int| 0 <= k < 5 implies #[trigger] fence_hop_well_formed(s[k], k) by {
        if k == 0 {
            reveal_strlit("umst-semantics/src/semantic_trust_provenance.rs::SemanticTrustAttestation");
            reveal_strlit("SEC-HCOM-PROV trust attestation SSOT");
            assert(s[k].surface@.subrange(0, 5) =~= "umst-"@);
            assert(matches_at(s[k].surface@, "umst-"@, 0));
        }
        if k == 1 {
            reveal_strlit("umst-gateway/src/sec_hcom_prov_gw.rs::enforce_hcom_prov_semantic_admit");
            reveal_strlit("Gateway semantic admit — bind attestation trust to SEC-GW-WRAP surface");
            assert(s[k].surface@.subrange(0, 5) =~= "umst-"@);
            assert(matches_at(s[k].surface@, "umst-"@, 0));
        }
        if k == 2 {
            reveal_strlit("umst-gateway/src/sec_gw_trust_wrap.rs::enforce_j2_semantic_production_admit");
            reveal_strlit("SEC-GW-WRAP `check_admit_surface` at J2+semantic production compose");
            assert(s[k].surface@.subrange(0, 5) =~= "umst-"@);
            assert(matches_at(s[k].surface@, "umst-"@, 0));
        }
        if k == 3 {
            reveal_strlit("umst-gateway/src/semantic_compose.rs::compose_j2_semantic_production_trust_stamped");
            reveal_strlit("Production compose + trust stamp on semantic admit (JOINT-GATE)");
            assert(s[k].surface@.subrange(0, 5) =~= "umst-"@);
            assert(matches_at(s[k].surface@, "umst-"@, 0));
        }
        if k == 4 {
            reveal_strlit("umst-gateway/src/semantic_compose.rs::semantic_conjunct_witness_id_with_trust_stamp");
            reveal_strlit("Bind attestation chain root prefix into conjunct witness id on admit");
            assert(s[k].surface@.subrange(0, 5) =~= "umst-"@);
            assert(matches_at(s[k].surface@, "umst-"@, 0));
        }
    }
}

/// Check one fence hop at position `k`.
fn check_fence_hop(h: ManifoldHcomProvGwFenceHop, k: usize) -> (r: bool)
    requires
        k < 5,
    ensures
        r == fence_hop_well_formed(h, k as int),
{
    h.ordinal as usize == k + 1 && (str_contains(h.surface, "umst-") || str_contains(h.surface, "egoff"))
        && !h.role.is_empty() && !h.surface.is_empty()
}

/// Whether some fence hop names `needle` in its surface.
fn fence_surface_named(hops: &Vec<ManifoldHcomProvGwFenceHop>, needle: &str) -> (r: bool)
    ensures
        r == exists|i: int| 0 <= i < hops@.len() && #[trigger] seq_contains(hops@[i].surface@, needle@),
{
    let mut i: usize = 0;
    while i < hops.len()
        invariant
            i <= hops.len(),
            forall|k: int| 0 <= k < i ==> !#[trigger] seq_contains(hops@[k].surface@, needle@),
        decreases hops.len() - i,
    {
        if str_contains(hops[i].surface, needle) {
            return true;
        }
        i = i + 1;
    }
    false
}

/// Whether all five HCOM prov gateway fence hops are pinned at the manifold boundary.
pub fn manifold_hcom_prov_gw_fence_hops_verified() -> (r: bool)
    ensures
        r,
{
    let hops = hcom_prov_gw_fence_hops();
    proof {
        lemma_fence_hops_well_formed();
    }
    let mut ok = true;
    let mut i: usize = 0;
    while i < hops.len()
        invariant
            hops@ == fence_hops_spec(),
            i <= hops.len(),
            ok,
            forall|k: int| 0 <= k < 5 ==> #[trigger] fence_hop_well_formed(fence_hops_spec()[k], k),
        decreases hops.len() - i,
    {
        assert(fence_hop_well_formed(fence_hops_spec()[i as int], i as int));
        ok = ok && check_fence_hop(hops[i], i);
        i = i + 1;
    }
    let admit_hop = fence_surface_named(&hops, "enforce_hcom_prov_semantic_admit");
    let stamp = fence_surface_named(&hops, "semantic_conjunct_witness_id_with_trust_stamp");
    proof {
        reveal_strlit("umst-gateway/src/sec_hcom_prov_gw.rs::enforce_hcom_prov_semantic_admit");
        reveal_strlit("umst-gateway/src/semantic_compose.rs::semantic_conjunct_witness_id_with_trust_stamp");
        reveal_strlit("enforce_hcom_prov_semantic_admit");
        reveal_strlit("semantic_conjunct_witness_id_with_trust_stamp");
        assert(hops@[1].surface@.subrange(38, 70) =~= "enforce_hcom_prov_semantic_admit"@);
        assert(matches_at(hops@[1].surface@, "enforce_hcom_prov_semantic_admit"@, 38));
        assert(seq_contains(hops@[1].surface@, "enforce_hcom_prov_semantic_admit"@));
        assert(hops@[4].surface@.subrange(38, 83) =~= "semantic_conjunct_witness_id_with_trust_stamp"@);
        assert(matches_at(hops@[4].surface@, "semantic_conjunct_witness_id_with_trust_stamp"@, 38));
        assert(seq_contains(hops@[4].surface@, "semantic_conjunct_witness_id_with_trust_stamp"@));
    }
    hops.len() == HCOM_PROV_GW_WIRE_HOP_COUNT && ok && admit_hop && stamp
}

/// Every wire hop sits at its 1-based position.
pub proof fn lemma_wire_hop_ordinals()
    ensures
        forall|k: int| 0 <= k < 7 ==> #[trigger] wire_hops_spec()[k].ordinal == k + 1,
{
    let s = wire_hops_spec();
    assert forall|k: int| 0 <= k < 7 implies #[trigger] s[k].ordinal == k + 1 by {
        if k == 0 {} else if k == 1 {} else if k == 2 {} else if k == 3 {} else if k == 4 {} else if k == 5 {} else {}
    }
}

/// Whether some wire hop names `needle` in its surface with the given wiring.
fn wire_surface_named(hops: &Vec<SecS6GateWireHop>, needle: &str, wired: bool) -> (r: bool)
    ensures
        r == exists|i: int| 0 <= i < hops@.len() && #[trigger] seq_contains(hops@[i].surface@, needle@) && hops@[i].wired == wired,
{
    let mut i: usize = 0;
    while i < hops.len()
        invariant
            i <= hops.len(),
            forall|k: int| 0 <= k < i ==> !(#[trigger] seq_contains(hops@[k].surface@, needle@) && hops@[k].wired == wired),
        decreases hops.len() - i,
    {
        if str_contains(hops[i].surface, needle) && hops[i].wired == wired {
            return true;
        }
        i = i + 1;
    }
    false
}

/// Whether the manifold SEC-S6 gate wire hops keep ordinal integrity and an honest open
/// production hop.
pub fn manifold_sec_s6_gate_wire_integrity_verified() -> (r: bool)
    ensures
        r,
{
    let hops = manifold_sec_s6_gate_wire_hops();
    proof {
        lemma_wire_hop_ordinals();
        lemma_wire_hops_wired_count();
    }
    let mut ok = true;
    let mut i: usize = 0;
    while i < hops.len()
        invariant
            hops@ == wire_hops_spec(),
            i <= hops.len(),
            ok,
            forall|k: int| 0 <= k < 7 ==> #[trigger] wire_hops_spec()[k].ordinal == k + 1,
        decreases hops.len() - i,
    {
        assert(wire_hops_spec()[i as int].ordinal == i + 1);
        ok = ok && hops[i].ordinal as usize == i + 1;
        i = i + 1;
    }
    let wired = count_wired_hops(&hops);
    let production_open = wire_surface_named(&hops, "hcom_prov_gw_production_wired", false);
    let inspect_wired = wire_surface_named(&hops, "s6_inspect", true);
    let census_wired = wire_surface_named(&hops, "gate_hcom_prov_gateway_fence_census", true);
    proof {
        reveal_strlit("umst-gateway::sec_hcom_prov_gw::hcom_prov_gw_production_wired");
        reveal_strlit("umst-trust::inspect::validate_s6_inspect_honesty");
        reveal_strlit("umst-manifold::runtime::gate::sec_s6::gate_hcom_prov_gateway_fence_census");
        reveal_strlit("hcom_prov_gw_production_wired");
        reveal_strlit("s6_inspect");
        reveal_strlit("gate_hcom_prov_gateway_fence_census");
        assert(hops@[6].surface@.subrange(32, 61) =~= "hcom_prov_gw_production_wired"@);
        assert(matches_at(hops@[6].surface@, "hcom_prov_gw_production_wired"@, 32));
        assert(seq_contains(hops@[6].surface@, "hcom_prov_gw_production_wired"@));
        assert(hops@[3].surface@.subrange(30, 40) =~= "s6_inspect"@);
        assert(matches_at(hops@[3].surface@, "s6_inspect"@, 30));
        assert(seq_contains(hops@[3].surface@, "s6_inspect"@));
        assert(hops@[2].surface@.subrange(38, 73) =~= "gate_hcom_prov_gateway_fence_census"@);
        assert(matches_at(hops@[2].surface@, "gate_hcom_prov_gateway_fence_census"@, 38));
        assert(seq_contains(hops@[2].surface@, "gate_hcom_prov_gateway_fence_census"@));
    }
    let last_open = hops.len() > 0 && !hops[hops.len() - 1].wired;
    hops.len() == MANIFOLD_SEC_S6_GATE_WIRE_HOP_COUNT && ok && wired
        == MANIFOLD_SEC_S6_GATE_WIRE_WIRED_COUNT && production_open && inspect_wired && census_wired
        && last_open
}

/// Whether some upstream slot carries the arc label `name`.
fn upstream_arc_named(slots: &Vec<ManifoldS6UpstreamSlot>, name: &str) -> (r: bool)
    ensures
        r == exists|i: int| 0 <= i < slots@.len() && #[trigger] slots@[i].arc_name@ == name@,
{
    let mut i: usize = 0;
    while i < slots.len()
        invariant
            i <= slots.len(),
            forall|k: int| 0 <= k < i ==> !(#[trigger] slots@[k].arc_name@ == name@),
        decreases slots.len() - i,
    {
        if str_eq(slots[i].arc_name, name) {
            return true;
        }
        i = i + 1;
    }
    false
}

/// Every upstream slot exits not-wired and is owned by the egoff SCERT capstone.
pub proof fn lemma_upstream_slots_partial()
    ensures
        forall|k: int| 0 <= k < 4 ==> (#[trigger] upstream_slots_spec()[k]).exit_code == SCERT_EXIT_NOT_WIRED
            && upstream_slots_spec()[k].live_probe_owner == EGOFF_SCERT_SSOT,
{
    let s = upstream_slots_spec();
    assert forall|k: int| 0 <= k < 4 implies (#[trigger] s[k]).exit_code == SCERT_EXIT_NOT_WIRED
        && s[k].live_probe_owner == EGOFF_SCERT_SSOT by {
        if k == 0 {} else if k == 1 {} else if k == 2 {} else {}
    }
}

/// Whether the SCERT upstream hw/l/zero/m slots are pinned with honest PARTIAL posture.
pub fn manifold_scert_upstream_slots_verified() -> (r: bool)
    ensures
        r,
{
    let slots = scert_upstream_slots();
    proof {
        lemma_upstream_slots_partial();
    }
    let mut ok = true;
    let mut i: usize = 0;
    while i < slots.len()
        invariant
            slots@ == upstream_slots_spec(),
            i <= slots.len(),
            ok,
            forall|k: int| 0 <= k < 4 ==> (#[trigger] upstream_slots_spec()[k]).exit_code == SCERT_EXIT_NOT_WIRED
                && upstream_slots_spec()[k].live_probe_owner == EGOFF_SCERT_SSOT,
        decreases slots.len() - i,
    {
        assert(upstream_slots_spec()[i as int].exit_code == SCERT_EXIT_NOT_WIRED);
        ok = ok && slots[i].exit_code == SCERT_EXIT_NOT_WIRED && str_eq(
            slots[i].live_probe_owner,
            EGOFF_SCERT_SSOT,
        );
        i = i + 1;
    }
    let h = upstream_arc_named(&slots, "H-Arc");
    let m = upstream_arc_named(&slots, "M-Arc");
    assert(slots@[0].arc_name@ == "H-Arc"@);
    assert(slots@[3].arc_name@ == "M-Arc"@);
    slots.len() == SCERT_UPSTREAM_SLOT_COUNT && ok && h && m
}

/// Whether the S-6 inspect delegate pins match the Z126 honest scaffold (6 wired, 0 credit).
pub fn manifold_s6_inspect_delegate_verified() -> (r: bool)
    ensures
        r,
{
    proof {
        lemma_ssot_pins();
    }
    str_contains(TRUST_SSOT, "s6_inspect") && str_contains(PRIOR_Z126_RECEIPT_PATH, "COMPOSER_Z126_1232")
        && S6_INSPECT_FACTOR_COUNT == 6 && SCERT_EXIT_NOT_WIRED == 2
}

/// Aggregated SEC-S6 gate HCOM prov gateway fence census on the manifold boundary.
#[derive(Debug, Clone, Copy, PartialEq, Eq)]
pub struct SecS6GateHcomProvGatewayFenceCensus {
    /// Census schema tag.
    pub schema_version: &'static str,
    /// Board slice id.
    pub board_slice_id: &'static str,
    /// Gate transition evidence probe passed.
    pub gate_evidence_wired: bool,
    /// HCOM prov gateway fence hops pinned (5/5).
    pub hcom_prov_fence_hops_verified: bool,
    /// SCERT upstream slots pinned (4/4 PARTIAL).
    pub scert_upstream_slots_verified: bool,
    /// S-6 inspect delegate pins verified (6/6 wired, 0 credit).
    pub s6_inspect_delegate_verified: bool,
    /// Live attestation ceremony wired — honest false.
    pub live_attestation_wired: bool,
    /// S-Arc GREEN claim blocked.
    pub s6_green_claim_blocked: bool,
    /// Gateway production flip.
    pub production_wired: bool,
    /// Wired hop count.
    pub wire_hop_wired_count: u8,
}

/// Exercise gate cold-edge evidence at the manifold SSOT (the identity transition admits).
pub fn gate_transition_evidence_probe(evidence: &TransitionEvidence) -> (r: bool)
    ensures
        r == witness_admits(*evidence),
{
    cold_edge_witness_admits(evidence)
}

/// Live operator attestation ceremony — honest false until gateway routes are plumbed.
pub fn live_attestation_wired() -> (r: bool)
    ensures
        r == LIVE_ATTESTATION_WIRED_HONEST,
        !r,
{
    LIVE_ATTESTATION_WIRED_HONEST
}

/// HCOM prov gateway production ceremony — honest false until measured live.
pub fn sec_s6_production_wired() -> (r: bool)
    ensures
        !r,
{
    false
}

/// MASTER retick eligibility — honest **false** (not claimed from the S-6 census deepen).
pub fn sec_s6_master_retick_eligible() -> (r: bool)
    ensures
        !r,
{
    false
}

/// OP-5 clearance — honest **false** (not claimed from the S-6 census deepen).
pub fn sec_s6_op5_cleared() -> (r: bool)
    ensures
        !r,
{
    false
}

/// Build the manifold SEC-S6 gate HCOM prov gateway fence census from live measurements.
pub fn gate_hcom_prov_gateway_fence_census(gate_evidence_wired: bool) -> (r: SecS6GateHcomProvGatewayFenceCensus)
    ensures
        r.schema_version == SCHEMA_VERSION,
        r.board_slice_id == BOARD_SLICE_ID,
        r.gate_evidence_wired == gate_evidence_wired,
        r.hcom_prov_fence_hops_verified,
        r.scert_upstream_slots_verified,
        r.s6_inspect_delegate_verified,
        !r.live_attestation_wired,
        r.s6_green_claim_blocked,
        !r.production_wired,
        r.wire_hop_wired_count == 6,
{
    let hops = manifold_sec_s6_gate_wire_hops();
    let wired = count_wired_hops(&hops);
    proof {
        lemma_wire_hops_wired_count();
    }
    SecS6GateHcomProvGatewayFenceCensus {
        schema_version: SCHEMA_VERSION,
        board_slice_id: BOARD_SLICE_ID,
        gate_evidence_wired,
        hcom_prov_fence_hops_verified: manifold_hcom_prov_gw_fence_hops_verified(),
        scert_upstream_slots_verified: manifold_scert_upstream_slots_verified(),
        s6_inspect_delegate_verified: manifold_s6_inspect_delegate_verified(),
        live_attestation_wired: live_attestation_wired(),
        s6_green_claim_blocked: S6_GREEN_CLAIM_BLOCKED,
        production_wired: sec_s6_production_wired(),
        wire_hop_wired_count: wired as u8,
    }
}

/// Whether the manifold gate SEC-S6 ceremony is closed at census tier: wire map hops 1–6 are
/// measured wired and the invent claims stay fenced, so it is closed exactly when the
/// cold-edge evidence admits. The live attestation ceremony and the gateway production flip
/// are explicit non-blockers.
pub fn manifold_gate_sec_s6_ceremony_closed(gate_evidence_wired: bool) -> (r: bool)
    ensures
        r == gate_evidence_wired,
{
    let census = gate_hcom_prov_gateway_fence_census(gate_evidence_wired);
    census.gate_evidence_wired && census.hcom_prov_fence_hops_verified
        && census.scert_upstream_slots_verified && census.s6_inspect_delegate_verified
        && !census.live_attestation_wired && census.s6_green_claim_blocked && !census.production_wired
        && census.wire_hop_wired_count == 6 && gate_evidence_wired
        && manifold_sec_s6_gate_wire_integrity_verified() && !sec_s6_master_retick_eligible()
        && !sec_s6_op5_cleared()
}

/// Typed probe for SEC-S6 manifold gate closure honesty.
#[derive(Debug, Clone, Copy, PartialEq, Eq, Structural)]
pub struct SecS6GateManifoldProbe {
    /// Gate transition evidence probe.
    pub gate_evidence_wired: bool,
    /// HCOM prov fence hops verified.
    pub hcom_prov_fence_hops_verified: bool,
    /// SCERT upstream slots verified.
    pub scert_upstream_slots_verified: bool,
    /// S-6 inspect delegate verified.
    pub s6_inspect_delegate_verified: bool,
    /// Live attestation honest false.
    pub live_attestation_honest_false: bool,
    /// S-Arc GREEN claim blocked.
    pub s6_green_claim_blocked: bool,
    /// Production honest false.
    pub production_honest_false: bool,
    /// Wired hop count.
    pub wire_hop_wired_count: u8,
    /// Ceremony closed at census tier.
    pub ceremony_closed: bool,
}

/// The manifold probe measured for a given cold-edge outcome.
pub open spec fn manifold_probe_spec(gate_evidence_wired: bool) -> SecS6GateManifoldProbe {
    SecS6GateManifoldProbe {
        gate_evidence_wired,
        hcom_prov_fence_hops_verified: true,
        scert_upstream_slots_verified: true,
        s6_inspect_delegate_verified: true,
        live_attestation_honest_false: true,
        s6_green_claim_blocked: true,
        production_honest_false: true,
        wire_hop_wired_count: 6,
        ceremony_closed: gate_evidence_wired,
    }
}

/// Build the introspection probe for SEC-S6 done-when checks.
pub fn sec_s6_gate_manifold_probe(gate_evidence_wired: bool) -> (r: SecS6GateManifoldProbe)
    ensures
        r == manifold_probe_spec(gate_evidence_wired),
{
    let census = gate_hcom_prov_gateway_fence_census(gate_evidence_wired);
    SecS6GateManifoldProbe {
        gate_evidence_wired: census.gate_evidence_wired,
        hcom_prov_fence_hops_verified: census.hcom_prov_fence_hops_verified,
        scert_upstream_slots_verified: census.scert_upstream_slots_verified,
        s6_inspect_delegate_verified: census.s6_inspect_delegate_verified,
        live_attestation_honest_false: !census.live_attestation_wired,
        s6_green_claim_blocked: census.s6_green_claim_blocked,
        production_honest_false: !census.production_wired,
        wire_hop_wired_count: census.wire_hop_wired_count,
        ceremony_closed: manifold_gate_sec_s6_ceremony_closed(gate_evidence_wired),
    }
}

/// Honest fence flags for the SEC-S6 deepen (W29-125): every invent-claim flag stays false,
/// and `deepen_honest` holds only when the cell pins, the census ceremony and the
/// GREEN/PRODUCTION/MASTER/OP-5 fences hold.
#[derive(Debug, Clone, Copy, PartialEq, Eq)]
pub struct SecS6W29125DeepenProbe {
    /// Deepen schema tag.
    pub schema_version: &'static str,
    /// Swarm cell id.
    pub cell_id: &'static str,
    /// Honest posture pin.
    pub honest_posture: &'static str,
    /// Explicit non-claim gate text.
    pub non_claim: &'static str,
    /// Compact honest-fence string.
    pub honest_fence: &'static str,
    /// Invent claim — must stay false.
    pub production_wired_claimed: bool,
    /// Invent claim — must stay false.
    pub green_claimed: bool,
    /// Invent claim — must stay false.
    pub op5_pass_claimed: bool,
    /// Invent claim — must stay false.
    pub master_retick_claimed: bool,
    /// Measured deepen honesty (fences + ceremony pins).
    pub deepen_honest: bool,
}

/// Build the W29-125 SEC-S6 deepen honesty probe; it is honest exactly when the cold-edge
/// evidence admits.
pub fn sec_s6_w29_125_deepen_probe(gate_evidence_wired: bool) -> (r: SecS6W29125DeepenProbe)
    ensures
        r.schema_version == W29_125_DEEPEN_SCHEMA_VERSION,
        r.cell_id == W29_125_CELL_ID,
        r.honest_posture == W29_125_HONEST_POSTURE,
        r.non_claim == W29_125_NON_CLAIM,
        r.honest_fence == HONEST_FENCE,
        !r.production_wired_claimed,
        !r.green_claimed,
        !r.op5_pass_claimed,
        !r.master_retick_claimed,
        r.deepen_honest == gate_evidence_wired,
{
    let production_wired_claimed = sec_s6_production_wired();
    let green_claimed = !S6_GREEN_CLAIM_BLOCKED;
    let op5_pass_claimed = sec_s6_op5_cleared();
    let master_retick_claimed = sec_s6_master_retick_eligible();
    let ceremony_ok = manifold_gate_sec_s6_ceremony_closed(gate_evidence_wired);
    proof {
        lemma_fence_texts();
    }
    let deepen_honest = str_eq(W29_125_CELL_ID, "W29-125-SEC_S6")
        && str_eq(W29_125_DEEPEN_SCHEMA_VERSION, "sec_s6_w29_125_honest_fence_v1")
        && str_eq(W29_125_HONEST_POSTURE, "SEC_S6_MANIFOLD_CENSUS_DEEPEN_ONLY")
        && str_eq(SCHEMA_VERSION, "sec_s6_gate_hcom_prov_gateway_fence_census_v2")
        && !production_wired_claimed && !green_claimed && !op5_pass_claimed
        && !master_retick_claimed && !live_attestation_wired()
        && str_contains(W29_125_NON_CLAIM, "not GREEN")
        && str_contains(W29_125_NON_CLAIM, "not OP-5 PASS")
        && str_contains(W29_125_NON_CLAIM, "not production_wired")
        && str_contains(W29_125_NON_CLAIM, "not MASTER_RETICK")
        && str_contains(HONEST_FENCE, "production_wired=false")
        && str_contains(HONEST_FENCE, "green_claim_blocked=true")
        && str_contains(HONEST_FENCE, "master_retick=false")
        && str_contains(HONEST_FENCE, "op5_cleared=false")
        && str_contains(HONEST_FENCE, "live_attestation_wired=false")
        && str_contains(HONEST_FENCE, "hcom_prov_gw_production_open=true") && ceremony_ok
        && manifold_hcom_prov_gw_fence_hops_verified()
        && manifold_sec_s6_gate_wire_integrity_verified();
    SecS6W29125DeepenProbe {
        schema_version: W29_125_DEEPEN_SCHEMA_VERSION,
        cell_id: W29_125_CELL_ID,
        honest_posture: W29_125_HONEST_POSTURE,
        non_claim: W29_125_NON_CLAIM,
        honest_fence: HONEST_FENCE,
        production_wired_claimed,
        green_claimed,
        op5_pass_claimed,
        master_retick_claimed,
        deepen_honest,
    }
}

/// Whether the W29-125 SEC-S6 deepen honesty probe passes.
pub fn sec_s6_w29_125_deepen_honest(gate_evidence_wired: bool) -> (r: bool)
    ensures
        r == gate_evidence_wired,
{
    sec_s6_w29_125_deepen_probe(gate_evidence_wired).deepen_honest
}

/// SEC-S6 fence: refuse inventing GREEN / PRODUCTION_WIRED / MASTER / OP-5.
pub fn sec_s6_honest_fence_holds(gate_evidence_wired: bool) -> (r: bool)
    ensures
        r == gate_evidence_wired,
{
    let p = sec_s6_w29_125_deepen_probe(gate_evidence_wired);
    p.deepen_honest && !p.green_claimed && !p.production_wired_claimed && !p.op5_pass_claimed
        && !p.master_retick_claimed
}

/// One SEC-S6 gate-factor row for the operator `:trust gate-factors` deepen.
#[derive(Debug)]
pub struct SecS6GateFactorRow {
    /// Stable factor identifier.
    pub factor_id: &'static str,
    /// Whether the witness probe is wired.
    pub probe_wired: bool,
    /// Whether the factor earns acceptance credit toward S-6 GREEN.
    pub acceptance_credit: bool,
    /// Operator detail string.
    pub detail: String,
}

/// Gate-factor ids, in row order.
pub open spec fn factor_ids_spec() -> Seq<&'static str> {
    seq!["hcom-prov-wire-map", "s5-delegate-absorbed", "bootstrap-admit-fence", "live-attestation-ceremony", "s6-inspect-delegate", "gateway-production-fence"]
}

/// Operator detail of gate-factor row `k`.
pub open spec fn factor_detail_spec(k: int) -> Seq<char> {
    if k == 0 {
        "hcom_prov_gw_hops="@ + decimal(5) + " gateway_ssot="@ + GATEWAY_SSOT@
    } else if k == 1 {
        "h55="@ + PRIOR_H55_RECEIPT_PATH@ + " j34="@ + PRIOR_J34_RECEIPT_PATH@
    } else if k == 2 {
        "bootstrap admit without attestation — gateway delegate fixture only"@
    } else if k == 3 {
        "live_attestation_wired="@ + bool_text(false)
    } else if k == 4 {
        "inspect_factors="@ + decimal(6) + " wired="@ + decimal(6) + " credit=0 trust_ssot="@ + TRUST_SSOT@
    } else {
        "sec_s6_production_wired="@ + bool_text(false)
    }
}

/// The rows are exactly the specified ones: every factor probed, none credited.
pub open spec fn factor_rows_match(rows: Seq<SecS6GateFactorRow>) -> bool {
    &&& rows.len() == 6
    &&& forall|k: int| 0 <= k < 6 ==> {
        &&& (#[trigger] rows[k]).factor_id == factor_ids_spec()[k]
        &&& rows[k].probe_wired
        &&& !rows[k].acceptance_credit
        &&& rows[k].detail@ == factor_detail_spec(k)
    }
}

fn text_of(s: &str) -> (r: String)
    ensures
        r@ == s@,
{
    s.to_owned()
}

/// Collect the SEC-S6 gate-factor rows for the operator `:trust gate-factors`.
pub fn collect_sec_s6_gate_factor_rows() -> (r: Vec<SecS6GateFactorRow>)
    ensures
        factor_rows_match(r@),
{
    proof {
        lemma_ssot_pins();
    }
    let mut d0 = String::new();
    push_str(&mut d0, "hcom_prov_gw_hops=");
    push_decimal(&mut d0, HCOM_PROV_GW_WIRE_HOP_COUNT as u64);
    push_str(&mut d0, " gateway_ssot=");
    push_str(&mut d0, GATEWAY_SSOT);
    let mut d1 = String::new();
    push_str(&mut d1, "h55=");
    push_str(&mut d1, PRIOR_H55_RECEIPT_PATH);
    push_str(&mut d1, " j34=");
    push_str(&mut d1, PRIOR_J34_RECEIPT_PATH);
    let mut d3 = String::new();
    push_str(&mut d3, "live_attestation_wired=");
    push_bool(&mut d3, live_attestation_wired());
    let mut d4 = String::new();
    push_str(&mut d4, "inspect_factors=");
    push_decimal(&mut d4, S6_INSPECT_FACTOR_COUNT as u64);
    push_str(&mut d4, " wired=");
    push_decimal(&mut d4, S6_INSPECT_FACTOR_COUNT as u64);
    push_str(&mut d4, " credit=0 trust_ssot=");
    push_str(&mut d4, TRUST_SSOT);
    let mut d5 = String::new();
    push_str(&mut d5, "sec_s6_production_wired=");
    push_bool(&mut d5, sec_s6_production_wired());
    let r = vec![
        SecS6GateFactorRow {
            factor_id: "hcom-prov-wire-map",
            probe_wired: manifold_hcom_prov_gw_fence_hops_verified(),
            acceptance_credit: false,
            detail: d0,
        },
        SecS6GateFactorRow {
            factor_id: "s5-delegate-absorbed",
            probe_wired: str_contains(PRIOR_H55_RECEIPT_PATH, "COMPOSER_H55") && str_contains(
                PRIOR_J34_RECEIPT_PATH,
                "COMPOSER_J34",
            ),
            acceptance_credit: false,
            detail: d1,
        },
        SecS6GateFactorRow {
            factor_id: "bootstrap-admit-fence",
            probe_wired: str_contains(GATEWAY_SSOT, "sec_hcom_prov_gw"),
            acceptance_credit: false,
            detail: text_of("bootstrap admit without attestation — gateway delegate fixture only"),
        },
        SecS6GateFactorRow {
            factor_id: "live-attestation-ceremony",
            probe_wired: !live_attestation_wired(),
            acceptance_credit: false,
            detail: d3,
        },
        SecS6GateFactorRow {
            factor_id: "s6-inspect-delegate",
            probe_wired: manifold_s6_inspect_delegate_verified(),
            acceptance_credit: false,
            detail: d4,
        },
        SecS6GateFactorRow {
            factor_id: "gateway-production-fence",
            probe_wired: str_contains(SEMANTICS_SSOT, "semantic_trust_provenance"),
            acceptance_credit: false,
            detail: d5,
        },
    ];
    assert(factor_rows_match(r@));
    r
}

/// The SEC-S6 gate-factor table, as rendered for operator receipts.
pub open spec fn factor_table_spec() -> Seq<char> {
    "SEC-S6 gate factors: wired="@ + decimal(6) + "/"@ + decimal(6) + " credit=0/"@ + decimal(6)
        + " expected_gate_exit="@ + EXPECTED_GATE_EXIT@ + " scert_credit=BLOCKED expected_scert_exit="@
        + decimal(2) + " sec_s6_production_wired="@ + bool_text(false)
}

/// Render the SEC-S6 gate-factor table for operator receipts.
pub fn sec_s6_gate_factor_table() -> (r: String)
    ensures
        r@ == factor_table_spec(),
{
    let rows = collect_sec_s6_gate_factor_rows();
    let mut wired: usize = 0;
    let mut i: usize = 0;
    while i < rows.len()
        invariant
            factor_rows_match(rows@),
            i <= rows.len(),
            wired == i,
        decreases rows.len() - i,
    {
        assert(rows@[i as int].probe_wired);
        if rows[i].probe_wired {
            wired = wired + 1;
        }
        i = i + 1;
    }
    let mut out = String::new();
    push_str(&mut out, "SEC-S6 gate factors: wired=");
    push_decimal(&mut out, wired as u64);
    push_str(&mut out, "/");
    push_decimal(&mut out, rows.len() as u64);
    push_str(&mut out, " credit=0/");
    push_decimal(&mut out, rows.len() as u64);
    push_str(&mut out, " expected_gate_exit=");
    push_str(&mut out, EXPECTED_GATE_EXIT);
    push_str(&mut out, " scert_credit=BLOCKED expected_scert_exit=");
    push_decimal(&mut out, 2);
    push_str(&mut out, " sec_s6_production_wired=");
    push_bool(&mut out, sec_s6_production_wired());
    assert(out@ =~= factor_table_spec());
    out
}

/// One rendered line of the HCOM prov gateway fence hop table.
pub open spec fn fence_row_text() -> spec_fn(ManifoldHcomProvGwFenceHop) -> Seq<char> {
    |hop: ManifoldHcomProvGwFenceHop| "  "@ + decimal(hop.ordinal as nat) + " surface="@ + hop.surface@ + " role="@ + hop.role@ + "\n"@
}

/// A closing line of the HCOM prov gateway fence hop table.
pub open spec fn fence_table_tail() -> Seq<char> {
    "  hop_count="@ + decimal(HCOM_PROV_GW_WIRE_HOP_COUNT as nat) + " verified="@ + bool_text(true) + " live_attestation_wired="@ + bool_text(false) + " production_wired="@ + bool_text(false) + "\n"@
}

/// The HCOM prov gateway fence hop table, as rendered for operator receipts.
pub open spec fn fence_table_spec() -> Seq<char> {
    "SEC-S6 HCOM prov gateway fence hops (manifold pin):\n"@ + fence_hops_spec().map_values(fence_row_text()).flatten() + fence_table_tail()
}

/// Render the HCOM prov gateway fence hop table for operator receipts.
pub fn sec_s6_hcom_prov_fence_table() -> (r: String)
    ensures
        r@ == fence_table_spec(),
{
    let items = hcom_prov_gw_fence_hops();
    let mut out = String::new();
    push_str(&mut out, "SEC-S6 HCOM prov gateway fence hops (manifold pin):\n");
    let ghost header = out@;
    let mut i: usize = 0;
    while i < items.len()
        invariant
            i <= items.len(),
            items@ == fence_hops_spec(),
            out@ == header + items@.take(i as int).map_values(fence_row_text()).flatten(),
        decreases items.len() - i,
    {
        proof {
            lemma_flatten_step(items@, fence_row_text(), i as int);
        }
        let hop = items[i];
        push_str(&mut out, "  ");
        push_decimal(&mut out, hop.ordinal as u64);
        push_str(&mut out, " surface=");
        push_str(&mut out, hop.surface);
        push_str(&mut out, " role=");
        push_str(&mut out, hop.role);
        push_str(&mut out, "\n");
        assert(out@ == header + items@.take(i + 1).map_values(fence_row_text()).flatten());
        i = i + 1;
    }
    proof {
        lemma_take_all(items@);
    }
    push_str(&mut out, "  hop_count=");
    push_decimal(&mut out, HCOM_PROV_GW_WIRE_HOP_COUNT as u64);
    push_str(&mut out, " verified=");
    push_bool(&mut out, manifold_hcom_prov_gw_fence_hops_verified());
    push_str(&mut out, " live_attestation_wired=");
    push_bool(&mut out, live_attestation_wired());
    push_str(&mut out, " production_wired=");
    push_bool(&mut out, sec_s6_production_wired());
    push_str(&mut out, "\n");
    assert(out@ =~= fence_table_spec());
    out
}

/// The rendered fence table names the semantic admit hop and reports the hops verified.
pub proof fn lemma_fence_table_markers()
    ensures
        seq_contains(fence_table_spec(), "enforce_hcom_prov_semantic_admit"@),
        seq_contains(fence_table_spec(), "verified=true"@),
{
    reveal_strlit("\n");
    reveal_strlit("  ");
    reveal_strlit("  hop_count=");
    reveal_strlit(" live_attestation_wired=");
    reveal_strlit(" production_wired=");
    reveal_strlit(" role=");
    reveal_strlit(" surface=");
    reveal_strlit(" verified=");
    reveal_strlit("Bind attestation chain root prefix into conjunct witness id on admit");
    reveal_strlit("Gateway semantic admit — bind attestation trust to SEC-GW-WRAP surface");
    reveal_strlit("Production compose + trust stamp on semantic admit (JOINT-GATE)");
    reveal_strlit("SEC-GW-WRAP `check_admit_surface` at J2+semantic production compose");
    reveal_strlit("SEC-HCOM-PROV trust attestation SSOT");
    reveal_strlit("enforce_hcom_prov_semantic_admit");
    reveal_strlit("umst-gateway/src/sec_gw_trust_wrap.rs::enforce_j2_semantic_production_admit");
    reveal_strlit("umst-gateway/src/sec_hcom_prov_gw.rs::enforce_hcom_prov_semantic_admit");
    reveal_strlit("umst-gateway/src/semantic_compose.rs::compose_j2_semantic_production_trust_stamped");
    reveal_strlit("umst-gateway/src/semantic_compose.rs::semantic_conjunct_witness_id_with_trust_stamp");
    reveal_strlit("umst-semantics/src/semantic_trust_provenance.rs::SemanticTrustAttestation");
    reveal_strlit("verified=true");
    assert(decimal(1) =~= seq!['1']);
    assert(decimal(2) =~= seq!['2']);
    assert(decimal(3) =~= seq!['3']);
    assert(decimal(4) =~= seq!['4']);
    assert(decimal(5) =~= seq!['5']);
    assert(fence_hops_spec().map_values(fence_row_text())[1].subrange(50, 82) =~= "enforce_hcom_prov_semantic_admit"@);
    assert(matches_at(fence_hops_spec().map_values(fence_row_text())[1], "enforce_hcom_prov_semantic_admit"@, 50));
    lemma_contains_entry(fence_hops_spec().map_values(fence_row_text()), 1, "enforce_hcom_prov_semantic_admit"@);
    assert(fence_table_spec() =~= "SEC-S6 HCOM prov gateway fence hops (manifold pin):\n"@ + fence_hops_spec().map_values(fence_row_text()).flatten() + (fence_table_tail()));
    lemma_contains_extend("SEC-S6 HCOM prov gateway fence hops (manifold pin):\n"@, fence_hops_spec().map_values(fence_row_text()).flatten(), fence_table_tail(), "enforce_hcom_prov_semantic_admit"@);
    assert(fence_table_tail().subrange(14, 27) =~= "verified=true"@);
    assert(matches_at(fence_table_tail(), "verified=true"@, 14));
    assert(fence_table_spec() =~= ("SEC-S6 HCOM prov gateway fence hops (manifold pin):\n"@ + fence_hops_spec().map_values(fence_row_text()).flatten()) + fence_table_tail() + (Seq::<char>::empty()));
    lemma_contains_extend("SEC-S6 HCOM prov gateway fence hops (manifold pin):\n"@ + fence_hops_spec().map_values(fence_row_text()).flatten(), fence_table_tail(), Seq::<char>::empty(), "verified=true"@);
}

/// One rendered line of the SCERT upstream slot table.
pub open spec fn upstream_row_text() -> spec_fn(ManifoldS6UpstreamSlot) -> Seq<char> {
    |slot: ManifoldS6UpstreamSlot| "  "@ + slot.arc_name@ + " command="@ + slot.command@ + " exit="@ + decimal(slot.exit_code as nat) + " owner="@ + slot.live_probe_owner@ + "\n"@
}

/// A closing line of the SCERT upstream slot table.
pub open spec fn upstream_table_tail() -> Seq<char> {
    "  upstream_green=0/"@ + decimal(SCERT_UPSTREAM_SLOT_COUNT as nat) + " verified="@ + bool_text(true) + "\n"@
}

/// The SCERT upstream slot table, as rendered for operator receipts.
pub open spec fn upstream_table_spec() -> Seq<char> {
    "SEC-S6 SCERT upstream composition (hw/l/zero/m):\n"@ + upstream_slots_spec().map_values(upstream_row_text()).flatten() + upstream_table_tail()
}

/// Render the SCERT upstream slot table for operator receipts.
pub fn sec_s6_scert_upstream_table() -> (r: String)
    ensures
        r@ == upstream_table_spec(),
{
    let items = scert_upstream_slots();
    let mut out = String::new();
    push_str(&mut out, "SEC-S6 SCERT upstream composition (hw/l/zero/m):\n");
    let ghost header = out@;
    let mut i: usize = 0;
    while i < items.len()
        invariant
            i <= items.len(),
            items@ == upstream_slots_spec(),
            out@ == header + items@.take(i as int).map_values(upstream_row_text()).flatten(),
        decreases items.len() - i,
    {
        proof {
            lemma_flatten_step(items@, upstream_row_text(), i as int);
        }
        let slot = items[i];
        push_str(&mut out, "  ");
        push_str(&mut out, slot.arc_name);
        push_str(&mut out, " command=");
        push_str(&mut out, slot.command);
        push_str(&mut out, " exit=");
        push_decimal(&mut out, slot.exit_code as u64);
        push_str(&mut out, " owner=");
        push_str(&mut out, slot.live_probe_owner);
        push_str(&mut out, "\n");
        assert(out@ == header + items@.take(i + 1).map_values(upstream_row_text()).flatten());
        i = i + 1;
    }
    proof {
        lemma_take_all(items@);
    }
    push_str(&mut out, "  upstream_green=0/");
    push_decimal(&mut out, SCERT_UPSTREAM_SLOT_COUNT as u64);
    push_str(&mut out, " verified=");
    push_bool(&mut out, manifold_scert_upstream_slots_verified());
    push_str(&mut out, "\n");
    assert(out@ =~= upstream_table_spec());
    out
}

/// The rendered upstream table reports no upstream GREEN and names the H and M arcs.
pub proof fn lemma_upstream_table_markers()
    ensures
        seq_contains(upstream_table_spec(), "upstream_green=0/4"@),
        seq_contains(upstream_table_spec(), "H-Arc"@),
        seq_contains(upstream_table_spec(), "M-Arc"@),
{
    reveal_strlit("\n");
    reveal_strlit("  ");
    reveal_strlit("  upstream_green=0/");
    reveal_strlit(" command=");
    reveal_strlit(" exit=");
    reveal_strlit(" owner=");
    reveal_strlit(" verified=");
    reveal_strlit(":hw-cert --strict --paired");
    reveal_strlit(":lcert --strict");
    reveal_strlit(":mcert --strict --paired");
    reveal_strlit(":zerocert --strict");
    reveal_strlit("H-Arc");
    reveal_strlit("L-Arc");
    reveal_strlit("M-Arc");
    reveal_strlit("Z-Arc");
    reveal_strlit("egoff/egoff/src/slices/14bis_f_S_6_scert_capstone.rs");
    reveal_strlit("upstream_green=0/4");
    assert(decimal(2) =~= seq!['2']);
    assert(decimal(4) =~= seq!['4']);
    assert(upstream_table_tail().subrange(2, 20) =~= "upstream_green=0/4"@);
    assert(matches_at(upstream_table_tail(), "upstream_green=0/4"@, 2));
    assert(upstream_table_spec() =~= ("SEC-S6 SCERT upstream composition (hw/l/zero/m):\n"@ + upstream_slots_spec().map_values(upstream_row_text()).flatten()) + upstream_table_tail() + (Seq::<char>::empty()));
    lemma_contains_extend("SEC-S6 SCERT upstream composition (hw/l/zero/m):\n"@ + upstream_slots_spec().map_values(upstream_row_text()).flatten(), upstream_table_tail(), Seq::<char>::empty(), "upstream_green=0/4"@);
    assert(upstream_slots_spec().map_values(upstream_row_text())[0].subrange(2, 7) =~= "H-Arc"@);
    assert(matches_at(upstream_slots_spec().map_values(upstream_row_text())[0], "H-Arc"@, 2));
    lemma_contains_entry(upstream_slots_spec().map_values(upstream_row_text()), 0, "H-Arc"@);
    assert(upstream_table_spec() =~= "SEC-S6 SCERT upstream composition (hw/l/zero/m):\n"@ + upstream_slots_spec().map_values(upstream_row_text()).flatten() + (upstream_table_tail()));
    lemma_contains_extend("SEC-S6 SCERT upstream composition (hw/l/zero/m):\n"@, upstream_slots_spec().map_values(upstream_row_text()).flatten(), upstream_table_tail(), "H-Arc"@);
    assert(upstream_slots_spec().map_values(upstream_row_text())[3].subrange(2, 7) =~= "M-Arc"@);
    assert(matches_at(upstream_slots_spec().map_values(upstream_row_text())[3], "M-Arc"@, 2));
    lemma_contains_entry(upstream_slots_spec().map_values(upstream_row_text()), 3, "M-Arc"@);
    assert(upstream_table_spec() =~= "SEC-S6 SCERT upstream composition (hw/l/zero/m):\n"@ + upstream_slots_spec().map_values(upstream_row_text()).flatten() + (upstream_table_tail()));
    lemma_contains_extend("SEC-S6 SCERT upstream composition (hw/l/zero/m):\n"@, upstream_slots_spec().map_values(upstream_row_text()).flatten(), upstream_table_tail(), "M-Arc"@);
}

/// FLEET-COMPOSER ACCEL-B AC33 probe — manifold HCOM prov gateway fence deepen.
#[derive(Debug, Clone, Copy, PartialEq, Eq)]
pub struct SecS6AccelAc33Probe {
    /// AC33 card id.
    pub ac33_job_id: &'static str,
    /// Prior 2033 upstream table absorbed.
    pub prior_2033_absorbed: bool,
    /// Prior Z126 S-6 inspect absorbed.
    pub prior_z126_absorbed: bool,
    /// Prior H55 S5 delegate absorbed.
    pub prior_h55_absorbed: bool,
    /// HCOM prov fence table residue pinned.
    pub hcom_prov_fence_table_residue_pinned: bool,
    /// Manifold gate probe.
    pub probe: SecS6GateManifoldProbe,
    /// Ceremony closed.
    pub ceremony_closed: bool,
}

/// Build the FLEET-COMPOSER ACCEL-B AC33 probe.
pub fn sec_s6_accel_ac33_probe(gate_evidence_wired: bool) -> (r: SecS6AccelAc33Probe)
    ensures
        r.ac33_job_id == ACCEL_B_2050_AC33_JOB_ID,
        r.prior_2033_absorbed,
        r.prior_z126_absorbed,
        r.prior_h55_absorbed,
        r.hcom_prov_fence_table_residue_pinned,
        r.probe == manifold_probe_spec(gate_evidence_wired),
        r.ceremony_closed == gate_evidence_wired,
{
    let fence_table = sec_s6_hcom_prov_fence_table();
    let upstream_table = sec_s6_scert_upstream_table();
    proof {
        lemma_ssot_pins();
        lemma_fence_table_markers();
        lemma_upstream_table_markers();
    }
    SecS6AccelAc33Probe {
        ac33_job_id: ACCEL_B_2050_AC33_JOB_ID,
        prior_2033_absorbed: str_contains(PRIOR_RECEIPT_PATH_2033, "SEC-S6_2033"),
        prior_z126_absorbed: str_contains(PRIOR_Z126_RECEIPT_PATH, "COMPOSER_Z126_1232"),
        prior_h55_absorbed: str_contains(PRIOR_H55_RECEIPT_PATH, "COMPOSER_H55_2242"),
        hcom_prov_fence_table_residue_pinned: string_contains(&fence_table, "enforce_hcom_prov_semantic_admit")
            && string_contains(&fence_table, "verified=true") && string_contains(
            &upstream_table,
            "upstream_green=0/4",
        ),
        probe: sec_s6_gate_manifold_probe(gate_evidence_wired),
        ceremony_closed: manifold_gate_sec_s6_ceremony_closed(gate_evidence_wired),
    }
}

/// FLEET-COMPOSER ACCEL-B AC33 honesty gate — honest exactly when the cold-edge evidence
/// admits.
pub fn sec_s6_accel_ac33_honest(gate_evidence_wired: bool) -> (r: bool)
    ensures
        r == gate_evidence_wired,
{
    let probe = sec_s6_accel_ac33_probe(gate_evidence_wired);
    proof {
        lemma_fence_texts();
    }
    str_eq(probe.ac33_job_id, ACCEL_B_2050_AC33_JOB_ID) && probe.prior_2033_absorbed
        && probe.prior_z126_absorbed && probe.prior_h55_absorbed
        && probe.hcom_prov_fence_table_residue_pinned && probe.ceremony_closed
        && probe.probe.gate_evidence_wired && probe.probe.hcom_prov_fence_hops_verified
        && probe.probe.scert_upstream_slots_verified && probe.probe.s6_inspect_delegate_verified
        && probe.probe.live_attestation_honest_false && probe.probe.s6_green_claim_blocked
        && probe.probe.production_honest_false && probe.probe.wire_hop_wired_count == 6
        && !sec_s6_master_retick_eligible() && !sec_s6_op5_cleared() && str_eq(
        W29_125_CELL_ID,
        "W29-125-SEC_S6",
    ) && str_contains(HONEST_FENCE, "green_claim_blocked=true") && str_contains(
        HONEST_FENCE,
        "production_wired=false",
    ) && manifold_sec_s6_gate_wire_integrity_verified()
}

/// Validate SEC-S6 gate census honesty, failing closed on fake production or GREEN claims:
/// it passes exactly when the cold-edge evidence admits, and otherwise refuses with the
/// evidence error.
pub fn validate_sec_s6_gate_honesty(gate_evidence_wired: bool) -> (r: Result<(), &'static str>)
    ensures
        gate_evidence_wired ==> r == Ok::<(), &'static str>(()),
        !gate_evidence_wired ==> r == Err::<(), &'static str>("gate transition evidence probe failed"),
{
    let census = gate_hcom_prov_gateway_fence_census(gate_evidence_wired);
    if census.production_wired {
        return Err("sec_s6_production_wired must stay false until SEC-HCOM-PROV-GW");
    }
    if !census.s6_green_claim_blocked {
        return Err("s6_green_claim_blocked must stay true in scaffold");
    }
    if census.live_attestation_wired {
        return Err("live_attestation_wired must stay false until operator ceremony");
    }
    if !census.gate_evidence_wired {
        return Err("gate transition evidence probe failed");
    }
    if !census.hcom_prov_fence_hops_verified {
        return Err("HCOM prov gateway fence hops must verify at manifold boundary");
    }
    if !census.scert_upstream_slots_verified {
        return Err("SCERT upstream slots must stay PARTIAL at manifold boundary");
    }
    if !census.s6_inspect_delegate_verified {
        return Err("S-6 inspect delegate pins must verify (Z126 absorb)");
    }
    if manifold_sec_s6_gate_wire_hops().len() != MANIFOLD_SEC_S6_GATE_WIRE_HOP_COUNT {
        return Err("seven SEC-S6 gate wire hops expected");
    }
    if census.wire_hop_wired_count != 6 {
        return Err("six SEC-S6 gate wire hops should be wired today");
    }
    if !manifold_sec_s6_gate_wire_integrity_verified() {
        return Err("SEC-S6 gate wire hop integrity (ordinals + open production hop) failed");
    }
    if sec_s6_master_retick_eligible() {
        return Err("SEC-S6 master_retick_eligible must stay honest false");
    }
    if sec_s6_op5_cleared() {
        return Err("SEC-S6 op5_cleared must stay honest false");
    }
    if !manifold_gate_sec_s6_ceremony_closed(gate_evidence_wired) {
        return Err("manifold gate SEC-S6 ceremony must be closed at census tier");
    }
    if !sec_s6_accel_ac33_honest(gate_evidence_wired) {
        return Err("AC33 ACCEL-B probe honesty failed");
    }
    if !sec_s6_honest_fence_holds(gate_evidence_wired) {
        return Err("SEC-S6 W29-125 honest fence must hold (no GREEN/PRODUCTION/MASTER/OP-5)");
    }
    if !str_eq(census.schema_version, SCHEMA_VERSION) {
        return Err("SEC-S6 census schema must pin W29-125 v2 deepen");
    }
    Ok(())
}

/// The word a wire map prints for a hop's wiring.
pub open spec fn wiring_word(wired: bool) -> &'static str {
    if wired {
        "wired"
    } else {
        "open"
    }
}

/// One rendered line of the SEC-S6 gate wire map.
pub open spec fn hop_row_text() -> spec_fn(SecS6GateWireHop) -> Seq<char> {
    |hop: SecS6GateWireHop| "  "@ + decimal(hop.ordinal as nat) + " ["@ + wiring_word(hop.wired)@ + "] "@ + hop.surface@ + " — "@ + hop.role@ + "\n"@
}

/// A closing line of the SEC-S6 gate wire map.
pub open spec fn wire_matrix_counts() -> Seq<char> {
    "  wired="@ + decimal(6 as nat) + "/"@ + decimal(7 as nat) + " production_wired="@ + bool_text(false) + " live_attestation_wired="@ + bool_text(false) + "\n"@
}

/// A closing line of the SEC-S6 gate wire map.
pub open spec fn wire_matrix_fence(gate_evidence_wired: bool) -> Seq<char> {
    "  w29_125_cell="@ + W29_125_CELL_ID@ + " honest_fence_holds="@ + bool_text(gate_evidence_wired) + " master_retick="@ + bool_text(false) + " op5_cleared="@ + bool_text(false) + " wire_integrity="@ + bool_text(true) + "\n"@
}

/// The SEC-S6 gate wire map, as rendered for operator receipts.
pub open spec fn wire_matrix_spec(gate_evidence_wired: bool) -> Seq<char> {
    "SEC-S6 manifold gate HCOM prov gateway fence wire map (AC33):\n"@ + wire_hops_spec().map_values(hop_row_text()).flatten() + wire_matrix_counts() + wire_matrix_fence(gate_evidence_wired)
}

/// Render the SEC-S6 gate wire map for operator receipts.
pub fn sec_s6_gate_wire_matrix(gate_evidence_wired: bool) -> (r: String)
    ensures
        r@ == wire_matrix_spec(gate_evidence_wired),
{
    let hops_len = manifold_sec_s6_gate_wire_hops().len();
    let wired = count_wired_hops(&manifold_sec_s6_gate_wire_hops());
    proof {
        lemma_wire_hops_wired_count();
    }
    let items = manifold_sec_s6_gate_wire_hops();
    let mut out = String::new();
    push_str(&mut out, "SEC-S6 manifold gate HCOM prov gateway fence wire map (AC33):\n");
    let ghost header = out@;
    let mut i: usize = 0;
    while i < items.len()
        invariant
            i <= items.len(),
            items@ == wire_hops_spec(),
            out@ == header + items@.take(i as int).map_values(hop_row_text()).flatten(),
        decreases items.len() - i,
    {
        proof {
            lemma_flatten_step(items@, hop_row_text(), i as int);
        }
        let hop = items[i];
        push_str(&mut out, "  ");
        push_decimal(&mut out, hop.ordinal as u64);
        push_str(&mut out, " [");
        push_str(&mut out, if hop.wired { "wired" } else { "open" });
        push_str(&mut out, "] ");
        push_str(&mut out, hop.surface);
        push_str(&mut out, " — ");
        push_str(&mut out, hop.role);
        push_str(&mut out, "\n");
        assert(out@ == header + items@.take(i + 1).map_values(hop_row_text()).flatten());
        i = i + 1;
    }
    proof {
        lemma_take_all(items@);
    }
    push_str(&mut out, "  wired=");
    push_decimal(&mut out, wired as u64);
    push_str(&mut out, "/");
    push_decimal(&mut out, hops_len as u64);
    push_str(&mut out, " production_wired=");
    push_bool(&mut out, sec_s6_production_wired());
    push_str(&mut out, " live_attestation_wired=");
    push_bool(&mut out, live_attestation_wired());
    push_str(&mut out, "\n");
    push_str(&mut out, "  w29_125_cell=");
    push_str(&mut out, W29_125_CELL_ID);
    push_str(&mut out, " honest_fence_holds=");
    push_bool(&mut out, sec_s6_honest_fence_holds(gate_evidence_wired));
    push_str(&mut out, " master_retick=");
    push_bool(&mut out, sec_s6_master_retick_eligible());
    push_str(&mut out, " op5_cleared=");
    push_bool(&mut out, sec_s6_op5_cleared());
    push_str(&mut out, " wire_integrity=");
    push_bool(&mut out, manifold_sec_s6_gate_wire_integrity_verified());
    push_str(&mut out, "\n");
    assert(out@ =~= wire_matrix_spec(gate_evidence_wired));
    out
}

/// Serial next-hop for the gateway HCOM prov production ceremony.
pub fn sec_s6_hcom_prov_gw_next_hop() -> (r: &'static str)
    ensures
        r@ == "umst-gateway::sec_hcom_prov_gw::hcom_prov_gw_production_wired"@,
{
    "umst-gateway::sec_hcom_prov_gw::hcom_prov_gw_production_wired"
}

} // verus!
