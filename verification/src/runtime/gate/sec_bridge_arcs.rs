//! SEC-BRIDGE-ARCS — manifold gate runtime CoordinationReport thermo/channel and trust wire map.
//!
//! The manifold gate runtime owns the cold-edge census bridging transition evidence to the
//! SEC-BRIDGE-ARCS arcs bridge SSOT; the egoff `CoordinationRuntimeBridge` and the gateway
//! `production_tick_loop` stay honestly open.
//!
//! The W29-116 deepen pins open-residual fences for hops 7 and 8 (egoff and gateway) at census
//! tier. No invented GREEN, PRODUCTION_WIRED, MASTER or OP-5. Every census takes the measured
//! outcome of the cold-edge evidence probe (`gate_evidence_wired`).
use vstd::prelude::*;
use crate::text::{
    seq_contains, matches_at, str_eq, str_contains, string_contains, decimal, bool_text,
    push_str, push_bool, push_decimal, count_where, lemma_count_step, lemma_flatten_step,
    lemma_take_all, lemma_contains_entry, lemma_contains_extend,
};
use crate::runtime::gate::evidence::{TransitionEvidence, witness_admits, cold_edge_witness_admits};

verus! {

/// Board slice id.
pub const BOARD_SLICE_ID: &'static str = "SEC-BRIDGE-ARCS";

/// AGAP slot id (2350 bridge arcs deepen).
pub const JOB_ID: &'static str = "AGAP-2350-SEC-BRIDGE";

/// W29 continuous worklist cell id.
pub const W29_CELL_ID: &'static str = "W29-116-SEC_BRIDGE_ARCS";

/// FLEET-COMPOSER ACCEL-B slot AC35 id.
pub const FLEET_ACCEL_AC35_JOB_ID: &'static str = "ACCEL-B-2050-AC35";

/// FLEET-COMPOSER ACCEL-B AC35 receipt path.
pub const FLEET_ACCEL_AC35_RECEIPT_PATH: &'static str = "outputs/.tmp/COMPOSER_ACCEL2_AC35.md";

/// Prior Y54 thermo/channel + trust runtime receipt.
pub const PRIOR_RECEIPT_PATH_Y54: &'static str = "outputs/.tmp/COMPOSER_Y54_0808.md";

/// Prior G48 trust parity deepen receipt.
pub const PRIOR_RECEIPT_PATH_G48: &'static str = "outputs/.tmp/COMPOSER_G48_BRIDGE_2143.md";

/// Prior Z40 umst-trust boundary close receipt.
pub const PRIOR_RECEIPT_PATH_Z40: &'static str = "outputs/.tmp/COMPOSER_Z40_1015.md";

/// Prior Z40 umst-arcs owner close receipt.
pub const PRIOR_RECEIPT_PATH_Z40_ARCS: &'static str = "outputs/.tmp/COMPOSER_Z40_0928.md";

/// umst-arcs egoff runtime wire SSOT delegate.
pub const ARCS_RUNTIME_SSOT: &'static str = "umst-arcs/crates/umst-arcs/src/egoff_runtime.rs";

/// umst-arcs SEC-BRIDGE-ARCS owner SSOT delegate.
pub const ARCS_BRIDGE_SSOT: &'static str = "umst-arcs/crates/umst-arcs/src/sec_bridge.rs";

/// umst-trust SEC-BRIDGE-ARCS census delegate SSOT (cross-ref only).
pub const TRUST_SSOT: &'static str = "umst-foundations/crates/umst-trust/src/sec_bridge_arcs.rs";

/// egoff runtime bridge target (full-crate verify blocked).
pub const EGOFF_BRIDGE_SSOT: &'static str = "egoff/egoff/src/arcs_bridge.rs";

/// Gateway production tick delegate SSOT (serial next-hop).
pub const GATEWAY_SSOT: &'static str = "umst-gateway/crates/umst-gateway/src/production_tick_loop.rs";

/// Honest adoption tier.
pub const POSTURE_TAG: &'static str = "manifold-gate-census-wired-not-production";

/// Census schema version (v2 = W29 open-residual fence deepen).
pub const SCHEMA_VERSION: &'static str = "sec_bridge_arcs_gate_coordination_census_v2";

/// M18 ecosystem batch trust wire hop count (base 3 + census consumer).
pub const ECOSYSTEM_TRUST_WIRE_HOP_COUNT: usize = 4;

/// Honest open residual hop count (egoff runtime + gateway tick).
pub const OPEN_RESIDUAL_HOP_COUNT: usize = 2;

/// S-Arc GREEN claim blocked — honest true in scaffold deepen.
pub const BRIDGE_ARCS_GREEN_CLAIM_BLOCKED: bool = true;

/// egoff full-crate verify blocked — honest true at the manifold boundary.
pub const EGOFF_FULL_CRATE_VERIFY_BLOCKED: bool = true;

/// MASTER / OP-5 retick eligibility — honest false (census deepen only).
pub const MASTER_RETICK_ELIGIBLE: bool = false;

/// Thermo runtime wire hop ids — pinned from the umst-arcs egoff runtime wire hops.
pub open spec fn thermo_wire_hop_ids_spec() -> Seq<&'static str> {
    seq![
        "egoff_ucrs_agent_tick",
        "mirror_arcs_ucrs_agent",
        "coordination_report_ssot",
        "thermo_parity_verify",
    ]
}

/// Thermo runtime wire hop ids — pinned from the umst-arcs egoff runtime wire hops.
pub fn thermo_wire_hop_ids() -> (r: Vec<&'static str>)
    ensures
        r@ == thermo_wire_hop_ids_spec(),
{
    let r = vec![
        "egoff_ucrs_agent_tick",
        "mirror_arcs_ucrs_agent",
        "coordination_report_ssot",
        "thermo_parity_verify",
    ];
    assert(r@ =~= thermo_wire_hop_ids_spec());
    r
}

/// Trust compose wire hop ids — pinned from the umst-arcs egoff runtime trust wire hops.
pub open spec fn trust_wire_hop_ids_spec() -> Seq<&'static str> {
    seq![
        "compose_coordination_trust",
        "arcs_trusted_coordination_ssot",
        "thermo_parity_after_trust",
    ]
}

/// Trust compose wire hop ids — pinned from the umst-arcs egoff runtime trust wire hops.
pub fn trust_wire_hop_ids() -> (r: Vec<&'static str>)
    ensures
        r@ == trust_wire_hop_ids_spec(),
{
    let r = vec![
        "compose_coordination_trust",
        "arcs_trusted_coordination_ssot",
        "thermo_parity_after_trust",
    ];
    assert(r@ =~= trust_wire_hop_ids_spec());
    r
}

/// One hop in the manifold SEC-BRIDGE-ARCS gate runtime wire map.
#[derive(Debug, Clone, Copy, PartialEq, Eq)]
pub struct SecBridgeArcsGateWireHop {
    /// Ordinal (1-based).
    pub ordinal: u8,
    /// Module or symbol surface.
    pub surface: &'static str,
    /// Role in the admit chain.
    pub role: &'static str,
    /// Whether this hop is wired today.
    pub wired: bool,
}

/// Manifold SEC-BRIDGE-ARCS gate runtime wire map (cold-edge evidence to arcs bridge census).
pub open spec fn wire_hops_spec() -> Seq<SecBridgeArcsGateWireHop> {
    seq![
        SecBridgeArcsGateWireHop { ordinal: 1, surface: "umst-manifold::runtime::gate::evidence::AdmissibilityToken", role: "Gate admit witness token on cold edge", wired: true },
        SecBridgeArcsGateWireHop { ordinal: 2, surface: "umst-manifold::runtime::gate::cartridge::GateCartridge::transition_evidence", role: "CdTransitionCartridge structured witness", wired: true },
        SecBridgeArcsGateWireHop { ordinal: 3, surface: "umst-manifold::runtime::gate::sec_bridge_arcs::gate_bridge_arcs_census", role: "Manifold gate SEC-BRIDGE-ARCS coordination census", wired: true },
        SecBridgeArcsGateWireHop { ordinal: 4, surface: "umst-arcs::egoff_runtime::WIRE_HOPS", role: "Thermo 4-hop CoordinationReport channel SSOT mirror", wired: true },
        SecBridgeArcsGateWireHop { ordinal: 5, surface: "umst-arcs::egoff_runtime::TRUST_WIRE_HOPS", role: "Trust 3-hop compose SSOT mirror", wired: true },
        SecBridgeArcsGateWireHop { ordinal: 6, surface: "umst-arcs::sec_bridge::sec_bridge_trust_runtime_closed", role: "Arcs owner trust-runtime closed delegate (Z40 absorb)", wired: true },
        SecBridgeArcsGateWireHop { ordinal: 7, surface: "egoff::arcs_bridge::CoordinationRuntimeBridge", role: "egoff runtime tick + thermo parity (full-crate verify blocked)", wired: false },
        SecBridgeArcsGateWireHop { ordinal: 8, surface: "umst-gateway::production_tick_loop", role: "Live gateway tick loop (G48 residual)", wired: false },
    ]
}

/// Manifold SEC-BRIDGE-ARCS gate runtime wire map (cold-edge evidence to arcs bridge census).
pub fn manifold_sec_bridge_arcs_gate_wire_hops() -> (r: Vec<SecBridgeArcsGateWireHop>)
    ensures
        r@ == wire_hops_spec(),
{
    let r = vec![
        SecBridgeArcsGateWireHop { ordinal: 1, surface: "umst-manifold::runtime::gate::evidence::AdmissibilityToken", role: "Gate admit witness token on cold edge", wired: true },
        SecBridgeArcsGateWireHop { ordinal: 2, surface: "umst-manifold::runtime::gate::cartridge::GateCartridge::transition_evidence", role: "CdTransitionCartridge structured witness", wired: true },
        SecBridgeArcsGateWireHop { ordinal: 3, surface: "umst-manifold::runtime::gate::sec_bridge_arcs::gate_bridge_arcs_census", role: "Manifold gate SEC-BRIDGE-ARCS coordination census", wired: true },
        SecBridgeArcsGateWireHop { ordinal: 4, surface: "umst-arcs::egoff_runtime::WIRE_HOPS", role: "Thermo 4-hop CoordinationReport channel SSOT mirror", wired: true },
        SecBridgeArcsGateWireHop { ordinal: 5, surface: "umst-arcs::egoff_runtime::TRUST_WIRE_HOPS", role: "Trust 3-hop compose SSOT mirror", wired: true },
        SecBridgeArcsGateWireHop { ordinal: 6, surface: "umst-arcs::sec_bridge::sec_bridge_trust_runtime_closed", role: "Arcs owner trust-runtime closed delegate (Z40 absorb)", wired: true },
        SecBridgeArcsGateWireHop { ordinal: 7, surface: "egoff::arcs_bridge::CoordinationRuntimeBridge", role: "egoff runtime tick + thermo parity (full-crate verify blocked)", wired: false },
        SecBridgeArcsGateWireHop { ordinal: 8, surface: "umst-gateway::production_tick_loop", role: "Live gateway tick loop (G48 residual)", wired: false },
    ];
    assert(r@ =~= wire_hops_spec());
    r
}

/// One honest-open residual fence pin (egoff / gateway — not wired today).
#[derive(Debug, Clone, Copy, PartialEq, Eq)]
pub struct SecBridgeArcsOpenResidualFence {
    /// Residual id (`R-egoff-runtime` / `R-gateway-tick`).
    pub residue_id: &'static str,
    /// Wire hop ordinal on the manifold map.
    pub hop_ordinal: u8,
    /// Delegate SSOT path.
    pub delegate_ssot: &'static str,
    /// Whether the hop remains honest-open (`wired=false`).
    pub honest_open: bool,
    /// Whether GREEN credit is blocked for this residual.
    pub green_credit_blocked: bool,
}

/// Open residual fence pins — hops 7 and 8 measured open at the W29-116 deepen.
pub open spec fn open_residual_fences_spec() -> Seq<SecBridgeArcsOpenResidualFence> {
    seq![
        SecBridgeArcsOpenResidualFence { residue_id: "R-egoff-runtime", hop_ordinal: 7, delegate_ssot: EGOFF_BRIDGE_SSOT, honest_open: true, green_credit_blocked: true },
        SecBridgeArcsOpenResidualFence { residue_id: "R-gateway-tick", hop_ordinal: 8, delegate_ssot: GATEWAY_SSOT, honest_open: true, green_credit_blocked: true },
    ]
}

/// Open residual fence pins — hops 7 and 8 measured open at the W29-116 deepen.
pub fn open_residual_fences() -> (r: Vec<SecBridgeArcsOpenResidualFence>)
    ensures
        r@ == open_residual_fences_spec(),
{
    let r = vec![
        SecBridgeArcsOpenResidualFence { residue_id: "R-egoff-runtime", hop_ordinal: 7, delegate_ssot: EGOFF_BRIDGE_SSOT, honest_open: true, green_credit_blocked: true },
        SecBridgeArcsOpenResidualFence { residue_id: "R-gateway-tick", hop_ordinal: 8, delegate_ssot: GATEWAY_SSOT, honest_open: true, green_credit_blocked: true },
    ];
    assert(r@ =~= open_residual_fences_spec());
    r
}

/// Selects the wired hops of a wire map.
pub open spec fn hop_is_wired() -> spec_fn(SecBridgeArcsGateWireHop) -> bool {
    |h: SecBridgeArcsGateWireHop| h.wired
}

/// Selects the unwired hops of a wire map.
pub open spec fn hop_is_open() -> spec_fn(SecBridgeArcsGateWireHop) -> bool {
    |h: SecBridgeArcsGateWireHop| !h.wired
}

/// Six of the eight gate wire hops are wired today.
pub proof fn lemma_wire_hops_wired_count()
    ensures
        count_where(wire_hops_spec(), hop_is_wired()) == 6,
{
    let s = wire_hops_spec();
    let p = hop_is_wired();
    assert(s.take(0) =~= Seq::<SecBridgeArcsGateWireHop>::empty());
    lemma_count_step(s, p, 0);
    lemma_count_step(s, p, 1);
    lemma_count_step(s, p, 2);
    lemma_count_step(s, p, 3);
    lemma_count_step(s, p, 4);
    lemma_count_step(s, p, 5);
    lemma_count_step(s, p, 6);
    lemma_count_step(s, p, 7);
    lemma_take_all(s);
}

/// Two of the eight gate wire hops stay open.
pub proof fn lemma_wire_hops_open_count()
    ensures
        count_where(wire_hops_spec(), hop_is_open()) == 2,
{
    let s = wire_hops_spec();
    let p = hop_is_open();
    assert(s.take(0) =~= Seq::<SecBridgeArcsGateWireHop>::empty());
    lemma_count_step(s, p, 0);
    lemma_count_step(s, p, 1);
    lemma_count_step(s, p, 2);
    lemma_count_step(s, p, 3);
    lemma_count_step(s, p, 4);
    lemma_count_step(s, p, 5);
    lemma_count_step(s, p, 6);
    lemma_count_step(s, p, 7);
    lemma_take_all(s);
}

/// Count the wired hops of a wire map.
pub fn count_wired_hops(items: &Vec<SecBridgeArcsGateWireHop>) -> (r: usize)
    ensures
        r == count_where(items@, hop_is_wired()),
{
    let mut n: usize = 0;
    let mut i: usize = 0;
    while i < items.len()
        invariant
            i <= items.len(),
            n == count_where(items@.take(i as int), hop_is_wired()),
            n <= i,
        decreases items.len() - i,
    {
        proof {
            lemma_count_step(items@, hop_is_wired(), i as int);
        }
        if items[i].wired {
            n = n + 1;
        }
        i = i + 1;
    }
    proof {
        lemma_take_all(items@);
    }
    n
}

/// Count the open (unwired) hops of a wire map.
pub fn count_open_hops(items: &Vec<SecBridgeArcsGateWireHop>) -> (r: usize)
    ensures
        r == count_where(items@, hop_is_open()),
{
    let mut n: usize = 0;
    let mut i: usize = 0;
    while i < items.len()
        invariant
            i <= items.len(),
            n == count_where(items@.take(i as int), hop_is_open()),
            n <= i,
        decreases items.len() - i,
    {
        proof {
            lemma_count_step(items@, hop_is_open(), i as int);
        }
        if !items[i].wired {
            n = n + 1;
        }
        i = i + 1;
    }
    proof {
        lemma_take_all(items@);
    }
    n
}

/// The pinned receipt paths and schema carry the markers the census checks for.
pub proof fn lemma_ssot_pins()
    ensures
        seq_contains(FLEET_ACCEL_AC35_RECEIPT_PATH@, "COMPOSER_ACCEL2_AC35"@),
        seq_contains(PRIOR_RECEIPT_PATH_Y54@, "COMPOSER_Y54"@),
        seq_contains(PRIOR_RECEIPT_PATH_G48@, "COMPOSER_G48_BRIDGE"@),
        seq_contains(PRIOR_RECEIPT_PATH_Z40@, "COMPOSER_Z40_1015"@),
        seq_contains(PRIOR_RECEIPT_PATH_Z40_ARCS@, "COMPOSER_Z40_0928"@),
        seq_contains(SCHEMA_VERSION@, "_v2"@),
{
    reveal_strlit("outputs/.tmp/COMPOSER_ACCEL2_AC35.md");
    reveal_strlit("COMPOSER_ACCEL2_AC35");
    reveal_strlit("outputs/.tmp/COMPOSER_Y54_0808.md");
    reveal_strlit("COMPOSER_Y54");
    reveal_strlit("outputs/.tmp/COMPOSER_G48_BRIDGE_2143.md");
    reveal_strlit("COMPOSER_G48_BRIDGE");
    reveal_strlit("outputs/.tmp/COMPOSER_Z40_1015.md");
    reveal_strlit("COMPOSER_Z40_1015");
    reveal_strlit("outputs/.tmp/COMPOSER_Z40_0928.md");
    reveal_strlit("COMPOSER_Z40_0928");
    reveal_strlit("sec_bridge_arcs_gate_coordination_census_v2");
    reveal_strlit("_v2");
    assert(FLEET_ACCEL_AC35_RECEIPT_PATH@.subrange(13, 33) =~= "COMPOSER_ACCEL2_AC35"@);
    assert(matches_at(FLEET_ACCEL_AC35_RECEIPT_PATH@, "COMPOSER_ACCEL2_AC35"@, 13));
    assert(PRIOR_RECEIPT_PATH_Y54@.subrange(13, 25) =~= "COMPOSER_Y54"@);
    assert(matches_at(PRIOR_RECEIPT_PATH_Y54@, "COMPOSER_Y54"@, 13));
    assert(PRIOR_RECEIPT_PATH_G48@.subrange(13, 32) =~= "COMPOSER_G48_BRIDGE"@);
    assert(matches_at(PRIOR_RECEIPT_PATH_G48@, "COMPOSER_G48_BRIDGE"@, 13));
    assert(PRIOR_RECEIPT_PATH_Z40@.subrange(13, 30) =~= "COMPOSER_Z40_1015"@);
    assert(matches_at(PRIOR_RECEIPT_PATH_Z40@, "COMPOSER_Z40_1015"@, 13));
    assert(PRIOR_RECEIPT_PATH_Z40_ARCS@.subrange(13, 30) =~= "COMPOSER_Z40_0928"@);
    assert(matches_at(PRIOR_RECEIPT_PATH_Z40_ARCS@, "COMPOSER_Z40_0928"@, 13));
    assert(SCHEMA_VERSION@.subrange(40, 43) =~= "_v2"@);
    assert(matches_at(SCHEMA_VERSION@, "_v2"@, 40));
}

/// Exercise gate cold-edge evidence at the manifold SSOT (the identity transition admits).
pub fn gate_transition_evidence_probe(evidence: &TransitionEvidence) -> (r: bool)
    ensures
        r == witness_admits(*evidence),
{
    cold_edge_witness_admits(evidence)
}

/// Whether the live egoff runtime bridge and gateway tick are plumbed (honest `false`).
pub fn sec_bridge_arcs_production_wired() -> (r: bool)
    ensures
        !r,
{
    false
}

/// Whether MASTER / OP-5 retick is eligible (honest `false` at census deepen).
pub fn sec_bridge_arcs_master_retick_eligible() -> (r: bool)
    ensures
        r == MASTER_RETICK_ELIGIBLE,
        !r,
{
    MASTER_RETICK_ELIGIBLE
}

/// Whether the thermo wire hop inventory matches the egoff SSOT pin at the manifold boundary.
pub fn manifold_bridge_arcs_thermo_wire_hops_verified() -> (r: bool)
    ensures
        r,
{
    let ids = thermo_wire_hop_ids();
    ids.len() == 4 && str_eq(ids[0], "egoff_ucrs_agent_tick") && str_eq(ids[3], "thermo_parity_verify")
}

/// Whether the trust wire hop inventory matches the egoff SSOT pin at the manifold boundary.
pub fn manifold_bridge_arcs_trust_wire_hops_verified() -> (r: bool)
    ensures
        r,
{
    let ids = trust_wire_hop_ids();
    ids.len() == 3 && str_eq(ids[0], "compose_coordination_trust") && str_eq(
        ids[2],
        "thermo_parity_after_trust",
    )
}

/// Whether some hop of a wire map sits at `ordinal` and is open.
fn open_hop_at(hops: &Vec<SecBridgeArcsGateWireHop>, ordinal: u8) -> (r: bool)
    ensures
        r == exists|i: int| 0 <= i < hops@.len() && #[trigger] hops@[i].ordinal == ordinal && !hops@[i].wired,
{
    let mut i: usize = 0;
    while i < hops.len()
        invariant
            i <= hops.len(),
            forall|k: int| 0 <= k < i ==> !(#[trigger] hops@[k].ordinal == ordinal && !hops@[k].wired),
        decreases hops.len() - i,
    {
        if hops[i].ordinal == ordinal && !hops[i].wired {
            return true;
        }
        i = i + 1;
    }
    false
}

/// One open residual fence matches its expected residue id and hop, stays open and blocks
/// GREEN credit, and names a delegate.
pub open spec fn fence_pinned(f: SecBridgeArcsOpenResidualFence, id: &'static str, ordinal: u8) -> bool {
    f.residue_id@ == id@ && f.hop_ordinal == ordinal && f.honest_open && f.green_credit_blocked
        && f.delegate_ssot@.len() > 0
}

/// Check one open residual fence against its expected residue id and hop.
fn check_fence(f: SecBridgeArcsOpenResidualFence, id: &'static str, ordinal: u8) -> (r: bool)
    ensures
        r == fence_pinned(f, id, ordinal),
{
    str_eq(f.residue_id, id) && f.hop_ordinal == ordinal && f.honest_open && f.green_credit_blocked
        && !f.delegate_ssot.is_empty()
}

/// Whether the open residual fence pins match the unwired hops 7 and 8 on the wire map.
pub fn manifold_bridge_arcs_open_residual_fences_verified() -> (r: bool)
    ensures
        r,
{
    let fences = open_residual_fences();
    let hops = manifold_sec_bridge_arcs_gate_wire_hops();
    proof {
        reveal_strlit("egoff/egoff/src/arcs_bridge.rs");
        reveal_strlit("umst-gateway/crates/umst-gateway/src/production_tick_loop.rs");
        lemma_wire_hops_open_count();
    }
    if fences.len() != OPEN_RESIDUAL_HOP_COUNT {
        return false;
    }
    let pinned = check_fence(fences[0], "R-egoff-runtime", 7) && check_fence(fences[1], "R-gateway-tick", 8);
    let open_count = count_open_hops(&hops);
    let first = open_hop_at(&hops, fences[0].hop_ordinal);
    let second = open_hop_at(&hops, fences[1].hop_ordinal);
    assert(hops@[6].ordinal == 7 && !hops@[6].wired);
    assert(hops@[7].ordinal == 8 && !hops@[7].wired);
    pinned && open_count == OPEN_RESIDUAL_HOP_COUNT && first && second
}

/// Aggregated SEC-BRIDGE-ARCS gate coordination census on the manifold boundary.
#[derive(Debug, Clone, Copy, PartialEq, Eq)]
pub struct SecBridgeArcsGateCoordinationCensus {
    /// Census schema tag.
    pub schema_version: &'static str,
    /// Board slice id.
    pub board_slice_id: &'static str,
    /// W29 cell id pin.
    pub w29_cell_id: &'static str,
    /// Gate transition evidence probe passed.
    pub gate_evidence_wired: bool,
    /// Thermo runtime hop count (4).
    pub thermo_wire_hops: usize,
    /// Trust compose hop count (3).
    pub trust_wire_hops: usize,
    /// Ecosystem batch trust wire hop count (4).
    pub ecosystem_trust_wire_hops: usize,
    /// Honest open residual hop count (2).
    pub open_residual_hop_count: usize,
    /// Open residual fence pins verified.
    pub open_residual_fences_verified: bool,
    /// S-Arc GREEN claim blocked — honest true.
    pub bridge_arcs_green_claim_blocked: bool,
    /// egoff full-crate verify blocked — honest true.
    pub egoff_full_crate_verify_blocked: bool,
    /// MASTER / OP-5 retick — honest false.
    pub master_retick_eligible: bool,
    /// Gateway production flip.
    pub production_wired: bool,
    /// Wired hop count.
    pub wire_hop_wired_count: u8,
}

/// Build the manifold SEC-BRIDGE-ARCS gate coordination census from live measurements.
pub fn gate_bridge_arcs_census(gate_evidence_wired: bool) -> (r: SecBridgeArcsGateCoordinationCensus)
    ensures
        r.schema_version == SCHEMA_VERSION,
        r.board_slice_id == BOARD_SLICE_ID,
        r.w29_cell_id == W29_CELL_ID,
        r.gate_evidence_wired == gate_evidence_wired,
        r.thermo_wire_hops == 4,
        r.trust_wire_hops == 3,
        r.ecosystem_trust_wire_hops == ECOSYSTEM_TRUST_WIRE_HOP_COUNT,
        r.open_residual_hop_count == OPEN_RESIDUAL_HOP_COUNT,
        r.open_residual_fences_verified,
        r.bridge_arcs_green_claim_blocked,
        r.egoff_full_crate_verify_blocked,
        !r.master_retick_eligible,
        !r.production_wired,
        r.wire_hop_wired_count == 6,
{
    let hops = manifold_sec_bridge_arcs_gate_wire_hops();
    let wired = count_wired_hops(&hops);
    proof {
        lemma_wire_hops_wired_count();
    }
    SecBridgeArcsGateCoordinationCensus {
        schema_version: SCHEMA_VERSION,
        board_slice_id: BOARD_SLICE_ID,
        w29_cell_id: W29_CELL_ID,
        gate_evidence_wired,
        thermo_wire_hops: thermo_wire_hop_ids().len(),
        trust_wire_hops: trust_wire_hop_ids().len(),
        ecosystem_trust_wire_hops: ECOSYSTEM_TRUST_WIRE_HOP_COUNT,
        open_residual_hop_count: OPEN_RESIDUAL_HOP_COUNT,
        open_residual_fences_verified: manifold_bridge_arcs_open_residual_fences_verified(),
        bridge_arcs_green_claim_blocked: BRIDGE_ARCS_GREEN_CLAIM_BLOCKED,
        egoff_full_crate_verify_blocked: EGOFF_FULL_CRATE_VERIFY_BLOCKED,
        master_retick_eligible: sec_bridge_arcs_master_retick_eligible(),
        production_wired: sec_bridge_arcs_production_wired(),
        wire_hop_wired_count: wired as u8,
    }
}

/// Whether the manifold gate SEC-BRIDGE-ARCS ceremony is closed at census tier: bridge wire
/// map hops 1–6 are measured wired and the open residual fences for hops 7 and 8 are pinned
/// honest-open, so it is closed exactly when the cold-edge evidence admits. The egoff runtime
/// bridge and the gateway production tick are explicit non-blockers.
pub fn manifold_gate_sec_bridge_arcs_ceremony_closed(gate_evidence_wired: bool) -> (r: bool)
    ensures
        r == gate_evidence_wired,
{
    let census = gate_bridge_arcs_census(gate_evidence_wired);
    census.gate_evidence_wired && census.thermo_wire_hops == 4 && census.trust_wire_hops == 3
        && census.ecosystem_trust_wire_hops == 4 && census.open_residual_hop_count == 2
        && census.open_residual_fences_verified && census.bridge_arcs_green_claim_blocked
        && census.egoff_full_crate_verify_blocked && !census.master_retick_eligible
        && !census.production_wired && census.wire_hop_wired_count == 6 && str_eq(
        census.w29_cell_id,
        W29_CELL_ID,
    ) && manifold_bridge_arcs_thermo_wire_hops_verified()
        && manifold_bridge_arcs_trust_wire_hops_verified() && gate_evidence_wired
}

/// Typed probe for SEC-BRIDGE-ARCS manifold gate closure honesty.
#[derive(Debug, Clone, Copy, PartialEq, Eq, Structural)]
pub struct SecBridgeArcsGateManifoldProbe {
    /// Gate transition evidence probe.
    pub gate_evidence_wired: bool,
    /// Thermo wire hops verified.
    pub thermo_wire_hops_verified: bool,
    /// Trust wire hops verified.
    pub trust_wire_hops_verified: bool,
    /// Open residual fences verified.
    pub open_residual_fences_verified: bool,
    /// GREEN claim blocked.
    pub bridge_arcs_green_claim_blocked: bool,
    /// egoff full-crate verify blocked.
    pub egoff_full_crate_verify_blocked: bool,
    /// MASTER / OP-5 retick honest false.
    pub master_retick_honest_false: bool,
    /// Production flip honest false.
    pub production_honest_false: bool,
    /// Manifold wire hop wired count.
    pub wire_hop_wired_count: u8,
    /// Manifold ceremony close predicate.
    pub ceremony_closed: bool,
}

/// The manifold probe measured for a given cold-edge outcome.
pub open spec fn manifold_probe_spec(gate_evidence_wired: bool) -> SecBridgeArcsGateManifoldProbe {
    SecBridgeArcsGateManifoldProbe {
        gate_evidence_wired,
        thermo_wire_hops_verified: true,
        trust_wire_hops_verified: true,
        open_residual_fences_verified: true,
        bridge_arcs_green_claim_blocked: true,
        egoff_full_crate_verify_blocked: true,
        master_retick_honest_false: true,
        production_honest_false: true,
        wire_hop_wired_count: 6,
        ceremony_closed: gate_evidence_wired,
    }
}

/// Build the introspection probe for SEC-BRIDGE-ARCS done-when checks.
pub fn sec_bridge_arcs_gate_manifold_probe(gate_evidence_wired: bool) -> (r: SecBridgeArcsGateManifoldProbe)
    ensures
        r == manifold_probe_spec(gate_evidence_wired),
{
    let census = gate_bridge_arcs_census(gate_evidence_wired);
    SecBridgeArcsGateManifoldProbe {
        gate_evidence_wired: census.gate_evidence_wired,
        thermo_wire_hops_verified: manifold_bridge_arcs_thermo_wire_hops_verified(),
        trust_wire_hops_verified: manifold_bridge_arcs_trust_wire_hops_verified(),
        open_residual_fences_verified: census.open_residual_fences_verified,
        bridge_arcs_green_claim_blocked: census.bridge_arcs_green_claim_blocked,
        egoff_full_crate_verify_blocked: census.egoff_full_crate_verify_blocked,
        master_retick_honest_false: !census.master_retick_eligible,
        production_honest_false: !census.production_wired,
        wire_hop_wired_count: census.wire_hop_wired_count,
        ceremony_closed: manifold_gate_sec_bridge_arcs_ceremony_closed(gate_evidence_wired),
    }
}

/// One rendered line of the SEC-BRIDGE-ARCS open residual fence table.
pub open spec fn residual_row_text() -> spec_fn(SecBridgeArcsOpenResidualFence) -> Seq<char> {
    |fence: SecBridgeArcsOpenResidualFence| "  "@ + fence.residue_id@ + " hop="@ + decimal(fence.hop_ordinal as nat) + " honest_open="@ + bool_text(fence.honest_open) + " green_credit_blocked="@ + bool_text(fence.green_credit_blocked) + " delegate="@ + fence.delegate_ssot@ + "\n"@
}

/// A closing line of the SEC-BRIDGE-ARCS open residual fence table.
pub open spec fn residual_table_tail() -> Seq<char> {
    "  open_residual_hop_count="@ + decimal(OPEN_RESIDUAL_HOP_COUNT as nat) + " fences_verified="@ + bool_text(true) + " production_wired="@ + bool_text(false) + " master_retick="@ + bool_text(false) + "\n"@
}

/// The SEC-BRIDGE-ARCS open residual fence table, as rendered for operator receipts.
pub open spec fn residual_table_spec() -> Seq<char> {
    "SEC-BRIDGE-ARCS open residual fences (W29-116):\n"@ + open_residual_fences_spec().map_values(residual_row_text()).flatten() + residual_table_tail()
}

/// Render the SEC-BRIDGE-ARCS open residual fence table for operator receipts.
pub fn sec_bridge_arcs_open_residual_fence_table() -> (r: String)
    ensures
        r@ == residual_table_spec(),
{
    let items = open_residual_fences();
    let mut out = String::new();
    push_str(&mut out, "SEC-BRIDGE-ARCS open residual fences (W29-116):\n");
    let ghost header = out@;
    let mut i: usize = 0;
    while i < items.len()
        invariant
            i <= items.len(),
            items@ == open_residual_fences_spec(),
            out@ == header + items@.take(i as int).map_values(residual_row_text()).flatten(),
        decreases items.len() - i,
    {
        proof {
            lemma_flatten_step(items@, residual_row_text(), i as int);
        }
        let fence = items[i];
        push_str(&mut out, "  ");
        push_str(&mut out, fence.residue_id);
        push_str(&mut out, " hop=");
        push_decimal(&mut out, fence.hop_ordinal as u64);
        push_str(&mut out, " honest_open=");
        push_bool(&mut out, fence.honest_open);
        push_str(&mut out, " green_credit_blocked=");
        push_bool(&mut out, fence.green_credit_blocked);
        push_str(&mut out, " delegate=");
        push_str(&mut out, fence.delegate_ssot);
        push_str(&mut out, "\n");
        assert(out@ == header + items@.take(i + 1).map_values(residual_row_text()).flatten());
        i = i + 1;
    }
    proof {
        lemma_take_all(items@);
    }
    push_str(&mut out, "  open_residual_hop_count=");
    push_decimal(&mut out, OPEN_RESIDUAL_HOP_COUNT as u64);
    push_str(&mut out, " fences_verified=");
    push_bool(&mut out, manifold_bridge_arcs_open_residual_fences_verified());
    push_str(&mut out, " production_wired=");
    push_bool(&mut out, sec_bridge_arcs_production_wired());
    push_str(&mut out, " master_retick=");
    push_bool(&mut out, sec_bridge_arcs_master_retick_eligible());
    push_str(&mut out, "\n");
    assert(out@ =~= residual_table_spec());
    out
}

/// The rendered residual fence table names both residues and reports the fence verification.
pub proof fn lemma_residual_table_markers()
    ensures
        seq_contains(residual_table_spec(), "R-egoff-runtime"@),
        seq_contains(residual_table_spec(), "R-gateway-tick"@),
        seq_contains(residual_table_spec(), "fences_verified="@),
{
    reveal_strlit("\n");
    reveal_strlit("  ");
    reveal_strlit("  open_residual_hop_count=");
    reveal_strlit(" delegate=");
    reveal_strlit(" fences_verified=");
    reveal_strlit(" green_credit_blocked=");
    reveal_strlit(" honest_open=");
    reveal_strlit(" hop=");
    reveal_strlit(" master_retick=");
    reveal_strlit(" production_wired=");
    reveal_strlit("R-egoff-runtime");
    reveal_strlit("R-gateway-tick");
    reveal_strlit("egoff/egoff/src/arcs_bridge.rs");
    reveal_strlit("fences_verified=");
    reveal_strlit("umst-gateway/crates/umst-gateway/src/production_tick_loop.rs");
    assert(decimal(2) =~= seq!['2']);
    assert(decimal(7) =~= seq!['7']);
    assert(decimal(8) =~= seq!['8']);
    assert(open_residual_fences_spec().map_values(residual_row_text())[0].subrange(2, 17) =~= "R-egoff-runtime"@);
    assert(matches_at(open_residual_fences_spec().map_values(residual_row_text())[0], "R-egoff-runtime"@, 2));
    lemma_contains_entry(open_residual_fences_spec().map_values(residual_row_text()), 0, "R-egoff-runtime"@);
    assert(residual_table_spec() =~= "SEC-BRIDGE-ARCS open residual fences (W29-116):\n"@ + open_residual_fences_spec().map_values(residual_row_text()).flatten() + (residual_table_tail()));
    lemma_contains_extend("SEC-BRIDGE-ARCS open residual fences (W29-116):\n"@, open_residual_fences_spec().map_values(residual_row_text()).flatten(), residual_table_tail(), "R-egoff-runtime"@);
    assert(open_residual_fences_spec().map_values(residual_row_text())[1].subrange(2, 16) =~= "R-gateway-tick"@);
    assert(matches_at(open_residual_fences_spec().map_values(residual_row_text())[1], "R-gateway-tick"@, 2));
    lemma_contains_entry(open_residual_fences_spec().map_values(residual_row_text()), 1, "R-gateway-tick"@);
    assert(residual_table_spec() =~= "SEC-BRIDGE-ARCS open residual fences (W29-116):\n"@ + open_residual_fences_spec().map_values(residual_row_text()).flatten() + (residual_table_tail()));
    lemma_contains_extend("SEC-BRIDGE-ARCS open residual fences (W29-116):\n"@, open_residual_fences_spec().map_values(residual_row_text()).flatten(), residual_table_tail(), "R-gateway-tick"@);
    assert(residual_table_tail().subrange(28, 44) =~= "fences_verified="@);
    assert(matches_at(residual_table_tail(), "fences_verified="@, 28));
    assert(residual_table_spec() =~= ("SEC-BRIDGE-ARCS open residual fences (W29-116):\n"@ + open_residual_fences_spec().map_values(residual_row_text()).flatten()) + residual_table_tail() + (Seq::<char>::empty()));
    lemma_contains_extend("SEC-BRIDGE-ARCS open residual fences (W29-116):\n"@ + open_residual_fences_spec().map_values(residual_row_text()).flatten(), residual_table_tail(), Seq::<char>::empty(), "fences_verified="@);
}

/// FLEET-COMPOSER ACCEL-B AC35 integration probe.
#[derive(Debug, Clone, Copy, PartialEq, Eq)]
pub struct SecBridgeArcsAccelAc35Probe {
    /// AC35 fleet slot id.
    pub ac35_job_id: &'static str,
    /// AC35 receipt path pinned.
    pub ac35_receipt_honest: bool,
    /// Prior Y54 absorb receipt.
    pub prior_y54_absorbed: bool,
    /// Prior G48 absorb receipt.
    pub prior_g48_absorbed: bool,
    /// Prior Z40 trust cross-ref receipt.
    pub prior_z40_trust_absorbed: bool,
    /// Prior Z40 arcs owner receipt.
    pub prior_z40_arcs_absorbed: bool,
    /// Open residual fence table residue pinned.
    pub open_residual_table_residue_pinned: bool,
    /// Underlying gate probe.
    pub probe: SecBridgeArcsGateManifoldProbe,
    /// Manifold ceremony close predicate.
    pub ceremony_closed: bool,
    /// Production flip — honest false.
    pub production_wired: bool,
}

/// Build the FLEET-COMPOSER ACCEL-B AC35 integration probe from live measurements.
pub fn sec_bridge_arcs_accel_ac35_probe(gate_evidence_wired: bool) -> (r: SecBridgeArcsAccelAc35Probe)
    ensures
        r.ac35_job_id == FLEET_ACCEL_AC35_JOB_ID,
        r.ac35_receipt_honest,
        r.prior_y54_absorbed,
        r.prior_g48_absorbed,
        r.prior_z40_trust_absorbed,
        r.prior_z40_arcs_absorbed,
        r.open_residual_table_residue_pinned,
        r.probe == manifold_probe_spec(gate_evidence_wired),
        r.ceremony_closed == gate_evidence_wired,
        !r.production_wired,
{
    let residual_table = sec_bridge_arcs_open_residual_fence_table();
    proof {
        lemma_ssot_pins();
        lemma_residual_table_markers();
    }
    SecBridgeArcsAccelAc35Probe {
        ac35_job_id: FLEET_ACCEL_AC35_JOB_ID,
        ac35_receipt_honest: str_contains(FLEET_ACCEL_AC35_RECEIPT_PATH, "COMPOSER_ACCEL2_AC35"),
        prior_y54_absorbed: str_contains(PRIOR_RECEIPT_PATH_Y54, "COMPOSER_Y54"),
        prior_g48_absorbed: str_contains(PRIOR_RECEIPT_PATH_G48, "COMPOSER_G48_BRIDGE"),
        prior_z40_trust_absorbed: str_contains(PRIOR_RECEIPT_PATH_Z40, "COMPOSER_Z40_1015"),
        prior_z40_arcs_absorbed: str_contains(PRIOR_RECEIPT_PATH_Z40_ARCS, "COMPOSER_Z40_0928"),
        open_residual_table_residue_pinned: string_contains(&residual_table, "R-egoff-runtime")
            && string_contains(&residual_table, "R-gateway-tick") && string_contains(
            &residual_table,
            "fences_verified=",
        ),
        probe: sec_bridge_arcs_gate_manifold_probe(gate_evidence_wired),
        ceremony_closed: manifold_gate_sec_bridge_arcs_ceremony_closed(gate_evidence_wired),
        production_wired: sec_bridge_arcs_production_wired(),
    }
}

/// FLEET-COMPOSER ACCEL-B AC35 honesty gate — ceremony closed, Y54/G48/Z40 absorbed,
/// production false; honest exactly when the cold-edge evidence admits.
pub fn sec_bridge_arcs_accel_ac35_honest(gate_evidence_wired: bool) -> (r: bool)
    ensures
        r == gate_evidence_wired,
{
    let probe = sec_bridge_arcs_accel_ac35_probe(gate_evidence_wired);
    str_eq(probe.ac35_job_id, FLEET_ACCEL_AC35_JOB_ID) && probe.ac35_receipt_honest
        && probe.prior_y54_absorbed && probe.prior_g48_absorbed && probe.prior_z40_trust_absorbed
        && probe.prior_z40_arcs_absorbed && probe.open_residual_table_residue_pinned
        && probe.ceremony_closed && probe.probe.gate_evidence_wired
        && probe.probe.thermo_wire_hops_verified && probe.probe.trust_wire_hops_verified
        && probe.probe.open_residual_fences_verified && probe.probe.bridge_arcs_green_claim_blocked
        && probe.probe.egoff_full_crate_verify_blocked && probe.probe.master_retick_honest_false
        && probe.probe.production_honest_false && probe.probe.wire_hop_wired_count == 6
        && !probe.production_wired
}

/// W29-116 deepen probe — open-residual fence and AC35 honesty.
#[derive(Debug, Clone, Copy, PartialEq, Eq)]
pub struct SecBridgeArcsW29DeepenProbe {
    /// W29 cell id.
    pub w29_cell_id: &'static str,
    /// Schema version pin.
    pub schema_version: &'static str,
    /// Open residual fence count.
    pub open_residual_hop_count: usize,
    /// Open residual fences verified.
    pub open_residual_fences_verified: bool,
    /// Open residual table residue pinned.
    pub open_residual_table_residue_pinned: bool,
    /// AC35 honesty.
    pub ac35_honest: bool,
    /// Ceremony closed.
    pub ceremony_closed: bool,
    /// Production wired — honest false.
    pub production_wired: bool,
    /// MASTER retick — honest false.
    pub master_retick_eligible: bool,
    /// GREEN claim blocked — honest true.
    pub bridge_arcs_green_claim_blocked: bool,
}

/// Build the W29-116 deepen probe from live measurements.
pub fn sec_bridge_arcs_w29_deepen_probe(gate_evidence_wired: bool) -> (r: SecBridgeArcsW29DeepenProbe)
    ensures
        r.w29_cell_id == W29_CELL_ID,
        r.schema_version == SCHEMA_VERSION,
        r.open_residual_hop_count == OPEN_RESIDUAL_HOP_COUNT,
        r.open_residual_fences_verified,
        r.open_residual_table_residue_pinned,
        r.ac35_honest == gate_evidence_wired,
        r.ceremony_closed == gate_evidence_wired,
        !r.production_wired,
        !r.master_retick_eligible,
        r.bridge_arcs_green_claim_blocked,
{
    let residual_table = sec_bridge_arcs_open_residual_fence_table();
    proof {
        lemma_residual_table_markers();
    }
    SecBridgeArcsW29DeepenProbe {
        w29_cell_id: W29_CELL_ID,
        schema_version: SCHEMA_VERSION,
        open_residual_hop_count: OPEN_RESIDUAL_HOP_COUNT,
        open_residual_fences_verified: manifold_bridge_arcs_open_residual_fences_verified(),
        open_residual_table_residue_pinned: string_contains(&residual_table, "R-egoff-runtime")
            && string_contains(&residual_table, "R-gateway-tick"),
        ac35_honest: sec_bridge_arcs_accel_ac35_honest(gate_evidence_wired),
        ceremony_closed: manifold_gate_sec_bridge_arcs_ceremony_closed(gate_evidence_wired),
        production_wired: sec_bridge_arcs_production_wired(),
        master_retick_eligible: sec_bridge_arcs_master_retick_eligible(),
        bridge_arcs_green_claim_blocked: BRIDGE_ARCS_GREEN_CLAIM_BLOCKED,
    }
}

/// W29-116 deepen honesty — open residuals pinned, AC35 honest, no invented
/// GREEN/PRODUCTION/MASTER; honest exactly when the cold-edge evidence admits.
pub fn sec_bridge_arcs_w29_deepen_honest(gate_evidence_wired: bool) -> (r: bool)
    ensures
        r == gate_evidence_wired,
{
    let probe = sec_bridge_arcs_w29_deepen_probe(gate_evidence_wired);
    proof {
        lemma_ssot_pins();
    }
    str_eq(probe.w29_cell_id, W29_CELL_ID) && str_eq(probe.schema_version, SCHEMA_VERSION)
        && str_contains(probe.schema_version, "_v2") && probe.open_residual_hop_count == 2
        && probe.open_residual_fences_verified && probe.open_residual_table_residue_pinned
        && probe.ac35_honest && probe.ceremony_closed && !probe.production_wired
        && !probe.master_retick_eligible && probe.bridge_arcs_green_claim_blocked
}

/// Validate SEC-BRIDGE-ARCS gate census honesty, failing closed on fake production or GREEN
/// claims: it passes exactly when the cold-edge evidence admits, and otherwise refuses with
/// the evidence error.
pub fn validate_sec_bridge_arcs_gate_honesty(gate_evidence_wired: bool) -> (r: Result<(), &'static str>)
    ensures
        gate_evidence_wired ==> r == Ok::<(), &'static str>(()),
        !gate_evidence_wired ==> r == Err::<(), &'static str>("gate transition evidence probe failed"),
{
    let census = gate_bridge_arcs_census(gate_evidence_wired);
    if !str_eq(census.schema_version, SCHEMA_VERSION) {
        return Err("schema_version must match W29 v2 census pin");
    }
    if !str_eq(census.w29_cell_id, W29_CELL_ID) {
        return Err("w29_cell_id must stay W29-116-SEC_BRIDGE_ARCS");
    }
    if !census.bridge_arcs_green_claim_blocked {
        return Err("bridge_arcs_green_claim_blocked must stay true in scaffold");
    }
    if !census.egoff_full_crate_verify_blocked {
        return Err("egoff_full_crate_verify_blocked must stay true at manifold boundary");
    }
    if census.master_retick_eligible {
        return Err("master_retick_eligible must stay false at census deepen");
    }
    if census.production_wired {
        return Err("sec_bridge_arcs_production_wired must stay false until egoff live bridge");
    }
    if !census.gate_evidence_wired {
        return Err("gate transition evidence probe failed");
    }
    if census.thermo_wire_hops != 4 {
        return Err("thermo wire hops must remain 4");
    }
    if census.trust_wire_hops != 3 {
        return Err("trust wire hops must remain 3");
    }
    if census.ecosystem_trust_wire_hops != 4 {
        return Err("ecosystem trust wire hops must remain 4");
    }
    if census.open_residual_hop_count != 2 {
        return Err("open residual hop count must remain 2");
    }
    if !census.open_residual_fences_verified {
        return Err("open residual fence pins must verify against unwired hops 7-8");
    }
    if !manifold_bridge_arcs_thermo_wire_hops_verified() {
        return Err("thermo wire hop ids must match egoff inventory pin");
    }
    if !manifold_bridge_arcs_trust_wire_hops_verified() {
        return Err("trust wire hop ids must match egoff inventory pin");
    }
    if manifold_sec_bridge_arcs_gate_wire_hops().len() != 8 {
        return Err("eight SEC-BRIDGE-ARCS gate wire hops expected");
    }
    if census.wire_hop_wired_count != 6 {
        return Err("six SEC-BRIDGE-ARCS gate wire hops should be wired today");
    }
    if !manifold_gate_sec_bridge_arcs_ceremony_closed(gate_evidence_wired) {
        return Err("manifold gate SEC-BRIDGE-ARCS ceremony must be closed at census tier");
    }
    if !sec_bridge_arcs_accel_ac35_honest(gate_evidence_wired) {
        return Err("ACCEL AC35 probe must be honest");
    }
    if !sec_bridge_arcs_w29_deepen_honest(gate_evidence_wired) {
        return Err("W29-116 deepen probe must be honest");
    }
    Ok(())
}

/// One rendered line of the SEC-BRIDGE-ARCS gate wire map.
pub open spec fn hop_row_text() -> spec_fn(SecBridgeArcsGateWireHop) -> Seq<char> {
    |hop: SecBridgeArcsGateWireHop| "  "@ + decimal(hop.ordinal as nat) + " wired="@ + bool_text(hop.wired) + " "@ + hop.surface@ + " ["@ + hop.role@ + "]\n"@
}

/// A closing line of the SEC-BRIDGE-ARCS gate wire map.
pub open spec fn wire_matrix_counts() -> Seq<char> {
    "  wired="@ + decimal(6 as nat) + "/"@ + decimal(8 as nat) + " thermo="@ + decimal(4 as nat) + " trust="@ + decimal(3 as nat) + " ecosystem_trust="@ + decimal(4 as nat) + " open_residual="@ + decimal(2 as nat) + " bridge_arcs_green_claim_blocked="@ + bool_text(true) + " egoff_full_crate_verify_blocked="@ + bool_text(true) + " master_retick="@ + bool_text(false) + " production_wired="@ + bool_text(false) + "\n"@
}

/// A closing line of the SEC-BRIDGE-ARCS gate wire map.
pub open spec fn wire_matrix_ssots() -> Seq<char> {
    "  w29_cell_id="@ + W29_CELL_ID@ + "\n  arcs_runtime_ssot="@ + ARCS_RUNTIME_SSOT@ + "\n  arcs_bridge_ssot="@ + ARCS_BRIDGE_SSOT@ + "\n  trust_ssot="@ + TRUST_SSOT@ + "\n"@
}

/// The SEC-BRIDGE-ARCS gate wire map, as rendered for operator receipts.
pub open spec fn wire_matrix_spec() -> Seq<char> {
    "SEC-BRIDGE-ARCS manifold gate coordination wire map (AC35/W29-116):\n"@ + wire_hops_spec().map_values(hop_row_text()).flatten() + wire_matrix_counts() + wire_matrix_ssots()
}

/// Render the SEC-BRIDGE-ARCS gate wire map for operator receipts.
#[verifier::rlimit(60)]
pub fn sec_bridge_arcs_gate_wire_matrix() -> (r: String)
    ensures
        r@ == wire_matrix_spec(),
{
    let hops_len = manifold_sec_bridge_arcs_gate_wire_hops().len();
    let thermo_len = thermo_wire_hop_ids().len();
    let trust_len = trust_wire_hop_ids().len();
    let wired = count_wired_hops(&manifold_sec_bridge_arcs_gate_wire_hops());
    proof {
        lemma_wire_hops_wired_count();
    }
    let items = manifold_sec_bridge_arcs_gate_wire_hops();
    let mut out = String::new();
    push_str(&mut out, "SEC-BRIDGE-ARCS manifold gate coordination wire map (AC35/W29-116):\n");
    let ghost header = out@;
    let mut i: usize = 0;
    while i < items.len()
        invariant
            i <= items.len(),
            items@ == wire_hops_spec(),
            out@ == header + items@.take(i as int).map_values(hop_row_text()).flatten(),
        decreases items.len() - i,
    {
        proof {
            lemma_flatten_step(items@, hop_row_text(), i as int);
        }
        let hop = items[i];
        push_str(&mut out, "  ");
        push_decimal(&mut out, hop.ordinal as u64);
        push_str(&mut out, " wired=");
        push_bool(&mut out, hop.wired);
        push_str(&mut out, " ");
        push_str(&mut out, hop.surface);
        push_str(&mut out, " [");
        push_str(&mut out, hop.role);
        push_str(&mut out, "]\n");
        assert(out@ == header + items@.take(i + 1).map_values(hop_row_text()).flatten());
        i = i + 1;
    }
    proof {
        lemma_take_all(items@);
    }
    push_str(&mut out, "  wired=");
    push_decimal(&mut out, wired as u64);
    push_str(&mut out, "/");
    push_decimal(&mut out, hops_len as u64);
    push_str(&mut out, " thermo=");
    push_decimal(&mut out, thermo_len as u64);
    push_str(&mut out, " trust=");
    push_decimal(&mut out, trust_len as u64);
    push_str(&mut out, " ecosystem_trust=");
    push_decimal(&mut out, ECOSYSTEM_TRUST_WIRE_HOP_COUNT as u64);
    push_str(&mut out, " open_residual=");
    push_decimal(&mut out, OPEN_RESIDUAL_HOP_COUNT as u64);
    push_str(&mut out, " bridge_arcs_green_claim_blocked=");
    push_bool(&mut out, BRIDGE_ARCS_GREEN_CLAIM_BLOCKED);
    push_str(&mut out, " egoff_full_crate_verify_blocked=");
    push_bool(&mut out, EGOFF_FULL_CRATE_VERIFY_BLOCKED);
    push_str(&mut out, " master_retick=");
    push_bool(&mut out, sec_bridge_arcs_master_retick_eligible());
    push_str(&mut out, " production_wired=");
    push_bool(&mut out, sec_bridge_arcs_production_wired());
    push_str(&mut out, "\n");
    push_str(&mut out, "  w29_cell_id=");
    push_str(&mut out, W29_CELL_ID);
    push_str(&mut out, "\n  arcs_runtime_ssot=");
    push_str(&mut out, ARCS_RUNTIME_SSOT);
    push_str(&mut out, "\n  arcs_bridge_ssot=");
    push_str(&mut out, ARCS_BRIDGE_SSOT);
    push_str(&mut out, "\n  trust_ssot=");
    push_str(&mut out, TRUST_SSOT);
    push_str(&mut out, "\n");
    assert(out@ =~= wire_matrix_spec());
    out
}

/// Next-hop surface for egoff runtime bridge production (egoff-owned).
pub fn sec_bridge_arcs_egoff_bridge_next_hop() -> (r: &'static str)
    ensures
        r@ == "egoff/egoff/src/arcs_bridge.rs:CoordinationRuntimeBridge"@,
{
    "egoff/egoff/src/arcs_bridge.rs:CoordinationRuntimeBridge"
}

} // verus!
