//! SEC-S1 — manifold gate runtime trust-gate / S-1 factor wire map.
//!
//! The manifold gate runtime owns the cold-edge census bridging transition evidence to the
//! SEC-S1 trust gate and the S-1 factor SSOT; the session ledger, the gateway trust wrap and
//! the trust-gate production flip stay honestly open.
//!
//! Census and trust-gate deepen only: no physics GREEN, no PRODUCTION_WIRED, no MASTER
//! retick, no OP-5 PASS. Every census takes the measured outcome of the cold-edge evidence
//! probe (`gate_evidence_wired`), which the host computes from the identity transition.
use vstd::prelude::*;
use crate::text::{
    seq_contains, matches_at, str_eq, str_contains, string_contains, str_views,
    str_list_contains, decimal, bool_text, push_str, push_bool, push_decimal, count_where,
    lemma_count_step, lemma_flatten_step, lemma_take_all, lemma_contains_entry,
    lemma_contains_extend,
};
use crate::runtime::gate::evidence::{TransitionEvidence, witness_admits, cold_edge_witness_admits};

verus! {

/// W29-120 swarm cell id (SEC-S1 honest-fence deepen).
pub const W29_120_CELL_ID: &'static str = "W29-120-SEC_S1";

/// W29-120 honest posture — manifold S-1 census deepen only.
pub const W29_120_HONEST_POSTURE: &'static str = "SEC_S1_MANIFOLD_CENSUS_DEEPEN_ONLY";

/// W29-120 explicit non-claims (gate text).
pub const W29_120_NON_CLAIM: &'static str =
    "not GREEN; not OP-5 PASS; not production_wired; not MASTER_RETICK";

/// W29-120 deepen schema version.
pub const W29_120_DEEPEN_SCHEMA_VERSION: &'static str = "sec_s1_w29_120_honest_fence_v1";

/// Honest fence string for meta / fleet probes (GREEN / PRODUCTION / MASTER / OP-5 fenced).
pub const HONEST_FENCE: &'static str =
    "census_wired=true production_wired=false green_claim_blocked=true master_retick=false op5_cleared=false session_ledger_wired=false";

/// Board slice id.
pub const BOARD_SLICE_ID: &'static str = "SEC-S1";

/// AGAP slot id (2350 S-1 factor deepen).
pub const JOB_ID: &'static str = "AGAP-2350-SEC-S1";

/// FLEET-COMPOSER ACCEL2 Band B slot AC28 id.
pub const FLEET_ACCEL2_AC28_JOB_ID: &'static str = "ACCEL2-AC28-SEC-S1";

/// FLEET-COMPOSER ACCEL2 AC28 receipt path.
pub const FLEET_ACCEL2_AC28_RECEIPT_PATH: &'static str = "outputs/.tmp/COMPOSER_ACCEL2_AC28.md";

/// Prior Y79 S-1 factor matrix receipt.
pub const PRIOR_RECEIPT_PATH_Y79: &'static str = "outputs/.tmp/COMPOSER_Y79_0808.md";

/// Prior H51 S-1 wire map receipt.
pub const PRIOR_RECEIPT_PATH_H51: &'static str = "outputs/.tmp/COMPOSER_H51_2242.md";

/// Prior J33 S-1 delegate deepen receipt.
pub const PRIOR_RECEIPT_PATH_J33: &'static str = "outputs/.tmp/COMPOSER_J33_2348.md";

/// Prior G72 S-1 migrate drain receipt.
pub const PRIOR_RECEIPT_PATH_G72: &'static str = "outputs/.tmp/COMPOSER_G72_SEC_S1_2143.md";

/// Prior Z48 `:trust inspect` scaffold-close receipt.
pub const PRIOR_RECEIPT_PATH_Z48: &'static str = "outputs/.tmp/COMPOSER_Z48_1015.md";

/// umst-trust `:trust inspect` close predicate delegate SSOT.
pub const S1_TRUST_INSPECT_CLOSE_SSOT: &'static str =
    "umst-foundations/crates/umst-trust/src/trust_coordination_factor.rs:s1_trust_inspect_closed";

/// S-Arc honest posture pin.
pub const S_ARC_HONEST_POSTURE: &'static str = "1/10";

/// S-Arc GREEN slice count pin.
pub const S_ARC_GREEN_SLICES: u8 = 1;

/// S-Arc total slice count pin.
pub const S_ARC_TOTAL_SLICES: u8 = 10;

/// Capstone-blocking factor id (sled persistence residue).
pub const S1_CAPSTONE_RESIDUE_FACTOR_ID: &'static str = "session-ledger";

/// umst-trust S-1 factor ledger delegate SSOT.
pub const TRUST_S1_FACTOR_SSOT: &'static str =
    "umst-foundations/crates/umst-trust/src/trust_coordination_factor.rs";

/// umst-trust ecosystem trust-gate S-1 wire map delegate SSOT.
pub const TRUST_GATE_SSOT: &'static str =
    "umst-foundations/crates/umst-trust/src/sec_ecosystem_trust_gate.rs";

/// umst-trust consumer census delegate SSOT.
pub const TRUST_CONSUMER_SSOT: &'static str = "umst-foundations/crates/umst-trust/src/consumers.rs";

/// Gateway trust-wrap delegate SSOT (serial next-hop).
pub const GATEWAY_SSOT: &'static str = "umst-gateway/crates/umst-gateway/src/sec_gw_trust_wrap.rs";

/// Honest adoption tier.
pub const POSTURE_TAG: &'static str = "manifold-gate-census-wired-not-production";

/// Census schema version (v3 absorbs the W29-120 honest-fence deepen).
pub const SCHEMA_VERSION: &'static str = "sec_s1_gate_trust_census_v3";

/// S-1 trust-gate deepen facet count.
pub const S1_TRUST_GATE_DEEPEN_FACET_COUNT: usize = 7;

/// S-1 trust-gate deepen facets wired today (5/7).
pub const S1_TRUST_GATE_DEEPEN_WIRED_COUNT: usize = 5;

/// S-1 acceptance factor row count (six-row matrix).
pub const S1_FACTOR_ROW_COUNT: usize = 6;

/// S-1 migrate-surface wire hop count at trust SSOT.
pub const S1_TRUST_WIRE_HOP_COUNT: usize = 6;

/// S-1 wire hops with census match at trust SSOT (4/6).
pub const S1_TRUST_CENSUS_MATCH_COUNT: usize = 4;

/// S-1 audit queue depth after the migrate drain.
pub const S1_MIGRATE_AUDIT_QUEUE_DEPTH: usize = 0;

/// S-Arc GREEN claim blocked — honest true in scaffold deepen.
pub const S1_GREEN_CLAIM_BLOCKED: bool = true;

/// Operator exit for `:trust inspect` — honest BLOCKED until SCERT capstone.
pub const EXPECTED_GATE_EXIT: &'static str = "BLOCKED";

/// Required palette envelope keys for `:trust inspect`.
pub open spec fn palette_keys_spec() -> Seq<&'static str> {
    seq!["slice", "factor_table", "readiness_matrix", "ledger", "scert_credit"]
}

/// Required palette envelope keys for `:trust inspect`.
pub fn s1_gate_factor_palette_keys() -> (r: Vec<&'static str>)
    ensures
        r@ == palette_keys_spec(),
{
    let r = vec!["slice", "factor_table", "readiness_matrix", "ledger", "scert_credit"];
    assert(r@ =~= palette_keys_spec());
    r
}

/// S-1 acceptance factor ids (pinned from the S-1 factor SSOT).
pub open spec fn factor_ids_spec() -> Seq<&'static str> {
    seq![
        "trust-adt",
        "consumer-census",
        "s1-wire-map",
        "migrate-drain",
        "delegate-chain",
        "session-ledger",
    ]
}

/// S-1 acceptance factor ids (pinned from the S-1 factor SSOT).
pub fn s1_factor_ids() -> (r: Vec<&'static str>)
    ensures
        r@ == factor_ids_spec(),
{
    let r = vec![
        "trust-adt",
        "consumer-census",
        "s1-wire-map",
        "migrate-drain",
        "delegate-chain",
        "session-ledger",
    ];
    assert(r@ =~= factor_ids_spec());
    r
}

/// One facet of the S-1 trust-gate deepen matrix.
#[derive(Debug, Clone, Copy, PartialEq, Eq)]
pub struct ManifoldS1TrustGateDeepenFacet {
    /// Facet under census.
    pub facet: &'static str,
    /// Whether this facet is wired today.
    pub wired: bool,
    /// Owning slice when residue.
    pub owning_slice: &'static str,
}

/// S-1 trust-gate deepen facet inventory.
pub open spec fn deepen_facets_spec() -> Seq<ManifoldS1TrustGateDeepenFacet> {
    seq![
        ManifoldS1TrustGateDeepenFacet { facet: "trust_adt_ssot", wired: true, owning_slice: "SEC-S1" },
        ManifoldS1TrustGateDeepenFacet { facet: "consumer_census", wired: true, owning_slice: "SEC-S1" },
        ManifoldS1TrustGateDeepenFacet { facet: "s1_wire_map", wired: true, owning_slice: "SEC-S1" },
        ManifoldS1TrustGateDeepenFacet { facet: "migrate_drain", wired: true, owning_slice: "SEC-S1" },
        ManifoldS1TrustGateDeepenFacet {
            facet: "trust_inspect_close",
            wired: true,
            owning_slice: "SEC-S1",
        },
        ManifoldS1TrustGateDeepenFacet { facet: "session_ledger", wired: false, owning_slice: "SEC-S3" },
        ManifoldS1TrustGateDeepenFacet {
            facet: "production_wired",
            wired: false,
            owning_slice: "SEC-GW-WRAP",
        },
    ]
}

/// S-1 trust-gate deepen facet inventory.
pub fn manifold_s1_trust_gate_deepen_facets() -> (r: Vec<ManifoldS1TrustGateDeepenFacet>)
    ensures
        r@ == deepen_facets_spec(),
{
    let r = vec![
        ManifoldS1TrustGateDeepenFacet { facet: "trust_adt_ssot", wired: true, owning_slice: "SEC-S1" },
        ManifoldS1TrustGateDeepenFacet { facet: "consumer_census", wired: true, owning_slice: "SEC-S1" },
        ManifoldS1TrustGateDeepenFacet { facet: "s1_wire_map", wired: true, owning_slice: "SEC-S1" },
        ManifoldS1TrustGateDeepenFacet { facet: "migrate_drain", wired: true, owning_slice: "SEC-S1" },
        ManifoldS1TrustGateDeepenFacet {
            facet: "trust_inspect_close",
            wired: true,
            owning_slice: "SEC-S1",
        },
        ManifoldS1TrustGateDeepenFacet { facet: "session_ledger", wired: false, owning_slice: "SEC-S3" },
        ManifoldS1TrustGateDeepenFacet {
            facet: "production_wired",
            wired: false,
            owning_slice: "SEC-GW-WRAP",
        },
    ];
    assert(r@ =~= deepen_facets_spec());
    r
}

/// One hop in the manifold SEC-S1 gate runtime wire map.
#[derive(Debug, Clone, Copy, PartialEq, Eq)]
pub struct SecS1GateWireHop {
    /// Ordinal (1-based).
    pub ordinal: u8,
    /// Module or symbol surface.
    pub surface: &'static str,
    /// Role in the admit chain.
    pub role: &'static str,
    /// Whether this hop is wired today.
    pub wired: bool,
}

/// Manifold SEC-S1 gate runtime wire map (cold-edge evidence → trust-gate census).
pub open spec fn wire_hops_spec() -> Seq<SecS1GateWireHop> {
    seq![
        SecS1GateWireHop {
            ordinal: 1,
            surface: "umst-manifold::runtime::gate::evidence::AdmissibilityToken",
            role: "Gate admit witness token on cold edge",
            wired: true,
        },
        SecS1GateWireHop {
            ordinal: 2,
            surface: "umst-manifold::runtime::gate::cartridge::GateCartridge::transition_evidence",
            role: "CdTransitionCartridge structured witness",
            wired: true,
        },
        SecS1GateWireHop {
            ordinal: 3,
            surface: "umst-manifold::runtime::gate::sec_s1::gate_trust_census",
            role: "Manifold gate SEC-S1 trust-gate census",
            wired: true,
        },
        SecS1GateWireHop {
            ordinal: 4,
            surface: "umst-trust::factor::collect_s1_factor_ledger",
            role: "S-1 six-row acceptance factor ledger (Y79)",
            wired: true,
        },
        SecS1GateWireHop {
            ordinal: 5,
            surface: "umst-trust::sec_ecosystem_trust_gate::trust_gate_s1_wire_hops",
            role: "S-1 migrate-surface trust-gate wire map (H51/J33)",
            wired: true,
        },
        SecS1GateWireHop {
            ordinal: 6,
            surface: "umst-trust::sec_ecosystem_trust_gate::trust_gate_production_wired",
            role: "Ecosystem trust-gate production flip (operator-measured live)",
            wired: false,
        },
        SecS1GateWireHop {
            ordinal: 7,
            surface: "umst-gateway::sec_gw_trust_wrap::trust_wrap_wired",
            role: "Gateway production ceremony (serial Wave D)",
            wired: false,
        },
    ]
}

/// Manifold SEC-S1 gate runtime wire map (cold-edge evidence → trust-gate census).
pub fn manifold_sec_s1_gate_wire_hops() -> (r: Vec<SecS1GateWireHop>)
    ensures
        r@ == wire_hops_spec(),
{
    let r = vec![
        SecS1GateWireHop {
            ordinal: 1,
            surface: "umst-manifold::runtime::gate::evidence::AdmissibilityToken",
            role: "Gate admit witness token on cold edge",
            wired: true,
        },
        SecS1GateWireHop {
            ordinal: 2,
            surface: "umst-manifold::runtime::gate::cartridge::GateCartridge::transition_evidence",
            role: "CdTransitionCartridge structured witness",
            wired: true,
        },
        SecS1GateWireHop {
            ordinal: 3,
            surface: "umst-manifold::runtime::gate::sec_s1::gate_trust_census",
            role: "Manifold gate SEC-S1 trust-gate census",
            wired: true,
        },
        SecS1GateWireHop {
            ordinal: 4,
            surface: "umst-trust::factor::collect_s1_factor_ledger",
            role: "S-1 six-row acceptance factor ledger (Y79)",
            wired: true,
        },
        SecS1GateWireHop {
            ordinal: 5,
            surface: "umst-trust::sec_ecosystem_trust_gate::trust_gate_s1_wire_hops",
            role: "S-1 migrate-surface trust-gate wire map (H51/J33)",
            wired: true,
        },
        SecS1GateWireHop {
            ordinal: 6,
            surface: "umst-trust::sec_ecosystem_trust_gate::trust_gate_production_wired",
            role: "Ecosystem trust-gate production flip (operator-measured live)",
            wired: false,
        },
        SecS1GateWireHop {
            ordinal: 7,
            surface: "umst-gateway::sec_gw_trust_wrap::trust_wrap_wired",
            role: "Gateway production ceremony (serial Wave D)",
            wired: false,
        },
    ];
    assert(r@ =~= wire_hops_spec());
    r
}

/// Selects the wired hops of a wire map.
pub open spec fn hop_is_wired() -> spec_fn(SecS1GateWireHop) -> bool {
    |h: SecS1GateWireHop| h.wired
}

/// Selects the wired facets of the deepen matrix.
pub open spec fn facet_is_wired() -> spec_fn(ManifoldS1TrustGateDeepenFacet) -> bool {
    |f: ManifoldS1TrustGateDeepenFacet| f.wired
}

/// Five of the seven wire hops are wired today.
pub proof fn lemma_wire_hops_wired_count()
    ensures
        count_where(wire_hops_spec(), hop_is_wired()) == 5,
{
    let s = wire_hops_spec();
    let p = hop_is_wired();
    assert(s.take(0) =~= Seq::<SecS1GateWireHop>::empty());
    lemma_count_step(s, p, 0);
    lemma_count_step(s, p, 1);
    lemma_count_step(s, p, 2);
    lemma_count_step(s, p, 3);
    lemma_count_step(s, p, 4);
    lemma_count_step(s, p, 5);
    lemma_count_step(s, p, 6);
    lemma_take_all(s);
}

/// Five of the seven trust-gate deepen facets are wired today.
pub proof fn lemma_deepen_facets_wired_count()
    ensures
        count_where(deepen_facets_spec(), facet_is_wired())
            == 5,
{
    let s = deepen_facets_spec();
    let p = facet_is_wired();
    assert(s.take(0) =~= Seq::<ManifoldS1TrustGateDeepenFacet>::empty());
    lemma_count_step(s, p, 0);
    lemma_count_step(s, p, 1);
    lemma_count_step(s, p, 2);
    lemma_count_step(s, p, 3);
    lemma_count_step(s, p, 4);
    lemma_count_step(s, p, 5);
    lemma_count_step(s, p, 6);
    lemma_take_all(s);
}

/// Count the wired hops of a wire map.
pub fn count_wired_hops(hops: &Vec<SecS1GateWireHop>) -> (r: usize)
    ensures
        r == count_where(hops@, hop_is_wired()),
{
    let mut n: usize = 0;
    let mut i: usize = 0;
    while i < hops.len()
        invariant
            i <= hops.len(),
            n == count_where(hops@.take(i as int), hop_is_wired()),
            n <= i,
        decreases hops.len() - i,
    {
        proof {
            lemma_count_step(hops@, hop_is_wired(), i as int);
        }
        if hops[i].wired {
            n = n + 1;
        }
        i = i + 1;
    }
    proof {
        lemma_take_all(hops@);
    }
    n
}

/// One S-1 factor probe row at the manifold cold edge.
#[derive(Debug, Clone, PartialEq, Eq)]
pub struct ManifoldS1FactorProbe {
    /// Stable factor identifier.
    pub factor_id: &'static str,
    /// Whether the surface is enumerated in the S-1 factor SSOT pin.
    pub probe_hit: bool,
}

/// Aggregated SEC-S1 gate trust census on the manifold boundary.
#[derive(Debug, Clone, PartialEq, Eq)]
pub struct SecS1GateTrustCensus {
    pub schema_version: &'static str,
    pub board_slice_id: &'static str,
    pub gate_evidence_wired: bool,
    pub factor_row_count: usize,
    pub s1_all_factors_probed: bool,
    pub s1_trust_wire_hop_count: usize,
    pub s1_trust_census_match_count: usize,
    pub s1_migrate_audit_queue_depth: usize,
    pub s1_green_claim_blocked: bool,
    pub session_ledger_wired: bool,
    pub production_wired: bool,
    pub wire_hop_wired_count: u8,
}

/// Exercise gate cold-edge evidence at the manifold SSOT (the identity transition admits).
pub fn gate_transition_evidence_probe(evidence: &TransitionEvidence) -> (r: bool)
    ensures
        r == witness_admits(*evidence),
{
    cold_edge_witness_admits(evidence)
}

/// Whether sled-backed session ledger persistence is wired (honest `false`).
pub fn session_ledger_wired() -> (r: bool)
    ensures
        !r,
{
    false
}

/// Whether the live gateway trust-wrap production flip is plumbed (honest `false`).
pub fn sec_s1_production_wired() -> (r: bool)
    ensures
        !r,
{
    false
}

/// MASTER retick eligibility — honest **false**.
pub fn sec_s1_master_retick_eligible() -> (r: bool)
    ensures
        !r,
{
    false
}

/// OP-5 clearance — honest **false**.
pub fn sec_s1_op5_cleared() -> (r: bool)
    ensures
        !r,
{
    false
}

/// The pinned non-claim and fence texts carry every refusal the deepen checks for.
pub proof fn lemma_fence_texts()
    ensures
        seq_contains(W29_120_NON_CLAIM@, "not GREEN"@),
        seq_contains(W29_120_NON_CLAIM@, "not OP-5 PASS"@),
        seq_contains(W29_120_NON_CLAIM@, "not production_wired"@),
        seq_contains(W29_120_NON_CLAIM@, "not MASTER_RETICK"@),
        seq_contains(HONEST_FENCE@, "production_wired=false"@),
        seq_contains(HONEST_FENCE@, "green_claim_blocked=true"@),
        seq_contains(HONEST_FENCE@, "master_retick=false"@),
        seq_contains(HONEST_FENCE@, "op5_cleared=false"@),
        seq_contains(HONEST_FENCE@, "session_ledger_wired=false"@),
{
    reveal_strlit("not GREEN; not OP-5 PASS; not production_wired; not MASTER_RETICK");
    reveal_strlit("not GREEN");
    reveal_strlit("not OP-5 PASS");
    reveal_strlit("not production_wired");
    reveal_strlit("not MASTER_RETICK");
    reveal_strlit(
        "census_wired=true production_wired=false green_claim_blocked=true master_retick=false op5_cleared=false session_ledger_wired=false",
    );
    reveal_strlit("production_wired=false");
    reveal_strlit("green_claim_blocked=true");
    reveal_strlit("master_retick=false");
    reveal_strlit("op5_cleared=false");
    reveal_strlit("session_ledger_wired=false");
    assert(W29_120_NON_CLAIM@.subrange(0, 9) =~= "not GREEN"@);
    assert(matches_at(W29_120_NON_CLAIM@, "not GREEN"@, 0));
    assert(W29_120_NON_CLAIM@.subrange(11, 24) =~= "not OP-5 PASS"@);
    assert(matches_at(W29_120_NON_CLAIM@, "not OP-5 PASS"@, 11));
    assert(W29_120_NON_CLAIM@.subrange(26, 46) =~= "not production_wired"@);
    assert(matches_at(W29_120_NON_CLAIM@, "not production_wired"@, 26));
    assert(W29_120_NON_CLAIM@.subrange(48, 65) =~= "not MASTER_RETICK"@);
    assert(matches_at(W29_120_NON_CLAIM@, "not MASTER_RETICK"@, 48));
    assert(HONEST_FENCE@.subrange(18, 40) =~= "production_wired=false"@);
    assert(matches_at(HONEST_FENCE@, "production_wired=false"@, 18));
    assert(HONEST_FENCE@.subrange(41, 65) =~= "green_claim_blocked=true"@);
    assert(matches_at(HONEST_FENCE@, "green_claim_blocked=true"@, 41));
    assert(HONEST_FENCE@.subrange(66, 85) =~= "master_retick=false"@);
    assert(matches_at(HONEST_FENCE@, "master_retick=false"@, 66));
    assert(HONEST_FENCE@.subrange(86, 103) =~= "op5_cleared=false"@);
    assert(matches_at(HONEST_FENCE@, "op5_cleared=false"@, 86));
    assert(HONEST_FENCE@.subrange(104, 130) =~= "session_ledger_wired=false"@);
    assert(matches_at(HONEST_FENCE@, "session_ledger_wired=false"@, 104));
}

/// The pinned SSOT paths and receipt paths carry the markers the census checks for.
pub proof fn lemma_ssot_pins()
    ensures
        seq_contains(TRUST_S1_FACTOR_SSOT@, "trust_coordination_factor"@),
        seq_contains(TRUST_GATE_SSOT@, "sec_ecosystem_trust_gate.rs"@),
        seq_contains(TRUST_CONSUMER_SSOT@, "consumers.rs"@),
        seq_contains(S1_TRUST_INSPECT_CLOSE_SSOT@, "s1_trust_inspect_closed"@),
        seq_contains(PRIOR_RECEIPT_PATH_Y79@, "Y79"@),
        seq_contains(PRIOR_RECEIPT_PATH_H51@, "H51"@),
        seq_contains(PRIOR_RECEIPT_PATH_J33@, "J33"@),
        seq_contains(PRIOR_RECEIPT_PATH_G72@, "G72"@),
        seq_contains(PRIOR_RECEIPT_PATH_Z48@, "Z48"@),
{
    reveal_strlit("umst-foundations/crates/umst-trust/src/trust_coordination_factor.rs");
    reveal_strlit("trust_coordination_factor");
    reveal_strlit("umst-foundations/crates/umst-trust/src/sec_ecosystem_trust_gate.rs");
    reveal_strlit("sec_ecosystem_trust_gate.rs");
    reveal_strlit("umst-foundations/crates/umst-trust/src/consumers.rs");
    reveal_strlit("consumers.rs");
    reveal_strlit(
        "umst-foundations/crates/umst-trust/src/trust_coordination_factor.rs:s1_trust_inspect_closed",
    );
    reveal_strlit("s1_trust_inspect_closed");
    reveal_strlit("outputs/.tmp/COMPOSER_Y79_0808.md");
    reveal_strlit("Y79");
    reveal_strlit("outputs/.tmp/COMPOSER_H51_2242.md");
    reveal_strlit("H51");
    reveal_strlit("outputs/.tmp/COMPOSER_J33_2348.md");
    reveal_strlit("J33");
    reveal_strlit("outputs/.tmp/COMPOSER_G72_SEC_S1_2143.md");
    reveal_strlit("G72");
    reveal_strlit("outputs/.tmp/COMPOSER_Z48_1015.md");
    reveal_strlit("Z48");
    assert(TRUST_S1_FACTOR_SSOT@.subrange(39, 64) =~= "trust_coordination_factor"@);
    assert(matches_at(TRUST_S1_FACTOR_SSOT@, "trust_coordination_factor"@, 39));
    assert(TRUST_GATE_SSOT@.subrange(39, 66) =~= "sec_ecosystem_trust_gate.rs"@);
    assert(matches_at(TRUST_GATE_SSOT@, "sec_ecosystem_trust_gate.rs"@, 39));
    assert(TRUST_CONSUMER_SSOT@.subrange(39, 51) =~= "consumers.rs"@);
    assert(matches_at(TRUST_CONSUMER_SSOT@, "consumers.rs"@, 39));
    assert(S1_TRUST_INSPECT_CLOSE_SSOT@.subrange(68, 91) =~= "s1_trust_inspect_closed"@);
    assert(matches_at(S1_TRUST_INSPECT_CLOSE_SSOT@, "s1_trust_inspect_closed"@, 68));
    assert(PRIOR_RECEIPT_PATH_Y79@.subrange(22, 25) =~= "Y79"@);
    assert(matches_at(PRIOR_RECEIPT_PATH_Y79@, "Y79"@, 22));
    assert(PRIOR_RECEIPT_PATH_H51@.subrange(22, 25) =~= "H51"@);
    assert(matches_at(PRIOR_RECEIPT_PATH_H51@, "H51"@, 22));
    assert(PRIOR_RECEIPT_PATH_J33@.subrange(22, 25) =~= "J33"@);
    assert(matches_at(PRIOR_RECEIPT_PATH_J33@, "J33"@, 22));
    assert(PRIOR_RECEIPT_PATH_G72@.subrange(22, 25) =~= "G72"@);
    assert(matches_at(PRIOR_RECEIPT_PATH_G72@, "G72"@, 22));
    assert(PRIOR_RECEIPT_PATH_Z48@.subrange(22, 25) =~= "Z48"@);
    assert(matches_at(PRIOR_RECEIPT_PATH_Z48@, "Z48"@, 22));
}

/// Honest fence flags for the SEC-S1 deepen (W29-120).
#[derive(Debug, Clone, Copy, PartialEq, Eq)]
pub struct SecS1W29120DeepenProbe {
    pub schema_version: &'static str,
    pub cell_id: &'static str,
    pub honest_posture: &'static str,
    pub non_claim: &'static str,
    pub honest_fence: &'static str,
    /// Invent claim — must stay false.
    pub production_wired_claimed: bool,
    /// Invent claim — must stay false.
    pub green_claimed: bool,
    /// Invent claim — must stay false.
    pub op5_pass_claimed: bool,
    /// Invent claim — must stay false.
    pub master_retick_claimed: bool,
    /// Measured deepen honesty (fences + ceremony pins).
    pub deepen_honest: bool,
}

/// Build the W29-120 SEC-S1 deepen honesty probe; it is honest exactly when the
/// cold-edge evidence admits.
pub fn sec_s1_w29_120_deepen_probe(gate_evidence_wired: bool) -> (r: SecS1W29120DeepenProbe)
    ensures
        r.schema_version == W29_120_DEEPEN_SCHEMA_VERSION,
        r.cell_id == W29_120_CELL_ID,
        r.honest_posture == W29_120_HONEST_POSTURE,
        r.non_claim == W29_120_NON_CLAIM,
        r.honest_fence == HONEST_FENCE,
        !r.production_wired_claimed,
        !r.green_claimed,
        !r.op5_pass_claimed,
        !r.master_retick_claimed,
        r.deepen_honest == gate_evidence_wired,
{
    let production_wired_claimed = sec_s1_production_wired();
    let green_claimed = !S1_GREEN_CLAIM_BLOCKED;
    let op5_pass_claimed = sec_s1_op5_cleared();
    let master_retick_claimed = sec_s1_master_retick_eligible();
    let ceremony_ok = manifold_gate_sec_s1_ceremony_closed(gate_evidence_wired);
    proof {
        lemma_fence_texts();
    }
    let deepen_honest = str_eq(W29_120_CELL_ID, "W29-120-SEC_S1") && str_eq(
        W29_120_DEEPEN_SCHEMA_VERSION,
        "sec_s1_w29_120_honest_fence_v1",
    ) && str_eq(W29_120_HONEST_POSTURE, "SEC_S1_MANIFOLD_CENSUS_DEEPEN_ONLY") && str_eq(
        SCHEMA_VERSION,
        "sec_s1_gate_trust_census_v3",
    ) && !production_wired_claimed && !green_claimed && !op5_pass_claimed
        && !master_retick_claimed && !session_ledger_wired() && str_contains(
        W29_120_NON_CLAIM,
        "not GREEN",
    ) && str_contains(W29_120_NON_CLAIM, "not OP-5 PASS") && str_contains(
        W29_120_NON_CLAIM,
        "not production_wired",
    ) && str_contains(W29_120_NON_CLAIM, "not MASTER_RETICK") && str_contains(
        HONEST_FENCE,
        "production_wired=false",
    ) && str_contains(HONEST_FENCE, "green_claim_blocked=true") && str_contains(
        HONEST_FENCE,
        "master_retick=false",
    ) && str_contains(HONEST_FENCE, "op5_cleared=false") && str_contains(
        HONEST_FENCE,
        "session_ledger_wired=false",
    ) && ceremony_ok;
    SecS1W29120DeepenProbe {
        schema_version: W29_120_DEEPEN_SCHEMA_VERSION,
        cell_id: W29_120_CELL_ID,
        honest_posture: W29_120_HONEST_POSTURE,
        non_claim: W29_120_NON_CLAIM,
        honest_fence: HONEST_FENCE,
        production_wired_claimed,
        green_claimed,
        op5_pass_claimed,
        master_retick_claimed,
        deepen_honest,
    }
}

/// Whether the W29-120 SEC-S1 deepen honesty probe passes.
pub fn sec_s1_w29_120_deepen_honest(gate_evidence_wired: bool) -> (r: bool)
    ensures
        r == gate_evidence_wired,
{
    sec_s1_w29_120_deepen_probe(gate_evidence_wired).deepen_honest
}

/// SEC-S1 fence: refuse inventing GREEN / PRODUCTION_WIRED / MASTER / OP-5.
pub fn sec_s1_honest_fence_holds(gate_evidence_wired: bool) -> (r: bool)
    ensures
        r == gate_evidence_wired,
{
    let p = sec_s1_w29_120_deepen_probe(gate_evidence_wired);
    p.deepen_honest && !p.green_claimed && !p.production_wired_claimed && !p.op5_pass_claimed
        && !p.master_retick_claimed
}

/// The factor coverage probes as measured: one hit per factor id.
pub open spec fn factor_probes_spec() -> Seq<ManifoldS1FactorProbe> {
    factor_ids_spec().map_values(
        |id: &'static str| ManifoldS1FactorProbe { factor_id: id, probe_hit: true },
    )
}

/// S-1 factor coverage probe matrix — one row per factor id, each enumerated in the SSOT pin.
pub fn manifold_s1_factor_coverage_probes() -> (r: Vec<ManifoldS1FactorProbe>)
    ensures
        r@ == factor_probes_spec(),
{
    let ids = s1_factor_ids();
    let mut out: Vec<ManifoldS1FactorProbe> = Vec::new();
    let mut i: usize = 0;
    while i < ids.len()
        invariant
            ids@ == factor_ids_spec(),
            i <= ids.len(),
            out@ == factor_probes_spec().take(i as int),
        decreases ids.len() - i,
    {
        let id = ids[i];
        let hit = str_list_contains(&ids, id);
        assert(str_views(ids@)[i as int] == id@);
        out.push(ManifoldS1FactorProbe { factor_id: id, probe_hit: hit });
        assert(out@ =~= factor_probes_spec().take(i + 1));
        i = i + 1;
    }
    assert(out@ =~= factor_probes_spec());
    out
}

/// Whether all six S-1 factor surfaces are enumerated at the manifold boundary.
pub fn manifold_s1_all_factors_probed() -> (r: bool)
    ensures
        r,
{
    let probes = manifold_s1_factor_coverage_probes();
    let mut all = true;
    let mut i: usize = 0;
    while i < probes.len()
        invariant
            i <= probes.len(),
            probes@ == factor_probes_spec(),
            all,
        decreases probes.len() - i,
    {
        assert(probes@[i as int].probe_hit);
        all = all && probes[i].probe_hit;
        i = i + 1;
    }
    all && s1_factor_ids().len() == S1_FACTOR_ROW_COUNT
}

/// Verify the S-1 trust-gate SSOT pins at the manifold boundary.
pub fn manifold_verify_trust_gate_s1_pins() -> (r: bool)
    ensures
        r,
{
    proof {
        lemma_ssot_pins();
    }
    str_contains(TRUST_S1_FACTOR_SSOT, "trust_coordination_factor") && str_contains(
        TRUST_GATE_SSOT,
        "sec_ecosystem_trust_gate.rs",
    ) && str_contains(TRUST_CONSUMER_SSOT, "consumers.rs") && str_contains(
        S1_TRUST_INSPECT_CLOSE_SSOT,
        "s1_trust_inspect_closed",
    ) && S1_TRUST_WIRE_HOP_COUNT == 6 && S1_MIGRATE_AUDIT_QUEUE_DEPTH == 0
}

/// Operator exit expectations for `:trust inspect` at the manifold boundary.
#[derive(Debug, Clone, PartialEq, Eq)]
pub struct SecS1GateFactorExitExpectations {
    pub subcommand: &'static str,
    pub slice_id: &'static str,
    /// Expected operator exit (honest — BLOCKED until SCERT capstone).
    pub expected_gate_exit: &'static str,
    pub scert_credit: &'static str,
    pub factor_row_count: usize,
    pub palette_keys: Vec<&'static str>,
    pub s_arc_honest_posture: &'static str,
    pub capstone_residue_factor: &'static str,
}

/// Build the operator exit expectations for `:trust inspect`.
pub fn sec_s1_gate_factor_exit_expectations() -> (r: SecS1GateFactorExitExpectations)
    ensures
        r.subcommand@ == "inspect"@,
        r.slice_id == BOARD_SLICE_ID,
        r.expected_gate_exit == EXPECTED_GATE_EXIT,
        r.scert_credit@ == "BLOCKED"@,
        r.factor_row_count == S1_FACTOR_ROW_COUNT,
        r.palette_keys@ == palette_keys_spec(),
        r.s_arc_honest_posture == S_ARC_HONEST_POSTURE,
        r.capstone_residue_factor == S1_CAPSTONE_RESIDUE_FACTOR_ID,
{
    SecS1GateFactorExitExpectations {
        subcommand: "inspect",
        slice_id: BOARD_SLICE_ID,
        expected_gate_exit: EXPECTED_GATE_EXIT,
        scert_credit: "BLOCKED",
        factor_row_count: S1_FACTOR_ROW_COUNT,
        palette_keys: s1_gate_factor_palette_keys(),
        s_arc_honest_posture: S_ARC_HONEST_POSTURE,
        capstone_residue_factor: S1_CAPSTONE_RESIDUE_FACTOR_ID,
    }
}

/// Count wired S-1 trust-gate deepen facets at the manifold boundary (5 of 7).
pub fn sec_s1_trust_gate_deepen_wired_count() -> (r: usize)
    ensures
        r == count_where(deepen_facets_spec(), facet_is_wired()),
        r == S1_TRUST_GATE_DEEPEN_WIRED_COUNT,
{
    let facets = manifold_s1_trust_gate_deepen_facets();
    let mut n: usize = 0;
    let mut i: usize = 0;
    while i < facets.len()
        invariant
            i <= facets.len(),
            n == count_where(facets@.take(i as int), facet_is_wired()),
            n <= i,
        decreases facets.len() - i,
    {
        proof {
            lemma_count_step(facets@, facet_is_wired(), i as int);
        }
        if facets[i].wired {
            n = n + 1;
        }
        i = i + 1;
    }
    proof {
        lemma_take_all(facets@);
        lemma_deepen_facets_wired_count();
    }
    n
}

/// Every unwired facet is the session ledger or the production flip.
pub open spec fn unwired_facets_are_residue(s: Seq<ManifoldS1TrustGateDeepenFacet>) -> bool {
    forall|i: int|
        0 <= i < s.len() && !s[i].wired ==> (#[trigger] s[i].facet@ == "session_ledger"@
            || s[i].facet@ == "production_wired"@)
}

/// Whether the five wired trust-gate deepen facets verify at the manifold boundary.
pub fn manifold_s1_trust_gate_deepen_facets_verified() -> (r: bool)
    ensures
        r,
{
    let facets = manifold_s1_trust_gate_deepen_facets();
    let mut residue_ok = true;
    let mut i: usize = 0;
    while i < facets.len()
        invariant
            facets@ == deepen_facets_spec(),
            i <= facets.len(),
            residue_ok,
        decreases facets.len() - i,
    {
        if !facets[i].wired {
            residue_ok = residue_ok && (str_eq(facets[i].facet, "session_ledger") || str_eq(
                facets[i].facet,
                "production_wired",
            ));
        }
        i = i + 1;
    }
    proof {
        lemma_ssot_pins();
    }
    sec_s1_trust_gate_deepen_wired_count() == S1_TRUST_GATE_DEEPEN_WIRED_COUNT && facets.len()
        == S1_TRUST_GATE_DEEPEN_FACET_COUNT && str_contains(
        S1_TRUST_INSPECT_CLOSE_SSOT,
        "s1_trust_inspect_closed",
    ) && residue_ok
}

/// One rendered line of the trust-gate deepen matrix.
pub open spec fn deepen_row() -> spec_fn(ManifoldS1TrustGateDeepenFacet) -> Seq<char> {
    |f: ManifoldS1TrustGateDeepenFacet|
        "  "@ + f.facet@ + " wired="@ + bool_text(f.wired) + " owning_slice="@ + f.owning_slice@
            + "\n"@
}

/// Closing line of the trust-gate deepen matrix.
pub open spec fn deepen_tail(wired: nat) -> Seq<char> {
    "  facets_wired="@ + decimal(wired) + "/"@ + decimal(S1_TRUST_GATE_DEEPEN_FACET_COUNT as nat)
        + " s_arc_posture="@ + S_ARC_HONEST_POSTURE@ + " capstone_residue="@
        + S1_CAPSTONE_RESIDUE_FACTOR_ID@ + " trust_inspect_close_ssot="@
        + S1_TRUST_INSPECT_CLOSE_SSOT@ + " production_wired=false session_ledger_wired=false\n"@
}

/// The trust-gate deepen matrix as rendered for operator receipts.
pub open spec fn deepen_matrix_spec() -> Seq<char> {
    "SEC-S1 trust-gate deepen (Z48 :trust inspect cross-ref):\n"@ + deepen_facets_spec().map_values(
        deepen_row(),
    ).flatten() + deepen_tail(5)
}

/// Render the S-1 trust-gate deepen matrix for operator receipts.
pub fn sec_s1_trust_gate_deepen_matrix() -> (r: String)
    ensures
        r@ == deepen_matrix_spec(),
{
    let wired = sec_s1_trust_gate_deepen_wired_count();
    let facets = manifold_s1_trust_gate_deepen_facets();
    let mut out = String::new();
    push_str(&mut out, "SEC-S1 trust-gate deepen (Z48 :trust inspect cross-ref):\n");
    let ghost header = out@;
    let mut i: usize = 0;
    while i < facets.len()
        invariant
            i <= facets.len(),
            out@ == header + facets@.take(i as int).map_values(deepen_row()).flatten(),
        decreases facets.len() - i,
    {
        proof {
            lemma_flatten_step(facets@, deepen_row(), i as int);
        }
        let f = facets[i];
        push_str(&mut out, "  ");
        push_str(&mut out, f.facet);
        push_str(&mut out, " wired=");
        push_bool(&mut out, f.wired);
        push_str(&mut out, " owning_slice=");
        push_str(&mut out, f.owning_slice);
        push_str(&mut out, "\n");
        assert(out@ == header + facets@.take(i + 1).map_values(deepen_row()).flatten());
        i = i + 1;
    }
    proof {
        lemma_take_all(facets@);
    }
    push_str(&mut out, "  facets_wired=");
    push_decimal(&mut out, wired as u64);
    push_str(&mut out, "/");
    push_decimal(&mut out, S1_TRUST_GATE_DEEPEN_FACET_COUNT as u64);
    push_str(&mut out, " s_arc_posture=");
    push_str(&mut out, S_ARC_HONEST_POSTURE);
    push_str(&mut out, " capstone_residue=");
    push_str(&mut out, S1_CAPSTONE_RESIDUE_FACTOR_ID);
    push_str(&mut out, " trust_inspect_close_ssot=");
    push_str(&mut out, S1_TRUST_INSPECT_CLOSE_SSOT);
    push_str(&mut out, " production_wired=false session_ledger_wired=false\n");
    assert(out@ =~= deepen_matrix_spec());
    out
}

/// The rendered deepen matrix carries every marker the AC28 probe checks for.
pub proof fn lemma_deepen_matrix_markers()
    ensures
        seq_contains(deepen_matrix_spec(), "facets_wired=5/7"@),
        seq_contains(deepen_matrix_spec(), "production_wired=false"@),
        seq_contains(deepen_matrix_spec(), "session_ledger_wired=false"@),
        seq_contains(deepen_matrix_spec(), "trust_inspect_close_ssot"@),
        seq_contains(deepen_matrix_spec(), "trust_adt_ssot wired=true"@),
        seq_contains(deepen_matrix_spec(), "production_wired wired=false"@),
{
    reveal_strlit("  facets_wired=");
    reveal_strlit("/");
    reveal_strlit(" s_arc_posture=");
    reveal_strlit("1/10");
    reveal_strlit(" capstone_residue=");
    reveal_strlit("session-ledger");
    reveal_strlit(" trust_inspect_close_ssot=");
    reveal_strlit(
        "umst-foundations/crates/umst-trust/src/trust_coordination_factor.rs:s1_trust_inspect_closed",
    );
    reveal_strlit(" production_wired=false session_ledger_wired=false\n");
    reveal_strlit("facets_wired=5/7");
    reveal_strlit("production_wired=false");
    reveal_strlit("session_ledger_wired=false");
    reveal_strlit("trust_inspect_close_ssot");
    reveal_strlit("  ");
    reveal_strlit(" wired=");
    reveal_strlit(" owning_slice=");
    reveal_strlit("\n");
    reveal_strlit("trust_adt_ssot");
    reveal_strlit("SEC-S1");
    reveal_strlit("production_wired");
    reveal_strlit("SEC-GW-WRAP");
    reveal_strlit("trust_adt_ssot wired=true");
    reveal_strlit("production_wired wired=false");
    let tail = deepen_tail(5);
    assert(tail.subrange(2, 18) =~= "facets_wired=5/7"@);
    assert(matches_at(tail, "facets_wired=5/7"@, 2));
    assert(tail.subrange(187, 209) =~= "production_wired=false"@);
    assert(matches_at(tail, "production_wired=false"@, 187));
    assert(tail.subrange(210, 236) =~= "session_ledger_wired=false"@);
    assert(matches_at(tail, "session_ledger_wired=false"@, 210));
    assert(tail.subrange(70, 94) =~= "trust_inspect_close_ssot"@);
    assert(matches_at(tail, "trust_inspect_close_ssot"@, 70));
    let head = "SEC-S1 trust-gate deepen (Z48 :trust inspect cross-ref):\n"@;
    let rows = deepen_facets_spec().map_values(deepen_row());
    assert(deepen_matrix_spec() == (head + rows.flatten()) + tail + Seq::<char>::empty());
    lemma_contains_extend(head + rows.flatten(), tail, Seq::empty(), "facets_wired=5/7"@);
    lemma_contains_extend(head + rows.flatten(), tail, Seq::empty(), "production_wired=false"@);
    lemma_contains_extend(
        head + rows.flatten(),
        tail,
        Seq::empty(),
        "session_ledger_wired=false"@,
    );
    lemma_contains_extend(head + rows.flatten(), tail, Seq::empty(), "trust_inspect_close_ssot"@);
    let row0 = rows[0];
    assert(row0.subrange(2, 27) =~= "trust_adt_ssot wired=true"@);
    assert(matches_at(row0, "trust_adt_ssot wired=true"@, 2));
    lemma_contains_entry(rows, 0, "trust_adt_ssot wired=true"@);
    let row6 = rows[6];
    assert(row6.subrange(2, 30) =~= "production_wired wired=false"@);
    assert(matches_at(row6, "production_wired wired=false"@, 2));
    lemma_contains_entry(rows, 6, "production_wired wired=false"@);
    assert(deepen_matrix_spec() == head + rows.flatten() + tail);
    lemma_contains_extend(head, rows.flatten(), tail, "trust_adt_ssot wired=true"@);
    lemma_contains_extend(head, rows.flatten(), tail, "production_wired wired=false"@);
}

/// Build the manifold SEC-S1 gate trust census from live measurements.
pub fn gate_trust_census(gate_evidence_wired: bool) -> (r: SecS1GateTrustCensus)
    ensures
        r.schema_version == SCHEMA_VERSION,
        r.board_slice_id == BOARD_SLICE_ID,
        r.gate_evidence_wired == gate_evidence_wired,
        r.factor_row_count == S1_FACTOR_ROW_COUNT,
        r.s1_all_factors_probed,
        r.s1_trust_wire_hop_count == S1_TRUST_WIRE_HOP_COUNT,
        r.s1_trust_census_match_count == S1_TRUST_CENSUS_MATCH_COUNT,
        r.s1_migrate_audit_queue_depth == S1_MIGRATE_AUDIT_QUEUE_DEPTH,
        r.s1_green_claim_blocked,
        !r.session_ledger_wired,
        !r.production_wired,
        r.wire_hop_wired_count == 5,
{
    let hops = manifold_sec_s1_gate_wire_hops();
    let wired = count_wired_hops(&hops);
    proof {
        lemma_wire_hops_wired_count();
    }
    SecS1GateTrustCensus {
        schema_version: SCHEMA_VERSION,
        board_slice_id: BOARD_SLICE_ID,
        gate_evidence_wired,
        factor_row_count: S1_FACTOR_ROW_COUNT,
        s1_all_factors_probed: manifold_s1_all_factors_probed(),
        s1_trust_wire_hop_count: S1_TRUST_WIRE_HOP_COUNT,
        s1_trust_census_match_count: S1_TRUST_CENSUS_MATCH_COUNT,
        s1_migrate_audit_queue_depth: S1_MIGRATE_AUDIT_QUEUE_DEPTH,
        s1_green_claim_blocked: S1_GREEN_CLAIM_BLOCKED,
        session_ledger_wired: session_ledger_wired(),
        production_wired: sec_s1_production_wired(),
        wire_hop_wired_count: wired as u8,
    }
}

/// Whether the manifold gate SEC-S1 ceremony is closed at census tier: it is exactly when
/// the cold-edge evidence admits, every other pin being measured true.
pub fn manifold_gate_sec_s1_ceremony_closed(gate_evidence_wired: bool) -> (r: bool)
    ensures
        r == gate_evidence_wired,
{
    let census = gate_trust_census(gate_evidence_wired);
    census.gate_evidence_wired && census.factor_row_count == S1_FACTOR_ROW_COUNT
        && census.s1_all_factors_probed && census.s1_trust_wire_hop_count
        == S1_TRUST_WIRE_HOP_COUNT && census.s1_migrate_audit_queue_depth
        == S1_MIGRATE_AUDIT_QUEUE_DEPTH && census.s1_green_claim_blocked
        && !census.session_ledger_wired && !census.production_wired
        && census.wire_hop_wired_count == 5 && manifold_s1_all_factors_probed()
        && manifold_verify_trust_gate_s1_pins() && manifold_s1_trust_gate_deepen_facets_verified()
        && gate_evidence_wired
}

/// Typed probe for SEC-S1 manifold gate closure honesty.
#[derive(Debug, Clone, Copy, PartialEq, Eq, Structural)]
pub struct SecS1GateManifoldProbe {
    pub gate_evidence_wired: bool,
    pub s1_all_factors_probed: bool,
    pub trust_gate_s1_pins_verified: bool,
    pub s1_green_claim_blocked: bool,
    pub production_honest_false: bool,
    pub session_ledger_honest_false: bool,
    pub wire_hop_wired_count: u8,
    pub ceremony_closed: bool,
}

/// The manifold probe measured for a given cold-edge outcome.
pub open spec fn manifold_probe_spec(gate_evidence_wired: bool) -> SecS1GateManifoldProbe {
    SecS1GateManifoldProbe {
        gate_evidence_wired,
        s1_all_factors_probed: true,
        trust_gate_s1_pins_verified: true,
        s1_green_claim_blocked: true,
        production_honest_false: true,
        session_ledger_honest_false: true,
        wire_hop_wired_count: 5,
        ceremony_closed: gate_evidence_wired,
    }
}

/// Build the introspection probe for SEC-S1 done-when checks.
pub fn sec_s1_gate_manifold_probe(gate_evidence_wired: bool) -> (r: SecS1GateManifoldProbe)
    ensures
        r == manifold_probe_spec(gate_evidence_wired),
{
    let census = gate_trust_census(gate_evidence_wired);
    SecS1GateManifoldProbe {
        gate_evidence_wired: census.gate_evidence_wired,
        s1_all_factors_probed: census.s1_all_factors_probed,
        trust_gate_s1_pins_verified: manifold_verify_trust_gate_s1_pins(),
        s1_green_claim_blocked: census.s1_green_claim_blocked,
        production_honest_false: !census.production_wired,
        session_ledger_honest_false: !census.session_ledger_wired,
        wire_hop_wired_count: census.wire_hop_wired_count,
        ceremony_closed: manifold_gate_sec_s1_ceremony_closed(gate_evidence_wired),
    }
}

/// One SEC-S1 gate-factor row for operator receipts.
#[derive(Debug, Clone, Copy, PartialEq, Eq)]
pub struct SecS1GateFactorRow {
    pub factor_id: &'static str,
    /// Whether the manifold probe is wired for this factor.
    pub probe_wired: bool,
    /// Acceptance credit (honest BLOCKED until production).
    pub acceptance_credit: bool,
}

/// Gate-factor rows as measured: every factor probed, none credited.
pub open spec fn factor_rows_spec() -> Seq<SecS1GateFactorRow> {
    factor_ids_spec().map_values(
        |id: &'static str|
            SecS1GateFactorRow { factor_id: id, probe_wired: true, acceptance_credit: false },
    )
}

/// Whether the manifold probe for a factor id is wired (unknown ids are not).
fn factor_probe_wired(factor_id: &str) -> (r: bool)
    ensures
        r == str_views(factor_ids_spec()).contains(factor_id@),
{
    proof {
        lemma_ssot_pins();
        reveal_strlit("trust-adt");
        reveal_strlit("consumer-census");
        reveal_strlit("s1-wire-map");
        reveal_strlit("migrate-drain");
        reveal_strlit("delegate-chain");
        reveal_strlit("session-ledger");
        assert(str_views(factor_ids_spec()) =~= seq![
            "trust-adt"@,
            "consumer-census"@,
            "s1-wire-map"@,
            "migrate-drain"@,
            "delegate-chain"@,
            "session-ledger"@,
        ]);
    }
    if str_eq(factor_id, "trust-adt") {
        str_contains(TRUST_GATE_SSOT, "sec_ecosystem_trust_gate.rs")
    } else if str_eq(factor_id, "consumer-census") {
        str_contains(TRUST_CONSUMER_SSOT, "consumers.rs")
    } else if str_eq(factor_id, "s1-wire-map") {
        S1_TRUST_WIRE_HOP_COUNT == S1_TRUST_WIRE_HOP_COUNT
    } else if str_eq(factor_id, "migrate-drain") {
        S1_MIGRATE_AUDIT_QUEUE_DEPTH == 0
    } else if str_eq(factor_id, "delegate-chain") {
        str_contains(PRIOR_RECEIPT_PATH_J33, "J33")
    } else if str_eq(factor_id, "session-ledger") {
        !session_ledger_wired() && !sec_s1_production_wired()
    } else {
        false
    }
}

/// Collect the SEC-S1 gate-factor rows for operator matrix receipts.
pub fn collect_sec_s1_gate_factor_rows() -> (r: Vec<SecS1GateFactorRow>)
    ensures
        r@ == factor_rows_spec(),
{
    let ids = s1_factor_ids();
    let mut out: Vec<SecS1GateFactorRow> = Vec::new();
    let mut i: usize = 0;
    while i < ids.len()
        invariant
            ids@ == factor_ids_spec(),
            i <= ids.len(),
            out@ == factor_rows_spec().take(i as int),
        decreases ids.len() - i,
    {
        let wired = factor_probe_wired(ids[i]);
        assert(str_views(factor_ids_spec())[i as int] == ids@[i as int]@);
        out.push(SecS1GateFactorRow { factor_id: ids[i], probe_wired: wired, acceptance_credit: false });
        assert(out@ =~= factor_rows_spec().take(i + 1));
        i = i + 1;
    }
    assert(out@ =~= factor_rows_spec());
    out
}

/// One rendered line of a gate-factor table.
pub open spec fn factor_row_text() -> spec_fn(SecS1GateFactorRow) -> Seq<char> {
    |r: SecS1GateFactorRow|
        "  "@ + r.factor_id@ + " probe_wired="@ + bool_text(r.probe_wired)
            + " scert_credit=BLOCKED\n"@
}

/// Closing line of a gate-factor table.
pub open spec fn factor_table_tail() -> Seq<char> {
    "  s1_wire_hops="@ + decimal(6) + "/"@ + decimal(6) + " census_match="@ + decimal(4) + "/"@
        + decimal(6) + " audit_queue="@ + decimal(0) + " s1_green_claim_blocked="@ + bool_text(
        true,
    ) + " session_ledger_wired="@ + bool_text(false) + " production_wired="@ + bool_text(false)
        + " expected_gate_exit="@ + EXPECTED_GATE_EXIT@ + " scert_credit="@ + "BLOCKED"@
        + " s_arc_posture="@ + S_ARC_HONEST_POSTURE@ + " capstone_residue="@
        + S1_CAPSTONE_RESIDUE_FACTOR_ID@ + "\n"@
}

/// Gate-factor table as rendered for operator receipts.
pub open spec fn factor_table_spec() -> Seq<char> {
    "SEC-S1 gate factors (AC28 trust-gate deepen):\n"@ + factor_rows_spec().map_values(
        factor_row_text(),
    ).flatten() + factor_table_tail()
}

/// Render the SEC-S1 gate-factor table for operator receipts.
pub fn sec_s1_gate_factor_table() -> (r: String)
    ensures
        r@ == factor_table_spec(),
{
    let exit = sec_s1_gate_factor_exit_expectations();
    let rows = collect_sec_s1_gate_factor_rows();
    let mut out = String::new();
    push_str(&mut out, "SEC-S1 gate factors (AC28 trust-gate deepen):\n");
    let ghost header = out@;
    let mut i: usize = 0;
    while i < rows.len()
        invariant
            i <= rows.len(),
            out@ == header + rows@.take(i as int).map_values(factor_row_text()).flatten(),
        decreases rows.len() - i,
    {
        proof {
            lemma_flatten_step(rows@, factor_row_text(), i as int);
        }
        let row = rows[i];
        push_str(&mut out, "  ");
        push_str(&mut out, row.factor_id);
        push_str(&mut out, " probe_wired=");
        push_bool(&mut out, row.probe_wired);
        push_str(&mut out, " scert_credit=BLOCKED\n");
        assert(out@ == header + rows@.take(i + 1).map_values(factor_row_text()).flatten());
        i = i + 1;
    }
    proof {
        lemma_take_all(rows@);
    }
    push_str(&mut out, "  s1_wire_hops=");
    push_decimal(&mut out, S1_TRUST_WIRE_HOP_COUNT as u64);
    push_str(&mut out, "/");
    push_decimal(&mut out, S1_TRUST_WIRE_HOP_COUNT as u64);
    push_str(&mut out, " census_match=");
    push_decimal(&mut out, S1_TRUST_CENSUS_MATCH_COUNT as u64);
    push_str(&mut out, "/");
    push_decimal(&mut out, S1_TRUST_WIRE_HOP_COUNT as u64);
    push_str(&mut out, " audit_queue=");
    push_decimal(&mut out, S1_MIGRATE_AUDIT_QUEUE_DEPTH as u64);
    push_str(&mut out, " s1_green_claim_blocked=");
    push_bool(&mut out, S1_GREEN_CLAIM_BLOCKED);
    push_str(&mut out, " session_ledger_wired=");
    push_bool(&mut out, session_ledger_wired());
    push_str(&mut out, " production_wired=");
    push_bool(&mut out, sec_s1_production_wired());
    push_str(&mut out, " expected_gate_exit=");
    push_str(&mut out, exit.expected_gate_exit);
    push_str(&mut out, " scert_credit=");
    push_str(&mut out, exit.scert_credit);
    push_str(&mut out, " s_arc_posture=");
    push_str(&mut out, exit.s_arc_honest_posture);
    push_str(&mut out, " capstone_residue=");
    push_str(&mut out, exit.capstone_residue_factor);
    push_str(&mut out, "\n");
    assert(out@ =~= factor_table_spec());
    out
}

/// The rendered gate-factor table pins the BLOCKED operator exit.
pub proof fn lemma_factor_table_exit_blocked()
    ensures
        seq_contains(factor_table_spec(), "expected_gate_exit=BLOCKED"@),
{
    reveal_strlit("  s1_wire_hops=");
    reveal_strlit("/");
    reveal_strlit(" census_match=");
    reveal_strlit(" audit_queue=");
    reveal_strlit(" s1_green_claim_blocked=");
    reveal_strlit(" session_ledger_wired=");
    reveal_strlit(" production_wired=");
    reveal_strlit(" expected_gate_exit=");
    reveal_strlit("BLOCKED");
    reveal_strlit(" scert_credit=");
    reveal_strlit(" s_arc_posture=");
    reveal_strlit("1/10");
    reveal_strlit(" capstone_residue=");
    reveal_strlit("session-ledger");
    reveal_strlit("\n");
    reveal_strlit("expected_gate_exit=BLOCKED");
    let tail = factor_table_tail();
    assert(tail.subrange(128, 154) =~= "expected_gate_exit=BLOCKED"@);
    assert(matches_at(tail, "expected_gate_exit=BLOCKED"@, 128));
    let head = "SEC-S1 gate factors (AC28 trust-gate deepen):\n"@;
    let rows = factor_rows_spec().map_values(factor_row_text()).flatten();
    assert(factor_table_spec() == (head + rows) + tail + Seq::<char>::empty());
    lemma_contains_extend(head + rows, tail, Seq::empty(), "expected_gate_exit=BLOCKED"@);
}

/// One rendered line of the wire map.
pub open spec fn hop_row_text() -> spec_fn(SecS1GateWireHop) -> Seq<char> {
    |h: SecS1GateWireHop|
        "  "@ + decimal(h.ordinal as nat) + " "@ + h.surface@ + " wired="@ + bool_text(h.wired)
            + " — "@ + h.role@ + "\n"@
}

/// The wire map as rendered for operator receipts, for a given cold-edge outcome.
pub open spec fn wire_matrix_spec(gate_evidence_wired: bool) -> Seq<char> {
    "SEC-S1 manifold gate wire map:\n"@ + wire_hops_spec().map_values(hop_row_text()).flatten()
        + "  wired="@ + decimal(5) + "/"@ + decimal(7) + " s1_green_claim_blocked="@ + bool_text(
        true,
    ) + " production_wired="@ + bool_text(false) + "\n"@ + "  s1_factor_ssot="@
        + TRUST_S1_FACTOR_SSOT@ + "\n"@ + "  trust_gate_ssot="@ + TRUST_GATE_SSOT@ + "\n"@
        + "  w29_120_cell="@ + W29_120_CELL_ID@ + " honest_fence_holds="@ + bool_text(
        gate_evidence_wired,
    ) + " master_retick="@ + bool_text(false) + " op5_cleared="@ + bool_text(false) + "\n"@
}

/// Render the SEC-S1 gate wire matrix for operator receipts.
pub fn sec_s1_gate_wire_matrix(gate_evidence_wired: bool) -> (r: String)
    ensures
        r@ == wire_matrix_spec(gate_evidence_wired),
{
    let census = gate_trust_census(gate_evidence_wired);
    let hops = manifold_sec_s1_gate_wire_hops();
    let mut out = String::new();
    push_str(&mut out, "SEC-S1 manifold gate wire map:\n");
    let ghost header = out@;
    let mut i: usize = 0;
    while i < hops.len()
        invariant
            i <= hops.len(),
            out@ == header + hops@.take(i as int).map_values(hop_row_text()).flatten(),
        decreases hops.len() - i,
    {
        proof {
            lemma_flatten_step(hops@, hop_row_text(), i as int);
        }
        let hop = hops[i];
        push_str(&mut out, "  ");
        push_decimal(&mut out, hop.ordinal as u64);
        push_str(&mut out, " ");
        push_str(&mut out, hop.surface);
        push_str(&mut out, " wired=");
        push_bool(&mut out, hop.wired);
        push_str(&mut out, " — ");
        push_str(&mut out, hop.role);
        push_str(&mut out, "\n");
        assert(out@ == header + hops@.take(i + 1).map_values(hop_row_text()).flatten());
        i = i + 1;
    }
    proof {
        lemma_take_all(hops@);
    }
    push_str(&mut out, "  wired=");
    push_decimal(&mut out, census.wire_hop_wired_count as u64);
    push_str(&mut out, "/");
    push_decimal(&mut out, hops.len() as u64);
    push_str(&mut out, " s1_green_claim_blocked=");
    push_bool(&mut out, census.s1_green_claim_blocked);
    push_str(&mut out, " production_wired=");
    push_bool(&mut out, census.production_wired);
    push_str(&mut out, "\n");
    push_str(&mut out, "  s1_factor_ssot=");
    push_str(&mut out, TRUST_S1_FACTOR_SSOT);
    push_str(&mut out, "\n");
    push_str(&mut out, "  trust_gate_ssot=");
    push_str(&mut out, TRUST_GATE_SSOT);
    push_str(&mut out, "\n");
    push_str(&mut out, "  w29_120_cell=");
    push_str(&mut out, W29_120_CELL_ID);
    push_str(&mut out, " honest_fence_holds=");
    push_bool(&mut out, sec_s1_honest_fence_holds(gate_evidence_wired));
    push_str(&mut out, " master_retick=");
    push_bool(&mut out, sec_s1_master_retick_eligible());
    push_str(&mut out, " op5_cleared=");
    push_bool(&mut out, sec_s1_op5_cleared());
    push_str(&mut out, "\n");
    assert(out@ =~= wire_matrix_spec(gate_evidence_wired));
    out
}

/// Validate SEC-S1 gate census honesty: it passes exactly when the cold-edge evidence admits,
/// and otherwise refuses with the evidence error.
pub fn validate_sec_s1_gate_honesty(gate_evidence_wired: bool) -> (r: Result<(), &'static str>)
    ensures
        gate_evidence_wired ==> r == Ok::<(), &'static str>(()),
        !gate_evidence_wired ==> r == Err::<(), &'static str>("SEC-S1 gate evidence probe must wire"),
{
    let census = gate_trust_census(gate_evidence_wired);
    if !census.gate_evidence_wired {
        return Err("SEC-S1 gate evidence probe must wire");
    }
    if census.factor_row_count != S1_FACTOR_ROW_COUNT {
        return Err("SEC-S1 factor row count must be 6");
    }
    if !census.s1_all_factors_probed {
        return Err("SEC-S1 all factor surfaces must be probed");
    }
    if census.production_wired {
        return Err("SEC-S1 production_wired must stay honest false");
    }
    if census.session_ledger_wired {
        return Err("SEC-S1 session_ledger_wired must stay honest false");
    }
    if !census.s1_green_claim_blocked {
        return Err("SEC-S1 GREEN claim must stay blocked");
    }
    if !manifold_verify_trust_gate_s1_pins() {
        return Err("SEC-S1 trust-gate SSOT pins must verify");
    }
    if !manifold_s1_trust_gate_deepen_facets_verified() {
        return Err("S-1 trust-gate deepen facets must verify at manifold boundary");
    }
    if !sec_s1_accel_ac28_honest(gate_evidence_wired) {
        return Err("ACCEL AC28 trust-gate deepen probe must be honest");
    }
    if sec_s1_master_retick_eligible() {
        return Err("SEC-S1 master_retick_eligible must stay honest false");
    }
    if sec_s1_op5_cleared() {
        return Err("SEC-S1 op5_cleared must stay honest false");
    }
    if !sec_s1_honest_fence_holds(gate_evidence_wired) {
        return Err("SEC-S1 W29-120 honest fence must hold (no GREEN/PRODUCTION/MASTER/OP-5)");
    }
    Ok(())
}

/// FLEET-COMPOSER ACCEL2 AC28 integration probe.
#[derive(Debug, Clone, PartialEq, Eq)]
pub struct SecS1AccelAc28Probe {
    pub ac28_job_id: &'static str,
    pub prior_y79_absorbed: bool,
    pub prior_h51_absorbed: bool,
    pub prior_j33_absorbed: bool,
    pub prior_g72_absorbed: bool,
    pub prior_z48_absorbed: bool,
    /// Trust-gate deepen facet matrix verified.
    pub trust_gate_deepen_matrix_verified: bool,
    /// Manifold ceremony close predicate.
    pub ceremony_closed: bool,
    /// Underlying gate probe.
    pub probe: SecS1GateManifoldProbe,
    /// Honest false.
    pub production_wired: bool,
    /// Gate-factor rows with probe wired.
    pub gate_factor_wired_count: usize,
    /// Gate-factor table pins the BLOCKED exit.
    pub gate_factor_exit_blocked: bool,
    /// Operator exit expectations.
    pub exit_expectations: SecS1GateFactorExitExpectations,
}

/// Build the FLEET-COMPOSER ACCEL2 AC28 integration probe from live measurements.
pub fn sec_s1_accel_ac28_probe(gate_evidence_wired: bool) -> (r: SecS1AccelAc28Probe)
    ensures
        r.ac28_job_id == FLEET_ACCEL2_AC28_JOB_ID,
        r.prior_y79_absorbed,
        r.prior_h51_absorbed,
        r.prior_j33_absorbed,
        r.prior_g72_absorbed,
        r.prior_z48_absorbed,
        r.trust_gate_deepen_matrix_verified,
        r.ceremony_closed == gate_evidence_wired,
        r.probe == manifold_probe_spec(gate_evidence_wired),
        !r.production_wired,
        r.gate_factor_wired_count == S1_FACTOR_ROW_COUNT,
        r.gate_factor_exit_blocked,
        r.exit_expectations.expected_gate_exit == EXPECTED_GATE_EXIT,
        r.exit_expectations.factor_row_count == S1_FACTOR_ROW_COUNT,
        r.exit_expectations.s_arc_honest_posture == S_ARC_HONEST_POSTURE,
        r.exit_expectations.capstone_residue_factor == S1_CAPSTONE_RESIDUE_FACTOR_ID,
        r.exit_expectations.palette_keys@ == palette_keys_spec(),
{
    let rows = collect_sec_s1_gate_factor_rows();
    let table = sec_s1_gate_factor_table();
    let deepen = sec_s1_trust_gate_deepen_matrix();
    proof {
        lemma_ssot_pins();
        lemma_deepen_matrix_markers();
        lemma_factor_table_exit_blocked();
    }
    let mut wired_rows: usize = 0;
    let mut i: usize = 0;
    while i < rows.len()
        invariant
            rows@ == factor_rows_spec(),
            i <= rows.len(),
            wired_rows == i,
        decreases rows.len() - i,
    {
        if rows[i].probe_wired {
            wired_rows = wired_rows + 1;
        }
        i = i + 1;
    }
    let matrix_verified = string_contains(&deepen, "facets_wired=5/7") && string_contains(
        &deepen,
        "production_wired=false",
    ) && string_contains(&deepen, "session_ledger_wired=false") && string_contains(
        &deepen,
        "trust_inspect_close_ssot",
    ) && string_contains(&deepen, "trust_adt_ssot wired=true") && string_contains(
        &deepen,
        "production_wired wired=false",
    );
    SecS1AccelAc28Probe {
        ac28_job_id: FLEET_ACCEL2_AC28_JOB_ID,
        prior_y79_absorbed: str_contains(PRIOR_RECEIPT_PATH_Y79, "Y79"),
        prior_h51_absorbed: str_contains(PRIOR_RECEIPT_PATH_H51, "H51"),
        prior_j33_absorbed: str_contains(PRIOR_RECEIPT_PATH_J33, "J33"),
        prior_g72_absorbed: str_contains(PRIOR_RECEIPT_PATH_G72, "G72"),
        prior_z48_absorbed: str_contains(PRIOR_RECEIPT_PATH_Z48, "Z48"),
        trust_gate_deepen_matrix_verified: matrix_verified,
        ceremony_closed: manifold_gate_sec_s1_ceremony_closed(gate_evidence_wired),
        probe: sec_s1_gate_manifold_probe(gate_evidence_wired),
        production_wired: sec_s1_production_wired(),
        gate_factor_wired_count: wired_rows,
        gate_factor_exit_blocked: string_contains(&table, "expected_gate_exit=BLOCKED"),
        exit_expectations: sec_s1_gate_factor_exit_expectations(),
    }
}

/// FLEET-COMPOSER ACCEL2 AC28 honesty gate — honest exactly when the cold-edge evidence admits.
pub fn sec_s1_accel_ac28_honest(gate_evidence_wired: bool) -> (r: bool)
    ensures
        r == gate_evidence_wired,
{
    let probe = sec_s1_accel_ac28_probe(gate_evidence_wired);
    proof {
        lemma_fence_texts();
    }
    str_eq(probe.ac28_job_id, FLEET_ACCEL2_AC28_JOB_ID) && probe.prior_y79_absorbed
        && probe.prior_h51_absorbed && probe.prior_j33_absorbed && probe.prior_g72_absorbed
        && probe.prior_z48_absorbed && probe.trust_gate_deepen_matrix_verified
        && probe.ceremony_closed && probe.probe.gate_evidence_wired
        && probe.probe.s1_all_factors_probed && probe.probe.trust_gate_s1_pins_verified
        && probe.probe.s1_green_claim_blocked && probe.probe.production_honest_false
        && probe.probe.session_ledger_honest_false && probe.probe.wire_hop_wired_count == 5
        && probe.gate_factor_wired_count == S1_FACTOR_ROW_COUNT && probe.gate_factor_exit_blocked
        && str_eq(probe.exit_expectations.expected_gate_exit, EXPECTED_GATE_EXIT)
        && probe.exit_expectations.factor_row_count == S1_FACTOR_ROW_COUNT && str_eq(
        probe.exit_expectations.s_arc_honest_posture,
        S_ARC_HONEST_POSTURE,
    ) && str_eq(probe.exit_expectations.capstone_residue_factor, S1_CAPSTONE_RESIDUE_FACTOR_ID)
        && !probe.production_wired && !sec_s1_master_retick_eligible() && !sec_s1_op5_cleared()
        && str_eq(W29_120_CELL_ID, "W29-120-SEC_S1") && str_contains(
        HONEST_FENCE,
        "green_claim_blocked=true",
    ) && str_contains(HONEST_FENCE, "production_wired=false")
}

/// Next-hop surface for sled session ledger persistence (trust-owned).
pub fn sec_s1_session_ledger_next_hop() -> (r: &'static str)
    ensures
        r@ == "umst-foundations/crates/umst-trust/src/sec_ecosystem_extract.rs:session_ledger_wired"@,
{
    "umst-foundations/crates/umst-trust/src/sec_ecosystem_extract.rs:session_ledger_wired"
}

} // verus!
