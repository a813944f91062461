//! SEC-S2 — manifold gate runtime TrustGatePolicy / refuse-path wire map.
//!
//! The manifold gate runtime owns the cold-edge census bridging transition evidence to the
//! SEC-S2 `TrustGatePolicy` and the refuse-path factor SSOT; the gateway trust wrap and the
//! trust-gate production flip stay honestly open.
//!
//! Census and refuse-path deepen only: no physics GREEN, no PRODUCTION_WIRED, no MASTER
//! retick, no OP-5 PASS. Every census takes the measured outcome of the cold-edge evidence
//! probe (`gate_evidence_wired`).
use vstd::prelude::*;
use crate::text::{
    seq_contains, matches_at, str_eq, str_contains, string_contains, str_views,
    str_list_contains, decimal, bool_text, push_str, push_bool, push_decimal, count_where,
    lemma_count_step, lemma_flatten_step, lemma_take_all, lemma_contains_entry,
    lemma_contains_extend,
};
use crate::runtime::gate::evidence::{TransitionEvidence, witness_admits, cold_edge_witness_admits};

verus! {

/// W29-121 swarm cell id (SEC-S2 honest-fence deepen).
pub const W29_121_CELL_ID: &'static str = "W29-121-SEC_S2";

/// W29-121 honest posture — manifold S-2 census deepen only.
pub const W29_121_HONEST_POSTURE: &'static str = "SEC_S2_MANIFOLD_CENSUS_DEEPEN_ONLY";

/// W29-121 explicit non-claims (gate text).
pub const W29_121_NON_CLAIM: &'static str =
    "not GREEN; not OP-5 PASS; not production_wired; not MASTER_RETICK";

/// W29-121 deepen schema version.
pub const W29_121_DEEPEN_SCHEMA_VERSION: &'static str = "sec_s2_w29_121_honest_fence_v1";

/// Honest fence string for meta / fleet probes (GREEN / PRODUCTION / MASTER / OP-5 fenced).
pub const HONEST_FENCE: &'static str =
    "census_wired=true production_wired=false green_claim_blocked=true master_retick=false op5_cleared=false session_ledger_wired=false trust_extract_production_wired=false";

/// Board slice id.
pub const BOARD_SLICE_ID: &'static str = "SEC-S2";

/// AGAP slot id (2033 TrustGatePolicy deepen).
pub const JOB_ID: &'static str = "AGAP-2033-SEC-S2";

/// FLEET-COMPOSER Prabhu Wave K slot K2 id.
pub const FLEET_P1941_K2_JOB_ID: &'static str = "PRABHU-WAVE-K-1941-K2";

/// FLEET-COMPOSER Prabhu Wave K K2 receipt path.
pub const FLEET_P1941_K2_RECEIPT_PATH: &'static str = "outputs/.tmp/COMPOSER_P1941_K2.md";

/// Prior AGAP-2033 SEC-S2 TrustGatePolicy receipt.
pub const PRIOR_RECEIPT_PATH_2033: &'static str =
    "old/residuals/residuals/misc-outputs-tmp/COMPLETION_AGAP_AGENT_SEC-S2_2033.md";

/// Prior G73 S-2 refuse-path matrix receipt.
pub const PRIOR_RECEIPT_PATH_G73: &'static str = "outputs/.tmp/COMPOSER_G73_SEC_S2_2143.md";

/// Prior Y81 gate-factors exit deepen receipt.
pub const PRIOR_RECEIPT_PATH_Y81: &'static str = "outputs/.tmp/COMPOSER_Y81_0808.md";

/// Prior H52 extract production fence receipt.
pub const PRIOR_RECEIPT_PATH_H52: &'static str = "outputs/.tmp/COMPOSER_H52_2242.md";

/// Prior X48 extract production fence receipt.
pub const PRIOR_RECEIPT_PATH_X48: &'static str = "outputs/.tmp/COMPOSER_X48_0734.md";

/// FLEET-COMPOSER ACCEL-B slot AC29 id (extract production fence deepen).
pub const FLEET_ACCEL_AC29_JOB_ID: &'static str = "ACCEL-B-2050-AC29";

/// FLEET-COMPOSER ACCEL-B AC29 receipt path.
pub const FLEET_ACCEL_AC29_RECEIPT_PATH: &'static str = "outputs/.tmp/COMPOSER_ACCEL2_AC29.md";

/// umst-trust SEC-TRUST-EXTRACT production fence delegate SSOT.
pub const EXTRACT_SSOT: &'static str = "umst-foundations/crates/umst-trust/src/sec_ecosystem_extract.rs";

/// Core `Trust` / `CipherSuite` ADT SSOT.
pub const TRUST_ADT_SSOT: &'static str = "umst-foundations/crates/umst-algebra/src/crypto/trust.rs";

/// UCRS consumer bridge parity test SSOT.
pub const UCRS_WIRE_PARITY_TEST: &'static str =
    "umst-foundations/crates/umst-algebra/tests/trust_ucrs_wire_parity.rs";

/// umst-trust `TrustGatePolicy` + `require_trust_gate_at` delegate SSOT.
pub const TRUST_SSOT: &'static str = "umst-foundations/crates/umst-trust/src/permission.rs";

/// umst-trust S-2 refuse-path factor matrix delegate SSOT.
pub const S2_FACTOR_SSOT: &'static str = "umst-foundations/crates/umst-trust/src/trust_refuse_factor.rs";

/// egoff permission thin re-export SSOT.
pub const EGOFF_PERMISSION_SSOT: &'static str = "egoff/egoff/src/security/permission.rs";

/// Gateway trust-wrap delegate SSOT (serial next-hop).
pub const GATEWAY_SSOT: &'static str = "umst-gateway/crates/umst-gateway/src/sec_gw_trust_wrap.rs";

/// umst-trust ecosystem trust-gate production census delegate SSOT.
pub const TRUST_GATE_SSOT: &'static str =
    "umst-foundations/crates/umst-trust/src/sec_ecosystem_trust_gate.rs";

/// Honest adoption tier.
pub const POSTURE_TAG: &'static str = "manifold-gate-census-wired-not-production";

/// Census schema version (v3 absorbs the W29-121 honest-fence deepen).
pub const SCHEMA_VERSION: &'static str = "sec_s2_gate_trust_refuse_census_v3";

/// S-2 refuse-path factor row count (six-row matrix).
pub const S2_FACTOR_ROW_COUNT: usize = 6;

/// Classical-wrap inventory total.
pub const CLASSICAL_WRAP_TOTAL: usize = 14;

/// Classical-wrap wrapped count (honest 8/14).
pub const CLASSICAL_WRAP_WRAPPED: usize = 8;

/// Wrap queue depth (measured at least 1).
pub const WRAP_QUEUE_DEPTH: usize = 1;

/// S-2 GREEN claim blocked — honest true in scaffold deepen.
pub const S2_GREEN_CLAIM_BLOCKED: bool = true;

/// TrustGatePolicy STRICT variant SSOT pin.
pub const TRUST_GATE_POLICY_STRICT: &'static str = "TrustGatePolicy::STRICT";

/// TrustGatePolicy WARN_ONLY_EXPIRY variant SSOT pin (S-Q3 default).
pub const TRUST_GATE_POLICY_WARN_ONLY: &'static str = "TrustGatePolicy::WARN_ONLY_EXPIRY";

/// Operator exit for `:trust gate-factors` — honest BLOCKED until SCERT capstone.
pub const EXPECTED_GATE_EXIT: &'static str = "BLOCKED";

/// S-2 extract production fence facet count.
pub const S2_EXTRACT_FENCE_FACET_COUNT: usize = 7;

/// S-2 extract production fence facets wired today (5/7).
pub const S2_EXTRACT_FENCE_WIRED_COUNT: usize = 5;

/// Required palette envelope keys for `:trust gate-factors`.
pub open spec fn palette_keys_spec() -> Seq<&'static str> {
    seq![
        "slice",
        "factor_table",
        "readiness_matrix",
        "ledger",
        "scert_credit",
    ]
}

/// Required palette envelope keys for `:trust gate-factors`.
pub fn s2_gate_factor_palette_keys() -> (r: Vec<&'static str>)
    ensures
        r@ == palette_keys_spec(),
{
    let r = vec![
        "slice",
        "factor_table",
        "readiness_matrix",
        "ledger",
        "scert_credit",
    ];
    assert(r@ =~= palette_keys_spec());
    r
}

/// S-2 refuse-path factor ids (pinned from the S-2 factor SSOT).
pub open spec fn refuse_path_factor_ids_spec() -> Seq<&'static str> {
    seq![
        "scope",
        "classical-wrap",
        "revocation",
        "expiry",
        "cipher-suite",
        "privacy-elevation",
    ]
}

/// S-2 refuse-path factor ids (pinned from the S-2 factor SSOT).
pub fn s2_refuse_path_factor_ids() -> (r: Vec<&'static str>)
    ensures
        r@ == refuse_path_factor_ids_spec(),
{
    let r = vec![
        "scope",
        "classical-wrap",
        "revocation",
        "expiry",
        "cipher-suite",
        "privacy-elevation",
    ];
    assert(r@ =~= refuse_path_factor_ids_spec());
    r
}

/// S-2 extract production fence facet ids.
pub open spec fn extract_fence_facet_ids_spec() -> Seq<&'static str> {
    seq![
        "core_adt_ssot",
        "trust_crate_reexport",
        "wire_projection",
        "egoff_consumer_reexport",
        "ucrs_consumer_bridge",
        "session_ledger",
        "production_wired",
    ]
}

/// S-2 extract production fence facet ids.
pub fn s2_extract_fence_facet_ids() -> (r: Vec<&'static str>)
    ensures
        r@ == extract_fence_facet_ids_spec(),
{
    let r = vec![
        "core_adt_ssot",
        "trust_crate_reexport",
        "wire_projection",
        "egoff_consumer_reexport",
        "ucrs_consumer_bridge",
        "session_ledger",
        "production_wired",
    ];
    assert(r@ =~= extract_fence_facet_ids_spec());
    r
}

/// One facet of the S-2 extract production fence matrix.
#[derive(Debug, Clone, Copy, PartialEq, Eq)]
pub struct ManifoldS2ExtractProductionFenceFacet {
    /// Facet under census.
    pub facet: &'static str,
    /// Whether this facet is wired today.
    pub wired: bool,
    /// Owning slice when residue.
    pub owning_slice: &'static str,
}

/// S-2 extract production fence facet inventory.
pub open spec fn extract_facets_spec() -> Seq<ManifoldS2ExtractProductionFenceFacet> {
    seq![
        ManifoldS2ExtractProductionFenceFacet { facet: "core_adt_ssot", wired: true, owning_slice: "SEC-TRUST-EXTRACT" },
        ManifoldS2ExtractProductionFenceFacet { facet: "trust_crate_reexport", wired: true, owning_slice: "SEC-TRUST-EXTRACT" },
        ManifoldS2ExtractProductionFenceFacet { facet: "wire_projection", wired: true, owning_slice: "SEC-TRUST-EXTRACT" },
        ManifoldS2ExtractProductionFenceFacet { facet: "egoff_consumer_reexport", wired: true, owning_slice: "SEC-EGOFF-THIN" },
        ManifoldS2ExtractProductionFenceFacet { facet: "ucrs_consumer_bridge", wired: true, owning_slice: "SEC-UCRS-STAMP" },
        ManifoldS2ExtractProductionFenceFacet { facet: "session_ledger", wired: false, owning_slice: "SEC-S3" },
        ManifoldS2ExtractProductionFenceFacet { facet: "production_wired", wired: false, owning_slice: "SEC-GW-WRAP" },
    ]
}

/// S-2 extract production fence facet inventory.
pub fn manifold_s2_extract_production_fence_facets() -> (r: Vec<ManifoldS2ExtractProductionFenceFacet>)
    ensures
        r@ == extract_facets_spec(),
{
    let r = vec![
        ManifoldS2ExtractProductionFenceFacet { facet: "core_adt_ssot", wired: true, owning_slice: "SEC-TRUST-EXTRACT" },
        ManifoldS2ExtractProductionFenceFacet { facet: "trust_crate_reexport", wired: true, owning_slice: "SEC-TRUST-EXTRACT" },
        ManifoldS2ExtractProductionFenceFacet { facet: "wire_projection", wired: true, owning_slice: "SEC-TRUST-EXTRACT" },
        ManifoldS2ExtractProductionFenceFacet { facet: "egoff_consumer_reexport", wired: true, owning_slice: "SEC-EGOFF-THIN" },
        ManifoldS2ExtractProductionFenceFacet { facet: "ucrs_consumer_bridge", wired: true, owning_slice: "SEC-UCRS-STAMP" },
        ManifoldS2ExtractProductionFenceFacet { facet: "session_ledger", wired: false, owning_slice: "SEC-S3" },
        ManifoldS2ExtractProductionFenceFacet { facet: "production_wired", wired: false, owning_slice: "SEC-GW-WRAP" },
    ];
    assert(r@ =~= extract_facets_spec());
    r
}

/// One hop in the manifold SEC-S2 gate runtime wire map.
#[derive(Debug, Clone, Copy, PartialEq, Eq)]
pub struct SecS2GateWireHop {
    /// Ordinal (1-based).
    pub ordinal: u8,
    /// Module or symbol surface.
    pub surface: &'static str,
    /// Role in the admit chain.
    pub role: &'static str,
    /// Whether this hop is wired today.
    pub wired: bool,
}

/// Manifold SEC-S2 gate runtime wire map (cold-edge evidence → TrustGatePolicy refuse census).
pub open spec fn wire_hops_spec() -> Seq<SecS2GateWireHop> {
    seq![
        SecS2GateWireHop { ordinal: 1, surface: "umst-manifold::runtime::gate::evidence::AdmissibilityToken", role: "Gate admit witness token on cold edge", wired: true },
        SecS2GateWireHop { ordinal: 2, surface: "umst-manifold::runtime::gate::cartridge::GateCartridge::transition_evidence", role: "CdTransitionCartridge structured witness", wired: true },
        SecS2GateWireHop { ordinal: 3, surface: "umst-manifold::runtime::gate::sec_s2::gate_trust_refuse_census", role: "Manifold gate SEC-S2 TrustGatePolicy refuse census", wired: true },
        SecS2GateWireHop { ordinal: 4, surface: "umst-trust::permission::TrustGatePolicy + require_trust_gate_at", role: "TrustGatePolicy refuse delegate (G73/Y81)", wired: true },
        SecS2GateWireHop { ordinal: 5, surface: "umst-trust::src_factor::collect_s2_factor_ledger", role: "S-2 six-row refuse-path factor matrix", wired: true },
        SecS2GateWireHop { ordinal: 6, surface: "umst-gateway::sec_gw_trust_wrap::trust_wrap_wired", role: "Gateway production ceremony (serial Wave D/K1)", wired: false },
        SecS2GateWireHop { ordinal: 7, surface: "umst-trust::sec_ecosystem_trust_gate::trust_gate_production_wired", role: "Ecosystem trust-gate production flip (operator-measured live)", wired: false },
    ]
}

/// Manifold SEC-S2 gate runtime wire map (cold-edge evidence → TrustGatePolicy refuse census).
pub fn manifold_sec_s2_gate_wire_hops() -> (r: Vec<SecS2GateWireHop>)
    ensures
        r@ == wire_hops_spec(),
{
    let r = vec![
        SecS2GateWireHop { ordinal: 1, surface: "umst-manifold::runtime::gate::evidence::AdmissibilityToken", role: "Gate admit witness token on cold edge", wired: true },
        SecS2GateWireHop { ordinal: 2, surface: "umst-manifold::runtime::gate::cartridge::GateCartridge::transition_evidence", role: "CdTransitionCartridge structured witness", wired: true },
        SecS2GateWireHop { ordinal: 3, surface: "umst-manifold::runtime::gate::sec_s2::gate_trust_refuse_census", role: "Manifold gate SEC-S2 TrustGatePolicy refuse census", wired: true },
        SecS2GateWireHop { ordinal: 4, surface: "umst-trust::permission::TrustGatePolicy + require_trust_gate_at", role: "TrustGatePolicy refuse delegate (G73/Y81)", wired: true },
        SecS2GateWireHop { ordinal: 5, surface: "umst-trust::src_factor::collect_s2_factor_ledger", role: "S-2 six-row refuse-path factor matrix", wired: true },
        SecS2GateWireHop { ordinal: 6, surface: "umst-gateway::sec_gw_trust_wrap::trust_wrap_wired", role: "Gateway production ceremony (serial Wave D/K1)", wired: false },
        SecS2GateWireHop { ordinal: 7, surface: "umst-trust::sec_ecosystem_trust_gate::trust_gate_production_wired", role: "Ecosystem trust-gate production flip (operator-measured live)", wired: false },
    ];
    assert(r@ =~= wire_hops_spec());
    r
}

/// Selects the wired hops of a wire map.
pub open spec fn hop_is_wired() -> spec_fn(SecS2GateWireHop) -> bool {
    |h: SecS2GateWireHop| h.wired
}

/// Selects the wired facets of the extract fence.
pub open spec fn facet_is_wired() -> spec_fn(ManifoldS2ExtractProductionFenceFacet) -> bool {
    |f: ManifoldS2ExtractProductionFenceFacet| f.wired
}

/// Five of the seven wire hops are wired today.
pub proof fn lemma_wire_hops_wired_count()
    ensures
        count_where(wire_hops_spec(), hop_is_wired()) == 5,
{
    let s = wire_hops_spec();
    let p = hop_is_wired();
    assert(s.take(0) =~= Seq::<SecS2GateWireHop>::empty());
    lemma_count_step(s, p, 0);
    lemma_count_step(s, p, 1);
    lemma_count_step(s, p, 2);
    lemma_count_step(s, p, 3);
    lemma_count_step(s, p, 4);
    lemma_count_step(s, p, 5);
    lemma_count_step(s, p, 6);
    lemma_take_all(s);
}

/// Five of the seven extract fence facets are wired today.
pub proof fn lemma_extract_facets_wired_count()
    ensures
        count_where(extract_facets_spec(), facet_is_wired()) == 5,
{
    let s = extract_facets_spec();
    let p = facet_is_wired();
    assert(s.take(0) =~= Seq::<ManifoldS2ExtractProductionFenceFacet>::empty());
    lemma_count_step(s, p, 0);
    lemma_count_step(s, p, 1);
    lemma_count_step(s, p, 2);
    lemma_count_step(s, p, 3);
    lemma_count_step(s, p, 4);
    lemma_count_step(s, p, 5);
    lemma_count_step(s, p, 6);
    lemma_take_all(s);
}

/// Count the wired hops of a wire map.
pub fn count_wired_hops(items: &Vec<SecS2GateWireHop>) -> (r: usize)
    ensures
        r == count_where(items@, hop_is_wired()),
{
    let mut n: usize = 0;
    let mut i: usize = 0;
    while i < items.len()
        invariant
            i <= items.len(),
            n == count_where(items@.take(i as int), hop_is_wired()),
            n <= i,
        decreases items.len() - i,
    {
        proof {
            lemma_count_step(items@, hop_is_wired(), i as int);
        }
        if items[i].wired {
            n = n + 1;
        }
        i = i + 1;
    }
    proof {
        lemma_take_all(items@);
    }
    n
}

/// Count the wired facets of an extract fence.
fn count_wired_facets(items: &Vec<ManifoldS2ExtractProductionFenceFacet>) -> (r: usize)
    ensures
        r == count_where(items@, facet_is_wired()),
{
    let mut n: usize = 0;
    let mut i: usize = 0;
    while i < items.len()
        invariant
            i <= items.len(),
            n == count_where(items@.take(i as int), facet_is_wired()),
            n <= i,
        decreases items.len() - i,
    {
        proof {
            lemma_count_step(items@, facet_is_wired(), i as int);
        }
        if items[i].wired {
            n = n + 1;
        }
        i = i + 1;
    }
    proof {
        lemma_take_all(items@);
    }
    n
}

/// The pinned non-claim and fence texts carry every refusal the deepen checks for.
pub proof fn lemma_fence_texts()
    ensures
        seq_contains(W29_121_NON_CLAIM@, "not GREEN"@),
        seq_contains(W29_121_NON_CLAIM@, "not OP-5 PASS"@),
        seq_contains(W29_121_NON_CLAIM@, "not production_wired"@),
        seq_contains(W29_121_NON_CLAIM@, "not MASTER_RETICK"@),
        seq_contains(HONEST_FENCE@, "production_wired=false"@),
        seq_contains(HONEST_FENCE@, "green_claim_blocked=true"@),
        seq_contains(HONEST_FENCE@, "master_retick=false"@),
        seq_contains(HONEST_FENCE@, "op5_cleared=false"@),
        seq_contains(HONEST_FENCE@, "session_ledger_wired=false"@),
        seq_contains(HONEST_FENCE@, "trust_extract_production_wired=false"@),
{
    reveal_strlit("not GREEN; not OP-5 PASS; not production_wired; not MASTER_RETICK");
    reveal_strlit("not GREEN");
    reveal_strlit("not OP-5 PASS");
    reveal_strlit("not production_wired");
    reveal_strlit("not MASTER_RETICK");
    reveal_strlit("census_wired=true production_wired=false green_claim_blocked=true master_retick=false op5_cleared=false session_ledger_wired=false trust_extract_production_wired=false");
    reveal_strlit("production_wired=false");
    reveal_strlit("green_claim_blocked=true");
    reveal_strlit("master_retick=false");
    reveal_strlit("op5_cleared=false");
    reveal_strlit("session_ledger_wired=false");
    reveal_strlit("trust_extract_production_wired=false");
    assert(W29_121_NON_CLAIM@.subrange(0, 9) =~= "not GREEN"@);
    assert(matches_at(W29_121_NON_CLAIM@, "not GREEN"@, 0));
    assert(W29_121_NON_CLAIM@.subrange(11, 24) =~= "not OP-5 PASS"@);
    assert(matches_at(W29_121_NON_CLAIM@, "not OP-5 PASS"@, 11));
    assert(W29_121_NON_CLAIM@.subrange(26, 46) =~= "not production_wired"@);
    assert(matches_at(W29_121_NON_CLAIM@, "not production_wired"@, 26));
    assert(W29_121_NON_CLAIM@.subrange(48, 65) =~= "not MASTER_RETICK"@);
    assert(matches_at(W29_121_NON_CLAIM@, "not MASTER_RETICK"@, 48));
    assert(HONEST_FENCE@.subrange(18, 40) =~= "production_wired=false"@);
    assert(matches_at(HONEST_FENCE@, "production_wired=false"@, 18));
    assert(HONEST_FENCE@.subrange(41, 65) =~= "green_claim_blocked=true"@);
    assert(matches_at(HONEST_FENCE@, "green_claim_blocked=true"@, 41));
    assert(HONEST_FENCE@.subrange(66, 85) =~= "master_retick=false"@);
    assert(matches_at(HONEST_FENCE@, "master_retick=false"@, 66));
    assert(HONEST_FENCE@.subrange(86, 103) =~= "op5_cleared=false"@);
    assert(matches_at(HONEST_FENCE@, "op5_cleared=false"@, 86));
    assert(HONEST_FENCE@.subrange(104, 130) =~= "session_ledger_wired=false"@);
    assert(matches_at(HONEST_FENCE@, "session_ledger_wired=false"@, 104));
    assert(HONEST_FENCE@.subrange(131, 167) =~= "trust_extract_production_wired=false"@);
    assert(matches_at(HONEST_FENCE@, "trust_extract_production_wired=false"@, 131));
}

/// The pinned SSOT paths, policy variants and receipt paths carry the markers the census checks for.
pub proof fn lemma_ssot_pins()
    ensures
        seq_contains(TRUST_SSOT@, "permission.rs"@),
        seq_contains(TRUST_GATE_POLICY_STRICT@, "STRICT"@),
        seq_contains(TRUST_GATE_POLICY_WARN_ONLY@, "WARN_ONLY_EXPIRY"@),
        seq_contains(TRUST_GATE_POLICY_WARN_ONLY@, "WARN_ONLY"@),
        seq_contains(S2_FACTOR_SSOT@, "trust_refuse_factor"@),
        seq_contains(EXTRACT_SSOT@, "sec_ecosystem_extract.rs"@),
        seq_contains(TRUST_ADT_SSOT@, "crypto/trust.rs"@),
        seq_contains(UCRS_WIRE_PARITY_TEST@, "trust_ucrs_wire_parity.rs"@),
        seq_contains(PRIOR_RECEIPT_PATH_2033@, "SEC-S2_2033"@),
        seq_contains(PRIOR_RECEIPT_PATH_G73@, "G73"@),
        seq_contains(PRIOR_RECEIPT_PATH_Y81@, "Y81"@),
        seq_contains(FLEET_P1941_K2_RECEIPT_PATH@, "COMPOSER_P1941_K2"@),
        seq_contains(PRIOR_RECEIPT_PATH_H52@, "COMPOSER_H52"@),
        seq_contains(PRIOR_RECEIPT_PATH_X48@, "COMPOSER_X48"@),
{
    reveal_strlit("umst-foundations/crates/umst-trust/src/permission.rs");
    reveal_strlit("permission.rs");
    reveal_strlit("TrustGatePolicy::STRICT");
    reveal_strlit("STRICT");
    reveal_strlit("TrustGatePolicy::WARN_ONLY_EXPIRY");
    reveal_strlit("WARN_ONLY_EXPIRY");
    reveal_strlit("WARN_ONLY");
    reveal_strlit("umst-foundations/crates/umst-trust/src/trust_refuse_factor.rs");
    reveal_strlit("trust_refuse_factor");
    reveal_strlit("umst-foundations/crates/umst-trust/src/sec_ecosystem_extract.rs");
    reveal_strlit("sec_ecosystem_extract.rs");
    reveal_strlit("umst-foundations/crates/umst-algebra/src/crypto/trust.rs");
    reveal_strlit("crypto/trust.rs");
    reveal_strlit("umst-foundations/crates/umst-algebra/tests/trust_ucrs_wire_parity.rs");
    reveal_strlit("trust_ucrs_wire_parity.rs");
    reveal_strlit("old/residuals/residuals/misc-outputs-tmp/COMPLETION_AGAP_AGENT_SEC-S2_2033.md");
    reveal_strlit("SEC-S2_2033");
    reveal_strlit("outputs/.tmp/COMPOSER_G73_SEC_S2_2143.md");
    reveal_strlit("G73");
    reveal_strlit("outputs/.tmp/COMPOSER_Y81_0808.md");
    reveal_strlit("Y81");
    reveal_strlit("outputs/.tmp/COMPOSER_P1941_K2.md");
    reveal_strlit("COMPOSER_P1941_K2");
    reveal_strlit("outputs/.tmp/COMPOSER_H52_2242.md");
    reveal_strlit("COMPOSER_H52");
    reveal_strlit("outputs/.tmp/COMPOSER_X48_0734.md");
    reveal_strlit("COMPOSER_X48");
    assert(TRUST_SSOT@.subrange(39, 52) =~= "permission.rs"@);
    assert(matches_at(TRUST_SSOT@, "permission.rs"@, 39));
    assert(TRUST_GATE_POLICY_STRICT@.subrange(17, 23) =~= "STRICT"@);
    assert(matches_at(TRUST_GATE_POLICY_STRICT@, "STRICT"@, 17));
    assert(TRUST_GATE_POLICY_WARN_ONLY@.subrange(17, 33) =~= "WARN_ONLY_EXPIRY"@);
    assert(matches_at(TRUST_GATE_POLICY_WARN_ONLY@, "WARN_ONLY_EXPIRY"@, 17));
    assert(TRUST_GATE_POLICY_WARN_ONLY@.subrange(17, 26) =~= "WARN_ONLY"@);
    assert(matches_at(TRUST_GATE_POLICY_WARN_ONLY@, "WARN_ONLY"@, 17));
    assert(S2_FACTOR_SSOT@.subrange(39, 58) =~= "trust_refuse_factor"@);
    assert(matches_at(S2_FACTOR_SSOT@, "trust_refuse_factor"@, 39));
    assert(EXTRACT_SSOT@.subrange(39, 63) =~= "sec_ecosystem_extract.rs"@);
    assert(matches_at(EXTRACT_SSOT@, "sec_ecosystem_extract.rs"@, 39));
    assert(TRUST_ADT_SSOT@.subrange(41, 56) =~= "crypto/trust.rs"@);
    assert(matches_at(TRUST_ADT_SSOT@, "crypto/trust.rs"@, 41));
    assert(UCRS_WIRE_PARITY_TEST@.subrange(43, 68) =~= "trust_ucrs_wire_parity.rs"@);
    assert(matches_at(UCRS_WIRE_PARITY_TEST@, "trust_ucrs_wire_parity.rs"@, 43));
    assert(PRIOR_RECEIPT_PATH_2033@.subrange(63, 74) =~= "SEC-S2_2033"@);
    assert(matches_at(PRIOR_RECEIPT_PATH_2033@, "SEC-S2_2033"@, 63));
    assert(PRIOR_RECEIPT_PATH_G73@.subrange(22, 25) =~= "G73"@);
    assert(matches_at(PRIOR_RECEIPT_PATH_G73@, "G73"@, 22));
    assert(PRIOR_RECEIPT_PATH_Y81@.subrange(22, 25) =~= "Y81"@);
    assert(matches_at(PRIOR_RECEIPT_PATH_Y81@, "Y81"@, 22));
    assert(FLEET_P1941_K2_RECEIPT_PATH@.subrange(13, 30) =~= "COMPOSER_P1941_K2"@);
    assert(matches_at(FLEET_P1941_K2_RECEIPT_PATH@, "COMPOSER_P1941_K2"@, 13));
    assert(PRIOR_RECEIPT_PATH_H52@.subrange(13, 25) =~= "COMPOSER_H52"@);
    assert(matches_at(PRIOR_RECEIPT_PATH_H52@, "COMPOSER_H52"@, 13));
    assert(PRIOR_RECEIPT_PATH_X48@.subrange(13, 25) =~= "COMPOSER_X48"@);
    assert(matches_at(PRIOR_RECEIPT_PATH_X48@, "COMPOSER_X48"@, 13));
}

/// One refuse-path probe row at the manifold cold edge.
#[derive(Debug, Clone, Copy, PartialEq, Eq)]
pub struct ManifoldS2RefusePathProbe {
    /// Stable factor identifier.
    pub factor_id: &'static str,
    /// Whether the surface is enumerated in the refuse-path SSOT pin.
    pub probe_hit: bool,
}

/// Aggregated SEC-S2 gate TrustGatePolicy refuse census on the manifold boundary.
#[derive(Debug, Clone, PartialEq, Eq)]
pub struct SecS2GateTrustRefuseCensus {
    pub schema_version: &'static str,
    pub board_slice_id: &'static str,
    /// Gate transition evidence probe passed.
    pub gate_evidence_wired: bool,
    /// S-2 refuse-path factor row count (6/6).
    pub factor_row_count: usize,
    /// All six refuse-path surfaces probed.
    pub s2_all_refuse_paths_probed: bool,
    /// TrustGatePolicy STRICT pin present.
    pub trust_gate_policy_strict_pinned: bool,
    /// TrustGatePolicy WARN_ONLY pin present.
    pub trust_gate_policy_warn_only_pinned: bool,
    /// Classical-wrap wrapped count (8/14).
    pub classical_wrap_wrapped: usize,
    /// Wrap queue depth (at least 1).
    pub wrap_queue_depth: usize,
    /// S-2 GREEN claim blocked — honest true.
    pub s2_green_claim_blocked: bool,
    /// Gateway production flip.
    pub production_wired: bool,
    /// Wired hop count.
    pub wire_hop_wired_count: u8,
}

/// Exercise gate cold-edge evidence at the manifold SSOT (the identity transition admits).
pub fn gate_transition_evidence_probe(evidence: &TransitionEvidence) -> (r: bool)
    ensures
        r == witness_admits(*evidence),
{
    cold_edge_witness_admits(evidence)
}

/// Whether the live gateway trust-wrap production flip is plumbed (honest `false`).
pub fn sec_s2_production_wired() -> (r: bool)
    ensures
        !r,
{
    false
}

/// Whether the SEC-TRUST-EXTRACT production flip is plumbed (honest `false` at the extract SSOT).
pub fn sec_s2_trust_extract_production_wired() -> (r: bool)
    ensures
        !r,
{
    false
}

/// Whether sled-backed session ledger persistence is wired (honest `false` — SEC-S3 residue).
pub fn session_ledger_wired() -> (r: bool)
    ensures
        !r,
{
    false
}

/// MASTER retick eligibility — honest **false**.
pub fn sec_s2_master_retick_eligible() -> (r: bool)
    ensures
        !r,
{
    false
}

/// OP-5 clearance — honest **false**.
pub fn sec_s2_op5_cleared() -> (r: bool)
    ensures
        !r,
{
    false
}

/// Honest fence flags for the SEC-S2 deepen (W29-121).
#[derive(Debug, Clone, Copy, PartialEq, Eq)]
pub struct SecS2W29121DeepenProbe {
    pub schema_version: &'static str,
    pub cell_id: &'static str,
    pub honest_posture: &'static str,
    pub non_claim: &'static str,
    pub honest_fence: &'static str,
    /// Invent claim — must stay false.
    pub production_wired_claimed: bool,
    /// Invent claim — must stay false.
    pub green_claimed: bool,
    /// Invent claim — must stay false.
    pub op5_pass_claimed: bool,
    /// Invent claim — must stay false.
    pub master_retick_claimed: bool,
    /// Measured deepen honesty (fences + ceremony pins).
    pub deepen_honest: bool,
}

/// Build the W29-121 SEC-S2 deepen honesty probe; it is honest exactly when the
/// cold-edge evidence admits.
pub fn sec_s2_w29_121_deepen_probe(gate_evidence_wired: bool) -> (r: SecS2W29121DeepenProbe)
    ensures
        r.schema_version == W29_121_DEEPEN_SCHEMA_VERSION,
        r.cell_id == W29_121_CELL_ID,
        r.honest_posture == W29_121_HONEST_POSTURE,
        r.non_claim == W29_121_NON_CLAIM,
        r.honest_fence == HONEST_FENCE,
        !r.production_wired_claimed,
        !r.green_claimed,
        !r.op5_pass_claimed,
        !r.master_retick_claimed,
        r.deepen_honest == gate_evidence_wired,
{
    let production_wired_claimed = sec_s2_production_wired() || sec_s2_trust_extract_production_wired();
    let green_claimed = !S2_GREEN_CLAIM_BLOCKED;
    let op5_pass_claimed = sec_s2_op5_cleared();
    let master_retick_claimed = sec_s2_master_retick_eligible();
    let ceremony_ok = manifold_gate_sec_s2_ceremony_closed(gate_evidence_wired);
    proof {
        lemma_fence_texts();
    }
    let deepen_honest = str_eq(W29_121_CELL_ID, "W29-121-SEC_S2")
        && str_eq(W29_121_DEEPEN_SCHEMA_VERSION, "sec_s2_w29_121_honest_fence_v1")
        && str_eq(W29_121_HONEST_POSTURE, "SEC_S2_MANIFOLD_CENSUS_DEEPEN_ONLY")
        && str_eq(SCHEMA_VERSION, "sec_s2_gate_trust_refuse_census_v3")
        && !production_wired_claimed && !green_claimed && !op5_pass_claimed
        && !master_retick_claimed && !session_ledger_wired()
        && str_contains(W29_121_NON_CLAIM, "not GREEN")
        && str_contains(W29_121_NON_CLAIM, "not OP-5 PASS")
        && str_contains(W29_121_NON_CLAIM, "not production_wired")
        && str_contains(W29_121_NON_CLAIM, "not MASTER_RETICK")
        && str_contains(HONEST_FENCE, "production_wired=false")
        && str_contains(HONEST_FENCE, "green_claim_blocked=true")
        && str_contains(HONEST_FENCE, "master_retick=false")
        && str_contains(HONEST_FENCE, "op5_cleared=false")
        && str_contains(HONEST_FENCE, "session_ledger_wired=false")
        && str_contains(HONEST_FENCE, "trust_extract_production_wired=false")
        && ceremony_ok && manifold_s2_extract_fence_facets_verified();
    SecS2W29121DeepenProbe {
        schema_version: W29_121_DEEPEN_SCHEMA_VERSION,
        cell_id: W29_121_CELL_ID,
        honest_posture: W29_121_HONEST_POSTURE,
        non_claim: W29_121_NON_CLAIM,
        honest_fence: HONEST_FENCE,
        production_wired_claimed,
        green_claimed,
        op5_pass_claimed,
        master_retick_claimed,
        deepen_honest,
    }
}

/// Whether the W29-121 SEC-S2 deepen honesty probe passes.
pub fn sec_s2_w29_121_deepen_honest(gate_evidence_wired: bool) -> (r: bool)
    ensures
        r == gate_evidence_wired,
{
    sec_s2_w29_121_deepen_probe(gate_evidence_wired).deepen_honest
}

/// SEC-S2 fence: refuse inventing GREEN / PRODUCTION_WIRED / MASTER / OP-5.
pub fn sec_s2_honest_fence_holds(gate_evidence_wired: bool) -> (r: bool)
    ensures
        r == gate_evidence_wired,
{
    let p = sec_s2_w29_121_deepen_probe(gate_evidence_wired);
    p.deepen_honest && !p.green_claimed && !p.production_wired_claimed && !p.op5_pass_claimed
        && !p.master_retick_claimed
}

/// The refuse-path coverage probes as measured: one hit per factor id.
pub open spec fn refuse_path_probes_spec() -> Seq<ManifoldS2RefusePathProbe> {
    refuse_path_factor_ids_spec().map_values(
        |id: &'static str| ManifoldS2RefusePathProbe { factor_id: id, probe_hit: true },
    )
}

/// S-2 refuse-path coverage probe matrix — 6/6 at the manifold cold edge.
pub fn manifold_s2_refuse_path_coverage_probes() -> (r: Vec<ManifoldS2RefusePathProbe>)
    ensures
        r@ == refuse_path_probes_spec(),
{
    let ids = s2_refuse_path_factor_ids();
    let mut out: Vec<ManifoldS2RefusePathProbe> = Vec::new();
    let mut i: usize = 0;
    while i < ids.len()
        invariant
            ids@ == refuse_path_factor_ids_spec(),
            i <= ids.len(),
            out@ == refuse_path_probes_spec().take(i as int),
        decreases ids.len() - i,
    {
        let id = ids[i];
        let hit = str_list_contains(&ids, id);
        assert(str_views(ids@)[i as int] == id@);
        out.push(ManifoldS2RefusePathProbe { factor_id: id, probe_hit: hit });
        assert(out@ =~= refuse_path_probes_spec().take(i + 1));
        i = i + 1;
    }
    assert(out@ =~= refuse_path_probes_spec());
    out
}

/// Whether all six refuse-path factor surfaces are enumerated at the manifold boundary.
pub fn manifold_s2_all_refuse_paths_probed() -> (r: bool)
    ensures
        r,
{
    let probes = manifold_s2_refuse_path_coverage_probes();
    let mut all = true;
    let mut i: usize = 0;
    while i < probes.len()
        invariant
            i <= probes.len(),
            probes@ == refuse_path_probes_spec(),
            all,
        decreases probes.len() - i,
    {
        assert(probes@[i as int].probe_hit);
        all = all && probes[i].probe_hit;
        i = i + 1;
    }
    all && s2_refuse_path_factor_ids().len() == S2_FACTOR_ROW_COUNT
}

/// Verify the TrustGatePolicy variant pins at the manifold boundary.
pub fn manifold_verify_trust_gate_policy_pins() -> (r: bool)
    ensures
        r,
{
    proof {
        lemma_ssot_pins();
    }
    str_contains(TRUST_SSOT, "permission.rs") && str_contains(TRUST_GATE_POLICY_STRICT, "STRICT")
        && str_contains(TRUST_GATE_POLICY_WARN_ONLY, "WARN_ONLY_EXPIRY") && str_contains(
        S2_FACTOR_SSOT,
        "trust_refuse_factor",
    )
}

/// Operator exit expectations for `:trust gate-factors` at the manifold boundary.
#[derive(Debug, Clone, PartialEq, Eq)]
pub struct SecS2GateFactorExitExpectations {
    pub subcommand: &'static str,
    pub slice_id: &'static str,
    /// Expected operator exit (honest — BLOCKED until SCERT capstone).
    pub expected_gate_exit: &'static str,
    pub scert_credit: &'static str,
    pub factor_row_count: usize,
    pub palette_keys: Vec<&'static str>,
}

/// Build the operator exit expectations for `:trust gate-factors` (Y81 absorb).
pub fn sec_s2_gate_factor_exit_expectations() -> (r: SecS2GateFactorExitExpectations)
    ensures
        r.subcommand@ == "gate-factors"@,
        r.slice_id == BOARD_SLICE_ID,
        r.expected_gate_exit == EXPECTED_GATE_EXIT,
        r.scert_credit@ == "BLOCKED"@,
        r.factor_row_count == S2_FACTOR_ROW_COUNT,
        r.palette_keys@ == palette_keys_spec(),
{
    SecS2GateFactorExitExpectations {
        subcommand: "gate-factors",
        slice_id: BOARD_SLICE_ID,
        expected_gate_exit: EXPECTED_GATE_EXIT,
        scert_credit: "BLOCKED",
        factor_row_count: S2_FACTOR_ROW_COUNT,
        palette_keys: s2_gate_factor_palette_keys(),
    }
}

/// Build the manifold SEC-S2 gate TrustGatePolicy refuse census from live measurements.
pub fn gate_trust_refuse_census(gate_evidence_wired: bool) -> (r: SecS2GateTrustRefuseCensus)
    ensures
        r.schema_version == SCHEMA_VERSION,
        r.board_slice_id == BOARD_SLICE_ID,
        r.gate_evidence_wired == gate_evidence_wired,
        r.factor_row_count == S2_FACTOR_ROW_COUNT,
        r.s2_all_refuse_paths_probed,
        r.trust_gate_policy_strict_pinned,
        r.trust_gate_policy_warn_only_pinned,
        r.classical_wrap_wrapped == CLASSICAL_WRAP_WRAPPED,
        r.wrap_queue_depth == WRAP_QUEUE_DEPTH,
        r.s2_green_claim_blocked,
        !r.production_wired,
        r.wire_hop_wired_count == 5,
{
    let hops = manifold_sec_s2_gate_wire_hops();
    let wired = count_wired_hops(&hops);
    proof {
        lemma_wire_hops_wired_count();
        lemma_ssot_pins();
    }
    SecS2GateTrustRefuseCensus {
        schema_version: SCHEMA_VERSION,
        board_slice_id: BOARD_SLICE_ID,
        gate_evidence_wired,
        factor_row_count: S2_FACTOR_ROW_COUNT,
        s2_all_refuse_paths_probed: manifold_s2_all_refuse_paths_probed(),
        trust_gate_policy_strict_pinned: str_contains(TRUST_GATE_POLICY_STRICT, "STRICT"),
        trust_gate_policy_warn_only_pinned: str_contains(TRUST_GATE_POLICY_WARN_ONLY, "WARN_ONLY"),
        classical_wrap_wrapped: CLASSICAL_WRAP_WRAPPED,
        wrap_queue_depth: WRAP_QUEUE_DEPTH,
        s2_green_claim_blocked: S2_GREEN_CLAIM_BLOCKED,
        production_wired: sec_s2_production_wired(),
        wire_hop_wired_count: wired as u8,
    }
}

/// Whether the manifold gate SEC-S2 ceremony is closed at census tier: it is exactly when
/// the cold-edge evidence admits, every other pin being measured true.
pub fn manifold_gate_sec_s2_ceremony_closed(gate_evidence_wired: bool) -> (r: bool)
    ensures
        r == gate_evidence_wired,
{
    let census = gate_trust_refuse_census(gate_evidence_wired);
    census.gate_evidence_wired && census.factor_row_count == S2_FACTOR_ROW_COUNT
        && census.s2_all_refuse_paths_probed && census.trust_gate_policy_strict_pinned
        && census.trust_gate_policy_warn_only_pinned && census.classical_wrap_wrapped
        == CLASSICAL_WRAP_WRAPPED && census.wrap_queue_depth >= WRAP_QUEUE_DEPTH
        && census.s2_green_claim_blocked && !census.production_wired
        && census.wire_hop_wired_count == 5 && manifold_s2_all_refuse_paths_probed()
        && manifold_verify_trust_gate_policy_pins() && gate_evidence_wired
}

/// Typed probe for SEC-S2 manifold gate closure honesty.
#[derive(Debug, Clone, Copy, PartialEq, Eq, Structural)]
pub struct SecS2GateManifoldProbe {
    pub gate_evidence_wired: bool,
    pub s2_all_refuse_paths_probed: bool,
    pub trust_gate_policy_pins_verified: bool,
    pub s2_green_claim_blocked: bool,
    pub production_honest_false: bool,
    pub wire_hop_wired_count: u8,
    pub ceremony_closed: bool,
}

/// The manifold probe measured for a given cold-edge outcome.
pub open spec fn manifold_probe_spec(gate_evidence_wired: bool) -> SecS2GateManifoldProbe {
    SecS2GateManifoldProbe {
        gate_evidence_wired,
        s2_all_refuse_paths_probed: true,
        trust_gate_policy_pins_verified: true,
        s2_green_claim_blocked: true,
        production_honest_false: true,
        wire_hop_wired_count: 5,
        ceremony_closed: gate_evidence_wired,
    }
}

/// Build the introspection probe for SEC-S2 done-when checks.
pub fn sec_s2_gate_manifold_probe(gate_evidence_wired: bool) -> (r: SecS2GateManifoldProbe)
    ensures
        r == manifold_probe_spec(gate_evidence_wired),
{
    let census = gate_trust_refuse_census(gate_evidence_wired);
    SecS2GateManifoldProbe {
        gate_evidence_wired: census.gate_evidence_wired,
        s2_all_refuse_paths_probed: census.s2_all_refuse_paths_probed,
        trust_gate_policy_pins_verified: manifold_verify_trust_gate_policy_pins(),
        s2_green_claim_blocked: census.s2_green_claim_blocked,
        production_honest_false: !census.production_wired,
        wire_hop_wired_count: census.wire_hop_wired_count,
        ceremony_closed: manifold_gate_sec_s2_ceremony_closed(gate_evidence_wired),
    }
}

/// One SEC-S2 gate-factor row for operator receipts.
#[derive(Debug, Clone, Copy, PartialEq, Eq)]
pub struct SecS2GateFactorRow {
    pub factor_id: &'static str,
    /// Refuse path label.
    pub refuse_path: &'static str,
    /// Whether the manifold probe is wired for this factor.
    pub probe_wired: bool,
    /// Acceptance credit (honest BLOCKED until production).
    pub acceptance_credit: bool,
}

/// Gate-factor rows as measured: every refuse path probed, none credited.
pub open spec fn factor_rows_spec() -> Seq<SecS2GateFactorRow> {
    seq![
        SecS2GateFactorRow { factor_id: "scope", refuse_path: "TrustError::ScopeNotPermitted", probe_wired: true, acceptance_credit: false },
        SecS2GateFactorRow { factor_id: "classical-wrap", refuse_path: "unwrapped classical surface refuse", probe_wired: true, acceptance_credit: false },
        SecS2GateFactorRow { factor_id: "revocation", refuse_path: "TrustError::AttestationRevoked", probe_wired: true, acceptance_credit: false },
        SecS2GateFactorRow { factor_id: "expiry", refuse_path: "TrustError::AttestationExpired (STRICT)", probe_wired: true, acceptance_credit: false },
        SecS2GateFactorRow { factor_id: "cipher-suite", refuse_path: "TrustComposeError::SuiteMismatch", probe_wired: true, acceptance_credit: false },
        SecS2GateFactorRow { factor_id: "privacy-elevation", refuse_path: "FederatedWrite minimum for cross-tier memory", probe_wired: true, acceptance_credit: false },
    ]
}

/// Collect the SEC-S2 gate-factor rows for operator matrix receipts.
pub fn collect_sec_s2_gate_factor_rows() -> (r: Vec<SecS2GateFactorRow>)
    ensures
        r@ == factor_rows_spec(),
{
    let all_probed = manifold_s2_all_refuse_paths_probed();
    let ids = s2_refuse_path_factor_ids();
    proof {
        lemma_ssot_pins();
        reveal_strlit("privacy-elevation");
        assert(str_views(ids@)[5] == "privacy-elevation"@);
    }
    let r = vec![
        SecS2GateFactorRow {
            factor_id: "scope",
            refuse_path: "TrustError::ScopeNotPermitted",
            probe_wired: all_probed,
            acceptance_credit: false,
        },
        SecS2GateFactorRow {
            factor_id: "classical-wrap",
            refuse_path: "unwrapped classical surface refuse",
            probe_wired: CLASSICAL_WRAP_WRAPPED < CLASSICAL_WRAP_TOTAL,
            acceptance_credit: false,
        },
        SecS2GateFactorRow {
            factor_id: "revocation",
            refuse_path: "TrustError::AttestationRevoked",
            probe_wired: str_contains(TRUST_SSOT, "permission.rs"),
            acceptance_credit: false,
        },
        SecS2GateFactorRow {
            factor_id: "expiry",
            refuse_path: "TrustError::AttestationExpired (STRICT)",
            probe_wired: str_contains(TRUST_GATE_POLICY_STRICT, "STRICT"),
            acceptance_credit: false,
        },
        SecS2GateFactorRow {
            factor_id: "cipher-suite",
            refuse_path: "TrustComposeError::SuiteMismatch",
            probe_wired: str_contains(S2_FACTOR_SSOT, "trust_refuse_factor"),
            acceptance_credit: false,
        },
        SecS2GateFactorRow {
            factor_id: "privacy-elevation",
            refuse_path: "FederatedWrite minimum for cross-tier memory",
            probe_wired: str_list_contains(&ids, "privacy-elevation"),
            acceptance_credit: false,
        },
    ];
    assert(r@ =~= factor_rows_spec());
    r
}

/// One rendered line of the SEC-S2 gate-factor table.
pub open spec fn factor_row_text() -> spec_fn(SecS2GateFactorRow) -> Seq<char> {
    |row: SecS2GateFactorRow| "  "@ + row.factor_id@ + " probe_wired="@ + bool_text(row.probe_wired) + " scert_credit=BLOCKED "@ + row.refuse_path@ + "\n"@
}

/// A closing line of the SEC-S2 gate-factor table.
pub open spec fn factor_table_tail() -> Seq<char> {
    "  classical_wrap="@ + decimal(CLASSICAL_WRAP_WRAPPED as nat) + "/"@ + decimal(CLASSICAL_WRAP_TOTAL as nat) + " wrap_queue_depth="@ + decimal(WRAP_QUEUE_DEPTH as nat) + " s2_green_claim_blocked="@ + bool_text(S2_GREEN_CLAIM_BLOCKED) + " production_wired="@ + bool_text(false) + " expected_gate_exit="@ + EXPECTED_GATE_EXIT@ + " scert_credit="@ + "BLOCKED"@ + "\n"@
}

/// The SEC-S2 gate-factor table, as rendered for operator receipts.
pub open spec fn factor_table_spec() -> Seq<char> {
    "SEC-S2 gate factors (K2 TrustGatePolicy refuse-path):\n"@ + factor_rows_spec().map_values(factor_row_text()).flatten() + factor_table_tail()
}

/// Render the SEC-S2 gate-factor table for operator receipts.
pub fn sec_s2_gate_factor_table() -> (r: String)
    ensures
        r@ == factor_table_spec(),
{
    let exit = sec_s2_gate_factor_exit_expectations();
    let items = collect_sec_s2_gate_factor_rows();
    let mut out = String::new();
    push_str(&mut out, "SEC-S2 gate factors (K2 TrustGatePolicy refuse-path):\n");
    let ghost header = out@;
    let mut i: usize = 0;
    while i < items.len()
        invariant
            i <= items.len(),
            items@ == factor_rows_spec(),
            out@ == header + items@.take(i as int).map_values(factor_row_text()).flatten(),
        decreases items.len() - i,
    {
        proof {
            lemma_flatten_step(items@, factor_row_text(), i as int);
        }
        let row = items[i];
        push_str(&mut out, "  ");
        push_str(&mut out, row.factor_id);
        push_str(&mut out, " probe_wired=");
        push_bool(&mut out, row.probe_wired);
        push_str(&mut out, " scert_credit=BLOCKED ");
        push_str(&mut out, row.refuse_path);
        push_str(&mut out, "\n");
        assert(out@ == header + items@.take(i + 1).map_values(factor_row_text()).flatten());
        i = i + 1;
    }
    proof {
        lemma_take_all(items@);
    }
    push_str(&mut out, "  classical_wrap=");
    push_decimal(&mut out, CLASSICAL_WRAP_WRAPPED as u64);
    push_str(&mut out, "/");
    push_decimal(&mut out, CLASSICAL_WRAP_TOTAL as u64);
    push_str(&mut out, " wrap_queue_depth=");
    push_decimal(&mut out, WRAP_QUEUE_DEPTH as u64);
    push_str(&mut out, " s2_green_claim_blocked=");
    push_bool(&mut out, S2_GREEN_CLAIM_BLOCKED);
    push_str(&mut out, " production_wired=");
    push_bool(&mut out, sec_s2_production_wired());
    push_str(&mut out, " expected_gate_exit=");
    push_str(&mut out, exit.expected_gate_exit);
    push_str(&mut out, " scert_credit=");
    push_str(&mut out, exit.scert_credit);
    push_str(&mut out, "\n");
    assert(out@ =~= factor_table_spec());
    out
}

/// The rendered gate-factor table pins the BLOCKED operator exit and SCERT credit.
pub proof fn lemma_factor_table_markers()
    ensures
        seq_contains(factor_table_spec(), "expected_gate_exit=BLOCKED"@),
        seq_contains(factor_table_spec(), "scert_credit=BLOCKED"@),
{
    reveal_strlit("\n");
    reveal_strlit("  ");
    reveal_strlit("  classical_wrap=");
    reveal_strlit(" expected_gate_exit=");
    reveal_strlit(" probe_wired=");
    reveal_strlit(" production_wired=");
    reveal_strlit(" s2_green_claim_blocked=");
    reveal_strlit(" scert_credit=");
    reveal_strlit(" scert_credit=BLOCKED ");
    reveal_strlit(" wrap_queue_depth=");
    reveal_strlit("/");
    reveal_strlit("BLOCKED");
    reveal_strlit("FederatedWrite minimum for cross-tier memory");
    reveal_strlit("TrustComposeError::SuiteMismatch");
    reveal_strlit("TrustError::AttestationExpired (STRICT)");
    reveal_strlit("TrustError::AttestationRevoked");
    reveal_strlit("TrustError::ScopeNotPermitted");
    reveal_strlit("cipher-suite");
    reveal_strlit("classical-wrap");
    reveal_strlit("expected_gate_exit=BLOCKED");
    reveal_strlit("expiry");
    reveal_strlit("privacy-elevation");
    reveal_strlit("revocation");
    reveal_strlit("scert_credit=BLOCKED");
    reveal_strlit("scope");
    reveal_strlit("unwrapped classical surface refuse");
    assert(decimal(1) =~= seq!['1']);
    assert(decimal(8) =~= seq!['8']);
    assert(decimal(1) =~= seq!['1']);
    assert(decimal(14) =~= seq!['1', '4']);
    assert(factor_table_tail().subrange(92, 118) =~= "expected_gate_exit=BLOCKED"@);
    assert(matches_at(factor_table_tail(), "expected_gate_exit=BLOCKED"@, 92));
    assert(factor_table_spec() =~= ("SEC-S2 gate factors (K2 TrustGatePolicy refuse-path):\n"@ + factor_rows_spec().map_values(factor_row_text()).flatten()) + factor_table_tail() + (Seq::<char>::empty()));
    lemma_contains_extend("SEC-S2 gate factors (K2 TrustGatePolicy refuse-path):\n"@ + factor_rows_spec().map_values(factor_row_text()).flatten(), factor_table_tail(), Seq::<char>::empty(), "expected_gate_exit=BLOCKED"@);
    assert(factor_rows_spec().map_values(factor_row_text())[0].subrange(25, 45) =~= "scert_credit=BLOCKED"@);
    assert(matches_at(factor_rows_spec().map_values(factor_row_text())[0], "scert_credit=BLOCKED"@, 25));
    lemma_contains_entry(factor_rows_spec().map_values(factor_row_text()), 0, "scert_credit=BLOCKED"@);
    assert(factor_table_spec() =~= "SEC-S2 gate factors (K2 TrustGatePolicy refuse-path):\n"@ + factor_rows_spec().map_values(factor_row_text()).flatten() + (factor_table_tail()));
    lemma_contains_extend("SEC-S2 gate factors (K2 TrustGatePolicy refuse-path):\n"@, factor_rows_spec().map_values(factor_row_text()).flatten(), factor_table_tail(), "scert_credit=BLOCKED"@);
}

/// FLEET-COMPOSER Prabhu Wave K K2 integration probe.
#[derive(Debug, Clone, PartialEq, Eq)]
pub struct SecS2P1941K2Probe {
    pub k2_job_id: &'static str,
    pub prior_2033_absorbed: bool,
    pub prior_g73_absorbed: bool,
    pub prior_y81_absorbed: bool,
    /// Manifold ceremony close predicate.
    pub ceremony_closed: bool,
    /// Underlying gate probe.
    pub probe: SecS2GateManifoldProbe,
    /// Honest false.
    pub production_wired: bool,
    /// Gate-factor rows with probe wired.
    pub gate_factor_wired_count: usize,
    /// Gate-factor table pins the BLOCKED exit.
    pub gate_factor_exit_blocked: bool,
    /// Operator exit expectations.
    pub exit_expectations: SecS2GateFactorExitExpectations,
}

/// Build the FLEET-COMPOSER P1941 K2 integration probe from live measurements.
pub fn sec_s2_p1941_k2_probe(gate_evidence_wired: bool) -> (r: SecS2P1941K2Probe)
    ensures
        r.k2_job_id == FLEET_P1941_K2_JOB_ID,
        r.prior_2033_absorbed,
        r.prior_g73_absorbed,
        r.prior_y81_absorbed,
        r.ceremony_closed == gate_evidence_wired,
        r.probe == manifold_probe_spec(gate_evidence_wired),
        !r.production_wired,
        r.gate_factor_wired_count == S2_FACTOR_ROW_COUNT,
        r.gate_factor_exit_blocked,
        r.exit_expectations.expected_gate_exit == EXPECTED_GATE_EXIT,
        r.exit_expectations.factor_row_count == S2_FACTOR_ROW_COUNT,
        r.exit_expectations.palette_keys@ == palette_keys_spec(),
{
    let rows = collect_sec_s2_gate_factor_rows();
    let table = sec_s2_gate_factor_table();
    proof {
        lemma_ssot_pins();
        lemma_factor_table_markers();
    }
    let mut wired_rows: usize = 0;
    let mut i: usize = 0;
    while i < rows.len()
        invariant
            rows@ == factor_rows_spec(),
            i <= rows.len(),
            wired_rows == i,
        decreases rows.len() - i,
    {
        if rows[i].probe_wired {
            wired_rows = wired_rows + 1;
        }
        i = i + 1;
    }
    SecS2P1941K2Probe {
        k2_job_id: FLEET_P1941_K2_JOB_ID,
        prior_2033_absorbed: str_contains(PRIOR_RECEIPT_PATH_2033, "SEC-S2_2033"),
        prior_g73_absorbed: str_contains(PRIOR_RECEIPT_PATH_G73, "G73"),
        prior_y81_absorbed: str_contains(PRIOR_RECEIPT_PATH_Y81, "Y81"),
        ceremony_closed: manifold_gate_sec_s2_ceremony_closed(gate_evidence_wired),
        probe: sec_s2_gate_manifold_probe(gate_evidence_wired),
        production_wired: sec_s2_production_wired(),
        gate_factor_wired_count: wired_rows,
        gate_factor_exit_blocked: string_contains(&table, "expected_gate_exit=BLOCKED"),
        exit_expectations: sec_s2_gate_factor_exit_expectations(),
    }
}

/// FLEET-COMPOSER P1941 K2 honesty gate — honest exactly when the cold-edge evidence admits.
pub fn sec_s2_p1941_k2_honest(gate_evidence_wired: bool) -> (r: bool)
    ensures
        r == gate_evidence_wired,
{
    let probe = sec_s2_p1941_k2_probe(gate_evidence_wired);
    str_eq(probe.k2_job_id, FLEET_P1941_K2_JOB_ID) && probe.prior_2033_absorbed
        && probe.prior_g73_absorbed && probe.prior_y81_absorbed && probe.ceremony_closed
        && probe.probe.gate_evidence_wired && probe.probe.s2_all_refuse_paths_probed
        && probe.probe.trust_gate_policy_pins_verified && probe.probe.s2_green_claim_blocked
        && probe.probe.production_honest_false && probe.probe.wire_hop_wired_count == 5
        && !probe.production_wired && probe.gate_factor_wired_count == S2_FACTOR_ROW_COUNT
        && probe.gate_factor_exit_blocked && str_eq(
        probe.exit_expectations.expected_gate_exit,
        EXPECTED_GATE_EXIT,
    ) && probe.exit_expectations.factor_row_count == S2_FACTOR_ROW_COUNT
}

/// Validate SEC-S2 gate census honesty: it passes exactly when the cold-edge evidence admits,
/// and otherwise refuses with the evidence error.
pub fn validate_sec_s2_gate_honesty(gate_evidence_wired: bool) -> (r: Result<(), &'static str>)
    ensures
        gate_evidence_wired ==> r == Ok::<(), &'static str>(()),
        !gate_evidence_wired ==> r == Err::<(), &'static str>("gate transition evidence probe failed"),
{
    let census = gate_trust_refuse_census(gate_evidence_wired);
    if census.production_wired {
        return Err("sec_s2_production_wired must stay false until SEC-GW-WRAP");
    }
    if !census.s2_green_claim_blocked {
        return Err("s2_green_claim_blocked must stay true in scaffold deepen");
    }
    if !census.gate_evidence_wired {
        return Err("gate transition evidence probe failed");
    }
    if census.factor_row_count != S2_FACTOR_ROW_COUNT {
        return Err("six SEC-S2 refuse-path factor rows expected");
    }
    if !census.s2_all_refuse_paths_probed {
        return Err("all six refuse-path surfaces must be probed");
    }
    if !manifold_verify_trust_gate_policy_pins() {
        return Err("TrustGatePolicy pins must be verified at manifold boundary");
    }
    if manifold_sec_s2_gate_wire_hops().len() != 7 {
        return Err("seven SEC-S2 gate wire hops expected");
    }
    if census.wire_hop_wired_count != 5 {
        return Err("five SEC-S2 gate wire hops should be wired today");
    }
    if !manifold_gate_sec_s2_ceremony_closed(gate_evidence_wired) {
        return Err("manifold gate SEC-S2 ceremony must be closed at census tier");
    }
    if !sec_s2_p1941_k2_honest(gate_evidence_wired) {
        return Err("P1941 K2 probe must be honest");
    }
    if !manifold_s2_extract_fence_facets_verified() {
        return Err("S-2 extract production fence facets must verify at manifold boundary");
    }
    if sec_s2_trust_extract_production_wired() {
        return Err("sec_s2_trust_extract_production_wired must stay false until SEC-GW-WRAP");
    }
    if !sec_s2_accel_ac29_honest(gate_evidence_wired) {
        return Err("ACCEL AC29 extract production fence deepen probe must be honest");
    }
    if sec_s2_master_retick_eligible() {
        return Err("SEC-S2 master_retick_eligible must stay honest false");
    }
    if sec_s2_op5_cleared() {
        return Err("SEC-S2 op5_cleared must stay honest false");
    }
    if session_ledger_wired() {
        return Err("SEC-S2 session_ledger_wired must stay honest false");
    }
    if !sec_s2_honest_fence_holds(gate_evidence_wired) {
        return Err("SEC-S2 W29-121 honest fence must hold (no GREEN/PRODUCTION/MASTER/OP-5)");
    }
    Ok(())
}

/// One rendered line of the SEC-S2 gate wire map.
pub open spec fn hop_row_text() -> spec_fn(SecS2GateWireHop) -> Seq<char> {
    |hop: SecS2GateWireHop| "  "@ + decimal(hop.ordinal as nat) + " wired="@ + bool_text(hop.wired) + " "@ + hop.surface@ + " ["@ + hop.role@ + "]\n"@
}

/// A closing line of the SEC-S2 gate wire map.
pub open spec fn wire_matrix_counts() -> Seq<char> {
    "  wired="@ + decimal(5 as nat) + "/"@ + decimal(7 as nat) + " s2_green_claim_blocked="@ + bool_text(true) + " production_wired="@ + bool_text(false) + "\n"@
}

/// A closing line of the SEC-S2 gate wire map.
pub open spec fn wire_matrix_ssots() -> Seq<char> {
    "  trust_ssot="@ + TRUST_SSOT@ + "\n  s2_factor_ssot="@ + S2_FACTOR_SSOT@ + "\n"@
}

/// A closing line of the SEC-S2 gate wire map.
pub open spec fn wire_matrix_fence(gate_evidence_wired: bool) -> Seq<char> {
    "  w29_121_cell="@ + W29_121_CELL_ID@ + " honest_fence_holds="@ + bool_text(gate_evidence_wired) + " master_retick="@ + bool_text(false) + " op5_cleared="@ + bool_text(false) + "\n"@
}

/// The SEC-S2 gate wire map, as rendered for operator receipts.
pub open spec fn wire_matrix_spec(gate_evidence_wired: bool) -> Seq<char> {
    "SEC-S2 manifold gate TrustGatePolicy refuse wire map (K2):\n"@ + wire_hops_spec().map_values(hop_row_text()).flatten() + wire_matrix_counts() + wire_matrix_ssots() + wire_matrix_fence(gate_evidence_wired)
}

/// Render the SEC-S2 gate wire map for operator receipts.
pub fn sec_s2_gate_wire_matrix(gate_evidence_wired: bool) -> (r: String)
    ensures
        r@ == wire_matrix_spec(gate_evidence_wired),
{
    let census = gate_trust_refuse_census(gate_evidence_wired);
    let hops_len = manifold_sec_s2_gate_wire_hops().len();
    let items = manifold_sec_s2_gate_wire_hops();
    let mut out = String::new();
    push_str(&mut out, "SEC-S2 manifold gate TrustGatePolicy refuse wire map (K2):\n");
    let ghost header = out@;
    let mut i: usize = 0;
    while i < items.len()
        invariant
            i <= items.len(),
            items@ == wire_hops_spec(),
            out@ == header + items@.take(i as int).map_values(hop_row_text()).flatten(),
        decreases items.len() - i,
    {
        proof {
            lemma_flatten_step(items@, hop_row_text(), i as int);
        }
        let hop = items[i];
        push_str(&mut out, "  ");
        push_decimal(&mut out, hop.ordinal as u64);
        push_str(&mut out, " wired=");
        push_bool(&mut out, hop.wired);
        push_str(&mut out, " ");
        push_str(&mut out, hop.surface);
        push_str(&mut out, " [");
        push_str(&mut out, hop.role);
        push_str(&mut out, "]\n");
        assert(out@ == header + items@.take(i + 1).map_values(hop_row_text()).flatten());
        i = i + 1;
    }
    proof {
        lemma_take_all(items@);
    }
    push_str(&mut out, "  wired=");
    push_decimal(&mut out, census.wire_hop_wired_count as u64);
    push_str(&mut out, "/");
    push_decimal(&mut out, hops_len as u64);
    push_str(&mut out, " s2_green_claim_blocked=");
    push_bool(&mut out, census.s2_green_claim_blocked);
    push_str(&mut out, " production_wired=");
    push_bool(&mut out, census.production_wired);
    push_str(&mut out, "\n");
    push_str(&mut out, "  trust_ssot=");
    push_str(&mut out, TRUST_SSOT);
    push_str(&mut out, "\n  s2_factor_ssot=");
    push_str(&mut out, S2_FACTOR_SSOT);
    push_str(&mut out, "\n");
    push_str(&mut out, "  w29_121_cell=");
    push_str(&mut out, W29_121_CELL_ID);
    push_str(&mut out, " honest_fence_holds=");
    push_bool(&mut out, sec_s2_honest_fence_holds(gate_evidence_wired));
    push_str(&mut out, " master_retick=");
    push_bool(&mut out, sec_s2_master_retick_eligible());
    push_str(&mut out, " op5_cleared=");
    push_bool(&mut out, sec_s2_op5_cleared());
    push_str(&mut out, "\n");
    assert(out@ =~= wire_matrix_spec(gate_evidence_wired));
    out
}

/// Next-hop surface for the gateway trust-wrap production ceremony (gateway-owned).
pub fn sec_s2_trust_wrap_next_hop() -> (r: &'static str)
    ensures
        r@ == "umst-gateway/crates/umst-gateway/src/sec_gw_trust_wrap.rs:trust_wrap_wired"@,
{
    "umst-gateway/crates/umst-gateway/src/sec_gw_trust_wrap.rs:trust_wrap_wired"
}

/// Count the wired extract production fence facets at the manifold boundary (5 of 7).
pub fn sec_s2_extract_fence_wired_count() -> (r: usize)
    ensures
        r == count_where(extract_facets_spec(), facet_is_wired()),
        r == S2_EXTRACT_FENCE_WIRED_COUNT,
{
    let facets = manifold_s2_extract_production_fence_facets();
    proof {
        lemma_extract_facets_wired_count();
    }
    count_wired_facets(&facets)
}

/// Every unwired facet is the session ledger or the production flip, and every wired facet
/// is one of the pinned fence facet ids.
pub open spec fn extract_facets_well_placed(s: Seq<ManifoldS2ExtractProductionFenceFacet>) -> bool {
    &&& forall|i: int|
        0 <= i < s.len() && !s[i].wired ==> (#[trigger] s[i].facet@ == "session_ledger"@
            || s[i].facet@ == "production_wired"@)
    &&& forall|i: int|
        0 <= i < s.len() && s[i].wired ==> str_views(extract_fence_facet_ids_spec()).contains(
            #[trigger] s[i].facet@,
        )
}

/// Whether the five wired extract production fence facets verify at the manifold boundary.
pub fn manifold_s2_extract_fence_facets_verified() -> (r: bool)
    ensures
        r,
{
    let facets = manifold_s2_extract_production_fence_facets();
    let ids = s2_extract_fence_facet_ids();
    let mut placed = true;
    let mut i: usize = 0;
    proof {
        reveal_strlit("core_adt_ssot");
        reveal_strlit("trust_crate_reexport");
        reveal_strlit("wire_projection");
        reveal_strlit("egoff_consumer_reexport");
        reveal_strlit("ucrs_consumer_bridge");
        reveal_strlit("session_ledger");
        reveal_strlit("production_wired");
    }
    while i < facets.len()
        invariant
            facets@ == extract_facets_spec(),
            ids@ == extract_fence_facet_ids_spec(),
            i <= facets.len(),
            placed,
        decreases facets.len() - i,
    {
        let f = facets[i];
        if f.wired {
            assert(str_views(ids@)[i as int] == f.facet@);
            placed = placed && str_list_contains(&ids, f.facet);
        } else {
            placed = placed && (str_eq(f.facet, "session_ledger") || str_eq(f.facet, "production_wired"));
        }
        i = i + 1;
    }
    proof {
        lemma_ssot_pins();
    }
    sec_s2_extract_fence_wired_count() == S2_EXTRACT_FENCE_WIRED_COUNT && facets.len()
        == S2_EXTRACT_FENCE_FACET_COUNT && ids.len() == S2_EXTRACT_FENCE_FACET_COUNT
        && str_contains(EXTRACT_SSOT, "sec_ecosystem_extract.rs") && str_contains(
        TRUST_ADT_SSOT,
        "crypto/trust.rs",
    ) && str_contains(UCRS_WIRE_PARITY_TEST, "trust_ucrs_wire_parity.rs")
        && !sec_s2_trust_extract_production_wired() && placed
}

/// One rendered line of the S-2 extract production fence matrix.
pub open spec fn extract_facet_row_text() -> spec_fn(ManifoldS2ExtractProductionFenceFacet) -> Seq<char> {
    |f: ManifoldS2ExtractProductionFenceFacet| "  "@ + f.facet@ + " wired="@ + bool_text(f.wired) + " owning_slice="@ + f.owning_slice@ + "\n"@
}

/// A closing line of the S-2 extract production fence matrix.
pub open spec fn extract_fence_counts() -> Seq<char> {
    "  facets_wired="@ + decimal(5 as nat) + "/"@ + decimal(S2_EXTRACT_FENCE_FACET_COUNT as nat) + " trust_extract_production_wired="@ + bool_text(false) + " session_ledger_wired=false s1_green_claimed=false extract_ssot="@ + EXTRACT_SSOT@ + "\n"@
}

/// A closing line of the S-2 extract production fence matrix.
pub open spec fn extract_fence_ssots() -> Seq<char> {
    "  trust_adt_ssot="@ + TRUST_ADT_SSOT@ + "\n  ucrs_wire_parity_test="@ + UCRS_WIRE_PARITY_TEST@ + "\n"@
}

/// A closing line of the S-2 extract production fence matrix.
pub open spec fn extract_fence_fence(gate_evidence_wired: bool) -> Seq<char> {
    "  w29_121_cell="@ + W29_121_CELL_ID@ + " honest_fence_holds="@ + bool_text(gate_evidence_wired) + " master_retick="@ + bool_text(false) + " op5_cleared="@ + bool_text(false) + "\n"@
}

/// The S-2 extract production fence matrix, as rendered for operator receipts.
pub open spec fn extract_fence_matrix_spec(gate_evidence_wired: bool) -> Seq<char> {
    "SEC-S2 extract production fence (SEC-TRUST-EXTRACT):\n"@ + extract_facets_spec().map_values(extract_facet_row_text()).flatten() + extract_fence_counts() + extract_fence_ssots() + extract_fence_fence(gate_evidence_wired)
}

/// Render the S-2 extract production fence matrix for operator receipts.
pub fn sec_s2_extract_production_fence_matrix(gate_evidence_wired: bool) -> (r: String)
    ensures
        r@ == extract_fence_matrix_spec(gate_evidence_wired),
{
    let wired = sec_s2_extract_fence_wired_count();
    let items = manifold_s2_extract_production_fence_facets();
    let mut out = String::new();
    push_str(&mut out, "SEC-S2 extract production fence (SEC-TRUST-EXTRACT):\n");
    let ghost header = out@;
    let mut i: usize = 0;
    while i < items.len()
        invariant
            i <= items.len(),
            items@ == extract_facets_spec(),
            out@ == header + items@.take(i as int).map_values(extract_facet_row_text()).flatten(),
        decreases items.len() - i,
    {
        proof {
            lemma_flatten_step(items@, extract_facet_row_text(), i as int);
        }
        let f = items[i];
        push_str(&mut out, "  ");
        push_str(&mut out, f.facet);
        push_str(&mut out, " wired=");
        push_bool(&mut out, f.wired);
        push_str(&mut out, " owning_slice=");
        push_str(&mut out, f.owning_slice);
        push_str(&mut out, "\n");
        assert(out@ == header + items@.take(i + 1).map_values(extract_facet_row_text()).flatten());
        i = i + 1;
    }
    proof {
        lemma_take_all(items@);
    }
    push_str(&mut out, "  facets_wired=");
    push_decimal(&mut out, wired as u64);
    push_str(&mut out, "/");
    push_decimal(&mut out, S2_EXTRACT_FENCE_FACET_COUNT as u64);
    push_str(&mut out, " trust_extract_production_wired=");
    push_bool(&mut out, sec_s2_trust_extract_production_wired());
    push_str(&mut out, " session_ledger_wired=false s1_green_claimed=false extract_ssot=");
    push_str(&mut out, EXTRACT_SSOT);
    push_str(&mut out, "\n");
    push_str(&mut out, "  trust_adt_ssot=");
    push_str(&mut out, TRUST_ADT_SSOT);
    push_str(&mut out, "\n  ucrs_wire_parity_test=");
    push_str(&mut out, UCRS_WIRE_PARITY_TEST);
    push_str(&mut out, "\n");
    push_str(&mut out, "  w29_121_cell=");
    push_str(&mut out, W29_121_CELL_ID);
    push_str(&mut out, " honest_fence_holds=");
    push_bool(&mut out, sec_s2_honest_fence_holds(gate_evidence_wired));
    push_str(&mut out, " master_retick=");
    push_bool(&mut out, sec_s2_master_retick_eligible());
    push_str(&mut out, " op5_cleared=");
    push_bool(&mut out, sec_s2_op5_cleared());
    push_str(&mut out, "\n");
    assert(out@ =~= extract_fence_matrix_spec(gate_evidence_wired));
    out
}

/// The rendered extract fence matrix carries every marker the AC29 probe checks for.
pub proof fn lemma_extract_fence_markers(gate_evidence_wired: bool)
    ensures
        seq_contains(extract_fence_matrix_spec(gate_evidence_wired), "facets_wired=5/7"@),
        seq_contains(extract_fence_matrix_spec(gate_evidence_wired), "trust_extract_production_wired=false"@),
        seq_contains(extract_fence_matrix_spec(gate_evidence_wired), "session_ledger_wired=false"@),
        seq_contains(extract_fence_matrix_spec(gate_evidence_wired), "core_adt_ssot"@),
        seq_contains(extract_fence_matrix_spec(gate_evidence_wired), "production_wired wired=false"@),
{
    reveal_strlit("\n");
    reveal_strlit("\n  ucrs_wire_parity_test=");
    reveal_strlit("  ");
    reveal_strlit("  facets_wired=");
    reveal_strlit("  trust_adt_ssot=");
    reveal_strlit("  w29_121_cell=");
    reveal_strlit(" honest_fence_holds=");
    reveal_strlit(" owning_slice=");
    reveal_strlit(" session_ledger_wired=false s1_green_claimed=false extract_ssot=");
    reveal_strlit(" trust_extract_production_wired=");
    reveal_strlit(" wired=");
    reveal_strlit("/");
    reveal_strlit("SEC-EGOFF-THIN");
    reveal_strlit("SEC-GW-WRAP");
    reveal_strlit("SEC-S3");
    reveal_strlit("SEC-TRUST-EXTRACT");
    reveal_strlit("SEC-UCRS-STAMP");
    reveal_strlit("W29-121-SEC_S2");
    reveal_strlit("core_adt_ssot");
    reveal_strlit("egoff_consumer_reexport");
    reveal_strlit("facets_wired=5/7");
    reveal_strlit("production_wired");
    reveal_strlit("production_wired wired=false");
    reveal_strlit("session_ledger");
    reveal_strlit("session_ledger_wired=false");
    reveal_strlit("trust_crate_reexport");
    reveal_strlit("trust_extract_production_wired=false");
    reveal_strlit("ucrs_consumer_bridge");
    reveal_strlit("umst-foundations/crates/umst-algebra/src/crypto/trust.rs");
    reveal_strlit("umst-foundations/crates/umst-algebra/tests/trust_ucrs_wire_parity.rs");
    reveal_strlit("umst-foundations/crates/umst-trust/src/sec_ecosystem_extract.rs");
    reveal_strlit("wire_projection");
    assert(decimal(5) =~= seq!['5']);
    assert(decimal(7) =~= seq!['7']);
    assert(extract_fence_counts().subrange(2, 18) =~= "facets_wired=5/7"@);
    assert(matches_at(extract_fence_counts(), "facets_wired=5/7"@, 2));
    assert(extract_fence_matrix_spec(gate_evidence_wired) =~= ("SEC-S2 extract production fence (SEC-TRUST-EXTRACT):\n"@ + extract_facets_spec().map_values(extract_facet_row_text()).flatten()) + extract_fence_counts() + (extract_fence_ssots() + extract_fence_fence(gate_evidence_wired)));
    lemma_contains_extend("SEC-S2 extract production fence (SEC-TRUST-EXTRACT):\n"@ + extract_facets_spec().map_values(extract_facet_row_text()).flatten(), extract_fence_counts(), extract_fence_ssots() + extract_fence_fence(gate_evidence_wired), "facets_wired=5/7"@);
    assert(extract_fence_counts().subrange(19, 55) =~= "trust_extract_production_wired=false"@);
    assert(matches_at(extract_fence_counts(), "trust_extract_production_wired=false"@, 19));
    assert(extract_fence_matrix_spec(gate_evidence_wired) =~= ("SEC-S2 extract production fence (SEC-TRUST-EXTRACT):\n"@ + extract_facets_spec().map_values(extract_facet_row_text()).flatten()) + extract_fence_counts() + (extract_fence_ssots() + extract_fence_fence(gate_evidence_wired)));
    lemma_contains_extend("SEC-S2 extract production fence (SEC-TRUST-EXTRACT):\n"@ + extract_facets_spec().map_values(extract_facet_row_text()).flatten(), extract_fence_counts(), extract_fence_ssots() + extract_fence_fence(gate_evidence_wired), "trust_extract_production_wired=false"@);
    assert(extract_fence_counts().subrange(56, 82) =~= "session_ledger_wired=false"@);
    assert(matches_at(extract_fence_counts(), "session_ledger_wired=false"@, 56));
    assert(extract_fence_matrix_spec(gate_evidence_wired) =~= ("SEC-S2 extract production fence (SEC-TRUST-EXTRACT):\n"@ + extract_facets_spec().map_values(extract_facet_row_text()).flatten()) + extract_fence_counts() + (extract_fence_ssots() + extract_fence_fence(gate_evidence_wired)));
    lemma_contains_extend("SEC-S2 extract production fence (SEC-TRUST-EXTRACT):\n"@ + extract_facets_spec().map_values(extract_facet_row_text()).flatten(), extract_fence_counts(), extract_fence_ssots() + extract_fence_fence(gate_evidence_wired), "session_ledger_wired=false"@);
    assert(extract_facets_spec().map_values(extract_facet_row_text())[0].subrange(2, 15) =~= "core_adt_ssot"@);
    assert(matches_at(extract_facets_spec().map_values(extract_facet_row_text())[0], "core_adt_ssot"@, 2));
    lemma_contains_entry(extract_facets_spec().map_values(extract_facet_row_text()), 0, "core_adt_ssot"@);
    assert(extract_fence_matrix_spec(gate_evidence_wired) =~= "SEC-S2 extract production fence (SEC-TRUST-EXTRACT):\n"@ + extract_facets_spec().map_values(extract_facet_row_text()).flatten() + (extract_fence_counts() + extract_fence_ssots() + extract_fence_fence(gate_evidence_wired)));
    lemma_contains_extend("SEC-S2 extract production fence (SEC-TRUST-EXTRACT):\n"@, extract_facets_spec().map_values(extract_facet_row_text()).flatten(), extract_fence_counts() + extract_fence_ssots() + extract_fence_fence(gate_evidence_wired), "core_adt_ssot"@);
    assert(extract_facets_spec().map_values(extract_facet_row_text())[6].subrange(2, 30) =~= "production_wired wired=false"@);
    assert(matches_at(extract_facets_spec().map_values(extract_facet_row_text())[6], "production_wired wired=false"@, 2));
    lemma_contains_entry(extract_facets_spec().map_values(extract_facet_row_text()), 6, "production_wired wired=false"@);
    assert(extract_fence_matrix_spec(gate_evidence_wired) =~= "SEC-S2 extract production fence (SEC-TRUST-EXTRACT):\n"@ + extract_facets_spec().map_values(extract_facet_row_text()).flatten() + (extract_fence_counts() + extract_fence_ssots() + extract_fence_fence(gate_evidence_wired)));
    lemma_contains_extend("SEC-S2 extract production fence (SEC-TRUST-EXTRACT):\n"@, extract_facets_spec().map_values(extract_facet_row_text()).flatten(), extract_fence_counts() + extract_fence_ssots() + extract_fence_fence(gate_evidence_wired), "production_wired wired=false"@);
}

/// Next-hop surface for sled session ledger persistence (extract-owned residue).
pub fn sec_s2_extract_production_fence_next_hop() -> (r: &'static str)
    ensures
        r@ == "umst-foundations/crates/umst-trust/src/sec_ecosystem_extract.rs:session_ledger_wired"@,
{
    "umst-foundations/crates/umst-trust/src/sec_ecosystem_extract.rs:session_ledger_wired"
}

/// FLEET-COMPOSER ACCEL-B AC29 extract production fence deepen probe.
#[derive(Debug, Clone, Copy, PartialEq, Eq)]
pub struct SecS2AccelAc29Probe {
    pub ac29_job_id: &'static str,
    pub prior_k2_absorbed: bool,
    pub prior_g73_absorbed: bool,
    pub prior_h52_absorbed: bool,
    pub prior_x48_absorbed: bool,
    /// Extract production fence facet matrix verified.
    pub extract_fence_matrix_verified: bool,
    /// Manifold ceremony close predicate.
    pub ceremony_closed: bool,
    /// Underlying gate probe.
    pub probe: SecS2GateManifoldProbe,
    /// Honest false.
    pub production_wired: bool,
    /// Honest false at the extract SSOT.
    pub trust_extract_production_wired_honest_false: bool,
    /// Wired extract fence facet count (5/7).
    pub extract_wired_facet_count: usize,
}

/// Build the FLEET-COMPOSER ACCEL-B AC29 integration probe from live measurements.
pub fn sec_s2_accel_ac29_probe(gate_evidence_wired: bool) -> (r: SecS2AccelAc29Probe)
    ensures
        r.ac29_job_id == FLEET_ACCEL_AC29_JOB_ID,
        r.prior_k2_absorbed,
        r.prior_g73_absorbed,
        r.prior_h52_absorbed,
        r.prior_x48_absorbed,
        r.extract_fence_matrix_verified,
        r.ceremony_closed == gate_evidence_wired,
        r.probe == manifold_probe_spec(gate_evidence_wired),
        !r.production_wired,
        r.trust_extract_production_wired_honest_false,
        r.extract_wired_facet_count == S2_EXTRACT_FENCE_WIRED_COUNT,
{
    let fence = sec_s2_extract_production_fence_matrix(gate_evidence_wired);
    proof {
        lemma_ssot_pins();
        lemma_extract_fence_markers(gate_evidence_wired);
    }
    let verified = string_contains(&fence, "facets_wired=5/7") && string_contains(
        &fence,
        "trust_extract_production_wired=false",
    ) && string_contains(&fence, "session_ledger_wired=false") && string_contains(
        &fence,
        "core_adt_ssot",
    ) && string_contains(&fence, "production_wired wired=false");
    SecS2AccelAc29Probe {
        ac29_job_id: FLEET_ACCEL_AC29_JOB_ID,
        prior_k2_absorbed: str_contains(FLEET_P1941_K2_RECEIPT_PATH, "COMPOSER_P1941_K2"),
        prior_g73_absorbed: str_contains(PRIOR_RECEIPT_PATH_G73, "G73"),
        prior_h52_absorbed: str_contains(PRIOR_RECEIPT_PATH_H52, "COMPOSER_H52"),
        prior_x48_absorbed: str_contains(PRIOR_RECEIPT_PATH_X48, "COMPOSER_X48"),
        extract_fence_matrix_verified: verified,
        ceremony_closed: manifold_gate_sec_s2_ceremony_closed(gate_evidence_wired),
        probe: sec_s2_gate_manifold_probe(gate_evidence_wired),
        production_wired: sec_s2_production_wired(),
        trust_extract_production_wired_honest_false: !sec_s2_trust_extract_production_wired(),
        extract_wired_facet_count: sec_s2_extract_fence_wired_count(),
    }
}

/// FLEET-COMPOSER ACCEL-B AC29 honesty gate — honest exactly when the cold-edge evidence admits.
pub fn sec_s2_accel_ac29_honest(gate_evidence_wired: bool) -> (r: bool)
    ensures
        r == gate_evidence_wired,
{
    let probe = sec_s2_accel_ac29_probe(gate_evidence_wired);
    proof {
        lemma_fence_texts();
    }
    str_eq(probe.ac29_job_id, FLEET_ACCEL_AC29_JOB_ID) && probe.prior_k2_absorbed
        && probe.prior_g73_absorbed && probe.prior_h52_absorbed && probe.prior_x48_absorbed
        && probe.extract_fence_matrix_verified && manifold_s2_extract_fence_facets_verified()
        && probe.ceremony_closed && probe.probe.gate_evidence_wired
        && probe.probe.s2_all_refuse_paths_probed && probe.probe.trust_gate_policy_pins_verified
        && probe.probe.s2_green_claim_blocked && probe.probe.production_honest_false
        && probe.probe.wire_hop_wired_count == 5 && !probe.production_wired
        && probe.trust_extract_production_wired_honest_false && probe.extract_wired_facet_count
        == S2_EXTRACT_FENCE_WIRED_COUNT && !sec_s2_trust_extract_production_wired()
        && !sec_s2_master_retick_eligible() && !sec_s2_op5_cleared() && str_eq(
        W29_121_CELL_ID,
        "W29-121-SEC_S2",
    ) && str_contains(HONEST_FENCE, "green_claim_blocked=true") && str_contains(
        HONEST_FENCE,
        "production_wired=false",
    ) && sec_s2_honest_fence_holds(gate_evidence_wired)
}

} // verus!
