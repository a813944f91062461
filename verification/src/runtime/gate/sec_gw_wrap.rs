//! SEC-GW-WRAP — manifold gate runtime trust-wrap delegate census.
//!
//! The manifold gate runtime owns the cold-edge census bridging transition evidence to the
//! SEC-GW-WRAP seven-surface admit inventory and the upstream S2/S3/S4 delegate fences; the
//! gateway trust wrap and its production flip stay honestly open.
//!
//! Census-tier deepen only (W29-118): no swarm or physics GREEN, no PRODUCTION_WIRED or live
//! gateway trust-wrap ceremony, no MASTER retick, no OP-5 clearance. Every census takes the
//! measured outcome of the cold-edge evidence probe (`gate_evidence_wired`); the upstream S-4
//! ceremony additionally rests on the synthetic fuzz corpus being honest
//! (`fuzz_corpus_honest`).
use vstd::prelude::*;
use crate::text::{
    seq_contains, matches_at, str_eq, str_contains, decimal, bool_text, push_str, push_bool,
    push_decimal, count_where, lemma_count_step, lemma_flatten_step, lemma_take_all,
};
use crate::runtime::gate::evidence::{TransitionEvidence, witness_admits, cold_edge_witness_admits};
use crate::runtime::gate::sec_s2::{gate_trust_refuse_census, manifold_gate_sec_s2_ceremony_closed};
use crate::runtime::gate::sec_s3::{gate_palette_ledger_census, manifold_gate_sec_s3_ceremony_closed};
use crate::runtime::gate::sec_s4::{
    gate_side_channel_scrub_census, manifold_gate_sec_s4_ceremony_closed, fuzz_corpus_honest,
};

verus! {

/// Cell id for this deepen write set.
pub const SEC_GW_WRAP_CELL_ID: &'static str = "W29-118-SEC_GW_WRAP";

/// W29 deepen step — honest fence + trust-wrap census (no invented GREEN).
pub const W29_118_SEC_GW_WRAP_DEEPEN_STEP: &'static str = "W29-118-SEC_GW_WRAP";

/// Board slice id.
pub const BOARD_SLICE_ID: &'static str = "SEC-GW-WRAP";

/// AGAP slot id (2033 gateway wrap deepen).
pub const JOB_ID: &'static str = "AGAP-2033-SEC-GW-WRAP";

/// FLEET-COMPOSER ACCEL-B slot AC32 id.
pub const FLEET_ACCEL2_AC32_JOB_ID: &'static str = "ACCEL-B-2050-AC32";

/// FLEET-COMPOSER ACCEL-B AC32 receipt path.
pub const FLEET_ACCEL2_AC32_RECEIPT_PATH: &'static str = "outputs/.tmp/COMPOSER_ACCEL2_AC32.md";

/// Prior PRABHU-WAVE-H H1 gateway wrap deepen receipt.
pub const PRIOR_RECEIPT_PATH_P1800_H1: &'static str = "outputs/.tmp/COMPOSER_P1800_H1.md";

/// Prior Wave-Z Z33 gateway wrap respawn receipt.
pub const PRIOR_RECEIPT_PATH_Z33: &'static str = "outputs/.tmp/COMPOSER_Z33_1015.md";

/// Prior FLEET-COMPOSER-Y Y24 S4 delegate + production census receipt.
pub const PRIOR_RECEIPT_PATH_Y24: &'static str = "outputs/.tmp/COMPOSER_Y24_0808.md";

/// Prior FLEET-COMPOSER-H H54 S4 gw trust-wrap delegate receipt.
pub const PRIOR_RECEIPT_PATH_H54: &'static str = "outputs/.tmp/COMPOSER_H54_2242.md";

/// Gateway trust-wrap delegate SSOT (serial next-hop).
pub const GATEWAY_SSOT: &'static str = "umst-gateway/crates/umst-gateway/src/sec_gw_trust_wrap.rs";

/// umst-trust admit-surface check delegate SSOT.
pub const TRUST_ADMIT_SSOT: &'static str = "umst-foundations/crates/umst-trust/src/permission.rs";

/// umst-trust SEC-S3 session ledger provider delegate SSOT.
pub const TRUST_SESSION_LEDGER_SSOT: &'static str =
    "umst-foundations/crates/umst-trust/src/sec_ecosystem_extract.rs";

/// Honest adoption tier.
pub const POSTURE_TAG: &'static str = "manifold-gate-census-wired-not-production";

/// Census schema version.
pub const SCHEMA_VERSION: &'static str = "sec_gw_wrap_manifold_trust_census_v1";

/// Gateway admit-surface inventory count (measured at Y24/Z33/H1).
pub const ADMIT_SURFACE_COUNT: usize = 7;

/// Ledger-enforce prep hop count (H1 measured 7/7 prep, not production).
pub const LEDGER_ENFORCE_PREP_HOP_COUNT: usize = 7;

/// Gateway wrap queue depth (residue at least 1).
pub const WRAP_QUEUE_DEPTH: usize = 1;

/// H54/Y24 S4 trust-wrap delegate hop count.
pub const S4_TRUST_WRAP_DELEGATE_HOP_COUNT: usize = 4;

/// Gateway compile-time trust-wrap enforce helpers — honest true (helpers only, not live ceremony).
pub const GATEWAY_TRUST_WRAP_HELPERS_WIRED_HONEST: bool = true;

/// SEC-GW-WRAP GREEN claim blocked — honest true in scaffold deepen.
pub const GW_WRAP_GREEN_CLAIM_BLOCKED: bool = true;

/// Session ledger provider wired — honest false until SEC-S3 sled lands.
pub const SESSION_LEDGER_PROVIDER_WIRED_HONEST: bool = false;

/// Gateway trust-wrap delegate — honest false until the SEC-S3 ceremony.
pub const TRUST_WRAP_WIRED_HONEST: bool = false;

/// Gateway production flip delegate — honest false until operator measure.
pub const GATEWAY_PRODUCTION_WIRED_HONEST: bool = false;

/// Honest fence — MASTER retick not claimed from the SEC-GW-WRAP deepen.
pub const SEC_GW_WRAP_MASTER_RETICK_ELIGIBLE: bool = false;

/// Honest fence — OP-5 not cleared from the SEC-GW-WRAP deepen.
pub const SEC_GW_WRAP_OP5_CLEARED: bool = false;

/// Honest physics posture — census-tier deepen is not physics GREEN.
pub const SEC_GW_WRAP_PHYSICS_GREEN: bool = false;

/// One hop in the manifold SEC-GW-WRAP gate runtime wire map.
#[derive(Debug, Clone, Copy, PartialEq, Eq)]
pub struct SecGwWrapManifoldWireHop {
    /// Ordinal (1-based).
    pub ordinal: u8,
    /// Module or symbol surface.
    pub surface: &'static str,
    /// Role in the admit chain.
    pub role: &'static str,
    /// Whether this hop is wired today.
    pub wired: bool,
}

/// Manifold SEC-GW-WRAP gate runtime wire map (cold-edge evidence to trust-wrap census).
pub open spec fn wire_hops_spec() -> Seq<SecGwWrapManifoldWireHop> {
    seq![
        SecGwWrapManifoldWireHop { ordinal: 1, surface: "umst-manifold::runtime::gate::evidence::AdmissibilityToken", role: "Gate admit witness token on cold edge", wired: true },
        SecGwWrapManifoldWireHop { ordinal: 2, surface: "umst-manifold::runtime::gate::cartridge::GateCartridge::transition_evidence", role: "CdTransitionCartridge structured witness", wired: true },
        SecGwWrapManifoldWireHop { ordinal: 3, surface: "umst-manifold::runtime::gate::sec_gw_wrap::gate_trust_wrap_census", role: "Manifold SEC-GW-WRAP seven-surface trust-wrap census", wired: true },
        SecGwWrapManifoldWireHop { ordinal: 4, surface: "umst-manifold::runtime::gate::sec_s2::gate_trust_refuse_census", role: "Upstream SEC-S2 TrustGatePolicy refuse delegate", wired: true },
        SecGwWrapManifoldWireHop { ordinal: 5, surface: "umst-manifold::runtime::gate::sec_s3::gate_palette_ledger_census", role: "Upstream SEC-S3 palette/ledger delegate fence", wired: true },
        SecGwWrapManifoldWireHop { ordinal: 6, surface: "umst-manifold::runtime::gate::sec_s4::gate_side_channel_scrub_census", role: "Upstream SEC-S4 side-channel scrub delegate (H54/Y24)", wired: true },
        SecGwWrapManifoldWireHop { ordinal: 7, surface: "umst-trust::permission::check_admit_surface_at", role: "Core admit-surface TrustGate delegate SSOT", wired: true },
        SecGwWrapManifoldWireHop { ordinal: 8, surface: "umst-trust::sec_ecosystem_extract::session_ledger_wired", role: "SEC-S3 sled session ledger provider", wired: false },
        SecGwWrapManifoldWireHop { ordinal: 9, surface: "umst-gateway::sec_gw_trust_wrap::trust_wrap_wired", role: "Gateway production ceremony (serial SEC-S3 gate)", wired: false },
        SecGwWrapManifoldWireHop { ordinal: 10, surface: "umst-gateway::sec_gw_trust_wrap::sec_gw_trust_wrap_production_wired", role: "Gateway production flip (operator-measured live)", wired: false },
    ]
}

/// Manifold SEC-GW-WRAP gate runtime wire map (cold-edge evidence to trust-wrap census).
pub fn manifold_sec_gw_wrap_wire_hops() -> (r: Vec<SecGwWrapManifoldWireHop>)
    ensures
        r@ == wire_hops_spec(),
{
    let r = vec![
        SecGwWrapManifoldWireHop { ordinal: 1, surface: "umst-manifold::runtime::gate::evidence::AdmissibilityToken", role: "Gate admit witness token on cold edge", wired: true },
        SecGwWrapManifoldWireHop { ordinal: 2, surface: "umst-manifold::runtime::gate::cartridge::GateCartridge::transition_evidence", role: "CdTransitionCartridge structured witness", wired: true },
        SecGwWrapManifoldWireHop { ordinal: 3, surface: "umst-manifold::runtime::gate::sec_gw_wrap::gate_trust_wrap_census", role: "Manifold SEC-GW-WRAP seven-surface trust-wrap census", wired: true },
        SecGwWrapManifoldWireHop { ordinal: 4, surface: "umst-manifold::runtime::gate::sec_s2::gate_trust_refuse_census", role: "Upstream SEC-S2 TrustGatePolicy refuse delegate", wired: true },
        SecGwWrapManifoldWireHop { ordinal: 5, surface: "umst-manifold::runtime::gate::sec_s3::gate_palette_ledger_census", role: "Upstream SEC-S3 palette/ledger delegate fence", wired: true },
        SecGwWrapManifoldWireHop { ordinal: 6, surface: "umst-manifold::runtime::gate::sec_s4::gate_side_channel_scrub_census", role: "Upstream SEC-S4 side-channel scrub delegate (H54/Y24)", wired: true },
        SecGwWrapManifoldWireHop { ordinal: 7, surface: "umst-trust::permission::check_admit_surface_at", role: "Core admit-surface TrustGate delegate SSOT", wired: true },
        SecGwWrapManifoldWireHop { ordinal: 8, surface: "umst-trust::sec_ecosystem_extract::session_ledger_wired", role: "SEC-S3 sled session ledger provider", wired: false },
        SecGwWrapManifoldWireHop { ordinal: 9, surface: "umst-gateway::sec_gw_trust_wrap::trust_wrap_wired", role: "Gateway production ceremony (serial SEC-S3 gate)", wired: false },
        SecGwWrapManifoldWireHop { ordinal: 10, surface: "umst-gateway::sec_gw_trust_wrap::sec_gw_trust_wrap_production_wired", role: "Gateway production flip (operator-measured live)", wired: false },
    ];
    assert(r@ =~= wire_hops_spec());
    r
}

/// One gateway admit-surface row pinned at the manifold boundary.
#[derive(Debug, Clone, Copy, PartialEq, Eq)]
pub struct ManifoldGwWrapAdmitSurface {
    /// Ordinal (1-based).
    pub ordinal: u8,
    /// Stable surface identifier.
    pub surface_id: &'static str,
    /// Minimum gate label at the admit boundary.
    pub gate_label: &'static str,
    /// Whether the manifold census enumerates this surface today.
    pub census_hit: bool,
}

/// Seven-surface gateway admit inventory (pinned from the gateway admit-surface SSOT).
pub open spec fn admit_surfaces_spec() -> Seq<ManifoldGwWrapAdmitSurface> {
    seq![
        ManifoldGwWrapAdmitSurface { ordinal: 1, surface_id: "umst-gateway::stdio_delegate::exec_native_mcp_delegate", gate_label: "EphemeralRead", census_hit: true },
        ManifoldGwWrapAdmitSurface { ordinal: 2, surface_id: "umst-gateway::gate_check_r::material_delegate", gate_label: "DeviceWrite", census_hit: true },
        ManifoldGwWrapAdmitSurface { ordinal: 3, surface_id: "umst-gateway::gate_check_r::informational", gate_label: "EphemeralRead", census_hit: true },
        ManifoldGwWrapAdmitSurface { ordinal: 4, surface_id: "umst-gateway::gate_check_r::semantic", gate_label: "FederatedWrite", census_hit: true },
        ManifoldGwWrapAdmitSurface { ordinal: 5, surface_id: "umst-gateway::gate_check_embodied", gate_label: "DeviceWrite", census_hit: true },
        ManifoldGwWrapAdmitSurface { ordinal: 6, surface_id: "umst-gateway::present_witness::export", gate_label: "HighAssurance", census_hit: true },
        ManifoldGwWrapAdmitSurface { ordinal: 7, surface_id: "umst-gateway::j2_semantic_compose::production", gate_label: "DeviceWrite", census_hit: true },
    ]
}

/// Seven-surface gateway admit inventory (pinned from the gateway admit-surface SSOT).
pub fn manifold_gw_wrap_admit_surfaces() -> (r: Vec<ManifoldGwWrapAdmitSurface>)
    ensures
        r@ == admit_surfaces_spec(),
{
    let r = vec![
        ManifoldGwWrapAdmitSurface { ordinal: 1, surface_id: "umst-gateway::stdio_delegate::exec_native_mcp_delegate", gate_label: "EphemeralRead", census_hit: true },
        ManifoldGwWrapAdmitSurface { ordinal: 2, surface_id: "umst-gateway::gate_check_r::material_delegate", gate_label: "DeviceWrite", census_hit: true },
        ManifoldGwWrapAdmitSurface { ordinal: 3, surface_id: "umst-gateway::gate_check_r::informational", gate_label: "EphemeralRead", census_hit: true },
        ManifoldGwWrapAdmitSurface { ordinal: 4, surface_id: "umst-gateway::gate_check_r::semantic", gate_label: "FederatedWrite", census_hit: true },
        ManifoldGwWrapAdmitSurface { ordinal: 5, surface_id: "umst-gateway::gate_check_embodied", gate_label: "DeviceWrite", census_hit: true },
        ManifoldGwWrapAdmitSurface { ordinal: 6, surface_id: "umst-gateway::present_witness::export", gate_label: "HighAssurance", census_hit: true },
        ManifoldGwWrapAdmitSurface { ordinal: 7, surface_id: "umst-gateway::j2_semantic_compose::production", gate_label: "DeviceWrite", census_hit: true },
    ];
    assert(r@ =~= admit_surfaces_spec());
    r
}

/// One ledger-enforce prep hop (H1 gateway deepen mirrored at the manifold census).
#[derive(Debug, Clone, Copy, PartialEq, Eq)]
pub struct ManifoldGwWrapLedgerPrepHop {
    /// Ordinal (1-based).
    pub ordinal: u8,
    /// Admit surface id under prep.
    pub admit_surface_id: &'static str,
    /// Gateway enforce hook label.
    pub enforce_hook: &'static str,
    /// Whether the prep census enumerates this hop.
    pub prep_hit: bool,
}

/// Ledger-enforce prep wire map (H1 — prep wired, production flip blocked).
pub open spec fn ledger_prep_hops_spec() -> Seq<ManifoldGwWrapLedgerPrepHop> {
    seq![
        ManifoldGwWrapLedgerPrepHop { ordinal: 1, admit_surface_id: "umst-gateway::stdio_delegate::exec_native_mcp_delegate", enforce_hook: "enforce_stdio_delegate_admit", prep_hit: true },
        ManifoldGwWrapLedgerPrepHop { ordinal: 2, admit_surface_id: "umst-gateway::gate_check_r::material_delegate", enforce_hook: "enforce_admit_trust(Material)", prep_hit: true },
        ManifoldGwWrapLedgerPrepHop { ordinal: 3, admit_surface_id: "umst-gateway::gate_check_r::informational", enforce_hook: "enforce_admit_trust(Informational)", prep_hit: true },
        ManifoldGwWrapLedgerPrepHop { ordinal: 4, admit_surface_id: "umst-gateway::gate_check_r::semantic", enforce_hook: "enforce_admit_trust(Semantic)", prep_hit: true },
        ManifoldGwWrapLedgerPrepHop { ordinal: 5, admit_surface_id: "umst-gateway::gate_check_embodied", enforce_hook: "enforce_admit_trust(Embodied)", prep_hit: true },
        ManifoldGwWrapLedgerPrepHop { ordinal: 6, admit_surface_id: "umst-gateway::present_witness::export", enforce_hook: "enforce_present_witness_export_admit", prep_hit: true },
        ManifoldGwWrapLedgerPrepHop { ordinal: 7, admit_surface_id: "umst-gateway::j2_semantic_compose::production", enforce_hook: "enforce_j2_semantic_production_admit", prep_hit: true },
    ]
}

/// Ledger-enforce prep wire map (H1 — prep wired, production flip blocked).
pub fn manifold_gw_wrap_ledger_prep_hops() -> (r: Vec<ManifoldGwWrapLedgerPrepHop>)
    ensures
        r@ == ledger_prep_hops_spec(),
{
    let r = vec![
        ManifoldGwWrapLedgerPrepHop { ordinal: 1, admit_surface_id: "umst-gateway::stdio_delegate::exec_native_mcp_delegate", enforce_hook: "enforce_stdio_delegate_admit", prep_hit: true },
        ManifoldGwWrapLedgerPrepHop { ordinal: 2, admit_surface_id: "umst-gateway::gate_check_r::material_delegate", enforce_hook: "enforce_admit_trust(Material)", prep_hit: true },
        ManifoldGwWrapLedgerPrepHop { ordinal: 3, admit_surface_id: "umst-gateway::gate_check_r::informational", enforce_hook: "enforce_admit_trust(Informational)", prep_hit: true },
        ManifoldGwWrapLedgerPrepHop { ordinal: 4, admit_surface_id: "umst-gateway::gate_check_r::semantic", enforce_hook: "enforce_admit_trust(Semantic)", prep_hit: true },
        ManifoldGwWrapLedgerPrepHop { ordinal: 5, admit_surface_id: "umst-gateway::gate_check_embodied", enforce_hook: "enforce_admit_trust(Embodied)", prep_hit: true },
        ManifoldGwWrapLedgerPrepHop { ordinal: 6, admit_surface_id: "umst-gateway::present_witness::export", enforce_hook: "enforce_present_witness_export_admit", prep_hit: true },
        ManifoldGwWrapLedgerPrepHop { ordinal: 7, admit_surface_id: "umst-gateway::j2_semantic_compose::production", enforce_hook: "enforce_j2_semantic_production_admit", prep_hit: true },
    ];
    assert(r@ =~= ledger_prep_hops_spec());
    r
}

/// One H54 S4 trust-wrap delegate hop pinned at the manifold boundary (gateway SSOT mirror).
#[derive(Debug, Clone, Copy, PartialEq, Eq)]
pub struct ManifoldGwWrapS4DelegateHop {
    /// Ordinal (1-based).
    pub ordinal: u8,
    /// Gateway delegate surface.
    pub gateway_surface: &'static str,
    /// umst-trust SSOT delegate target.
    pub trust_ssot: &'static str,
    /// Whether the manifold census enumerates this hop today.
    pub census_hit: bool,
}

/// H54 S4 trust-wrap delegate wire map (gateway to umst-trust SSOT, prep is not production).
pub open spec fn s4_delegate_hops_spec() -> Seq<ManifoldGwWrapS4DelegateHop> {
    seq![
        ManifoldGwWrapS4DelegateHop { ordinal: 1, gateway_surface: "sec_gw_trust_wrap::enforce_admit_trust", trust_ssot: "umst-trust::validate_s4_side_channel_honesty", census_hit: true },
        ManifoldGwWrapS4DelegateHop { ordinal: 2, gateway_surface: "sec_gw_trust_wrap::scrub_admit_metadata_s4", trust_ssot: "umst-trust::scrub_k_v1_tokens", census_hit: true },
        ManifoldGwWrapS4DelegateHop { ordinal: 3, gateway_surface: "sec_gw_trust_wrap::check_s4_delegate_at_admit", trust_ssot: "umst-trust::s4_side_channel_g75_honest", census_hit: true },
        ManifoldGwWrapS4DelegateHop { ordinal: 4, gateway_surface: "sec_gw_trust_wrap::enforce_stdio_delegate_admit", trust_ssot: "umst-trust::verify_s4_scrub_roundtrip", census_hit: true },
    ]
}

/// H54 S4 trust-wrap delegate wire map (gateway to umst-trust SSOT, prep is not production).
pub fn manifold_gw_wrap_s4_delegate_hops() -> (r: Vec<ManifoldGwWrapS4DelegateHop>)
    ensures
        r@ == s4_delegate_hops_spec(),
{
    let r = vec![
        ManifoldGwWrapS4DelegateHop { ordinal: 1, gateway_surface: "sec_gw_trust_wrap::enforce_admit_trust", trust_ssot: "umst-trust::validate_s4_side_channel_honesty", census_hit: true },
        ManifoldGwWrapS4DelegateHop { ordinal: 2, gateway_surface: "sec_gw_trust_wrap::scrub_admit_metadata_s4", trust_ssot: "umst-trust::scrub_k_v1_tokens", census_hit: true },
        ManifoldGwWrapS4DelegateHop { ordinal: 3, gateway_surface: "sec_gw_trust_wrap::check_s4_delegate_at_admit", trust_ssot: "umst-trust::s4_side_channel_g75_honest", census_hit: true },
        ManifoldGwWrapS4DelegateHop { ordinal: 4, gateway_surface: "sec_gw_trust_wrap::enforce_stdio_delegate_admit", trust_ssot: "umst-trust::verify_s4_scrub_roundtrip", census_hit: true },
    ];
    assert(r@ =~= s4_delegate_hops_spec());
    r
}

/// Selects the wired hops of a wire map.
pub open spec fn hop_is_wired() -> spec_fn(SecGwWrapManifoldWireHop) -> bool {
    |h: SecGwWrapManifoldWireHop| h.wired
}

/// Seven of the ten gate wire hops are wired today.
pub proof fn lemma_wire_hops_wired_count()
    ensures
        count_where(wire_hops_spec(), hop_is_wired()) == 7,
{
    let s = wire_hops_spec();
    let p = hop_is_wired();
    assert(s.take(0) =~= Seq::<SecGwWrapManifoldWireHop>::empty());
    lemma_count_step(s, p, 0);
    lemma_count_step(s, p, 1);
    lemma_count_step(s, p, 2);
    lemma_count_step(s, p, 3);
    lemma_count_step(s, p, 4);
    lemma_count_step(s, p, 5);
    lemma_count_step(s, p, 6);
    lemma_count_step(s, p, 7);
    lemma_count_step(s, p, 8);
    lemma_count_step(s, p, 9);
    lemma_take_all(s);
}

/// Count the wired hops of a wire map.
pub fn count_wired_hops(items: &Vec<SecGwWrapManifoldWireHop>) -> (r: usize)
    ensures
        r == count_where(items@, hop_is_wired()),
{
    let mut n: usize = 0;
    let mut i: usize = 0;
    while i < items.len()
        invariant
            i <= items.len(),
            n == count_where(items@.take(i as int), hop_is_wired()),
            n <= i,
        decreases items.len() - i,
    {
        proof {
            lemma_count_step(items@, hop_is_wired(), i as int);
        }
        if items[i].wired {
            n = n + 1;
        }
        i = i + 1;
    }
    proof {
        lemma_take_all(items@);
    }
    n
}

/// The pinned SSOT and receipt paths carry the markers the census checks for.
pub proof fn lemma_ssot_pins()
    ensures
        seq_contains(PRIOR_RECEIPT_PATH_P1800_H1@, "P1800_H1"@),
        seq_contains(PRIOR_RECEIPT_PATH_Z33@, "Z33"@),
        seq_contains(PRIOR_RECEIPT_PATH_Y24@, "Y24"@),
        seq_contains(PRIOR_RECEIPT_PATH_H54@, "H54"@),
        seq_contains(GATEWAY_SSOT@, "sec_gw_trust_wrap.rs"@),
{
    reveal_strlit("outputs/.tmp/COMPOSER_P1800_H1.md");
    reveal_strlit("P1800_H1");
    reveal_strlit("outputs/.tmp/COMPOSER_Z33_1015.md");
    reveal_strlit("Z33");
    reveal_strlit("outputs/.tmp/COMPOSER_Y24_0808.md");
    reveal_strlit("Y24");
    reveal_strlit("outputs/.tmp/COMPOSER_H54_2242.md");
    reveal_strlit("H54");
    reveal_strlit("umst-gateway/crates/umst-gateway/src/sec_gw_trust_wrap.rs");
    reveal_strlit("sec_gw_trust_wrap.rs");
    assert(PRIOR_RECEIPT_PATH_P1800_H1@.subrange(22, 30) =~= "P1800_H1"@);
    assert(matches_at(PRIOR_RECEIPT_PATH_P1800_H1@, "P1800_H1"@, 22));
    assert(PRIOR_RECEIPT_PATH_Z33@.subrange(22, 25) =~= "Z33"@);
    assert(matches_at(PRIOR_RECEIPT_PATH_Z33@, "Z33"@, 22));
    assert(PRIOR_RECEIPT_PATH_Y24@.subrange(22, 25) =~= "Y24"@);
    assert(matches_at(PRIOR_RECEIPT_PATH_Y24@, "Y24"@, 22));
    assert(PRIOR_RECEIPT_PATH_H54@.subrange(22, 25) =~= "H54"@);
    assert(matches_at(PRIOR_RECEIPT_PATH_H54@, "H54"@, 22));
    assert(GATEWAY_SSOT@.subrange(37, 57) =~= "sec_gw_trust_wrap.rs"@);
    assert(matches_at(GATEWAY_SSOT@, "sec_gw_trust_wrap.rs"@, 37));
}

/// Exercise gate cold-edge evidence at the manifold SSOT (the identity transition admits).
pub fn gate_transition_evidence_probe(evidence: &TransitionEvidence) -> (r: bool)
    ensures
        r == witness_admits(*evidence),
{
    cold_edge_witness_admits(evidence)
}

/// Whether the live gateway trust-wrap production flip is plumbed (honest `false`).
pub fn sec_gw_wrap_production_wired() -> (r: bool)
    ensures
        !r,
{
    false
}

/// W29-118 honesty fence — GREEN / PRODUCTION / MASTER / OP-5 refused.
#[derive(Debug, Clone, Copy, PartialEq, Eq)]
pub struct SecGwWrapHonestyFence {
    /// Deepen step pin.
    pub deepen_step: &'static str,
    /// Cell id pin.
    pub cell_id: &'static str,
    /// Physics GREEN invent — must stay false.
    pub physics_green: bool,
    /// Production wire invent — must stay false.
    pub production_wired: bool,
    /// MASTER retick invent — must stay false.
    pub master_retick_eligible: bool,
    /// OP-5 invent — must stay false.
    pub op5_cleared: bool,
    /// GREEN claim blocked — must stay true.
    pub green_claim_blocked: bool,
    /// Gateway trust-wrap ceremony — honest false.
    pub trust_wrap_wired: bool,
    /// Session ledger provider — honest false.
    pub session_ledger_provider_wired: bool,
}

/// The fence condition: invent flags stay false, GREEN stays blocked, and both pins name the
/// W29-118 cell.
pub open spec fn fence_holds_spec(f: SecGwWrapHonestyFence) -> bool {
    &&& !f.physics_green
    &&& !f.production_wired
    &&& !f.master_retick_eligible
    &&& !f.op5_cleared
    &&& f.green_claim_blocked
    &&& !f.trust_wrap_wired
    &&& !f.session_ledger_provider_wired
    &&& f.deepen_step@ == "W29-118-SEC_GW_WRAP"@
    &&& f.cell_id@ == "W29-118-SEC_GW_WRAP"@
}

impl SecGwWrapHonestyFence {
    /// Measured honesty posture for this module.
    pub fn measured() -> (r: Self)
        ensures
            r.deepen_step == W29_118_SEC_GW_WRAP_DEEPEN_STEP,
            r.cell_id == SEC_GW_WRAP_CELL_ID,
            !r.physics_green,
            !r.production_wired,
            !r.master_retick_eligible,
            !r.op5_cleared,
            r.green_claim_blocked,
            !r.trust_wrap_wired,
            !r.session_ledger_provider_wired,
    {
        SecGwWrapHonestyFence {
            deepen_step: W29_118_SEC_GW_WRAP_DEEPEN_STEP,
            cell_id: SEC_GW_WRAP_CELL_ID,
            physics_green: SEC_GW_WRAP_PHYSICS_GREEN,
            production_wired: GATEWAY_PRODUCTION_WIRED_HONEST,
            master_retick_eligible: SEC_GW_WRAP_MASTER_RETICK_ELIGIBLE,
            op5_cleared: SEC_GW_WRAP_OP5_CLEARED,
            green_claim_blocked: GW_WRAP_GREEN_CLAIM_BLOCKED,
            trust_wrap_wired: TRUST_WRAP_WIRED_HONEST,
            session_ledger_provider_wired: SESSION_LEDGER_PROVIDER_WIRED_HONEST,
        }
    }

    /// Fence holds when the invent flags stay false, GREEN remains blocked and both pins
    /// name the W29-118 cell.
    pub fn holds(self) -> (r: bool)
        ensures
            r == fence_holds_spec(self),
    {
        !self.physics_green && !self.production_wired && !self.master_retick_eligible
            && !self.op5_cleared && self.green_claim_blocked && !self.trust_wrap_wired
            && !self.session_ledger_provider_wired && str_eq(self.deepen_step, "W29-118-SEC_GW_WRAP")
            && str_eq(self.cell_id, "W29-118-SEC_GW_WRAP")
    }
}

/// The measured fence holds.
pub proof fn lemma_measured_fence_holds(f: SecGwWrapHonestyFence)
    requires
        f.deepen_step == W29_118_SEC_GW_WRAP_DEEPEN_STEP,
        f.cell_id == SEC_GW_WRAP_CELL_ID,
        !f.physics_green,
        !f.production_wired,
        !f.master_retick_eligible,
        !f.op5_cleared,
        f.green_claim_blocked,
        !f.trust_wrap_wired,
        !f.session_ledger_provider_wired,
    ensures
        fence_holds_spec(f),
{
}

/// Whether all seven gateway admit surfaces are enumerated at the manifold boundary.
pub fn manifold_gw_wrap_all_admit_surfaces_probed() -> (r: bool)
    ensures
        r,
{
    let items = manifold_gw_wrap_admit_surfaces();
    let mut all = true;
    let mut i: usize = 0;
    while i < items.len()
        invariant
            items@ == admit_surfaces_spec(),
            i <= items.len(),
            all,
        decreases items.len() - i,
    {
        assert(items@[i as int].census_hit);
        all = all && items[i].census_hit;
        i = i + 1;
    }
    items.len() == ADMIT_SURFACE_COUNT && all
}

/// Whether the H1 ledger-enforce prep map is complete at census tier (prep is not production).
pub fn manifold_gw_wrap_ledger_prep_complete() -> (r: bool)
    ensures
        r,
{
    let items = manifold_gw_wrap_ledger_prep_hops();
    let mut all = true;
    let mut i: usize = 0;
    while i < items.len()
        invariant
            items@ == ledger_prep_hops_spec(),
            i <= items.len(),
            all,
        decreases items.len() - i,
    {
        assert(items@[i as int].prep_hit);
        all = all && items[i].prep_hit;
        i = i + 1;
    }
    items.len() == LEDGER_ENFORCE_PREP_HOP_COUNT && all
}

/// Whether the H54 S4 trust-wrap delegate hop inventory is complete at census tier.
pub fn manifold_gw_wrap_s4_delegate_complete() -> (r: bool)
    ensures
        r,
{
    let items = manifold_gw_wrap_s4_delegate_hops();
    let mut all = true;
    let mut i: usize = 0;
    while i < items.len()
        invariant
            items@ == s4_delegate_hops_spec(),
            i <= items.len(),
            all,
        decreases items.len() - i,
    {
        assert(items@[i as int].census_hit);
        all = all && items[i].census_hit;
        i = i + 1;
    }
    items.len() == S4_TRUST_WRAP_DELEGATE_HOP_COUNT && all
}

/// Whether the gateway compile-time trust-wrap enforce helpers are wired (honest census pin).
pub fn manifold_gw_wrap_trust_wrap_helpers_wired() -> (r: bool)
    ensures
        r == GATEWAY_TRUST_WRAP_HELPERS_WIRED_HONEST,
        r,
{
    GATEWAY_TRUST_WRAP_HELPERS_WIRED_HONEST
}

/// Verify the upstream S2/S3/S4 delegate ceremonies at the manifold boundary: they close
/// exactly when the cold-edge evidence admits and the S-4 fuzz corpus is honest.
pub fn manifold_verify_upstream_gate_delegates(gate_evidence_wired: bool) -> (r: bool)
    ensures
        r == (gate_evidence_wired && fuzz_corpus_honest()),
{
    manifold_gate_sec_s2_ceremony_closed(gate_evidence_wired) && manifold_gate_sec_s3_ceremony_closed(
        gate_evidence_wired,
    ) && manifold_gate_sec_s4_ceremony_closed(gate_evidence_wired) && gate_trust_refuse_census(
        gate_evidence_wired,
    ).gate_evidence_wired && gate_palette_ledger_census(gate_evidence_wired).gate_evidence_wired
        && gate_side_channel_scrub_census(gate_evidence_wired).gate_evidence_wired
}

/// Aggregated SEC-GW-WRAP gate trust-wrap census on the manifold boundary.
#[derive(Debug, Clone, Copy, PartialEq, Eq)]
pub struct SecGwWrapManifoldTrustCensus {
    /// Census schema tag.
    pub schema_version: &'static str,
    /// Board slice id.
    pub board_slice_id: &'static str,
    /// W29-118 cell id pin.
    pub cell_id: &'static str,
    /// Gate transition evidence probe passed.
    pub gate_evidence_wired: bool,
    /// Seven admit surfaces enumerated.
    pub admit_surface_count: usize,
    /// All seven admit surfaces probed in the census.
    pub all_admit_surfaces_probed: bool,
    /// Ledger-enforce prep hops wired (7/7 prep, not production).
    pub ledger_prep_hop_count: usize,
    /// Upstream SEC-S2 ceremony closed.
    pub upstream_s2_ceremony_closed: bool,
    /// Upstream SEC-S3 ceremony closed.
    pub upstream_s3_ceremony_closed: bool,
    /// Upstream SEC-S4 ceremony closed.
    pub upstream_s4_ceremony_closed: bool,
    /// Session ledger provider wired — honest false.
    pub session_ledger_provider_wired: bool,
    /// Gateway trust-wrap delegate — honest false.
    pub trust_wrap_wired: bool,
    /// SEC-GW-WRAP GREEN claim blocked.
    pub gw_wrap_green_claim_blocked: bool,
    /// Physics GREEN invent — honest false.
    pub physics_green: bool,
    /// MASTER retick invent — honest false.
    pub master_retick_eligible: bool,
    /// OP-5 invent — honest false.
    pub op5_cleared: bool,
    /// H54 S4 trust-wrap delegate hop count (4/4 prep).
    pub s4_delegate_hop_count: usize,
    /// Gateway compile-time trust-wrap enforce helpers wired (not the live ceremony).
    pub gateway_trust_wrap_helpers_wired: bool,
    /// Wrap queue depth (at least 1 residue).
    pub wrap_queue_depth: usize,
    /// Manifold production flip.
    pub production_wired: bool,
    /// Wired hop count.
    pub wire_hop_wired_count: u8,
}

/// Build the manifold SEC-GW-WRAP gate trust-wrap census from live measurements.
pub fn gate_trust_wrap_census(gate_evidence_wired: bool) -> (r: SecGwWrapManifoldTrustCensus)
    ensures
        r.schema_version == SCHEMA_VERSION,
        r.board_slice_id == BOARD_SLICE_ID,
        r.cell_id == SEC_GW_WRAP_CELL_ID,
        r.gate_evidence_wired == gate_evidence_wired,
        r.admit_surface_count == ADMIT_SURFACE_COUNT,
        r.all_admit_surfaces_probed,
        r.ledger_prep_hop_count == LEDGER_ENFORCE_PREP_HOP_COUNT,
        r.upstream_s2_ceremony_closed == gate_evidence_wired,
        r.upstream_s3_ceremony_closed == gate_evidence_wired,
        r.upstream_s4_ceremony_closed == (gate_evidence_wired && fuzz_corpus_honest()),
        !r.session_ledger_provider_wired,
        !r.trust_wrap_wired,
        r.gw_wrap_green_claim_blocked,
        !r.physics_green,
        !r.master_retick_eligible,
        !r.op5_cleared,
        r.s4_delegate_hop_count == S4_TRUST_WRAP_DELEGATE_HOP_COUNT,
        r.gateway_trust_wrap_helpers_wired,
        r.wrap_queue_depth == WRAP_QUEUE_DEPTH,
        !r.production_wired,
        r.wire_hop_wired_count == 7,
{
    let hops = manifold_sec_gw_wrap_wire_hops();
    let wired = count_wired_hops(&hops);
    proof {
        lemma_wire_hops_wired_count();
    }
    SecGwWrapManifoldTrustCensus {
        schema_version: SCHEMA_VERSION,
        board_slice_id: BOARD_SLICE_ID,
        cell_id: SEC_GW_WRAP_CELL_ID,
        gate_evidence_wired,
        admit_surface_count: ADMIT_SURFACE_COUNT,
        all_admit_surfaces_probed: manifold_gw_wrap_all_admit_surfaces_probed(),
        ledger_prep_hop_count: manifold_gw_wrap_ledger_prep_hops().len(),
        upstream_s2_ceremony_closed: manifold_gate_sec_s2_ceremony_closed(gate_evidence_wired),
        upstream_s3_ceremony_closed: manifold_gate_sec_s3_ceremony_closed(gate_evidence_wired),
        upstream_s4_ceremony_closed: manifold_gate_sec_s4_ceremony_closed(gate_evidence_wired),
        session_ledger_provider_wired: SESSION_LEDGER_PROVIDER_WIRED_HONEST,
        trust_wrap_wired: TRUST_WRAP_WIRED_HONEST,
        gw_wrap_green_claim_blocked: GW_WRAP_GREEN_CLAIM_BLOCKED,
        physics_green: SEC_GW_WRAP_PHYSICS_GREEN,
        master_retick_eligible: SEC_GW_WRAP_MASTER_RETICK_ELIGIBLE,
        op5_cleared: SEC_GW_WRAP_OP5_CLEARED,
        s4_delegate_hop_count: manifold_gw_wrap_s4_delegate_hops().len(),
        gateway_trust_wrap_helpers_wired: manifold_gw_wrap_trust_wrap_helpers_wired(),
        wrap_queue_depth: WRAP_QUEUE_DEPTH,
        production_wired: sec_gw_wrap_production_wired(),
        wire_hop_wired_count: wired as u8,
    }
}

/// Whether the manifold gate SEC-GW-WRAP ceremony is closed at census tier: the seven-surface
/// census and the upstream S2/S3/S4 delegates are measured wired, so it is closed exactly when
/// the cold-edge evidence admits and the S-4 fuzz corpus is honest. The gateway production
/// flip and the session ledger provider are explicit non-blockers.
pub fn manifold_gate_sec_gw_wrap_ceremony_closed(gate_evidence_wired: bool) -> (r: bool)
    ensures
        r == (gate_evidence_wired && fuzz_corpus_honest()),
{
    let census = gate_trust_wrap_census(gate_evidence_wired);
    let fence = SecGwWrapHonestyFence::measured();
    proof {
        lemma_measured_fence_holds(fence);
    }
    census.gate_evidence_wired && str_eq(census.cell_id, SEC_GW_WRAP_CELL_ID)
        && census.admit_surface_count == ADMIT_SURFACE_COUNT && census.all_admit_surfaces_probed
        && census.ledger_prep_hop_count == LEDGER_ENFORCE_PREP_HOP_COUNT
        && census.upstream_s2_ceremony_closed && census.upstream_s3_ceremony_closed
        && census.upstream_s4_ceremony_closed && !census.session_ledger_provider_wired
        && !census.trust_wrap_wired && census.gw_wrap_green_claim_blocked && !census.physics_green
        && !census.master_retick_eligible && !census.op5_cleared
        && census.s4_delegate_hop_count == S4_TRUST_WRAP_DELEGATE_HOP_COUNT
        && census.gateway_trust_wrap_helpers_wired && census.wrap_queue_depth >= WRAP_QUEUE_DEPTH
        && !census.production_wired && census.wire_hop_wired_count == 7 && fence.holds()
        && manifold_gw_wrap_all_admit_surfaces_probed() && manifold_gw_wrap_ledger_prep_complete()
        && manifold_gw_wrap_s4_delegate_complete() && manifold_gw_wrap_trust_wrap_helpers_wired()
        && manifold_verify_upstream_gate_delegates(gate_evidence_wired) && gate_evidence_wired
}

/// Measured honesty probe for the W29-118 deepen — fence holds and census ceremony closed.
#[derive(Debug, Clone, Copy, PartialEq, Eq)]
pub struct SecGwWrapHonestyProbe {
    /// Cell id pin.
    pub cell_id: &'static str,
    /// Posture tag pin.
    pub posture_tag: &'static str,
    /// Production wire invent.
    pub production_wired: bool,
    /// GREEN claim blocked.
    pub green_claim_blocked: bool,
    /// MASTER retick invent.
    pub master_retick_eligible: bool,
    /// OP-5 invent.
    pub op5_cleared: bool,
    /// Physics GREEN invent.
    pub physics_green: bool,
    /// Fence holds.
    pub fence_holds: bool,
    /// Census ceremony closed at census tier (not production).
    pub ceremony_closed: bool,
    /// Aggregate deepen honesty.
    pub deepen_honest: bool,
}

/// Snapshot the honesty fences and ceremony for the SEC-GW-WRAP surface.
pub fn sec_gw_wrap_honesty_probe(gate_evidence_wired: bool) -> (r: SecGwWrapHonestyProbe)
    ensures
        r.cell_id == SEC_GW_WRAP_CELL_ID,
        r.posture_tag == POSTURE_TAG,
        !r.production_wired,
        r.green_claim_blocked,
        !r.master_retick_eligible,
        !r.op5_cleared,
        !r.physics_green,
        r.fence_holds,
        r.ceremony_closed == (gate_evidence_wired && fuzz_corpus_honest()),
        r.deepen_honest == (gate_evidence_wired && fuzz_corpus_honest()),
{
    let fence = SecGwWrapHonestyFence::measured();
    proof {
        lemma_measured_fence_holds(fence);
        reveal_strlit("manifold-gate-census-wired-not-production");
    }
    let fence_holds = fence.holds();
    let ceremony_closed = manifold_gate_sec_gw_wrap_ceremony_closed(gate_evidence_wired);
    let deepen_honest = fence_holds && str_eq(fence.cell_id, SEC_GW_WRAP_CELL_ID) && str_eq(
        fence.deepen_step,
        W29_118_SEC_GW_WRAP_DEEPEN_STEP,
    ) && str_eq(POSTURE_TAG, "manifold-gate-census-wired-not-production") && ceremony_closed
        && !sec_gw_wrap_production_wired();
    SecGwWrapHonestyProbe {
        cell_id: fence.cell_id,
        posture_tag: POSTURE_TAG,
        production_wired: fence.production_wired,
        green_claim_blocked: fence.green_claim_blocked,
        master_retick_eligible: fence.master_retick_eligible,
        op5_cleared: fence.op5_cleared,
        physics_green: fence.physics_green,
        fence_holds,
        ceremony_closed,
        deepen_honest,
    }
}

/// Typed probe for SEC-GW-WRAP manifold gate closure honesty.
#[derive(Debug, Clone, Copy, PartialEq, Eq, Structural)]
pub struct SecGwWrapManifoldProbe {
    /// Gate transition evidence probe.
    pub gate_evidence_wired: bool,
    /// Seven admit surfaces probed.
    pub all_admit_surfaces_probed: bool,
    /// Ledger prep complete.
    pub ledger_prep_complete: bool,
    /// Upstream delegates verified.
    pub upstream_delegates_verified: bool,
    /// GREEN claim blocked.
    pub gw_wrap_green_claim_blocked: bool,
    /// Production flip honest false.
    pub production_honest_false: bool,
    /// MASTER retick refused.
    pub master_retick_refused: bool,
    /// OP-5 refused.
    pub op5_refused: bool,
    /// Physics GREEN refused.
    pub physics_green_refused: bool,
    /// W29-118 honesty fence holds.
    pub honesty_fence_holds: bool,
    /// Manifold wire hop wired count.
    pub wire_hop_wired_count: u8,
    /// Manifold ceremony close predicate.
    pub ceremony_closed: bool,
}

/// The manifold probe measured for a given cold-edge outcome.
pub open spec fn manifold_probe_spec(gate_evidence_wired: bool) -> SecGwWrapManifoldProbe {
    SecGwWrapManifoldProbe {
        gate_evidence_wired,
        all_admit_surfaces_probed: true,
        ledger_prep_complete: true,
        upstream_delegates_verified: gate_evidence_wired && fuzz_corpus_honest(),
        gw_wrap_green_claim_blocked: true,
        production_honest_false: true,
        master_retick_refused: true,
        op5_refused: true,
        physics_green_refused: true,
        honesty_fence_holds: true,
        wire_hop_wired_count: 7,
        ceremony_closed: gate_evidence_wired && fuzz_corpus_honest(),
    }
}

/// Build the introspection probe for SEC-GW-WRAP done-when checks.
pub fn sec_gw_wrap_manifold_probe(gate_evidence_wired: bool) -> (r: SecGwWrapManifoldProbe)
    ensures
        r == manifold_probe_spec(gate_evidence_wired),
{
    let census = gate_trust_wrap_census(gate_evidence_wired);
    let fence = SecGwWrapHonestyFence::measured();
    proof {
        lemma_measured_fence_holds(fence);
    }
    SecGwWrapManifoldProbe {
        gate_evidence_wired: census.gate_evidence_wired,
        all_admit_surfaces_probed: census.all_admit_surfaces_probed,
        ledger_prep_complete: manifold_gw_wrap_ledger_prep_complete(),
        upstream_delegates_verified: manifold_verify_upstream_gate_delegates(gate_evidence_wired),
        gw_wrap_green_claim_blocked: census.gw_wrap_green_claim_blocked,
        production_honest_false: !census.production_wired,
        master_retick_refused: !census.master_retick_eligible,
        op5_refused: !census.op5_cleared,
        physics_green_refused: !census.physics_green,
        honesty_fence_holds: fence.holds(),
        wire_hop_wired_count: census.wire_hop_wired_count,
        ceremony_closed: manifold_gate_sec_gw_wrap_ceremony_closed(gate_evidence_wired),
    }
}

/// FLEET-COMPOSER ACCEL-B AC32 integration probe.
#[derive(Debug, Clone, Copy, PartialEq, Eq)]
pub struct SecGwWrapAccel2Ac32Probe {
    /// AC32 fleet card id.
    pub ac32_job_id: &'static str,
    /// Prior P1800 H1 gateway wrap absorbed.
    pub prior_h1_absorbed: bool,
    /// Prior Z33 respawn absorbed.
    pub prior_z33_absorbed: bool,
    /// Prior Y24 S4 delegate absorbed.
    pub prior_y24_absorbed: bool,
    /// Prior H54 S4 delegate absorbed.
    pub prior_h54_absorbed: bool,
    /// Manifold ceremony close predicate.
    pub ceremony_closed: bool,
    /// Underlying gate probe.
    pub probe: SecGwWrapManifoldProbe,
    /// Production flip — honest false.
    pub production_wired: bool,
    /// Admit surface census count.
    pub admit_surface_count: usize,
    /// Ledger prep hop count.
    pub ledger_prep_hop_count: usize,
    /// S4 trust-wrap delegate hop count.
    pub s4_delegate_hop_count: usize,
    /// Gateway trust-wrap helpers wired (compile-time only).
    pub gateway_trust_wrap_helpers_wired: bool,
}

/// Build the FLEET-COMPOSER ACCEL-B AC32 integration probe from live measurements.
pub fn sec_gw_wrap_accel2_ac32_probe(gate_evidence_wired: bool) -> (r: SecGwWrapAccel2Ac32Probe)
    ensures
        r.ac32_job_id == FLEET_ACCEL2_AC32_JOB_ID,
        r.prior_h1_absorbed,
        r.prior_z33_absorbed,
        r.prior_y24_absorbed,
        r.prior_h54_absorbed,
        r.ceremony_closed == (gate_evidence_wired && fuzz_corpus_honest()),
        r.probe == manifold_probe_spec(gate_evidence_wired),
        !r.production_wired,
        r.admit_surface_count == ADMIT_SURFACE_COUNT,
        r.ledger_prep_hop_count == LEDGER_ENFORCE_PREP_HOP_COUNT,
        r.s4_delegate_hop_count == S4_TRUST_WRAP_DELEGATE_HOP_COUNT,
        r.gateway_trust_wrap_helpers_wired,
{
    let census = gate_trust_wrap_census(gate_evidence_wired);
    proof {
        lemma_ssot_pins();
    }
    SecGwWrapAccel2Ac32Probe {
        ac32_job_id: FLEET_ACCEL2_AC32_JOB_ID,
        prior_h1_absorbed: str_contains(PRIOR_RECEIPT_PATH_P1800_H1, "P1800_H1"),
        prior_z33_absorbed: str_contains(PRIOR_RECEIPT_PATH_Z33, "Z33"),
        prior_y24_absorbed: str_contains(PRIOR_RECEIPT_PATH_Y24, "Y24"),
        prior_h54_absorbed: str_contains(PRIOR_RECEIPT_PATH_H54, "H54"),
        ceremony_closed: manifold_gate_sec_gw_wrap_ceremony_closed(gate_evidence_wired),
        probe: sec_gw_wrap_manifold_probe(gate_evidence_wired),
        production_wired: sec_gw_wrap_production_wired(),
        admit_surface_count: census.admit_surface_count,
        ledger_prep_hop_count: census.ledger_prep_hop_count,
        s4_delegate_hop_count: census.s4_delegate_hop_count,
        gateway_trust_wrap_helpers_wired: census.gateway_trust_wrap_helpers_wired,
    }
}

/// FLEET-COMPOSER ACCEL-B AC32 honesty gate — ceremony closed and production false; honest
/// exactly when the cold-edge evidence admits and the S-4 fuzz corpus is honest.
pub fn sec_gw_wrap_accel2_ac32_honest(gate_evidence_wired: bool) -> (r: bool)
    ensures
        r == (gate_evidence_wired && fuzz_corpus_honest()),
{
    let probe = sec_gw_wrap_accel2_ac32_probe(gate_evidence_wired);
    str_eq(probe.ac32_job_id, FLEET_ACCEL2_AC32_JOB_ID) && probe.prior_h1_absorbed
        && probe.prior_z33_absorbed && probe.prior_y24_absorbed && probe.prior_h54_absorbed
        && probe.ceremony_closed && probe.probe.gate_evidence_wired
        && probe.probe.all_admit_surfaces_probed && probe.probe.ledger_prep_complete
        && probe.probe.upstream_delegates_verified && probe.probe.gw_wrap_green_claim_blocked
        && probe.probe.production_honest_false && probe.probe.master_retick_refused
        && probe.probe.op5_refused && probe.probe.physics_green_refused
        && probe.probe.honesty_fence_holds && probe.probe.wire_hop_wired_count == 7
        && !probe.production_wired && probe.admit_surface_count == ADMIT_SURFACE_COUNT
        && probe.ledger_prep_hop_count == LEDGER_ENFORCE_PREP_HOP_COUNT
        && probe.s4_delegate_hop_count == S4_TRUST_WRAP_DELEGATE_HOP_COUNT
        && probe.gateway_trust_wrap_helpers_wired && manifold_gw_wrap_s4_delegate_complete()
        && manifold_gw_wrap_trust_wrap_helpers_wired()
        && sec_gw_wrap_honesty_probe(gate_evidence_wired).deepen_honest
}

/// Validate SEC-GW-WRAP gate census honesty, failing closed on fake persistence or
/// production claims: it refuses with the evidence error when the cold-edge evidence does not
/// admit, with the upstream S-4 error when the S-4 fuzz corpus is not honest, and passes
/// otherwise.
pub fn validate_sec_gw_wrap_honesty(gate_evidence_wired: bool) -> (r: Result<(), &'static str>)
    ensures
        !gate_evidence_wired ==> r == Err::<(), &'static str>("gate transition evidence probe failed"),
        gate_evidence_wired && !fuzz_corpus_honest() ==> r == Err::<(), &'static str>("upstream SEC-S4 ceremony must be closed"),
        gate_evidence_wired && fuzz_corpus_honest() ==> r == Ok::<(), &'static str>(()),
{
    let census = gate_trust_wrap_census(gate_evidence_wired);
    let fence = SecGwWrapHonestyFence::measured();
    let honesty = sec_gw_wrap_honesty_probe(gate_evidence_wired);
    proof {
        lemma_measured_fence_holds(fence);
    }
    if !str_eq(census.cell_id, SEC_GW_WRAP_CELL_ID) {
        return Err("sec_gw_wrap cell_id drift");
    }
    if !str_eq(fence.deepen_step, W29_118_SEC_GW_WRAP_DEEPEN_STEP) {
        return Err("sec_gw_wrap deepen_step drift");
    }
    if !fence.holds() {
        return Err("sec_gw_wrap honesty fence must hold (no invent GREEN/PRODUCTION/MASTER/OP-5)");
    }
    if census.production_wired {
        return Err("sec_gw_wrap_production_wired must stay false until operator measure");
    }
    if census.trust_wrap_wired {
        return Err("trust_wrap_wired delegate must stay false until SEC-S3 ceremony");
    }
    if census.session_ledger_provider_wired {
        return Err("session_ledger_provider_wired must stay false until SEC-S3 sled");
    }
    if !census.gw_wrap_green_claim_blocked {
        return Err("gw_wrap_green_claim_blocked must stay true in scaffold deepen");
    }
    if census.physics_green {
        return Err("sec_gw_wrap must not invent physics GREEN");
    }
    if census.master_retick_eligible {
        return Err("sec_gw_wrap must not claim MASTER retick");
    }
    if census.op5_cleared {
        return Err("sec_gw_wrap must not claim OP-5 cleared");
    }
    if !census.gate_evidence_wired {
        return Err("gate transition evidence probe failed");
    }
    if census.admit_surface_count != ADMIT_SURFACE_COUNT {
        return Err("seven gateway admit surfaces expected");
    }
    if !census.all_admit_surfaces_probed {
        return Err("all seven admit surfaces must be probed");
    }
    if census.ledger_prep_hop_count != LEDGER_ENFORCE_PREP_HOP_COUNT {
        return Err("seven ledger-enforce prep hops expected");
    }
    if census.s4_delegate_hop_count != S4_TRUST_WRAP_DELEGATE_HOP_COUNT {
        return Err("four S4 trust-wrap delegate hops expected");
    }
    if !census.gateway_trust_wrap_helpers_wired {
        return Err("gateway trust-wrap helpers must be wired at compile-time census tier");
    }
    if census.wrap_queue_depth < WRAP_QUEUE_DEPTH {
        return Err("wrap queue depth must be at least one");
    }
    if !manifold_gw_wrap_s4_delegate_complete() {
        return Err("H54 S4 trust-wrap delegate hops must be complete at census tier");
    }
    if !census.upstream_s2_ceremony_closed {
        return Err("upstream SEC-S2 ceremony must be closed");
    }
    if !census.upstream_s3_ceremony_closed {
        return Err("upstream SEC-S3 ceremony must be closed");
    }
    if !census.upstream_s4_ceremony_closed {
        return Err("upstream SEC-S4 ceremony must be closed");
    }
    if manifold_sec_gw_wrap_wire_hops().len() != 10 {
        return Err("ten SEC-GW-WRAP gate wire hops expected");
    }
    if census.wire_hop_wired_count != 7 {
        return Err("seven SEC-GW-WRAP gate wire hops should be wired today");
    }
    if !manifold_gate_sec_gw_wrap_ceremony_closed(gate_evidence_wired) {
        return Err("manifold gate SEC-GW-WRAP ceremony must be closed at census tier");
    }
    if !honesty.deepen_honest {
        return Err("sec_gw_wrap deepen_honest failed");
    }
    if !sec_gw_wrap_accel2_ac32_honest(gate_evidence_wired) {
        return Err("ACCEL-B AC32 probe must be honest");
    }
    Ok(())
}

/// One rendered line of the SEC-GW-WRAP gate wire map.
pub open spec fn hop_row_text() -> spec_fn(SecGwWrapManifoldWireHop) -> Seq<char> {
    |hop: SecGwWrapManifoldWireHop| "  "@ + decimal(hop.ordinal as nat) + " wired="@ + bool_text(hop.wired) + " "@ + hop.surface@ + " ["@ + hop.role@ + "]\n"@
}

/// A closing line of the SEC-GW-WRAP gate wire map.
pub open spec fn wire_matrix_counts() -> Seq<char> {
    "  wired="@ + decimal(7 as nat) + "/"@ + decimal(10 as nat) + " admit_surfaces="@ + decimal(7 as nat) + " ledger_prep="@ + decimal(7 as nat) + " s4_delegate="@ + decimal(4 as nat) + " gw_wrap_green_claim_blocked="@ + bool_text(true) + " trust_wrap_helpers_wired="@ + bool_text(true) + " wrap_queue_depth="@ + decimal(1 as nat)
}

/// A closing line of the SEC-GW-WRAP gate wire map.
pub open spec fn wire_matrix_flags() -> Seq<char> {
    " trust_wrap_wired="@ + bool_text(false) + " session_ledger_provider_wired="@ + bool_text(false) + " production_wired="@ + bool_text(false) + " physics_green="@ + bool_text(false) + " master_retick="@ + bool_text(false) + " op5_cleared="@ + bool_text(false) + " cell_id="@ + SEC_GW_WRAP_CELL_ID@ + "\n"@
}

/// A closing line of the SEC-GW-WRAP gate wire map.
pub open spec fn wire_matrix_ssots() -> Seq<char> {
    "  gateway_ssot="@ + GATEWAY_SSOT@ + "\n  trust_admit_ssot="@ + TRUST_ADMIT_SSOT@ + "\n"@
}

/// The SEC-GW-WRAP gate wire map, as rendered for operator receipts.
pub open spec fn wire_matrix_spec() -> Seq<char> {
    "SEC-GW-WRAP manifold gate trust-wrap wire map (AC32):\n"@ + wire_hops_spec().map_values(hop_row_text()).flatten() + wire_matrix_counts() + wire_matrix_flags() + wire_matrix_ssots()
}

/// Render the SEC-GW-WRAP gate wire map for operator receipts.
#[verifier::rlimit(60)]
pub fn sec_gw_wrap_wire_matrix() -> (r: String)
    ensures
        r@ == wire_matrix_spec(),
{
    let hops_len = manifold_sec_gw_wrap_wire_hops().len();
    let prep_len = manifold_gw_wrap_ledger_prep_hops().len();
    let s4_len = manifold_gw_wrap_s4_delegate_hops().len();
    let wired = count_wired_hops(&manifold_sec_gw_wrap_wire_hops());
    proof {
        lemma_wire_hops_wired_count();
    }
    let items = manifold_sec_gw_wrap_wire_hops();
    let mut out = String::new();
    push_str(&mut out, "SEC-GW-WRAP manifold gate trust-wrap wire map (AC32):\n");
    let ghost header = out@;
    let mut i: usize = 0;
    while i < items.len()
        invariant
            i <= items.len(),
            items@ == wire_hops_spec(),
            out@ == header + items@.take(i as int).map_values(hop_row_text()).flatten(),
        decreases items.len() - i,
    {
        proof {
            lemma_flatten_step(items@, hop_row_text(), i as int);
        }
        let hop = items[i];
        push_str(&mut out, "  ");
        push_decimal(&mut out, hop.ordinal as u64);
        push_str(&mut out, " wired=");
        push_bool(&mut out, hop.wired);
        push_str(&mut out, " ");
        push_str(&mut out, hop.surface);
        push_str(&mut out, " [");
        push_str(&mut out, hop.role);
        push_str(&mut out, "]\n");
        assert(out@ == header + items@.take(i + 1).map_values(hop_row_text()).flatten());
        i = i + 1;
    }
    proof {
        lemma_take_all(items@);
    }
    push_str(&mut out, "  wired=");
    push_decimal(&mut out, wired as u64);
    push_str(&mut out, "/");
    push_decimal(&mut out, hops_len as u64);
    push_str(&mut out, " admit_surfaces=");
    push_decimal(&mut out, ADMIT_SURFACE_COUNT as u64);
    push_str(&mut out, " ledger_prep=");
    push_decimal(&mut out, prep_len as u64);
    push_str(&mut out, " s4_delegate=");
    push_decimal(&mut out, s4_len as u64);
    push_str(&mut out, " gw_wrap_green_claim_blocked=");
    push_bool(&mut out, GW_WRAP_GREEN_CLAIM_BLOCKED);
    push_str(&mut out, " trust_wrap_helpers_wired=");
    push_bool(&mut out, manifold_gw_wrap_trust_wrap_helpers_wired());
    push_str(&mut out, " wrap_queue_depth=");
    push_decimal(&mut out, WRAP_QUEUE_DEPTH as u64);
    push_str(&mut out, " trust_wrap_wired=");
    push_bool(&mut out, TRUST_WRAP_WIRED_HONEST);
    push_str(&mut out, " session_ledger_provider_wired=");
    push_bool(&mut out, SESSION_LEDGER_PROVIDER_WIRED_HONEST);
    push_str(&mut out, " production_wired=");
    push_bool(&mut out, sec_gw_wrap_production_wired());
    push_str(&mut out, " physics_green=");
    push_bool(&mut out, SEC_GW_WRAP_PHYSICS_GREEN);
    push_str(&mut out, " master_retick=");
    push_bool(&mut out, SEC_GW_WRAP_MASTER_RETICK_ELIGIBLE);
    push_str(&mut out, " op5_cleared=");
    push_bool(&mut out, SEC_GW_WRAP_OP5_CLEARED);
    push_str(&mut out, " cell_id=");
    push_str(&mut out, SEC_GW_WRAP_CELL_ID);
    push_str(&mut out, "\n");
    push_str(&mut out, "  gateway_ssot=");
    push_str(&mut out, GATEWAY_SSOT);
    push_str(&mut out, "\n  trust_admit_ssot=");
    push_str(&mut out, TRUST_ADMIT_SSOT);
    push_str(&mut out, "\n");
    assert(out@ =~= wire_matrix_spec());
    out
}

/// Next-hop surface for the gateway trust-wrap production ceremony (gateway-owned).
pub fn sec_gw_wrap_trust_wrap_next_hop() -> (r: &'static str)
    ensures
        r@ == "umst-gateway/crates/umst-gateway/src/sec_gw_trust_wrap.rs:trust_wrap_wired"@,
{
    "umst-gateway/crates/umst-gateway/src/sec_gw_trust_wrap.rs:trust_wrap_wired"
}

} // verus!
