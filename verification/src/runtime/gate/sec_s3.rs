//! SEC-S3 — manifold gate runtime trust palette / session ledger wire map.
//!
//! The manifold gate runtime owns the cold-edge census bridging transition evidence to the
//! SEC-S3 palette/ledger and revoke-posture SSOT; sled persistence, the gateway trust wrap and
//! the session ledger stay honestly open.
//!
//! The W29-122 deepen pins open-residual fences for hops 6 and 7 (sled session ledger and
//! gateway trust wrap) at census tier. No invented GREEN, PRODUCTION_WIRED, MASTER or OP-5.
//! Every census takes the measured outcome of the cold-edge evidence probe
//! (`gate_evidence_wired`).
use vstd::prelude::*;
use crate::text::{
    seq_contains, matches_at, str_eq, str_contains, string_contains, decimal, bool_text,
    push_str, push_bool, push_decimal, count_where, lemma_count_step, lemma_flatten_step,
    lemma_take_all, lemma_contains_entry, lemma_contains_extend,
};
use crate::runtime::gate::evidence::{TransitionEvidence, witness_admits, cold_edge_witness_admits};

verus! {

/// Board slice id.
pub const BOARD_SLICE_ID: &'static str = "SEC-S3";

/// W29 continuous worklist cell id.
pub const W29_CELL_ID: &'static str = "W29-122-SEC_S3";

/// AGAP slot id (2033 palette/ledger deepen).
pub const JOB_ID: &'static str = "AGAP-2033-SEC-S3";

/// FLEET-COMPOSER Prabhu Wave C slot C5 id.
pub const FLEET_P1606_C5_JOB_ID: &'static str = "PRABHU-WAVE-C-1606-C5";

/// FLEET-COMPOSER Prabhu Wave C C5 receipt path.
pub const FLEET_P1606_C5_RECEIPT_PATH: &'static str = "outputs/.tmp/COMPOSER_P1606_C5.md";

/// FLEET-COMPOSER ACCEL-25 slot AC05 id (revoke posture deepen).
pub const ACCEL_2030_AC05_JOB_ID: &'static str = "ACCEL-2030-AC05";

/// FLEET-COMPOSER ACCEL-25 AC05 receipt path.
pub const ACCEL_AC05_RECEIPT_PATH: &'static str = "outputs/.tmp/COMPOSER_ACCEL_2030_AC05.md";

/// FLEET-COMPOSER-F F74 SEC-S3 revoke posture forensic receipt.
pub const FLEET_COMPOSER_F74_RECEIPT_PATH: &'static str = "outputs/.tmp/COMPOSER_F74_SEC_S3_1942.md";

/// FLEET-COMPOSER-G G74 SEC-S3 revoke ledger deepen receipt.
pub const FLEET_COMPOSER_G74_RECEIPT_PATH: &'static str = "outputs/.tmp/COMPOSER_G74_SEC_S3_2143.md";

/// egoff integration test SSOT for S-3 revoke lifecycle witnesses.
pub const EGOFF_S3_INTEGRATION_SSOT: &'static str = "egoff/egoff/tests/s2_s3_security_deepen.rs";

/// Prior AGAP-2033 SEC-S3 palette/ledger receipt.
pub const PRIOR_RECEIPT_PATH_2033: &'static str =
    "old/residuals/residuals/misc-outputs-tmp/COMPLETION_AGAP_AGENT_SEC-S3_2033.md";

/// Prior AGAP-2127 SEC-S3 revoke posture receipt.
pub const PRIOR_RECEIPT_PATH_2127: &'static str =
    "old/residuals/residuals/misc-outputs-tmp/COMPLETION_AGAP_AGENT_SEC-S3_2127.md";

/// umst-trust SEC-S3 revoke posture delegate SSOT.
pub const TRUST_SSOT: &'static str = "umst-foundations/crates/umst-trust/src/sec_s3_revoke_posture.rs";

/// umst-trust SEC-S3 sled persistence census delegate SSOT.
pub const TRUST_SLED_SSOT: &'static str = "umst-foundations/crates/umst-trust/src/sled.rs";

/// egoff session ledger SSOT (in-memory deepen; sled lands S-3 GREEN).
pub const EGOFF_LEDGER_SSOT: &'static str = "egoff/egoff/src/security/ledger.rs";

/// egoff palette forensic gate SSOT.
pub const EGOFF_PALETTE_SSOT: &'static str = "egoff/egoff/src/security/palette.rs";

/// Gateway trust-wrap delegate SSOT (serial next-hop).
pub const GATEWAY_SSOT: &'static str = "umst-gateway/crates/umst-gateway/src/sec_gw_trust_wrap.rs";

/// Honest adoption tier.
pub const POSTURE_TAG: &'static str = "manifold-gate-census-wired-not-production";

/// Census schema version.
pub const SCHEMA_VERSION: &'static str = "sec_s3_gate_palette_ledger_census_v3";

/// Open residual hop count on the manifold wire map (hops 6 and 7 honest-open).
pub const OPEN_RESIDUAL_HOP_COUNT: usize = 2;

/// MASTER / OP-5 retick — honest false at census deepen.
pub const MASTER_RETICK_ELIGIBLE: bool = false;

/// S-3 revoke posture facet row count (F74/G74 forensic census).
pub const S3_REVOKE_POSTURE_FACET_COUNT: usize = 8;

/// S-3 revoke posture facets wired today (F74 measured 5/8).
pub const S3_REVOKE_POSTURE_WIRED_COUNT: usize = 5;

/// S-3 revoke ledger lifecycle hop count (G74 deepen).
pub const S3_REVOKE_LEDGER_HOP_COUNT: usize = 8;

/// S-3 revoke ledger lifecycle hops wired today (G74 measured 6/8).
pub const S3_REVOKE_LEDGER_WIRED_COUNT: usize = 6;

/// S-Arc GREEN claim blocked — honest true in scaffold deepen.
pub const S3_GREEN_CLAIM_BLOCKED: bool = true;

/// Sled persistence claimed — honest false until sled I/O lands.
pub const SLED_PERSISTENCE_CLAIMED_HONEST: bool = false;

/// Palette envelope `persisted` field — honest false until sled I/O lands.
pub const PALETTE_PERSISTED_HONEST: bool = false;

/// One hop in the manifold SEC-S3 gate runtime wire map.
#[derive(Debug, Clone, Copy, PartialEq, Eq)]
pub struct SecS3GateWireHop {
    /// Ordinal (1-based).
    pub ordinal: u8,
    /// Module or symbol surface.
    pub surface: &'static str,
    /// Role in the admit chain.
    pub role: &'static str,
    /// Whether this hop is wired today.
    pub wired: bool,
}

/// Manifold SEC-S3 gate runtime wire map (cold-edge evidence to trust palette/ledger census).
pub open spec fn wire_hops_spec() -> Seq<SecS3GateWireHop> {
    seq![
        SecS3GateWireHop { ordinal: 1, surface: "umst-manifold::runtime::gate::evidence::AdmissibilityToken", role: "Gate admit witness token on cold edge", wired: true },
        SecS3GateWireHop { ordinal: 2, surface: "umst-manifold::runtime::gate::cartridge::GateCartridge::transition_evidence", role: "CdTransitionCartridge structured witness", wired: true },
        SecS3GateWireHop { ordinal: 3, surface: "umst-manifold::runtime::gate::sec_s3::gate_palette_ledger_census", role: "Manifold gate SEC-S3 palette/ledger census", wired: true },
        SecS3GateWireHop { ordinal: 4, surface: "umst-trust::sec_s3_revoke_posture::s3_revoke_posture_report", role: "Trust revoke posture delegate (G74)", wired: true },
        SecS3GateWireHop { ordinal: 5, surface: "egoff::security::palette + egoff::security::ledger", role: "Palette/ledger in-memory deepen (persisted=false)", wired: true },
        SecS3GateWireHop { ordinal: 6, surface: "umst-trust::sec_ecosystem_extract::session_ledger_wired", role: "Sled session ledger persistence", wired: false },
        SecS3GateWireHop { ordinal: 7, surface: "umst-gateway::sec_gw_trust_wrap::trust_wrap_wired", role: "Gateway production ceremony (serial Wave D)", wired: false },
    ]
}

/// Manifold SEC-S3 gate runtime wire map (cold-edge evidence to trust palette/ledger census).
pub fn manifold_sec_s3_gate_wire_hops() -> (r: Vec<SecS3GateWireHop>)
    ensures
        r@ == wire_hops_spec(),
{
    let r = vec![
        SecS3GateWireHop { ordinal: 1, surface: "umst-manifold::runtime::gate::evidence::AdmissibilityToken", role: "Gate admit witness token on cold edge", wired: true },
        SecS3GateWireHop { ordinal: 2, surface: "umst-manifold::runtime::gate::cartridge::GateCartridge::transition_evidence", role: "CdTransitionCartridge structured witness", wired: true },
        SecS3GateWireHop { ordinal: 3, surface: "umst-manifold::runtime::gate::sec_s3::gate_palette_ledger_census", role: "Manifold gate SEC-S3 palette/ledger census", wired: true },
        SecS3GateWireHop { ordinal: 4, surface: "umst-trust::sec_s3_revoke_posture::s3_revoke_posture_report", role: "Trust revoke posture delegate (G74)", wired: true },
        SecS3GateWireHop { ordinal: 5, surface: "egoff::security::palette + egoff::security::ledger", role: "Palette/ledger in-memory deepen (persisted=false)", wired: true },
        SecS3GateWireHop { ordinal: 6, surface: "umst-trust::sec_ecosystem_extract::session_ledger_wired", role: "Sled session ledger persistence", wired: false },
        SecS3GateWireHop { ordinal: 7, surface: "umst-gateway::sec_gw_trust_wrap::trust_wrap_wired", role: "Gateway production ceremony (serial Wave D)", wired: false },
    ];
    assert(r@ =~= wire_hops_spec());
    r
}

/// One honest-open residual fence pin (sled / gateway — not wired today).
#[derive(Debug, Clone, Copy, PartialEq, Eq)]
pub struct SecS3OpenResidualFence {
    /// Residual id (`R-sled-session-ledger` / `R-gateway-trust-wrap`).
    pub residue_id: &'static str,
    /// Wire hop ordinal on the manifold map.
    pub hop_ordinal: u8,
    /// Delegate SSOT path.
    pub delegate_ssot: &'static str,
    /// Whether the hop remains honest-open (`wired=false`).
    pub honest_open: bool,
    /// Whether GREEN credit is blocked for this residual.
    pub green_credit_blocked: bool,
}

/// Open residual fence pins — hops 6 and 7 measured open at the W29-122 deepen.
pub open spec fn open_residual_fences_spec() -> Seq<SecS3OpenResidualFence> {
    seq![
        SecS3OpenResidualFence { residue_id: "R-sled-session-ledger", hop_ordinal: 6, delegate_ssot: TRUST_SLED_SSOT, honest_open: true, green_credit_blocked: true },
        SecS3OpenResidualFence { residue_id: "R-gateway-trust-wrap", hop_ordinal: 7, delegate_ssot: GATEWAY_SSOT, honest_open: true, green_credit_blocked: true },
    ]
}

/// Open residual fence pins — hops 6 and 7 measured open at the W29-122 deepen.
pub fn open_residual_fences() -> (r: Vec<SecS3OpenResidualFence>)
    ensures
        r@ == open_residual_fences_spec(),
{
    let r = vec![
        SecS3OpenResidualFence { residue_id: "R-sled-session-ledger", hop_ordinal: 6, delegate_ssot: TRUST_SLED_SSOT, honest_open: true, green_credit_blocked: true },
        SecS3OpenResidualFence { residue_id: "R-gateway-trust-wrap", hop_ordinal: 7, delegate_ssot: GATEWAY_SSOT, honest_open: true, green_credit_blocked: true },
    ];
    assert(r@ =~= open_residual_fences_spec());
    r
}

/// One row of the S-3 revoke posture forensic matrix (pinned from the revoke posture SSOT).
#[derive(Debug, Clone, Copy, PartialEq, Eq)]
pub struct ManifoldS3RevokePostureFacet {
    /// Facet under census.
    pub facet: &'static str,
    /// Whether this facet is wired today.
    pub wired: bool,
    /// Owning slice when residue.
    pub owning_slice: &'static str,
}

/// S-3 revoke posture facet inventory (pinned from the revoke posture SSOT).
pub open spec fn revoke_posture_facets_spec() -> Seq<ManifoldS3RevokePostureFacet> {
    seq![
        ManifoldS3RevokePostureFacet { facet: "trust_adt_revoke", wired: true, owning_slice: "SEC-TRUST-EXTRACT" },
        ManifoldS3RevokePostureFacet { facet: "gate_attestation_revoked_refuse", wired: true, owning_slice: "SEC-TRUST-GATE" },
        ManifoldS3RevokePostureFacet { facet: "egoff_posture_trust", wired: true, owning_slice: "SEC-S3" },
        ManifoldS3RevokePostureFacet { facet: "egoff_revoke_outcome_envelope", wired: true, owning_slice: "SEC-S3" },
        ManifoldS3RevokePostureFacet { facet: "egoff_forensic_acknowledge_revoked", wired: true, owning_slice: "SEC-S3" },
        ManifoldS3RevokePostureFacet { facet: "sled_session_ledger_persistence", wired: false, owning_slice: "SEC-S3" },
        ManifoldS3RevokePostureFacet { facet: "gateway_session_ledger_provider", wired: false, owning_slice: "SEC-GW-WRAP" },
        ManifoldS3RevokePostureFacet { facet: "ecosystem_consumer_wired_flip", wired: false, owning_slice: "SEC-GW-WRAP" },
    ]
}

/// S-3 revoke posture facet inventory (pinned from the revoke posture SSOT).
pub fn manifold_s3_revoke_posture_facets() -> (r: Vec<ManifoldS3RevokePostureFacet>)
    ensures
        r@ == revoke_posture_facets_spec(),
{
    let r = vec![
        ManifoldS3RevokePostureFacet { facet: "trust_adt_revoke", wired: true, owning_slice: "SEC-TRUST-EXTRACT" },
        ManifoldS3RevokePostureFacet { facet: "gate_attestation_revoked_refuse", wired: true, owning_slice: "SEC-TRUST-GATE" },
        ManifoldS3RevokePostureFacet { facet: "egoff_posture_trust", wired: true, owning_slice: "SEC-S3" },
        ManifoldS3RevokePostureFacet { facet: "egoff_revoke_outcome_envelope", wired: true, owning_slice: "SEC-S3" },
        ManifoldS3RevokePostureFacet { facet: "egoff_forensic_acknowledge_revoked", wired: true, owning_slice: "SEC-S3" },
        ManifoldS3RevokePostureFacet { facet: "sled_session_ledger_persistence", wired: false, owning_slice: "SEC-S3" },
        ManifoldS3RevokePostureFacet { facet: "gateway_session_ledger_provider", wired: false, owning_slice: "SEC-GW-WRAP" },
        ManifoldS3RevokePostureFacet { facet: "ecosystem_consumer_wired_flip", wired: false, owning_slice: "SEC-GW-WRAP" },
    ];
    assert(r@ =~= revoke_posture_facets_spec());
    r
}

/// One hop in the S-3 revoke ledger lifecycle wire map (G74 deepen).
#[derive(Debug, Clone, Copy, PartialEq, Eq)]
pub struct ManifoldS3RevokeLedgerHop {
    /// Ordinal (1-based) in the lifecycle map.
    pub ordinal: u8,
    /// Lifecycle stage label.
    pub stage: &'static str,
    /// SSOT surface (egoff ledger or umst-trust gate).
    pub surface: &'static str,
    /// Whether this hop is wired today.
    pub wired: bool,
}

/// S-3 revoke ledger lifecycle wire map — grant through forensic read (G74).
pub open spec fn revoke_ledger_hops_spec() -> Seq<ManifoldS3RevokeLedgerHop> {
    seq![
        ManifoldS3RevokeLedgerHop { ordinal: 1, stage: "grant_append", surface: "egoff::security::ledger::TrustLedger::grant", wired: true },
        ManifoldS3RevokeLedgerHop { ordinal: 2, stage: "revoke_absorbing", surface: "egoff::security::ledger::TrustLedger::revoke → RevokeOutcome", wired: true },
        ManifoldS3RevokeLedgerHop { ordinal: 3, stage: "posture_trust_revoked", surface: "egoff::security::ledger::TrustLedger::posture_trust", wired: true },
        ManifoldS3RevokeLedgerHop { ordinal: 4, stage: "gate_admit_refuse", surface: "umst-trust::permission::require_trust_gate → AttestationRevoked", wired: true },
        ManifoldS3RevokeLedgerHop { ordinal: 5, stage: "compose_absorbing", surface: "umst-algebra::crypto::trust::Trust::compose → RevokedAbsorbing", wired: true },
        ManifoldS3RevokeLedgerHop { ordinal: 6, stage: "forensic_acknowledge_revoked", surface: "egoff::security::palette::acknowledge-revoked (EGOFF_TRUST_ALLOW_REVOKED_READ)", wired: true },
        ManifoldS3RevokeLedgerHop { ordinal: 7, stage: "sled_persistence", surface: "egoff::trust::ledger (sled I/O)", wired: false },
        ManifoldS3RevokeLedgerHop { ordinal: 8, stage: "sled_audit_trail", surface: "acknowledge-revoked audit_logged", wired: false },
    ]
}

/// S-3 revoke ledger lifecycle wire map — grant through forensic read (G74).
pub fn manifold_s3_revoke_ledger_hops() -> (r: Vec<ManifoldS3RevokeLedgerHop>)
    ensures
        r@ == revoke_ledger_hops_spec(),
{
    let r = vec![
        ManifoldS3RevokeLedgerHop { ordinal: 1, stage: "grant_append", surface: "egoff::security::ledger::TrustLedger::grant", wired: true },
        ManifoldS3RevokeLedgerHop { ordinal: 2, stage: "revoke_absorbing", surface: "egoff::security::ledger::TrustLedger::revoke → RevokeOutcome", wired: true },
        ManifoldS3RevokeLedgerHop { ordinal: 3, stage: "posture_trust_revoked", surface: "egoff::security::ledger::TrustLedger::posture_trust", wired: true },
        ManifoldS3RevokeLedgerHop { ordinal: 4, stage: "gate_admit_refuse", surface: "umst-trust::permission::require_trust_gate → AttestationRevoked", wired: true },
        ManifoldS3RevokeLedgerHop { ordinal: 5, stage: "compose_absorbing", surface: "umst-algebra::crypto::trust::Trust::compose → RevokedAbsorbing", wired: true },
        ManifoldS3RevokeLedgerHop { ordinal: 6, stage: "forensic_acknowledge_revoked", surface: "egoff::security::palette::acknowledge-revoked (EGOFF_TRUST_ALLOW_REVOKED_READ)", wired: true },
        ManifoldS3RevokeLedgerHop { ordinal: 7, stage: "sled_persistence", surface: "egoff::trust::ledger (sled I/O)", wired: false },
        ManifoldS3RevokeLedgerHop { ordinal: 8, stage: "sled_audit_trail", surface: "acknowledge-revoked audit_logged", wired: false },
    ];
    assert(r@ =~= revoke_ledger_hops_spec());
    r
}

/// Selects the wired hops of a wire map.
pub open spec fn hop_is_wired() -> spec_fn(SecS3GateWireHop) -> bool {
    |h: SecS3GateWireHop| h.wired
}

/// Selects the unwired hops of a wire map.
pub open spec fn hop_is_open() -> spec_fn(SecS3GateWireHop) -> bool {
    |h: SecS3GateWireHop| !h.wired
}

/// Selects the wired revoke posture facets.
pub open spec fn facet_is_wired() -> spec_fn(ManifoldS3RevokePostureFacet) -> bool {
    |f: ManifoldS3RevokePostureFacet| f.wired
}

/// Selects the wired revoke ledger lifecycle hops.
pub open spec fn ledger_hop_is_wired() -> spec_fn(ManifoldS3RevokeLedgerHop) -> bool {
    |h: ManifoldS3RevokeLedgerHop| h.wired
}

/// Five of the seven gate wire hops are wired today.
pub proof fn lemma_wire_hops_wired_count()
    ensures
        count_where(wire_hops_spec(), hop_is_wired()) == 5,
{
    let s = wire_hops_spec();
    let p = hop_is_wired();
    assert(s.take(0) =~= Seq::<SecS3GateWireHop>::empty());
    lemma_count_step(s, p, 0);
    lemma_count_step(s, p, 1);
    lemma_count_step(s, p, 2);
    lemma_count_step(s, p, 3);
    lemma_count_step(s, p, 4);
    lemma_count_step(s, p, 5);
    lemma_count_step(s, p, 6);
    lemma_take_all(s);
}

/// Two of the seven gate wire hops stay open.
pub proof fn lemma_wire_hops_open_count()
    ensures
        count_where(wire_hops_spec(), hop_is_open()) == 2,
{
    let s = wire_hops_spec();
    let p = hop_is_open();
    assert(s.take(0) =~= Seq::<SecS3GateWireHop>::empty());
    lemma_count_step(s, p, 0);
    lemma_count_step(s, p, 1);
    lemma_count_step(s, p, 2);
    lemma_count_step(s, p, 3);
    lemma_count_step(s, p, 4);
    lemma_count_step(s, p, 5);
    lemma_count_step(s, p, 6);
    lemma_take_all(s);
}

/// Five of the eight revoke posture facets are wired today.
pub proof fn lemma_posture_facets_wired_count()
    ensures
        count_where(revoke_posture_facets_spec(), facet_is_wired()) == 5,
{
    let s = revoke_posture_facets_spec();
    let p = facet_is_wired();
    assert(s.take(0) =~= Seq::<ManifoldS3RevokePostureFacet>::empty());
    lemma_count_step(s, p, 0);
    lemma_count_step(s, p, 1);
    lemma_count_step(s, p, 2);
    lemma_count_step(s, p, 3);
    lemma_count_step(s, p, 4);
    lemma_count_step(s, p, 5);
    lemma_count_step(s, p, 6);
    lemma_count_step(s, p, 7);
    lemma_take_all(s);
}

/// Six of the eight revoke ledger lifecycle hops are wired today.
pub proof fn lemma_ledger_hops_wired_count()
    ensures
        count_where(revoke_ledger_hops_spec(), ledger_hop_is_wired()) == 6,
{
    let s = revoke_ledger_hops_spec();
    let p = ledger_hop_is_wired();
    assert(s.take(0) =~= Seq::<ManifoldS3RevokeLedgerHop>::empty());
    lemma_count_step(s, p, 0);
    lemma_count_step(s, p, 1);
    lemma_count_step(s, p, 2);
    lemma_count_step(s, p, 3);
    lemma_count_step(s, p, 4);
    lemma_count_step(s, p, 5);
    lemma_count_step(s, p, 6);
    lemma_count_step(s, p, 7);
    lemma_take_all(s);
}

/// Count the wired hops of a gate wire map.
pub fn count_wired_hops(items: &Vec<SecS3GateWireHop>) -> (r: usize)
    ensures
        r == count_where(items@, hop_is_wired()),
{
    let mut n: usize = 0;
    let mut i: usize = 0;
    while i < items.len()
        invariant
            i <= items.len(),
            n == count_where(items@.take(i as int), hop_is_wired()),
            n <= i,
        decreases items.len() - i,
    {
        proof {
            lemma_count_step(items@, hop_is_wired(), i as int);
        }
        if items[i].wired {
            n = n + 1;
        }
        i = i + 1;
    }
    proof {
        lemma_take_all(items@);
    }
    n
}

/// Count the open (unwired) hops of a gate wire map.
pub fn count_open_hops(items: &Vec<SecS3GateWireHop>) -> (r: usize)
    ensures
        r == count_where(items@, hop_is_open()),
{
    let mut n: usize = 0;
    let mut i: usize = 0;
    while i < items.len()
        invariant
            i <= items.len(),
            n == count_where(items@.take(i as int), hop_is_open()),
            n <= i,
        decreases items.len() - i,
    {
        proof {
            lemma_count_step(items@, hop_is_open(), i as int);
        }
        if !items[i].wired {
            n = n + 1;
        }
        i = i + 1;
    }
    proof {
        lemma_take_all(items@);
    }
    n
}

/// Count the wired revoke posture facets.
fn count_wired_facets(items: &Vec<ManifoldS3RevokePostureFacet>) -> (r: usize)
    ensures
        r == count_where(items@, facet_is_wired()),
{
    let mut n: usize = 0;
    let mut i: usize = 0;
    while i < items.len()
        invariant
            i <= items.len(),
            n == count_where(items@.take(i as int), facet_is_wired()),
            n <= i,
        decreases items.len() - i,
    {
        proof {
            lemma_count_step(items@, facet_is_wired(), i as int);
        }
        if items[i].wired {
            n = n + 1;
        }
        i = i + 1;
    }
    proof {
        lemma_take_all(items@);
    }
    n
}

/// Count the wired revoke ledger lifecycle hops.
fn count_wired_ledger_hops(items: &Vec<ManifoldS3RevokeLedgerHop>) -> (r: usize)
    ensures
        r == count_where(items@, ledger_hop_is_wired()),
{
    let mut n: usize = 0;
    let mut i: usize = 0;
    while i < items.len()
        invariant
            i <= items.len(),
            n == count_where(items@.take(i as int), ledger_hop_is_wired()),
            n <= i,
        decreases items.len() - i,
    {
        proof {
            lemma_count_step(items@, ledger_hop_is_wired(), i as int);
        }
        if items[i].wired {
            n = n + 1;
        }
        i = i + 1;
    }
    proof {
        lemma_take_all(items@);
    }
    n
}

/// The pinned SSOT and receipt paths carry the markers the census checks for.
pub proof fn lemma_ssot_pins()
    ensures
        seq_contains(PRIOR_RECEIPT_PATH_2033@, "SEC-S3_2033"@),
        seq_contains(PRIOR_RECEIPT_PATH_2127@, "SEC-S3_2127"@),
        seq_contains(FLEET_P1606_C5_RECEIPT_PATH@, "COMPOSER_P1606_C5"@),
        seq_contains(FLEET_COMPOSER_F74_RECEIPT_PATH@, "COMPOSER_F74_SEC_S3_1942"@),
        seq_contains(FLEET_COMPOSER_G74_RECEIPT_PATH@, "COMPOSER_G74_SEC_S3_2143"@),
        seq_contains(TRUST_SSOT@, "sec_s3_revoke_posture"@),
        seq_contains(EGOFF_LEDGER_SSOT@, "security/ledger.rs"@),
        seq_contains(EGOFF_PALETTE_SSOT@, "security/palette.rs"@),
        seq_contains(EGOFF_S3_INTEGRATION_SSOT@, "s2_s3_security_deepen"@),
{
    reveal_strlit("old/residuals/residuals/misc-outputs-tmp/COMPLETION_AGAP_AGENT_SEC-S3_2033.md");
    reveal_strlit("SEC-S3_2033");
    reveal_strlit("old/residuals/residuals/misc-outputs-tmp/COMPLETION_AGAP_AGENT_SEC-S3_2127.md");
    reveal_strlit("SEC-S3_2127");
    reveal_strlit("outputs/.tmp/COMPOSER_P1606_C5.md");
    reveal_strlit("COMPOSER_P1606_C5");
    reveal_strlit("outputs/.tmp/COMPOSER_F74_SEC_S3_1942.md");
    reveal_strlit("COMPOSER_F74_SEC_S3_1942");
    reveal_strlit("outputs/.tmp/COMPOSER_G74_SEC_S3_2143.md");
    reveal_strlit("COMPOSER_G74_SEC_S3_2143");
    reveal_strlit("umst-foundations/crates/umst-trust/src/sec_s3_revoke_posture.rs");
    reveal_strlit("sec_s3_revoke_posture");
    reveal_strlit("egoff/egoff/src/security/ledger.rs");
    reveal_strlit("security/ledger.rs");
    reveal_strlit("egoff/egoff/src/security/palette.rs");
    reveal_strlit("security/palette.rs");
    reveal_strlit("egoff/egoff/tests/s2_s3_security_deepen.rs");
    reveal_strlit("s2_s3_security_deepen");
    assert(PRIOR_RECEIPT_PATH_2033@.subrange(63, 74) =~= "SEC-S3_2033"@);
    assert(matches_at(PRIOR_RECEIPT_PATH_2033@, "SEC-S3_2033"@, 63));
    assert(PRIOR_RECEIPT_PATH_2127@.subrange(63, 74) =~= "SEC-S3_2127"@);
    assert(matches_at(PRIOR_RECEIPT_PATH_2127@, "SEC-S3_2127"@, 63));
    assert(FLEET_P1606_C5_RECEIPT_PATH@.subrange(13, 30) =~= "COMPOSER_P1606_C5"@);
    assert(matches_at(FLEET_P1606_C5_RECEIPT_PATH@, "COMPOSER_P1606_C5"@, 13));
    assert(FLEET_COMPOSER_F74_RECEIPT_PATH@.subrange(13, 37) =~= "COMPOSER_F74_SEC_S3_1942"@);
    assert(matches_at(FLEET_COMPOSER_F74_RECEIPT_PATH@, "COMPOSER_F74_SEC_S3_1942"@, 13));
    assert(FLEET_COMPOSER_G74_RECEIPT_PATH@.subrange(13, 37) =~= "COMPOSER_G74_SEC_S3_2143"@);
    assert(matches_at(FLEET_COMPOSER_G74_RECEIPT_PATH@, "COMPOSER_G74_SEC_S3_2143"@, 13));
    assert(TRUST_SSOT@.subrange(39, 60) =~= "sec_s3_revoke_posture"@);
    assert(matches_at(TRUST_SSOT@, "sec_s3_revoke_posture"@, 39));
    assert(EGOFF_LEDGER_SSOT@.subrange(16, 34) =~= "security/ledger.rs"@);
    assert(matches_at(EGOFF_LEDGER_SSOT@, "security/ledger.rs"@, 16));
    assert(EGOFF_PALETTE_SSOT@.subrange(16, 35) =~= "security/palette.rs"@);
    assert(matches_at(EGOFF_PALETTE_SSOT@, "security/palette.rs"@, 16));
    assert(EGOFF_S3_INTEGRATION_SSOT@.subrange(18, 39) =~= "s2_s3_security_deepen"@);
    assert(matches_at(EGOFF_S3_INTEGRATION_SSOT@, "s2_s3_security_deepen"@, 18));
}

/// Whether some hop of a wire map sits at `ordinal` and is open.
fn open_hop_at(hops: &Vec<SecS3GateWireHop>, ordinal: u8) -> (r: bool)
    ensures
        r == exists|i: int| 0 <= i < hops@.len() && #[trigger] hops@[i].ordinal == ordinal && !hops@[i].wired,
{
    let mut i: usize = 0;
    while i < hops.len()
        invariant
            i <= hops.len(),
            forall|k: int| 0 <= k < i ==> !(#[trigger] hops@[k].ordinal == ordinal && !hops@[k].wired),
        decreases hops.len() - i,
    {
        if hops[i].ordinal == ordinal && !hops[i].wired {
            return true;
        }
        i = i + 1;
    }
    false
}

/// One open residual fence matches its expected residue id and hop, stays open and blocks
/// GREEN credit, and names a delegate.
pub open spec fn fence_pinned(f: SecS3OpenResidualFence, id: &'static str, ordinal: u8) -> bool {
    f.residue_id@ == id@ && f.hop_ordinal == ordinal && f.honest_open && f.green_credit_blocked
        && f.delegate_ssot@.len() > 0
}

/// Check one open residual fence against its expected residue id and hop.
fn check_fence(f: SecS3OpenResidualFence, id: &'static str, ordinal: u8) -> (r: bool)
    ensures
        r == fence_pinned(f, id, ordinal),
{
    str_eq(f.residue_id, id) && f.hop_ordinal == ordinal && f.honest_open && f.green_credit_blocked
        && !f.delegate_ssot.is_empty()
}

/// Whether the open residual fence pins match the unwired hops 6 and 7 on the wire map.
pub fn manifold_s3_open_residual_fences_verified() -> (r: bool)
    ensures
        r,
{
    let fences = open_residual_fences();
    let hops = manifold_sec_s3_gate_wire_hops();
    proof {
        reveal_strlit("umst-foundations/crates/umst-trust/src/sled.rs");
        reveal_strlit("umst-gateway/crates/umst-gateway/src/sec_gw_trust_wrap.rs");
        lemma_wire_hops_open_count();
    }
    if fences.len() != OPEN_RESIDUAL_HOP_COUNT {
        return false;
    }
    let pinned = check_fence(fences[0], "R-sled-session-ledger", 6)
        && check_fence(fences[1], "R-gateway-trust-wrap", 7);
    let open_count = count_open_hops(&hops);
    let first = open_hop_at(&hops, fences[0].hop_ordinal);
    let second = open_hop_at(&hops, fences[1].hop_ordinal);
    assert(hops@[5].ordinal == 6 && !hops@[5].wired);
    assert(hops@[6].ordinal == 7 && !hops@[6].wired);
    pinned && open_count == OPEN_RESIDUAL_HOP_COUNT && first && second
}

/// Whether some revoke posture facet carries `name` with the given wiring.
fn posture_facet_present(items: &Vec<ManifoldS3RevokePostureFacet>, name: &str, wired: bool) -> (r: bool)
    ensures
        r == exists|i: int| 0 <= i < items@.len() && #[trigger] items@[i].facet@ == name@ && items@[i].wired == wired,
{
    let mut i: usize = 0;
    while i < items.len()
        invariant
            i <= items.len(),
            forall|k: int| 0 <= k < i ==> !(#[trigger] items@[k].facet@ == name@ && items@[k].wired == wired),
        decreases items.len() - i,
    {
        if str_eq(items[i].facet, name) && items[i].wired == wired {
            return true;
        }
        i = i + 1;
    }
    false
}

/// Whether some revoke ledger hop carries stage `name` with the given wiring.
fn ledger_stage_present(items: &Vec<ManifoldS3RevokeLedgerHop>, name: &str, wired: bool) -> (r: bool)
    ensures
        r == exists|i: int| 0 <= i < items@.len() && #[trigger] items@[i].stage@ == name@ && items@[i].wired == wired,
{
    let mut i: usize = 0;
    while i < items.len()
        invariant
            i <= items.len(),
            forall|k: int| 0 <= k < i ==> !(#[trigger] items@[k].stage@ == name@ && items@[k].wired == wired),
        decreases items.len() - i,
    {
        if str_eq(items[i].stage, name) && items[i].wired == wired {
            return true;
        }
        i = i + 1;
    }
    false
}

/// Whether all S-3 revoke posture facets are enumerated at the manifold boundary (5/8 wired,
/// the attestation refuse wired, the sled ledger open).
pub fn manifold_s3_revoke_posture_facets_verified() -> (r: bool)
    ensures
        r,
{
    let facets = manifold_s3_revoke_posture_facets();
    proof {
        lemma_posture_facets_wired_count();
    }
    let wired = count_wired_facets(&facets);
    let refuse = posture_facet_present(&facets, "gate_attestation_revoked_refuse", true);
    let sled = posture_facet_present(&facets, "sled_session_ledger_persistence", false);
    assert(facets@[1].facet@ == "gate_attestation_revoked_refuse"@ && facets@[1].wired == true);
    assert(facets@[5].facet@ == "sled_session_ledger_persistence"@ && facets@[5].wired == false);
    facets.len() == S3_REVOKE_POSTURE_FACET_COUNT && wired == S3_REVOKE_POSTURE_WIRED_COUNT && refuse
        && sled
}

/// Whether the S-3 revoke ledger lifecycle hops are pinned at the manifold boundary (6/8 wired,
/// the admit-refuse stage wired, sled persistence open).
pub fn manifold_s3_revoke_ledger_lifecycle_verified() -> (r: bool)
    ensures
        r,
{
    let hops = manifold_s3_revoke_ledger_hops();
    proof {
        lemma_ledger_hops_wired_count();
    }
    let wired = count_wired_ledger_hops(&hops);
    let refuse = ledger_stage_present(&hops, "gate_admit_refuse", true);
    let sled = ledger_stage_present(&hops, "sled_persistence", false);
    assert(hops@[3].stage@ == "gate_admit_refuse"@ && hops@[3].wired == true);
    assert(hops@[6].stage@ == "sled_persistence"@ && hops@[6].wired == false);
    hops.len() == S3_REVOKE_LEDGER_HOP_COUNT && wired == S3_REVOKE_LEDGER_WIRED_COUNT && refuse && sled
}

/// Aggregated SEC-S3 gate palette/ledger census on the manifold boundary.
#[derive(Debug, Clone, Copy, PartialEq, Eq)]
pub struct SecS3GatePaletteLedgerCensus {
    /// Census schema tag.
    pub schema_version: &'static str,
    /// Board slice id.
    pub board_slice_id: &'static str,
    /// W29 cell id pin.
    pub w29_cell_id: &'static str,
    /// Gate transition evidence probe passed.
    pub gate_evidence_wired: bool,
    /// Palette envelope `persisted` honest false.
    pub palette_persisted: bool,
    /// Session ledger persistence — honest false until sled.
    pub session_ledger_wired: bool,
    /// Gateway production flip.
    pub production_wired: bool,
    /// Honest open residual hop count (2).
    pub open_residual_hop_count: usize,
    /// Open residual fence pins verified.
    pub open_residual_fences_verified: bool,
    /// S-3 revoke posture facets verified at the manifold boundary (5/8).
    pub revoke_posture_facets_verified: bool,
    /// S-3 revoke ledger lifecycle verified at the manifold boundary (6/8).
    pub revoke_ledger_lifecycle_verified: bool,
    /// S-Arc GREEN claim blocked — honest true.
    pub s3_green_claim_blocked: bool,
    /// Sled persistence claimed — honest false.
    pub sled_persistence_claimed: bool,
    /// MASTER / OP-5 retick — honest false.
    pub master_retick_eligible: bool,
    /// Wired hop count.
    pub wire_hop_wired_count: u8,
}

/// Exercise gate cold-edge evidence at the manifold SSOT (the identity transition admits).
pub fn gate_transition_evidence_probe(evidence: &TransitionEvidence) -> (r: bool)
    ensures
        r == witness_admits(*evidence),
{
    cold_edge_witness_admits(evidence)
}

/// Whether sled-backed session ledger persistence is wired (honest `false`).
pub fn session_ledger_wired() -> (r: bool)
    ensures
        !r,
{
    false
}

/// Whether the live gateway trust-wrap production flip is plumbed (honest `false`).
pub fn sec_s3_production_wired() -> (r: bool)
    ensures
        !r,
{
    false
}

/// Whether MASTER / OP-5 retick is eligible (honest `false` at census deepen).
pub fn sec_s3_master_retick_eligible() -> (r: bool)
    ensures
        r == MASTER_RETICK_ELIGIBLE,
        !r,
{
    MASTER_RETICK_ELIGIBLE
}

/// Build the manifold SEC-S3 gate palette/ledger census from live measurements.
pub fn gate_palette_ledger_census(gate_evidence_wired: bool) -> (r: SecS3GatePaletteLedgerCensus)
    ensures
        r.schema_version == SCHEMA_VERSION,
        r.board_slice_id == BOARD_SLICE_ID,
        r.w29_cell_id == W29_CELL_ID,
        r.gate_evidence_wired == gate_evidence_wired,
        !r.palette_persisted,
        !r.session_ledger_wired,
        !r.production_wired,
        r.open_residual_hop_count == OPEN_RESIDUAL_HOP_COUNT,
        r.open_residual_fences_verified,
        r.revoke_posture_facets_verified,
        r.revoke_ledger_lifecycle_verified,
        r.s3_green_claim_blocked,
        !r.sled_persistence_claimed,
        !r.master_retick_eligible,
        r.wire_hop_wired_count == 5,
{
    let hops = manifold_sec_s3_gate_wire_hops();
    let wired = count_wired_hops(&hops);
    proof {
        lemma_wire_hops_wired_count();
    }
    SecS3GatePaletteLedgerCensus {
        schema_version: SCHEMA_VERSION,
        board_slice_id: BOARD_SLICE_ID,
        w29_cell_id: W29_CELL_ID,
        gate_evidence_wired,
        palette_persisted: PALETTE_PERSISTED_HONEST,
        session_ledger_wired: session_ledger_wired(),
        production_wired: sec_s3_production_wired(),
        open_residual_hop_count: OPEN_RESIDUAL_HOP_COUNT,
        open_residual_fences_verified: manifold_s3_open_residual_fences_verified(),
        revoke_posture_facets_verified: manifold_s3_revoke_posture_facets_verified(),
        revoke_ledger_lifecycle_verified: manifold_s3_revoke_ledger_lifecycle_verified(),
        s3_green_claim_blocked: S3_GREEN_CLAIM_BLOCKED,
        sled_persistence_claimed: SLED_PERSISTENCE_CLAIMED_HONEST,
        master_retick_eligible: sec_s3_master_retick_eligible(),
        wire_hop_wired_count: wired as u8,
    }
}

/// Whether the manifold gate SEC-S3 ceremony is closed at census tier: wire map hops 1–5 are
/// measured wired and the open residual fences for hops 6 and 7 are pinned honest-open, so it
/// is closed exactly when the cold-edge evidence admits. Session ledger persistence and the
/// gateway production flip are explicit non-blockers.
pub fn manifold_gate_sec_s3_ceremony_closed(gate_evidence_wired: bool) -> (r: bool)
    ensures
        r == gate_evidence_wired,
{
    let census = gate_palette_ledger_census(gate_evidence_wired);
    census.gate_evidence_wired && !census.palette_persisted && !census.session_ledger_wired
        && !census.production_wired && census.open_residual_hop_count == OPEN_RESIDUAL_HOP_COUNT
        && census.open_residual_fences_verified && census.s3_green_claim_blocked
        && !census.master_retick_eligible && census.wire_hop_wired_count == 5 && str_eq(
        census.w29_cell_id,
        W29_CELL_ID,
    ) && gate_evidence_wired
}

/// Typed probe for SEC-S3 manifold gate closure honesty.
#[derive(Debug, Clone, Copy, PartialEq, Eq, Structural)]
pub struct SecS3GateManifoldProbe {
    /// Gate transition evidence probe.
    pub gate_evidence_wired: bool,
    /// Palette envelope persisted honest false.
    pub palette_persisted_honest_false: bool,
    /// Session ledger persistence honest false.
    pub session_ledger_honest_false: bool,
    /// Production flip honest false.
    pub production_honest_false: bool,
    /// Open residual fences verified (hops 6 and 7).
    pub open_residual_fences_verified: bool,
    /// Open residual hop count.
    pub open_residual_hop_count: usize,
    /// Revoke posture facets verified (5/8).
    pub revoke_posture_facets_verified: bool,
    /// Revoke ledger lifecycle verified (6/8).
    pub revoke_ledger_lifecycle_verified: bool,
    /// S-Arc GREEN claim blocked.
    pub s3_green_claim_blocked: bool,
    /// Sled persistence claimed honest false.
    pub sled_persistence_honest_false: bool,
    /// MASTER retick honest false.
    pub master_retick_honest_false: bool,
    /// Manifold wire hop wired count.
    pub wire_hop_wired_count: u8,
    /// Manifold ceremony close predicate.
    pub ceremony_closed: bool,
}

/// The manifold probe measured for a given cold-edge outcome.
pub open spec fn manifold_probe_spec(gate_evidence_wired: bool) -> SecS3GateManifoldProbe {
    SecS3GateManifoldProbe {
        gate_evidence_wired,
        palette_persisted_honest_false: true,
        session_ledger_honest_false: true,
        production_honest_false: true,
        open_residual_fences_verified: true,
        open_residual_hop_count: 2,
        revoke_posture_facets_verified: true,
        revoke_ledger_lifecycle_verified: true,
        s3_green_claim_blocked: true,
        sled_persistence_honest_false: true,
        master_retick_honest_false: true,
        wire_hop_wired_count: 5,
        ceremony_closed: gate_evidence_wired,
    }
}

/// Build the introspection probe for SEC-S3 done-when checks.
pub fn sec_s3_gate_manifold_probe(gate_evidence_wired: bool) -> (r: SecS3GateManifoldProbe)
    ensures
        r == manifold_probe_spec(gate_evidence_wired),
{
    let census = gate_palette_ledger_census(gate_evidence_wired);
    SecS3GateManifoldProbe {
        gate_evidence_wired: census.gate_evidence_wired,
        palette_persisted_honest_false: !census.palette_persisted,
        session_ledger_honest_false: !census.session_ledger_wired,
        production_honest_false: !census.production_wired,
        open_residual_fences_verified: census.open_residual_fences_verified,
        open_residual_hop_count: census.open_residual_hop_count,
        revoke_posture_facets_verified: census.revoke_posture_facets_verified,
        revoke_ledger_lifecycle_verified: census.revoke_ledger_lifecycle_verified,
        s3_green_claim_blocked: census.s3_green_claim_blocked,
        sled_persistence_honest_false: !census.sled_persistence_claimed,
        master_retick_honest_false: !census.master_retick_eligible,
        wire_hop_wired_count: census.wire_hop_wired_count,
        ceremony_closed: manifold_gate_sec_s3_ceremony_closed(gate_evidence_wired),
    }
}

/// FLEET-COMPOSER Prabhu Wave C C5 integration probe.
#[derive(Debug, Clone, Copy, PartialEq, Eq)]
pub struct SecS3P1606C5Probe {
    /// C5 fleet card id.
    pub c5_job_id: &'static str,
    /// Prior 2033 palette deepen absorbed.
    pub prior_2033_absorbed: bool,
    /// Prior 2127 revoke posture absorbed.
    pub prior_2127_absorbed: bool,
    /// Manifold ceremony close predicate.
    pub ceremony_closed: bool,
    /// Underlying gate probe.
    pub probe: SecS3GateManifoldProbe,
    /// Production flip — honest false.
    pub production_wired: bool,
    /// Palette `persisted` — honest false.
    pub palette_persisted: bool,
}

/// Build the FLEET-COMPOSER P1606 C5 integration probe from live measurements.
pub fn sec_s3_p1606_c5_probe(gate_evidence_wired: bool) -> (r: SecS3P1606C5Probe)
    ensures
        r.c5_job_id == FLEET_P1606_C5_JOB_ID,
        r.prior_2033_absorbed,
        r.prior_2127_absorbed,
        r.ceremony_closed == gate_evidence_wired,
        r.probe == manifold_probe_spec(gate_evidence_wired),
        !r.production_wired,
        !r.palette_persisted,
{
    proof {
        lemma_ssot_pins();
    }
    SecS3P1606C5Probe {
        c5_job_id: FLEET_P1606_C5_JOB_ID,
        prior_2033_absorbed: str_contains(PRIOR_RECEIPT_PATH_2033, "SEC-S3_2033"),
        prior_2127_absorbed: str_contains(PRIOR_RECEIPT_PATH_2127, "SEC-S3_2127"),
        ceremony_closed: manifold_gate_sec_s3_ceremony_closed(gate_evidence_wired),
        probe: sec_s3_gate_manifold_probe(gate_evidence_wired),
        production_wired: sec_s3_production_wired(),
        palette_persisted: PALETTE_PERSISTED_HONEST,
    }
}

/// FLEET-COMPOSER P1606 C5 honesty gate — ceremony closed, production and persisted false;
/// honest exactly when the cold-edge evidence admits.
pub fn sec_s3_p1606_c5_honest(gate_evidence_wired: bool) -> (r: bool)
    ensures
        r == gate_evidence_wired,
{
    let probe = sec_s3_p1606_c5_probe(gate_evidence_wired);
    str_eq(probe.c5_job_id, FLEET_P1606_C5_JOB_ID) && probe.prior_2033_absorbed
        && probe.prior_2127_absorbed && probe.ceremony_closed && probe.probe.gate_evidence_wired
        && probe.probe.palette_persisted_honest_false && probe.probe.session_ledger_honest_false
        && probe.probe.production_honest_false && probe.probe.open_residual_fences_verified
        && probe.probe.open_residual_hop_count == OPEN_RESIDUAL_HOP_COUNT
        && probe.probe.master_retick_honest_false && probe.probe.wire_hop_wired_count == 5
        && !probe.production_wired && !probe.palette_persisted
}

/// One rendered line of the S-3 revoke posture facet matrix.
pub open spec fn posture_row_text() -> spec_fn(ManifoldS3RevokePostureFacet) -> Seq<char> {
    |facet: ManifoldS3RevokePostureFacet| "  "@ + facet.facet@ + " wired="@ + bool_text(facet.wired) + " owning_slice="@ + facet.owning_slice@ + "\n"@
}

/// A closing line of the S-3 revoke posture facet matrix.
pub open spec fn posture_matrix_tail() -> Seq<char> {
    "  facets_wired="@ + decimal(5 as nat) + "/"@ + decimal(8 as nat) + " s3_green_claim_blocked="@ + bool_text(S3_GREEN_CLAIM_BLOCKED) + " sled_persistence_claimed="@ + bool_text(SLED_PERSISTENCE_CLAIMED_HONEST) + "\n"@
}

/// The S-3 revoke posture facet matrix, as rendered for operator receipts.
pub open spec fn posture_matrix_spec() -> Seq<char> {
    "SEC-S3 revoke posture facets (F74/G74 @ manifold):\n"@ + revoke_posture_facets_spec().map_values(posture_row_text()).flatten() + posture_matrix_tail()
}

/// Render the S-3 revoke posture facet matrix for operator receipts.
pub fn sec_s3_revoke_posture_matrix() -> (r: String)
    ensures
        r@ == posture_matrix_spec(),
{
    let facets = manifold_s3_revoke_posture_facets();
    let facets_len = facets.len();
    let wired = count_wired_facets(&facets);
    proof {
        lemma_posture_facets_wired_count();
    }
    let items = manifold_s3_revoke_posture_facets();
    let mut out = String::new();
    push_str(&mut out, "SEC-S3 revoke posture facets (F74/G74 @ manifold):\n");
    let ghost header = out@;
    let mut i: usize = 0;
    while i < items.len()
        invariant
            i <= items.len(),
            items@ == revoke_posture_facets_spec(),
            out@ == header + items@.take(i as int).map_values(posture_row_text()).flatten(),
        decreases items.len() - i,
    {
        proof {
            lemma_flatten_step(items@, posture_row_text(), i as int);
        }
        let facet = items[i];
        push_str(&mut out, "  ");
        push_str(&mut out, facet.facet);
        push_str(&mut out, " wired=");
        push_bool(&mut out, facet.wired);
        push_str(&mut out, " owning_slice=");
        push_str(&mut out, facet.owning_slice);
        push_str(&mut out, "\n");
        assert(out@ == header + items@.take(i + 1).map_values(posture_row_text()).flatten());
        i = i + 1;
    }
    proof {
        lemma_take_all(items@);
    }
    push_str(&mut out, "  facets_wired=");
    push_decimal(&mut out, wired as u64);
    push_str(&mut out, "/");
    push_decimal(&mut out, facets_len as u64);
    push_str(&mut out, " s3_green_claim_blocked=");
    push_bool(&mut out, S3_GREEN_CLAIM_BLOCKED);
    push_str(&mut out, " sled_persistence_claimed=");
    push_bool(&mut out, SLED_PERSISTENCE_CLAIMED_HONEST);
    push_str(&mut out, "\n");
    assert(out@ =~= posture_matrix_spec());
    out
}

/// The rendered revoke posture matrix pins 5/8 wired, the attestation refuse and the blocked GREEN claim.
pub proof fn lemma_posture_matrix_markers()
    ensures
        seq_contains(posture_matrix_spec(), "facets_wired=5/8"@),
        seq_contains(posture_matrix_spec(), "gate_attestation_revoked_refuse"@),
        seq_contains(posture_matrix_spec(), "s3_green_claim_blocked=true"@),
{
    reveal_strlit("\n");
    reveal_strlit("  ");
    reveal_strlit("  facets_wired=");
    reveal_strlit(" owning_slice=");
    reveal_strlit(" s3_green_claim_blocked=");
    reveal_strlit(" sled_persistence_claimed=");
    reveal_strlit(" wired=");
    reveal_strlit("/");
    reveal_strlit("SEC-GW-WRAP");
    reveal_strlit("SEC-S3");
    reveal_strlit("SEC-TRUST-EXTRACT");
    reveal_strlit("SEC-TRUST-GATE");
    reveal_strlit("ecosystem_consumer_wired_flip");
    reveal_strlit("egoff_forensic_acknowledge_revoked");
    reveal_strlit("egoff_posture_trust");
    reveal_strlit("egoff_revoke_outcome_envelope");
    reveal_strlit("facets_wired=5/8");
    reveal_strlit("gate_attestation_revoked_refuse");
    reveal_strlit("gateway_session_ledger_provider");
    reveal_strlit("s3_green_claim_blocked=true");
    reveal_strlit("sled_session_ledger_persistence");
    reveal_strlit("trust_adt_revoke");
    assert(decimal(5) =~= seq!['5']);
    assert(decimal(8) =~= seq!['8']);
    assert(posture_matrix_tail().subrange(2, 18) =~= "facets_wired=5/8"@);
    assert(matches_at(posture_matrix_tail(), "facets_wired=5/8"@, 2));
    assert(posture_matrix_spec() =~= ("SEC-S3 revoke posture facets (F74/G74 @ manifold):\n"@ + revoke_posture_facets_spec().map_values(posture_row_text()).flatten()) + posture_matrix_tail() + (Seq::<char>::empty()));
    lemma_contains_extend("SEC-S3 revoke posture facets (F74/G74 @ manifold):\n"@ + revoke_posture_facets_spec().map_values(posture_row_text()).flatten(), posture_matrix_tail(), Seq::<char>::empty(), "facets_wired=5/8"@);
    assert(revoke_posture_facets_spec().map_values(posture_row_text())[1].subrange(2, 33) =~= "gate_attestation_revoked_refuse"@);
    assert(matches_at(revoke_posture_facets_spec().map_values(posture_row_text())[1], "gate_attestation_revoked_refuse"@, 2));
    lemma_contains_entry(revoke_posture_facets_spec().map_values(posture_row_text()), 1, "gate_attestation_revoked_refuse"@);
    assert(posture_matrix_spec() =~= "SEC-S3 revoke posture facets (F74/G74 @ manifold):\n"@ + revoke_posture_facets_spec().map_values(posture_row_text()).flatten() + (posture_matrix_tail()));
    lemma_contains_extend("SEC-S3 revoke posture facets (F74/G74 @ manifold):\n"@, revoke_posture_facets_spec().map_values(posture_row_text()).flatten(), posture_matrix_tail(), "gate_attestation_revoked_refuse"@);
    assert(posture_matrix_tail().subrange(19, 46) =~= "s3_green_claim_blocked=true"@);
    assert(matches_at(posture_matrix_tail(), "s3_green_claim_blocked=true"@, 19));
    assert(posture_matrix_spec() =~= ("SEC-S3 revoke posture facets (F74/G74 @ manifold):\n"@ + revoke_posture_facets_spec().map_values(posture_row_text()).flatten()) + posture_matrix_tail() + (Seq::<char>::empty()));
    lemma_contains_extend("SEC-S3 revoke posture facets (F74/G74 @ manifold):\n"@ + revoke_posture_facets_spec().map_values(posture_row_text()).flatten(), posture_matrix_tail(), Seq::<char>::empty(), "s3_green_claim_blocked=true"@);
}

/// One rendered line of the S-3 revoke ledger lifecycle matrix.
pub open spec fn lifecycle_row_text() -> spec_fn(ManifoldS3RevokeLedgerHop) -> Seq<char> {
    |hop: ManifoldS3RevokeLedgerHop| "  "@ + decimal(hop.ordinal as nat) + " "@ + hop.stage@ + " wired="@ + bool_text(hop.wired) + " "@ + hop.surface@ + "\n"@
}

/// A closing line of the S-3 revoke ledger lifecycle matrix.
pub open spec fn lifecycle_matrix_tail() -> Seq<char> {
    "  lifecycle_wired="@ + decimal(6 as nat) + "/"@ + decimal(8 as nat) + " session_ledger_wired="@ + bool_text(false) + " production_wired="@ + bool_text(false) + "\n"@
}

/// The S-3 revoke ledger lifecycle matrix, as rendered for operator receipts.
pub open spec fn lifecycle_matrix_spec() -> Seq<char> {
    "SEC-S3 revoke ledger lifecycle (G74 @ manifold):\n"@ + revoke_ledger_hops_spec().map_values(lifecycle_row_text()).flatten() + lifecycle_matrix_tail()
}

/// Render the S-3 revoke ledger lifecycle matrix for operator receipts.
pub fn sec_s3_revoke_ledger_lifecycle_matrix() -> (r: String)
    ensures
        r@ == lifecycle_matrix_spec(),
{
    let hops = manifold_s3_revoke_ledger_hops();
    let hops_len = hops.len();
    let wired = count_wired_ledger_hops(&hops);
    proof {
        lemma_ledger_hops_wired_count();
    }
    let items = manifold_s3_revoke_ledger_hops();
    let mut out = String::new();
    push_str(&mut out, "SEC-S3 revoke ledger lifecycle (G74 @ manifold):\n");
    let ghost header = out@;
    let mut i: usize = 0;
    while i < items.len()
        invariant
            i <= items.len(),
            items@ == revoke_ledger_hops_spec(),
            out@ == header + items@.take(i as int).map_values(lifecycle_row_text()).flatten(),
        decreases items.len() - i,
    {
        proof {
            lemma_flatten_step(items@, lifecycle_row_text(), i as int);
        }
        let hop = items[i];
        push_str(&mut out, "  ");
        push_decimal(&mut out, hop.ordinal as u64);
        push_str(&mut out, " ");
        push_str(&mut out, hop.stage);
        push_str(&mut out, " wired=");
        push_bool(&mut out, hop.wired);
        push_str(&mut out, " ");
        push_str(&mut out, hop.surface);
        push_str(&mut out, "\n");
        assert(out@ == header + items@.take(i + 1).map_values(lifecycle_row_text()).flatten());
        i = i + 1;
    }
    proof {
        lemma_take_all(items@);
    }
    push_str(&mut out, "  lifecycle_wired=");
    push_decimal(&mut out, wired as u64);
    push_str(&mut out, "/");
    push_decimal(&mut out, hops_len as u64);
    push_str(&mut out, " session_ledger_wired=");
    push_bool(&mut out, session_ledger_wired());
    push_str(&mut out, " production_wired=");
    push_bool(&mut out, sec_s3_production_wired());
    push_str(&mut out, "\n");
    assert(out@ =~= lifecycle_matrix_spec());
    out
}

/// The rendered lifecycle matrix pins 6/8 wired, the admit-refuse stage, sled persistence and the open session ledger.
pub proof fn lemma_lifecycle_matrix_markers()
    ensures
        seq_contains(lifecycle_matrix_spec(), "lifecycle_wired=6/8"@),
        seq_contains(lifecycle_matrix_spec(), "gate_admit_refuse"@),
        seq_contains(lifecycle_matrix_spec(), "sled_persistence"@),
        seq_contains(lifecycle_matrix_spec(), "session_ledger_wired=false"@),
{
    reveal_strlit("\n");
    reveal_strlit(" ");
    reveal_strlit("  ");
    reveal_strlit("  lifecycle_wired=");
    reveal_strlit(" production_wired=");
    reveal_strlit(" session_ledger_wired=");
    reveal_strlit(" wired=");
    reveal_strlit("/");
    reveal_strlit("acknowledge-revoked audit_logged");
    reveal_strlit("compose_absorbing");
    reveal_strlit("egoff::security::ledger::TrustLedger::grant");
    reveal_strlit("egoff::security::ledger::TrustLedger::posture_trust");
    reveal_strlit("egoff::security::ledger::TrustLedger::revoke → RevokeOutcome");
    reveal_strlit("egoff::security::palette::acknowledge-revoked (EGOFF_TRUST_ALLOW_REVOKED_READ)");
    reveal_strlit("egoff::trust::ledger (sled I/O)");
    reveal_strlit("forensic_acknowledge_revoked");
    reveal_strlit("gate_admit_refuse");
    reveal_strlit("grant_append");
    reveal_strlit("lifecycle_wired=6/8");
    reveal_strlit("posture_trust_revoked");
    reveal_strlit("revoke_absorbing");
    reveal_strlit("session_ledger_wired=false");
    reveal_strlit("sled_audit_trail");
    reveal_strlit("sled_persistence");
    reveal_strlit("umst-algebra::crypto::trust::Trust::compose → RevokedAbsorbing");
    reveal_strlit("umst-trust::permission::require_trust_gate → AttestationRevoked");
    assert(decimal(1) =~= seq!['1']);
    assert(decimal(2) =~= seq!['2']);
    assert(decimal(3) =~= seq!['3']);
    assert(decimal(4) =~= seq!['4']);
    assert(decimal(5) =~= seq!['5']);
    assert(decimal(6) =~= seq!['6']);
    assert(decimal(7) =~= seq!['7']);
    assert(decimal(8) =~= seq!['8']);
    assert(lifecycle_matrix_tail().subrange(2, 21) =~= "lifecycle_wired=6/8"@);
    assert(matches_at(lifecycle_matrix_tail(), "lifecycle_wired=6/8"@, 2));
    assert(lifecycle_matrix_spec() =~= ("SEC-S3 revoke ledger lifecycle (G74 @ manifold):\n"@ + revoke_ledger_hops_spec().map_values(lifecycle_row_text()).flatten()) + lifecycle_matrix_tail() + (Seq::<char>::empty()));
    lemma_contains_extend("SEC-S3 revoke ledger lifecycle (G74 @ manifold):\n"@ + revoke_ledger_hops_spec().map_values(lifecycle_row_text()).flatten(), lifecycle_matrix_tail(), Seq::<char>::empty(), "lifecycle_wired=6/8"@);
    assert(revoke_ledger_hops_spec().map_values(lifecycle_row_text())[3].subrange(4, 21) =~= "gate_admit_refuse"@);
    assert(matches_at(revoke_ledger_hops_spec().map_values(lifecycle_row_text())[3], "gate_admit_refuse"@, 4));
    lemma_contains_entry(revoke_ledger_hops_spec().map_values(lifecycle_row_text()), 3, "gate_admit_refuse"@);
    assert(lifecycle_matrix_spec() =~= "SEC-S3 revoke ledger lifecycle (G74 @ manifold):\n"@ + revoke_ledger_hops_spec().map_values(lifecycle_row_text()).flatten() + (lifecycle_matrix_tail()));
    lemma_contains_extend("SEC-S3 revoke ledger lifecycle (G74 @ manifold):\n"@, revoke_ledger_hops_spec().map_values(lifecycle_row_text()).flatten(), lifecycle_matrix_tail(), "gate_admit_refuse"@);
    assert(revoke_ledger_hops_spec().map_values(lifecycle_row_text())[6].subrange(4, 20) =~= "sled_persistence"@);
    assert(matches_at(revoke_ledger_hops_spec().map_values(lifecycle_row_text())[6], "sled_persistence"@, 4));
    lemma_contains_entry(revoke_ledger_hops_spec().map_values(lifecycle_row_text()), 6, "sled_persistence"@);
    assert(lifecycle_matrix_spec() =~= "SEC-S3 revoke ledger lifecycle (G74 @ manifold):\n"@ + revoke_ledger_hops_spec().map_values(lifecycle_row_text()).flatten() + (lifecycle_matrix_tail()));
    lemma_contains_extend("SEC-S3 revoke ledger lifecycle (G74 @ manifold):\n"@, revoke_ledger_hops_spec().map_values(lifecycle_row_text()).flatten(), lifecycle_matrix_tail(), "sled_persistence"@);
    assert(lifecycle_matrix_tail().subrange(22, 48) =~= "session_ledger_wired=false"@);
    assert(matches_at(lifecycle_matrix_tail(), "session_ledger_wired=false"@, 22));
    assert(lifecycle_matrix_spec() =~= ("SEC-S3 revoke ledger lifecycle (G74 @ manifold):\n"@ + revoke_ledger_hops_spec().map_values(lifecycle_row_text()).flatten()) + lifecycle_matrix_tail() + (Seq::<char>::empty()));
    lemma_contains_extend("SEC-S3 revoke ledger lifecycle (G74 @ manifold):\n"@ + revoke_ledger_hops_spec().map_values(lifecycle_row_text()).flatten(), lifecycle_matrix_tail(), Seq::<char>::empty(), "session_ledger_wired=false"@);
}

/// FLEET-COMPOSER ACCEL-25 AC05 revoke posture deepen probe.
#[derive(Debug, Clone, Copy, PartialEq, Eq)]
pub struct SecS3AccelAc05Probe {
    /// AC05 fleet slot id.
    pub ac05_job_id: &'static str,
    /// Prior C5 palette/ledger ceremony absorbed.
    pub prior_c5_absorbed: bool,
    /// Prior F74 forensic census absorbed.
    pub prior_f74_absorbed: bool,
    /// Prior G74 revoke ledger deepen absorbed.
    pub prior_g74_absorbed: bool,
    /// Prior 2127 egoff revoke posture absorbed.
    pub prior_2127_absorbed: bool,
    /// Revoke posture facet matrix verified.
    pub revoke_posture_matrix_verified: bool,
    /// Revoke ledger lifecycle matrix verified.
    pub revoke_ledger_lifecycle_verified: bool,
    /// Manifold ceremony close predicate.
    pub ceremony_closed: bool,
    /// Underlying gate probe.
    pub probe: SecS3GateManifoldProbe,
    /// Production flip — honest false.
    pub production_wired: bool,
}

/// Build the FLEET-COMPOSER ACCEL-25 AC05 integration probe from live measurements.
pub fn sec_s3_accel_ac05_probe(gate_evidence_wired: bool) -> (r: SecS3AccelAc05Probe)
    ensures
        r.ac05_job_id == ACCEL_2030_AC05_JOB_ID,
        r.prior_c5_absorbed,
        r.prior_f74_absorbed,
        r.prior_g74_absorbed,
        r.prior_2127_absorbed,
        r.revoke_posture_matrix_verified,
        r.revoke_ledger_lifecycle_verified,
        r.ceremony_closed == gate_evidence_wired,
        r.probe == manifold_probe_spec(gate_evidence_wired),
        !r.production_wired,
{
    let posture = sec_s3_revoke_posture_matrix();
    let lifecycle = sec_s3_revoke_ledger_lifecycle_matrix();
    proof {
        lemma_ssot_pins();
        lemma_posture_matrix_markers();
        lemma_lifecycle_matrix_markers();
    }
    SecS3AccelAc05Probe {
        ac05_job_id: ACCEL_2030_AC05_JOB_ID,
        prior_c5_absorbed: str_contains(FLEET_P1606_C5_RECEIPT_PATH, "COMPOSER_P1606_C5"),
        prior_f74_absorbed: str_contains(FLEET_COMPOSER_F74_RECEIPT_PATH, "COMPOSER_F74_SEC_S3_1942"),
        prior_g74_absorbed: str_contains(FLEET_COMPOSER_G74_RECEIPT_PATH, "COMPOSER_G74_SEC_S3_2143"),
        prior_2127_absorbed: str_contains(PRIOR_RECEIPT_PATH_2127, "SEC-S3_2127"),
        revoke_posture_matrix_verified: string_contains(&posture, "facets_wired=5/8")
            && string_contains(&posture, "gate_attestation_revoked_refuse")
            && string_contains(&posture, "s3_green_claim_blocked=true"),
        revoke_ledger_lifecycle_verified: string_contains(&lifecycle, "lifecycle_wired=6/8")
            && string_contains(&lifecycle, "gate_admit_refuse")
            && string_contains(&lifecycle, "session_ledger_wired=false"),
        ceremony_closed: manifold_gate_sec_s3_ceremony_closed(gate_evidence_wired),
        probe: sec_s3_gate_manifold_probe(gate_evidence_wired),
        production_wired: sec_s3_production_wired(),
    }
}

/// FLEET-COMPOSER ACCEL-25 AC05 honesty gate — revoke posture deepen and ceremony closed;
/// honest exactly when the cold-edge evidence admits.
pub fn sec_s3_accel_ac05_honest(gate_evidence_wired: bool) -> (r: bool)
    ensures
        r == gate_evidence_wired,
{
    let probe = sec_s3_accel_ac05_probe(gate_evidence_wired);
    str_eq(probe.ac05_job_id, ACCEL_2030_AC05_JOB_ID) && probe.prior_c5_absorbed
        && probe.prior_f74_absorbed && probe.prior_g74_absorbed && probe.prior_2127_absorbed
        && probe.revoke_posture_matrix_verified && probe.revoke_ledger_lifecycle_verified
        && probe.ceremony_closed && probe.probe.gate_evidence_wired
        && probe.probe.revoke_posture_facets_verified && probe.probe.revoke_ledger_lifecycle_verified
        && probe.probe.s3_green_claim_blocked && probe.probe.sled_persistence_honest_false
        && probe.probe.palette_persisted_honest_false && probe.probe.session_ledger_honest_false
        && probe.probe.production_honest_false && probe.probe.open_residual_fences_verified
        && probe.probe.open_residual_hop_count == OPEN_RESIDUAL_HOP_COUNT
        && probe.probe.master_retick_honest_false && probe.probe.wire_hop_wired_count == 5
        && !probe.production_wired
}

/// Validate SEC-S3 gate census honesty, failing closed on fake persistence or production
/// claims: it passes exactly when the cold-edge evidence admits, and otherwise refuses with
/// the evidence error.
pub fn validate_sec_s3_gate_honesty(gate_evidence_wired: bool) -> (r: Result<(), &'static str>)
    ensures
        gate_evidence_wired ==> r == Ok::<(), &'static str>(()),
        !gate_evidence_wired ==> r == Err::<(), &'static str>("gate transition evidence probe failed"),
{
    let census = gate_palette_ledger_census(gate_evidence_wired);
    if !str_eq(census.w29_cell_id, W29_CELL_ID) {
        return Err("w29_cell_id must pin W29-122-SEC_S3");
    }
    if census.session_ledger_wired {
        return Err("session_ledger_wired must stay false until sled");
    }
    if census.production_wired {
        return Err("sec_s3_production_wired must stay false until SEC-GW-WRAP");
    }
    if census.palette_persisted {
        return Err("palette_persisted must stay false until sled I/O lands");
    }
    if !census.s3_green_claim_blocked {
        return Err("s3_green_claim_blocked must stay true in scaffold deepen");
    }
    if census.sled_persistence_claimed {
        return Err("sled persistence must not be claimed in scaffold");
    }
    if census.master_retick_eligible {
        return Err("master_retick_eligible must stay false — no invent MASTER/OP-5");
    }
    if census.open_residual_hop_count != OPEN_RESIDUAL_HOP_COUNT {
        return Err("two SEC-S3 open residual hops expected");
    }
    if !census.open_residual_fences_verified {
        return Err("open residual fences for hops 6–7 must verify at manifold boundary");
    }
    if !census.revoke_posture_facets_verified {
        return Err("S-3 revoke posture facets must verify at manifold boundary");
    }
    if !census.revoke_ledger_lifecycle_verified {
        return Err("S-3 revoke ledger lifecycle must verify at manifold boundary");
    }
    if !census.gate_evidence_wired {
        return Err("gate transition evidence probe failed");
    }
    if manifold_sec_s3_gate_wire_hops().len() != 7 {
        return Err("seven SEC-S3 gate wire hops expected");
    }
    if census.wire_hop_wired_count != 5 {
        return Err("five SEC-S3 gate wire hops should be wired today");
    }
    if !manifold_gate_sec_s3_ceremony_closed(gate_evidence_wired) {
        return Err("manifold gate SEC-S3 ceremony must be closed at census tier");
    }
    if !sec_s3_p1606_c5_honest(gate_evidence_wired) {
        return Err("P1606 C5 probe must be honest");
    }
    if !sec_s3_accel_ac05_honest(gate_evidence_wired) {
        return Err("ACCEL AC05 revoke posture deepen probe must be honest");
    }
    if !sec_s3_w29_deepen_honest(gate_evidence_wired) {
        return Err("W29-122 open residual fence deepen probe must be honest");
    }
    Ok(())
}

/// One rendered line of the SEC-S3 gate wire map.
pub open spec fn hop_row_text() -> spec_fn(SecS3GateWireHop) -> Seq<char> {
    |hop: SecS3GateWireHop| "  "@ + decimal(hop.ordinal as nat) + " wired="@ + bool_text(hop.wired) + " "@ + hop.surface@ + " ["@ + hop.role@ + "]\n"@
}

/// A closing line of the SEC-S3 gate wire map.
pub open spec fn wire_matrix_counts() -> Seq<char> {
    "  wired="@ + decimal(5 as nat) + "/"@ + decimal(7 as nat) + " session_ledger_wired="@ + bool_text(false) + " palette_persisted="@ + bool_text(false) + " production_wired="@ + bool_text(false) + "\n"@
}

/// A closing line of the SEC-S3 gate wire map.
pub open spec fn wire_matrix_ssots() -> Seq<char> {
    "  trust_ssot="@ + TRUST_SSOT@ + "\n  egoff_palette_ssot="@ + EGOFF_PALETTE_SSOT@ + "\n"@
}

/// A closing line of the SEC-S3 gate wire map.
pub open spec fn wire_matrix_flags() -> Seq<char> {
    "  revoke_posture_facets_verified="@ + bool_text(true) + " revoke_ledger_lifecycle_verified="@ + bool_text(true) + " s3_green_claim_blocked="@ + bool_text(true) + " sled_persistence_claimed="@ + bool_text(false) + " open_residual_fences_verified="@ + bool_text(true) + " master_retick_eligible="@ + bool_text(false) + "\n"@
}

/// The SEC-S3 gate wire map, as rendered for operator receipts.
pub open spec fn wire_matrix_spec() -> Seq<char> {
    "SEC-S3 manifold gate palette/ledger wire map (C5/W29-122):\n"@ + wire_hops_spec().map_values(hop_row_text()).flatten() + wire_matrix_counts() + wire_matrix_ssots() + wire_matrix_flags()
}

/// Render the SEC-S3 gate wire map for operator receipts.
pub fn sec_s3_gate_wire_matrix() -> (r: String)
    ensures
        r@ == wire_matrix_spec(),
{
    let hops_len = manifold_sec_s3_gate_wire_hops().len();
    let wired = count_wired_hops(&manifold_sec_s3_gate_wire_hops());
    proof {
        lemma_wire_hops_wired_count();
    }
    let items = manifold_sec_s3_gate_wire_hops();
    let mut out = String::new();
    push_str(&mut out, "SEC-S3 manifold gate palette/ledger wire map (C5/W29-122):\n");
    let ghost header = out@;
    let mut i: usize = 0;
    while i < items.len()
        invariant
            i <= items.len(),
            items@ == wire_hops_spec(),
            out@ == header + items@.take(i as int).map_values(hop_row_text()).flatten(),
        decreases items.len() - i,
    {
        proof {
            lemma_flatten_step(items@, hop_row_text(), i as int);
        }
        let hop = items[i];
        push_str(&mut out, "  ");
        push_decimal(&mut out, hop.ordinal as u64);
        push_str(&mut out, " wired=");
        push_bool(&mut out, hop.wired);
        push_str(&mut out, " ");
        push_str(&mut out, hop.surface);
        push_str(&mut out, " [");
        push_str(&mut out, hop.role);
        push_str(&mut out, "]\n");
        assert(out@ == header + items@.take(i + 1).map_values(hop_row_text()).flatten());
        i = i + 1;
    }
    proof {
        lemma_take_all(items@);
    }
    push_str(&mut out, "  wired=");
    push_decimal(&mut out, wired as u64);
    push_str(&mut out, "/");
    push_decimal(&mut out, hops_len as u64);
    push_str(&mut out, " session_ledger_wired=");
    push_bool(&mut out, session_ledger_wired());
    push_str(&mut out, " palette_persisted=");
    push_bool(&mut out, PALETTE_PERSISTED_HONEST);
    push_str(&mut out, " production_wired=");
    push_bool(&mut out, sec_s3_production_wired());
    push_str(&mut out, "\n");
    push_str(&mut out, "  trust_ssot=");
    push_str(&mut out, TRUST_SSOT);
    push_str(&mut out, "\n  egoff_palette_ssot=");
    push_str(&mut out, EGOFF_PALETTE_SSOT);
    push_str(&mut out, "\n");
    push_str(&mut out, "  revoke_posture_facets_verified=");
    push_bool(&mut out, manifold_s3_revoke_posture_facets_verified());
    push_str(&mut out, " revoke_ledger_lifecycle_verified=");
    push_bool(&mut out, manifold_s3_revoke_ledger_lifecycle_verified());
    push_str(&mut out, " s3_green_claim_blocked=");
    push_bool(&mut out, S3_GREEN_CLAIM_BLOCKED);
    push_str(&mut out, " sled_persistence_claimed=");
    push_bool(&mut out, SLED_PERSISTENCE_CLAIMED_HONEST);
    push_str(&mut out, " open_residual_fences_verified=");
    push_bool(&mut out, manifold_s3_open_residual_fences_verified());
    push_str(&mut out, " master_retick_eligible=");
    push_bool(&mut out, sec_s3_master_retick_eligible());
    push_str(&mut out, "\n");
    assert(out@ =~= wire_matrix_spec());
    out
}

/// One rendered line of the SEC-S3 open residual fence table.
pub open spec fn residual_row_text() -> spec_fn(SecS3OpenResidualFence) -> Seq<char> {
    |fence: SecS3OpenResidualFence| "  "@ + fence.residue_id@ + " hop="@ + decimal(fence.hop_ordinal as nat) + " honest_open="@ + bool_text(fence.honest_open) + " green_credit_blocked="@ + bool_text(fence.green_credit_blocked) + " delegate="@ + fence.delegate_ssot@ + "\n"@
}

/// A closing line of the SEC-S3 open residual fence table.
pub open spec fn residual_table_tail() -> Seq<char> {
    "  open_residual_hop_count="@ + decimal(OPEN_RESIDUAL_HOP_COUNT as nat) + " fences_verified="@ + bool_text(true) + " production_wired="@ + bool_text(false) + " master_retick="@ + bool_text(false) + "\n"@
}

/// The SEC-S3 open residual fence table, as rendered for operator receipts.
pub open spec fn residual_table_spec() -> Seq<char> {
    "SEC-S3 open residual fences (W29-122):\n"@ + open_residual_fences_spec().map_values(residual_row_text()).flatten() + residual_table_tail()
}

/// Render the SEC-S3 open residual fence table for operator receipts.
pub fn sec_s3_open_residual_fence_table() -> (r: String)
    ensures
        r@ == residual_table_spec(),
{
    let items = open_residual_fences();
    let mut out = String::new();
    push_str(&mut out, "SEC-S3 open residual fences (W29-122):\n");
    let ghost header = out@;
    let mut i: usize = 0;
    while i < items.len()
        invariant
            i <= items.len(),
            items@ == open_residual_fences_spec(),
            out@ == header + items@.take(i as int).map_values(residual_row_text()).flatten(),
        decreases items.len() - i,
    {
        proof {
            lemma_flatten_step(items@, residual_row_text(), i as int);
        }
        let fence = items[i];
        push_str(&mut out, "  ");
        push_str(&mut out, fence.residue_id);
        push_str(&mut out, " hop=");
        push_decimal(&mut out, fence.hop_ordinal as u64);
        push_str(&mut out, " honest_open=");
        push_bool(&mut out, fence.honest_open);
        push_str(&mut out, " green_credit_blocked=");
        push_bool(&mut out, fence.green_credit_blocked);
        push_str(&mut out, " delegate=");
        push_str(&mut out, fence.delegate_ssot);
        push_str(&mut out, "\n");
        assert(out@ == header + items@.take(i + 1).map_values(residual_row_text()).flatten());
        i = i + 1;
    }
    proof {
        lemma_take_all(items@);
    }
    push_str(&mut out, "  open_residual_hop_count=");
    push_decimal(&mut out, OPEN_RESIDUAL_HOP_COUNT as u64);
    push_str(&mut out, " fences_verified=");
    push_bool(&mut out, manifold_s3_open_residual_fences_verified());
    push_str(&mut out, " production_wired=");
    push_bool(&mut out, sec_s3_production_wired());
    push_str(&mut out, " master_retick=");
    push_bool(&mut out, sec_s3_master_retick_eligible());
    push_str(&mut out, "\n");
    assert(out@ =~= residual_table_spec());
    out
}

/// The rendered residual fence table pins both residue ids and the honest flags.
pub proof fn lemma_residual_table_markers()
    ensures
        seq_contains(residual_table_spec(), "R-sled-session-ledger"@),
        seq_contains(residual_table_spec(), "R-gateway-trust-wrap"@),
        seq_contains(residual_table_spec(), "fences_verified=true"@),
        seq_contains(residual_table_spec(), "production_wired=false"@),
        seq_contains(residual_table_spec(), "master_retick=false"@),
{
    reveal_strlit("\n");
    reveal_strlit("  ");
    reveal_strlit("  open_residual_hop_count=");
    reveal_strlit(" delegate=");
    reveal_strlit(" fences_verified=");
    reveal_strlit(" green_credit_blocked=");
    reveal_strlit(" honest_open=");
    reveal_strlit(" hop=");
    reveal_strlit(" master_retick=");
    reveal_strlit(" production_wired=");
    reveal_strlit("R-gateway-trust-wrap");
    reveal_strlit("R-sled-session-ledger");
    reveal_strlit("fences_verified=true");
    reveal_strlit("master_retick=false");
    reveal_strlit("production_wired=false");
    reveal_strlit("umst-foundations/crates/umst-trust/src/sled.rs");
    reveal_strlit("umst-gateway/crates/umst-gateway/src/sec_gw_trust_wrap.rs");
    assert(decimal(2) =~= seq!['2']);
    assert(decimal(6) =~= seq!['6']);
    assert(decimal(7) =~= seq!['7']);
    assert(open_residual_fences_spec().map_values(residual_row_text())[0].subrange(2, 23) =~= "R-sled-session-ledger"@);
    assert(matches_at(open_residual_fences_spec().map_values(residual_row_text())[0], "R-sled-session-ledger"@, 2));
    lemma_contains_entry(open_residual_fences_spec().map_values(residual_row_text()), 0, "R-sled-session-ledger"@);
    assert(residual_table_spec() =~= "SEC-S3 open residual fences (W29-122):\n"@ + open_residual_fences_spec().map_values(residual_row_text()).flatten() + (residual_table_tail()));
    lemma_contains_extend("SEC-S3 open residual fences (W29-122):\n"@, open_residual_fences_spec().map_values(residual_row_text()).flatten(), residual_table_tail(), "R-sled-session-ledger"@);
    assert(open_residual_fences_spec().map_values(residual_row_text())[1].subrange(2, 22) =~= "R-gateway-trust-wrap"@);
    assert(matches_at(open_residual_fences_spec().map_values(residual_row_text())[1], "R-gateway-trust-wrap"@, 2));
    lemma_contains_entry(open_residual_fences_spec().map_values(residual_row_text()), 1, "R-gateway-trust-wrap"@);
    assert(residual_table_spec() =~= "SEC-S3 open residual fences (W29-122):\n"@ + open_residual_fences_spec().map_values(residual_row_text()).flatten() + (residual_table_tail()));
    lemma_contains_extend("SEC-S3 open residual fences (W29-122):\n"@, open_residual_fences_spec().map_values(residual_row_text()).flatten(), residual_table_tail(), "R-gateway-trust-wrap"@);
    assert(residual_table_tail().subrange(28, 48) =~= "fences_verified=true"@);
    assert(matches_at(residual_table_tail(), "fences_verified=true"@, 28));
    assert(residual_table_spec() =~= ("SEC-S3 open residual fences (W29-122):\n"@ + open_residual_fences_spec().map_values(residual_row_text()).flatten()) + residual_table_tail() + (Seq::<char>::empty()));
    lemma_contains_extend("SEC-S3 open residual fences (W29-122):\n"@ + open_residual_fences_spec().map_values(residual_row_text()).flatten(), residual_table_tail(), Seq::<char>::empty(), "fences_verified=true"@);
    assert(residual_table_tail().subrange(49, 71) =~= "production_wired=false"@);
    assert(matches_at(residual_table_tail(), "production_wired=false"@, 49));
    assert(residual_table_spec() =~= ("SEC-S3 open residual fences (W29-122):\n"@ + open_residual_fences_spec().map_values(residual_row_text()).flatten()) + residual_table_tail() + (Seq::<char>::empty()));
    lemma_contains_extend("SEC-S3 open residual fences (W29-122):\n"@ + open_residual_fences_spec().map_values(residual_row_text()).flatten(), residual_table_tail(), Seq::<char>::empty(), "production_wired=false"@);
    assert(residual_table_tail().subrange(72, 91) =~= "master_retick=false"@);
    assert(matches_at(residual_table_tail(), "master_retick=false"@, 72));
    assert(residual_table_spec() =~= ("SEC-S3 open residual fences (W29-122):\n"@ + open_residual_fences_spec().map_values(residual_row_text()).flatten()) + residual_table_tail() + (Seq::<char>::empty()));
    lemma_contains_extend("SEC-S3 open residual fences (W29-122):\n"@ + open_residual_fences_spec().map_values(residual_row_text()).flatten(), residual_table_tail(), Seq::<char>::empty(), "master_retick=false"@);
}

/// W29-122 deepen probe — open residual fences and no invented GREEN/PRODUCTION/MASTER.
#[derive(Debug, Clone, Copy, PartialEq, Eq)]
pub struct SecS3W29DeepenProbe {
    /// W29 cell id pin.
    pub w29_cell_id: &'static str,
    /// Census schema version.
    pub schema_version: &'static str,
    /// Open residual hop count.
    pub open_residual_hop_count: usize,
    /// Open residual fences verified.
    pub open_residual_fences_verified: bool,
    /// Open residual table residue pins present.
    pub open_residual_table_residue_pinned: bool,
    /// ACCEL AC05 honesty absorbed.
    pub ac05_honest: bool,
    /// Manifold ceremony close predicate.
    pub ceremony_closed: bool,
    /// Production wired — honest false.
    pub production_wired: bool,
    /// MASTER retick — honest false.
    pub master_retick_eligible: bool,
    /// GREEN claim blocked — honest true.
    pub s3_green_claim_blocked: bool,
}

/// Build the W29-122 deepen probe from live measurements.
pub fn sec_s3_w29_deepen_probe(gate_evidence_wired: bool) -> (r: SecS3W29DeepenProbe)
    ensures
        r.w29_cell_id == W29_CELL_ID,
        r.schema_version == SCHEMA_VERSION,
        r.open_residual_hop_count == OPEN_RESIDUAL_HOP_COUNT,
        r.open_residual_fences_verified,
        r.open_residual_table_residue_pinned,
        r.ac05_honest == gate_evidence_wired,
        r.ceremony_closed == gate_evidence_wired,
        !r.production_wired,
        !r.master_retick_eligible,
        r.s3_green_claim_blocked,
{
    let residual_table = sec_s3_open_residual_fence_table();
    proof {
        lemma_residual_table_markers();
    }
    SecS3W29DeepenProbe {
        w29_cell_id: W29_CELL_ID,
        schema_version: SCHEMA_VERSION,
        open_residual_hop_count: OPEN_RESIDUAL_HOP_COUNT,
        open_residual_fences_verified: manifold_s3_open_residual_fences_verified(),
        open_residual_table_residue_pinned: string_contains(&residual_table, "R-sled-session-ledger")
            && string_contains(&residual_table, "R-gateway-trust-wrap"),
        ac05_honest: sec_s3_accel_ac05_honest(gate_evidence_wired),
        ceremony_closed: manifold_gate_sec_s3_ceremony_closed(gate_evidence_wired),
        production_wired: sec_s3_production_wired(),
        master_retick_eligible: sec_s3_master_retick_eligible(),
        s3_green_claim_blocked: S3_GREEN_CLAIM_BLOCKED,
    }
}

/// W29-122 deepen honesty — open residuals pinned, AC05 honest, no invented
/// GREEN/PRODUCTION/MASTER; honest exactly when the cold-edge evidence admits.
pub fn sec_s3_w29_deepen_honest(gate_evidence_wired: bool) -> (r: bool)
    ensures
        r == gate_evidence_wired,
{
    let probe = sec_s3_w29_deepen_probe(gate_evidence_wired);
    str_eq(probe.w29_cell_id, W29_CELL_ID) && str_eq(probe.schema_version, SCHEMA_VERSION)
        && probe.open_residual_hop_count == OPEN_RESIDUAL_HOP_COUNT
        && probe.open_residual_fences_verified && probe.open_residual_table_residue_pinned
        && probe.ac05_honest && probe.ceremony_closed && !probe.production_wired
        && !probe.master_retick_eligible && probe.s3_green_claim_blocked
}

/// Next-hop surface for sled session ledger persistence (egoff-owned).
pub fn sec_s3_session_ledger_next_hop() -> (r: &'static str)
    ensures
        r@ == "egoff/egoff/src/security/ledger.rs:TrustLedger::persist_to_sled"@,
{
    "egoff/egoff/src/security/ledger.rs:TrustLedger::persist_to_sled"
}

/// Next-hop surface for the gateway trust-wrap production ceremony (gateway-owned).
pub fn sec_s3_trust_wrap_next_hop() -> (r: &'static str)
    ensures
        r@ == "umst-gateway/crates/umst-gateway/src/sec_gw_trust_wrap.rs:trust_wrap_wired"@,
{
    "umst-gateway/crates/umst-gateway/src/sec_gw_trust_wrap.rs:trust_wrap_wired"
}

} // verus!
