//! SEC-S7 — manifold gate runtime fed-trust / migration wire map.
//!
//! The manifold gate runtime owns the cold-edge census bridging transition evidence to the
//! SEC-S7 migration and S-fed-trust SSOT; the gateway SEC-S7 boundary production flip and the
//! S-fed-trust production flip stay honestly open.
//!
//! The W29-126 deepen pins open-residual fences for hops 6 and 7 (gateway SEC-S7 boundary
//! production and the S-fed-trust production flip) at census tier. No invented GREEN,
//! PRODUCTION_WIRED, MASTER or OP-5. Every census takes the measured outcome of the cold-edge
//! evidence probe (`gate_evidence_wired`).
use vstd::prelude::*;
use crate::text::{
    seq_contains, matches_at, str_eq, str_contains, string_contains, str_views, chars_of,
    str_list_contains, decimal, bool_text, push_str, push_bool, push_decimal, count_where,
    lemma_count_step, lemma_flatten_step, lemma_take_all, lemma_contains_entry,
    lemma_contains_extend,
};
use crate::runtime::gate::evidence::{TransitionEvidence, witness_admits, cold_edge_witness_admits};

verus! {

/// Board slice id.
pub const BOARD_SLICE_ID: &'static str = "SEC-S7";

/// AGAP slot id (2033 migration inventory deepen).
pub const JOB_ID: &'static str = "AGAP-2033-SEC-S7";

/// W29 continuous worklist cell id.
pub const W29_CELL_ID: &'static str = "W29-126-SEC_S7";

/// FLEET-COMPOSER Prabhu Wave J slot J2 id.
pub const FLEET_P1931_J2_JOB_ID: &'static str = "PRABHU-WAVE-J-1931-J2";

/// FLEET-COMPOSER Prabhu Wave J J2 receipt path.
pub const FLEET_P1931_J2_RECEIPT_PATH: &'static str = "outputs/.tmp/COMPOSER_P1931_J2.md";

/// FLEET-COMPOSER ACCEL-25 slot AC08 id (migrate queue deepen).
pub const ACCEL_2030_AC08_JOB_ID: &'static str = "ACCEL-25-2030-AC08";

/// FLEET-COMPOSER ACCEL-25 AC08 receipt path.
pub const ACCEL_AC08_RECEIPT_PATH: &'static str = "outputs/.tmp/COMPOSER_ACCEL_2030_AC08.md";

/// Prior AGAP-2033 SEC-S7 inventory receipt.
pub const PRIOR_RECEIPT_PATH_2033: &'static str =
    "old/residuals/residuals/misc-outputs-tmp/COMPLETION_AGAP_AGENT_SEC-S7_2033.md";

/// Prior AGAP-2127 SEC-S7-DRAIN deepen receipt.
pub const PRIOR_RECEIPT_PATH_2127: &'static str =
    "old/residuals/residuals/misc-outputs-tmp/COMPLETION_AGAP_AGENT_SEC-S7-DRAIN_2127.md";

/// Prior FLEET-COMPOSER-Y Y80 S-fed-trust drain retick receipt.
pub const PRIOR_RECEIPT_PATH_Y80: &'static str = "outputs/.tmp/COMPOSER_Y80_0808.md";

/// umst-trust SEC-S7 migration delegate SSOT.
pub const TRUST_SSOT: &'static str = "umst-foundations/crates/umst-trust/src/migration.rs";

/// umst-trust S-fed-trust federation census delegate SSOT.
pub const FED_TRUST_SSOT: &'static str =
    "umst-foundations/crates/umst-trust/src/sec_s_arc_federation_census.rs";

/// egoff migration SSOT (cockpit badge projection).
pub const EGOFF_MIGRATION_SSOT: &'static str = "egoff/egoff/src/security/migration.rs";

/// Gateway SEC-S7 boundary delegate SSOT (serial next-hop).
pub const GATEWAY_SSOT: &'static str = "umst-gateway/crates/umst-gateway/src/sec_s7_boundary.rs";

/// Honest adoption tier.
pub const POSTURE_TAG: &'static str = "manifold-gate-census-wired-not-production";

/// Census schema version (v3 = W29 open-residual fence deepen).
pub const SCHEMA_VERSION: &'static str = "sec_s7_gate_fed_trust_migration_census_v3";

/// Honest fence string for meta / fleet probes — no GREEN / PRODUCTION / MASTER / OP-5.
pub const HONEST_FENCE: &'static str =
    "census_wired=true production_wired=false green_claim_blocked=true master_retick=false op5_cleared=false s_fed_trust_production_wired=false";

/// Explicit non-claims for the W29-126 deepen (gate text).
pub const W29_NON_CLAIM: &'static str =
    "not GREEN; not PRODUCTION_WIRED; not MASTER_RETICK; not OP-5 PASS; not S_FED_TRUST_PRODUCTION";

/// Honest open residual hop count (gateway boundary + S-fed-trust production).
pub const OPEN_RESIDUAL_HOP_COUNT: usize = 2;

/// MASTER / OP-5 retick eligibility — honest false (census deepen only).
pub const MASTER_RETICK_ELIGIBLE: bool = false;

/// OP-5 clearance — honest false (not claimed from the SEC-S7 deepen).
pub const OP5_CLEARED: bool = false;

/// AGAP-2033 inventory row count (ecosystem + provider + egoff audit).
pub const INVENTORY_ROW_COUNT: usize = 12;

/// AGAP-2127 / SWARM migrate queue depth (at least 4 gated; measured 5).
pub const MIGRATE_QUEUE_DEPTH: usize = 5;

/// S-Q7 per-stage inventory count: audit (drained post-S-1).
pub const STAGE_COUNT_AUDIT: usize = 0;

/// S-Q7 per-stage inventory count: wrap.
pub const STAGE_COUNT_WRAP: usize = 2;

/// S-Q7 per-stage inventory count: migrate.
pub const STAGE_COUNT_MIGRATE: usize = 5;

/// S-Q7 per-stage inventory count: cloud-bound.
pub const STAGE_COUNT_CLOUD_BOUND: usize = 5;

/// S-7 migration complete — honest false until operator GREEN.
pub const MIGRATION_COMPLETE_HONEST: bool = false;

/// S-7 GREEN claim blocked — honest true in scaffold deepen.
pub const S7_GREEN_CLAIM_BLOCKED: bool = true;

/// S-fed-trust wire-honest PARTIAL deepen (federation transport fence).
pub const S_FED_TRUST_PARTIAL_HONEST: bool = true;

/// S-fed-trust production flip — honest false until measured live.
pub const S_FED_TRUST_PRODUCTION_WIRED_HONEST: bool = false;

/// Measured migration-complete predicate — stays false until the operator S-7 GREEN ceremony.
pub fn migration_complete_measured() -> (r: bool)
    ensures
        r == MIGRATION_COMPLETE_HONEST,
        !r,
{
    MIGRATION_COMPLETE_HONEST
}

/// S-Q7 migrate-queue surface ids (pinned from the trust migration SSOT).
pub open spec fn migrate_queue_surfaces_spec() -> Seq<&'static str> {
    seq![
        "umst-gateway::gate_check_embodied",
        "umst-gateway::web_gossip_route",
        "umst-field::pwa_adapter",
        "umst-gateway::mcp_streamable_http",
        "egoff/umst-math/umst-ffi-bridge",
    ]
}

/// S-Q7 migrate-queue surface ids (pinned from the trust migration SSOT).
pub fn migrate_queue_surfaces() -> (r: Vec<&'static str>)
    ensures
        r@ == migrate_queue_surfaces_spec(),
{
    let r = vec![
        "umst-gateway::gate_check_embodied",
        "umst-gateway::web_gossip_route",
        "umst-field::pwa_adapter",
        "umst-gateway::mcp_streamable_http",
        "egoff/umst-math/umst-ffi-bridge",
    ];
    assert(r@ =~= migrate_queue_surfaces_spec());
    r
}

/// One migrate-queue row pinned at the manifold boundary (residue ledger cross-ref).
#[derive(Debug, Clone, Copy, PartialEq, Eq)]
pub struct ManifoldS7MigrateQueueRow {
    /// Ordinal (1-based).
    pub ordinal: u8,
    /// Stable surface identifier.
    pub surface: &'static str,
    /// Residue ledger id when mirrored in the egoff residue ledger.
    pub residue_id: &'static str,
    /// Closure criterion label from the trust migration SSOT.
    pub migration_label: &'static str,
}

/// S-Q7 migrate-queue rows with residue pins (pinned from the trust migration SSOT).
pub open spec fn migrate_queue_rows_spec() -> Seq<ManifoldS7MigrateQueueRow> {
    seq![
        ManifoldS7MigrateQueueRow { ordinal: 1, surface: "umst-gateway::gate_check_embodied", residue_id: "R-classical-wrap-gateway", migration_label: "queued-PQC-trustgate-production-flip" },
        ManifoldS7MigrateQueueRow { ordinal: 2, surface: "umst-gateway::web_gossip_route", residue_id: "R-classical-wrap-gateway", migration_label: "queued-migrate-gossip-sled-trust-ledger" },
        ManifoldS7MigrateQueueRow { ordinal: 3, surface: "umst-field::pwa_adapter", residue_id: "R-classical-sha256-field-digest", migration_label: "closes-SEC-FIELD-PIN-sha3-stamp" },
        ManifoldS7MigrateQueueRow { ordinal: 4, surface: "umst-gateway::mcp_streamable_http", residue_id: "R-classical-tls-gateway-expose", migration_label: "queued-migrate-hyper-rustls-beyond-loopback" },
        ManifoldS7MigrateQueueRow { ordinal: 5, surface: "egoff/umst-math/umst-ffi-bridge", residue_id: "R-unsafe-rust-audit", migration_label: "queued-migrate-constant-time-typed-post-S-1" },
    ]
}

/// S-Q7 migrate-queue rows with residue pins (pinned from the trust migration SSOT).
pub fn migrate_queue_rows() -> (r: Vec<ManifoldS7MigrateQueueRow>)
    ensures
        r@ == migrate_queue_rows_spec(),
{
    let r = vec![
        ManifoldS7MigrateQueueRow { ordinal: 1, surface: "umst-gateway::gate_check_embodied", residue_id: "R-classical-wrap-gateway", migration_label: "queued-PQC-trustgate-production-flip" },
        ManifoldS7MigrateQueueRow { ordinal: 2, surface: "umst-gateway::web_gossip_route", residue_id: "R-classical-wrap-gateway", migration_label: "queued-migrate-gossip-sled-trust-ledger" },
        ManifoldS7MigrateQueueRow { ordinal: 3, surface: "umst-field::pwa_adapter", residue_id: "R-classical-sha256-field-digest", migration_label: "closes-SEC-FIELD-PIN-sha3-stamp" },
        ManifoldS7MigrateQueueRow { ordinal: 4, surface: "umst-gateway::mcp_streamable_http", residue_id: "R-classical-tls-gateway-expose", migration_label: "queued-migrate-hyper-rustls-beyond-loopback" },
        ManifoldS7MigrateQueueRow { ordinal: 5, surface: "egoff/umst-math/umst-ffi-bridge", residue_id: "R-unsafe-rust-audit", migration_label: "queued-migrate-constant-time-typed-post-S-1" },
    ];
    assert(r@ =~= migrate_queue_rows_spec());
    r
}

/// One honest-open residual fence pin (gateway / S-fed-trust production — not wired today).
#[derive(Debug, Clone, Copy, PartialEq, Eq)]
pub struct SecS7OpenResidualFence {
    /// Residual id (`R-gateway-boundary` / `R-s-fed-trust-production`).
    pub residue_id: &'static str,
    /// Wire hop ordinal on the manifold map.
    pub hop_ordinal: u8,
    /// Delegate SSOT path.
    pub delegate_ssot: &'static str,
    /// Whether the hop remains honest-open (`wired=false`).
    pub honest_open: bool,
    /// Whether GREEN credit is blocked for this residual.
    pub green_credit_blocked: bool,
}

/// Open residual fence pins — hops 6 and 7 measured open at the W29-126 deepen.
pub open spec fn open_residual_fences_spec() -> Seq<SecS7OpenResidualFence> {
    seq![
        SecS7OpenResidualFence { residue_id: "R-gateway-boundary", hop_ordinal: 6, delegate_ssot: GATEWAY_SSOT, honest_open: true, green_credit_blocked: true },
        SecS7OpenResidualFence { residue_id: "R-s-fed-trust-production", hop_ordinal: 7, delegate_ssot: FED_TRUST_SSOT, honest_open: true, green_credit_blocked: true },
    ]
}

/// Open residual fence pins — hops 6 and 7 measured open at the W29-126 deepen.
pub fn open_residual_fences() -> (r: Vec<SecS7OpenResidualFence>)
    ensures
        r@ == open_residual_fences_spec(),
{
    let r = vec![
        SecS7OpenResidualFence { residue_id: "R-gateway-boundary", hop_ordinal: 6, delegate_ssot: GATEWAY_SSOT, honest_open: true, green_credit_blocked: true },
        SecS7OpenResidualFence { residue_id: "R-s-fed-trust-production", hop_ordinal: 7, delegate_ssot: FED_TRUST_SSOT, honest_open: true, green_credit_blocked: true },
    ];
    assert(r@ =~= open_residual_fences_spec());
    r
}

/// One hop in the manifold SEC-S7 gate runtime wire map.
#[derive(Debug, Clone, Copy, PartialEq, Eq)]
pub struct SecS7GateWireHop {
    /// Ordinal (1-based).
    pub ordinal: u8,
    /// Module or symbol surface.
    pub surface: &'static str,
    /// Role in the admit chain.
    pub role: &'static str,
    /// Whether this hop is wired today.
    pub wired: bool,
}

/// Manifold SEC-S7 gate runtime wire map (cold-edge evidence to trust migration and fed-trust census).
pub open spec fn wire_hops_spec() -> Seq<SecS7GateWireHop> {
    seq![
        SecS7GateWireHop { ordinal: 1, surface: "umst-manifold::runtime::gate::evidence::AdmissibilityToken", role: "Gate admit witness token on cold edge", wired: true },
        SecS7GateWireHop { ordinal: 2, surface: "umst-manifold::runtime::gate::cartridge::GateCartridge::transition_evidence", role: "CdTransitionCartridge structured witness", wired: true },
        SecS7GateWireHop { ordinal: 3, surface: "umst-manifold::runtime::gate::sec_s7::gate_fed_trust_migration_census", role: "Manifold gate SEC-S7 fed-trust migration census", wired: true },
        SecS7GateWireHop { ordinal: 4, surface: "umst-trust::migration::validate_migration_drain_honesty", role: "Trust migration drain delegate (G77/Y80)", wired: true },
        SecS7GateWireHop { ordinal: 5, surface: "umst-trust::sec_s_arc_federation_census::federation_cell_s_fed_trust_partial", role: "S-fed-trust federation partial deepen (Y53)", wired: true },
        SecS7GateWireHop { ordinal: 6, surface: "umst-gateway::sec_s7_boundary::sec_s7_boundary_production_wired", role: "Gateway SEC-S7 boundary production ceremony (serial Wave H/O)", wired: false },
        SecS7GateWireHop { ordinal: 7, surface: "umst-trust::sec_s_arc_federation_census::s_fed_trust_production_wired", role: "S-fed-trust production flip (operator-measured live)", wired: false },
    ]
}

/// Manifold SEC-S7 gate runtime wire map (cold-edge evidence to trust migration and fed-trust census).
pub fn manifold_sec_s7_gate_wire_hops() -> (r: Vec<SecS7GateWireHop>)
    ensures
        r@ == wire_hops_spec(),
{
    let r = vec![
        SecS7GateWireHop { ordinal: 1, surface: "umst-manifold::runtime::gate::evidence::AdmissibilityToken", role: "Gate admit witness token on cold edge", wired: true },
        SecS7GateWireHop { ordinal: 2, surface: "umst-manifold::runtime::gate::cartridge::GateCartridge::transition_evidence", role: "CdTransitionCartridge structured witness", wired: true },
        SecS7GateWireHop { ordinal: 3, surface: "umst-manifold::runtime::gate::sec_s7::gate_fed_trust_migration_census", role: "Manifold gate SEC-S7 fed-trust migration census", wired: true },
        SecS7GateWireHop { ordinal: 4, surface: "umst-trust::migration::validate_migration_drain_honesty", role: "Trust migration drain delegate (G77/Y80)", wired: true },
        SecS7GateWireHop { ordinal: 5, surface: "umst-trust::sec_s_arc_federation_census::federation_cell_s_fed_trust_partial", role: "S-fed-trust federation partial deepen (Y53)", wired: true },
        SecS7GateWireHop { ordinal: 6, surface: "umst-gateway::sec_s7_boundary::sec_s7_boundary_production_wired", role: "Gateway SEC-S7 boundary production ceremony (serial Wave H/O)", wired: false },
        SecS7GateWireHop { ordinal: 7, surface: "umst-trust::sec_s_arc_federation_census::s_fed_trust_production_wired", role: "S-fed-trust production flip (operator-measured live)", wired: false },
    ];
    assert(r@ =~= wire_hops_spec());
    r
}

/// Selects the wired hops of a wire map.
pub open spec fn hop_is_wired() -> spec_fn(SecS7GateWireHop) -> bool {
    |h: SecS7GateWireHop| h.wired
}

/// Selects the unwired hops of a wire map.
pub open spec fn hop_is_open() -> spec_fn(SecS7GateWireHop) -> bool {
    |h: SecS7GateWireHop| !h.wired
}

/// Five of the seven gate wire hops are wired today.
pub proof fn lemma_wire_hops_wired_count()
    ensures
        count_where(wire_hops_spec(), hop_is_wired()) == 5,
{
    let s = wire_hops_spec();
    let p = hop_is_wired();
    assert(s.take(0) =~= Seq::<SecS7GateWireHop>::empty());
    lemma_count_step(s, p, 0);
    lemma_count_step(s, p, 1);
    lemma_count_step(s, p, 2);
    lemma_count_step(s, p, 3);
    lemma_count_step(s, p, 4);
    lemma_count_step(s, p, 5);
    lemma_count_step(s, p, 6);
    lemma_take_all(s);
}

/// Two of the seven gate wire hops stay open.
pub proof fn lemma_wire_hops_open_count()
    ensures
        count_where(wire_hops_spec(), hop_is_open()) == 2,
{
    let s = wire_hops_spec();
    let p = hop_is_open();
    assert(s.take(0) =~= Seq::<SecS7GateWireHop>::empty());
    lemma_count_step(s, p, 0);
    lemma_count_step(s, p, 1);
    lemma_count_step(s, p, 2);
    lemma_count_step(s, p, 3);
    lemma_count_step(s, p, 4);
    lemma_count_step(s, p, 5);
    lemma_count_step(s, p, 6);
    lemma_take_all(s);
}

/// Count the wired hops of a gate wire map.
pub fn count_wired_hops(items: &Vec<SecS7GateWireHop>) -> (r: usize)
    ensures
        r == count_where(items@, hop_is_wired()),
{
    let mut n: usize = 0;
    let mut i: usize = 0;
    while i < items.len()
        invariant
            i <= items.len(),
            n == count_where(items@.take(i as int), hop_is_wired()),
            n <= i,
        decreases items.len() - i,
    {
        proof {
            lemma_count_step(items@, hop_is_wired(), i as int);
        }
        if items[i].wired {
            n = n + 1;
        }
        i = i + 1;
    }
    proof {
        lemma_take_all(items@);
    }
    n
}

/// Count the open (unwired) hops of a gate wire map.
pub fn count_open_hops(items: &Vec<SecS7GateWireHop>) -> (r: usize)
    ensures
        r == count_where(items@, hop_is_open()),
{
    let mut n: usize = 0;
    let mut i: usize = 0;
    while i < items.len()
        invariant
            i <= items.len(),
            n == count_where(items@.take(i as int), hop_is_open()),
            n <= i,
        decreases items.len() - i,
    {
        proof {
            lemma_count_step(items@, hop_is_open(), i as int);
        }
        if !items[i].wired {
            n = n + 1;
        }
        i = i + 1;
    }
    proof {
        lemma_take_all(items@);
    }
    n
}

/// The pinned SSOT and receipt paths carry the markers the census checks for.
pub proof fn lemma_ssot_pins()
    ensures
        seq_contains(PRIOR_RECEIPT_PATH_2033@, "SEC-S7_2033"@),
        seq_contains(PRIOR_RECEIPT_PATH_2127@, "SEC-S7-DRAIN"@),
        seq_contains(PRIOR_RECEIPT_PATH_Y80@, "COMPOSER_Y80"@),
        seq_contains(FLEET_P1931_J2_RECEIPT_PATH@, "COMPOSER_P1931_J2"@),
        seq_contains(TRUST_SSOT@, "migration.rs"@),
        seq_contains(FED_TRUST_SSOT@, "sec_s_arc_federation_census"@),
        seq_contains(GATEWAY_SSOT@, "sec_s7_boundary"@),
{
    reveal_strlit("old/residuals/residuals/misc-outputs-tmp/COMPLETION_AGAP_AGENT_SEC-S7_2033.md");
    reveal_strlit("SEC-S7_2033");
    reveal_strlit("old/residuals/residuals/misc-outputs-tmp/COMPLETION_AGAP_AGENT_SEC-S7-DRAIN_2127.md");
    reveal_strlit("SEC-S7-DRAIN");
    reveal_strlit("outputs/.tmp/COMPOSER_Y80_0808.md");
    reveal_strlit("COMPOSER_Y80");
    reveal_strlit("outputs/.tmp/COMPOSER_P1931_J2.md");
    reveal_strlit("COMPOSER_P1931_J2");
    reveal_strlit("umst-foundations/crates/umst-trust/src/migration.rs");
    reveal_strlit("migration.rs");
    reveal_strlit("umst-foundations/crates/umst-trust/src/sec_s_arc_federation_census.rs");
    reveal_strlit("sec_s_arc_federation_census");
    reveal_strlit("umst-gateway/crates/umst-gateway/src/sec_s7_boundary.rs");
    reveal_strlit("sec_s7_boundary");
    assert(PRIOR_RECEIPT_PATH_2033@.subrange(63, 74) =~= "SEC-S7_2033"@);
    assert(matches_at(PRIOR_RECEIPT_PATH_2033@, "SEC-S7_2033"@, 63));
    assert(PRIOR_RECEIPT_PATH_2127@.subrange(63, 75) =~= "SEC-S7-DRAIN"@);
    assert(matches_at(PRIOR_RECEIPT_PATH_2127@, "SEC-S7-DRAIN"@, 63));
    assert(PRIOR_RECEIPT_PATH_Y80@.subrange(13, 25) =~= "COMPOSER_Y80"@);
    assert(matches_at(PRIOR_RECEIPT_PATH_Y80@, "COMPOSER_Y80"@, 13));
    assert(FLEET_P1931_J2_RECEIPT_PATH@.subrange(13, 30) =~= "COMPOSER_P1931_J2"@);
    assert(matches_at(FLEET_P1931_J2_RECEIPT_PATH@, "COMPOSER_P1931_J2"@, 13));
    assert(TRUST_SSOT@.subrange(39, 51) =~= "migration.rs"@);
    assert(matches_at(TRUST_SSOT@, "migration.rs"@, 39));
    assert(FED_TRUST_SSOT@.subrange(39, 66) =~= "sec_s_arc_federation_census"@);
    assert(matches_at(FED_TRUST_SSOT@, "sec_s_arc_federation_census"@, 39));
    assert(GATEWAY_SSOT@.subrange(37, 52) =~= "sec_s7_boundary"@);
    assert(matches_at(GATEWAY_SSOT@, "sec_s7_boundary"@, 37));
}

/// The schema, fence and non-claim texts carry every pin the W29-126 deepen checks for.
pub proof fn lemma_fence_texts()
    ensures
        seq_contains(SCHEMA_VERSION@, "_v3"@),
        seq_contains(HONEST_FENCE@, "production_wired=false"@),
        seq_contains(HONEST_FENCE@, "green_claim_blocked=true"@),
        seq_contains(HONEST_FENCE@, "master_retick=false"@),
        seq_contains(HONEST_FENCE@, "op5_cleared=false"@),
        seq_contains(W29_NON_CLAIM@, "not GREEN"@),
        seq_contains(W29_NON_CLAIM@, "not PRODUCTION_WIRED"@),
        seq_contains(W29_NON_CLAIM@, "not MASTER_RETICK"@),
        seq_contains(W29_NON_CLAIM@, "not OP-5 PASS"@),
{
    reveal_strlit("sec_s7_gate_fed_trust_migration_census_v3");
    reveal_strlit("_v3");
    reveal_strlit("census_wired=true production_wired=false green_claim_blocked=true master_retick=false op5_cleared=false s_fed_trust_production_wired=false");
    reveal_strlit("production_wired=false");
    reveal_strlit("green_claim_blocked=true");
    reveal_strlit("master_retick=false");
    reveal_strlit("op5_cleared=false");
    reveal_strlit("not GREEN; not PRODUCTION_WIRED; not MASTER_RETICK; not OP-5 PASS; not S_FED_TRUST_PRODUCTION");
    reveal_strlit("not GREEN");
    reveal_strlit("not PRODUCTION_WIRED");
    reveal_strlit("not MASTER_RETICK");
    reveal_strlit("not OP-5 PASS");
    assert(SCHEMA_VERSION@.subrange(38, 41) =~= "_v3"@);
    assert(matches_at(SCHEMA_VERSION@, "_v3"@, 38));
    assert(HONEST_FENCE@.subrange(18, 40) =~= "production_wired=false"@);
    assert(matches_at(HONEST_FENCE@, "production_wired=false"@, 18));
    assert(HONEST_FENCE@.subrange(41, 65) =~= "green_claim_blocked=true"@);
    assert(matches_at(HONEST_FENCE@, "green_claim_blocked=true"@, 41));
    assert(HONEST_FENCE@.subrange(66, 85) =~= "master_retick=false"@);
    assert(matches_at(HONEST_FENCE@, "master_retick=false"@, 66));
    assert(HONEST_FENCE@.subrange(86, 103) =~= "op5_cleared=false"@);
    assert(matches_at(HONEST_FENCE@, "op5_cleared=false"@, 86));
    assert(W29_NON_CLAIM@.subrange(0, 9) =~= "not GREEN"@);
    assert(matches_at(W29_NON_CLAIM@, "not GREEN"@, 0));
    assert(W29_NON_CLAIM@.subrange(11, 31) =~= "not PRODUCTION_WIRED"@);
    assert(matches_at(W29_NON_CLAIM@, "not PRODUCTION_WIRED"@, 11));
    assert(W29_NON_CLAIM@.subrange(33, 50) =~= "not MASTER_RETICK"@);
    assert(matches_at(W29_NON_CLAIM@, "not MASTER_RETICK"@, 33));
    assert(W29_NON_CLAIM@.subrange(52, 65) =~= "not OP-5 PASS"@);
    assert(matches_at(W29_NON_CLAIM@, "not OP-5 PASS"@, 52));
}

/// Whether some hop of a wire map sits at `ordinal` and is open.
fn open_hop_at(hops: &Vec<SecS7GateWireHop>, ordinal: u8) -> (r: bool)
    ensures
        r == exists|i: int| 0 <= i < hops@.len() && #[trigger] hops@[i].ordinal == ordinal && !hops@[i].wired,
{
    let mut i: usize = 0;
    while i < hops.len()
        invariant
            i <= hops.len(),
            forall|k: int| 0 <= k < i ==> !(#[trigger] hops@[k].ordinal == ordinal && !hops@[k].wired),
        decreases hops.len() - i,
    {
        if hops[i].ordinal == ordinal && !hops[i].wired {
            return true;
        }
        i = i + 1;
    }
    false
}

/// One open residual fence matches its expected residue id and hop, stays open and blocks
/// GREEN credit, and names a delegate.
pub open spec fn fence_pinned(f: SecS7OpenResidualFence, id: &'static str, ordinal: u8) -> bool {
    f.residue_id@ == id@ && f.hop_ordinal == ordinal && f.honest_open && f.green_credit_blocked
        && f.delegate_ssot@.len() > 0
}

/// Check one open residual fence against its expected residue id and hop.
fn check_fence(f: SecS7OpenResidualFence, id: &'static str, ordinal: u8) -> (r: bool)
    ensures
        r == fence_pinned(f, id, ordinal),
{
    str_eq(f.residue_id, id) && f.hop_ordinal == ordinal && f.honest_open && f.green_credit_blocked
        && !f.delegate_ssot.is_empty()
}

/// Whether the open residual fence pins match the unwired hops 6 and 7 on the wire map.
pub fn manifold_s7_open_residual_fences_verified() -> (r: bool)
    ensures
        r,
{
    let fences = open_residual_fences();
    let hops = manifold_sec_s7_gate_wire_hops();
    proof {
        reveal_strlit("umst-gateway/crates/umst-gateway/src/sec_s7_boundary.rs");
        reveal_strlit("umst-foundations/crates/umst-trust/src/sec_s_arc_federation_census.rs");
        lemma_wire_hops_open_count();
    }
    if fences.len() != OPEN_RESIDUAL_HOP_COUNT {
        return false;
    }
    let pinned = check_fence(fences[0], "R-gateway-boundary", 6)
        && check_fence(fences[1], "R-s-fed-trust-production", 7);
    let open_count = count_open_hops(&hops);
    let first = open_hop_at(&hops, fences[0].hop_ordinal);
    let second = open_hop_at(&hops, fences[1].hop_ordinal);
    assert(hops@[5].ordinal == 6 && !hops@[5].wired);
    assert(hops@[6].ordinal == 7 && !hops@[6].wired);
    pinned && open_count == OPEN_RESIDUAL_HOP_COUNT && first && second
}

/// One migrate-queue probe row at the manifold cold edge.
#[derive(Debug, Clone, Copy, PartialEq, Eq)]
pub struct ManifoldS7MigrateProbe {
    /// Stable surface identifier.
    pub surface: &'static str,
    /// Whether the surface is enumerated in the migrate queue SSOT pin.
    pub probe_hit: bool,
    /// Residue ledger id pin matches the deepen row table.
    pub residue_pin_hit: bool,
}

/// Whether a residue id names a ledger residue: non-empty and starting with `R`.
pub open spec fn residue_pinned(id: Seq<char>) -> bool {
    id.len() > 0 && id[0] == 'R'
}

/// Check that a residue id is non-empty and starts with `R`.
fn residue_pin_hit(id: &str) -> (r: bool)
    ensures
        r == residue_pinned(id@),
{
    let c = chars_of(id);
    c.len() > 0 && c[0] == 'R'
}

/// Migrate-queue row `k` carries a residue pin and names the migrate-queue surface at its
/// position, which the surface list enumerates.
pub open spec fn migrate_row_pinned(k: int) -> bool {
    &&& residue_pinned(migrate_queue_rows_spec()[k].residue_id@)
    &&& migrate_queue_rows_spec()[k].surface == migrate_queue_surfaces_spec()[k]
    &&& str_views(migrate_queue_surfaces_spec()).contains(migrate_queue_rows_spec()[k].surface@)
}

/// Every migrate-queue row is pinned.
pub proof fn lemma_migrate_rows_pinned()
    ensures
        forall|k: int| 0 <= k < 5 ==> #[trigger] migrate_row_pinned(k),
{
    let s = migrate_queue_rows_spec();
    let v = str_views(migrate_queue_surfaces_spec());
    reveal_strlit("R-classical-sha256-field-digest");
    reveal_strlit("R-classical-tls-gateway-expose");
    reveal_strlit("R-classical-wrap-gateway");
    reveal_strlit("R-unsafe-rust-audit");
    assert(v.len() == 5);
    assert(s[0].residue_id@[0] == 'R');
    assert(v[0] == s[0].surface@);
    assert(migrate_row_pinned(0));
    assert(s[1].residue_id@[0] == 'R');
    assert(v[1] == s[1].surface@);
    assert(migrate_row_pinned(1));
    assert(s[2].residue_id@[0] == 'R');
    assert(v[2] == s[2].surface@);
    assert(migrate_row_pinned(2));
    assert(s[3].residue_id@[0] == 'R');
    assert(v[3] == s[3].surface@);
    assert(migrate_row_pinned(3));
    assert(s[4].residue_id@[0] == 'R');
    assert(v[4] == s[4].surface@);
    assert(migrate_row_pinned(4));
    assert forall|k: int| 0 <= k < 5 implies #[trigger] migrate_row_pinned(k) by {
        if k == 0 {} else if k == 1 {} else if k == 2 {} else if k == 3 {} else {}
    }
}


/// The migrate-queue coverage probes as measured: every surface hit and residue-pinned.
pub open spec fn migrate_probes_spec() -> Seq<ManifoldS7MigrateProbe> {
    migrate_queue_rows_spec().map_values(
        |row: ManifoldS7MigrateQueueRow| ManifoldS7MigrateProbe { surface: row.surface, probe_hit: true, residue_pin_hit: true },
    )
}

/// S-Q7 migrate-queue coverage probe matrix — 5/5 at the manifold cold edge.
pub fn manifold_s7_migrate_coverage_probes() -> (r: Vec<ManifoldS7MigrateProbe>)
    ensures
        r@ == migrate_probes_spec(),
{
    let rows = migrate_queue_rows();
    let surfaces = migrate_queue_surfaces();
    proof {
        lemma_migrate_rows_pinned();
    }
    let mut out: Vec<ManifoldS7MigrateProbe> = Vec::new();
    let mut i: usize = 0;
    while i < rows.len()
        invariant
            rows@ == migrate_queue_rows_spec(),
            surfaces@ == migrate_queue_surfaces_spec(),
            i <= rows.len(),
            out@ == migrate_probes_spec().take(i as int),
            forall|k: int| 0 <= k < 5 ==> #[trigger] migrate_row_pinned(k),
        decreases rows.len() - i,
    {
        let row = rows[i];
        assert(migrate_row_pinned(i as int));
        let hit = str_list_contains(&surfaces, row.surface);
        let pin = residue_pin_hit(row.residue_id);
        out.push(ManifoldS7MigrateProbe { surface: row.surface, probe_hit: hit, residue_pin_hit: pin });
        assert(out@ =~= migrate_probes_spec().take(i + 1));
        i = i + 1;
    }
    assert(out@ =~= migrate_probes_spec());
    out
}

/// Whether all migrate-queue deepen rows carry residue ledger pins and follow the surface list.
pub fn manifold_s7_migrate_queue_residue_pins_verified() -> (r: bool)
    ensures
        r,
{
    let rows = migrate_queue_rows();
    let surfaces = migrate_queue_surfaces();
    proof {
        lemma_migrate_rows_pinned();
    }
    let mut ok = true;
    let mut i: usize = 0;
    while i < rows.len()
        invariant
            rows@ == migrate_queue_rows_spec(),
            surfaces@ == migrate_queue_surfaces_spec(),
            i <= rows.len(),
            ok,
            forall|k: int| 0 <= k < 5 ==> #[trigger] migrate_row_pinned(k),
        decreases rows.len() - i,
    {
        assert(migrate_row_pinned(i as int));
        ok = ok && residue_pin_hit(rows[i].residue_id) && str_eq(rows[i].surface, surfaces[i]);
        i = i + 1;
    }
    rows.len() == MIGRATE_QUEUE_DEPTH && ok
}

/// Whether all five migrate-queue surfaces are enumerated at the manifold boundary.
pub fn manifold_s7_all_migrate_surfaces_probed() -> (r: bool)
    ensures
        r,
{
    let probes = manifold_s7_migrate_coverage_probes();
    let mut all = true;
    let mut i: usize = 0;
    while i < probes.len()
        invariant
            i <= probes.len(),
            probes@ == migrate_probes_spec(),
            all,
        decreases probes.len() - i,
    {
        assert(probes@[i as int].probe_hit && probes@[i as int].residue_pin_hit);
        all = all && probes[i].probe_hit && probes[i].residue_pin_hit;
        i = i + 1;
    }
    all && migrate_queue_surfaces().len() == MIGRATE_QUEUE_DEPTH
        && manifold_s7_migrate_queue_residue_pins_verified()
}

/// Verify the AGAP-2033 stage-count census pins at the manifold boundary.
pub fn manifold_verify_migration_inventory_census() -> (r: bool)
    ensures
        r,
{
    STAGE_COUNT_AUDIT + STAGE_COUNT_WRAP + STAGE_COUNT_MIGRATE + STAGE_COUNT_CLOUD_BOUND
        == INVENTORY_ROW_COUNT && STAGE_COUNT_AUDIT == 0 && STAGE_COUNT_MIGRATE == MIGRATE_QUEUE_DEPTH
        && STAGE_COUNT_MIGRATE >= 4
}

/// Aggregated SEC-S7 gate fed-trust migration census on the manifold boundary.
#[derive(Debug, Clone, Copy, PartialEq, Eq)]
pub struct SecS7GateFedTrustMigrationCensus {
    /// Census schema tag.
    pub schema_version: &'static str,
    /// Board slice id.
    pub board_slice_id: &'static str,
    /// W29 cell id pin.
    pub w29_cell_id: &'static str,
    /// Gate transition evidence probe passed.
    pub gate_evidence_wired: bool,
    /// AGAP-2033 inventory row count (12/12).
    pub inventory_row_count: usize,
    /// Migrate queue depth (5/12).
    pub migrate_queue_depth: usize,
    /// Migrate queue at-least-4 gate met.
    pub migrate_queue_ge_4: bool,
    /// Migrate queue at-least-5 gate met (SWARM absorb).
    pub migrate_queue_ge_5: bool,
    /// Honest open residual hop count (2).
    pub open_residual_hop_count: usize,
    /// Open residual fence pins verified.
    pub open_residual_fences_verified: bool,
    /// S-7 migration complete — honest false.
    pub migration_complete: bool,
    /// S-7 GREEN claim blocked — honest true.
    pub s7_green_claim_blocked: bool,
    /// S-fed-trust partial deepen wired.
    pub s_fed_trust_partial: bool,
    /// S-fed-trust production flip — honest false.
    pub s_fed_trust_production_wired: bool,
    /// MASTER / OP-5 retick — honest false.
    pub master_retick_eligible: bool,
    /// OP-5 clearance — honest false.
    pub op5_cleared: bool,
    /// Gateway production flip.
    pub production_wired: bool,
    /// Wired hop count.
    pub wire_hop_wired_count: u8,
}

/// Exercise gate cold-edge evidence at the manifold SSOT (the identity transition admits).
pub fn gate_transition_evidence_probe(evidence: &TransitionEvidence) -> (r: bool)
    ensures
        r == witness_admits(*evidence),
{
    cold_edge_witness_admits(evidence)
}

/// Whether the live gateway SEC-S7 boundary production flip is plumbed (honest `false`).
pub fn sec_s7_production_wired() -> (r: bool)
    ensures
        !r,
{
    false
}

/// Whether MASTER / OP-5 retick is eligible (honest `false` at census deepen).
pub fn sec_s7_master_retick_eligible() -> (r: bool)
    ensures
        r == MASTER_RETICK_ELIGIBLE,
        !r,
{
    MASTER_RETICK_ELIGIBLE
}

/// Whether OP-5 clearance is claimed (honest `false` at census deepen).
pub fn sec_s7_op5_cleared() -> (r: bool)
    ensures
        r == OP5_CLEARED,
        !r,
{
    OP5_CLEARED
}

/// Build the manifold SEC-S7 gate fed-trust migration census from live measurements.
pub fn gate_fed_trust_migration_census(gate_evidence_wired: bool) -> (r: SecS7GateFedTrustMigrationCensus)
    ensures
        r.schema_version == SCHEMA_VERSION,
        r.board_slice_id == BOARD_SLICE_ID,
        r.w29_cell_id == W29_CELL_ID,
        r.gate_evidence_wired == gate_evidence_wired,
        r.inventory_row_count == INVENTORY_ROW_COUNT,
        r.migrate_queue_depth == MIGRATE_QUEUE_DEPTH,
        r.migrate_queue_ge_4,
        r.migrate_queue_ge_5,
        r.open_residual_hop_count == OPEN_RESIDUAL_HOP_COUNT,
        r.open_residual_fences_verified,
        !r.migration_complete,
        r.s7_green_claim_blocked,
        r.s_fed_trust_partial,
        !r.s_fed_trust_production_wired,
        !r.master_retick_eligible,
        !r.op5_cleared,
        !r.production_wired,
        r.wire_hop_wired_count == 5,
{
    let hops = manifold_sec_s7_gate_wire_hops();
    let wired = count_wired_hops(&hops);
    proof {
        lemma_wire_hops_wired_count();
    }
    SecS7GateFedTrustMigrationCensus {
        schema_version: SCHEMA_VERSION,
        board_slice_id: BOARD_SLICE_ID,
        w29_cell_id: W29_CELL_ID,
        gate_evidence_wired,
        inventory_row_count: INVENTORY_ROW_COUNT,
        migrate_queue_depth: MIGRATE_QUEUE_DEPTH,
        migrate_queue_ge_4: MIGRATE_QUEUE_DEPTH >= 4,
        migrate_queue_ge_5: MIGRATE_QUEUE_DEPTH >= 5,
        open_residual_hop_count: OPEN_RESIDUAL_HOP_COUNT,
        open_residual_fences_verified: manifold_s7_open_residual_fences_verified(),
        migration_complete: migration_complete_measured(),
        s7_green_claim_blocked: S7_GREEN_CLAIM_BLOCKED,
        s_fed_trust_partial: S_FED_TRUST_PARTIAL_HONEST,
        s_fed_trust_production_wired: S_FED_TRUST_PRODUCTION_WIRED_HONEST,
        master_retick_eligible: sec_s7_master_retick_eligible(),
        op5_cleared: sec_s7_op5_cleared(),
        production_wired: sec_s7_production_wired(),
        wire_hop_wired_count: wired as u8,
    }
}

/// Whether the manifold gate SEC-S7 ceremony is closed at census tier: wire map hops 1–5 are
/// measured wired and the open residual fences for hops 6 and 7 are pinned honest-open, so it
/// is closed exactly when the cold-edge evidence admits. The gateway boundary production and
/// the S-fed-trust production flip are explicit non-blockers.
pub fn manifold_gate_sec_s7_ceremony_closed(gate_evidence_wired: bool) -> (r: bool)
    ensures
        r == gate_evidence_wired,
{
    let census = gate_fed_trust_migration_census(gate_evidence_wired);
    census.gate_evidence_wired && census.inventory_row_count == INVENTORY_ROW_COUNT
        && census.migrate_queue_depth == MIGRATE_QUEUE_DEPTH && census.migrate_queue_ge_4
        && census.migrate_queue_ge_5 && census.open_residual_hop_count == OPEN_RESIDUAL_HOP_COUNT
        && census.open_residual_fences_verified && !census.migration_complete
        && !migration_complete_measured() && census.s7_green_claim_blocked
        && census.s_fed_trust_partial && !census.s_fed_trust_production_wired
        && !census.master_retick_eligible && !census.op5_cleared && !census.production_wired
        && census.wire_hop_wired_count == 5 && str_eq(census.w29_cell_id, W29_CELL_ID)
        && manifold_s7_all_migrate_surfaces_probed() && manifold_verify_migration_inventory_census()
        && gate_evidence_wired
}

/// Typed probe for SEC-S7 manifold gate closure honesty.
#[derive(Debug, Clone, Copy, PartialEq, Eq, Structural)]
pub struct SecS7GateManifoldProbe {
    /// Gate transition evidence probe.
    pub gate_evidence_wired: bool,
    /// Migrate queue 5/5 surfaces probed.
    pub s7_all_migrate_surfaces_probed: bool,
    /// Inventory stage census verified.
    pub migration_inventory_census_verified: bool,
    /// Migrate queue residue pins verified.
    pub migrate_queue_residue_pins_verified: bool,
    /// Open residual fences verified.
    pub open_residual_fences_verified: bool,
    /// Migration complete honest false.
    pub migration_complete_honest_false: bool,
    /// S-7 GREEN claim blocked.
    pub s7_green_claim_blocked: bool,
    /// S-fed-trust partial honest true.
    pub s_fed_trust_partial_honest: bool,
    /// S-fed-trust production honest false.
    pub s_fed_trust_production_honest_false: bool,
    /// MASTER / OP-5 retick honest false.
    pub master_retick_honest_false: bool,
    /// OP-5 clearance honest false.
    pub op5_cleared_honest_false: bool,
    /// Production flip honest false.
    pub production_honest_false: bool,
    /// Manifold wire hop wired count.
    pub wire_hop_wired_count: u8,
    /// Manifold ceremony close predicate.
    pub ceremony_closed: bool,
}

/// The manifold probe measured for a given cold-edge outcome.
pub open spec fn manifold_probe_spec(gate_evidence_wired: bool) -> SecS7GateManifoldProbe {
    SecS7GateManifoldProbe {
        gate_evidence_wired,
        s7_all_migrate_surfaces_probed: true,
        migration_inventory_census_verified: true,
        migrate_queue_residue_pins_verified: true,
        open_residual_fences_verified: true,
        migration_complete_honest_false: true,
        s7_green_claim_blocked: true,
        s_fed_trust_partial_honest: true,
        s_fed_trust_production_honest_false: true,
        master_retick_honest_false: true,
        op5_cleared_honest_false: true,
        production_honest_false: true,
        wire_hop_wired_count: 5,
        ceremony_closed: gate_evidence_wired,
    }
}

/// Build the introspection probe for SEC-S7 done-when checks.
pub fn sec_s7_gate_manifold_probe(gate_evidence_wired: bool) -> (r: SecS7GateManifoldProbe)
    ensures
        r == manifold_probe_spec(gate_evidence_wired),
{
    let census = gate_fed_trust_migration_census(gate_evidence_wired);
    SecS7GateManifoldProbe {
        gate_evidence_wired: census.gate_evidence_wired,
        s7_all_migrate_surfaces_probed: manifold_s7_all_migrate_surfaces_probed(),
        migration_inventory_census_verified: manifold_verify_migration_inventory_census(),
        migrate_queue_residue_pins_verified: manifold_s7_migrate_queue_residue_pins_verified(),
        open_residual_fences_verified: census.open_residual_fences_verified,
        migration_complete_honest_false: !census.migration_complete && !migration_complete_measured(),
        s7_green_claim_blocked: census.s7_green_claim_blocked,
        s_fed_trust_partial_honest: census.s_fed_trust_partial,
        s_fed_trust_production_honest_false: !census.s_fed_trust_production_wired,
        master_retick_honest_false: !census.master_retick_eligible,
        op5_cleared_honest_false: !census.op5_cleared,
        production_honest_false: !census.production_wired,
        wire_hop_wired_count: census.wire_hop_wired_count,
        ceremony_closed: manifold_gate_sec_s7_ceremony_closed(gate_evidence_wired),
    }
}

/// One SEC-S7 gate-factor row for operator receipts.
#[derive(Debug, Clone, Copy, PartialEq, Eq)]
pub struct SecS7GateFactorRow {
    /// Factor identifier.
    pub factor_id: &'static str,
    /// Whether the manifold probe is wired for this factor.
    pub probe_wired: bool,
    /// Acceptance credit (honest BLOCKED until production).
    pub acceptance_credit: bool,
}

/// Gate-factor rows as measured: every factor probed, none credited.
pub open spec fn factor_rows_spec() -> Seq<SecS7GateFactorRow> {
    seq![
        SecS7GateFactorRow { factor_id: "inventory-12-row", probe_wired: true, acceptance_credit: false },
        SecS7GateFactorRow { factor_id: "migrate-queue-ge-4", probe_wired: true, acceptance_credit: false },
        SecS7GateFactorRow { factor_id: "migrate-queue-ge-5", probe_wired: true, acceptance_credit: false },
        SecS7GateFactorRow { factor_id: "migrate-queue-residue-pins", probe_wired: true, acceptance_credit: false },
        SecS7GateFactorRow { factor_id: "s-fed-trust-partial", probe_wired: true, acceptance_credit: false },
        SecS7GateFactorRow { factor_id: "trust-drain-delegate", probe_wired: true, acceptance_credit: false },
        SecS7GateFactorRow { factor_id: "gateway-boundary", probe_wired: true, acceptance_credit: false },
    ]
}

/// Collect the SEC-S7 gate-factor rows for operator matrix receipts.
pub fn collect_sec_s7_gate_factor_rows() -> (r: Vec<SecS7GateFactorRow>)
    ensures
        r@ == factor_rows_spec(),
{
    proof {
        lemma_ssot_pins();
    }
    let r = vec![
        SecS7GateFactorRow { factor_id: "inventory-12-row", probe_wired: INVENTORY_ROW_COUNT == 12, acceptance_credit: false },
        SecS7GateFactorRow { factor_id: "migrate-queue-ge-4", probe_wired: MIGRATE_QUEUE_DEPTH >= 4, acceptance_credit: false },
        SecS7GateFactorRow { factor_id: "migrate-queue-ge-5", probe_wired: MIGRATE_QUEUE_DEPTH >= 5, acceptance_credit: false },
        SecS7GateFactorRow {
            factor_id: "migrate-queue-residue-pins",
            probe_wired: manifold_s7_migrate_queue_residue_pins_verified(),
            acceptance_credit: false,
        },
        SecS7GateFactorRow { factor_id: "s-fed-trust-partial", probe_wired: S_FED_TRUST_PARTIAL_HONEST, acceptance_credit: false },
        SecS7GateFactorRow {
            factor_id: "trust-drain-delegate",
            probe_wired: str_contains(TRUST_SSOT, "migration.rs"),
            acceptance_credit: false,
        },
        SecS7GateFactorRow {
            factor_id: "gateway-boundary",
            probe_wired: str_contains(GATEWAY_SSOT, "sec_s7_boundary"),
            acceptance_credit: false,
        },
    ];
    assert(r@ =~= factor_rows_spec());
    r
}

/// One rendered line of the SEC-S7 gate-factor table.
pub open spec fn factor_row_text() -> spec_fn(SecS7GateFactorRow) -> Seq<char> {
    |row: SecS7GateFactorRow| "  "@ + row.factor_id@ + " probe_wired="@ + bool_text(row.probe_wired) + " scert_credit=BLOCKED\n"@
}

/// A closing line of the SEC-S7 gate-factor table.
pub open spec fn factor_table_tail() -> Seq<char> {
    "  migration_complete="@ + bool_text(MIGRATION_COMPLETE_HONEST) + " migration_complete_measured="@ + bool_text(false) + " s7_green_claim_blocked="@ + bool_text(S7_GREEN_CLAIM_BLOCKED) + " s_fed_trust_production_wired="@ + bool_text(S_FED_TRUST_PRODUCTION_WIRED_HONEST) + " sec_s7_production_wired="@ + bool_text(false) + " expected_gate_exit=BLOCKED\n"@
}

/// The SEC-S7 gate-factor table, as rendered for operator receipts.
pub open spec fn factor_table_spec() -> Seq<char> {
    "SEC-S7 gate factors (J2 fed-trust migration):\n"@ + factor_rows_spec().map_values(factor_row_text()).flatten() + factor_table_tail()
}

/// Render the SEC-S7 gate-factor table for operator receipts.
pub fn sec_s7_gate_factor_table() -> (r: String)
    ensures
        r@ == factor_table_spec(),
{
    let items = collect_sec_s7_gate_factor_rows();
    let mut out = String::new();
    push_str(&mut out, "SEC-S7 gate factors (J2 fed-trust migration):\n");
    let ghost header = out@;
    let mut i: usize = 0;
    while i < items.len()
        invariant
            i <= items.len(),
            items@ == factor_rows_spec(),
            out@ == header + items@.take(i as int).map_values(factor_row_text()).flatten(),
        decreases items.len() - i,
    {
        proof {
            lemma_flatten_step(items@, factor_row_text(), i as int);
        }
        let row = items[i];
        push_str(&mut out, "  ");
        push_str(&mut out, row.factor_id);
        push_str(&mut out, " probe_wired=");
        push_bool(&mut out, row.probe_wired);
        push_str(&mut out, " scert_credit=BLOCKED\n");
        assert(out@ == header + items@.take(i + 1).map_values(factor_row_text()).flatten());
        i = i + 1;
    }
    proof {
        lemma_take_all(items@);
    }
    push_str(&mut out, "  migration_complete=");
    push_bool(&mut out, MIGRATION_COMPLETE_HONEST);
    push_str(&mut out, " migration_complete_measured=");
    push_bool(&mut out, migration_complete_measured());
    push_str(&mut out, " s7_green_claim_blocked=");
    push_bool(&mut out, S7_GREEN_CLAIM_BLOCKED);
    push_str(&mut out, " s_fed_trust_production_wired=");
    push_bool(&mut out, S_FED_TRUST_PRODUCTION_WIRED_HONEST);
    push_str(&mut out, " sec_s7_production_wired=");
    push_bool(&mut out, sec_s7_production_wired());
    push_str(&mut out, " expected_gate_exit=BLOCKED\n");
    assert(out@ =~= factor_table_spec());
    out
}

/// The rendered gate-factor table pins the BLOCKED exit and SCERT credit.
pub proof fn lemma_factor_table_markers()
    ensures
        seq_contains(factor_table_spec(), "expected_gate_exit=BLOCKED"@),
        seq_contains(factor_table_spec(), "scert_credit=BLOCKED"@),
{
    reveal_strlit("  ");
    reveal_strlit("  migration_complete=");
    reveal_strlit(" expected_gate_exit=BLOCKED\n");
    reveal_strlit(" migration_complete_measured=");
    reveal_strlit(" probe_wired=");
    reveal_strlit(" s7_green_claim_blocked=");
    reveal_strlit(" s_fed_trust_production_wired=");
    reveal_strlit(" scert_credit=BLOCKED\n");
    reveal_strlit(" sec_s7_production_wired=");
    reveal_strlit("expected_gate_exit=BLOCKED");
    reveal_strlit("gateway-boundary");
    reveal_strlit("inventory-12-row");
    reveal_strlit("migrate-queue-ge-4");
    reveal_strlit("migrate-queue-ge-5");
    reveal_strlit("migrate-queue-residue-pins");
    reveal_strlit("s-fed-trust-partial");
    reveal_strlit("scert_credit=BLOCKED");
    reveal_strlit("trust-drain-delegate");

    assert(factor_table_tail().subrange(154, 180) =~= "expected_gate_exit=BLOCKED"@);
    assert(matches_at(factor_table_tail(), "expected_gate_exit=BLOCKED"@, 154));
    assert(factor_table_spec() =~= ("SEC-S7 gate factors (J2 fed-trust migration):\n"@ + factor_rows_spec().map_values(factor_row_text()).flatten()) + factor_table_tail() + (Seq::<char>::empty()));
    lemma_contains_extend("SEC-S7 gate factors (J2 fed-trust migration):\n"@ + factor_rows_spec().map_values(factor_row_text()).flatten(), factor_table_tail(), Seq::<char>::empty(), "expected_gate_exit=BLOCKED"@);
    assert(factor_rows_spec().map_values(factor_row_text())[0].subrange(36, 56) =~= "scert_credit=BLOCKED"@);
    assert(matches_at(factor_rows_spec().map_values(factor_row_text())[0], "scert_credit=BLOCKED"@, 36));
    lemma_contains_entry(factor_rows_spec().map_values(factor_row_text()), 0, "scert_credit=BLOCKED"@);
    assert(factor_table_spec() =~= "SEC-S7 gate factors (J2 fed-trust migration):\n"@ + factor_rows_spec().map_values(factor_row_text()).flatten() + (factor_table_tail()));
    lemma_contains_extend("SEC-S7 gate factors (J2 fed-trust migration):\n"@, factor_rows_spec().map_values(factor_row_text()).flatten(), factor_table_tail(), "scert_credit=BLOCKED"@);
}

/// One rendered line of the SEC-S7 migrate queue deepen table.
pub open spec fn migrate_row_text() -> spec_fn(ManifoldS7MigrateQueueRow) -> Seq<char> {
    |row: ManifoldS7MigrateQueueRow| "  "@ + decimal(row.ordinal as nat) + " surface="@ + row.surface@ + " residue_id="@ + row.residue_id@ + " migration="@ + row.migration_label@ + "\n"@
}

/// A closing line of the SEC-S7 migrate queue deepen table.
pub open spec fn migrate_table_tail() -> Seq<char> {
    "  migration_complete_measured="@ + bool_text(false) + " s7_green_claim_blocked="@ + bool_text(S7_GREEN_CLAIM_BLOCKED) + "\n"@
}

/// The SEC-S7 migrate queue deepen table, as rendered for operator receipts.
pub open spec fn migrate_table_spec() -> Seq<char> {
    "SEC-S7 migrate queue deepen (5/5 residue-pinned):\n"@ + migrate_queue_rows_spec().map_values(migrate_row_text()).flatten() + migrate_table_tail()
}

/// Render the SEC-S7 migrate queue deepen table for operator receipts.
pub fn sec_s7_migrate_queue_table() -> (r: String)
    ensures
        r@ == migrate_table_spec(),
{
    let items = migrate_queue_rows();
    let mut out = String::new();
    push_str(&mut out, "SEC-S7 migrate queue deepen (5/5 residue-pinned):\n");
    let ghost header = out@;
    let mut i: usize = 0;
    while i < items.len()
        invariant
            i <= items.len(),
            items@ == migrate_queue_rows_spec(),
            out@ == header + items@.take(i as int).map_values(migrate_row_text()).flatten(),
        decreases items.len() - i,
    {
        proof {
            lemma_flatten_step(items@, migrate_row_text(), i as int);
        }
        let row = items[i];
        push_str(&mut out, "  ");
        push_decimal(&mut out, row.ordinal as u64);
        push_str(&mut out, " surface=");
        push_str(&mut out, row.surface);
        push_str(&mut out, " residue_id=");
        push_str(&mut out, row.residue_id);
        push_str(&mut out, " migration=");
        push_str(&mut out, row.migration_label);
        push_str(&mut out, "\n");
        assert(out@ == header + items@.take(i + 1).map_values(migrate_row_text()).flatten());
        i = i + 1;
    }
    proof {
        lemma_take_all(items@);
    }
    push_str(&mut out, "  migration_complete_measured=");
    push_bool(&mut out, migration_complete_measured());
    push_str(&mut out, " s7_green_claim_blocked=");
    push_bool(&mut out, S7_GREEN_CLAIM_BLOCKED);
    push_str(&mut out, "\n");
    assert(out@ =~= migrate_table_spec());
    out
}

/// The rendered migrate queue table pins the gateway wrap and unsafe audit residues and the measured-incomplete migration.
pub proof fn lemma_migrate_table_markers()
    ensures
        seq_contains(migrate_table_spec(), "residue_id=R-classical-wrap-gateway"@),
        seq_contains(migrate_table_spec(), "residue_id=R-unsafe-rust-audit"@),
        seq_contains(migrate_table_spec(), "migration_complete_measured=false"@),
{
    reveal_strlit("\n");
    reveal_strlit("  ");
    reveal_strlit("  migration_complete_measured=");
    reveal_strlit(" migration=");
    reveal_strlit(" residue_id=");
    reveal_strlit(" s7_green_claim_blocked=");
    reveal_strlit(" surface=");
    reveal_strlit("R-classical-sha256-field-digest");
    reveal_strlit("R-classical-tls-gateway-expose");
    reveal_strlit("R-classical-wrap-gateway");
    reveal_strlit("R-unsafe-rust-audit");
    reveal_strlit("closes-SEC-FIELD-PIN-sha3-stamp");
    reveal_strlit("egoff/umst-math/umst-ffi-bridge");
    reveal_strlit("migration_complete_measured=false");
    reveal_strlit("queued-PQC-trustgate-production-flip");
    reveal_strlit("queued-migrate-constant-time-typed-post-S-1");
    reveal_strlit("queued-migrate-gossip-sled-trust-ledger");
    reveal_strlit("queued-migrate-hyper-rustls-beyond-loopback");
    reveal_strlit("residue_id=R-classical-wrap-gateway");
    reveal_strlit("residue_id=R-unsafe-rust-audit");
    reveal_strlit("umst-field::pwa_adapter");
    reveal_strlit("umst-gateway::gate_check_embodied");
    reveal_strlit("umst-gateway::mcp_streamable_http");
    reveal_strlit("umst-gateway::web_gossip_route");
    assert(decimal(1) =~= seq!['1']);
    assert(decimal(2) =~= seq!['2']);
    assert(decimal(3) =~= seq!['3']);
    assert(decimal(4) =~= seq!['4']);
    assert(decimal(5) =~= seq!['5']);
    assert(migrate_queue_rows_spec().map_values(migrate_row_text())[0].subrange(46, 81) =~= "residue_id=R-classical-wrap-gateway"@);
    assert(matches_at(migrate_queue_rows_spec().map_values(migrate_row_text())[0], "residue_id=R-classical-wrap-gateway"@, 46));
    lemma_contains_entry(migrate_queue_rows_spec().map_values(migrate_row_text()), 0, "residue_id=R-classical-wrap-gateway"@);
    assert(migrate_table_spec() =~= "SEC-S7 migrate queue deepen (5/5 residue-pinned):\n"@ + migrate_queue_rows_spec().map_values(migrate_row_text()).flatten() + (migrate_table_tail()));
    lemma_contains_extend("SEC-S7 migrate queue deepen (5/5 residue-pinned):\n"@, migrate_queue_rows_spec().map_values(migrate_row_text()).flatten(), migrate_table_tail(), "residue_id=R-classical-wrap-gateway"@);
    assert(migrate_queue_rows_spec().map_values(migrate_row_text())[4].subrange(44, 74) =~= "residue_id=R-unsafe-rust-audit"@);
    assert(matches_at(migrate_queue_rows_spec().map_values(migrate_row_text())[4], "residue_id=R-unsafe-rust-audit"@, 44));
    lemma_contains_entry(migrate_queue_rows_spec().map_values(migrate_row_text()), 4, "residue_id=R-unsafe-rust-audit"@);
    assert(migrate_table_spec() =~= "SEC-S7 migrate queue deepen (5/5 residue-pinned):\n"@ + migrate_queue_rows_spec().map_values(migrate_row_text()).flatten() + (migrate_table_tail()));
    lemma_contains_extend("SEC-S7 migrate queue deepen (5/5 residue-pinned):\n"@, migrate_queue_rows_spec().map_values(migrate_row_text()).flatten(), migrate_table_tail(), "residue_id=R-unsafe-rust-audit"@);
    assert(migrate_table_tail().subrange(2, 35) =~= "migration_complete_measured=false"@);
    assert(matches_at(migrate_table_tail(), "migration_complete_measured=false"@, 2));
    assert(migrate_table_spec() =~= ("SEC-S7 migrate queue deepen (5/5 residue-pinned):\n"@ + migrate_queue_rows_spec().map_values(migrate_row_text()).flatten()) + migrate_table_tail() + (Seq::<char>::empty()));
    lemma_contains_extend("SEC-S7 migrate queue deepen (5/5 residue-pinned):\n"@ + migrate_queue_rows_spec().map_values(migrate_row_text()).flatten(), migrate_table_tail(), Seq::<char>::empty(), "migration_complete_measured=false"@);
}

/// FLEET-COMPOSER Prabhu Wave J J2 integration probe.
#[derive(Debug, Clone, Copy, PartialEq, Eq)]
pub struct SecS7P1931J2Probe {
    /// J2 fleet card id.
    pub j2_job_id: &'static str,
    /// Prior 2033 inventory absorbed.
    pub prior_2033_absorbed: bool,
    /// Prior 2127 drain absorbed.
    pub prior_2127_absorbed: bool,
    /// Prior Y80 S-fed-trust drain absorbed.
    pub prior_y80_absorbed: bool,
    /// Manifold ceremony close predicate.
    pub ceremony_closed: bool,
    /// Underlying gate probe.
    pub probe: SecS7GateManifoldProbe,
    /// Production flip — honest false.
    pub production_wired: bool,
    /// Gate-factor rows with probe wired.
    pub gate_factor_wired_count: usize,
    /// Gate-factor table pins the BLOCKED exit.
    pub gate_factor_exit_blocked: bool,
}

/// Build the FLEET-COMPOSER P1931 J2 integration probe from live measurements.
pub fn sec_s7_p1931_j2_probe(gate_evidence_wired: bool) -> (r: SecS7P1931J2Probe)
    ensures
        r.j2_job_id == FLEET_P1931_J2_JOB_ID,
        r.prior_2033_absorbed,
        r.prior_2127_absorbed,
        r.prior_y80_absorbed,
        r.ceremony_closed == gate_evidence_wired,
        r.probe == manifold_probe_spec(gate_evidence_wired),
        !r.production_wired,
        r.gate_factor_wired_count == 7,
        r.gate_factor_exit_blocked,
{
    let rows = collect_sec_s7_gate_factor_rows();
    let table = sec_s7_gate_factor_table();
    proof {
        lemma_ssot_pins();
        lemma_factor_table_markers();
    }
    let mut wired_rows: usize = 0;
    let mut i: usize = 0;
    while i < rows.len()
        invariant
            rows@ == factor_rows_spec(),
            i <= rows.len(),
            wired_rows == i,
        decreases rows.len() - i,
    {
        if rows[i].probe_wired {
            wired_rows = wired_rows + 1;
        }
        i = i + 1;
    }
    SecS7P1931J2Probe {
        j2_job_id: FLEET_P1931_J2_JOB_ID,
        prior_2033_absorbed: str_contains(PRIOR_RECEIPT_PATH_2033, "SEC-S7_2033"),
        prior_2127_absorbed: str_contains(PRIOR_RECEIPT_PATH_2127, "SEC-S7-DRAIN"),
        prior_y80_absorbed: str_contains(PRIOR_RECEIPT_PATH_Y80, "COMPOSER_Y80"),
        ceremony_closed: manifold_gate_sec_s7_ceremony_closed(gate_evidence_wired),
        probe: sec_s7_gate_manifold_probe(gate_evidence_wired),
        production_wired: sec_s7_production_wired(),
        gate_factor_wired_count: wired_rows,
        gate_factor_exit_blocked: string_contains(&table, "expected_gate_exit=BLOCKED"),
    }
}

/// FLEET-COMPOSER P1931 J2 honesty gate — ceremony closed, production false, fed-trust
/// honest; honest exactly when the cold-edge evidence admits.
pub fn sec_s7_p1931_j2_honest(gate_evidence_wired: bool) -> (r: bool)
    ensures
        r == gate_evidence_wired,
{
    let probe = sec_s7_p1931_j2_probe(gate_evidence_wired);
    str_eq(probe.j2_job_id, FLEET_P1931_J2_JOB_ID) && probe.prior_2033_absorbed
        && probe.prior_2127_absorbed && probe.prior_y80_absorbed && probe.ceremony_closed
        && probe.probe.gate_evidence_wired && probe.probe.s7_all_migrate_surfaces_probed
        && probe.probe.migrate_queue_residue_pins_verified && probe.probe.open_residual_fences_verified
        && probe.probe.migration_inventory_census_verified
        && probe.probe.migration_complete_honest_false && probe.probe.s7_green_claim_blocked
        && probe.probe.s_fed_trust_partial_honest && probe.probe.s_fed_trust_production_honest_false
        && probe.probe.master_retick_honest_false && probe.probe.op5_cleared_honest_false
        && probe.probe.production_honest_false && probe.probe.wire_hop_wired_count == 5
        && !probe.production_wired && probe.gate_factor_wired_count >= 6
        && probe.gate_factor_exit_blocked
}

/// FLEET-COMPOSER ACCEL-25 AC08 migrate-queue deepen probe.
#[derive(Debug, Clone, Copy, PartialEq, Eq)]
pub struct SecS7AccelAc08Probe {
    /// AC08 fleet slot id.
    pub ac08_job_id: &'static str,
    /// Prior J2 manifold gate receipt absorbed.
    pub prior_j2_absorbed: bool,
    /// Prior Y80 S-fed-trust drain absorbed.
    pub prior_y80_absorbed: bool,
    /// Migrate queue deepen table pins residue ids.
    pub migrate_queue_table_residue_pinned: bool,
    /// Underlying gate probe.
    pub probe: SecS7GateManifoldProbe,
    /// Measured migration-complete predicate.
    pub migration_complete_measured: bool,
    /// Manifold ceremony close predicate.
    pub ceremony_closed: bool,
}

/// Build the FLEET-COMPOSER ACCEL-25 AC08 integration probe from live measurements.
pub fn sec_s7_accel_ac08_probe(gate_evidence_wired: bool) -> (r: SecS7AccelAc08Probe)
    ensures
        r.ac08_job_id == ACCEL_2030_AC08_JOB_ID,
        r.prior_j2_absorbed,
        r.prior_y80_absorbed,
        r.migrate_queue_table_residue_pinned,
        r.probe == manifold_probe_spec(gate_evidence_wired),
        !r.migration_complete_measured,
        r.ceremony_closed == gate_evidence_wired,
{
    let table = sec_s7_migrate_queue_table();
    proof {
        lemma_ssot_pins();
        lemma_migrate_table_markers();
    }
    SecS7AccelAc08Probe {
        ac08_job_id: ACCEL_2030_AC08_JOB_ID,
        prior_j2_absorbed: str_contains(FLEET_P1931_J2_RECEIPT_PATH, "COMPOSER_P1931_J2"),
        prior_y80_absorbed: str_contains(PRIOR_RECEIPT_PATH_Y80, "COMPOSER_Y80"),
        migrate_queue_table_residue_pinned: string_contains(&table, "residue_id=R-classical-wrap-gateway")
            && string_contains(&table, "residue_id=R-unsafe-rust-audit") && string_contains(
            &table,
            "migration_complete_measured=false",
        ),
        probe: sec_s7_gate_manifold_probe(gate_evidence_wired),
        migration_complete_measured: migration_complete_measured(),
        ceremony_closed: manifold_gate_sec_s7_ceremony_closed(gate_evidence_wired),
    }
}

/// FLEET-COMPOSER ACCEL-25 AC08 honesty gate — migrate queue deepen with migration complete
/// measured false; honest exactly when the cold-edge evidence admits.
pub fn sec_s7_accel_ac08_honest(gate_evidence_wired: bool) -> (r: bool)
    ensures
        r == gate_evidence_wired,
{
    let probe = sec_s7_accel_ac08_probe(gate_evidence_wired);
    str_eq(probe.ac08_job_id, ACCEL_2030_AC08_JOB_ID) && probe.prior_j2_absorbed
        && probe.prior_y80_absorbed && probe.migrate_queue_table_residue_pinned
        && probe.ceremony_closed && probe.probe.gate_evidence_wired
        && probe.probe.s7_all_migrate_surfaces_probed && probe.probe.migrate_queue_residue_pins_verified
        && probe.probe.open_residual_fences_verified && probe.probe.migration_complete_honest_false
        && probe.probe.s7_green_claim_blocked && probe.probe.s_fed_trust_partial_honest
        && probe.probe.s_fed_trust_production_honest_false && probe.probe.master_retick_honest_false
        && probe.probe.op5_cleared_honest_false && probe.probe.production_honest_false
        && probe.probe.wire_hop_wired_count == 5 && !probe.migration_complete_measured
}

/// One rendered line of the SEC-S7 open residual fence table.
pub open spec fn residual_row_text() -> spec_fn(SecS7OpenResidualFence) -> Seq<char> {
    |fence: SecS7OpenResidualFence| "  "@ + fence.residue_id@ + " hop="@ + decimal(fence.hop_ordinal as nat) + " honest_open="@ + bool_text(fence.honest_open) + " green_credit_blocked="@ + bool_text(fence.green_credit_blocked) + " delegate="@ + fence.delegate_ssot@ + "\n"@
}

/// A closing line of the SEC-S7 open residual fence table.
pub open spec fn residual_table_tail() -> Seq<char> {
    "  open_residual_hop_count="@ + decimal(OPEN_RESIDUAL_HOP_COUNT as nat) + " fences_verified="@ + bool_text(true) + " production_wired="@ + bool_text(false) + " master_retick="@ + bool_text(false) + " op5_cleared="@ + bool_text(false) + " honest_fence="@ + HONEST_FENCE@ + "\n"@
}

/// The SEC-S7 open residual fence table, as rendered for operator receipts.
pub open spec fn residual_table_spec() -> Seq<char> {
    "SEC-S7 open residual fences (W29-126):\n"@ + open_residual_fences_spec().map_values(residual_row_text()).flatten() + residual_table_tail()
}

/// Render the SEC-S7 open residual fence table for operator receipts.
pub fn sec_s7_open_residual_fence_table() -> (r: String)
    ensures
        r@ == residual_table_spec(),
{
    let items = open_residual_fences();
    let mut out = String::new();
    push_str(&mut out, "SEC-S7 open residual fences (W29-126):\n");
    let ghost header = out@;
    let mut i: usize = 0;
    while i < items.len()
        invariant
            i <= items.len(),
            items@ == open_residual_fences_spec(),
            out@ == header + items@.take(i as int).map_values(residual_row_text()).flatten(),
        decreases items.len() - i,
    {
        proof {
            lemma_flatten_step(items@, residual_row_text(), i as int);
        }
        let fence = items[i];
        push_str(&mut out, "  ");
        push_str(&mut out, fence.residue_id);
        push_str(&mut out, " hop=");
        push_decimal(&mut out, fence.hop_ordinal as u64);
        push_str(&mut out, " honest_open=");
        push_bool(&mut out, fence.honest_open);
        push_str(&mut out, " green_credit_blocked=");
        push_bool(&mut out, fence.green_credit_blocked);
        push_str(&mut out, " delegate=");
        push_str(&mut out, fence.delegate_ssot);
        push_str(&mut out, "\n");
        assert(out@ == header + items@.take(i + 1).map_values(residual_row_text()).flatten());
        i = i + 1;
    }
    proof {
        lemma_take_all(items@);
    }
    push_str(&mut out, "  open_residual_hop_count=");
    push_decimal(&mut out, OPEN_RESIDUAL_HOP_COUNT as u64);
    push_str(&mut out, " fences_verified=");
    push_bool(&mut out, manifold_s7_open_residual_fences_verified());
    push_str(&mut out, " production_wired=");
    push_bool(&mut out, sec_s7_production_wired());
    push_str(&mut out, " master_retick=");
    push_bool(&mut out, sec_s7_master_retick_eligible());
    push_str(&mut out, " op5_cleared=");
    push_bool(&mut out, sec_s7_op5_cleared());
    push_str(&mut out, " honest_fence=");
    push_str(&mut out, HONEST_FENCE);
    push_str(&mut out, "\n");
    assert(out@ =~= residual_table_spec());
    out
}

/// The rendered residual fence table names both residues and reports the fence verification.
pub proof fn lemma_residual_table_markers()
    ensures
        seq_contains(residual_table_spec(), "R-gateway-boundary"@),
        seq_contains(residual_table_spec(), "R-s-fed-trust-production"@),
        seq_contains(residual_table_spec(), "fences_verified="@),
{
    reveal_strlit("\n");
    reveal_strlit("  ");
    reveal_strlit("  open_residual_hop_count=");
    reveal_strlit(" delegate=");
    reveal_strlit(" fences_verified=");
    reveal_strlit(" green_credit_blocked=");
    reveal_strlit(" honest_fence=");
    reveal_strlit(" honest_open=");
    reveal_strlit(" hop=");
    reveal_strlit(" master_retick=");
    reveal_strlit(" op5_cleared=");
    reveal_strlit(" production_wired=");
    reveal_strlit("R-gateway-boundary");
    reveal_strlit("R-s-fed-trust-production");
    reveal_strlit("census_wired=true production_wired=false green_claim_blocked=true master_retick=false op5_cleared=false s_fed_trust_production_wired=false");
    reveal_strlit("fences_verified=");
    reveal_strlit("umst-foundations/crates/umst-trust/src/sec_s_arc_federation_census.rs");
    reveal_strlit("umst-gateway/crates/umst-gateway/src/sec_s7_boundary.rs");
    assert(decimal(2) =~= seq!['2']);
    assert(decimal(6) =~= seq!['6']);
    assert(decimal(7) =~= seq!['7']);
    assert(open_residual_fences_spec().map_values(residual_row_text())[0].subrange(2, 20) =~= "R-gateway-boundary"@);
    assert(matches_at(open_residual_fences_spec().map_values(residual_row_text())[0], "R-gateway-boundary"@, 2));
    lemma_contains_entry(open_residual_fences_spec().map_values(residual_row_text()), 0, "R-gateway-boundary"@);
    assert(residual_table_spec() =~= "SEC-S7 open residual fences (W29-126):\n"@ + open_residual_fences_spec().map_values(residual_row_text()).flatten() + (residual_table_tail()));
    lemma_contains_extend("SEC-S7 open residual fences (W29-126):\n"@, open_residual_fences_spec().map_values(residual_row_text()).flatten(), residual_table_tail(), "R-gateway-boundary"@);
    assert(open_residual_fences_spec().map_values(residual_row_text())[1].subrange(2, 26) =~= "R-s-fed-trust-production"@);
    assert(matches_at(open_residual_fences_spec().map_values(residual_row_text())[1], "R-s-fed-trust-production"@, 2));
    lemma_contains_entry(open_residual_fences_spec().map_values(residual_row_text()), 1, "R-s-fed-trust-production"@);
    assert(residual_table_spec() =~= "SEC-S7 open residual fences (W29-126):\n"@ + open_residual_fences_spec().map_values(residual_row_text()).flatten() + (residual_table_tail()));
    lemma_contains_extend("SEC-S7 open residual fences (W29-126):\n"@, open_residual_fences_spec().map_values(residual_row_text()).flatten(), residual_table_tail(), "R-s-fed-trust-production"@);
    assert(residual_table_tail().subrange(28, 44) =~= "fences_verified="@);
    assert(matches_at(residual_table_tail(), "fences_verified="@, 28));
    assert(residual_table_spec() =~= ("SEC-S7 open residual fences (W29-126):\n"@ + open_residual_fences_spec().map_values(residual_row_text()).flatten()) + residual_table_tail() + (Seq::<char>::empty()));
    lemma_contains_extend("SEC-S7 open residual fences (W29-126):\n"@ + open_residual_fences_spec().map_values(residual_row_text()).flatten(), residual_table_tail(), Seq::<char>::empty(), "fences_verified="@);
}

/// W29-126 deepen probe — open-residual fence and fed-trust honesty.
#[derive(Debug, Clone, Copy, PartialEq, Eq)]
pub struct SecS7W29DeepenProbe {
    /// W29 cell id.
    pub w29_cell_id: &'static str,
    /// Schema version pin.
    pub schema_version: &'static str,
    /// Honest fence string.
    pub honest_fence: &'static str,
    /// Explicit non-claim text.
    pub non_claim: &'static str,
    /// Open residual fence count.
    pub open_residual_hop_count: usize,
    /// Open residual fences verified.
    pub open_residual_fences_verified: bool,
    /// Open residual table residue pinned.
    pub open_residual_table_residue_pinned: bool,
    /// J2 honesty.
    pub j2_honest: bool,
    /// AC08 honesty.
    pub ac08_honest: bool,
    /// Ceremony closed.
    pub ceremony_closed: bool,
    /// Production wired — honest false.
    pub production_wired: bool,
    /// S-fed-trust production — honest false.
    pub s_fed_trust_production_wired: bool,
    /// MASTER retick — honest false.
    pub master_retick_eligible: bool,
    /// OP-5 clearance — honest false.
    pub op5_cleared: bool,
    /// GREEN claim blocked — honest true.
    pub s7_green_claim_blocked: bool,
}

/// Build the W29-126 deepen probe from live measurements.
pub fn sec_s7_w29_deepen_probe(gate_evidence_wired: bool) -> (r: SecS7W29DeepenProbe)
    ensures
        r.w29_cell_id == W29_CELL_ID,
        r.schema_version == SCHEMA_VERSION,
        r.honest_fence == HONEST_FENCE,
        r.non_claim == W29_NON_CLAIM,
        r.open_residual_hop_count == OPEN_RESIDUAL_HOP_COUNT,
        r.open_residual_fences_verified,
        r.open_residual_table_residue_pinned,
        r.j2_honest == gate_evidence_wired,
        r.ac08_honest == gate_evidence_wired,
        r.ceremony_closed == gate_evidence_wired,
        !r.production_wired,
        !r.s_fed_trust_production_wired,
        !r.master_retick_eligible,
        !r.op5_cleared,
        r.s7_green_claim_blocked,
{
    let residual_table = sec_s7_open_residual_fence_table();
    proof {
        lemma_residual_table_markers();
    }
    SecS7W29DeepenProbe {
        w29_cell_id: W29_CELL_ID,
        schema_version: SCHEMA_VERSION,
        honest_fence: HONEST_FENCE,
        non_claim: W29_NON_CLAIM,
        open_residual_hop_count: OPEN_RESIDUAL_HOP_COUNT,
        open_residual_fences_verified: manifold_s7_open_residual_fences_verified(),
        open_residual_table_residue_pinned: string_contains(&residual_table, "R-gateway-boundary")
            && string_contains(&residual_table, "R-s-fed-trust-production") && string_contains(
            &residual_table,
            "fences_verified=",
        ),
        j2_honest: sec_s7_p1931_j2_honest(gate_evidence_wired),
        ac08_honest: sec_s7_accel_ac08_honest(gate_evidence_wired),
        ceremony_closed: manifold_gate_sec_s7_ceremony_closed(gate_evidence_wired),
        production_wired: sec_s7_production_wired(),
        s_fed_trust_production_wired: S_FED_TRUST_PRODUCTION_WIRED_HONEST,
        master_retick_eligible: sec_s7_master_retick_eligible(),
        op5_cleared: sec_s7_op5_cleared(),
        s7_green_claim_blocked: S7_GREEN_CLAIM_BLOCKED,
    }
}

/// W29-126 deepen honesty — open residuals pinned, no invented GREEN/PRODUCTION/MASTER/OP-5;
/// honest exactly when the cold-edge evidence admits.
pub fn sec_s7_w29_deepen_honest(gate_evidence_wired: bool) -> (r: bool)
    ensures
        r == gate_evidence_wired,
{
    let probe = sec_s7_w29_deepen_probe(gate_evidence_wired);
    proof {
        lemma_fence_texts();
    }
    str_eq(probe.w29_cell_id, W29_CELL_ID) && str_eq(probe.schema_version, SCHEMA_VERSION)
        && str_contains(probe.schema_version, "_v3")
        && str_contains(probe.honest_fence, "production_wired=false")
        && str_contains(probe.honest_fence, "green_claim_blocked=true")
        && str_contains(probe.honest_fence, "master_retick=false")
        && str_contains(probe.honest_fence, "op5_cleared=false")
        && str_contains(probe.non_claim, "not GREEN")
        && str_contains(probe.non_claim, "not PRODUCTION_WIRED")
        && str_contains(probe.non_claim, "not MASTER_RETICK")
        && str_contains(probe.non_claim, "not OP-5 PASS") && probe.open_residual_hop_count == 2
        && probe.open_residual_fences_verified && probe.open_residual_table_residue_pinned
        && probe.j2_honest && probe.ac08_honest && probe.ceremony_closed && !probe.production_wired
        && !probe.s_fed_trust_production_wired && !probe.master_retick_eligible && !probe.op5_cleared
        && probe.s7_green_claim_blocked
}

/// Validate SEC-S7 gate census honesty, failing closed on fake migration-complete or GREEN
/// claims: it passes exactly when the cold-edge evidence admits, and otherwise refuses with
/// the evidence error.
pub fn validate_sec_s7_gate_honesty(gate_evidence_wired: bool) -> (r: Result<(), &'static str>)
    ensures
        gate_evidence_wired ==> r == Ok::<(), &'static str>(()),
        !gate_evidence_wired ==> r == Err::<(), &'static str>("gate transition evidence probe failed"),
{
    let census = gate_fed_trust_migration_census(gate_evidence_wired);
    if !str_eq(census.schema_version, SCHEMA_VERSION) {
        return Err("schema_version must match W29 v3 census pin");
    }
    if !str_eq(census.w29_cell_id, W29_CELL_ID) {
        return Err("w29_cell_id must stay W29-126-SEC_S7");
    }
    if census.migration_complete {
        return Err("migration_complete must stay false until S-7 GREEN");
    }
    if migration_complete_measured() {
        return Err("migration_complete_measured must stay false until operator GREEN");
    }
    if !census.s7_green_claim_blocked {
        return Err("s7_green_claim_blocked must stay true in scaffold");
    }
    if !census.s_fed_trust_partial {
        return Err("s_fed_trust_partial must stay true in scaffold deepen");
    }
    if census.s_fed_trust_production_wired {
        return Err("s_fed_trust_production_wired must stay false until measured live");
    }
    if census.master_retick_eligible {
        return Err("master_retick_eligible must stay false at census deepen");
    }
    if census.op5_cleared {
        return Err("op5_cleared must stay false at census deepen");
    }
    if census.production_wired {
        return Err("sec_s7_production_wired must stay false until SEC-S7-BOUNDARY-GW");
    }
    if !census.gate_evidence_wired {
        return Err("gate transition evidence probe failed");
    }
    if census.inventory_row_count != 12 {
        return Err("AGAP-2033 inventory must remain 12 rows");
    }
    if census.migrate_queue_depth < 4 {
        return Err("AGAP-2127 drain must leave >=4 rows at Migrate");
    }
    if !census.migrate_queue_ge_5 {
        return Err("SWARM absorb requires migrate queue >=5");
    }
    if census.open_residual_hop_count != 2 {
        return Err("open residual hop count must remain 2");
    }
    if !census.open_residual_fences_verified {
        return Err("open residual fence pins must verify against unwired hops 6-7");
    }
    if !manifold_s7_all_migrate_surfaces_probed() {
        return Err("S-7 5/5 migrate surfaces must hit at manifold boundary");
    }
    if !manifold_s7_migrate_queue_residue_pins_verified() {
        return Err("S-7 migrate queue residue pins must verify at manifold boundary");
    }
    if !manifold_verify_migration_inventory_census() {
        return Err("manifold migration inventory census witness failed");
    }
    if manifold_sec_s7_gate_wire_hops().len() != 7 {
        return Err("seven SEC-S7 gate wire hops expected");
    }
    if census.wire_hop_wired_count != 5 {
        return Err("five SEC-S7 gate wire hops should be wired today");
    }
    if !manifold_gate_sec_s7_ceremony_closed(gate_evidence_wired) {
        return Err("manifold gate SEC-S7 ceremony must be closed at census tier");
    }
    if !sec_s7_p1931_j2_honest(gate_evidence_wired) {
        return Err("P1931 J2 probe must be honest");
    }
    if !sec_s7_accel_ac08_honest(gate_evidence_wired) {
        return Err("ACCEL AC08 migrate queue deepen probe must be honest");
    }
    if !sec_s7_w29_deepen_honest(gate_evidence_wired) {
        return Err("W29-126 deepen probe must be honest");
    }
    Ok(())
}

/// One rendered line of the SEC-S7 gate wire map.
pub open spec fn hop_row_text() -> spec_fn(SecS7GateWireHop) -> Seq<char> {
    |hop: SecS7GateWireHop| "  "@ + decimal(hop.ordinal as nat) + " wired="@ + bool_text(hop.wired) + " "@ + hop.surface@ + " ["@ + hop.role@ + "]\n"@
}

/// A closing line of the SEC-S7 gate wire map.
pub open spec fn wire_matrix_counts() -> Seq<char> {
    "  wired="@ + decimal(5 as nat) + "/"@ + decimal(7 as nat) + " inventory="@ + decimal(12 as nat) + " migrate_queue="@ + decimal(5 as nat) + " migrate_ge_4="@ + bool_text(true) + " migrate_ge_5="@ + bool_text(true) + " open_residual="@ + decimal(2 as nat) + " migration_complete="@ + bool_text(false) + " s_fed_trust_partial="@ + bool_text(true) + " s_fed_trust_production_wired="@ + bool_text(false) + " master_retick="@ + bool_text(false) + " op5_cleared="@ + bool_text(false) + " production_wired="@ + bool_text(false) + "\n"@
}

/// A closing line of the SEC-S7 gate wire map.
pub open spec fn wire_matrix_ssots() -> Seq<char> {
    "  w29_cell_id="@ + W29_CELL_ID@ + "\n  trust_ssot="@ + TRUST_SSOT@ + "\n  fed_trust_ssot="@ + FED_TRUST_SSOT@ + "\n"@
}

/// The SEC-S7 gate wire map, as rendered for operator receipts.
pub open spec fn wire_matrix_spec() -> Seq<char> {
    "SEC-S7 manifold gate fed-trust migration wire map (J2/W29-126):\n"@ + wire_hops_spec().map_values(hop_row_text()).flatten() + wire_matrix_counts() + wire_matrix_ssots()
}

/// Render the SEC-S7 gate wire map for operator receipts.
#[verifier::rlimit(60)]
pub fn sec_s7_gate_wire_matrix() -> (r: String)
    ensures
        r@ == wire_matrix_spec(),
{
    let hops_len = manifold_sec_s7_gate_wire_hops().len();
    let wired = count_wired_hops(&manifold_sec_s7_gate_wire_hops());
    proof {
        lemma_wire_hops_wired_count();
    }
    let items = manifold_sec_s7_gate_wire_hops();
    let mut out = String::new();
    push_str(&mut out, "SEC-S7 manifold gate fed-trust migration wire map (J2/W29-126):\n");
    let ghost header = out@;
    let mut i: usize = 0;
    while i < items.len()
        invariant
            i <= items.len(),
            items@ == wire_hops_spec(),
            out@ == header + items@.take(i as int).map_values(hop_row_text()).flatten(),
        decreases items.len() - i,
    {
        proof {
            lemma_flatten_step(items@, hop_row_text(), i as int);
        }
        let hop = items[i];
        push_str(&mut out, "  ");
        push_decimal(&mut out, hop.ordinal as u64);
        push_str(&mut out, " wired=");
        push_bool(&mut out, hop.wired);
        push_str(&mut out, " ");
        push_str(&mut out, hop.surface);
        push_str(&mut out, " [");
        push_str(&mut out, hop.role);
        push_str(&mut out, "]\n");
        assert(out@ == header + items@.take(i + 1).map_values(hop_row_text()).flatten());
        i = i + 1;
    }
    proof {
        lemma_take_all(items@);
    }
    push_str(&mut out, "  wired=");
    push_decimal(&mut out, wired as u64);
    push_str(&mut out, "/");
    push_decimal(&mut out, hops_len as u64);
    push_str(&mut out, " inventory=");
    push_decimal(&mut out, INVENTORY_ROW_COUNT as u64);
    push_str(&mut out, " migrate_queue=");
    push_decimal(&mut out, MIGRATE_QUEUE_DEPTH as u64);
    push_str(&mut out, " migrate_ge_4=");
    push_bool(&mut out, MIGRATE_QUEUE_DEPTH >= 4);
    push_str(&mut out, " migrate_ge_5=");
    push_bool(&mut out, MIGRATE_QUEUE_DEPTH >= 5);
    push_str(&mut out, " open_residual=");
    push_decimal(&mut out, OPEN_RESIDUAL_HOP_COUNT as u64);
    push_str(&mut out, " migration_complete=");
    push_bool(&mut out, migration_complete_measured());
    push_str(&mut out, " s_fed_trust_partial=");
    push_bool(&mut out, S_FED_TRUST_PARTIAL_HONEST);
    push_str(&mut out, " s_fed_trust_production_wired=");
    push_bool(&mut out, S_FED_TRUST_PRODUCTION_WIRED_HONEST);
    push_str(&mut out, " master_retick=");
    push_bool(&mut out, sec_s7_master_retick_eligible());
    push_str(&mut out, " op5_cleared=");
    push_bool(&mut out, sec_s7_op5_cleared());
    push_str(&mut out, " production_wired=");
    push_bool(&mut out, sec_s7_production_wired());
    push_str(&mut out, "\n");
    push_str(&mut out, "  w29_cell_id=");
    push_str(&mut out, W29_CELL_ID);
    push_str(&mut out, "\n  trust_ssot=");
    push_str(&mut out, TRUST_SSOT);
    push_str(&mut out, "\n  fed_trust_ssot=");
    push_str(&mut out, FED_TRUST_SSOT);
    push_str(&mut out, "\n");
    assert(out@ =~= wire_matrix_spec());
    out
}

/// Next-hop surface for gateway SEC-S7 boundary production (gateway-owned).
pub fn sec_s7_boundary_next_hop() -> (r: &'static str)
    ensures
        r@ == "umst-gateway/crates/umst-gateway/src/sec_s7_boundary.rs:R-SEC-S7-BOUNDARY-PROD"@,
{
    "umst-gateway/crates/umst-gateway/src/sec_s7_boundary.rs:R-SEC-S7-BOUNDARY-PROD"
}

} // verus!
