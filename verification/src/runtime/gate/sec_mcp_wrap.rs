//! SEC-MCP-WRAP — manifold gate runtime MCP trust wrap wire map.
//!
//! The manifold gate runtime owns the cold-edge census bridging transition evidence to the
//! SEC-MCP-WRAP typed refuse-path SSOT; the umst-mcp live matrix eval, the gateway stdio exec
//! pre-check and the MCP wrap production flip stay honestly open.
//!
//! The W29-119 deepen pins open-residual fences for hops 6 and 7 (gateway stdio exec and the
//! production ceremony) at census tier. No invented GREEN, PRODUCTION_WIRED, MASTER or OP-5.
//! Every census takes the measured outcome of the cold-edge evidence probe
//! (`gate_evidence_wired`).
use vstd::prelude::*;
use crate::text::{
    seq_contains, matches_at, str_eq, str_contains, string_contains, decimal, bool_text,
    push_str, push_bool, push_decimal, count_where, lemma_count_step, lemma_flatten_step,
    lemma_take_all, lemma_contains_entry, lemma_contains_extend,
};
use crate::runtime::gate::evidence::{TransitionEvidence, witness_admits, cold_edge_witness_admits};

verus! {

/// Board slice id.
pub const BOARD_SLICE_ID: &'static str = "SEC-MCP-WRAP";

/// AGAP slot id (2033 MCP wrap deepen).
pub const JOB_ID: &'static str = "AGAP-2033-SEC-MCP-WRAP";

/// AGAP-2350 deepen card id.
pub const DEEPEN_JOB_ID: &'static str = "AGAP-2350-SEC-MCP-WRAP";

/// W29 continuous worklist cell id.
pub const W29_CELL_ID: &'static str = "W29-119-SEC_MCP_WRAP";

/// FLEET-COMPOSER-Z Z86 card id (umst-mcp owner absorb).
pub const FLEET_Z86_JOB_ID: &'static str = "FLEET-COMPOSER-Z86-SEC-MCP-WRAP";

/// FLEET-COMPOSER ACCEL-B slot AC34 id (manifold fence deepen).
pub const ACCEL_B_2050_AC34_JOB_ID: &'static str = "ACCEL-B-2050-AC34";

/// FLEET-COMPOSER ACCEL-B AC34 receipt path.
pub const ACCEL_AC34_RECEIPT_PATH: &'static str = "outputs/.tmp/COMPOSER_ACCEL2_AC34.md";

/// FLEET-COMPOSER-Z Z86 receipt cross-ref (umst-mcp owner — absorb, do not redo).
pub const PRIOR_Z86_RECEIPT_PATH: &'static str = "outputs/.tmp/COMPOSER_Z86_1232.md";

/// FLEET-COMPOSER-Y Y52 receipt cross-ref (gateway refuse matrix — absorb).
pub const PRIOR_Y52_RECEIPT_PATH: &'static str = "outputs/.tmp/COMPOSER_Y52_0808.md";

/// FLEET-COMPOSER-Y Y51 receipt cross-ref (SEC-GW-AUDIT adjacent).
pub const PRIOR_Y51_RECEIPT_PATH: &'static str = "outputs/.tmp/COMPOSER_Y51_0808.md";

/// umst-mcp SEC-MCP-WRAP delegate SSOT (live matrix eval owner).
pub const MCP_SSOT: &'static str = "umst-concrete-cartridge/crates/umst-mcp/src/sec_mcp_wrap.rs";

/// umst-mcp HCOM-029 trust gate delegate SSOT.
pub const MCP_TRUST_GATE_SSOT: &'static str = "umst-concrete-cartridge/crates/umst-mcp/src/mcp_trust_gate.rs";

/// Gateway stdio exec trust pre-check owner (honest open residue).
pub const GATEWAY_SSOT: &'static str = "umst-gateway/crates/umst-gateway/src/sec_mcp_wrap.rs";

/// Gateway stdio exec trust pre-check symbol pin.
pub const GATEWAY_STDIO_EXEC_OWNER: &'static str =
    "umst-gateway/crates/umst-gateway/src/sec_mcp_wrap.rs::mcp_stdio_exec_trust_pre_check_wired";

/// Honest adoption tier.
pub const POSTURE_TAG: &'static str = "manifold-gate-census-wired-not-production";

/// Census schema version (v2 = W29 open-residual fence deepen).
pub const SCHEMA_VERSION: &'static str = "sec_mcp_wrap_gate_census_v2";

/// Typed refuse-path matrix row count (umst-mcp HCOM-029 quartet + Z86 deepen).
pub const REFUSE_PATH_MATRIX_ROW_COUNT: usize = 6;

/// Honest open residual hop count (gateway stdio exec + production ceremony).
pub const OPEN_RESIDUAL_HOP_COUNT: usize = 2;

/// MCP wrap GREEN claim blocked — honest true in scaffold deepen.
pub const MCP_WRAP_GREEN_CLAIM_BLOCKED: bool = true;

/// MASTER / OP-5 retick eligibility — honest false (census deepen only).
pub const MASTER_RETICK_ELIGIBLE: bool = false;

/// One typed refuse-path row pinned at the manifold boundary (cross-ref to the umst-mcp matrix).
#[derive(Debug, Clone, Copy, PartialEq, Eq)]
pub struct ManifoldMcpWrapRefusePathRow {
    /// Row id (R1..R6).
    pub row_id: &'static str,
    /// Semantic agent MCP tool name.
    pub tool_name: &'static str,
    /// `trust.scope` wire value.
    pub scope: &'static str,
    /// Whether trust is revoked.
    pub revoked: bool,
    /// Expected admit (Ok) at the umst-mcp boundary.
    pub expect_admit: bool,
    /// Owning delegate surface.
    pub delegate_ssot: &'static str,
}

/// Typed refuse-path matrix pinned from the umst-mcp refuse matrix (Z86 absorb).
pub open spec fn refuse_matrix_spec() -> Seq<ManifoldMcpWrapRefusePathRow> {
    seq![
        ManifoldMcpWrapRefusePathRow { row_id: "R1", tool_name: "propose_communicative_act", scope: "ephemeral", revoked: false, expect_admit: false, delegate_ssot: MCP_TRUST_GATE_SSOT },
        ManifoldMcpWrapRefusePathRow { row_id: "R2", tool_name: "propose_communicative_act", scope: "device", revoked: false, expect_admit: true, delegate_ssot: MCP_TRUST_GATE_SSOT },
        ManifoldMcpWrapRefusePathRow { row_id: "R3", tool_name: "refine_shape", scope: "ephemeral", revoked: false, expect_admit: false, delegate_ssot: MCP_TRUST_GATE_SSOT },
        ManifoldMcpWrapRefusePathRow { row_id: "R4", tool_name: "refine_shape", scope: "device", revoked: false, expect_admit: true, delegate_ssot: MCP_TRUST_GATE_SSOT },
        ManifoldMcpWrapRefusePathRow { row_id: "R5", tool_name: "map_to_geometry", scope: "ephemeral", revoked: false, expect_admit: true, delegate_ssot: MCP_TRUST_GATE_SSOT },
        ManifoldMcpWrapRefusePathRow { row_id: "R6", tool_name: "map_to_geometry", scope: "device", revoked: true, expect_admit: false, delegate_ssot: MCP_TRUST_GATE_SSOT },
    ]
}

/// Typed refuse-path matrix pinned from the umst-mcp refuse matrix (Z86 absorb).
pub fn refuse_path_matrix() -> (r: Vec<ManifoldMcpWrapRefusePathRow>)
    ensures
        r@ == refuse_matrix_spec(),
{
    let r = vec![
        ManifoldMcpWrapRefusePathRow { row_id: "R1", tool_name: "propose_communicative_act", scope: "ephemeral", revoked: false, expect_admit: false, delegate_ssot: MCP_TRUST_GATE_SSOT },
        ManifoldMcpWrapRefusePathRow { row_id: "R2", tool_name: "propose_communicative_act", scope: "device", revoked: false, expect_admit: true, delegate_ssot: MCP_TRUST_GATE_SSOT },
        ManifoldMcpWrapRefusePathRow { row_id: "R3", tool_name: "refine_shape", scope: "ephemeral", revoked: false, expect_admit: false, delegate_ssot: MCP_TRUST_GATE_SSOT },
        ManifoldMcpWrapRefusePathRow { row_id: "R4", tool_name: "refine_shape", scope: "device", revoked: false, expect_admit: true, delegate_ssot: MCP_TRUST_GATE_SSOT },
        ManifoldMcpWrapRefusePathRow { row_id: "R5", tool_name: "map_to_geometry", scope: "ephemeral", revoked: false, expect_admit: true, delegate_ssot: MCP_TRUST_GATE_SSOT },
        ManifoldMcpWrapRefusePathRow { row_id: "R6", tool_name: "map_to_geometry", scope: "device", revoked: true, expect_admit: false, delegate_ssot: MCP_TRUST_GATE_SSOT },
    ];
    assert(r@ =~= refuse_matrix_spec());
    r
}

/// One hop in the manifold SEC-MCP-WRAP gate runtime wire map.
#[derive(Debug, Clone, Copy, PartialEq, Eq)]
pub struct SecMcpWrapGateWireHop {
    /// Ordinal (1-based).
    pub ordinal: u8,
    /// Module or symbol surface.
    pub surface: &'static str,
    /// Role in the admit chain.
    pub role: &'static str,
    /// Whether this hop is wired today.
    pub wired: bool,
}

/// Manifold SEC-MCP-WRAP gate runtime wire map (cold-edge evidence to MCP wrap census).
pub open spec fn wire_hops_spec() -> Seq<SecMcpWrapGateWireHop> {
    seq![
        SecMcpWrapGateWireHop { ordinal: 1, surface: "umst-manifold::runtime::gate::evidence::AdmissibilityToken", role: "Gate admit witness token on cold edge", wired: true },
        SecMcpWrapGateWireHop { ordinal: 2, surface: "umst-manifold::runtime::gate::cartridge::GateCartridge::transition_evidence", role: "CdTransitionCartridge structured witness", wired: true },
        SecMcpWrapGateWireHop { ordinal: 3, surface: "umst-manifold::runtime::gate::sec_mcp_wrap::gate_mcp_wrap_census", role: "Manifold gate SEC-MCP-WRAP census", wired: true },
        SecMcpWrapGateWireHop { ordinal: 4, surface: "umst-mcp::sec_mcp_wrap::sec_mcp_wrap_refuse_path_matrix_honest", role: "umst-mcp typed refuse matrix live eval (Z86 owner)", wired: true },
        SecMcpWrapGateWireHop { ordinal: 5, surface: "umst-mcp::mcp_trust_gate::check_semantic_agent_trust", role: "HCOM-029 semantic agent trust delegate", wired: true },
        SecMcpWrapGateWireHop { ordinal: 6, surface: "umst-gateway::sec_mcp_wrap::mcp_stdio_exec_trust_pre_check_wired", role: "Gateway stdio exec trust pre-check (serial Wave D)", wired: false },
        SecMcpWrapGateWireHop { ordinal: 7, surface: "umst-mcp::sec_mcp_wrap::sec_mcp_wrap_production_wired", role: "MCP wrap production ceremony (operator trust-chain env)", wired: false },
    ]
}

/// Manifold SEC-MCP-WRAP gate runtime wire map (cold-edge evidence to MCP wrap census).
pub fn manifold_sec_mcp_wrap_gate_wire_hops() -> (r: Vec<SecMcpWrapGateWireHop>)
    ensures
        r@ == wire_hops_spec(),
{
    let r = vec![
        SecMcpWrapGateWireHop { ordinal: 1, surface: "umst-manifold::runtime::gate::evidence::AdmissibilityToken", role: "Gate admit witness token on cold edge", wired: true },
        SecMcpWrapGateWireHop { ordinal: 2, surface: "umst-manifold::runtime::gate::cartridge::GateCartridge::transition_evidence", role: "CdTransitionCartridge structured witness", wired: true },
        SecMcpWrapGateWireHop { ordinal: 3, surface: "umst-manifold::runtime::gate::sec_mcp_wrap::gate_mcp_wrap_census", role: "Manifold gate SEC-MCP-WRAP census", wired: true },
        SecMcpWrapGateWireHop { ordinal: 4, surface: "umst-mcp::sec_mcp_wrap::sec_mcp_wrap_refuse_path_matrix_honest", role: "umst-mcp typed refuse matrix live eval (Z86 owner)", wired: true },
        SecMcpWrapGateWireHop { ordinal: 5, surface: "umst-mcp::mcp_trust_gate::check_semantic_agent_trust", role: "HCOM-029 semantic agent trust delegate", wired: true },
        SecMcpWrapGateWireHop { ordinal: 6, surface: "umst-gateway::sec_mcp_wrap::mcp_stdio_exec_trust_pre_check_wired", role: "Gateway stdio exec trust pre-check (serial Wave D)", wired: false },
        SecMcpWrapGateWireHop { ordinal: 7, surface: "umst-mcp::sec_mcp_wrap::sec_mcp_wrap_production_wired", role: "MCP wrap production ceremony (operator trust-chain env)", wired: false },
    ];
    assert(r@ =~= wire_hops_spec());
    r
}

/// One honest-open residual fence pin (gateway stdio / production — not wired today).
#[derive(Debug, Clone, Copy, PartialEq, Eq)]
pub struct SecMcpWrapOpenResidualFence {
    /// Residual id (`R-gateway-stdio-exec` / `R-mcp-wrap-production`).
    pub residue_id: &'static str,
    /// Wire hop ordinal on the manifold map.
    pub hop_ordinal: u8,
    /// Delegate SSOT path.
    pub delegate_ssot: &'static str,
    /// Whether the hop remains honest-open (`wired=false`).
    pub honest_open: bool,
    /// Whether GREEN credit is blocked for this residual.
    pub green_credit_blocked: bool,
}

/// Open residual fence pins — hops 6 and 7 measured open at the W29-119 deepen.
pub open spec fn open_residual_fences_spec() -> Seq<SecMcpWrapOpenResidualFence> {
    seq![
        SecMcpWrapOpenResidualFence { residue_id: "R-gateway-stdio-exec", hop_ordinal: 6, delegate_ssot: GATEWAY_SSOT, honest_open: true, green_credit_blocked: true },
        SecMcpWrapOpenResidualFence { residue_id: "R-mcp-wrap-production", hop_ordinal: 7, delegate_ssot: MCP_SSOT, honest_open: true, green_credit_blocked: true },
    ]
}

/// Open residual fence pins — hops 6 and 7 measured open at the W29-119 deepen.
pub fn open_residual_fences() -> (r: Vec<SecMcpWrapOpenResidualFence>)
    ensures
        r@ == open_residual_fences_spec(),
{
    let r = vec![
        SecMcpWrapOpenResidualFence { residue_id: "R-gateway-stdio-exec", hop_ordinal: 6, delegate_ssot: GATEWAY_SSOT, honest_open: true, green_credit_blocked: true },
        SecMcpWrapOpenResidualFence { residue_id: "R-mcp-wrap-production", hop_ordinal: 7, delegate_ssot: MCP_SSOT, honest_open: true, green_credit_blocked: true },
    ];
    assert(r@ =~= open_residual_fences_spec());
    r
}

/// Selects the wired hops of a wire map.
pub open spec fn hop_is_wired() -> spec_fn(SecMcpWrapGateWireHop) -> bool {
    |h: SecMcpWrapGateWireHop| h.wired
}

/// Selects the unwired hops of a wire map.
pub open spec fn hop_is_open() -> spec_fn(SecMcpWrapGateWireHop) -> bool {
    |h: SecMcpWrapGateWireHop| !h.wired
}

/// Five of the seven gate wire hops are wired today.
pub proof fn lemma_wire_hops_wired_count()
    ensures
        count_where(wire_hops_spec(), hop_is_wired()) == 5,
{
    let s = wire_hops_spec();
    let p = hop_is_wired();
    assert(s.take(0) =~= Seq::<SecMcpWrapGateWireHop>::empty());
    lemma_count_step(s, p, 0);
    lemma_count_step(s, p, 1);
    lemma_count_step(s, p, 2);
    lemma_count_step(s, p, 3);
    lemma_count_step(s, p, 4);
    lemma_count_step(s, p, 5);
    lemma_count_step(s, p, 6);
    lemma_take_all(s);
}

/// Two of the seven gate wire hops stay open.
pub proof fn lemma_wire_hops_open_count()
    ensures
        count_where(wire_hops_spec(), hop_is_open()) == 2,
{
    let s = wire_hops_spec();
    let p = hop_is_open();
    assert(s.take(0) =~= Seq::<SecMcpWrapGateWireHop>::empty());
    lemma_count_step(s, p, 0);
    lemma_count_step(s, p, 1);
    lemma_count_step(s, p, 2);
    lemma_count_step(s, p, 3);
    lemma_count_step(s, p, 4);
    lemma_count_step(s, p, 5);
    lemma_count_step(s, p, 6);
    lemma_take_all(s);
}

/// Count the wired hops of a wire map.
pub fn count_wired_hops(items: &Vec<SecMcpWrapGateWireHop>) -> (r: usize)
    ensures
        r == count_where(items@, hop_is_wired()),
{
    let mut n: usize = 0;
    let mut i: usize = 0;
    while i < items.len()
        invariant
            i <= items.len(),
            n == count_where(items@.take(i as int), hop_is_wired()),
            n <= i,
        decreases items.len() - i,
    {
        proof {
            lemma_count_step(items@, hop_is_wired(), i as int);
        }
        if items[i].wired {
            n = n + 1;
        }
        i = i + 1;
    }
    proof {
        lemma_take_all(items@);
    }
    n
}

/// Count the open (unwired) hops of a wire map.
pub fn count_open_hops(items: &Vec<SecMcpWrapGateWireHop>) -> (r: usize)
    ensures
        r == count_where(items@, hop_is_open()),
{
    let mut n: usize = 0;
    let mut i: usize = 0;
    while i < items.len()
        invariant
            i <= items.len(),
            n == count_where(items@.take(i as int), hop_is_open()),
            n <= i,
        decreases items.len() - i,
    {
        proof {
            lemma_count_step(items@, hop_is_open(), i as int);
        }
        if !items[i].wired {
            n = n + 1;
        }
        i = i + 1;
    }
    proof {
        lemma_take_all(items@);
    }
    n
}

/// The pinned SSOT and receipt paths carry the markers the census checks for.
pub proof fn lemma_ssot_pins()
    ensures
        seq_contains(PRIOR_Z86_RECEIPT_PATH@, "COMPOSER_Z86_1232"@),
        seq_contains(PRIOR_Y52_RECEIPT_PATH@, "COMPOSER_Y52_0808"@),
        seq_contains(MCP_TRUST_GATE_SSOT@, "mcp_trust_gate"@),
        seq_contains(GATEWAY_SSOT@, "sec_mcp_wrap"@),
        seq_contains(MCP_SSOT@, "sec_mcp_wrap"@),
        seq_contains(SCHEMA_VERSION@, "_v2"@),
{
    reveal_strlit("outputs/.tmp/COMPOSER_Z86_1232.md");
    reveal_strlit("COMPOSER_Z86_1232");
    reveal_strlit("outputs/.tmp/COMPOSER_Y52_0808.md");
    reveal_strlit("COMPOSER_Y52_0808");
    reveal_strlit("umst-concrete-cartridge/crates/umst-mcp/src/mcp_trust_gate.rs");
    reveal_strlit("mcp_trust_gate");
    reveal_strlit("umst-gateway/crates/umst-gateway/src/sec_mcp_wrap.rs");
    reveal_strlit("sec_mcp_wrap");
    reveal_strlit("umst-concrete-cartridge/crates/umst-mcp/src/sec_mcp_wrap.rs");
    reveal_strlit("sec_mcp_wrap_gate_census_v2");
    reveal_strlit("_v2");
    assert(PRIOR_Z86_RECEIPT_PATH@.subrange(13, 30) =~= "COMPOSER_Z86_1232"@);
    assert(matches_at(PRIOR_Z86_RECEIPT_PATH@, "COMPOSER_Z86_1232"@, 13));
    assert(PRIOR_Y52_RECEIPT_PATH@.subrange(13, 30) =~= "COMPOSER_Y52_0808"@);
    assert(matches_at(PRIOR_Y52_RECEIPT_PATH@, "COMPOSER_Y52_0808"@, 13));
    assert(MCP_TRUST_GATE_SSOT@.subrange(44, 58) =~= "mcp_trust_gate"@);
    assert(matches_at(MCP_TRUST_GATE_SSOT@, "mcp_trust_gate"@, 44));
    assert(GATEWAY_SSOT@.subrange(37, 49) =~= "sec_mcp_wrap"@);
    assert(matches_at(GATEWAY_SSOT@, "sec_mcp_wrap"@, 37));
    assert(MCP_SSOT@.subrange(44, 56) =~= "sec_mcp_wrap"@);
    assert(matches_at(MCP_SSOT@, "sec_mcp_wrap"@, 44));
    assert(SCHEMA_VERSION@.subrange(24, 27) =~= "_v2"@);
    assert(matches_at(SCHEMA_VERSION@, "_v2"@, 24));
}

/// Refuse-path row ids, in matrix order.
pub open spec fn refuse_row_ids_spec() -> Seq<&'static str> {
    seq!["R1", "R2", "R3", "R4", "R5", "R6"]
}

/// Refuse-path row `k` carries the expected row id, a tool name, and the trust-gate delegate.
pub open spec fn refuse_row_pinned(k: int) -> bool {
    &&& refuse_matrix_spec()[k].row_id == refuse_row_ids_spec()[k]
    &&& refuse_matrix_spec()[k].tool_name@.len() > 0
    &&& seq_contains(refuse_matrix_spec()[k].delegate_ssot@, "mcp_trust_gate"@)
}

/// Every refuse-path row is pinned.
pub proof fn lemma_refuse_rows_pinned()
    ensures
        forall|k: int| 0 <= k < 6 ==> #[trigger] refuse_row_pinned(k),
{
    let s = refuse_matrix_spec();
    lemma_ssot_pins();
    reveal_strlit("propose_communicative_act");
    reveal_strlit("refine_shape");
    reveal_strlit("map_to_geometry");
    assert(refuse_row_pinned(0));
    assert(refuse_row_pinned(1));
    assert(refuse_row_pinned(2));
    assert(refuse_row_pinned(3));
    assert(refuse_row_pinned(4));
    assert(refuse_row_pinned(5));
    assert forall|k: int| 0 <= k < 6 implies #[trigger] refuse_row_pinned(k) by {
        if k == 0 {} else if k == 1 {} else if k == 2 {} else if k == 3 {} else if k == 4 {} else {}
    }
}

/// Whether some refuse-path row carries `id` with the expected admit outcome (and, when
/// `revoked_only`, a revoked trust).
fn refuse_row_with(rows: &Vec<ManifoldMcpWrapRefusePathRow>, id: &str, admits: bool, revoked_only: bool) -> (r: bool)
    ensures
        r == exists|i: int| 0 <= i < rows@.len() && #[trigger] rows@[i].row_id@ == id@ && rows@[i].expect_admit == admits
            && (revoked_only ==> rows@[i].revoked),
{
    let mut i: usize = 0;
    while i < rows.len()
        invariant
            i <= rows.len(),
            forall|k: int| 0 <= k < i ==> !(#[trigger] rows@[k].row_id@ == id@ && rows@[k].expect_admit == admits
                && (revoked_only ==> rows@[k].revoked)),
        decreases rows.len() - i,
    {
        if str_eq(rows[i].row_id, id) && rows[i].expect_admit == admits && (!revoked_only || rows[i].revoked) {
            return true;
        }
        i = i + 1;
    }
    false
}

/// Whether all six typed refuse-path rows are pinned at the manifold boundary.
pub fn manifold_mcp_wrap_refuse_path_matrix_pins_verified() -> (r: bool)
    ensures
        r,
{
    let rows = refuse_path_matrix();
    let ids: Vec<&'static str> = vec!["R1", "R2", "R3", "R4", "R5", "R6"];
    assert(ids@ =~= refuse_row_ids_spec());
    proof {
        lemma_refuse_rows_pinned();
    }
    let mut ok = true;
    let mut i: usize = 0;
    while i < rows.len()
        invariant
            rows@ == refuse_matrix_spec(),
            ids@ == refuse_row_ids_spec(),
            i <= rows.len(),
            ok,
            forall|k: int| 0 <= k < 6 ==> #[trigger] refuse_row_pinned(k),
        decreases rows.len() - i,
    {
        assert(refuse_row_pinned(i as int));
        ok = ok && str_eq(rows[i].row_id, ids[i]) && !rows[i].tool_name.is_empty() && str_contains(
            rows[i].delegate_ssot,
            "mcp_trust_gate",
        );
        i = i + 1;
    }
    let r1 = refuse_row_with(&rows, "R1", false, false);
    let r2 = refuse_row_with(&rows, "R2", true, false);
    let r6 = refuse_row_with(&rows, "R6", false, true);
    assert(rows@[0].row_id@ == "R1"@ && rows@[0].expect_admit == false);
    assert(rows@[1].row_id@ == "R2"@ && rows@[1].expect_admit == true);
    assert(rows@[5].row_id@ == "R6"@ && rows@[5].expect_admit == false && rows@[5].revoked);
    rows.len() == REFUSE_PATH_MATRIX_ROW_COUNT && ok && r1 && r2 && r6
}

/// Whether some hop of a wire map sits at `ordinal` and is open.
fn open_hop_at(hops: &Vec<SecMcpWrapGateWireHop>, ordinal: u8) -> (r: bool)
    ensures
        r == exists|i: int| 0 <= i < hops@.len() && #[trigger] hops@[i].ordinal == ordinal && !hops@[i].wired,
{
    let mut i: usize = 0;
    while i < hops.len()
        invariant
            i <= hops.len(),
            forall|k: int| 0 <= k < i ==> !(#[trigger] hops@[k].ordinal == ordinal && !hops@[k].wired),
        decreases hops.len() - i,
    {
        if hops[i].ordinal == ordinal && !hops[i].wired {
            return true;
        }
        i = i + 1;
    }
    false
}

/// One open residual fence matches its expected residue id and hop, stays open and blocks
/// GREEN credit, and names a delegate.
pub open spec fn fence_pinned(f: SecMcpWrapOpenResidualFence, id: &'static str, ordinal: u8) -> bool {
    f.residue_id@ == id@ && f.hop_ordinal == ordinal && f.honest_open && f.green_credit_blocked
        && f.delegate_ssot@.len() > 0 && f.residue_id@.len() > 0
}

/// Check one open residual fence against its expected residue id and hop.
fn check_fence(f: SecMcpWrapOpenResidualFence, id: &'static str, ordinal: u8) -> (r: bool)
    ensures
        r == fence_pinned(f, id, ordinal),
{
    str_eq(f.residue_id, id) && f.hop_ordinal == ordinal && f.honest_open && f.green_credit_blocked
        && !f.delegate_ssot.is_empty() && !f.residue_id.is_empty()
}

/// Whether the open residual fence pins match the unwired hops 6 and 7.
pub fn manifold_mcp_wrap_open_residual_fences_verified() -> (r: bool)
    ensures
        r,
{
    let fences = open_residual_fences();
    let hops = manifold_sec_mcp_wrap_gate_wire_hops();
    proof {
        reveal_strlit("umst-gateway/crates/umst-gateway/src/sec_mcp_wrap.rs");
        reveal_strlit("umst-concrete-cartridge/crates/umst-mcp/src/sec_mcp_wrap.rs");
        reveal_strlit("R-gateway-stdio-exec");
        reveal_strlit("R-mcp-wrap-production");
        lemma_wire_hops_open_count();
    }
    if fences.len() != OPEN_RESIDUAL_HOP_COUNT {
        return false;
    }
    let pinned = check_fence(fences[0], "R-gateway-stdio-exec", 6)
        && check_fence(fences[1], "R-mcp-wrap-production", 7);
    let open_count = count_open_hops(&hops);
    let first = open_hop_at(&hops, fences[0].hop_ordinal);
    let second = open_hop_at(&hops, fences[1].hop_ordinal);
    assert(hops@[5].ordinal == 6 && !hops@[5].wired);
    assert(hops@[6].ordinal == 7 && !hops@[6].wired);
    pinned && open_count == OPEN_RESIDUAL_HOP_COUNT && first && second
}

/// Aggregated SEC-MCP-WRAP gate census on the manifold boundary.
#[derive(Debug, Clone, Copy, PartialEq, Eq)]
pub struct SecMcpWrapGateCensus {
    /// Census schema tag.
    pub schema_version: &'static str,
    /// Board slice id.
    pub board_slice_id: &'static str,
    /// W29 cell id pin.
    pub w29_cell_id: &'static str,
    /// Gate transition evidence probe passed.
    pub gate_evidence_wired: bool,
    /// Refuse-path matrix rows pinned at the manifold boundary.
    pub refuse_path_matrix_row_count: u8,
    /// Refuse-path matrix pins verified (ordinal + delegate SSOT).
    pub refuse_path_matrix_pins_verified: bool,
    /// Honest open residual hop count (2).
    pub open_residual_hop_count: usize,
    /// Open residual fence pins verified.
    pub open_residual_fences_verified: bool,
    /// Gateway stdio exec pre-check wired — honest false.
    pub gateway_stdio_exec_trust_pre_check_wired: bool,
    /// MCP wrap GREEN claim blocked.
    pub mcp_wrap_green_claim_blocked: bool,
    /// MASTER / OP-5 retick eligibility — honest false.
    pub master_retick_eligible: bool,
    /// Production flip.
    pub production_wired: bool,
    /// Wired hop count.
    pub wire_hop_wired_count: u8,
}

/// Exercise gate cold-edge evidence at the manifold SSOT (the identity transition admits).
pub fn gate_transition_evidence_probe(evidence: &TransitionEvidence) -> (r: bool)
    ensures
        r == witness_admits(*evidence),
{
    cold_edge_witness_admits(evidence)
}

/// Gateway stdio exec trust pre-check — owned by umst-gateway; honest open.
pub fn gateway_stdio_exec_trust_pre_check_wired() -> (r: bool)
    ensures
        !r,
{
    false
}

/// MCP wrap production ceremony — honest false until measured live.
pub fn sec_mcp_wrap_production_wired() -> (r: bool)
    ensures
        !r,
{
    false
}

/// MASTER / OP-5 retick eligibility — honest false at census deepen.
pub fn sec_mcp_wrap_master_retick_eligible() -> (r: bool)
    ensures
        r == MASTER_RETICK_ELIGIBLE,
        !r,
{
    MASTER_RETICK_ELIGIBLE
}

/// Build the manifold SEC-MCP-WRAP gate census from live measurements.
pub fn gate_mcp_wrap_census(gate_evidence_wired: bool) -> (r: SecMcpWrapGateCensus)
    ensures
        r.schema_version == SCHEMA_VERSION,
        r.board_slice_id == BOARD_SLICE_ID,
        r.w29_cell_id == W29_CELL_ID,
        r.gate_evidence_wired == gate_evidence_wired,
        r.refuse_path_matrix_row_count == 6,
        r.refuse_path_matrix_pins_verified,
        r.open_residual_hop_count == OPEN_RESIDUAL_HOP_COUNT,
        r.open_residual_fences_verified,
        !r.gateway_stdio_exec_trust_pre_check_wired,
        r.mcp_wrap_green_claim_blocked,
        !r.master_retick_eligible,
        !r.production_wired,
        r.wire_hop_wired_count == 5,
{
    let hops = manifold_sec_mcp_wrap_gate_wire_hops();
    let wired = count_wired_hops(&hops);
    proof {
        lemma_wire_hops_wired_count();
    }
    SecMcpWrapGateCensus {
        schema_version: SCHEMA_VERSION,
        board_slice_id: BOARD_SLICE_ID,
        w29_cell_id: W29_CELL_ID,
        gate_evidence_wired,
        refuse_path_matrix_row_count: REFUSE_PATH_MATRIX_ROW_COUNT as u8,
        refuse_path_matrix_pins_verified: manifold_mcp_wrap_refuse_path_matrix_pins_verified(),
        open_residual_hop_count: OPEN_RESIDUAL_HOP_COUNT,
        open_residual_fences_verified: manifold_mcp_wrap_open_residual_fences_verified(),
        gateway_stdio_exec_trust_pre_check_wired: gateway_stdio_exec_trust_pre_check_wired(),
        mcp_wrap_green_claim_blocked: MCP_WRAP_GREEN_CLAIM_BLOCKED,
        master_retick_eligible: sec_mcp_wrap_master_retick_eligible(),
        production_wired: sec_mcp_wrap_production_wired(),
        wire_hop_wired_count: wired as u8,
    }
}

/// Whether the manifold gate SEC-MCP-WRAP ceremony is closed at census tier: the refuse-path
/// pins and the open residual fences for hops 6 and 7 are measured, so it is closed exactly
/// when the cold-edge evidence admits. The gateway stdio exec and the production ceremony
/// stay explicit non-blockers.
pub fn manifold_gate_sec_mcp_wrap_ceremony_closed(gate_evidence_wired: bool) -> (r: bool)
    ensures
        r == gate_evidence_wired,
{
    let census = gate_mcp_wrap_census(gate_evidence_wired);
    census.gate_evidence_wired && census.refuse_path_matrix_pins_verified
        && census.open_residual_hop_count == 2 && census.open_residual_fences_verified
        && !census.gateway_stdio_exec_trust_pre_check_wired && !census.production_wired
        && !census.master_retick_eligible && census.mcp_wrap_green_claim_blocked
        && census.wire_hop_wired_count == 5 && str_eq(census.w29_cell_id, W29_CELL_ID)
        && gate_evidence_wired
}

/// Typed probe for SEC-MCP-WRAP manifold gate closure honesty.
#[derive(Debug, Clone, Copy, PartialEq, Eq, Structural)]
pub struct SecMcpWrapGateManifoldProbe {
    /// Gate transition evidence probe.
    pub gate_evidence_wired: bool,
    /// Refuse-path matrix pins verified.
    pub refuse_path_matrix_pins_verified: bool,
    /// Open residual fences verified.
    pub open_residual_fences_verified: bool,
    /// Gateway stdio exec pre-check honest false.
    pub gateway_stdio_exec_honest_false: bool,
    /// MCP wrap GREEN claim blocked.
    pub mcp_wrap_green_claim_blocked: bool,
    /// MASTER / OP-5 retick honest false.
    pub master_retick_honest_false: bool,
    /// Production honest false.
    pub production_honest_false: bool,
    /// Wired hop count.
    pub wire_hop_wired_count: u8,
    /// Ceremony closed at census tier.
    pub ceremony_closed: bool,
}

/// The manifold probe measured for a given cold-edge outcome.
pub open spec fn manifold_probe_spec(gate_evidence_wired: bool) -> SecMcpWrapGateManifoldProbe {
    SecMcpWrapGateManifoldProbe {
        gate_evidence_wired,
        refuse_path_matrix_pins_verified: true,
        open_residual_fences_verified: true,
        gateway_stdio_exec_honest_false: true,
        mcp_wrap_green_claim_blocked: true,
        master_retick_honest_false: true,
        production_honest_false: true,
        wire_hop_wired_count: 5,
        ceremony_closed: gate_evidence_wired,
    }
}

/// Typed probe for SEC-MCP-WRAP manifold gate closure honesty.
pub fn sec_mcp_wrap_gate_manifold_probe(gate_evidence_wired: bool) -> (r: SecMcpWrapGateManifoldProbe)
    ensures
        r == manifold_probe_spec(gate_evidence_wired),
{
    let census = gate_mcp_wrap_census(gate_evidence_wired);
    SecMcpWrapGateManifoldProbe {
        gate_evidence_wired: census.gate_evidence_wired,
        refuse_path_matrix_pins_verified: census.refuse_path_matrix_pins_verified,
        open_residual_fences_verified: census.open_residual_fences_verified,
        gateway_stdio_exec_honest_false: !census.gateway_stdio_exec_trust_pre_check_wired,
        mcp_wrap_green_claim_blocked: census.mcp_wrap_green_claim_blocked,
        master_retick_honest_false: !census.master_retick_eligible,
        production_honest_false: !census.production_wired,
        wire_hop_wired_count: census.wire_hop_wired_count,
        ceremony_closed: manifold_gate_sec_mcp_wrap_ceremony_closed(gate_evidence_wired),
    }
}

/// One SEC-MCP-WRAP gate-factor row for the operator `:trust gate-factors` deepen.
#[derive(Debug)]
pub struct SecMcpWrapGateFactorRow {
    /// Stable factor identifier.
    pub factor_id: &'static str,
    /// Whether the witness probe is wired.
    pub probe_wired: bool,
    /// Whether the factor earns acceptance credit toward MCP wrap GREEN.
    pub acceptance_credit: bool,
    /// Operator detail string.
    pub detail: String,
}

/// Gate-factor ids, in row order.
pub open spec fn factor_ids_spec() -> Seq<&'static str> {
    seq!["mcp-wrap-refuse-matrix", "mcp-trust-gate-delegate", "gateway-stdio-exec-pre-check", "mcp-wrap-production-ceremony", "open-residual-fences", "manifold-gate-evidence"]
}

/// Whether gate-factor row `k` is wired, for a cold-edge outcome (only the evidence row
/// depends on it).
pub open spec fn factor_wired_spec(e: bool, k: int) -> bool {
    if k == 5 {
        e
    } else {
        true
    }
}

/// Whether gate-factor row `k` earns acceptance credit (only the evidence row does).
pub open spec fn factor_credit_spec(k: int) -> bool {
    k == 5
}

/// Operator detail of gate-factor row `k`.
pub open spec fn factor_detail_spec(k: int) -> Seq<char> {
    if k == 0 {
        "refuse_matrix_rows="@ + decimal(6) + " pins_verified="@ + bool_text(true)
    } else if k == 1 {
        "delegate="@ + MCP_TRUST_GATE_SSOT@
    } else if k == 2 {
        "mcp_stdio_exec_trust_pre_check_wired="@ + bool_text(false)
    } else if k == 3 {
        "production_wired="@ + bool_text(false)
    } else if k == 4 {
        "open_residual_hop_count="@ + decimal(2) + " fences_verified="@ + bool_text(true)
            + " master_retick="@ + bool_text(false)
    } else {
        "cold-edge AdmissibilityToken witness"@
    }
}

/// The rows are exactly the specified ones.
pub open spec fn factor_rows_match(rows: Seq<SecMcpWrapGateFactorRow>, e: bool) -> bool {
    &&& rows.len() == 6
    &&& forall|k: int| 0 <= k < 6 ==> {
        &&& (#[trigger] rows[k]).factor_id == factor_ids_spec()[k]
        &&& rows[k].probe_wired == factor_wired_spec(e, k)
        &&& rows[k].acceptance_credit == factor_credit_spec(k)
        &&& rows[k].detail@ == factor_detail_spec(k)
    }
}

fn text_of(s: &str) -> (r: String)
    ensures
        r@ == s@,
{
    s.to_owned()
}

/// Collect the SEC-MCP-WRAP gate-factor rows for the operator `:trust gate-factors`.
pub fn collect_sec_mcp_wrap_gate_factor_rows(gate_evidence_wired: bool) -> (r: Vec<SecMcpWrapGateFactorRow>)
    ensures
        factor_rows_match(r@, gate_evidence_wired),
{
    proof {
        lemma_ssot_pins();
    }
    let pins = manifold_mcp_wrap_refuse_path_matrix_pins_verified();
    let fences = manifold_mcp_wrap_open_residual_fences_verified();
    let mut d0 = String::new();
    push_str(&mut d0, "refuse_matrix_rows=");
    push_decimal(&mut d0, REFUSE_PATH_MATRIX_ROW_COUNT as u64);
    push_str(&mut d0, " pins_verified=");
    push_bool(&mut d0, pins);
    let mut d1 = String::new();
    push_str(&mut d1, "delegate=");
    push_str(&mut d1, MCP_TRUST_GATE_SSOT);
    let mut d2 = String::new();
    push_str(&mut d2, "mcp_stdio_exec_trust_pre_check_wired=");
    push_bool(&mut d2, gateway_stdio_exec_trust_pre_check_wired());
    let mut d3 = String::new();
    push_str(&mut d3, "production_wired=");
    push_bool(&mut d3, sec_mcp_wrap_production_wired());
    let mut d4 = String::new();
    push_str(&mut d4, "open_residual_hop_count=");
    push_decimal(&mut d4, OPEN_RESIDUAL_HOP_COUNT as u64);
    push_str(&mut d4, " fences_verified=");
    push_bool(&mut d4, fences);
    push_str(&mut d4, " master_retick=");
    push_bool(&mut d4, sec_mcp_wrap_master_retick_eligible());
    let r = vec![
        SecMcpWrapGateFactorRow {
            factor_id: "mcp-wrap-refuse-matrix",
            probe_wired: pins,
            acceptance_credit: false,
            detail: d0,
        },
        SecMcpWrapGateFactorRow {
            factor_id: "mcp-trust-gate-delegate",
            probe_wired: str_contains(MCP_TRUST_GATE_SSOT, "mcp_trust_gate"),
            acceptance_credit: false,
            detail: d1,
        },
        SecMcpWrapGateFactorRow {
            factor_id: "gateway-stdio-exec-pre-check",
            probe_wired: str_contains(GATEWAY_SSOT, "sec_mcp_wrap"),
            acceptance_credit: false,
            detail: d2,
        },
        SecMcpWrapGateFactorRow {
            factor_id: "mcp-wrap-production-ceremony",
            probe_wired: str_contains(MCP_SSOT, "sec_mcp_wrap"),
            acceptance_credit: false,
            detail: d3,
        },
        SecMcpWrapGateFactorRow {
            factor_id: "open-residual-fences",
            probe_wired: fences,
            acceptance_credit: false,
            detail: d4,
        },
        SecMcpWrapGateFactorRow {
            factor_id: "manifold-gate-evidence",
            probe_wired: gate_evidence_wired,
            acceptance_credit: true,
            detail: text_of("cold-edge AdmissibilityToken witness"),
        },
    ];
    assert(factor_rows_match(r@, gate_evidence_wired));
    r
}

/// One rendered gate-factor row.
pub open spec fn factor_row_text() -> spec_fn(SecMcpWrapGateFactorRow) -> Seq<char> {
    |r: SecMcpWrapGateFactorRow|
        "  "@ + r.factor_id@ + " probe_wired="@ + bool_text(r.probe_wired) + " acceptance_credit="@
            + bool_text(r.acceptance_credit) + " "@ + r.detail@ + "\n"@
}

/// The specified rendering of row `k`.
pub open spec fn factor_row_text_spec(e: bool, k: int) -> Seq<char> {
    "  "@ + factor_ids_spec()[k]@ + " probe_wired="@ + bool_text(factor_wired_spec(e, k))
        + " acceptance_credit="@ + bool_text(factor_credit_spec(k)) + " "@ + factor_detail_spec(k)
        + "\n"@
}

/// The two lines that end a rendered gate-factor table.
pub open spec fn factor_table_tail() -> Seq<char> {
    "  scert_credit=BLOCKED expected_gate_exit=BLOCKED\n"@ + "  sec_mcp_wrap_production_wired="@
        + bool_text(false) + " master_retick="@ + bool_text(false) + "\n"@
}

/// The operator gate-factor table, for a cold-edge outcome.
pub open spec fn factor_table_spec(e: bool) -> Seq<char> {
    "SEC-MCP-WRAP gate factors (AC34/W29-119):\n"@ + Seq::new(6, |k: int| factor_row_text_spec(e, k)).flatten()
        + factor_table_tail()
}

/// Render the SEC-MCP-WRAP gate-factor table for operator receipts.
pub fn sec_mcp_wrap_gate_factor_table(gate_evidence_wired: bool) -> (r: String)
    ensures
        r@ == factor_table_spec(gate_evidence_wired),
{
    let rows = collect_sec_mcp_wrap_gate_factor_rows(gate_evidence_wired);
    let mut out = String::new();
    push_str(&mut out, "SEC-MCP-WRAP gate factors (AC34/W29-119):\n");
    let ghost header = out@;
    let mut j: usize = 0;
    while j < rows.len()
        invariant
            j <= rows.len(),
            factor_rows_match(rows@, gate_evidence_wired),
            out@ == header + rows@.take(j as int).map_values(factor_row_text()).flatten(),
        decreases rows.len() - j,
    {
        proof {
            lemma_flatten_step(rows@, factor_row_text(), j as int);
        }
        let row = &rows[j];
        push_str(&mut out, "  ");
        push_str(&mut out, row.factor_id);
        push_str(&mut out, " probe_wired=");
        push_bool(&mut out, row.probe_wired);
        push_str(&mut out, " acceptance_credit=");
        push_bool(&mut out, row.acceptance_credit);
        push_str(&mut out, " ");
        push_str(&mut out, row.detail.as_str());
        push_str(&mut out, "\n");
        assert(out@ == header + rows@.take(j + 1).map_values(factor_row_text()).flatten());
        j = j + 1;
    }
    proof {
        lemma_take_all(rows@);
        assert(rows@.map_values(factor_row_text()) =~= Seq::new(
            6,
            |k: int| factor_row_text_spec(gate_evidence_wired, k),
        ));
    }
    let ghost body = out@;
    push_str(&mut out, "  scert_credit=BLOCKED expected_gate_exit=BLOCKED\n");
    push_str(&mut out, "  sec_mcp_wrap_production_wired=");
    push_bool(&mut out, sec_mcp_wrap_production_wired());
    push_str(&mut out, " master_retick=");
    push_bool(&mut out, sec_mcp_wrap_master_retick_eligible());
    push_str(&mut out, "\n");
    assert(out@ =~= body + factor_table_tail());
    out
}

/// The rendered gate-factor table names the open residual fence row and pins the BLOCKED exit.
pub proof fn lemma_factor_table_markers(e: bool)
    ensures
        seq_contains(factor_table_spec(e), "scert_credit=BLOCKED"@),
        seq_contains(factor_table_spec(e), "expected_gate_exit=BLOCKED"@),
        seq_contains(factor_table_spec(e), "open-residual-fences"@),
{
    reveal_strlit("  scert_credit=BLOCKED expected_gate_exit=BLOCKED\n");
    reveal_strlit("scert_credit=BLOCKED");
    reveal_strlit("expected_gate_exit=BLOCKED");
    reveal_strlit("open-residual-fences");
    reveal_strlit("  ");
    let head = "SEC-MCP-WRAP gate factors (AC34/W29-119):\n"@;
    let rows = Seq::new(6, |k: int| factor_row_text_spec(e, k));
    let tail = factor_table_tail();
    let line = "  scert_credit=BLOCKED expected_gate_exit=BLOCKED\n"@;
    let rest = "  sec_mcp_wrap_production_wired="@ + bool_text(false) + " master_retick="@ + bool_text(false) + "\n"@;
    assert(tail =~= line + rest);
    assert(line.subrange(2, 22) =~= "scert_credit=BLOCKED"@);
    assert(matches_at(line, "scert_credit=BLOCKED"@, 2));
    assert(line.subrange(23, 49) =~= "expected_gate_exit=BLOCKED"@);
    assert(matches_at(line, "expected_gate_exit=BLOCKED"@, 23));
    lemma_contains_extend(Seq::<char>::empty(), line, rest, "scert_credit=BLOCKED"@);
    lemma_contains_extend(Seq::<char>::empty(), line, rest, "expected_gate_exit=BLOCKED"@);
    assert(Seq::<char>::empty() + line + rest =~= tail);
    assert(factor_table_spec(e) =~= (head + rows.flatten()) + tail + Seq::<char>::empty());
    lemma_contains_extend(head + rows.flatten(), tail, Seq::<char>::empty(), "scert_credit=BLOCKED"@);
    lemma_contains_extend(head + rows.flatten(), tail, Seq::<char>::empty(), "expected_gate_exit=BLOCKED"@);
    let row4 = rows[4];
    assert(row4 =~= "  "@ + "open-residual-fences"@ + (" probe_wired="@ + bool_text(true) + " acceptance_credit="@
        + bool_text(false) + " "@ + factor_detail_spec(4) + "\n"@));
    assert(row4.subrange(2, 22) =~= "open-residual-fences"@);
    assert(matches_at(row4, "open-residual-fences"@, 2));
    lemma_contains_entry(rows, 4, "open-residual-fences"@);
    assert(factor_table_spec(e) =~= head + rows.flatten() + tail);
    lemma_contains_extend(head, rows.flatten(), tail, "open-residual-fences"@);
}

/// One rendered line of the typed refuse-path matrix table.
pub open spec fn refuse_row_text() -> spec_fn(ManifoldMcpWrapRefusePathRow) -> Seq<char> {
    |row: ManifoldMcpWrapRefusePathRow| "  "@ + row.row_id@ + " tool="@ + row.tool_name@ + " scope="@ + row.scope@ + " revoked="@ + bool_text(row.revoked) + " expect_admit="@ + bool_text(row.expect_admit) + " delegate="@ + row.delegate_ssot@ + "\n"@
}

/// A closing line of the typed refuse-path matrix table.
pub open spec fn refuse_table_tail() -> Seq<char> {
    "  row_count="@ + decimal(REFUSE_PATH_MATRIX_ROW_COUNT as nat) + " pins_verified="@ + bool_text(true) + " production_wired="@ + bool_text(false) + "\n"@
}

/// The typed refuse-path matrix table, as rendered for operator receipts.
pub open spec fn refuse_table_spec() -> Seq<char> {
    "SEC-MCP-WRAP typed refuse-path matrix (manifold pin):\n"@ + refuse_matrix_spec().map_values(refuse_row_text()).flatten() + refuse_table_tail()
}

/// Render the typed refuse-path matrix table for operator receipts.
#[verifier::rlimit(80)]
pub fn sec_mcp_wrap_refuse_path_table() -> (r: String)
    ensures
        r@ == refuse_table_spec(),
{
    let items = refuse_path_matrix();
    let mut out = String::new();
    push_str(&mut out, "SEC-MCP-WRAP typed refuse-path matrix (manifold pin):\n");
    let ghost header = out@;
    let mut i: usize = 0;
    while i < items.len()
        invariant
            i <= items.len(),
            items@ == refuse_matrix_spec(),
            out@ == header + items@.take(i as int).map_values(refuse_row_text()).flatten(),
        decreases items.len() - i,
    {
        proof {
            lemma_flatten_step(items@, refuse_row_text(), i as int);
        }
        let row = items[i];
        push_str(&mut out, "  ");
        push_str(&mut out, row.row_id);
        push_str(&mut out, " tool=");
        push_str(&mut out, row.tool_name);
        push_str(&mut out, " scope=");
        push_str(&mut out, row.scope);
        push_str(&mut out, " revoked=");
        push_bool(&mut out, row.revoked);
        push_str(&mut out, " expect_admit=");
        push_bool(&mut out, row.expect_admit);
        push_str(&mut out, " delegate=");
        push_str(&mut out, row.delegate_ssot);
        push_str(&mut out, "\n");
        assert(out@ == header + items@.take(i + 1).map_values(refuse_row_text()).flatten());
        i = i + 1;
    }
    proof {
        lemma_take_all(items@);
    }
    push_str(&mut out, "  row_count=");
    push_decimal(&mut out, REFUSE_PATH_MATRIX_ROW_COUNT as u64);
    push_str(&mut out, " pins_verified=");
    push_bool(&mut out, manifold_mcp_wrap_refuse_path_matrix_pins_verified());
    push_str(&mut out, " production_wired=");
    push_bool(&mut out, sec_mcp_wrap_production_wired());
    push_str(&mut out, "\n");
    assert(out@ =~= refuse_table_spec());
    out
}

/// The rendered refuse-path table names rows R1 and R6 and reports the pin verification.
pub proof fn lemma_refuse_table_markers()
    ensures
        seq_contains(refuse_table_spec(), "R1"@),
        seq_contains(refuse_table_spec(), "R6"@),
        seq_contains(refuse_table_spec(), "pins_verified="@),
{
    reveal_strlit("\n");
    reveal_strlit("  ");
    reveal_strlit("  row_count=");
    reveal_strlit(" delegate=");
    reveal_strlit(" expect_admit=");
    reveal_strlit(" pins_verified=");
    reveal_strlit(" production_wired=");
    reveal_strlit(" revoked=");
    reveal_strlit(" scope=");
    reveal_strlit(" tool=");
    reveal_strlit("R1");
    reveal_strlit("R2");
    reveal_strlit("R3");
    reveal_strlit("R4");
    reveal_strlit("R5");
    reveal_strlit("R6");
    reveal_strlit("device");
    reveal_strlit("ephemeral");
    reveal_strlit("map_to_geometry");
    reveal_strlit("pins_verified=");
    reveal_strlit("propose_communicative_act");
    reveal_strlit("refine_shape");
    reveal_strlit("umst-concrete-cartridge/crates/umst-mcp/src/mcp_trust_gate.rs");
    assert(decimal(6) =~= seq!['6']);
    assert(refuse_matrix_spec().map_values(refuse_row_text())[0].subrange(2, 4) =~= "R1"@);
    assert(matches_at(refuse_matrix_spec().map_values(refuse_row_text())[0], "R1"@, 2));
    lemma_contains_entry(refuse_matrix_spec().map_values(refuse_row_text()), 0, "R1"@);
    assert(refuse_table_spec() =~= "SEC-MCP-WRAP typed refuse-path matrix (manifold pin):\n"@ + refuse_matrix_spec().map_values(refuse_row_text()).flatten() + (refuse_table_tail()));
    lemma_contains_extend("SEC-MCP-WRAP typed refuse-path matrix (manifold pin):\n"@, refuse_matrix_spec().map_values(refuse_row_text()).flatten(), refuse_table_tail(), "R1"@);
    assert(refuse_matrix_spec().map_values(refuse_row_text())[5].subrange(2, 4) =~= "R6"@);
    assert(matches_at(refuse_matrix_spec().map_values(refuse_row_text())[5], "R6"@, 2));
    lemma_contains_entry(refuse_matrix_spec().map_values(refuse_row_text()), 5, "R6"@);
    assert(refuse_table_spec() =~= "SEC-MCP-WRAP typed refuse-path matrix (manifold pin):\n"@ + refuse_matrix_spec().map_values(refuse_row_text()).flatten() + (refuse_table_tail()));
    lemma_contains_extend("SEC-MCP-WRAP typed refuse-path matrix (manifold pin):\n"@, refuse_matrix_spec().map_values(refuse_row_text()).flatten(), refuse_table_tail(), "R6"@);
    assert(refuse_table_tail().subrange(14, 28) =~= "pins_verified="@);
    assert(matches_at(refuse_table_tail(), "pins_verified="@, 14));
    assert(refuse_table_spec() =~= ("SEC-MCP-WRAP typed refuse-path matrix (manifold pin):\n"@ + refuse_matrix_spec().map_values(refuse_row_text()).flatten()) + refuse_table_tail() + (Seq::<char>::empty()));
    lemma_contains_extend("SEC-MCP-WRAP typed refuse-path matrix (manifold pin):\n"@ + refuse_matrix_spec().map_values(refuse_row_text()).flatten(), refuse_table_tail(), Seq::<char>::empty(), "pins_verified="@);
}

/// One rendered line of the SEC-MCP-WRAP open residual fence table.
pub open spec fn residual_row_text() -> spec_fn(SecMcpWrapOpenResidualFence) -> Seq<char> {
    |fence: SecMcpWrapOpenResidualFence| "  "@ + fence.residue_id@ + " hop="@ + decimal(fence.hop_ordinal as nat) + " honest_open="@ + bool_text(fence.honest_open) + " green_credit_blocked="@ + bool_text(fence.green_credit_blocked) + " delegate="@ + fence.delegate_ssot@ + "\n"@
}

/// A closing line of the SEC-MCP-WRAP open residual fence table.
pub open spec fn residual_table_tail() -> Seq<char> {
    "  open_residual_hop_count="@ + decimal(OPEN_RESIDUAL_HOP_COUNT as nat) + " fences_verified="@ + bool_text(true) + " production_wired="@ + bool_text(false) + " master_retick="@ + bool_text(false) + "\n"@
}

/// The SEC-MCP-WRAP open residual fence table, as rendered for operator receipts.
pub open spec fn residual_table_spec() -> Seq<char> {
    "SEC-MCP-WRAP open residual fences (W29-119):\n"@ + open_residual_fences_spec().map_values(residual_row_text()).flatten() + residual_table_tail()
}

/// Render the SEC-MCP-WRAP open residual fence table for operator receipts.
pub fn sec_mcp_wrap_open_residual_fence_table() -> (r: String)
    ensures
        r@ == residual_table_spec(),
{
    let items = open_residual_fences();
    let mut out = String::new();
    push_str(&mut out, "SEC-MCP-WRAP open residual fences (W29-119):\n");
    let ghost header = out@;
    let mut i: usize = 0;
    while i < items.len()
        invariant
            i <= items.len(),
            items@ == open_residual_fences_spec(),
            out@ == header + items@.take(i as int).map_values(residual_row_text()).flatten(),
        decreases items.len() - i,
    {
        proof {
            lemma_flatten_step(items@, residual_row_text(), i as int);
        }
        let fence = items[i];
        push_str(&mut out, "  ");
        push_str(&mut out, fence.residue_id);
        push_str(&mut out, " hop=");
        push_decimal(&mut out, fence.hop_ordinal as u64);
        push_str(&mut out, " honest_open=");
        push_bool(&mut out, fence.honest_open);
        push_str(&mut out, " green_credit_blocked=");
        push_bool(&mut out, fence.green_credit_blocked);
        push_str(&mut out, " delegate=");
        push_str(&mut out, fence.delegate_ssot);
        push_str(&mut out, "\n");
        assert(out@ == header + items@.take(i + 1).map_values(residual_row_text()).flatten());
        i = i + 1;
    }
    proof {
        lemma_take_all(items@);
    }
    push_str(&mut out, "  open_residual_hop_count=");
    push_decimal(&mut out, OPEN_RESIDUAL_HOP_COUNT as u64);
    push_str(&mut out, " fences_verified=");
    push_bool(&mut out, manifold_mcp_wrap_open_residual_fences_verified());
    push_str(&mut out, " production_wired=");
    push_bool(&mut out, sec_mcp_wrap_production_wired());
    push_str(&mut out, " master_retick=");
    push_bool(&mut out, sec_mcp_wrap_master_retick_eligible());
    push_str(&mut out, "\n");
    assert(out@ =~= residual_table_spec());
    out
}

/// The rendered residual fence table names both residues and reports the fence verification.
pub proof fn lemma_residual_table_markers()
    ensures
        seq_contains(residual_table_spec(), "R-gateway-stdio-exec"@),
        seq_contains(residual_table_spec(), "R-mcp-wrap-production"@),
        seq_contains(residual_table_spec(), "fences_verified="@),
{
    reveal_strlit("\n");
    reveal_strlit("  ");
    reveal_strlit("  open_residual_hop_count=");
    reveal_strlit(" delegate=");
    reveal_strlit(" fences_verified=");
    reveal_strlit(" green_credit_blocked=");
    reveal_strlit(" honest_open=");
    reveal_strlit(" hop=");
    reveal_strlit(" master_retick=");
    reveal_strlit(" production_wired=");
    reveal_strlit("R-gateway-stdio-exec");
    reveal_strlit("R-mcp-wrap-production");
    reveal_strlit("fences_verified=");
    reveal_strlit("umst-concrete-cartridge/crates/umst-mcp/src/sec_mcp_wrap.rs");
    reveal_strlit("umst-gateway/crates/umst-gateway/src/sec_mcp_wrap.rs");
    assert(decimal(2) =~= seq!['2']);
    assert(decimal(6) =~= seq!['6']);
    assert(decimal(7) =~= seq!['7']);
    assert(open_residual_fences_spec().map_values(residual_row_text())[0].subrange(2, 22) =~= "R-gateway-stdio-exec"@);
    assert(matches_at(open_residual_fences_spec().map_values(residual_row_text())[0], "R-gateway-stdio-exec"@, 2));
    lemma_contains_entry(open_residual_fences_spec().map_values(residual_row_text()), 0, "R-gateway-stdio-exec"@);
    assert(residual_table_spec() =~= "SEC-MCP-WRAP open residual fences (W29-119):\n"@ + open_residual_fences_spec().map_values(residual_row_text()).flatten() + (residual_table_tail()));
    lemma_contains_extend("SEC-MCP-WRAP open residual fences (W29-119):\n"@, open_residual_fences_spec().map_values(residual_row_text()).flatten(), residual_table_tail(), "R-gateway-stdio-exec"@);
    assert(open_residual_fences_spec().map_values(residual_row_text())[1].subrange(2, 23) =~= "R-mcp-wrap-production"@);
    assert(matches_at(open_residual_fences_spec().map_values(residual_row_text())[1], "R-mcp-wrap-production"@, 2));
    lemma_contains_entry(open_residual_fences_spec().map_values(residual_row_text()), 1, "R-mcp-wrap-production"@);
    assert(residual_table_spec() =~= "SEC-MCP-WRAP open residual fences (W29-119):\n"@ + open_residual_fences_spec().map_values(residual_row_text()).flatten() + (residual_table_tail()));
    lemma_contains_extend("SEC-MCP-WRAP open residual fences (W29-119):\n"@, open_residual_fences_spec().map_values(residual_row_text()).flatten(), residual_table_tail(), "R-mcp-wrap-production"@);
    assert(residual_table_tail().subrange(28, 44) =~= "fences_verified="@);
    assert(matches_at(residual_table_tail(), "fences_verified="@, 28));
    assert(residual_table_spec() =~= ("SEC-MCP-WRAP open residual fences (W29-119):\n"@ + open_residual_fences_spec().map_values(residual_row_text()).flatten()) + residual_table_tail() + (Seq::<char>::empty()));
    lemma_contains_extend("SEC-MCP-WRAP open residual fences (W29-119):\n"@ + open_residual_fences_spec().map_values(residual_row_text()).flatten(), residual_table_tail(), Seq::<char>::empty(), "fences_verified="@);
}

/// FLEET-COMPOSER ACCEL-B AC34 probe — manifold MCP wrap fence deepen.
#[derive(Debug, Clone, Copy, PartialEq, Eq)]
pub struct SecMcpWrapAccelAc34Probe {
    /// AC34 card id.
    pub ac34_job_id: &'static str,
    /// Prior Z86 umst-mcp owner absorbed.
    pub prior_z86_absorbed: bool,
    /// Prior Y52 gateway refuse matrix absorbed.
    pub prior_y52_absorbed: bool,
    /// Refuse-path table residue pinned.
    pub refuse_path_table_residue_pinned: bool,
    /// Open residual fence table residue pinned.
    pub open_residual_table_residue_pinned: bool,
    /// Manifold gate probe.
    pub probe: SecMcpWrapGateManifoldProbe,
    /// Ceremony closed.
    pub ceremony_closed: bool,
    /// Production flip — honest false.
    pub production_wired: bool,
}

/// Build the FLEET-COMPOSER ACCEL-B AC34 probe.
pub fn sec_mcp_wrap_accel_ac34_probe(gate_evidence_wired: bool) -> (r: SecMcpWrapAccelAc34Probe)
    ensures
        r.ac34_job_id == ACCEL_B_2050_AC34_JOB_ID,
        r.prior_z86_absorbed,
        r.prior_y52_absorbed,
        r.refuse_path_table_residue_pinned,
        r.open_residual_table_residue_pinned,
        r.probe == manifold_probe_spec(gate_evidence_wired),
        r.ceremony_closed == gate_evidence_wired,
        !r.production_wired,
{
    let table = sec_mcp_wrap_refuse_path_table();
    let residual_table = sec_mcp_wrap_open_residual_fence_table();
    proof {
        lemma_ssot_pins();
        lemma_refuse_table_markers();
        lemma_residual_table_markers();
    }
    SecMcpWrapAccelAc34Probe {
        ac34_job_id: ACCEL_B_2050_AC34_JOB_ID,
        prior_z86_absorbed: str_contains(PRIOR_Z86_RECEIPT_PATH, "COMPOSER_Z86_1232"),
        prior_y52_absorbed: str_contains(PRIOR_Y52_RECEIPT_PATH, "COMPOSER_Y52_0808"),
        refuse_path_table_residue_pinned: string_contains(&table, "R1") && string_contains(&table, "R6")
            && string_contains(&table, "pins_verified="),
        open_residual_table_residue_pinned: string_contains(&residual_table, "R-gateway-stdio-exec")
            && string_contains(&residual_table, "R-mcp-wrap-production") && string_contains(
            &residual_table,
            "fences_verified=",
        ),
        probe: sec_mcp_wrap_gate_manifold_probe(gate_evidence_wired),
        ceremony_closed: manifold_gate_sec_mcp_wrap_ceremony_closed(gate_evidence_wired),
        production_wired: sec_mcp_wrap_production_wired(),
    }
}

/// FLEET-COMPOSER ACCEL-B AC34 honesty gate — honest exactly when the cold-edge evidence
/// admits.
pub fn sec_mcp_wrap_accel_ac34_honest(gate_evidence_wired: bool) -> (r: bool)
    ensures
        r == gate_evidence_wired,
{
    let probe = sec_mcp_wrap_accel_ac34_probe(gate_evidence_wired);
    str_eq(probe.ac34_job_id, ACCEL_B_2050_AC34_JOB_ID) && probe.prior_z86_absorbed
        && probe.prior_y52_absorbed && probe.refuse_path_table_residue_pinned
        && probe.open_residual_table_residue_pinned && probe.ceremony_closed
        && probe.probe.gate_evidence_wired && probe.probe.refuse_path_matrix_pins_verified
        && probe.probe.open_residual_fences_verified && probe.probe.gateway_stdio_exec_honest_false
        && probe.probe.mcp_wrap_green_claim_blocked && probe.probe.master_retick_honest_false
        && probe.probe.production_honest_false && probe.probe.wire_hop_wired_count == 5
        && !probe.production_wired
}

/// W29-119 deepen probe — open-residual fence and AC34 honesty.
#[derive(Debug, Clone, Copy, PartialEq, Eq)]
pub struct SecMcpWrapW29DeepenProbe {
    /// W29 cell id.
    pub w29_cell_id: &'static str,
    /// Schema version pin.
    pub schema_version: &'static str,
    /// Open residual fence count.
    pub open_residual_hop_count: usize,
    /// Open residual fences verified.
    pub open_residual_fences_verified: bool,
    /// Open residual table residue pinned.
    pub open_residual_table_residue_pinned: bool,
    /// AC34 honesty.
    pub ac34_honest: bool,
    /// Ceremony closed.
    pub ceremony_closed: bool,
    /// Production wired — honest false.
    pub production_wired: bool,
    /// MASTER retick — honest false.
    pub master_retick_eligible: bool,
    /// GREEN claim blocked — honest true.
    pub mcp_wrap_green_claim_blocked: bool,
}

/// Build the W29-119 deepen probe from live measurements.
pub fn sec_mcp_wrap_w29_deepen_probe(gate_evidence_wired: bool) -> (r: SecMcpWrapW29DeepenProbe)
    ensures
        r.w29_cell_id == W29_CELL_ID,
        r.schema_version == SCHEMA_VERSION,
        r.open_residual_hop_count == OPEN_RESIDUAL_HOP_COUNT,
        r.open_residual_fences_verified,
        r.open_residual_table_residue_pinned,
        r.ac34_honest == gate_evidence_wired,
        r.ceremony_closed == gate_evidence_wired,
        !r.production_wired,
        !r.master_retick_eligible,
        r.mcp_wrap_green_claim_blocked,
{
    let residual_table = sec_mcp_wrap_open_residual_fence_table();
    proof {
        lemma_residual_table_markers();
    }
    SecMcpWrapW29DeepenProbe {
        w29_cell_id: W29_CELL_ID,
        schema_version: SCHEMA_VERSION,
        open_residual_hop_count: OPEN_RESIDUAL_HOP_COUNT,
        open_residual_fences_verified: manifold_mcp_wrap_open_residual_fences_verified(),
        open_residual_table_residue_pinned: string_contains(&residual_table, "R-gateway-stdio-exec")
            && string_contains(&residual_table, "R-mcp-wrap-production"),
        ac34_honest: sec_mcp_wrap_accel_ac34_honest(gate_evidence_wired),
        ceremony_closed: manifold_gate_sec_mcp_wrap_ceremony_closed(gate_evidence_wired),
        production_wired: sec_mcp_wrap_production_wired(),
        master_retick_eligible: sec_mcp_wrap_master_retick_eligible(),
        mcp_wrap_green_claim_blocked: MCP_WRAP_GREEN_CLAIM_BLOCKED,
    }
}

/// W29-119 deepen honesty — open residuals pinned, AC34 honest, no invented
/// GREEN/PRODUCTION/MASTER; honest exactly when the cold-edge evidence admits.
pub fn sec_mcp_wrap_w29_deepen_honest(gate_evidence_wired: bool) -> (r: bool)
    ensures
        r == gate_evidence_wired,
{
    let probe = sec_mcp_wrap_w29_deepen_probe(gate_evidence_wired);
    proof {
        lemma_ssot_pins();
    }
    str_eq(probe.w29_cell_id, W29_CELL_ID) && str_eq(probe.schema_version, SCHEMA_VERSION)
        && str_contains(probe.schema_version, "_v2") && probe.open_residual_hop_count == 2
        && probe.open_residual_fences_verified && probe.open_residual_table_residue_pinned
        && probe.ac34_honest && probe.ceremony_closed && !probe.production_wired
        && !probe.master_retick_eligible && probe.mcp_wrap_green_claim_blocked
}

/// Validate SEC-MCP-WRAP gate census honesty, failing closed on fake production or GREEN
/// claims: it passes exactly when the cold-edge evidence admits, and otherwise refuses with
/// the evidence error.
pub fn validate_sec_mcp_wrap_gate_honesty(gate_evidence_wired: bool) -> (r: Result<(), &'static str>)
    ensures
        gate_evidence_wired ==> r == Ok::<(), &'static str>(()),
        !gate_evidence_wired ==> r == Err::<(), &'static str>("gate transition evidence probe failed"),
{
    let census = gate_mcp_wrap_census(gate_evidence_wired);
    if !str_eq(census.schema_version, SCHEMA_VERSION) {
        return Err("schema_version must match W29 v2 census pin");
    }
    if !str_eq(census.w29_cell_id, W29_CELL_ID) {
        return Err("w29_cell_id must stay W29-119-SEC_MCP_WRAP");
    }
    if census.production_wired {
        return Err("sec_mcp_wrap_production_wired must stay false until operator ceremony");
    }
    if census.master_retick_eligible {
        return Err("master_retick_eligible must stay false at census deepen");
    }
    if !census.mcp_wrap_green_claim_blocked {
        return Err("mcp_wrap_green_claim_blocked must stay true in scaffold");
    }
    if census.gateway_stdio_exec_trust_pre_check_wired {
        return Err("gateway_stdio_exec_trust_pre_check_wired must stay false until gateway flip");
    }
    if !census.gate_evidence_wired {
        return Err("gate transition evidence probe failed");
    }
    if census.refuse_path_matrix_row_count != 6 {
        return Err("refuse-path matrix must remain 6 rows");
    }
    if !census.refuse_path_matrix_pins_verified {
        return Err("refuse-path matrix pins must verify at manifold boundary");
    }
    if census.open_residual_hop_count != 2 {
        return Err("open residual hop count must remain 2");
    }
    if !census.open_residual_fences_verified {
        return Err("open residual fence pins must verify against unwired hops 6-7");
    }
    if manifold_sec_mcp_wrap_gate_wire_hops().len() != 7 {
        return Err("seven SEC-MCP-WRAP gate wire hops expected");
    }
    if census.wire_hop_wired_count != 5 {
        return Err("five SEC-MCP-WRAP gate wire hops should be wired today");
    }
    if !manifold_gate_sec_mcp_wrap_ceremony_closed(gate_evidence_wired) {
        return Err("manifold gate SEC-MCP-WRAP ceremony must be closed at census tier");
    }
    if !sec_mcp_wrap_accel_ac34_honest(gate_evidence_wired) {
        return Err("ACCEL AC34 MCP wrap fence probe must be honest");
    }
    if !sec_mcp_wrap_w29_deepen_honest(gate_evidence_wired) {
        return Err("W29-119 deepen probe must be honest");
    }
    Ok(())
}

/// One rendered line of the SEC-MCP-WRAP gate wire map.
pub open spec fn hop_row_text() -> spec_fn(SecMcpWrapGateWireHop) -> Seq<char> {
    |hop: SecMcpWrapGateWireHop| "  "@ + decimal(hop.ordinal as nat) + " wired="@ + bool_text(hop.wired) + " "@ + hop.surface@ + " ["@ + hop.role@ + "]\n"@
}

/// A closing line of the SEC-MCP-WRAP gate wire map.
pub open spec fn wire_matrix_counts() -> Seq<char> {
    "  wired="@ + decimal(5 as nat) + "/"@ + decimal(7 as nat) + " refuse_matrix="@ + decimal(6 as nat) + " open_residual="@ + decimal(2 as nat) + " gateway_stdio_exec="@ + bool_text(false) + " mcp_wrap_green_claim_blocked="@ + bool_text(true) + " master_retick="@ + bool_text(false) + " production_wired="@ + bool_text(false) + "\n"@
}

/// A closing line of the SEC-MCP-WRAP gate wire map.
pub open spec fn wire_matrix_ssots() -> Seq<char> {
    "  w29_cell_id="@ + W29_CELL_ID@ + "\n  mcp_ssot="@ + MCP_SSOT@ + "\n  gateway_ssot="@ + GATEWAY_SSOT@ + "\n"@
}

/// The SEC-MCP-WRAP gate wire map, as rendered for operator receipts.
pub open spec fn wire_matrix_spec() -> Seq<char> {
    "SEC-MCP-WRAP manifold gate wire map (AC34/W29-119):\n"@ + wire_hops_spec().map_values(hop_row_text()).flatten() + wire_matrix_counts() + wire_matrix_ssots()
}

/// Render the SEC-MCP-WRAP gate wire map for operator receipts.
#[verifier::rlimit(60)]
pub fn sec_mcp_wrap_gate_wire_matrix() -> (r: String)
    ensures
        r@ == wire_matrix_spec(),
{
    let hops_len = manifold_sec_mcp_wrap_gate_wire_hops().len();
    let wired = count_wired_hops(&manifold_sec_mcp_wrap_gate_wire_hops());
    proof {
        lemma_wire_hops_wired_count();
    }
    let items = manifold_sec_mcp_wrap_gate_wire_hops();
    let mut out = String::new();
    push_str(&mut out, "SEC-MCP-WRAP manifold gate wire map (AC34/W29-119):\n");
    let ghost header = out@;
    let mut i: usize = 0;
    while i < items.len()
        invariant
            i <= items.len(),
            items@ == wire_hops_spec(),
            out@ == header + items@.take(i as int).map_values(hop_row_text()).flatten(),
        decreases items.len() - i,
    {
        proof {
            lemma_flatten_step(items@, hop_row_text(), i as int);
        }
        let hop = items[i];
        push_str(&mut out, "  ");
        push_decimal(&mut out, hop.ordinal as u64);
        push_str(&mut out, " wired=");
        push_bool(&mut out, hop.wired);
        push_str(&mut out, " ");
        push_str(&mut out, hop.surface);
        push_str(&mut out, " [");
        push_str(&mut out, hop.role);
        push_str(&mut out, "]\n");
        assert(out@ == header + items@.take(i + 1).map_values(hop_row_text()).flatten());
        i = i + 1;
    }
    proof {
        lemma_take_all(items@);
    }
    push_str(&mut out, "  wired=");
    push_decimal(&mut out, wired as u64);
    push_str(&mut out, "/");
    push_decimal(&mut out, hops_len as u64);
    push_str(&mut out, " refuse_matrix=");
    push_decimal(&mut out, REFUSE_PATH_MATRIX_ROW_COUNT as u64);
    push_str(&mut out, " open_residual=");
    push_decimal(&mut out, OPEN_RESIDUAL_HOP_COUNT as u64);
    push_str(&mut out, " gateway_stdio_exec=");
    push_bool(&mut out, gateway_stdio_exec_trust_pre_check_wired());
    push_str(&mut out, " mcp_wrap_green_claim_blocked=");
    push_bool(&mut out, MCP_WRAP_GREEN_CLAIM_BLOCKED);
    push_str(&mut out, " master_retick=");
    push_bool(&mut out, sec_mcp_wrap_master_retick_eligible());
    push_str(&mut out, " production_wired=");
    push_bool(&mut out, sec_mcp_wrap_production_wired());
    push_str(&mut out, "\n");
    push_str(&mut out, "  w29_cell_id=");
    push_str(&mut out, W29_CELL_ID);
    push_str(&mut out, "\n  mcp_ssot=");
    push_str(&mut out, MCP_SSOT);
    push_str(&mut out, "\n  gateway_ssot=");
    push_str(&mut out, GATEWAY_SSOT);
    push_str(&mut out, "\n");
    assert(out@ =~= wire_matrix_spec());
    out
}

/// Next-hop surface for the umst-mcp live refuse matrix eval (mcp-owned).
pub fn sec_mcp_wrap_mcp_delegate_next_hop() -> (r: &'static str)
    ensures
        r@ == "umst-concrete-cartridge/crates/umst-mcp/src/sec_mcp_wrap.rs:R-MCP-WRAP-LIVE-MATRIX"@,
{
    "umst-concrete-cartridge/crates/umst-mcp/src/sec_mcp_wrap.rs:R-MCP-WRAP-LIVE-MATRIX"
}

} // verus!
