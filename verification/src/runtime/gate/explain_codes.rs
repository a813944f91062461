//! Gate explain vocabulary — reject codes, remediation, and field hints.
//!
//! Vocabulary and remediation maps are landed. Live MCP/operator GREEN, production
//! wire, MASTER retick, and OP-5 clearance stay open.
use vstd::prelude::*;
use crate::text::{seq_contains, matches_at, str_eq, str_contains};

verus! {

/// Cell / deepen id for fleet posture probes.
pub const CELL_ID: &'static str = "W29-115-EXPLAIN_CODES";

/// Honest posture — vocabulary landed; production / GREEN / MASTER / OP-5 open.
pub const POSTURE_TAG: &'static str = "EXPLAIN_CODES_VOCAB_PARTIAL";

/// Whether the top-code vocabulary + remediation map is landed.
pub const VOCAB_LANDED: bool = true;

/// Honest deepen fence for meta / fleet probes.
pub const HONEST_FENCE: &'static str =
    "vocab_landed=true production_wired=false green_claim_blocked=true master_retick=false op5_cleared=false";

/// GREEN claim blocked — honest true until measured operator certificate.
pub const EXPLAIN_CODES_GREEN_CLAIM_BLOCKED: bool = true;

/// Rational mix field failed to parse as `a/b`.
pub const MIX_SPEC_RATIONAL_PARSE_FAIL: &'static str = "mix_spec_rational_parse_fail";
/// `MixSpec` wire validation failed.
pub const MIX_SPEC_WIRE_INVALID: &'static str = "mix_spec_wire_invalid";
/// Clausius–Duhem thermodynamic margin negative.
pub const THERMODYNAMIC_CD_FAIL: &'static str = "thermodynamic_cd_fail";
/// Generic thermodynamic admissibility failure.
pub const THERMODYNAMIC_FAIL: &'static str = "thermodynamic_fail";
/// MCP built without manifest-bridge / thermodynamic gate.
pub const MANIFEST_BRIDGE_DISABLED: &'static str = "manifest_bridge_disabled";

/// Count of top gate explain codes (pinned for deepen / census).
pub const TOP_GATE_EXPLAIN_CODE_COUNT: usize = 5;

/// The top operator-facing reject codes, in order.
pub open spec fn top_codes_spec() -> Seq<Seq<char>> {
    seq![
        MIX_SPEC_RATIONAL_PARSE_FAIL@,
        MIX_SPEC_WIRE_INVALID@,
        THERMODYNAMIC_CD_FAIL@,
        THERMODYNAMIC_FAIL@,
        MANIFEST_BRIDGE_DISABLED@,
    ]
}

/// Top operator-facing reject codes (parity-tested with cartridge MCP).
pub fn top_gate_explain_codes() -> (r: Vec<&'static str>)
    ensures
        r@.map_values(|c: &'static str| c@) == top_codes_spec(),
        r.len() == TOP_GATE_EXPLAIN_CODE_COUNT,
{
    let r = vec![
        MIX_SPEC_RATIONAL_PARSE_FAIL,
        MIX_SPEC_WIRE_INVALID,
        THERMODYNAMIC_CD_FAIL,
        THERMODYNAMIC_FAIL,
        MANIFEST_BRIDGE_DISABLED,
    ];
    assert(r@.map_values(|c: &'static str| c@) =~= top_codes_spec());
    r
}

/// Field-level hint for gate REJECT diagnostics.
#[derive(Debug, Clone, PartialEq, Eq)]
pub struct GateFieldIssue {
    pub path: String,
    pub issue: String,
}

impl View for GateFieldIssue {
    type V = (Seq<char>, Seq<char>);

    open spec fn view(&self) -> (Seq<char>, Seq<char>) {
        (self.path@, self.issue@)
    }
}

/// Typed probe for explain-codes posture honesty.
#[derive(Debug, Clone, Copy, PartialEq, Eq)]
pub struct ExplainCodesPostureProbe {
    pub cell_id: &'static str,
    pub posture_tag: &'static str,
    pub vocab_landed: bool,
    pub top_code_count: usize,
    pub production_wired: bool,
    pub green_claim_blocked: bool,
    pub master_retick_eligible: bool,
    pub op5_cleared: bool,
    pub honest_fence: &'static str,
}

/// Live production wire for gate-explain operator path — honest **false**.
pub fn explain_codes_production_wired() -> (r: bool)
    ensures
        !r,
{
    false
}

/// MASTER retick eligibility — honest **false** (not claimed from vocab deepen).
pub fn explain_codes_master_retick_eligible() -> (r: bool)
    ensures
        !r,
{
    false
}

/// OP-5 clearance — honest **false** (not claimed from vocab deepen).
pub fn explain_codes_op5_cleared() -> (r: bool)
    ensures
        !r,
{
    false
}

/// Whether `code` is one of the top gate explain codes.
pub fn is_top_gate_explain_code(code: &str) -> (r: bool)
    ensures
        r == top_codes_spec().contains(code@),
{
    let codes = top_gate_explain_codes();
    let mut i: usize = 0;
    while i < codes.len()
        invariant
            codes@.map_values(|c: &'static str| c@) == top_codes_spec(),
            i <= codes.len(),
            forall|k: int| 0 <= k < i ==> top_codes_spec()[k] != code@,
        decreases codes.len() - i,
    {
        if str_eq(codes[i], code) {
            assert(top_codes_spec()[i as int] == code@);
            return true;
        }
        i = i + 1;
    }
    false
}

/// Build introspection probe for done-when / fleet checks.
pub fn explain_codes_posture_probe() -> (r: ExplainCodesPostureProbe)
    ensures
        r == (ExplainCodesPostureProbe {
            cell_id: CELL_ID,
            posture_tag: POSTURE_TAG,
            vocab_landed: true,
            top_code_count: TOP_GATE_EXPLAIN_CODE_COUNT,
            production_wired: false,
            green_claim_blocked: true,
            master_retick_eligible: false,
            op5_cleared: false,
            honest_fence: HONEST_FENCE,
        }),
{
    ExplainCodesPostureProbe {
        cell_id: CELL_ID,
        posture_tag: POSTURE_TAG,
        vocab_landed: VOCAB_LANDED,
        top_code_count: TOP_GATE_EXPLAIN_CODE_COUNT,
        production_wired: explain_codes_production_wired(),
        green_claim_blocked: EXPLAIN_CODES_GREEN_CLAIM_BLOCKED,
        master_retick_eligible: explain_codes_master_retick_eligible(),
        op5_cleared: explain_codes_op5_cleared(),
        honest_fence: HONEST_FENCE,
    }
}

/// The posture honesty predicate over a probe.
pub open spec fn posture_honest_spec(probe: ExplainCodesPostureProbe) -> bool {
    &&& probe.cell_id@ == CELL_ID@
    &&& probe.posture_tag@ == POSTURE_TAG@
    &&& probe.vocab_landed
    &&& probe.top_code_count == TOP_GATE_EXPLAIN_CODE_COUNT
    &&& !probe.production_wired
    &&& probe.green_claim_blocked
    &&& !probe.master_retick_eligible
    &&& !probe.op5_cleared
    &&& seq_contains(probe.honest_fence@, "vocab_landed=true"@)
    &&& seq_contains(probe.honest_fence@, "production_wired=false"@)
    &&& seq_contains(probe.honest_fence@, "green_claim_blocked=true"@)
    &&& seq_contains(probe.honest_fence@, "master_retick=false"@)
    &&& seq_contains(probe.honest_fence@, "op5_cleared=false"@)
}

/// Posture honesty gate — vocabulary real; production / GREEN / MASTER / OP-5 fenced.
pub fn explain_codes_posture_honest(probe: &ExplainCodesPostureProbe) -> (r: bool)
    ensures
        r == posture_honest_spec(*probe),
{
    let codes = top_gate_explain_codes();
    str_eq(probe.cell_id, CELL_ID) && str_eq(probe.posture_tag, POSTURE_TAG) && probe.vocab_landed
        && probe.top_code_count == codes.len() && !probe.production_wired
        && probe.green_claim_blocked && !probe.master_retick_eligible && !probe.op5_cleared
        && str_contains(probe.honest_fence, "vocab_landed=true") && str_contains(
        probe.honest_fence,
        "production_wired=false",
    ) && str_contains(probe.honest_fence, "green_claim_blocked=true") && str_contains(
        probe.honest_fence,
        "master_retick=false",
    ) && str_contains(probe.honest_fence, "op5_cleared=false")
}

/// The measured fence text carries every required non-claim.
pub proof fn lemma_honest_fence_non_claims()
    ensures
        seq_contains(HONEST_FENCE@, "vocab_landed=true"@),
        seq_contains(HONEST_FENCE@, "production_wired=false"@),
        seq_contains(HONEST_FENCE@, "green_claim_blocked=true"@),
        seq_contains(HONEST_FENCE@, "master_retick=false"@),
        seq_contains(HONEST_FENCE@, "op5_cleared=false"@),
{
    reveal_strlit(
        "vocab_landed=true production_wired=false green_claim_blocked=true master_retick=false op5_cleared=false",
    );
    reveal_strlit("vocab_landed=true");
    reveal_strlit("production_wired=false");
    reveal_strlit("green_claim_blocked=true");
    reveal_strlit("master_retick=false");
    reveal_strlit("op5_cleared=false");
    assert(HONEST_FENCE@.subrange(0, 17) =~= "vocab_landed=true"@);
    assert(matches_at(HONEST_FENCE@, "vocab_landed=true"@, 0));
    assert(HONEST_FENCE@.subrange(18, 40) =~= "production_wired=false"@);
    assert(matches_at(HONEST_FENCE@, "production_wired=false"@, 18));
    assert(HONEST_FENCE@.subrange(41, 65) =~= "green_claim_blocked=true"@);
    assert(matches_at(HONEST_FENCE@, "green_claim_blocked=true"@, 41));
    assert(HONEST_FENCE@.subrange(66, 85) =~= "master_retick=false"@);
    assert(matches_at(HONEST_FENCE@, "master_retick=false"@, 66));
    assert(HONEST_FENCE@.subrange(86, 103) =~= "op5_cleared=false"@);
    assert(matches_at(HONEST_FENCE@, "op5_cleared=false"@, 86));
}

/// Validate posture honesty — fail closed on fake GREEN / production / MASTER / OP-5 claims.
pub fn validate_explain_codes_posture_honesty() -> (r: Result<(), &'static str>)
    ensures
        r is Ok,
{
    let probe = explain_codes_posture_probe();
    if probe.production_wired {
        return Err("explain_codes_production_wired must stay false until live MCP wire");
    }
    if !probe.green_claim_blocked {
        return Err("EXPLAIN_CODES_GREEN_CLAIM_BLOCKED must stay true");
    }
    if probe.master_retick_eligible {
        return Err("explain_codes_master_retick_eligible must stay false");
    }
    if probe.op5_cleared {
        return Err("explain_codes_op5_cleared must stay false");
    }
    if !probe.vocab_landed {
        return Err("vocab_landed must stay true at W29-115");
    }
    proof {
        lemma_honest_fence_non_claims();
    }
    if !explain_codes_posture_honest(&probe) {
        return Err("explain_codes_posture_honest failed");
    }
    Ok(())
}

/// Remediation text for the rational-parse code.
pub open spec fn remediation_rational_parse() -> Seq<char> {
    "Use rational strings like \"3/4\" for all mix fields (not floats or bare numbers); ensure w_c and temperature_k are present."@
}

/// Remediation text for an unknown code.
pub open spec fn remediation_default() -> Seq<char> {
    "See regime_violations codes and umst://schemas/gate_reject.v1.json; fix mix_spec and re-run gate check."@
}

/// The one-line remediation for each reject code.
pub open spec fn remediation_spec(code: Seq<char>) -> Seq<char> {
    if code == MIX_SPEC_RATIONAL_PARSE_FAIL@ {
        remediation_rational_parse()
    } else if code == MIX_SPEC_WIRE_INVALID@ {
        "mix_spec failed MixSpec validation; compare field names and rational formats against umst://schemas/contribution.v1.json."@
    } else if code == THERMODYNAMIC_CD_FAIL@ {
        "Mix violates Clausius–Duhem margin; reduce w_c, adjust temperature_k, or change the thermal schedule before re-checking."@
    } else if code == MANIFEST_BRIDGE_DISABLED@ {
        "Build umst-mcp with agent-layer and manifest-bridge features so the thermodynamic gate runs."@
    } else if code == THERMODYNAMIC_FAIL@ {
        "Thermodynamic admissibility failed; run umst_gate_check with explain:true and adjust mix_spec until verdict is PASS."@
    } else {
        remediation_default()
    }
}

/// One-line remediation for a regime-violation code.
pub fn remediation_for_code(code: &str) -> (r: &'static str)
    ensures
        r@ == remediation_spec(code@),
{
    if str_eq(code, MIX_SPEC_RATIONAL_PARSE_FAIL) {
        "Use rational strings like \"3/4\" for all mix fields (not floats or bare numbers); ensure w_c and temperature_k are present."
    } else if str_eq(code, MIX_SPEC_WIRE_INVALID) {
        "mix_spec failed MixSpec validation; compare field names and rational formats against umst://schemas/contribution.v1.json."
    } else if str_eq(code, THERMODYNAMIC_CD_FAIL) {
        "Mix violates Clausius–Duhem margin; reduce w_c, adjust temperature_k, or change the thermal schedule before re-checking."
    } else if str_eq(code, MANIFEST_BRIDGE_DISABLED) {
        "Build umst-mcp with agent-layer and manifest-bridge features so the thermodynamic gate runs."
    } else if str_eq(code, THERMODYNAMIC_FAIL) {
        "Thermodynamic admissibility failed; run umst_gate_check with explain:true and adjust mix_spec until verdict is PASS."
    } else {
        "See regime_violations codes and umst://schemas/gate_reject.v1.json; fix mix_spec and re-run gate check."
    }
}

/// Field paths implicated by a reject code; the caller says whether the mix carries a temperature.
pub open spec fn fields_spec(code: Seq<char>, mix_has_temperature_k: bool) -> Seq<
    (Seq<char>, Seq<char>),
> {
    if code == MIX_SPEC_RATIONAL_PARSE_FAIL@ {
        seq![("mix"@, "rational_parse_fail"@)]
    } else if code == MIX_SPEC_WIRE_INVALID@ {
        seq![("mix"@, "wire_invalid"@)]
    } else if code == THERMODYNAMIC_CD_FAIL@ || code == THERMODYNAMIC_FAIL@ {
        if mix_has_temperature_k {
            seq![
                ("mix.w_c"@, "cd_margin_negative"@),
                ("mix.temperature_k"@, "regime_out_of_envelope"@),
            ]
        } else {
            seq![("mix.w_c"@, "cd_margin_negative"@)]
        }
    } else if code == MANIFEST_BRIDGE_DISABLED@ {
        seq![("build.features"@, "manifest_bridge_disabled"@)]
    } else {
        seq![]
    }
}

fn field_issue(path: &str, issue: &str) -> (r: GateFieldIssue)
    ensures
        r@ == (path@, issue@),
{
    GateFieldIssue { path: String::from_str(path), issue: String::from_str(issue) }
}

/// Field paths implicated by a reject code (mix-json agnostic — caller supplies presence hints).
pub fn fields_for_code(code: &str, mix_has_temperature_k: bool) -> (r: Vec<GateFieldIssue>)
    ensures
        r@.map_values(|f: GateFieldIssue| f@) == fields_spec(code@, mix_has_temperature_k),
{
    let mut out: Vec<GateFieldIssue> = Vec::new();
    if str_eq(code, MIX_SPEC_RATIONAL_PARSE_FAIL) {
        out.push(field_issue("mix", "rational_parse_fail"));
    } else if str_eq(code, MIX_SPEC_WIRE_INVALID) {
        out.push(field_issue("mix", "wire_invalid"));
    } else if str_eq(code, THERMODYNAMIC_CD_FAIL) || str_eq(code, THERMODYNAMIC_FAIL) {
        out.push(field_issue("mix.w_c", "cd_margin_negative"));
        if mix_has_temperature_k {
            out.push(field_issue("mix.temperature_k", "regime_out_of_envelope"));
        }
    } else if str_eq(code, MANIFEST_BRIDGE_DISABLED) {
        out.push(field_issue("build.features", "manifest_bridge_disabled"));
    }
    assert(out@.map_values(|f: GateFieldIssue| f@) =~= fields_spec(code@, mix_has_temperature_k));
    out
}

/// The remediation length of top code 0.
proof fn lemma_remediation_len_0()
    ensures
        remediation_spec(top_codes_spec()[0]).len() == 122,
{
    reveal_strlit("mix_spec_rational_parse_fail");
    reveal_strlit("mix_spec_wire_invalid");
    reveal_strlit("thermodynamic_cd_fail");
    reveal_strlit("thermodynamic_fail");
    reveal_strlit("manifest_bridge_disabled");
    reveal_strlit("Use rational strings like \"3/4\" for all mix fields (not floats or bare numbers); ensure w_c and temperature_k are present.");
    assert(MIX_SPEC_RATIONAL_PARSE_FAIL@.len() == 28);
    assert(MIX_SPEC_WIRE_INVALID@.len() == 21);
    assert(THERMODYNAMIC_CD_FAIL@.len() == 21);
    assert(THERMODYNAMIC_FAIL@.len() == 18);
    assert(MANIFEST_BRIDGE_DISABLED@.len() == 24);
    assert(THERMODYNAMIC_CD_FAIL@[0] != MIX_SPEC_WIRE_INVALID@[0]);
    assert(THERMODYNAMIC_CD_FAIL@ != MIX_SPEC_WIRE_INVALID@);
    assert(top_codes_spec()[0] == MIX_SPEC_RATIONAL_PARSE_FAIL@);
    assert(remediation_spec(top_codes_spec()[0]) == "Use rational strings like \"3/4\" for all mix fields (not floats or bare numbers); ensure w_c and temperature_k are present."@);
}

/// The remediation length of top code 1.
proof fn lemma_remediation_len_1()
    ensures
        remediation_spec(top_codes_spec()[1]).len() == 121,
{
    reveal_strlit("mix_spec_rational_parse_fail");
    reveal_strlit("mix_spec_wire_invalid");
    reveal_strlit("thermodynamic_cd_fail");
    reveal_strlit("thermodynamic_fail");
    reveal_strlit("manifest_bridge_disabled");
    reveal_strlit("mix_spec failed MixSpec validation; compare field names and rational formats against umst://schemas/contribution.v1.json.");
    assert(MIX_SPEC_RATIONAL_PARSE_FAIL@.len() == 28);
    assert(MIX_SPEC_WIRE_INVALID@.len() == 21);
    assert(THERMODYNAMIC_CD_FAIL@.len() == 21);
    assert(THERMODYNAMIC_FAIL@.len() == 18);
    assert(MANIFEST_BRIDGE_DISABLED@.len() == 24);
    assert(THERMODYNAMIC_CD_FAIL@[0] != MIX_SPEC_WIRE_INVALID@[0]);
    assert(THERMODYNAMIC_CD_FAIL@ != MIX_SPEC_WIRE_INVALID@);
    assert(top_codes_spec()[1] == MIX_SPEC_WIRE_INVALID@);
    assert(remediation_spec(top_codes_spec()[1]) == "mix_spec failed MixSpec validation; compare field names and rational formats against umst://schemas/contribution.v1.json."@);
}

/// The remediation length of top code 2.
proof fn lemma_remediation_len_2()
    ensures
        remediation_spec(top_codes_spec()[2]).len() == 120,
{
    reveal_strlit("mix_spec_rational_parse_fail");
    reveal_strlit("mix_spec_wire_invalid");
    reveal_strlit("thermodynamic_cd_fail");
    reveal_strlit("thermodynamic_fail");
    reveal_strlit("manifest_bridge_disabled");
    reveal_strlit("Mix violates Clausius–Duhem margin; reduce w_c, adjust temperature_k, or change the thermal schedule before re-checking.");
    assert(MIX_SPEC_RATIONAL_PARSE_FAIL@.len() == 28);
    assert(MIX_SPEC_WIRE_INVALID@.len() == 21);
    assert(THERMODYNAMIC_CD_FAIL@.len() == 21);
    assert(THERMODYNAMIC_FAIL@.len() == 18);
    assert(MANIFEST_BRIDGE_DISABLED@.len() == 24);
    assert(THERMODYNAMIC_CD_FAIL@[0] != MIX_SPEC_WIRE_INVALID@[0]);
    assert(THERMODYNAMIC_CD_FAIL@ != MIX_SPEC_WIRE_INVALID@);
    assert(top_codes_spec()[2] == THERMODYNAMIC_CD_FAIL@);
    assert(remediation_spec(top_codes_spec()[2]) == "Mix violates Clausius–Duhem margin; reduce w_c, adjust temperature_k, or change the thermal schedule before re-checking."@);
}

/// The remediation length of top code 3.
proof fn lemma_remediation_len_3()
    ensures
        remediation_spec(top_codes_spec()[3]).len() == 116,
{
    reveal_strlit("mix_spec_rational_parse_fail");
    reveal_strlit("mix_spec_wire_invalid");
    reveal_strlit("thermodynamic_cd_fail");
    reveal_strlit("thermodynamic_fail");
    reveal_strlit("manifest_bridge_disabled");
    reveal_strlit("Thermodynamic admissibility failed; run umst_gate_check with explain:true and adjust mix_spec until verdict is PASS.");
    assert(MIX_SPEC_RATIONAL_PARSE_FAIL@.len() == 28);
    assert(MIX_SPEC_WIRE_INVALID@.len() == 21);
    assert(THERMODYNAMIC_CD_FAIL@.len() == 21);
    assert(THERMODYNAMIC_FAIL@.len() == 18);
    assert(MANIFEST_BRIDGE_DISABLED@.len() == 24);
    assert(THERMODYNAMIC_CD_FAIL@[0] != MIX_SPEC_WIRE_INVALID@[0]);
    assert(THERMODYNAMIC_CD_FAIL@ != MIX_SPEC_WIRE_INVALID@);
    assert(top_codes_spec()[3] == THERMODYNAMIC_FAIL@);
    assert(remediation_spec(top_codes_spec()[3]) == "Thermodynamic admissibility failed; run umst_gate_check with explain:true and adjust mix_spec until verdict is PASS."@);
}

/// The remediation length of top code 4.
proof fn lemma_remediation_len_4()
    ensures
        remediation_spec(top_codes_spec()[4]).len() == 92,
{
    reveal_strlit("mix_spec_rational_parse_fail");
    reveal_strlit("mix_spec_wire_invalid");
    reveal_strlit("thermodynamic_cd_fail");
    reveal_strlit("thermodynamic_fail");
    reveal_strlit("manifest_bridge_disabled");
    reveal_strlit("Build umst-mcp with agent-layer and manifest-bridge features so the thermodynamic gate runs.");
    assert(MIX_SPEC_RATIONAL_PARSE_FAIL@.len() == 28);
    assert(MIX_SPEC_WIRE_INVALID@.len() == 21);
    assert(THERMODYNAMIC_CD_FAIL@.len() == 21);
    assert(THERMODYNAMIC_FAIL@.len() == 18);
    assert(MANIFEST_BRIDGE_DISABLED@.len() == 24);
    assert(THERMODYNAMIC_CD_FAIL@[0] != MIX_SPEC_WIRE_INVALID@[0]);
    assert(THERMODYNAMIC_CD_FAIL@ != MIX_SPEC_WIRE_INVALID@);
    assert(top_codes_spec()[4] == MANIFEST_BRIDGE_DISABLED@);
    assert(remediation_spec(top_codes_spec()[4]) == "Build umst-mcp with agent-layer and manifest-bridge features so the thermodynamic gate runs."@);
}

/// Law: every top reject code gets a remediation of its own — no two of the five share a
/// text, none falls back to the generic text — and the Clausius–Duhem code's remediation
/// names the Clausius–Duhem margin.
pub proof fn lemma_remediation_per_code()
    ensures
        forall|a: int, b: int|
            0 <= a < 5 && 0 <= b < 5 && a != b ==> remediation_spec(#[trigger] top_codes_spec()[a])
                != remediation_spec(#[trigger] top_codes_spec()[b]),
        forall|a: int| 0 <= a < 5 ==> remediation_spec(#[trigger] top_codes_spec()[a]) != remediation_default(),
        seq_contains(remediation_spec(THERMODYNAMIC_CD_FAIL@), "Clausius–Duhem margin"@),
{
    lemma_remediation_len_0();
    lemma_remediation_len_1();
    lemma_remediation_len_2();
    lemma_remediation_len_3();
    lemma_remediation_len_4();
    reveal_strlit("See regime_violations codes and umst://schemas/gate_reject.v1.json; fix mix_spec and re-run gate check.");
    assert(remediation_default().len() == 103);
    reveal_strlit("Clausius–Duhem margin");
    reveal_strlit("Mix violates Clausius–Duhem margin; reduce w_c, adjust temperature_k, or change the thermal schedule before re-checking.");
    assert(top_codes_spec()[2] == THERMODYNAMIC_CD_FAIL@);
    lemma_remediation_len_2();
    let r = remediation_spec(THERMODYNAMIC_CD_FAIL@);
    assert(r == "Mix violates Clausius–Duhem margin; reduce w_c, adjust temperature_k, or change the thermal schedule before re-checking."@) by {
        reveal_strlit("mix_spec_rational_parse_fail");
        reveal_strlit("mix_spec_wire_invalid");
        reveal_strlit("thermodynamic_cd_fail");
        reveal_strlit("thermodynamic_fail");
        reveal_strlit("manifest_bridge_disabled");
        reveal_strlit("Mix violates Clausius–Duhem margin; reduce w_c, adjust temperature_k, or change the thermal schedule before re-checking.");
        assert(MIX_SPEC_RATIONAL_PARSE_FAIL@.len() == 28);
        assert(MIX_SPEC_WIRE_INVALID@.len() == 21);
        assert(THERMODYNAMIC_CD_FAIL@.len() == 21);
        assert(THERMODYNAMIC_FAIL@.len() == 18);
        assert(MANIFEST_BRIDGE_DISABLED@.len() == 24);
        assert(THERMODYNAMIC_CD_FAIL@[0] != MIX_SPEC_WIRE_INVALID@[0]);
        assert(THERMODYNAMIC_CD_FAIL@ != MIX_SPEC_WIRE_INVALID@);
    }
    assert(r.subrange(13, 34) =~= "Clausius–Duhem margin"@);
    assert(matches_at(r, "Clausius–Duhem margin"@, 13));
    assert forall|a: int, b: int|
        0 <= a < 5 && 0 <= b < 5 && a != b implies remediation_spec(#[trigger] top_codes_spec()[a])
            != remediation_spec(#[trigger] top_codes_spec()[b]) by {
        assert(remediation_spec(top_codes_spec()[a]).len() != remediation_spec(top_codes_spec()[b]).len());
    };
}

/// Law: the temperature field is reported only when the caller says the mix carries
/// `temperature_k` — for every code — and the Clausius–Duhem and generic thermodynamic codes
/// implicate the same fields for the same hint, always starting with `mix.w_c`.
pub proof fn lemma_temperature_field_only_on_hint(code: Seq<char>, hint: bool)
    ensures
        forall|i: int| 0 <= i < fields_spec(code, false).len() ==> (#[trigger] fields_spec(code, false)[i]).0 != "mix.temperature_k"@,
        fields_spec(THERMODYNAMIC_CD_FAIL@, hint) == fields_spec(THERMODYNAMIC_FAIL@, hint),
        fields_spec(THERMODYNAMIC_FAIL@, hint)[0] == ("mix.w_c"@, "cd_margin_negative"@),
        hint ==> fields_spec(THERMODYNAMIC_FAIL@, hint).contains(("mix.temperature_k"@, "regime_out_of_envelope"@)),
{
    reveal_strlit("mix_spec_rational_parse_fail");
    reveal_strlit("mix_spec_wire_invalid");
    reveal_strlit("thermodynamic_cd_fail");
    reveal_strlit("thermodynamic_fail");
    reveal_strlit("manifest_bridge_disabled");
    reveal_strlit("mix");
    reveal_strlit("mix.w_c");
    reveal_strlit("mix.temperature_k");
    reveal_strlit("build.features");
    reveal_strlit("cd_margin_negative");
    reveal_strlit("regime_out_of_envelope");
    assert(MIX_SPEC_RATIONAL_PARSE_FAIL@.len() == 28);
    assert(MIX_SPEC_WIRE_INVALID@.len() == 21);
    assert(THERMODYNAMIC_CD_FAIL@.len() == 21);
    assert(THERMODYNAMIC_FAIL@.len() == 18);
    assert(MANIFEST_BRIDGE_DISABLED@.len() == 24);
    assert(THERMODYNAMIC_CD_FAIL@[0] != MIX_SPEC_WIRE_INVALID@[0]);
    assert(THERMODYNAMIC_CD_FAIL@ != MIX_SPEC_WIRE_INVALID@);
    assert(THERMODYNAMIC_FAIL@ != MIX_SPEC_RATIONAL_PARSE_FAIL@);
    assert(THERMODYNAMIC_FAIL@ != MIX_SPEC_WIRE_INVALID@);
    assert("mix"@.len() == 3);
    assert("mix.w_c"@.len() == 7);
    assert("mix.temperature_k"@.len() == 17);
    assert("build.features"@.len() == 14);
    if hint {
        assert(fields_spec(THERMODYNAMIC_FAIL@, hint)[1] == ("mix.temperature_k"@, "regime_out_of_envelope"@));
    }
}

} // verus!
