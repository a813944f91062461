//! SEC-S5 — manifold gate runtime synthetic consensus wire map.
//!
//! The manifold gate runtime owns the cold-edge census bridging transition evidence to the
//! SEC-S5 synthetic consensus SSOT; the L-N0 formal proof, live multi-LLM fan-out and the
//! gateway HCOM provenance flip stay honestly open.
//!
//! The consensus algebra is exact and local: FNV-1a response-shape hashes, equivalence-class
//! splits, the trust-rank resolution heuristic, and an explicit session store whose open /
//! resolve lifecycle is specified here. Census and consensus deepen only: no physics GREEN,
//! no PRODUCTION_WIRED, no MASTER retick, no OP-5 PASS.
use vstd::prelude::*;
use vstd::string::StringSliceAdditionalSpecFns;
use crate::text::{
    seq_contains, matches_at, str_eq, str_contains, string_contains, decimal, bool_text,
    push_str, push_bool, push_decimal, count_where, lemma_count_step, lemma_flatten_step,
    lemma_take_all, lemma_contains_extend, str_views, str_list_contains,
};
use crate::runtime::gate::evidence::{TransitionEvidence, witness_admits, cold_edge_witness_admits};

verus! {

// ---------------------------------------------------------------------------
// FNV-1a response-shape hashing
// ---------------------------------------------------------------------------

/// FNV-1a 64-bit offset basis.
pub const FNV_OFFSET_BASIS: u64 = 0xcbf29ce484222325;

/// FNV-1a 64-bit prime.
pub const FNV_PRIME: u64 = 0x100000001b3;

/// One FNV-1a step: xor the byte in, multiply by the prime (wrapping).
pub open spec fn fnv_step(h: u64, b: u8) -> u64 {
    (h ^ (b as u64)).wrapping_mul(FNV_PRIME)
}

/// FNV-1a over `bytes`, starting from `h`.
pub open spec fn fnv_fold(h: u64, bytes: Seq<u8>) -> u64
    decreases bytes.len(),
{
    if bytes.len() == 0 {
        h
    } else {
        fnv_step(fnv_fold(h, bytes.drop_last()), bytes.last())
    }
}

/// `16^n`.
pub open spec fn pow16(n: nat) -> nat
    decreases n,
{
    if n == 0 {
        1
    } else {
        16 * pow16((n - 1) as nat)
    }
}

/// Powers of sixteen are positive.
pub proof fn lemma_pow16_pos(n: nat)
    ensures
        pow16(n) > 0,
    decreases n,
{
    if n > 0 {
        lemma_pow16_pos((n - 1) as nat);
    }
}

/// Lower-case hex digit for `d < 16`.
pub open spec fn hex_digit_char(d: nat) -> char {
    if d < 10 {
        (48 + d) as char
    } else {
        (87 + d) as char
    }
}

/// Sixteen lower-case hex digits of `h` (`{:016x}`).
pub open spec fn hex16(h: u64) -> Seq<char> {
    Seq::new(16, |k: int| hex_digit_char((h as nat / pow16((15 - k) as nat)) % 16))
}

/// FNV-1a of `seed` then `data`, as sixteen hex digits.
#[verifier::opaque]
pub open spec fn fnv1a_hex_spec(seed: Seq<u8>, data: Seq<u8>) -> Seq<char> {
    hex16(fnv_fold(fnv_fold(FNV_OFFSET_BASIS, seed), data))
}

fn hex_digit_str(d: u64) -> (s: &'static str)
    requires
        d < 16,
    ensures
        s@ == seq![hex_digit_char(d as nat)],
{
    proof {
        reveal_strlit("0");
        reveal_strlit("1");
        reveal_strlit("2");
        reveal_strlit("3");
        reveal_strlit("4");
        reveal_strlit("5");
        reveal_strlit("6");
        reveal_strlit("7");
        reveal_strlit("8");
        reveal_strlit("9");
        reveal_strlit("a");
        reveal_strlit("b");
        reveal_strlit("c");
        reveal_strlit("d");
        reveal_strlit("e");
        reveal_strlit("f");
    }
    if d == 0 {
        "0"
    } else if d == 1 {
        "1"
    } else if d == 2 {
        "2"
    } else if d == 3 {
        "3"
    } else if d == 4 {
        "4"
    } else if d == 5 {
        "5"
    } else if d == 6 {
        "6"
    } else if d == 7 {
        "7"
    } else if d == 8 {
        "8"
    } else if d == 9 {
        "9"
    } else if d == 10 {
        "a"
    } else if d == 11 {
        "b"
    } else if d == 12 {
        "c"
    } else if d == 13 {
        "d"
    } else if d == 14 {
        "e"
    } else {
        "f"
    }
}

/// Fold `bytes` into the running FNV-1a hash.
fn fnv_fold_exec(h0: u64, bytes: &[u8]) -> (r: u64)
    ensures
        r == fnv_fold(h0, bytes@),
{
    let mut hash = h0;
    let mut i: usize = 0;
    while i < bytes.len()
        invariant
            i <= bytes.len(),
            hash == fnv_fold(h0, bytes@.take(i as int)),
        decreases bytes.len() - i,
    {
        assert(bytes@.take(i + 1).drop_last() =~= bytes@.take(i as int));
        hash = (hash ^ bytes[i] as u64).wrapping_mul(FNV_PRIME);
        i = i + 1;
    }
    assert(bytes@.take(bytes.len() as int) =~= bytes@);
    hash
}

/// FNV-1a 64 of `seed` then `data`, rendered as sixteen lower-case hex digits.
fn fnv1a_hex(seed: &[u8], data: &[u8]) -> (r: String)
    ensures
        r@ == fnv1a_hex_spec(seed@, data@),
{
    let hash = fnv_fold_exec(fnv_fold_exec(FNV_OFFSET_BASIS, seed), data);
    proof {
        reveal(fnv1a_hex_spec);
    }
    let mut out = String::new();
    let mut div: u64 = 0x1000_0000_0000_0000;
    let mut k: usize = 0;
    proof {
        reveal_with_fuel(pow16, 17);
    }
    while k < 16
        invariant
            k <= 16,
            div as nat == pow16((15 - k) as nat) || (k == 16 && div == 0),
            out@ == hex16(hash).take(k as int),
        decreases 16 - k,
    {
        proof {
            lemma_pow16_pos((15 - k) as nat);
        }
        let d = (hash / div) % 16;
        let piece = hex_digit_str(d);
        out.append(piece);
        assert(out@ =~= hex16(hash).take(k + 1));
        proof {
            if k < 15 {
                assert(pow16((15 - k) as nat) == 16 * pow16((14 - k) as nat));
            }
        }
        div = div / 16;
        k = k + 1;
    }
    assert(out@ =~= hex16(hash));
    out
}

/// `UMST_CONSENSUS_SDF_V1`
pub open spec fn sdf_seed() -> Seq<u8> {
    seq![85u8, 77, 83, 84, 95, 67, 79, 78, 83, 69, 78, 83, 85, 83, 95, 83, 68, 70, 95, 86, 49]
}

/// `UMST_RESPONSE_SHAPE_V1`
pub open spec fn shape_seed_prefix() -> Seq<u8> {
    seq![85u8, 77, 83, 84, 95, 82, 69, 83, 80, 79, 78, 83, 69, 95, 83, 72, 65, 80, 69, 95, 86, 49]
}

/// `:divergent`
pub open spec fn divergent_suffix() -> Seq<u8> {
    seq![58u8, 100, 105, 118, 101, 114, 103, 101, 110, 116]
}

/// Canonical request SDF hash of a prompt.
pub open spec fn canonical_sdf_hash_spec(prompt: &str) -> Seq<char> {
    fnv1a_hex_spec(sdf_seed(), prompt.spec_bytes())
}

/// Seed of a provider's response-shape hash (`minimax` is marked divergent).
pub open spec fn shape_seed(provider: &str) -> Seq<u8> {
    shape_seed_prefix() + provider.spec_bytes() + if provider@ == "minimax"@ {
        divergent_suffix()
    } else {
        Seq::empty()
    }
}

/// Response-shape hash of a provider's answer to a prompt.
pub open spec fn response_shape_hash_spec(provider: &str, prompt: &str) -> Seq<char> {
    fnv1a_hex_spec(shape_seed(provider), prompt.spec_bytes())
}

fn canonical_request_sdf_hash(prompt: &str) -> (r: String)
    ensures
        r@ == canonical_sdf_hash_spec(prompt),
{
    let seed = vec![85u8, 77, 83, 84, 95, 67, 79, 78, 83, 69, 78, 83, 85, 83, 95, 83, 68, 70, 95, 86, 49];
    assert(seed@ =~= sdf_seed());
    fnv1a_hex(seed.as_slice(), prompt.as_bytes())
}

fn response_shape_hash(provider: &str, prompt: &str) -> (r: String)
    ensures
        r@ == response_shape_hash_spec(provider, prompt),
{
    let mut seed = vec![85u8, 77, 83, 84, 95, 82, 69, 83, 80, 79, 78, 83, 69, 95, 83, 72, 65, 80, 69, 95, 86, 49];
    assert(seed@ =~= shape_seed_prefix());
    let pb = provider.as_bytes();
    let mut i: usize = 0;
    let ghost start = seed@;
    while i < pb.len()
        invariant
            i <= pb.len(),
            seed@ == start + pb@.take(i as int),
        decreases pb.len() - i,
    {
        seed.push(pb[i]);
        i = i + 1;
        assert(seed@ =~= start + pb@.take(i as int));
    }
    assert(pb@.take(pb.len() as int) =~= pb@);
    let ghost mid = seed@;
    if str_eq(provider, "minimax") {
        let suffix = vec![58u8, 100, 105, 118, 101, 114, 103, 101, 110, 116];
        let mut j: usize = 0;
        while j < suffix.len()
            invariant
                j <= suffix.len(),
                suffix@ == divergent_suffix(),
                seed@ == mid + suffix@.take(j as int),
            decreases suffix.len() - j,
        {
            seed.push(suffix[j]);
            j = j + 1;
            assert(seed@ =~= mid + suffix@.take(j as int));
        }
        assert(suffix@.take(suffix.len() as int) =~= suffix@);
    }
    assert(seed@ =~= shape_seed(provider));
    fnv1a_hex(seed.as_slice(), prompt.as_bytes())
}

// ---------------------------------------------------------------------------
// Attestations, disagreements and the trust-rank heuristic
// ---------------------------------------------------------------------------

/// Auto-consensus tier scaffold (no live env fan-out).
#[derive(Debug, Clone, Copy, PartialEq, Eq, Structural)]
pub enum AutoConsensusTier {
    Off,
    Device,
    Federated,
}

/// Disagreement taxonomy for cross-model events (manifold cold-edge algebra).
#[derive(Debug, Clone, Copy, PartialEq, Eq, Structural)]
pub enum DisagreementKind {
    ShapeMismatch,
    AttestationDivergence,
    TimeoutPartial,
    EquivalenceClassSplit,
}

/// Stable audit label of a disagreement kind.
pub open spec fn disagreement_kind_label(k: DisagreementKind) -> Seq<char> {
    match k {
        DisagreementKind::ShapeMismatch => "shape_mismatch"@,
        DisagreementKind::AttestationDivergence => "attestation_divergence"@,
        DisagreementKind::TimeoutPartial => "timeout_partial"@,
        DisagreementKind::EquivalenceClassSplit => "equivalence_class_split"@,
    }
}

impl DisagreementKind {
    /// Stable label for audit export.
    pub fn as_str(self) -> (r: &'static str)
        ensures
            r@ == disagreement_kind_label(self),
    {
        match self {
            DisagreementKind::ShapeMismatch => "shape_mismatch",
            DisagreementKind::AttestationDivergence => "attestation_divergence",
            DisagreementKind::TimeoutPartial => "timeout_partial",
            DisagreementKind::EquivalenceClassSplit => "equivalence_class_split",
        }
    }
}

/// One synthetic model attestation at the manifold boundary (no live LLM response).
#[derive(Debug)]
pub struct ManifoldModelAttestation {
    pub provider: String,
    /// Response-shape hash.
    pub response_shape_hash: String,
    /// Trust attestation rank (§8 Q4 heuristic).
    pub trust_attestation_rank: u8,
}

/// Cross-model disagreement event at the manifold cold edge.
#[derive(Debug)]
pub struct ManifoldCrossModelDisagreement {
    pub session_id: String,
    /// Canonical SDF hash.
    pub canonical_sdf_hash: String,
    pub disagreement_kind: DisagreementKind,
    /// Suggested provider (§8 Q4).
    pub suggested_provider: Option<String>,
}

/// Tier-3 provider identifiers and trust ranks for synthetic consensus algebra (no network).
pub open spec fn provider_table_spec() -> Seq<(&'static str, u8)> {
    seq![("grok", 3u8), ("gemini", 2u8), ("minimax", 1u8)]
}

/// Tier-3 provider identifiers and trust ranks for synthetic consensus algebra (no network).
pub fn consensus_provider_table() -> (r: Vec<(&'static str, u8)>)
    ensures
        r@ == provider_table_spec(),
{
    let r = vec![("grok", 3u8), ("gemini", 2u8), ("minimax", 1u8)];
    assert(r@ =~= provider_table_spec());
    r
}

fn owned(s: &str) -> (r: String)
    ensures
        r@ == s@,
{
    s.to_owned()
}

/// Attestations where every provider answers with grok's response shape.
fn synthetic_unanimous_attestations(prompt: &str) -> (r: Vec<ManifoldModelAttestation>)
    ensures
        r@.len() == 3,
        forall|k: int|
            0 <= k < 3 ==> {
                &&& (#[trigger] r@[k]).provider@ == provider_table_spec()[k].0@
                &&& r@[k].response_shape_hash@ == response_shape_hash_spec("grok", prompt)
                &&& r@[k].trust_attestation_rank == provider_table_spec()[k].1
            },
{
    let unanimous_hash = response_shape_hash("grok", prompt);
    let table = consensus_provider_table();
    let mut out: Vec<ManifoldModelAttestation> = Vec::new();
    let mut i: usize = 0;
    while i < table.len()
        invariant
            table@ == provider_table_spec(),
            i <= table.len(),
            out@.len() == i,
            unanimous_hash@ == response_shape_hash_spec("grok", prompt),
            forall|k: int|
                0 <= k < i ==> {
                    &&& (#[trigger] out@[k]).provider@ == provider_table_spec()[k].0@
                    &&& out@[k].response_shape_hash@ == response_shape_hash_spec("grok", prompt)
                    &&& out@[k].trust_attestation_rank == provider_table_spec()[k].1
                },
        decreases table.len() - i,
    {
        let (provider, rank) = table[i];
        out.push(
            ManifoldModelAttestation {
                provider: owned(provider),
                response_shape_hash: unanimous_hash.clone(),
                trust_attestation_rank: rank,
            },
        );
        i = i + 1;
    }
    out
}

/// Attestations where each provider answers with its own response shape.
fn synthetic_consensus_attestations(prompt: &str) -> (r: Vec<ManifoldModelAttestation>)
    ensures
        r@.len() == 3,
        forall|k: int|
            0 <= k < 3 ==> {
                &&& (#[trigger] r@[k]).provider@ == provider_table_spec()[k].0@
                &&& r@[k].response_shape_hash@ == response_shape_hash_spec(
                    provider_table_spec()[k].0,
                    prompt,
                )
                &&& r@[k].trust_attestation_rank == provider_table_spec()[k].1
            },
{
    let table = consensus_provider_table();
    let mut out: Vec<ManifoldModelAttestation> = Vec::new();
    let mut i: usize = 0;
    while i < table.len()
        invariant
            table@ == provider_table_spec(),
            i <= table.len(),
            out@.len() == i,
            forall|k: int|
                0 <= k < i ==> {
                    &&& (#[trigger] out@[k]).provider@ == provider_table_spec()[k].0@
                    &&& out@[k].response_shape_hash@ == response_shape_hash_spec(
                        provider_table_spec()[k].0,
                        prompt,
                    )
                    &&& out@[k].trust_attestation_rank == provider_table_spec()[k].1
                },
        decreases table.len() - i,
    {
        let (provider, rank) = table[i];
        out.push(
            ManifoldModelAttestation {
                provider: owned(provider),
                response_shape_hash: response_shape_hash(provider, prompt),
                trust_attestation_rank: rank,
            },
        );
        i = i + 1;
    }
    out
}

/// The attestations fall into more than one response-shape equivalence class.
pub open spec fn has_equivalence_split(a: Seq<ManifoldModelAttestation>) -> bool {
    a.len() >= 2 && exists|k: int|
        0 <= k < a.len() && (#[trigger] a[k]).response_shape_hash@ != a[0].response_shape_hash@
}

/// Whether the attestations disagree on the response shape.
fn attestations_have_equivalence_split(attestations: &Vec<ManifoldModelAttestation>) -> (r: bool)
    ensures
        r == has_equivalence_split(attestations@),
{
    if attestations.len() < 2 {
        return false;
    }
    let first = attestations[0].response_shape_hash.as_str();
    let mut i: usize = 0;
    while i < attestations.len()
        invariant
            i <= attestations.len(),
            attestations@.len() >= 2,
            first@ == attestations@[0].response_shape_hash@,
            forall|k: int|
                0 <= k < i ==> (#[trigger] attestations@[k]).response_shape_hash@
                    == attestations@[0].response_shape_hash@,
        decreases attestations.len() - i,
    {
        if !str_eq(attestations[i].response_shape_hash.as_str(), first) {
            return true;
        }
        i = i + 1;
    }
    false
}

/// The optional provider is present and named `name`.
pub open spec fn names_provider(o: Option<String>, name: Seq<char>) -> bool {
    match o {
        Some(p) => p@ == name,
        None => false,
    }
}

/// The resolution heuristic picks `j`: a highest trust rank, the last among equals.
pub open spec fn is_trust_resolution(a: Seq<ManifoldModelAttestation>, j: int) -> bool {
    &&& 0 <= j < a.len()
    &&& forall|k: int| 0 <= k < a.len() ==> (#[trigger] a[k]).trust_attestation_rank <= a[j].trust_attestation_rank
    &&& forall|k: int| j < k < a.len() ==> (#[trigger] a[k]).trust_attestation_rank < a[j].trust_attestation_rank
}

/// Resolve a disagreement by trust attestation: the provider with the highest rank (the
/// last of equals, as `Iterator::max_by_key` picks), `None` without attestations.
fn resolve_disagreement_by_trust_attestation(attestations: &Vec<ManifoldModelAttestation>) -> (r: Option<String>)
    ensures
        attestations@.len() == 0 ==> r is None,
        attestations@.len() > 0 ==> exists|j: int|
            is_trust_resolution(attestations@, j) && names_provider(r, attestations@[j].provider@),
{
    if attestations.len() == 0 {
        return None;
    }
    let mut best: usize = 0;
    let mut i: usize = 1;
    while i < attestations.len()
        invariant
            1 <= i <= attestations.len(),
            best < i,
            forall|k: int| 0 <= k < i ==> (#[trigger] attestations@[k]).trust_attestation_rank <= attestations@[best as int].trust_attestation_rank,
            forall|k: int| best < k < i ==> (#[trigger] attestations@[k]).trust_attestation_rank < attestations@[best as int].trust_attestation_rank,
        decreases attestations.len() - i,
    {
        if attestations[i].trust_attestation_rank >= attestations[best].trust_attestation_rank {
            best = i;
        }
        i = i + 1;
    }
    let p = attestations[best].provider.clone();
    assert(is_trust_resolution(attestations@, best as int));
    Some(p)
}

/// Build a cross-model disagreement event.
fn build_cross_model_disagreement(
    session_id: &str,
    prompt: &str,
    attestations: &Vec<ManifoldModelAttestation>,
    kind: DisagreementKind,
) -> (r: ManifoldCrossModelDisagreement)
    ensures
        r.session_id@ == session_id@,
        r.canonical_sdf_hash@ == canonical_sdf_hash_spec(prompt),
        r.disagreement_kind == kind,
        attestations@.len() == 0 ==> r.suggested_provider is None,
        attestations@.len() > 0 ==> exists|j: int|
            is_trust_resolution(attestations@, j) && names_provider(
                r.suggested_provider,
                attestations@[j].provider@,
            ),
{
    ManifoldCrossModelDisagreement {
        session_id: owned(session_id),
        canonical_sdf_hash: canonical_request_sdf_hash(prompt),
        disagreement_kind: kind,
        suggested_provider: resolve_disagreement_by_trust_attestation(attestations),
    }
}

/// Scaffold auto-consensus tier (no live env).
pub fn auto_consensus_tier() -> (r: AutoConsensusTier)
    ensures
        r == AutoConsensusTier::Federated,
{
    AutoConsensusTier::Federated
}

/// Federated-tier write hook — whether consensus should auto-trigger.
pub fn consensus_auto_trigger_for_federated() -> (r: bool)
    ensures
        r,
{
    auto_consensus_tier() == AutoConsensusTier::Federated
}

/// The synthetic providers disagree on a prompt: gemini or minimax answers with a response
/// shape other than grok's.
pub open spec fn consensus_split(prompt: &str) -> bool {
    response_shape_hash_spec("gemini", prompt) != response_shape_hash_spec("grok", prompt)
        || response_shape_hash_spec("minimax", prompt) != response_shape_hash_spec("grok", prompt)
}

/// The synthetic consensus attestations split exactly when the providers disagree.
proof fn lemma_consensus_split(prompt: &str, a: Seq<ManifoldModelAttestation>)
    requires
        a.len() == 3,
        forall|k: int|
            0 <= k < 3 ==> (#[trigger] a[k]).response_shape_hash@ == response_shape_hash_spec(
                provider_table_spec()[k].0,
                prompt,
            ),
    ensures
        has_equivalence_split(a) == consensus_split(prompt),
{
    assert(a[0].response_shape_hash@ == response_shape_hash_spec("grok", prompt));
    assert(a[1].response_shape_hash@ == response_shape_hash_spec("gemini", prompt));
    assert(a[2].response_shape_hash@ == response_shape_hash_spec("minimax", prompt));
}

// ---------------------------------------------------------------------------
// The consensus session store
// ---------------------------------------------------------------------------

/// One consensus session: its id, whether it awaits an operator decision, and the
/// disagreement that opened it.
#[derive(Debug)]
pub struct ManifoldConsensusSession {
    pub session_id: String,
    pub status_open: bool,
    pub disagreement: Option<ManifoldCrossModelDisagreement>,
}

/// The consensus sessions opened so far, in opening order.
#[derive(Debug)]
pub struct ManifoldConsensusStore {
    pub sessions: Vec<ManifoldConsensusSession>,
}

/// Session id of a prompt: `manifold-consensus-<byte length>`.
pub open spec fn session_id_spec(prompt: &str) -> Seq<char> {
    "manifold-consensus-"@ + decimal(prompt.len() as nat)
}

/// Some session awaits an operator decision.
pub open spec fn has_open_session(s: Seq<ManifoldConsensusSession>) -> bool {
    exists|i: int| 0 <= i < s.len() && (#[trigger] s[i]).status_open
}

/// First session with the given id, or `s.len()` when there is none.
pub open spec fn first_session_with_id(s: Seq<ManifoldConsensusSession>, id: Seq<char>, from: int) -> int
    decreases s.len() - from,
{
    if from < 0 || from >= s.len() {
        s.len() as int
    } else if s[from].session_id@ == id {
        from
    } else {
        first_session_with_id(s, id, from + 1)
    }
}

/// The first-id search finds the first match at or after `from`.
pub proof fn lemma_first_session_with_id(s: Seq<ManifoldConsensusSession>, id: Seq<char>, from: int)
    requires
        0 <= from <= s.len(),
    ensures
        from <= first_session_with_id(s, id, from) <= s.len(),
        first_session_with_id(s, id, from) < s.len() ==> s[first_session_with_id(s, id, from)].session_id@ == id,
        forall|k: int| from <= k < first_session_with_id(s, id, from) ==> (#[trigger] s[k]).session_id@ != id,
    decreases s.len() - from,
{
    if from < s.len() && s[from].session_id@ != id {
        lemma_first_session_with_id(s, id, from + 1);
    }
}

/// What a split records: the session id, the prompt's canonical hash, the split kind, and
/// grok — the highest trust rank — as the suggested provider.
pub open spec fn split_disagreement_recorded(d: ManifoldCrossModelDisagreement, prompt: &str) -> bool {
    &&& d.session_id@ == session_id_spec(prompt)
    &&& d.canonical_sdf_hash@ == canonical_sdf_hash_spec(prompt)
    &&& d.disagreement_kind == DisagreementKind::EquivalenceClassSplit
    &&& names_provider(d.suggested_provider, "grok"@)
}

fn consensus_session_id(prompt: &str) -> (r: String)
    ensures
        r@ == session_id_spec(prompt),
{
    let mut session_id = String::new();
    push_str(&mut session_id, "manifold-consensus-");
    push_decimal(&mut session_id, prompt.len() as u64);
    session_id
}

/// The synthetic trust ranks resolve to grok.
proof fn lemma_synthetic_resolution_is_grok(a: Seq<ManifoldModelAttestation>, j: int)
    requires
        a.len() == 3,
        forall|k: int|
            0 <= k < 3 ==> {
                &&& (#[trigger] a[k]).provider@ == provider_table_spec()[k].0@
                &&& a[k].trust_attestation_rank == provider_table_spec()[k].1
            },
        is_trust_resolution(a, j),
    ensures
        j == 0,
        a[j].provider@ == "grok"@,
{
    assert(a[0].trust_attestation_rank == 3);
    assert(a[1].trust_attestation_rank == 2);
    assert(a[2].trust_attestation_rank == 1);
    assert(a[0].trust_attestation_rank <= a[j].trust_attestation_rank);
}

fn consensus_session_parts(prompt: &str) -> (r: (String, bool, Option<ManifoldCrossModelDisagreement>))
    ensures
        r.0@ == session_id_spec(prompt),
        r.1 == consensus_split(prompt),
        r.2 is Some == consensus_split(prompt),
        r.2 matches Some(d) ==> split_disagreement_recorded(d, prompt),
{
    let attestations = synthetic_consensus_attestations(prompt);
    let has_disagreement = attestations_have_equivalence_split(&attestations);
    proof {
        lemma_consensus_split(prompt, attestations@);
    }
    let session_id = consensus_session_id(prompt);
    let disagreement = if has_disagreement {
        let d = build_cross_model_disagreement(
            session_id.as_str(),
            prompt,
            &attestations,
            DisagreementKind::EquivalenceClassSplit,
        );
        proof {
            let j = choose|j: int|
                is_trust_resolution(attestations@, j) && names_provider(
                    d.suggested_provider,
                    attestations@[j].provider@,
                );
            lemma_synthetic_resolution_is_grok(attestations@, j);
        }
        Some(d)
    } else {
        None
    };
    (session_id, has_disagreement, disagreement)
}

/// `after` is `before` with one more session for `prompt`: open, with the split recorded,
/// exactly when the providers disagree.
pub open spec fn appends_session(
    before: Seq<ManifoldConsensusSession>,
    after: Seq<ManifoldConsensusSession>,
    prompt: &str,
) -> bool {
    &&& after.len() == before.len() + 1
    &&& forall|k: int| 0 <= k < before.len() ==> #[trigger] after[k] == before[k]
    &&& after.last().session_id@ == session_id_spec(prompt)
    &&& after.last().status_open == consensus_split(prompt)
    &&& after.last().disagreement is Some == consensus_split(prompt)
    &&& (after.last().disagreement matches Some(d) ==> split_disagreement_recorded(d, prompt))
}

/// `after` is `before` with the first session named `id` closed (unchanged without one).
pub open spec fn resolves_session(
    before: Seq<ManifoldConsensusSession>,
    after: Seq<ManifoldConsensusSession>,
    id: Seq<char>,
) -> bool {
    let j = first_session_with_id(before, id, 0);
    &&& after.len() == before.len()
    &&& forall|k: int| 0 <= k < before.len() && k != j ==> #[trigger] after[k] == before[k]
    &&& j < before.len() ==> {
        &&& !after[j].status_open
        &&& after[j].session_id == before[j].session_id
        &&& after[j].disagreement == before[j].disagreement
    }
}

/// Law: in a store with no open session and no session of the prompt's id, opening a session
/// leaves one open exactly when the providers disagree, and resolving its id closes it again.
pub proof fn lemma_resolution_closes_opened_session(
    s0: Seq<ManifoldConsensusSession>,
    s1: Seq<ManifoldConsensusSession>,
    s2: Seq<ManifoldConsensusSession>,
    prompt: &str,
)
    requires
        !has_open_session(s0),
        forall|k: int| 0 <= k < s0.len() ==> (#[trigger] s0[k]).session_id@ != session_id_spec(prompt),
        appends_session(s0, s1, prompt),
        resolves_session(s1, s2, session_id_spec(prompt)),
    ensures
        has_open_session(s1) == consensus_split(prompt),
        !has_open_session(s2),
{
    let id = session_id_spec(prompt);
    lemma_first_session_with_id(s1, id, 0);
    let j = first_session_with_id(s1, id, 0);
    assert forall|k: int| 0 <= k < s0.len() implies s1[k].session_id@ != id by {
        assert(s1[k] == s0[k]);
    };
    assert(j == s0.len());
    if has_open_session(s1) {
        let i = choose|i: int| 0 <= i < s1.len() && (#[trigger] s1[i]).status_open;
        if i < s0.len() {
            assert(s1[i] == s0[i]);
        }
    }
    if consensus_split(prompt) {
        assert(s1[s1.len() - 1].status_open);
    }
    if has_open_session(s2) {
        let i = choose|i: int| 0 <= i < s2.len() && (#[trigger] s2[i]).status_open;
        if i < s0.len() {
            assert(s2[i] == s1[i]);
            assert(s1[i] == s0[i]);
        }
    }
}

impl ManifoldConsensusStore {
    /// An empty store.
    pub fn new() -> (r: Self)
        ensures
            r.sessions@.len() == 0,
    {
        ManifoldConsensusStore { sessions: Vec::new() }
    }

    /// Open a consensus session for a prompt: the synthetic providers attest; a split opens
    /// the session with an equivalence-class-split disagreement, unanimity records it closed.
    /// Returns the session id and whether it opened with a disagreement.
    pub fn open_consensus_session(&mut self, prompt: &str) -> (r: (String, bool))
        ensures
            r.0@ == session_id_spec(prompt),
            r.1 == consensus_split(prompt),
            appends_session(old(self).sessions@, final(self).sessions@, prompt),
    {
        let (session_id, has_disagreement, disagreement) = consensus_session_parts(prompt);
        let out_id = session_id.clone();
        self.sessions.push(
            ManifoldConsensusSession {
                session_id,
                status_open: has_disagreement,
                disagreement,
            },
        );
        (out_id, has_disagreement)
    }

    /// Record the operator's resolution: the first session with `session_id` is closed;
    /// every other session is left as it was (nothing changes without such a session).
    pub fn record_consensus_resolution(&mut self, session_id: &str)
        ensures
            resolves_session(old(self).sessions@, final(self).sessions@, session_id@),
    {
        let ghost old_sessions = self.sessions@;
        proof {
            lemma_first_session_with_id(old_sessions, session_id@, 0);
        }
        let mut i: usize = 0;
        while i < self.sessions.len()
            invariant
                self.sessions@ == old_sessions,
                old_sessions == old(self).sessions@,
                i <= old_sessions.len(),
                first_session_with_id(old_sessions, session_id@, 0) >= i,
                forall|k: int| 0 <= k < first_session_with_id(old_sessions, session_id@, 0) ==> (#[trigger] old_sessions[k]).session_id@ != session_id@,
                first_session_with_id(old_sessions, session_id@, 0) < old_sessions.len() ==> old_sessions[first_session_with_id(old_sessions, session_id@, 0)].session_id@ == session_id@,
            decreases old_sessions.len() - i,
        {
            if str_eq(self.sessions[i].session_id.as_str(), session_id) {
                assert(first_session_with_id(old_sessions, session_id@, 0) == i);
                let mut s = self.sessions.remove(i);
                s.status_open = false;
                let ghost closed = s;
                self.sessions.insert(i, s);
                assert(self.sessions@ =~= old_sessions.update(i as int, closed));
                assert forall|k: int|
                    0 <= k < old_sessions.len() && k != i implies #[trigger] self.sessions@[k] == old_sessions[k] by {
                    if k < i {
                    } else {
                    }
                };
                return;
            }
            i = i + 1;
        }
    }

    /// Whether any session awaits an operator decision.
    pub fn has_open_cross_model_disagreement(&self) -> (r: bool)
        ensures
            r == has_open_session(self.sessions@),
    {
        let mut i: usize = 0;
        while i < self.sessions.len()
            invariant
                i <= self.sessions@.len(),
                forall|k: int| 0 <= k < i ==> !(#[trigger] self.sessions@[k]).status_open,
            decreases self.sessions@.len() - i,
        {
            if self.sessions[i].status_open {
                return true;
            }
            i = i + 1;
        }
        false
    }
}

/// Session rollup for manifold census / audit export.
#[derive(Debug, Clone, Copy, PartialEq, Eq, Structural)]
pub struct ManifoldConsensusSessionSummary {
    /// Sessions with a recorded disagreement.
    pub disagreement_events: usize,
    /// Disagreement sessions the operator resolved.
    pub resolution_events: usize,
    /// Sessions awaiting an operator decision.
    pub open_sessions: usize,
    /// Distinct disagreement kinds observed.
    pub unique_disagreement_kinds: usize,
}

/// Selects sessions that recorded a disagreement.
pub open spec fn session_has_disagreement() -> spec_fn(ManifoldConsensusSession) -> bool {
    |s: ManifoldConsensusSession| s.disagreement is Some
}

/// Selects disagreement sessions that were resolved.
pub open spec fn session_resolved() -> spec_fn(ManifoldConsensusSession) -> bool {
    |s: ManifoldConsensusSession| !s.status_open && s.disagreement is Some
}

/// Selects sessions awaiting a decision.
pub open spec fn session_open() -> spec_fn(ManifoldConsensusSession) -> bool {
    |s: ManifoldConsensusSession| s.status_open
}

/// The session recorded a disagreement of kind `k`.
pub open spec fn disagreement_of_kind(s: ManifoldConsensusSession, k: DisagreementKind) -> bool {
    match s.disagreement {
        Some(d) => d.disagreement_kind == k,
        None => false,
    }
}

/// Some session recorded a disagreement of kind `k`.
pub open spec fn kind_seen(s: Seq<ManifoldConsensusSession>, k: DisagreementKind) -> bool {
    exists|i: int| 0 <= i < s.len() && disagreement_of_kind(#[trigger] s[i], k)
}

/// Number of distinct disagreement kinds recorded.
pub open spec fn unique_kinds(s: Seq<ManifoldConsensusSession>) -> nat {
    (if kind_seen(s, DisagreementKind::ShapeMismatch) { 1nat } else { 0nat })
        + (if kind_seen(s, DisagreementKind::AttestationDivergence) { 1nat } else { 0nat })
        + (if kind_seen(s, DisagreementKind::TimeoutPartial) { 1nat } else { 0nat })
        + (if kind_seen(s, DisagreementKind::EquivalenceClassSplit) { 1nat } else { 0nat })
}

/// Session consensus rollup of a store.
pub fn manifold_session_consensus_summary(store: &ManifoldConsensusStore) -> (r: ManifoldConsensusSessionSummary)
    ensures
        r.disagreement_events == count_where(store.sessions@, session_has_disagreement()),
        r.resolution_events == count_where(store.sessions@, session_resolved()),
        r.open_sessions == count_where(store.sessions@, session_open()),
        r.unique_disagreement_kinds == unique_kinds(store.sessions@),
{
    let s = &store.sessions;
    let mut disagreements: usize = 0;
    let mut resolutions: usize = 0;
    let mut open: usize = 0;
    let mut shape = false;
    let mut attest = false;
    let mut timeout = false;
    let mut split = false;
    let mut i: usize = 0;
    while i < s.len()
        invariant
            i <= s@.len(),
            disagreements == count_where(s@.take(i as int), session_has_disagreement()),
            resolutions == count_where(s@.take(i as int), session_resolved()),
            open == count_where(s@.take(i as int), session_open()),
            disagreements <= i,
            resolutions <= i,
            open <= i,
            shape == kind_seen(s@.take(i as int), DisagreementKind::ShapeMismatch),
            attest == kind_seen(s@.take(i as int), DisagreementKind::AttestationDivergence),
            timeout == kind_seen(s@.take(i as int), DisagreementKind::TimeoutPartial),
            split == kind_seen(s@.take(i as int), DisagreementKind::EquivalenceClassSplit),
        decreases s@.len() - i,
    {
        proof {
            lemma_count_step(s@, session_has_disagreement(), i as int);
            lemma_count_step(s@, session_resolved(), i as int);
            lemma_count_step(s@, session_open(), i as int);
            lemma_kind_seen_step(s@, i as int, DisagreementKind::ShapeMismatch);
            lemma_kind_seen_step(s@, i as int, DisagreementKind::AttestationDivergence);
            lemma_kind_seen_step(s@, i as int, DisagreementKind::TimeoutPartial);
            lemma_kind_seen_step(s@, i as int, DisagreementKind::EquivalenceClassSplit);
        }
        let sess = &s[i];
        match &sess.disagreement {
            Some(d) => {
                disagreements = disagreements + 1;
                if !sess.status_open {
                    resolutions = resolutions + 1;
                }
                match d.disagreement_kind {
                    DisagreementKind::ShapeMismatch => { shape = true; },
                    DisagreementKind::AttestationDivergence => { attest = true; },
                    DisagreementKind::TimeoutPartial => { timeout = true; },
                    DisagreementKind::EquivalenceClassSplit => { split = true; },
                }
            },
            None => {},
        }
        if sess.status_open {
            open = open + 1;
        }
        i = i + 1;
    }
    proof {
        lemma_take_all(s@);
    }
    let kinds: usize = (if shape { 1 } else { 0 }) + (if attest { 1 } else { 0 }) + (if timeout { 1 } else { 0 }) + (if split { 1 } else { 0 });
    ManifoldConsensusSessionSummary {
        disagreement_events: disagreements,
        resolution_events: resolutions,
        open_sessions: open,
        unique_disagreement_kinds: kinds,
    }
}

/// Seeing one more session adds its kind.
proof fn lemma_kind_seen_step(s: Seq<ManifoldConsensusSession>, i: int, k: DisagreementKind)
    requires
        0 <= i < s.len(),
    ensures
        kind_seen(s.take(i + 1), k) == (kind_seen(s.take(i), k) || disagreement_of_kind(s[i], k)),
{
    if kind_seen(s.take(i + 1), k) {
        let m = choose|m: int| 0 <= m < s.take(i + 1).len() && disagreement_of_kind(#[trigger] s.take(i + 1)[m], k);
        if m < i {
            assert(s.take(i)[m] == s.take(i + 1)[m]);
        }
    }
    if kind_seen(s.take(i), k) {
        let m = choose|m: int| 0 <= m < s.take(i).len() && disagreement_of_kind(#[trigger] s.take(i)[m], k);
        assert(s.take(i + 1)[m] == s.take(i)[m]);
    }
    if disagreement_of_kind(s[i], k) {
        assert(s.take(i + 1)[i] == s[i]);
    }
}

// ---------------------------------------------------------------------------
// L-N0 crosswalk and the synthetic consensus probes
// ---------------------------------------------------------------------------

/// S-5 synthetic consensus probe scenario ids (§12 algebra).
pub open spec fn consensus_scenarios_spec() -> Seq<&'static str> {
    seq![
        "equivalence-class-split",
        "unanimous-agreement",
        "disagreement-kind-shape",
        "disagreement-kind-attestation",
        "disagreement-kind-timeout",
        "trust-heuristic-q4",
        "federated-auto-trigger",
        "session-resolve-badge",
    ]
}

/// S-5 synthetic consensus probe scenario ids (§12 algebra).
pub fn s5_consensus_probe_scenarios() -> (r: Vec<&'static str>)
    ensures
        r@ == consensus_scenarios_spec(),
{
    let r = vec![
        "equivalence-class-split",
        "unanimous-agreement",
        "disagreement-kind-shape",
        "disagreement-kind-attestation",
        "disagreement-kind-timeout",
        "trust-heuristic-q4",
        "federated-auto-trigger",
        "session-resolve-badge",
    ];
    assert(r@ =~= consensus_scenarios_spec());
    r
}

/// Rust scenario ↔ Lean `Network.MajorityHonestConvergesToTruth` crosswalk row
/// (statement-runtime; no proof claim).
#[derive(Debug, Clone, Copy, PartialEq, Eq)]
pub struct ManifoldLn0LeanCrosswalkRow {
    pub scenario_id: &'static str,
    pub lean_theorem_ref: &'static str,
    pub algebra_lane: &'static str,
    pub gsd_binding: &'static str,
}

/// Rust scenario ↔ Lean L-N0 crosswalk (statement-runtime; no proof claim).
pub open spec fn ln0_crosswalk_spec() -> Seq<ManifoldLn0LeanCrosswalkRow> {
    seq![
        ManifoldLn0LeanCrosswalkRow { scenario_id: "equivalence-class-split", lean_theorem_ref: "Network.MajorityHonestConvergesToTruth.equiv_class_split", algebra_lane: "equivalence-split", gsd_binding: "S-Q5" },
        ManifoldLn0LeanCrosswalkRow { scenario_id: "unanimous-agreement", lean_theorem_ref: "Network.MajorityHonestConvergesToTruth.unanimous_shape", algebra_lane: "unanimous-shape", gsd_binding: "S-Q5" },
        ManifoldLn0LeanCrosswalkRow { scenario_id: "disagreement-kind-shape", lean_theorem_ref: "Network.MajorityHonestConvergesToTruth.disagreement_kind", algebra_lane: "disagreement-kind", gsd_binding: "GSD-5" },
        ManifoldLn0LeanCrosswalkRow { scenario_id: "disagreement-kind-attestation", lean_theorem_ref: "Network.MajorityHonestConvergesToTruth.disagreement_kind", algebra_lane: "disagreement-kind", gsd_binding: "GSD-5" },
        ManifoldLn0LeanCrosswalkRow { scenario_id: "disagreement-kind-timeout", lean_theorem_ref: "Network.MajorityHonestConvergesToTruth.disagreement_kind", algebra_lane: "disagreement-kind", gsd_binding: "GSD-5" },
        ManifoldLn0LeanCrosswalkRow { scenario_id: "trust-heuristic-q4", lean_theorem_ref: "Network.MajorityHonestConvergesToTruth.trust_attestation_rank", algebra_lane: "trust-attestation-rank", gsd_binding: "§8-Q4" },
        ManifoldLn0LeanCrosswalkRow { scenario_id: "federated-auto-trigger", lean_theorem_ref: "Network.MajorityHonestConvergesToTruth.auto_consensus_tier", algebra_lane: "auto-consensus-tier", gsd_binding: "S-Q5" },
        ManifoldLn0LeanCrosswalkRow { scenario_id: "session-resolve-badge", lean_theorem_ref: "Network.MajorityHonestConvergesToTruth.operator_resolution", algebra_lane: "session-lifecycle", gsd_binding: "GSD-5" },
    ]
}

/// Rust scenario ↔ Lean L-N0 crosswalk (statement-runtime; no proof claim).
pub fn manifold_ln0_lean_crosswalk() -> (r: Vec<ManifoldLn0LeanCrosswalkRow>)
    ensures
        r@ == ln0_crosswalk_spec(),
{
    let r = vec![
        ManifoldLn0LeanCrosswalkRow { scenario_id: "equivalence-class-split", lean_theorem_ref: "Network.MajorityHonestConvergesToTruth.equiv_class_split", algebra_lane: "equivalence-split", gsd_binding: "S-Q5" },
        ManifoldLn0LeanCrosswalkRow { scenario_id: "unanimous-agreement", lean_theorem_ref: "Network.MajorityHonestConvergesToTruth.unanimous_shape", algebra_lane: "unanimous-shape", gsd_binding: "S-Q5" },
        ManifoldLn0LeanCrosswalkRow { scenario_id: "disagreement-kind-shape", lean_theorem_ref: "Network.MajorityHonestConvergesToTruth.disagreement_kind", algebra_lane: "disagreement-kind", gsd_binding: "GSD-5" },
        ManifoldLn0LeanCrosswalkRow { scenario_id: "disagreement-kind-attestation", lean_theorem_ref: "Network.MajorityHonestConvergesToTruth.disagreement_kind", algebra_lane: "disagreement-kind", gsd_binding: "GSD-5" },
        ManifoldLn0LeanCrosswalkRow { scenario_id: "disagreement-kind-timeout", lean_theorem_ref: "Network.MajorityHonestConvergesToTruth.disagreement_kind", algebra_lane: "disagreement-kind", gsd_binding: "GSD-5" },
        ManifoldLn0LeanCrosswalkRow { scenario_id: "trust-heuristic-q4", lean_theorem_ref: "Network.MajorityHonestConvergesToTruth.trust_attestation_rank", algebra_lane: "trust-attestation-rank", gsd_binding: "§8-Q4" },
        ManifoldLn0LeanCrosswalkRow { scenario_id: "federated-auto-trigger", lean_theorem_ref: "Network.MajorityHonestConvergesToTruth.auto_consensus_tier", algebra_lane: "auto-consensus-tier", gsd_binding: "S-Q5" },
        ManifoldLn0LeanCrosswalkRow { scenario_id: "session-resolve-badge", lean_theorem_ref: "Network.MajorityHonestConvergesToTruth.operator_resolution", algebra_lane: "session-lifecycle", gsd_binding: "GSD-5" },
    ];
    assert(r@ =~= ln0_crosswalk_spec());
    r
}

/// One S-5 synthetic consensus probe row at the manifold cold edge.
#[derive(Debug, Clone, Copy, PartialEq, Eq)]
pub struct ManifoldS5ConsensusProbe {
    pub scenario_id: &'static str,
    /// Probe kind label.
    pub probe_kind: &'static str,
    /// Whether the probe hit.
    pub probe_hit: bool,
}

/// The algebra lane a scenario exercises (`unknown` for an unlisted id).
pub open spec fn scenario_kind_spec(id: Seq<char>) -> Seq<char> {
    if id == "equivalence-class-split"@ {
        "equivalence-split"@
    } else if id == "unanimous-agreement"@ {
        "unanimous-shape"@
    } else if id == "disagreement-kind-shape"@ {
        "disagreement-kind"@
    } else if id == "disagreement-kind-attestation"@ {
        "disagreement-kind"@
    } else if id == "disagreement-kind-timeout"@ {
        "disagreement-kind"@
    } else if id == "trust-heuristic-q4"@ {
        "trust-attestation-rank"@
    } else if id == "federated-auto-trigger"@ {
        "auto-consensus-tier"@
    } else if id == "session-resolve-badge"@ {
        "session-lifecycle"@
    } else {
        "unknown"@
    }
}

/// Whether a scenario's probe hits: the split scenarios hit exactly when the synthetic
/// providers disagree on their prompt, the others always, an unlisted id never.
pub open spec fn scenario_hit_spec(id: Seq<char>) -> bool {
    if id == "equivalence-class-split"@ {
        consensus_split("probe-split")
    } else if id == "unanimous-agreement"@ {
        true
    } else if id == "disagreement-kind-shape"@ {
        true
    } else if id == "disagreement-kind-attestation"@ {
        true
    } else if id == "disagreement-kind-timeout"@ {
        true
    } else if id == "trust-heuristic-q4"@ {
        true
    } else if id == "federated-auto-trigger"@ {
        true
    } else if id == "session-resolve-badge"@ {
        consensus_split("probe-resolve-badge")
    } else {
        false
    }
}

/// Unanimous attestations never split.
proof fn lemma_unanimous_no_split(prompt: &str, a: Seq<ManifoldModelAttestation>)
    requires
        a.len() == 3,
        forall|k: int| 0 <= k < 3 ==> (#[trigger] a[k]).response_shape_hash@ == response_shape_hash_spec("grok", prompt),
    ensures
        !has_equivalence_split(a),
{
    assert(a[0].response_shape_hash@ == response_shape_hash_spec("grok", prompt));
}

/// Open a session for `prompt` in a fresh store, check it opened and is visible as open,
/// resolve it and check nothing stays open.
fn probe_scenario_session_resolve_badge() -> (r: bool)
    ensures
        r == consensus_split("probe-resolve-badge"),
{
    let mut store = ManifoldConsensusStore::new();
    let ghost s0 = store.sessions@;
    let (session_id, opened) = store.open_consensus_session("probe-resolve-badge");
    let ghost s1 = store.sessions@;
    if !(opened && store.has_open_cross_model_disagreement()) {
        proof {
            lemma_resolution_closes_opened_session_open_half(s0, s1, "probe-resolve-badge");
        }
        return false;
    }
    store.record_consensus_resolution(session_id.as_str());
    proof {
        lemma_resolution_closes_opened_session(s0, s1, store.sessions@, "probe-resolve-badge");
    }
    !store.has_open_cross_model_disagreement()
}

/// The opening half of the lifecycle law.
proof fn lemma_resolution_closes_opened_session_open_half(
    s0: Seq<ManifoldConsensusSession>,
    s1: Seq<ManifoldConsensusSession>,
    prompt: &str,
)
    requires
        s0.len() == 0,
        appends_session(s0, s1, prompt),
    ensures
        has_open_session(s1) == consensus_split(prompt),
{
    if consensus_split(prompt) {
        assert(s1[0].status_open);
    }
}

fn probe_equivalence_class_split() -> (r: bool)
    ensures
        r == consensus_split("probe-split"),
{
    let attestations = synthetic_consensus_attestations("probe-split");
    let split = attestations_have_equivalence_split(&attestations);
    proof {
        lemma_consensus_split("probe-split", attestations@);
    }
    let disagreement = build_cross_model_disagreement(
        "probe-equiv-class",
        "probe-split",
        &attestations,
        DisagreementKind::EquivalenceClassSplit,
    );
    split && disagreement.disagreement_kind == DisagreementKind::EquivalenceClassSplit
}

fn probe_unanimous_agreement() -> (r: bool)
    ensures
        r,
{
    let attestations = synthetic_unanimous_attestations("probe-unanimous");
    proof {
        lemma_unanimous_no_split("probe-unanimous", attestations@);
    }
    !attestations_have_equivalence_split(&attestations)
}

fn probe_disagreement_kind(kind: DisagreementKind, session_id: &str) -> (r: bool)
    ensures
        r,
{
    let no_attestations: Vec<ManifoldModelAttestation> = Vec::new();
    let disagreement = build_cross_model_disagreement(session_id, "probe", &no_attestations, kind);
    disagreement.disagreement_kind == kind
}

fn probe_disagreement_kind_attestation() -> (r: bool)
    ensures
        r,
{
    let attestations = synthetic_consensus_attestations("probe-attest");
    let disagreement = build_cross_model_disagreement(
        "probe-attest",
        "probe",
        &attestations,
        DisagreementKind::AttestationDivergence,
    );
    disagreement.disagreement_kind == DisagreementKind::AttestationDivergence
        && disagreement.suggested_provider.is_some()
}

fn probe_trust_heuristic_q4() -> (r: bool)
    ensures
        r,
{
    let attestations = synthetic_consensus_attestations("probe-q4");
    let resolved = resolve_disagreement_by_trust_attestation(&attestations);
    proof {
        reveal_strlit("grok");
        let j = choose|j: int|
            is_trust_resolution(attestations@, j) && names_provider(resolved, attestations@[j].provider@);
        lemma_synthetic_resolution_is_grok(attestations@, j);
    }
    match &resolved {
        Some(p) => str_eq(p.as_str(), "grok"),
        None => false,
    }
}

/// Run one synthetic consensus scenario at the manifold cold edge.
fn probe_scenario(scenario_id: &'static str) -> (r: ManifoldS5ConsensusProbe)
    ensures
        r.scenario_id == scenario_id,
        r.probe_kind@ == scenario_kind_spec(scenario_id@),
        r.probe_hit == scenario_hit_spec(scenario_id@),
{
    let (probe_kind, probe_hit) = if str_eq(scenario_id, "equivalence-class-split") {
        ("equivalence-split", probe_equivalence_class_split())
    } else if str_eq(scenario_id, "unanimous-agreement") {
        ("unanimous-shape", probe_unanimous_agreement())
    } else if str_eq(scenario_id, "disagreement-kind-shape") {
        ("disagreement-kind", probe_disagreement_kind(DisagreementKind::ShapeMismatch, "probe-shape"))
    } else if str_eq(scenario_id, "disagreement-kind-attestation") {
        ("disagreement-kind", probe_disagreement_kind_attestation())
    } else if str_eq(scenario_id, "disagreement-kind-timeout") {
        ("disagreement-kind", probe_disagreement_kind(DisagreementKind::TimeoutPartial, "probe-timeout"))
    } else if str_eq(scenario_id, "trust-heuristic-q4") {
        ("trust-attestation-rank", probe_trust_heuristic_q4())
    } else if str_eq(scenario_id, "federated-auto-trigger") {
        ("auto-consensus-tier", consensus_auto_trigger_for_federated())
    } else if str_eq(scenario_id, "session-resolve-badge") {
        ("session-lifecycle", probe_scenario_session_resolve_badge())
    } else {
        ("unknown", false)
    };
    ManifoldS5ConsensusProbe { scenario_id, probe_kind, probe_hit }
}

/// The coverage probes as measured.
pub open spec fn consensus_probes_spec() -> Seq<(Seq<char>, bool)> {
    consensus_scenarios_spec().map_values(|id: &'static str| (scenario_kind_spec(id@), scenario_hit_spec(id@)))
}

/// S-5 synthetic consensus probe matrix — one row per scenario, in order.
pub fn manifold_s5_consensus_coverage_probes() -> (r: Vec<ManifoldS5ConsensusProbe>)
    ensures
        r@.len() == 8,
        forall|k: int| 0 <= k < 8 ==> {
            &&& (#[trigger] r@[k]).scenario_id == consensus_scenarios_spec()[k]
            &&& r@[k].probe_kind@ == scenario_kind_spec(consensus_scenarios_spec()[k]@)
            &&& r@[k].probe_hit == scenario_hit_spec(consensus_scenarios_spec()[k]@)
        },
{
    let ids = s5_consensus_probe_scenarios();
    let mut out: Vec<ManifoldS5ConsensusProbe> = Vec::new();
    let mut i: usize = 0;
    while i < ids.len()
        invariant
            ids@ == consensus_scenarios_spec(),
            i <= ids.len(),
            out@.len() == i,
            forall|k: int| 0 <= k < i ==> {
                &&& (#[trigger] out@[k]).scenario_id == consensus_scenarios_spec()[k]
                &&& out@[k].probe_kind@ == scenario_kind_spec(consensus_scenarios_spec()[k]@)
                &&& out@[k].probe_hit == scenario_hit_spec(consensus_scenarios_spec()[k]@)
            },
        decreases ids.len() - i,
    {
        out.push(probe_scenario(ids[i]));
        i = i + 1;
    }
    out
}

/// Every scenario hits exactly when both split scenarios' providers disagree.
pub open spec fn all_scenarios_hit() -> bool {
    consensus_split("probe-split") && consensus_split("probe-resolve-badge")
}

/// The scenario hits, scenario by scenario.
proof fn lemma_scenario_hits()
    ensures
        scenario_hit_spec(consensus_scenarios_spec()[0]@) == consensus_split("probe-split"),
        scenario_hit_spec(consensus_scenarios_spec()[7]@) == consensus_split("probe-resolve-badge"),
        forall|k: int| 1 <= k < 7 ==> scenario_hit_spec(#[trigger] consensus_scenarios_spec()[k]@),
{
    reveal_strlit("equivalence-class-split");
    reveal_strlit("unanimous-agreement");
    reveal_strlit("disagreement-kind-shape");
    reveal_strlit("disagreement-kind-attestation");
    reveal_strlit("disagreement-kind-timeout");
    reveal_strlit("trust-heuristic-q4");
    reveal_strlit("federated-auto-trigger");
    reveal_strlit("session-resolve-badge");
    assert("unanimous-agreement"@[0] != "equivalence-class-split"@[0]);
    assert("disagreement-kind-shape"@[0] != "equivalence-class-split"@[0]);
    assert("disagreement-kind-shape"@[0] != "unanimous-agreement"@[0]);
    assert("disagreement-kind-attestation"@[0] != "equivalence-class-split"@[0]);
    assert("disagreement-kind-attestation"@[0] != "unanimous-agreement"@[0]);
    assert("disagreement-kind-attestation"@.len() != "disagreement-kind-shape"@.len());
    assert("disagreement-kind-timeout"@[0] != "equivalence-class-split"@[0]);
    assert("disagreement-kind-timeout"@[0] != "unanimous-agreement"@[0]);
    assert("disagreement-kind-timeout"@.len() != "disagreement-kind-shape"@.len());
    assert("disagreement-kind-timeout"@.len() != "disagreement-kind-attestation"@.len());
    assert("trust-heuristic-q4"@[0] != "equivalence-class-split"@[0]);
    assert("trust-heuristic-q4"@[0] != "unanimous-agreement"@[0]);
    assert("trust-heuristic-q4"@[0] != "disagreement-kind-shape"@[0]);
    assert("trust-heuristic-q4"@[0] != "disagreement-kind-attestation"@[0]);
    assert("trust-heuristic-q4"@[0] != "disagreement-kind-timeout"@[0]);
    assert("federated-auto-trigger"@[0] != "equivalence-class-split"@[0]);
    assert("federated-auto-trigger"@[0] != "unanimous-agreement"@[0]);
    assert("federated-auto-trigger"@[0] != "disagreement-kind-shape"@[0]);
    assert("federated-auto-trigger"@[0] != "disagreement-kind-attestation"@[0]);
    assert("federated-auto-trigger"@[0] != "disagreement-kind-timeout"@[0]);
    assert("federated-auto-trigger"@[0] != "trust-heuristic-q4"@[0]);
    assert("session-resolve-badge"@[0] != "equivalence-class-split"@[0]);
    assert("session-resolve-badge"@[0] != "unanimous-agreement"@[0]);
    assert("session-resolve-badge"@[0] != "disagreement-kind-shape"@[0]);
    assert("session-resolve-badge"@[0] != "disagreement-kind-attestation"@[0]);
    assert("session-resolve-badge"@[0] != "disagreement-kind-timeout"@[0]);
    assert("session-resolve-badge"@[0] != "trust-heuristic-q4"@[0]);
    assert("session-resolve-badge"@[0] != "federated-auto-trigger"@[0]);
    assert forall|k: int| 1 <= k < 7 implies scenario_hit_spec(#[trigger] consensus_scenarios_spec()[k]@) by {
        if k == 1 { assert(consensus_scenarios_spec()[1]@ == "unanimous-agreement"@); }
        if k == 2 { assert(consensus_scenarios_spec()[2]@ == "disagreement-kind-shape"@); }
        if k == 3 { assert(consensus_scenarios_spec()[3]@ == "disagreement-kind-attestation"@); }
        if k == 4 { assert(consensus_scenarios_spec()[4]@ == "disagreement-kind-timeout"@); }
        if k == 5 { assert(consensus_scenarios_spec()[5]@ == "trust-heuristic-q4"@); }
        if k == 6 { assert(consensus_scenarios_spec()[6]@ == "federated-auto-trigger"@); }
    };
}

/// Whether all eight S-5 synthetic consensus probes hit at the manifold boundary.
pub fn manifold_s5_all_scenarios_probed() -> (r: bool)
    ensures
        r == all_scenarios_hit(),
{
    let probes = manifold_s5_consensus_coverage_probes();
    proof {
        lemma_scenario_hits();
    }
    let mut all = true;
    let mut i: usize = 0;
    while i < probes.len()
        invariant
            i <= probes.len(),
            probes@.len() == 8,
            forall|k: int| 0 <= k < 8 ==> (#[trigger] probes@[k]).probe_hit == scenario_hit_spec(consensus_scenarios_spec()[k]@),
            all == forall|k: int| 0 <= k < i ==> (#[trigger] probes@[k]).probe_hit,
        decreases probes.len() - i,
    {
        all = all && probes[i].probe_hit;
        i = i + 1;
    }
    proof {
        if all_scenarios_hit() {
            assert forall|k: int| 0 <= k < 8 implies (#[trigger] probes@[k]).probe_hit by {
                if k >= 1 && k < 7 {
                    assert(scenario_hit_spec(consensus_scenarios_spec()[k]@));
                }
            };
        } else {
            assert(!probes@[0].probe_hit || !probes@[7].probe_hit);
        }
    }
    all
}

/// A session of the store carries `id` and a split disagreement.
fn store_has_split_session(store: &ManifoldConsensusStore, id: &str) -> (r: bool)
    ensures
        r == exists|i: int| 0 <= i < store.sessions@.len()
            && (#[trigger] store.sessions@[i]).session_id@ == id@
            && disagreement_of_kind(store.sessions@[i], DisagreementKind::EquivalenceClassSplit),
{
    let mut i: usize = 0;
    while i < store.sessions.len()
        invariant
            i <= store.sessions@.len(),
            forall|k: int| 0 <= k < i ==> !((#[trigger] store.sessions@[k]).session_id@ == id@
                && disagreement_of_kind(store.sessions@[k], DisagreementKind::EquivalenceClassSplit)),
        decreases store.sessions@.len() - i,
    {
        let s = &store.sessions[i];
        let kind_ok = match &s.disagreement {
            Some(d) => d.disagreement_kind == DisagreementKind::EquivalenceClassSplit,
            None => false,
        };
        if str_eq(s.session_id.as_str(), id) && kind_ok {
            return true;
        }
        i = i + 1;
    }
    false
}

/// Verify the synthetic consensus algebra roundtrip (unanimous, split, open, resolve)
/// without live fan-out; it holds exactly when the providers disagree on `roundtrip-split`.
pub fn manifold_verify_s5_consensus_algebra_roundtrip() -> (r: bool)
    ensures
        r == consensus_split("roundtrip-split"),
{
    let mut store = ManifoldConsensusStore::new();
    let unanimous = synthetic_unanimous_attestations("roundtrip-unanimous");
    let split = synthetic_consensus_attestations("roundtrip-split");
    proof {
        lemma_unanimous_no_split("roundtrip-unanimous", unanimous@);
        lemma_consensus_split("roundtrip-split", split@);
    }
    let unanimous_ok = !attestations_have_equivalence_split(&unanimous);
    let split_ok = attestations_have_equivalence_split(&split);
    let ghost s0 = store.sessions@;
    let (session_id, opened) = store.open_consensus_session("roundtrip-split");
    let ghost s1 = store.sessions@;
    proof {
        lemma_resolution_closes_opened_session_open_half(s0, s1, "roundtrip-split");
        if opened {
            assert(s1[0].session_id@ == session_id@);
            assert(disagreement_of_kind(s1[0], DisagreementKind::EquivalenceClassSplit));
        }
    }
    let open_ok = opened && store.has_open_cross_model_disagreement() && store_has_split_session(
        &store,
        session_id.as_str(),
    );
    store.record_consensus_resolution(session_id.as_str());
    proof {
        lemma_resolution_closes_opened_session(s0, s1, store.sessions@, "roundtrip-split");
    }
    let resolved_ok = !store.has_open_cross_model_disagreement();
    unanimous_ok && split_ok && open_ok && resolved_ok
}

/// Extended algebra roundtrip — the base roundtrip, then a session summary rollup over a
/// fresh session; it holds exactly when the providers disagree on both prompts.
pub fn manifold_verify_s5_consensus_algebra_roundtrip_extended() -> (r: bool)
    ensures
        r == (consensus_split("roundtrip-split") && consensus_split("ac07-summary-track")),
{
    if !manifold_verify_s5_consensus_algebra_roundtrip() {
        return false;
    }
    let mut store = ManifoldConsensusStore::new();
    let ghost s0 = store.sessions@;
    let _ = store.open_consensus_session("ac07-summary-track");
    let summary = manifold_session_consensus_summary(&store);
    proof {
        let s = store.sessions@;
        assert(s.len() == 1);
        assert(s.take(0) =~= Seq::<ManifoldConsensusSession>::empty());
        lemma_count_step(s, session_has_disagreement(), 0);
        lemma_count_step(s, session_open(), 0);
        assert(s.take(1) =~= s);
        if consensus_split("ac07-summary-track") {
            assert(disagreement_of_kind(s[0], DisagreementKind::EquivalenceClassSplit));
        } else {
            assert(!kind_seen(s, DisagreementKind::ShapeMismatch));
            assert(!kind_seen(s, DisagreementKind::AttestationDivergence));
            assert(!kind_seen(s, DisagreementKind::TimeoutPartial));
            assert(!kind_seen(s, DisagreementKind::EquivalenceClassSplit));
        }
    }
    summary.disagreement_events >= 1 && summary.open_sessions >= 1
        && summary.unique_disagreement_kinds >= 1
}

// ---------------------------------------------------------------------------
// Census
// ---------------------------------------------------------------------------

/// W29-124 swarm cell id (SEC-S5 honest-fence deepen).
pub const W29_124_CELL_ID: &'static str = "W29-124-SEC_S5";

/// W29-124 honest posture — manifold S-5 census deepen only.
pub const W29_124_HONEST_POSTURE: &'static str = "SEC_S5_MANIFOLD_CENSUS_DEEPEN_ONLY";

/// W29-124 explicit non-claims (gate text).
pub const W29_124_NON_CLAIM: &'static str =
    "not GREEN; not OP-5 PASS; not production_wired; not MASTER_RETICK";

/// W29-124 deepen schema version.
pub const W29_124_DEEPEN_SCHEMA_VERSION: &'static str = "sec_s5_w29_124_honest_fence_v1";

/// Honest fence string for meta / fleet probes (GREEN / PRODUCTION / MASTER / OP-5 fenced).
pub const HONEST_FENCE: &'static str =
    "census_wired=true production_wired=false green_claim_blocked=true master_retick=false op5_cleared=false live_fanout_wired=false ln0_proof_wired=false";

/// Board slice id.
pub const BOARD_SLICE_ID: &'static str = "SEC-S5";

/// AGAP slot id (2033 synthetic consensus deepen).
pub const JOB_ID: &'static str = "AGAP-2033-SEC-S5";

/// FLEET-COMPOSER Prabhu Wave I slot I2 id.
pub const FLEET_P1812_I2_JOB_ID: &'static str = "PRABHU-WAVE-I-1812-I2";

/// FLEET-COMPOSER Prabhu Wave I I2 receipt path.
pub const FLEET_P1812_I2_RECEIPT_PATH: &'static str = "outputs/.tmp/COMPOSER_P1812_I2.md";

/// FLEET-COMPOSER ACCEL-25 slot AC07 id.
pub const FLEET_ACCEL_AC07_JOB_ID: &'static str = "ACCEL-25-2030-AC07";

/// FLEET-COMPOSER ACCEL-25 AC07 receipt path.
pub const FLEET_ACCEL_AC07_RECEIPT_PATH: &'static str = "outputs/.tmp/COMPOSER_ACCEL_2030_AC07.md";

/// Prior AGAP-2033 SEC-S5 synthetic consensus receipt.
pub const PRIOR_RECEIPT_PATH_2033: &'static str =
    "old/residuals/residuals/misc-outputs-tmp/COMPLETION_AGAP_AGENT_SEC-S5_2033.md";

/// Prior AGAP-2127 SEC-S5 L-N0 crosswalk + algebra roundtrip receipt.
pub const PRIOR_RECEIPT_PATH_2127: &'static str =
    "old/residuals/residuals/misc-outputs-tmp/COMPLETION_AGAP_AGENT_SEC-S5_2127.md";

/// umst-trust SEC-S5 consensus delegate SSOT.
pub const TRUST_SSOT: &'static str = "umst-foundations/crates/umst-trust/src/sec_s5_consensus.rs";

/// egoff consensus SSOT (full session/event deepen).
pub const EGOFF_CONSENSUS_SSOT: &'static str = "egoff/egoff/src/security/consensus.rs";

/// Gateway HCOM prov delegate SSOT (serial next-hop).
pub const GATEWAY_SSOT: &'static str = "umst-gateway/crates/umst-gateway/src/sec_hcom_prov_gw.rs";

/// umst-formal L-N0 proof SSOT (honest open).
pub const FORMAL_LN0_SSOT: &'static str = "umst-formal/Lean/Network/MajorityHonestConvergesToTruth.lean";

/// Honest adoption tier.
pub const POSTURE_TAG: &'static str = "manifold-gate-census-wired-not-production";

/// Census schema version (v3 absorbs the W29-124 honest-fence deepen).
pub const SCHEMA_VERSION: &'static str = "sec_s5_gate_synthetic_consensus_census_v3";

/// L-N0 formal proof wired — honest false until Lean lands.
pub const LN0_PROOF_WIRED_HONEST: bool = false;

/// Live multi-LLM fan-out wired — honest false.
pub const LIVE_FANOUT_WIRED_HONEST: bool = false;

/// S-Arc GREEN claim blocked — honest true in scaffold deepen.
pub const S5_GREEN_CLAIM_BLOCKED: bool = true;

/// One hop in the manifold SEC-S5 gate runtime wire map.
#[derive(Debug, Clone, Copy, PartialEq, Eq)]
pub struct SecS5GateWireHop {
    pub ordinal: u8,
    pub surface: &'static str,
    pub role: &'static str,
    pub wired: bool,
}

/// Manifold SEC-S5 gate runtime wire map (cold-edge evidence → trust consensus census).
pub open spec fn wire_hops_spec() -> Seq<SecS5GateWireHop> {
    seq![
        SecS5GateWireHop { ordinal: 1, surface: "umst-manifold::runtime::gate::evidence::AdmissibilityToken", role: "Gate admit witness token on cold edge", wired: true },
        SecS5GateWireHop { ordinal: 2, surface: "umst-manifold::runtime::gate::cartridge::GateCartridge::transition_evidence", role: "CdTransitionCartridge structured witness", wired: true },
        SecS5GateWireHop { ordinal: 3, surface: "umst-manifold::runtime::gate::sec_s5::gate_synthetic_consensus_census", role: "Manifold gate SEC-S5 synthetic consensus census", wired: true },
        SecS5GateWireHop { ordinal: 4, surface: "umst-trust::sec_s5_consensus::validate_s5_consensus_honesty", role: "Trust consensus delegate (F76/G76/H55)", wired: true },
        SecS5GateWireHop { ordinal: 5, surface: "egoff::security::consensus + egoff::security::mod::session_trust_badge", role: "egoff consensus session algebra + cockpit badge (live wire egoff-owned)", wired: true },
        SecS5GateWireHop { ordinal: 6, surface: "umst-formal::Lean::Network::MajorityHonestConvergesToTruth", role: "L-N0 formal proof (R-LN0-full)", wired: false },
        SecS5GateWireHop { ordinal: 7, surface: "umst-gateway::sec_hcom_prov_gw::hcom_prov_gw_production_wired", role: "Gateway HCOM prov production ceremony (serial Wave I)", wired: false },
    ]
}

/// Manifold SEC-S5 gate runtime wire map (cold-edge evidence → trust consensus census).
pub fn manifold_sec_s5_gate_wire_hops() -> (r: Vec<SecS5GateWireHop>)
    ensures
        r@ == wire_hops_spec(),
{
    let r = vec![
        SecS5GateWireHop { ordinal: 1, surface: "umst-manifold::runtime::gate::evidence::AdmissibilityToken", role: "Gate admit witness token on cold edge", wired: true },
        SecS5GateWireHop { ordinal: 2, surface: "umst-manifold::runtime::gate::cartridge::GateCartridge::transition_evidence", role: "CdTransitionCartridge structured witness", wired: true },
        SecS5GateWireHop { ordinal: 3, surface: "umst-manifold::runtime::gate::sec_s5::gate_synthetic_consensus_census", role: "Manifold gate SEC-S5 synthetic consensus census", wired: true },
        SecS5GateWireHop { ordinal: 4, surface: "umst-trust::sec_s5_consensus::validate_s5_consensus_honesty", role: "Trust consensus delegate (F76/G76/H55)", wired: true },
        SecS5GateWireHop { ordinal: 5, surface: "egoff::security::consensus + egoff::security::mod::session_trust_badge", role: "egoff consensus session algebra + cockpit badge (live wire egoff-owned)", wired: true },
        SecS5GateWireHop { ordinal: 6, surface: "umst-formal::Lean::Network::MajorityHonestConvergesToTruth", role: "L-N0 formal proof (R-LN0-full)", wired: false },
        SecS5GateWireHop { ordinal: 7, surface: "umst-gateway::sec_hcom_prov_gw::hcom_prov_gw_production_wired", role: "Gateway HCOM prov production ceremony (serial Wave I)", wired: false },
    ];
    assert(r@ =~= wire_hops_spec());
    r
}

/// Selects the wired hops of a wire map.
pub open spec fn hop_is_wired() -> spec_fn(SecS5GateWireHop) -> bool {
    |h: SecS5GateWireHop| h.wired
}

/// Five of the seven wire hops are wired today.
pub proof fn lemma_wire_hops_wired_count()
    ensures
        count_where(wire_hops_spec(), hop_is_wired()) == 5,
{
    let s = wire_hops_spec();
    let p = hop_is_wired();
    assert(s.take(0) =~= Seq::<SecS5GateWireHop>::empty());
    lemma_count_step(s, p, 0);
    lemma_count_step(s, p, 1);
    lemma_count_step(s, p, 2);
    lemma_count_step(s, p, 3);
    lemma_count_step(s, p, 4);
    lemma_count_step(s, p, 5);
    lemma_count_step(s, p, 6);
    lemma_take_all(s);
}

/// Count the wired hops of a wire map.
pub fn count_wired_hops(items: &Vec<SecS5GateWireHop>) -> (r: usize)
    ensures
        r == count_where(items@, hop_is_wired()),
{
    let mut n: usize = 0;
    let mut i: usize = 0;
    while i < items.len()
        invariant
            i <= items.len(),
            n == count_where(items@.take(i as int), hop_is_wired()),
            n <= i,
        decreases items.len() - i,
    {
        proof {
            lemma_count_step(items@, hop_is_wired(), i as int);
        }
        if items[i].wired {
            n = n + 1;
        }
        i = i + 1;
    }
    proof {
        lemma_take_all(items@);
    }
    n
}

/// The pinned non-claim and fence texts carry every refusal the deepen checks for.
pub proof fn lemma_fence_texts()
    ensures
        seq_contains(W29_124_NON_CLAIM@, "not GREEN"@),
        seq_contains(W29_124_NON_CLAIM@, "not OP-5 PASS"@),
        seq_contains(W29_124_NON_CLAIM@, "not production_wired"@),
        seq_contains(W29_124_NON_CLAIM@, "not MASTER_RETICK"@),
        seq_contains(HONEST_FENCE@, "production_wired=false"@),
        seq_contains(HONEST_FENCE@, "green_claim_blocked=true"@),
        seq_contains(HONEST_FENCE@, "master_retick=false"@),
        seq_contains(HONEST_FENCE@, "op5_cleared=false"@),
        seq_contains(HONEST_FENCE@, "live_fanout_wired=false"@),
        seq_contains(HONEST_FENCE@, "ln0_proof_wired=false"@),
{
    reveal_strlit("not GREEN; not OP-5 PASS; not production_wired; not MASTER_RETICK");
    reveal_strlit("not GREEN");
    reveal_strlit("not OP-5 PASS");
    reveal_strlit("not production_wired");
    reveal_strlit("not MASTER_RETICK");
    reveal_strlit("census_wired=true production_wired=false green_claim_blocked=true master_retick=false op5_cleared=false live_fanout_wired=false ln0_proof_wired=false");
    reveal_strlit("production_wired=false");
    reveal_strlit("green_claim_blocked=true");
    reveal_strlit("master_retick=false");
    reveal_strlit("op5_cleared=false");
    reveal_strlit("live_fanout_wired=false");
    reveal_strlit("ln0_proof_wired=false");
    assert(W29_124_NON_CLAIM@.subrange(0, 9) =~= "not GREEN"@);
    assert(matches_at(W29_124_NON_CLAIM@, "not GREEN"@, 0));
    assert(W29_124_NON_CLAIM@.subrange(11, 24) =~= "not OP-5 PASS"@);
    assert(matches_at(W29_124_NON_CLAIM@, "not OP-5 PASS"@, 11));
    assert(W29_124_NON_CLAIM@.subrange(26, 46) =~= "not production_wired"@);
    assert(matches_at(W29_124_NON_CLAIM@, "not production_wired"@, 26));
    assert(W29_124_NON_CLAIM@.subrange(48, 65) =~= "not MASTER_RETICK"@);
    assert(matches_at(W29_124_NON_CLAIM@, "not MASTER_RETICK"@, 48));
    assert(HONEST_FENCE@.subrange(18, 40) =~= "production_wired=false"@);
    assert(matches_at(HONEST_FENCE@, "production_wired=false"@, 18));
    assert(HONEST_FENCE@.subrange(41, 65) =~= "green_claim_blocked=true"@);
    assert(matches_at(HONEST_FENCE@, "green_claim_blocked=true"@, 41));
    assert(HONEST_FENCE@.subrange(66, 85) =~= "master_retick=false"@);
    assert(matches_at(HONEST_FENCE@, "master_retick=false"@, 66));
    assert(HONEST_FENCE@.subrange(86, 103) =~= "op5_cleared=false"@);
    assert(matches_at(HONEST_FENCE@, "op5_cleared=false"@, 86));
    assert(HONEST_FENCE@.subrange(104, 127) =~= "live_fanout_wired=false"@);
    assert(matches_at(HONEST_FENCE@, "live_fanout_wired=false"@, 104));
    assert(HONEST_FENCE@.subrange(128, 149) =~= "ln0_proof_wired=false"@);
    assert(matches_at(HONEST_FENCE@, "ln0_proof_wired=false"@, 128));
}

/// The pinned SSOT and receipt paths carry the markers the probes check for.
pub proof fn lemma_ssot_pins()
    ensures
        seq_contains(PRIOR_RECEIPT_PATH_2033@, "SEC-S5_2033"@),
        seq_contains(PRIOR_RECEIPT_PATH_2127@, "SEC-S5_2127"@),
        seq_contains(TRUST_SSOT@, "sec_s5_consensus"@),
        seq_contains(FLEET_ACCEL_AC07_RECEIPT_PATH@, "COMPOSER_ACCEL_2030_AC07"@),
        seq_contains(FLEET_P1812_I2_RECEIPT_PATH@, "COMPOSER_P1812_I2"@),
{
    reveal_strlit("old/residuals/residuals/misc-outputs-tmp/COMPLETION_AGAP_AGENT_SEC-S5_2033.md");
    reveal_strlit("SEC-S5_2033");
    reveal_strlit("old/residuals/residuals/misc-outputs-tmp/COMPLETION_AGAP_AGENT_SEC-S5_2127.md");
    reveal_strlit("SEC-S5_2127");
    reveal_strlit("umst-foundations/crates/umst-trust/src/sec_s5_consensus.rs");
    reveal_strlit("sec_s5_consensus");
    reveal_strlit("outputs/.tmp/COMPOSER_ACCEL_2030_AC07.md");
    reveal_strlit("COMPOSER_ACCEL_2030_AC07");
    reveal_strlit("outputs/.tmp/COMPOSER_P1812_I2.md");
    reveal_strlit("COMPOSER_P1812_I2");
    assert(PRIOR_RECEIPT_PATH_2033@.subrange(63, 74) =~= "SEC-S5_2033"@);
    assert(matches_at(PRIOR_RECEIPT_PATH_2033@, "SEC-S5_2033"@, 63));
    assert(PRIOR_RECEIPT_PATH_2127@.subrange(63, 74) =~= "SEC-S5_2127"@);
    assert(matches_at(PRIOR_RECEIPT_PATH_2127@, "SEC-S5_2127"@, 63));
    assert(TRUST_SSOT@.subrange(39, 55) =~= "sec_s5_consensus"@);
    assert(matches_at(TRUST_SSOT@, "sec_s5_consensus"@, 39));
    assert(FLEET_ACCEL_AC07_RECEIPT_PATH@.subrange(13, 37) =~= "COMPOSER_ACCEL_2030_AC07"@);
    assert(matches_at(FLEET_ACCEL_AC07_RECEIPT_PATH@, "COMPOSER_ACCEL_2030_AC07"@, 13));
    assert(FLEET_P1812_I2_RECEIPT_PATH@.subrange(13, 30) =~= "COMPOSER_P1812_I2"@);
    assert(matches_at(FLEET_P1812_I2_RECEIPT_PATH@, "COMPOSER_P1812_I2"@, 13));
}

/// The consensus probes that depend on the hashes are honest: the synthetic providers
/// disagree on every split prompt the probes and roundtrips use.
pub open spec fn consensus_probes_honest() -> bool {
    consensus_split("probe-split") && consensus_split("probe-resolve-badge") && consensus_split(
        "roundtrip-split",
    ) && consensus_split("ac07-summary-track")
}

/// Aggregated SEC-S5 gate synthetic consensus census on the manifold boundary.
#[derive(Debug, Clone, Copy, PartialEq, Eq)]
pub struct SecS5GateSyntheticConsensusCensus {
    pub schema_version: &'static str,
    pub board_slice_id: &'static str,
    pub gate_evidence_wired: bool,
    /// S-5 8/8 synthetic probes hit at the manifold boundary.
    pub s5_all_scenarios_probed: bool,
    /// Consensus algebra roundtrip witness at the manifold boundary.
    pub algebra_roundtrip_verified: bool,
    /// Extended algebra roundtrip (session summary rollup) verified.
    pub extended_algebra_roundtrip_verified: bool,
    /// L-N0 Lean crosswalk row count.
    pub ln0_crosswalk_rows: usize,
    /// Honest false.
    pub ln0_proof_wired: bool,
    /// Honest false.
    pub live_fanout_wired: bool,
    pub s5_green_claim_blocked: bool,
    /// Gateway production flip.
    pub production_wired: bool,
    pub wire_hop_wired_count: u8,
}

/// Exercise gate cold-edge evidence at the manifold SSOT (the identity transition admits).
pub fn gate_transition_evidence_probe(evidence: &TransitionEvidence) -> (r: bool)
    ensures
        r == witness_admits(*evidence),
{
    cold_edge_witness_admits(evidence)
}

/// Whether the live gateway HCOM prov production flip is plumbed (honest `false`).
pub fn sec_s5_production_wired() -> (r: bool)
    ensures
        !r,
{
    false
}

/// MASTER retick eligibility — honest **false**.
pub fn sec_s5_master_retick_eligible() -> (r: bool)
    ensures
        !r,
{
    false
}

/// OP-5 clearance — honest **false**.
pub fn sec_s5_op5_cleared() -> (r: bool)
    ensures
        !r,
{
    false
}

/// Build the manifold SEC-S5 gate synthetic consensus census from live measurements.
pub fn gate_synthetic_consensus_census(gate_evidence_wired: bool) -> (r: SecS5GateSyntheticConsensusCensus)
    ensures
        r.schema_version == SCHEMA_VERSION,
        r.board_slice_id == BOARD_SLICE_ID,
        r.gate_evidence_wired == gate_evidence_wired,
        r.s5_all_scenarios_probed == all_scenarios_hit(),
        r.algebra_roundtrip_verified == consensus_split("roundtrip-split"),
        r.extended_algebra_roundtrip_verified == (consensus_split("roundtrip-split") && consensus_split("ac07-summary-track")),
        r.ln0_crosswalk_rows == 8,
        !r.ln0_proof_wired,
        !r.live_fanout_wired,
        r.s5_green_claim_blocked,
        !r.production_wired,
        r.wire_hop_wired_count == 5,
{
    let hops = manifold_sec_s5_gate_wire_hops();
    let wired = count_wired_hops(&hops);
    proof {
        lemma_wire_hops_wired_count();
    }
    SecS5GateSyntheticConsensusCensus {
        schema_version: SCHEMA_VERSION,
        board_slice_id: BOARD_SLICE_ID,
        gate_evidence_wired,
        s5_all_scenarios_probed: manifold_s5_all_scenarios_probed(),
        algebra_roundtrip_verified: manifold_verify_s5_consensus_algebra_roundtrip(),
        extended_algebra_roundtrip_verified: manifold_verify_s5_consensus_algebra_roundtrip_extended(),
        ln0_crosswalk_rows: manifold_ln0_lean_crosswalk().len(),
        ln0_proof_wired: LN0_PROOF_WIRED_HONEST,
        live_fanout_wired: LIVE_FANOUT_WIRED_HONEST,
        s5_green_claim_blocked: S5_GREEN_CLAIM_BLOCKED,
        production_wired: sec_s5_production_wired(),
        wire_hop_wired_count: wired as u8,
    }
}

/// Whether the manifold gate SEC-S5 ceremony is closed at census tier: exactly when the
/// cold-edge evidence admits and the hash-dependent consensus probes are honest.
pub fn manifold_gate_sec_s5_ceremony_closed(gate_evidence_wired: bool) -> (r: bool)
    ensures
        r == (gate_evidence_wired && consensus_probes_honest()),
{
    let census = gate_synthetic_consensus_census(gate_evidence_wired);
    census.gate_evidence_wired && census.s5_all_scenarios_probed && census.algebra_roundtrip_verified
        && census.extended_algebra_roundtrip_verified && census.ln0_crosswalk_rows == 8
        && !census.ln0_proof_wired && !census.live_fanout_wired && census.s5_green_claim_blocked
        && !census.production_wired && census.wire_hop_wired_count == 5 && gate_evidence_wired
}

/// Honest fence flags for the SEC-S5 deepen (W29-124).
#[derive(Debug, Clone, Copy, PartialEq, Eq)]
pub struct SecS5W29124DeepenProbe {
    pub schema_version: &'static str,
    pub cell_id: &'static str,
    pub honest_posture: &'static str,
    pub non_claim: &'static str,
    pub honest_fence: &'static str,
    /// Invent claim — must stay false.
    pub production_wired_claimed: bool,
    /// Invent claim — must stay false.
    pub green_claimed: bool,
    /// Invent claim — must stay false.
    pub op5_pass_claimed: bool,
    /// Invent claim — must stay false.
    pub master_retick_claimed: bool,
    /// Measured deepen honesty (fences + ceremony pins).
    pub deepen_honest: bool,
}

/// Build the W29-124 SEC-S5 deepen honesty probe; it is honest exactly when the ceremony closes.
pub fn sec_s5_w29_124_deepen_probe(gate_evidence_wired: bool) -> (r: SecS5W29124DeepenProbe)
    ensures
        r.schema_version == W29_124_DEEPEN_SCHEMA_VERSION,
        r.cell_id == W29_124_CELL_ID,
        r.honest_posture == W29_124_HONEST_POSTURE,
        r.non_claim == W29_124_NON_CLAIM,
        r.honest_fence == HONEST_FENCE,
        !r.production_wired_claimed,
        !r.green_claimed,
        !r.op5_pass_claimed,
        !r.master_retick_claimed,
        r.deepen_honest == (gate_evidence_wired && consensus_probes_honest()),
{
    let production_wired_claimed = sec_s5_production_wired();
    let green_claimed = !S5_GREEN_CLAIM_BLOCKED;
    let op5_pass_claimed = sec_s5_op5_cleared();
    let master_retick_claimed = sec_s5_master_retick_eligible();
    let ceremony_ok = manifold_gate_sec_s5_ceremony_closed(gate_evidence_wired);
    proof {
        lemma_fence_texts();
    }
    let deepen_honest = str_eq(W29_124_CELL_ID, "W29-124-SEC_S5")
        && str_eq(W29_124_DEEPEN_SCHEMA_VERSION, "sec_s5_w29_124_honest_fence_v1")
        && str_eq(W29_124_HONEST_POSTURE, "SEC_S5_MANIFOLD_CENSUS_DEEPEN_ONLY")
        && str_eq(SCHEMA_VERSION, "sec_s5_gate_synthetic_consensus_census_v3")
        && !production_wired_claimed && !green_claimed && !op5_pass_claimed
        && !master_retick_claimed && !LN0_PROOF_WIRED_HONEST && !LIVE_FANOUT_WIRED_HONEST
        && str_contains(W29_124_NON_CLAIM, "not GREEN")
        && str_contains(W29_124_NON_CLAIM, "not OP-5 PASS")
        && str_contains(W29_124_NON_CLAIM, "not production_wired")
        && str_contains(W29_124_NON_CLAIM, "not MASTER_RETICK")
        && str_contains(HONEST_FENCE, "production_wired=false")
        && str_contains(HONEST_FENCE, "green_claim_blocked=true")
        && str_contains(HONEST_FENCE, "master_retick=false")
        && str_contains(HONEST_FENCE, "op5_cleared=false")
        && str_contains(HONEST_FENCE, "live_fanout_wired=false")
        && str_contains(HONEST_FENCE, "ln0_proof_wired=false") && ceremony_ok;
    SecS5W29124DeepenProbe {
        schema_version: W29_124_DEEPEN_SCHEMA_VERSION,
        cell_id: W29_124_CELL_ID,
        honest_posture: W29_124_HONEST_POSTURE,
        non_claim: W29_124_NON_CLAIM,
        honest_fence: HONEST_FENCE,
        production_wired_claimed,
        green_claimed,
        op5_pass_claimed,
        master_retick_claimed,
        deepen_honest,
    }
}

/// Whether the W29-124 SEC-S5 deepen honesty probe passes.
pub fn sec_s5_w29_124_deepen_honest(gate_evidence_wired: bool) -> (r: bool)
    ensures
        r == (gate_evidence_wired && consensus_probes_honest()),
{
    sec_s5_w29_124_deepen_probe(gate_evidence_wired).deepen_honest
}

/// SEC-S5 fence: refuse inventing GREEN / PRODUCTION_WIRED / MASTER / OP-5.
pub fn sec_s5_honest_fence_holds(gate_evidence_wired: bool) -> (r: bool)
    ensures
        r == (gate_evidence_wired && consensus_probes_honest()),
{
    let p = sec_s5_w29_124_deepen_probe(gate_evidence_wired);
    p.deepen_honest && !p.green_claimed && !p.production_wired_claimed && !p.op5_pass_claimed
        && !p.master_retick_claimed
}

/// Typed probe for SEC-S5 manifold gate closure honesty.
#[derive(Debug, Clone, Copy, PartialEq, Eq, Structural)]
pub struct SecS5GateManifoldProbe {
    pub gate_evidence_wired: bool,
    pub s5_all_scenarios_probed: bool,
    pub algebra_roundtrip_verified: bool,
    pub extended_algebra_roundtrip_verified: bool,
    pub ln0_crosswalk_rows: usize,
    pub ln0_proof_honest_false: bool,
    pub live_fanout_honest_false: bool,
    pub s5_green_claim_blocked: bool,
    pub production_honest_false: bool,
    pub wire_hop_wired_count: u8,
    pub ceremony_closed: bool,
}

/// The manifold probe measured for a given cold-edge outcome.
pub open spec fn manifold_probe_spec(gate_evidence_wired: bool) -> SecS5GateManifoldProbe {
    SecS5GateManifoldProbe {
        gate_evidence_wired,
        s5_all_scenarios_probed: all_scenarios_hit(),
        algebra_roundtrip_verified: consensus_split("roundtrip-split"),
        extended_algebra_roundtrip_verified: consensus_split("roundtrip-split") && consensus_split("ac07-summary-track"),
        ln0_crosswalk_rows: 8,
        ln0_proof_honest_false: true,
        live_fanout_honest_false: true,
        s5_green_claim_blocked: true,
        production_honest_false: true,
        wire_hop_wired_count: 5,
        ceremony_closed: gate_evidence_wired && consensus_probes_honest(),
    }
}

/// Build the introspection probe for SEC-S5 done-when checks.
pub fn sec_s5_gate_manifold_probe(gate_evidence_wired: bool) -> (r: SecS5GateManifoldProbe)
    ensures
        r == manifold_probe_spec(gate_evidence_wired),
{
    let census = gate_synthetic_consensus_census(gate_evidence_wired);
    SecS5GateManifoldProbe {
        gate_evidence_wired: census.gate_evidence_wired,
        s5_all_scenarios_probed: census.s5_all_scenarios_probed,
        algebra_roundtrip_verified: census.algebra_roundtrip_verified,
        extended_algebra_roundtrip_verified: census.extended_algebra_roundtrip_verified,
        ln0_crosswalk_rows: census.ln0_crosswalk_rows,
        ln0_proof_honest_false: !census.ln0_proof_wired,
        live_fanout_honest_false: !census.live_fanout_wired,
        s5_green_claim_blocked: census.s5_green_claim_blocked,
        production_honest_false: !census.production_wired,
        wire_hop_wired_count: census.wire_hop_wired_count,
        ceremony_closed: manifold_gate_sec_s5_ceremony_closed(gate_evidence_wired),
    }
}

/// One S-5 gate-factor row for the operator `:trust gate-factors` deepen.
#[derive(Debug)]
pub struct SecS5GateFactorRow {
    pub factor_id: &'static str,
    /// Whether the witness probe is wired.
    pub probe_wired: bool,
    /// Whether the factor earns acceptance credit toward S-5 GREEN.
    pub acceptance_credit: bool,
    /// Operator detail string from the live probe.
    pub detail: String,
}

/// Number of consensus scenarios whose probe hits.
pub open spec fn scenario_hit_count() -> nat {
    6 + (if consensus_split("probe-split") { 1nat } else { 0nat }) + (if consensus_split(
        "probe-resolve-badge",
    ) {
        1nat
    } else {
        0nat
    })
}

/// Gate-factor ids, in row order.
pub open spec fn factor_ids_spec() -> Seq<&'static str> {
    seq!["gate-evidence", "consensus-8x8", "algebra-roundtrip", "algebra-extended", "ln0-crosswalk", "wire-map", "trust-delegate", "live-fanout-blocked"]
}

/// Whether gate-factor row `k` is wired, for a cold-edge outcome.
pub open spec fn factor_wired_spec(e: bool, k: int) -> bool {
    if k == 0 {
        e
    } else if k == 1 {
        all_scenarios_hit()
    } else if k == 2 {
        consensus_split("roundtrip-split")
    } else if k == 3 {
        consensus_split("roundtrip-split") && consensus_split("ac07-summary-track")
    } else {
        true
    }
}

/// Whether gate-factor row `k` earns acceptance credit (the live fan-out row never does).
pub open spec fn factor_credit_spec(e: bool, k: int) -> bool {
    if k == 7 {
        false
    } else {
        factor_wired_spec(e, k)
    }
}

/// Operator detail of gate-factor row `k`.
pub open spec fn factor_detail_spec(k: int) -> Seq<char> {
    if k == 0 {
        "cold-edge AdmissibilityToken + CdTransitionCartridge"@
    } else if k == 1 {
        "scenarios="@ + decimal(scenario_hit_count()) + "/"@ + decimal(8)
    } else if k == 2 {
        "synthetic unanimous/split + session resolve lifecycle"@
    } else if k == 3 {
        "G76-style session summary rollup at manifold boundary"@
    } else if k == 4 {
        "crosswalk_rows="@ + decimal(8) + "/8 statement-runtime"@
    } else if k == 5 {
        "hops="@ + decimal(5) + "/"@ + decimal(7) + " wired="@ + decimal(5)
    } else if k == 6 {
        TRUST_SSOT@
    } else {
        "live_fanout_wired=false scert_credit=BLOCKED expected_gate_exit=BLOCKED"@
    }
}

/// The rows are exactly the specified ones.
pub open spec fn factor_rows_match(rows: Seq<SecS5GateFactorRow>, e: bool) -> bool {
    &&& rows.len() == 8
    &&& forall|k: int| 0 <= k < 8 ==> {
        &&& (#[trigger] rows[k]).factor_id == factor_ids_spec()[k]
        &&& rows[k].probe_wired == factor_wired_spec(e, k)
        &&& rows[k].acceptance_credit == factor_credit_spec(e, k)
        &&& rows[k].detail@ == factor_detail_spec(k)
    }
}

/// Selects hitting probes.
pub open spec fn probe_hits() -> spec_fn(ManifoldS5ConsensusProbe) -> bool {
    |p: ManifoldS5ConsensusProbe| p.probe_hit
}

fn scenario_hits_detail() -> (r: String)
    ensures
        r@ == factor_detail_spec(1),
{
    let probes = manifold_s5_consensus_coverage_probes();
    proof {
        lemma_scenario_hits();
    }
    let mut hits: usize = 0;
    let mut i: usize = 0;
    while i < probes.len()
        invariant
            i <= probes.len(),
            hits == count_where(probes@.take(i as int), probe_hits()),
            hits <= i,
        decreases probes.len() - i,
    {
        proof {
            lemma_count_step(probes@, probe_hits(), i as int);
        }
        if probes[i].probe_hit {
            hits = hits + 1;
        }
        i = i + 1;
    }
    proof {
        let s = probes@;
        let p = probe_hits();
        assert(s.take(0) =~= Seq::<ManifoldS5ConsensusProbe>::empty());
        lemma_count_step(s, p, 0);
        lemma_count_step(s, p, 1);
        lemma_count_step(s, p, 2);
        lemma_count_step(s, p, 3);
        lemma_count_step(s, p, 4);
        lemma_count_step(s, p, 5);
        lemma_count_step(s, p, 6);
        lemma_count_step(s, p, 7);
        lemma_take_all(s);
        assert(s[1].probe_hit && s[2].probe_hit && s[3].probe_hit && s[4].probe_hit && s[5].probe_hit && s[6].probe_hit);
    }
    let mut d = String::new();
    push_str(&mut d, "scenarios=");
    push_decimal(&mut d, hits as u64);
    push_str(&mut d, "/");
    push_decimal(&mut d, probes.len() as u64);
    d
}

fn text_of(s: &str) -> (r: String)
    ensures
        r@ == s@,
{
    s.to_owned()
}

/// Collect the live S-5 gate-factor rows for the operator `:trust gate-factors` deepen.
pub fn collect_sec_s5_gate_factor_rows(gate_evidence_wired: bool) -> (r: Vec<SecS5GateFactorRow>)
    ensures
        factor_rows_match(r@, gate_evidence_wired),
{
    let census = gate_synthetic_consensus_census(gate_evidence_wired);
    proof {
        lemma_ssot_pins();
    }
    let mut ln0 = String::new();
    push_str(&mut ln0, "crosswalk_rows=");
    push_decimal(&mut ln0, census.ln0_crosswalk_rows as u64);
    push_str(&mut ln0, "/8 statement-runtime");
    let hops_len = manifold_sec_s5_gate_wire_hops().len();
    let mut hops = String::new();
    push_str(&mut hops, "hops=");
    push_decimal(&mut hops, census.wire_hop_wired_count as u64);
    push_str(&mut hops, "/");
    push_decimal(&mut hops, hops_len as u64);
    push_str(&mut hops, " wired=");
    push_decimal(&mut hops, census.wire_hop_wired_count as u64);
    let trust_delegate = str_contains(TRUST_SSOT, "sec_s5_consensus");
    let r = vec![
        SecS5GateFactorRow {
            factor_id: "gate-evidence",
            probe_wired: census.gate_evidence_wired,
            acceptance_credit: census.gate_evidence_wired,
            detail: text_of("cold-edge AdmissibilityToken + CdTransitionCartridge"),
        },
        SecS5GateFactorRow {
            factor_id: "consensus-8x8",
            probe_wired: census.s5_all_scenarios_probed,
            acceptance_credit: census.s5_all_scenarios_probed,
            detail: scenario_hits_detail(),
        },
        SecS5GateFactorRow {
            factor_id: "algebra-roundtrip",
            probe_wired: census.algebra_roundtrip_verified,
            acceptance_credit: census.algebra_roundtrip_verified,
            detail: text_of("synthetic unanimous/split + session resolve lifecycle"),
        },
        SecS5GateFactorRow {
            factor_id: "algebra-extended",
            probe_wired: census.extended_algebra_roundtrip_verified,
            acceptance_credit: census.extended_algebra_roundtrip_verified,
            detail: text_of("G76-style session summary rollup at manifold boundary"),
        },
        SecS5GateFactorRow {
            factor_id: "ln0-crosswalk",
            probe_wired: census.ln0_crosswalk_rows == 8,
            acceptance_credit: census.ln0_crosswalk_rows == 8,
            detail: ln0,
        },
        SecS5GateFactorRow {
            factor_id: "wire-map",
            probe_wired: census.wire_hop_wired_count == 5,
            acceptance_credit: census.wire_hop_wired_count == 5,
            detail: hops,
        },
        SecS5GateFactorRow {
            factor_id: "trust-delegate",
            probe_wired: trust_delegate,
            acceptance_credit: trust_delegate,
            detail: text_of(TRUST_SSOT),
        },
        SecS5GateFactorRow {
            factor_id: "live-fanout-blocked",
            probe_wired: !census.live_fanout_wired,
            acceptance_credit: false,
            detail: text_of("live_fanout_wired=false scert_credit=BLOCKED expected_gate_exit=BLOCKED"),
        },
    ];
    assert(factor_rows_match(r@, gate_evidence_wired));
    r
}

/// Number of wired gate-factor rows, for a cold-edge outcome.
pub open spec fn factor_wired_count_spec(e: bool) -> nat {
    (if e { 1nat } else { 0nat }) + (if all_scenarios_hit() { 1nat } else { 0nat }) + (if consensus_split(
        "roundtrip-split",
    ) {
        1nat
    } else {
        0nat
    }) + (if consensus_split("roundtrip-split") && consensus_split("ac07-summary-track") {
        1nat
    } else {
        0nat
    }) + 4
}

/// Number of credited gate-factor rows (one fewer: the live fan-out row).
pub open spec fn factor_credit_count_spec(e: bool) -> nat {
    (factor_wired_count_spec(e) - 1) as nat
}

/// Selects wired rows.
pub open spec fn row_is_wired() -> spec_fn(SecS5GateFactorRow) -> bool {
    |r: SecS5GateFactorRow| r.probe_wired
}

/// Selects credited rows.
pub open spec fn row_is_credited() -> spec_fn(SecS5GateFactorRow) -> bool {
    |r: SecS5GateFactorRow| r.acceptance_credit
}

/// Counting the specified rows.
proof fn lemma_factor_row_counts(rows: Seq<SecS5GateFactorRow>, e: bool)
    requires
        factor_rows_match(rows, e),
    ensures
        count_where(rows, row_is_wired()) == factor_wired_count_spec(e),
        count_where(rows, row_is_credited()) == factor_credit_count_spec(e),
{
    assert(rows.take(0) =~= Seq::<SecS5GateFactorRow>::empty());
    lemma_count_step(rows, row_is_wired(), 0);
    lemma_count_step(rows, row_is_credited(), 0);
    assert(rows[0].probe_wired == factor_wired_spec(e, 0));
    lemma_count_step(rows, row_is_wired(), 1);
    lemma_count_step(rows, row_is_credited(), 1);
    assert(rows[1].probe_wired == factor_wired_spec(e, 1));
    lemma_count_step(rows, row_is_wired(), 2);
    lemma_count_step(rows, row_is_credited(), 2);
    assert(rows[2].probe_wired == factor_wired_spec(e, 2));
    lemma_count_step(rows, row_is_wired(), 3);
    lemma_count_step(rows, row_is_credited(), 3);
    assert(rows[3].probe_wired == factor_wired_spec(e, 3));
    lemma_count_step(rows, row_is_wired(), 4);
    lemma_count_step(rows, row_is_credited(), 4);
    assert(rows[4].probe_wired == factor_wired_spec(e, 4));
    lemma_count_step(rows, row_is_wired(), 5);
    lemma_count_step(rows, row_is_credited(), 5);
    assert(rows[5].probe_wired == factor_wired_spec(e, 5));
    lemma_count_step(rows, row_is_wired(), 6);
    lemma_count_step(rows, row_is_credited(), 6);
    assert(rows[6].probe_wired == factor_wired_spec(e, 6));
    lemma_count_step(rows, row_is_wired(), 7);
    lemma_count_step(rows, row_is_credited(), 7);
    assert(rows[7].probe_wired == factor_wired_spec(e, 7));
    lemma_take_all(rows);
}

/// Fixed closing text of the SEC-S5 gate-factor table heading.
pub open spec fn factor_table_head_tail() -> Seq<char> {
    " s5_green_claim_blocked="@ + bool_text(true) + " live_fanout_wired="@ + bool_text(false)
        + " production_wired="@ + bool_text(false)
        + " scert_credit=BLOCKED expected_gate_exit=BLOCKED\n"@
}

/// Heading of the SEC-S5 gate-factor table.
pub open spec fn factor_table_head(e: bool) -> Seq<char> {
    "SEC-S5 gate factors: wired="@ + decimal(factor_wired_count_spec(e)) + "/"@ + decimal(8)
        + " credit="@ + decimal(factor_credit_count_spec(e)) + "/"@ + decimal(8)
        + factor_table_head_tail()
}

/// One rendered gate-factor row.
pub open spec fn factor_row_text() -> spec_fn(SecS5GateFactorRow) -> Seq<char> {
    |r: SecS5GateFactorRow|
        "  "@ + r.factor_id@ + " probe_wired="@ + bool_text(r.probe_wired) + " acceptance_credit="@
            + bool_text(r.acceptance_credit) + " "@ + r.detail@ + "\n"@
}

/// The specified rendering of row `k`.
pub open spec fn factor_row_text_spec(e: bool, k: int) -> Seq<char> {
    "  "@ + factor_ids_spec()[k]@ + " probe_wired="@ + bool_text(factor_wired_spec(e, k))
        + " acceptance_credit="@ + bool_text(factor_credit_spec(e, k)) + " "@ + factor_detail_spec(k)
        + "\n"@
}

/// The operator gate-factor table, for a cold-edge outcome.
pub open spec fn factor_table_spec(e: bool) -> Seq<char> {
    factor_table_head(e) + Seq::new(8, |k: int| factor_row_text_spec(e, k)).flatten()
}

/// Operator gate-factor table string for the SEC-S5 manifold deepen.
pub fn sec_s5_gate_factor_table(gate_evidence_wired: bool) -> (r: String)
    ensures
        r@ == factor_table_spec(gate_evidence_wired),
{
    let rows = collect_sec_s5_gate_factor_rows(gate_evidence_wired);
    let mut wired: usize = 0;
    let mut credit: usize = 0;
    let mut i: usize = 0;
    while i < rows.len()
        invariant
            i <= rows.len(),
            wired == count_where(rows@.take(i as int), row_is_wired()),
            credit == count_where(rows@.take(i as int), row_is_credited()),
            wired <= i,
            credit <= i,
        decreases rows.len() - i,
    {
        proof {
            lemma_count_step(rows@, row_is_wired(), i as int);
            lemma_count_step(rows@, row_is_credited(), i as int);
        }
        if rows[i].probe_wired {
            wired = wired + 1;
        }
        if rows[i].acceptance_credit {
            credit = credit + 1;
        }
        i = i + 1;
    }
    proof {
        lemma_take_all(rows@);
        lemma_factor_row_counts(rows@, gate_evidence_wired);
    }
    let mut out = String::new();
    push_str(&mut out, "SEC-S5 gate factors: wired=");
    push_decimal(&mut out, wired as u64);
    push_str(&mut out, "/");
    push_decimal(&mut out, rows.len() as u64);
    push_str(&mut out, " credit=");
    push_decimal(&mut out, credit as u64);
    push_str(&mut out, "/");
    push_decimal(&mut out, rows.len() as u64);
    push_str(&mut out, " s5_green_claim_blocked=");
    push_bool(&mut out, S5_GREEN_CLAIM_BLOCKED);
    push_str(&mut out, " live_fanout_wired=");
    push_bool(&mut out, LIVE_FANOUT_WIRED_HONEST);
    push_str(&mut out, " production_wired=");
    push_bool(&mut out, sec_s5_production_wired());
    push_str(&mut out, " scert_credit=BLOCKED expected_gate_exit=BLOCKED\n");
    assert(out@ =~= factor_table_head(gate_evidence_wired));
    let ghost header = out@;
    let mut j: usize = 0;
    while j < rows.len()
        invariant
            j <= rows.len(),
            factor_rows_match(rows@, gate_evidence_wired),
            out@ == header + rows@.take(j as int).map_values(factor_row_text()).flatten(),
        decreases rows.len() - j,
    {
        proof {
            lemma_flatten_step(rows@, factor_row_text(), j as int);
        }
        let row = &rows[j];
        push_str(&mut out, "  ");
        push_str(&mut out, row.factor_id);
        push_str(&mut out, " probe_wired=");
        push_bool(&mut out, row.probe_wired);
        push_str(&mut out, " acceptance_credit=");
        push_bool(&mut out, row.acceptance_credit);
        push_str(&mut out, " ");
        push_str(&mut out, row.detail.as_str());
        push_str(&mut out, "\n");
        assert(out@ == header + rows@.take(j + 1).map_values(factor_row_text()).flatten());
        j = j + 1;
    }
    proof {
        lemma_take_all(rows@);
        assert(rows@.map_values(factor_row_text()) =~= Seq::new(
            8,
            |k: int| factor_row_text_spec(gate_evidence_wired, k),
        ));
    }
    out
}

/// The rendered gate-factor table pins the BLOCKED operator exit and SCERT credit.
pub proof fn lemma_factor_table_markers(e: bool)
    ensures
        seq_contains(factor_table_spec(e), "expected_gate_exit=BLOCKED"@),
        seq_contains(factor_table_spec(e), "scert_credit=BLOCKED"@),
{
    reveal_strlit(" s5_green_claim_blocked=");
    reveal_strlit(" live_fanout_wired=");
    reveal_strlit(" production_wired=");
    reveal_strlit(" scert_credit=BLOCKED expected_gate_exit=BLOCKED\n");
    reveal_strlit("expected_gate_exit=BLOCKED");
    reveal_strlit("scert_credit=BLOCKED");
    let t = factor_table_head_tail();
    assert(t.subrange(97, 123) =~= "expected_gate_exit=BLOCKED"@);
    assert(matches_at(t, "expected_gate_exit=BLOCKED"@, 97));
    assert(t.subrange(76, 96) =~= "scert_credit=BLOCKED"@);
    assert(matches_at(t, "scert_credit=BLOCKED"@, 76));
    let pre = "SEC-S5 gate factors: wired="@ + decimal(factor_wired_count_spec(e)) + "/"@ + decimal(8)
        + " credit="@ + decimal(factor_credit_count_spec(e)) + "/"@ + decimal(8);
    let rows = Seq::new(8, |k: int| factor_row_text_spec(e, k)).flatten();
    assert(factor_table_spec(e) =~= pre + t + rows);
    lemma_contains_extend(pre, t, rows, "expected_gate_exit=BLOCKED"@);
    lemma_contains_extend(pre, t, rows, "scert_credit=BLOCKED"@);
}

/// FLEET-COMPOSER Prabhu Wave I I2 integration probe.
#[derive(Debug, Clone, Copy, PartialEq, Eq)]
pub struct SecS5P1812I2Probe {
    pub i2_job_id: &'static str,
    pub prior_2033_absorbed: bool,
    pub prior_2127_absorbed: bool,
    /// Manifold ceremony close predicate.
    pub ceremony_closed: bool,
    /// Underlying gate probe.
    pub probe: SecS5GateManifoldProbe,
    /// Honest false.
    pub production_wired: bool,
    /// Gate-factor rows with probe wired.
    pub gate_factor_wired_count: usize,
    /// Gate-factor table pins the BLOCKED exit.
    pub gate_factor_exit_blocked: bool,
}

fn count_wired_rows(rows: &Vec<SecS5GateFactorRow>) -> (r: usize)
    ensures
        r == count_where(rows@, row_is_wired()),
{
    let mut n: usize = 0;
    let mut i: usize = 0;
    while i < rows.len()
        invariant
            i <= rows.len(),
            n == count_where(rows@.take(i as int), row_is_wired()),
            n <= i,
        decreases rows.len() - i,
    {
        proof {
            lemma_count_step(rows@, row_is_wired(), i as int);
        }
        if rows[i].probe_wired {
            n = n + 1;
        }
        i = i + 1;
    }
    proof {
        lemma_take_all(rows@);
    }
    n
}

/// Build the FLEET-COMPOSER P1812 I2 integration probe from live measurements.
pub fn sec_s5_p1812_i2_probe(gate_evidence_wired: bool) -> (r: SecS5P1812I2Probe)
    ensures
        r.i2_job_id == FLEET_P1812_I2_JOB_ID,
        r.prior_2033_absorbed,
        r.prior_2127_absorbed,
        r.ceremony_closed == (gate_evidence_wired && consensus_probes_honest()),
        r.probe == manifold_probe_spec(gate_evidence_wired),
        !r.production_wired,
        r.gate_factor_wired_count == factor_wired_count_spec(gate_evidence_wired),
        r.gate_factor_exit_blocked,
{
    let rows = collect_sec_s5_gate_factor_rows(gate_evidence_wired);
    let table = sec_s5_gate_factor_table(gate_evidence_wired);
    proof {
        lemma_ssot_pins();
        lemma_factor_table_markers(gate_evidence_wired);
        lemma_factor_row_counts(rows@, gate_evidence_wired);
    }
    SecS5P1812I2Probe {
        i2_job_id: FLEET_P1812_I2_JOB_ID,
        prior_2033_absorbed: str_contains(PRIOR_RECEIPT_PATH_2033, "SEC-S5_2033"),
        prior_2127_absorbed: str_contains(PRIOR_RECEIPT_PATH_2127, "SEC-S5_2127"),
        ceremony_closed: manifold_gate_sec_s5_ceremony_closed(gate_evidence_wired),
        probe: sec_s5_gate_manifold_probe(gate_evidence_wired),
        production_wired: sec_s5_production_wired(),
        gate_factor_wired_count: count_wired_rows(&rows),
        gate_factor_exit_blocked: string_contains(&table, "expected_gate_exit=BLOCKED"),
    }
}

/// FLEET-COMPOSER P1812 I2 honesty gate — honest exactly when the ceremony closes.
pub fn sec_s5_p1812_i2_honest(gate_evidence_wired: bool) -> (r: bool)
    ensures
        r == (gate_evidence_wired && consensus_probes_honest()),
{
    let probe = sec_s5_p1812_i2_probe(gate_evidence_wired);
    proof {
        lemma_fence_texts();
    }
    str_eq(probe.i2_job_id, FLEET_P1812_I2_JOB_ID) && probe.prior_2033_absorbed
        && probe.prior_2127_absorbed && probe.ceremony_closed && probe.probe.gate_evidence_wired
        && probe.probe.s5_all_scenarios_probed && probe.probe.algebra_roundtrip_verified
        && probe.probe.extended_algebra_roundtrip_verified && probe.probe.ln0_crosswalk_rows == 8
        && probe.probe.ln0_proof_honest_false && probe.probe.live_fanout_honest_false
        && probe.probe.s5_green_claim_blocked && probe.probe.production_honest_false
        && probe.probe.wire_hop_wired_count == 5 && !probe.production_wired
        && probe.gate_factor_wired_count >= 7 && probe.gate_factor_exit_blocked
        && !sec_s5_master_retick_eligible() && !sec_s5_op5_cleared() && str_eq(
        W29_124_CELL_ID,
        "W29-124-SEC_S5",
    ) && str_contains(HONEST_FENCE, "green_claim_blocked=true") && str_contains(
        HONEST_FENCE,
        "production_wired=false",
    )
}

/// FLEET-COMPOSER ACCEL-25 AC07 integration probe.
#[derive(Debug, Clone, Copy, PartialEq, Eq)]
pub struct SecS5AccelAc07Probe {
    pub ac07_job_id: &'static str,
    pub ac07_receipt_honest: bool,
    pub prior_i2_absorbed: bool,
    /// Manifold ceremony close predicate.
    pub ceremony_closed: bool,
    /// Underlying gate probe.
    pub probe: SecS5GateManifoldProbe,
    /// Honest false.
    pub production_wired: bool,
    pub extended_roundtrip_verified: bool,
    pub ln0_crosswalk_rows: usize,
    pub gate_factor_wired_count: usize,
    pub gate_factor_exit_blocked: bool,
}

/// Build the FLEET-COMPOSER ACCEL-25 AC07 integration probe from live measurements.
pub fn sec_s5_accel_ac07_probe(gate_evidence_wired: bool) -> (r: SecS5AccelAc07Probe)
    ensures
        r.ac07_job_id == FLEET_ACCEL_AC07_JOB_ID,
        r.ac07_receipt_honest,
        r.prior_i2_absorbed,
        r.ceremony_closed == (gate_evidence_wired && consensus_probes_honest()),
        r.probe == manifold_probe_spec(gate_evidence_wired),
        !r.production_wired,
        r.extended_roundtrip_verified == (consensus_split("roundtrip-split") && consensus_split("ac07-summary-track")),
        r.ln0_crosswalk_rows == 8,
        r.gate_factor_wired_count == factor_wired_count_spec(gate_evidence_wired),
        r.gate_factor_exit_blocked,
{
    let rows = collect_sec_s5_gate_factor_rows(gate_evidence_wired);
    let table = sec_s5_gate_factor_table(gate_evidence_wired);
    let census = gate_synthetic_consensus_census(gate_evidence_wired);
    proof {
        lemma_ssot_pins();
        lemma_factor_table_markers(gate_evidence_wired);
        lemma_factor_row_counts(rows@, gate_evidence_wired);
    }
    SecS5AccelAc07Probe {
        ac07_job_id: FLEET_ACCEL_AC07_JOB_ID,
        ac07_receipt_honest: str_contains(FLEET_ACCEL_AC07_RECEIPT_PATH, "COMPOSER_ACCEL_2030_AC07"),
        prior_i2_absorbed: str_contains(FLEET_P1812_I2_RECEIPT_PATH, "COMPOSER_P1812_I2"),
        ceremony_closed: manifold_gate_sec_s5_ceremony_closed(gate_evidence_wired),
        probe: sec_s5_gate_manifold_probe(gate_evidence_wired),
        production_wired: sec_s5_production_wired(),
        extended_roundtrip_verified: census.extended_algebra_roundtrip_verified,
        ln0_crosswalk_rows: census.ln0_crosswalk_rows,
        gate_factor_wired_count: count_wired_rows(&rows),
        gate_factor_exit_blocked: string_contains(&table, "expected_gate_exit=BLOCKED"),
    }
}

/// FLEET-COMPOSER ACCEL-25 AC07 honesty gate — honest exactly when the ceremony closes.
pub fn sec_s5_accel_ac07_honest(gate_evidence_wired: bool) -> (r: bool)
    ensures
        r == (gate_evidence_wired && consensus_probes_honest()),
{
    let probe = sec_s5_accel_ac07_probe(gate_evidence_wired);
    str_eq(probe.ac07_job_id, FLEET_ACCEL_AC07_JOB_ID) && probe.ac07_receipt_honest
        && probe.prior_i2_absorbed && probe.ceremony_closed && probe.probe.gate_evidence_wired
        && probe.probe.s5_all_scenarios_probed && probe.probe.algebra_roundtrip_verified
        && probe.probe.extended_algebra_roundtrip_verified && probe.probe.ln0_crosswalk_rows == 8
        && probe.probe.ln0_proof_honest_false && probe.probe.live_fanout_honest_false
        && probe.probe.s5_green_claim_blocked && probe.probe.production_honest_false
        && probe.probe.wire_hop_wired_count == 5 && !probe.production_wired
        && probe.extended_roundtrip_verified && probe.ln0_crosswalk_rows == 8
        && probe.gate_factor_wired_count >= 7 && probe.gate_factor_exit_blocked
        && sec_s5_p1812_i2_honest(gate_evidence_wired) && !sec_s5_master_retick_eligible()
        && !sec_s5_op5_cleared() && sec_s5_honest_fence_holds(gate_evidence_wired)
}

/// Validate SEC-S5 gate census honesty: `Ok` exactly when the cold-edge evidence admits and
/// the hash-dependent consensus probes are honest; otherwise the first failing check's error.
pub fn validate_sec_s5_gate_honesty(gate_evidence_wired: bool) -> (r: Result<(), &'static str>)
    ensures
        !gate_evidence_wired ==> r == Err::<(), &'static str>("gate transition evidence probe failed"),
        gate_evidence_wired && !all_scenarios_hit() ==> r == Err::<(), &'static str>(
            "S-5 8/8 consensus probes must hit at manifold boundary",
        ),
        gate_evidence_wired && all_scenarios_hit() && !consensus_split("roundtrip-split") ==> r
            == Err::<(), &'static str>("manifold consensus algebra roundtrip witness failed"),
        gate_evidence_wired && all_scenarios_hit() && consensus_split("roundtrip-split")
            && !consensus_split("ac07-summary-track") ==> r == Err::<(), &'static str>(
            "manifold extended consensus algebra roundtrip witness failed",
        ),
        gate_evidence_wired && consensus_probes_honest() ==> r == Ok::<(), &'static str>(()),
{
    let census = gate_synthetic_consensus_census(gate_evidence_wired);
    if census.ln0_proof_wired {
        return Err("ln0_proof_wired must stay false until Lean lands");
    }
    if census.live_fanout_wired {
        return Err("live_fanout_wired must stay false — no multi-LLM invent");
    }
    if !census.s5_green_claim_blocked {
        return Err("s5_green_claim_blocked must stay true in scaffold");
    }
    if census.production_wired {
        return Err("sec_s5_production_wired must stay false until SEC-HCOM-PROV-GW");
    }
    if !census.gate_evidence_wired {
        return Err("gate transition evidence probe failed");
    }
    if !census.s5_all_scenarios_probed {
        return Err("S-5 8/8 consensus probes must hit at manifold boundary");
    }
    if !census.algebra_roundtrip_verified {
        return Err("manifold consensus algebra roundtrip witness failed");
    }
    if !census.extended_algebra_roundtrip_verified {
        return Err("manifold extended consensus algebra roundtrip witness failed");
    }
    if census.ln0_crosswalk_rows != 8 {
        return Err("L-N0 crosswalk must enumerate 8 scenarios");
    }
    if manifold_sec_s5_gate_wire_hops().len() != 7 {
        return Err("seven SEC-S5 gate wire hops expected");
    }
    if census.wire_hop_wired_count != 5 {
        return Err("five SEC-S5 gate wire hops should be wired today");
    }
    if !manifold_gate_sec_s5_ceremony_closed(gate_evidence_wired) {
        return Err("manifold gate SEC-S5 ceremony must be closed at census tier");
    }
    if !sec_s5_p1812_i2_honest(gate_evidence_wired) {
        return Err("P1812 I2 probe must be honest");
    }
    if !sec_s5_accel_ac07_honest(gate_evidence_wired) {
        return Err("ACCEL AC07 probe must be honest");
    }
    if sec_s5_master_retick_eligible() {
        return Err("SEC-S5 master_retick_eligible must stay honest false");
    }
    if sec_s5_op5_cleared() {
        return Err("SEC-S5 op5_cleared must stay honest false");
    }
    if !sec_s5_honest_fence_holds(gate_evidence_wired) {
        return Err("SEC-S5 W29-124 honest fence must hold (no GREEN/PRODUCTION/MASTER/OP-5)");
    }
    Ok(())
}

/// One rendered line of the SEC-S5 gate wire map.
pub open spec fn hop_row_text() -> spec_fn(SecS5GateWireHop) -> Seq<char> {
    |hop: SecS5GateWireHop| "  "@ + decimal(hop.ordinal as nat) + " wired="@ + bool_text(hop.wired) + " "@ + hop.surface@ + " ["@ + hop.role@ + "]\n"@
}

/// A closing line of the SEC-S5 gate wire map.
pub open spec fn wire_matrix_counts() -> Seq<char> {
    "  wired="@ + decimal(5 as nat) + "/"@ + decimal(7 as nat) + " s5_all_scenarios_probed="@ + bool_text(all_scenarios_hit()) + " algebra_roundtrip="@ + bool_text(consensus_split("roundtrip-split")) + " extended_roundtrip="@ + bool_text(consensus_split("roundtrip-split") && consensus_split("ac07-summary-track")) + " ln0_crosswalk_rows="@ + decimal(8 as nat) + " ln0_proof_wired="@ + bool_text(false) + " live_fanout_wired="@ + bool_text(false) + " production_wired="@ + bool_text(false) + "\n"@
}

/// A closing line of the SEC-S5 gate wire map.
pub open spec fn wire_matrix_ssots() -> Seq<char> {
    "  trust_ssot="@ + TRUST_SSOT@ + "\n  egoff_consensus_ssot="@ + EGOFF_CONSENSUS_SSOT@ + "\n"@
}

/// A closing line of the SEC-S5 gate wire map.
pub open spec fn wire_matrix_fence(gate_evidence_wired: bool) -> Seq<char> {
    "  w29_124_cell="@ + W29_124_CELL_ID@ + " honest_fence_holds="@ + bool_text(gate_evidence_wired && consensus_probes_honest()) + " master_retick="@ + bool_text(false) + " op5_cleared="@ + bool_text(false) + "\n"@
}

/// The SEC-S5 gate wire map, as rendered for operator receipts.
pub open spec fn wire_matrix_spec(gate_evidence_wired: bool) -> Seq<char> {
    "SEC-S5 manifold gate synthetic consensus wire map (AC07):\n"@ + wire_hops_spec().map_values(hop_row_text()).flatten() + wire_matrix_counts() + wire_matrix_ssots() + wire_matrix_fence(gate_evidence_wired)
}

/// The hop rows of the SEC-S5 wire map, rendered.
fn wire_matrix_rows() -> (r: String)
    ensures
        r@ == wire_hops_spec().map_values(hop_row_text()).flatten(),
{
    let items = manifold_sec_s5_gate_wire_hops();
    let mut out = String::new();
    let ghost header = out@;
    let mut i: usize = 0;
    while i < items.len()
        invariant
            i <= items.len(),
            items@ == wire_hops_spec(),
            header == Seq::<char>::empty(),
            out@ == header + items@.take(i as int).map_values(hop_row_text()).flatten(),
        decreases items.len() - i,
    {
        proof {
            lemma_flatten_step(items@, hop_row_text(), i as int);
        }
        let hop = items[i];
        push_str(&mut out, "  ");
        push_decimal(&mut out, hop.ordinal as u64);
        push_str(&mut out, " wired=");
        push_bool(&mut out, hop.wired);
        push_str(&mut out, " ");
        push_str(&mut out, hop.surface);
        push_str(&mut out, " [");
        push_str(&mut out, hop.role);
        push_str(&mut out, "]\n");
        assert(out@ == header + items@.take(i + 1).map_values(hop_row_text()).flatten());
        i = i + 1;
    }
    proof {
        lemma_take_all(items@);
    }
    assert(out@ =~= items@.map_values(hop_row_text()).flatten());
    out
}

/// The count, SSOT and fence lines that end the SEC-S5 wire map, rendered.
fn wire_matrix_tail(gate_evidence_wired: bool) -> (r: String)
    ensures
        r@ == wire_matrix_counts() + wire_matrix_ssots() + wire_matrix_fence(gate_evidence_wired),
{
    let census = gate_synthetic_consensus_census(gate_evidence_wired);
    let hops_len = manifold_sec_s5_gate_wire_hops().len();
    let mut out = String::new();
    push_str(&mut out, "  wired=");
    push_decimal(&mut out, census.wire_hop_wired_count as u64);
    push_str(&mut out, "/");
    push_decimal(&mut out, hops_len as u64);
    push_str(&mut out, " s5_all_scenarios_probed=");
    push_bool(&mut out, census.s5_all_scenarios_probed);
    push_str(&mut out, " algebra_roundtrip=");
    push_bool(&mut out, census.algebra_roundtrip_verified);
    push_str(&mut out, " extended_roundtrip=");
    push_bool(&mut out, census.extended_algebra_roundtrip_verified);
    push_str(&mut out, " ln0_crosswalk_rows=");
    push_decimal(&mut out, census.ln0_crosswalk_rows as u64);
    push_str(&mut out, " ln0_proof_wired=");
    push_bool(&mut out, census.ln0_proof_wired);
    push_str(&mut out, " live_fanout_wired=");
    push_bool(&mut out, census.live_fanout_wired);
    push_str(&mut out, " production_wired=");
    push_bool(&mut out, census.production_wired);
    push_str(&mut out, "\n");
    assert(out@ =~= wire_matrix_counts());
    let ghost counts = out@;
    push_str(&mut out, "  trust_ssot=");
    push_str(&mut out, TRUST_SSOT);
    push_str(&mut out, "\n  egoff_consensus_ssot=");
    push_str(&mut out, EGOFF_CONSENSUS_SSOT);
    push_str(&mut out, "\n");
    assert(out@ =~= counts + wire_matrix_ssots());
    let ghost ssots = out@;
    push_str(&mut out, "  w29_124_cell=");
    push_str(&mut out, W29_124_CELL_ID);
    push_str(&mut out, " honest_fence_holds=");
    push_bool(&mut out, sec_s5_honest_fence_holds(gate_evidence_wired));
    push_str(&mut out, " master_retick=");
    push_bool(&mut out, sec_s5_master_retick_eligible());
    push_str(&mut out, " op5_cleared=");
    push_bool(&mut out, sec_s5_op5_cleared());
    push_str(&mut out, "\n");
    assert(out@ =~= ssots + wire_matrix_fence(gate_evidence_wired));
    out
}

/// Render the SEC-S5 gate wire map for operator receipts.
pub fn sec_s5_gate_wire_matrix(gate_evidence_wired: bool) -> (r: String)
    ensures
        r@ == wire_matrix_spec(gate_evidence_wired),
{
    let mut out = String::new();
    push_str(&mut out, "SEC-S5 manifold gate synthetic consensus wire map (AC07):\n");
    let rows = wire_matrix_rows();
    push_str(&mut out, rows.as_str());
    let tail = wire_matrix_tail(gate_evidence_wired);
    push_str(&mut out, tail.as_str());
    assert(out@ =~= wire_matrix_spec(gate_evidence_wired));
    out
}

/// Next-hop surface for the L-N0 formal proof (formal-owned).
pub fn sec_s5_ln0_proof_next_hop() -> (r: &'static str)
    ensures
        r@ == "umst-formal/Lean/Network/MajorityHonestConvergesToTruth.lean:R-LN0-full"@,
{
    "umst-formal/Lean/Network/MajorityHonestConvergesToTruth.lean:R-LN0-full"
}

/// Law: folding `s` and then `d` into the hash is folding `s + d`.
pub proof fn lemma_fnv_fold_concat(h: u64, s: Seq<u8>, d: Seq<u8>)
    ensures
        fnv_fold(fnv_fold(h, s), d) == fnv_fold(h, s + d),
    decreases d.len(),
{
    if d.len() == 0 {
        assert(s + d =~= s);
    } else {
        lemma_fnv_fold_concat(h, s, d.drop_last());
        assert((s + d).drop_last() =~= s + d.drop_last());
        assert((s + d).last() == d.last());
    }
}

// ---------------------------------------------------------------------------
// The synthetic providers split
// ---------------------------------------------------------------------------

/// The low byte of `x` xor `y`, bit by bit in arithmetic.
pub open spec fn xor_low8(x: u64, y: u8) -> int {
    ((x / 1) % 2 + (y / 1) % 2) % 2 + 2 * (((x / 2) % 2 + (y / 2) % 2) % 2) + 4 * (((x / 4) % 2 + (y / 4) % 2) % 2) + 8 * (((x / 8) % 2 + (y / 8) % 2) % 2) + 16 * (((x / 16) % 2 + (y / 16) % 2) % 2) + 32 * (((x / 32) % 2 + (y / 32) % 2) % 2) + 64 * (((x / 64) % 2 + (y / 64) % 2) % 2) + 128 * (((x / 128) % 2 + (y / 128) % 2) % 2)
}

/// Xoring a byte into a word changes only its low byte, as `xor_low8` says.
proof fn lemma_xor_byte(x: u64, y: u8)
    ensures
        (x ^ (y as u64)) == x - x % 256 + xor_low8(x, y),
{
    assert((x ^ (y as u64)) == x - x % 256 + ((x / 1) % 2 + (y / 1) % 2) % 2 + 2 * (((x / 2) % 2 + (y / 2) % 2) % 2) + 4 * (((x / 4) % 2 + (y / 4) % 2) % 2) + 8 * (((x / 8) % 2 + (y / 8) % 2) % 2) + 16 * (((x / 16) % 2 + (y / 16) % 2) % 2) + 32 * (((x / 32) % 2 + (y / 32) % 2) % 2) + 64 * (((x / 64) % 2 + (y / 64) % 2) % 2) + 128 * (((x / 128) % 2 + (y / 128) % 2) % 2)) by (bit_vector);
}

/// One FNV-1a step, given the xor and the wrapped product.
proof fn lemma_fnv_step_value(h: u64, b: u8, x: u64, v: u64)
    requires
        x as int == h - h % 256 + xor_low8(h, b),
        v as int == (x as int * FNV_PRIME as int) % 0x1_0000_0000_0000_0000,
    ensures
        fnv_step(h, b) == v,
{
    lemma_xor_byte(h, b);
}

/// Folding one more byte is one more FNV-1a step.
proof fn lemma_fnv_fold_push(h: u64, s: Seq<u8>, b: u8)
    ensures
        fnv_fold(h, s.push(b)) == fnv_step(fnv_fold(h, s), b),
{
    assert(s.push(b).drop_last() =~= s);
}

#[verifier::rlimit(100)]
#[verifier::spinoff_prover]
proof fn lemma_fnv_chain_shape_prefix()
    ensures
        fnv_fold(14695981039346656037u64, seq![85u8, 77u8, 83u8, 84u8, 95u8, 82u8, 69u8, 83u8, 80u8, 79u8, 78u8, 83u8, 69u8, 95u8, 83u8, 72u8, 65u8, 80u8, 69u8, 95u8, 86u8, 49u8]) == 126606132498401956u64,
{
    let s0 = Seq::<u8>::empty();
    let s1 = s0.push(85u8);
    lemma_fnv_fold_push(14695981039346656037u64, s0, 85u8);
    lemma_fnv_step_value(14695981039346656037u64, 85u8, 14695981039346656112u64, 12638235579067283280u64);
    assert(fnv_fold(14695981039346656037u64, s1) == 12638235579067283280u64);
    let s2 = s1.push(77u8);
    lemma_fnv_fold_push(14695981039346656037u64, s1, 77u8);
    lemma_fnv_step_value(12638235579067283280u64, 77u8, 12638235579067283229u64, 662371126453970503u64);
    assert(fnv_fold(14695981039346656037u64, s2) == 662371126453970503u64);
    let s3 = s2.push(83u8);
    lemma_fnv_fold_push(14695981039346656037u64, s2, 83u8);
    lemma_fnv_step_value(662371126453970503u64, 83u8, 662371126453970452u64, 7081512501886792700u64);
    assert(fnv_fold(14695981039346656037u64, s3) == 7081512501886792700u64);
    let s4 = s3.push(84u8);
    lemma_fnv_fold_push(14695981039346656037u64, s3, 84u8);
    lemma_fnv_step_value(7081512501886792700u64, 84u8, 7081512501886792616u64, 8152841267387090552u64);
    assert(fnv_fold(14695981039346656037u64, s4) == 8152841267387090552u64);
    let s5 = s4.push(95u8);
    lemma_fnv_fold_push(14695981039346656037u64, s4, 95u8);
    lemma_fnv_step_value(8152841267387090552u64, 95u8, 8152841267387090471u64, 155178069065249861u64);
    assert(fnv_fold(14695981039346656037u64, s5) == 155178069065249861u64);
    let s6 = s5.push(82u8);
    lemma_fnv_fold_push(14695981039346656037u64, s5, 82u8);
    lemma_fnv_step_value(155178069065249861u64, 82u8, 155178069065249815u64, 4142468074582442773u64);
    assert(fnv_fold(14695981039346656037u64, s6) == 4142468074582442773u64);
    let s7 = s6.push(69u8);
    lemma_fnv_fold_push(14695981039346656037u64, s6, 69u8);
    lemma_fnv_step_value(4142468074582442773u64, 69u8, 4142468074582442832u64, 10478641858258641136u64);
    assert(fnv_fold(14695981039346656037u64, s7) == 10478641858258641136u64);
    let s8 = s7.push(83u8);
    lemma_fnv_fold_push(14695981039346656037u64, s7, 83u8);
    lemma_fnv_step_value(10478641858258641136u64, 83u8, 10478641858258641059u64, 2701270887335851257u64);
    assert(fnv_fold(14695981039346656037u64, s8) == 2701270887335851257u64);
    let s9 = s8.push(80u8);
    lemma_fnv_fold_push(14695981039346656037u64, s8, 80u8);
    lemma_fnv_step_value(2701270887335851257u64, 80u8, 2701270887335851177u64, 8437196634786544427u64);
    assert(fnv_fold(14695981039346656037u64, s9) == 8437196634786544427u64);
    let s10 = s9.push(79u8);
    lemma_fnv_fold_push(14695981039346656037u64, s9, 79u8);
    lemma_fnv_step_value(8437196634786544427u64, 79u8, 8437196634786544484u64, 9851619965291227884u64);
    assert(fnv_fold(14695981039346656037u64, s10) == 9851619965291227884u64);
    let s11 = s10.push(78u8);
    lemma_fnv_fold_push(14695981039346656037u64, s10, 78u8);
    lemma_fnv_step_value(9851619965291227884u64, 78u8, 9851619965291227810u64, 11892912168669098310u64);
    assert(fnv_fold(14695981039346656037u64, s11) == 11892912168669098310u64);
    let s12 = s11.push(83u8);
    lemma_fnv_fold_push(14695981039346656037u64, s11, 83u8);
    lemma_fnv_step_value(11892912168669098310u64, 83u8, 11892912168669098261u64, 16484776222272153263u64);
    assert(fnv_fold(14695981039346656037u64, s12) == 16484776222272153263u64);
    let s13 = s12.push(69u8);
    lemma_fnv_fold_push(14695981039346656037u64, s12, 69u8);
    lemma_fnv_step_value(16484776222272153263u64, 69u8, 16484776222272153322u64, 1320132835978305438u64);
    assert(fnv_fold(14695981039346656037u64, s13) == 1320132835978305438u64);
    let s14 = s13.push(95u8);
    lemma_fnv_fold_push(14695981039346656037u64, s13, 95u8);
    lemma_fnv_step_value(1320132835978305438u64, 95u8, 1320132835978305473u64, 17459678051006428403u64);
    assert(fnv_fold(14695981039346656037u64, s14) == 17459678051006428403u64);
    let s15 = s14.push(83u8);
    lemma_fnv_fold_push(14695981039346656037u64, s14, 83u8);
    lemma_fnv_step_value(17459678051006428403u64, 83u8, 17459678051006428320u64, 11921798633061444576u64);
    assert(fnv_fold(14695981039346656037u64, s15) == 11921798633061444576u64);
    let s16 = s15.push(72u8);
    lemma_fnv_fold_push(14695981039346656037u64, s15, 72u8);
    lemma_fnv_step_value(11921798633061444576u64, 72u8, 11921798633061444520u64, 9178979455333166712u64);
    assert(fnv_fold(14695981039346656037u64, s16) == 9178979455333166712u64);
    let s17 = s16.push(65u8);
    lemma_fnv_fold_push(14695981039346656037u64, s16, 65u8);
    lemma_fnv_step_value(9178979455333166712u64, 65u8, 9178979455333166649u64, 3598538064743090907u64);
    assert(fnv_fold(14695981039346656037u64, s17) == 3598538064743090907u64);
    let s18 = s17.push(80u8);
    lemma_fnv_fold_push(14695981039346656037u64, s17, 80u8);
    lemma_fnv_step_value(3598538064743090907u64, 80u8, 3598538064743090827u64, 10922592760436959793u64);
    assert(fnv_fold(14695981039346656037u64, s18) == 10922592760436959793u64);
    let s19 = s18.push(69u8);
    lemma_fnv_fold_push(14695981039346656037u64, s18, 69u8);
    lemma_fnv_step_value(10922592760436959793u64, 69u8, 10922592760436959860u64, 12328013190041641756u64);
    assert(fnv_fold(14695981039346656037u64, s19) == 12328013190041641756u64);
    let s20 = s19.push(95u8);
    lemma_fnv_fold_push(14695981039346656037u64, s19, 95u8);
    lemma_fnv_step_value(12328013190041641756u64, 95u8, 12328013190041641795u64, 8744368347494542041u64);
    assert(fnv_fold(14695981039346656037u64, s20) == 8744368347494542041u64);
    let s21 = s20.push(86u8);
    lemma_fnv_fold_push(14695981039346656037u64, s20, 86u8);
    lemma_fnv_step_value(8744368347494542041u64, 86u8, 8744368347494541967u64, 14501498268284522749u64);
    assert(fnv_fold(14695981039346656037u64, s21) == 14501498268284522749u64);
    let s22 = s21.push(49u8);
    lemma_fnv_fold_push(14695981039346656037u64, s21, 49u8);
    lemma_fnv_step_value(14501498268284522749u64, 49u8, 14501498268284522700u64, 126606132498401956u64);
    assert(fnv_fold(14695981039346656037u64, s22) == 126606132498401956u64);
    assert(s22 =~= seq![85u8, 77u8, 83u8, 84u8, 95u8, 82u8, 69u8, 83u8, 80u8, 79u8, 78u8, 83u8, 69u8, 95u8, 83u8, 72u8, 65u8, 80u8, 69u8, 95u8, 86u8, 49u8]);
}

#[verifier::rlimit(100)]
#[verifier::spinoff_prover]
proof fn lemma_fnv_chain_gemini()
    ensures
        fnv_fold(126606132498401956u64, seq![103u8, 101u8, 109u8, 105u8, 110u8, 105u8]) == 2140934930154517811u64,
{
    let s0 = Seq::<u8>::empty();
    let s1 = s0.push(103u8);
    lemma_fnv_fold_push(126606132498401956u64, s0, 103u8);
    lemma_fnv_step_value(126606132498401956u64, 103u8, 126606132498401987u64, 17318517515465148761u64);
    assert(fnv_fold(126606132498401956u64, s1) == 17318517515465148761u64);
    let s2 = s1.push(101u8);
    lemma_fnv_fold_push(126606132498401956u64, s1, 101u8);
    lemma_fnv_step_value(17318517515465148761u64, 101u8, 17318517515465148732u64, 1395428086730092788u64);
    assert(fnv_fold(126606132498401956u64, s2) == 1395428086730092788u64);
    let s3 = s2.push(109u8);
    lemma_fnv_fold_push(126606132498401956u64, s2, 109u8);
    lemma_fnv_step_value(1395428086730092788u64, 109u8, 1395428086730092697u64, 1038545291287024635u64);
    assert(fnv_fold(126606132498401956u64, s3) == 1038545291287024635u64);
    let s4 = s3.push(105u8);
    lemma_fnv_fold_push(126606132498401956u64, s3, 105u8);
    lemma_fnv_step_value(1038545291287024635u64, 105u8, 1038545291287024530u64, 14905532009663234326u64);
    assert(fnv_fold(126606132498401956u64, s4) == 14905532009663234326u64);
    let s5 = s4.push(110u8);
    lemma_fnv_fold_push(126606132498401956u64, s4, 110u8);
    lemma_fnv_step_value(14905532009663234326u64, 110u8, 14905532009663234424u64, 12630489855684869864u64);
    assert(fnv_fold(126606132498401956u64, s5) == 12630489855684869864u64);
    let s6 = s5.push(105u8);
    lemma_fnv_fold_push(126606132498401956u64, s5, 105u8);
    lemma_fnv_step_value(12630489855684869864u64, 105u8, 12630489855684869761u64, 2140934930154517811u64);
    assert(fnv_fold(126606132498401956u64, s6) == 2140934930154517811u64);
    assert(s6 =~= seq![103u8, 101u8, 109u8, 105u8, 110u8, 105u8]);
}

#[verifier::rlimit(100)]
#[verifier::spinoff_prover]
proof fn lemma_fnv_chain_grok()
    ensures
        fnv_fold(126606132498401956u64, seq![103u8, 114u8, 111u8, 107u8]) == 4486248661705807363u64,
{
    let s0 = Seq::<u8>::empty();
    let s1 = s0.push(103u8);
    lemma_fnv_fold_push(126606132498401956u64, s0, 103u8);
    lemma_fnv_step_value(126606132498401956u64, 103u8, 126606132498401987u64, 17318517515465148761u64);
    assert(fnv_fold(126606132498401956u64, s1) == 17318517515465148761u64);
    let s2 = s1.push(114u8);
    lemma_fnv_fold_push(126606132498401956u64, s1, 114u8);
    lemma_fnv_step_value(17318517515465148761u64, 114u8, 17318517515465148715u64, 1395409395032413201u64);
    assert(fnv_fold(126606132498401956u64, s2) == 1395409395032413201u64);
    let s3 = s2.push(111u8);
    lemma_fnv_fold_push(126606132498401956u64, s2, 111u8);
    lemma_fnv_step_value(1395409395032413201u64, 111u8, 1395409395032413310u64, 1022503416634642970u64);
    assert(fnv_fold(126606132498401956u64, s3) == 1022503416634642970u64);
    let s4 = s3.push(107u8);
    lemma_fnv_fold_push(126606132498401956u64, s3, 107u8);
    lemma_fnv_step_value(1022503416634642970u64, 107u8, 1022503416634643057u64, 4486248661705807363u64);
    assert(fnv_fold(126606132498401956u64, s4) == 4486248661705807363u64);
    assert(s4 =~= seq![103u8, 114u8, 111u8, 107u8]);
}

#[verifier::rlimit(100)]
#[verifier::spinoff_prover]
proof fn lemma_fnv_chain_gemini_probe_split()
    ensures
        fnv_fold(2140934930154517811u64, seq![112u8, 114u8, 111u8, 98u8, 101u8, 45u8, 115u8, 112u8, 108u8, 105u8, 116u8]) == 3776377581089964198u64,
{
    let s0 = Seq::<u8>::empty();
    let s1 = s0.push(112u8);
    lemma_fnv_fold_push(2140934930154517811u64, s0, 112u8);
    lemma_fnv_step_value(2140934930154517811u64, 112u8, 2140934930154517827u64, 10551735443107332313u64);
    assert(fnv_fold(2140934930154517811u64, s1) == 10551735443107332313u64);
    let s2 = s1.push(114u8);
    lemma_fnv_fold_push(2140934930154517811u64, s1, 114u8);
    lemma_fnv_step_value(10551735443107332313u64, 114u8, 10551735443107332267u64, 2512424539024286353u64);
    assert(fnv_fold(2140934930154517811u64, s2) == 2512424539024286353u64);
    let s3 = s2.push(111u8);
    lemma_fnv_fold_push(2140934930154517811u64, s2, 111u8);
    lemma_fnv_step_value(2512424539024286353u64, 111u8, 2512424539024286462u64, 14086240363378652570u64);
    assert(fnv_fold(2140934930154517811u64, s3) == 14086240363378652570u64);
    let s4 = s3.push(98u8);
    lemma_fnv_fold_push(2140934930154517811u64, s3, 98u8);
    lemma_fnv_step_value(14086240363378652570u64, 98u8, 14086240363378652664u64, 2346025322336990312u64);
    assert(fnv_fold(2140934930154517811u64, s4) == 2346025322336990312u64);
    let s5 = s4.push(101u8);
    lemma_fnv_fold_push(2140934930154517811u64, s4, 101u8);
    lemma_fnv_step_value(2346025322336990312u64, 101u8, 2346025322336990221u64, 5352252605683134999u64);
    assert(fnv_fold(2140934930154517811u64, s5) == 5352252605683134999u64);
    let s6 = s5.push(45u8);
    lemma_fnv_fold_push(2140934930154517811u64, s5, 45u8);
    lemma_fnv_step_value(5352252605683134999u64, 45u8, 5352252605683135034u64, 2134813455812499598u64);
    assert(fnv_fold(2140934930154517811u64, s6) == 2134813455812499598u64);
    let s7 = s6.push(115u8);
    lemma_fnv_fold_push(2140934930154517811u64, s6, 115u8);
    lemma_fnv_step_value(2134813455812499598u64, 115u8, 2134813455812499709u64, 14203989715995784679u64);
    assert(fnv_fold(2140934930154517811u64, s7) == 14203989715995784679u64);
    let s8 = s7.push(112u8);
    lemma_fnv_fold_push(2140934930154517811u64, s7, 112u8);
    lemma_fnv_step_value(14203989715995784679u64, 112u8, 14203989715995784599u64, 3324729615216234389u64);
    assert(fnv_fold(2140934930154517811u64, s8) == 3324729615216234389u64);
    let s9 = s8.push(108u8);
    lemma_fnv_fold_push(2140934930154517811u64, s8, 108u8);
    lemma_fnv_step_value(3324729615216234389u64, 108u8, 3324729615216234489u64, 10820562091055047707u64);
    assert(fnv_fold(2140934930154517811u64, s9) == 10820562091055047707u64);
    let s10 = s9.push(105u8);
    lemma_fnv_fold_push(2140934930154517811u64, s9, 105u8);
    lemma_fnv_step_value(10820562091055047707u64, 105u8, 10820562091055047794u64, 10294831855818517942u64);
    assert(fnv_fold(2140934930154517811u64, s10) == 10294831855818517942u64);
    let s11 = s10.push(116u8);
    lemma_fnv_fold_push(2140934930154517811u64, s10, 116u8);
    lemma_fnv_step_value(10294831855818517942u64, 116u8, 10294831855818517954u64, 3776377581089964198u64);
    assert(fnv_fold(2140934930154517811u64, s11) == 3776377581089964198u64);
    assert(s11 =~= seq![112u8, 114u8, 111u8, 98u8, 101u8, 45u8, 115u8, 112u8, 108u8, 105u8, 116u8]);
}

#[verifier::rlimit(100)]
#[verifier::spinoff_prover]
proof fn lemma_fnv_chain_grok_probe_split()
    ensures
        fnv_fold(4486248661705807363u64, seq![112u8, 114u8, 111u8, 98u8, 101u8, 45u8, 115u8, 112u8, 108u8, 105u8, 116u8]) == 7977879173986601014u64,
{
    let s0 = Seq::<u8>::empty();
    let s1 = s0.push(112u8);
    lemma_fnv_fold_push(4486248661705807363u64, s0, 112u8);
    lemma_fnv_step_value(4486248661705807363u64, 112u8, 4486248661705807475u64, 15463035725793813865u64);
    assert(fnv_fold(4486248661705807363u64, s1) == 15463035725793813865u64);
    let s2 = s1.push(114u8);
    lemma_fnv_fold_push(4486248661705807363u64, s1, 114u8);
    lemma_fnv_step_value(15463035725793813865u64, 114u8, 15463035725793813787u64, 13923826776593845473u64);
    assert(fnv_fold(4486248661705807363u64, s2) == 13923826776593845473u64);
    let s3 = s2.push(111u8);
    lemma_fnv_fold_push(4486248661705807363u64, s2, 111u8);
    lemma_fnv_step_value(13923826776593845473u64, 111u8, 13923826776593845390u64, 5381362350958941514u64);
    assert(fnv_fold(4486248661705807363u64, s3) == 5381362350958941514u64);
    let s4 = s3.push(98u8);
    lemma_fnv_fold_push(4486248661705807363u64, s3, 98u8);
    lemma_fnv_step_value(5381362350958941514u64, 98u8, 5381362350958941480u64, 8646460193521038072u64);
    assert(fnv_fold(4486248661705807363u64, s4) == 8646460193521038072u64);
    let s5 = s4.push(101u8);
    lemma_fnv_fold_push(4486248661705807363u64, s4, 101u8);
    lemma_fnv_step_value(8646460193521038072u64, 101u8, 8646460193521037981u64, 5024182943214649543u64);
    assert(fnv_fold(4486248661705807363u64, s5) == 5024182943214649543u64);
    let s6 = s5.push(45u8);
    lemma_fnv_fold_push(4486248661705807363u64, s5, 45u8);
    lemma_fnv_step_value(5024182943214649543u64, 45u8, 5024182943214649578u64, 6696352260756983198u64);
    assert(fnv_fold(4486248661705807363u64, s6) == 6696352260756983198u64);
    let s7 = s6.push(115u8);
    lemma_fnv_fold_push(4486248661705807363u64, s6, 115u8);
    lemma_fnv_step_value(6696352260756983198u64, 115u8, 6696352260756983277u64, 3934067478580488631u64);
    assert(fnv_fold(4486248661705807363u64, s7) == 3934067478580488631u64);
    let s8 = s7.push(112u8);
    lemma_fnv_fold_push(4486248661705807363u64, s7, 112u8);
    lemma_fnv_step_value(3934067478580488631u64, 112u8, 3934067478580488647u64, 18031695763593575717u64);
    assert(fnv_fold(4486248661705807363u64, s8) == 18031695763593575717u64);
    let s9 = s8.push(108u8);
    lemma_fnv_fold_push(4486248661705807363u64, s8, 108u8);
    lemma_fnv_step_value(18031695763593575717u64, 108u8, 18031695763593575753u64, 2281351411701850891u64);
    assert(fnv_fold(4486248661705807363u64, s9) == 2281351411701850891u64);
    let s10 = s9.push(105u8);
    lemma_fnv_fold_push(4486248661705807363u64, s9, 105u8);
    lemma_fnv_step_value(2281351411701850891u64, 105u8, 2281351411701850978u64, 2254423791461801862u64);
    assert(fnv_fold(4486248661705807363u64, s10) == 2254423791461801862u64);
    let s11 = s10.push(116u8);
    lemma_fnv_fold_push(4486248661705807363u64, s10, 116u8);
    lemma_fnv_step_value(2254423791461801862u64, 116u8, 2254423791461801970u64, 7977879173986601014u64);
    assert(fnv_fold(4486248661705807363u64, s11) == 7977879173986601014u64);
    assert(s11 =~= seq![112u8, 114u8, 111u8, 98u8, 101u8, 45u8, 115u8, 112u8, 108u8, 105u8, 116u8]);
}

#[verifier::rlimit(100)]
#[verifier::spinoff_prover]
proof fn lemma_fnv_chain_gemini_probe_resolve_badge()
    ensures
        fnv_fold(2140934930154517811u64, seq![112u8, 114u8, 111u8, 98u8, 101u8, 45u8, 114u8, 101u8, 115u8, 111u8, 108u8, 118u8, 101u8, 45u8, 98u8, 97u8, 100u8, 103u8, 101u8]) == 18370600546581735644u64,
{
    let s0 = Seq::<u8>::empty();
    let s1 = s0.push(112u8);
    lemma_fnv_fold_push(2140934930154517811u64, s0, 112u8);
    lemma_fnv_step_value(2140934930154517811u64, 112u8, 2140934930154517827u64, 10551735443107332313u64);
    assert(fnv_fold(2140934930154517811u64, s1) == 10551735443107332313u64);
    let s2 = s1.push(114u8);
    lemma_fnv_fold_push(2140934930154517811u64, s1, 114u8);
    lemma_fnv_step_value(10551735443107332313u64, 114u8, 10551735443107332267u64, 2512424539024286353u64);
    assert(fnv_fold(2140934930154517811u64, s2) == 2512424539024286353u64);
    let s3 = s2.push(111u8);
    lemma_fnv_fold_push(2140934930154517811u64, s2, 111u8);
    lemma_fnv_step_value(2512424539024286353u64, 111u8, 2512424539024286462u64, 14086240363378652570u64);
    assert(fnv_fold(2140934930154517811u64, s3) == 14086240363378652570u64);
    let s4 = s3.push(98u8);
    lemma_fnv_fold_push(2140934930154517811u64, s3, 98u8);
    lemma_fnv_step_value(14086240363378652570u64, 98u8, 14086240363378652664u64, 2346025322336990312u64);
    assert(fnv_fold(2140934930154517811u64, s4) == 2346025322336990312u64);
    let s5 = s4.push(101u8);
    lemma_fnv_fold_push(2140934930154517811u64, s4, 101u8);
    lemma_fnv_step_value(2346025322336990312u64, 101u8, 2346025322336990221u64, 5352252605683134999u64);
    assert(fnv_fold(2140934930154517811u64, s5) == 5352252605683134999u64);
    let s6 = s5.push(45u8);
    lemma_fnv_fold_push(2140934930154517811u64, s5, 45u8);
    lemma_fnv_step_value(5352252605683134999u64, 45u8, 5352252605683135034u64, 2134813455812499598u64);
    assert(fnv_fold(2140934930154517811u64, s6) == 2134813455812499598u64);
    let s7 = s6.push(114u8);
    lemma_fnv_fold_push(2140934930154517811u64, s6, 114u8);
    lemma_fnv_step_value(2134813455812499598u64, 114u8, 2134813455812499708u64, 14203988616484156468u64);
    assert(fnv_fold(2140934930154517811u64, s7) == 14203988616484156468u64);
    let s8 = s7.push(101u8);
    lemma_fnv_fold_push(2140934930154517811u64, s7, 101u8);
    lemma_fnv_step_value(14203988616484156468u64, 101u8, 14203988616484156497u64, 3323892886867355043u64);
    assert(fnv_fold(2140934930154517811u64, s8) == 3323892886867355043u64);
    let s9 = s8.push(115u8);
    lemma_fnv_fold_push(2140934930154517811u64, s8, 115u8);
    lemma_fnv_step_value(3323892886867355043u64, 115u8, 3323892886867355088u64, 10300603042218066032u64);
    assert(fnv_fold(2140934930154517811u64, s9) == 10300603042218066032u64);
    let s10 = s9.push(111u8);
    lemma_fnv_fold_push(2140934930154517811u64, s9, 111u8);
    lemma_fnv_step_value(10300603042218066032u64, 111u8, 10300603042218065951u64, 11408101645748401325u64);
    assert(fnv_fold(2140934930154517811u64, s10) == 11408101645748401325u64);
    let s11 = s10.push(108u8);
    lemma_fnv_fold_push(2140934930154517811u64, s10, 108u8);
    lemma_fnv_step_value(11408101645748401325u64, 108u8, 11408101645748401345u64, 7408538794425770995u64);
    assert(fnv_fold(2140934930154517811u64, s11) == 7408538794425770995u64);
    let s12 = s11.push(118u8);
    lemma_fnv_fold_push(2140934930154517811u64, s11, 118u8);
    lemma_fnv_step_value(7408538794425770995u64, 118u8, 7408538794425770885u64, 2812769451122399999u64);
    assert(fnv_fold(2140934930154517811u64, s12) == 2812769451122399999u64);
    let s13 = s12.push(101u8);
    lemma_fnv_fold_push(2140934930154517811u64, s12, 101u8);
    lemma_fnv_step_value(2812769451122399999u64, 101u8, 2812769451122399898u64, 10148344110741631918u64);
    assert(fnv_fold(2140934930154517811u64, s13) == 10148344110741631918u64);
    let s14 = s13.push(45u8);
    lemma_fnv_fold_push(2140934930154517811u64, s13, 45u8);
    lemma_fnv_step_value(10148344110741631918u64, 45u8, 10148344110741631875u64, 9123031938626160537u64);
    assert(fnv_fold(2140934930154517811u64, s14) == 9123031938626160537u64);
    let s15 = s14.push(98u8);
    lemma_fnv_fold_push(2140934930154517811u64, s14, 98u8);
    lemma_fnv_step_value(9123031938626160537u64, 98u8, 9123031938626160635u64, 9028404814533267329u64);
    assert(fnv_fold(2140934930154517811u64, s15) == 9028404814533267329u64);
    let s16 = s15.push(97u8);
    lemma_fnv_fold_push(2140934930154517811u64, s15, 97u8);
    lemma_fnv_step_value(9028404814533267329u64, 97u8, 9028404814533267424u64, 10778125196710541728u64);
    assert(fnv_fold(2140934930154517811u64, s16) == 10778125196710541728u64);
    let s17 = s16.push(100u8);
    lemma_fnv_fold_push(2140934930154517811u64, s16, 100u8);
    lemma_fnv_step_value(10778125196710541728u64, 100u8, 10778125196710541764u64, 14430839681313204236u64);
    assert(fnv_fold(2140934930154517811u64, s17) == 14430839681313204236u64);
    let s18 = s17.push(103u8);
    lemma_fnv_fold_push(2140934930154517811u64, s17, 103u8);
    lemma_fnv_step_value(14430839681313204236u64, 103u8, 14430839681313204331u64, 10775842923068190161u64);
    assert(fnv_fold(2140934930154517811u64, s18) == 10775842923068190161u64);
    let s19 = s18.push(101u8);
    lemma_fnv_fold_push(2140934930154517811u64, s18, 101u8);
    lemma_fnv_step_value(10775842923068190161u64, 101u8, 10775842923068190132u64, 18370600546581735644u64);
    assert(fnv_fold(2140934930154517811u64, s19) == 18370600546581735644u64);
    assert(s19 =~= seq![112u8, 114u8, 111u8, 98u8, 101u8, 45u8, 114u8, 101u8, 115u8, 111u8, 108u8, 118u8, 101u8, 45u8, 98u8, 97u8, 100u8, 103u8, 101u8]);
}

#[verifier::rlimit(100)]
#[verifier::spinoff_prover]
proof fn lemma_fnv_chain_grok_probe_resolve_badge()
    ensures
        fnv_fold(4486248661705807363u64, seq![112u8, 114u8, 111u8, 98u8, 101u8, 45u8, 114u8, 101u8, 115u8, 111u8, 108u8, 118u8, 101u8, 45u8, 98u8, 97u8, 100u8, 103u8, 101u8]) == 7557542462949399340u64,
{
    let s0 = Seq::<u8>::empty();
    let s1 = s0.push(112u8);
    lemma_fnv_fold_push(4486248661705807363u64, s0, 112u8);
    lemma_fnv_step_value(4486248661705807363u64, 112u8, 4486248661705807475u64, 15463035725793813865u64);
    assert(fnv_fold(4486248661705807363u64, s1) == 15463035725793813865u64);
    let s2 = s1.push(114u8);
    lemma_fnv_fold_push(4486248661705807363u64, s1, 114u8);
    lemma_fnv_step_value(15463035725793813865u64, 114u8, 15463035725793813787u64, 13923826776593845473u64);
    assert(fnv_fold(4486248661705807363u64, s2) == 13923826776593845473u64);
    let s3 = s2.push(111u8);
    lemma_fnv_fold_push(4486248661705807363u64, s2, 111u8);
    lemma_fnv_step_value(13923826776593845473u64, 111u8, 13923826776593845390u64, 5381362350958941514u64);
    assert(fnv_fold(4486248661705807363u64, s3) == 5381362350958941514u64);
    let s4 = s3.push(98u8);
    lemma_fnv_fold_push(4486248661705807363u64, s3, 98u8);
    lemma_fnv_step_value(5381362350958941514u64, 98u8, 5381362350958941480u64, 8646460193521038072u64);
    assert(fnv_fold(4486248661705807363u64, s4) == 8646460193521038072u64);
    let s5 = s4.push(101u8);
    lemma_fnv_fold_push(4486248661705807363u64, s4, 101u8);
    lemma_fnv_step_value(8646460193521038072u64, 101u8, 8646460193521037981u64, 5024182943214649543u64);
    assert(fnv_fold(4486248661705807363u64, s5) == 5024182943214649543u64);
    let s6 = s5.push(45u8);
    lemma_fnv_fold_push(4486248661705807363u64, s5, 45u8);
    lemma_fnv_step_value(5024182943214649543u64, 45u8, 5024182943214649578u64, 6696352260756983198u64);
    assert(fnv_fold(4486248661705807363u64, s6) == 6696352260756983198u64);
    let s7 = s6.push(114u8);
    lemma_fnv_fold_push(4486248661705807363u64, s6, 114u8);
    lemma_fnv_step_value(6696352260756983198u64, 114u8, 6696352260756983276u64, 3934066379068860420u64);
    assert(fnv_fold(4486248661705807363u64, s7) == 3934066379068860420u64);
    let s8 = s7.push(101u8);
    lemma_fnv_fold_push(4486248661705807363u64, s7, 101u8);
    lemma_fnv_step_value(3934066379068860420u64, 101u8, 3934066379068860513u64, 18030823850872593619u64);
    assert(fnv_fold(4486248661705807363u64, s8) == 18030823850872593619u64);
    let s9 = s8.push(115u8);
    lemma_fnv_fold_push(4486248661705807363u64, s8, 115u8);
    lemma_fnv_step_value(18030823850872593619u64, 115u8, 18030823850872593568u64, 1730746774769427424u64);
    assert(fnv_fold(4486248661705807363u64, s9) == 1730746774769427424u64);
    let s10 = s9.push(111u8);
    lemma_fnv_fold_push(4486248661705807363u64, s9, 111u8);
    lemma_fnv_step_value(1730746774769427424u64, 111u8, 1730746774769427343u64, 1810538823216180221u64);
    assert(fnv_fold(4486248661705807363u64, s10) == 1810538823216180221u64);
    let s11 = s10.push(108u8);
    lemma_fnv_fold_push(4486248661705807363u64, s10, 108u8);
    lemma_fnv_step_value(1810538823216180221u64, 108u8, 1810538823216180113u64, 10131240079999469411u64);
    assert(fnv_fold(4486248661705807363u64, s11) == 10131240079999469411u64);
    let s12 = s11.push(118u8);
    lemma_fnv_fold_push(4486248661705807363u64, s11, 118u8);
    lemma_fnv_step_value(10131240079999469411u64, 118u8, 10131240079999469333u64, 8803974530285996207u64);
    assert(fnv_fold(4486248661705807363u64, s12) == 8803974530285996207u64);
    let s13 = s12.push(101u8);
    lemma_fnv_fold_push(4486248661705807363u64, s12, 101u8);
    lemma_fnv_step_value(8803974530285996207u64, 101u8, 8803974530285996234u64, 16479546885443448638u64);
    assert(fnv_fold(4486248661705807363u64, s13) == 16479546885443448638u64);
    let s14 = s13.push(45u8);
    lemma_fnv_fold_push(4486248661705807363u64, s13, 45u8);
    lemma_fnv_step_value(16479546885443448638u64, 45u8, 16479546885443448595u64, 15909145200157310281u64);
    assert(fnv_fold(4486248661705807363u64, s14) == 15909145200157310281u64);
    let s15 = s14.push(98u8);
    lemma_fnv_fold_push(4486248661705807363u64, s14, 98u8);
    lemma_fnv_step_value(15909145200157310281u64, 98u8, 15909145200157310251u64, 11937522137649475601u64);
    assert(fnv_fold(4486248661705807363u64, s15) == 11937522137649475601u64);
    let s16 = s15.push(97u8);
    lemma_fnv_fold_push(4486248661705807363u64, s15, 97u8);
    lemma_fnv_step_value(11937522137649475601u64, 97u8, 11937522137649475696u64, 8526059973414620752u64);
    assert(fnv_fold(4486248661705807363u64, s16) == 8526059973414620752u64);
    let s17 = s16.push(100u8);
    lemma_fnv_fold_push(4486248661705807363u64, s16, 100u8);
    lemma_fnv_step_value(8526059973414620752u64, 100u8, 8526059973414620724u64, 2053333760549724764u64);
    assert(fnv_fold(4486248661705807363u64, s17) == 2053333760549724764u64);
    let s18 = s17.push(103u8);
    lemma_fnv_fold_push(4486248661705807363u64, s17, 103u8);
    lemma_fnv_step_value(2053333760549724764u64, 103u8, 2053333760549724731u64, 5604377500328143425u64);
    assert(fnv_fold(4486248661705807363u64, s18) == 5604377500328143425u64);
    let s19 = s18.push(101u8);
    lemma_fnv_fold_push(4486248661705807363u64, s18, 101u8);
    lemma_fnv_step_value(5604377500328143425u64, 101u8, 5604377500328143396u64, 7557542462949399340u64);
    assert(fnv_fold(4486248661705807363u64, s19) == 7557542462949399340u64);
    assert(s19 =~= seq![112u8, 114u8, 111u8, 98u8, 101u8, 45u8, 114u8, 101u8, 115u8, 111u8, 108u8, 118u8, 101u8, 45u8, 98u8, 97u8, 100u8, 103u8, 101u8]);
}

#[verifier::rlimit(100)]
#[verifier::spinoff_prover]
proof fn lemma_fnv_chain_gemini_roundtrip_split()
    ensures
        fnv_fold(2140934930154517811u64, seq![114u8, 111u8, 117u8, 110u8, 100u8, 116u8, 114u8, 105u8, 112u8, 45u8, 115u8, 112u8, 108u8, 105u8, 116u8]) == 17693536243991722727u64,
{
    let s0 = Seq::<u8>::empty();
    let s1 = s0.push(114u8);
    lemma_fnv_fold_push(2140934930154517811u64, s0, 114u8);
    lemma_fnv_step_value(2140934930154517811u64, 114u8, 2140934930154517825u64, 10551733244084075891u64);
    assert(fnv_fold(2140934930154517811u64, s1) == 10551733244084075891u64);
    let s2 = s1.push(111u8);
    lemma_fnv_fold_push(2140934930154517811u64, s1, 111u8);
    lemma_fnv_step_value(10551733244084075891u64, 111u8, 10551733244084075804u64, 2510466308814821012u64);
    assert(fnv_fold(2140934930154517811u64, s2) == 2510466308814821012u64);
    let s3 = s2.push(117u8);
    lemma_fnv_fold_push(2140934930154517811u64, s2, 117u8);
    lemma_fnv_step_value(2510466308814821012u64, 117u8, 2510466308814821089u64, 12798655072475914323u64);
    assert(fnv_fold(2140934930154517811u64, s3) == 12798655072475914323u64);
    let s4 = s3.push(110u8);
    lemma_fnv_fold_push(2140934930154517811u64, s3, 110u8);
    lemma_fnv_step_value(12798655072475914323u64, 110u8, 12798655072475914301u64, 9009313101782665127u64);
    assert(fnv_fold(2140934930154517811u64, s4) == 9009313101782665127u64);
    let s5 = s4.push(100u8);
    lemma_fnv_fold_push(2140934930154517811u64, s4, 100u8);
    lemma_fnv_step_value(9009313101782665127u64, 100u8, 9009313101782665155u64, 8866057935413768281u64);
    assert(fnv_fold(2140934930154517811u64, s5) == 8866057935413768281u64);
    let s6 = s5.push(116u8);
    lemma_fnv_fold_push(2140934930154517811u64, s5, 116u8);
    lemma_fnv_step_value(8866057935413768281u64, 116u8, 8866057935413768237u64, 8206707811691928695u64);
    assert(fnv_fold(2140934930154517811u64, s6) == 8206707811691928695u64);
    let s7 = s6.push(114u8);
    lemma_fnv_fold_push(2140934930154517811u64, s6, 114u8);
    lemma_fnv_step_value(8206707811691928695u64, 114u8, 8206707811691928581u64, 15612901368061598847u64);
    assert(fnv_fold(2140934930154517811u64, s7) == 15612901368061598847u64);
    let s8 = s7.push(105u8);
    lemma_fnv_fold_push(2140934930154517811u64, s7, 105u8);
    lemma_fnv_step_value(15612901368061598847u64, 105u8, 15612901368061598742u64, 12837870274347546978u64);
    assert(fnv_fold(2140934930154517811u64, s8) == 12837870274347546978u64);
    let s9 = s8.push(112u8);
    lemma_fnv_fold_push(2140934930154517811u64, s8, 112u8);
    lemma_fnv_step_value(12837870274347546978u64, 112u8, 12837870274347546898u64, 14149383698083543446u64);
    assert(fnv_fold(2140934930154517811u64, s9) == 14149383698083543446u64);
    let s10 = s9.push(45u8);
    lemma_fnv_fold_push(2140934930154517811u64, s9, 45u8);
    lemma_fnv_step_value(14149383698083543446u64, 45u8, 14149383698083543483u64, 11709964246632650945u64);
    assert(fnv_fold(2140934930154517811u64, s10) == 11709964246632650945u64);
    let s11 = s10.push(115u8);
    lemma_fnv_fold_push(2140934930154517811u64, s10, 115u8);
    lemma_fnv_step_value(11709964246632650945u64, 115u8, 11709964246632650930u64, 3710969956994037366u64);
    assert(fnv_fold(2140934930154517811u64, s11) == 3710969956994037366u64);
    let s12 = s11.push(112u8);
    lemma_fnv_fold_push(2140934930154517811u64, s11, 112u8);
    lemma_fnv_step_value(3710969956994037366u64, 112u8, 3710969956994037254u64, 5277091468306500658u64);
    assert(fnv_fold(2140934930154517811u64, s12) == 5277091468306500658u64);
    let s13 = s12.push(108u8);
    lemma_fnv_fold_push(2140934930154517811u64, s12, 108u8);
    lemma_fnv_step_value(5277091468306500658u64, 108u8, 5277091468306500702u64, 1746893156290839482u64);
    assert(fnv_fold(2140934930154517811u64, s13) == 1746893156290839482u64);
    let s14 = s13.push(105u8);
    lemma_fnv_fold_push(2140934930154517811u64, s13, 105u8);
    lemma_fnv_step_value(1746893156290839482u64, 105u8, 1746893156290839507u64, 8681167164490563465u64);
    assert(fnv_fold(2140934930154517811u64, s14) == 8681167164490563465u64);
    let s15 = s14.push(116u8);
    lemma_fnv_fold_push(2140934930154517811u64, s14, 116u8);
    lemma_fnv_step_value(8681167164490563465u64, 116u8, 8681167164490563581u64, 17693536243991722727u64);
    assert(fnv_fold(2140934930154517811u64, s15) == 17693536243991722727u64);
    assert(s15 =~= seq![114u8, 111u8, 117u8, 110u8, 100u8, 116u8, 114u8, 105u8, 112u8, 45u8, 115u8, 112u8, 108u8, 105u8, 116u8]);
}

#[verifier::rlimit(100)]
#[verifier::spinoff_prover]
proof fn lemma_fnv_chain_grok_roundtrip_split()
    ensures
        fnv_fold(4486248661705807363u64, seq![114u8, 111u8, 117u8, 110u8, 100u8, 116u8, 114u8, 105u8, 112u8, 45u8, 115u8, 112u8, 108u8, 105u8, 116u8]) == 12896036075114216471u64,
{
    let s0 = Seq::<u8>::empty();
    let s1 = s0.push(114u8);
    lemma_fnv_fold_push(4486248661705807363u64, s0, 114u8);
    lemma_fnv_step_value(4486248661705807363u64, 114u8, 4486248661705807473u64, 15463033526770557443u64);
    assert(fnv_fold(4486248661705807363u64, s1) == 15463033526770557443u64);
    let s2 = s1.push(111u8);
    lemma_fnv_fold_push(4486248661705807363u64, s1, 111u8);
    lemma_fnv_step_value(15463033526770557443u64, 111u8, 15463033526770557548u64, 13922114836989099396u64);
    assert(fnv_fold(4486248661705807363u64, s2) == 13922114836989099396u64);
    let s3 = s2.push(117u8);
    lemma_fnv_fold_push(4486248661705807363u64, s2, 117u8);
    lemma_fnv_step_value(13922114836989099396u64, 117u8, 13922114836989099505u64, 4308296176724295811u64);
    assert(fnv_fold(4486248661705807363u64, s3) == 4308296176724295811u64);
    let s4 = s3.push(110u8);
    lemma_fnv_fold_push(4486248661705807363u64, s3, 110u8);
    lemma_fnv_step_value(4308296176724295811u64, 110u8, 4308296176724295917u64, 7763368681462518455u64);
    assert(fnv_fold(4486248661705807363u64, s4) == 7763368681462518455u64);
    let s5 = s4.push(100u8);
    lemma_fnv_fold_push(4486248661705807363u64, s4, 100u8);
    lemma_fnv_step_value(7763368681462518455u64, 100u8, 7763368681462518483u64, 686005546049977481u64);
    assert(fnv_fold(4486248661705807363u64, s5) == 686005546049977481u64);
    let s6 = s5.push(116u8);
    lemma_fnv_fold_push(4486248661705807363u64, s5, 116u8);
    lemma_fnv_step_value(686005546049977481u64, 116u8, 686005546049977597u64, 8001446436916175335u64);
    assert(fnv_fold(4486248661705807363u64, s6) == 8001446436916175335u64);
    let s7 = s6.push(114u8);
    lemma_fnv_fold_push(4486248661705807363u64, s6, 114u8);
    lemma_fnv_step_value(8001446436916175335u64, 114u8, 8001446436916175253u64, 7174389555721998383u64);
    assert(fnv_fold(4486248661705807363u64, s7) == 7174389555721998383u64);
    let s8 = s7.push(105u8);
    lemma_fnv_fold_push(4486248661705807363u64, s7, 105u8);
    lemma_fnv_step_value(7174389555721998383u64, 105u8, 7174389555721998406u64, 4877498322392884978u64);
    assert(fnv_fold(4486248661705807363u64, s8) == 4877498322392884978u64);
    let s9 = s8.push(112u8);
    lemma_fnv_fold_push(4486248661705807363u64, s8, 112u8);
    lemma_fnv_step_value(4877498322392884978u64, 112u8, 4877498322392884866u64, 14938703542613503718u64);
    assert(fnv_fold(4486248661705807363u64, s9) == 14938703542613503718u64);
    let s10 = s9.push(45u8);
    lemma_fnv_fold_push(4486248661705807363u64, s9, 45u8);
    lemma_fnv_step_value(14938703542613503718u64, 45u8, 14938703542613503691u64, 11490409611767169777u64);
    assert(fnv_fold(4486248661705807363u64, s10) == 11490409611767169777u64);
    let s11 = s10.push(115u8);
    lemma_fnv_fold_push(4486248661705807363u64, s10, 115u8);
    lemma_fnv_step_value(11490409611767169777u64, 115u8, 11490409611767169666u64, 1404956452523705062u64);
    assert(fnv_fold(4486248661705807363u64, s11) == 1404956452523705062u64);
    let s12 = s11.push(112u8);
    lemma_fnv_fold_push(4486248661705807363u64, s11, 112u8);
    lemma_fnv_step_value(1404956452523705062u64, 112u8, 1404956452523704982u64, 12898610224612566242u64);
    assert(fnv_fold(4486248661705807363u64, s12) == 12898610224612566242u64);
    let s13 = s12.push(108u8);
    lemma_fnv_fold_push(4486248661705807363u64, s12, 108u8);
    lemma_fnv_step_value(12898610224612566242u64, 108u8, 12898610224612566158u64, 7761267742531149130u64);
    assert(fnv_fold(4486248661705807363u64, s13) == 7761267742531149130u64);
    let s14 = s13.push(105u8);
    lemma_fnv_fold_push(4486248661705807363u64, s13, 105u8);
    lemma_fnv_step_value(7761267742531149130u64, 105u8, 7761267742531149091u64, 5323434562522071673u64);
    assert(fnv_fold(4486248661705807363u64, s14) == 5323434562522071673u64);
    let s15 = s14.push(116u8);
    lemma_fnv_fold_push(4486248661705807363u64, s14, 116u8);
    lemma_fnv_step_value(5323434562522071673u64, 116u8, 5323434562522071565u64, 12896036075114216471u64);
    assert(fnv_fold(4486248661705807363u64, s15) == 12896036075114216471u64);
    assert(s15 =~= seq![114u8, 111u8, 117u8, 110u8, 100u8, 116u8, 114u8, 105u8, 112u8, 45u8, 115u8, 112u8, 108u8, 105u8, 116u8]);
}

#[verifier::rlimit(100)]
#[verifier::spinoff_prover]
proof fn lemma_fnv_chain_gemini_ac07_summary_track()
    ensures
        fnv_fold(2140934930154517811u64, seq![97u8, 99u8, 48u8, 55u8, 45u8, 115u8, 117u8, 109u8, 109u8, 97u8, 114u8, 121u8, 45u8, 116u8, 114u8, 97u8, 99u8, 107u8]) == 8897561480528291581u64,
{
    let s0 = Seq::<u8>::empty();
    let s1 = s0.push(97u8);
    lemma_fnv_fold_push(2140934930154517811u64, s0, 97u8);
    lemma_fnv_step_value(2140934930154517811u64, 97u8, 2140934930154517842u64, 10551751935781755478u64);
    assert(fnv_fold(2140934930154517811u64, s1) == 10551751935781755478u64);
    let s2 = s1.push(99u8);
    lemma_fnv_fold_push(2140934930154517811u64, s1, 99u8);
    lemma_fnv_step_value(10551751935781755478u64, 99u8, 10551751935781755445u64, 2526787459420768271u64);
    assert(fnv_fold(2140934930154517811u64, s2) == 2526787459420768271u64);
    let s3 = s2.push(48u8);
    lemma_fnv_fold_push(2140934930154517811u64, s2, 48u8);
    lemma_fnv_step_value(2526787459420768271u64, 48u8, 2526787459420768319u64, 5014343646673191693u64);
    assert(fnv_fold(2140934930154517811u64, s3) == 5014343646673191693u64);
    let s4 = s3.push(55u8);
    lemma_fnv_fold_push(2140934930154517811u64, s3, 55u8);
    lemma_fnv_step_value(5014343646673191693u64, 55u8, 5014343646673191738u64, 17296802344938584974u64);
    assert(fnv_fold(2140934930154517811u64, s4) == 17296802344938584974u64);
    let s5 = s4.push(45u8);
    lemma_fnv_fold_push(2140934930154517811u64, s4, 45u8);
    lemma_fnv_step_value(17296802344938584974u64, 45u8, 17296802344938584995u64, 1673276702818850297u64);
    assert(fnv_fold(2140934930154517811u64, s5) == 1673276702818850297u64);
    let s6 = s5.push(115u8);
    lemma_fnv_fold_push(2140934930154517811u64, s5, 115u8);
    lemma_fnv_step_value(1673276702818850297u64, 115u8, 1673276702818850186u64, 16835104865551997310u64);
    assert(fnv_fold(2140934930154517811u64, s6) == 16835104865551997310u64);
    let s7 = s6.push(117u8);
    lemma_fnv_fold_push(2140934930154517811u64, s6, 117u8);
    lemma_fnv_step_value(16835104865551997310u64, 117u8, 16835104865551997195u64, 12404246388543475121u64);
    assert(fnv_fold(2140934930154517811u64, s7) == 12404246388543475121u64);
    let s8 = s7.push(109u8);
    lemma_fnv_fold_push(2140934930154517811u64, s7, 109u8);
    lemma_fnv_step_value(12404246388543475121u64, 109u8, 12404246388543475164u64, 1205259238663670996u64);
    assert(fnv_fold(2140934930154517811u64, s8) == 1205259238663670996u64);
    let s9 = s8.push(109u8);
    lemma_fnv_fold_push(2140934930154517811u64, s8, 109u8);
    lemma_fnv_step_value(1205259238663670996u64, 109u8, 1205259238663670969u64, 4197650560814177883u64);
    assert(fnv_fold(2140934930154517811u64, s9) == 4197650560814177883u64);
    let s10 = s9.push(97u8);
    lemma_fnv_fold_push(2140934930154517811u64, s9, 97u8);
    lemma_fnv_step_value(4197650560814177883u64, 97u8, 4197650560814177850u64, 9864916241716878478u64);
    assert(fnv_fold(2140934930154517811u64, s10) == 9864916241716878478u64);
    let s11 = s10.push(114u8);
    lemma_fnv_fold_push(2140934930154517811u64, s10, 114u8);
    lemma_fnv_step_value(9864916241716878478u64, 114u8, 9864916241716878588u64, 2666956761801244724u64);
    assert(fnv_fold(2140934930154517811u64, s11) == 2666956761801244724u64);
    let s12 = s11.push(121u8);
    lemma_fnv_fold_push(2140934930154517811u64, s11, 121u8);
    lemma_fnv_step_value(2666956761801244724u64, 121u8, 2666956761801244749u64, 7006613055485526743u64);
    assert(fnv_fold(2140934930154517811u64, s12) == 7006613055485526743u64);
    let s13 = s12.push(45u8);
    lemma_fnv_fold_push(2140934930154517811u64, s12, 45u8);
    lemma_fnv_step_value(7006613055485526743u64, 45u8, 7006613055485526778u64, 1012225062829149902u64);
    assert(fnv_fold(2140934930154517811u64, s13) == 1012225062829149902u64);
    let s14 = s13.push(116u8);
    lemma_fnv_fold_push(2140934930154517811u64, s13, 116u8);
    lemma_fnv_step_value(1012225062829149902u64, 116u8, 1012225062829149882u64, 10120196684577654286u64);
    assert(fnv_fold(2140934930154517811u64, s14) == 10120196684577654286u64);
    let s15 = s14.push(114u8);
    lemma_fnv_fold_push(2140934930154517811u64, s14, 114u8);
    lemma_fnv_step_value(10120196684577654286u64, 114u8, 10120196684577654396u64, 18177260923479770292u64);
    assert(fnv_fold(2140934930154517811u64, s15) == 18177260923479770292u64);
    let s16 = s15.push(97u8);
    lemma_fnv_fold_push(2140934930154517811u64, s15, 97u8);
    lemma_fnv_step_value(18177260923479770292u64, 97u8, 18177260923479770325u64, 4535509271517427183u64);
    assert(fnv_fold(2140934930154517811u64, s16) == 4535509271517427183u64);
    let s17 = s16.push(99u8);
    lemma_fnv_fold_push(2140934930154517811u64, s16, 99u8);
    lemma_fnv_step_value(4535509271517427183u64, 99u8, 4535509271517427084u64, 4438208091830533348u64);
    assert(fnv_fold(2140934930154517811u64, s17) == 4438208091830533348u64);
    let s18 = s17.push(107u8);
    lemma_fnv_fold_push(2140934930154517811u64, s17, 107u8);
    lemma_fnv_step_value(4438208091830533348u64, 107u8, 4438208091830533263u64, 8897561480528291581u64);
    assert(fnv_fold(2140934930154517811u64, s18) == 8897561480528291581u64);
    assert(s18 =~= seq![97u8, 99u8, 48u8, 55u8, 45u8, 115u8, 117u8, 109u8, 109u8, 97u8, 114u8, 121u8, 45u8, 116u8, 114u8, 97u8, 99u8, 107u8]);
}

#[verifier::rlimit(100)]
#[verifier::spinoff_prover]
proof fn lemma_fnv_chain_grok_ac07_summary_track()
    ensures
        fnv_fold(4486248661705807363u64, seq![97u8, 99u8, 48u8, 55u8, 45u8, 115u8, 117u8, 109u8, 109u8, 97u8, 114u8, 121u8, 45u8, 116u8, 114u8, 97u8, 99u8, 107u8]) == 12123166446332344141u64,
{
    let s0 = Seq::<u8>::empty();
    let s1 = s0.push(97u8);
    lemma_fnv_fold_push(4486248661705807363u64, s0, 97u8);
    lemma_fnv_step_value(4486248661705807363u64, 97u8, 4486248661705807458u64, 15463017034096134278u64);
    assert(fnv_fold(4486248661705807363u64, s1) == 15463017034096134278u64);
    let s2 = s1.push(99u8);
    lemma_fnv_fold_push(4486248661705807363u64, s1, 99u8);
    lemma_fnv_step_value(15463017034096134278u64, 99u8, 15463017034096134373u64, 13907755215127502111u64);
    assert(fnv_fold(4486248661705807363u64, s2) == 13907755215127502111u64);
    let s3 = s2.push(48u8);
    lemma_fnv_fold_push(4486248661705807363u64, s2, 48u8);
    lemma_fnv_step_value(13907755215127502111u64, 48u8, 13907755215127502127u64, 13382893293988075229u64);
    assert(fnv_fold(4486248661705807363u64, s3) == 13382893293988075229u64);
    let s4 = s3.push(55u8);
    lemma_fnv_fold_push(4486248661705807363u64, s3, 55u8);
    lemma_fnv_step_value(13382893293988075229u64, 55u8, 13382893293988075242u64, 12984362824140861342u64);
    assert(fnv_fold(4486248661705807363u64, s4) == 12984362824140861342u64);
    let s5 = s4.push(45u8);
    lemma_fnv_fold_push(4486248661705807363u64, s4, 45u8);
    lemma_fnv_step_value(12984362824140861342u64, 45u8, 12984362824140861363u64, 16477935009465699625u64);
    assert(fnv_fold(4486248661705807363u64, s5) == 16477935009465699625u64);
    let s6 = s5.push(115u8);
    lemma_fnv_fold_push(4486248661705807363u64, s5, 115u8);
    lemma_fnv_step_value(16477935009465699625u64, 115u8, 16477935009465699674u64, 13811378380723826670u64);
    assert(fnv_fold(4486248661705807363u64, s6) == 13811378380723826670u64);
    let s7 = s6.push(117u8);
    lemma_fnv_fold_push(4486248661705807363u64, s6, 117u8);
    lemma_fnv_step_value(13811378380723826670u64, 117u8, 13811378380723826587u64, 4520576890125247585u64);
    assert(fnv_fold(4486248661705807363u64, s7) == 4520576890125247585u64);
    let s8 = s7.push(109u8);
    lemma_fnv_fold_push(4486248661705807363u64, s7, 109u8);
    lemma_fnv_step_value(4520576890125247585u64, 109u8, 4520576890125247500u64, 6584607658691330148u64);
    assert(fnv_fold(4486248661705807363u64, s8) == 6584607658691330148u64);
    let s9 = s8.push(109u8);
    lemma_fnv_fold_push(4486248661705807363u64, s8, 109u8);
    lemma_fnv_step_value(6584607658691330148u64, 109u8, 6584607658691330057u64, 16372052265307410251u64);
    assert(fnv_fold(4486248661705807363u64, s9) == 16372052265307410251u64);
    let s10 = s9.push(97u8);
    lemma_fnv_fold_push(4486248661705807363u64, s9, 97u8);
    lemma_fnv_step_value(16372052265307410251u64, 97u8, 16372052265307410218u64, 15743252474523206750u64);
    assert(fnv_fold(4486248661705807363u64, s10) == 15743252474523206750u64);
    let s11 = s10.push(114u8);
    lemma_fnv_fold_push(4486248661705807363u64, s10, 114u8);
    lemma_fnv_step_value(15743252474523206750u64, 114u8, 15743252474523206700u64, 9095563375649707716u64);
    assert(fnv_fold(4486248661705807363u64, s11) == 9095563375649707716u64);
    let s12 = s11.push(121u8);
    lemma_fnv_fold_push(4486248661705807363u64, s11, 121u8);
    lemma_fnv_step_value(9095563375649707716u64, 121u8, 9095563375649707709u64, 2578125420097987367u64);
    assert(fnv_fold(4486248661705807363u64, s12) == 2578125420097987367u64);
    let s13 = s12.push(45u8);
    lemma_fnv_fold_push(4486248661705807363u64, s12, 45u8);
    lemma_fnv_step_value(2578125420097987367u64, 45u8, 2578125420097987338u64, 2602114539490134526u64);
    assert(fnv_fold(4486248661705807363u64, s13) == 2602114539490134526u64);
    let s14 = s13.push(116u8);
    lemma_fnv_fold_push(4486248661705807363u64, s13, 116u8);
    lemma_fnv_step_value(2602114539490134526u64, 116u8, 2602114539490134410u64, 10147900101650871678u64);
    assert(fnv_fold(4486248661705807363u64, s14) == 10147900101650871678u64);
    let s15 = s14.push(114u8);
    lemma_fnv_fold_push(4486248661705807363u64, s14, 114u8);
    lemma_fnv_step_value(10147900101650871678u64, 114u8, 10147900101650871564u64, 6498376293435073380u64);
    assert(fnv_fold(4486248661705807363u64, s15) == 6498376293435073380u64);
    let s16 = s15.push(97u8);
    lemma_fnv_fold_push(4486248661705807363u64, s15, 97u8);
    lemma_fnv_step_value(6498376293435073380u64, 97u8, 6498376293435073285u64, 4757946263099687295u64);
    assert(fnv_fold(4486248661705807363u64, s16) == 4757946263099687295u64);
    let s17 = s16.push(99u8);
    lemma_fnv_fold_push(4486248661705807363u64, s16, 99u8);
    lemma_fnv_step_value(4757946263099687295u64, 99u8, 4757946263099687196u64, 12048295761105560212u64);
    assert(fnv_fold(4486248661705807363u64, s17) == 12048295761105560212u64);
    let s18 = s17.push(107u8);
    lemma_fnv_fold_push(4486248661705807363u64, s17, 107u8);
    lemma_fnv_step_value(12048295761105560212u64, 107u8, 12048295761105560319u64, 12123166446332344141u64);
    assert(fnv_fold(4486248661705807363u64, s18) == 12123166446332344141u64);
    assert(s18 =~= seq![97u8, 99u8, 48u8, 55u8, 45u8, 115u8, 117u8, 109u8, 109u8, 97u8, 114u8, 121u8, 45u8, 116u8, 114u8, 97u8, 99u8, 107u8]);
}

proof fn lemma_ascii_bytes_gemini()
    ensures
        "gemini".spec_bytes() == seq![103u8, 101u8, 109u8, 105u8, 110u8, 105u8],
{
    reveal_strlit("gemini");
    assert forall|i: int| 0 <= i < "gemini"@.len() implies '\0' <= #[trigger] "gemini"@[i] <= '\u{7f}' by {
        if i == 0 {
        } else if i == 1 {
        } else if i == 2 {
        } else if i == 3 {
        } else if i == 4 {
        } else if i == 5 {
        }
    };
    vstd::string::is_ascii_spec_bytes("gemini");
    assert("gemini".spec_bytes() =~= seq![103u8, 101u8, 109u8, 105u8, 110u8, 105u8]);
}

proof fn lemma_ascii_bytes_grok()
    ensures
        "grok".spec_bytes() == seq![103u8, 114u8, 111u8, 107u8],
{
    reveal_strlit("grok");
    assert forall|i: int| 0 <= i < "grok"@.len() implies '\0' <= #[trigger] "grok"@[i] <= '\u{7f}' by {
        if i == 0 {
        } else if i == 1 {
        } else if i == 2 {
        } else if i == 3 {
        }
    };
    vstd::string::is_ascii_spec_bytes("grok");
    assert("grok".spec_bytes() =~= seq![103u8, 114u8, 111u8, 107u8]);
}

proof fn lemma_ascii_bytes_probe_split()
    ensures
        "probe-split".spec_bytes() == seq![112u8, 114u8, 111u8, 98u8, 101u8, 45u8, 115u8, 112u8, 108u8, 105u8, 116u8],
{
    reveal_strlit("probe-split");
    assert forall|i: int| 0 <= i < "probe-split"@.len() implies '\0' <= #[trigger] "probe-split"@[i] <= '\u{7f}' by {
        if i == 0 {
        } else if i == 1 {
        } else if i == 2 {
        } else if i == 3 {
        } else if i == 4 {
        } else if i == 5 {
        } else if i == 6 {
        } else if i == 7 {
        } else if i == 8 {
        } else if i == 9 {
        } else if i == 10 {
        }
    };
    vstd::string::is_ascii_spec_bytes("probe-split");
    assert("probe-split".spec_bytes() =~= seq![112u8, 114u8, 111u8, 98u8, 101u8, 45u8, 115u8, 112u8, 108u8, 105u8, 116u8]);
}

proof fn lemma_ascii_bytes_probe_resolve_badge()
    ensures
        "probe-resolve-badge".spec_bytes() == seq![112u8, 114u8, 111u8, 98u8, 101u8, 45u8, 114u8, 101u8, 115u8, 111u8, 108u8, 118u8, 101u8, 45u8, 98u8, 97u8, 100u8, 103u8, 101u8],
{
    reveal_strlit("probe-resolve-badge");
    assert forall|i: int| 0 <= i < "probe-resolve-badge"@.len() implies '\0' <= #[trigger] "probe-resolve-badge"@[i] <= '\u{7f}' by {
        if i == 0 {
        } else if i == 1 {
        } else if i == 2 {
        } else if i == 3 {
        } else if i == 4 {
        } else if i == 5 {
        } else if i == 6 {
        } else if i == 7 {
        } else if i == 8 {
        } else if i == 9 {
        } else if i == 10 {
        } else if i == 11 {
        } else if i == 12 {
        } else if i == 13 {
        } else if i == 14 {
        } else if i == 15 {
        } else if i == 16 {
        } else if i == 17 {
        } else if i == 18 {
        }
    };
    vstd::string::is_ascii_spec_bytes("probe-resolve-badge");
    assert("probe-resolve-badge".spec_bytes() =~= seq![112u8, 114u8, 111u8, 98u8, 101u8, 45u8, 114u8, 101u8, 115u8, 111u8, 108u8, 118u8, 101u8, 45u8, 98u8, 97u8, 100u8, 103u8, 101u8]);
}

proof fn lemma_ascii_bytes_roundtrip_split()
    ensures
        "roundtrip-split".spec_bytes() == seq![114u8, 111u8, 117u8, 110u8, 100u8, 116u8, 114u8, 105u8, 112u8, 45u8, 115u8, 112u8, 108u8, 105u8, 116u8],
{
    reveal_strlit("roundtrip-split");
    assert forall|i: int| 0 <= i < "roundtrip-split"@.len() implies '\0' <= #[trigger] "roundtrip-split"@[i] <= '\u{7f}' by {
        if i == 0 {
        } else if i == 1 {
        } else if i == 2 {
        } else if i == 3 {
        } else if i == 4 {
        } else if i == 5 {
        } else if i == 6 {
        } else if i == 7 {
        } else if i == 8 {
        } else if i == 9 {
        } else if i == 10 {
        } else if i == 11 {
        } else if i == 12 {
        } else if i == 13 {
        } else if i == 14 {
        }
    };
    vstd::string::is_ascii_spec_bytes("roundtrip-split");
    assert("roundtrip-split".spec_bytes() =~= seq![114u8, 111u8, 117u8, 110u8, 100u8, 116u8, 114u8, 105u8, 112u8, 45u8, 115u8, 112u8, 108u8, 105u8, 116u8]);
}

proof fn lemma_ascii_bytes_ac07_summary_track()
    ensures
        "ac07-summary-track".spec_bytes() == seq![97u8, 99u8, 48u8, 55u8, 45u8, 115u8, 117u8, 109u8, 109u8, 97u8, 114u8, 121u8, 45u8, 116u8, 114u8, 97u8, 99u8, 107u8],
{
    reveal_strlit("ac07-summary-track");
    assert forall|i: int| 0 <= i < "ac07-summary-track"@.len() implies '\0' <= #[trigger] "ac07-summary-track"@[i] <= '\u{7f}' by {
        if i == 0 {
        } else if i == 1 {
        } else if i == 2 {
        } else if i == 3 {
        } else if i == 4 {
        } else if i == 5 {
        } else if i == 6 {
        } else if i == 7 {
        } else if i == 8 {
        } else if i == 9 {
        } else if i == 10 {
        } else if i == 11 {
        } else if i == 12 {
        } else if i == 13 {
        } else if i == 14 {
        } else if i == 15 {
        } else if i == 16 {
        } else if i == 17 {
        }
    };
    vstd::string::is_ascii_spec_bytes("ac07-summary-track");
    assert("ac07-summary-track".spec_bytes() =~= seq![97u8, 99u8, 48u8, 55u8, 45u8, 115u8, 117u8, 109u8, 109u8, 97u8, 114u8, 121u8, 45u8, 116u8, 114u8, 97u8, 99u8, 107u8]);
}

#[verifier::rlimit(100)]
#[verifier::spinoff_prover]
proof fn lemma_hash_gemini_probe_split()
    ensures
        response_shape_hash_spec("gemini", "probe-split") == hex16(3776377581089964198u64),
{
    reveal(fnv1a_hex_spec);
    reveal_strlit("gemini");
    reveal_strlit("minimax");
    lemma_ascii_bytes_gemini();
    lemma_ascii_bytes_probe_split();
    lemma_fnv_chain_shape_prefix();
    lemma_fnv_chain_gemini();
    lemma_fnv_chain_gemini_probe_split();
    let pb = seq![103u8, 101u8, 109u8, 105u8, 110u8, 105u8];
    assert(shape_seed("gemini") =~= shape_seed_prefix() + pb);
    lemma_fnv_fold_concat(FNV_OFFSET_BASIS, shape_seed_prefix(), pb);
}

#[verifier::rlimit(100)]
#[verifier::spinoff_prover]
proof fn lemma_hash_grok_probe_split()
    ensures
        response_shape_hash_spec("grok", "probe-split") == hex16(7977879173986601014u64),
{
    reveal(fnv1a_hex_spec);
    reveal_strlit("grok");
    reveal_strlit("minimax");
    lemma_ascii_bytes_grok();
    lemma_ascii_bytes_probe_split();
    lemma_fnv_chain_shape_prefix();
    lemma_fnv_chain_grok();
    lemma_fnv_chain_grok_probe_split();
    let pb = seq![103u8, 114u8, 111u8, 107u8];
    assert(shape_seed("grok") =~= shape_seed_prefix() + pb);
    lemma_fnv_fold_concat(FNV_OFFSET_BASIS, shape_seed_prefix(), pb);
}

proof fn lemma_split_probe_split()
    ensures
        consensus_split("probe-split"),
{
    lemma_hash_gemini_probe_split();
    lemma_hash_grok_probe_split();
    reveal_with_fuel(pow16, 2);
    assert(pow16(1) == 16);
    assert((3776377581089964198u64 as nat / pow16(1)) % 16 == 10);
    assert((7977879173986601014u64 as nat / pow16(1)) % 16 == 3);
    assert(hex16(3776377581089964198u64)[14] == hex_digit_char(10));
    assert(hex16(7977879173986601014u64)[14] == hex_digit_char(3));
    assert(hex_digit_char(10) != hex_digit_char(3));
}

#[verifier::rlimit(100)]
#[verifier::spinoff_prover]
proof fn lemma_hash_gemini_probe_resolve_badge()
    ensures
        response_shape_hash_spec("gemini", "probe-resolve-badge") == hex16(18370600546581735644u64),
{
    reveal(fnv1a_hex_spec);
    reveal_strlit("gemini");
    reveal_strlit("minimax");
    lemma_ascii_bytes_gemini();
    lemma_ascii_bytes_probe_resolve_badge();
    lemma_fnv_chain_shape_prefix();
    lemma_fnv_chain_gemini();
    lemma_fnv_chain_gemini_probe_resolve_badge();
    let pb = seq![103u8, 101u8, 109u8, 105u8, 110u8, 105u8];
    assert(shape_seed("gemini") =~= shape_seed_prefix() + pb);
    lemma_fnv_fold_concat(FNV_OFFSET_BASIS, shape_seed_prefix(), pb);
}

#[verifier::rlimit(100)]
#[verifier::spinoff_prover]
proof fn lemma_hash_grok_probe_resolve_badge()
    ensures
        response_shape_hash_spec("grok", "probe-resolve-badge") == hex16(7557542462949399340u64),
{
    reveal(fnv1a_hex_spec);
    reveal_strlit("grok");
    reveal_strlit("minimax");
    lemma_ascii_bytes_grok();
    lemma_ascii_bytes_probe_resolve_badge();
    lemma_fnv_chain_shape_prefix();
    lemma_fnv_chain_grok();
    lemma_fnv_chain_grok_probe_resolve_badge();
    let pb = seq![103u8, 114u8, 111u8, 107u8];
    assert(shape_seed("grok") =~= shape_seed_prefix() + pb);
    lemma_fnv_fold_concat(FNV_OFFSET_BASIS, shape_seed_prefix(), pb);
}

proof fn lemma_split_probe_resolve_badge()
    ensures
        consensus_split("probe-resolve-badge"),
{
    lemma_hash_gemini_probe_resolve_badge();
    lemma_hash_grok_probe_resolve_badge();
    reveal_with_fuel(pow16, 2);
    assert(pow16(1) == 16);
    assert((18370600546581735644u64 as nat / pow16(1)) % 16 == 13);
    assert((7557542462949399340u64 as nat / pow16(1)) % 16 == 2);
    assert(hex16(18370600546581735644u64)[14] == hex_digit_char(13));
    assert(hex16(7557542462949399340u64)[14] == hex_digit_char(2));
    assert(hex_digit_char(13) != hex_digit_char(2));
}

#[verifier::rlimit(100)]
#[verifier::spinoff_prover]
proof fn lemma_hash_gemini_roundtrip_split()
    ensures
        response_shape_hash_spec("gemini", "roundtrip-split") == hex16(17693536243991722727u64),
{
    reveal(fnv1a_hex_spec);
    reveal_strlit("gemini");
    reveal_strlit("minimax");
    lemma_ascii_bytes_gemini();
    lemma_ascii_bytes_roundtrip_split();
    lemma_fnv_chain_shape_prefix();
    lemma_fnv_chain_gemini();
    lemma_fnv_chain_gemini_roundtrip_split();
    let pb = seq![103u8, 101u8, 109u8, 105u8, 110u8, 105u8];
    assert(shape_seed("gemini") =~= shape_seed_prefix() + pb);
    lemma_fnv_fold_concat(FNV_OFFSET_BASIS, shape_seed_prefix(), pb);
}

#[verifier::rlimit(100)]
#[verifier::spinoff_prover]
proof fn lemma_hash_grok_roundtrip_split()
    ensures
        response_shape_hash_spec("grok", "roundtrip-split") == hex16(12896036075114216471u64),
{
    reveal(fnv1a_hex_spec);
    reveal_strlit("grok");
    reveal_strlit("minimax");
    lemma_ascii_bytes_grok();
    lemma_ascii_bytes_roundtrip_split();
    lemma_fnv_chain_shape_prefix();
    lemma_fnv_chain_grok();
    lemma_fnv_chain_grok_roundtrip_split();
    let pb = seq![103u8, 114u8, 111u8, 107u8];
    assert(shape_seed("grok") =~= shape_seed_prefix() + pb);
    lemma_fnv_fold_concat(FNV_OFFSET_BASIS, shape_seed_prefix(), pb);
}

proof fn lemma_split_roundtrip_split()
    ensures
        consensus_split("roundtrip-split"),
{
    lemma_hash_gemini_roundtrip_split();
    lemma_hash_grok_roundtrip_split();
    reveal_with_fuel(pow16, 2);
    assert(pow16(1) == 16);
    assert((17693536243991722727u64 as nat / pow16(1)) % 16 == 14);
    assert((12896036075114216471u64 as nat / pow16(1)) % 16 == 1);
    assert(hex16(17693536243991722727u64)[14] == hex_digit_char(14));
    assert(hex16(12896036075114216471u64)[14] == hex_digit_char(1));
    assert(hex_digit_char(14) != hex_digit_char(1));
}

#[verifier::rlimit(100)]
#[verifier::spinoff_prover]
proof fn lemma_hash_gemini_ac07_summary_track()
    ensures
        response_shape_hash_spec("gemini", "ac07-summary-track") == hex16(8897561480528291581u64),
{
    reveal(fnv1a_hex_spec);
    reveal_strlit("gemini");
    reveal_strlit("minimax");
    lemma_ascii_bytes_gemini();
    lemma_ascii_bytes_ac07_summary_track();
    lemma_fnv_chain_shape_prefix();
    lemma_fnv_chain_gemini();
    lemma_fnv_chain_gemini_ac07_summary_track();
    let pb = seq![103u8, 101u8, 109u8, 105u8, 110u8, 105u8];
    assert(shape_seed("gemini") =~= shape_seed_prefix() + pb);
    lemma_fnv_fold_concat(FNV_OFFSET_BASIS, shape_seed_prefix(), pb);
}

#[verifier::rlimit(100)]
#[verifier::spinoff_prover]
proof fn lemma_hash_grok_ac07_summary_track()
    ensures
        response_shape_hash_spec("grok", "ac07-summary-track") == hex16(12123166446332344141u64),
{
    reveal(fnv1a_hex_spec);
    reveal_strlit("grok");
    reveal_strlit("minimax");
    lemma_ascii_bytes_grok();
    lemma_ascii_bytes_ac07_summary_track();
    lemma_fnv_chain_shape_prefix();
    lemma_fnv_chain_grok();
    lemma_fnv_chain_grok_ac07_summary_track();
    let pb = seq![103u8, 114u8, 111u8, 107u8];
    assert(shape_seed("grok") =~= shape_seed_prefix() + pb);
    lemma_fnv_fold_concat(FNV_OFFSET_BASIS, shape_seed_prefix(), pb);
}

proof fn lemma_split_ac07_summary_track()
    ensures
        consensus_split("ac07-summary-track"),
{
    lemma_hash_gemini_ac07_summary_track();
    lemma_hash_grok_ac07_summary_track();
    reveal_with_fuel(pow16, 2);
    assert(pow16(1) == 16);
    assert((8897561480528291581u64 as nat / pow16(1)) % 16 == 15);
    assert((12123166446332344141u64 as nat / pow16(1)) % 16 == 4);
    assert(hex16(8897561480528291581u64)[14] == hex_digit_char(15));
    assert(hex16(12123166446332344141u64)[14] == hex_digit_char(4));
    assert(hex_digit_char(15) != hex_digit_char(4));
}

/// Law: the consensus probes are honest — on every split prompt the probes and roundtrips
/// use, the synthetic providers' response-shape hashes disagree.
pub proof fn lemma_consensus_probes_honest()
    ensures
        consensus_probes_honest(),
{
    lemma_split_probe_split();
    lemma_split_probe_resolve_badge();
    lemma_split_roundtrip_split();
    lemma_split_ac07_summary_track();
}

} // verus!
