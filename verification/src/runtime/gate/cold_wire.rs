//! Cold-edge wire for gate verdicts and the AGENT-LOOP-07 principal credit stamps.
//!
//! No clock reads here — the caller supplies the UCRS observation stamp at the boundary.
//! The wire carries what the census reads (catalog id, admissibility, stamp, axiom anchor,
//! identity credit); the dual-ledger joule values are floats and travel on the host's copy.
//!
//! Telemetry deepen only: no physics GREEN, no PRODUCTION_WIRED, no MASTER retick, no OP-5
//! PASS; a principal stamp is not consciousness and not legal authorship.
use vstd::prelude::*;
use crate::text::{seq_contains, matches_at, str_eq, str_contains};
use crate::runtime::gate::evidence::{
    AdmissibilityToken, TransitionEvidence, UcrsObservedAtWire, CD_TRANSITION_CATALOG_ID,
};

verus! {

/// W29-113 swarm cell id (cold-wire deepen).
pub const W29_113_CELL_ID: &'static str = "W29-113-COLD_WIRE";

/// W29-113 honest posture — cold-edge serde deepen only.
pub const W29_113_HONEST_POSTURE: &'static str = "COLD_WIRE_TELEMETRY_DEEPEN_ONLY";

/// W29-113 explicit non-claims (gate text).
pub const W29_113_NON_CLAIM: &'static str =
    "not GREEN; not OP-5 PASS; not production_wired; not MASTER_RETICK";

/// W29-113 deepen schema version.
pub const W29_113_DEEPEN_SCHEMA_VERSION: &'static str = "cold_wire_w29_113_deepen_v1";

/// AGENT-LOOP-07 swarm cell id (principal credit cold-wire deepen).
pub const AGENT_LOOP_07_CELL_ID: &'static str = "AGENT-LOOP-07-PRINCIPAL-CREDIT";

/// AGENT-LOOP-07 honest posture — principal/commission/executor stamp deepen only.
pub const AGENT_LOOP_07_HONEST_POSTURE: &'static str = "COLD_WIRE_PRINCIPAL_CREDIT_DEEPEN_ONLY";

/// AGENT-LOOP-07 explicit non-claims (gate text).
pub const AGENT_LOOP_07_NON_CLAIM: &'static str =
    "principal stamp ≠ consciousness; not GREEN; not OP-5 PASS; not production_wired; not MASTER_RETICK; git author ≠ executed_by";

/// AGENT-LOOP-07 deepen schema version.
pub const AGENT_LOOP_07_DEEPEN_SCHEMA_VERSION: &'static str = "cold_wire_agent_loop_07_v1";

/// AGENT-LOOP-07 remainder gap — git/PR/author wrap still unmeasured on host.
pub const AGENT_LOOP_07_REMAINDER_GAP: &'static str =
    "git/PR/author wrap unwrapped; principal-side appropriation arm absent";

/// Principal git/PR wrap posture — host wrap not wired (≠ cold-wire telemetry deepen).
pub const AGENT_LOOP_07_PRINCIPAL_WRAP_POSTURE: &'static str = "PRINCIPAL_WRAP_UNWIRED";

/// Axiom anchor of every dual-ledger spine event cost.
pub const SPINE_EVENT_AXIOM_ANCHOR: &'static str = "physicalSecondLaw";

/// Cold-wire telemetry deepen posture ≠ principal wrap on host (stays true).
pub fn agent_loop_07_cold_wire_posture_not_principal_wrap() -> (r: bool)
    ensures
        r,
{
    str_eq(AGENT_LOOP_07_HONEST_POSTURE, "COLD_WIRE_PRINCIPAL_CREDIT_DEEPEN_ONLY") && str_eq(
        AGENT_LOOP_07_PRINCIPAL_WRAP_POSTURE,
        "PRINCIPAL_WRAP_UNWIRED",
    ) && !agent_loop_07_remainder_row_closed()
}

/// Remainder-row honesty pin — cold-wire telemetry deepen only; does not close row 07.
#[derive(Debug, Clone, Copy, PartialEq, Eq, Structural)]
pub struct AgentLoop07RemainderPin {
    pub physics_green: bool,
    pub remainder_row_closed: bool,
    pub git_author_wrap_wired: bool,
}

/// AGENT-LOOP-07 remainder pin — physics GREEN and row close stay refused.
pub fn agent_loop_07_remainder_pin() -> (r: AgentLoop07RemainderPin)
    ensures
        r == (AgentLoop07RemainderPin {
            physics_green: false,
            remainder_row_closed: false,
            git_author_wrap_wired: false,
        }),
{
    AgentLoop07RemainderPin {
        physics_green: false,
        remainder_row_closed: false,
        git_author_wrap_wired: false,
    }
}

/// Whether the AGENT-LOOP-07 remainder row is closed (stays false until the host wrap lands).
pub fn agent_loop_07_remainder_row_closed() -> (r: bool)
    ensures
        !r,
{
    false
}

/// Fleet physics GREEN for AGENT-LOOP-07 (cold-wire deepen never claims it).
pub fn agent_loop_07_physics_green() -> (r: bool)
    ensures
        !r,
{
    false
}

/// Principal-side credit arm absent on host (stays true until the git/PR wrap).
pub fn agent_loop_07_principal_credit_arm_absent() -> (r: bool)
    ensures
        r,
{
    true
}

/// Party credited for commissioning durable identity writes.
#[derive(Debug, Clone, Copy, PartialEq, Eq, Structural)]
pub enum CreditCommissionParty {
    Human,
    Agent,
    Joint,
    Unknown,
}

/// Party credited for executing durable identity writes (`unknown` not allowed).
#[derive(Debug, Clone, Copy, PartialEq, Eq, Structural)]
pub enum CreditExecutorParty {
    Human,
    Agent,
    Joint,
}

/// Principal-side public stamp — who is named on git/PR/commit (≠ executor).
#[derive(Debug, Clone, Copy, PartialEq, Eq, Structural)]
pub enum PrincipalNamedParty {
    Human,
    Agent,
    Joint,
    Unknown,
}

/// The named party is not the executing party (an unknown name always differs).
pub open spec fn party_differs(named: PrincipalNamedParty, executed_by: CreditExecutorParty) -> bool {
    !((named == PrincipalNamedParty::Human && executed_by == CreditExecutorParty::Human) || (named
        == PrincipalNamedParty::Agent && executed_by == CreditExecutorParty::Agent) || (named
        == PrincipalNamedParty::Joint && executed_by == CreditExecutorParty::Joint))
}

fn party_differs_from_executor(named: PrincipalNamedParty, executed_by: CreditExecutorParty) -> (r: bool)
    ensures
        r == party_differs(named, executed_by),
{
    match (named, executed_by) {
        (PrincipalNamedParty::Human, CreditExecutorParty::Human) => false,
        (PrincipalNamedParty::Agent, CreditExecutorParty::Agent) => false,
        (PrincipalNamedParty::Joint, CreditExecutorParty::Joint) => false,
        _ => true,
    }
}

/// Git/PR/commit public stamp facets — telemetry only; not legal authorship.
#[derive(Debug, Clone, Copy, PartialEq, Eq, Structural)]
pub struct GitPrCommitPublicStamp {
    pub git_author: PrincipalNamedParty,
    pub pr_principal: PrincipalNamedParty,
    pub commit_stamp: PrincipalNamedParty,
}

impl GitPrCommitPublicStamp {
    /// Git author names a different party than the executor (appropriation collision).
    pub fn git_author_differs_from_executor(self, executed_by: CreditExecutorParty) -> (r: bool)
        ensures
            r == party_differs(self.git_author, executed_by),
    {
        party_differs_from_executor(self.git_author, executed_by)
    }

    /// Some public stamp facet collides with the executor while the arm stays unmeasured.
    pub fn appropriation_collision_unmeasured(self, executed_by: CreditExecutorParty) -> (r: bool)
        ensures
            r == (party_differs(self.git_author, executed_by) || party_differs(
                self.pr_principal,
                executed_by,
            ) || party_differs(self.commit_stamp, executed_by)),
    {
        (self.git_author_differs_from_executor(executed_by) || party_differs_from_executor(
            self.pr_principal,
            executed_by,
        ) || party_differs_from_executor(self.commit_stamp, executed_by))
            && agent_loop_07_principal_credit_arm_absent()
    }
}

/// Fourth arm — principal-side appropriation on git/PR/commit (cold-wire deepen only).
#[derive(Debug, Clone, Copy, PartialEq, Eq, Structural)]
pub struct PrincipalAppropriationArm {
    pub public_stamp: GitPrCommitPublicStamp,
    pub executed_by: CreditExecutorParty,
}

impl PrincipalAppropriationArm {
    /// Arm unmeasured on host; posture ≠ credit wrap GREEN.
    pub fn arm_absent(self) -> (r: bool)
        ensures
            r,
    {
        agent_loop_07_principal_credit_arm_absent()
    }

    /// Git author ≠ executed_by.
    pub fn git_author_executor_collision(self) -> (r: bool)
        ensures
            r == party_differs(self.public_stamp.git_author, self.executed_by),
    {
        self.public_stamp.git_author_differs_from_executor(self.executed_by)
    }

    /// Collision present but the fourth arm not wired — the remainder row stays open.
    pub fn collision_unmeasured(self) -> (r: bool)
        ensures
            r == party_differs(self.public_stamp.git_author, self.executed_by),
    {
        self.git_author_executor_collision() && self.arm_absent()
    }
}

/// ActionCredit fragment for durable identity-class transitions (cold-wire telemetry only).
///
/// Principal ≠ consciousness; not legal authorship. `principal_named` is the public git/PR
/// name and may differ from `executed_by` (appropriation arm).
#[derive(Debug, Clone, Copy, PartialEq, Eq, Structural)]
pub struct DurableIdentityCreditStamp {
    pub commissioned_by: CreditCommissionParty,
    pub executed_by: CreditExecutorParty,
    pub principal_named: PrincipalNamedParty,
}

impl DurableIdentityCreditStamp {
    /// Whether the principal public stamp names a different party than the executor.
    pub fn principal_differs_from_executor(self) -> (r: bool)
        ensures
            r == party_differs(self.principal_named, self.executed_by),
    {
        party_differs_from_executor(self.principal_named, self.executed_by)
    }

    /// The git/PR/commit public stamp: every facet names the principal.
    pub fn public_stamp(self) -> (r: GitPrCommitPublicStamp)
        ensures
            r == (GitPrCommitPublicStamp {
                git_author: self.principal_named,
                pr_principal: self.principal_named,
                commit_stamp: self.principal_named,
            }),
    {
        GitPrCommitPublicStamp {
            git_author: self.principal_named,
            pr_principal: self.principal_named,
            commit_stamp: self.principal_named,
        }
    }

    /// Fourth appropriation arm sample — collision unmeasured until the host wrap lands.
    pub fn appropriation_arm(self) -> (r: PrincipalAppropriationArm)
        ensures
            r.public_stamp.git_author == self.principal_named,
            r.public_stamp.pr_principal == self.principal_named,
            r.public_stamp.commit_stamp == self.principal_named,
            r.executed_by == self.executed_by,
    {
        PrincipalAppropriationArm { public_stamp: self.public_stamp(), executed_by: self.executed_by }
    }

    /// Principal/executor collision present while the credit arm stays unmeasured on host.
    pub fn principal_credit_gap_unmeasured(self) -> (r: bool)
        ensures
            r == party_differs(self.principal_named, self.executed_by),
    {
        self.principal_differs_from_executor() && agent_loop_07_principal_credit_arm_absent()
    }
}

/// Whether `catalog_id` is a durable identity-class gate transition (the host CD channel).
pub fn is_durable_identity_transition(catalog_id: &str) -> (r: bool)
    ensures
        r == (catalog_id@ == CD_TRANSITION_CATALOG_ID@),
{
    str_eq(catalog_id, CD_TRANSITION_CATALOG_ID)
}

/// Admissibility on the wire (`ADMISSIBLE` / `INADMISSIBLE`).
#[derive(Debug, Clone, Copy, PartialEq, Eq, Structural)]
pub enum AdmissibilityWire {
    Admissible,
    Inadmissible,
}

/// UCRS observation stamp on the wire.
#[derive(Debug, Clone, Copy, PartialEq, Eq, Structural)]
pub struct UcrsObservedAtWireSerde {
    pub wall_ms: i64,
    pub ucrs_seq: u64,
}

/// The wire form of an admissibility token.
pub open spec fn admissibility_wire_of(t: AdmissibilityToken) -> AdmissibilityWire {
    match t {
        AdmissibilityToken::Admissible => AdmissibilityWire::Admissible,
        AdmissibilityToken::Inadmissible => AdmissibilityWire::Inadmissible,
    }
}

impl From<AdmissibilityToken> for AdmissibilityWire {
    fn from(t: AdmissibilityToken) -> (r: Self) {
        match t {
            AdmissibilityToken::Admissible => AdmissibilityWire::Admissible,
            AdmissibilityToken::Inadmissible => AdmissibilityWire::Inadmissible,
        }
    }
}

impl vstd::std_specs::convert::FromSpecImpl<AdmissibilityToken> for AdmissibilityWire {
    open spec fn obeys_from_spec() -> bool {
        true
    }

    open spec fn from_spec(t: AdmissibilityToken) -> AdmissibilityWire {
        admissibility_wire_of(t)
    }
}

impl From<UcrsObservedAtWire> for UcrsObservedAtWireSerde {
    fn from(s: UcrsObservedAtWire) -> (r: Self) {
        UcrsObservedAtWireSerde { wall_ms: s.wall_ms, ucrs_seq: s.ucrs_seq }
    }
}

impl vstd::std_specs::convert::FromSpecImpl<UcrsObservedAtWire> for UcrsObservedAtWireSerde {
    open spec fn obeys_from_spec() -> bool {
        true
    }

    open spec fn from_spec(s: UcrsObservedAtWire) -> UcrsObservedAtWireSerde {
        UcrsObservedAtWireSerde { wall_ms: s.wall_ms, ucrs_seq: s.ucrs_seq }
    }
}

impl From<UcrsObservedAtWireSerde> for UcrsObservedAtWire {
    fn from(s: UcrsObservedAtWireSerde) -> (r: Self) {
        UcrsObservedAtWire { wall_ms: s.wall_ms, ucrs_seq: s.ucrs_seq }
    }
}

impl vstd::std_specs::convert::FromSpecImpl<UcrsObservedAtWireSerde> for UcrsObservedAtWire {
    open spec fn obeys_from_spec() -> bool {
        true
    }

    open spec fn from_spec(s: UcrsObservedAtWireSerde) -> UcrsObservedAtWire {
        UcrsObservedAtWire { wall_ms: s.wall_ms, ucrs_seq: s.ucrs_seq }
    }
}

/// Law: the observation stamp survives the trip to its wire form and back, in both
/// directions, and distinct admissibility tokens stay distinct on the wire.
pub proof fn lemma_wire_conversions_round_trip(
    stamp: UcrsObservedAtWire,
    wire: UcrsObservedAtWireSerde,
    a: AdmissibilityToken,
    b: AdmissibilityToken,
)
    ensures
        <UcrsObservedAtWire as vstd::std_specs::convert::FromSpec<UcrsObservedAtWireSerde>>::from_spec(
            <UcrsObservedAtWireSerde as vstd::std_specs::convert::FromSpec<UcrsObservedAtWire>>::from_spec(stamp),
        ) == stamp,
        <UcrsObservedAtWireSerde as vstd::std_specs::convert::FromSpec<UcrsObservedAtWire>>::from_spec(
            <UcrsObservedAtWire as vstd::std_specs::convert::FromSpec<UcrsObservedAtWireSerde>>::from_spec(wire),
        ) == wire,
        admissibility_wire_of(a) == admissibility_wire_of(b) ==> a == b,
{
}

/// Wire for a gate transition verdict (telemetry export only); the dual-ledger joule values
/// ride on the host's serialised copy.
#[derive(Debug)]
pub struct TransitionEvidenceWire {
    pub catalog_id: String,
    pub admissibility: AdmissibilityWire,
    pub observed_at: Option<UcrsObservedAtWireSerde>,
    pub axiom_anchor: Option<String>,
    pub commissioned_by: Option<CreditCommissionParty>,
    pub executed_by: Option<CreditExecutorParty>,
    pub principal_named: Option<PrincipalNamedParty>,
    pub git_author: Option<PrincipalNamedParty>,
    pub pr_principal: Option<PrincipalNamedParty>,
    pub commit_stamp: Option<PrincipalNamedParty>,
}

/// A public principal or git name is present while the executor is erased.
pub open spec fn erases_executor(w: TransitionEvidenceWire) -> bool {
    (w.principal_named is Some || w.git_author is Some || w.pr_principal is Some
        || w.commit_stamp is Some) && w.executed_by is None
}

impl TransitionEvidenceWire {
    /// Stamp-shape refuse: a public principal/git name with the executor omitted.
    /// The host git wrap remains unwired — this is shape refuse, not wrap.
    pub fn refuses_executor_erasure(&self) -> (r: bool)
        ensures
            r == erases_executor(*self),
    {
        let named = self.principal_named.is_some() || self.git_author.is_some()
            || self.pr_principal.is_some() || self.commit_stamp.is_some();
        named && self.executed_by.is_none()
    }

    /// Crate-root export is the scan surface; the git-author wrap stays unwired.
    pub fn crate_root_export_is_not_git_wrap(&self) -> (r: bool)
        ensures
            r == erases_executor(*self),
    {
        self.refuses_executor_erasure() && !agent_loop_07_remainder_pin().git_author_wrap_wired
    }
}

fn owned(s: &str) -> (r: String)
    ensures
        r@ == s@,
{
    s.to_owned()
}

/// Live COMPLETE-path consume — refuse a principal/git stamp shape without executor.
pub fn complete_stamp_shape_live_consume(wire: &TransitionEvidenceWire) -> (r: Result<(), String>)
    ensures
        erases_executor(*wire) ==> (r matches Err(e) && e@
            == "COMPLETE stamp-shape live consume refused executor erasure (git/PR wrap stays unwired)"@),
        !erases_executor(*wire) ==> r is Ok,
{
    if wire.refuses_executor_erasure() {
        return Err(owned("COMPLETE stamp-shape live consume refused executor erasure (git/PR wrap stays unwired)"));
    }
    if agent_loop_07_remainder_row_closed() {
        return Err(owned("overclaim: AGENT-LOOP-07 remainder row closed invented"));
    }
    if !agent_loop_07_principal_credit_arm_absent() {
        return Err(owned("overclaim: principal-side credit arm wired invented"));
    }
    Ok(())
}

/// The credit that travels: only on durable identity-class transitions.
pub open spec fn credit_on_wire(
    evidence: TransitionEvidence,
    credit: Option<DurableIdentityCreditStamp>,
) -> Option<DurableIdentityCreditStamp> {
    if evidence.catalog_id@ == CD_TRANSITION_CATALOG_ID@ {
        credit
    } else {
        None
    }
}

/// The stamp that travels: the boundary stamp wins over the evidence's own.
pub open spec fn stamp_on_wire(
    evidence: TransitionEvidence,
    stamp: Option<UcrsObservedAtWire>,
) -> Option<UcrsObservedAtWireSerde> {
    match stamp {
        Some(s) => Some(UcrsObservedAtWireSerde { wall_ms: s.wall_ms, ucrs_seq: s.ucrs_seq }),
        None => match evidence.observed_at {
            Some(s) => Some(UcrsObservedAtWireSerde { wall_ms: s.wall_ms, ucrs_seq: s.ucrs_seq }),
            None => None,
        },
    }
}

/// The named party a credit puts on the wire, if any.
pub open spec fn named_on_wire(c: Option<DurableIdentityCreditStamp>) -> Option<PrincipalNamedParty> {
    match c {
        Some(c) => Some(c.principal_named),
        None => None,
    }
}

/// The optional text equals `v` when `a` is present, and is absent otherwise.
pub open spec fn anchor_on_wire(o: Option<String>, a: Option<&'static str>) -> bool {
    match a {
        Some(a) => o matches Some(s) && s@ == a@,
        None => o is None,
    }
}

/// Attach the optional stamp, the dual-ledger axiom anchor and the identity credit at the
/// cold boundary (no hot-path clock). The boundary `stamp` wins over `evidence.observed_at`;
/// `credit` travels only on durable identity-class transitions.
pub fn transition_evidence_to_wire(
    evidence: TransitionEvidence,
    stamp: Option<UcrsObservedAtWire>,
    cost_axiom_anchor: Option<&'static str>,
    credit: Option<DurableIdentityCreditStamp>,
) -> (r: TransitionEvidenceWire)
    ensures
        r.catalog_id@ == evidence.catalog_id@,
        r.admissibility == admissibility_wire_of(evidence.admissibility),
        r.observed_at == stamp_on_wire(evidence, stamp),
        anchor_on_wire(r.axiom_anchor, cost_axiom_anchor),
        r.commissioned_by == (match credit_on_wire(evidence, credit) {
            Some(c) => Some(c.commissioned_by),
            None => None,
        }),
        r.executed_by == (match credit_on_wire(evidence, credit) {
            Some(c) => Some(c.executed_by),
            None => None,
        }),
        r.principal_named == named_on_wire(credit_on_wire(evidence, credit)),
        r.git_author == named_on_wire(credit_on_wire(evidence, credit)),
        r.pr_principal == named_on_wire(credit_on_wire(evidence, credit)),
        r.commit_stamp == named_on_wire(credit_on_wire(evidence, credit)),
{
    let identity_durable = is_durable_identity_transition(evidence.catalog_id);
    let credit_wire = if identity_durable { credit } else { None };
    let observed = match stamp {
        Some(s) => Some(UcrsObservedAtWireSerde::from(s)),
        None => match evidence.observed_at {
            Some(s) => Some(UcrsObservedAtWireSerde::from(s)),
            None => None,
        },
    };
    let axiom_anchor = match cost_axiom_anchor {
        Some(a) => Some(owned(a)),
        None => None,
    };
    let (commissioned_by, executed_by, principal_named, git_author, pr_principal, commit_stamp) =
        match credit_wire {
        Some(c) => {
            let stamp = c.public_stamp();
            (
                Some(c.commissioned_by),
                Some(c.executed_by),
                Some(c.principal_named),
                Some(stamp.git_author),
                Some(stamp.pr_principal),
                Some(stamp.commit_stamp),
            )
        },
        None => (None, None, None, None, None, None),
    };
    TransitionEvidenceWire {
        catalog_id: owned(evidence.catalog_id),
        admissibility: AdmissibilityWire::from(evidence.admissibility),
        observed_at: observed,
        axiom_anchor,
        commissioned_by,
        executed_by,
        principal_named,
        git_author,
        pr_principal,
        commit_stamp,
    }
}

/// The pinned non-claim and remainder texts carry every refusal the deepen checks for.
pub proof fn lemma_non_claim_texts()
    ensures
        seq_contains(W29_113_NON_CLAIM@, "not GREEN"@),
        seq_contains(W29_113_NON_CLAIM@, "not OP-5 PASS"@),
        seq_contains(W29_113_NON_CLAIM@, "not production_wired"@),
        seq_contains(W29_113_NON_CLAIM@, "not MASTER_RETICK"@),
        seq_contains(AGENT_LOOP_07_NON_CLAIM@, "principal stamp ≠ consciousness"@),
        seq_contains(AGENT_LOOP_07_NON_CLAIM@, "git author ≠ executed_by"@),
        seq_contains(AGENT_LOOP_07_REMAINDER_GAP@, "appropriation arm absent"@),
        seq_contains(AGENT_LOOP_07_REMAINDER_GAP@, "git/PR/author wrap unwrapped"@),
{
    reveal_strlit("not GREEN; not OP-5 PASS; not production_wired; not MASTER_RETICK");
    reveal_strlit("not GREEN");
    reveal_strlit("not OP-5 PASS");
    reveal_strlit("not production_wired");
    reveal_strlit("not MASTER_RETICK");
    reveal_strlit("principal stamp ≠ consciousness; not GREEN; not OP-5 PASS; not production_wired; not MASTER_RETICK; git author ≠ executed_by");
    reveal_strlit("principal stamp ≠ consciousness");
    reveal_strlit("git author ≠ executed_by");
    reveal_strlit("git/PR/author wrap unwrapped; principal-side appropriation arm absent");
    reveal_strlit("appropriation arm absent");
    reveal_strlit("git/PR/author wrap unwrapped");
    assert(W29_113_NON_CLAIM@.subrange(0, 9) =~= "not GREEN"@);
    assert(matches_at(W29_113_NON_CLAIM@, "not GREEN"@, 0));
    assert(W29_113_NON_CLAIM@.subrange(11, 24) =~= "not OP-5 PASS"@);
    assert(matches_at(W29_113_NON_CLAIM@, "not OP-5 PASS"@, 11));
    assert(W29_113_NON_CLAIM@.subrange(26, 46) =~= "not production_wired"@);
    assert(matches_at(W29_113_NON_CLAIM@, "not production_wired"@, 26));
    assert(W29_113_NON_CLAIM@.subrange(48, 65) =~= "not MASTER_RETICK"@);
    assert(matches_at(W29_113_NON_CLAIM@, "not MASTER_RETICK"@, 48));
    assert(AGENT_LOOP_07_NON_CLAIM@.subrange(0, 31) =~= "principal stamp ≠ consciousness"@);
    assert(matches_at(AGENT_LOOP_07_NON_CLAIM@, "principal stamp ≠ consciousness"@, 0));
    assert(AGENT_LOOP_07_NON_CLAIM@.subrange(100, 124) =~= "git author ≠ executed_by"@);
    assert(matches_at(AGENT_LOOP_07_NON_CLAIM@, "git author ≠ executed_by"@, 100));
    assert(AGENT_LOOP_07_REMAINDER_GAP@.subrange(45, 69) =~= "appropriation arm absent"@);
    assert(matches_at(AGENT_LOOP_07_REMAINDER_GAP@, "appropriation arm absent"@, 45));
    assert(AGENT_LOOP_07_REMAINDER_GAP@.subrange(0, 28) =~= "git/PR/author wrap unwrapped"@);
    assert(matches_at(AGENT_LOOP_07_REMAINDER_GAP@, "git/PR/author wrap unwrapped"@, 0));
}

/// Honest fence flags for the cold-wire deepen (W29-113).
#[derive(Debug, Clone, Copy, PartialEq, Eq)]
pub struct ColdWireW29113DeepenProbe {
    pub schema_version: &'static str,
    pub cell_id: &'static str,
    pub honest_posture: &'static str,
    pub non_claim: &'static str,
    pub production_wired_claimed: bool,
    pub green_claimed: bool,
    pub op5_pass_claimed: bool,
    pub master_retick_claimed: bool,
    /// Measured deepen honesty (cell pins + dual-ledger sample).
    pub deepen_honest: bool,
}

/// Build the W29-113 cold-wire deepen honesty probe, given whether the host's dual-ledger
/// sample has both rails non-negative; it is honest exactly then.
pub fn cold_wire_w29_113_deepen_probe(dual_ledger_sample_nonnegative: bool) -> (r: ColdWireW29113DeepenProbe)
    ensures
        r.schema_version == W29_113_DEEPEN_SCHEMA_VERSION,
        r.cell_id == W29_113_CELL_ID,
        r.honest_posture == W29_113_HONEST_POSTURE,
        r.non_claim == W29_113_NON_CLAIM,
        !r.production_wired_claimed,
        !r.green_claimed,
        !r.op5_pass_claimed,
        !r.master_retick_claimed,
        r.deepen_honest == dual_ledger_sample_nonnegative,
{
    let production_wired_claimed = false;
    let green_claimed = false;
    let op5_pass_claimed = false;
    let master_retick_claimed = false;
    proof {
        lemma_non_claim_texts();
    }
    let sample_ok = dual_ledger_sample_nonnegative && str_eq(
        SPINE_EVENT_AXIOM_ANCHOR,
        "physicalSecondLaw",
    );
    let deepen_honest = str_eq(W29_113_CELL_ID, "W29-113-COLD_WIRE") && str_eq(
        W29_113_DEEPEN_SCHEMA_VERSION,
        "cold_wire_w29_113_deepen_v1",
    ) && str_eq(W29_113_HONEST_POSTURE, "COLD_WIRE_TELEMETRY_DEEPEN_ONLY")
        && !production_wired_claimed && !green_claimed && !op5_pass_claimed
        && !master_retick_claimed && str_contains(W29_113_NON_CLAIM, "not GREEN")
        && str_contains(W29_113_NON_CLAIM, "not OP-5 PASS") && str_contains(
        W29_113_NON_CLAIM,
        "not production_wired",
    ) && str_contains(W29_113_NON_CLAIM, "not MASTER_RETICK") && sample_ok;
    ColdWireW29113DeepenProbe {
        schema_version: W29_113_DEEPEN_SCHEMA_VERSION,
        cell_id: W29_113_CELL_ID,
        honest_posture: W29_113_HONEST_POSTURE,
        non_claim: W29_113_NON_CLAIM,
        production_wired_claimed,
        green_claimed,
        op5_pass_claimed,
        master_retick_claimed,
        deepen_honest,
    }
}

/// Whether the W29-113 cold-wire deepen honesty probe passes.
pub fn cold_wire_w29_113_deepen_honest(dual_ledger_sample_nonnegative: bool) -> (r: bool)
    ensures
        r == dual_ledger_sample_nonnegative,
{
    cold_wire_w29_113_deepen_probe(dual_ledger_sample_nonnegative).deepen_honest
}

/// Cold-wire fence: refuse inventing GREEN / PRODUCTION_WIRED / MASTER / OP-5.
pub fn cold_wire_honest_fence_holds(dual_ledger_sample_nonnegative: bool) -> (r: bool)
    ensures
        r == dual_ledger_sample_nonnegative,
{
    let p = cold_wire_w29_113_deepen_probe(dual_ledger_sample_nonnegative);
    p.deepen_honest && !p.green_claimed && !p.production_wired_claimed && !p.op5_pass_claimed
        && !p.master_retick_claimed && agent_loop_07_principal_credit_honest()
}

/// Honesty probe for the AGENT-LOOP-07 principal credit deepen.
#[derive(Debug, Clone, Copy, PartialEq, Eq)]
pub struct AgentLoop07PrincipalCreditProbe {
    pub schema_version: &'static str,
    pub cell_id: &'static str,
    pub honest_posture: &'static str,
    pub non_claim: &'static str,
    pub remainder_gap: &'static str,
    pub remainder_pin: AgentLoop07RemainderPin,
    pub production_wired_claimed: bool,
    pub green_claimed: bool,
    pub physics_green: bool,
    pub op5_pass_claimed: bool,
    pub master_retick_claimed: bool,
    pub consciousness_claimed: bool,
    pub remainder_row_closed: bool,
    pub git_author_wrap_wired: bool,
    pub principal_credit_arm_absent: bool,
    pub deepen_honest: bool,
}

/// The sample credit the probe exercises: commissioned by a human, executed by an agent,
/// published under the human's name.
pub open spec fn sample_credit_spec() -> DurableIdentityCreditStamp {
    DurableIdentityCreditStamp {
        commissioned_by: CreditCommissionParty::Human,
        executed_by: CreditExecutorParty::Agent,
        principal_named: PrincipalNamedParty::Human,
    }
}

/// The sample wire carries the credit and refuses nothing; erasing its executor is refused.
fn sample_wire_checks(sample_credit: DurableIdentityCreditStamp) -> (r: bool)
    requires
        sample_credit == sample_credit_spec(),
    ensures
        r,
{
    let identity = TransitionEvidence {
        catalog_id: CD_TRANSITION_CATALOG_ID,
        admissibility: AdmissibilityToken::Admissible,
        observed_at: None,
    };
    let sample_wire = transition_evidence_to_wire(identity, None, None, Some(sample_credit));
    let mut erased = transition_evidence_to_wire(identity, None, None, Some(sample_credit));
    erased.executed_by = None;
    sample_wire.commissioned_by == Some(CreditCommissionParty::Human) && sample_wire.executed_by
        == Some(CreditExecutorParty::Agent) && sample_wire.principal_named == Some(
        PrincipalNamedParty::Human,
    ) && !sample_wire.refuses_executor_erasure() && erased.refuses_executor_erasure()
        && sample_wire.git_author == Some(PrincipalNamedParty::Human) && sample_wire.pr_principal
        == Some(PrincipalNamedParty::Human) && sample_wire.commit_stamp == Some(
        PrincipalNamedParty::Human,
    )
}

/// Build the AGENT-LOOP-07 principal credit cold-wire deepen honesty probe.
pub fn agent_loop_07_principal_credit_probe() -> (r: AgentLoop07PrincipalCreditProbe)
    ensures
        r.schema_version == AGENT_LOOP_07_DEEPEN_SCHEMA_VERSION,
        r.cell_id == AGENT_LOOP_07_CELL_ID,
        r.honest_posture == AGENT_LOOP_07_HONEST_POSTURE,
        r.non_claim == AGENT_LOOP_07_NON_CLAIM,
        r.remainder_gap == AGENT_LOOP_07_REMAINDER_GAP,
        !r.remainder_pin.physics_green,
        !r.remainder_pin.remainder_row_closed,
        !r.remainder_pin.git_author_wrap_wired,
        !r.production_wired_claimed,
        !r.green_claimed,
        !r.physics_green,
        !r.op5_pass_claimed,
        !r.master_retick_claimed,
        !r.consciousness_claimed,
        !r.remainder_row_closed,
        !r.git_author_wrap_wired,
        r.principal_credit_arm_absent,
        r.deepen_honest,
{
    let remainder_pin = agent_loop_07_remainder_pin();
    let production_wired_claimed = false;
    let green_claimed = false;
    let physics_green = remainder_pin.physics_green;
    let op5_pass_claimed = false;
    let master_retick_claimed = false;
    let consciousness_claimed = false;
    let remainder_row_closed = remainder_pin.remainder_row_closed;
    let git_author_wrap_wired = remainder_pin.git_author_wrap_wired;
    let principal_credit_arm_absent = agent_loop_07_principal_credit_arm_absent();
    let sample_credit = DurableIdentityCreditStamp {
        commissioned_by: CreditCommissionParty::Human,
        executed_by: CreditExecutorParty::Agent,
        principal_named: PrincipalNamedParty::Human,
    };
    proof {
        lemma_non_claim_texts();
    }
    let arm = sample_credit.appropriation_arm();
    let deepen_honest = str_eq(AGENT_LOOP_07_CELL_ID, "AGENT-LOOP-07-PRINCIPAL-CREDIT") && str_eq(
        AGENT_LOOP_07_DEEPEN_SCHEMA_VERSION,
        "cold_wire_agent_loop_07_v1",
    ) && str_eq(AGENT_LOOP_07_HONEST_POSTURE, "COLD_WIRE_PRINCIPAL_CREDIT_DEEPEN_ONLY")
        && !production_wired_claimed && !green_claimed && !physics_green && !op5_pass_claimed
        && !master_retick_claimed && !consciousness_claimed && !remainder_row_closed
        && !git_author_wrap_wired && principal_credit_arm_absent && str_contains(
        AGENT_LOOP_07_REMAINDER_GAP,
        "appropriation arm absent",
    ) && str_contains(AGENT_LOOP_07_NON_CLAIM, "principal stamp ≠ consciousness")
        && str_contains(AGENT_LOOP_07_NON_CLAIM, "git author ≠ executed_by") && str_contains(
        AGENT_LOOP_07_REMAINDER_GAP,
        "git/PR/author wrap unwrapped",
    ) && !agent_loop_07_remainder_row_closed() && !agent_loop_07_physics_green()
        && agent_loop_07_cold_wire_posture_not_principal_wrap() && remainder_pin
        == agent_loop_07_remainder_pin() && is_durable_identity_transition(
        CD_TRANSITION_CATALOG_ID,
    ) && sample_credit.principal_differs_from_executor()
        && sample_credit.principal_credit_gap_unmeasured() && arm.git_author_executor_collision()
        && arm.collision_unmeasured() && arm.arm_absent() && sample_wire_checks(sample_credit);
    AgentLoop07PrincipalCreditProbe {
        schema_version: AGENT_LOOP_07_DEEPEN_SCHEMA_VERSION,
        cell_id: AGENT_LOOP_07_CELL_ID,
        honest_posture: AGENT_LOOP_07_HONEST_POSTURE,
        non_claim: AGENT_LOOP_07_NON_CLAIM,
        remainder_gap: AGENT_LOOP_07_REMAINDER_GAP,
        remainder_pin,
        production_wired_claimed,
        green_claimed,
        physics_green,
        op5_pass_claimed,
        master_retick_claimed,
        consciousness_claimed,
        remainder_row_closed,
        git_author_wrap_wired,
        principal_credit_arm_absent,
        deepen_honest,
    }
}

/// The error message the overclaim refusal gives for a probe, if any.
pub open spec fn overclaim_refusal(p: AgentLoop07PrincipalCreditProbe) -> Option<Seq<char>> {
    if p.physics_green {
        Some("overclaim: agent-loop-07 cold-wire is not physics GREEN"@)
    } else if p.remainder_row_closed {
        Some("overclaim: agent-loop-07 remainder row closed invented"@)
    } else if p.git_author_wrap_wired {
        Some("overclaim: git/PR/author wrap not wired on host"@)
    } else if !p.principal_credit_arm_absent {
        Some("overclaim: principal-side credit arm wired invented"@)
    } else if !p.deepen_honest {
        Some("agent-loop-07 principal credit deepen probe failed"@)
    } else {
        None
    }
}

/// Refuse a bool-flip remainder close or invented physics GREEN on the AGENT-LOOP-07 deepen.
pub fn agent_loop_07_refuse_remainder_overclaim(p: &AgentLoop07PrincipalCreditProbe) -> (r: Result<(), String>)
    ensures
        overclaim_refusal(*p) is None ==> r is Ok,
        overclaim_refusal(*p) matches Some(m) ==> (r matches Err(e) && e@ == m),
{
    if p.physics_green || agent_loop_07_physics_green() {
        return Err(owned("overclaim: agent-loop-07 cold-wire is not physics GREEN"));
    }
    if p.remainder_row_closed || agent_loop_07_remainder_row_closed() {
        return Err(owned("overclaim: agent-loop-07 remainder row closed invented"));
    }
    if p.git_author_wrap_wired {
        return Err(owned("overclaim: git/PR/author wrap not wired on host"));
    }
    if !p.principal_credit_arm_absent || !agent_loop_07_principal_credit_arm_absent() {
        return Err(owned("overclaim: principal-side credit arm wired invented"));
    }
    if !p.deepen_honest {
        return Err(owned("agent-loop-07 principal credit deepen probe failed"));
    }
    Ok(())
}

/// Whether the AGENT-LOOP-07 principal credit cold-wire deepen honesty probe passes.
pub fn agent_loop_07_principal_credit_honest() -> (r: bool)
    ensures
        r,
{
    agent_loop_07_principal_credit_probe().deepen_honest
}

/// Law: naming the party that executed is no appropriation collision — for human, agent and
/// joint execution alike — while naming any other party, or an unknown one, is a collision.
pub proof fn lemma_party_collision_table(e: CreditExecutorParty)
    ensures
        !party_differs(PrincipalNamedParty::Human, CreditExecutorParty::Human),
        !party_differs(PrincipalNamedParty::Agent, CreditExecutorParty::Agent),
        !party_differs(PrincipalNamedParty::Joint, CreditExecutorParty::Joint),
        party_differs(PrincipalNamedParty::Human, e) <==> e != CreditExecutorParty::Human,
        party_differs(PrincipalNamedParty::Agent, e) <==> e != CreditExecutorParty::Agent,
        party_differs(PrincipalNamedParty::Joint, e) <==> e != CreditExecutorParty::Joint,
        party_differs(PrincipalNamedParty::Unknown, e),
{
}

} // verus!
