//! Structured transition evidence for cold-edge telemetry (catalog id + admissibility witness).
//!
//! The signed Clausius–Duhem margin is a float computed on the host; the library keeps
//! what the census logic reads of a witness: its catalog id, its admissibility token and
//! an optional UCRS observation stamp.
use vstd::prelude::*;

verus! {

/// Catalog id of the host Clausius–Duhem transition channel.
pub const CD_TRANSITION_CATALOG_ID: &'static str = "umst.gate.cd_transition";

/// W29 deepen step — honest fence + host CD evidence witnesses (no invented GREEN).
pub const W29_114_EVIDENCE_DEEPEN_STEP: &'static str = "W29-114-EVIDENCE";

/// Honest physics posture — host explain computes; continuum / production lift deferred.
pub const EVIDENCE_PHYSICS_GREEN: bool = false;

/// Honest production posture — cold-edge evidence is not production-wired.
pub const EVIDENCE_PRODUCTION_WIRED: bool = false;

/// Honest MASTER retick eligibility — always refused at this module.
pub const EVIDENCE_MASTER_RETICK_ELIGIBLE: bool = false;

/// Honest OP-5 claim — always refused at this module.
pub const EVIDENCE_OP5_CLAIMED: bool = false;

/// GREEN claim blocked — honest true while physics GREEN stays false.
pub const EVIDENCE_GREEN_CLAIM_BLOCKED: bool = true;

/// Host-side admissibility witness for transition telemetry (cold edge only).
#[derive(Debug, Clone, Copy, PartialEq, Eq, Structural)]
pub enum AdmissibilityToken {
    Admissible,
    Inadmissible,
}

/// Cold-edge wire for an optional UCRS provenance stamp.
#[derive(Debug, Clone, Copy, PartialEq, Eq, Structural)]
pub struct UcrsObservedAtWire {
    pub wall_ms: i64,
    pub ucrs_seq: u64,
}

/// Structured evidence of a gate transition, as the census reads it.
#[derive(Debug, Clone, Copy, PartialEq)]
pub struct TransitionEvidence {
    pub catalog_id: &'static str,
    pub admissibility: AdmissibilityToken,
    /// Present when cold-edge telemetry carries a UCRS observation stamp.
    pub observed_at: Option<UcrsObservedAtWire>,
}

impl TransitionEvidence {
    /// Attach a UCRS observation stamp, replacing any previous one.
    pub fn with_observed_at(self, stamp: UcrsObservedAtWire) -> (r: Self)
        ensures
            r.catalog_id == self.catalog_id,
            r.admissibility == self.admissibility,
            r.observed_at == Some(stamp),
    {
        let mut out = self;
        out.observed_at = Some(stamp);
        out
    }

    /// Whether the evidence token is admissible.
    pub fn is_admissible(&self) -> (r: bool)
        ensures
            r == (self.admissibility == AdmissibilityToken::Admissible),
    {
        self.admissibility == AdmissibilityToken::Admissible
    }
}

/// Whether a witness admits: admissible token and a non-empty catalog id.
pub open spec fn witness_admits(evidence: TransitionEvidence) -> bool {
    evidence.admissibility == AdmissibilityToken::Admissible && evidence.catalog_id@.len() > 0
}

/// Cold-edge check shared by every SEC census: the witness admits and names its channel.
pub fn cold_edge_witness_admits(evidence: &TransitionEvidence) -> (r: bool)
    ensures
        r == witness_admits(*evidence),
{
    evidence.admissibility == AdmissibilityToken::Admissible && !evidence.catalog_id.is_empty()
}

/// W29-114 honesty fence — GREEN / PRODUCTION / MASTER / OP-5 refused.
#[derive(Debug, Clone, Copy, PartialEq, Eq)]
pub struct EvidenceHonestyFence {
    pub deepen_step: &'static str,
    pub physics_green: bool,
    pub production_wired: bool,
    pub master_retick_eligible: bool,
    pub op5_claimed: bool,
    pub green_claim_blocked: bool,
}

impl EvidenceHonestyFence {
    /// Measured honesty posture for this module.
    pub fn measured() -> (r: Self)
        ensures
            r.deepen_step == W29_114_EVIDENCE_DEEPEN_STEP,
            !r.physics_green,
            !r.production_wired,
            !r.master_retick_eligible,
            !r.op5_claimed,
            r.green_claim_blocked,
    {
        EvidenceHonestyFence {
            deepen_step: W29_114_EVIDENCE_DEEPEN_STEP,
            physics_green: EVIDENCE_PHYSICS_GREEN,
            production_wired: EVIDENCE_PRODUCTION_WIRED,
            master_retick_eligible: EVIDENCE_MASTER_RETICK_ELIGIBLE,
            op5_claimed: EVIDENCE_OP5_CLAIMED,
            green_claim_blocked: EVIDENCE_GREEN_CLAIM_BLOCKED,
        }
    }

    /// Fence holds when invent flags stay false and GREEN remains blocked.
    pub fn holds(&self) -> (r: bool)
        ensures
            r == (!self.physics_green && !self.production_wired && !self.master_retick_eligible
                && !self.op5_claimed && self.green_claim_blocked && self.deepen_step@.len() > 0),
    {
        !self.physics_green && !self.production_wired && !self.master_retick_eligible
            && !self.op5_claimed && self.green_claim_blocked && !self.deepen_step.is_empty()
    }
}

/// Honesty probe for the W29-114 deepen, given the host witness of the identity transition:
/// the fence holds and the witness admits on the CD channel without a stamp.
pub fn evidence_honesty_probe(identity_witness: &TransitionEvidence) -> (r: bool)
    ensures
        r == (identity_witness.admissibility == AdmissibilityToken::Admissible
            && identity_witness.catalog_id@ == CD_TRANSITION_CATALOG_ID@
            && identity_witness.observed_at is None),
{
    let fence = EvidenceHonestyFence::measured();
    proof {
        reveal_strlit("W29-114-EVIDENCE");
    }
    if !fence.holds() {
        return false;
    }
    identity_witness.is_admissible() && crate::text::str_eq(
        identity_witness.catalog_id,
        CD_TRANSITION_CATALOG_ID,
    ) && identity_witness.observed_at.is_none()
}

} // verus!
