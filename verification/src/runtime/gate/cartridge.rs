//! `GateCartridge` honesty posture — cold-edge witness for transition admissibility.
//!
//! The host Clausius–Duhem cartridge computes on floats outside the library; this module
//! keeps the cartridge marker and its honesty fences.
use vstd::prelude::*;
use crate::text::str_eq;

verus! {

/// Cell id for this deepen write set.
pub const GATE_CARTRIDGE_CELL_ID: &'static str = "W29-112-CARTRIDGE";

/// Honest posture tag — host-CD cold witness, not production wire.
pub const GATE_CARTRIDGE_POSTURE_TAG: &'static str =
    "runtime-gate-cartridge-host-cd-witness-not-production";

/// Honest fence — host-CD cartridge is not a production wire.
pub const GATE_CARTRIDGE_PRODUCTION_WIRED: bool = false;
/// Honest fence — GREEN claims stay blocked at this surface.
pub const GATE_CARTRIDGE_GREEN_CLAIM_BLOCKED: bool = true;
/// Honest fence — MASTER retick not claimed from cartridge deepen.
pub const GATE_CARTRIDGE_MASTER_RETICK_ELIGIBLE: bool = false;
/// Honest fence — OP-5 not cleared from cartridge deepen.
pub const GATE_CARTRIDGE_OP5_CLEARED: bool = false;
/// Honest measured fact — the CD cartridge sources host CD, not a concrete cartridge.
pub const GATE_CARTRIDGE_HOST_CD_ONLY: bool = true;
/// Honest measured fact — concrete-cartridge-backed evidence not claimed here.
pub const GATE_CARTRIDGE_CONCRETE_BACKED: bool = false;

/// Clausius–Duhem transition cartridge — first gate cartridge witness (host CD only).
#[derive(Debug, Clone, Copy, Default)]
pub struct CdTransitionCartridge;

/// Measured honesty posture for this write set (never invents GREEN/PRODUCTION_WIRED).
#[derive(Debug, Clone, Copy, PartialEq, Eq)]
pub struct GateCartridgeHonestyProbe {
    pub cell_id: &'static str,
    pub posture_tag: &'static str,
    pub production_wired: bool,
    pub green_claim_blocked: bool,
    pub master_retick_eligible: bool,
    pub op5_cleared: bool,
    pub host_cd_only: bool,
    pub concrete_backed: bool,
    pub deepen_honest: bool,
}

/// Snapshot honesty fences for this cartridge surface.
pub fn gate_cartridge_honesty_probe() -> (r: GateCartridgeHonestyProbe)
    ensures
        r.cell_id == GATE_CARTRIDGE_CELL_ID,
        r.posture_tag == GATE_CARTRIDGE_POSTURE_TAG,
        !r.production_wired,
        r.green_claim_blocked,
        !r.master_retick_eligible,
        !r.op5_cleared,
        r.host_cd_only,
        !r.concrete_backed,
        r.deepen_honest,
{
    let production_wired = GATE_CARTRIDGE_PRODUCTION_WIRED;
    let green_claim_blocked = GATE_CARTRIDGE_GREEN_CLAIM_BLOCKED;
    let master_retick_eligible = GATE_CARTRIDGE_MASTER_RETICK_ELIGIBLE;
    let op5_cleared = GATE_CARTRIDGE_OP5_CLEARED;
    let host_cd_only = GATE_CARTRIDGE_HOST_CD_ONLY;
    let concrete_backed = GATE_CARTRIDGE_CONCRETE_BACKED;
    let deepen_honest = str_eq(GATE_CARTRIDGE_CELL_ID, "W29-112-CARTRIDGE") && str_eq(
        GATE_CARTRIDGE_POSTURE_TAG,
        "runtime-gate-cartridge-host-cd-witness-not-production",
    ) && !production_wired && green_claim_blocked && !master_retick_eligible && !op5_cleared
        && host_cd_only && !concrete_backed;
    GateCartridgeHonestyProbe {
        cell_id: GATE_CARTRIDGE_CELL_ID,
        posture_tag: GATE_CARTRIDGE_POSTURE_TAG,
        production_wired,
        green_claim_blocked,
        master_retick_eligible,
        op5_cleared,
        host_cd_only,
        concrete_backed,
        deepen_honest,
    }
}

/// Fail-closed honesty check for cartridge deepen.
pub fn validate_gate_cartridge_honesty() -> (r: Result<(), &'static str>)
    ensures
        r is Ok,
{
    let p = gate_cartridge_honesty_probe();
    if !str_eq(p.cell_id, "W29-112-CARTRIDGE") {
        return Err("gate_cartridge cell_id drift");
    }
    if p.production_wired {
        return Err("gate_cartridge production_wired must stay honest false");
    }
    if !p.green_claim_blocked {
        return Err("gate_cartridge GREEN claims must stay blocked");
    }
    if p.master_retick_eligible {
        return Err("gate_cartridge must not claim MASTER retick");
    }
    if p.op5_cleared {
        return Err("gate_cartridge must not claim OP-5 cleared");
    }
    if !p.host_cd_only {
        return Err("gate_cartridge must remain host-CD-only until concrete lift measured");
    }
    if p.concrete_backed {
        return Err("gate_cartridge must not invent concrete_backed");
    }
    if !p.deepen_honest {
        return Err("gate_cartridge deepen_honest failed");
    }
    Ok(())
}

} // verus!
