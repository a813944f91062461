//! Honesty posture of the signed thermodynamic admissibility margin (R2 SSOT).
//!
//! The margin itself is a host float; the library keeps its honesty fences and the
//! hard witness floor ε, written as the exact fraction 1/10000.
use vstd::prelude::*;

verus! {

/// Numerator of the hard witness floor ε = 1e-4.
pub const ADMISSIBILITY_MARGIN_EPS_NUMERATOR: u32 = 1;

/// Denominator of the hard witness floor ε = 1e-4.
pub const ADMISSIBILITY_MARGIN_EPS_DENOMINATOR: u32 = 10000;

/// Honest fence — margin SSOT is not a production wire.
pub const ADMISSIBILITY_MARGIN_PRODUCTION_WIRED: bool = false;
/// Honest fence — GREEN claims stay blocked at this surface.
pub const ADMISSIBILITY_MARGIN_GREEN_CLAIM_BLOCKED: bool = true;
/// Honest fence — MASTER retick not claimed from margin deepen.
pub const ADMISSIBILITY_MARGIN_MASTER_RETICK_ELIGIBLE: bool = false;
/// Honest fence — OP-5 not cleared from margin deepen.
pub const ADMISSIBILITY_MARGIN_OP5_CLEARED: bool = false;

/// Measured honesty posture for this write set (never invents GREEN/PRODUCTION_WIRED).
#[derive(Debug, Clone, Copy, PartialEq, Eq, Structural)]
pub struct AdmissibilityMarginHonestyProbe {
    pub production_wired: bool,
    pub green_claim_blocked: bool,
    pub master_retick_eligible: bool,
    pub op5_cleared: bool,
    pub eps_finite: bool,
    pub deepen_honest: bool,
}

/// Snapshot honesty fences + ε finiteness and positivity.
pub fn admissibility_margin_honesty_probe() -> (r: AdmissibilityMarginHonestyProbe)
    ensures
        r == (AdmissibilityMarginHonestyProbe {
            production_wired: false,
            green_claim_blocked: true,
            master_retick_eligible: false,
            op5_cleared: false,
            eps_finite: true,
            deepen_honest: true,
        }),
{
    let production_wired = ADMISSIBILITY_MARGIN_PRODUCTION_WIRED;
    let green_claim_blocked = ADMISSIBILITY_MARGIN_GREEN_CLAIM_BLOCKED;
    let master_retick_eligible = ADMISSIBILITY_MARGIN_MASTER_RETICK_ELIGIBLE;
    let op5_cleared = ADMISSIBILITY_MARGIN_OP5_CLEARED;
    let eps_finite = ADMISSIBILITY_MARGIN_EPS_DENOMINATOR > 0
        && ADMISSIBILITY_MARGIN_EPS_NUMERATOR > 0;
    let deepen_honest = !production_wired && green_claim_blocked && !master_retick_eligible
        && !op5_cleared && eps_finite;
    AdmissibilityMarginHonestyProbe {
        production_wired,
        green_claim_blocked,
        master_retick_eligible,
        op5_cleared,
        eps_finite,
        deepen_honest,
    }
}

/// Fail-closed honesty check for margin deepen.
pub fn validate_admissibility_margin_honesty() -> (r: Result<(), &'static str>)
    ensures
        r is Ok,
{
    let p = admissibility_margin_honesty_probe();
    if p.production_wired {
        return Err("admissibility_margin production_wired must stay honest false");
    }
    if !p.green_claim_blocked {
        return Err("admissibility_margin GREEN claims must stay blocked");
    }
    if p.master_retick_eligible {
        return Err("admissibility_margin must not claim MASTER retick");
    }
    if p.op5_cleared {
        return Err("admissibility_margin must not claim OP-5 cleared");
    }
    if !p.eps_finite {
        return Err("ADMISSIBILITY_MARGIN_EPS must be finite and positive");
    }
    if !p.deepen_honest {
        return Err("admissibility_margin deepen_honest failed");
    }
    Ok(())
}

} // verus!
