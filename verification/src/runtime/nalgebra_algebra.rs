//! Slice-4 `nalgebra` 3×3 tensor lift — depth summary and honesty fences.
//!
//! The 3×3 `f64` tensor carrier itself lives with the float host; the library holds the
//! scaffold's posture pins, its frozen depth summary and the honesty fence over them.
use vstd::prelude::*;

verus! {

/// LIB-LEARN-F-NALGEBRA workstream id.
pub const LIB_ID: &'static str = "LIB-LEARN-F-NALGEBRA";

/// Research blueprint row (F-09).
pub const BLUEPRINT_ROW: &'static str = "F-09";

/// Parent residue — B1 tensor production path not closed.
pub const PARENT_RESIDUE_ID: &'static str = "R-faithful-decomp-B1";

/// Slice-4 runtime nalgebra tensor lift scaffold id.
pub const SLICE_ID: &'static str = "slice-4";

/// Honest posture — 3×3 scaffold landed; cartridge lift + AD open.
pub const POSTURE_TAG: &'static str = "HONEST_PARTIAL";

/// Whether the slice-4 nalgebra scaffold module is on disk.
pub const SCAFFOLD_LANDED: bool = true;

/// Whether B1 cartridge monomorphization over `NalgebraAlgebra` is still deferred.
pub const CARTRIDGE_LIFT_DEFERRED: bool = true;

/// Whether `num-dual` σ = ∂ψ/∂ε scalar AD is deferred (it is landed, F-10).
pub const NUM_DUAL_DEFERRED: bool = false;

/// Whether scalar AD σ = ∂ψ/∂ε is landed in the continuum fence.
pub const NUM_DUAL_SCALAR_AD_LANDED: bool = true;

/// Honest fence — B1 production wire over `NalgebraAlgebra` not claimed.
pub const PRODUCTION_WIRED: bool = false;

/// Honest fence — MASTER / fleet-close tag not claimed on this scaffold.
pub const MASTER_CLAIMED: bool = false;

/// Honest fence — `grad` is an identity stub (no spatial mesh / FD stencil).
pub const GRAD_IS_IDENTITY_STUB: bool = true;

/// Honest fence — `mul` is Hadamard (component-wise), not the matrix product.
pub const MATMUL_PRODUCT_DEFERRED: bool = true;

/// Honest fence — full 3×3 tensor AD σ_ij pairing still open.
pub const NUM_DUAL_TENSOR_AD_LANDED: bool = false;

/// Continuum F-10 module anchor.
pub const NUM_DUAL_MODULE_PATH: &'static str = "umst-cartridges/crates/umst-cartridge-continuum/src/tensor_lift/num_dual_ad.rs";

/// Primary source anchor for fleet / meta hygiene.
pub const SOURCE_ANCHOR_PATH: &'static str = "umst-manifold/src/runtime/nalgebra_algebra.rs";

/// C2 design SSOT.
pub const DESIGN_DOC_PATH: &'static str = "docs/C2_TENSOR_ALGEBRA_DESIGN.md";

/// Research libs SSOT.
pub const RESEARCH_DOC_PATH: &'static str = "archived/residuals/misc-outputs-tmp/RESEARCH_LIBS_FORMAL_FIELD_CHEM_JUL2026.md";

/// Slice-4 tensor algebra over fixed 3×3 `nalgebra` fields (a marker type; its field
/// operations run on the float host).
#[derive(Debug, Clone, Copy, PartialEq, Eq)]
pub struct NalgebraAlgebra;

/// Fleet census row for LIB-NALGEBRA / F-09 hygiene.
#[derive(Debug, Clone, Copy, PartialEq, Eq)]
pub struct NalgebraTensorLiftDepthSummary {
    /// Workstream id.
    pub lib_id: &'static str,
    /// Blueprint row.
    pub blueprint_row: &'static str,
    /// Parent residue id.
    pub parent_residue_id: &'static str,
    /// Slice id.
    pub slice_id: &'static str,
    /// Posture tag.
    pub posture_tag: &'static str,
    /// Scaffold on disk.
    pub scaffold_landed: bool,
    /// Cartridge lift deferred.
    pub cartridge_lift_deferred: bool,
    /// Scalar AD deferred.
    pub num_dual_deferred: bool,
    /// Honest fence — never affirms production wire.
    pub production_wired: bool,
    /// Honest fence — MASTER tag stays false.
    pub master_claimed: bool,
    /// Honest fence — grad remains identity stub.
    pub grad_is_identity_stub: bool,
    /// Honest fence — the algebra's `mul` is Hadamard only.
    pub matmul_product_deferred: bool,
    /// Honest fence — full tensor AD pairing still open.
    pub num_dual_tensor_ad_landed: bool,
}

/// The frozen depth summary: the pins above, field by field.
pub open spec fn depth_summary_spec() -> NalgebraTensorLiftDepthSummary {
    NalgebraTensorLiftDepthSummary {
        lib_id: LIB_ID,
        blueprint_row: BLUEPRINT_ROW,
        parent_residue_id: PARENT_RESIDUE_ID,
        slice_id: SLICE_ID,
        posture_tag: POSTURE_TAG,
        scaffold_landed: true,
        cartridge_lift_deferred: true,
        num_dual_deferred: false,
        production_wired: false,
        master_claimed: false,
        grad_is_identity_stub: true,
        matmul_product_deferred: true,
        num_dual_tensor_ad_landed: false,
    }
}

/// Frozen depth summary — honest partial on the 3×3 scaffold only.
pub fn nalgebra_tensor_lift_depth_summary() -> (r: NalgebraTensorLiftDepthSummary)
    ensures
        r == depth_summary_spec(),
{
    NalgebraTensorLiftDepthSummary {
        lib_id: LIB_ID,
        blueprint_row: BLUEPRINT_ROW,
        parent_residue_id: PARENT_RESIDUE_ID,
        slice_id: SLICE_ID,
        posture_tag: POSTURE_TAG,
        scaffold_landed: SCAFFOLD_LANDED,
        cartridge_lift_deferred: CARTRIDGE_LIFT_DEFERRED,
        num_dual_deferred: NUM_DUAL_DEFERRED,
        production_wired: PRODUCTION_WIRED,
        master_claimed: MASTER_CLAIMED,
        grad_is_identity_stub: GRAD_IS_IDENTITY_STUB,
        matmul_product_deferred: MATMUL_PRODUCT_DEFERRED,
        num_dual_tensor_ad_landed: NUM_DUAL_TENSOR_AD_LANDED,
    }
}

/// The honest fence over the pins: scaffold landed, cartridge lift deferred, no production /
/// MASTER claim, grad an identity stub, matmul deferred, no tensor AD, scalar AD landed.
pub open spec fn honest_fences_spec() -> bool {
    SCAFFOLD_LANDED && CARTRIDGE_LIFT_DEFERRED && !PRODUCTION_WIRED && !MASTER_CLAIMED
        && GRAD_IS_IDENTITY_STUB && MATMUL_PRODUCT_DEFERRED && !NUM_DUAL_TENSOR_AD_LANDED
        && NUM_DUAL_SCALAR_AD_LANDED && !NUM_DUAL_DEFERRED
}

/// Honest fence probe — production / MASTER / matmul / tensor-AD claims stay false.
pub fn honest_fences_hold() -> (r: bool)
    ensures
        r == honest_fences_spec(),
        r,
{
    SCAFFOLD_LANDED && CARTRIDGE_LIFT_DEFERRED && !PRODUCTION_WIRED && !MASTER_CLAIMED
        && GRAD_IS_IDENTITY_STUB && MATMUL_PRODUCT_DEFERRED && !NUM_DUAL_TENSOR_AD_LANDED
        && NUM_DUAL_SCALAR_AD_LANDED && !NUM_DUAL_DEFERRED
}

/// The depth summary never affirms what the fences refuse: it carries the posture tag, and
/// its production, MASTER and tensor-AD fields stay false while the honest fence holds.
pub proof fn lemma_depth_summary_agrees_with_fences()
    ensures
        honest_fences_spec(),
        depth_summary_spec().posture_tag@ == POSTURE_TAG@,
        !depth_summary_spec().production_wired,
        !depth_summary_spec().master_claimed,
        !depth_summary_spec().num_dual_tensor_ad_landed,
        depth_summary_spec().grad_is_identity_stub,
        depth_summary_spec().matmul_product_deferred,
{
}

} // verus!
