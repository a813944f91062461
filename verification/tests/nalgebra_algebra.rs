use umst_manifold::runtime::nalgebra_algebra::{
    honest_fences_hold, nalgebra_tensor_lift_depth_summary, CARTRIDGE_LIFT_DEFERRED,
    GRAD_IS_IDENTITY_STUB, MASTER_CLAIMED, MATMUL_PRODUCT_DEFERRED, NUM_DUAL_DEFERRED,
    NUM_DUAL_SCALAR_AD_LANDED, POSTURE_TAG, PRODUCTION_WIRED, SCAFFOLD_LANDED,
};

#[test]
fn lib_nalgebra_posture_metadata_locked() {
    let summary = nalgebra_tensor_lift_depth_summary();
    assert_eq!(summary.lib_id, "LIB-LEARN-F-NALGEBRA");
    assert_eq!(summary.blueprint_row, "F-09");
    assert_eq!(summary.parent_residue_id, "R-faithful-decomp-B1");
    assert_eq!(summary.slice_id, "slice-4");
    assert_eq!(summary.posture_tag, POSTURE_TAG);
    assert!(SCAFFOLD_LANDED);
    assert!(CARTRIDGE_LIFT_DEFERRED);
    assert!(!NUM_DUAL_DEFERRED);
    assert!(NUM_DUAL_SCALAR_AD_LANDED);
    assert!(!summary.production_wired);
    assert!(!summary.master_claimed);
    assert!(summary.grad_is_identity_stub);
    assert!(summary.matmul_product_deferred);
    assert!(!summary.num_dual_tensor_ad_landed);
    assert!(honest_fences_hold());
}

#[test]
fn honest_fences_refuse_green_production_master() {
    assert_ne!(POSTURE_TAG, "GREEN");
    assert_ne!(POSTURE_TAG, "PRODUCTION_WIRED");
    assert_ne!(POSTURE_TAG, "MASTER");
    assert!(!PRODUCTION_WIRED);
    assert!(!MASTER_CLAIMED);
    assert!(GRAD_IS_IDENTITY_STUB);
    assert!(MATMUL_PRODUCT_DEFERRED);
}

#[test]
fn nalgebra_depth_summary_carries_scaffold_flags() {
    let summary = nalgebra_tensor_lift_depth_summary();
    assert_eq!(summary.posture_tag, "HONEST_PARTIAL");
    assert!(summary.scaffold_landed);
    assert!(summary.cartridge_lift_deferred);
    assert!(!summary.num_dual_deferred);
}
