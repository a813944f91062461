//! Host-side runtime scaffolding: gate evidence contracts and the slice-4 tensor summary.
pub mod gate;
pub mod nalgebra_algebra;
