//! Cold-edge gate evidence contracts and SEC census surfaces, verified.
//!
//! Every census, probe and honesty check of the runtime gate is a verified
//! function whose contract states exactly what it measures; float physics and
//! serialization stay outside the library.
pub mod runtime;
pub mod text;
