//! The reference side of the translator: a machine model, an interpreter for
//! original code, and the comparisons between an original and a translated
//! run.
pub mod a64_pretty;
pub mod model;
pub mod arm64;
pub mod compare;
pub mod active_step;
pub mod trace;
pub mod code;
pub mod runtime;
pub mod explorer;
pub mod mouse;
pub mod opentui;
