//! The translation pipeline: control-flow discovery, rephrasing of control
//! transfers, register checks, and the request that drives them.
pub mod arm64;
pub mod cfg;
pub mod input;
pub mod rephrase;
pub mod reg_virt;
pub mod translate;
