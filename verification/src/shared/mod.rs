//! The translator proper: the instruction subset and the pipeline over it.
pub mod abi;
pub mod arm64;
pub mod emit;
pub mod platform;
pub mod trans;
pub mod trans_core;
pub mod utils;
