//! A typed view of decoded instructions and a small intermediate
//! representation that they translate to.
pub mod arm64;
