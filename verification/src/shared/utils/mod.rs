//! Small helpers shared by the translator.
pub mod vlabel;
