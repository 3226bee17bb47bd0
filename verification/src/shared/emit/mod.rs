//! Placing translated code in an executable fragment.
pub mod layout;
