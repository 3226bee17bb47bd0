//! The instruction-spec generator's pure parts: the records it writes and
//! the naming of the XML files a subset of forms comes from.
pub mod metadata;
pub mod model;
pub mod subset;
