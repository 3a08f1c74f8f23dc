//! Users and their moderation records.

pub mod filter;
pub mod laws;
pub mod model;
