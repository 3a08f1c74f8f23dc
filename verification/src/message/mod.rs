//! The messages a chat carries.

pub mod model;
pub mod payload;
