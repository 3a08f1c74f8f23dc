//! Chat moderation: the messages a chat carries, and for each user a record
//! that escalates from warnings to reports to a mute.

pub mod message;
pub mod user;
