//! The investigation session and the decisions taken while collecting facts.

pub mod collect;
pub mod session;
pub mod notices;
