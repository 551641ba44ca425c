//! What the working tree holds: infrastructure configuration and languages. The
//! program lists the directories and counts the lines; these functions decide.

pub mod infra;
pub mod lang;
