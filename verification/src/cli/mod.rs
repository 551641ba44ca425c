//! Command-line intake: the arguments and the repository reference parser.

pub mod args;
pub mod parse;
pub mod roundtrip;
