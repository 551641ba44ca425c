//! View models of the report.

pub mod sections;
