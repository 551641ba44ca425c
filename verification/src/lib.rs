//! Repository archaeology: the analysis core of an investigation report about a
//! public GitHub repository, with its contracts proved by Verus.

pub mod i18n;
pub mod text;
pub mod share;
pub mod sorting;
pub mod error;
pub mod chars;
pub mod cli;
pub mod github;
pub mod repo;
pub mod snapshot;
pub mod clock;
pub mod app;
pub mod analyze;
pub mod report;
pub mod tui;
pub mod scan;
