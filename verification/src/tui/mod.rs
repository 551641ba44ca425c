//! The report's presentation: value formatting, styled lines, the report layout in
//! both its styled and plain forms, and the scrolling state of the interactive view.

pub mod format;
pub mod section;
pub mod report;
pub mod plain;
pub mod app;
pub mod figures;
