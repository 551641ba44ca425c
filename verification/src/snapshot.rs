//! The normalized facts about a repository that every analysis reads.
//!
//! Percentages are held as exact shares (`part` of `whole`).

use vstd::prelude::*;
use crate::share::Share;
use crate::cli::parse::RepoRef;
use crate::github::RepoMetadata;
use crate::repo::branches::BranchFacts;
use crate::repo::history::CommitWindow;

verus! {

/// The API metadata, or the fact that the call degraded.
#[derive(Debug, Clone)]
pub enum RepoMetaState {
    Available(RepoMetadata),
    Unavailable,
}

/// Facts from the commit history.
#[derive(Debug, Clone)]
pub struct HistoryFacts {
    pub total_commits: usize,
    pub repo_age_days: i64,
    pub contributor_count: usize,
    pub bus_factor: usize,
    pub top_author_share_pct: Share,
    pub window: CommitWindow,
    pub most_modified_file: Option<String>,
    pub night_pct: Share,
    pub weekend_pct: Share,
    pub business_hours_pct: Share,
    pub commits_this_month: usize,
    pub top_contributor_name: Option<String>,
    pub oldest_file: Option<String>,
    pub oldest_contributor: Option<String>,
    pub release_tag_count: usize,
}

/// Infrastructure configuration found in the working tree.
#[derive(Debug, Clone, Copy, PartialEq, Eq, Structural)]
pub struct InfraFootprints {
    pub docker: bool,
    pub terraform: bool,
    pub github_actions: bool,
    pub gitlab_ci: bool,
    pub circleci: bool,
    pub jenkins: bool,
    pub dependabot: bool,
    pub renovate: bool,
}

/// Facts from the working tree: each language with its share of code lines, largest
/// share first, and the infrastructure footprints.
#[derive(Debug, Clone)]
pub struct FilesystemFacts {
    pub languages: Vec<(String, Share)>,
    pub infra: InfraFootprints,
}

/// Everything collected about one repository.
#[derive(Debug, Clone)]
pub struct InvestigationSnapshot {
    pub repo: RepoRef,
    pub metadata: RepoMetaState,
    pub history: HistoryFacts,
    pub branches: BranchFacts,
    pub filesystem: FilesystemFacts,
}

} // verus!
