use vstd::prelude::*;
use crate::share::Share;
use crate::snapshot::InvestigationSnapshot;

verus! {

/// Section 2: the commit history in numbers.
#[derive(Debug, Clone)]
pub struct CommitCrimes {
    pub total_commits: usize,
    pub commits_this_month: usize,
    pub top_contributor: Option<String>,
    pub bus_factor: usize,
    pub top_author_share_pct: Share,
}

/// The commit figures of the snapshot.
pub fn commit_crimes(snapshot: &InvestigationSnapshot) -> (c: CommitCrimes)
    ensures
        c.total_commits == snapshot.history.total_commits,
        c.commits_this_month == snapshot.history.commits_this_month,
        c.top_contributor.deep_view() == snapshot.history.top_contributor_name.deep_view(),
        c.bus_factor == snapshot.history.bus_factor,
        c.top_author_share_pct == snapshot.history.top_author_share_pct,
{
    CommitCrimes {
        total_commits: snapshot.history.total_commits,
        commits_this_month: snapshot.history.commits_this_month,
        top_contributor: crate::analyze::clone_opt(&snapshot.history.top_contributor_name),
        bus_factor: snapshot.history.bus_factor,
        top_author_share_pct: snapshot.history.top_author_share_pct,
    }
}

} // verus!
