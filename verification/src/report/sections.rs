use vstd::prelude::*;
use crate::snapshot::{InvestigationSnapshot, RepoMetaState};
use crate::analyze::commit::{CommitCrimes, commit_crimes};
use crate::analyze::branch::{BranchJungle, branch_jungle, count_stale, stale_cutoff, is_oldest_choice};
use crate::analyze::relics::{AncientRelics, ancient_relics};
use crate::analyze::language::{LanguageSoup, language_soup};
use crate::analyze::infra::{InfrastructureFootprints, infrastructure_footprints};

verus! {

/// Section 1: age, default branch, stars, forks, contributors and last activity.
#[derive(Debug, Clone)]
pub struct FirstImpressions {
    pub repo_age_days: i64,
    pub default_branch: String,
    pub stars: Option<u64>,
    pub forks: Option<u64>,
    pub contributor_count: usize,
    pub last_activity_secs: Option<i64>,
}

/// Sections 1 to 6 of the report.
#[derive(Debug, Clone)]
pub struct FactualSections {
    pub first_impressions: FirstImpressions,
    pub commit_crimes: CommitCrimes,
    pub branch_jungle: BranchJungle,
    pub ancient_relics: AncientRelics,
    pub language_soup: LanguageSoup,
    pub infrastructure: InfrastructureFootprints,
}

/// The stars and forks when the metadata is known.
pub open spec fn stars_spec(m: RepoMetaState) -> Option<u64> {
    match m {
        RepoMetaState::Available(meta) => Some(meta.stargazers_count),
        RepoMetaState::Unavailable => None,
    }
}

pub open spec fn forks_spec(m: RepoMetaState) -> Option<u64> {
    match m {
        RepoMetaState::Available(meta) => Some(meta.forks_count),
        RepoMetaState::Unavailable => None,
    }
}

/// Last activity is known when some branch tip is later than the epoch.
pub open spec fn last_activity_spec(last_activity_secs: i64) -> Option<i64> {
    if last_activity_secs > 0 { Some(last_activity_secs) } else { None }
}

/// First impressions show the stars and forks from the metadata when it is
/// available and nothing otherwise, and the last activity only when it is after the
/// epoch.
pub proof fn law_first_impressions_facts(m: RepoMetaState, last_activity_secs: i64)
    ensures
        match m {
            RepoMetaState::Available(meta) => stars_spec(m) == Some(meta.stargazers_count) && forks_spec(m) == Some(meta.forks_count),
            RepoMetaState::Unavailable => stars_spec(m) is None && forks_spec(m) is None,
        },
        last_activity_spec(last_activity_secs) is Some <==> last_activity_secs > 0,
        last_activity_spec(last_activity_secs) matches Some(x) ==> x == last_activity_secs,
{
}

/// Builds sections 1 to 6 from the snapshot.
pub fn build_factual_sections(snapshot: &InvestigationSnapshot, now_secs: i64) -> (s: FactualSections)
    requires
        stale_cutoff(now_secs) >= i64::MIN,
    ensures
        s.first_impressions.repo_age_days == snapshot.history.repo_age_days,
        s.first_impressions.default_branch@ == snapshot.branches.default_branch@,
        s.first_impressions.stars == stars_spec(snapshot.metadata),
        s.first_impressions.forks == forks_spec(snapshot.metadata),
        s.first_impressions.contributor_count == snapshot.history.contributor_count,
        s.first_impressions.last_activity_secs == last_activity_spec(snapshot.branches.last_activity_secs),
        s.commit_crimes.total_commits == snapshot.history.total_commits,
        s.commit_crimes.commits_this_month == snapshot.history.commits_this_month,
        s.commit_crimes.top_contributor.deep_view() == snapshot.history.top_contributor_name.deep_view(),
        s.commit_crimes.bus_factor == snapshot.history.bus_factor,
        s.commit_crimes.top_author_share_pct == snapshot.history.top_author_share_pct,
        s.branch_jungle.total == snapshot.branches.branches@.len(),
        s.branch_jungle.stale == count_stale(snapshot.branches.branches@, stale_cutoff(now_secs)),
        s.branch_jungle.active + s.branch_jungle.stale == s.branch_jungle.total,
        is_oldest_choice(snapshot.branches.branches@, s.branch_jungle.oldest_branch.deep_view()),
        s.ancient_relics.oldest_file.deep_view() == snapshot.history.oldest_file.deep_view(),
        s.ancient_relics.most_modified_file.deep_view() == snapshot.history.most_modified_file.deep_view(),
        s.ancient_relics.oldest_contributor.deep_view() == snapshot.history.oldest_contributor.deep_view(),
        s.ancient_relics.longest_living_branch.deep_view() == s.branch_jungle.oldest_branch.deep_view(),
        s.language_soup.languages@.len() == snapshot.filesystem.languages@.len(),
        forall|i: int| 0 <= i < s.language_soup.languages@.len() ==> (#[trigger] s.language_soup.languages@[i]).name@
            == snapshot.filesystem.languages@[i].0@ && s.language_soup.languages@[i].pct == snapshot.filesystem.languages@[i].1,
        s.infrastructure.docker == snapshot.filesystem.infra.docker,
        s.infrastructure.terraform == snapshot.filesystem.infra.terraform,
        s.infrastructure.github_actions == snapshot.filesystem.infra.github_actions,
        s.infrastructure.gitlab_ci == snapshot.filesystem.infra.gitlab_ci,
        s.infrastructure.circleci == snapshot.filesystem.infra.circleci,
        s.infrastructure.jenkins == snapshot.filesystem.infra.jenkins,
        s.infrastructure.dependabot == snapshot.filesystem.infra.dependabot,
        s.infrastructure.renovate == snapshot.filesystem.infra.renovate,
{
    let (stars, forks) = match &snapshot.metadata {
        RepoMetaState::Available(meta) => (Some(meta.stargazers_count), Some(meta.forks_count)),
        RepoMetaState::Unavailable => (None, None),
    };
    let last_activity_secs = if snapshot.branches.last_activity_secs > 0 {
        Some(snapshot.branches.last_activity_secs)
    } else {
        None
    };
    let first_impressions = FirstImpressions {
        repo_age_days: snapshot.history.repo_age_days,
        default_branch: snapshot.branches.default_branch.clone(),
        stars,
        forks,
        contributor_count: snapshot.history.contributor_count,
        last_activity_secs,
    };
    let jungle = branch_jungle(snapshot, now_secs);
    let relics = ancient_relics(snapshot);
    proof {
        crate::analyze::relics::law_oldest_choice_unique(
            snapshot.branches.branches@,
            relics.longest_living_branch.deep_view(),
            jungle.oldest_branch.deep_view(),
        );
    }
    FactualSections {
        first_impressions,
        commit_crimes: commit_crimes(snapshot),
        branch_jungle: jungle,
        ancient_relics: relics,
        language_soup: language_soup(snapshot),
        infrastructure: infrastructure_footprints(snapshot),
    }
}

} // verus!
