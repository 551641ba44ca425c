use vstd::prelude::*;
use crate::snapshot::InvestigationSnapshot;

verus! {

/// Section 6: which infrastructure configuration the working tree holds.
#[derive(Debug, Clone, Copy, PartialEq, Eq, Structural)]
pub struct InfrastructureFootprints {
    pub docker: bool,
    pub terraform: bool,
    pub github_actions: bool,
    pub gitlab_ci: bool,
    pub circleci: bool,
    pub jenkins: bool,
    pub dependabot: bool,
    pub renovate: bool,
}

/// The footprints of the snapshot, flag for flag.
pub fn infrastructure_footprints(snapshot: &InvestigationSnapshot) -> (f: InfrastructureFootprints)
    ensures
        f.docker == snapshot.filesystem.infra.docker,
        f.terraform == snapshot.filesystem.infra.terraform,
        f.github_actions == snapshot.filesystem.infra.github_actions,
        f.gitlab_ci == snapshot.filesystem.infra.gitlab_ci,
        f.circleci == snapshot.filesystem.infra.circleci,
        f.jenkins == snapshot.filesystem.infra.jenkins,
        f.dependabot == snapshot.filesystem.infra.dependabot,
        f.renovate == snapshot.filesystem.infra.renovate,
{
    let infra = &snapshot.filesystem.infra;
    InfrastructureFootprints {
        docker: infra.docker,
        terraform: infra.terraform,
        github_actions: infra.github_actions,
        gitlab_ci: infra.gitlab_ci,
        circleci: infra.circleci,
        jenkins: infra.jenkins,
        dependabot: infra.dependabot,
        renovate: infra.renovate,
    }
}

} // verus!
