//! Infrastructure footprints, decided from the names in a few directories of the
//! working tree.

use vstd::prelude::*;
use vstd::string::*;
use crate::snapshot::InfraFootprints;
use crate::text::chars_of;
use crate::chars::{sub_vec, eq_vec};

verus! {

/// The entry names of the directories the detectors look at; a directory that does
/// not exist lists nothing.
#[derive(Debug, Clone)]
pub struct TreeListing {
    /// The working tree's root.
    pub root: Vec<String>,
    /// `.github`.
    pub github: Vec<String>,
    /// `.github/workflows`.
    pub workflows: Vec<String>,
    /// `.circleci`.
    pub circleci: Vec<String>,
}

pub open spec fn names(v: Seq<String>) -> Seq<Seq<char>> {
    v.map_values(|s: String| s@)
}

/// The directory lists an entry of this name.
pub open spec fn has(v: Seq<String>, name: Seq<char>) -> bool {
    names(v).contains(name)
}

/// The last index before `n` holding a `.`, or -1.
pub open spec fn last_dot(s: Seq<char>, n: int) -> int
    decreases n,
{
    if n <= 0 { -1 } else if s[n - 1] == '.' { n - 1 } else { last_dot(s, n - 1) }
}

/// A file name's extension, as `Path::extension` gives it: what follows the last
/// `.`, unless there is none or the only one starts the name.
pub open spec fn extension(s: Seq<char>) -> Option<Seq<char>> {
    let k = last_dot(s, s.len() as int);
    if k <= 0 { None } else { Some(s.subrange(k + 1, s.len() as int)) }
}

/// Some entry has this extension.
pub open spec fn has_ext(v: Seq<String>, ext: Seq<char>) -> bool {
    exists|i: int| 0 <= i < v.len() && extension(#[trigger] v[i]@) == Some(ext)
}

fn contains_name(v: &Vec<String>, name: &str) -> (r: bool)
    ensures
        r == has(v@, name@),
{
    let target = String::from_str(name);
    let mut i: usize = 0;
    while i < v.len()
        invariant
            i <= v@.len(),
            target@ == name@,
            forall|j: int| 0 <= j < i ==> v@[j]@ != name@,
        decreases v.len() - i,
    {
        if v[i] == target {
            proof {
                assert(names(v@)[i as int] == name@);
            }
            return true;
        }
        i = i + 1;
    }
    proof {
        if has(v@, name@) {
            let j = choose|j: int| 0 <= j < names(v@).len() && names(v@)[j] == name@;
            assert(v@[j]@ == name@);
        }
    }
    false
}

fn extension_of(s: &String) -> (r: Option<Vec<char>>)
    ensures
        r matches Some(e) ==> extension(s@) == Some(e@),
        r is None ==> extension(s@) is None,
{
    let cs = chars_of(s.as_str());
    let mut n: usize = cs.len();
    while n > 0 && cs[n - 1] != '.'
        invariant
            n <= cs@.len(),
            cs@ == s@,
            last_dot(s@, s@.len() as int) == last_dot(s@, n as int),
        decreases n,
    {
        n = n - 1;
    }
    if n <= 1 {
        None
    } else {
        Some(sub_vec(&cs, n, cs.len()))
    }
}

fn any_ext(v: &Vec<String>, e1: &str, e2: &str) -> (r: bool)
    ensures
        r == (has_ext(v@, e1@) || has_ext(v@, e2@)),
{
    let x1 = chars_of(e1);
    let x2 = chars_of(e2);
    let mut i: usize = 0;
    while i < v.len()
        invariant
            i <= v@.len(),
            x1@ == e1@,
            x2@ == e2@,
            forall|j: int| 0 <= j < i ==> extension(#[trigger] v@[j]@) != Some(e1@) && extension(v@[j]@) != Some(e2@),
        decreases v.len() - i,
    {
        match extension_of(&v[i]) {
            Some(e) => {
                if eq_vec(&e, &x1) || eq_vec(&e, &x2) {
                    return true;
                }
            },
            None => {},
        }
        i = i + 1;
    }
    false
}

/// A `Dockerfile` or a compose file at the root.
pub open spec fn docker_spec(t: TreeListing) -> bool {
    has(t.root@, "Dockerfile"@) || has(t.root@, "docker-compose.yml"@) || has(t.root@, "docker-compose.yaml"@)
}

/// Docker: a `Dockerfile` or a compose file at the root.
pub fn detect_docker(t: &TreeListing) -> (r: bool)
    ensures
        r == docker_spec(*t),
{
    contains_name(&t.root, "Dockerfile") || contains_name(&t.root, "docker-compose.yml")
        || contains_name(&t.root, "docker-compose.yaml")
}

/// Terraform: a `.tf` file at the root.
pub fn detect_terraform(t: &TreeListing) -> (r: bool)
    ensures
        r == has_ext(t.root@, "tf"@),
{
    any_ext(&t.root, "tf", "tf")
}

/// GitHub Actions: a `.yml` or `.yaml` workflow.
pub fn detect_github_actions(t: &TreeListing) -> (r: bool)
    ensures
        r == (has_ext(t.workflows@, "yml"@) || has_ext(t.workflows@, "yaml"@)),
{
    any_ext(&t.workflows, "yml", "yaml")
}

/// GitLab CI: `.gitlab-ci.yml` at the root.
pub fn detect_gitlab_ci(t: &TreeListing) -> (r: bool)
    ensures
        r == has(t.root@, ".gitlab-ci.yml"@),
{
    contains_name(&t.root, ".gitlab-ci.yml")
}

/// CircleCI: `.circleci/config.yml`.
pub fn detect_circleci(t: &TreeListing) -> (r: bool)
    ensures
        r == has(t.circleci@, "config.yml"@),
{
    contains_name(&t.circleci, "config.yml")
}

/// Jenkins: a `Jenkinsfile` at the root.
pub fn detect_jenkins(t: &TreeListing) -> (r: bool)
    ensures
        r == has(t.root@, "Jenkinsfile"@),
{
    contains_name(&t.root, "Jenkinsfile")
}

/// Dependabot: `.github/dependabot.yml`.
pub fn detect_dependabot(t: &TreeListing) -> (r: bool)
    ensures
        r == has(t.github@, "dependabot.yml"@),
{
    contains_name(&t.github, "dependabot.yml")
}

/// A Renovate configuration at the root or in `.github`.
pub open spec fn renovate_spec(t: TreeListing) -> bool {
    has(t.root@, "renovate.json"@) || has(t.github@, "renovate.json"@) || has(t.root@, ".renovaterc"@)
        || has(t.root@, ".renovaterc.json"@)
}

/// Renovate: `renovate.json` at the root or in `.github`, or `.renovaterc[.json]`.
pub fn detect_renovate(t: &TreeListing) -> (r: bool)
    ensures
        r == renovate_spec(*t),
{
    contains_name(&t.root, "renovate.json") || contains_name(&t.github, "renovate.json")
        || contains_name(&t.root, ".renovaterc") || contains_name(&t.root, ".renovaterc.json")
}

/// Every footprint, each from its own detector.
pub fn detect_infra(t: &TreeListing) -> (f: InfraFootprints)
    ensures
        f.docker == docker_spec(*t),
        f.terraform == has_ext(t.root@, "tf"@),
        f.github_actions == (has_ext(t.workflows@, "yml"@) || has_ext(t.workflows@, "yaml"@)),
        f.gitlab_ci == has(t.root@, ".gitlab-ci.yml"@),
        f.circleci == has(t.circleci@, "config.yml"@),
        f.jenkins == has(t.root@, "Jenkinsfile"@),
        f.dependabot == has(t.github@, "dependabot.yml"@),
        f.renovate == renovate_spec(*t),
{
    InfraFootprints {
        docker: detect_docker(t),
        terraform: detect_terraform(t),
        github_actions: detect_github_actions(t),
        gitlab_ci: detect_gitlab_ci(t),
        circleci: detect_circleci(t),
        jenkins: detect_jenkins(t),
        dependabot: detect_dependabot(t),
        renovate: detect_renovate(t),
    }
}

} // verus!
