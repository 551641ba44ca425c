use rust_to_you::repo::history::{
    collect_contributors, collect_bounded, is_authored_commit, repo_age_days_relative_to, commits_this_month,
    CommitRecord, WindowCommit,
};
use rust_to_you::repo::branches::{enumerate_branches, RemoteBranch};
use rust_to_you::repo::hygiene::{slot, register_live_temp, clear_live_temp, take_live_temp, is_orphan, ORPHAN_MAX_AGE_SECS};
use rust_to_you::scan::infra::{
    detect_infra, detect_docker, detect_terraform, detect_github_actions, detect_gitlab_ci, detect_circleci,
    detect_jenkins, detect_dependabot, detect_renovate, TreeListing,
};
use rust_to_you::scan::lang::language_breakdown;
use rust_to_you::share::Share;

fn rec(name: &str, email: &str, identity_name: &str, identity_email: &str, parents: usize, time: i64) -> CommitRecord {
    CommitRecord {
        author_name: name.to_string(),
        author_email: email.to_string(),
        identity_name: identity_name.to_string(),
        identity_email: identity_email.to_string(),
        parent_count: parents,
        time_secs: time,
    }
}

/// The fixture history, newest first: a merge by Alice, a dependabot commit, a
/// commit under Alice's alias (mapped to Alice), one by Bob and Alice's first.
fn fixture_commits() -> Vec<CommitRecord> {
    let t1 = 1000000000;
    vec![
        rec("Alice", "alice@example.com", "Alice", "alice@example.com", 2, t1 + 4 * 86400),
        rec("dependabot[bot]", "dependabot[bot]@users.noreply.github.com", "dependabot[bot]", "dependabot[bot]@users.noreply.github.com", 1, t1 + 3 * 86400),
        rec("Alice Alias", "alias@example.com", "Alice", "alice@example.com", 1, t1 + 2 * 86400),
        rec("Bob", "bob@example.com", "Bob", "bob@example.com", 1, t1 + 86400),
        rec("Alice", "alice@example.com", "Alice", "alice@example.com", 0, t1),
    ]
}

#[test]
fn test_bus_factor() {
    let stats = collect_contributors(&fixture_commits());
    assert_eq!(stats.contributor_count, 2);
    assert_eq!(stats.bus_factor, 1);
    assert_eq!(stats.top_author_share_pct, Share { part: 2, whole: 3 });
    assert_eq!(stats.top_author_share_pct.bp(), 6666);
    assert_eq!(stats.top_contributor_name.as_deref(), Some("Alice"));
    assert_eq!(stats.oldest_contributor.as_deref(), Some("Alice"));
}

#[test]
fn contributors_fall_back_to_bots_and_count_nothing_when_empty() {
    let bots = vec![
        rec("renovate[bot]", "r@x", "renovate[bot]", "r@x", 1, 10),
        rec("ci[bot]", "c@x", "ci[bot]", "c@x", 1, 5),
        rec("ci[bot]", "c@x", "ci[bot]", "C@X", 1, 7),
    ];
    let stats = collect_contributors(&bots);
    assert_eq!(stats.contributor_count, 2);
    assert_eq!(stats.bus_factor, 1);
    assert_eq!(stats.top_author_share_pct, Share { part: 2, whole: 3 });
    assert_eq!(stats.top_contributor_name.as_deref(), Some("ci[bot]"));
    assert_eq!(stats.oldest_contributor.as_deref(), Some("ci[bot]"));

    let none = collect_contributors(&vec![]);
    assert_eq!(none.contributor_count, 0);
    assert_eq!(none.bus_factor, 0);
    assert_eq!(none.top_author_share_pct, Share { part: 0, whole: 0 });
    assert_eq!(none.top_contributor_name, None);
}

#[test]
fn bus_factor_counts_until_half() {
    let mut commits = Vec::new();
    for (who, n) in [("a", 4), ("b", 3), ("c", 2), ("d", 1)] {
        for k in 0..n {
            commits.push(rec(who, &format!("{}@x", who), who, &format!("{}@x", who), 1, 100 + k));
        }
    }
    let stats = collect_contributors(&commits);
    assert_eq!(stats.contributor_count, 4);
    assert_eq!(stats.bus_factor, 2);
    assert_eq!(stats.top_author_share_pct, Share { part: 4, whole: 10 });
}

#[test]
fn authored_commits() {
    assert!(is_authored_commit("Alice", "alice@example.com", 1));
    assert!(!is_authored_commit("Alice", "alice@example.com", 2));
    assert!(!is_authored_commit("some-app[bot]", "x@y", 0));
    assert!(!is_authored_commit("Dependabot", "49699333+dependabot[bot]@users.noreply.github.com", 1));
    assert!(!is_authored_commit("github-actions[bot] helper", "x@y", 1));
}

fn wc(time: i64, offset: i32, parents: usize, paths: &[&str]) -> WindowCommit {
    WindowCommit {
        time_secs: time,
        offset_minutes: offset,
        parent_count: parents,
        changed_paths: paths.iter().map(|p| p.to_string()).collect(),
    }
}

#[test]
fn test_most_modified() {
    let t1 = 1000000000;
    let window = vec![
        wc(t1 + 4 * 86400, 0, 2, &[]),
        wc(t1 + 3 * 86400, 0, 1, &["hot.rs"]),
        wc(t1 + 2 * 86400, 0, 1, &["hot.rs"]),
        wc(t1 + 86400, 0, 1, &["hot.rs"]),
        wc(t1, 0, 0, &[".mailmap", "cold.rs", "hot.rs"]),
    ];
    let bounded = collect_bounded(&window, 5, 10);
    assert_eq!(bounded.most_modified_file.as_deref(), Some("hot.rs"));
    assert_eq!(bounded.window.scanned, 5);
    assert_eq!(bounded.window.capped, false);
    assert_eq!(bounded.oldest_file.as_deref(), Some(".mailmap"));

    let bounded2 = collect_bounded(&window[..2].to_vec(), 5, 2);
    assert_eq!(bounded2.most_modified_file.as_deref(), Some("hot.rs"));
    assert_eq!(bounded2.window.scanned, 2);
    assert_eq!(bounded2.window.capped, true);
}

#[test]
fn test_time_of_day_buckets() {
    let window = vec![
        wc(1704506400, 0, 1, &[]),
        wc(1704189600, 0, 1, &[]),
        wc(1704549600, 0, 1, &[]),
        wc(1704074400, 0, 0, &[]),
    ];
    let stats = collect_bounded(&window, 4, 10);
    assert_eq!(stats.night_pct, Share { part: 2, whole: 4 });
    assert_eq!(stats.weekend_pct, Share { part: 2, whole: 4 });
    assert_eq!(stats.business_hours_pct, Share { part: 1, whole: 4 });
    assert_eq!((stats.night_pct.bp(), stats.weekend_pct.bp(), stats.business_hours_pct.bp()), (5000, 5000, 2500));
    assert_eq!(stats.most_modified_file, None);
}

#[test]
fn local_time_uses_the_offset() {
    // 2024-01-01 02:00 UTC is 09:00 in UTC+7: business hours, not night.
    let stats = collect_bounded(&vec![wc(1704074400, 420, 0, &[])], 1, 10);
    assert_eq!(stats.night_pct, Share { part: 0, whole: 1 });
    assert_eq!(stats.business_hours_pct, Share { part: 1, whole: 1 });
    // An offset of a day or more is ignored.
    let stats = collect_bounded(&vec![wc(1704074400, 1440, 0, &[])], 1, 10);
    assert_eq!(stats.night_pct, Share { part: 1, whole: 1 });
    // Before the epoch: 1969-12-31 (a Wednesday) 23:00.
    let stats = collect_bounded(&vec![wc(-3600, 0, 0, &[])], 1, 10);
    assert_eq!(stats.night_pct, Share { part: 0, whole: 1 });
    assert_eq!(stats.weekend_pct, Share { part: 0, whole: 1 });
}

#[test]
fn test_repo_age() {
    let time1 = 1000000000;
    assert_eq!(repo_age_days_relative_to(time1, time1 + 25 * 86400), 25);
    assert_eq!(repo_age_days_relative_to(time1, time1 - 86400 - 5), -1);
}

#[test]
fn commits_in_the_last_thirty_days() {
    let now = 1000000000;
    let times = vec![now, now - 29 * 86400, now - 30 * 86400, now - 31 * 86400, now + 5];
    assert_eq!(commits_this_month(&times, now), 4);
}

#[test]
fn test_branch_count() {
    let remote = vec![
        RemoteBranch { name: "origin/HEAD".to_string(), tip_time_secs: 300 },
        RemoteBranch { name: "origin/feature".to_string(), tip_time_secs: 200 },
        RemoteBranch { name: "origin/master".to_string(), tip_time_secs: 300 },
    ];
    let facts = enumerate_branches("master".to_string(), &remote);
    assert_eq!(facts.branches.len(), 2);
    assert!(facts.default_branch == "master" || facts.default_branch == "main");
    assert_eq!(facts.last_activity_secs, 300);
}

#[test]
fn branches_are_deduplicated_in_order() {
    let remote = vec![
        RemoteBranch { name: "origin/a".to_string(), tip_time_secs: -5 },
        RemoteBranch { name: "upstream/b".to_string(), tip_time_secs: 7 },
        RemoteBranch { name: "a".to_string(), tip_time_secs: 99 },
    ];
    let facts = enumerate_branches("main".to_string(), &remote);
    let names: Vec<&str> = facts.branches.iter().map(|b| b.name.as_str()).collect();
    assert_eq!(names, vec!["a", "upstream/b"]);
    assert_eq!(facts.branches[0].tip_time_secs, -5);
    assert_eq!(facts.last_activity_secs, 7);
    let none = enumerate_branches("main".to_string(), &vec![]);
    assert_eq!(none.last_activity_secs, 0);
}

fn listing(root: &[&str], github: &[&str], workflows: &[&str], circleci: &[&str]) -> TreeListing {
    let v = |xs: &[&str]| xs.iter().map(|s| s.to_string()).collect::<Vec<String>>();
    TreeListing { root: v(root), github: v(github), workflows: v(workflows), circleci: v(circleci) }
}

#[test]
fn test_detect() {
    let t = listing(
        &["Dockerfile", "main.tf", ".github", ".gitlab-ci.yml", ".circleci", "Jenkinsfile", "renovate.json"],
        &["workflows", "dependabot.yml"],
        &["ci.yml"],
        &["config.yml"],
    );
    let footprints = detect_infra(&t);
    assert!(footprints.docker);
    assert!(footprints.terraform);
    assert!(footprints.github_actions);
    assert!(footprints.gitlab_ci);
    assert!(footprints.circleci);
    assert!(footprints.jenkins);
    assert!(footprints.dependabot);
    assert!(footprints.renovate);

    let empty = detect_infra(&listing(&[], &[], &[], &[]));
    assert!(!empty.docker);
    assert!(!empty.terraform);
    assert!(!empty.github_actions);
    assert!(!empty.gitlab_ci);
    assert!(!empty.circleci);
    assert!(!empty.jenkins);
    assert!(!empty.dependabot);
    assert!(!empty.renovate);
}

#[test]
fn detectors_read_names_and_extensions() {
    assert!(detect_docker(&listing(&["docker-compose.yaml"], &[], &[], &[])));
    assert!(!detect_terraform(&listing(&[".tf", "tf", "main.tfvars"], &[], &[], &[])));
    assert!(detect_terraform(&listing(&[".hidden.tf"], &[], &[], &[])));
    assert!(detect_github_actions(&listing(&[], &[], &["release.yaml"], &[])));
    assert!(!detect_github_actions(&listing(&[], &[], &["README.md"], &[])));
    assert!(!detect_gitlab_ci(&listing(&["gitlab-ci.yml"], &[], &[], &[])));
    assert!(!detect_circleci(&listing(&["config.yml"], &[], &[], &[])));
    assert!(detect_jenkins(&listing(&["Jenkinsfile"], &[], &[], &[])));
    assert!(!detect_dependabot(&listing(&["dependabot.yml"], &[], &[], &[])));
    assert!(detect_renovate(&listing(&[], &["renovate.json"], &[], &[])));
    assert!(detect_renovate(&listing(&[".renovaterc"], &[], &[], &[])));
}

#[test]
fn test_percentages() {
    let counts = vec![("Python".to_string(), 1usize), ("Rust".to_string(), 2usize), ("Text".to_string(), 0usize)];
    let breakdown = language_breakdown(&counts);
    assert_eq!(breakdown.len(), 2);
    let sum: u128 = breakdown.iter().map(|(_, p)| p.bp()).sum();
    assert!(sum <= 10000 && sum >= 9990);
    assert!(breakdown[0].1.bp() > breakdown[1].1.bp());
    assert_eq!(breakdown[0], ("Rust".to_string(), Share { part: 2, whole: 3 }));
    assert_eq!(breakdown[1], ("Python".to_string(), Share { part: 1, whole: 3 }));

    assert!(language_breakdown(&vec![]).is_empty());
    assert!(language_breakdown(&vec![("Text".to_string(), 0usize)]).is_empty());
}

#[test]
fn equal_code_keeps_the_given_order() {
    let counts = vec![("B".to_string(), 5usize), ("A".to_string(), 5usize), ("C".to_string(), 10usize)];
    let b = language_breakdown(&counts);
    let names: Vec<&str> = b.iter().map(|(n, _)| n.as_str()).collect();
    assert_eq!(names, vec!["C", "B", "A"]);
}

#[test]
fn cleanup_idempotent() {
    let mut s = slot();
    register_live_temp(&mut s, "/tmp/rust-to-you-clone-x".to_string());
    assert_eq!(take_live_temp(&mut s), Some("/tmp/rust-to-you-clone-x".to_string()));
    assert!(s.path.is_none());
    assert_eq!(take_live_temp(&mut s), None);
    register_live_temp(&mut s, "/tmp/y".to_string());
    clear_live_temp(&mut s);
    assert_eq!(take_live_temp(&mut s), None);
}

#[test]
fn sweep_orphans() {
    assert!(!is_orphan("other-dir", true, Some(ORPHAN_MAX_AGE_SECS + 1), ORPHAN_MAX_AGE_SECS));
    assert!(!is_orphan("rust-to-you-clone-fresh", true, Some(0), ORPHAN_MAX_AGE_SECS));
    assert!(is_orphan("rust-to-you-clone-fresh", true, Some(ORPHAN_MAX_AGE_SECS + 1), ORPHAN_MAX_AGE_SECS));
    assert!(is_orphan("rust-to-you-clone-edge", true, Some(ORPHAN_MAX_AGE_SECS), ORPHAN_MAX_AGE_SECS));
    assert!(!is_orphan("rust-to-you-clone-file", false, Some(ORPHAN_MAX_AGE_SECS + 1), ORPHAN_MAX_AGE_SECS));
    assert!(!is_orphan("rust-to-you-clone-future", true, None, ORPHAN_MAX_AGE_SECS));
}
