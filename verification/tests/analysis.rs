use rust_to_you::cli::parse::RepoRef;
use rust_to_you::snapshot::{RepoMetaState, HistoryFacts, FilesystemFacts, InfraFootprints, InvestigationSnapshot};
use rust_to_you::repo::branches::{BranchFacts, BranchInfo};
use rust_to_you::repo::history::CommitWindow;
use rust_to_you::github::RepoMetadata;
use rust_to_you::report::sections::{FactualSections, FirstImpressions, build_factual_sections};
use rust_to_you::analyze::commit::{CommitCrimes, commit_crimes};
use rust_to_you::analyze::branch::{BranchJungle, branch_jungle};
use rust_to_you::analyze::relics::{AncientRelics, ancient_relics};
use rust_to_you::analyze::language::{LanguageSoup, LanguageEntry, language_soup};
use rust_to_you::analyze::infra::{InfrastructureFootprints, infrastructure_footprints};
use rust_to_you::analyze::vibes::{classify_vibes, VibeLabel, VibeResult};
use rust_to_you::analyze::findings::interesting_findings;
use rust_to_you::analyze::verdict::crab_verdict;

use rust_to_you::share::Share;

/// A percentage given in hundredths, as a share of 10000.
fn pct(bp: u64) -> Share {
    Share { part: bp, whole: 10000 }
}

fn no_infra() -> InfraFootprints {
    InfraFootprints {
        docker: false,
        terraform: false,
        github_actions: false,
        gitlab_ci: false,
        circleci: false,
        jenkins: false,
        dependabot: false,
        renovate: false,
    }
}

fn no_footprints() -> InfrastructureFootprints {
    InfrastructureFootprints {
        docker: false,
        terraform: false,
        github_actions: false,
        gitlab_ci: false,
        circleci: false,
        jenkins: false,
        dependabot: false,
        renovate: false,
    }
}

fn zero_history() -> HistoryFacts {
    HistoryFacts {
        total_commits: 0,
        repo_age_days: 0,
        contributor_count: 0,
        bus_factor: 0,
        top_author_share_pct: pct(0),
        window: CommitWindow { scanned: 0, capped: false },
        most_modified_file: None,
        night_pct: pct(0),
        weekend_pct: pct(0),
        business_hours_pct: pct(0),
        commits_this_month: 0,
        top_contributor_name: None,
        oldest_file: None,
        oldest_contributor: None,
        release_tag_count: 0,
    }
}

fn snapshot_with(history: HistoryFacts, infra: InfraFootprints, branches: Vec<BranchInfo>, last_activity_secs: i64) -> InvestigationSnapshot {
    InvestigationSnapshot {
        repo: RepoRef { owner: "owner".to_string(), repo: "repo".to_string() },
        metadata: RepoMetaState::Unavailable,
        history,
        branches: BranchFacts {
            default_branch: "main".to_string(),
            branches,
            last_activity_secs,
        },
        filesystem: FilesystemFacts { languages: vec![], infra },
    }
}

fn empty_relics() -> AncientRelics {
    AncientRelics { oldest_file: None, most_modified_file: None, oldest_contributor: None, longest_living_branch: None }
}

fn sections_with(repo_age_days: i64, contributor_count: usize, last: Option<i64>, crimes: CommitCrimes, stale: usize, infra: InfrastructureFootprints) -> FactualSections {
    FactualSections {
        first_impressions: FirstImpressions {
            repo_age_days,
            default_branch: "main".to_string(),
            stars: None,
            forks: None,
            contributor_count,
            last_activity_secs: last,
        },
        commit_crimes: crimes,
        branch_jungle: BranchJungle { total: stale, active: 0, stale, oldest_branch: None },
        ancient_relics: empty_relics(),
        language_soup: LanguageSoup { languages: vec![] },
        infrastructure: infra,
    }
}

fn crimes(total: usize, month: usize, bus: usize, share_bp: u64) -> CommitCrimes {
    CommitCrimes { total_commits: total, commits_this_month: month, top_contributor: None, bus_factor: bus, top_author_share_pct: pct(share_bp) }
}

#[test]
fn test_branch_jungle_stale_split() {
    let now_secs = 1000000000;
    let stale_time = now_secs - 95 * 86400;
    let active_time = now_secs - 86400;
    let branches = vec![
        BranchInfo { name: "stale-branch".to_string(), tip_time_secs: stale_time },
        BranchInfo { name: "active-branch".to_string(), tip_time_secs: active_time },
    ];
    let snapshot = snapshot_with(zero_history(), no_infra(), branches, 0);
    let jungle = branch_jungle(&snapshot, now_secs);
    assert_eq!(jungle.total, 2);
    assert_eq!(jungle.active, 1);
    assert_eq!(jungle.stale, 1);
    assert_eq!(jungle.oldest_branch.as_deref(), Some("stale-branch"));
}

#[test]
fn test_branch_jungle_empty() {
    let snapshot = snapshot_with(zero_history(), no_infra(), vec![], 0);
    let jungle = branch_jungle(&snapshot, 1000000000);
    assert_eq!(jungle.total, 0);
    assert_eq!(jungle.active, 0);
    assert_eq!(jungle.stale, 0);
    assert_eq!(jungle.oldest_branch, None);
}

#[test]
fn test_branch_jungle_tie_break() {
    let now_secs = 1000000000;
    let branch_time = now_secs - 10 * 86400;
    let branches = vec![
        BranchInfo { name: "beta-branch".to_string(), tip_time_secs: branch_time },
        BranchInfo { name: "alpha-branch".to_string(), tip_time_secs: branch_time },
    ];
    let snapshot = snapshot_with(zero_history(), no_infra(), branches, 0);
    let jungle = branch_jungle(&snapshot, now_secs);
    assert_eq!(jungle.oldest_branch.as_deref(), Some("alpha-branch"));
}

#[test]
fn branch_exactly_ninety_days_old_is_active() {
    let now_secs = 1000000000;
    let branches = vec![BranchInfo { name: "edge".to_string(), tip_time_secs: now_secs - 90 * 86400 }];
    let jungle = branch_jungle(&snapshot_with(zero_history(), no_infra(), branches, 0), now_secs);
    assert_eq!(jungle.active, 1);
    assert_eq!(jungle.stale, 0);
}

#[test]
fn test_commit_crimes_maps_fields() {
    let mut history = zero_history();
    history.total_commits = 150;
    history.repo_age_days = 10;
    history.contributor_count = 5;
    history.bus_factor = 2;
    history.top_author_share_pct = pct(6000);
    history.window = CommitWindow { scanned: 100, capped: false };
    history.most_modified_file = Some("src/main.rs".to_string());
    history.night_pct = pct(1000);
    history.weekend_pct = pct(2000);
    history.business_hours_pct = pct(7000);
    history.commits_this_month = 40;
    history.top_contributor_name = Some("Alice".to_string());
    let snapshot = snapshot_with(history, no_infra(), vec![], 0);
    let c = commit_crimes(&snapshot);
    assert_eq!(c.total_commits, 150);
    assert_eq!(c.commits_this_month, 40);
    assert_eq!(c.top_contributor.as_deref(), Some("Alice"));
    assert_eq!(c.bus_factor, 2);
    assert_eq!(c.top_author_share_pct, pct(6000));
}

#[test]
fn test_infra_footprints_mirror() {
    let infra = InfraFootprints {
        docker: true,
        terraform: false,
        github_actions: true,
        gitlab_ci: false,
        circleci: true,
        jenkins: false,
        dependabot: true,
        renovate: false,
    };
    let snapshot = snapshot_with(zero_history(), infra, vec![], 0);
    let f = infrastructure_footprints(&snapshot);
    assert!(f.docker);
    assert!(!f.terraform);
    assert!(f.github_actions);
    assert!(!f.gitlab_ci);
    assert!(f.circleci);
    assert!(!f.jenkins);
    assert!(f.dependabot);
    assert!(!f.renovate);
}

#[test]
fn test_language_soup_maps_pct() {
    let mut snapshot = snapshot_with(zero_history(), no_infra(), vec![], 0);
    snapshot.filesystem.languages = vec![("Rust".to_string(), pct(8550)), ("Markdown".to_string(), pct(1450))];
    let soup = language_soup(&snapshot);
    assert_eq!(soup.languages.len(), 2);
    assert_eq!(soup.languages[0].name, "Rust");
    assert_eq!(soup.languages[0].pct, pct(8550));
    assert_eq!(soup.languages[1].name, "Markdown");
    assert_eq!(soup.languages[1].pct, pct(1450));
}

fn relics_snapshot(branches: Vec<BranchInfo>, oldest_file: Option<String>, oldest_contributor: Option<String>, most_modified: Option<String>) -> InvestigationSnapshot {
    let mut h = zero_history();
    h.oldest_file = oldest_file;
    h.oldest_contributor = oldest_contributor;
    h.most_modified_file = most_modified;
    snapshot_with(h, no_infra(), branches, 0)
}

#[test]
fn test_longest_living_branch() {
    let branches = vec![
        BranchInfo { name: "active-branch".to_string(), tip_time_secs: 2000 },
        BranchInfo { name: "old-branch".to_string(), tip_time_secs: 1000 },
    ];
    let snapshot = relics_snapshot(branches, Some("oldest.txt".to_string()), Some("Alice".to_string()), Some("most_modified.txt".to_string()));
    let relics = ancient_relics(&snapshot);
    assert_eq!(relics.oldest_file.as_deref(), Some("oldest.txt"));
    assert_eq!(relics.most_modified_file.as_deref(), Some("most_modified.txt"));
    assert_eq!(relics.oldest_contributor.as_deref(), Some("Alice"));
    assert_eq!(relics.longest_living_branch.as_deref(), Some("old-branch"));
}

#[test]
fn test_relics_empty_branches() {
    let snapshot = relics_snapshot(vec![], None, None, None);
    let relics = ancient_relics(&snapshot);
    assert_eq!(relics.oldest_file, None);
    assert_eq!(relics.most_modified_file, None);
    assert_eq!(relics.oldest_contributor, None);
    assert_eq!(relics.longest_living_branch, None);
}

fn sections_snapshot(metadata: RepoMetaState, branches: Vec<BranchInfo>, last_activity_secs: i64) -> InvestigationSnapshot {
    let mut h = zero_history();
    h.total_commits = 100;
    h.repo_age_days = 365;
    h.contributor_count = 12;
    h.bus_factor = 3;
    h.top_author_share_pct = pct(4500);
    h.window = CommitWindow { scanned: 100, capped: false };
    h.most_modified_file = Some("main.rs".to_string());
    h.night_pct = pct(1000);
    h.weekend_pct = pct(1500);
    h.business_hours_pct = pct(7500);
    h.commits_this_month = 25;
    h.top_contributor_name = Some("Alice".to_string());
    h.oldest_file = Some("init.rs".to_string());
    h.oldest_contributor = Some("Bob".to_string());
    let mut infra = no_infra();
    infra.docker = true;
    infra.github_actions = true;
    InvestigationSnapshot {
        repo: RepoRef { owner: "owner".to_string(), repo: "repo".to_string() },
        metadata,
        history: h,
        branches: BranchFacts { default_branch: "develop".to_string(), branches, last_activity_secs },
        filesystem: FilesystemFacts { languages: vec![("Rust".to_string(), pct(10000))], infra },
    }
}

#[test]
fn test_first_impressions_available() {
    let metadata = RepoMetaState::Available(RepoMetadata {
        stargazers_count: 100,
        forks_count: 50,
        description: None,
        topics: vec![],
        default_branch: "develop".to_string(),
        pushed_at: None,
        created_at: None,
        size: 0,
    });
    let snapshot = sections_snapshot(metadata, vec![], 123456789);
    let sections = build_factual_sections(&snapshot, 123456789);
    let fi = sections.first_impressions;
    assert_eq!(fi.repo_age_days, 365);
    assert_eq!(fi.default_branch, "develop");
    assert_eq!(fi.stars, Some(100));
    assert_eq!(fi.forks, Some(50));
    assert_eq!(fi.contributor_count, 12);
    assert_eq!(fi.last_activity_secs, Some(123456789));
}

#[test]
fn test_first_impressions_unavailable() {
    let snapshot = sections_snapshot(RepoMetaState::Unavailable, vec![], 0);
    let sections = build_factual_sections(&snapshot, 123456789);
    let fi = sections.first_impressions;
    assert_eq!(fi.stars, None);
    assert_eq!(fi.forks, None);
    assert_eq!(fi.last_activity_secs, None);
}

#[test]
fn test_build_factual_sections_full() {
    let now_secs = 1000000000;
    let branches = vec![BranchInfo { name: "stale".to_string(), tip_time_secs: now_secs - 95 * 86400 }];
    let snapshot = sections_snapshot(RepoMetaState::Unavailable, branches, now_secs - 95 * 86400);
    let sections = build_factual_sections(&snapshot, now_secs);
    assert_eq!(sections.branch_jungle.total, 1);
    assert_eq!(sections.branch_jungle.stale, 1);
    assert_eq!(sections.branch_jungle.active, 0);
    assert_eq!(sections.commit_crimes.total_commits, 100);
    assert_eq!(sections.ancient_relics.oldest_file.as_deref(), Some("init.rs"));
    assert_eq!(sections.language_soup.languages[0].name, "Rust");
    assert!(sections.infrastructure.docker);
    assert!(!sections.infrastructure.terraform);
}

fn vibe_history() -> HistoryFacts {
    let mut h = zero_history();
    h.total_commits = 10;
    h.repo_age_days = 10;
    h.contributor_count = 2;
    h.bus_factor = 1;
    h.top_author_share_pct = pct(5000);
    h.window = CommitWindow { scanned: 10, capped: false };
    h
}

#[test]
fn test_vibe_solo_wizard() {
    let mut history = vibe_history();
    history.top_author_share_pct = pct(7500);
    history.contributor_count = 3;
    history.bus_factor = 1;
    history.top_contributor_name = Some("Gandalf".to_string());
    let snapshot = snapshot_with(history, no_infra(), vec![], 1700000000);
    let mut c = crimes(10, 0, 1, 7500);
    c.top_contributor = Some("Gandalf".to_string());
    let sections = sections_with(10, 3, Some(1700000000), c, 0, no_footprints());
    let result = classify_vibes(&snapshot, &sections, 1700000000);
    assert_eq!(result.primary, VibeLabel::SoloWizard);
    assert_eq!(result.primary_score, 7);
    assert_eq!(result.evidence.len(), 3);
    assert!(result.evidence[0].vi.contains("Gandalf"));
    assert!(result.evidence[0].en.contains("Gandalf"));
}

#[test]
fn solo_wizard_evidence_text() {
    let mut history = vibe_history();
    history.top_author_share_pct = pct(7500);
    history.contributor_count = 3;
    history.top_contributor_name = Some("Gandalf".to_string());
    let snapshot = snapshot_with(history, no_infra(), vec![], 1700000000);
    let sections = sections_with(10, 3, Some(1700000000), crimes(10, 0, 1, 7500), 0, no_footprints());
    let result = classify_vibes(&snapshot, &sections, 1700000000);
    assert_eq!(result.evidence[0].en, "Top author Gandalf contributed 75.0% of all commits");
    assert_eq!(result.evidence[1].en, "Only 3 contributors ever");
    assert_eq!(result.evidence[2].en, "Bus factor 1 — Gandalf owns 75.0% ☠️");
}

#[test]
fn test_vibe_chaotic_good_fallback() {
    let mut history = vibe_history();
    history.repo_age_days = 1200;
    history.contributor_count = 9;
    history.bus_factor = 3;
    history.release_tag_count = 1;
    let snapshot = snapshot_with(history, no_infra(), vec![], 1700000000);
    let sections = sections_with(1200, 9, Some(1700000000), crimes(10, 0, 3, 5000), 0, no_footprints());
    let result = classify_vibes(&snapshot, &sections, 1700000000);
    assert_eq!(result.primary, VibeLabel::ChaoticGood);
}

#[test]
fn test_vibe_ancient_temple() {
    let mut history = vibe_history();
    history.repo_age_days = 2000;
    history.release_tag_count = 5;
    history.contributor_count = 9;
    history.bus_factor = 3;
    let snapshot = snapshot_with(history, no_infra(), vec![], 1700000000);
    let sections = sections_with(2000, 9, Some(1700000000), crimes(100, 0, 3, 3000), 0, no_footprints());
    let result = classify_vibes(&snapshot, &sections, 1700000000);
    assert_eq!(result.primary, VibeLabel::AncientTemple);
    assert_eq!(result.primary_score, 4);
}

#[test]
fn test_vibe_corporate_fortress() {
    let mut history = vibe_history();
    history.repo_age_days = 2000;
    history.contributor_count = 12;
    history.bus_factor = 4;
    history.business_hours_pct = pct(8500);
    let mut infra = no_infra();
    infra.github_actions = true;
    infra.docker = true;
    infra.terraform = true;
    let snapshot = snapshot_with(history, infra, vec![], 1700000000);
    let mut f = no_footprints();
    f.docker = true;
    f.terraform = true;
    f.github_actions = true;
    let sections = sections_with(2000, 12, Some(1700000000), crimes(100, 0, 4, 2000), 0, f);
    let result = classify_vibes(&snapshot, &sections, 1700000000);
    assert_eq!(result.primary, VibeLabel::CorporateFortress);
    assert_eq!(result.primary_score, 7);
}

#[test]
fn test_vibe_open_source_kingdom() {
    let mut history = vibe_history();
    history.repo_age_days = 2000;
    history.contributor_count = 35;
    history.top_author_share_pct = pct(2500);
    history.bus_factor = 10;
    let snapshot = snapshot_with(history, no_infra(), vec![], 1700000000);
    let sections = sections_with(2000, 35, Some(1700000000), crimes(1000, 10, 10, 2500), 0, no_footprints());
    let result = classify_vibes(&snapshot, &sections, 1700000000);
    assert_eq!(result.primary, VibeLabel::OpenSourceKingdom);
    assert_eq!(result.primary_score, 6);
}

#[test]
fn test_vibe_startup_goblin() {
    let mut history = vibe_history();
    history.repo_age_days = 500;
    history.commits_this_month = 60;
    history.contributor_count = 6;
    history.bus_factor = 3;
    let snapshot = snapshot_with(history, no_infra(), vec![], 1700000000);
    let sections = sections_with(500, 6, Some(1700000000), crimes(100, 60, 3, 3000), 0, no_footprints());
    let result = classify_vibes(&snapshot, &sections, 1700000000);
    assert_eq!(result.primary, VibeLabel::StartupGoblin);
    assert_eq!(result.primary_score, 6);
}

#[test]
fn test_vibe_sleep_deprived_startup() {
    let mut history = vibe_history();
    history.repo_age_days = 500;
    history.commits_this_month = 60;
    history.contributor_count = 6;
    history.bus_factor = 3;
    history.night_pct = pct(3000);
    let snapshot = snapshot_with(history, no_infra(), vec![], 1700000000);
    let sections = sections_with(500, 6, Some(1700000000), crimes(100, 60, 3, 3000), 0, no_footprints());
    let result = classify_vibes(&snapshot, &sections, 1700000000);
    assert_eq!(result.primary, VibeLabel::SleepDeprivedStartup);
    assert_eq!(result.primary_score, 9);
}

#[test]
fn test_vibe_chaotic_good_positive() {
    let mut history = vibe_history();
    history.repo_age_days = 2000;
    history.contributor_count = 9;
    history.bus_factor = 3;
    history.release_tag_count = 0;
    let snapshot = snapshot_with(history, no_infra(), vec![], 1700000000);
    let mut sections = sections_with(2000, 9, Some(1700000000), crimes(100, 0, 3, 3000), 20, no_footprints());
    sections.branch_jungle = BranchJungle { total: 20, active: 0, stale: 20, oldest_branch: None };
    let result = classify_vibes(&snapshot, &sections, 1700000000);
    assert_eq!(result.primary, VibeLabel::ChaoticGood);
    assert_eq!(result.primary_score, 5);
}

#[test]
fn test_vibe_tie_break() {
    let mut history = vibe_history();
    history.repo_age_days = 1500;
    history.commits_this_month = 0;
    history.contributor_count = 1;
    history.bus_factor = 1;
    history.release_tag_count = 0;
    history.night_pct = pct(3000);
    let snapshot = snapshot_with(history, no_infra(), vec![], 1700000000);
    let sections = sections_with(1500, 1, Some(1700000000), crimes(10, 0, 1, 5000), 0, no_footprints());
    let result = classify_vibes(&snapshot, &sections, 1700000000);
    assert_eq!(result.primary, VibeLabel::SleepDeprivedStartup);
    assert_eq!(result.primary_score, 4);
}

#[test]
fn test_vibe_runner_up() {
    let mut history = vibe_history();
    history.repo_age_days = 2000;
    history.contributor_count = 35;
    history.top_author_share_pct = pct(2500);
    history.bus_factor = 10;
    history.release_tag_count = 5;
    let snapshot = snapshot_with(history, no_infra(), vec![], 1700000000);
    let sections = sections_with(2000, 35, Some(1700000000), crimes(1000, 10, 10, 2500), 0, no_footprints());
    let result = classify_vibes(&snapshot, &sections, 1700000000);
    assert_eq!(result.primary, VibeLabel::OpenSourceKingdom);
    assert_eq!(result.runner_up, Some(VibeLabel::AncientTemple));
}

#[test]
fn test_vibe_empty_no_panic() {
    let snapshot = InvestigationSnapshot {
        repo: RepoRef { owner: "".to_string(), repo: "".to_string() },
        metadata: RepoMetaState::Unavailable,
        history: zero_history(),
        branches: BranchFacts { default_branch: "".to_string(), branches: vec![], last_activity_secs: 0 },
        filesystem: FilesystemFacts { languages: vec![], infra: no_infra() },
    };
    let mut sections = sections_with(0, 0, None, crimes(0, 0, 0, 0), 0, no_footprints());
    sections.first_impressions.default_branch = "".to_string();
    let result = classify_vibes(&snapshot, &sections, 0);
    assert_eq!(result.primary, VibeLabel::ChaoticGood);
}

#[test]
fn vibe_below_minimum_falls_back_and_never_names_primary_as_runner_up() {
    let mut history = vibe_history();
    history.repo_age_days = 1200;
    history.contributor_count = 9;
    history.bus_factor = 3;
    history.release_tag_count = 1;
    let snapshot = snapshot_with(history, no_infra(), vec![], 1700000000);
    let sections = sections_with(1200, 9, Some(1700000000), crimes(10, 0, 3, 5000), 0, no_footprints());
    let result = classify_vibes(&snapshot, &sections, 1700000000);
    assert_eq!(result.primary, VibeLabel::ChaoticGood);
    assert_eq!(result.primary_score, 2);
    assert_ne!(result.runner_up, Some(VibeLabel::ChaoticGood));
    assert_eq!(result.evidence.len(), 2);
}

#[test]
fn vibe_display_names() {
    let d = VibeLabel::SoloWizard.display();
    assert_eq!(d.vi, "🧙 Solo Wizard / Phù thủy đơn độc");
    assert_eq!(d.en, d.vi);
    assert_eq!(VibeLabel::ChaoticGood.display().en, "🔥 Chaotic Good / Hỗn loạn nhưng tốt bụng");
}

#[test]
fn test_findings_bus_factor_and_no_ci() {
    let mut history = vibe_history();
    history.bus_factor = 1;
    history.top_author_share_pct = pct(4000);
    history.top_contributor_name = Some("Alice".to_string());
    let snapshot = snapshot_with(history, no_infra(), vec![], 0);
    let mut c = crimes(10, 0, 1, 4000);
    c.top_contributor = Some("Alice".to_string());
    let sections = sections_with(10, 2, None, c, 0, no_footprints());
    let vibe = VibeResult { primary: VibeLabel::ChaoticGood, primary_score: 5, evidence: vec![], runner_up: Some(VibeLabel::SoloWizard) };
    let res = interesting_findings(&snapshot, &sections, &vibe);
    assert_eq!(res.len(), 3);
    assert_eq!(res[0].weight, 100);
    assert_eq!(res[1].weight, 80);
    assert_eq!(res[2].weight, 5);
    assert!(res[0].text.vi.contains("Alice"));
    assert!(res[2].text.vi.contains("Solo Wizard"));
}

#[test]
fn findings_capped_at_six_heaviest_first() {
    let mut history = vibe_history();
    history.bus_factor = 1;
    history.top_author_share_pct = pct(9000);
    history.night_pct = pct(4000);
    history.repo_age_days = 3650;
    let snapshot = snapshot_with(history, no_infra(), vec![], 0);
    let sections = sections_with(3650, 2, None, crimes(10, 0, 1, 9000), 20, no_footprints());
    let vibe = VibeResult { primary: VibeLabel::SoloWizard, primary_score: 7, evidence: vec![], runner_up: Some(VibeLabel::AncientTemple) };
    let res = interesting_findings(&snapshot, &sections, &vibe);
    let weights: Vec<u32> = res.iter().map(|f| f.weight).collect();
    assert_eq!(weights, vec![100, 95, 80, 70, 60, 50]);
    assert_eq!(res[1].text.en, "Unknown dominates contribution with 90.0% of all commits.");
    assert_eq!(res[5].text.en, "The project has been active for 10 years.");
}

#[test]
fn test_verdict_healthy() {
    let mut history = vibe_history();
    history.bus_factor = 3;
    history.top_author_share_pct = pct(3000);
    history.release_tag_count = 5;
    let mut infra = no_infra();
    infra.github_actions = true;
    let snapshot = snapshot_with(history, infra, vec![], 1700000000);
    let mut f = no_footprints();
    f.github_actions = true;
    let sections = sections_with(10, 5, Some(1700000000), crimes(10, 0, 3, 3000), 0, f);
    let verdict = crab_verdict(&snapshot, &sections, 1700000000);
    assert!(verdict.overall_label.vi.contains("Healthy"));
    assert!(verdict.risks.is_empty());
    assert!(!verdict.strengths.is_empty());
}

#[test]
fn test_verdict_haunted() {
    let mut history = vibe_history();
    history.bus_factor = 1;
    history.top_author_share_pct = pct(8500);
    let snapshot = snapshot_with(history, no_infra(), vec![], 1600000000);
    let mut sections = sections_with(10, 2, Some(1600000000), crimes(10, 0, 1, 8500), 15, no_footprints());
    sections.branch_jungle = BranchJungle { total: 0, active: 0, stale: 15, oldest_branch: None };
    let verdict = crab_verdict(&snapshot, &sections, 1700000000);
    assert!(verdict.overall_label.vi.contains("Haunted"));
    assert!(!verdict.risks.is_empty());
}

#[test]
fn verdict_needs_care_in_between() {
    let mut history = vibe_history();
    history.bus_factor = 2;
    history.top_author_share_pct = pct(5000);
    let snapshot = snapshot_with(history, no_infra(), vec![], 1700000000);
    let sections = sections_with(10, 2, Some(1700000000), crimes(10, 0, 2, 5000), 0, no_footprints());
    let verdict = crab_verdict(&snapshot, &sections, 1700000000);
    assert_eq!(verdict.overall_label.en, "Cần chăm sóc / Needs care");
    assert_eq!(verdict.risks.len(), 1);
    assert_eq!(verdict.strengths.len(), 1);
    assert_eq!(verdict.risks[0].en, "No automated CI/CD safety net increases regression risks.");
}
