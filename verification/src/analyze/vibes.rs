//! Section 7: the repository's personality, by a weighted scoring of rules.

use vstd::prelude::*;
use crate::share::{Share, basis_points};
use vstd::string::*;
use crate::i18n::Bilingual;
use crate::snapshot::InvestigationSnapshot;
use crate::report::sections::FactualSections;
use crate::analyze::infra::InfrastructureFootprints;
use crate::analyze::rules::{Rule, RuleV, rule_view, rules_view, rules_score, rules_evidence, texts, tally, clone_bis, points_at, lemma_score_of_few};
use crate::text::{dec_nat, dec_int, pct1, push_decimal, push_int, push_pct1};

verus! {

/// The seven personalities.
#[derive(Debug, Clone, Copy, PartialEq, Eq, Structural)]
pub enum VibeLabel {
    SoloWizard,
    AncientTemple,
    CorporateFortress,
    OpenSourceKingdom,
    StartupGoblin,
    SleepDeprivedStartup,
    ChaoticGood,
}

/// The name shown for each personality (the same in both languages).
pub open spec fn label_text(l: VibeLabel) -> Seq<char> {
    match l {
        VibeLabel::SoloWizard => "🧙 Solo Wizard / Phù thủy đơn độc"@,
        VibeLabel::AncientTemple => "🏛️ Ancient Temple / Đền cổ"@,
        VibeLabel::CorporateFortress => "🏢 Corporate Fortress / Pháo đài công sở"@,
        VibeLabel::OpenSourceKingdom => "👑 Open Source Kingdom / Vương quốc mã nguồn mở"@,
        VibeLabel::StartupGoblin => "🧌 Startup Goblin / Yêu tinh khởi nghiệp"@,
        VibeLabel::SleepDeprivedStartup => "😵 Sleep-Deprived Startup / Khởi nghiệp thiếu ngủ"@,
        VibeLabel::ChaoticGood => "🔥 Chaotic Good / Hỗn loạn nhưng tốt bụng"@,
    }
}

impl VibeLabel {
    /// The bilingual display name of the personality.
    pub fn display(&self) -> (b: Bilingual)
        ensures
            b.vi@ == label_text(*self),
            b.en@ == label_text(*self),
    {
        let s = match self {
            VibeLabel::SoloWizard => "🧙 Solo Wizard / Phù thủy đơn độc",
            VibeLabel::AncientTemple => "🏛️ Ancient Temple / Đền cổ",
            VibeLabel::CorporateFortress => "🏢 Corporate Fortress / Pháo đài công sở",
            VibeLabel::OpenSourceKingdom => "👑 Open Source Kingdom / Vương quốc mã nguồn mở",
            VibeLabel::StartupGoblin => "🧌 Startup Goblin / Yêu tinh khởi nghiệp",
            VibeLabel::SleepDeprivedStartup => "😵 Sleep-Deprived Startup / Khởi nghiệp thiếu ngủ",
            VibeLabel::ChaoticGood => "🔥 Chaotic Good / Hỗn loạn nhưng tốt bụng",
        };
        Bilingual::new(s, s)
    }
}

/// Below this score the primary personality falls back to Chaotic Good.
pub const MIN_SCORE: u32 = 4;

/// The classification: the primary personality, its score and evidence, and the
/// runner-up.
#[derive(Debug, Clone)]
pub struct VibeResult {
    pub primary: VibeLabel,
    pub primary_score: u32,
    pub evidence: Vec<Bilingual>,
    pub runner_up: Option<VibeLabel>,
}

/// The signals the rules read.
#[derive(Debug, Clone, Copy, PartialEq, Eq, Structural)]
pub struct VibeSignals {
    pub contributor_count: usize,
    pub top_share: Share,
    pub bus_factor: usize,
    pub age_years: i64,
    pub days_since_last_commit: Option<i64>,
    pub release_tag_count: usize,
    pub has_ci: bool,
    pub infra_count: usize,
    pub has_bot: bool,
    pub business_hours_pct: Share,
    pub branch_count: usize,
    pub stale_branch_count: usize,
    pub commits_last_30d: usize,
    pub night_pct: Share,
}

/// Integer division rounding toward zero, as Rust divides.
pub open spec fn trunc_div(a: int, b: int) -> int {
    if a >= 0 { a / b } else { -((-a) / b) }
}

/// Whole days from `then` to `now`, 0 when `then` is later.
pub open spec fn days_between(now: i64, then: i64) -> int {
    if now - then < 0 { 0 } else { (now - then) / 86400 }
}

/// Days since the last commit, when the last activity is known.
pub open spec fn days_since_spec(sections: FactualSections, now_secs: i64) -> Option<i64> {
    match sections.first_impressions.last_activity_secs {
        Some(t) => Some(days_between(now_secs, t) as i64),
        None => None,
    }
}

/// Some CI system is configured.
pub open spec fn has_ci_spec(f: InfrastructureFootprints) -> bool {
    f.github_actions || f.gitlab_ci || f.circleci || f.jenkins
}

pub open spec fn b2n(b: bool) -> nat {
    if b { 1 } else { 0 }
}

/// How many of the eight infrastructure footprints are present.
pub open spec fn infra_count_spec(f: InfrastructureFootprints) -> nat {
    b2n(f.docker) + b2n(f.terraform) + b2n(f.github_actions) + b2n(f.gitlab_ci) + b2n(f.circleci)
        + b2n(f.jenkins) + b2n(f.dependabot) + b2n(f.renovate)
}

/// The signals of a snapshot and its sections at `now_secs`.
pub open spec fn signals_spec(snapshot: InvestigationSnapshot, sections: FactualSections, now_secs: i64) -> VibeSignals {
    VibeSignals {
        contributor_count: snapshot.history.contributor_count,
        top_share: snapshot.history.top_author_share_pct,
        bus_factor: snapshot.history.bus_factor,
        age_years: trunc_div(snapshot.history.repo_age_days as int, 365) as i64,
        days_since_last_commit: days_since_spec(sections, now_secs),
        release_tag_count: snapshot.history.release_tag_count,
        has_ci: has_ci_spec(sections.infrastructure),
        infra_count: infra_count_spec(sections.infrastructure) as usize,
        has_bot: sections.infrastructure.dependabot || sections.infrastructure.renovate,
        business_hours_pct: snapshot.history.business_hours_pct,
        branch_count: snapshot.branches.branches@.len() as usize,
        stale_branch_count: sections.branch_jungle.stale,
        commits_last_30d: snapshot.history.commits_this_month,
        night_pct: snapshot.history.night_pct,
    }
}

/// The days since the last commit, when the last activity is known, are the whole
/// 86400-second days between it and now (rounded down), and none when it is later
/// than now; with no known last activity there is no count.
pub proof fn law_days_since_last_commit(snapshot: InvestigationSnapshot, sections: FactualSections, now_secs: i64)
    ensures
        match sections.first_impressions.last_activity_secs {
            Some(t) => signals_spec(snapshot, sections, now_secs).days_since_last_commit matches Some(d) && {
                &&& t <= now_secs ==> d * 86400 <= now_secs - t < d * 86400 + 86400
                &&& t > now_secs ==> d == 0
            },
            None => signals_spec(snapshot, sections, now_secs).days_since_last_commit is None,
        },
{
    if let Some(t) = sections.first_impressions.last_activity_secs {
        let x: int = now_secs - t;
        if x >= 0 {
            assert(x / 86400 * 86400 <= x < x / 86400 * 86400 + 86400) by (nonlinear_arith)
                requires
                    x >= 0,
            ;
            assert(0 <= x / 86400 <= x) by (nonlinear_arith)
                requires
                    x >= 0,
            ;
            assert(x <= 0x1_0000_0000_0000_0000);
        }
    }
}

/// The top contributor's name, or `Unknown`.
pub open spec fn top_name_spec(snapshot: InvestigationSnapshot) -> Seq<char> {
    match snapshot.history.top_contributor_name {
        Some(n) => n@,
        None => "Unknown"@,
    }
}

pub open spec fn days_value(g: VibeSignals) -> i64 {
    match g.days_since_last_commit {
        Some(d) => d,
        None => 0,
    }
}

pub open spec fn ci_text_vi() -> Seq<char> {
    "Có quy trình CI/CD"@
}

pub open spec fn ci_text_en() -> Seq<char> {
    "CI/CD pipeline present"@
}

pub open spec fn contributors_vi(n: usize) -> Seq<char> {
    "Có "@ + dec_nat(n as nat) + " người đóng góp"@
}

pub open spec fn contributors_en(n: usize) -> Seq<char> {
    dec_nat(n as nat) + " contributors"@
}

/// Solo Wizard: one dominant author, few contributors, bus factor 1.
pub open spec fn solo_rules_spec(g: VibeSignals, name: Seq<char>) -> Seq<RuleV> {
    seq![
        (basis_points(g.top_share) >= 6500, 3u32,
            "Tác giả chính "@ + name + " đóng góp "@ + pct1(g.top_share) + "% tổng số commit"@,
            "Top author "@ + name + " contributed "@ + pct1(g.top_share) + "% of all commits"@),
        (g.contributor_count <= 5, 2u32,
            "Chỉ có "@ + dec_nat(g.contributor_count as nat) + " người đóng góp từ trước đến nay"@,
            "Only "@ + dec_nat(g.contributor_count as nat) + " contributors ever"@),
        (g.bus_factor == 1, 2u32,
            "Hệ số xe buýt là 1 — "@ + name + " nắm giữ "@ + pct1(g.top_share) + "% ☠️"@,
            "Bus factor 1 — "@ + name + " owns "@ + pct1(g.top_share) + "% ☠️"@),
    ]
}

/// Ancient Temple: old, dormant, with releases.
pub open spec fn ancient_rules_spec(g: VibeSignals) -> Seq<RuleV> {
    seq![
        (g.age_years >= 5, 3u32,
            "Dự án đã "@ + dec_int(g.age_years as int) + " tuổi"@,
            dec_int(g.age_years as int) + " years old"@),
        (g.days_since_last_commit is Some && days_value(g) > 120, 2u32,
            "Commit cuối cùng từ "@ + dec_int(days_value(g) as int) + " ngày trước"@,
            "Last commit "@ + dec_int(days_value(g) as int) + " days ago"@),
        (g.release_tag_count >= 5, 1u32,
            "Có "@ + dec_nat(g.release_tag_count as nat) + " thẻ phát hành (release tags)"@,
            dec_nat(g.release_tag_count as nat) + " release tags"@),
    ]
}

/// Corporate Fortress: CI, infrastructure, bots, business hours, many contributors.
pub open spec fn corporate_rules_spec(g: VibeSignals) -> Seq<RuleV> {
    seq![
        (g.has_ci, 2u32, ci_text_vi(), ci_text_en()),
        (g.infra_count >= 3, 2u32,
            "Phát hiện "@ + dec_nat(g.infra_count as nat) + " dấu vết hạ tầng"@,
            dec_nat(g.infra_count as nat) + " infrastructure signals detected"@),
        (g.has_bot, 1u32, "Đã cấu hình bot cập nhật thư viện"@, "Dependency bot configured"@),
        (basis_points(g.business_hours_pct) >= 8000, 2u32,
            pct1(g.business_hours_pct) + "% commit được thực hiện trong giờ làm việc (Thứ 2–Thứ 6)"@,
            pct1(g.business_hours_pct) + "% of commits during Mon–Fri business hours"@),
        (g.contributor_count >= 10, 1u32, contributors_vi(g.contributor_count), contributors_en(g.contributor_count)),
    ]
}

/// Open Source Kingdom: many contributors, no dominant author, recent activity, CI.
pub open spec fn kingdom_rules_spec(g: VibeSignals) -> Seq<RuleV> {
    seq![
        (g.contributor_count >= 30, 3u32, contributors_vi(g.contributor_count), contributors_en(g.contributor_count)),
        (basis_points(g.top_share) < 4000, 2u32,
            "Không có nhà phát triển nào nắm giữ quá "@ + pct1(g.top_share) + "% commit"@,
            "No single dev owns more than "@ + pct1(g.top_share) + "% of commits"@),
        (g.days_since_last_commit is Some && days_value(g) <= 30, 1u32,
            "Hoạt động tích cực trong vòng "@ + dec_int(days_value(g) as int) + " ngày qua"@,
            "Active within the last "@ + dec_int(days_value(g) as int) + " days"@),
        (g.has_ci, 1u32, ci_text_vi(), ci_text_en()),
    ]
}

/// Startup Goblin: young, busy, unreleased, a small team.
pub open spec fn goblin_rules_spec(g: VibeSignals) -> Seq<RuleV> {
    seq![
        (g.age_years < 3, 2u32,
            "Dự án mới chỉ "@ + dec_int(g.age_years as int) + " tuổi"@,
            "Only "@ + dec_int(g.age_years as int) + " years old"@),
        (g.commits_last_30d >= 50, 2u32,
            "Có "@ + dec_nat(g.commits_last_30d as nat) + " commit trong 30 ngày qua"@,
            dec_nat(g.commits_last_30d as nat) + " commits in the last 30 days"@),
        (g.release_tag_count == 0, 1u32, "Chưa có thẻ phát hành (release tag) nào"@, "0 release tags"@),
        (2 <= g.contributor_count <= 8, 1u32, contributors_vi(g.contributor_count), contributors_en(g.contributor_count)),
    ]
}

/// The crunch signals that turn a Startup Goblin into a Sleep-Deprived Startup.
pub open spec fn crunch_rules_spec(g: VibeSignals) -> Seq<RuleV> {
    seq![
        (g.branch_count >= 25, 1u32,
            "Có "@ + dec_nat(g.branch_count as nat) + " nhánh đang hoạt động song song"@,
            dec_nat(g.branch_count as nat) + " branches in flight"@),
        (basis_points(g.night_pct) >= 2500, 3u32,
            pct1(g.night_pct) + "% commit được thực hiện vào ban đêm (nửa đêm đến 5 giờ sáng)"@,
            pct1(g.night_pct) + "% of commits between midnight and 5am"@),
    ]
}

/// Chaotic Good: active, abandoned branches, no releases, no CI.
pub open spec fn chaotic_rules_spec(g: VibeSignals) -> Seq<RuleV> {
    seq![
        (g.days_since_last_commit is Some && days_value(g) <= 30, 1u32, "Vẫn đang hoạt động"@, "Still active"@),
        (g.stale_branch_count >= 15, 2u32,
            "Có "@ + dec_nat(g.stale_branch_count as nat) + " nhánh bỏ hoang chưa được dọn dẹp"@,
            dec_nat(g.stale_branch_count as nat) + " stale branches abandoned in the wild"@),
        (g.release_tag_count == 0, 1u32, "Phát hành với 0 thẻ tag"@, "Ships with 0 release tags"@),
        (!g.has_ci, 1u32, "Không có lưới an toàn CI/CD"@, "No CI/CD safety net"@),
    ]
}

/// Some crunch signal fired.
pub open spec fn crunch_fired(g: VibeSignals) -> bool {
    g.branch_count >= 25 || basis_points(g.night_pct) >= 2500
}

/// The candidates in tie-break (specificity) order.
pub open spec fn vibe_labels() -> Seq<VibeLabel> {
    seq![
        VibeLabel::SleepDeprivedStartup,
        VibeLabel::SoloWizard,
        VibeLabel::StartupGoblin,
        VibeLabel::CorporateFortress,
        VibeLabel::OpenSourceKingdom,
        VibeLabel::AncientTemple,
        VibeLabel::ChaoticGood,
    ]
}

/// The score of each candidate. A Sleep-Deprived Startup scores the Startup Goblin
/// rules plus the crunch rules, and nothing without a crunch signal.
pub open spec fn vibe_scores(g: VibeSignals, name: Seq<char>) -> Seq<nat> {
    let goblin = rules_score(goblin_rules_spec(g));
    seq![
        if crunch_fired(g) { goblin + rules_score(crunch_rules_spec(g)) } else { 0 },
        rules_score(solo_rules_spec(g, name)),
        goblin,
        rules_score(corporate_rules_spec(g)),
        rules_score(kingdom_rules_spec(g)),
        rules_score(ancient_rules_spec(g)),
        rules_score(chaotic_rules_spec(g)),
    ]
}

/// The evidence of each candidate.
pub open spec fn vibe_evidence(g: VibeSignals, name: Seq<char>) -> Seq<Seq<(Seq<char>, Seq<char>)>> {
    seq![
        rules_evidence(goblin_rules_spec(g)) + rules_evidence(crunch_rules_spec(g)),
        rules_evidence(solo_rules_spec(g, name)),
        rules_evidence(goblin_rules_spec(g)),
        rules_evidence(corporate_rules_spec(g)),
        rules_evidence(kingdom_rules_spec(g)),
        rules_evidence(ancient_rules_spec(g)),
        rules_evidence(chaotic_rules_spec(g)),
    ]
}

/// The first index among `s[0..n]` holding the largest value.
pub open spec fn first_max(s: Seq<nat>, n: int) -> int
    decreases n,
{
    if n <= 1 {
        0
    } else {
        let k = first_max(s, n - 1);
        if s[n - 1] > s[k] { n - 1 } else { k }
    }
}

/// The primary candidate: the first with the highest score, or Chaotic Good when
/// that score is below [`MIN_SCORE`].
pub open spec fn primary_index(s: Seq<nat>) -> int {
    let w = first_max(s, 7);
    if s[w] < MIN_SCORE { 6 } else { w }
}

/// The runner-up among the first `n` candidates: the first with the highest score of
/// at least 2, other than `primary`, and that score.
pub open spec fn runner_from(labels: Seq<VibeLabel>, s: Seq<nat>, primary: VibeLabel, n: int) -> (Option<VibeLabel>, nat)
    decreases n,
{
    if n <= 0 {
        (None, 0)
    } else {
        let prev = runner_from(labels, s, primary, n - 1);
        if labels[n - 1] != primary && s[n - 1] >= 2 && s[n - 1] > prev.1 {
            (Some(labels[n - 1]), s[n - 1])
        } else {
            prev
        }
    }
}


/// Facts about the first-maximum index.
pub proof fn lemma_first_max(s: Seq<nat>, n: int)
    requires
        1 <= n <= s.len(),
    ensures
        0 <= first_max(s, n) < n,
        forall|j: int| 0 <= j < n ==> #[trigger] s[j] <= s[first_max(s, n)],
        forall|j: int| 0 <= j < first_max(s, n) ==> #[trigger] s[j] < s[first_max(s, n)],
    decreases n,
{
    if n > 1 {
        lemma_first_max(s, n - 1);
    }
}

/// Facts about the runner-up scan.
pub proof fn lemma_runner_from(labels: Seq<VibeLabel>, s: Seq<nat>, primary: VibeLabel, n: int)
    requires
        0 <= n <= s.len(),
        n <= labels.len(),
    ensures
        ({
            let r = runner_from(labels, s, primary, n);
            &&& (r.0 is None ==> r.1 == 0 && forall|j: int| 0 <= j < n && labels[j] != primary ==> s[j] < 2)
            &&& (r.0 matches Some(l) ==> exists|j: int| 0 <= j < n && labels[j] == l && l != primary && s[j] == r.1 && s[j] >= 2)
            &&& (r.0 is Some ==> forall|j: int| 0 <= j < n && labels[j] != primary ==> s[j] <= r.1)
        }),
    decreases n,
{
    if n > 0 {
        lemma_runner_from(labels, s, primary, n - 1);
        let prev = runner_from(labels, s, primary, n - 1);
        if labels[n - 1] != primary && s[n - 1] >= 2 && s[n - 1] > prev.1 {
            assert(labels[n - 1] == labels[n - 1]);
        }
    }
}

/// A list of rules with a positive score has some evidence.
pub proof fn lemma_score_evidence(rs: Seq<RuleV>)
    ensures
        rules_score(rs) > 0 ==> rules_evidence(rs).len() > 0,
    decreases rs.len(),
{
    if rs.len() > 0 {
        lemma_score_evidence(rs.drop_last());
    }
}

/// Every rule list of a personality has at most five rules of at most three points.
pub open spec fn small_rules(rs: Seq<RuleV>) -> bool {
    rs.len() <= 5 && forall|i: int| 0 <= i < rs.len() ==> (#[trigger] rs[i]).1 <= 3
}

/// A score of at most five rules of at most three points is at most 3 per rule.
pub proof fn lemma_small_score(rs: Seq<RuleV>)
    requires
        forall|i: int| 0 <= i < rs.len() ==> (#[trigger] rs[i]).1 <= 3,
    ensures
        rules_score(rs) <= 3 * rs.len(),
    decreases rs.len(),
{
    if rs.len() > 0 {
        assert forall|i: int| 0 <= i < rs.drop_last().len() implies (#[trigger] rs.drop_last()[i]).1 <= 3 by {
            assert(rs.drop_last()[i] == rs[i]);
        }
        lemma_small_score(rs.drop_last());
    }
}

fn rule(fired: bool, points: u32, vi: String, en: String) -> (r: Rule)
    ensures
        rule_view(r) == (fired, points, vi@, en@),
{
    Rule { fired, points, text: Bilingual { vi, en } }
}

fn days_i128(now: i64, then: i64) -> (d: i64)
    ensures
        d as int == days_between(now, then),
{
    let diff: i128 = now as i128 - then as i128;
    if diff < 0 {
        0
    } else {
        (diff / 86400) as i64
    }
}

/// The signals of a snapshot and its sections at `now_secs`.
#[verifier::spinoff_prover]
#[verifier::rlimit(30)]
pub fn vibe_signals(snapshot: &InvestigationSnapshot, sections: &FactualSections, now_secs: i64) -> (g: VibeSignals)
    ensures
        g == signals_spec(*snapshot, *sections, now_secs),
{
    let h = &snapshot.history;
    let f = &sections.infrastructure;
    let age_days: i128 = h.repo_age_days as i128;
    let age_years: i64 = if age_days >= 0 {
        (age_days / 365) as i64
    } else {
        (-((-age_days) / 365)) as i64
    };
    let days = match sections.first_impressions.last_activity_secs {
        Some(t) => Some(days_i128(now_secs, t)),
        None => None,
    };
    let mut infra: usize = 0;
    if f.docker { infra = infra + 1; }
    if f.terraform { infra = infra + 1; }
    if f.github_actions { infra = infra + 1; }
    if f.gitlab_ci { infra = infra + 1; }
    if f.circleci { infra = infra + 1; }
    if f.jenkins { infra = infra + 1; }
    if f.dependabot { infra = infra + 1; }
    if f.renovate { infra = infra + 1; }
    VibeSignals {
        contributor_count: h.contributor_count,
        top_share: h.top_author_share_pct,
        bus_factor: h.bus_factor,
        age_years,
        days_since_last_commit: days,
        release_tag_count: h.release_tag_count,
        has_ci: f.github_actions || f.gitlab_ci || f.circleci || f.jenkins,
        infra_count: infra,
        has_bot: f.dependabot || f.renovate,
        business_hours_pct: h.business_hours_pct,
        branch_count: snapshot.branches.branches.len(),
        stale_branch_count: sections.branch_jungle.stale,
        commits_last_30d: h.commits_this_month,
        night_pct: h.night_pct,
    }
}

fn contributors_text(n: usize) -> (r: (String, String))
    ensures
        r.0@ == contributors_vi(n),
        r.1@ == contributors_en(n),
{
    let mut vi = String::from_str("Có ");
    push_decimal(&mut vi, n as u64);
    vi.append(" người đóng góp");
    let mut en = String::new();
    push_decimal(&mut en, n as u64);
    en.append(" contributors");
    proof {
        assert(en@ =~= contributors_en(n));
    }
    (vi, en)
}

fn solo_rules(g: &VibeSignals, name: &str) -> (r: Vec<Rule>)
    ensures
        rules_view(r@) == solo_rules_spec(*g, name@),
{
    let mut v: Vec<Rule> = Vec::new();
    let mut vi = String::from_str("Tác giả chính ");
    vi.append(name);
    vi.append(" đóng góp ");
    push_pct1(&mut vi, g.top_share);
    vi.append("% tổng số commit");
    let mut en = String::from_str("Top author ");
    en.append(name);
    en.append(" contributed ");
    push_pct1(&mut en, g.top_share);
    en.append("% of all commits");
    v.push(rule(g.top_share.bp() >= 6500, 3, vi, en));

    let mut vi = String::from_str("Chỉ có ");
    push_decimal(&mut vi, g.contributor_count as u64);
    vi.append(" người đóng góp từ trước đến nay");
    let mut en = String::from_str("Only ");
    push_decimal(&mut en, g.contributor_count as u64);
    en.append(" contributors ever");
    v.push(rule(g.contributor_count <= 5, 2, vi, en));

    let mut vi = String::from_str("Hệ số xe buýt là 1 — ");
    vi.append(name);
    vi.append(" nắm giữ ");
    push_pct1(&mut vi, g.top_share);
    vi.append("% ☠️");
    let mut en = String::from_str("Bus factor 1 — ");
    en.append(name);
    en.append(" owns ");
    push_pct1(&mut en, g.top_share);
    en.append("% ☠️");
    v.push(rule(g.bus_factor == 1, 2, vi, en));
    proof {
        assert(rules_view(v@) =~= solo_rules_spec(*g, name@));
    }
    v
}

fn ancient_rules(g: &VibeSignals) -> (r: Vec<Rule>)
    ensures
        rules_view(r@) == ancient_rules_spec(*g),
{
    let mut v: Vec<Rule> = Vec::new();
    let mut vi = String::from_str("Dự án đã ");
    push_int(&mut vi, g.age_years);
    vi.append(" tuổi");
    let mut en = String::new();
    push_int(&mut en, g.age_years);
    en.append(" years old");
    v.push(rule(g.age_years >= 5, 3, vi, en));

    let (known, days) = match g.days_since_last_commit {
        Some(d) => (true, d),
        None => (false, 0i64),
    };
    let mut vi = String::from_str("Commit cuối cùng từ ");
    push_int(&mut vi, days);
    vi.append(" ngày trước");
    let mut en = String::from_str("Last commit ");
    push_int(&mut en, days);
    en.append(" days ago");
    v.push(rule(known && days > 120, 2, vi, en));

    let mut vi = String::from_str("Có ");
    push_decimal(&mut vi, g.release_tag_count as u64);
    vi.append(" thẻ phát hành (release tags)");
    let mut en = String::new();
    push_decimal(&mut en, g.release_tag_count as u64);
    en.append(" release tags");
    v.push(rule(g.release_tag_count >= 5, 1, vi, en));
    proof {
        assert(rules_view(v@) =~= ancient_rules_spec(*g));
    }
    v
}

fn corporate_rules(g: &VibeSignals) -> (r: Vec<Rule>)
    ensures
        rules_view(r@) == corporate_rules_spec(*g),
{
    let mut v: Vec<Rule> = Vec::new();
    v.push(rule(g.has_ci, 2, String::from_str("Có quy trình CI/CD"), String::from_str("CI/CD pipeline present")));

    let mut vi = String::from_str("Phát hiện ");
    push_decimal(&mut vi, g.infra_count as u64);
    vi.append(" dấu vết hạ tầng");
    let mut en = String::new();
    push_decimal(&mut en, g.infra_count as u64);
    en.append(" infrastructure signals detected");
    v.push(rule(g.infra_count >= 3, 2, vi, en));

    v.push(rule(g.has_bot, 1, String::from_str("Đã cấu hình bot cập nhật thư viện"), String::from_str("Dependency bot configured")));

    let mut vi = String::new();
    push_pct1(&mut vi, g.business_hours_pct);
    vi.append("% commit được thực hiện trong giờ làm việc (Thứ 2–Thứ 6)");
    let mut en = String::new();
    push_pct1(&mut en, g.business_hours_pct);
    en.append("% of commits during Mon–Fri business hours");
    v.push(rule(g.business_hours_pct.bp() >= 8000, 2, vi, en));

    let (vi, en) = contributors_text(g.contributor_count);
    v.push(rule(g.contributor_count >= 10, 1, vi, en));
    proof {
        assert(rules_view(v@) =~= corporate_rules_spec(*g));
    }
    v
}

fn kingdom_rules(g: &VibeSignals) -> (r: Vec<Rule>)
    ensures
        rules_view(r@) == kingdom_rules_spec(*g),
{
    let mut v: Vec<Rule> = Vec::new();
    let (vi, en) = contributors_text(g.contributor_count);
    v.push(rule(g.contributor_count >= 30, 3, vi, en));

    let mut vi = String::from_str("Không có nhà phát triển nào nắm giữ quá ");
    push_pct1(&mut vi, g.top_share);
    vi.append("% commit");
    let mut en = String::from_str("No single dev owns more than ");
    push_pct1(&mut en, g.top_share);
    en.append("% of commits");
    v.push(rule(g.top_share.bp() < 4000, 2, vi, en));

    let (known, days) = match g.days_since_last_commit {
        Some(d) => (true, d),
        None => (false, 0i64),
    };
    let mut vi = String::from_str("Hoạt động tích cực trong vòng ");
    push_int(&mut vi, days);
    vi.append(" ngày qua");
    let mut en = String::from_str("Active within the last ");
    push_int(&mut en, days);
    en.append(" days");
    v.push(rule(known && days <= 30, 1, vi, en));

    v.push(rule(g.has_ci, 1, String::from_str("Có quy trình CI/CD"), String::from_str("CI/CD pipeline present")));
    proof {
        assert(rules_view(v@) =~= kingdom_rules_spec(*g));
    }
    v
}

fn goblin_rules(g: &VibeSignals) -> (r: Vec<Rule>)
    ensures
        rules_view(r@) == goblin_rules_spec(*g),
{
    let mut v: Vec<Rule> = Vec::new();
    let mut vi = String::from_str("Dự án mới chỉ ");
    push_int(&mut vi, g.age_years);
    vi.append(" tuổi");
    let mut en = String::from_str("Only ");
    push_int(&mut en, g.age_years);
    en.append(" years old");
    v.push(rule(g.age_years < 3, 2, vi, en));

    let mut vi = String::from_str("Có ");
    push_decimal(&mut vi, g.commits_last_30d as u64);
    vi.append(" commit trong 30 ngày qua");
    let mut en = String::new();
    push_decimal(&mut en, g.commits_last_30d as u64);
    en.append(" commits in the last 30 days");
    v.push(rule(g.commits_last_30d >= 50, 2, vi, en));

    v.push(rule(g.release_tag_count == 0, 1, String::from_str("Chưa có thẻ phát hành (release tag) nào"), String::from_str("0 release tags")));

    let (vi, en) = contributors_text(g.contributor_count);
    v.push(rule(2 <= g.contributor_count && g.contributor_count <= 8, 1, vi, en));
    proof {
        assert(rules_view(v@) =~= goblin_rules_spec(*g));
    }
    v
}

fn crunch_rules(g: &VibeSignals) -> (r: Vec<Rule>)
    ensures
        rules_view(r@) == crunch_rules_spec(*g),
{
    let mut v: Vec<Rule> = Vec::new();
    let mut vi = String::from_str("Có ");
    push_decimal(&mut vi, g.branch_count as u64);
    vi.append(" nhánh đang hoạt động song song");
    let mut en = String::new();
    push_decimal(&mut en, g.branch_count as u64);
    en.append(" branches in flight");
    v.push(rule(g.branch_count >= 25, 1, vi, en));

    let mut vi = String::new();
    push_pct1(&mut vi, g.night_pct);
    vi.append("% commit được thực hiện vào ban đêm (nửa đêm đến 5 giờ sáng)");
    let mut en = String::new();
    push_pct1(&mut en, g.night_pct);
    en.append("% of commits between midnight and 5am");
    v.push(rule(g.night_pct.bp() >= 2500, 3, vi, en));
    proof {
        assert(rules_view(v@) =~= crunch_rules_spec(*g));
    }
    v
}

fn chaotic_rules(g: &VibeSignals) -> (r: Vec<Rule>)
    ensures
        rules_view(r@) == chaotic_rules_spec(*g),
{
    let mut v: Vec<Rule> = Vec::new();
    let active = match g.days_since_last_commit {
        Some(d) => d <= 30,
        None => false,
    };
    v.push(rule(active, 1, String::from_str("Vẫn đang hoạt động"), String::from_str("Still active")));

    let mut vi = String::from_str("Có ");
    push_decimal(&mut vi, g.stale_branch_count as u64);
    vi.append(" nhánh bỏ hoang chưa được dọn dẹp");
    let mut en = String::new();
    push_decimal(&mut en, g.stale_branch_count as u64);
    en.append(" stale branches abandoned in the wild");
    v.push(rule(g.stale_branch_count >= 15, 2, vi, en));

    v.push(rule(g.release_tag_count == 0, 1, String::from_str("Phát hành với 0 thẻ tag"), String::from_str("Ships with 0 release tags")));
    v.push(rule(!g.has_ci, 1, String::from_str("Không có lưới an toàn CI/CD"), String::from_str("No CI/CD safety net")));
    proof {
        assert(rules_view(v@) =~= chaotic_rules_spec(*g));
    }
    v
}


fn score_rules(rules: &Vec<Rule>) -> (r: (u32, Vec<Bilingual>))
    requires
        small_rules(rules_view(rules@)),
    ensures
        r.0 == rules_score(rules_view(rules@)),
        r.0 <= 15,
        texts(r.1@) == rules_evidence(rules_view(rules@)),
{
    proof {
        assert forall|i: int| 0 <= i < rules@.len() implies (#[trigger] rules@[i]).points <= 10 by {
            assert(rules_view(rules@)[i] == rule_view(rules@[i]));
        }
        lemma_small_score(rules_view(rules@));
    }
    tally(rules)
}

fn concat_bis(a: &Vec<Bilingual>, b: &Vec<Bilingual>) -> (r: Vec<Bilingual>)
    ensures
        texts(r@) == texts(a@) + texts(b@),
{
    let mut r = clone_bis(a);
    let mut i: usize = 0;
    while i < b.len()
        invariant
            i <= b@.len(),
            texts(r@) == texts(a@) + texts(b@.subrange(0, i as int)),
        decreases b.len() - i,
    {
        let ghost prev = r@;
        r.push(crate::analyze::rules::clone_bi(&b[i]));
        proof {
            assert(texts(b@.subrange(0, i + 1)) =~= texts(b@.subrange(0, i as int)).push((b@[i as int].vi@, b@[i as int].en@)));
            assert(texts(r@) =~= texts(prev).push((b@[i as int].vi@, b@[i as int].en@)));
        }
        i = i + 1;
    }
    proof {
        assert(b@.subrange(0, b@.len() as int) =~= b@);
    }
    r
}

fn label_at(i: usize) -> (l: VibeLabel)
    requires
        i < 7,
    ensures
        l == vibe_labels()[i as int],
{
    match i {
        0 => VibeLabel::SleepDeprivedStartup,
        1 => VibeLabel::SoloWizard,
        2 => VibeLabel::StartupGoblin,
        3 => VibeLabel::CorporateFortress,
        4 => VibeLabel::OpenSourceKingdom,
        5 => VibeLabel::AncientTemple,
        _ => VibeLabel::ChaoticGood,
    }
}

/// The classification that the scores and evidence of the candidates give.
pub open spec fn vibe_result_matches(r: VibeResult, g: VibeSignals, name: Seq<char>) -> bool {
    let s = vibe_scores(g, name);
    let p = primary_index(s);
    &&& r.primary == vibe_labels()[p]
    &&& r.primary_score == s[p]
    &&& texts(r.evidence@) == vibe_evidence(g, name)[p]
    &&& r.runner_up == runner_from(vibe_labels(), s, r.primary, 7).0
}

/// What holds of every classification: a primary under the minimum score is Chaotic
/// Good; a primary at or above it has the highest score, and every candidate before it
/// in tie-break order scores less; a positive score comes with
/// evidence; the runner-up differs from the primary, scores at least 2 and at least
/// as much as every other candidate but the primary, and is absent only when no
/// other candidate scores 2.
pub open spec fn vibe_laws(r: VibeResult, s: Seq<nat>) -> bool {
    &&& (r.primary_score < MIN_SCORE ==> r.primary == VibeLabel::ChaoticGood)
    &&& (r.primary_score >= MIN_SCORE ==> forall|i: int| 0 <= i < 7 ==> #[trigger] s[i] <= r.primary_score)
    &&& (r.primary_score >= MIN_SCORE ==> exists|j: int| 0 <= j < 7 && #[trigger] vibe_labels()[j] == r.primary
        && s[j] == r.primary_score && forall|i: int| 0 <= i < j ==> #[trigger] s[i] < r.primary_score)
    &&& (r.primary_score > 0 ==> r.evidence@.len() > 0)
    &&& (r.runner_up matches Some(l) ==> l != r.primary && exists|j: int|
        0 <= j < 7 && #[trigger] vibe_labels()[j] == l && s[j] >= 2
            && forall|k: int| 0 <= k < 7 && vibe_labels()[k] != r.primary ==> #[trigger] s[k] <= s[j])
    &&& (r.runner_up is None ==> forall|k: int| 0 <= k < 7 && vibe_labels()[k] != r.primary ==> #[trigger] s[k] < 2)
}

proof fn lemma_vibe_laws(r: VibeResult, g: VibeSignals, name: Seq<char>)
    requires
        vibe_result_matches(r, g, name),
    ensures
        vibe_laws(r, vibe_scores(g, name)),
{
    let s = vibe_scores(g, name);
    lemma_first_max(s, 7);
    lemma_runner_from(vibe_labels(), s, r.primary, 7);
    let p = primary_index(s);
    let ev = vibe_evidence(g, name);
    if r.primary_score >= MIN_SCORE {
        assert(vibe_labels()[p] == r.primary);
    }
    lemma_score_evidence(goblin_rules_spec(g));
    lemma_score_evidence(crunch_rules_spec(g));
    lemma_score_evidence(solo_rules_spec(g, name));
    lemma_score_evidence(corporate_rules_spec(g));
    lemma_score_evidence(kingdom_rules_spec(g));
    lemma_score_evidence(ancient_rules_spec(g));
    lemma_score_evidence(chaotic_rules_spec(g));
    if r.primary_score > 0 {
        assert(texts(r.evidence@).len() == r.evidence@.len());
        assert(ev[p].len() > 0);
    }
    if r.runner_up is Some {
        let l = r.runner_up->0;
        let j = choose|j: int| 0 <= j < 7 && vibe_labels()[j] == l && l != r.primary && s[j] == runner_from(vibe_labels(), s, r.primary, 7).1 && s[j] >= 2;
        assert(vibe_labels()[j] == l);
    }
}

/// Section 7: scores every personality on the snapshot's signals and picks the
/// primary one (the first highest in tie-break order, or Chaotic Good below
/// [`MIN_SCORE`]) and the runner-up.
pub fn classify_vibes(snapshot: &InvestigationSnapshot, sections: &FactualSections, now_secs: i64) -> (r: VibeResult)
    ensures
        vibe_result_matches(r, signals_spec(*snapshot, *sections, now_secs), top_name_spec(*snapshot)),
        vibe_laws(r, vibe_scores(signals_spec(*snapshot, *sections, now_secs), top_name_spec(*snapshot))),
{
    let g = vibe_signals(snapshot, sections, now_secs);
    let name: &str = match &snapshot.history.top_contributor_name {
        Some(n) => n.as_str(),
        None => "Unknown",
    };
    let ghost gname = name@;
    let solo = score_rules(&solo_rules(&g, name));
    let goblin = score_rules(&goblin_rules(&g));
    let crunch = score_rules(&crunch_rules(&g));
    let corporate = score_rules(&corporate_rules(&g));
    let kingdom = score_rules(&kingdom_rules(&g));
    let ancient = score_rules(&ancient_rules(&g));
    let chaotic = score_rules(&chaotic_rules(&g));
    let fired = g.branch_count >= 25 || g.night_pct.bp() >= 2500;
    let sleepy_score: u32 = if fired { goblin.0 + crunch.0 } else { 0 };
    let sleepy_ev = concat_bis(&goblin.1, &crunch.1);

    let ghost s = vibe_scores(g, gname);
    let ghost ev = vibe_evidence(g, gname);
    let mut sv: Vec<u32> = Vec::new();
    sv.push(sleepy_score);
    sv.push(solo.0);
    sv.push(goblin.0);
    sv.push(corporate.0);
    sv.push(kingdom.0);
    sv.push(ancient.0);
    sv.push(chaotic.0);
    let mut evs: Vec<Vec<Bilingual>> = Vec::new();
    evs.push(sleepy_ev);
    evs.push(solo.1);
    evs.push(goblin.1);
    evs.push(corporate.1);
    evs.push(kingdom.1);
    evs.push(ancient.1);
    evs.push(chaotic.1);
    proof {
        assert(sv@.len() == 7 && evs@.len() == 7);
        assert forall|i: int| 0 <= i < 7 implies (#[trigger] sv@[i]) as nat == s[i] && texts(evs@[i]@) == ev[i] by {
            if i == 0 {
            }
        }
    }

    let mut w: usize = 0;
    let mut i: usize = 1;
    while i < 7
        invariant
            1 <= i <= 7,
            w < i,
            sv@.len() == 7,
            s.len() == 7,
            forall|k: int| 0 <= k < 7 ==> (#[trigger] sv@[k]) as nat == s[k],
            w as int == first_max(s, i as int),
        decreases 7 - i,
    {
        if sv[i] > sv[w] {
            w = i;
        }
        i = i + 1;
    }
    let p: usize = if sv[w] < MIN_SCORE { 6 } else { w };
    let primary = label_at(p);
    let primary_score = sv[p];
    let evidence = clone_bis(&evs[p]);

    let mut runner_up: Option<VibeLabel> = None;
    let mut best: u32 = 0;
    let mut i: usize = 0;
    while i < 7
        invariant
            i <= 7,
            sv@.len() == 7,
            s.len() == 7,
            forall|k: int| 0 <= k < 7 ==> (#[trigger] sv@[k]) as nat == s[k],
            (runner_up, best as nat) == runner_from(vibe_labels(), s, primary, i as int),
        decreases 7 - i,
    {
        let l = label_at(i);
        if l != primary && sv[i] >= 2 && sv[i] > best {
            runner_up = Some(l);
            best = sv[i];
        }
        i = i + 1;
    }
    let r = VibeResult { primary, primary_score, evidence, runner_up };
    proof {
        lemma_vibe_laws(r, g, gname);
    }
    r
}

/// `share` is at least `pct` percent of its whole (and the whole is not empty).
pub open spec fn share_at_least(share: Share, pct: int) -> bool {
    share.whole > 0 && share.part * 100 >= pct * share.whole
}

proof fn lemma_threshold(share: Share, pct: int)
    requires
        1 <= pct <= 100,
    ensures
        basis_points(share) >= pct * 100 <==> share_at_least(share, pct),
{
    if share.whole > 0 {
        crate::share::law_share_rounding(share);
        let b = basis_points(share);
        assert(b >= pct * 100 <==> share.part * 100 >= pct * share.whole) by (nonlinear_arith)
            requires
                b * share.whole <= share.part * 10000 < (b + 1) * share.whole,
                share.whole > 0,
        ;
    }
}

/// The scores of the seven personalities, in terms of the repository and `now_secs`
/// (with "recent" meaning a last activity under 31 days before now, or later, and
/// "dormant" a last activity 121 days or more before now):
/// - Solo Wizard: 3 for a top author at 65% or more, 2 for at most 5 contributors, 2
///   for a bus factor of 1;
/// - Startup Goblin: 2 for an age under 3 years, 2 for 50 or more commits this
///   month, 1 for no release tag, 1 for 2 to 8 contributors;
/// - Sleep-Deprived Startup: when there are 25 or more branches or 25% or more night
///   commits, the Goblin's score plus 1 for 25 or more branches and 3 for 25% or
///   more night commits; otherwise 0;
/// - Corporate Fortress: 2 for CI, 2 for 3 or more infrastructure footprints, 1 for a
///   dependency bot, 2 for 80% or more business-hours commits, 1 for 10 or more
///   contributors;
/// - Open Source Kingdom: 3 for 30 or more contributors, 2 for a top author under
///   40%, 1 when recent, 1 for CI;
/// - Ancient Temple: 3 for an age of 5 years or more, 2 when dormant, 1 for 5 or more
///   release tags;
/// - Chaotic Good: 1 when recent, 2 for 15 or more stale branches, 1 for no release
///   tag, 1 for no CI.
pub proof fn law_vibe_scores(snapshot: InvestigationSnapshot, sections: FactualSections, now_secs: i64)
    ensures
        ({
            let h = snapshot.history;
            let f = sections.infrastructure;
            let s = vibe_scores(signals_spec(snapshot, sections, now_secs), top_name_spec(snapshot));
            let branches = snapshot.branches.branches@.len();
            let crunch = branches >= 25 || share_at_least(h.night_pct, 25);
            &&& s.len() == 7
            &&& s[0] == (if crunch { goblin_points(snapshot) + b2n(branches >= 25) + 3 * b2n(share_at_least(h.night_pct, 25)) } else { 0 })
            &&& s[1] == 3 * b2n(share_at_least(h.top_author_share_pct, 65)) + 2 * b2n(h.contributor_count <= 5)
                + 2 * b2n(h.bus_factor == 1)
            &&& s[2] == goblin_points(snapshot)
            &&& s[3] == 2 * b2n(ci_in(f)) + 2 * b2n(infra_count_spec(f) >= 3) + b2n(f.dependabot || f.renovate)
                + 2 * b2n(share_at_least(h.business_hours_pct, 80)) + b2n(h.contributor_count >= 10)
            &&& s[4] == 3 * b2n(h.contributor_count >= 30) + 2 * b2n(!share_at_least(h.top_author_share_pct, 40))
                + b2n(recent_at(sections, now_secs)) + b2n(ci_in(f))
            &&& s[5] == 3 * b2n(h.repo_age_days >= 5 * 365) + 2 * b2n(dormant_at(sections, now_secs)) + b2n(h.release_tag_count >= 5)
            &&& s[6] == b2n(recent_at(sections, now_secs)) + 2 * b2n(sections.branch_jungle.stale >= 15)
                + b2n(h.release_tag_count == 0) + b2n(!ci_in(f))
        }),
{
    lemma_vibe_score_sleepy(snapshot, sections, now_secs);
    lemma_vibe_score_solo(snapshot, sections, now_secs);
    lemma_vibe_score_goblin(snapshot, sections, now_secs);
    lemma_vibe_score_corporate(snapshot, sections, now_secs);
    lemma_vibe_score_kingdom(snapshot, sections, now_secs);
    lemma_vibe_score_ancient(snapshot, sections, now_secs);
    lemma_vibe_score_chaotic(snapshot, sections, now_secs);
}

/// A last activity under 31 days before `now_secs` (or later).
pub open spec fn recent_at(sections: FactualSections, now_secs: i64) -> bool {
    sections.first_impressions.last_activity_secs matches Some(t) && now_secs - t < 31 * 86400
}

/// A last activity 121 days or more before `now_secs`.
pub open spec fn dormant_at(sections: FactualSections, now_secs: i64) -> bool {
    sections.first_impressions.last_activity_secs matches Some(t) && now_secs - t >= 121 * 86400
}

/// Some CI system among the footprints.
pub open spec fn ci_in(f: InfrastructureFootprints) -> bool {
    f.github_actions || f.gitlab_ci || f.circleci || f.jenkins
}

proof fn lemma_activity(snapshot: InvestigationSnapshot, sections: FactualSections, now_secs: i64)
    ensures
        ({
            let g = signals_spec(snapshot, sections, now_secs);
            &&& (g.days_since_last_commit is Some && days_value(g) <= 30) == recent_at(sections, now_secs)
            &&& (g.days_since_last_commit is Some && days_value(g) > 120) == dormant_at(sections, now_secs)
        }),
{
    law_days_since_last_commit(snapshot, sections, now_secs);
}

proof fn lemma_vibe_score_sleepy(snapshot: InvestigationSnapshot, sections: FactualSections, now_secs: i64)
    ensures
        vibe_scores(signals_spec(snapshot, sections, now_secs), top_name_spec(snapshot))[0] == (if snapshot.branches.branches@.len() >= 25 || share_at_least(snapshot.history.night_pct, 25) { goblin_points(snapshot) + b2n(snapshot.branches.branches@.len() >= 25) + 3 * b2n(share_at_least(snapshot.history.night_pct, 25)) } else { 0 }),
{
    let g = signals_spec(snapshot, sections, now_secs);
    let name = top_name_spec(snapshot);
    lemma_goblin_score(g, name);
    lemma_crunch_score(g, name);
    lemma_threshold(g.night_pct, 25);
    lemma_age(snapshot);
    vstd::std_specs::vec::axiom_spec_len(&snapshot.branches.branches);
    assert(g.branch_count == snapshot.branches.branches@.len());
    assert(rules_score(goblin_rules_spec(g)) == goblin_points(snapshot));
    assert(crunch_fired(g) == (snapshot.branches.branches@.len() >= 25 || share_at_least(snapshot.history.night_pct, 25)));
}

proof fn lemma_vibe_score_solo(snapshot: InvestigationSnapshot, sections: FactualSections, now_secs: i64)
    ensures
        vibe_scores(signals_spec(snapshot, sections, now_secs), top_name_spec(snapshot))[1] == 3 * b2n(share_at_least(snapshot.history.top_author_share_pct, 65)) + 2 * b2n(snapshot.history.contributor_count <= 5) + 2 * b2n(snapshot.history.bus_factor == 1),
{
    let g = signals_spec(snapshot, sections, now_secs);
    let name = top_name_spec(snapshot);
    lemma_solo_score(g, name);
    lemma_threshold(g.top_share, 65);
}

proof fn lemma_vibe_score_goblin(snapshot: InvestigationSnapshot, sections: FactualSections, now_secs: i64)
    ensures
        vibe_scores(signals_spec(snapshot, sections, now_secs), top_name_spec(snapshot))[2] == goblin_points(snapshot),
{
    let g = signals_spec(snapshot, sections, now_secs);
    let name = top_name_spec(snapshot);
    lemma_goblin_score(g, name);
    lemma_age(snapshot);
}

proof fn lemma_vibe_score_corporate(snapshot: InvestigationSnapshot, sections: FactualSections, now_secs: i64)
    ensures
        vibe_scores(signals_spec(snapshot, sections, now_secs), top_name_spec(snapshot))[3] == 2 * b2n(ci_in(sections.infrastructure)) + 2 * b2n(infra_count_spec(sections.infrastructure) >= 3) + b2n(sections.infrastructure.dependabot || sections.infrastructure.renovate) + 2 * b2n(share_at_least(snapshot.history.business_hours_pct, 80)) + b2n(snapshot.history.contributor_count >= 10),
{
    let g = signals_spec(snapshot, sections, now_secs);
    let name = top_name_spec(snapshot);
    lemma_corporate_score(g, name);
    lemma_threshold(g.business_hours_pct, 80);
}

proof fn lemma_vibe_score_kingdom(snapshot: InvestigationSnapshot, sections: FactualSections, now_secs: i64)
    ensures
        vibe_scores(signals_spec(snapshot, sections, now_secs), top_name_spec(snapshot))[4] == 3 * b2n(snapshot.history.contributor_count >= 30) + 2 * b2n(!share_at_least(snapshot.history.top_author_share_pct, 40)) + b2n(recent_at(sections, now_secs)) + b2n(ci_in(sections.infrastructure)),
{
    let g = signals_spec(snapshot, sections, now_secs);
    let name = top_name_spec(snapshot);
    lemma_kingdom_score(g, name);
    lemma_threshold(g.top_share, 40);
    lemma_activity(snapshot, sections, now_secs);
}

proof fn lemma_vibe_score_ancient(snapshot: InvestigationSnapshot, sections: FactualSections, now_secs: i64)
    ensures
        vibe_scores(signals_spec(snapshot, sections, now_secs), top_name_spec(snapshot))[5] == 3 * b2n(snapshot.history.repo_age_days >= 5 * 365) + 2 * b2n(dormant_at(sections, now_secs)) + b2n(snapshot.history.release_tag_count >= 5),
{
    let g = signals_spec(snapshot, sections, now_secs);
    let name = top_name_spec(snapshot);
    lemma_ancient_score(g, name);
    lemma_activity(snapshot, sections, now_secs);
    lemma_age(snapshot);
}

proof fn lemma_vibe_score_chaotic(snapshot: InvestigationSnapshot, sections: FactualSections, now_secs: i64)
    ensures
        vibe_scores(signals_spec(snapshot, sections, now_secs), top_name_spec(snapshot))[6] == b2n(recent_at(sections, now_secs)) + 2 * b2n(sections.branch_jungle.stale >= 15) + b2n(snapshot.history.release_tag_count == 0) + b2n(!ci_in(sections.infrastructure)),
{
    let g = signals_spec(snapshot, sections, now_secs);
    let name = top_name_spec(snapshot);
    lemma_chaotic_score(g, name);
    lemma_activity(snapshot, sections, now_secs);
}

/// The Startup Goblin's points, in terms of the repository.
pub open spec fn goblin_points(snapshot: InvestigationSnapshot) -> nat {
    2 * b2n(snapshot.history.repo_age_days < 3 * 365) + 2 * b2n(snapshot.history.commits_this_month >= 50)
        + b2n(snapshot.history.release_tag_count == 0) + b2n(2 <= snapshot.history.contributor_count <= 8)
}

proof fn lemma_age(snapshot: InvestigationSnapshot)
    ensures
        trunc_div(snapshot.history.repo_age_days as int, 365) < 3 <==> snapshot.history.repo_age_days < 3 * 365,
        trunc_div(snapshot.history.repo_age_days as int, 365) >= 5 <==> snapshot.history.repo_age_days >= 5 * 365,
{
}

proof fn lemma_solo_score(g: VibeSignals, name: Seq<char>)
    ensures
        rules_score(solo_rules_spec(g, name)) == 3 * b2n(basis_points(g.top_share) >= 6500) + 2 * b2n(g.contributor_count <= 5) + 2 * b2n(g.bus_factor == 1),
{
    let rs = solo_rules_spec(g, name);
    lemma_score_of_few(rs);
}

proof fn lemma_goblin_score(g: VibeSignals, name: Seq<char>)
    ensures
        rules_score(goblin_rules_spec(g)) == 2 * b2n(g.age_years < 3) + 2 * b2n(g.commits_last_30d >= 50) + b2n(g.release_tag_count == 0) + b2n(2 <= g.contributor_count <= 8),
{
    let rs = goblin_rules_spec(g);
    lemma_score_of_few(rs);
}

proof fn lemma_crunch_score(g: VibeSignals, name: Seq<char>)
    ensures
        rules_score(crunch_rules_spec(g)) == b2n(g.branch_count >= 25) + 3 * b2n(basis_points(g.night_pct) >= 2500),
{
    let rs = crunch_rules_spec(g);
    lemma_score_of_few(rs);
}

proof fn lemma_corporate_score(g: VibeSignals, name: Seq<char>)
    ensures
        rules_score(corporate_rules_spec(g)) == 2 * b2n(g.has_ci) + 2 * b2n(g.infra_count >= 3) + b2n(g.has_bot) + 2 * b2n(basis_points(g.business_hours_pct) >= 8000) + b2n(g.contributor_count >= 10),
{
    let rs = corporate_rules_spec(g);
    lemma_score_of_few(rs);
}

proof fn lemma_kingdom_score(g: VibeSignals, name: Seq<char>)
    ensures
        rules_score(kingdom_rules_spec(g)) == 3 * b2n(g.contributor_count >= 30) + 2 * b2n(basis_points(g.top_share) < 4000) + b2n(g.days_since_last_commit is Some && days_value(g) <= 30) + b2n(g.has_ci),
{
    let rs = kingdom_rules_spec(g);
    lemma_score_of_few(rs);
}

proof fn lemma_ancient_score(g: VibeSignals, name: Seq<char>)
    ensures
        rules_score(ancient_rules_spec(g)) == 3 * b2n(g.age_years >= 5) + 2 * b2n(g.days_since_last_commit is Some && days_value(g) > 120) + b2n(g.release_tag_count >= 5),
{
    let rs = ancient_rules_spec(g);
    lemma_score_of_few(rs);
}

proof fn lemma_chaotic_score(g: VibeSignals, name: Seq<char>)
    ensures
        rules_score(chaotic_rules_spec(g)) == b2n(g.days_since_last_commit is Some && days_value(g) <= 30) + 2 * b2n(g.stale_branch_count >= 15) + b2n(g.release_tag_count == 0) + b2n(!g.has_ci),
{
    let rs = chaotic_rules_spec(g);
    lemma_score_of_few(rs);
}

} // verus!
