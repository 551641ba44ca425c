//! Section 8: the most interesting facts, heaviest first.

use vstd::prelude::*;
use crate::share::basis_points;
use vstd::string::*;
use crate::i18n::Bilingual;
use crate::snapshot::InvestigationSnapshot;
use crate::report::sections::FactualSections;
use crate::analyze::rules::{Rule, RuleV, rule_view, rules_view};
use crate::analyze::vibes::{VibeResult, VibeLabel, label_text, has_ci_spec, trunc_div, top_name_spec};
use crate::text::{dec_nat, dec_int, pct1, push_decimal, push_int, push_pct1};

verus! {

/// A finding and its weight; heavier findings come first.
#[derive(Debug, Clone)]
pub struct Finding {
    pub text: Bilingual,
    pub weight: u32,
}

/// At most this many findings are shown.
pub const MAX_FINDINGS: usize = 6;

/// A finding as values: (weight, Vietnamese text, English text).
pub open spec fn finding_view(f: Finding) -> (u32, Seq<char>, Seq<char>) {
    (f.weight, f.text.vi@, f.text.en@)
}

pub open spec fn findings_view(v: Seq<Finding>) -> Seq<(u32, Seq<char>, Seq<char>)> {
    v.map_values(|f: Finding| finding_view(f))
}

/// The finding rules, heaviest first: (fired, weight, Vietnamese, English).
pub open spec fn finding_rules_spec(snapshot: InvestigationSnapshot, sections: FactualSections) -> Seq<RuleV> {
    let h = snapshot.history;
    let name = top_name_spec(snapshot);
    let age_years = trunc_div(h.repo_age_days as int, 365);
    seq![
        (h.bus_factor == 1, 100u32,
            "Hệ số xe buýt của dự án bằng 1. Nếu "@ + name + " biến mất, dự án sẽ gặp nguy cơ lớn!"@,
            "The project's bus factor is 1. If "@ + name + " goes missing, the project is in high danger!"@),
        (basis_points(h.top_author_share_pct) >= 8000, 95u32,
            name + " đóng góp áp đảo với "@ + pct1(h.top_author_share_pct) + "% tổng số commit."@,
            name + " dominates contribution with "@ + pct1(h.top_author_share_pct) + "% of all commits."@),
        (!has_ci_spec(sections.infrastructure), 80u32,
            "Dự án hoạt động không có lưới bảo vệ CI/CD tự động."@,
            "The project operates without any automated CI/CD safety net."@),
        (sections.branch_jungle.stale >= 15, 70u32,
            "Có "@ + dec_nat(sections.branch_jungle.stale as nat) + " nhánh bỏ hoang chưa được dọn dẹp trong repo."@,
            "There are "@ + dec_nat(sections.branch_jungle.stale as nat) + " stale branches left abandoned in the repo."@),
        (basis_points(h.night_pct) >= 3000, 60u32,
            "Các nhà phát triển làm việc nhiều về đêm ("@ + pct1(h.night_pct) + "% commit thực hiện từ nửa đêm đến 5 giờ sáng)."@,
            "Developers work hard through the night ("@ + pct1(h.night_pct) + "% commits between midnight and 5am)."@),
        (age_years >= 5, 50u32,
            "Dự án đã hoạt động bền bỉ trong "@ + dec_int(age_years) + " năm qua."@,
            "The project has been active for "@ + dec_int(age_years) + " years."@),
    ]
}

/// The fired rules as findings, in rule order.
pub open spec fn fired_findings(rs: Seq<RuleV>) -> Seq<(u32, Seq<char>, Seq<char>)>
    decreases rs.len(),
{
    if rs.len() == 0 {
        seq![]
    } else {
        fired_findings(rs.drop_last()) + (if rs.last().0 { seq![(rs.last().1, rs.last().2, rs.last().3)] } else { seq![] })
    }
}

/// The closing line naming the runner-up personality.
pub open spec fn runner_finding(l: VibeLabel) -> (u32, Seq<char>, Seq<char>) {
    (5u32, "Cũng phảng phất khí chất "@ + label_text(l), "Also gives off "@ + label_text(l) + " energy"@)
}

/// The findings: the fired rules, heaviest first, at most [`MAX_FINDINGS`], then the
/// runner-up line when there is a runner-up and room for it.
pub open spec fn findings_spec(snapshot: InvestigationSnapshot, sections: FactualSections, runner_up: Option<VibeLabel>) -> Seq<(u32, Seq<char>, Seq<char>)> {
    let base = fired_findings(finding_rules_spec(snapshot, sections));
    match runner_up {
        Some(l) => if base.len() < MAX_FINDINGS { base.push(runner_finding(l)) } else { base },
        None => base,
    }
}

/// Weights never increase along the list.
pub open spec fn heaviest_first(f: Seq<(u32, Seq<char>, Seq<char>)>) -> bool {
    forall|i: int, j: int| 0 <= i < j < f.len() ==> #[trigger] f[i].0 >= #[trigger] f[j].0
}

/// Rules whose weights never increase give findings whose weights never increase,
/// each at least the last rule's weight.
proof fn lemma_fired_sorted(rs: Seq<RuleV>)
    requires
        forall|i: int, j: int| 0 <= i < j < rs.len() ==> #[trigger] rs[i].1 >= #[trigger] rs[j].1,
    ensures
        heaviest_first(fired_findings(rs)),
        fired_findings(rs).len() <= rs.len(),
        forall|i: int| 0 <= i < fired_findings(rs).len() ==> exists|k: int| 0 <= k < rs.len() && #[trigger] fired_findings(rs)[i].0 == rs[k].1,
    decreases rs.len(),
{
    if rs.len() > 0 {
        let prev = rs.drop_last();
        assert forall|i: int, j: int| 0 <= i < j < prev.len() implies #[trigger] prev[i].1 >= #[trigger] prev[j].1 by {
            assert(prev[i] == rs[i] && prev[j] == rs[j]);
        }
        lemma_fired_sorted(prev);
        let f = fired_findings(rs);
        let fp = fired_findings(prev);
        assert forall|i: int| 0 <= i < fp.len() implies #[trigger] fp[i].0 >= rs.last().1 by {
            let k = choose|k: int| 0 <= k < prev.len() && fp[i].0 == prev[k].1;
            assert(prev[k] == rs[k]);
            assert(rs[k].1 >= rs[rs.len() - 1].1);
        }
        assert forall|i: int| 0 <= i < f.len() implies exists|k: int| 0 <= k < rs.len() && #[trigger] f[i].0 == rs[k].1 by {
            if i < fp.len() {
                assert(f[i] == fp[i]);
                let k = choose|k: int| 0 <= k < prev.len() && fp[i].0 == prev[k].1;
                assert(prev[k] == rs[k]);
            } else {
                assert(f[i].0 == rs[rs.len() - 1].1);
            }
        }
        assert forall|i: int, j: int| 0 <= i < j < f.len() implies #[trigger] f[i].0 >= #[trigger] f[j].0 by {
            if j < fp.len() {
                assert(f[i] == fp[i] && f[j] == fp[j]);
            } else {
                assert(f[i] == fp[i]);
            }
        }
    }
}

/// The findings are at most [`MAX_FINDINGS`] and come heaviest first.
pub proof fn law_findings_bounded_and_sorted(snapshot: InvestigationSnapshot, sections: FactualSections, runner_up: Option<VibeLabel>)
    ensures
        findings_spec(snapshot, sections, runner_up).len() <= MAX_FINDINGS,
        heaviest_first(findings_spec(snapshot, sections, runner_up)),
{
    let rs = finding_rules_spec(snapshot, sections);
    lemma_fired_sorted(rs);
    let base = fired_findings(rs);
    let f = findings_spec(snapshot, sections, runner_up);
    if runner_up is Some && base.len() < MAX_FINDINGS {
        assert forall|i: int| 0 <= i < base.len() implies #[trigger] base[i].0 >= 5 by {
            let k = choose|k: int| 0 <= k < rs.len() && base[i].0 == rs[k].1;
        }
        assert forall|i: int, j: int| 0 <= i < j < f.len() implies #[trigger] f[i].0 >= #[trigger] f[j].0 by {
            assert(f[i] == base[i]);
        }
    }
}

/// With no two rules of one weight, a rule's weight appears among the findings
/// exactly when the rule fired, and then with the rule's texts.
proof fn lemma_fired_weight(rs: Seq<RuleV>, k: int)
    requires
        0 <= k < rs.len(),
        forall|i: int, j: int| 0 <= i < rs.len() && 0 <= j < rs.len() && i != j ==> #[trigger] rs[i].1 != #[trigger] rs[j].1,
    ensures
        (exists|i: int| 0 <= i < fired_findings(rs).len() && #[trigger] fired_findings(rs)[i].0 == rs[k].1) <==> rs[k].0,
        forall|i: int| 0 <= i < fired_findings(rs).len() && #[trigger] fired_findings(rs)[i].0 == rs[k].1
            ==> fired_findings(rs)[i] == (rs[k].1, rs[k].2, rs[k].3),
        forall|i: int| 0 <= i < fired_findings(rs).len() ==> exists|j: int| 0 <= j < rs.len() && #[trigger] fired_findings(rs)[i].0 == rs[j].1,
    decreases rs.len(),
{
    let prev = rs.drop_last();
    let f = fired_findings(rs);
    let fp = fired_findings(prev);
    let n = rs.len() - 1;
    if n > 0 {
        assert forall|i: int, j: int| 0 <= i < prev.len() && 0 <= j < prev.len() && i != j implies #[trigger] prev[i].1 != #[trigger] prev[j].1 by {
            assert(prev[i] == rs[i] && prev[j] == rs[j]);
        }
        lemma_fired_weight(prev, if k < n { k } else { 0 });
    } else {
        assert(fp.len() == 0);
    }
    // Every earlier finding carries the weight of an earlier rule, never rule `n`'s.
    assert forall|i: int| 0 <= i < fp.len() implies #[trigger] fp[i].0 != rs[n].1 && exists|j: int| 0 <= j < n && fp[i].0 == rs[j].1 by {
        let j = choose|j: int| 0 <= j < prev.len() && #[trigger] fp[i].0 == prev[j].1;
        assert(prev[j] == rs[j]);
    }
    assert forall|i: int| 0 <= i < f.len() implies exists|j: int| 0 <= j < rs.len() && #[trigger] f[i].0 == rs[j].1 by {
        if i < fp.len() {
            assert(f[i] == fp[i]);
            let j = choose|j: int| 0 <= j < n && fp[i].0 == rs[j].1;
        } else {
            assert(f[i].0 == rs[n].1);
        }
    }
    if k == n {
        if rs[k].0 {
            assert(f[fp.len() as int].0 == rs[k].1);
        }
        assert forall|i: int| 0 <= i < f.len() && #[trigger] f[i].0 == rs[k].1 implies f[i] == (rs[k].1, rs[k].2, rs[k].3) by {
            if i < fp.len() {
                assert(f[i] == fp[i]);
            }
        }
        if exists|i: int| 0 <= i < f.len() && #[trigger] f[i].0 == rs[k].1 {
            let i = choose|i: int| 0 <= i < f.len() && #[trigger] f[i].0 == rs[k].1;
            if i < fp.len() {
                assert(f[i] == fp[i]);
            }
        }
    } else {
        assert(prev[k] == rs[k]);
        assert(rs[k].1 != rs[n].1);
        if rs[k].0 {
            let i = choose|i: int| 0 <= i < fp.len() && #[trigger] fp[i].0 == prev[k].1;
            assert(f[i] == fp[i]);
        }
        assert forall|i: int| 0 <= i < f.len() && #[trigger] f[i].0 == rs[k].1 implies f[i] == (rs[k].1, rs[k].2, rs[k].3) by {
            if i < fp.len() {
                assert(f[i] == fp[i]);
            }
        }
        if exists|i: int| 0 <= i < f.len() && #[trigger] f[i].0 == rs[k].1 {
            let i = choose|i: int| 0 <= i < f.len() && #[trigger] f[i].0 == rs[k].1;
            if i < fp.len() {
                assert(f[i] == fp[i]);
            }
        }
    }
}

/// Adding a line of weight 5 changes nothing about the findings of another weight.
proof fn lemma_runner_apart(base: Seq<(u32, Seq<char>, Seq<char>)>, f: Seq<(u32, Seq<char>, Seq<char>)>, w: u32)
    requires
        w != 5,
        f == base || (f.len() == base.len() + 1 && f.drop_last() == base && f.last().0 == 5),
    ensures
        (exists|i: int| 0 <= i < f.len() && #[trigger] f[i].0 == w) <==> (exists|i: int| 0 <= i < base.len() && #[trigger] base[i].0 == w),
        forall|i: int| 0 <= i < f.len() && #[trigger] f[i].0 == w ==> i < base.len() && f[i] == base[i],
{
    if f != base {
        assert forall|i: int| 0 <= i < base.len() implies #[trigger] f[i] == base[i] by {
            assert(f.drop_last()[i] == f[i]);
        }
        if exists|i: int| 0 <= i < f.len() && #[trigger] f[i].0 == w {
            let i = choose|i: int| 0 <= i < f.len() && #[trigger] f[i].0 == w;
            assert(i < base.len());
            assert(base[i].0 == w);
        }
        if exists|i: int| 0 <= i < base.len() && #[trigger] base[i].0 == w {
            let i = choose|i: int| 0 <= i < base.len() && #[trigger] base[i].0 == w;
            assert(f[i].0 == w);
        }
    }
}

/// Which findings appear, in terms of the repository: the bus-factor-1 finding
/// (weight 100), the dominant author at 80% or more (95), no CI (80), 15 or more
/// stale branches (70), 30% or more night commits (60) and an age of five years or
/// more (50), each exactly when its condition holds. The stale-branch finding shows
/// the number of stale branches; a repository with fewer than 15 stale branches never
/// gets it, whatever its total number of branches.
pub proof fn law_findings_fire(snapshot: InvestigationSnapshot, sections: FactualSections, runner_up: Option<VibeLabel>)
    ensures
        ({
            let f = findings_spec(snapshot, sections, runner_up);
            let h = snapshot.history;
            let stale = sections.branch_jungle.stale;
            &&& (exists|i: int| 0 <= i < f.len() && #[trigger] f[i].0 == 100) <==> h.bus_factor == 1
            &&& (exists|i: int| 0 <= i < f.len() && #[trigger] f[i].0 == 95) <==> (h.top_author_share_pct.whole > 0
                && h.top_author_share_pct.part * 100 >= 80 * h.top_author_share_pct.whole)
            &&& (exists|i: int| 0 <= i < f.len() && #[trigger] f[i].0 == 80) <==> !has_ci_spec(sections.infrastructure)
            &&& (exists|i: int| 0 <= i < f.len() && #[trigger] f[i].0 == 70) <==> stale >= 15
            &&& (exists|i: int| 0 <= i < f.len() && #[trigger] f[i].0 == 60) <==> (h.night_pct.whole > 0
                && h.night_pct.part * 100 >= 30 * h.night_pct.whole)
            &&& (exists|i: int| 0 <= i < f.len() && #[trigger] f[i].0 == 50) <==> h.repo_age_days >= 5 * 365
            &&& forall|i: int| 0 <= i < f.len() && #[trigger] f[i].0 == 70 ==> {
                &&& f[i].1 == "Có "@ + dec_nat(stale as nat) + " nhánh bỏ hoang chưa được dọn dẹp trong repo."@
                &&& f[i].2 == "There are "@ + dec_nat(stale as nat) + " stale branches left abandoned in the repo."@
            }
        }),
{
    let rs = finding_rules_spec(snapshot, sections);
    let base = fired_findings(rs);
    let f = findings_spec(snapshot, sections, runner_up);
    let h = snapshot.history;
    assert forall|i: int, j: int| 0 <= i < rs.len() && 0 <= j < rs.len() && i != j implies #[trigger] rs[i].1 != #[trigger] rs[j].1 by {}
    lemma_fired_weight(rs, 0);
    lemma_fired_weight(rs, 1);
    lemma_fired_weight(rs, 2);
    lemma_fired_weight(rs, 3);
    lemma_fired_weight(rs, 4);
    lemma_fired_weight(rs, 5);
    // The runner-up line, when added, weighs 5, which no rule weighs.
    assert(f == base || (f.len() == base.len() + 1 && f.drop_last() == base && f.last().0 == 5)) by {
        if f.len() != base.len() {
            assert(f.drop_last() =~= base);
        }
    }
    lemma_runner_apart(base, f, 100);
    lemma_runner_apart(base, f, 95);
    lemma_runner_apart(base, f, 80);
    lemma_runner_apart(base, f, 70);
    lemma_runner_apart(base, f, 60);
    lemma_runner_apart(base, f, 50);
    let sh = h.top_author_share_pct;
    if sh.whole > 0 {
        crate::share::law_share_rounding(sh);
        let b = basis_points(sh);
        assert(b >= 8000 <==> sh.part * 100 >= 80 * sh.whole) by (nonlinear_arith)
            requires
                b * sh.whole <= sh.part * 10000 < (b + 1) * sh.whole,
                sh.whole > 0,
        ;
    }
    let nt = h.night_pct;
    if nt.whole > 0 {
        crate::share::law_share_rounding(nt);
        let b = basis_points(nt);
        assert(b >= 3000 <==> nt.part * 100 >= 30 * nt.whole) by (nonlinear_arith)
            requires
                b * nt.whole <= nt.part * 10000 < (b + 1) * nt.whole,
                nt.whole > 0,
        ;
    }
    assert(trunc_div(h.repo_age_days as int, 365) >= 5 <==> h.repo_age_days >= 5 * 365);
}

fn rule(fired: bool, weight: u32, vi: String, en: String) -> (r: Rule)
    ensures
        rule_view(r) == (fired, weight, vi@, en@),
{
    Rule { fired, points: weight, text: Bilingual { vi, en } }
}

fn finding_rules(snapshot: &InvestigationSnapshot, sections: &FactualSections) -> (v: Vec<Rule>)
    ensures
        rules_view(v@) == finding_rules_spec(*snapshot, *sections),
{
    let h = &snapshot.history;
    let name: &str = match &h.top_contributor_name {
        Some(n) => n.as_str(),
        None => "Unknown",
    };
    let mut v: Vec<Rule> = Vec::new();

    let mut vi = String::from_str("Hệ số xe buýt của dự án bằng 1. Nếu ");
    vi.append(name);
    vi.append(" biến mất, dự án sẽ gặp nguy cơ lớn!");
    let mut en = String::from_str("The project's bus factor is 1. If ");
    en.append(name);
    en.append(" goes missing, the project is in high danger!");
    v.push(rule(h.bus_factor == 1, 100, vi, en));

    let mut vi = String::from_str(name);
    vi.append(" đóng góp áp đảo với ");
    push_pct1(&mut vi, h.top_author_share_pct);
    vi.append("% tổng số commit.");
    let mut en = String::from_str(name);
    en.append(" dominates contribution with ");
    push_pct1(&mut en, h.top_author_share_pct);
    en.append("% of all commits.");
    v.push(rule(h.top_author_share_pct.bp() >= 8000, 95, vi, en));

    let f = &sections.infrastructure;
    let has_ci = f.github_actions || f.gitlab_ci || f.circleci || f.jenkins;
    v.push(rule(!has_ci, 80,
        String::from_str("Dự án hoạt động không có lưới bảo vệ CI/CD tự động."),
        String::from_str("The project operates without any automated CI/CD safety net.")));

    let stale = sections.branch_jungle.stale;
    let mut vi = String::from_str("Có ");
    push_decimal(&mut vi, stale as u64);
    vi.append(" nhánh bỏ hoang chưa được dọn dẹp trong repo.");
    let mut en = String::from_str("There are ");
    push_decimal(&mut en, stale as u64);
    en.append(" stale branches left abandoned in the repo.");
    v.push(rule(stale >= 15, 70, vi, en));

    let mut vi = String::from_str("Các nhà phát triển làm việc nhiều về đêm (");
    push_pct1(&mut vi, h.night_pct);
    vi.append("% commit thực hiện từ nửa đêm đến 5 giờ sáng).");
    let mut en = String::from_str("Developers work hard through the night (");
    push_pct1(&mut en, h.night_pct);
    en.append("% commits between midnight and 5am).");
    v.push(rule(h.night_pct.bp() >= 3000, 60, vi, en));

    let age_days: i128 = h.repo_age_days as i128;
    let age_years: i64 = if age_days >= 0 {
        (age_days / 365) as i64
    } else {
        (-((-age_days) / 365)) as i64
    };
    let mut vi = String::from_str("Dự án đã hoạt động bền bỉ trong ");
    push_int(&mut vi, age_years);
    vi.append(" năm qua.");
    let mut en = String::from_str("The project has been active for ");
    push_int(&mut en, age_years);
    en.append(" years.");
    v.push(rule(age_years >= 5, 50, vi, en));
    proof {
        assert(rules_view(v@) =~= finding_rules_spec(*snapshot, *sections));
    }
    v
}

/// The fired rules as findings, in rule order.
fn keep_fired(rules: Vec<Rule>) -> (r: Vec<Finding>)
    ensures
        findings_view(r@) == fired_findings(rules_view(rules@)),
{
    let mut r: Vec<Finding> = Vec::new();
    let mut rules = rules;
    let ghost all = rules_view(rules@);
    let ghost n = rules@.len();
    let mut i: usize = 0;
    let len = rules.len();
    while i < len
        invariant
            len == n,
            rules@.len() == n - i,
            i <= n,
            all.len() == n,
            forall|k: int| 0 <= k < n - i ==> rule_view(#[trigger] rules@[k]) == all[i + k],
            findings_view(r@) == fired_findings(all.subrange(0, i as int)),
        decreases len - i,
    {
        let ghost prev = r@;
        let ghost before = rules@;
        let first = rules.remove(0);
        proof {
            assert(rule_view(first) == all[i as int]);
            assert forall|k: int| 0 <= k < n - i - 1 implies rule_view(#[trigger] rules@[k]) == all[i + 1 + k] by {
                assert(rules@[k] == before[k + 1]);
            }
            assert(all.subrange(0, i + 1).drop_last() =~= all.subrange(0, i as int));
        }
        if first.fired {
            r.push(Finding { text: first.text, weight: first.points });
            proof {
                assert(findings_view(r@) =~= findings_view(prev) + seq![(all[i as int].1, all[i as int].2, all[i as int].3)]);
            }
        } else {
            proof {
                assert(findings_view(r@) =~= findings_view(prev) + Seq::<(u32, Seq<char>, Seq<char>)>::empty());
            }
        }
        i = i + 1;
    }
    proof {
        assert(all.subrange(0, n as int) =~= all);
    }
    r
}

/// Section 8: the fired finding rules, heaviest first, at most [`MAX_FINDINGS`], and a
/// closing line on the runner-up personality when there is room.
pub fn interesting_findings(snapshot: &InvestigationSnapshot, sections: &FactualSections, vibe: &VibeResult) -> (r: Vec<Finding>)
    ensures
        findings_view(r@) == findings_spec(*snapshot, *sections, vibe.runner_up),
        r@.len() <= MAX_FINDINGS,
        heaviest_first(findings_view(r@)),
{
    let mut list = keep_fired(finding_rules(snapshot, sections));
    let ghost base = list@;
    match vibe.runner_up {
        Some(runner) => {
            if list.len() < MAX_FINDINGS {
                let name = runner.display();
                let mut vi = String::from_str("Cũng phảng phất khí chất ");
                vi.append(name.vi.as_str());
                let mut en = String::from_str("Also gives off ");
                en.append(name.en.as_str());
                en.append(" energy");
                list.push(Finding { text: Bilingual { vi, en }, weight: 5 });
                proof {
                    assert(findings_view(list@) =~= findings_view(base).push(runner_finding(runner)));
                }
            }
        },
        None => {},
    }
    proof {
        law_findings_bounded_and_sorted(*snapshot, *sections, vibe.runner_up);
        lemma_fired_sorted(finding_rules_spec(*snapshot, *sections));
        assert(findings_view(base).len() == base.len());
    }
    list
}

} // verus!
