//! Section 9: strengths, risks and the overall health label.

use vstd::prelude::*;
use crate::share::basis_points;
use vstd::string::*;
use crate::i18n::Bilingual;
use crate::snapshot::InvestigationSnapshot;
use crate::report::sections::FactualSections;
use crate::analyze::rules::{Rule, RuleV, rule_view, rules_view, rules_score, rules_evidence, texts, tally, lemma_evidence_step};
use crate::analyze::vibes::{has_ci_spec, days_since_spec, vibe_signals, b2n};
use crate::text::{dec_nat, dec_int, pct1, push_decimal, push_int, push_pct1};

verus! {

/// What is good about the repository, what puts it at risk, and the overall label.
#[derive(Debug, Clone)]
pub struct CrabVerdict {
    pub strengths: Vec<Bilingual>,
    pub risks: Vec<Bilingual>,
    pub overall_label: Bilingual,
}

pub open spec fn days_or_zero(d: Option<i64>) -> i64 {
    match d {
        Some(x) => x,
        None => 0,
    }
}

/// The strength rules, each worth one.
pub open spec fn strength_rules_spec(snapshot: InvestigationSnapshot, sections: FactualSections, now_secs: i64) -> Seq<RuleV> {
    let h = snapshot.history;
    let days = days_since_spec(sections, now_secs);
    seq![
        (days is Some && days_or_zero(days) <= 30, 1u32,
            "Dự án có hoạt động gần đây khá tích cực."@,
            "The project has recent activity and is actively maintained."@),
        (has_ci_spec(sections.infrastructure), 1u32,
            "Hạ tầng có trang bị lưới bảo vệ CI/CD tự động."@,
            "CI/CD pipeline provides automatic integration checks."@),
        (h.bus_factor >= 3, 1u32,
            "Tri thức dự án được phân bổ tốt (Hệ số xe buýt "@ + dec_nat(h.bus_factor as nat) + ")."@,
            "Project knowledge is distributed (Bus factor "@ + dec_nat(h.bus_factor as nat) + ")."@),
        (basis_points(h.top_author_share_pct) < 4500, 1u32,
            "Đóng góp từ cộng đồng cân bằng, không phụ thuộc quá mức vào một cá nhân."@,
            "Healthy contributor distribution without single-dev dominance."@),
        (h.release_tag_count > 0, 1u32,
            "Dự án có phát hành phiên bản rõ ràng ("@ + dec_nat(h.release_tag_count as nat) + " thẻ phát hành)."@,
            "The project tracks releases with tags ("@ + dec_nat(h.release_tag_count as nat) + " release tags)."@),
    ]
}

/// The risk rules, each worth one.
pub open spec fn risk_rules_spec(snapshot: InvestigationSnapshot, sections: FactualSections, now_secs: i64) -> Seq<RuleV> {
    let h = snapshot.history;
    let days = days_since_spec(sections, now_secs);
    let stale = sections.branch_jungle.stale;
    seq![
        (h.bus_factor == 1, 1u32,
            "Nguy cơ nghẽn tri thức cao khi hệ số xe buýt bằng 1."@,
            "High risk of knowledge loss with bus factor 1."@),
        (!has_ci_spec(sections.infrastructure), 1u32,
            "Không có hệ thống kiểm thử tự động, dễ gặp lỗi khi có người đóng góp mới."@,
            "No automated CI/CD safety net increases regression risks."@),
        (stale >= 10, 1u32,
            "Repo chứa nhiều nhánh bị bỏ hoang ("@ + dec_nat(stale as nat) + " nhánh stale)."@,
            "Repo holds many abandoned branches ("@ + dec_nat(stale as nat) + " stale branches)."@),
        (days is Some && days_or_zero(days) > 120, 1u32,
            "Dự án đang trong trạng thái ngủ đông (không hoạt động "@ + dec_int(days_or_zero(days) as int) + " ngày)."@,
            "The project seems dormant (no activity for "@ + dec_int(days_or_zero(days) as int) + " days)."@),
        (basis_points(h.top_author_share_pct) >= 7000, 1u32,
            "Đóng góp phụ thuộc quá nhiều vào tác giả chính ("@ + pct1(h.top_author_share_pct) + "%)."@,
            "Contributions are highly dependent on the main author ("@ + pct1(h.top_author_share_pct) + "%)."@),
    ]
}

/// The overall label for the numbers of strengths and risks.
pub open spec fn overall_label_spec(strengths: nat, risks: nat) -> Seq<char> {
    if risks == 0 && strengths >= 3 {
        "Khỏe mạnh / Healthy"@
    } else if risks >= 3 {
        "Bị ám / Haunted"@
    } else {
        "Cần chăm sóc / Needs care"@
    }
}

/// The evidence of five rules counts those that fired.
proof fn lemma_evidence_of_five(rs: Seq<RuleV>)
    requires
        rs.len() == 5,
    ensures
        rules_evidence(rs).len() == b2n(rs[0].0) + b2n(rs[1].0) + b2n(rs[2].0) + b2n(rs[3].0) + b2n(rs[4].0),
{
    assert(rs.subrange(0, 0) =~= Seq::<RuleV>::empty());
    lemma_evidence_step(rs, 0);
    lemma_evidence_step(rs, 1);
    lemma_evidence_step(rs, 2);
    lemma_evidence_step(rs, 3);
    lemma_evidence_step(rs, 4);
    assert(rs.subrange(0, 5) =~= rs);
}

/// The verdict in terms of the repository: one strength for each of recent activity
/// (within 30 days), CI, a bus factor of at least 3, a top author under 45% and a
/// release tag; one risk for each of a bus factor of 1, no CI, 10 or more stale
/// branches, more than 120 days without activity and a top author at 70% or more.
/// The label is Healthy exactly when no risk fired and at least three strengths did,
/// Haunted exactly when three or more risks fired, and Needs care otherwise; so any
/// fired risk rules Healthy out.
pub proof fn law_verdict(snapshot: InvestigationSnapshot, sections: FactualSections, now_secs: i64)
    ensures
        ({
            let h = snapshot.history;
            let days = days_since_spec(sections, now_secs);
            let st = rules_evidence(strength_rules_spec(snapshot, sections, now_secs)).len();
            let rk = rules_evidence(risk_rules_spec(snapshot, sections, now_secs)).len();
            let label = overall_label_spec(st, rk);
            &&& st == b2n(days is Some && days_or_zero(days) <= 30) + b2n(has_ci_spec(sections.infrastructure))
                + b2n(h.bus_factor >= 3) + b2n(h.top_author_share_pct.whole > 0 && h.top_author_share_pct.part * 100
                < 45 * h.top_author_share_pct.whole || h.top_author_share_pct.whole == 0) + b2n(h.release_tag_count > 0)
            &&& rk == b2n(h.bus_factor == 1) + b2n(!has_ci_spec(sections.infrastructure))
                + b2n(sections.branch_jungle.stale >= 10) + b2n(days is Some && days_or_zero(days) > 120)
                + b2n(h.top_author_share_pct.whole > 0 && h.top_author_share_pct.part * 100 >= 70 * h.top_author_share_pct.whole)
            &&& (label == "Khỏe mạnh / Healthy"@ <==> rk == 0 && st >= 3)
            &&& (label == "Bị ám / Haunted"@ <==> rk >= 3)
            &&& (label == "Cần chăm sóc / Needs care"@ <==> !(rk == 0 && st >= 3) && rk < 3)
        }),
{
    reveal_strlit("Khỏe mạnh / Healthy");
    reveal_strlit("Bị ám / Haunted");
    reveal_strlit("Cần chăm sóc / Needs care");
    let h = snapshot.history;
    let sh = h.top_author_share_pct;
    lemma_evidence_of_five(strength_rules_spec(snapshot, sections, now_secs));
    lemma_evidence_of_five(risk_rules_spec(snapshot, sections, now_secs));
    if sh.whole > 0 {
        crate::share::law_share_rounding(sh);
        let b = crate::share::basis_points(sh);
        assert(b < 4500 <==> sh.part * 100 < 45 * sh.whole) by (nonlinear_arith)
            requires
                b * sh.whole <= sh.part * 10000 < (b + 1) * sh.whole,
                sh.whole > 0,
        ;
        assert(b >= 7000 <==> sh.part * 100 >= 70 * sh.whole) by (nonlinear_arith)
            requires
                b * sh.whole <= sh.part * 10000 < (b + 1) * sh.whole,
                sh.whole > 0,
        ;
    }
    assert("Khỏe mạnh / Healthy"@.len() != "Bị ám / Haunted"@.len());
    assert("Khỏe mạnh / Healthy"@.len() != "Cần chăm sóc / Needs care"@.len());
    assert("Bị ám / Haunted"@.len() != "Cần chăm sóc / Needs care"@.len());
}

/// With every rule worth one, the score counts the evidence.
proof fn lemma_unit_score(rs: Seq<RuleV>)
    requires
        forall|i: int| 0 <= i < rs.len() ==> (#[trigger] rs[i]).1 == 1,
    ensures
        rules_score(rs) == rules_evidence(rs).len(),
    decreases rs.len(),
{
    if rs.len() > 0 {
        assert forall|i: int| 0 <= i < rs.drop_last().len() implies (#[trigger] rs.drop_last()[i]).1 == 1 by {
            assert(rs.drop_last()[i] == rs[i]);
        }
        lemma_unit_score(rs.drop_last());
    }
}

fn rule(fired: bool, vi: String, en: String) -> (r: Rule)
    ensures
        rule_view(r) == (fired, 1u32, vi@, en@),
{
    Rule { fired, points: 1, text: Bilingual { vi, en } }
}

fn count_fired(rules: &Vec<Rule>) -> (r: (u32, Vec<Bilingual>))
    requires
        rules@.len() == 5,
        forall|i: int| 0 <= i < rules@.len() ==> (#[trigger] rules@[i]).points == 1,
    ensures
        r.0 == r.1@.len(),
        texts(r.1@) == rules_evidence(rules_view(rules@)),
{
    proof {
        assert forall|i: int| 0 <= i < rules_view(rules@).len() implies (#[trigger] rules_view(rules@)[i]).1 == 1 by {
            assert(rules_view(rules@)[i] == rule_view(rules@[i]));
        }
        lemma_unit_score(rules_view(rules@));
        crate::analyze::vibes::lemma_small_score(rules_view(rules@));
    }
    let r = tally(rules);
    proof {
        assert(texts(r.1@).len() == r.1@.len());
    }
    r
}

fn strength_rules(snapshot: &InvestigationSnapshot, sections: &FactualSections, now_secs: i64) -> (v: Vec<Rule>)
    ensures
        rules_view(v@) == strength_rules_spec(*snapshot, *sections, now_secs),
        v@.len() == 5,
        forall|i: int| 0 <= i < v@.len() ==> (#[trigger] v@[i]).points == 1,
{
    let h = &snapshot.history;
    let g = vibe_signals(snapshot, sections, now_secs);
    let mut v: Vec<Rule> = Vec::new();
    let active = match g.days_since_last_commit {
        Some(d) => d <= 30,
        None => false,
    };
    v.push(rule(active, String::from_str("Dự án có hoạt động gần đây khá tích cực."),
        String::from_str("The project has recent activity and is actively maintained.")));
    v.push(rule(g.has_ci, String::from_str("Hạ tầng có trang bị lưới bảo vệ CI/CD tự động."),
        String::from_str("CI/CD pipeline provides automatic integration checks.")));

    let mut vi = String::from_str("Tri thức dự án được phân bổ tốt (Hệ số xe buýt ");
    push_decimal(&mut vi, h.bus_factor as u64);
    vi.append(").");
    let mut en = String::from_str("Project knowledge is distributed (Bus factor ");
    push_decimal(&mut en, h.bus_factor as u64);
    en.append(").");
    v.push(rule(h.bus_factor >= 3, vi, en));

    v.push(rule(h.top_author_share_pct.bp() < 4500,
        String::from_str("Đóng góp từ cộng đồng cân bằng, không phụ thuộc quá mức vào một cá nhân."),
        String::from_str("Healthy contributor distribution without single-dev dominance.")));

    let mut vi = String::from_str("Dự án có phát hành phiên bản rõ ràng (");
    push_decimal(&mut vi, h.release_tag_count as u64);
    vi.append(" thẻ phát hành).");
    let mut en = String::from_str("The project tracks releases with tags (");
    push_decimal(&mut en, h.release_tag_count as u64);
    en.append(" release tags).");
    v.push(rule(h.release_tag_count > 0, vi, en));
    proof {
        assert(rules_view(v@) =~= strength_rules_spec(*snapshot, *sections, now_secs));
    }
    v
}

fn risk_rules(snapshot: &InvestigationSnapshot, sections: &FactualSections, now_secs: i64) -> (v: Vec<Rule>)
    ensures
        rules_view(v@) == risk_rules_spec(*snapshot, *sections, now_secs),
        v@.len() == 5,
        forall|i: int| 0 <= i < v@.len() ==> (#[trigger] v@[i]).points == 1,
{
    let h = &snapshot.history;
    let g = vibe_signals(snapshot, sections, now_secs);
    let mut v: Vec<Rule> = Vec::new();
    v.push(rule(h.bus_factor == 1, String::from_str("Nguy cơ nghẽn tri thức cao khi hệ số xe buýt bằng 1."),
        String::from_str("High risk of knowledge loss with bus factor 1.")));
    v.push(rule(!g.has_ci, String::from_str("Không có hệ thống kiểm thử tự động, dễ gặp lỗi khi có người đóng góp mới."),
        String::from_str("No automated CI/CD safety net increases regression risks.")));

    let stale = sections.branch_jungle.stale;
    let mut vi = String::from_str("Repo chứa nhiều nhánh bị bỏ hoang (");
    push_decimal(&mut vi, stale as u64);
    vi.append(" nhánh stale).");
    let mut en = String::from_str("Repo holds many abandoned branches (");
    push_decimal(&mut en, stale as u64);
    en.append(" stale branches).");
    v.push(rule(stale >= 10, vi, en));

    let (known, days) = match g.days_since_last_commit {
        Some(d) => (true, d),
        None => (false, 0i64),
    };
    let mut vi = String::from_str("Dự án đang trong trạng thái ngủ đông (không hoạt động ");
    push_int(&mut vi, days);
    vi.append(" ngày).");
    let mut en = String::from_str("The project seems dormant (no activity for ");
    push_int(&mut en, days);
    en.append(" days).");
    v.push(rule(known && days > 120, vi, en));

    let mut vi = String::from_str("Đóng góp phụ thuộc quá nhiều vào tác giả chính (");
    push_pct1(&mut vi, h.top_author_share_pct);
    vi.append("%).");
    let mut en = String::from_str("Contributions are highly dependent on the main author (");
    push_pct1(&mut en, h.top_author_share_pct);
    en.append("%).");
    v.push(rule(h.top_author_share_pct.bp() >= 7000, vi, en));
    proof {
        assert(rules_view(v@) =~= risk_rules_spec(*snapshot, *sections, now_secs));
    }
    v
}

/// Section 9: the strengths and risks that fire, in rule order, and the overall
/// label: Healthy with no risk and at least three strengths, Haunted with three risks
/// or more, Needs care otherwise.
pub fn crab_verdict(snapshot: &InvestigationSnapshot, sections: &FactualSections, now_secs: i64) -> (v: CrabVerdict)
    ensures
        texts(v.strengths@) == rules_evidence(strength_rules_spec(*snapshot, *sections, now_secs)),
        texts(v.risks@) == rules_evidence(risk_rules_spec(*snapshot, *sections, now_secs)),
        v.overall_label.vi@ == overall_label_spec(v.strengths@.len(), v.risks@.len()),
        v.overall_label.en@ == overall_label_spec(v.strengths@.len(), v.risks@.len()),
{
    let strengths = count_fired(&strength_rules(snapshot, sections, now_secs));
    let risks = count_fired(&risk_rules(snapshot, sections, now_secs));
    let label = if risks.0 == 0 && strengths.0 >= 3 {
        "Khỏe mạnh / Healthy"
    } else if risks.0 >= 3 {
        "Bị ám / Haunted"
    } else {
        "Cần chăm sóc / Needs care"
    };
    CrabVerdict { strengths: strengths.1, risks: risks.1, overall_label: Bilingual::new(label, label) }
}

} // verus!
