//! What the report's sections show under each label.

use vstd::prelude::*;
use vstd::string::*;
use crate::report::sections::FirstImpressions;
use crate::analyze::commit::CommitCrimes;
use crate::analyze::relics::AncientRelics;
use crate::analyze::infra::InfrastructureFootprints;
use crate::tui::section::{Color, LineV};
use crate::tui::format::{thousands_spec, strip_commas, law_thousands_strip};
use crate::tui::report::{
    section_spec, field_label, opt_name, opt_count, last_activity_text, first_impressions_spec, commit_crimes_spec,
    ancient_relics_spec, infrastructure_spec, tick, flag_line,
};
use crate::text::{dec_nat, dec_int, pct1};

verus! {

/// `ls` has a line of two spans whose first span is `label`, and every such line
/// shows `value` in its second span.
pub open spec fn value_under(ls: Seq<LineV>, label: Seq<char>, value: Seq<char>) -> bool {
    &&& exists|i: int| 0 <= i < ls.len() && (#[trigger] ls[i]).len() == 2 && ls[i][0].0 == label
    &&& forall|i: int| 0 <= i < ls.len() && (#[trigger] ls[i]).len() == 2 && ls[i][0].0 == label ==> ls[i][1].0 == value
}

proof fn lemma_value_under(ls: Seq<LineV>, k: int, label: Seq<char>)
    requires
        0 <= k < ls.len(),
        ls[k].len() == 2,
        ls[k][0].0 == label,
        forall|j: int| 0 <= j < ls.len() && j != k && (#[trigger] ls[j]).len() == 2 ==> ls[j][0].0 != label,
    ensures
        value_under(ls, label, ls[k][1].0),
{
}

/// The lines of a section: five heading lines (none of two spans), the facts, and a
/// spacer of no span.
proof fn lemma_section_shape(title: Seq<char>, en: Seq<char>, color: Color, nvi: Seq<char>, nen: Seq<char>,
    facts: Seq<LineV>)
    ensures
        ({
            let ls = section_spec(title, en, color, nvi, nen, facts, true);
            &&& ls.len() == facts.len() + 6
            &&& forall|j: int| 0 <= j < 5 ==> (#[trigger] ls[j]).len() <= 1
            &&& forall|k: int| 0 <= k < facts.len() ==> ls[k + 5] == #[trigger] facts[k]
            &&& ls[facts.len() + 5int].len() == 0
        }),
{
    let ls = section_spec(title, en, color, nvi, nen, facts, true);
    assert forall|k: int| 0 <= k < facts.len() implies ls[k + 5] == #[trigger] facts[k] by {}
}

/// The First Impressions section shows the repository's age in days, its default
/// branch, its stars and forks (a dash when unknown), its contributors and its last
/// activity, each under its own label.
pub proof fn law_first_impressions_figures(fi: FirstImpressions, now_secs: i64)
    ensures
        ({
            let ls = first_impressions_spec(fi, now_secs);
            &&& value_under(ls, field_label("Tuổi repo"@, "Repo age"@), dec_int(fi.repo_age_days as int) + " ngày / days"@)
            &&& value_under(ls, field_label("Nhánh mặc định"@, "Default branch"@), fi.default_branch@)
            &&& value_under(ls, field_label("Số sao"@, "Stars"@), opt_count(fi.stars))
            &&& value_under(ls, field_label("Số fork"@, "Forks"@), opt_count(fi.forks))
            &&& value_under(ls, field_label("Người đóng góp"@, "Contributors"@), thousands_spec(fi.contributor_count as nat))
            &&& value_under(ls, field_label("Hoạt động gần nhất"@, "Last activity"@), last_activity_text(fi.last_activity_secs, now_secs))
        }),
{
    reveal_strlit("  ");
    reveal_strlit(": ");
    reveal_strlit("Tuổi repo");
    reveal_strlit("Repo age");
    reveal_strlit("Nhánh mặc định");
    reveal_strlit("Default branch");
    reveal_strlit("Số sao");
    reveal_strlit("Stars");
    reveal_strlit("Số fork");
    reveal_strlit("Forks");
    reveal_strlit("Người đóng góp");
    reveal_strlit("Contributors");
    reveal_strlit("Hoạt động gần nhất");
    reveal_strlit("Last activity");
    let ls = first_impressions_spec(fi, now_secs);
    let facts = ls.subrange(5, 11);
    lemma_section_shape("🌱 BÁO CÁO BAN ĐẦU"@, "🌱 FIRST IMPRESSIONS"@, Color::Green,
        "Ferris ghé mắt nhìn qua dự án này lần đầu..."@, "Ferris took a quick glance at this project..."@,
        seq![
            crate::tui::report::field_line("Tuổi repo"@, "Repo age"@, dec_int(fi.repo_age_days as int) + " ngày / days"@),
            crate::tui::report::field_line("Nhánh mặc định"@, "Default branch"@, fi.default_branch@),
            crate::tui::report::field_line("Số sao"@, "Stars"@, opt_count(fi.stars)),
            crate::tui::report::field_line("Số fork"@, "Forks"@, opt_count(fi.forks)),
            crate::tui::report::field_line("Người đóng góp"@, "Contributors"@, thousands_spec(fi.contributor_count as nat)),
            crate::tui::report::field_line("Hoạt động gần nhất"@, "Last activity"@, last_activity_text(fi.last_activity_secs, now_secs)),
        ]);
    let l0 = field_label("Tuổi repo"@, "Repo age"@);
    let l1 = field_label("Nhánh mặc định"@, "Default branch"@);
    let l2 = field_label("Số sao"@, "Stars"@);
    let l3 = field_label("Số fork"@, "Forks"@);
    let l4 = field_label("Người đóng góp"@, "Contributors"@);
    let l5 = field_label("Hoạt động gần nhất"@, "Last activity"@);
    assert(ls[5][0].0 == l0 && ls[6][0].0 == l1 && ls[7][0].0 == l2 && ls[8][0].0 == l3 && ls[9][0].0 == l4 && ls[10][0].0 == l5);
    assert(l0.len() == 24 && l1.len() == 35 && l2.len() == 18 && l3.len() == 19 && l4.len() == 33 && l5.len() == 38);
    lemma_value_under(ls, 5, l0);
    lemma_value_under(ls, 6, l1);
    lemma_value_under(ls, 7, l2);
    lemma_value_under(ls, 8, l3);
    lemma_value_under(ls, 9, l4);
    lemma_value_under(ls, 10, l5);
}

/// The Commit Crimes section shows the total commits, this month's commits, the top
/// contributor (a dash when unknown), the bus factor and the top author's share, each
/// under its own label.
pub proof fn law_commit_crimes_figures(cc: CommitCrimes)
    ensures
        ({
            let ls = commit_crimes_spec(cc);
            &&& value_under(ls, field_label("Tổng commit"@, "Total commits"@), thousands_spec(cc.total_commits as nat))
            &&& value_under(ls, field_label("Commit tháng này"@, "Commits this month"@), thousands_spec(cc.commits_this_month as nat))
            &&& value_under(ls, field_label("Trùm commit"@, "Top contributor"@), opt_name(cc.top_contributor.deep_view()))
            &&& value_under(ls, field_label("Hệ số xe buýt"@, "Bus factor"@), thousands_spec(cc.bus_factor as nat))
            &&& value_under(ls, field_label("Tỷ lệ đóng góp lớn nhất"@, "Top author share"@), pct1(cc.top_author_share_pct) + "%"@)
        }),
{
    reveal_strlit("  ");
    reveal_strlit(": ");
    reveal_strlit("Tổng commit");
    reveal_strlit("Total commits");
    reveal_strlit("Commit tháng này");
    reveal_strlit("Commits this month");
    reveal_strlit("Trùm commit");
    reveal_strlit("Top contributor");
    reveal_strlit("Hệ số xe buýt");
    reveal_strlit("Bus factor");
    reveal_strlit("Tỷ lệ đóng góp lớn nhất");
    reveal_strlit("Top author share");
    let ls = commit_crimes_spec(cc);
    lemma_section_shape("☠️ TỘI ÁC COMMIT"@, "☠️ COMMIT CRIMES"@, Color::Red,
        "Ferris lục lại đống lịch sử commit của dự án và phát hiện vài điều..."@,
        "Ferris dug through the commit history and uncovered some secrets..."@,
        seq![
            crate::tui::report::field_line("Tổng commit"@, "Total commits"@, thousands_spec(cc.total_commits as nat)),
            crate::tui::report::field_line("Commit tháng này"@, "Commits this month"@, thousands_spec(cc.commits_this_month as nat)),
            crate::tui::report::field_line("Trùm commit"@, "Top contributor"@, opt_name(cc.top_contributor.deep_view())),
            crate::tui::report::field_line("Hệ số xe buýt"@, "Bus factor"@, thousands_spec(cc.bus_factor as nat)),
            crate::tui::report::field_line("Tỷ lệ đóng góp lớn nhất"@, "Top author share"@, pct1(cc.top_author_share_pct) + "%"@),
        ]);
    let l0 = field_label("Tổng commit"@, "Total commits"@);
    let l1 = field_label("Commit tháng này"@, "Commits this month"@);
    let l2 = field_label("Trùm commit"@, "Top contributor"@);
    let l3 = field_label("Hệ số xe buýt"@, "Bus factor"@);
    let l4 = field_label("Tỷ lệ đóng góp lớn nhất"@, "Top author share"@);
    assert(ls[5][0].0 == l0 && ls[6][0].0 == l1 && ls[7][0].0 == l2 && ls[8][0].0 == l3 && ls[9][0].0 == l4);
    assert(l0.len() == 31 && l1.len() == 41 && l2.len() == 33 && l3.len() == 30 && l4.len() == 46);
    lemma_value_under(ls, 5, l0);
    lemma_value_under(ls, 6, l1);
    lemma_value_under(ls, 7, l2);
    lemma_value_under(ls, 8, l3);
    lemma_value_under(ls, 9, l4);
}

/// The Ancient Relics section shows the oldest file, the most modified file, the
/// oldest contributor and the longest-living branch (each a dash when unknown), each
/// under its own label.
pub proof fn law_ancient_relics_figures(ar: AncientRelics)
    ensures
        ({
            let ls = ancient_relics_spec(ar);
            &&& value_under(ls, field_label("File cổ nhất"@, "Oldest file"@), opt_name(ar.oldest_file.deep_view()))
            &&& value_under(ls, field_label("File bị sửa nhiều nhất"@, "Most modified file"@), opt_name(ar.most_modified_file.deep_view()))
            &&& value_under(ls, field_label("Người cũ nhất"@, "Oldest contributor"@), opt_name(ar.oldest_contributor.deep_view()))
            &&& value_under(ls, field_label("Nhánh lâu đời nhất"@, "Longest living branch"@), opt_name(ar.longest_living_branch.deep_view()))
        }),
{
    reveal_strlit("  ");
    reveal_strlit(": ");
    reveal_strlit("File cổ nhất");
    reveal_strlit("Oldest file");
    reveal_strlit("File bị sửa nhiều nhất");
    reveal_strlit("Most modified file");
    reveal_strlit("Người cũ nhất");
    reveal_strlit("Oldest contributor");
    reveal_strlit("Nhánh lâu đời nhất");
    reveal_strlit("Longest living branch");
    let ls = ancient_relics_spec(ar);
    lemma_section_shape("🏺 CỔ VẬT VÔ GIÁ"@, "🏺 ANCIENT RELICS"@, Color::Yellow,
        "Ferris đi tìm những mảnh khảo cổ cổ xưa nhất còn sót lại..."@,
        "Ferris went looking for the oldest archaeological remains left..."@,
        seq![
            crate::tui::report::field_line("File cổ nhất"@, "Oldest file"@, opt_name(ar.oldest_file.deep_view())),
            crate::tui::report::field_line("File bị sửa nhiều nhất"@, "Most modified file"@, opt_name(ar.most_modified_file.deep_view())),
            crate::tui::report::field_line("Người cũ nhất"@, "Oldest contributor"@, opt_name(ar.oldest_contributor.deep_view())),
            crate::tui::report::field_line("Nhánh lâu đời nhất"@, "Longest living branch"@, opt_name(ar.longest_living_branch.deep_view())),
        ]);
    let l0 = field_label("File cổ nhất"@, "Oldest file"@);
    let l1 = field_label("File bị sửa nhiều nhất"@, "Most modified file"@);
    let l2 = field_label("Người cũ nhất"@, "Oldest contributor"@);
    let l3 = field_label("Nhánh lâu đời nhất"@, "Longest living branch"@);
    assert(ls[5][0].0 == l0 && ls[6][0].0 == l1 && ls[7][0].0 == l2 && ls[8][0].0 == l3);
    assert(l0.len() == 30 && l1.len() == 47 && l2.len() == 38 && l3.len() == 46);
    lemma_value_under(ls, 5, l0);
    lemma_value_under(ls, 6, l1);
    lemma_value_under(ls, 7, l2);
    lemma_value_under(ls, 8, l3);
}

/// The Infrastructure Footprints section shows, under the name of each of the eight
/// footprints, a check mark when it was found and a cross when it was not.
pub proof fn law_infrastructure_figures(f: InfrastructureFootprints, plain: bool)
    ensures
        ({
            let ls = infrastructure_spec(f, plain);
            &&& value_under(ls, field_label("Docker"@, "Docker"@), tick(f.docker, plain).0)
            &&& value_under(ls, field_label("Terraform"@, "Terraform"@), tick(f.terraform, plain).0)
            &&& value_under(ls, field_label("GitHub Actions"@, "GitHub Actions"@), tick(f.github_actions, plain).0)
            &&& value_under(ls, field_label("GitLab CI"@, "GitLab CI"@), tick(f.gitlab_ci, plain).0)
            &&& value_under(ls, field_label("CircleCI"@, "CircleCI"@), tick(f.circleci, plain).0)
            &&& value_under(ls, field_label("Jenkins"@, "Jenkins"@), tick(f.jenkins, plain).0)
            &&& value_under(ls, field_label("Dependabot"@, "Dependabot"@), tick(f.dependabot, plain).0)
            &&& value_under(ls, field_label("Renovate"@, "Renovate"@), tick(f.renovate, plain).0)
        }),
        forall|b: bool| (#[trigger] tick(b, plain)).0.last() == (if b { '✓' } else { '✗' }),
{
    reveal_strlit("  ");
    reveal_strlit(": ");
    reveal_strlit("✓");
    reveal_strlit(" ✓");
    reveal_strlit("✗");
    reveal_strlit(" ✗");
    reveal_strlit("Docker");
    reveal_strlit("Terraform");
    reveal_strlit("GitHub Actions");
    reveal_strlit("GitLab CI");
    reveal_strlit("CircleCI");
    reveal_strlit("Jenkins");
    reveal_strlit("Dependabot");
    reveal_strlit("Renovate");
    let ls = infrastructure_spec(f, plain);
    lemma_section_shape("⚙️ DẤU VẾT HẠ TẦNG"@, "⚙️ INFRASTRUCTURE FOOTPRINTS"@, Color::Gray,
        "Ferris quét qua các file cấu hình và phát hiện dấu vết hạ tầng..."@,
        "Ferris scanned config files and detected infrastructure footprints..."@,
        seq![
            flag_line("Docker"@, f.docker, plain),
            flag_line("Terraform"@, f.terraform, plain),
            flag_line("GitHub Actions"@, f.github_actions, plain),
            flag_line("GitLab CI"@, f.gitlab_ci, plain),
            flag_line("CircleCI"@, f.circleci, plain),
            flag_line("Jenkins"@, f.jenkins, plain),
            flag_line("Dependabot"@, f.dependabot, plain),
            flag_line("Renovate"@, f.renovate, plain),
        ]);
    let l0 = field_label("Docker"@, "Docker"@);
    let l1 = field_label("Terraform"@, "Terraform"@);
    let l2 = field_label("GitHub Actions"@, "GitHub Actions"@);
    let l3 = field_label("GitLab CI"@, "GitLab CI"@);
    let l4 = field_label("CircleCI"@, "CircleCI"@);
    let l5 = field_label("Jenkins"@, "Jenkins"@);
    let l6 = field_label("Dependabot"@, "Dependabot"@);
    let l7 = field_label("Renovate"@, "Renovate"@);
    assert(ls[5][0].0 == l0 && ls[6][0].0 == l1 && ls[7][0].0 == l2 && ls[8][0].0 == l3 && ls[9][0].0 == l4 && ls[10][0].0 == l5 && ls[11][0].0 == l6 && ls[12][0].0 == l7);
    assert(l0.len() == 19 && l1.len() == 25 && l2.len() == 35 && l3.len() == 25 && l4.len() == 23 && l5.len() == 21 && l6.len() == 27 && l7.len() == 23);
    assert(l1[2] != l3[2]);
    assert(l4[2] != l7[2]);
    lemma_value_under(ls, 5, l0);
    lemma_value_under(ls, 6, l1);
    lemma_value_under(ls, 7, l2);
    lemma_value_under(ls, 8, l3);
    lemma_value_under(ls, 9, l4);
    lemma_value_under(ls, 10, l5);
    lemma_value_under(ls, 11, l6);
    lemma_value_under(ls, 12, l7);
}

} // verus!
