//! The report as styled lines: a header, then nine sections, each a title, an
//! English title, a two-line narrative and its facts.

use vstd::prelude::*;
use vstd::string::*;
use crate::i18n::{Bilingual, inline_text, inline_label};
use crate::app::session::InvestigationSession;
use crate::snapshot::InvestigationSnapshot;
use crate::report::sections::{FactualSections, FirstImpressions};
use crate::analyze::commit::CommitCrimes;
use crate::analyze::branch::BranchJungle;
use crate::analyze::relics::AncientRelics;
use crate::analyze::language::{LanguageSoup, LanguageEntry};
use crate::analyze::infra::InfrastructureFootprints;
use crate::analyze::vibes::{VibeLabel, VibeResult, label_text, classify_vibes, signals_spec, top_name_spec, vibe_scores, primary_index, vibe_labels, runner_from, vibe_evidence};
use crate::analyze::findings::{Finding, findings_view, findings_spec, interesting_findings};
use crate::analyze::verdict::{CrabVerdict, crab_verdict, strength_rules_spec, risk_rules_spec, overall_label_spec};
use crate::analyze::rules::{texts, rules_evidence};
use crate::tui::section::{Color, SpanStyle, Span, Line, Section, LineV, SpanV, line_view, lines_view, plain_style, blank};
use crate::tui::format::{thousands, thousands_spec, dash_or, dash, relative_date, relative_date_spec, ascii_bar, ascii_bar_spec, strip_commas, law_thousands_strip};
use crate::text::{dec_int, dec_nat, pct1, push_int, push_pct1};
use crate::clock::{utc_datetime, utc_datetime_text};
use crate::share::Share;

verus! {

/// A foreground color alone.
pub open spec fn fg(c: Color) -> SpanStyle {
    SpanStyle { fg: Some(c), bold: false, italic: false }
}

/// A bold foreground color.
pub open spec fn fg_bold(c: Color) -> SpanStyle {
    SpanStyle { fg: Some(c), bold: true, italic: false }
}

/// Bold, in the terminal's color.
pub open spec fn bold_style() -> SpanStyle {
    SpanStyle { fg: None, bold: true, italic: false }
}

/// The narrative's dim italics.
pub open spec fn narrative_style() -> SpanStyle {
    SpanStyle { fg: Some(Color::DarkGray), bold: false, italic: true }
}

/// A line of one span.
pub open spec fn one(text: Seq<char>, style: SpanStyle) -> LineV {
    seq![(text, style)]
}

/// The label of a fact: `  vi / en: `.
pub open spec fn field_label(vi: Seq<char>, en: Seq<char>) -> Seq<char> {
    "  "@ + inline_text(vi, en) + ": "@
}

/// A fact: its label, then its value in cyan.
pub open spec fn field_line(vi: Seq<char>, en: Seq<char>, value: Seq<char>) -> LineV {
    seq![(field_label(vi, en), plain_style()), (value, fg(Color::Cyan))]
}

/// A section: its title, the English title and the narrative (indented), a blank
/// line, the facts, and a blank spacer unless `spacer` is false.
pub open spec fn section_spec(title: Seq<char>, en: Seq<char>, color: Color, nvi: Seq<char>, nen: Seq<char>,
    facts: Seq<LineV>, spacer: bool) -> Seq<LineV>
{
    seq![
        one(title, fg_bold(color)),
        one("   "@ + en, fg_bold(color)),
        one("   "@ + nvi, narrative_style()),
        one("   "@ + nen, narrative_style()),
        blank(),
    ] + facts + (if spacer { seq![blank()] } else { seq![] })
}

/// A count with thousands separators, or a dash when unknown.
pub open spec fn opt_count(o: Option<u64>) -> Seq<char> {
    match o {
        Some(n) => thousands_spec(n as nat),
        None => dash(),
    }
}

/// A name, or a dash when unknown.
pub open spec fn opt_name(o: Option<Seq<char>>) -> Seq<char> {
    match o {
        Some(s) => s,
        None => dash(),
    }
}

/// The header: the brand, the two-language subtitle, the repository, the date the
/// investigation started and the case identifier, then a blank line.
pub open spec fn header_spec(session: InvestigationSession) -> Seq<LineV> {
    seq![
        one("🦀 rust-to-you"@, fg_bold(Color::LightRed)),
        one("   "@ + "Báo cáo Điều tra Repository"@, bold_style()),
        one("   "@ + "Repository Investigation Report"@, bold_style()),
        seq![("Repository: "@, plain_style()), (session.repo.owner@ + "/"@ + session.repo.repo@, fg_bold(Color::LightBlue))],
        seq![("Điều tra ngày / Date: "@, plain_style()), (opt_name(utc_datetime_text(session.started_at_secs)), fg(Color::LightGreen))],
        seq![("Case ID: "@, plain_style()), (session.case_id@, fg(Color::LightYellow))],
        blank(),
    ]
}

/// How long ago the last activity was, or a dash.
pub open spec fn last_activity_text(last: Option<i64>, now_secs: i64) -> Seq<char> {
    match last {
        Some(t) => relative_date_spec(now_secs, t),
        None => dash(),
    }
}

/// Section 1.
pub open spec fn first_impressions_spec(fi: FirstImpressions, now_secs: i64) -> Seq<LineV> {
    section_spec("🌱 BÁO CÁO BAN ĐẦU"@, "🌱 FIRST IMPRESSIONS"@, Color::Green,
        "Ferris ghé mắt nhìn qua dự án này lần đầu..."@, "Ferris took a quick glance at this project..."@,
        seq![
            field_line("Tuổi repo"@, "Repo age"@, dec_int(fi.repo_age_days as int) + " ngày / days"@),
            field_line("Nhánh mặc định"@, "Default branch"@, fi.default_branch@),
            field_line("Số sao"@, "Stars"@, opt_count(fi.stars)),
            field_line("Số fork"@, "Forks"@, opt_count(fi.forks)),
            field_line("Người đóng góp"@, "Contributors"@, thousands_spec(fi.contributor_count as nat)),
            field_line("Hoạt động gần nhất"@, "Last activity"@, last_activity_text(fi.last_activity_secs, now_secs)),
        ], true)
}

/// Section 2.
pub open spec fn commit_crimes_spec(cc: CommitCrimes) -> Seq<LineV> {
    section_spec("☠️ TỘI ÁC COMMIT"@, "☠️ COMMIT CRIMES"@, Color::Red,
        "Ferris lục lại đống lịch sử commit của dự án và phát hiện vài điều..."@,
        "Ferris dug through the commit history and uncovered some secrets..."@,
        seq![
            field_line("Tổng commit"@, "Total commits"@, thousands_spec(cc.total_commits as nat)),
            field_line("Commit tháng này"@, "Commits this month"@, thousands_spec(cc.commits_this_month as nat)),
            field_line("Trùm commit"@, "Top contributor"@, opt_name(cc.top_contributor.deep_view())),
            field_line("Hệ số xe buýt"@, "Bus factor"@, thousands_spec(cc.bus_factor as nat)),
            field_line("Tỷ lệ đóng góp lớn nhất"@, "Top author share"@, pct1(cc.top_author_share_pct) + "%"@),
        ], true)
}

/// Section 3.
pub open spec fn branch_jungle_spec(bj: BranchJungle) -> Seq<LineV> {
    section_spec("🔥 RỪNG RẬM UM TÙM"@, "🔥 BRANCH JUNGLE"@, Color::LightRed,
        "Ferris lạc vào mê cung các nhánh của repo này..."@, "Ferris got lost in the labyrinth of branches here..."@,
        seq![
            field_line("Tổng số nhánh"@, "Total branches"@, thousands_spec(bj.total as nat)),
            field_line("Nhánh hoạt động"@, "Active branches"@, thousands_spec(bj.active as nat)),
            field_line("Nhánh bỏ hoang"@, "Stale branches"@, thousands_spec(bj.stale as nat)),
            field_line("Nhánh cổ nhất"@, "Oldest branch"@, opt_name(bj.oldest_branch.deep_view())),
        ], true)
}

/// The Branch Jungle section shows each count under its own label: the value on the
/// line labelled `Tổng số nhánh / Total branches` is the total, on `Nhánh hoạt động
/// / Active branches` the active count, and on `Nhánh bỏ hoang / Stale branches` the
/// stale count (each in decimal once its thousands separators are dropped), and each
/// of these lines is there.
pub proof fn law_branch_jungle_figures(bj: BranchJungle)
    ensures
        ({
            let ls = branch_jungle_spec(bj);
            let total = field_label("Tổng số nhánh"@, "Total branches"@);
            let active = field_label("Nhánh hoạt động"@, "Active branches"@);
            let stale = field_label("Nhánh bỏ hoang"@, "Stale branches"@);
            &&& forall|i: int| 0 <= i < ls.len() && (#[trigger] ls[i]).len() == 2 && ls[i][0].0 == total
                ==> strip_commas(ls[i][1].0) == dec_nat(bj.total as nat)
            &&& forall|i: int| 0 <= i < ls.len() && (#[trigger] ls[i]).len() == 2 && ls[i][0].0 == active
                ==> strip_commas(ls[i][1].0) == dec_nat(bj.active as nat)
            &&& forall|i: int| 0 <= i < ls.len() && (#[trigger] ls[i]).len() == 2 && ls[i][0].0 == stale
                ==> strip_commas(ls[i][1].0) == dec_nat(bj.stale as nat)
            &&& exists|i: int| 0 <= i < ls.len() && (#[trigger] ls[i]).len() == 2 && ls[i][0].0 == total
            &&& exists|i: int| 0 <= i < ls.len() && (#[trigger] ls[i]).len() == 2 && ls[i][0].0 == active
            &&& exists|i: int| 0 <= i < ls.len() && (#[trigger] ls[i]).len() == 2 && ls[i][0].0 == stale
        }),
{
    reveal_strlit("  ");
    reveal_strlit(": ");
    reveal_strlit("Tổng số nhánh");
    reveal_strlit("Total branches");
    reveal_strlit("Nhánh hoạt động");
    reveal_strlit("Active branches");
    reveal_strlit("Nhánh bỏ hoang");
    reveal_strlit("Stale branches");
    reveal_strlit("Nhánh cổ nhất");
    reveal_strlit("Oldest branch");
    let ls = branch_jungle_spec(bj);
    let total = field_label("Tổng số nhánh"@, "Total branches"@);
    let active = field_label("Nhánh hoạt động"@, "Active branches"@);
    let stale = field_label("Nhánh bỏ hoang"@, "Stale branches"@);
    let oldest = field_label("Nhánh cổ nhất"@, "Oldest branch"@);
    law_thousands_strip(bj.total as nat);
    law_thousands_strip(bj.active as nat);
    law_thousands_strip(bj.stale as nat);
    assert(ls.len() == 10);
    assert(ls[5] == field_line("Tổng số nhánh"@, "Total branches"@, thousands_spec(bj.total as nat)));
    assert(ls[6] == field_line("Nhánh hoạt động"@, "Active branches"@, thousands_spec(bj.active as nat)));
    assert(ls[7] == field_line("Nhánh bỏ hoang"@, "Stale branches"@, thousands_spec(bj.stale as nat)));
    assert(ls[8] == field_line("Nhánh cổ nhất"@, "Oldest branch"@, opt_name(bj.oldest_branch.deep_view())));
    assert(ls[0].len() == 1 && ls[1].len() == 1 && ls[2].len() == 1 && ls[3].len() == 1 && ls[4].len() == 0 && ls[9].len() == 0);
    assert(total.len() != active.len() && total.len() != stale.len() && active.len() != stale.len());
    assert(oldest.len() != total.len() && oldest.len() != active.len() && oldest.len() != stale.len());
    assert(ls[5][0].0 == total && ls[6][0].0 == active && ls[7][0].0 == stale && ls[8][0].0 == oldest);
}

/// Section 4.
pub open spec fn ancient_relics_spec(ar: AncientRelics) -> Seq<LineV> {
    section_spec("🏺 CỔ VẬT VÔ GIÁ"@, "🏺 ANCIENT RELICS"@, Color::Yellow,
        "Ferris đi tìm những mảnh khảo cổ cổ xưa nhất còn sót lại..."@,
        "Ferris went looking for the oldest archaeological remains left..."@,
        seq![
            field_line("File cổ nhất"@, "Oldest file"@, opt_name(ar.oldest_file.deep_view())),
            field_line("File bị sửa nhiều nhất"@, "Most modified file"@, opt_name(ar.most_modified_file.deep_view())),
            field_line("Người cũ nhất"@, "Oldest contributor"@, opt_name(ar.oldest_contributor.deep_view())),
            field_line("Nhánh lâu đời nhất"@, "Longest living branch"@, opt_name(ar.longest_living_branch.deep_view())),
        ], true)
}

fn span(text: String, style: SpanStyle) -> (s: Span)
    ensures
        s.content@ == text@,
        s.style == style,
{
    Span { content: text, style }
}

fn line1(text: String, style: SpanStyle) -> (l: Line)
    ensures
        line_view(l) == one(text@, style),
{
    let mut spans: Vec<Span> = Vec::new();
    spans.push(span(text, style));
    let l = Line { spans };
    proof {
        assert(line_view(l) =~= one(text@, style));
    }
    l
}

fn line2(a: String, sa: SpanStyle, b: String, sb: SpanStyle) -> (l: Line)
    ensures
        line_view(l) == seq![(a@, sa), (b@, sb)],
{
    let mut spans: Vec<Span> = Vec::new();
    spans.push(span(a, sa));
    spans.push(span(b, sb));
    let l = Line { spans };
    proof {
        assert(line_view(l) =~= seq![(a@, sa), (b@, sb)]);
    }
    l
}

fn style(fg: Option<Color>, bold: bool, italic: bool) -> (s: SpanStyle)
    ensures
        s == (SpanStyle { fg, bold, italic }),
{
    SpanStyle { fg, bold, italic }
}

fn indented(s: &str) -> (r: String)
    ensures
        r@ == "   "@ + s@,
{
    let mut r = String::from_str("   ");
    r.append(s);
    r
}

fn field(vi: &str, en: &str, value: String) -> (l: Line)
    ensures
        line_view(l) == field_line(vi@, en@, value@),
{
    let mut label = String::from_str("  ");
    let il = inline_label(&Bilingual::new(vi, en));
    label.append(il.as_str());
    label.append(": ");
    line2(label, SpanStyle::plain(), value, style(Some(Color::Cyan), false, false))
}

fn section(title: &str, en: &str, color: Color, nvi: &str, nen: &str, facts: Vec<Line>, spacer: bool) -> (out: Vec<Line>)
    ensures
        lines_view(out@) == section_spec(title@, en@, color, nvi@, nen@, lines_view(facts@), spacer),
{
    let ghost f = lines_view(facts@);
    let mut body: Vec<Line> = Vec::new();
    body.push(line1(indented(en), style(Some(color), true, false)));
    body.push(line1(indented(nvi), style(Some(Color::DarkGray), false, true)));
    body.push(line1(indented(nen), style(Some(Color::DarkGray), false, true)));
    body.push(Line::default());
    let mut facts = facts;
    body.append(&mut facts);
    let sec = Section { title: line1(String::from_str(title), style(Some(color), true, false)), body };
    let ghost tv = line_view(sec.title);
    let ghost bv = lines_view(sec.body@);
    let mut out = sec.into_lines();
    proof {
        assert(line_view(body@[3]) =~= blank());
        assert(bv =~= seq![one("   "@ + en@, fg_bold(color)), one("   "@ + nvi@, narrative_style()),
            one("   "@ + nen@, narrative_style()), blank()] + f);
    }
    if !spacer {
        let ghost before = out@;
        assert(lines_view(before).len() == before.len());
        assert(before.len() >= 1);
        out.pop();
        proof {
            assert(out@ =~= before.drop_last());
            assert(lines_view(out@) =~= lines_view(before).drop_last());
            assert(line_view(sec.title) == tv);
            assert(lines_view(out@) =~= section_spec(title@, en@, color, nvi@, nen@, f, spacer));
        }
    } else {
        proof {
            assert(lines_view(out@) =~= section_spec(title@, en@, color, nvi@, nen@, f, spacer));
        }
    }
    out
}

fn opt_name_text(o: &Option<String>) -> (r: String)
    ensures
        r@ == opt_name(o.deep_view()),
{
    dash_or(crate::analyze::clone_opt(o), |n: String| -> (m: String) ensures m == n { n })
}

fn opt_count_text(o: Option<u64>) -> (r: String)
    ensures
        r@ == opt_count(o),
{
    dash_or(o, thousands)
}

fn header_lines(session: &InvestigationSession) -> (out: Vec<Line>)
    ensures
        lines_view(out@) == header_spec(*session),
{
    let mut out: Vec<Line> = Vec::new();
    out.push(line1(String::from_str("🦀 rust-to-you"), style(Some(Color::LightRed), true, false)));
    out.push(line1(indented("Báo cáo Điều tra Repository"), style(None, true, false)));
    out.push(line1(indented("Repository Investigation Report"), style(None, true, false)));
    let mut repo = session.repo.owner.clone();
    repo.append("/");
    repo.append(session.repo.repo.as_str());
    out.push(line2(String::from_str("Repository: "), SpanStyle::plain(), repo, style(Some(Color::LightBlue), true, false)));
    let date = opt_name_text(&utc_datetime(session.started_at_secs));
    out.push(line2(String::from_str("Điều tra ngày / Date: "), SpanStyle::plain(), date, style(Some(Color::LightGreen), false, false)));
    out.push(line2(String::from_str("Case ID: "), SpanStyle::plain(), session.case_id.clone(), style(Some(Color::LightYellow), false, false)));
    out.push(Line::default());
    proof {
        assert(line_view(out@[6]) =~= blank());
        assert(lines_view(out@) =~= header_spec(*session));
    }
    out
}

fn first_impressions_lines(fi: &FirstImpressions, now_secs: i64) -> (out: Vec<Line>)
    requires
        fi.last_activity_secs matches Some(t) ==> i64::MIN <= now_secs - t <= i64::MAX,
    ensures
        lines_view(out@) == first_impressions_spec(*fi, now_secs),
{
    let mut facts: Vec<Line> = Vec::new();
    let mut age = String::new();
    push_int(&mut age, fi.repo_age_days);
    age.append(" ngày / days");
    facts.push(field("Tuổi repo", "Repo age", age));
    facts.push(field("Nhánh mặc định", "Default branch", fi.default_branch.clone()));
    facts.push(field("Số sao", "Stars", opt_count_text(fi.stars)));
    facts.push(field("Số fork", "Forks", opt_count_text(fi.forks)));
    facts.push(field("Người đóng góp", "Contributors", thousands(fi.contributor_count as u64)));
    let last = dash_or(fi.last_activity_secs, |t: i64| -> (r: String)
        requires
            i64::MIN <= now_secs - t <= i64::MAX,
        ensures
            r@ == relative_date_spec(now_secs, t),
        { relative_date(now_secs, t) });
    facts.push(field("Hoạt động gần nhất", "Last activity", last));
    proof {
        assert(lines_view(facts@) =~= seq![
            field_line("Tuổi repo"@, "Repo age"@, dec_int(fi.repo_age_days as int) + " ngày / days"@),
            field_line("Nhánh mặc định"@, "Default branch"@, fi.default_branch@),
            field_line("Số sao"@, "Stars"@, opt_count(fi.stars)),
            field_line("Số fork"@, "Forks"@, opt_count(fi.forks)),
            field_line("Người đóng góp"@, "Contributors"@, thousands_spec(fi.contributor_count as nat)),
            field_line("Hoạt động gần nhất"@, "Last activity"@, last_activity_text(fi.last_activity_secs, now_secs)),
        ]);
    }
    section("🌱 BÁO CÁO BAN ĐẦU", "🌱 FIRST IMPRESSIONS", Color::Green,
        "Ferris ghé mắt nhìn qua dự án này lần đầu...", "Ferris took a quick glance at this project...", facts, true)
}

fn commit_crimes_lines(cc: &CommitCrimes) -> (out: Vec<Line>)
    ensures
        lines_view(out@) == commit_crimes_spec(*cc),
{
    let mut facts: Vec<Line> = Vec::new();
    facts.push(field("Tổng commit", "Total commits", thousands(cc.total_commits as u64)));
    facts.push(field("Commit tháng này", "Commits this month", thousands(cc.commits_this_month as u64)));
    facts.push(field("Trùm commit", "Top contributor", opt_name_text(&cc.top_contributor)));
    facts.push(field("Hệ số xe buýt", "Bus factor", thousands(cc.bus_factor as u64)));
    let mut share = String::new();
    push_pct1(&mut share, cc.top_author_share_pct);
    share.append("%");
    facts.push(field("Tỷ lệ đóng góp lớn nhất", "Top author share", share));
    proof {
        assert(lines_view(facts@) =~= seq![
            field_line("Tổng commit"@, "Total commits"@, thousands_spec(cc.total_commits as nat)),
            field_line("Commit tháng này"@, "Commits this month"@, thousands_spec(cc.commits_this_month as nat)),
            field_line("Trùm commit"@, "Top contributor"@, opt_name(cc.top_contributor.deep_view())),
            field_line("Hệ số xe buýt"@, "Bus factor"@, thousands_spec(cc.bus_factor as nat)),
            field_line("Tỷ lệ đóng góp lớn nhất"@, "Top author share"@, pct1(cc.top_author_share_pct) + "%"@),
        ]);
    }
    section("☠️ TỘI ÁC COMMIT", "☠️ COMMIT CRIMES", Color::Red,
        "Ferris lục lại đống lịch sử commit của dự án và phát hiện vài điều...",
        "Ferris dug through the commit history and uncovered some secrets...", facts, true)
}

fn branch_jungle_lines(bj: &BranchJungle) -> (out: Vec<Line>)
    ensures
        lines_view(out@) == branch_jungle_spec(*bj),
{
    let mut facts: Vec<Line> = Vec::new();
    facts.push(field("Tổng số nhánh", "Total branches", thousands(bj.total as u64)));
    facts.push(field("Nhánh hoạt động", "Active branches", thousands(bj.active as u64)));
    facts.push(field("Nhánh bỏ hoang", "Stale branches", thousands(bj.stale as u64)));
    facts.push(field("Nhánh cổ nhất", "Oldest branch", opt_name_text(&bj.oldest_branch)));
    proof {
        assert(lines_view(facts@) =~= seq![
            field_line("Tổng số nhánh"@, "Total branches"@, thousands_spec(bj.total as nat)),
            field_line("Nhánh hoạt động"@, "Active branches"@, thousands_spec(bj.active as nat)),
            field_line("Nhánh bỏ hoang"@, "Stale branches"@, thousands_spec(bj.stale as nat)),
            field_line("Nhánh cổ nhất"@, "Oldest branch"@, opt_name(bj.oldest_branch.deep_view())),
        ]);
    }
    section("🔥 RỪNG RẬM UM TÙM", "🔥 BRANCH JUNGLE", Color::LightRed,
        "Ferris lạc vào mê cung các nhánh của repo này...", "Ferris got lost in the labyrinth of branches here...", facts, true)
}

fn ancient_relics_lines(ar: &AncientRelics) -> (out: Vec<Line>)
    ensures
        lines_view(out@) == ancient_relics_spec(*ar),
{
    let mut facts: Vec<Line> = Vec::new();
    facts.push(field("File cổ nhất", "Oldest file", opt_name_text(&ar.oldest_file)));
    facts.push(field("File bị sửa nhiều nhất", "Most modified file", opt_name_text(&ar.most_modified_file)));
    facts.push(field("Người cũ nhất", "Oldest contributor", opt_name_text(&ar.oldest_contributor)));
    facts.push(field("Nhánh lâu đời nhất", "Longest living branch", opt_name_text(&ar.longest_living_branch)));
    proof {
        assert(lines_view(facts@) =~= seq![
            field_line("File cổ nhất"@, "Oldest file"@, opt_name(ar.oldest_file.deep_view())),
            field_line("File bị sửa nhiều nhất"@, "Most modified file"@, opt_name(ar.most_modified_file.deep_view())),
            field_line("Người cũ nhất"@, "Oldest contributor"@, opt_name(ar.oldest_contributor.deep_view())),
            field_line("Nhánh lâu đời nhất"@, "Longest living branch"@, opt_name(ar.longest_living_branch.deep_view())),
        ]);
    }
    section("🏺 CỔ VẬT VÔ GIÁ", "🏺 ANCIENT RELICS", Color::Yellow,
        "Ferris đi tìm những mảnh khảo cổ cổ xưa nhất còn sót lại...",
        "Ferris went looking for the oldest archaeological remains left...", facts, true)
}

/// `s` right-aligned in `width` characters, as `{:>width}` pads it.
pub open spec fn pad_left(s: Seq<char>, width: nat) -> Seq<char> {
    if s.len() < width { crate::tui::format::repeat(' ', (width - s.len()) as nat) + s } else { s }
}

/// A language: its name right-aligned in 15 characters, its bar, its share.
pub open spec fn language_line(name: Seq<char>, pct: Share) -> LineV {
    seq![
        ("  "@ + pad_left(name, 15) + " "@, plain_style()),
        (ascii_bar_spec(pct, 10), fg(Color::LightBlue)),
        (" "@ + pct1(pct) + "%"@, fg(Color::Cyan)),
    ]
}

pub open spec fn language_lines(langs: Seq<LanguageEntry>) -> Seq<LineV> {
    if langs.len() == 0 {
        seq![one("  —"@, plain_style())]
    } else {
        langs.map_values(|e: LanguageEntry| language_line(e.name@, e.pct))
    }
}

/// Section 5.
pub open spec fn language_soup_spec(ls: LanguageSoup) -> Seq<LineV> {
    section_spec("🌿 SÚP NGÔN NGỮ"@, "🌿 LANGUAGE SOUP"@, Color::LightBlue,
        "Ferris phân tích các thành phần ngôn ngữ cấu tạo nên repo..."@,
        "Ferris analyzed the linguistic ingredients of this repo..."@,
        language_lines(ls.languages@), true)
}

fn pad_left_text(s: &str, width: usize) -> (r: String)
    ensures
        r@ == pad_left(s@, width as nat),
{
    let n = s.unicode_len();
    let mut r = String::new();
    if n < width {
        let mut i: usize = 0;
        while i < width - n
            invariant
                n < width,
                i <= width - n,
                r@ == crate::tui::format::repeat(' ', i as nat),
            decreases width - n - i,
        {
            r.push(' ');
            i = i + 1;
            proof {
                assert(r@ =~= crate::tui::format::repeat(' ', i as nat));
            }
        }
    }
    r.append(s);
    proof {
        if n >= width {
            assert(r@ =~= s@);
        }
    }
    r
}

fn language_soup_lines(ls: &LanguageSoup) -> (out: Vec<Line>)
    ensures
        lines_view(out@) == language_soup_spec(*ls),
{
    let mut facts: Vec<Line> = Vec::new();
    if ls.languages.len() == 0 {
        facts.push(Line::raw("  —"));
        proof {
            assert(lines_view(facts@) =~= language_lines(ls.languages@));
        }
    } else {
        let mut i: usize = 0;
        while i < ls.languages.len()
            invariant
                i <= ls.languages@.len(),
                lines_view(facts@) == ls.languages@.subrange(0, i as int).map_values(|e: LanguageEntry| language_line(e.name@, e.pct)),
            decreases ls.languages.len() - i,
        {
            let e = &ls.languages[i];
            let mut name = String::from_str("  ");
            let padded = pad_left_text(e.name.as_str(), 15);
            name.append(padded.as_str());
            name.append(" ");
            let bar = ascii_bar(e.pct, 10);
            let mut pct = String::from_str(" ");
            push_pct1(&mut pct, e.pct);
            pct.append("%");
            let mut spans: Vec<Span> = Vec::new();
            spans.push(span(name, SpanStyle::plain()));
            spans.push(span(bar, style(Some(Color::LightBlue), false, false)));
            spans.push(span(pct, style(Some(Color::Cyan), false, false)));
            let l = Line { spans };
            let ghost prev = facts@;
            facts.push(l);
            proof {
                assert(line_view(l) =~= language_line(e.name@, e.pct));
                assert(lines_view(facts@) =~= lines_view(prev).push(line_view(l)));
                assert(ls.languages@.subrange(0, i + 1).map_values(|e: LanguageEntry| language_line(e.name@, e.pct))
                    =~= ls.languages@.subrange(0, i as int).map_values(|e: LanguageEntry| language_line(e.name@, e.pct)).push(language_line(e.name@, e.pct)));
            }
            i = i + 1;
        }
        proof {
            assert(ls.languages@.subrange(0, ls.languages@.len() as int) =~= ls.languages@);
        }
    }
    section("🌿 SÚP NGÔN NGỮ", "🌿 LANGUAGE SOUP", Color::LightBlue,
        "Ferris phân tích các thành phần ngôn ngữ cấu tạo nên repo...",
        "Ferris analyzed the linguistic ingredients of this repo...", facts, true)
}

/// A check mark or a cross; the styled view puts a space before it.
pub open spec fn tick(b: bool, plain: bool) -> SpanV {
    if b {
        ((if plain { "✓"@ } else { " ✓"@ }), fg_bold(Color::Green))
    } else {
        ((if plain { "✗"@ } else { " ✗"@ }), fg_bold(Color::Red))
    }
}

pub open spec fn flag_line(name: Seq<char>, b: bool, plain: bool) -> LineV {
    seq![(field_label(name, name), plain_style()), tick(b, plain)]
}

/// Section 6.
pub open spec fn infrastructure_spec(f: InfrastructureFootprints, plain: bool) -> Seq<LineV> {
    section_spec("⚙️ DẤU VẾT HẠ TẦNG"@, "⚙️ INFRASTRUCTURE FOOTPRINTS"@, Color::Gray,
        "Ferris quét qua các file cấu hình và phát hiện dấu vết hạ tầng..."@,
        "Ferris scanned config files and detected infrastructure footprints..."@,
        seq![
            flag_line("Docker"@, f.docker, plain),
            flag_line("Terraform"@, f.terraform, plain),
            flag_line("GitHub Actions"@, f.github_actions, plain),
            flag_line("GitLab CI"@, f.gitlab_ci, plain),
            flag_line("CircleCI"@, f.circleci, plain),
            flag_line("Jenkins"@, f.jenkins, plain),
            flag_line("Dependabot"@, f.dependabot, plain),
            flag_line("Renovate"@, f.renovate, plain),
        ], true)
}

fn flag(name: &str, b: bool, plain: bool) -> (l: Line)
    ensures
        line_view(l) == flag_line(name@, b, plain),
{
    let mut label = String::from_str("  ");
    let il = inline_label(&Bilingual::new(name, name));
    label.append(il.as_str());
    label.append(": ");
    let (mark, st) = if b {
        (if plain { "✓" } else { " ✓" }, style(Some(Color::Green), true, false))
    } else {
        (if plain { "✗" } else { " ✗" }, style(Some(Color::Red), true, false))
    };
    line2(label, SpanStyle::plain(), String::from_str(mark), st)
}

fn infrastructure_lines(f: &InfrastructureFootprints, plain: bool) -> (out: Vec<Line>)
    ensures
        lines_view(out@) == infrastructure_spec(*f, plain),
{
    let mut facts: Vec<Line> = Vec::new();
    facts.push(flag("Docker", f.docker, plain));
    facts.push(flag("Terraform", f.terraform, plain));
    facts.push(flag("GitHub Actions", f.github_actions, plain));
    facts.push(flag("GitLab CI", f.gitlab_ci, plain));
    facts.push(flag("CircleCI", f.circleci, plain));
    facts.push(flag("Jenkins", f.jenkins, plain));
    facts.push(flag("Dependabot", f.dependabot, plain));
    facts.push(flag("Renovate", f.renovate, plain));
    proof {
        assert(lines_view(facts@) =~= seq![
            flag_line("Docker"@, f.docker, plain),
            flag_line("Terraform"@, f.terraform, plain),
            flag_line("GitHub Actions"@, f.github_actions, plain),
            flag_line("GitLab CI"@, f.gitlab_ci, plain),
            flag_line("CircleCI"@, f.circleci, plain),
            flag_line("Jenkins"@, f.jenkins, plain),
            flag_line("Dependabot"@, f.dependabot, plain),
            flag_line("Renovate"@, f.renovate, plain),
        ]);
    }
    section("⚙️ DẤU VẾT HẠ TẦNG", "⚙️ INFRASTRUCTURE FOOTPRINTS", Color::Gray,
        "Ferris quét qua các file cấu hình và phát hiện dấu vết hạ tầng...",
        "Ferris scanned config files and detected infrastructure footprints...", facts, true)
}

/// Bullet lines: a marker in a style, then the bilingual text on one line.
pub open spec fn marked_lines(marker: Seq<char>, st: SpanStyle, items: Seq<(Seq<char>, Seq<char>)>) -> Seq<LineV> {
    items.map_values(|t: (Seq<char>, Seq<char>)| seq![(marker, st), (inline_text(t.0, t.1), plain_style())])
}

/// Section 7.
pub open spec fn vibes_spec(primary: VibeLabel, evidence: Seq<(Seq<char>, Seq<char>)>) -> Seq<LineV> {
    section_spec("🔮 KHÍ CHẤT REPOSITORY"@, "🔮 REPOSITORY VIBES"@, Color::Magenta,
        "Ferris cảm nhận được năng lượng từ repo này..."@, "Ferris senses the vibes of this repo..."@,
        seq![
            seq![(field_label("Khí chất chính"@, "Primary vibe"@), plain_style()), (label_text(primary), fg_bold(Color::Magenta))],
            blank(),
            one("  "@ + inline_text("Bằng chứng"@, "Evidence"@), bold_style()),
        ] + marked_lines("   • "@, plain_style(), evidence), true)
}

/// The texts of findings.
pub open spec fn finding_texts(f: Seq<(u32, Seq<char>, Seq<char>)>) -> Seq<(Seq<char>, Seq<char>)> {
    f.map_values(|x: (u32, Seq<char>, Seq<char>)| (x.1, x.2))
}

/// Section 8.
pub open spec fn findings_lines_spec(findings: Seq<(Seq<char>, Seq<char>)>) -> Seq<LineV> {
    section_spec("🔎 PHÁT HIỆN THÚ VỊ"@, "🔎 INTERESTING FINDINGS"@, Color::Cyan,
        "Ferris ghi chép lại các chi tiết đáng chú ý..."@, "Ferris notes down interesting observations..."@,
        marked_lines("  • "@, plain_style(), findings), true)
}

/// Section 9: the overall label, then the strengths and the risks when there are
/// any. The plain form ends without a spacer when there is no risk.
pub open spec fn verdict_spec(strengths: Seq<(Seq<char>, Seq<char>)>, risks: Seq<(Seq<char>, Seq<char>)>,
    label: Seq<char>, plain: bool) -> Seq<LineV>
{
    section_spec("🦀 PHÁN QUYẾT CỦA FERRIS"@, "🦀 CRAB VERDICT"@, Color::Red,
        "Ferris tổng hợp và đưa ra đánh giá cuối cùng..."@, "Ferris compiles and delivers the final verdict..."@,
        seq![
            seq![(field_label("Đánh giá chung"@, "Overall rating"@), plain_style()), (label, fg_bold(Color::Yellow))],
            blank(),
        ] + (if strengths.len() > 0 {
            seq![one("  "@ + inline_text("Điểm mạnh"@, "Strengths"@), fg_bold(Color::Green))]
                + marked_lines("   ✓ "@, fg_bold(Color::Green), strengths) + seq![blank()]
        } else {
            seq![]
        }) + (if risks.len() > 0 {
            seq![one("  "@ + inline_text("Rủi ro"@, "Risks"@), fg_bold(Color::Red))]
                + marked_lines("   ⚠ "@, fg_bold(Color::Red), risks)
        } else {
            seq![]
        }), !plain || risks.len() > 0)
}

fn marked(marker: &str, st: SpanStyle, items: &Vec<Bilingual>) -> (out: Vec<Line>)
    ensures
        lines_view(out@) == marked_lines(marker@, st, texts(items@)),
{
    let mut out: Vec<Line> = Vec::new();
    let mut i: usize = 0;
    while i < items.len()
        invariant
            i <= items@.len(),
            lines_view(out@) == marked_lines(marker@, st, texts(items@.subrange(0, i as int))),
        decreases items.len() - i,
    {
        let ghost prev = out@;
        out.push(line2(String::from_str(marker), st, inline_label(&items[i]), SpanStyle::plain()));
        proof {
            assert(texts(items@.subrange(0, i + 1)) =~= texts(items@.subrange(0, i as int)).push((items@[i as int].vi@, items@[i as int].en@)));
            assert(lines_view(out@) =~= lines_view(prev).push(seq![(marker@, st), (inline_text(items@[i as int].vi@, items@[i as int].en@), plain_style())]));
            assert(marked_lines(marker@, st, texts(items@.subrange(0, i + 1))) =~= marked_lines(marker@, st, texts(items@.subrange(0, i as int))).push(seq![(marker@, st), (inline_text(items@[i as int].vi@, items@[i as int].en@), plain_style())]));
        }
        i = i + 1;
    }
    proof {
        assert(items@.subrange(0, items@.len() as int) =~= items@);
    }
    out
}

fn heading(vi: &str, en: &str, st: SpanStyle) -> (l: Line)
    ensures
        line_view(l) == one("  "@ + inline_text(vi@, en@), st),
{
    let mut t = String::from_str("  ");
    let il = inline_label(&Bilingual::new(vi, en));
    t.append(il.as_str());
    line1(t, st)
}

fn vibes_lines(v: &VibeResult) -> (out: Vec<Line>)
    ensures
        lines_view(out@) == vibes_spec(v.primary, texts(v.evidence@)),
{
    let mut facts: Vec<Line> = Vec::new();
    let mut label = String::from_str("  ");
    let il = inline_label(&Bilingual::new("Khí chất chính", "Primary vibe"));
    label.append(il.as_str());
    label.append(": ");
    facts.push(line2(label, SpanStyle::plain(), v.primary.display().vi, style(Some(Color::Magenta), true, false)));
    facts.push(Line::default());
    facts.push(heading("Bằng chứng", "Evidence", style(None, true, false)));
    proof {
        assert(line_view(facts@[1]) =~= blank());
    }
    let ghost head = lines_view(facts@);
    let mut bullets = marked("   • ", SpanStyle::plain(), &v.evidence);
    facts.append(&mut bullets);
    proof {
        assert(head =~= seq![
            seq![(field_label("Khí chất chính"@, "Primary vibe"@), plain_style()), (label_text(v.primary), fg_bold(Color::Magenta))],
            blank(),
            one("  "@ + inline_text("Bằng chứng"@, "Evidence"@), bold_style()),
        ]);
        assert(lines_view(facts@) =~= head + marked_lines("   • "@, plain_style(), texts(v.evidence@)));
    }
    section("🔮 KHÍ CHẤT REPOSITORY", "🔮 REPOSITORY VIBES", Color::Magenta,
        "Ferris cảm nhận được năng lượng từ repo này...", "Ferris senses the vibes of this repo...", facts, true)
}

fn findings_lines(findings: &Vec<Finding>) -> (out: Vec<Line>)
    ensures
        lines_view(out@) == findings_lines_spec(finding_texts(findings_view(findings@))),
{
    let mut texts_v: Vec<Bilingual> = Vec::new();
    let mut i: usize = 0;
    while i < findings.len()
        invariant
            i <= findings@.len(),
            texts(texts_v@) == finding_texts(findings_view(findings@.subrange(0, i as int))),
        decreases findings.len() - i,
    {
        let ghost prev = texts_v@;
        texts_v.push(crate::analyze::rules::clone_bi(&findings[i].text));
        proof {
            assert(texts(texts_v@) =~= texts(prev).push((findings@[i as int].text.vi@, findings@[i as int].text.en@)));
            assert(finding_texts(findings_view(findings@.subrange(0, i + 1))) =~= finding_texts(findings_view(findings@.subrange(0, i as int))).push((findings@[i as int].text.vi@, findings@[i as int].text.en@)));
        }
        i = i + 1;
    }
    proof {
        assert(findings@.subrange(0, findings@.len() as int) =~= findings@);
    }
    let facts = marked("  • ", SpanStyle::plain(), &texts_v);
    section("🔎 PHÁT HIỆN THÚ VỊ", "🔎 INTERESTING FINDINGS", Color::Cyan,
        "Ferris ghi chép lại các chi tiết đáng chú ý...", "Ferris notes down interesting observations...", facts, true)
}

fn verdict_lines(v: &CrabVerdict, plain: bool) -> (out: Vec<Line>)
    ensures
        lines_view(out@) == verdict_spec(texts(v.strengths@), texts(v.risks@), v.overall_label.vi@, plain),
{
    let mut facts: Vec<Line> = Vec::new();
    let mut label = String::from_str("  ");
    let il = inline_label(&Bilingual::new("Đánh giá chung", "Overall rating"));
    label.append(il.as_str());
    label.append(": ");
    facts.push(line2(label, SpanStyle::plain(), v.overall_label.vi.clone(), style(Some(Color::Yellow), true, false)));
    facts.push(Line::default());
    proof {
        assert(line_view(facts@[1]) =~= blank());
    }
    let ghost head = lines_view(facts@);
    let ghost st = texts(v.strengths@);
    let ghost rk = texts(v.risks@);
    let mut good: Vec<Line> = Vec::new();
    if v.strengths.len() > 0 {
        good.push(heading("Điểm mạnh", "Strengths", style(Some(Color::Green), true, false)));
        let mut items = marked("   ✓ ", style(Some(Color::Green), true, false), &v.strengths);
        good.append(&mut items);
        good.push(Line::default());
        proof {
            assert(line_view(good@[good@.len() - 1]) =~= blank());
        }
    }
    let ghost gv = lines_view(good@);
    let mut bad: Vec<Line> = Vec::new();
    if v.risks.len() > 0 {
        bad.push(heading("Rủi ro", "Risks", style(Some(Color::Red), true, false)));
        let mut items = marked("   ⚠ ", style(Some(Color::Red), true, false), &v.risks);
        bad.append(&mut items);
    }
    let ghost bv = lines_view(bad@);
    facts.append(&mut good);
    facts.append(&mut bad);
    proof {
        assert(head =~= seq![
            seq![(field_label("Đánh giá chung"@, "Overall rating"@), plain_style()), (v.overall_label.vi@, fg_bold(Color::Yellow))],
            blank(),
        ]);
        assert(st.len() == v.strengths@.len() && rk.len() == v.risks@.len());
        assert(gv =~= (if st.len() > 0 {
            seq![one("  "@ + inline_text("Điểm mạnh"@, "Strengths"@), fg_bold(Color::Green))]
                + marked_lines("   ✓ "@, fg_bold(Color::Green), st) + seq![blank()]
        } else {
            seq![]
        }));
        assert(bv =~= (if rk.len() > 0 {
            seq![one("  "@ + inline_text("Rủi ro"@, "Risks"@), fg_bold(Color::Red))]
                + marked_lines("   ⚠ "@, fg_bold(Color::Red), rk)
        } else {
            seq![]
        }));
        assert(lines_view(facts@) =~= head + gv + bv);
    }
    let spacer = !plain || v.risks.len() > 0;
    section("🦀 PHÁN QUYẾT CỦA FERRIS", "🦀 CRAB VERDICT", Color::Red,
        "Ferris tổng hợp và đưa ra đánh giá cuối cùng...", "Ferris compiles and delivers the final verdict...", facts, spacer)
}

/// The whole report, styled (`plain` false) or in its plain form (`plain` true): the
/// header and the nine sections, with the personality, findings and verdict that the
/// analyses give.
pub open spec fn report_spec(session: InvestigationSession, snapshot: InvestigationSnapshot, sections: FactualSections,
    now_secs: i64, plain: bool) -> Seq<LineV>
{
    let g = signals_spec(snapshot, sections, now_secs);
    let name = top_name_spec(snapshot);
    let sc = vibe_scores(g, name);
    let p = primary_index(sc);
    let primary = vibe_labels()[p];
    let runner = runner_from(vibe_labels(), sc, primary, 7).0;
    let st = rules_evidence(strength_rules_spec(snapshot, sections, now_secs));
    let rk = rules_evidence(risk_rules_spec(snapshot, sections, now_secs));
    header_spec(session)
        + first_impressions_spec(sections.first_impressions, now_secs)
        + commit_crimes_spec(sections.commit_crimes)
        + branch_jungle_spec(sections.branch_jungle)
        + ancient_relics_spec(sections.ancient_relics)
        + language_soup_spec(sections.language_soup)
        + infrastructure_spec(sections.infrastructure, plain)
        + vibes_spec(primary, vibe_evidence(g, name)[p])
        + findings_lines_spec(finding_texts(findings_spec(snapshot, sections, runner)))
        + verdict_spec(st, rk, overall_label_spec(st.len(), rk.len()), plain)
}

/// The report's lines in either form.
pub fn report_lines(session: &InvestigationSession, snapshot: &InvestigationSnapshot, sections: &FactualSections,
    now_secs: i64, plain: bool) -> (lines: Vec<Line>)
    requires
        sections.first_impressions.last_activity_secs matches Some(t) ==> i64::MIN <= now_secs - t <= i64::MAX,
    ensures
        lines_view(lines@) == report_spec(*session, *snapshot, *sections, now_secs, plain),
{
    let mut lines = header_lines(session);
    let ghost a0 = lines_view(lines@);
    let mut part = first_impressions_lines(&sections.first_impressions, now_secs);
    let ghost a1 = lines_view(part@);
    lines.append(&mut part);
    let mut part = commit_crimes_lines(&sections.commit_crimes);
    let ghost a2 = lines_view(part@);
    lines.append(&mut part);
    let mut part = branch_jungle_lines(&sections.branch_jungle);
    let ghost a3 = lines_view(part@);
    lines.append(&mut part);
    let mut part = ancient_relics_lines(&sections.ancient_relics);
    let ghost a4 = lines_view(part@);
    lines.append(&mut part);
    let mut part = language_soup_lines(&sections.language_soup);
    let ghost a5 = lines_view(part@);
    lines.append(&mut part);
    let mut part = infrastructure_lines(&sections.infrastructure, plain);
    let ghost a6 = lines_view(part@);
    lines.append(&mut part);
    let vibe = classify_vibes(snapshot, sections, now_secs);
    let mut part = vibes_lines(&vibe);
    let ghost a7 = lines_view(part@);
    lines.append(&mut part);
    let findings = interesting_findings(snapshot, sections, &vibe);
    let mut part = findings_lines(&findings);
    let ghost a8 = lines_view(part@);
    lines.append(&mut part);
    let verdict = crab_verdict(snapshot, sections, now_secs);
    let mut part = verdict_lines(&verdict, plain);
    let ghost a9 = lines_view(part@);
    lines.append(&mut part);
    proof {
        assert(lines_view(lines@) =~= a0 + a1 + a2 + a3 + a4 + a5 + a6 + a7 + a8 + a9);
    }
    lines
}

/// The report as styled lines for the interactive view.
pub fn build_report_lines(session: &InvestigationSession, snapshot: &InvestigationSnapshot, sections: &FactualSections,
    now_secs: i64) -> (lines: Vec<Line>)
    requires
        sections.first_impressions.last_activity_secs matches Some(t) ==> i64::MIN <= now_secs - t <= i64::MAX,
    ensures
        lines_view(lines@) == report_spec(*session, *snapshot, *sections, now_secs, false),
{
    report_lines(session, snapshot, sections, now_secs, false)
}

} // verus!
