use rust_to_you::cli::parse::RepoRef;
use rust_to_you::app::session::InvestigationSession;
use rust_to_you::snapshot::{RepoMetaState, HistoryFacts, FilesystemFacts, InfraFootprints, InvestigationSnapshot};
use rust_to_you::repo::branches::BranchFacts;
use rust_to_you::repo::history::CommitWindow;
use rust_to_you::report::sections::{FactualSections, FirstImpressions};
use rust_to_you::analyze::commit::CommitCrimes;
use rust_to_you::analyze::branch::BranchJungle;
use rust_to_you::analyze::relics::AncientRelics;
use rust_to_you::analyze::language::{LanguageSoup, LanguageEntry};
use rust_to_you::analyze::infra::InfrastructureFootprints;
use rust_to_you::tui::format::{ascii_bar, thousands, dash_or, relative_date};
use rust_to_you::tui::app::{max_scroll, handle_key, handle_mouse, TuiState, KeyCode, MouseEventKind, SCROLL_STEP};
use rust_to_you::tui::section::{Section, Line, Span, SpanStyle, Color};
use rust_to_you::tui::report::build_report_lines;
use rust_to_you::tui::plain::plain_report;
use ratatui::widgets::{Paragraph, Wrap};

use rust_to_you::share::Share;
use rust_to_you::text::push_pct1;

/// A percentage given in hundredths, as a share of 10000.
fn pct(bp: u64) -> Share {
    Share { part: bp, whole: 10000 }
}

fn share(part: u64, whole: u64) -> Share {
    Share { part, whole }
}

#[test]
fn test_ascii_bar() {
    assert_eq!(ascii_bar(share(62, 100), 10), "██████░░░░");
    assert_eq!(ascii_bar(share(0, 100), 10), "░░░░░░░░░░");
    assert_eq!(ascii_bar(share(1, 1), 10), "██████████");
}

#[test]
fn ascii_bar_rounds_and_clamps() {
    assert_eq!(ascii_bar(share(1, 20), 10), "█░░░░░░░░░");
    assert_eq!(ascii_bar(pct(499), 10), "░░░░░░░░░░");
    assert_eq!(ascii_bar(share(2, 1), 4), "████");
    assert_eq!(ascii_bar(share(1, 2), 0), "");
    assert_eq!(ascii_bar(share(1, 6), 3), "█░░");
    assert_eq!(ascii_bar(share(1, 7), 3), "░░░");
    assert_eq!(ascii_bar(share(5, 0), 4), "░░░░");
}

fn pct_text(s: Share) -> String {
    let mut out = String::new();
    push_pct1(&mut out, s);
    out
}

#[test]
fn percentages_round_ties_to_even() {
    assert_eq!(pct_text(share(1, 16)), "6.2");
    assert_eq!(pct_text(share(3, 16)), "18.8");
    assert_eq!(pct_text(share(5, 16)), "31.2");
    assert_eq!(pct_text(share(2, 3)), "66.7");
    assert_eq!(pct_text(share(1, 3)), "33.3");
    assert_eq!(pct_text(share(1, 8)), "12.5");
    assert_eq!(pct_text(share(0, 0)), "0.0");
    assert_eq!(pct_text(share(7, 7)), "100.0");
    assert_eq!(pct_text(pct(6000)), "60.0");
    assert_eq!(pct_text(share(3, 2)), "150.0");
    assert_eq!((share(1, 16).bp(), share(1, 16).tenths()), (625, 62));
    assert_eq!((share(2, 3).bp(), share(2, 3).tenths()), (6666, 667));
    assert_eq!((share(9, 0).bp(), share(9, 0).tenths()), (0, 0));
}

#[test]
fn test_thousands() {
    assert_eq!(thousands(12442), "12,442");
    assert_eq!(thousands(0), "0");
    assert_eq!(thousands(999), "999");
}

#[test]
fn thousands_groups_every_three_digits() {
    assert_eq!(thousands(1000), "1,000");
    assert_eq!(thousands(1234567), "1,234,567");
    assert_eq!(thousands(u64::MAX), "18,446,744,073,709,551,615");
    assert_eq!(thousands(u64::MAX).replace(',', ""), u64::MAX.to_string());
}

#[test]
fn test_dash_or() {
    assert_eq!(dash_or::<u64>(None, |n| n.to_string()), "—");
    assert_eq!(dash_or::<u64>(Some(123), |n| n.to_string()), "123");
}

#[test]
fn test_relative_date() {
    let now = 1000000000;
    assert_eq!(relative_date(now, now - 30), "just now");
    assert_eq!(relative_date(now, now - 120), "2 min ago");
    assert_eq!(relative_date(now, now - 7200), "2 hours ago");
    assert_eq!(relative_date(now, now - 3 * 86400), "3 days ago");
    assert_eq!(relative_date(now, now - 45 * 86400), "1 months ago");
    assert_eq!(relative_date(now, now - 400 * 86400), "1 years ago");

    let eight_years_ago = now - 8 * 365 * 86400;
    let formatted = relative_date(now, eight_years_ago);
    assert!(formatted.contains("1993"), "Should be absolute formatted year, got: {}", formatted);
    assert!(!formatted.contains("years ago"));
}

#[test]
fn old_dates_show_month_and_year() {
    let now = 1_000_000_000;
    assert_eq!(relative_date(now, 0), "Jan 1970");
    assert_eq!(relative_date(now, -1), "Dec 1969");
    assert_eq!(relative_date(now, 951_782_400 - 1000 * 86400), "Jun 1997");
    // 0000-01-01, the year before it, and 10000-01-01.
    assert_eq!(relative_date(0, -62_167_219_200), "Jan 0000");
    assert_eq!(relative_date(0, -62_198_755_200), "Jan -0001");
    assert_eq!(relative_date(253_402_300_800 + 800 * 86400, 253_402_300_800), "Jan +10000");
    // A year chrono has no date for falls back to the count of years.
    assert_eq!(relative_date(0, -9_000_000_000_000_000), "285388127 years ago");
}

#[test]
fn relative_date_future_is_just_now() {
    assert_eq!(relative_date(1000, 5000), "just now");
    assert_eq!(relative_date(1000000000, 1000000000 - 730 * 86400), "2 years ago");
}

#[test]
fn test_max_scroll() {
    assert_eq!(max_scroll(100, 20), 80);
    assert_eq!(max_scroll(10, 20), 0);
}

#[test]
fn test_handle_key() {
    let mut state = TuiState::default();
    let max = 50;
    let page = 10;

    handle_key(KeyCode::Down, &mut state, max, page);
    assert_eq!(state.offset, 1);
    handle_key(KeyCode::Char('j'), &mut state, max, page);
    assert_eq!(state.offset, 2);

    handle_key(KeyCode::Up, &mut state, max, page);
    assert_eq!(state.offset, 1);
    handle_key(KeyCode::Char('k'), &mut state, max, page);
    assert_eq!(state.offset, 0);
    handle_key(KeyCode::Up, &mut state, max, page);
    assert_eq!(state.offset, 0);

    handle_key(KeyCode::Char('G'), &mut state, max, page);
    assert_eq!(state.offset, 50);
    handle_key(KeyCode::Char('g'), &mut state, max, page);
    assert_eq!(state.offset, 0);

    handle_key(KeyCode::PageDown, &mut state, max, page);
    assert_eq!(state.offset, 10);
    handle_key(KeyCode::PageDown, &mut state, max, page);
    assert_eq!(state.offset, 20);
    handle_key(KeyCode::PageUp, &mut state, max, page);
    assert_eq!(state.offset, 10);

    state.offset = 48;
    handle_key(KeyCode::PageDown, &mut state, max, page);
    assert_eq!(state.offset, 50);

    assert!(!state.quit);
    handle_key(KeyCode::Char('q'), &mut state, max, page);
    assert!(state.quit);

    state.quit = false;
    handle_key(KeyCode::Esc, &mut state, max, page);
    assert!(state.quit);
}

#[test]
fn test_handle_mouse() {
    let mut state = TuiState::default();
    let max = 50;

    handle_mouse(MouseEventKind::ScrollDown, &mut state, max);
    assert_eq!(state.offset, SCROLL_STEP);
    handle_mouse(MouseEventKind::ScrollDown, &mut state, max);
    assert_eq!(state.offset, SCROLL_STEP * 2);

    handle_mouse(MouseEventKind::ScrollUp, &mut state, max);
    assert_eq!(state.offset, SCROLL_STEP);
    handle_mouse(MouseEventKind::ScrollUp, &mut state, max);
    handle_mouse(MouseEventKind::ScrollUp, &mut state, max);
    assert_eq!(state.offset, 0);

    state.offset = max - 1;
    handle_mouse(MouseEventKind::ScrollDown, &mut state, max);
    assert_eq!(state.offset, max);
}

#[test]
fn down_then_up_returns() {
    let mut state = TuiState { offset: 7, quit: false };
    handle_key(KeyCode::Down, &mut state, 50, 10);
    handle_key(KeyCode::Up, &mut state, 50, 10);
    assert_eq!(state, TuiState { offset: 7, quit: false });
    handle_key(KeyCode::Other, &mut state, 50, 10);
    assert_eq!(state.offset, 7);
}

#[test]
fn test_section_into_lines() {
    let title = Line::raw("Title");
    let body = vec![Line::raw("Body 1"), Line::raw("Body 2")];
    let section = Section { title, body };
    let lines = section.into_lines();
    assert_eq!(lines.len(), 4);
    assert_eq!(lines[0], Line::raw("Title"));
    assert_eq!(lines[1], Line::raw("Body 1"));
    assert_eq!(lines[2], Line::raw("Body 2"));
    assert_eq!(lines[3], Line::default());
}

fn make_test_session() -> InvestigationSession {
    InvestigationSession {
        repo: RepoRef { owner: "owner".to_string(), repo: "repo".to_string() },
        case_id: "OWNER-1234".to_string(),
        started_at_secs: 1700000000,
        deep: false,
    }
}

fn make_test_snapshot() -> InvestigationSnapshot {
    InvestigationSnapshot {
        repo: RepoRef { owner: "owner".to_string(), repo: "repo".to_string() },
        metadata: RepoMetaState::Unavailable,
        history: HistoryFacts {
            total_commits: 500,
            repo_age_days: 100,
            contributor_count: 5,
            bus_factor: 2,
            top_author_share_pct: pct(6000),
            window: CommitWindow { scanned: 100, capped: false },
            most_modified_file: Some("main.rs".to_string()),
            night_pct: pct(1000),
            weekend_pct: pct(1500),
            business_hours_pct: pct(7500),
            commits_this_month: 50,
            top_contributor_name: Some("Alice".to_string()),
            oldest_file: Some("lib.rs".to_string()),
            oldest_contributor: Some("Bob".to_string()),
            release_tag_count: 5,
        },
        branches: BranchFacts {
            default_branch: "main".to_string(),
            branches: vec![],
            last_activity_secs: 1699990000,
        },
        filesystem: FilesystemFacts {
            languages: vec![("Rust".to_string(), pct(9000)), ("Markdown".to_string(), pct(1000))],
            infra: InfraFootprints {
                docker: true,
                terraform: false,
                github_actions: true,
                gitlab_ci: false,
                circleci: false,
                jenkins: false,
                dependabot: true,
                renovate: false,
            },
        },
    }
}

fn make_test_sections() -> FactualSections {
    FactualSections {
        first_impressions: FirstImpressions {
            repo_age_days: 100,
            default_branch: "main".to_string(),
            stars: Some(1500),
            forks: Some(250),
            contributor_count: 5,
            last_activity_secs: Some(1699990000),
        },
        commit_crimes: CommitCrimes {
            total_commits: 500,
            commits_this_month: 50,
            top_contributor: Some("Alice".to_string()),
            bus_factor: 2,
            top_author_share_pct: pct(6000),
        },
        branch_jungle: BranchJungle { total: 4, active: 2, stale: 2, oldest_branch: Some("old-feature".to_string()) },
        ancient_relics: AncientRelics {
            oldest_file: Some("lib.rs".to_string()),
            most_modified_file: Some("main.rs".to_string()),
            oldest_contributor: Some("Bob".to_string()),
            longest_living_branch: Some("old-feature".to_string()),
        },
        language_soup: LanguageSoup {
            languages: vec![
                LanguageEntry { name: "Rust".to_string(), pct: pct(9000) },
                LanguageEntry { name: "Markdown".to_string(), pct: pct(1000) },
            ],
        },
        infrastructure: InfrastructureFootprints {
            docker: true,
            terraform: false,
            github_actions: true,
            gitlab_ci: false,
            circleci: false,
            jenkins: false,
            dependabot: true,
            renovate: false,
        },
    }
}

fn line_text(l: &Line) -> String {
    l.spans.iter().map(|s| s.content.as_str()).collect()
}

#[test]
fn test_plain_render() {
    let session = make_test_session();
    let snapshot = make_test_snapshot();
    let sections = make_test_sections();
    let output = plain_report(&session, &snapshot, &sections, 1700000000);

    assert!(output.contains("Repository Investigation Report"));
    assert!(output.contains("OWNER-1234"));
    assert!(output.contains("Tuổi repo / Repo age"));
    assert!(output.contains("Total commits"));
    assert!(output.contains("BRANCH JUNGLE"));
    assert!(output.contains("ANCIENT RELICS"));
    assert!(output.contains("LANGUAGE SOUP"));
    assert!(output.contains("INFRASTRUCTURE FOOTPRINTS"));
    assert!(output.contains("REPOSITORY VIBES"));
    assert!(output.contains("INTERESTING FINDINGS"));
    assert!(output.contains("CRAB VERDICT"));
    assert!(!output.contains("\x1b["));
    assert!(!output.contains("mình"));
}

#[test]
fn plain_report_lines() {
    let output = plain_report(&make_test_session(), &make_test_snapshot(), &make_test_sections(), 1700000000);
    let lines: Vec<&str> = output.lines().collect();
    assert_eq!(lines[0], "🦀 rust-to-you");
    assert_eq!(lines[1], "   Báo cáo Điều tra Repository");
    assert_eq!(lines[3], "Repository: owner/repo");
    assert_eq!(lines[4], "Điều tra ngày / Date: 2023-11-14 22:13:20 UTC");
    assert_eq!(lines[5], "Case ID: OWNER-1234");
    assert!(lines.contains(&"  Số sao / Stars: 1,500"));
    assert!(lines.contains(&"  Hoạt động gần nhất / Last activity: 2 hours ago"));
    assert!(lines.contains(&"  Tỷ lệ đóng góp lớn nhất / Top author share: 60.0%"));
    assert!(lines.contains(&"             Rust █████████░ 90.0%"));
    assert!(lines.contains(&"  Docker / Docker: ✓"));
    assert!(lines.contains(&"  Terraform / Terraform: ✗"));
    assert!(output.ends_with("\n"));
}

fn to_ratatui_lines(lines: Vec<Line>) -> Vec<ratatui::text::Line<'static>> {
    lines
        .into_iter()
        .map(|l| {
            ratatui::text::Line::from(
                l.spans
                    .into_iter()
                    .map(|s| {
                        let mut st = ratatui::style::Style::new();
                        if s.style.bold {
                            st = st.add_modifier(ratatui::style::Modifier::BOLD);
                        }
                        if s.style.italic {
                            st = st.add_modifier(ratatui::style::Modifier::ITALIC);
                        }
                        ratatui::text::Span::styled(s.content, st)
                    })
                    .collect::<Vec<_>>(),
            )
        })
        .collect()
}

fn row(buffer: &ratatui::buffer::Buffer, y: u16) -> String {
    let mut line_str = String::new();
    for x in 0..buffer.area().width {
        line_str.push_str(buffer[(x, y)].symbol());
    }
    line_str
}

#[test]
fn test_report_renders_header_and_sections() {
    let backend = ratatui::backend::TestBackend::new(80, 100);
    let mut terminal = ratatui::Terminal::new(backend).unwrap();
    let lines = to_ratatui_lines(build_report_lines(&make_test_session(), &make_test_snapshot(), &make_test_sections(), 1700000000));
    terminal
        .draw(|f| {
            let p = Paragraph::new(lines.clone()).wrap(Wrap { trim: false });
            f.render_widget(p, f.area());
        })
        .unwrap();
    let buffer = terminal.backend().buffer();

    let mut found_subtitle = false;
    let mut found_case_id = false;
    let mut found_minh = false;
    for y in 0..buffer.area().height {
        let line_str = row(buffer, y);
        if line_str.contains("Repository Investigation Report") {
            found_subtitle = true;
        }
        if line_str.contains("OWNER-1234") {
            found_case_id = true;
        }
        if line_str.contains("mình") {
            found_minh = true;
        }
    }
    assert!(found_subtitle, "Should find English subtitle");
    assert!(found_case_id, "Should find Case ID OWNER-1234");
    assert!(!found_minh, "Should not contain 'mình'");

    let titles = vec![
        "🌱 BÁO CÁO BAN ĐẦU",
        "☠️ TỘI ÁC COMMIT",
        "🔥 RỪNG RẬM UM TÙM",
        "🏺 CỔ VẬT VÔ GIÁ",
        "🌿 SÚP NGÔN NGỮ",
        "⚙️ DẤU VẾT HẠ TẦNG",
        "🔮 KHÍ CHẤT REPOSITORY",
        "🔎 PHÁT HIỆN THÚ VỊ",
        "🦀 PHÁN QUYẾT CỦA FERRIS",
    ];
    let mut current_idx = 0;
    let mut found_titles = 0;
    for title in titles {
        let mut title_row = None;
        for y in current_idx..buffer.area().height {
            let normalized: String = row(buffer, y).split_whitespace().collect::<Vec<&str>>().join(" ");
            if normalized.contains(title) {
                title_row = Some(y);
                break;
            }
        }
        assert!(title_row.is_some(), "Title '{}' not found in expected order", title);
        current_idx = title_row.unwrap() + 1;
        found_titles += 1;
    }
    assert_eq!(found_titles, 9);

    let mut found_vibe = false;
    let mut found_findings = false;
    let mut found_verdict = false;
    for y in 0..buffer.area().height {
        let line_str = row(buffer, y);
        if line_str.contains("REPOSITORY VIBES") {
            found_vibe = true;
        }
        if line_str.contains("INTERESTING FINDINGS") {
            found_findings = true;
        }
        if line_str.contains("CRAB VERDICT") {
            found_verdict = true;
        }
    }
    assert!(found_vibe, "Vibes title should be present");
    assert!(found_findings, "Findings title should be present");
    assert!(found_verdict, "Verdict title should be present");
}

#[test]
fn test_headless_scroll_contract() {
    let lines = to_ratatui_lines(build_report_lines(&make_test_session(), &make_test_snapshot(), &make_test_sections(), 1700000000));
    let mut rows = Vec::new();
    for offset in [0u16, 1u16] {
        let backend = ratatui::backend::TestBackend::new(80, 10);
        let mut terminal = ratatui::Terminal::new(backend).unwrap();
        terminal
            .draw(|f| {
                let p = Paragraph::new(lines.clone()).wrap(Wrap { trim: false }).scroll((offset, 0));
                f.render_widget(p, f.area());
            })
            .unwrap();
        rows.push(row(terminal.backend().buffer(), 0));
    }
    assert_ne!(rows[0], rows[1], "Scroll of 1 line should make the first visible row differ");
}

#[test]
fn report_line_texts() {
    let lines = build_report_lines(&make_test_session(), &make_test_snapshot(), &make_test_sections(), 1700000000);
    let texts: Vec<String> = lines.iter().map(line_text).collect();
    assert!(texts.contains(&"  Docker / Docker:  ✓".to_string()));
    assert!(texts.contains(&"  Khí chất chính / Primary vibe: 🧌 Startup Goblin / Yêu tinh khởi nghiệp".to_string()));
    assert!(texts.contains(&"  • Cũng phảng phất khí chất 🏢 Corporate Fortress / Pháo đài công sở / Also gives off 🏢 Corporate Fortress / Pháo đài công sở energy".to_string()));
}

#[test]
fn styled_lines_carry_styles() {
    let lines = build_report_lines(&make_test_session(), &make_test_snapshot(), &make_test_sections(), 1700000000);
    assert_eq!(lines[0].spans[0], Span {
        content: "🦀 rust-to-you".to_string(),
        style: SpanStyle { fg: Some(Color::LightRed), bold: true, italic: false },
    });
    assert_eq!(lines[5].spans[1].style, SpanStyle { fg: Some(Color::LightYellow), bold: false, italic: false });
    assert_eq!(lines[6], Line::default());
}

