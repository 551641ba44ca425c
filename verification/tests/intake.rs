use rust_to_you::cli::parse::{parse_repo_ref, is_valid_segment, clone_url, trim_text, RepoRef};
use rust_to_you::error::IntakeError;
use rust_to_you::i18n::{bi, two_line, inline_label};
use rust_to_you::app::session::{generate_case_id, InvestigationSession};
use rust_to_you::app::collect::{size_decision, size_gate, metadata_state, preflight, SizeDecision, MAX_REPO_KB};
use rust_to_you::app::notices::{size_warning, sweep_notice, opening_lines, metadata_degraded_notice};
use rust_to_you::github::{classify, GithubError, RepoMetadata, metadata_url, bearer_token};
use rust_to_you::snapshot::RepoMetaState;
use rust_to_you::clock::epoch_secs;

fn mock_metadata(size_kb: u64) -> RepoMetaState {
    RepoMetaState::Available(RepoMetadata {
        stargazers_count: 0,
        forks_count: 0,
        description: None,
        topics: vec![],
        default_branch: "main".to_string(),
        pushed_at: None,
        created_at: None,
        size: size_kb,
    })
}

#[test]
fn test_size_decision_proceed() {
    let meta = mock_metadata(100 * 1024);
    assert_eq!(size_decision(&meta, false), SizeDecision::Proceed);
    assert_eq!(size_decision(&meta, true), SizeDecision::Proceed);
}

#[test]
fn test_size_decision_boundary() {
    let meta_exact = mock_metadata(500 * 1024);
    assert_eq!(size_decision(&meta_exact, false), SizeDecision::Proceed);

    let meta_large = mock_metadata(500 * 1024 + 1);
    assert_eq!(size_decision(&meta_large, false), SizeDecision::TooLarge { size_mb: 501 });
    assert_eq!(size_decision(&meta_large, true), SizeDecision::WarnDeep { size_mb: 501 });
}

#[test]
fn test_size_decision_large() {
    let meta = mock_metadata(600 * 1024);
    assert_eq!(size_decision(&meta, false), SizeDecision::TooLarge { size_mb: 600 });
    assert_eq!(size_decision(&meta, true), SizeDecision::WarnDeep { size_mb: 600 });
}

#[test]
fn test_size_decision_unavailable() {
    assert_eq!(size_decision(&RepoMetaState::Unavailable, false), SizeDecision::WarnUnknown);
    assert_eq!(size_decision(&RepoMetaState::Unavailable, true), SizeDecision::WarnUnknown);
}

#[test]
fn size_gate_refuses_only_too_large() {
    assert_eq!(size_gate(SizeDecision::TooLarge { size_mb: 501 }), Err(IntakeError::RepoTooLarge { size_mb: 501, threshold_mb: 500 }));
    assert_eq!(size_gate(SizeDecision::WarnDeep { size_mb: 501 }), Ok(()));
    assert_eq!(size_gate(SizeDecision::WarnUnknown), Ok(()));
    assert_eq!(size_gate(SizeDecision::Proceed), Ok(()));
    assert_eq!(MAX_REPO_KB, 512000);
}

#[test]
fn metadata_state_aborts_on_not_found_only() {
    let r = RepoRef { owner: "o".to_string(), repo: "r".to_string() };
    assert!(matches!(metadata_state(Err(GithubError::NotFound), &r),
        Err(IntakeError::RepoNotFoundOrPrivate { ref owner, ref repo }) if owner == "o" && repo == "r"));
    assert!(matches!(metadata_state(Err(GithubError::RateLimited), &r), Ok(RepoMetaState::Unavailable)));
    assert!(matches!(metadata_state(Err(GithubError::Network), &r), Ok(RepoMetaState::Unavailable)));
    let meta = RepoMetadata {
        stargazers_count: 3, forks_count: 1, description: None, topics: vec![],
        default_branch: "main".to_string(), pushed_at: None, created_at: None, size: 10,
    };
    match metadata_state(Ok(meta), &r) {
        Ok(RepoMetaState::Available(m)) => assert_eq!(m.stargazers_count, 3),
        _ => panic!("metadata should be available"),
    }
}

#[test]
fn preflight_guards_before_the_clone() {
    let r = RepoRef { owner: "o".to_string(), repo: "r".to_string() };
    let meta = |size: u64| RepoMetadata {
        stargazers_count: 0, forks_count: 0, description: None, topics: vec![],
        default_branch: "main".to_string(), pushed_at: None, created_at: None, size,
    };
    assert!(matches!(preflight(Err(GithubError::NotFound), &r, true),
        Err(IntakeError::RepoNotFoundOrPrivate { ref owner, ref repo }) if owner == "o" && repo == "r"));
    assert!(matches!(preflight(Err(GithubError::RateLimited), &r, false),
        Ok((RepoMetaState::Unavailable, SizeDecision::WarnUnknown))));
    assert_eq!(preflight(Ok(meta(512001)), &r, false).err(),
        Some(IntakeError::RepoTooLarge { size_mb: 501, threshold_mb: 500 }));
    assert!(matches!(preflight(Ok(meta(512001)), &r, true),
        Ok((RepoMetaState::Available(_), SizeDecision::WarnDeep { size_mb: 501 }))));
    assert!(matches!(preflight(Ok(meta(512000)), &r, false),
        Ok((RepoMetaState::Available(_), SizeDecision::Proceed))));
}

#[test]
fn size_warnings() {
    let w = size_warning(SizeDecision::WarnDeep { size_mb: 501 }).unwrap();
    assert_eq!(w.vi, "🦀 Repo lớn (501 MB), Ferris vẫn đào vì --deep — sẽ lâu đó");
    assert_eq!(w.en, "Large repo (501 MB) — Ferris digs anyway (--deep); this will take a while");
    let u = size_warning(SizeDecision::WarnUnknown).unwrap();
    assert_eq!(u.en, "Unknown repo size — Ferris digs anyway");
    assert!(size_warning(SizeDecision::Proceed).is_none());
    assert!(size_warning(SizeDecision::TooLarge { size_mb: 600 }).is_none());
}

#[test]
fn notices_carry_their_numbers() {
    let s = sweep_notice(3);
    assert_eq!(s.vi, "🦀 Ferris dọn 3 temp cũ từ lần trước nha");
    assert_eq!(s.en, "Ferris swept 3 stale temp dir(s) from a previous run");
    let d = metadata_degraded_notice(GithubError::RateLimited);
    assert!(d.contains("(RateLimited)"));
    assert!(d.contains('\n'));
    let session = InvestigationSession {
        repo: RepoRef { owner: "tokio-rs".to_string(), repo: "axum".to_string() },
        case_id: "AXUM-1A2B".to_string(),
        started_at_secs: 0,
        deep: false,
    };
    let o = opening_lines(&session);
    assert_eq!(o.en, "Ferris is opening the investigation for tokio-rs/axum — Case AXUM-1A2B");
    assert_eq!(o.vi, "🦀 Ferris bắt đầu điều tra tokio-rs/axum — Case AXUM-1A2B");
}

#[test]
fn test_case_id_determinism() {
    let id1 = generate_case_id("tokio-rs", "axum");
    let id2 = generate_case_id("tokio-rs", "axum");
    assert_eq!(id1, id2, "case_id must be deterministic and identical across calls");
}

#[test]
fn test_case_id_format() {
    let cases = vec![
        ("tokio-rs", "axum"),
        ("rust-lang", "docs.rs"),
        ("rust-lang", "crates.io"),
        ("x", "y"),
        ("empty-filter", ".."),
    ];

    for (owner, repo) in cases {
        let id = generate_case_id(owner, repo);
        let parts: Vec<&str> = id.split('-').collect();
        assert_eq!(parts.len(), 2, "case_id '{}' must have exactly one dash", id);

        let prefix = parts[0];
        let suffix = parts[1];

        assert!(
            prefix.len() >= 1 && prefix.len() <= 4,
            "prefix '{}' in case_id '{}' must be 1 to 4 characters",
            prefix,
            id
        );
        assert!(
            prefix.chars().all(|c| c.is_ascii_alphanumeric() && c.is_ascii_uppercase()),
            "prefix '{}' must be uppercase alphanumeric",
            prefix
        );

        assert_eq!(
            suffix.len(),
            4,
            "suffix '{}' in case_id '{}' must be exactly 4 characters",
            suffix,
            id
        );
        assert!(
            suffix.chars().all(|c| c.is_ascii_digit() || (c.is_ascii_alphabetic() && c.is_ascii_uppercase())),
            "suffix '{}' must be uppercase hex digits",
            suffix
        );
    }
}

#[test]
fn test_case_id_prefix_rule() {
    assert_eq!(&generate_case_id("tokio-rs", "axum")[..4], "AXUM");
    assert_eq!(&generate_case_id("foo", "x")[..1], "X");
    assert_eq!(&generate_case_id("rust-lang", "docs.rs")[..4], "DOCS");
    assert_eq!(&generate_case_id("rust-lang", "crates.io")[..4], "CRAT");
    assert_eq!(&generate_case_id("foo", "..")[..4], "REPO");
}

#[test]
fn case_id_prefix_of_non_ascii_names() {
    assert!(generate_case_id("o", "ñandú").starts_with("AND-"));
    assert!(generate_case_id("o", "straße").starts_with("STRA-"));
    assert!(generate_case_id("o", "ǆx").starts_with("X-"));
    assert!(generate_case_id("o", "日本").starts_with("REPO-"));
}

#[test]
fn test_case_id_snapshot() {
    let id = generate_case_id("tokio-rs", "axum");
    assert!(id.starts_with("AXUM-"), "Expected AXUM- prefix, got {}", id);
    let parts: Vec<&str> = id.split('-').collect();
    assert_eq!(parts.len(), 2);
    assert_eq!(parts[0], "AXUM");
    assert_eq!(parts[1].len(), 4);
}

#[test]
fn case_id_hash_of_owner_and_repo() {
    // FNV-1a of "tokio-rs/axum", low 16 bits, in upper-case hex.
    let mut h: u32 = 0x811c9dc5;
    for b in "tokio-rs/axum".bytes() {
        h ^= b as u32;
        h = h.wrapping_mul(0x01000193);
    }
    let expected = format!("AXUM-{:04X}", h & 0xFFFF);
    assert_eq!(generate_case_id("tokio-rs", "axum"), expected);
    assert_ne!(generate_case_id("tokio-rs", "axum"), generate_case_id("other", "axum"));
}

#[test]
fn session_new_keeps_repo_and_case() {
    let s = InvestigationSession::new(RepoRef { owner: "tokio-rs".to_string(), repo: "axum".to_string() }, true);
    assert!(s.deep);
    assert_eq!(s.repo.owner, "tokio-rs");
    assert_eq!(s.case_id, generate_case_id("tokio-rs", "axum"));
}

#[test]
fn test_parse_repo_ref_accept() {
    let cases = vec![
        ("https://github.com/tokio-rs/axum", "tokio-rs", "axum"),
        ("https://github.com/tokio-rs/axum.git", "tokio-rs", "axum"),
        ("https://github.com/tokio-rs/axum/", "tokio-rs", "axum"),
        ("github.com/tokio-rs/axum", "tokio-rs", "axum"),
        ("https://github.com/tokio-rs/axum/tree/main/src", "tokio-rs", "axum"),
        ("tokio-rs/axum", "tokio-rs", "axum"),
        ("https://www.github.com/tokio-rs/axum", "tokio-rs", "axum"),
        ("rust-lang/docs.rs", "rust-lang", "docs.rs"),
        ("rust-lang/crates.io", "rust-lang", "crates.io"),
    ];

    for (input, expected_owner, expected_repo) in cases {
        let res = parse_repo_ref(input);
        assert!(res.is_ok(), "Failed to parse '{}', got {:?}", input, res);
        let repo_ref = res.unwrap();
        assert_eq!(repo_ref.owner, expected_owner, "Owner mismatch for '{}'", input);
        assert_eq!(repo_ref.repo, expected_repo, "Repo mismatch for '{}'", input);
    }
}

#[test]
fn test_parse_repo_ref_reject() {
    let cases = vec![
        ("", IntakeError::EmptyInput),
        ("   ", IntakeError::EmptyInput),
        ("not a url", IntakeError::MalformedRepoPath { input: "not a url".to_string() }),
        ("https://", IntakeError::NotAUrl { input: "https://".to_string() }),
        ("https://gitlab.com/foo/bar", IntakeError::UnsupportedHost { host: "gitlab.com".to_string() }),
        ("gitlab.com/foo/bar", IntakeError::UnsupportedHost { host: "gitlab.com".to_string() }),
        ("https://github.com/onlyowner", IntakeError::MalformedRepoPath { input: "https://github.com/onlyowner".to_string() }),
        ("github.com/onlyowner", IntakeError::MalformedRepoPath { input: "github.com/onlyowner".to_string() }),
        ("onlyowner", IntakeError::MalformedRepoPath { input: "onlyowner".to_string() }),
        ("git@github.com:tokio-rs/axum.git", IntakeError::NotAUrl { input: "git@github.com:tokio-rs/axum.git".to_string() }),
        ("tokio-rs/axum/../path", IntakeError::MalformedRepoPath { input: "tokio-rs/axum/../path".to_string() }),
        ("tokio-rs/ax\\um", IntakeError::MalformedRepoPath { input: "tokio-rs/ax\\um".to_string() }),
    ];

    for (input, expected_err) in cases {
        let res = parse_repo_ref(input);
        assert!(res.is_err(), "Expected error for '{}', but got {:?}", input, res);
        assert_eq!(res.unwrap_err(), expected_err, "Error mismatch for '{}'", input);
    }
}

#[test]
fn parse_refuses_unsafe_segments() {
    assert_eq!(parse_repo_ref("-evil/repo"), Err(IntakeError::UnsafeInput { input: "-evil/repo".to_string() }));
    assert_eq!(parse_repo_ref("owner/-repo"), Err(IntakeError::UnsafeInput { input: "owner/-repo".to_string() }));
    let long_owner = "a".repeat(40);
    let input = format!("{}/repo", long_owner);
    assert_eq!(parse_repo_ref(&input), Err(IntakeError::UnsafeInput { input: input.clone() }));
    let long_repo = "b".repeat(101);
    let input = format!("owner/{}", long_repo);
    assert_eq!(parse_repo_ref(&input), Err(IntakeError::UnsafeInput { input: input.clone() }));
    assert!(parse_repo_ref(&format!("{}/repo", "a".repeat(39))).is_ok());
    let too_long = format!("owner/{}", "c".repeat(3000));
    assert_eq!(parse_repo_ref(&too_long), Err(IntakeError::NotAUrl { input: too_long.clone() }));
    assert_eq!(parse_repo_ref("ftp://github.com/a/b"), Err(IntakeError::NotAUrl { input: "ftp://github.com/a/b".to_string() }));
    assert_eq!(parse_repo_ref("  tokio-rs/axum  ").unwrap().owner, "tokio-rs");
}

#[test]
fn clone_url_parses_back() {
    let r = RepoRef { owner: "rust-lang".to_string(), repo: "docs.rs".to_string() };
    let url = clone_url(&r);
    assert_eq!(url, "https://github.com/rust-lang/docs.rs.git");
    assert_eq!(parse_repo_ref(&url), Ok(r));
    let r2 = RepoRef { owner: "tokio-rs".to_string(), repo: "axum".to_string() };
    assert_eq!(parse_repo_ref(&clone_url(&r2)), Ok(r2));
}

#[test]
fn scheme_makes_the_first_segment_a_host() {
    assert_eq!(
        parse_repo_ref("https://localhost/foo/bar"),
        Err(IntakeError::UnsupportedHost { host: "localhost".to_string() })
    );
    assert_eq!(
        parse_repo_ref("http://intranet/foo/bar"),
        Err(IntakeError::UnsupportedHost { host: "intranet".to_string() })
    );
    assert_eq!(
        parse_repo_ref("https://localhost/foo"),
        Err(IntakeError::UnsupportedHost { host: "localhost".to_string() })
    );
    assert_eq!(
        parse_repo_ref("https://GitHub.com/tokio-rs/axum"),
        Ok(RepoRef { owner: "tokio-rs".to_string(), repo: "axum".to_string() })
    );
    assert_eq!(
        parse_repo_ref("localhost/foo"),
        Ok(RepoRef { owner: "localhost".to_string(), repo: "foo".to_string() })
    );
}

#[test]
fn short_form_parses_back() {
    for (owner, repo) in [("tokio-rs", "axum"), ("rust-lang", "docs.rs"), ("a_b", "x.gi"), ("o", ".git")] {
        let r = RepoRef { owner: owner.to_string(), repo: repo.to_string() };
        assert_eq!(parse_repo_ref(&format!("{}/{}", owner, repo)), Ok(r));
    }
}

#[test]
fn parsing_ignores_surrounding_whitespace() {
    for input in ["  tokio-rs/axum\t", "\n", " gitlab.com/a/b ", " -x/y ", " a..b/c "] {
        assert_eq!(parse_repo_ref(input), parse_repo_ref(&trim_text(input)));
        assert_eq!(trim_text(&trim_text(input)), trim_text(input));
    }
}

#[test]
fn segments_and_trimming() {
    assert!(is_valid_segment("docs.rs"));
    assert!(!is_valid_segment(""));
    assert!(!is_valid_segment("a..b"));
    assert!(!is_valid_segment("a b"));
    assert_eq!(trim_text("  x y \n"), "x y");
}

#[test]
fn test_error_exit_codes() {
    assert_eq!(IntakeError::EmptyInput.exit_code(), 2);
    assert_eq!(IntakeError::NotAUrl { input: "x".into() }.exit_code(), 2);
    assert_eq!(IntakeError::UnsupportedHost { host: "x".into() }.exit_code(), 2);
    assert_eq!(IntakeError::MalformedRepoPath { input: "x".into() }.exit_code(), 2);
    assert_eq!(IntakeError::UnsafeInput { input: "x".into() }.exit_code(), 2);

    assert_eq!(IntakeError::RepoNotFoundOrPrivate { owner: "x".into(), repo: "y".into() }.exit_code(), 3);
    assert_eq!(IntakeError::Network.exit_code(), 4);
    assert_eq!(IntakeError::RateLimited.exit_code(), 4);
    assert_eq!(IntakeError::CollectionFailed { detail: "x".into() }.exit_code(), 5);

    assert_eq!(IntakeError::RepoTooLarge { size_mb: 550, threshold_mb: 500 }.exit_code(), 6);
}

#[test]
fn test_repo_too_large_message() {
    let err = IntakeError::RepoTooLarge { size_mb: 550, threshold_mb: 500 };
    let msg = err.message();
    assert!(msg.contains("550"));
    assert!(msg.contains("500"));
    assert!(msg.contains("--deep"));
    assert!(msg.contains('\n'));
    assert!(msg.contains("không đào tự động"));
    assert!(msg.contains("too large"));
}

#[test]
fn error_messages_name_their_subject() {
    let m = IntakeError::UnsupportedHost { host: "gitlab.com".into() }.message();
    assert!(m.contains("gitlab.com"));
    let m = IntakeError::RepoNotFoundOrPrivate { owner: "o".into(), repo: "r".into() }.message();
    assert!(m.contains("o/r"));
}

#[test]
fn test_i18n() {
    let b = bi("vi", "en");
    let lines = two_line(&b);
    assert_eq!(lines[0], "vi");
    assert_eq!(lines[1], "en");

    let label = inline_label(&b);
    assert_eq!(label, "vi / en");
}

#[test]
fn status_mapping() {
    assert_eq!(classify(200), Ok(()));
    assert_eq!(classify(404), Err(GithubError::NotFound));
    assert_eq!(classify(403), Err(GithubError::RateLimited));
    assert_eq!(classify(429), Err(GithubError::RateLimited));
    assert_eq!(classify(500), Err(GithubError::Network));
    assert_eq!(classify(400), Err(GithubError::Network));
}

#[test]
fn api_url_and_token() {
    let r = RepoRef { owner: "tokio-rs".to_string(), repo: "axum".to_string() };
    assert_eq!(metadata_url(&r), "https://api.github.com/repos/tokio-rs/axum");
    assert_eq!(bearer_token(Some("  abc \n".to_string())), Some("abc".to_string()));
    assert_eq!(bearer_token(Some("   ".to_string())), None);
    assert_eq!(bearer_token(None), None);
}

#[test]
fn clock_offsets_become_signed_seconds() {
    assert_eq!(epoch_secs(Ok(1700000000)), 1700000000);
    assert_eq!(epoch_secs(Err(3600)), -3600);
    assert_eq!(epoch_secs(Ok(0)), 0);
    assert_eq!(epoch_secs(Ok(u64::MAX)), i64::MAX);
    assert_eq!(epoch_secs(Err(u64::MAX)), -i64::MAX);
}
