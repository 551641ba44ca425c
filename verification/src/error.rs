//! The intake error taxonomy and its tiered exit codes.

use vstd::prelude::*;
use vstd::string::*;
use crate::text::{dec_nat, push_decimal};

verus! {

/// Why an investigation could not start or finish.
#[derive(Debug, Clone, PartialEq, Eq)]
pub enum IntakeError {
    EmptyInput,
    NotAUrl { input: String },
    UnsupportedHost { host: String },
    MalformedRepoPath { input: String },
    RepoNotFoundOrPrivate { owner: String, repo: String },
    Network,
    RateLimited,
    CollectionFailed { detail: String },
    RepoTooLarge { size_mb: u64, threshold_mb: u64 },
    UnsafeInput { input: String },
}

/// The exit code of each error: 2 for bad input, 3 for a missing or private
/// repository, 4 for network trouble, 5 for a failed collection, 6 for a repository
/// over the size limit.
pub open spec fn exit_code_of(e: IntakeError) -> i32 {
    match e {
        IntakeError::EmptyInput | IntakeError::NotAUrl { .. } | IntakeError::UnsupportedHost { .. }
        | IntakeError::MalformedRepoPath { .. } | IntakeError::UnsafeInput { .. } => 2,
        IntakeError::RepoNotFoundOrPrivate { .. } => 3,
        IntakeError::Network | IntakeError::RateLimited => 4,
        IntakeError::CollectionFailed { .. } => 5,
        IntakeError::RepoTooLarge { .. } => 6,
    }
}

/// The message of each error, Vietnamese line first, English line second.
pub open spec fn message_of(e: IntakeError) -> Seq<char> {
    match e {
        IntakeError::EmptyInput => "🦀 Cho Ferris cái URL repo nào: `rust-to-you https://github.com/owner/repo`\nGive Ferris a repo URL: `rust-to-you https://github.com/owner/repo`"@,
        IntakeError::NotAUrl { .. } => "🦀 Cái này không giống URL GitHub. Thử `github.com/owner/repo` nha\nThis doesn't look like a GitHub URL. Try `github.com/owner/repo`"@,
        IntakeError::UnsupportedHost { host } => "🦀 Ferris chỉ hóng repo GitHub thôi — "@ + host@ + " chưa có trong danh sách khách mời\nFerris only visits public GitHub repos — "@ + host@ + " is not on the guest list"@,
        IntakeError::MalformedRepoPath { .. } => "🦀 Ferris cần `owner/repo`, kiểu `github.com/tokio-rs/axum`\nFerris needs `owner/repo`, like `github.com/tokio-rs/axum`"@,
        IntakeError::RepoNotFoundOrPrivate { owner, repo } => "🦀 Không với tới "@ + owner@ + "/"@ + repo@ + " — private hoặc không tồn tại. Ferris chỉ làm repo public\nCould not reach "@ + owner@ + "/"@ + repo@ + " — it is private or does not exist. Ferris only does public repos"@,
        IntakeError::Network => "🦀 Lỗi kết nối mạng rồi. Thử lại sau nha\nNetwork error. Try again later"@,
        IntakeError::RateLimited => "🦀 Ferris bị giới hạn lượt gọi API rồi. Thử lại sau nha\nFerris is rate-limited by the API. Try again later"@,
        IntakeError::CollectionFailed { detail } => "🦀 Lỗi khi đọc lịch sử git: "@ + detail@ + "\nError reading git history: "@ + detail@,
        IntakeError::RepoTooLarge { size_mb, threshold_mb } => "🦀 Repo này to quá ("@ + dec_nat(size_mb as nat) + " MB, vượt ngưỡng "@ + dec_nat(threshold_mb as nat) + " MB), Ferris không đào tự động đâu — chạy lại với --deep nếu bạn chấp nhận chờ lâu\nThis repo is too large ("@ + dec_nat(size_mb as nat) + " MB, over the "@ + dec_nat(threshold_mb as nat) + " MB limit). Ferris won't auto-dig — re-run with --deep if you accept the longer wait"@,
        IntakeError::UnsafeInput { .. } => "🦀 Input này kỳ lạ / không an toàn, Ferris không nhận\nThis input looks unsafe — Ferris won't take it"@,
    }
}

impl IntakeError {
    /// The process exit code for this error.
    pub fn exit_code(&self) -> (code: i32)
        ensures
            code == exit_code_of(*self),
    {
        match self {
            IntakeError::EmptyInput | IntakeError::NotAUrl { .. } | IntakeError::UnsupportedHost { .. }
            | IntakeError::MalformedRepoPath { .. } | IntakeError::UnsafeInput { .. } => 2,
            IntakeError::RepoNotFoundOrPrivate { .. } => 3,
            IntakeError::Network | IntakeError::RateLimited => 4,
            IntakeError::CollectionFailed { .. } => 5,
            IntakeError::RepoTooLarge { .. } => 6,
        }
    }

    /// The bilingual message shown to the user for this error.
    pub fn message(&self) -> (m: String)
        ensures
            m@ == message_of(*self),
    {
        match self {
            IntakeError::EmptyInput => String::from_str("🦀 Cho Ferris cái URL repo nào: `rust-to-you https://github.com/owner/repo`\nGive Ferris a repo URL: `rust-to-you https://github.com/owner/repo`"),
            IntakeError::NotAUrl { .. } => String::from_str("🦀 Cái này không giống URL GitHub. Thử `github.com/owner/repo` nha\nThis doesn't look like a GitHub URL. Try `github.com/owner/repo`"),
            IntakeError::UnsupportedHost { host } => {
                let mut s = String::from_str("🦀 Ferris chỉ hóng repo GitHub thôi — ");
                s.append(host.as_str());
                s.append(" chưa có trong danh sách khách mời\nFerris only visits public GitHub repos — ");
                s.append(host.as_str());
                s.append(" is not on the guest list");
                s
            },
            IntakeError::MalformedRepoPath { .. } => String::from_str("🦀 Ferris cần `owner/repo`, kiểu `github.com/tokio-rs/axum`\nFerris needs `owner/repo`, like `github.com/tokio-rs/axum`"),
            IntakeError::RepoNotFoundOrPrivate { owner, repo } => {
                let mut s = String::from_str("🦀 Không với tới ");
                s.append(owner.as_str());
                s.append("/");
                s.append(repo.as_str());
                s.append(" — private hoặc không tồn tại. Ferris chỉ làm repo public\nCould not reach ");
                s.append(owner.as_str());
                s.append("/");
                s.append(repo.as_str());
                s.append(" — it is private or does not exist. Ferris only does public repos");
                s
            },
            IntakeError::Network => String::from_str("🦀 Lỗi kết nối mạng rồi. Thử lại sau nha\nNetwork error. Try again later"),
            IntakeError::RateLimited => String::from_str("🦀 Ferris bị giới hạn lượt gọi API rồi. Thử lại sau nha\nFerris is rate-limited by the API. Try again later"),
            IntakeError::CollectionFailed { detail } => {
                let mut s = String::from_str("🦀 Lỗi khi đọc lịch sử git: ");
                s.append(detail.as_str());
                s.append("\nError reading git history: ");
                s.append(detail.as_str());
                s
            },
            IntakeError::RepoTooLarge { size_mb, threshold_mb } => {
                let mut s = String::from_str("🦀 Repo này to quá (");
                push_decimal(&mut s, *size_mb);
                s.append(" MB, vượt ngưỡng ");
                push_decimal(&mut s, *threshold_mb);
                s.append(" MB), Ferris không đào tự động đâu — chạy lại với --deep nếu bạn chấp nhận chờ lâu\nThis repo is too large (");
                push_decimal(&mut s, *size_mb);
                s.append(" MB, over the ");
                push_decimal(&mut s, *threshold_mb);
                s.append(" MB limit). Ferris won't auto-dig — re-run with --deep if you accept the longer wait");
                s
            },
            IntakeError::UnsafeInput { .. } => String::from_str("🦀 Input này kỳ lạ / không an toàn, Ferris không nhận\nThis input looks unsafe — Ferris won't take it"),
        }
    }
}

} // verus!
