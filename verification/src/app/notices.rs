//! What the program tells the user while it works, in both languages.

use vstd::prelude::*;
use vstd::string::*;
use crate::i18n::Bilingual;
use crate::app::session::InvestigationSession;
use crate::app::collect::SizeDecision;
use crate::github::GithubError;
use crate::text::{dec_nat, push_decimal};

verus! {

/// The opening lines of an investigation: the repository and the case.
pub open spec fn opening_spec(owner: Seq<char>, repo: Seq<char>, case_id: Seq<char>) -> (Seq<char>, Seq<char>) {
    ("🦀 Ferris bắt đầu điều tra "@ + owner + "/"@ + repo + " — Case "@ + case_id,
     "Ferris is opening the investigation for "@ + owner + "/"@ + repo + " — Case "@ + case_id)
}

/// Announces the investigation of the session's repository.
pub fn opening_lines(session: &InvestigationSession) -> (b: Bilingual)
    ensures
        (b.vi@, b.en@) == opening_spec(session.repo.owner@, session.repo.repo@, session.case_id@),
{
    let mut vi = String::from_str("🦀 Ferris bắt đầu điều tra ");
    vi.append(session.repo.owner.as_str());
    vi.append("/");
    vi.append(session.repo.repo.as_str());
    vi.append(" — Case ");
    vi.append(session.case_id.as_str());
    let mut en = String::from_str("Ferris is opening the investigation for ");
    en.append(session.repo.owner.as_str());
    en.append("/");
    en.append(session.repo.repo.as_str());
    en.append(" — Case ");
    en.append(session.case_id.as_str());
    Bilingual { vi, en }
}

/// The warning the size guard gives before cloning, if any.
pub open spec fn size_warning_spec(d: SizeDecision) -> Option<(Seq<char>, Seq<char>)> {
    match d {
        SizeDecision::WarnDeep { size_mb } => Some((
            "🦀 Repo lớn ("@ + dec_nat(size_mb as nat) + " MB), Ferris vẫn đào vì --deep — sẽ lâu đó"@,
            "Large repo ("@ + dec_nat(size_mb as nat) + " MB) — Ferris digs anyway (--deep); this will take a while"@)),
        SizeDecision::WarnUnknown => Some((
            "🦀 Không biết kích thước repo, Ferris cứ đào nha"@,
            "Unknown repo size — Ferris digs anyway"@)),
        _ => None,
    }
}

/// The warning for a size decision: a large repository dug anyway under `--deep`,
/// or an unknown size.
pub fn size_warning(d: SizeDecision) -> (w: Option<Bilingual>)
    ensures
        w matches Some(b) ==> size_warning_spec(d) == Some((b.vi@, b.en@)),
        w is None ==> size_warning_spec(d) is None,
{
    match d {
        SizeDecision::WarnDeep { size_mb } => {
            let mut vi = String::from_str("🦀 Repo lớn (");
            push_decimal(&mut vi, size_mb);
            vi.append(" MB), Ferris vẫn đào vì --deep — sẽ lâu đó");
            let mut en = String::from_str("Large repo (");
            push_decimal(&mut en, size_mb);
            en.append(" MB) — Ferris digs anyway (--deep); this will take a while");
            Some(Bilingual { vi, en })
        },
        SizeDecision::WarnUnknown => Some(Bilingual::new(
            "🦀 Không biết kích thước repo, Ferris cứ đào nha",
            "Unknown repo size — Ferris digs anyway",
        )),
        _ => None,
    }
}

/// The name of a metadata failure, as it is shown.
pub open spec fn github_error_name(e: GithubError) -> Seq<char> {
    match e {
        GithubError::NotFound => "NotFound"@,
        GithubError::RateLimited => "RateLimited"@,
        GithubError::Network => "Network"@,
    }
}

/// The notice that the metadata could not be read and the investigation goes on
/// with git alone.
pub fn metadata_degraded_notice(e: GithubError) -> (s: String)
    ensures
        s@ == "🦀 Ferris không gọi được metadata ("@ + github_error_name(e)
            + ") — tiếp tục với git thôi\nFerris could not reach repo metadata, continuing git-only"@,
{
    let mut s = String::from_str("🦀 Ferris không gọi được metadata (");
    let name = match e {
        GithubError::NotFound => "NotFound",
        GithubError::RateLimited => "RateLimited",
        GithubError::Network => "Network",
    };
    s.append(name);
    s.append(") — tiếp tục với git thôi\nFerris could not reach repo metadata, continuing git-only");
    s
}

/// The notice that stale clone directories from an earlier run were removed.
pub fn sweep_notice(removed: usize) -> (b: Bilingual)
    ensures
        b.vi@ == "🦀 Ferris dọn "@ + dec_nat(removed as nat) + " temp cũ từ lần trước nha"@,
        b.en@ == "Ferris swept "@ + dec_nat(removed as nat) + " stale temp dir(s) from a previous run"@,
{
    let mut vi = String::from_str("🦀 Ferris dọn ");
    push_decimal(&mut vi, removed as u64);
    vi.append(" temp cũ từ lần trước nha");
    let mut en = String::from_str("Ferris swept ");
    push_decimal(&mut en, removed as u64);
    en.append(" stale temp dir(s) from a previous run");
    Bilingual { vi, en }
}

/// The farewell after an interrupt, once the temp directory is removed.
pub fn interrupt_notice() -> (b: Bilingual)
    ensures
        b.vi@ == "🦀 Ferris dọn dẹp rồi rút nha"@,
        b.en@ == "Ferris cleaned up — bye"@,
{
    Bilingual::new("🦀 Ferris dọn dẹp rồi rút nha", "Ferris cleaned up — bye")
}

/// The apology after a crash, once the temp directory is removed.
pub fn crash_notice() -> (b: Bilingual)
    ensures
        b.vi@ == "🦀 Ơ Ferris vấp ngã rồi, nhưng đã dọn temp xong xuôi"@,
        b.en@ == "Ferris tripped over a bug, but cleaned up the temp dir"@,
{
    Bilingual::new("🦀 Ơ Ferris vấp ngã rồi, nhưng đã dọn temp xong xuôi", "Ferris tripped over a bug, but cleaned up the temp dir")
}

} // verus!
