use vstd::prelude::*;
use crate::cli::parse::RepoRef;
use crate::error::IntakeError;
use crate::github::{GithubError, RepoMetadata};
use crate::snapshot::RepoMetaState;

verus! {

/// The largest repository, in kilobytes, investigated without `--deep` (500 MB).
pub const MAX_REPO_KB: u64 = 512000;

/// What the size guard decides before cloning.
#[derive(Debug, Clone, Copy, PartialEq, Eq, Structural)]
pub enum SizeDecision {
    Proceed,
    WarnDeep { size_mb: u64 },
    WarnUnknown,
    TooLarge { size_mb: u64 },
}

/// Kilobytes in whole megabytes, rounded up.
pub open spec fn mb_ceil(kb: nat) -> nat {
    (kb + 1023) / 1024
}

/// The size guard: a repository over [`MAX_REPO_KB`] is refused, or only warned
/// about under `--deep`, with its size rounded up to megabytes; an unknown size is
/// warned about.
pub open spec fn size_decision_spec(meta_state: RepoMetaState, deep: bool) -> SizeDecision {
    match meta_state {
        RepoMetaState::Available(m) => if m.size > MAX_REPO_KB {
            if deep {
                SizeDecision::WarnDeep { size_mb: mb_ceil(m.size as nat) as u64 }
            } else {
                SizeDecision::TooLarge { size_mb: mb_ceil(m.size as nat) as u64 }
            }
        } else {
            SizeDecision::Proceed
        },
        RepoMetaState::Unavailable => SizeDecision::WarnUnknown,
    }
}

/// The size guard in terms of the repository's size in kilobytes: over 500 MB
/// (512000 KB) it refuses the repository, or only warns under `--deep`, and the
/// megabytes it reports are the size rounded up to whole megabytes; up to that it
/// proceeds; with no size known it warns.
pub proof fn law_size_guard(meta_state: RepoMetaState, deep: bool)
    ensures
        ({
            let d = size_decision_spec(meta_state, deep);
            match meta_state {
                RepoMetaState::Available(m) => {
                    &&& (d is TooLarge <==> m.size > 512000 && !deep)
                    &&& (d is WarnDeep <==> m.size > 512000 && deep)
                    &&& (d is Proceed <==> m.size <= 512000)
                    &&& (d matches SizeDecision::TooLarge { size_mb } ==> (size_mb - 1) * 1024 < m.size <= size_mb * 1024)
                    &&& (d matches SizeDecision::WarnDeep { size_mb } ==> (size_mb - 1) * 1024 < m.size <= size_mb * 1024)
                },
                RepoMetaState::Unavailable => d is WarnUnknown,
            }
        }),
{
    if let RepoMetaState::Available(m) = meta_state {
        let k = m.size as nat;
        let c = mb_ceil(k);
        assert((c - 1) * 1024 < k <= c * 1024) by (nonlinear_arith)
            requires
                c == (k + 1023) / 1024,
        ;
        assert(c <= 0xffff_ffff_ffff_ffff) by (nonlinear_arith)
            requires
                c == (k + 1023) / 1024,
                k <= 0xffff_ffff_ffff_ffff,
        ;
    }
}

/// Applies the size guard to the metadata state.
pub fn size_decision(meta_state: &RepoMetaState, deep: bool) -> (d: SizeDecision)
    ensures
        d == size_decision_spec(*meta_state, deep),
        d matches SizeDecision::TooLarge { size_mb } ==> size_mb > MAX_REPO_KB / 1024,
        d matches SizeDecision::WarnDeep { size_mb } ==> size_mb > MAX_REPO_KB / 1024,
{
    match meta_state {
        RepoMetaState::Available(m) => {
            if m.size > MAX_REPO_KB {
                let size_mb = m.size / 1024 + if m.size % 1024 != 0 { 1 } else { 0 };
                proof {
                    assert(size_mb == mb_ceil(m.size as nat));
                }
                if deep {
                    SizeDecision::WarnDeep { size_mb }
                } else {
                    SizeDecision::TooLarge { size_mb }
                }
            } else {
                SizeDecision::Proceed
            }
        },
        RepoMetaState::Unavailable => SizeDecision::WarnUnknown,
    }
}

/// How the metadata call's outcome continues the investigation: a missing or
/// private repository aborts it, any other failure degrades to unknown metadata.
pub fn metadata_state(fetched: Result<RepoMetadata, GithubError>, repo: &RepoRef) -> (r: Result<RepoMetaState, IntakeError>)
    ensures
        fetched matches Ok(m) ==> (r matches Ok(RepoMetaState::Available(m2)) && m2 == m),
        fetched == Err::<RepoMetadata, GithubError>(GithubError::NotFound) ==> (r matches Err(IntakeError::RepoNotFoundOrPrivate { owner, repo: name })
            && owner@ == repo.owner@ && name@ == repo.repo@),
        (fetched matches Err(e) && e != GithubError::NotFound) ==> (r matches Ok(RepoMetaState::Unavailable)),
{
    match fetched {
        Ok(m) => Ok(RepoMetaState::Available(m)),
        Err(GithubError::NotFound) => Err(IntakeError::RepoNotFoundOrPrivate { owner: repo.owner.clone(), repo: repo.repo.clone() }),
        Err(_) => Ok(RepoMetaState::Unavailable),
    }
}

/// The size guard as a gate: a repository too large stops the investigation with
/// its size and the limit, both in megabytes.
pub fn size_gate(d: SizeDecision) -> (r: Result<(), IntakeError>)
    ensures
        d matches SizeDecision::TooLarge { size_mb } ==> r == Err::<(), IntakeError>(IntakeError::RepoTooLarge { size_mb, threshold_mb: MAX_REPO_KB / 1024 }),
        !(d is TooLarge) ==> r is Ok,
{
    match d {
        SizeDecision::TooLarge { size_mb } => Err(IntakeError::RepoTooLarge { size_mb, threshold_mb: MAX_REPO_KB / 1024 }),
        _ => Ok(()),
    }
}

/// Everything decided before the repository is cloned, from the metadata call's
/// outcome: a missing or private repository stops here, then the size guard runs,
/// and only a repository it lets through goes on, with its metadata state and the
/// guard's decision (which may still carry a warning).
pub fn preflight(fetched: Result<RepoMetadata, GithubError>, repo: &RepoRef, deep: bool) -> (r: Result<(RepoMetaState, SizeDecision), IntakeError>)
    ensures
        fetched == Err::<RepoMetadata, GithubError>(GithubError::NotFound) ==> (r matches Err(IntakeError::RepoNotFoundOrPrivate { owner, repo: name })
            && owner@ == repo.owner@ && name@ == repo.repo@),
        (fetched matches Err(e) && e != GithubError::NotFound) ==> r == Ok::<(RepoMetaState, SizeDecision), IntakeError>(
            (RepoMetaState::Unavailable, SizeDecision::WarnUnknown)),
        fetched matches Ok(m) ==> (if m.size > MAX_REPO_KB && !deep {
            r == Err::<(RepoMetaState, SizeDecision), IntakeError>(
                IntakeError::RepoTooLarge { size_mb: mb_ceil(m.size as nat) as u64, threshold_mb: MAX_REPO_KB / 1024 })
        } else {
            r matches Ok((RepoMetaState::Available(m2), d2)) && m2 == m
                && d2 == size_decision_spec(RepoMetaState::Available(m), deep)
        }),
        r matches Ok((st, d)) ==> !(d is TooLarge) && d == size_decision_spec(st, deep),
{
    let st = match metadata_state(fetched, repo) {
        Ok(st) => st,
        Err(e) => return Err(e),
    };
    let d = size_decision(&st, deep);
    match size_gate(d) {
        Ok(()) => Ok((st, d)),
        Err(e) => Err(e),
    }
}

} // verus!
