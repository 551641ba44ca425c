//! What the GitHub API tells about a repository, and how an HTTP status of its
//! one call is read.

use vstd::prelude::*;
use vstd::string::*;
use crate::cli::parse::{RepoRef, trim, trim_text};

verus! {

/// The repository metadata the API returns; `size` is in kilobytes.
#[derive(Debug, Clone)]
pub struct RepoMetadata {
    pub stargazers_count: u64,
    pub forks_count: u64,
    pub description: Option<String>,
    pub topics: Vec<String>,
    pub default_branch: String,
    pub pushed_at: Option<String>,
    pub created_at: Option<String>,
    pub size: u64,
}

/// Why the metadata call failed.
#[derive(Debug, Clone, Copy, PartialEq, Eq, Structural)]
pub enum GithubError {
    NotFound,
    RateLimited,
    Network,
}

/// The reading of an HTTP status: 200 is success, 404 a missing (or private)
/// repository, 403 and 429 rate limiting, anything else a network failure.
pub open spec fn classify_spec(status: u16) -> Result<(), GithubError> {
    if status == 200 {
        Ok(())
    } else if status == 404 {
        Err(GithubError::NotFound)
    } else if status == 403 || status == 429 {
        Err(GithubError::RateLimited)
    } else {
        Err(GithubError::Network)
    }
}

/// Only status 200 succeeds; a missing repository is exactly status 404; rate
/// limiting is exactly 403 or 429; every other status is a network failure.
pub proof fn law_status_reading(status: u16)
    ensures
        classify_spec(status) is Ok <==> status == 200,
        classify_spec(status) == Err::<(), GithubError>(GithubError::NotFound) <==> status == 404,
        classify_spec(status) == Err::<(), GithubError>(GithubError::RateLimited) <==> (status == 403 || status == 429),
        classify_spec(status) == Err::<(), GithubError>(GithubError::Network) <==> !(status == 200 || status == 404
            || status == 403 || status == 429),
{
}

/// Reads the HTTP status code of the metadata response.
pub fn classify(status: u16) -> (r: Result<(), GithubError>)
    ensures
        r == classify_spec(status),
{
    if status == 200 {
        Ok(())
    } else if status == 404 {
        Err(GithubError::NotFound)
    } else if status == 403 || status == 429 {
        Err(GithubError::RateLimited)
    } else {
        Err(GithubError::Network)
    }
}

/// The API address of a repository's metadata.
pub open spec fn metadata_url_spec(owner: Seq<char>, repo: Seq<char>) -> Seq<char> {
    "https://api.github.com/repos/"@ + owner + "/"@ + repo
}

/// The API address of `r`'s metadata.
pub fn metadata_url(r: &RepoRef) -> (u: String)
    ensures
        u@ == metadata_url_spec(r.owner@, r.repo@),
{
    let mut u = String::from_str("https://api.github.com/repos/");
    u.append(r.owner.as_str());
    u.append("/");
    u.append(r.repo.as_str());
    u
}

/// The token to send for a value of `GITHUB_TOKEN`: trimmed, and none when unset
/// or blank.
pub open spec fn bearer_spec(raw: Option<Seq<char>>) -> Option<Seq<char>> {
    match raw {
        Some(v) => if trim(v).len() > 0 { Some(trim(v)) } else { None },
        None => None,
    }
}

/// The token to send, from the value of `GITHUB_TOKEN`.
pub fn bearer_token(raw: Option<String>) -> (t: Option<String>)
    ensures
        t.deep_view() == bearer_spec(raw.deep_view()),
{
    match raw {
        Some(v) => {
            let tok = trim_text(v.as_str());
            if tok.unicode_len() > 0 { Some(tok) } else { None }
        },
        None => None,
    }
}

} // verus!
