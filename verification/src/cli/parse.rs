//! Parsing a user-given repository reference (`owner/repo`, `github.com/owner/repo`
//! or a full GitHub URL) into a validated [`RepoRef`].

use vstd::prelude::*;
use vstd::string::*;
use crate::chars::{
    is_ws, is_ctrl, is_ascii_alnum, lower_seq, contains, starts_with, find_from, lower_vec,
    eq_vec, contains_vec, starts_with_vec, find_first, sub_vec, string_of,
};
use crate::error::IntakeError;
use crate::text::chars_of;

verus! {

/// A GitHub repository: its owner and its name.
#[derive(Debug, Clone, PartialEq, Eq)]
pub struct RepoRef {
    pub owner: String,
    pub repo: String,
}

/// The longest accepted input, in bytes.
pub const MAX_INPUT_BYTES: usize = 2048;

/// The longest accepted owner segment.
pub const MAX_OWNER_LEN: usize = 39;

/// The longest accepted repository segment.
pub const MAX_REPO_LEN: usize = 100;

/// Index of the first character at or after `i` that is not whitespace.
pub open spec fn lead_ws(s: Seq<char>, i: int) -> int
    decreases s.len() - i,
{
    if 0 <= i < s.len() && is_ws(s[i]) {
        lead_ws(s, i + 1)
    } else {
        i
    }
}

/// One past the last character before `j`, and not before `lo`, that is not
/// whitespace.
pub open spec fn trail_ws(s: Seq<char>, lo: int, j: int) -> int
    decreases j - lo,
{
    if lo < j && j <= s.len() && is_ws(s[j - 1]) {
        trail_ws(s, lo, j - 1)
    } else {
        j
    }
}

/// `s` without its leading and trailing whitespace.
pub open spec fn trim(s: Seq<char>) -> Seq<char> {
    let lo = lead_ws(s, 0);
    s.subrange(lo, trail_ws(s, lo, s.len() as int))
}

/// The pieces of `s` between `/` separators, empty pieces dropped; `cur` is the
/// piece being read.
pub open spec fn segs(s: Seq<char>, cur: Seq<char>) -> Seq<Seq<char>>
    decreases s.len(),
{
    if s.len() == 0 {
        if cur.len() > 0 { seq![cur] } else { seq![] }
    } else if s[0] == '/' {
        (if cur.len() > 0 { seq![cur] } else { seq![] }) + segs(s.drop_first(), seq![])
    } else {
        segs(s.drop_first(), cur.push(s[0]))
    }
}

/// The non-empty `/`-separated segments of `s`.
pub open spec fn segments(s: Seq<char>) -> Seq<Seq<char>> {
    segs(s, seq![])
}

pub open spec fn is_segment_char(c: char) -> bool {
    is_ascii_alnum(c) || c == '-' || c == '_' || c == '.'
}

/// An owner or repository name: non-empty, made of ASCII letters, digits, `-`,
/// `_` and `.`, and without `..`.
pub open spec fn is_valid_segment_spec(s: Seq<char>) -> bool {
    s.len() > 0 && !contains(s, ".."@) && forall|i: int| 0 <= i < s.len() ==> is_segment_char(#[trigger] s[i])
}

/// A segment that could be read as a command-line option, or is over its length cap.
pub open spec fn is_unsafe_pair(owner: Seq<char>, repo: Seq<char>) -> bool {
    (owner.len() > 0 && owner[0] == '-') || (repo.len() > 0 && repo[0] == '-') || owner.len()
        > MAX_OWNER_LEN || repo.len() > MAX_REPO_LEN
}

pub open spec fn is_github_host(h: Seq<char>) -> bool {
    lower_seq(h) == "github.com"@ || lower_seq(h) == "www.github.com"@
}

/// The repository name with one trailing `.git` (in any case) removed, unless the
/// name is only `.git`.
pub open spec fn strip_git(s: Seq<char>) -> Seq<char> {
    if s.len() > 4 && lower_seq(s.subrange(s.len() - 4, s.len() as int)) == ".git"@ {
        s.subrange(0, s.len() - 4)
    } else {
        s
    }
}

/// Bytes taken by a character in UTF-8.
pub open spec fn utf8_width(c: char) -> nat {
    let u = c as u32;
    if u < 0x80 { 1 } else if u < 0x800 { 2 } else if u < 0x10000 { 3 } else { 4 }
}

/// Bytes taken by a character sequence in UTF-8: the length `str::len` reports.
pub open spec fn utf8_len(s: Seq<char>) -> nat
    decreases s.len(),
{
    if s.len() == 0 { 0 } else { utf8_len(s.drop_last()) + utf8_width(s.last()) }
}

/// Some segment holds `..` or a backslash.
pub open spec fn has_bad_segment(sg: Seq<Seq<char>>) -> bool {
    exists|i: int| 0 <= i < sg.len() && (contains(#[trigger] sg[i], ".."@) || contains(sg[i], "\\"@))
}

/// What parsing a trimmed, non-empty input gives, decided over its characters.
pub enum ParseOutcome {
    Empty,
    NotAUrl,
    UnsupportedHost(Seq<char>),
    Malformed,
    Unsafe,
    Accepted(Seq<char>, Seq<char>),
}

/// The outcome of parsing `input`.
pub open spec fn parse_outcome(input: Seq<char>) -> ParseOutcome {
    let t = trim(input);
    if t.len() == 0 {
        ParseOutcome::Empty
    } else if utf8_len(t) > MAX_INPUT_BYTES || exists|i: int| 0 <= i < t.len() && is_ctrl(#[trigger] t[i]) {
        ParseOutcome::NotAUrl
    } else if starts_with(t, "git@"@) {
        ParseOutcome::NotAUrl
    } else {
        let k = find_from(t, "://"@, 0);
        if k >= 0 && !(lower_seq(t.subrange(0, k)) == "http"@ || lower_seq(t.subrange(0, k)) == "https"@) {
            ParseOutcome::NotAUrl
        } else {
            let rest = if k >= 0 { t.subrange(k + 3, t.len() as int) } else { t };
            let sg = segments(rest);
            if sg.len() == 0 {
                ParseOutcome::NotAUrl
            } else if has_bad_segment(sg) {
                ParseOutcome::Malformed
            } else {
                let has_host = k >= 0 || contains(sg[0], "."@);
                if has_host && sg.len() < 3 {
                    if !is_github_host(sg[0]) { ParseOutcome::UnsupportedHost(sg[0]) } else { ParseOutcome::Malformed }
                } else if !has_host && sg.len() < 2 {
                    ParseOutcome::Malformed
                } else if has_host && !is_github_host(sg[0]) {
                    ParseOutcome::UnsupportedHost(sg[0])
                } else {
                    let owner = if has_host { sg[1] } else { sg[0] };
                    let repo = strip_git(if has_host { sg[2] } else { sg[1] });
                    if is_unsafe_pair(owner, repo) {
                        ParseOutcome::Unsafe
                    } else if !is_valid_segment_spec(owner) || !is_valid_segment_spec(repo) {
                        ParseOutcome::Malformed
                    } else {
                        ParseOutcome::Accepted(owner, repo)
                    }
                }
            }
        }
    }
}

/// The result of [`parse_repo_ref`] on `input` agrees with [`parse_outcome`];
/// error payloads carry the trimmed input, or the rejected host.
pub open spec fn parse_result_matches(input: Seq<char>, r: Result<RepoRef, IntakeError>) -> bool {
    match parse_outcome(input) {
        ParseOutcome::Empty => r == Err::<RepoRef, IntakeError>(IntakeError::EmptyInput),
        ParseOutcome::NotAUrl => r matches Err(IntakeError::NotAUrl { input: i }) && i@ == trim(input),
        ParseOutcome::UnsupportedHost(h) => r matches Err(IntakeError::UnsupportedHost { host }) && host@ == h,
        ParseOutcome::Malformed => r matches Err(IntakeError::MalformedRepoPath { input: i }) && i@ == trim(input),
        ParseOutcome::Unsafe => r matches Err(IntakeError::UnsafeInput { input: i }) && i@ == trim(input),
        ParseOutcome::Accepted(o, p) => r matches Ok(rr) && rr.owner@ == o && rr.repo@ == p,
    }
}

fn is_ws_char(c: char) -> (r: bool)
    ensures
        r == is_ws(c),
{
    let u = c as u32;
    (9 <= u && u <= 13) || u == 32 || u == 0x85 || u == 0xA0 || u == 0x1680 || (0x2000 <= u
        && u <= 0x200A) || u == 0x2028 || u == 0x2029 || u == 0x202F || u == 0x205F || u == 0x3000
}

fn is_ctrl_char(c: char) -> (r: bool)
    ensures
        r == is_ctrl(c),
{
    let u = c as u32;
    u <= 0x1F || (0x7F <= u && u <= 0x9F)
}

/// The bounds of the trimmed part of `v`.
fn trim_bounds(v: &Vec<char>) -> (r: (usize, usize))
    ensures
        r.0 <= r.1 <= v@.len(),
        v@.subrange(r.0 as int, r.1 as int) == trim(v@),
{
    let mut lo: usize = 0;
    while lo < v.len() && is_ws_char(v[lo])
        invariant
            lo <= v@.len(),
            lead_ws(v@, 0) == lead_ws(v@, lo as int),
        decreases v.len() - lo,
    {
        lo = lo + 1;
    }
    let mut hi: usize = v.len();
    while hi > lo && is_ws_char(v[hi - 1])
        invariant
            lo <= hi <= v@.len(),
            lead_ws(v@, 0) == lo,
            trail_ws(v@, lo as int, v@.len() as int) == trail_ws(v@, lo as int, hi as int),
        decreases hi - lo,
    {
        hi = hi - 1;
    }
    (lo, hi)
}

/// Whether `v` takes more than [`MAX_INPUT_BYTES`] bytes in UTF-8.
fn is_over_length(v: &Vec<char>) -> (r: bool)
    ensures
        r == (utf8_len(v@) > MAX_INPUT_BYTES),
{
    let mut total: usize = 0;
    let mut i: usize = 0;
    while i < v.len()
        invariant
            i <= v@.len(),
            total == utf8_len(v@.subrange(0, i as int)),
            total <= MAX_INPUT_BYTES,
        decreases v.len() - i,
    {
        let u = v[i] as u32;
        let w: usize = if u < 0x80 { 1 } else if u < 0x800 { 2 } else if u < 0x10000 { 3 } else { 4 };
        proof {
            assert(v@.subrange(0, i + 1).drop_last() =~= v@.subrange(0, i as int));
        }
        total = total + w;
        i = i + 1;
        if total > MAX_INPUT_BYTES {
            proof {
                lemma_utf8_len_prefix(v@, i as int);
            }
            return true;
        }
    }
    proof {
        assert(v@.subrange(0, i as int) =~= v@);
    }
    false
}

/// A prefix never takes more bytes than the whole.
proof fn lemma_utf8_len_prefix(s: Seq<char>, i: int)
    requires
        0 <= i <= s.len(),
    ensures
        utf8_len(s.subrange(0, i)) <= utf8_len(s),
    decreases s.len() - i,
{
    if i < s.len() {
        lemma_utf8_len_prefix(s, i + 1);
        assert(s.subrange(0, i + 1).drop_last() =~= s.subrange(0, i));
    } else {
        assert(s.subrange(0, i) =~= s);
    }
}

fn has_ctrl(v: &Vec<char>) -> (r: bool)
    ensures
        r == exists|i: int| 0 <= i < v@.len() && is_ctrl(#[trigger] v@[i]),
{
    let mut i: usize = 0;
    while i < v.len()
        invariant
            i <= v@.len(),
            forall|j: int| 0 <= j < i ==> !is_ctrl(#[trigger] v@[j]),
        decreases v.len() - i,
    {
        if is_ctrl_char(v[i]) {
            return true;
        }
        i = i + 1;
    }
    false
}

/// The non-empty `/`-separated segments of `v`.
fn split_segments(v: &Vec<char>) -> (r: Vec<Vec<char>>)
    ensures
        r@.len() == segments(v@).len(),
        forall|i: int| 0 <= i < r@.len() ==> (#[trigger] r@[i])@ == segments(v@)[i],
{
    let mut out: Vec<Vec<char>> = Vec::new();
    let mut cur: Vec<char> = Vec::new();
    let mut i: usize = 0;
    let ghost done: Seq<Seq<char>> = seq![];
    proof {
        assert(v@.skip(0) =~= v@);
        assert(cur@ =~= Seq::<char>::empty());
        assert(done + segs(v@, cur@) =~= segs(v@, cur@));
    }
    while i < v.len()
        invariant
            i <= v@.len(),
            out@.len() == done.len(),
            forall|k: int| 0 <= k < out@.len() ==> (#[trigger] out@[k])@ == done[k],
            segments(v@) == done + segs(v@.skip(i as int), cur@),
        decreases v.len() - i,
    {
        proof {
            assert(v@.skip(i as int).drop_first() =~= v@.skip(i + 1));
            assert(v@.skip(i as int)[0] == v@[i as int]);
        }
        if v[i] == '/' {
            if cur.len() > 0 {
                let piece = cur;
                proof {
                    done = done.push(piece@);
                    assert(done =~= (done.drop_last() + seq![piece@]));
                }
                out.push(piece);
                cur = Vec::new();
            } else {
                proof {
                    assert(done + segs(v@.skip(i + 1), seq![]) =~= done + (Seq::<Seq<char>>::empty() + segs(v@.skip(i + 1), seq![])));
                }
            }
            proof {
                assert(cur@ =~= Seq::<char>::empty());
            }
        } else {
            cur.push(v[i]);
        }
        i = i + 1;
    }
    if cur.len() > 0 {
        let piece = cur;
        proof {
            done = done.push(piece@);
        }
        out.push(piece);
    }
    proof {
        assert(v@.skip(i as int) =~= Seq::<char>::empty());
        assert(segments(v@) =~= done);
    }
    out
}

fn any_bad_segment(sg: &Vec<Vec<char>>, dots: &Vec<char>, backslash: &Vec<char>) -> (r: bool)
    ensures
        r == exists|i: int| 0 <= i < sg@.len() && (contains((#[trigger] sg@[i])@, dots@) || contains(sg@[i]@, backslash@)),
{
    let mut i: usize = 0;
    while i < sg.len()
        invariant
            i <= sg@.len(),
            forall|j: int| 0 <= j < i ==> !(contains((#[trigger] sg@[j])@, dots@) || contains(sg@[j]@, backslash@)),
        decreases sg.len() - i,
    {
        if contains_vec(&sg[i], dots) || contains_vec(&sg[i], backslash) {
            return true;
        }
        i = i + 1;
    }
    false
}

fn is_segment_char_exec(c: char) -> (r: bool)
    ensures
        r == is_segment_char(c),
{
    ('a' <= c && c <= 'z') || ('A' <= c && c <= 'Z') || ('0' <= c && c <= '9') || c == '-' || c == '_' || c == '.'
}

/// Whether `v` is a valid owner or repository name.
fn valid_segment_chars(v: &Vec<char>) -> (r: bool)
    ensures
        r == is_valid_segment_spec(v@),
{
    if v.len() == 0 {
        return false;
    }
    let dots = chars_of("..");
    if contains_vec(v, &dots) {
        return false;
    }
    let mut i: usize = 0;
    while i < v.len()
        invariant
            i <= v@.len(),
            forall|j: int| 0 <= j < i ==> is_segment_char(#[trigger] v@[j]),
        decreases v.len() - i,
    {
        if !is_segment_char_exec(v[i]) {
            return false;
        }
        i = i + 1;
    }
    true
}

fn is_github_host_exec(h: &Vec<char>) -> (r: bool)
    ensures
        r == is_github_host(h@),
{
    let l = lower_vec(h);
    eq_vec(&l, &chars_of("github.com")) || eq_vec(&l, &chars_of("www.github.com"))
}

fn strip_git_exec(v: &Vec<char>) -> (r: Vec<char>)
    ensures
        r@ == strip_git(v@),
{
    if v.len() > 4 {
        let tail = sub_vec(v, v.len() - 4, v.len());
        if eq_vec(&lower_vec(&tail), &chars_of(".git")) {
            return sub_vec(v, 0, v.len() - 4);
        }
    }
    v.clone()
}

fn is_unsafe_pair_exec(owner: &Vec<char>, repo: &Vec<char>) -> (r: bool)
    ensures
        r == is_unsafe_pair(owner@, repo@),
{
    (owner.len() > 0 && owner[0] == '-') || (repo.len() > 0 && repo[0] == '-') || owner.len()
        > MAX_OWNER_LEN || repo.len() > MAX_REPO_LEN
}

/// Parses a repository reference, trimmed of surrounding whitespace, into an owner
/// and a repository name, or says why it is refused.
pub fn parse_repo_ref(input: &str) -> (r: Result<RepoRef, IntakeError>)
    ensures
        parse_result_matches(input@, r),
        r matches Ok(rr) ==> is_valid_segment_spec(rr.owner@) && is_valid_segment_spec(rr.repo@)
            && !is_unsafe_pair(rr.owner@, rr.repo@),
{
    let all = chars_of(input);
    let (lo, hi) = trim_bounds(&all);
    let t = sub_vec(&all, lo, hi);
    let ghost tt = trim(input@);
    assert(t@ == tt);
    if t.len() == 0 {
        return Err(IntakeError::EmptyInput);
    }
    let ts = string_of(&t);
    if is_over_length(&t) || has_ctrl(&t) {
        return Err(IntakeError::NotAUrl { input: ts });
    }
    if starts_with_vec(&t, &chars_of("git@")) {
        return Err(IntakeError::NotAUrl { input: ts });
    }
    let found = find_first(&t, &chars_of("://"));
    let rest = match found {
        Some(k) => {
            proof {
                crate::chars::lemma_find_from_bounds(t@, "://"@, 0);
                reveal_strlit("://");
            }
            let scheme = lower_vec(&sub_vec(&t, 0, k));
            if !(eq_vec(&scheme, &chars_of("http")) || eq_vec(&scheme, &chars_of("https"))) {
                return Err(IntakeError::NotAUrl { input: ts });
            }
            sub_vec(&t, k + 3, t.len())
        },
        None => t.clone(),
    };
    let ghost k_s = find_from(tt, "://"@, 0);
    let ghost rest_s = if k_s >= 0 { tt.subrange(k_s + 3, tt.len() as int) } else { tt };
    proof {
        reveal_strlit("://");
        assert(rest@ =~= rest_s);
    }
    let sg = split_segments(&rest);
    let ghost gs = segments(rest_s);
    proof {
        assert(gs.len() == sg@.len());
        assert(forall|i: int| 0 <= i < gs.len() ==> gs[i] == (#[trigger] sg@[i])@);
    }
    if sg.len() == 0 {
        return Err(IntakeError::NotAUrl { input: ts });
    }
    let bad = any_bad_segment(&sg, &chars_of(".."), &chars_of("\\"));
    proof {
        if bad {
            let i = choose|i: int| 0 <= i < sg@.len() && (contains((#[trigger] sg@[i])@, ".."@) || contains(sg@[i]@, "\\"@));
            assert(contains(gs[i], ".."@) || contains(gs[i], "\\"@));
            assert(has_bad_segment(gs));
        } else {
            assert forall|i: int| 0 <= i < gs.len() implies !(contains(#[trigger] gs[i], ".."@) || contains(gs[i], "\\"@)) by {
                assert(gs[i] == sg@[i]@);
            }
            assert(!has_bad_segment(gs));
        }
    }
    if bad {
        return Err(IntakeError::MalformedRepoPath { input: ts });
    }
    assert(gs[0] == sg@[0]@);
    let has_host = found.is_some() || contains_vec(&sg[0], &chars_of("."));
    if has_host && sg.len() < 3 {
        if !is_github_host_exec(&sg[0]) {
            return Err(IntakeError::UnsupportedHost { host: string_of(&sg[0]) });
        }
        return Err(IntakeError::MalformedRepoPath { input: ts });
    }
    if !has_host && sg.len() < 2 {
        return Err(IntakeError::MalformedRepoPath { input: ts });
    }
    if has_host && !is_github_host_exec(&sg[0]) {
        return Err(IntakeError::UnsupportedHost { host: string_of(&sg[0]) });
    }
    let owner = if has_host { &sg[1] } else { &sg[0] };
    let repo = strip_git_exec(if has_host { &sg[2] } else { &sg[1] });
    if is_unsafe_pair_exec(owner, &repo) {
        return Err(IntakeError::UnsafeInput { input: ts });
    }
    if !valid_segment_chars(owner) || !valid_segment_chars(&repo) {
        return Err(IntakeError::MalformedRepoPath { input: ts });
    }
    Ok(RepoRef { owner: string_of(owner), repo: string_of(&repo) })
}

/// Whether `s` is an acceptable owner or repository name.
pub fn is_valid_segment(s: &str) -> (r: bool)
    ensures
        r == is_valid_segment_spec(s@),
{
    valid_segment_chars(&chars_of(s))
}

/// `s` without its leading and trailing whitespace.
pub fn trim_text(s: &str) -> (r: String)
    ensures
        r@ == trim(s@),
{
    let all = chars_of(s);
    let (lo, hi) = trim_bounds(&all);
    string_of(&sub_vec(&all, lo, hi))
}

/// The HTTPS clone URL of a repository.
pub open spec fn clone_url_spec(owner: Seq<char>, repo: Seq<char>) -> Seq<char> {
    "https://github.com/"@ + owner + "/"@ + repo + ".git"@
}

/// The HTTPS clone URL of `r`.
pub fn clone_url(r: &RepoRef) -> (u: String)
    ensures
        u@ == clone_url_spec(r.owner@, r.repo@),
{
    let mut u = String::from_str("https://github.com/");
    u.append(r.owner.as_str());
    u.append("/");
    u.append(r.repo.as_str());
    u.append(".git");
    u
}

/// An accepted reference has two valid segments, neither starting with `-` nor over
/// its length cap; input over [`MAX_INPUT_BYTES`] or holding a control character, and
/// any path segment holding `..` or a backslash, is never accepted; and input with a
/// scheme is accepted only where the host after it is `github.com` or
/// `www.github.com`.
pub proof fn law_parse_guards(input: Seq<char>)
    ensures
        parse_outcome(input) matches ParseOutcome::Accepted(o, r) ==> {
            &&& is_valid_segment_spec(o) && is_valid_segment_spec(r)
            &&& o[0] != '-' && r[0] != '-'
            &&& o.len() <= MAX_OWNER_LEN && r.len() <= MAX_REPO_LEN
        },
        (utf8_len(trim(input)) > MAX_INPUT_BYTES || exists|i: int| 0 <= i < trim(input).len() && is_ctrl(#[trigger] trim(input)[i]))
            ==> !(parse_outcome(input) is Accepted),
        ({
            let t = trim(input);
            let k = find_from(t, "://"@, 0);
            k >= 0 && parse_outcome(input) is Accepted ==> is_github_host(segments(t.subrange(k + 3, t.len() as int))[0])
        }),
{
}

} // verus!
