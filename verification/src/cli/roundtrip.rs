//! Reading back a repository's clone URL gives the repository.

use vstd::prelude::*;
use vstd::string::*;
use crate::chars::{is_ws, is_ctrl, is_ascii_alnum, lower, lower_seq, at, find_from, contains, starts_with,
    lemma_find_from_bounds, lemma_find_from_none};
use crate::cli::parse::{
    lead_ws, trail_ws, trim, segs, segments, is_segment_char, is_valid_segment_spec, is_unsafe_pair, is_github_host,
    strip_git, utf8_len, utf8_width, has_bad_segment, ParseOutcome, parse_outcome, clone_url_spec,
};

verus! {

/// The characters a clone URL is made of.
pub open spec fn url_char(c: char) -> bool {
    is_segment_char(c) || c == ':' || c == '/'
}

proof fn lemma_url_char_facts(c: char)
    requires
        url_char(c),
    ensures
        !is_ws(c),
        !is_ctrl(c),
        (c as u32) < 0x80,
        lower(c) == c || is_ascii_alnum(c),
{
}

proof fn lemma_utf8_ascii(s: Seq<char>)
    requires
        forall|i: int| 0 <= i < s.len() ==> (#[trigger] s[i] as u32) < 0x80,
    ensures
        utf8_len(s) == s.len(),
    decreases s.len(),
{
    if s.len() > 0 {
        assert forall|i: int| 0 <= i < s.drop_last().len() implies (#[trigger] s.drop_last()[i] as u32) < 0x80 by {
            assert(s.drop_last()[i] == s[i]);
        }
        lemma_utf8_ascii(s.drop_last());
        assert(utf8_width(s.last()) == 1);
    }
}

/// A pattern found at `i` is found by the search from any earlier start.
proof fn lemma_at_found(s: Seq<char>, pat: Seq<char>, j: int, i: int)
    requires
        0 <= j <= i,
        at(s, pat, i),
    ensures
        find_from(s, pat, j) >= 0,
    decreases i - j,
{
    if !at(s, pat, j) {
        lemma_at_found(s, pat, j + 1, i);
    }
}

/// `s` holds `..` exactly where two dots follow each other.
proof fn lemma_dots(s: Seq<char>)
    ensures
        contains(s, ".."@) <==> exists|i: int| 0 <= i < s.len() - 1 && #[trigger] s[i] == '.' && s[i + 1] == '.',
{
    reveal_strlit("..");
    if contains(s, ".."@) {
        lemma_find_from_bounds(s, ".."@, 0);
        let i = find_from(s, ".."@, 0);
        assert(s.subrange(i, i + 2)[0] == '.' && s.subrange(i, i + 2)[1] == '.');
        assert(s[i] == '.' && s[i + 1] == '.');
    }
    if exists|i: int| 0 <= i < s.len() - 1 && #[trigger] s[i] == '.' && s[i + 1] == '.' {
        let i = choose|i: int| 0 <= i < s.len() - 1 && #[trigger] s[i] == '.' && s[i + 1] == '.';
        assert(s.subrange(i, i + 2) =~= ".."@);
        lemma_at_found(s, ".."@, 0, i);
    }
}

/// A one-character pattern absent from `s` is not found.
proof fn lemma_no_char(s: Seq<char>, c: char)
    requires
        forall|i: int| 0 <= i < s.len() ==> #[trigger] s[i] != c,
    ensures
        !contains(s, seq![c]),
{
    assert forall|j: int| 0 <= j implies !at(s, seq![c], j) by {
        if at(s, seq![c], j) {
            assert(s.subrange(j, j + 1)[0] == s[j]);
        }
    }
    lemma_find_from_none(s, seq![c], 0);
}

proof fn lemma_segs_plain(a: Seq<char>, cur: Seq<char>)
    requires
        forall|i: int| 0 <= i < a.len() ==> #[trigger] a[i] != '/',
    ensures
        segs(a, cur) == (if (cur + a).len() > 0 { seq![cur + a] } else { seq![] }),
    decreases a.len(),
{
    if a.len() == 0 {
        assert(cur + a =~= cur);
    } else {
        assert forall|i: int| 0 <= i < a.drop_first().len() implies #[trigger] a.drop_first()[i] != '/' by {
            assert(a.drop_first()[i] == a[i + 1]);
        }
        lemma_segs_plain(a.drop_first(), cur.push(a[0]));
        assert(cur.push(a[0]) + a.drop_first() =~= cur + a);
    }
}

proof fn lemma_segs_slash(a: Seq<char>, b: Seq<char>, cur: Seq<char>)
    requires
        forall|i: int| 0 <= i < a.len() ==> #[trigger] a[i] != '/',
    ensures
        segs(a + seq!['/'] + b, cur) == (if (cur + a).len() > 0 { seq![cur + a] } else { seq![] }) + segs(b, seq![]),
    decreases a.len(),
{
    let s = a + seq!['/'] + b;
    if a.len() == 0 {
        assert(cur + a =~= cur);
        assert(s[0] == '/');
        assert(s.drop_first() =~= b);
    } else {
        assert forall|i: int| 0 <= i < a.drop_first().len() implies #[trigger] a.drop_first()[i] != '/' by {
            assert(a.drop_first()[i] == a[i + 1]);
        }
        lemma_segs_slash(a.drop_first(), b, cur.push(a[0]));
        assert(s.drop_first() =~= a.drop_first() + seq!['/'] + b);
        assert(s[0] == a[0]);
        assert(cur.push(a[0]) + a.drop_first() =~= cur + a);
    }
}

/// Parsing the clone URL of a valid, safe repository reference gives the reference
/// back. A repository name ending in `.` is left out: with `.git` appended its URL
/// holds `..`, which the parser refuses.
pub proof fn law_clone_url_round_trip(owner: Seq<char>, repo: Seq<char>)
    requires
        is_valid_segment_spec(owner),
        is_valid_segment_spec(repo),
        !is_unsafe_pair(owner, repo),
        repo.last() != '.',
    ensures
        parse_outcome(clone_url_spec(owner, repo)) == ParseOutcome::Accepted(owner, repo),
{
    reveal_strlit("https://github.com/");
    reveal_strlit("/");
    reveal_strlit(".git");
    reveal_strlit("://");
    reveal_strlit("git@");
    reveal_strlit("github.com");
    reveal_strlit("www.github.com");
    reveal_strlit("http");
    reveal_strlit("https");
    reveal_strlit(".");
    reveal_strlit("\\");
    let l1 = "https://github.com/"@;
    let t = clone_url_spec(owner, repo);
    let rg = repo + ".git"@;
    assert(t =~= l1 + owner + seq!['/'] + rg);
    assert(t.len() == 19 + owner.len() + 1 + repo.len() + 4);

    // Every character is a URL character.
    assert forall|i: int| 0 <= i < t.len() implies url_char(#[trigger] t[i]) by {
        if i < 19 {
            assert(t[i] == l1[i]);
        } else if i < 19 + owner.len() {
            assert(t[i] == owner[i - 19]);
        } else if i == 19 + owner.len() {
        } else if i < 20 + owner.len() + repo.len() {
            assert(t[i] == repo[i - 20 - owner.len()]);
        } else {
            assert(t[i] == ".git"@[i - 20 - owner.len() - repo.len()]);
        }
    }
    assert forall|i: int| 0 <= i < t.len() implies !is_ws(#[trigger] t[i]) && !is_ctrl(t[i]) && (t[i] as u32) < 0x80 by {
        lemma_url_char_facts(t[i]);
    }

    // Trimming keeps it whole.
    assert(lead_ws(t, 0) == 0);
    assert(trail_ws(t, 0, t.len() as int) == t.len());
    assert(trim(t) =~= t);
    lemma_utf8_ascii(t);
    assert(!starts_with(t, "git@"@)) by {
        assert(t.subrange(0, 4)[0] == 'h');
    }

    // The scheme.
    let sep = "://"@;
    assert(at(t, sep, 5)) by {
        assert(t.subrange(5, 8) =~= sep);
    }
    assert forall|j: int| 0 <= j < 5 implies !at(t, sep, j) by {
        assert(t.subrange(j, j + 3)[0] == t[j]);
    }
    assert(find_from(t, sep, 5) == 5);
    assert(find_from(t, sep, 4) == 5);
    assert(find_from(t, sep, 3) == 5);
    assert(find_from(t, sep, 2) == 5);
    assert(find_from(t, sep, 1) == 5);
    assert(find_from(t, sep, 0) == 5);
    assert(lower_seq(t.subrange(0, 5)) =~= "https"@);

    // The segments.
    let rest = t.subrange(8, t.len() as int);
    let host = "github.com"@;
    let tail = owner + seq!['/'] + rg;
    assert(rest =~= host + seq!['/'] + tail);
    assert forall|i: int| 0 <= i < host.len() implies #[trigger] host[i] != '/' by {}
    assert forall|i: int| 0 <= i < owner.len() implies #[trigger] owner[i] != '/' by {
        assert(is_segment_char(owner[i]));
    }
    assert forall|i: int| 0 <= i < rg.len() implies #[trigger] rg[i] != '/' by {
        if i < repo.len() {
            assert(rg[i] == repo[i]);
            assert(is_segment_char(repo[i]));
        }
    }
    lemma_segs_slash(host, tail, seq![]);
    lemma_segs_slash(owner, rg, seq![]);
    lemma_segs_plain(rg, seq![]);
    assert(Seq::<char>::empty() + host =~= host);
    assert(Seq::<char>::empty() + owner =~= owner);
    assert(Seq::<char>::empty() + rg =~= rg);
    let sg = segments(rest);
    assert(sg =~= seq![host, owner, rg]);

    // No segment holds `..` or a backslash.
    lemma_dots(host);
    lemma_dots(owner);
    lemma_dots(rg);
    lemma_dots(repo);
    assert(!contains(rg, ".."@)) by {
        if exists|i: int| 0 <= i < rg.len() - 1 && #[trigger] rg[i] == '.' && rg[i + 1] == '.' {
            let i = choose|i: int| 0 <= i < rg.len() - 1 && #[trigger] rg[i] == '.' && rg[i + 1] == '.';
            if i + 1 < repo.len() {
                assert(rg[i] == repo[i] && rg[i + 1] == repo[i + 1]);
            } else if i + 1 == repo.len() {
                assert(rg[i] == repo[i]);
                assert(repo[i] == repo.last());
            }
        }
    }
    assert(!contains(host, ".."@)) by {
        if exists|i: int| 0 <= i < host.len() - 1 && #[trigger] host[i] == '.' && host[i + 1] == '.' {
            let i = choose|i: int| 0 <= i < host.len() - 1 && #[trigger] host[i] == '.' && host[i + 1] == '.';
        }
    }
    assert("\\"@ =~= seq!['\\']);
    lemma_no_char(host, '\\');
    assert forall|i: int| 0 <= i < owner.len() implies #[trigger] owner[i] != '\\' by {
        assert(is_segment_char(owner[i]));
    }
    lemma_no_char(owner, '\\');
    assert forall|i: int| 0 <= i < rg.len() implies #[trigger] rg[i] != '\\' by {
        if i < repo.len() {
            assert(rg[i] == repo[i]);
            assert(is_segment_char(repo[i]));
        }
    }
    lemma_no_char(rg, '\\');
    assert(!has_bad_segment(sg));

    // The host, the owner and the repository.
    assert(contains(host, "."@)) by {
        assert(host.subrange(6, 7) =~= "."@);
        lemma_at_found(host, "."@, 0, 6);
    }
    assert(lower_seq(host) =~= host);
    assert(is_github_host(host));
    assert(rg.subrange(rg.len() - 4, rg.len() as int) =~= ".git"@);
    assert(lower_seq(rg.subrange(rg.len() - 4, rg.len() as int)) =~= ".git"@);
    assert(rg.subrange(0, rg.len() - 4) =~= repo);
    assert(strip_git(rg) == repo);
}


proof fn lemma_lead_ws(s: Seq<char>, i: int)
    requires
        0 <= i <= s.len(),
    ensures
        i <= lead_ws(s, i) <= s.len(),
        lead_ws(s, i) < s.len() ==> !is_ws(s[lead_ws(s, i)]),
    decreases s.len() - i,
{
    if i < s.len() && is_ws(s[i]) {
        lemma_lead_ws(s, i + 1);
    }
}

proof fn lemma_trail_ws(s: Seq<char>, lo: int, j: int)
    requires
        0 <= lo <= j <= s.len(),
    ensures
        lo <= trail_ws(s, lo, j) <= j,
        trail_ws(s, lo, j) > lo ==> !is_ws(s[trail_ws(s, lo, j) - 1]),
    decreases j - lo,
{
    if lo < j && is_ws(s[j - 1]) {
        lemma_trail_ws(s, lo, j - 1);
    }
}

/// Trimming twice trims no more than trimming once, so a reference parses the same
/// with or without its surrounding whitespace.
pub proof fn law_trim_idempotent(s: Seq<char>)
    ensures
        trim(trim(s)) == trim(s),
        parse_outcome(trim(s)) == parse_outcome(s),
{
    let lo = lead_ws(s, 0);
    lemma_lead_ws(s, 0);
    let hi = trail_ws(s, lo, s.len() as int);
    lemma_trail_ws(s, lo, s.len() as int);
    let t = trim(s);
    assert(t == s.subrange(lo, hi));
    if t.len() > 0 {
        assert(t[0] == s[lo]);
        assert(t[t.len() - 1] == s[hi - 1]);
        assert(lead_ws(t, 0) == 0);
        assert(trail_ws(t, 0, t.len() as int) == t.len());
    }
    assert(trim(t) =~= t);
}

/// Parsing the short form `owner/repo` of a valid, safe repository reference gives
/// the reference back, where the owner holds no `.` (it would be read as a host)
/// and the name does not end in `.git` (which would be stripped).
pub proof fn law_short_form_round_trip(owner: Seq<char>, repo: Seq<char>)
    requires
        is_valid_segment_spec(owner),
        is_valid_segment_spec(repo),
        !is_unsafe_pair(owner, repo),
        !contains(owner, "."@),
        !(repo.len() > 4 && lower_seq(repo.subrange(repo.len() - 4, repo.len() as int)) == ".git"@),
    ensures
        parse_outcome(owner + "/"@ + repo) == ParseOutcome::Accepted(owner, repo),
{
    reveal_strlit("/");
    reveal_strlit("://");
    reveal_strlit("git@");
    reveal_strlit("..");
    reveal_strlit("\\");
    let t = owner + "/"@ + repo;
    assert(t =~= owner + seq!['/'] + repo);
    assert forall|i: int| 0 <= i < t.len() implies url_char(#[trigger] t[i]) && t[i] != ':' && t[i] != '@' by {
        if i < owner.len() {
            assert(t[i] == owner[i]);
            assert(is_segment_char(owner[i]));
        } else if i > owner.len() {
            assert(t[i] == repo[i - owner.len() - 1]);
            assert(is_segment_char(repo[i - owner.len() - 1]));
        }
    }
    assert forall|i: int| 0 <= i < t.len() implies !is_ws(#[trigger] t[i]) && !is_ctrl(t[i]) && (t[i] as u32) < 0x80 by {
        lemma_url_char_facts(t[i]);
    }

    // Trimming keeps it whole; it is short and holds no control character.
    assert(lead_ws(t, 0) == 0);
    assert(trail_ws(t, 0, t.len() as int) == t.len());
    assert(trim(t) =~= t);
    lemma_utf8_ascii(t);
    assert(!starts_with(t, "git@"@)) by {
        if starts_with(t, "git@"@) {
            assert(t.subrange(0, 4)[3] == t[3]);
        }
    }

    // No scheme.
    assert forall|j: int| 0 <= j implies !at(t, "://"@, j) by {
        if at(t, "://"@, j) {
            assert(t.subrange(j, j + 3)[0] == t[j]);
        }
    }
    lemma_find_from_none(t, "://"@, 0);

    // The segments.
    assert forall|i: int| 0 <= i < owner.len() implies #[trigger] owner[i] != '/' by {
        assert(is_segment_char(owner[i]));
    }
    assert forall|i: int| 0 <= i < repo.len() implies #[trigger] repo[i] != '/' by {
        assert(is_segment_char(repo[i]));
    }
    lemma_segs_slash(owner, repo, seq![]);
    lemma_segs_plain(repo, seq![]);
    assert(Seq::<char>::empty() + owner =~= owner);
    assert(Seq::<char>::empty() + repo =~= repo);
    let sg = segments(t);
    assert(sg =~= seq![owner, repo]);

    // No segment holds `..` or a backslash.
    assert("\\"@ =~= seq!['\\']);
    assert forall|i: int| 0 <= i < owner.len() implies #[trigger] owner[i] != '\\' by {
        assert(is_segment_char(owner[i]));
    }
    lemma_no_char(owner, '\\');
    assert forall|i: int| 0 <= i < repo.len() implies #[trigger] repo[i] != '\\' by {
        assert(is_segment_char(repo[i]));
    }
    lemma_no_char(repo, '\\');
    assert(!has_bad_segment(sg)) by {
        if has_bad_segment(sg) {
            let i = choose|i: int| 0 <= i < sg.len() && (contains(#[trigger] sg[i], ".."@) || contains(sg[i], "\\"@));
            assert(i == 0 || i == 1);
        }
    }
    assert(strip_git(repo) == repo);
}

} // verus!
