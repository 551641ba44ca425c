//! The commit history in numbers: contributors and the bus factor, the age of the
//! repository, and the habits of a bounded window of recent commits.
//!
//! The walk over the clone's commits is done by the program; these functions take
//! what the walk read, one record per commit, newest first.

use vstd::prelude::*;
use vstd::string::*;
use crate::chars::{contains, contains_vec, matches_at};
use crate::share::{Share, share_bp};
use crate::text::{chars_of, seq_lt, str_lt, lemma_seq_lt_irreflexive, lemma_seq_lt_total, lemma_seq_lt_asymmetric};
use crate::sorting::{sort_desc, sorted_desc, first_below, law_sort_desc};

verus! {

/// How many commits a bounded pass scanned, and whether the history was longer.
#[derive(Debug, Clone, Copy, PartialEq, Eq, Structural)]
pub struct CommitWindow {
    pub scanned: usize,
    pub capped: bool,
}

/// One commit as the walk read it: the author's name and email as recorded, the
/// author's name and email after the repository's mailmap (the recorded ones when
/// the mailmap cannot resolve them), the number of parents and the author time.
#[derive(Debug, Clone)]
pub struct CommitRecord {
    pub author_name: String,
    pub author_email: String,
    pub identity_name: String,
    pub identity_email: String,
    pub parent_count: usize,
    pub time_secs: i64,
}

/// `str::to_lowercase` of a character sequence, by Unicode case mapping.
pub uninterp spec fn lowercase(s: Seq<char>) -> Seq<char>;

/// Every character of `s` is ASCII.
pub open spec fn is_ascii_text(s: Seq<char>) -> bool {
    forall|i: int| 0 <= i < s.len() ==> (#[trigger] s[i] as u32) < 0x80
}

/// What is known of the lowercasing of `s`: it leaves no ASCII uppercase letter, and
/// where `s` is ASCII it is the ASCII one.
pub open spec fn lowercase_facts(s: Seq<char>) -> bool {
    &&& forall|j: int| 0 <= j < lowercase(s).len() ==> !crate::chars::is_ascii_upper(#[trigger] lowercase(s)[j])
    &&& is_ascii_text(s) ==> lowercase(s) == s.map_values(|c: char| crate::chars::lower(c))
}

/// Two ASCII identity e-mails that differ only in the case of their letters are one
/// identity.
pub proof fn law_ascii_case_merges(e1: Seq<char>, e2: Seq<char>)
    requires
        lowercase_facts(e1),
        lowercase_facts(e2),
        is_ascii_text(e1),
        is_ascii_text(e2),
        e1.map_values(|c: char| crate::chars::lower(c)) == e2.map_values(|c: char| crate::chars::lower(c)),
    ensures
        lowercase(e1) == lowercase(e2),
{
}

/// Lowercases `s` with `str::to_lowercase`; the result is named [`lowercase`]. On
/// ASCII text the Unicode mapping is the ASCII one: letters `A` to `Z` become `a` to
/// `z` and every other ASCII character maps to itself, one for one. On any text no
/// ASCII uppercase letter is left: each of them has a lowercase mapping, and no
/// lowercase mapping yields one.
#[verifier::external_body]
fn to_lowercase(s: &str) -> (r: String)
    ensures
        r@ == lowercase(s@),
        is_ascii_text(s@) ==> r@ == s@.map_values(|c: char| crate::chars::lower(c)),
        forall|i: int| 0 <= i < r@.len() ==> !crate::chars::is_ascii_upper(#[trigger] r@[i]),
{
    s.to_lowercase()
}

pub open spec fn ends_with(s: Seq<char>, pat: Seq<char>) -> bool {
    pat.len() <= s.len() && s.subrange(s.len() - pat.len(), s.len() as int) == pat
}

/// A commit written by a person: not a merge, and not by a bot (a name ending in
/// `[bot]`, or one of the known bots in the name or email).
pub open spec fn is_authored_spec(name: Seq<char>, email: Seq<char>, parent_count: nat) -> bool {
    &&& parent_count <= 1
    &&& !ends_with(name, "[bot]"@)
    &&& !contains(email, "dependabot[bot]"@) && !contains(name, "dependabot[bot]"@)
    &&& !contains(email, "renovate[bot]"@) && !contains(name, "renovate[bot]"@)
    &&& !contains(email, "github-actions[bot]"@) && !contains(name, "github-actions[bot]"@)
}

fn mentions(name: &Vec<char>, email: &Vec<char>, bot: &str) -> (r: bool)
    ensures
        r == (contains(email@, bot@) || contains(name@, bot@)),
{
    let b = chars_of(bot);
    contains_vec(email, &b) || contains_vec(name, &b)
}

/// Whether a commit was written by a person (see [`is_authored_spec`]).
pub fn is_authored_commit(name: &str, email: &str, parent_count: usize) -> (r: bool)
    ensures
        r == is_authored_spec(name@, email@, parent_count as nat),
{
    if parent_count > 1 {
        return false;
    }
    let n = chars_of(name);
    let e = chars_of(email);
    let suffix = chars_of("[bot]");
    proof {
        reveal_strlit("[bot]");
    }
    if suffix.len() <= n.len() && matches_at(&n, &suffix, n.len() - suffix.len()) {
        return false;
    }
    !mentions(&n, &e, "dependabot[bot]") && !mentions(&n, &e, "renovate[bot]") && !mentions(&n, &e, "github-actions[bot]")
}

/// A commit as values: (name, email, identity name, identity email, parents, time).
pub type CommitV = (Seq<char>, Seq<char>, Seq<char>, Seq<char>, nat, i64);

pub open spec fn commit_view(c: CommitRecord) -> CommitV {
    (c.author_name@, c.author_email@, c.identity_name@, c.identity_email@, c.parent_count as nat, c.time_secs)
}

pub open spec fn commits_view(v: Seq<CommitRecord>) -> Seq<CommitV> {
    v.map_values(|c: CommitRecord| commit_view(c))
}

/// A counted commit: the author's identity (the lowercased mailmap email), the
/// mailmap name, and the time.
pub type Counted = (Seq<char>, Seq<char>, i64);

pub open spec fn counted_of(c: CommitV) -> Counted {
    (lowercase(c.3), c.2, c.5)
}

/// The commits written by people, in walk order.
pub open spec fn authored(cs: Seq<CommitV>) -> Seq<Counted>
    decreases cs.len(),
{
    if cs.len() == 0 {
        seq![]
    } else {
        authored(cs.drop_last()) + (if is_authored_spec(cs.last().0, cs.last().1, cs.last().4) {
            seq![counted_of(cs.last())]
        } else {
            seq![]
        })
    }
}

/// The commits that are not merges, in walk order.
pub open spec fn non_merges(cs: Seq<CommitV>) -> Seq<Counted>
    decreases cs.len(),
{
    if cs.len() == 0 {
        seq![]
    } else {
        non_merges(cs.drop_last()) + (if cs.last().4 <= 1 { seq![counted_of(cs.last())] } else { seq![] })
    }
}

/// The commits that count: those written by people, or every non-merge when no
/// commit is written by a person.
pub open spec fn counted(cs: Seq<CommitV>) -> Seq<Counted> {
    if authored(cs).len() == 0 && non_merges(cs).len() > 0 { non_merges(cs) } else { authored(cs) }
}

pub open spec fn ids_of(c: Seq<Counted>) -> Seq<Seq<char>> {
    c.map_values(|x: Counted| x.0)
}

/// The distinct identities, in order of first appearance.
pub open spec fn distinct(ids: Seq<Seq<char>>) -> Seq<Seq<char>>
    decreases ids.len(),
{
    if ids.len() == 0 {
        seq![]
    } else {
        let p = distinct(ids.drop_last());
        if p.contains(ids.last()) { p } else { p.push(ids.last()) }
    }
}

/// How many times `k` occurs.
pub open spec fn occurrences(ids: Seq<Seq<char>>, k: Seq<char>) -> nat
    decreases ids.len(),
{
    if ids.len() == 0 {
        0
    } else {
        occurrences(ids.drop_last(), k) + (if ids.last() == k { 1nat } else { 0nat })
    }
}

/// The commit count of each distinct identity, in order of first appearance.
pub open spec fn counts_of(ids: Seq<Seq<char>>) -> Seq<int> {
    distinct(ids).map_values(|k: Seq<char>| occurrences(ids, k) as int)
}

/// A count's own value, as the sorting key.
pub open spec fn count_key() -> spec_fn(int) -> int {
    |x: int| x
}

pub open spec fn sum(s: Seq<int>) -> int
    decreases s.len(),
{
    if s.len() == 0 { 0 } else { sum(s.drop_last()) + s.last() }
}

pub open spec fn prefix_sum(s: Seq<int>, k: int) -> int {
    sum(s.subrange(0, k))
}

/// The smallest `k` above `from` whose first `k` counts reach `t`, or all of them.
pub open spec fn bus_from(s: Seq<int>, t: int, from: int) -> int
    decreases s.len() - from,
{
    if from >= s.len() {
        s.len() as int
    } else if prefix_sum(s, from + 1) >= t {
        from + 1
    } else {
        bus_from(s, t, from + 1)
    }
}

/// Half the commits, rounded up.
pub open spec fn half_up(total: nat) -> int {
    ((total + 1) / 2) as int
}

/// The bus factor: how many of the most active identities, taken by descending
/// commit count, hold at least half the counted commits.
pub open spec fn bus_factor_spec(ids: Seq<Seq<char>>) -> int {
    bus_from(sort_desc(counts_of(ids), count_key()), half_up(ids.len()), 0)
}

/// The index of the top identity: the most commits, and the first by name among
/// equals.
pub open spec fn top_index(keys: Seq<Seq<char>>, counts: Seq<int>, n: int) -> int
    decreases n,
{
    if n <= 1 {
        0
    } else {
        let b = top_index(keys, counts, n - 1);
        if counts[n - 1] > counts[b] || (counts[n - 1] == counts[b] && seq_lt(keys[n - 1], keys[b])) { n - 1 } else { b }
    }
}

/// The name with which an identity first appears.
pub open spec fn first_name(c: Seq<Counted>, k: Seq<char>) -> Seq<char>
    decreases c.len(),
{
    if c.len() == 0 {
        seq![]
    } else if ids_of(c.drop_last()).contains(k) {
        first_name(c.drop_last(), k)
    } else if c.last().0 == k {
        c.last().1
    } else {
        seq![]
    }
}

/// The index of the earliest commit, the first among equal times.
pub open spec fn oldest_index(c: Seq<Counted>) -> int
    decreases c.len(),
{
    if c.len() <= 1 {
        0
    } else {
        let b = oldest_index(c.drop_last());
        if c.last().2 < c[b].2 { c.len() - 1 } else { b }
    }
}

/// The contributors' figures.
#[derive(Debug, Clone)]
pub struct ContributorStats {
    pub contributor_count: usize,
    pub bus_factor: usize,
    pub top_author_share_pct: Share,
    pub top_contributor_name: Option<String>,
    pub oldest_contributor: Option<String>,
}

/// The figures the counted commits give: the number of identities, the bus factor,
/// the top identity's share of the counted commits and its name, and
/// the name on the earliest commit; all zero or absent when nothing counts.
pub open spec fn contributors_match(r: ContributorStats, cs: Seq<CommitV>) -> bool {
    let c = counted(cs);
    let ids = ids_of(c);
    let keys = distinct(ids);
    let counts = counts_of(ids);
    if c.len() == 0 {
        &&& r.contributor_count == 0
        &&& r.bus_factor == 0
        &&& r.top_author_share_pct == Share { part: 0, whole: 0 }
        &&& r.top_contributor_name is None
        &&& r.oldest_contributor is None
    } else {
        let t = top_index(keys, counts, keys.len() as int);
        &&& r.contributor_count == keys.len()
        &&& r.bus_factor == bus_factor_spec(ids)
        &&& r.top_author_share_pct.part == counts[t]
        &&& r.top_author_share_pct.whole == c.len()
        &&& r.top_contributor_name.deep_view() == Some(first_name(c, keys[t]))
        &&& r.oldest_contributor.deep_view() == Some(c[oldest_index(c)].1)
    }
}

proof fn lemma_distinct(ids: Seq<Seq<char>>)
    ensures
        distinct(ids).no_duplicates(),
        forall|k: Seq<char>| distinct(ids).contains(k) <==> ids.contains(k),
    decreases ids.len(),
{
    if ids.len() > 0 {
        let prev = ids.drop_last();
        lemma_distinct(prev);
        assert forall|k: Seq<char>| distinct(ids).contains(k) <==> ids.contains(k) by {
            if ids.contains(k) {
                let i = choose|i: int| 0 <= i < ids.len() && ids[i] == k;
                if i < ids.len() - 1 {
                    assert(prev[i] == k);
                    assert(prev.contains(k));
                    assert(distinct(prev).contains(k));
                    let m = choose|m: int| 0 <= m < distinct(prev).len() && distinct(prev)[m] == k;
                    assert(distinct(ids)[m] == k);
                } else {
                    if !distinct(prev).contains(ids.last()) {
                        assert(distinct(ids)[distinct(ids).len() - 1] == k);
                    }
                }
            }
            if distinct(ids).contains(k) {
                if distinct(prev).contains(k) {
                    assert(prev.contains(k));
                    let i = choose|i: int| 0 <= i < prev.len() && prev[i] == k;
                    assert(ids[i] == k);
                } else {
                    assert(k == ids.last());
                    assert(ids[ids.len() - 1] == k);
                }
            }
        }
    }
}

proof fn lemma_occurrences_positive(ids: Seq<Seq<char>>, k: Seq<char>)
    requires
        ids.contains(k),
    ensures
        occurrences(ids, k) >= 1,
    decreases ids.len(),
{
    if ids.last() != k {
        let i = choose|i: int| 0 <= i < ids.len() && ids[i] == k;
        assert(ids.drop_last()[i] == k);
        lemma_occurrences_positive(ids.drop_last(), k);
    }
}

/// Counting one more identity: one more for a known one, a new count of 1 for a new
/// one.
proof fn lemma_counts_push(ids: Seq<Seq<char>>, x: Seq<char>)
    ensures
        distinct(ids).contains(x) ==> exists|j: int| 0 <= j < distinct(ids).len() && distinct(ids)[j] == x
            && counts_of(ids.push(x)) == counts_of(ids).update(j, counts_of(ids)[j] + 1),
        !distinct(ids).contains(x) ==> counts_of(ids.push(x)) == counts_of(ids).push(1),
        distinct(ids.push(x)) == (if distinct(ids).contains(x) { distinct(ids) } else { distinct(ids).push(x) }),
{
    let n = ids.push(x);
    assert(n.drop_last() =~= ids);
    lemma_distinct(ids);
    if distinct(ids).contains(x) {
        let j = choose|j: int| 0 <= j < distinct(ids).len() && distinct(ids)[j] == x;
        assert(counts_of(n) =~= counts_of(ids).update(j, counts_of(ids)[j] + 1)) by {
            assert forall|i: int| 0 <= i < distinct(ids).len() implies #[trigger] counts_of(n)[i] == counts_of(ids).update(j, counts_of(ids)[j] + 1)[i] by {
                if i != j {
                    assert(distinct(ids)[i] != x);
                }
            }
        }
    } else {
        assert(counts_of(n) =~= counts_of(ids).push(1)) by {
            assert forall|i: int| 0 <= i < distinct(ids).len() implies #[trigger] counts_of(n)[i] == counts_of(ids)[i] by {
                assert(distinct(ids)[i] != x);
            }
            assert(occurrences(ids, x) == 0) by {
                lemma_occurrences_zero(ids, x);
            }
        }
    }
}

proof fn lemma_occurrences_zero(ids: Seq<Seq<char>>, k: Seq<char>)
    requires
        !ids.contains(k),
    ensures
        occurrences(ids, k) == 0,
    decreases ids.len(),
{
    if ids.len() > 0 {
        assert(ids.last() == ids[ids.len() - 1]);
        assert forall|i: int| 0 <= i < ids.drop_last().len() implies ids.drop_last()[i] != k by {
            assert(ids.drop_last()[i] == ids[i]);
        }
        lemma_occurrences_zero(ids.drop_last(), k);
    }
}

proof fn lemma_sum_update(s: Seq<int>, j: int, v: int)
    requires
        0 <= j < s.len(),
    ensures
        sum(s.update(j, v)) == sum(s) - s[j] + v,
    decreases s.len(),
{
    if j < s.len() - 1 {
        assert(s.update(j, v).drop_last() =~= s.drop_last().update(j, v));
        lemma_sum_update(s.drop_last(), j, v);
    } else {
        assert(s.update(j, v).drop_last() =~= s.drop_last());
    }
}

proof fn lemma_sum_push(s: Seq<int>, v: int)
    ensures
        sum(s.push(v)) == sum(s) + v,
{
    assert(s.push(v).drop_last() =~= s);
}

/// The counts add up to the number of counted commits.
proof fn lemma_sum_counts(ids: Seq<Seq<char>>)
    ensures
        sum(counts_of(ids)) == ids.len(),
    decreases ids.len(),
{
    if ids.len() > 0 {
        let prev = ids.drop_last();
        let x = ids.last();
        lemma_sum_counts(prev);
        assert(prev.push(x) =~= ids);
        lemma_counts_push(prev, x);
        if distinct(prev).contains(x) {
            let j = choose|j: int| 0 <= j < distinct(prev).len() && distinct(prev)[j] == x
                && counts_of(prev.push(x)) == counts_of(prev).update(j, counts_of(prev)[j] + 1);
            lemma_sum_update(counts_of(prev), j, counts_of(prev)[j] + 1);
        } else {
            lemma_sum_push(counts_of(prev), 1);
        }
    }
}

proof fn lemma_sum_insert(s: Seq<int>, p: int, x: int)
    requires
        0 <= p <= s.len(),
    ensures
        sum(s.insert(p, x)) == sum(s) + x,
    decreases s.len(),
{
    if p == s.len() {
        assert(s.insert(p, x) =~= s.push(x));
        lemma_sum_push(s, x);
    } else {
        assert(s.insert(p, x).drop_last() =~= s.drop_last().insert(p, x));
        lemma_sum_insert(s.drop_last(), p, x);
    }
}

/// Sorting keeps the sum, and keeps every item at least 0 when all were.
proof fn lemma_sum_sort(s: Seq<int>)
    ensures
        sum(sort_desc(s, count_key())) == sum(s),
        (forall|i: int| 0 <= i < s.len() ==> s[i] >= 0) ==> (forall|i: int| 0 <= i < sort_desc(s, count_key()).len() ==> #[trigger] sort_desc(s, count_key())[i] >= 0),
    decreases s.len(),
{
    if s.len() > 0 {
        let prev = s.drop_last();
        lemma_sum_sort(prev);
        let sp = sort_desc(prev, count_key());
        law_sort_desc(prev, count_key());
        let p = first_below(sp, count_key(), s.last(), 0);
        crate::sorting::lemma_first_below_bounds(sp, count_key(), s.last());
        lemma_sum_insert(sp, p, s.last());
        assert(sum(s) == sum(prev) + s.last());
        if forall|i: int| 0 <= i < s.len() ==> s[i] >= 0 {
            assert forall|i: int| 0 <= i < prev.len() implies prev[i] >= 0 by {
                assert(prev[i] == s[i]);
            }
            assert(s.last() == s[s.len() - 1]);
        }
    }
}

proof fn lemma_prefix_le_sum(s: Seq<int>, k: int)
    requires
        0 <= k <= s.len(),
        forall|i: int| 0 <= i < s.len() ==> #[trigger] s[i] >= 0,
    ensures
        0 <= prefix_sum(s, k) <= sum(s),
        prefix_sum(s, s.len() as int) == sum(s),
    decreases s.len(),
{
    assert(s.subrange(0, s.len() as int) =~= s);
    if k < s.len() {
        let prev = s.drop_last();
        assert forall|i: int| 0 <= i < prev.len() implies #[trigger] prev[i] >= 0 by {
            assert(prev[i] == s[i]);
        }
        lemma_prefix_le_sum(prev, k);
        assert(prev.subrange(0, k) =~= s.subrange(0, k));
        assert(s[s.len() - 1] >= 0);
    } else {
        lemma_prefix_nonneg(s, k);
    }
}

proof fn lemma_prefix_nonneg(s: Seq<int>, k: int)
    requires
        0 <= k <= s.len(),
        forall|i: int| 0 <= i < s.len() ==> #[trigger] s[i] >= 0,
    ensures
        prefix_sum(s, k) >= 0,
    decreases k,
{
    if k > 0 {
        assert(s.subrange(0, k).drop_last() =~= s.subrange(0, k - 1));
        lemma_prefix_nonneg(s, k - 1);
    }
}

proof fn lemma_bus_from(s: Seq<int>, t: int, from: int)
    requires
        0 <= from <= s.len(),
        t >= 1,
        prefix_sum(s, s.len() as int) >= t,
        prefix_sum(s, from) < t,
    ensures
        from < bus_from(s, t, from) <= s.len(),
        prefix_sum(s, bus_from(s, t, from)) >= t,
        prefix_sum(s, bus_from(s, t, from) - 1) < t,
    decreases s.len() - from,
{
    if from < s.len() && prefix_sum(s, from + 1) < t {
        lemma_bus_from(s, t, from + 1);
    }
}

proof fn lemma_top_index(keys: Seq<Seq<char>>, counts: Seq<int>, n: int)
    requires
        1 <= n <= keys.len(),
        n <= counts.len(),
    ensures
        0 <= top_index(keys, counts, n) < n,
        forall|j: int| 0 <= j < n ==> #[trigger] counts[j] <= counts[top_index(keys, counts, n)],
    decreases n,
{
    if n > 1 {
        lemma_top_index(keys, counts, n - 1);
    }
}

proof fn lemma_occurrences_le(ids: Seq<Seq<char>>, k: Seq<char>)
    ensures
        occurrences(ids, k) <= ids.len(),
    decreases ids.len(),
{
    if ids.len() > 0 {
        lemma_occurrences_le(ids.drop_last(), k);
    }
}

/// A counted commit, as the program holds it.
struct Tagged {
    id: String,
    name: String,
    time: i64,
}

spec fn tagged_view(t: Tagged) -> Counted {
    (t.id@, t.name@, t.time)
}

spec fn tagged_seq(v: Seq<Tagged>) -> Seq<Counted> {
    v.map_values(|t: Tagged| tagged_view(t))
}

fn tag(c: &CommitRecord) -> (t: Tagged)
    ensures
        tagged_view(t) == counted_of(commit_view(*c)),
        lowercase_facts(c.identity_email@),
{
    Tagged { id: to_lowercase(c.identity_email.as_str()), name: c.identity_name.clone(), time: c.time_secs }
}

fn split_commits(commits: &Vec<CommitRecord>) -> (r: (Vec<Tagged>, Vec<Tagged>))
    ensures
        tagged_seq(r.0@) == authored(commits_view(commits@)),
        tagged_seq(r.1@) == non_merges(commits_view(commits@)),
        forall|i: int| 0 <= i < commits@.len() && (#[trigger] commits@[i]).parent_count <= 1
            ==> lowercase_facts(commits@[i].identity_email@),
{
    let ghost cs = commits_view(commits@);
    let mut auth: Vec<Tagged> = Vec::new();
    let mut plain: Vec<Tagged> = Vec::new();
    let mut i: usize = 0;
    while i < commits.len()
        invariant
            i <= commits@.len(),
            cs == commits_view(commits@),
            tagged_seq(auth@) == authored(cs.subrange(0, i as int)),
            tagged_seq(plain@) == non_merges(cs.subrange(0, i as int)),
            forall|k: int| 0 <= k < i && (#[trigger] commits@[k]).parent_count <= 1
                ==> lowercase_facts(commits@[k].identity_email@),
        decreases commits.len() - i,
    {
        let c = &commits[i];
        proof {
            assert(cs.subrange(0, i + 1).drop_last() =~= cs.subrange(0, i as int));
            assert(cs.subrange(0, i + 1).last() == commit_view(*c));
        }
        let ghost a0 = auth@;
        let ghost p0 = plain@;
        if is_authored_commit(c.author_name.as_str(), c.author_email.as_str(), c.parent_count) {
            auth.push(tag(c));
            proof {
                assert(tagged_seq(auth@) =~= tagged_seq(a0) + seq![counted_of(commit_view(*c))]);
            }
        } else {
            proof {
                assert(tagged_seq(auth@) =~= tagged_seq(a0) + Seq::<Counted>::empty());
            }
        }
        if c.parent_count <= 1 {
            plain.push(tag(c));
            proof {
                assert(tagged_seq(plain@) =~= tagged_seq(p0) + seq![counted_of(commit_view(*c))]);
            }
        } else {
            proof {
                assert(tagged_seq(plain@) =~= tagged_seq(p0) + Seq::<Counted>::empty());
            }
        }
        i = i + 1;
    }
    proof {
        assert(cs.subrange(0, commits@.len() as int) =~= cs);
    }
    (auth, plain)
}

/// An identity (or path), its count, the name it first appeared with, and the
/// latest time it appeared at.
struct Entry {
    key: String,
    count: u64,
    name: String,
    latest: i64,
}

/// The latest time at which `k` appears.
pub open spec fn latest_of(c: Seq<Counted>, k: Seq<char>) -> i64
    decreases c.len(),
{
    if c.len() == 0 {
        0
    } else {
        let p = latest_of(c.drop_last(), k);
        if c.last().0 == k {
            if ids_of(c.drop_last()).contains(k) && p >= c.last().2 { p } else { c.last().2 }
        } else {
            p
        }
    }
}

spec fn entry_keys(v: Seq<Entry>) -> Seq<Seq<char>> {
    v.map_values(|e: Entry| e.key@)
}

spec fn entry_counts(v: Seq<Entry>) -> Seq<int> {
    v.map_values(|e: Entry| e.count as int)
}

fn find_key(entries: &Vec<Entry>, id: &String) -> (r: Option<usize>)
    ensures
        r matches Some(j) ==> j < entries@.len() && entries@[j as int].key@ == id@,
        r is None ==> !entry_keys(entries@).contains(id@),
{
    let mut j: usize = 0;
    while j < entries.len()
        invariant
            j <= entries@.len(),
            forall|m: int| 0 <= m < j ==> entries@[m].key@ != id@,
        decreases entries.len() - j,
    {
        if entries[j].key == *id {
            return Some(j);
        }
        j = j + 1;
    }
    proof {
        if entry_keys(entries@).contains(id@) {
            let m = choose|m: int| 0 <= m < entry_keys(entries@).len() && entry_keys(entries@)[m] == id@;
            assert(entries@[m].key@ == id@);
        }
    }
    None
}

fn tally(c: &Vec<Tagged>) -> (entries: Vec<Entry>)
    ensures
        entry_keys(entries@) == distinct(ids_of(tagged_seq(c@))),
        entry_counts(entries@) == counts_of(ids_of(tagged_seq(c@))),
        forall|j: int| 0 <= j < entries@.len() ==> (#[trigger] entries@[j]).name@ == first_name(tagged_seq(c@), entries@[j].key@),
        forall|j: int| 0 <= j < entries@.len() ==> (#[trigger] entries@[j]).latest == latest_of(tagged_seq(c@), entries@[j].key@),
{
    let ghost cv = tagged_seq(c@);
    let mut entries: Vec<Entry> = Vec::new();
    let mut i: usize = 0;
    while i < c.len()
        invariant
            i <= c@.len(),
            cv == tagged_seq(c@),
            entry_keys(entries@) == distinct(ids_of(cv.subrange(0, i as int))),
            entry_counts(entries@) == counts_of(ids_of(cv.subrange(0, i as int))),
            forall|j: int| 0 <= j < entries@.len() ==> (#[trigger] entries@[j]).name@ == first_name(cv.subrange(0, i as int), entries@[j].key@),
            forall|j: int| 0 <= j < entries@.len() ==> (#[trigger] entries@[j]).count <= i,
            forall|j: int| 0 <= j < entries@.len() ==> (#[trigger] entries@[j]).latest == latest_of(cv.subrange(0, i as int), entries@[j].key@),
        decreases c.len() - i,
    {
        let ghost pre = cv.subrange(0, i as int);
        let ghost post = cv.subrange(0, i + 1);
        let ghost x = c@[i as int].id@;
        proof {
            assert(post.drop_last() =~= pre);
            assert(post.last() == tagged_view(c@[i as int]));
            assert(ids_of(post) =~= ids_of(pre).push(x));
            lemma_counts_push(ids_of(pre), x);
            lemma_distinct(ids_of(pre));
            assert(ids_of(post).drop_last() =~= ids_of(pre));
        }
        let ghost before = entries@;
        match find_key(&entries, &c[i].id) {
            Some(j) => {
                let latest = if entries[j].latest >= c[i].time { entries[j].latest } else { c[i].time };
                let e = Entry { key: entries[j].key.clone(), count: entries[j].count + 1, name: entries[j].name.clone(), latest };
                entries.set(j, e);
                proof {
                    assert(entry_keys(before)[j as int] == x);
                    let jj = choose|jj: int| 0 <= jj < distinct(ids_of(pre)).len() && distinct(ids_of(pre))[jj] == x
                        && counts_of(ids_of(pre).push(x)) == counts_of(ids_of(pre)).update(jj, counts_of(ids_of(pre))[jj] + 1);
                    assert(distinct(ids_of(pre)).no_duplicates());
                    assert(jj == j);
                    assert(entry_keys(entries@) =~= entry_keys(before));
                    assert(entry_counts(entries@) =~= entry_counts(before).update(j as int, entry_counts(before)[j as int] + 1));
                    assert forall|m: int| 0 <= m < entries@.len() implies (#[trigger] entries@[m]).name@ == first_name(post, entries@[m].key@)
                        && entries@[m].latest == latest_of(post, entries@[m].key@) by {
                        let k = entries@[m].key@;
                        assert(entry_keys(before)[m] == k);
                        assert(distinct(ids_of(pre)).contains(k));
                        assert(ids_of(pre).contains(k));
                    }
                }
            },
            None => {
                proof {
                    assert(!distinct(ids_of(pre)).contains(x));
                    assert(!ids_of(pre).contains(x));
                }
                entries.push(Entry { key: c[i].id.clone(), count: 1, name: c[i].name.clone(), latest: c[i].time });
                proof {
                    assert(entry_keys(entries@) =~= entry_keys(before).push(x));
                    assert(entry_counts(entries@) =~= entry_counts(before).push(1));
                    assert forall|m: int| 0 <= m < entries@.len() implies (#[trigger] entries@[m]).name@ == first_name(post, entries@[m].key@)
                        && entries@[m].latest == latest_of(post, entries@[m].key@) by {
                        let k = entries@[m].key@;
                        if m < before.len() {
                            assert(entry_keys(before)[m] == k);
                            assert(distinct(ids_of(pre)).contains(k));
                            assert(ids_of(pre).contains(k));
                        }
                    }
                }
            },
        }
        i = i + 1;
    }
    proof {
        assert(cv.subrange(0, c@.len() as int) =~= cv);
    }
    entries
}

spec fn ints(v: Seq<u64>) -> Seq<int> {
    v.map_values(|x: u64| x as int)
}

fn sort_counts(v: &Vec<u64>) -> (r: Vec<u64>)
    ensures
        ints(r@) == sort_desc(ints(v@), count_key()),
{
    let mut r: Vec<u64> = Vec::new();
    let mut i: usize = 0;
    while i < v.len()
        invariant
            i <= v@.len(),
            ints(r@) == sort_desc(ints(v@).subrange(0, i as int), count_key()),
        decreases v.len() - i,
    {
        let x = v[i];
        let mut p: usize = 0;
        while p < r.len() && r[p] >= x
            invariant
                p <= r@.len(),
                first_below(ints(r@), count_key(), x as int, 0) == first_below(ints(r@), count_key(), x as int, p as int),
            decreases r.len() - p,
        {
            proof {
                assert(ints(r@)[p as int] == r@[p as int] as int);
            }
            p = p + 1;
        }
        proof {
            if p < r@.len() {
                assert(ints(r@)[p as int] == r@[p as int] as int);
            }
            assert(ints(v@).subrange(0, i + 1).drop_last() =~= ints(v@).subrange(0, i as int));
            assert(ints(v@).subrange(0, i + 1).last() == x as int);
        }
        let ghost before = r@;
        r.insert(p, x);
        proof {
            assert(ints(r@) =~= ints(before).insert(p as int, x as int));
        }
        i = i + 1;
    }
    proof {
        assert(ints(v@).subrange(0, v@.len() as int) =~= ints(v@));
    }
    r
}

/// Counts the contributors of the walked commits (newest first): the distinct
/// identities among the commits written by people (or among all non-merge commits
/// when none is), the bus factor, the top identity's share and name, and the name on
/// the earliest commit.
pub fn collect_contributors(commits: &Vec<CommitRecord>) -> (r: ContributorStats)
    ensures
        contributors_match(r, commits_view(commits@)),
        forall|i: int| 0 <= i < commits@.len() && (#[trigger] commits@[i]).parent_count <= 1
            ==> lowercase_facts(commits@[i].identity_email@),
{
    let ghost cs = commits_view(commits@);
    let (auth, plain) = split_commits(commits);
    let c = if auth.len() == 0 && plain.len() > 0 { plain } else { auth };
    let ghost cv = tagged_seq(c@);
    proof {
        assert(cv == counted(cs));
    }
    if c.len() == 0 {
        return ContributorStats {
            contributor_count: 0,
            bus_factor: 0,
            top_author_share_pct: Share { part: 0, whole: 0 },
            top_contributor_name: None,
            oldest_contributor: None,
        };
    }
    let ghost ids = ids_of(cv);
    let entries = tally(&c);
    let ghost keys = distinct(ids);
    let ghost counts = counts_of(ids);
    proof {
        lemma_distinct(ids);
        assert(ids.len() == cv.len());
        assert(ids.contains(ids[0]));
        assert(keys.contains(ids[0]));
        assert(entry_keys(entries@).len() == entries@.len());
        assert forall|j: int| 0 <= j < counts.len() implies 1 <= #[trigger] counts[j] <= ids.len() by {
            assert(keys.contains(keys[j]));
            lemma_occurrences_positive(ids, keys[j]);
            lemma_occurrences_le(ids, keys[j]);
        }
    }

    // The top identity.
    let mut t: usize = 0;
    let mut n: usize = 1;
    while n < entries.len()
        invariant
            1 <= n <= entries@.len(),
            t < n,
            entry_keys(entries@) == keys,
            entry_counts(entries@) == counts,
            t as int == top_index(keys, counts, n as int),
        decreases entries.len() - n,
    {
        proof {
            assert(entry_counts(entries@)[n as int] == entries@[n as int].count as int);
            assert(entry_counts(entries@)[t as int] == entries@[t as int].count as int);
            assert(entry_keys(entries@)[n as int] == entries@[n as int].key@);
            assert(entry_keys(entries@)[t as int] == entries@[t as int].key@);
        }
        if entries[n].count > entries[t].count
            || (entries[n].count == entries[t].count && str_lt(entries[n].key.as_str(), entries[t].key.as_str())) {
            t = n;
        }
        n = n + 1;
    }
    proof {
        lemma_top_index(keys, counts, keys.len() as int);
        assert(entry_counts(entries@)[t as int] == entries@[t as int].count as int);
        assert(entry_keys(entries@)[t as int] == entries@[t as int].key@);
    }

    // The counts, most first, and the bus factor.
    let mut raw: Vec<u64> = Vec::new();
    let mut k: usize = 0;
    while k < entries.len()
        invariant
            k <= entries@.len(),
            ints(raw@) == entry_counts(entries@).subrange(0, k as int),
        decreases entries.len() - k,
    {
        let ghost before = raw@;
        raw.push(entries[k].count);
        proof {
            assert(entry_counts(entries@)[k as int] == entries@[k as int].count as int);
            assert(ints(raw@) =~= ints(before).push(entries@[k as int].count as int));
            assert(ints(raw@) =~= entry_counts(entries@).subrange(0, k + 1));
        }
        k = k + 1;
    }
    proof {
        assert(entry_counts(entries@).subrange(0, entries@.len() as int) =~= entry_counts(entries@));
    }
    let sorted = sort_counts(&raw);
    let ghost sv = sort_desc(counts, count_key());
    let total: u64 = c.len() as u64;
    let threshold: u64 = total / 2 + total % 2;
    proof {
        lemma_sum_counts(ids);
        lemma_sum_sort(counts);
        law_sort_desc(counts, count_key());
        lemma_prefix_le_sum(sv, 0);
        assert(sv.subrange(0, 0) =~= Seq::<int>::empty());
        assert(ints(sorted@) == sv);
    }
    let mut bus: usize = 0;
    let mut acc: u64 = 0;
    while bus < sorted.len() && acc < threshold
        invariant
            bus <= sorted@.len(),
            ints(sorted@) == sv,
            sv.len() == counts.len(),
            threshold as int == half_up(ids.len()),
            threshold >= 1,
            forall|i: int| 0 <= i < sv.len() ==> #[trigger] sv[i] >= 0,
            sum(sv) == ids.len(),
            total as int == ids.len(),
            acc as int == prefix_sum(sv, bus as int),
            bus_from(sv, threshold as int, 0) == (if acc >= threshold { bus as int } else { bus_from(sv, threshold as int, bus as int) }),
        decreases sorted.len() - bus,
    {
        proof {
            lemma_prefix_le_sum(sv, bus + 1);
            assert(sv.subrange(0, bus + 1).drop_last() =~= sv.subrange(0, bus as int));
            assert(sv[bus as int] == sorted@[bus as int] as int);
        }
        acc = acc + sorted[bus];
        bus = bus + 1;
    }
    proof {
        if acc < threshold {
            assert(bus == sorted@.len());
        }
    }

    // The earliest commit.
    let mut o: usize = 0;
    let mut m: usize = 1;
    while m < c.len()
        invariant
            1 <= m <= c@.len(),
            o < m,
            cv == tagged_seq(c@),
            o as int == oldest_index(cv.subrange(0, m as int)),
        decreases c.len() - m,
    {
        proof {
            assert(cv.subrange(0, m + 1).drop_last() =~= cv.subrange(0, m as int));
            assert(cv.subrange(0, m + 1)[o as int] == cv[o as int]);
            assert(cv.subrange(0, m + 1).last() == cv[m as int]);
        }
        if c[m].time < c[o].time {
            o = m;
        }
        m = m + 1;
    }
    proof {
        assert(cv.subrange(0, c@.len() as int) =~= cv);
    }

    proof {
        assert(counts[t as int] <= ids.len());
        assert(tagged_view(c@[o as int]) == cv[o as int]);
        assert(entries@[t as int].name@ == first_name(cv, entries@[t as int].key@));
        assert(entry_keys(entries@).len() == keys.len());
    }
    ContributorStats {
        contributor_count: entries.len(),
        bus_factor: bus,
        top_author_share_pct: Share { part: entries[t].count as u64, whole: total },
        top_contributor_name: Some(entries[t].name.clone()),
        oldest_contributor: Some(c[o].name.clone()),
    }
}

/// The sum of the items of `t` at the positions `js`.
pub open spec fn pick_sum(t: Seq<int>, js: Seq<int>) -> int
    decreases js.len(),
{
    if js.len() == 0 { 0 } else { pick_sum(t, js.drop_last()) + t[js.last()] }
}

/// Positions listed in increasing order, all within `0..n`.
pub open spec fn increasing_within(js: Seq<int>, n: int) -> bool {
    &&& forall|k: int| 0 <= k < js.len() ==> 0 <= #[trigger] js[k] < n
    &&& forall|a: int, b: int| 0 <= a < b < js.len() ==> #[trigger] js[a] < #[trigger] js[b]
}

proof fn lemma_increasing_at_least_index(js: Seq<int>, n: int, k: int)
    requires
        increasing_within(js, n),
        0 <= k < js.len(),
    ensures
        js[k] >= k,
    decreases k,
{
    if k > 0 {
        lemma_increasing_at_least_index(js, n, k - 1);
        assert(js[k - 1] < js[k]);
    }
}

proof fn lemma_prefix_monotone(t: Seq<int>, a: int, b: int)
    requires
        0 <= a <= b <= t.len(),
        forall|i: int| 0 <= i < t.len() ==> #[trigger] t[i] >= 0,
    ensures
        prefix_sum(t, a) <= prefix_sum(t, b),
    decreases b - a,
{
    if a < b {
        lemma_prefix_monotone(t, a, b - 1);
        assert(t.subrange(0, b).drop_last() =~= t.subrange(0, b - 1));
        assert(t[b - 1] >= 0);
    }
}

/// The items at any `m` positions of a sequence sorted by descending value sum to at
/// most its first `m` items.
proof fn lemma_pick_le_prefix(t: Seq<int>, js: Seq<int>)
    requires
        sorted_desc(t, count_key()),
        increasing_within(js, t.len() as int),
    ensures
        pick_sum(t, js) <= prefix_sum(t, js.len() as int),
    decreases js.len(),
{
    assert(t.subrange(0, 0) =~= Seq::<int>::empty());
    if js.len() > 0 {
        let m = js.len() as int;
        let prev = js.drop_last();
        assert(increasing_within(prev, t.len() as int)) by {
            assert forall|k: int| 0 <= k < prev.len() implies 0 <= #[trigger] prev[k] < t.len() by {
                assert(prev[k] == js[k]);
            }
            assert forall|a: int, b: int| 0 <= a < b < prev.len() implies #[trigger] prev[a] < #[trigger] prev[b] by {
                assert(prev[a] == js[a] && prev[b] == js[b]);
            }
        }
        lemma_pick_le_prefix(t, prev);
        lemma_increasing_at_least_index(js, t.len() as int, m - 1);
        let j = js[m - 1];
        assert(js.last() == j);
        assert(m - 1 <= j < t.len());
        if m - 1 < j {
            assert(t[m - 1] >= t[j]);
        }
        assert(t.subrange(0, m).drop_last() =~= t.subrange(0, m - 1));
    }
}

/// The bus factor is the fewest contributors holding half the commits: no fewer of
/// them, chosen among any positions of the counts sorted most first, reach half.
pub proof fn law_bus_factor_fewest(cs: Seq<CommitV>, js: Seq<int>)
    requires
        ids_of(counted(cs)).len() > 0,
        increasing_within(js, counts_of(ids_of(counted(cs))).len() as int),
        js.len() < bus_factor_spec(ids_of(counted(cs))),
    ensures
        pick_sum(sort_desc(counts_of(ids_of(counted(cs))), count_key()), js) < half_up(ids_of(counted(cs)).len()),
{
    let ids = ids_of(counted(cs));
    let counts = counts_of(ids);
    let sorted = sort_desc(counts, count_key());
    law_contributors(cs);
    law_sort_desc(counts, count_key());
    lemma_distinct(ids);
    assert forall|j: int| 0 <= j < counts.len() implies #[trigger] counts[j] >= 0 by {
        assert(distinct(ids).contains(distinct(ids)[j]));
    }
    lemma_sum_sort(counts);
    lemma_pick_le_prefix(sorted, js);
    lemma_prefix_monotone(sorted, js.len() as int, bus_factor_spec(ids) - 1);
}

/// Of the counted commits: the contributors are the distinct identities; the counts
/// add up to the commits; the bus factor is at least 1 and at most the number of
/// contributors, its most active identities hold at least half the commits, and one
/// fewer do not; the top identity has the most commits.
pub proof fn law_contributors(cs: Seq<CommitV>)
    ensures
        ({
            let ids = ids_of(counted(cs));
            let counts = counts_of(ids);
            let sorted = sort_desc(counts, count_key());
            let keys = distinct(ids);
            let bus = bus_factor_spec(ids);
            &&& keys.len() == ids.to_set().len()
            &&& sum(counts) == ids.len()
            &&& sorted_desc(sorted, count_key())
            &&& sorted.to_multiset() == counts.to_multiset()
            &&& ids.len() > 0 ==> {
                &&& 1 <= bus <= keys.len()
                &&& prefix_sum(sorted, bus) >= half_up(ids.len())
                &&& prefix_sum(sorted, bus - 1) < half_up(ids.len())
                &&& forall|j: int| 0 <= j < counts.len() ==> #[trigger] counts[j] <= counts[top_index(keys, counts, keys.len() as int)]
            }
        }),
{
    let ids = ids_of(counted(cs));
    let counts = counts_of(ids);
    let sorted = sort_desc(counts, count_key());
    let keys = distinct(ids);
    lemma_distinct(ids);
    keys.unique_seq_to_set();
    assert(keys.to_set() =~= ids.to_set());
    lemma_sum_counts(ids);
    law_sort_desc(counts, count_key());
    lemma_sum_sort(counts);
    if ids.len() > 0 {
        assert(ids.contains(ids[0]));
        assert(keys.contains(ids[0]));
        assert forall|j: int| 0 <= j < counts.len() implies #[trigger] counts[j] >= 0 by {
            assert(keys.contains(keys[j]));
        }
        lemma_prefix_le_sum(sorted, 0);
        assert(sorted.subrange(0, 0) =~= Seq::<int>::empty());
        lemma_bus_from(sorted, half_up(ids.len()), 0);
        lemma_top_index(keys, counts, keys.len() as int);
    }
}

/// The most commits the bounded pass scans.
pub const COMMIT_WINDOW_CAP: usize = 1000;

/// One commit of the bounded window: its author time and UTC offset in minutes, its
/// number of parents, and the paths its diff against its parent (or the empty tree)
/// creates or modifies.
#[derive(Debug, Clone)]
pub struct WindowCommit {
    pub time_secs: i64,
    pub offset_minutes: i32,
    pub parent_count: usize,
    pub changed_paths: Vec<String>,
}

/// What the bounded window shows: the most modified file, the least recently
/// modified one, the shares of night, weekend and business-hours commits among the
/// window's commits, and the window's size.
#[derive(Debug, Clone)]
pub struct BoundedHistory {
    pub most_modified_file: Option<String>,
    pub oldest_file: Option<String>,
    pub night_pct: Share,
    pub weekend_pct: Share,
    pub business_hours_pct: Share,
    pub window: CommitWindow,
}

pub type WindowV = (i64, i32, nat, Seq<Seq<char>>);

pub open spec fn window_view(w: WindowCommit) -> WindowV {
    (w.time_secs, w.offset_minutes, w.parent_count as nat, w.changed_paths@.map_values(|p: String| p@))
}

pub open spec fn windows_view(v: Seq<WindowCommit>) -> Seq<WindowV> {
    v.map_values(|w: WindowCommit| window_view(w))
}

/// The offset in seconds, or none when it is a day or more (which has no such
/// fixed offset).
pub open spec fn offset_secs(offset_minutes: i32) -> int {
    let s = offset_minutes * 60;
    if -86400 < s < 86400 { s } else { 0 }
}

/// The author's local time, in seconds since the epoch.
pub open spec fn local_secs(w: WindowV) -> int {
    w.0 + offset_secs(w.1)
}

/// The hour of the day of a local time.
pub open spec fn hour_of(l: int) -> int {
    (l % 86400) / 3600
}

/// The day of the week of a local time, Monday 0 to Sunday 6 (the epoch was a
/// Thursday).
pub open spec fn weekday_of(l: int) -> int {
    (l / 86400 + 3) % 7
}

pub open spec fn is_night(w: WindowV) -> bool {
    hour_of(local_secs(w)) < 5
}

pub open spec fn is_weekend(w: WindowV) -> bool {
    weekday_of(local_secs(w)) >= 5
}

pub open spec fn is_business(w: WindowV) -> bool {
    !is_weekend(w) && 9 <= hour_of(local_secs(w)) < 18
}

/// How one more commit changes the window's buckets, by its local time `l` (its time
/// plus its offset when that is under a day): it is a night commit when `l` falls
/// before 05:00, a weekend commit when `l` falls on a Saturday or a Sunday (the days
/// whose number since 1970-01-01 is 2 or 3 modulo 7: 1970-01-03 was a Saturday), and
/// a business-hours commit when it is not a weekend commit and `l` falls from 09:00
/// to before 18:00. So a Saturday or Sunday commit always adds to the weekend count
/// and never to the business-hours count.
pub proof fn law_window_buckets(ws: Seq<WindowV>, w: WindowV)
    ensures
        ({
            let l: int = w.0 + (if -86400 < w.1 * 60 < 86400 { w.1 * 60 } else { 0 });
            let day: int = l / 86400;
            let sod: int = l % 86400;
            let weekend = day % 7 == 2 || day % 7 == 3;
            &&& night_count(ws.push(w)) == night_count(ws) + (if sod < 5 * 3600 { 1nat } else { 0nat })
            &&& weekend_count(ws.push(w)) == weekend_count(ws) + (if weekend { 1nat } else { 0nat })
            &&& business_count(ws.push(w)) == business_count(ws) + (if !weekend && 9 * 3600 <= sod < 18 * 3600 {
                1nat
            } else {
                0nat
            })
        }),
{
    assert(ws.push(w).drop_last() =~= ws);
    assert(ws.push(w).last() == w);
    let l: int = local_secs(w);
    let day: int = l / 86400;
    assert(weekday_of(l) >= 5 <==> (day % 7 == 2 || day % 7 == 3)) by {
        assert(((day + 3) % 7 >= 5) <==> (day % 7 == 2 || day % 7 == 3)) by (nonlinear_arith);
    }
}

pub open spec fn night_count(ws: Seq<WindowV>) -> nat
    decreases ws.len(),
{
    if ws.len() == 0 { 0 } else { night_count(ws.drop_last()) + (if is_night(ws.last()) { 1nat } else { 0nat }) }
}

pub open spec fn weekend_count(ws: Seq<WindowV>) -> nat
    decreases ws.len(),
{
    if ws.len() == 0 { 0 } else { weekend_count(ws.drop_last()) + (if is_weekend(ws.last()) { 1nat } else { 0nat }) }
}

pub open spec fn business_count(ws: Seq<WindowV>) -> nat
    decreases ws.len(),
{
    if ws.len() == 0 { 0 } else { business_count(ws.drop_last()) + (if is_business(ws.last()) { 1nat } else { 0nat }) }
}

/// The paths the window's non-merge commits touch, each with the commit's time.
pub open spec fn touches(ws: Seq<WindowV>) -> Seq<Counted>
    decreases ws.len(),
{
    if ws.len() == 0 {
        seq![]
    } else {
        touches(ws.drop_last()) + (if ws.last().2 <= 1 {
            ws.last().3.map_values(|p: Seq<char>| (p, Seq::<char>::empty(), ws.last().0))
        } else {
            seq![]
        })
    }
}

/// The first index with the largest count.
pub open spec fn most_index(counts: Seq<int>, n: int) -> int
    decreases n,
{
    if n <= 1 { 0 } else {
        let b = most_index(counts, n - 1);
        if counts[n - 1] > counts[b] { n - 1 } else { b }
    }
}

/// The first index with the earliest time.
pub open spec fn least_index(times: Seq<i64>, n: int) -> int
    decreases n,
{
    if n <= 1 { 0 } else {
        let b = least_index(times, n - 1);
        if times[n - 1] < times[b] { n - 1 } else { b }
    }
}

/// The latest change of each touched path, in order of first appearance.
pub open spec fn latest_times(t: Seq<Counted>) -> Seq<i64> {
    distinct(ids_of(t)).map_values(|k: Seq<char>| latest_of(t, k))
}

/// The window's figures: its size, whether the history is longer than `cap`, the
/// shares of night (0–5 h), weekend and weekday business-hours (9–18 h) commits by
/// the author's local time, the path touched most often (the first seen among
/// equals) and the path whose latest change is earliest (the first seen among
/// equals); no path when no non-merge commit touched one.
pub open spec fn bounded_match(r: BoundedHistory, ws: Seq<WindowV>, total: nat, cap: nat) -> bool {
    let t = touches(ws);
    let keys = distinct(ids_of(t));
    &&& r.window.scanned == ws.len()
    &&& r.window.capped == (total > cap)
    &&& r.night_pct.part == night_count(ws) && r.night_pct.whole == ws.len()
    &&& r.weekend_pct.part == weekend_count(ws) && r.weekend_pct.whole == ws.len()
    &&& r.business_hours_pct.part == business_count(ws) && r.business_hours_pct.whole == ws.len()
    &&& r.most_modified_file.deep_view() == (if keys.len() == 0 { None } else {
        Some(keys[most_index(counts_of(ids_of(t)), keys.len() as int)])
    })
    &&& r.oldest_file.deep_view() == (if keys.len() == 0 { None } else {
        Some(keys[least_index(latest_times(t), keys.len() as int)])
    })
}

/// Floor division and the non-negative remainder, as the spec's `/` and `%` give them.
fn floor_div_mod(x: i128, d: i128) -> (r: (i128, i128))
    requires
        0 < d < 0x1_0000_0000,
        -0x1_0000_0000_0000_0000_0000 < x < 0x1_0000_0000_0000_0000_0000,
    ensures
        r.0 == x / d,
        r.1 == x % d,
        0 <= r.1 < d,
{
    if x >= 0 {
        let u = x as u128;
        let q = (u / (d as u128)) as i128;
        let m = (u % (d as u128)) as i128;
        proof {
            vstd::arithmetic::div_mod::lemma_fundamental_div_mod(u as int, d as int);
            vstd::arithmetic::div_mod::lemma_fundamental_div_mod_converse(x as int, d as int, q as int, m as int);
        }
        (q, m)
    } else {
        let u = (-x) as u128;
        let q0 = (u / (d as u128)) as i128;
        let m0 = (u % (d as u128)) as i128;
        proof {
            vstd::arithmetic::div_mod::lemma_fundamental_div_mod(u as int, d as int);
            assert(u as int == d * q0 + m0);
            assert(q0 <= u) by (nonlinear_arith)
                requires
                    u as int == d * q0 + m0,
                    d >= 1,
                    m0 >= 0,
                    q0 >= 0,
            ;
        }
        if m0 == 0 {
            proof {
                assert(x as int == (-q0) * d + 0) by (nonlinear_arith)
                    requires
                        u as int == d * q0 + m0,
                        m0 == 0,
                        x as int == -(u as int),
                ;
                vstd::arithmetic::div_mod::lemma_fundamental_div_mod_converse(x as int, d as int, -q0, 0);
            }
            (-q0, 0)
        } else {
            proof {
                assert(x as int == (-q0 - 1) * d + (d - m0)) by (nonlinear_arith)
                    requires
                        u as int == d * q0 + m0,
                        x as int == -(u as int),
                ;
                vstd::arithmetic::div_mod::lemma_fundamental_div_mod_converse(x as int, d as int, -q0 - 1, d - m0);
            }
            (-q0 - 1, d - m0)
        }
    }
}

/// The hour and weekday (Monday 0) of a commit's local time.
fn hour_and_weekday(time_secs: i64, offset_minutes: i32) -> (r: (i128, i128))
    ensures
        r.0 == hour_of(time_secs + offset_secs(offset_minutes)),
        r.1 == weekday_of(time_secs + offset_secs(offset_minutes)),
{
    let s: i128 = offset_minutes as i128 * 60;
    let off: i128 = if -86400 < s && s < 86400 { s } else { 0 };
    let local: i128 = time_secs as i128 + off;
    let (days, secs) = floor_div_mod(local, 86400);
    let hour = secs / 3600;
    proof {
        assert(days <= local / 86400 + 1);
        assert(-0x1_0000_0000_0000_0000 <= days <= 0x1_0000_0000_0000_0000) by (nonlinear_arith)
            requires
                days == local / 86400,
                -0x1_0000_0000_0000_0000 <= local <= 0x1_0000_0000_0000_0000,
        ;
    }
    let (_, wd) = floor_div_mod(days + 3, 7);
    (hour, wd)
}

fn commit_touches(w: &WindowCommit, out: &mut Vec<Tagged>)
    ensures
        tagged_seq(final(out)@) == tagged_seq(old(out)@) + (if w.parent_count <= 1 {
            window_view(*w).3.map_values(|p: Seq<char>| (p, Seq::<char>::empty(), w.time_secs))
        } else {
            seq![]
        }),
{
    let ghost start = tagged_seq(out@);
    let ghost paths = window_view(*w).3;
    if w.parent_count <= 1 {
        let mut k: usize = 0;
        while k < w.changed_paths.len()
            invariant
                k <= w.changed_paths@.len(),
                paths == window_view(*w).3,
                tagged_seq(out@) == start + paths.subrange(0, k as int).map_values(|p: Seq<char>| (p, Seq::<char>::empty(), w.time_secs)),
            decreases w.changed_paths.len() - k,
        {
            let ghost before = out@;
            out.push(Tagged { id: w.changed_paths[k].clone(), name: String::new(), time: w.time_secs });
            proof {
                assert(paths[k as int] == w.changed_paths@[k as int]@);
                assert(tagged_seq(out@) =~= tagged_seq(before).push((paths[k as int], Seq::<char>::empty(), w.time_secs)));
                assert(paths.subrange(0, k + 1).map_values(|p: Seq<char>| (p, Seq::<char>::empty(), w.time_secs))
                    =~= paths.subrange(0, k as int).map_values(|p: Seq<char>| (p, Seq::<char>::empty(), w.time_secs)).push((paths[k as int], Seq::<char>::empty(), w.time_secs)));
            }
            k = k + 1;
        }
        proof {
            assert(paths.subrange(0, w.changed_paths@.len() as int) =~= paths);
        }
    } else {
        proof {
            assert(tagged_seq(out@) =~= start + Seq::<Counted>::empty());
        }
    }
}

/// Reads the habits of the bounded window of commits (newest first) out of a
/// history of `total` commits scanned up to `cap`.
pub fn collect_bounded(window: &Vec<WindowCommit>, total: usize, cap: usize) -> (r: BoundedHistory)
    requires
        window@.len() == (if total > cap { cap } else { total }),
    ensures
        bounded_match(r, windows_view(window@), total as nat, cap as nat),
        r.window.scanned == (if total > cap { cap } else { total }),
{
    let ghost ws = windows_view(window@);
    let mut night: u64 = 0;
    let mut weekend: u64 = 0;
    let mut business: u64 = 0;
    let mut touched: Vec<Tagged> = Vec::new();
    let mut i: usize = 0;
    while i < window.len()
        invariant
            i <= window@.len(),
            ws == windows_view(window@),
            night as nat == night_count(ws.subrange(0, i as int)),
            weekend as nat == weekend_count(ws.subrange(0, i as int)),
            business as nat == business_count(ws.subrange(0, i as int)),
            night <= i && weekend <= i && business <= i,
            tagged_seq(touched@) == touches(ws.subrange(0, i as int)),
        decreases window.len() - i,
    {
        let w = &window[i];
        proof {
            assert(ws.subrange(0, i + 1).drop_last() =~= ws.subrange(0, i as int));
            assert(ws.subrange(0, i + 1).last() == window_view(*w));
        }
        let (hour, wd) = hour_and_weekday(w.time_secs, w.offset_minutes);
        if hour < 5 {
            night = night + 1;
        }
        let is_weekend = wd >= 5;
        if is_weekend {
            weekend = weekend + 1;
        }
        if !is_weekend && 9 <= hour && hour < 18 {
            business = business + 1;
        }
        commit_touches(w, &mut touched);
        i = i + 1;
    }
    proof {
        assert(ws.subrange(0, window@.len() as int) =~= ws);
    }
    let n = window.len() as u64;
    let ghost t = tagged_seq(touched@);
    let entries = tally(&touched);
    let ghost keys = distinct(ids_of(t));
    let mut most: Option<String> = None;
    let mut oldest: Option<String> = None;
    if entries.len() > 0 {
        let mut b: usize = 0;
        let mut o: usize = 0;
        let mut k: usize = 1;
        while k < entries.len()
            invariant
                1 <= k <= entries@.len(),
                b < k && o < k,
                keys == distinct(ids_of(t)),
                entry_keys(entries@) == keys,
                entry_counts(entries@) == counts_of(ids_of(t)),
                forall|j: int| 0 <= j < entries@.len() ==> (#[trigger] entries@[j]).latest == latest_of(t, entries@[j].key@),
                b as int == most_index(counts_of(ids_of(t)), k as int),
                o as int == least_index(latest_times(t), k as int),
            decreases entries.len() - k,
        {
            proof {
                assert(entry_counts(entries@)[k as int] == entries@[k as int].count as int);
                assert(entry_counts(entries@)[b as int] == entries@[b as int].count as int);
                assert(entry_keys(entries@)[k as int] == entries@[k as int].key@);
                assert(entry_keys(entries@)[o as int] == entries@[o as int].key@);
                assert(entry_keys(entries@).len() == entries@.len());
                assert(keys[k as int] == entries@[k as int].key@);
                assert(keys[o as int] == entries@[o as int].key@);
                assert(latest_times(t)[k as int] == latest_of(t, keys[k as int]));
                assert(latest_times(t)[o as int] == latest_of(t, keys[o as int]));
                assert(latest_times(t)[k as int] == entries@[k as int].latest);
                assert(latest_times(t)[o as int] == entries@[o as int].latest);
            }
            if entries[k].count > entries[b].count {
                b = k;
            }
            if entries[k].latest < entries[o].latest {
                o = k;
            }
            k = k + 1;
        }
        proof {
            assert(entry_keys(entries@)[b as int] == entries@[b as int].key@);
            assert(entry_keys(entries@)[o as int] == entries@[o as int].key@);
        }
        most = Some(entries[b].key.clone());
        oldest = Some(entries[o].key.clone());
    }
    proof {
        assert(entry_keys(entries@).len() == entries@.len());
    }
    BoundedHistory {
        most_modified_file: most,
        oldest_file: oldest,
        night_pct: Share { part: night, whole: n },
        weekend_pct: Share { part: weekend, whole: n },
        business_hours_pct: Share { part: business, whole: n },
        window: CommitWindow { scanned: window.len(), capped: total > cap },
    }
}

proof fn lemma_counts_le(ws: Seq<WindowV>)
    ensures
        night_count(ws) <= ws.len(),
        weekend_count(ws) + business_count(ws) <= ws.len(),
    decreases ws.len(),
{
    if ws.len() > 0 {
        lemma_counts_le(ws.drop_last());
    }
}

proof fn lemma_most_index(counts: Seq<int>, n: int)
    requires
        1 <= n <= counts.len(),
    ensures
        0 <= most_index(counts, n) < n,
        forall|j: int| 0 <= j < n ==> #[trigger] counts[j] <= counts[most_index(counts, n)],
    decreases n,
{
    if n > 1 {
        lemma_most_index(counts, n - 1);
    }
}

proof fn lemma_least_index(times: Seq<i64>, n: int)
    requires
        1 <= n <= times.len(),
    ensures
        0 <= least_index(times, n) < n,
        forall|j: int| 0 <= j < n ==> times[least_index(times, n)] <= #[trigger] times[j],
    decreases n,
{
    if n > 1 {
        lemma_least_index(times, n - 1);
    }
}

/// Of the bounded window: each share lies between none and the whole, and all are
/// zero for an empty window; weekend and weekday business-hours commits never
/// overlap, so their counts, and their shares, add up to at most the whole; the most modified path is touched at least as often as any other;
/// the oldest path's latest change is no later than any other's.
pub proof fn law_bounded(ws: Seq<WindowV>)
    ensures
        share_bp(night_count(ws), ws.len()) <= 10000,
        share_bp(weekend_count(ws), ws.len()) <= 10000,
        share_bp(business_count(ws), ws.len()) <= 10000,
        weekend_count(ws) + business_count(ws) <= ws.len(),
        ws.len() == 0 ==> share_bp(night_count(ws), 0) == 0 && share_bp(weekend_count(ws), 0) == 0
            && share_bp(business_count(ws), 0) == 0,
        share_bp(weekend_count(ws), ws.len()) + share_bp(business_count(ws), ws.len()) <= 10000,
        ({
            let t = touches(ws);
            let keys = distinct(ids_of(t));
            let counts = counts_of(ids_of(t));
            let lat = latest_times(t);
            keys.len() > 0 ==> {
                &&& forall|j: int| 0 <= j < keys.len() ==> #[trigger] counts[j] <= counts[most_index(counts, keys.len() as int)]
                &&& forall|j: int| 0 <= j < keys.len() ==> lat[least_index(lat, keys.len() as int)] <= #[trigger] lat[j]
            }
        }),
{
    lemma_counts_le(ws);
    let n = ws.len();
    if n > 0 {
        let a = night_count(ws);
        let b = weekend_count(ws);
        let c = business_count(ws);
        assert(a * 10000 / n <= 10000) by (nonlinear_arith)
            requires
                a <= n,
                n >= 1,
        ;
        assert(b * 10000 / n + c * 10000 / n <= 10000) by (nonlinear_arith)
            requires
                b + c <= n,
                n >= 1,
        ;
        assert(b * 10000 / n >= 0 && c * 10000 / n >= 0) by (nonlinear_arith)
            requires
                n >= 1,
        ;
    }
    let t = touches(ws);
    let keys = distinct(ids_of(t));
    if keys.len() > 0 {
        lemma_most_index(counts_of(ids_of(t)), keys.len() as int);
        lemma_least_index(latest_times(t), keys.len() as int);
    }
}

/// Whole days from the first commit to `now_secs`, rounded toward zero.
pub open spec fn age_days_spec(first_commit_secs: i64, now_secs: i64) -> int {
    let d = now_secs - first_commit_secs;
    if d >= 0 { d / 86400 } else { -((-d) / 86400) }
}

/// The repository's age is the number of whole 86400-second days from its first
/// commit to now, counted toward zero: when the first commit is not later than now,
/// the age in days times 86400 is at most the time since, and one day more exceeds
/// it; when it is later, the same holds of the time until it, with the age negative
/// or zero.
pub proof fn law_age_days(first_commit_secs: i64, now_secs: i64)
    ensures
        ({
            let d = age_days_spec(first_commit_secs, now_secs);
            let x = now_secs - first_commit_secs;
            &&& x >= 0 ==> 0 <= d && d * 86400 <= x < d * 86400 + 86400
            &&& x < 0 ==> d <= 0 && -d * 86400 <= -x < -d * 86400 + 86400
        }),
{
    let x: int = now_secs - first_commit_secs;
    if x >= 0 {
        assert(x / 86400 * 86400 <= x < x / 86400 * 86400 + 86400 && x / 86400 >= 0) by (nonlinear_arith)
            requires
                x >= 0,
        ;
    } else {
        let y = -x;
        assert(y / 86400 * 86400 <= y < y / 86400 * 86400 + 86400 && y / 86400 >= 0) by (nonlinear_arith)
            requires
                y > 0,
        ;
    }
}

/// The repository's age in whole days at `now_secs`, from its first commit.
pub fn repo_age_days_relative_to(first_commit_secs: i64, now_secs: i64) -> (d: i64)
    requires
        i64::MIN <= now_secs - first_commit_secs <= i64::MAX,
    ensures
        d == age_days_spec(first_commit_secs, now_secs),
{
    let diff: i64 = now_secs - first_commit_secs;
    if diff >= 0 {
        ((diff as u64) / 86400) as i64
    } else {
        let m: u64 = if diff == i64::MIN { 9223372036854775808u64 } else { (-diff) as u64 };
        -((m / 86400) as i64)
    }
}

/// The span, in days, that counts as this month's activity.
pub const RECENT_DAYS: i64 = 30;

/// How many times fall within the last [`RECENT_DAYS`] days before `now_secs` (or
/// later).
pub open spec fn recent_count(times: Seq<i64>, now_secs: i64) -> nat
    decreases times.len(),
{
    if times.len() == 0 {
        0
    } else {
        recent_count(times.drop_last(), now_secs) + (if times.last() >= now_secs - RECENT_DAYS * 86400 { 1nat } else { 0nat })
    }
}

/// Counting recent commits goes one time at a time: a time counts when it is no more
/// than 30 days (2592000 seconds) before `now_secs`, or later; and no more times
/// count than there are.
pub proof fn law_recent_count(ts: Seq<i64>, t: i64, now_secs: i64)
    ensures
        recent_count(ts.push(t), now_secs) == recent_count(ts, now_secs) + (if now_secs - t <= 2592000 { 1nat } else { 0nat }),
        recent_count(ts, now_secs) <= ts.len(),
    decreases ts.len(),
{
    assert(ts.push(t).drop_last() =~= ts);
    if ts.len() > 0 {
        law_recent_count(ts.drop_last(), ts.last(), now_secs);
        assert(ts.drop_last().push(ts.last()) =~= ts);
    }
}

/// How many of the commits (given by author time) are from the last
/// [`RECENT_DAYS`] days.
pub fn commits_this_month(commit_times: &Vec<i64>, now_secs: i64) -> (n: usize)
    ensures
        n == recent_count(commit_times@, now_secs),
{
    let cutoff: i128 = now_secs as i128 - 30 * 86400;
    let mut n: usize = 0;
    let mut i: usize = 0;
    while i < commit_times.len()
        invariant
            i <= commit_times@.len(),
            cutoff == now_secs - RECENT_DAYS * 86400,
            n == recent_count(commit_times@.subrange(0, i as int), now_secs),
            n <= i,
        decreases commit_times.len() - i,
    {
        proof {
            assert(commit_times@.subrange(0, i + 1).drop_last() =~= commit_times@.subrange(0, i as int));
        }
        if commit_times[i] as i128 >= cutoff {
            n = n + 1;
        }
        i = i + 1;
    }
    proof {
        assert(commit_times@.subrange(0, commit_times@.len() as int) =~= commit_times@);
    }
    n
}

} // verus!
