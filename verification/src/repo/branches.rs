//! Branches of the clone: the remote-tracking branches git lists, reduced to one
//! entry per branch name.

use vstd::prelude::*;
use vstd::string::*;
use crate::chars::{starts_with, starts_with_vec, sub_vec, string_of, eq_vec};
use crate::text::chars_of;

verus! {

/// Days without a commit after which a branch counts as stale.
pub const STALE_BRANCH_DAYS: i64 = 90;

/// A remote branch and the author time of its tip commit, in seconds since the epoch.
#[derive(Debug, Clone)]
pub struct BranchInfo {
    pub name: String,
    pub tip_time_secs: i64,
}

/// The default branch, every remote branch, and the latest tip time among them
/// (0 when there is none later than the epoch).
#[derive(Debug, Clone)]
pub struct BranchFacts {
    pub default_branch: String,
    pub branches: Vec<BranchInfo>,
    pub last_activity_secs: i64,
}

/// A remote-tracking branch as git lists it (like `origin/main`), with the author
/// time of its tip commit (0 when the tip is not a commit).
#[derive(Debug, Clone)]
pub struct RemoteBranch {
    pub name: String,
    pub tip_time_secs: i64,
}

/// The branch name without its `origin/` prefix.
pub open spec fn strip_origin(s: Seq<char>) -> Seq<char> {
    if starts_with(s, "origin/"@) { s.subrange(7, s.len() as int) } else { s }
}

pub open spec fn names_of(bs: Seq<(Seq<char>, i64)>) -> Seq<Seq<char>> {
    bs.map_values(|b: (Seq<char>, i64)| b.0)
}

/// The branches kept from a listing: each name without `origin/`, except `HEAD`, the
/// first time it occurs, in listing order.
pub open spec fn kept_branches(raw: Seq<(Seq<char>, i64)>) -> Seq<(Seq<char>, i64)>
    decreases raw.len(),
{
    if raw.len() == 0 {
        seq![]
    } else {
        let prev = kept_branches(raw.drop_last());
        let n = strip_origin(raw.last().0);
        if n == "HEAD"@ || names_of(prev).contains(n) {
            prev
        } else {
            prev.push((n, raw.last().1))
        }
    }
}

/// The latest tip time among branches, and 0 when none is later than the epoch.
pub open spec fn latest_tip(bs: Seq<(Seq<char>, i64)>) -> i64
    decreases bs.len(),
{
    if bs.len() == 0 {
        0
    } else {
        let prev = latest_tip(bs.drop_last());
        if bs.last().1 > prev { bs.last().1 } else { prev }
    }
}

pub open spec fn remote_view(v: Seq<RemoteBranch>) -> Seq<(Seq<char>, i64)> {
    v.map_values(|b: RemoteBranch| (b.name@, b.tip_time_secs))
}

pub open spec fn branches_view(v: Seq<BranchInfo>) -> Seq<(Seq<char>, i64)> {
    v.map_values(|b: BranchInfo| (b.name@, b.tip_time_secs))
}

/// No branch name occurs twice and none is `HEAD`; every listed name other than
/// `HEAD` is kept; the latest activity is at least every tip and 0, and is 0 or
/// some branch's tip.
pub proof fn law_kept_branches(raw: Seq<(Seq<char>, i64)>)
    ensures
        forall|i: int, j: int| 0 <= i < j < kept_branches(raw).len() ==> #[trigger] kept_branches(raw)[i].0 != #[trigger] kept_branches(raw)[j].0,
        forall|i: int| 0 <= i < kept_branches(raw).len() ==> #[trigger] kept_branches(raw)[i].0 != "HEAD"@,
        forall|i: int| 0 <= i < raw.len() && strip_origin(#[trigger] raw[i].0) != "HEAD"@ ==> names_of(kept_branches(raw)).contains(strip_origin(raw[i].0)),
        forall|i: int| 0 <= i < kept_branches(raw).len() ==> #[trigger] kept_branches(raw)[i].1 <= latest_tip(kept_branches(raw)),
        latest_tip(kept_branches(raw)) >= 0,
        latest_tip(kept_branches(raw)) == 0 || exists|i: int| 0 <= i < kept_branches(raw).len() && #[trigger] kept_branches(raw)[i].1 == latest_tip(kept_branches(raw)),
    decreases raw.len(),
{
    if raw.len() > 0 {
        let prev_raw = raw.drop_last();
        law_kept_branches(prev_raw);
        let prev = kept_branches(prev_raw);
        let k = kept_branches(raw);
        let n = strip_origin(raw.last().0);
        assert forall|i: int| 0 <= i < raw.len() && strip_origin(#[trigger] raw[i].0) != "HEAD"@ implies names_of(k).contains(strip_origin(raw[i].0)) by {
            if i < raw.len() - 1 {
                assert(prev_raw[i] == raw[i]);
                let j = choose|j: int| 0 <= j < names_of(prev).len() && names_of(prev)[j] == strip_origin(raw[i].0);
                if !(n == "HEAD"@ || names_of(prev).contains(n)) {
                    assert(names_of(k)[j] == names_of(prev)[j]);
                }
            } else {
                if !(n == "HEAD"@ || names_of(prev).contains(n)) {
                    assert(names_of(k)[prev.len() as int] == n);
                }
            }
        }
        if !(n == "HEAD"@ || names_of(prev).contains(n)) {
            assert(k.drop_last() =~= prev);
            assert forall|i: int, j: int| 0 <= i < j < k.len() implies #[trigger] k[i].0 != #[trigger] k[j].0 by {
                if j == k.len() - 1 {
                    assert(names_of(prev)[i] == prev[i].0);
                }
            }
            if latest_tip(k) != 0 && latest_tip(k) != k.last().1 {
                let w = choose|i: int| 0 <= i < prev.len() && #[trigger] prev[i].1 == latest_tip(prev);
                assert(k[w] == prev[w]);
            }
            assert forall|i: int| 0 <= i < k.len() implies #[trigger] k[i].1 <= latest_tip(k) by {
                if i < prev.len() {
                    assert(k[i] == prev[i]);
                }
            }
        }
    }
}

fn strip_origin_exec(name: &String) -> (r: String)
    ensures
        r@ == strip_origin(name@),
{
    let cs = chars_of(name.as_str());
    let prefix = chars_of("origin/");
    proof {
        reveal_strlit("origin/");
    }
    if starts_with_vec(&cs, &prefix) {
        string_of(&sub_vec(&cs, 7, cs.len()))
    } else {
        name.clone()
    }
}

fn name_seen(kept: &Vec<BranchInfo>, n: &String) -> (r: bool)
    ensures
        r == names_of(branches_view(kept@)).contains(n@),
{
    let mut i: usize = 0;
    while i < kept.len()
        invariant
            i <= kept@.len(),
            forall|j: int| 0 <= j < i ==> kept@[j].name@ != n@,
        decreases kept.len() - i,
    {
        if kept[i].name == *n {
            proof {
                assert(names_of(branches_view(kept@))[i as int] == n@);
            }
            return true;
        }
        i = i + 1;
    }
    proof {
        if names_of(branches_view(kept@)).contains(n@) {
            let j = choose|j: int| 0 <= j < names_of(branches_view(kept@)).len() && names_of(branches_view(kept@))[j] == n@;
            assert(kept@[j].name@ == n@);
        }
    }
    false
}

/// Reduces the remote-tracking branches to one per name (without `origin/`, and
/// without `HEAD`), in listing order, and finds the latest tip time.
pub fn enumerate_branches(default_branch: String, remote: &Vec<RemoteBranch>) -> (f: BranchFacts)
    ensures
        f.default_branch@ == default_branch@,
        branches_view(f.branches@) == kept_branches(remote_view(remote@)),
        f.last_activity_secs == latest_tip(kept_branches(remote_view(remote@))),
{
    let ghost raw = remote_view(remote@);
    let mut branches: Vec<BranchInfo> = Vec::new();
    let mut last: i64 = 0;
    let head = String::from_str("HEAD");
    proof {
        reveal_strlit("HEAD");
    }
    let mut i: usize = 0;
    while i < remote.len()
        invariant
            i <= remote@.len(),
            raw == remote_view(remote@),
            head@ == "HEAD"@,
            branches_view(branches@) == kept_branches(raw.subrange(0, i as int)),
            last == latest_tip(kept_branches(raw.subrange(0, i as int))),
        decreases remote.len() - i,
    {
        let stripped = strip_origin_exec(&remote[i].name);
        proof {
            assert(raw.subrange(0, i + 1).drop_last() =~= raw.subrange(0, i as int));
            assert(raw.subrange(0, i + 1).last() == raw[i as int]);
        }
        if stripped == head || name_seen(&branches, &stripped) {
        } else {
            let tip = remote[i].tip_time_secs;
            if tip > last {
                last = tip;
            }
            let ghost prev = branches@;
            branches.push(BranchInfo { name: stripped, tip_time_secs: tip });
            proof {
                assert(branches_view(branches@) =~= branches_view(prev).push((stripped@, tip)));
                assert(kept_branches(raw.subrange(0, i + 1)).drop_last() =~= kept_branches(raw.subrange(0, i as int)));
            }
        }
        i = i + 1;
    }
    proof {
        assert(raw.subrange(0, remote@.len() as int) =~= raw);
    }
    BranchFacts { default_branch, branches, last_activity_secs: last }
}

} // verus!
