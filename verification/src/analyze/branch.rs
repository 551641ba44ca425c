use vstd::prelude::*;
use crate::repo::branches::{BranchInfo, STALE_BRANCH_DAYS};
use crate::snapshot::InvestigationSnapshot;
use crate::text::{seq_lt, str_lt};

verus! {

/// Whether a branch saw a commit within [`STALE_BRANCH_DAYS`].
#[derive(Debug, Clone, Copy, PartialEq, Eq, Structural)]
pub enum BranchActivity {
    Active,
    Stale,
}

/// Section 3: how many branches, how many active and stale, and the oldest one.
#[derive(Debug, Clone)]
pub struct BranchJungle {
    pub total: usize,
    pub active: usize,
    pub stale: usize,
    pub oldest_branch: Option<String>,
}

/// The tip time before which a branch is stale.
pub open spec fn stale_cutoff(now_secs: i64) -> int {
    now_secs - STALE_BRANCH_DAYS * 86400
}

/// A branch is stale when its tip is older than the cutoff.
pub open spec fn activity_spec(tip_time_secs: i64, cutoff: int) -> BranchActivity {
    if tip_time_secs < cutoff { BranchActivity::Stale } else { BranchActivity::Active }
}

/// How many of the branches are stale.
pub open spec fn count_stale(bs: Seq<BranchInfo>, cutoff: int) -> nat
    decreases bs.len(),
{
    if bs.len() == 0 {
        0
    } else {
        count_stale(bs.drop_last(), cutoff) + (if bs.last().tip_time_secs < cutoff { 1nat } else { 0nat })
    }
}

/// Branch `a` sorts before branch `b` by tip time, then by name.
pub open spec fn older(a: BranchInfo, b: BranchInfo) -> bool {
    a.tip_time_secs < b.tip_time_secs || (a.tip_time_secs == b.tip_time_secs && seq_lt(a.name@, b.name@))
}

/// `name` is the name of a branch that no branch sorts before: the branch with the
/// oldest tip, ties broken by the smaller name. There is none exactly when there is
/// no branch.
pub open spec fn is_oldest_choice(bs: Seq<BranchInfo>, name: Option<Seq<char>>) -> bool {
    match name {
        None => bs.len() == 0,
        Some(n) => exists|k: int| 0 <= k < bs.len() && (#[trigger] bs[k]).name@ == n
            && forall|j: int| 0 <= j < bs.len() ==> !older(#[trigger] bs[j], bs[k]),
    }
}

pub proof fn lemma_older_transitive(a: BranchInfo, b: BranchInfo, c: BranchInfo)
    requires
        older(a, b),
        older(b, c),
    ensures
        older(a, c),
{
    if a.tip_time_secs == b.tip_time_secs && b.tip_time_secs == c.tip_time_secs {
        crate::text::lemma_seq_lt_transitive(a.name@, b.name@, c.name@);
    }
}

/// Counting stale branches at `now_secs` goes one branch at a time: a branch is
/// stale when its tip is more than 90 days (7776000 seconds) before now; and no more
/// branches are stale than there are.
pub proof fn law_stale_branches(bs: Seq<BranchInfo>, b: BranchInfo, now_secs: i64)
    ensures
        count_stale(bs.push(b), stale_cutoff(now_secs)) == count_stale(bs, stale_cutoff(now_secs))
            + (if now_secs - b.tip_time_secs > 7776000 { 1nat } else { 0nat }),
        count_stale(bs, stale_cutoff(now_secs)) <= bs.len(),
    decreases bs.len(),
{
    assert(bs.push(b).drop_last() =~= bs);
    if bs.len() > 0 {
        law_stale_branches(bs.drop_last(), bs.last(), now_secs);
        assert(bs.drop_last().push(bs.last()) =~= bs);
    }
}

/// Classifies one branch tip against the stale cutoff.
pub fn branch_activity(tip_time_secs: i64, cutoff: i64) -> (a: BranchActivity)
    ensures
        a == activity_spec(tip_time_secs, cutoff as int),
{
    if tip_time_secs < cutoff { BranchActivity::Stale } else { BranchActivity::Active }
}

/// The name of the oldest branch, ties broken by name.
pub fn oldest_branch_name(bs: &Vec<BranchInfo>) -> (r: Option<String>)
    ensures
        is_oldest_choice(bs@, r.deep_view()),
{
    if bs.len() == 0 {
        return None;
    }
    let mut best: usize = 0;
    let mut i: usize = 1;
    proof {
        crate::text::lemma_seq_lt_irreflexive(bs@[0].name@);
    }
    while i < bs.len()
        invariant
            0 < i <= bs@.len(),
            best < i,
            forall|j: int| 0 <= j < i ==> !older(#[trigger] bs@[j], bs@[best as int]),
        decreases bs.len() - i,
    {
        let b = &bs[i];
        let cur = &bs[best];
        if b.tip_time_secs < cur.tip_time_secs || (b.tip_time_secs == cur.tip_time_secs && str_lt(b.name.as_str(), cur.name.as_str())) {
            proof {
                assert forall|j: int| 0 <= j < i + 1 implies !older(#[trigger] bs@[j], bs@[i as int]) by {
                    crate::text::lemma_seq_lt_irreflexive(bs@[i as int].name@);
                    if j < i && older(bs@[j], bs@[i as int]) {
                        lemma_older_transitive(bs@[j], bs@[i as int], bs@[best as int]);
                    }
                };
            }
            best = i;
        }
        i = i + 1;
    }
    let r = Some(bs[best].name.clone());
    proof {
        assert(bs@[best as int].name@ == r.deep_view()->0);
    }
    r
}

/// The branches of the snapshot: all, active, stale (tip older than
/// [`STALE_BRANCH_DAYS`] before `now_secs`), and the oldest by tip time then name.
pub fn branch_jungle(snapshot: &InvestigationSnapshot, now_secs: i64) -> (j: BranchJungle)
    requires
        stale_cutoff(now_secs) >= i64::MIN,
    ensures
        j.total == snapshot.branches.branches@.len(),
        j.stale == count_stale(snapshot.branches.branches@, stale_cutoff(now_secs)),
        j.active + j.stale == j.total,
        is_oldest_choice(snapshot.branches.branches@, j.oldest_branch.deep_view()),
{
    let branches = &snapshot.branches.branches;
    let cutoff = now_secs - STALE_BRANCH_DAYS * 86400;
    let mut active: usize = 0;
    let mut stale: usize = 0;
    let mut i: usize = 0;
    while i < branches.len()
        invariant
            i <= branches@.len(),
            cutoff == stale_cutoff(now_secs),
            stale == count_stale(branches@.subrange(0, i as int), cutoff as int),
            active + stale == i,
        decreases branches.len() - i,
    {
        proof {
            assert(branches@.subrange(0, i + 1).drop_last() =~= branches@.subrange(0, i as int));
        }
        match branch_activity(branches[i].tip_time_secs, cutoff) {
            BranchActivity::Stale => stale = stale + 1,
            BranchActivity::Active => active = active + 1,
        }
        i = i + 1;
    }
    proof {
        assert(branches@.subrange(0, i as int) =~= branches@);
    }
    BranchJungle { total: branches.len(), active, stale, oldest_branch: oldest_branch_name(branches) }
}

} // verus!
