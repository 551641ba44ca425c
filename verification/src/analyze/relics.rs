use vstd::prelude::*;
use crate::snapshot::InvestigationSnapshot;
use crate::analyze::branch::{is_oldest_choice, oldest_branch_name};
use crate::analyze::clone_opt;

verus! {

/// Section 4: the oldest and most modified files, the oldest contributor and the
/// longest-living branch.
#[derive(Debug, Clone)]
pub struct AncientRelics {
    pub oldest_file: Option<String>,
    pub most_modified_file: Option<String>,
    pub oldest_contributor: Option<String>,
    pub longest_living_branch: Option<String>,
}

/// The relics of the snapshot; the longest-living branch is the one with the oldest
/// tip, ties broken by name.
pub fn ancient_relics(snapshot: &InvestigationSnapshot) -> (r: AncientRelics)
    ensures
        r.oldest_file.deep_view() == snapshot.history.oldest_file.deep_view(),
        r.most_modified_file.deep_view() == snapshot.history.most_modified_file.deep_view(),
        r.oldest_contributor.deep_view() == snapshot.history.oldest_contributor.deep_view(),
        is_oldest_choice(snapshot.branches.branches@, r.longest_living_branch.deep_view()),
{
    AncientRelics {
        oldest_file: clone_opt(&snapshot.history.oldest_file),
        most_modified_file: clone_opt(&snapshot.history.most_modified_file),
        oldest_contributor: clone_opt(&snapshot.history.oldest_contributor),
        longest_living_branch: oldest_branch_name(&snapshot.branches.branches),
    }
}

} // verus!

verus! {

/// The longest-living branch of the relics and the oldest branch of the branch
/// jungle name the same branch: there is exactly one name that is the oldest choice
/// among a list of branches.
pub proof fn law_oldest_choice_unique(bs: Seq<crate::repo::branches::BranchInfo>, a: Option<Seq<char>>, b: Option<Seq<char>>)
    requires
        is_oldest_choice(bs, a),
        is_oldest_choice(bs, b),
    ensures
        a == b,
{
    if a is Some && b is Some {
        let k1 = choose|k: int| 0 <= k < bs.len() && (#[trigger] bs[k]).name@ == a->0
            && forall|j: int| 0 <= j < bs.len() ==> !crate::analyze::branch::older(#[trigger] bs[j], bs[k]);
        let k2 = choose|k: int| 0 <= k < bs.len() && (#[trigger] bs[k]).name@ == b->0
            && forall|j: int| 0 <= j < bs.len() ==> !crate::analyze::branch::older(#[trigger] bs[j], bs[k]);
        assert(!crate::analyze::branch::older(bs[k1], bs[k2]));
        assert(!crate::analyze::branch::older(bs[k2], bs[k1]));
        crate::text::lemma_seq_lt_total(bs[k1].name@, bs[k2].name@);
    }
}

} // verus!
