//! Scoring rules: a condition, the points it gives, and the evidence it shows.

use vstd::prelude::*;
use crate::i18n::Bilingual;

verus! {

/// A rule's condition, its points and its bilingual evidence.
pub struct Rule {
    pub fired: bool,
    pub points: u32,
    pub text: Bilingual,
}

/// A rule as values: (fired, points, Vietnamese text, English text).
pub type RuleV = (bool, u32, Seq<char>, Seq<char>);

pub open spec fn rule_view(r: Rule) -> RuleV {
    (r.fired, r.points, r.text.vi@, r.text.en@)
}

pub open spec fn rules_view(rs: Seq<Rule>) -> Seq<RuleV> {
    rs.map_values(|r: Rule| rule_view(r))
}

/// The texts of a list of bilingual lines.
pub open spec fn texts(v: Seq<Bilingual>) -> Seq<(Seq<char>, Seq<char>)> {
    v.map_values(|b: Bilingual| (b.vi@, b.en@))
}

/// The points of the satisfied rules, summed.
pub open spec fn rules_score(rs: Seq<RuleV>) -> nat
    decreases rs.len(),
{
    if rs.len() == 0 {
        0
    } else {
        rules_score(rs.drop_last()) + (if rs.last().0 { rs.last().1 as nat } else { 0nat })
    }
}

/// The evidence of the satisfied rules, in rule order.
pub open spec fn rules_evidence(rs: Seq<RuleV>) -> Seq<(Seq<char>, Seq<char>)>
    decreases rs.len(),
{
    if rs.len() == 0 {
        seq![]
    } else {
        rules_evidence(rs.drop_last()) + (if rs.last().0 { seq![(rs.last().2, rs.last().3)] } else { seq![] })
    }
}

/// A copy of a bilingual text.
pub fn clone_bi(b: &Bilingual) -> (r: Bilingual)
    ensures
        r.vi@ == b.vi@,
        r.en@ == b.en@,
{
    Bilingual { vi: b.vi.clone(), en: b.en.clone() }
}

/// A copy of a list of bilingual texts.
pub fn clone_bis(v: &Vec<Bilingual>) -> (r: Vec<Bilingual>)
    ensures
        texts(r@) == texts(v@),
{
    let mut r: Vec<Bilingual> = Vec::new();
    let mut i: usize = 0;
    while i < v.len()
        invariant
            i <= v@.len(),
            r@.len() == i,
            forall|k: int| 0 <= k < i ==> (#[trigger] r@[k]).vi@ == v@[k].vi@ && r@[k].en@ == v@[k].en@,
        decreases v.len() - i,
    {
        r.push(clone_bi(&v[i]));
        i = i + 1;
    }
    proof {
        assert(texts(r@) =~= texts(v@));
    }
    r
}

/// The points rule `i` gives: its points when it exists and fired, else none.
pub open spec fn points_at(rs: Seq<RuleV>, i: int) -> nat {
    if 0 <= i < rs.len() && rs[i].0 { rs[i].1 as nat } else { 0 }
}

/// Taking one more rule adds its points exactly when it fired.
proof fn lemma_score_step(rs: Seq<RuleV>, k: int)
    requires
        0 <= k < rs.len(),
    ensures
        rules_score(rs.subrange(0, k + 1)) == rules_score(rs.subrange(0, k)) + points_at(rs, k),
{
    assert(rs.subrange(0, k + 1).drop_last() =~= rs.subrange(0, k));
    assert(rs.subrange(0, k + 1).last() == rs[k]);
}

/// The score of up to five rules, rule by rule.
pub proof fn lemma_score_of_few(rs: Seq<RuleV>)
    requires
        rs.len() <= 5,
    ensures
        rules_score(rs) == points_at(rs, 0) + points_at(rs, 1) + points_at(rs, 2) + points_at(rs, 3) + points_at(rs, 4),
{
    assert(rs.subrange(0, 0) =~= Seq::<RuleV>::empty());
    if rs.len() > 0 { lemma_score_step(rs, 0); }
    if rs.len() > 1 { lemma_score_step(rs, 1); }
    if rs.len() > 2 { lemma_score_step(rs, 2); }
    if rs.len() > 3 { lemma_score_step(rs, 3); }
    if rs.len() > 4 { lemma_score_step(rs, 4); }
    assert(rs.subrange(0, rs.len() as int) =~= rs);
}

/// Taking one more rule adds its evidence exactly when it fired.
pub proof fn lemma_evidence_step(rs: Seq<RuleV>, k: int)
    requires
        0 <= k < rs.len(),
    ensures
        rules_evidence(rs.subrange(0, k + 1)) == rules_evidence(rs.subrange(0, k)) + (if rs[k].0 {
            seq![(rs[k].2, rs[k].3)]
        } else {
            seq![]
        }),
{
    assert(rs.subrange(0, k + 1).drop_last() =~= rs.subrange(0, k));
    assert(rs.subrange(0, k + 1).last() == rs[k]);
}

/// The points of the satisfied rules among the first `i` are at most those of all.
proof fn lemma_score_prefix(rs: Seq<RuleV>, i: int)
    requires
        0 <= i <= rs.len(),
    ensures
        rules_score(rs.subrange(0, i)) <= rules_score(rs),
    decreases rs.len(),
{
    if i == rs.len() {
        assert(rs.subrange(0, i) =~= rs);
    } else {
        lemma_score_prefix(rs.drop_last(), i);
        assert(rs.drop_last().subrange(0, i) =~= rs.subrange(0, i));
    }
}

/// The score and evidence of a list of rules whose score fits in a `u32`.
pub fn tally(rules: &Vec<Rule>) -> (r: (u32, Vec<Bilingual>))
    requires
        rules_score(rules_view(rules@)) <= u32::MAX,
    ensures
        r.0 == rules_score(rules_view(rules@)),
        texts(r.1@) == rules_evidence(rules_view(rules@)),
{
    let mut score: u32 = 0;
    let mut ev: Vec<Bilingual> = Vec::new();
    let mut i: usize = 0;
    while i < rules.len()
        invariant
            i <= rules@.len(),
            rules_score(rules_view(rules@)) <= u32::MAX,
            score == rules_score(rules_view(rules@.subrange(0, i as int))),
            texts(ev@) == rules_evidence(rules_view(rules@.subrange(0, i as int))),
        decreases rules.len() - i,
    {
        let ghost prev = ev@;
        proof {
            assert(rules_view(rules@.subrange(0, i + 1)).drop_last() =~= rules_view(rules@.subrange(0, i as int)));
            assert(rules_view(rules@.subrange(0, i + 1)).last() == rule_view(rules@[i as int]));
            assert(rules_view(rules@.subrange(0, i + 1)) =~= rules_view(rules@).subrange(0, i + 1));
            lemma_score_prefix(rules_view(rules@), i + 1);
        }
        if rules[i].fired {
            score = score + rules[i].points;
            ev.push(clone_bi(&rules[i].text));
            proof {
                assert(texts(ev@) =~= texts(prev) + seq![(rules@[i as int].text.vi@, rules@[i as int].text.en@)]);
            }
        } else {
            proof {
                assert(texts(ev@) =~= texts(prev) + Seq::<(Seq<char>, Seq<char>)>::empty());
            }
        }
        i = i + 1;
    }
    proof {
        assert(rules@.subrange(0, i as int) =~= rules@);
    }
    (score, ev)
}

} // verus!
