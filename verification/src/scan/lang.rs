//! The language breakdown: each language's share of the lines of code, largest
//! first, from the line counts the program reads.

use vstd::prelude::*;
use crate::sorting::{sort_desc, sorted_desc, first_below, law_sort_desc};
use crate::share::Share;

verus! {

/// A language as values: its name and its lines of code.
pub type LangV = (Seq<char>, int);

pub open spec fn langs_view(v: Seq<(String, usize)>) -> Seq<LangV> {
    v.map_values(|x: (String, usize)| (x.0@, x.1 as int))
}

/// The languages with some code, in order.
pub open spec fn with_code(s: Seq<LangV>) -> Seq<LangV>
    decreases s.len(),
{
    if s.len() == 0 {
        seq![]
    } else {
        with_code(s.drop_last()) + (if s.last().1 > 0 { seq![s.last()] } else { seq![] })
    }
}

pub open spec fn total_code(s: Seq<LangV>) -> int
    decreases s.len(),
{
    if s.len() == 0 { 0 } else { total_code(s.drop_last()) + s.last().1 }
}

/// Lines of code, the sorting key.
pub open spec fn code_key() -> spec_fn(LangV) -> int {
    |x: LangV| x.1
}

/// Each language with code and its share of all code (its lines, then all lines),
/// most code first, languages with equal code in their given order; nothing when
/// there is no code.
pub open spec fn breakdown_spec(s: Seq<LangV>) -> Seq<(Seq<char>, int, int)> {
    let total = total_code(s);
    if total == 0 {
        seq![]
    } else {
        sort_desc(with_code(s), code_key()).map_values(|x: LangV| (x.0, x.1, total))
    }
}

proof fn lemma_total_bounds(s: Seq<LangV>)
    requires
        forall|i: int| 0 <= i < s.len() ==> #[trigger] s[i].1 >= 0,
    ensures
        total_code(s) >= 0,
        forall|i: int| 0 <= i < s.len() ==> #[trigger] s[i].1 <= total_code(s),
        forall|i: int| 0 <= i < with_code(s).len() ==> 0 < #[trigger] with_code(s)[i].1 <= total_code(s),
    decreases s.len(),
{
    if s.len() > 0 {
        let p = s.drop_last();
        assert forall|i: int| 0 <= i < p.len() implies #[trigger] p[i].1 >= 0 by {
            assert(p[i] == s[i]);
        }
        lemma_total_bounds(p);
        assert forall|i: int| 0 <= i < s.len() implies #[trigger] s[i].1 <= total_code(s) by {
            if i < p.len() {
                assert(p[i] == s[i]);
            }
        }
        assert forall|i: int| 0 <= i < with_code(s).len() implies 0 < #[trigger] with_code(s)[i].1 <= total_code(s) by {
            if i < with_code(p).len() {
                assert(with_code(s)[i] == with_code(p)[i]);
            }
        }
    }
}

/// The shares, largest first (the share follows the code).
pub proof fn law_breakdown(s: Seq<LangV>)
    requires
        forall|i: int| 0 <= i < s.len() ==> #[trigger] s[i].1 >= 0,
    ensures
        sorted_desc(sort_desc(with_code(s), code_key()), code_key()),
        sort_desc(with_code(s), code_key()).to_multiset() == with_code(s).to_multiset(),
        forall|i: int, j: int| 0 <= i < j < breakdown_spec(s).len() ==> #[trigger] breakdown_spec(s)[i].1 >= #[trigger] breakdown_spec(s)[j].1,
{
    let w = with_code(s);
    law_sort_desc(w, code_key());
    let total = total_code(s);
    let sorted = sort_desc(w, code_key());
    if total != 0 {
        lemma_total_bounds(s);
        assert forall|i: int, j: int| 0 <= i < j < breakdown_spec(s).len() implies #[trigger] breakdown_spec(s)[i].1 >= #[trigger] breakdown_spec(s)[j].1 by {
            assert(sorted[i].1 >= sorted[j].1);
        }
    }
}

/// Sorts the languages by lines of code, most first, keeping the given order among
/// equals.
fn sort_by_code(v: Vec<(String, usize)>) -> (r: Vec<(String, usize)>)
    ensures
        langs_view(r@) == sort_desc(langs_view(v@), code_key()),
{
    let ghost lv = langs_view(v@);
    let mut r: Vec<(String, usize)> = Vec::new();
    let mut v = v;
    let n = v.len();
    let mut i: usize = 0;
    while i < n
        invariant
            n == lv.len(),
            i <= n,
            v@.len() == n - i,
            forall|k: int| 0 <= k < n - i ==> langs_view(v@)[k] == lv[i + k],
            langs_view(r@) == sort_desc(lv.subrange(0, i as int), code_key()),
        decreases n - i,
    {
        let ghost vb = v@;
        let x = v.remove(0);
        proof {
            assert(langs_view(vb)[0] == (x.0@, x.1 as int));
            assert forall|k: int| 0 <= k < n - i - 1 implies langs_view(v@)[k] == lv[i + 1 + k] by {
                assert(v@[k] == vb[k + 1]);
                assert(langs_view(vb)[k + 1] == lv[i + 1 + k]);
            }
        }
        let mut p: usize = 0;
        while p < r.len() && r[p].1 >= x.1
            invariant
                p <= r@.len(),
                first_below(langs_view(r@), code_key(), x.1 as int, 0) == first_below(langs_view(r@), code_key(), x.1 as int, p as int),
            decreases r.len() - p,
        {
            proof {
                assert(langs_view(r@)[p as int].1 == r@[p as int].1 as int);
            }
            p = p + 1;
        }
        proof {
            if p < r@.len() {
                assert(langs_view(r@)[p as int].1 == r@[p as int].1 as int);
            }
            assert(lv.subrange(0, i + 1).drop_last() =~= lv.subrange(0, i as int));
            assert(lv.subrange(0, i + 1).last() == (x.0@, x.1 as int));
        }
        let ghost before = r@;
        r.insert(p, x);
        proof {
            assert(langs_view(r@) =~= langs_view(before).insert(p as int, (x.0@, x.1 as int)));
        }
        i = i + 1;
    }
    proof {
        assert(lv.subrange(0, n as int) =~= lv);
    }
    r
}

/// Each language's share of the code, most first; nothing when there is no code.
pub fn language_breakdown(counts: &Vec<(String, usize)>) -> (r: Vec<(String, Share)>)
    requires
        total_code(langs_view(counts@)) <= u64::MAX,
    ensures
        r@.map_values(|x: (String, Share)| (x.0@, x.1.part as int, x.1.whole as int)) == breakdown_spec(langs_view(counts@)),
{
    let ghost s = langs_view(counts@);
    let mut total: u128 = 0;
    let mut kept: Vec<(String, usize)> = Vec::new();
    let mut i: usize = 0;
    while i < counts.len()
        invariant
            i <= counts@.len(),
            s == langs_view(counts@),
            total == total_code(s.subrange(0, i as int)),
            total <= i * 0x1_0000_0000_0000_0000,
            langs_view(kept@) == with_code(s.subrange(0, i as int)),
        decreases counts.len() - i,
    {
        proof {
            assert(s.subrange(0, i + 1).drop_last() =~= s.subrange(0, i as int));
            assert(s.subrange(0, i + 1).last() == (counts@[i as int].0@, counts@[i as int].1 as int));
        }
        total = total + counts[i].1 as u128;
        let ghost before = kept@;
        if counts[i].1 > 0 {
            kept.push((counts[i].0.clone(), counts[i].1));
            proof {
                assert(langs_view(kept@) =~= langs_view(before) + seq![(counts@[i as int].0@, counts@[i as int].1 as int)]);
            }
        } else {
            proof {
                assert(langs_view(kept@) =~= langs_view(before) + Seq::<LangV>::empty());
            }
        }
        i = i + 1;
    }
    proof {
        assert(s.subrange(0, counts@.len() as int) =~= s);
    }
    let mut out: Vec<(String, Share)> = Vec::new();
    if total == 0 {
        proof {
            assert(out@.map_values(|x: (String, Share)| (x.0@, x.1.part as int, x.1.whole as int)) =~= breakdown_spec(s));
        }
        return out;
    }
    proof {
        assert forall|k: int| 0 <= k < s.len() implies #[trigger] s[k].1 >= 0 by {}
        lemma_total_bounds(s);
        law_sort_desc(with_code(s), code_key());
    }
    let sorted = sort_by_code(kept);
    let ghost sv = langs_view(sorted@);
    proof {
        assert forall|k: int| 0 <= k < sv.len() implies 0 < #[trigger] sv[k].1 <= total_code(s) by {
            vstd::seq_lib::to_multiset_contains(sv, sv[k]);
            broadcast use vstd::seq_lib::group_to_multiset_ensures;
            assert(sv.contains(sv[k]));
            assert(with_code(s).to_multiset().count(sv[k]) > 0);
            assert(with_code(s).contains(sv[k]));
        }
    }
    let whole = total as u64;
    let mut j: usize = 0;
    while j < sorted.len()
        invariant
            j <= sorted@.len(),
            sv == langs_view(sorted@),
            whole as int == total_code(s),
            whole > 0,
            forall|k: int| 0 <= k < sv.len() ==> 0 < #[trigger] sv[k].1 <= total_code(s),
            out@.map_values(|x: (String, Share)| (x.0@, x.1.part as int, x.1.whole as int)) == sv.subrange(0, j as int).map_values(|x: LangV| (x.0, x.1, total_code(s))),
        decreases sorted.len() - j,
    {
        proof {
            assert(sv[j as int].1 == sorted@[j as int].1 as int);
        }
        let part = sorted[j].1 as u64;
        let ghost before = out@;
        out.push((sorted[j].0.clone(), Share { part, whole }));
        proof {
            assert(out@.map_values(|x: (String, Share)| (x.0@, x.1.part as int, x.1.whole as int)) =~= before.map_values(|x: (String, Share)| (x.0@, x.1.part as int, x.1.whole as int)).push((sv[j as int].0, sv[j as int].1, total_code(s))));
            assert(sv.subrange(0, j + 1).map_values(|x: LangV| (x.0, x.1, total_code(s))) =~= sv.subrange(0, j as int).map_values(|x: LangV| (x.0, x.1, total_code(s))).push((sv[j as int].0, sv[j as int].1, total_code(s))));
        }
        j = j + 1;
    }
    proof {
        assert(sv.subrange(0, sorted@.len() as int) =~= sv);
    }
    out
}

} // verus!
