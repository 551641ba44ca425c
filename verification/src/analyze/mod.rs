//! The analyses: each a function of the snapshot (and of the factual sections)
//! alone.

pub mod commit;
pub mod branch;
pub mod relics;
pub mod language;
pub mod infra;
pub mod rules;
pub mod vibes;
pub mod findings;
pub mod verdict;

use vstd::prelude::*;

verus! {

/// A copy of an optional string.
pub fn clone_opt(s: &Option<String>) -> (r: Option<String>)
    ensures
        r.deep_view() == s.deep_view(),
{
    match s {
        Some(x) => Some(x.clone()),
        None => None,
    }
}

} // verus!
