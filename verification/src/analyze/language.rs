use vstd::prelude::*;
use crate::share::Share;
use crate::snapshot::InvestigationSnapshot;

verus! {

/// One language and its share of code lines.
#[derive(Debug, Clone)]
pub struct LanguageEntry {
    pub name: String,
    pub pct: Share,
}

/// Section 5: the languages of the working tree.
#[derive(Debug, Clone)]
pub struct LanguageSoup {
    pub languages: Vec<LanguageEntry>,
}

/// The language breakdown of the snapshot, entry for entry.
pub fn language_soup(snapshot: &InvestigationSnapshot) -> (s: LanguageSoup)
    ensures
        s.languages@.len() == snapshot.filesystem.languages@.len(),
        forall|i: int| 0 <= i < s.languages@.len() ==> (#[trigger] s.languages@[i]).name@ == snapshot.filesystem.languages@[i].0@
            && s.languages@[i].pct == snapshot.filesystem.languages@[i].1,
{
    let src = &snapshot.filesystem.languages;
    let mut out: Vec<LanguageEntry> = Vec::new();
    let mut i: usize = 0;
    while i < src.len()
        invariant
            i <= src@.len(),
            out@.len() == i,
            forall|k: int| 0 <= k < i ==> (#[trigger] out@[k]).name@ == src@[k].0@ && out@[k].pct == src@[k].1,
        decreases src.len() - i,
    {
        out.push(LanguageEntry { name: src[i].0.clone(), pct: src[i].1 });
        i = i + 1;
    }
    LanguageSoup { languages: out }
}

} // verus!
