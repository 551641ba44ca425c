use vstd::prelude::*;
use vstd::string::*;

verus! {

/// A piece of user-facing text in Vietnamese and English.
#[derive(Debug, Clone)]
pub struct Bilingual {
    pub vi: String,
    pub en: String,
}

impl Bilingual {
    /// Builds a bilingual text from its two renderings.
    pub fn new(vi: &str, en: &str) -> (r: Self)
        ensures
            r.vi@ == vi@,
            r.en@ == en@,
    {
        Bilingual { vi: String::from_str(vi), en: String::from_str(en) }
    }
}

/// Shorthand for [`Bilingual::new`].
pub fn bi(vi: &str, en: &str) -> (r: Bilingual)
    ensures
        r.vi@ == vi@,
        r.en@ == en@,
{
    Bilingual::new(vi, en)
}

/// The two renderings as two lines, Vietnamese first.
pub fn two_line(b: &Bilingual) -> (r: [String; 2])
    ensures
        r@[0]@ == b.vi@,
        r@[1]@ == b.en@,
{
    [b.vi.clone(), b.en.clone()]
}

/// The text of an inline label: `vi / en`.
pub open spec fn inline_text(vi: Seq<char>, en: Seq<char>) -> Seq<char> {
    vi + seq![' ', '/', ' '] + en
}

/// The two renderings on one line, separated by ` / `.
pub fn inline_label(b: &Bilingual) -> (r: String)
    ensures
        r@ == inline_text(b.vi@, b.en@),
{
    let mut s = b.vi.clone();
    let sep = " / ";
    proof {
        reveal_strlit(" / ");
    }
    s.append(sep);
    s.append(b.en.as_str());
    s
}

} // verus!
