use vstd::prelude::*;
use vstd::string::*;
use crate::chars::{is_ascii_alnum, is_ascii_upper, is_ascii_lower, is_ascii_digit};
use crate::cli::parse::RepoRef;
use crate::text::{digit, chars_of};

verus! {

/// One investigation: the repository, its case identifier, when it started (seconds
/// since the epoch) and whether the size guard is lifted.
#[derive(Debug, Clone)]
pub struct InvestigationSession {
    pub repo: RepoRef,
    pub case_id: String,
    pub started_at_secs: i64,
    pub deep: bool,
}

/// `str::to_uppercase` of a character sequence, by Unicode case mapping.
pub uninterp spec fn uppercase(s: Seq<char>) -> Seq<char>;

/// The ASCII uppercase of a character: `a` to `z` become `A` to `Z`, any other
/// character stays.
pub open spec fn ascii_upper(c: char) -> char {
    if is_ascii_lower(c) { ((c as u32) - 32) as char } else { c }
}

/// Uppercases `s` with `str::to_uppercase`; the result is named [`uppercase`]. On
/// ASCII text the Unicode mapping is the ASCII one: letters `a` to `z` become `A` to
/// `Z` and every other ASCII character maps to itself, one for one. On any text no
/// ASCII lowercase letter is left: each of them has an uppercase mapping, and no
/// uppercase mapping yields one.
#[verifier::external_body]
fn to_uppercase(s: &str) -> (r: String)
    ensures
        r@ == uppercase(s@),
        forall|i: int| 0 <= i < r@.len() ==> !is_ascii_lower(#[trigger] r@[i]),
        (forall|i: int| 0 <= i < s@.len() ==> (#[trigger] s@[i] as u32) < 0x80) ==> r@ == s@.map_values(
            |c: char| ascii_upper(c),
        ),
{
    s.to_uppercase()
}

/// The ASCII letters and digits of `s`, in order.
pub open spec fn ascii_alnum_only(s: Seq<char>) -> Seq<char>
    decreases s.len(),
{
    if s.len() == 0 {
        seq![]
    } else {
        ascii_alnum_only(s.drop_last()) + (if is_ascii_alnum(s.last()) { seq![s.last()] } else { seq![] })
    }
}

/// The case prefix: the first four ASCII letters and digits of the uppercased
/// repository name, or `REPO` when it has none.
pub open spec fn case_prefix(upper: Seq<char>) -> Seq<char> {
    let f = ascii_alnum_only(upper);
    if f.len() == 0 {
        "REPO"@
    } else if f.len() > 4 {
        f.subrange(0, 4)
    } else {
        f
    }
}

pub const FNV_OFFSET: u32 = 2166136261;

pub const FNV_PRIME: u32 = 16777619;

/// The 32-bit FNV-1a hash of a byte sequence.
pub open spec fn fnv1a(bytes: Seq<u8>) -> u32
    decreases bytes.len(),
{
    if bytes.len() == 0 {
        FNV_OFFSET
    } else {
        vstd::wrapping::u32_specs::wrapping_mul(fnv1a(bytes.drop_last()) ^ (bytes.last() as u32), FNV_PRIME)
    }
}

/// Uppercase hexadecimal digit.
pub open spec fn hex_digit(d: nat) -> char {
    if d < 10 { digit(d) } else { ((55 + d) as u8) as char }
}

/// Four uppercase hexadecimal digits of `x < 65536`.
pub open spec fn hex4(x: nat) -> Seq<char> {
    seq![hex_digit((x / 4096) % 16), hex_digit((x / 256) % 16), hex_digit((x / 16) % 16), hex_digit(x % 16)]
}

/// The case identifier of `owner/repo`: the case prefix of the repository name, a
/// dash, and the low 16 bits of the FNV-1a hash of the UTF-8 bytes of `owner/repo`
/// in four hexadecimal digits.
pub open spec fn case_id_spec(owner: Seq<char>, repo: Seq<char>) -> Seq<char> {
    case_prefix(uppercase(repo)) + seq!['-'] + hex4((fnv1a(vstd::utf8::encode_utf8(owner + "/"@ + repo)) % 65536) as nat)
}

/// The case identifier of `owner/repo` for an ASCII repository name, whose
/// uppercasing is the ASCII one.
pub open spec fn ascii_case_id_spec(owner: Seq<char>, repo: Seq<char>) -> Seq<char> {
    case_prefix(repo.map_values(|c: char| ascii_upper(c))) + seq!['-'] + hex4(
        (fnv1a(vstd::utf8::encode_utf8(owner + "/"@ + repo)) % 65536) as nat,
    )
}

pub open spec fn is_upper_hex(c: char) -> bool {
    is_ascii_digit(c) || (65 <= (c as u32) && (c as u32) <= 70)
}

fn hex_digit_char(d: u32) -> (c: char)
    requires
        d < 16,
    ensures
        c == hex_digit(d as nat),
{
    if d < 10 {
        ((48 + d) as u8) as char
    } else {
        ((55 + d) as u8) as char
    }
}

fn alnum_only(v: &Vec<char>) -> (r: Vec<char>)
    ensures
        r@ == ascii_alnum_only(v@),
{
    let mut r: Vec<char> = Vec::new();
    let mut i: usize = 0;
    while i < v.len()
        invariant
            i <= v@.len(),
            r@ == ascii_alnum_only(v@.subrange(0, i as int)),
        decreases v.len() - i,
    {
        let c = v[i];
        proof {
            assert(v@.subrange(0, i + 1).drop_last() =~= v@.subrange(0, i as int));
            assert(v@.subrange(0, i + 1).last() == c);
        }
        let u = c as u32;
        if (97 <= u && u <= 122) || (65 <= u && u <= 90) || (48 <= u && u <= 57) {
            r.push(c);
        }
        i = i + 1;
        proof {
            assert(r@ =~= ascii_alnum_only(v@.subrange(0, i as int)));
        }
    }
    proof {
        assert(v@.subrange(0, i as int) =~= v@);
    }
    r
}

proof fn lemma_alnum_only_all_alnum(s: Seq<char>)
    ensures
        forall|i: int| 0 <= i < ascii_alnum_only(s).len() ==> is_ascii_alnum(#[trigger] ascii_alnum_only(s)[i]),
    decreases s.len(),
{
    if s.len() > 0 {
        lemma_alnum_only_all_alnum(s.drop_last());
        let p = ascii_alnum_only(s.drop_last());
        let q: Seq<char> = if is_ascii_alnum(s.last()) { seq![s.last()] } else { seq![] };
        assert(ascii_alnum_only(s) == p + q);
        assert forall|i: int| 0 <= i < (p + q).len() implies is_ascii_alnum(#[trigger] (p + q)[i]) by {
            if i < p.len() {
                assert((p + q)[i] == p[i]);
            } else {
                assert((p + q)[i] == q[i - p.len()]);
            }
        }
    }
}

proof fn lemma_alnum_only_no_lower(s: Seq<char>)
    requires
        forall|i: int| 0 <= i < s.len() ==> !is_ascii_lower(#[trigger] s[i]),
    ensures
        forall|i: int| 0 <= i < ascii_alnum_only(s).len() ==> !is_ascii_lower(#[trigger] ascii_alnum_only(s)[i]),
    decreases s.len(),
{
    if s.len() > 0 {
        assert forall|i: int| 0 <= i < s.drop_last().len() implies !is_ascii_lower(#[trigger] s.drop_last()[i]) by {
            assert(s.drop_last()[i] == s[i]);
        }
        lemma_alnum_only_no_lower(s.drop_last());
        let p = ascii_alnum_only(s.drop_last());
        let q: Seq<char> = if is_ascii_alnum(s.last()) { seq![s.last()] } else { seq![] };
        assert(ascii_alnum_only(s) == p + q);
        assert forall|i: int| 0 <= i < (p + q).len() implies !is_ascii_lower(#[trigger] (p + q)[i]) by {
            if i < p.len() {
                assert((p + q)[i] == p[i]);
            } else {
                assert((p + q)[i] == q[i - p.len()]);
            }
        }
    }
}

fn fnv1a_exec(bytes: &[u8]) -> (h: u32)
    ensures
        h == fnv1a(bytes@),
{
    let mut h: u32 = FNV_OFFSET;
    let mut i: usize = 0;
    proof {
        assert(bytes@.subrange(0, 0) =~= Seq::<u8>::empty());
    }
    while i < bytes.len()
        invariant
            i <= bytes@.len(),
            h == fnv1a(bytes@.subrange(0, i as int)),
        decreases bytes.len() - i,
    {
        proof {
            assert(bytes@.subrange(0, i + 1).drop_last() =~= bytes@.subrange(0, i as int));
        }
        h = (h ^ (bytes[i] as u32)).wrapping_mul(FNV_PRIME);
        i = i + 1;
    }
    proof {
        assert(bytes@.subrange(0, i as int) =~= bytes@);
    }
    h
}

/// The deterministic case identifier of a repository, like `AXUM-1A2B`.
pub fn generate_case_id(owner: &str, repo: &str) -> (id: String)
    ensures
        id@ == case_id_spec(owner@, repo@),
        1 <= case_prefix(uppercase(repo@)).len() <= 4,
        forall|i: int| 0 <= i < case_prefix(uppercase(repo@)).len() ==> is_ascii_alnum(#[trigger] id@[i]),
        id@.len() == case_prefix(uppercase(repo@)).len() + 5,
        id@[case_prefix(uppercase(repo@)).len() as int] == '-',
        forall|i: int| case_prefix(uppercase(repo@)).len() < i < id@.len() ==> is_upper_hex(#[trigger] id@[i]),
        forall|i: int| 0 <= i < case_prefix(uppercase(repo@)).len() ==> is_ascii_upper(#[trigger] id@[i]) || is_ascii_digit(id@[i]),
        (forall|i: int| 0 <= i < repo@.len() ==> (#[trigger] repo@[i] as u32) < 0x80) ==> id@ == ascii_case_id_spec(owner@, repo@),
{
    let upper = to_uppercase(repo);
    let filtered = alnum_only(&chars_of(upper.as_str()));
    let mut id = if filtered.len() == 0 {
        String::from_str("REPO")
    } else if filtered.len() > 4 {
        crate::chars::string_of(&crate::chars::sub_vec(&filtered, 0, 4))
    } else {
        crate::chars::string_of(&filtered)
    };
    let ghost prefix = id@;
    proof {
        reveal_strlit("REPO");
        lemma_alnum_only_all_alnum(uppercase(repo@));
        assert(prefix == case_prefix(uppercase(repo@)));
        let u = uppercase(repo@);
        lemma_alnum_only_no_lower(u);
        let f = ascii_alnum_only(u);
        assert forall|i: int| 0 <= i < prefix.len() implies is_ascii_upper(#[trigger] prefix[i]) || is_ascii_digit(prefix[i]) by {
            if f.len() > 0 {
                assert(prefix[i] == f[i]);
            }
        }
    }
    let mut joined = String::from_str(owner);
    joined.append("/");
    joined.append(repo);
    let h = fnv1a_exec(joined.as_str().as_bytes());
    let low = h & 0xFFFF;
    proof {
        assert(low == h % 65536) by (bit_vector)
            requires
                low == h & 0xFFFF;
    }
    id.push('-');
    id.push(hex_digit_char((low / 4096) % 16));
    id.push(hex_digit_char((low / 256) % 16));
    id.push(hex_digit_char((low / 16) % 16));
    id.push(hex_digit_char(low % 16));
    proof {
        assert(id@ =~= case_id_spec(owner@, repo@));
        assert forall|i: int| prefix.len() < i < id@.len() implies is_upper_hex(#[trigger] id@[i]) by {
            let k = i - prefix.len() - 1;
            assert(0 <= k < 4);
        }
    }
    id
}

impl InvestigationSession {
    /// Opens an investigation of `repo`, started now.
    pub fn new(repo: RepoRef, deep: bool) -> (s: Self)
        ensures
            s.repo == repo,
            s.deep == deep,
            s.case_id@ == case_id_spec(repo.owner@, repo.repo@),
    {
        let case_id = generate_case_id(repo.owner.as_str(), repo.repo.as_str());
        let started_at_secs = crate::clock::utc_now_secs();
        InvestigationSession { repo, case_id, started_at_secs, deep }
    }
}

} // verus!
