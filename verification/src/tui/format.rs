//! Formatting of values for the report.

use vstd::prelude::*;
use vstd::string::*;
use crate::text::{dec_nat, dec_int, nat_text, chars_of, push_int};
use crate::clock::{month_year_text, month_year};
use crate::share::Share;

verus! {

/// `n` copies of `c`.
pub open spec fn repeat(c: char, n: nat) -> Seq<char> {
    Seq::new(n, |i: int| c)
}

/// How many of `width` cells a share fills: the share, clamped to 0..=1, times the
/// width, rounded half up; none for a share of nothing.
pub open spec fn filled_cells(fraction: Share, width: nat) -> nat {
    if fraction.whole == 0 {
        0
    } else {
        let w: nat = fraction.whole as nat;
        let q: nat = (if fraction.part > fraction.whole { w } else { fraction.part as nat }) * width;
        q / w + (if 2 * (q % w) >= w { 1nat } else { 0nat })
    }
}

/// A bar of `width` cells: the filled ones `█`, then the empty ones `░`.
pub open spec fn ascii_bar_spec(fraction: Share, width: nat) -> Seq<char> {
    repeat('█', filled_cells(fraction, width)) + repeat('░', (width - filled_cells(fraction, width)) as nat)
}

proof fn lemma_filled_le_width(p: nat, w: nat, width: nat)
    requires
        w >= 1,
        p <= w,
    ensures
        (p * width) / w + (if 2 * ((p * width) % w) >= w { 1nat } else { 0nat }) <= width,
{
    let q = p * width;
    if p == w {
        assert(q == w * width) by (nonlinear_arith)
            requires
                q == p * width,
                p == w,
        ;
        assert(q / w == width && q % w == 0) by (nonlinear_arith)
            requires
                q == w * width,
                w >= 1,
        ;
    } else {
        assert(q <= (w - 1) * width) by (nonlinear_arith)
            requires
                q == p * width,
                p <= w - 1,
        ;
        if width == 0 {
            assert(q == 0);
            assert(q / w == 0 && q % w == 0) by (nonlinear_arith)
                requires
                    q == 0,
                    w >= 1,
            ;
        } else {
            assert(q / w < width) by (nonlinear_arith)
                requires
                    q <= (w - 1) * width,
                    w >= 1,
                    width >= 1,
            ;
        }
    }
}

/// A bar's filled cells are the nearest whole number to the share (clamped to the
/// whole) times the width: within half a cell of it, and never more than the width;
/// a share of nothing fills none.
pub proof fn law_bar_nearest(fraction: Share, width: nat)
    ensures
        filled_cells(fraction, width) <= width,
        fraction.whole == 0 ==> filled_cells(fraction, width) == 0,
        fraction.whole > 0 ==> ({
            let w = fraction.whole as int;
            let p = if fraction.part > fraction.whole { w } else { fraction.part as int };
            let n = filled_cells(fraction, width) as int;
            &&& 2 * (n * w - p * width) <= w
            &&& 2 * (p * width - n * w) < w
        }),
{
    if fraction.whole > 0 {
        let w: nat = fraction.whole as nat;
        let p: nat = if fraction.part > fraction.whole { w } else { fraction.part as nat };
        lemma_filled_le_width(p, w, width);
        let q: nat = p * width;
        let qi: int = q as int;
        let wi: int = w as int;
        vstd::arithmetic::div_mod::lemma_fundamental_div_mod(qi, wi);
        vstd::arithmetic::div_mod::lemma_mod_bound(qi, wi);
        assert((qi / wi) * wi == qi - qi % wi) by (nonlinear_arith)
            requires
                qi == wi * (qi / wi) + qi % wi,
        ;
        assert((qi / wi + 1) * wi == qi - qi % wi + wi) by (nonlinear_arith)
            requires
                (qi / wi) * wi == qi - qi % wi,
        ;
    }
}

/// A bar of `width` cells filled in proportion to `fraction` (a whole share fills
/// it).
pub fn ascii_bar(fraction: Share, width: usize) -> (s: String)
    ensures
        s@ == ascii_bar_spec(fraction, width as nat),
        s@.len() == width,
{
    let filled: usize = if fraction.whole == 0 {
        0
    } else {
        let w = fraction.whole as u128;
        let p: u128 = if fraction.part > fraction.whole { w } else { fraction.part as u128 };
        proof {
            lemma_filled_le_width(p as nat, w as nat, width as nat);
            assert(p * (width as u128) <= 0xffff_ffff_ffff_ffff * 0xffff_ffff_ffff_ffff) by (nonlinear_arith)
                requires
                    p <= 0xffff_ffff_ffff_ffff,
                    width <= 0xffff_ffff_ffff_ffff,
            ;
        }
        let q = p * (width as u128);
        let bump: u128 = if 2 * (q % w) >= w { 1 } else { 0 };
        (q / w + bump) as usize
    };
    let mut s = String::new();
    let mut i: usize = 0;
    while i < filled
        invariant
            i <= filled <= width,
            s@ == repeat('█', i as nat),
        decreases filled - i,
    {
        s.push('█');
        i = i + 1;
        proof {
            assert(s@ =~= repeat('█', i as nat));
        }
    }
    let mut j: usize = 0;
    while j < width - filled
        invariant
            filled <= width,
            j <= width - filled,
            s@ == repeat('█', filled as nat) + repeat('░', j as nat),
        decreases width - filled - j,
    {
        s.push('░');
        j = j + 1;
        proof {
            assert(s@ =~= repeat('█', filled as nat) + repeat('░', j as nat));
        }
    }
    s
}

/// The digits of `s` up to `i`, with a `,` before every digit that has a multiple of
/// three digits after it (and is not the first).
pub open spec fn group3(s: Seq<char>, i: nat) -> Seq<char>
    decreases i,
{
    if i == 0 {
        seq![]
    } else {
        let k = (i - 1) as nat;
        group3(s, k) + (if k > 0 && (s.len() - k) % 3 == 0 { seq![','] } else { seq![] }) + seq![s[k as int]]
    }
}

/// The decimal rendering of `n` with thousands separated by commas.
pub open spec fn thousands_spec(n: nat) -> Seq<char> {
    group3(dec_nat(n), dec_nat(n).len())
}

/// `s` without its commas.
pub open spec fn strip_commas(s: Seq<char>) -> Seq<char>
    decreases s.len(),
{
    if s.len() == 0 {
        seq![]
    } else {
        strip_commas(s.drop_last()) + (if s.last() == ',' { seq![] } else { seq![s.last()] })
    }
}

proof fn lemma_strip_commas_add(a: Seq<char>, b: Seq<char>)
    ensures
        strip_commas(a + b) == strip_commas(a) + strip_commas(b),
    decreases b.len(),
{
    if b.len() == 0 {
        assert(a + b =~= a);
        assert(strip_commas(a) + strip_commas(b) =~= strip_commas(a));
    } else {
        assert((a + b).drop_last() =~= a + b.drop_last());
        lemma_strip_commas_add(a, b.drop_last());
        assert(strip_commas(a + b) =~= strip_commas(a) + strip_commas(b));
    }
}

proof fn lemma_dec_nat_digits(n: nat)
    ensures
        forall|i: int| 0 <= i < dec_nat(n).len() ==> (#[trigger] dec_nat(n)[i]) != ',',
        dec_nat(n).len() >= 1,
    decreases n,
{
    if n >= 10 {
        lemma_dec_nat_digits(n / 10);
    }
}

proof fn lemma_group3_strip(s: Seq<char>, i: nat)
    requires
        i <= s.len(),
        forall|k: int| 0 <= k < s.len() ==> (#[trigger] s[k]) != ',',
    ensures
        strip_commas(group3(s, i)) == s.subrange(0, i as int),
    decreases i,
{
    if i > 0 {
        let k = (i - 1) as nat;
        lemma_group3_strip(s, k);
        let sep: Seq<char> = if k > 0 && (s.len() - k) % 3 == 0 { seq![','] } else { seq![] };
        lemma_strip_commas_add(group3(s, k) + sep, seq![s[k as int]]);
        lemma_strip_commas_add(group3(s, k), sep);
        assert(strip_commas(Seq::<char>::empty()) =~= Seq::<char>::empty());
        assert(strip_commas(sep) =~= Seq::<char>::empty()) by {
            if sep.len() > 0 {
                assert(sep.drop_last() =~= Seq::<char>::empty());
                assert(sep.last() == ',');
            }
        }
        assert(seq![s[k as int]].drop_last() =~= Seq::<char>::empty());
        assert(strip_commas(seq![s[k as int]]) =~= seq![s[k as int]]);
        assert(s.subrange(0, i as int) =~= s.subrange(0, k as int) + seq![s[k as int]]);
    }
}

/// Dropping the separators of [`thousands`] gives back the plain decimal rendering.
pub proof fn law_thousands_strip(n: nat)
    ensures
        strip_commas(thousands_spec(n)) == dec_nat(n),
{
    lemma_dec_nat_digits(n);
    lemma_group3_strip(dec_nat(n), dec_nat(n).len());
    assert(dec_nat(n).subrange(0, dec_nat(n).len() as int) =~= dec_nat(n));
}

/// `n` in decimal with a comma between groups of three digits, like `12,442`.
pub fn thousands(n: u64) -> (r: String)
    ensures
        r@ == thousands_spec(n as nat),
        strip_commas(r@) == dec_nat(n as nat),
{
    let s = nat_text(n);
    let digits = chars_of(s.as_str());
    let len = digits.len();
    let mut result = String::new();
    let mut i: usize = 0;
    while i < len
        invariant
            i <= len,
            len == digits@.len(),
            digits@ == dec_nat(n as nat),
            result@ == group3(digits@, i as nat),
        decreases len - i,
    {
        if i > 0 && (len - i) % 3 == 0 {
            result.push(',');
        }
        result.push(digits[i]);
        proof {
            assert(result@ =~= group3(digits@, (i + 1) as nat));
        }
        i = i + 1;
    }
    proof {
        law_thousands_strip(n as nat);
    }
    result
}

/// The dash shown for a missing value.
pub open spec fn dash() -> Seq<char> {
    "—"@
}

/// `f` of the value when there is one, else a dash.
pub fn dash_or<T>(opt: Option<T>, f: impl FnOnce(T) -> String) -> (r: String)
    requires
        opt matches Some(v) ==> call_requires(f, (v,)),
    ensures
        opt matches Some(v) ==> call_ensures(f, (v,), r),
        opt is None ==> r@ == dash(),
{
    match opt {
        Some(val) => f(val),
        None => String::from_str("—"),
    }
}

/// How long ago `then_secs` was at `now_secs`, in words; beyond two years, the month
/// and year of `then_secs` as `chrono` renders them.
pub open spec fn relative_date_spec(now_secs: i64, then_secs: i64) -> Seq<char> {
    let d = now_secs - then_secs;
    if d > 730 * 86400 && month_year_text(then_secs) is Some {
        month_year_text(then_secs)->0
    } else if d < 60 {
        "just now"@
    } else if d < 3600 {
        dec_int(d / 60) + " min ago"@
    } else if d < 86400 {
        dec_int(d / 3600) + " hours ago"@
    } else if d < 30 * 86400 {
        dec_int(d / 86400) + " days ago"@
    } else if d < 365 * 86400 {
        dec_int(d / 2592000int) + " months ago"@
    } else {
        dec_int(d / 31536000int) + " years ago"@
    }
}

/// `n` whole units of `unit` seconds fit in `d` seconds: `n` times `unit` is at most
/// `d`, and one unit more exceeds it.
pub open spec fn whole_units(d: int, unit: int, n: int) -> bool {
    n * unit <= d < n * unit + unit
}

/// How long ago, in words, by the time `d` between the two instants: under a minute
/// (or in the future) "just now"; then the whole minutes under an hour, the whole
/// hours under a day, the whole days under 30 days, the whole 30-day months under 365
/// days and the whole 365-day years beyond; but more than 730 days ago, the month and
/// year of the earlier instant wherever `chrono` has a date for it.
pub proof fn law_relative_date(now_secs: i64, then_secs: i64)
    ensures
        ({
            let d = now_secs - then_secs;
            let r = relative_date_spec(now_secs, then_secs);
            let absolute = d > 730 * 86400 && month_year_text(then_secs) is Some;
            &&& absolute ==> r == month_year_text(then_secs)->0
            &&& !absolute && d < 60 ==> r == "just now"@
            &&& !absolute && 60 <= d < 3600 ==> exists|n: int| whole_units(d, 60, n) && r == dec_int(n) + " min ago"@
            &&& !absolute && 3600 <= d < 86400 ==> exists|n: int| whole_units(d, 3600, n) && r == dec_int(n) + " hours ago"@
            &&& !absolute && 86400 <= d < 30 * 86400 ==> exists|n: int| whole_units(d, 86400, n) && r == dec_int(n) + " days ago"@
            &&& !absolute && 30 * 86400 <= d < 365 * 86400 ==> exists|n: int| whole_units(d, 2592000int, n)
                && r == dec_int(n) + " months ago"@
            &&& !absolute && d >= 365 * 86400 ==> exists|n: int| whole_units(d, 31536000int, n)
                && r == dec_int(n) + " years ago"@
        }),
{
    let d: int = now_secs - then_secs;
    if d >= 0 {
        assert(whole_units(d, 60, d / 60)) by (nonlinear_arith) requires d >= 0;
        assert(whole_units(d, 3600, d / 3600)) by (nonlinear_arith) requires d >= 0;
        assert(whole_units(d, 86400, d / 86400)) by (nonlinear_arith) requires d >= 0;
        assert(whole_units(d, 2592000int, d / 2592000int)) by (nonlinear_arith) requires d >= 0;
        assert(whole_units(d, 31536000int, d / 31536000int)) by (nonlinear_arith) requires d >= 0;
    }
}

/// How long ago `then_secs` was, seen from `now_secs`.
pub fn relative_date(now_secs: i64, then_secs: i64) -> (r: String)
    requires
        i64::MIN <= now_secs - then_secs <= i64::MAX,
    ensures
        r@ == relative_date_spec(now_secs, then_secs),
{
    let d: i64 = now_secs - then_secs;
    if d > 730 * 86400 {
        match month_year(then_secs) {
            Some(s) => {
                return s;
            },
            None => {},
        }
    }
    if d < 60 {
        String::from_str("just now")
    } else {
        let (q, unit) = if d < 3600 {
            (d / 60, " min ago")
        } else if d < 86400 {
            (d / 3600, " hours ago")
        } else if d < 30 * 86400 {
            (d / 86400, " days ago")
        } else if d < 365 * 86400 {
            (d / (30 * 86400), " months ago")
        } else {
            (d / (365 * 86400), " years ago")
        };
        let mut s = String::new();
        push_int(&mut s, q);
        s.append(unit);
        proof {
            assert(s@ =~= relative_date_spec(now_secs, then_secs));
        }
        s
    }
}

} // verus!
