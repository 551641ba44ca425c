//! Shares of a count (`part` of `whole`), the exact form of every percentage the
//! report shows.

use vstd::prelude::*;

verus! {

/// `part` of `whole`; a `whole` of 0 means nothing was counted, and the share is 0.
#[derive(Debug, Clone, Copy, PartialEq, Eq, Structural)]
pub struct Share {
    pub part: u64,
    pub whole: u64,
}

/// `n` of `total` in hundredths of a percent, rounded down; 0 of nothing.
pub open spec fn share_bp(n: nat, total: nat) -> int {
    if total == 0 { 0 } else { (n * 10000 / total) as int }
}

/// The share in hundredths of a percent, rounded down. A percentage threshold `T`
/// (a whole number of percent) is reached exactly when this is at least `100 * T`.
pub open spec fn basis_points(s: Share) -> int {
    share_bp(s.part as nat, s.whole as nat)
}

/// The share in tenths of a percent, rounded to the nearest tenth, a tie going to
/// the even tenth; 0 of nothing.
pub open spec fn tenths(s: Share) -> nat {
    if s.whole == 0 {
        0
    } else {
        let x: nat = (s.part as nat) * 1000;
        let w: nat = s.whole as nat;
        let q: nat = x / w;
        let r: nat = x % w;
        if 2 * r > w || (2 * r == w && q % 2 == 1) { q + 1 } else { q }
    }
}

impl Share {
    /// The share in hundredths of a percent, rounded down.
    pub fn bp(&self) -> (r: u128)
        ensures
            r == basis_points(*self),
    {
        if self.whole == 0 {
            0
        } else {
            proof {
                assert(self.part as int * 10000 <= 0xffff_ffff_ffff_ffff * 10000) by (nonlinear_arith)
                    requires
                        self.part <= 0xffff_ffff_ffff_ffff,
                ;
            }
            (self.part as u128 * 10000) / (self.whole as u128)
        }
    }

    /// The share in tenths of a percent, rounded half to even.
    pub fn tenths(&self) -> (r: u128)
        ensures
            r == tenths(*self),
    {
        if self.whole == 0 {
            0
        } else {
            proof {
                assert(self.part as int * 1000 <= 0xffff_ffff_ffff_ffff * 1000) by (nonlinear_arith)
                    requires
                        self.part <= 0xffff_ffff_ffff_ffff,
                ;
            }
            let w = self.whole as u128;
            let x = self.part as u128 * 1000;
            let q = x / w;
            let r = x % w;
            if 2 * r > w || (2 * r == w && q % 2 == 1) { q + 1 } else { q }
        }
    }
}

/// How a share of something is shown: its hundredths of a percent are the largest
/// that do not exceed it, and its tenths of a percent lie within half a tenth of it.
pub proof fn law_share_rounding(s: Share)
    requires
        s.whole > 0,
    ensures
        basis_points(s) * s.whole <= s.part * 10000 < (basis_points(s) + 1) * s.whole,
        2 * (tenths(s) * s.whole - s.part * 1000) <= s.whole,
        2 * (s.part * 1000 - tenths(s) * s.whole) <= s.whole,
{
    let w: int = s.whole as int;
    let y: int = (s.part as int) * 10000;
    vstd::arithmetic::div_mod::lemma_fundamental_div_mod(y, w);
    assert(0 <= y % w < w) by {
        vstd::arithmetic::div_mod::lemma_mod_bound(y, w);
    }
    assert((y / w) * w <= y < (y / w + 1) * w) by (nonlinear_arith)
        requires
            y == w * (y / w) + (y % w),
            0 <= y % w < w,
    ;
    let x: int = (s.part as int) * 1000;
    vstd::arithmetic::div_mod::lemma_fundamental_div_mod(x, w);
    assert(0 <= x % w < w) by {
        vstd::arithmetic::div_mod::lemma_mod_bound(x, w);
    }
    let q = x / w;
    let r = x % w;
    assert(q * w == x - r) by (nonlinear_arith)
        requires
            x == w * q + r,
    ;
    assert((q + 1) * w == x - r + w) by (nonlinear_arith)
        requires
            q * w == x - r,
    ;
}

} // verus!
