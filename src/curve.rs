use vstd::prelude::*;

verus! {

/// The pricing curve between two pools.
pub struct Curve {}

/// New reserve of the target pool when the source pool's reserve moves from
/// `old_src` to `new_src`, both share supplies staying fixed.
///
/// With fixed share supplies, keeping the reserve-per-share ratios' product
/// is keeping the product of the two reserves. The result is the least
/// target reserve whose product with `new_src` does not fall below
/// `old_src * dst`: the rounding favours the pool. A pool without shares has
/// no price, and a result beyond 64 bits is an overflow.
pub open spec fn spec_curve(new_src: u64, old_src: u64, src_lpt: u128, dst: u64, dst_lpt: u128) -> Option<u64> {
    if new_src == 0 || src_lpt == 0 || dst_lpt == 0 {
        None
    } else {
        let v = (old_src * dst + new_src - 1) / (new_src as int);
        if v <= u64::MAX {
            Some(v as u64)
        } else {
            None
        }
    }
}

impl Curve {
    /// Prices a reserve change of one pool against another.
    pub fn curve(
        new_bid_reserve: u64,
        bid_reserve: u64,
        bid_lpt: u128,
        ask_reserve: u64,
        ask_lpt: u128,
    ) -> (r: Option<u64>)
        ensures
            r == spec_curve(new_bid_reserve, bid_reserve, bid_lpt, ask_reserve, ask_lpt),
            r matches Some(v) ==> new_bid_reserve * v >= bid_reserve * ask_reserve
                && new_bid_reserve * (v - 1) < bid_reserve * ask_reserve,
    {
        if new_bid_reserve == 0 || bid_lpt == 0 || ask_lpt == 0 {
            return None;
        }
        let a = bid_reserve as u128;
        let b = ask_reserve as u128;
        let n = new_bid_reserve as u128;
        proof {
            assert(a * b <= 0xffff_ffff_ffff_ffff * 0xffff_ffff_ffff_ffffu128) by (nonlinear_arith)
                requires
                    a <= 0xffff_ffff_ffff_ffff,
                    b <= 0xffff_ffff_ffff_ffff,
            ;
        }
        let dividend = a * b + (n - 1);
        let v = dividend / n;
        proof {
            let p: int = a * b;
            let nn: int = n as int;
            assert(v * nn <= p + nn - 1 && p + nn - 1 < v * nn + nn) by (nonlinear_arith)
                requires
                    v == (p + nn - 1) / nn,
                    nn > 0,
            ;
            assert(nn * v >= p && nn * (v - 1) < p) by (nonlinear_arith)
                requires
                    v * nn <= p + nn - 1,
                    p + nn - 1 < v * nn + nn,
            ;
        }
        if v > 0xffff_ffff_ffff_ffffu128 {
            return None;
        }
        Some(v as u64)
    }
}

} // verus!
