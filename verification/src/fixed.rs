//! Fixed-point arithmetic helpers: the number of fixed-point ticks per world
//! unit, a linear range remap, and an integer square root.

use vstd::prelude::*;

verus! {

/// Fixed-point ticks per world unit.
pub const SCALE: i64 = 1000;

/// Linearly remaps `num` from the range `[in_min, in_max]` onto
/// `[out_min, out_max]`, truncating the intermediate quotient toward zero.
pub fn map_range(num: i64, in_min: i64, in_max: i64, out_min: i64, out_max: i64) -> (r: i64)
    requires
        in_min < in_max,
        in_min <= num,
        out_min <= out_max,
        in_max - in_min <= i64::MAX,
        out_max - out_min <= i64::MAX,
        num - in_min <= i64::MAX,
        (num - in_min) * (out_max - out_min) <= i64::MAX,
        out_min + (num - in_min) * (out_max - out_min) / (in_max - in_min) <= i64::MAX,
    ensures
        r == (num - in_min) * (out_max - out_min) / (in_max - in_min) + out_min,
{
    let spread_in = in_max - in_min;
    let spread_out = out_max - out_min;
    let shifted = num - in_min;
    assert(shifted * spread_out >= 0) by (nonlinear_arith)
        requires shifted >= 0 && spread_out >= 0;
    let scaled = shifted * spread_out;
    assert(scaled / spread_in >= 0 && scaled / spread_in <= scaled) by (nonlinear_arith)
        requires scaled >= 0 && spread_in >= 1;
    scaled / spread_in + out_min
}

/// True when `r` is the square root of `n` rounded down to an integer.
pub open spec fn is_floor_sqrt(n: int, r: int) -> bool {
    0 <= r && r * r <= n && n < (r + 1) * (r + 1)
}

/// The square root of `n`, rounded down to an integer.
pub open spec fn floor_sqrt(n: int) -> int {
    choose|r: int| is_floor_sqrt(n, r)
}

/// The rounded-down square root is unique.
pub proof fn lemma_floor_sqrt_unique(n: int, r: int)
    requires
        n >= 0,
        is_floor_sqrt(n, r),
    ensures
        r == floor_sqrt(n),
{
    let c = floor_sqrt(n);
    assert(is_floor_sqrt(n, c));
    assert(r == c) by (nonlinear_arith)
        requires is_floor_sqrt(n, r) && is_floor_sqrt(n, c);
}

/// Integer square root by binary search, rounded down.
pub fn isqrt(n: u64) -> (r: u64)
    ensures
        is_floor_sqrt(n as int, r as int),
        r as int == floor_sqrt(n as int),
{
    let mut lo: u64 = 0;
    let mut hi: u64 = 0x1_0000_0000;
    assert((n as int) < 0x1_0000_0000 * 0x1_0000_0000);
    while lo + 1 < hi
        invariant
            lo < hi,
            hi <= 0x1_0000_0000,
            (lo as int) * (lo as int) <= n as int,
            (n as int) < (hi as int) * (hi as int),
        decreases hi - lo,
    {
        let mid = lo + (hi - lo) / 2;
        assert((mid as int) * (mid as int) <= 0xffff_ffff * 0xffff_ffff) by (nonlinear_arith)
            requires mid <= 0xffff_ffffu64;
        if mid * mid <= n {
            lo = mid;
        } else {
            hi = mid;
        }
    }
    proof {
        assert(hi == lo + 1);
        lemma_floor_sqrt_unique(n as int, lo as int);
    }
    lo
}

} // verus!
