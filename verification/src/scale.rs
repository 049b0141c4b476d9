//! Sizes under a fractional display scale.
//!
//! The compositor states its preferred scale in 120ths: 120 stands for 1.0,
//! 180 for 1.5, 240 for 2.0. A surface that is to cover `n` buffer pixels at
//! that scale asks for `n * 120 / scale` logical pixels, rounded up so that
//! no buffer pixel is left without room.

use vstd::prelude::*;

verus! {

/// The scale that stands for 1.0.
pub const SCALE_UNIT: u32 = 120;

/// The largest extent that both a surface size and a viewport can carry.
pub const MAX_EXTENT: u32 = 0x7FFF_FFFF;

/// `extent * 120 / scale120`, rounded up.
pub open spec fn scaled(extent: nat, scale120: nat) -> nat
    recommends
        scale120 > 0,
{
    ((extent * 120 + scale120 - 1) / (scale120 as int)) as nat
}

/// The logical extent of `extent` buffer pixels at scale `scale120`: the
/// quotient rounded up, or nothing where the scale is zero or the result is
/// more than a viewport can carry.
pub fn scaled_extent(extent: u32, scale120: u32) -> (r: Option<u32>)
    ensures
        r is Some <==> scale120 > 0 && scaled(extent as nat, scale120 as nat) <= MAX_EXTENT,
        r matches Some(v) ==> {
            &&& v == scaled(extent as nat, scale120 as nat)
            &&& v * scale120 >= extent * 120
            &&& v > 0 ==> (v - 1) * scale120 < extent * 120
        },
{
    if scale120 == 0 {
        return None;
    }
    proof {
        lemma_scaled_is_ceiling(extent as nat, scale120 as nat);
    }
    let numerator: u64 = extent as u64 * 120 + (scale120 as u64 - 1);
    let quotient: u64 = numerator / scale120 as u64;
    if quotient > MAX_EXTENT as u64 {
        None
    } else {
        Some(quotient as u32)
    }
}

/// The scaled extent is the least number of logical pixels that, taken at
/// the scale, cover the buffer pixels.
pub proof fn lemma_scaled_is_ceiling(extent: nat, scale120: nat)
    requires
        scale120 > 0,
    ensures
        scaled(extent, scale120) * scale120 >= extent * 120,
        extent > 0 ==> (scaled(extent, scale120) - 1) * scale120 < extent * 120,
        extent == 0 ==> scaled(extent, scale120) == 0,
{
    let n = (extent * 120 + scale120 - 1) as int;
    let d = scale120 as int;
    let q = n / d;
    assert(n == d * q + n % d && 0 <= n % d < d) by (nonlinear_arith)
        requires
            d > 0,
            q == n / d,
    ;
    assert((q - 1) * d == q * d - d) by (nonlinear_arith);
}

/// Where the scale divides evenly nothing is rounded.
pub proof fn lemma_scaled_exact(extent: nat, scale120: nat, quotient: nat)
    requires
        scale120 > 0,
        extent * 120 == quotient * scale120,
    ensures
        scaled(extent, scale120) == quotient,
{
    let d = scale120 as int;
    let k = quotient as int;
    assert((k * d + d - 1) / d == k) by (nonlinear_arith)
        requires
            d > 0,
            k >= 0,
    ;
}

} // verus!
