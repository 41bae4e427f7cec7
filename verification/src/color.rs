use vstd::prelude::*;

verus! {

/// One pixel or reference color: red, green and blue, eight bits each.
#[derive(Clone, Copy, PartialEq, Eq, Structural, Debug)]
pub struct Rgb {
    pub r: u8,
    pub g: u8,
    pub b: u8,
}

/// A relative tolerance, the fraction num / den (one tenth is 1 / 10).
#[derive(Clone, Copy, PartialEq, Eq, Structural, Debug)]
pub struct Tolerance {
    pub num: u32,
    pub den: u32,
}

/// The absolute difference |a - b| over the integers.
pub open spec fn chan_diff(a: int, b: int) -> int {
    if a >= b {
        a - b
    } else {
        b - a
    }
}

/// One channel lies strictly within the relative tolerance of its target
/// channel: |pixel - target| < (num / den) * target, written without a
/// division as den * |pixel - target| < num * target.
pub open spec fn spec_channel_within(p: int, t: int, tol: Tolerance) -> bool {
    tol.den * chan_diff(p, t) < tol.num * t
}

/// The color-matching rule: each of the three channels, independently,
/// must lie strictly within the relative tolerance of the target channel,
/// and all three checks must pass. This is a per-channel test, not a
/// distance metric.
pub open spec fn spec_is_target(pixel: Rgb, target: Rgb, tol: Tolerance) -> bool {
    &&& spec_channel_within(pixel.r as int, target.r as int, tol)
    &&& spec_channel_within(pixel.g as int, target.g as int, tol)
    &&& spec_channel_within(pixel.b as int, target.b as int, tol)
}

/// One channel's tolerance check, in 64-bit arithmetic that cannot
/// overflow: both products stay below 2^40.
fn channel_within(p: u8, t: u8, tol: Tolerance) -> (r: bool)
    ensures
        r == spec_channel_within(p as int, t as int, tol),
{
    let diff: u64 = if p >= t {
        (p - t) as u64
    } else {
        (t - p) as u64
    };
    proof {
        assert((tol.den as int) * (diff as int) <= 0xffff_ffff * 0xff)
            by (nonlinear_arith)
            requires
                tol.den <= 0xffff_ffffu32,
                diff <= 0xffu64,
        ;
        assert((tol.num as int) * (t as int) <= 0xffff_ffff * 0xff)
            by (nonlinear_arith)
            requires
                tol.num <= 0xffff_ffffu32,
                t <= 0xffu8,
        ;
    }
    let lhs: u64 = (tol.den as u64) * diff;
    let rhs: u64 = (tol.num as u64) * (t as u64);
    lhs < rhs
}

/// Decides whether a pixel's color matches the target color within the
/// relative tolerance, channel by channel.
pub fn is_target(pixel: Rgb, target: Rgb, tol: Tolerance) -> (r: bool)
    ensures
        r == spec_is_target(pixel, target, tol),
{
    channel_within(pixel.r, target.r, tol) && channel_within(pixel.g, target.g, tol)
        && channel_within(pixel.b, target.b, tol)
}

/// A pixel whose color equals the target exactly is accepted under every
/// positive tolerance, provided no target channel is zero: a zero target
/// channel admits no pixel at all, since no difference is strictly below
/// num * 0.
pub proof fn lemma_exact_match_is_target(c: Rgb, tol: Tolerance)
    requires
        tol.num >= 1,
        c.r >= 1,
        c.g >= 1,
        c.b >= 1,
    ensures
        spec_is_target(c, c, tol),
{
    assert((tol.num as int) * (c.r as int) >= 1) by (nonlinear_arith)
        requires
            tol.num >= 1,
            c.r >= 1,
    ;
    assert((tol.num as int) * (c.g as int) >= 1) by (nonlinear_arith)
        requires
            tol.num >= 1,
            c.g >= 1,
    ;
    assert((tol.num as int) * (c.b as int) >= 1) by (nonlinear_arith)
        requires
            tol.num >= 1,
            c.b >= 1,
    ;
}

/// A single channel that differs from its target by at least the
/// tolerance share of that target defeats the whole match, whatever the
/// other two channels hold.
pub proof fn lemma_channel_breaks_match(pixel: Rgb, target: Rgb, tol: Tolerance)
    requires
        ({
            ||| tol.den * chan_diff(pixel.r as int, target.r as int) >= tol.num * target.r
            ||| tol.den * chan_diff(pixel.g as int, target.g as int) >= tol.num * target.g
            ||| tol.den * chan_diff(pixel.b as int, target.b as int) >= tol.num * target.b
        }),
    ensures
        !spec_is_target(pixel, target, tol),
{
}

} // verus!
