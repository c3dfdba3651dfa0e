use vstd::prelude::*;

verus! {

/// `p / q` rounded to the nearest integer, halves rounding up.
pub open spec fn round_div(p: nat, q: nat) -> nat
    recommends
        q > 0,
{
    p / q + if 2 * (p % q) >= q {
        1nat
    } else {
        0nat
    }
}

/// `x` as a pixel count, saturating at the largest one.
pub open spec fn saturate(x: nat) -> u32 {
    if x > u32::MAX {
        u32::MAX
    } else {
        x as u32
    }
}

/// A negotiated dimension as a pixel count; negative counts as zero.
pub open spec fn natural(x: i32) -> nat {
    if x < 0 {
        0
    } else {
        x as nat
    }
}

/// The size to display a `width` x `height` video at, given optional width
/// and height overrides. With both overrides they are the size; with one, the
/// other side follows the natural aspect ratio, rounded to the nearest pixel
/// (a natural height of zero counts as a square aspect, a natural width of
/// zero keeps the natural height); with none, the natural size.
pub open spec fn display_size_of(
    width: i32,
    height: i32,
    width_override: Option<u32>,
    height_override: Option<u32>,
) -> (u32, u32) {
    let nw = natural(width);
    let nh = natural(height);
    match (width_override, height_override) {
        (Some(w), Some(h)) => (w, h),
        (Some(w), None) => (
            w,
            if nh == 0 {
                w
            } else if nw == 0 {
                nh as u32
            } else {
                saturate(round_div(w as nat * nh, nw))
            },
        ),
        (None, Some(h)) => (
            if nh == 0 {
                h
            } else {
                saturate(round_div(h as nat * nw, nh))
            },
            h,
        ),
        (None, None) => (nw as u32, nh as u32),
    }
}

/// `x * num / den`, rounded to the nearest integer and saturated to a pixel
/// count.
fn scale(x: u32, num: u32, den: u32) -> (r: u32)
    requires
        den > 0,
    ensures
        r == saturate(round_div(x as nat * num as nat, den as nat)),
{
    assert(x as u64 * num as u64 <= u32::MAX as u64 * u32::MAX as u64) by (nonlinear_arith);
    let p: u64 = x as u64 * num as u64;
    let q: u64 = den as u64;
    let quot: u64 = p / q;
    let rem: u64 = p % q;
    assert(quot <= p) by (nonlinear_arith)
        requires
            quot == p / q,
            q > 0,
    ;
    let rounded: u64 = if 2 * rem >= q {
        quot + 1
    } else {
        quot
    };
    if rounded > u32::MAX as u64 {
        u32::MAX
    } else {
        rounded as u32
    }
}

/// Computes [`display_size_of`].
pub fn display_size(
    width: i32,
    height: i32,
    width_override: Option<u32>,
    height_override: Option<u32>,
) -> (r: (u32, u32))
    ensures
        r == display_size_of(width, height, width_override, height_override),
{
    let nw: u32 = if width < 0 {
        0
    } else {
        width as u32
    };
    let nh: u32 = if height < 0 {
        0
    } else {
        height as u32
    };
    match (width_override, height_override) {
        (Some(w), Some(h)) => (w, h),
        (Some(w), None) => {
            let h = if nh == 0 {
                w
            } else if nw == 0 {
                nh
            } else {
                scale(w, nh, nw)
            };
            (w, h)
        },
        (None, Some(h)) => {
            let w = if nh == 0 {
                h
            } else {
                scale(h, nw, nh)
            };
            (w, h)
        },
        (None, None) => (nw, nh),
    }
}

} // verus!
