use vstd::prelude::*;

verus! {

/// A team colour as configured, one signed channel value each.
#[derive(Clone, Copy, Debug, PartialEq, Eq, Structural)]
pub struct RGB {
    pub r: i16,
    pub g: i16,
    pub b: i16,
}

/// `num` raised to at least `min`, then lowered to at most `max`.
pub open spec fn spec_clamp(num: int, min: int, max: int) -> int {
    let raised = if num < min {
        min
    } else {
        num
    };
    if raised > max {
        max
    } else {
        raised
    }
}

pub fn clamp(num: i16, min: i16, max: i16) -> (r: i16)
    ensures
        r == spec_clamp(num as int, min as int, max as int),
        min <= max ==> min <= r <= max,
{
    let raised = if num < min {
        min
    } else {
        num
    };
    if raised > max {
        max
    } else {
        raised
    }
}

/// The hue window, clamped to 0..=180, around a hue `h`: the bounds that
/// the image filter keeps for a team colour.
pub fn hue_window(h: i16, threshold: i16) -> (r: (u8, u8))
    requires
        0 <= threshold <= 180,
        0 <= h <= 180,
    ensures
        r.0 as int == spec_clamp(h - threshold, 0, 180),
        r.1 as int == spec_clamp(h + threshold, 0, 180),
{
    (clamp(h - threshold, 0, 180) as u8, clamp(h + threshold, 0, 180) as u8)
}

} // verus!
