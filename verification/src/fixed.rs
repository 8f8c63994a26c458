use vstd::prelude::*;
use crate::scene::{coord_ok, UNITS_PER_PIXEL};

verus! {

/// `v / 2`, rounded down.
pub fn half(v: i64) -> (r: i64)
    ensures
        r == v / 2,
{
    if v >= 0 {
        v / 2
    } else {
        -((-(v + 1)) / 2) - 1
    }
}

/// `v / 5`, rounded down.
pub fn fifth(v: i64) -> (r: i64)
    ensures
        r == v / 5,
{
    if v >= 0 {
        v / 5
    } else {
        -((-(v + 1)) / 5) - 1
    }
}

/// Four tenths of `v`, rounded down.
pub fn two_fifths(v: i64) -> (r: i64)
    requires
        coord_ok(v as int),
    ensures
        r == (2 * v) / 5,
{
    fifth(2 * v)
}

/// The whole pixels in a length, as a float-to-integer cast gives them:
/// the fraction is dropped, a negative length gives 0 and a length beyond the
/// range of `u32` gives its largest value.
pub open spec fn whole_pixels(v: int) -> u32 {
    if v < 0 {
        0
    } else if v / (UNITS_PER_PIXEL as int) > u32::MAX {
        u32::MAX
    } else {
        (v / (UNITS_PER_PIXEL as int)) as u32
    }
}

/// The whole pixels in a length.
pub fn to_pixels(v: i64) -> (pixels: u32)
    ensures
        pixels == whole_pixels(v as int),
{
    if v < 0 {
        0
    } else if v / UNITS_PER_PIXEL > 0xffff_ffff {
        0xffff_ffff
    } else {
        (v / UNITS_PER_PIXEL) as u32
    }
}

} // verus!
