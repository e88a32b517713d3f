use vstd::prelude::*;

verus! {

/// Micro-units in one world unit.
pub const MICROS_PER_UNIT: i64 = 1_000_000;

/// The value fits in an `i64`.
pub open spec fn fits_i64(v: int) -> bool {
    i64::MIN <= v <= i64::MAX
}

/// An axis-aligned rectangle: its centre and its full width and height.
#[derive(Clone, Copy, Debug, PartialEq, Eq, Structural)]
pub struct Rect {
    pub x: i64,
    pub y: i64,
    pub w: i64,
    pub h: i64,
}

/// The closed interval of centre `c` and length `s`, and that of centre `d`
/// and length `t`, share a point. Both are scaled by two so that their ends
/// `2c - s` and `2c + s` are integers.
pub open spec fn spans_meet(c: int, s: int, d: int, t: int) -> bool {
    &&& 2 * c - s <= 2 * d + t
    &&& 2 * d - t <= 2 * c + s
}

/// The two rectangles, taken as closed sets, share a point.
pub open spec fn overlap(a: Rect, b: Rect) -> bool {
    &&& spans_meet(a.x as int, a.w as int, b.x as int, b.w as int)
    &&& spans_meet(a.y as int, a.h as int, b.y as int, b.h as int)
}

fn spans_meet_exec(c: i64, s: i64, d: i64, t: i64) -> (r: bool)
    ensures
        r == spans_meet(c as int, s as int, d as int, t as int),
{
    let c2 = 2 * (c as i128);
    let d2 = 2 * (d as i128);
    c2 - (s as i128) <= d2 + (t as i128) && d2 - (t as i128) <= c2 + (s as i128)
}

/// Closed-interval bounding-box overlap test.
pub fn rects_overlap(a: &Rect, b: &Rect) -> (r: bool)
    ensures
        r == overlap(*a, *b),
{
    spans_meet_exec(a.x, a.w, b.x, b.w) && spans_meet_exec(a.y, a.h, b.y, b.h)
}

} // verus!
