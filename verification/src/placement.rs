use vstd::prelude::*;

verus! {

/// Coordinate of the panel's top-left corner along one axis: the monitor's
/// far edge on that axis, inset by the panel's extent and the screen margin.
pub open spec fn spec_place(mon_origin: int, mon_extent: int, panel_extent: int, margin: int) -> int {
    mon_origin + mon_extent - panel_extent - margin
}

/// Top-left position for a `panel_w` x `panel_h` panel set into the
/// bottom-right corner of the monitor `(mon_x, mon_y, mon_w, mon_h)`,
/// inset by `margin` on both axes.
pub fn place(
    mon_x: i32,
    mon_y: i32,
    mon_w: i32,
    mon_h: i32,
    panel_w: i32,
    panel_h: i32,
    margin: i32,
) -> (pos: (i32, i32))
    requires
        i32::MIN <= spec_place(mon_x as int, mon_w as int, panel_w as int, margin as int) <= i32::MAX,
        i32::MIN <= spec_place(mon_y as int, mon_h as int, panel_h as int, margin as int) <= i32::MAX,
    ensures
        pos.0 == spec_place(mon_x as int, mon_w as int, panel_w as int, margin as int),
        pos.1 == spec_place(mon_y as int, mon_h as int, panel_h as int, margin as int),
{
    let x: i64 = mon_x as i64 + mon_w as i64 - panel_w as i64 - margin as i64;
    let y: i64 = mon_y as i64 + mon_h as i64 - panel_h as i64 - margin as i64;
    (x as i32, y as i32)
}

} // verus!
