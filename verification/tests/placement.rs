use osd_overlay::overlay::Overlay;
use osd_overlay::placement::place;

#[test]
fn full_hd_monitor_places_bottom_right() {
    // Monitor {x:0, y:0, w:1920, h:1080}, panel 200x200, margin 64.
    assert_eq!(place(0, 0, 1920, 1080, 200, 200, 64), (1656, 816));
}

#[test]
fn monitor_origin_shifts_the_panel() {
    // A secondary-origin monitor: the offset carries through.
    assert_eq!(place(1920, 200, 1280, 1024, 200, 200, 64), (2936, 960));
}

#[test]
fn overlay_position_uses_its_own_geometry() {
    let o = Overlay::new(None, None, None);
    assert_eq!(o.position(0, 0, 1920, 1080), (1656, 816));
}
