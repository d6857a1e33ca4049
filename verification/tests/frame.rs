use osd_overlay::overlay::{IconSource, Overlay, resolve_icon};

fn s(t: &str) -> Option<String> {
    Some(t.to_string())
}

#[test]
fn all_channels_present() {
    let mut o = Overlay::new(s("50"), s("volume"), s("audio-volume-high"));
    o.init(true, true);
    let p = o.frame_plan();
    assert_eq!(p.background_alpha, 8500); // 0.85 * 1.0, in 1/10_000
    assert!(p.caption);
    assert_eq!(p.text_alpha, 800_000); // 0.8 * 1.0 * 1.0, in 1/1_000_000
    assert_eq!(p.gauge_bars, Some(8));
    assert!(p.icon);
    assert_eq!(p.icon_alpha, 100);
    assert_eq!(p.center_x, 100);
    assert_eq!(p.baseline_y, 176);
}

#[test]
fn non_numeric_value_draws_no_bars() {
    let mut o = Overlay::new(s("abc"), None, None);
    o.init(true, true);
    let p = o.frame_plan();
    assert_eq!(p.gauge_bars, None);
    assert!(!p.caption);
    assert!(!p.icon);
}

#[test]
fn missing_value_channel_skips_the_gauge() {
    let mut o = Overlay::new(None, s("mute"), None);
    o.init(true, true);
    let p = o.frame_plan();
    assert_eq!(p.gauge_bars, None);
    assert!(p.caption);
}

#[test]
fn alphas_scale_with_the_fading_opacity() {
    let mut o = Overlay::new(s("100"), s("x"), None);
    o.init(true, true);
    o.cb_hide_timeout();
    o.cb_fadeout_timeout();
    o.cb_fadeout_timeout();
    assert_eq!(o.opacity, 90);
    let p = o.frame_plan();
    assert_eq!(p.background_alpha, 7650); // 0.85 * 0.90
    assert_eq!(p.text_alpha, 720_000); // 0.8 * 1.0 * 0.90
    assert_eq!(p.icon_alpha, 90);
    assert_eq!(p.gauge_bars, Some(16));
    assert!(p.background_alpha >= 0 && p.text_alpha >= 0 && p.icon_alpha >= 0);
}

#[test]
fn icon_prefers_the_theme() {
    assert_eq!(resolve_icon(true, true), IconSource::Theme);
    assert_eq!(resolve_icon(true, false), IconSource::Theme);
}

#[test]
fn icon_falls_back_to_a_file() {
    assert_eq!(resolve_icon(false, true), IconSource::File);
}

#[test]
fn icon_absent_when_both_lookups_fail() {
    // The icon element is simply omitted; the other elements still render.
    assert_eq!(resolve_icon(false, false), IconSource::Absent);
    let mut o = Overlay::new(s("50"), s("volume"), s("no-such-icon"));
    o.init(true, true);
    let p = o.frame_plan();
    assert_eq!(p.gauge_bars, Some(8));
    assert!(p.caption);
    assert_eq!(p.background_alpha, 8500);
}
