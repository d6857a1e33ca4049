use osd_overlay::gauge::bar_count;

#[test]
fn half_fills_half_the_ring() {
    assert_eq!(bar_count(50, 16), 8);
}

#[test]
fn full_value_fills_every_bar() {
    assert_eq!(bar_count(100, 16), 16);
}

#[test]
fn zero_value_draws_no_bar() {
    assert_eq!(bar_count(0, 16), 0);
}

#[test]
fn small_value_floors_to_no_bar() {
    // 16 * 6 / 100 = 0.96, floored away.
    assert_eq!(bar_count(6, 16), 0);
}

#[test]
fn each_quantization_step() {
    // The count rises by one bar every 6.25 percent.
    assert_eq!(bar_count(7, 16), 1);
    assert_eq!(bar_count(12, 16), 1);
    assert_eq!(bar_count(13, 16), 2);
    assert_eq!(bar_count(99, 16), 15);
}

#[test]
fn negative_value_clamps_to_zero() {
    assert_eq!(bar_count(-40, 16), 0);
}

#[test]
fn oversized_value_clamps_to_the_ring() {
    assert_eq!(bar_count(250, 16), 16);
}

#[test]
fn extreme_values_do_not_overflow() {
    assert_eq!(bar_count(i32::MAX, 16), 16);
    assert_eq!(bar_count(i32::MIN, 16), 0);
}
