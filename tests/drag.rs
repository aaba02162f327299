use iced_audio::h_slider;
use iced_audio::xy_pad;
use iced_audio::{
    ClickKind, DragSettings, Modifiers, ModulationRange, Normal, Param, DEFAULT_MODIFIER_SCALAR,
    DEFAULT_SCALAR, NORMAL_ONE,
};
use iced_native::input::mouse::Click;
use iced_native::Point;

#[derive(Debug, Clone, Copy, PartialEq)]
enum Id {
    Gain,
    X,
    Y,
}

fn slider_at(units: i64, default_units: i64) -> h_slider::State<Id> {
    h_slider::State::new(Param::new(
        Id::Gain,
        Normal::from_units(units),
        Normal::from_units(default_units),
    ))
}

#[test]
fn modifiers_match_when_all_requested_keys_are_held() {
    let ctrl = Modifiers::control();
    let ctrl_shift = Modifiers { shift: true, control: true, alt: false, logo: false };
    assert!(ctrl.matches(ctrl));
    assert!(ctrl_shift.matches(ctrl));
    assert!(!Modifiers::none().matches(ctrl));
    assert!(!ctrl.matches(ctrl_shift));
    assert!(Modifiers::none().matches(Modifiers::none()));
}

#[test]
fn default_settings() {
    let s = DragSettings::new();
    assert_eq!(s.scalar, DEFAULT_SCALAR);
    assert_eq!(s.scalar, 980_000);
    assert_eq!(s.modifier_scalar, DEFAULT_MODIFIER_SCALAR);
    assert_eq!(s.modifier_scalar, 20_000);
    assert_eq!(s.modifier_keys, Modifiers::control());
    assert_eq!(s.select_scalar(Modifiers::none()), 980_000);
    assert_eq!(s.select_scalar(Modifiers::control()), 20_000);
}

#[test]
fn new_state_is_idle_and_synced() {
    let s = slider_at(300_000, 0);
    assert!(!s.is_dragging);
    assert_eq!(s.continuous_normal, 300_000);
    assert_eq!(s.drag_remainder, 0);
    assert!(s.last_click.is_none());
    assert!(s.modulation_range.is_none());
}

#[test]
fn drag_moves_by_scaled_travel_and_notifies() {
    let mut s = slider_at(500_000, 500_000);
    let settings = DragSettings::new();
    assert_eq!(s.on_press(40, ClickKind::Single), None);
    assert!(s.is_dragging);
    // A tenth of the width at scalar 0.98.
    assert_eq!(s.on_cursor_moved(50, 100, &settings), Some(Id::Gain));
    assert_eq!(s.param.normal.value(), 598_000);
    assert_eq!(s.continuous_normal, 598_000);
    assert_eq!(s.prev_drag_x, 50);
}

#[test]
fn drag_with_modifier_moves_less() {
    let settings = DragSettings::new();
    let mut coarse = slider_at(500_000, 500_000);
    coarse.on_press(0, ClickKind::Single);
    coarse.on_cursor_moved(10, 100, &settings);
    let mut fine = slider_at(500_000, 500_000);
    fine.on_modifiers_changed(Modifiers::control());
    fine.on_press(0, ClickKind::Single);
    assert_eq!(fine.on_cursor_moved(10, 100, &settings), Some(Id::Gain));
    assert_eq!(fine.param.normal.value(), 502_000);
    let coarse_change = coarse.param.normal.value() - 500_000;
    let fine_change = fine.param.normal.value() - 500_000;
    assert_eq!(coarse_change, 98_000);
    assert_eq!(fine_change * 49, coarse_change);
}

#[test]
fn move_while_idle_does_nothing() {
    let mut s = slider_at(500_000, 0);
    assert_eq!(s.on_cursor_moved(90, 100, &DragSettings::new()), None);
    assert_eq!(s.param.normal.value(), 500_000);
    assert_eq!(s.prev_drag_x, 0);
}

#[test]
fn move_over_zero_width_is_no_step() {
    let mut s = slider_at(500_000, 0);
    s.on_press(10, ClickKind::Single);
    assert_eq!(s.on_cursor_moved(90, 0, &DragSettings::new()), None);
    assert_eq!(s.param.normal.value(), 500_000);
    assert_eq!(s.prev_drag_x, 10);
}

#[test]
fn double_click_resets_to_default_without_dragging() {
    let mut s = slider_at(800_000, 250_000);
    let mut notes = Vec::new();
    if let Some(id) = s.on_press(5, ClickKind::Double) {
        notes.push(id);
    }
    assert_eq!(notes, vec![Id::Gain]);
    assert_eq!(s.param.normal.value(), 250_000);
    assert!(!s.is_dragging);
    let mut t = slider_at(800_000, 250_000);
    assert_eq!(t.on_press(5, ClickKind::Triple), Some(Id::Gain));
    assert_eq!(t.param.normal.value(), 250_000);
    assert!(!t.is_dragging);
}

#[test]
fn release_after_overshoot_leaves_no_dead_zone() {
    let settings = DragSettings { scalar: NORMAL_ONE, ..DragSettings::new() };
    let mut s = slider_at(500_000, 500_000);
    s.on_press(0, ClickKind::Single);
    s.on_cursor_moved(80, 100, &settings);
    assert_eq!(s.continuous_normal, 1_300_000);
    assert_eq!(s.param.normal.value(), NORMAL_ONE);
    s.on_release();
    assert!(!s.is_dragging);
    assert_eq!(s.continuous_normal, 1_000_000);
    s.on_press(80, ClickKind::Single);
    assert_eq!(s.on_cursor_moved(79, 100, &settings), Some(Id::Gain));
    assert_eq!(s.param.normal.value(), 990_000);
}

#[test]
fn overshoot_is_kept_while_dragging() {
    let settings = DragSettings { scalar: NORMAL_ONE, ..DragSettings::new() };
    let mut s = slider_at(500_000, 500_000);
    s.on_press(0, ClickKind::Single);
    s.on_cursor_moved(80, 100, &settings);
    // Coming back a little while still past the end leaves the normal there.
    s.on_cursor_moved(75, 100, &settings);
    assert_eq!(s.continuous_normal, 1_250_000);
    assert_eq!(s.param.normal.value(), NORMAL_ONE);
    s.on_cursor_moved(40, 100, &settings);
    assert_eq!(s.param.normal.value(), 900_000);
}

#[test]
fn negative_travel_rounds_down_and_keeps_the_remainder() {
    let settings = DragSettings::new();
    let mut s = slider_at(500_000, 500_000);
    s.on_press(0, ClickKind::Single);
    s.on_cursor_moved(-1, 3, &settings);
    // -980000 / 3 = -326666.67: down to -326667, leaving 1 of 3.
    assert_eq!(s.continuous_normal, 500_000 - 326_667);
    assert_eq!(s.drag_remainder, 1);
    // Moving back to the start returns exactly to the start.
    s.on_cursor_moved(0, 3, &settings);
    assert_eq!(s.continuous_normal, 500_000);
    assert_eq!(s.drag_remainder, 0);
}

#[test]
fn slow_fine_drag_loses_no_travel() {
    let settings = DragSettings::new();
    let mut s = slider_at(500_000, 500_000);
    s.on_modifiers_changed(Modifiers::control());
    s.on_press(0, ClickKind::Single);
    // 128 one-unit moves over a 25600-unit width at scalar 0.02: none of
    // them alone is worth a millionth, together they are worth 100.
    for x in 1..=128 {
        s.on_cursor_moved(x, 25_600, &settings);
    }
    assert_eq!(s.param.normal.value(), 500_100);
    assert_eq!(s.drag_remainder, 0);
    let mut t = slider_at(500_000, 500_000);
    t.on_modifiers_changed(Modifiers::control());
    t.on_press(0, ClickKind::Single);
    t.on_cursor_moved(128, 25_600, &settings);
    assert_eq!(t.param.normal.value(), s.param.normal.value());
}

#[test]
fn release_and_press_clear_the_remainder() {
    let settings = DragSettings::new();
    let mut s = slider_at(500_000, 500_000);
    s.on_press(0, ClickKind::Single);
    s.on_cursor_moved(1, 3, &settings);
    assert_eq!(s.drag_remainder, 2);
    s.on_release();
    assert_eq!(s.drag_remainder, 0);
    s.on_press(0, ClickKind::Single);
    s.on_cursor_moved(1, 3, &settings);
    s.on_press(0, ClickKind::Single);
    assert_eq!(s.drag_remainder, 0);
}

#[test]
fn normal_accessor_allows_snapping_in_place() {
    let r = iced_audio::IntRange::new(0, 5);
    let mut s = slider_at(640_000, 0);
    r.snap_normal(s.normal());
    assert_eq!(s.param.normal.value(), 600_000);
}

#[test]
fn modulation_range_is_attached() {
    let m = ModulationRange::new(Normal::from_units(100), Normal::from_units(900));
    let s = slider_at(0, 0).modulation_range(m);
    let got = s.modulation_range.unwrap();
    assert_eq!(got.start.value(), 100);
    assert_eq!(got.end.value(), 900);
    assert!(got.visible && got.filled_visible);
}

#[test]
fn toolkit_click_starts_a_drag_and_is_recorded() {
    let mut s = slider_at(500_000, 100_000);
    let click = Click::new(Point::new(3.0, 4.0), s.last_click);
    assert_eq!(s.on_click(3, click), None);
    assert!(s.is_dragging);
    assert!(s.last_click.is_some());
    s.on_release();
    let again = Click::new(Point::new(3.0, 4.0), s.last_click);
    assert_eq!(s.on_click(3, again), Some(Id::Gain));
    assert_eq!(s.param.normal.value(), 100_000);
    assert!(!s.is_dragging);
}

fn pad() -> xy_pad::State<Id> {
    xy_pad::State::new(
        Param::new(Id::X, Normal::center(), Normal::from_units(100_000)),
        Param::new(Id::Y, Normal::center(), Normal::from_units(900_000)),
    )
}

#[test]
fn pad_moves_both_axes() {
    let mut p = pad();
    let settings = DragSettings::new();
    p.on_press(10, 10, ClickKind::Single);
    // Right by 20 and up by 10 on a 100 by 200 pad: measured against 100.
    assert_eq!(p.on_cursor_moved(30, 0, 100, 200, &settings), Some((Id::X, Id::Y)));
    assert_eq!(p.param_x.normal.value(), 500_000 + 196_000);
    assert_eq!(p.param_y.normal.value(), 500_000 + 98_000);
    assert_eq!((p.prev_drag_x, p.prev_drag_y), (30, 0));
}

#[test]
fn pad_axes_clamp_independently() {
    let mut p = pad();
    let settings = DragSettings { scalar: NORMAL_ONE, ..DragSettings::new() };
    p.on_press(0, 0, ClickKind::Single);
    p.on_cursor_moved(70, 0, 100, 100, &settings);
    assert_eq!(p.param_x.normal.value(), NORMAL_ONE);
    assert_eq!(p.param_y.normal.value(), 500_000);
    p.on_release();
    assert_eq!(p.continuous_normal_x, 1_000_000);
    assert_eq!(p.continuous_normal_y, 500_000);
    assert_eq!((p.drag_remainder_x, p.drag_remainder_y), (0, 0));
}

#[test]
fn pad_keeps_remainders_per_axis() {
    let mut p = pad();
    let settings = DragSettings::new();
    p.on_press(0, 0, ClickKind::Single);
    // Right by 1 and up by 1 over an extent of 3.
    p.on_cursor_moved(1, -1, 3, 3, &settings);
    assert_eq!(p.continuous_normal_x, 500_000 + 326_666);
    assert_eq!(p.continuous_normal_y, 500_000 + 326_666);
    assert_eq!((p.drag_remainder_x, p.drag_remainder_y), (2, 2));
    p.on_cursor_moved(2, -2, 3, 3, &settings);
    assert_eq!(p.continuous_normal_x, 500_000 + 653_333);
    assert_eq!((p.drag_remainder_x, p.drag_remainder_y), (1, 1));
}

#[test]
fn pad_double_click_resets_both_axes() {
    let mut p = pad();
    assert_eq!(p.on_press(1, 1, ClickKind::Double), Some((Id::X, Id::Y)));
    assert_eq!(p.param_x.normal.value(), 100_000);
    assert_eq!(p.param_y.normal.value(), 900_000);
    assert!(!p.is_dragging);
}

#[test]
fn pad_fine_adjustment_and_normals() {
    let mut p = pad();
    let settings = DragSettings::new();
    p.on_modifiers_changed(Modifiers::control());
    p.on_press(0, 0, ClickKind::Single);
    p.on_cursor_moved(10, 10, 100, 100, &settings);
    assert_eq!(p.param_x.normal.value(), 502_000);
    assert_eq!(p.param_y.normal.value(), 498_000);
    p.x_normal().set(0);
    p.y_normal().set(1);
    assert_eq!(p.param_x.normal.value(), 0);
    assert_eq!(p.param_y.normal.value(), 1);
    let click = Click::new(Point::new(0.0, 0.0), None);
    assert_eq!(p.on_click(0, 0, click), None);
    assert!(p.last_click.is_some());
}
