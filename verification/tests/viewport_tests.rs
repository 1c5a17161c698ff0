use graph::fixed::ONE;
use graph::geometry::{Point, Rectangle, Size, Vector};
use graph::transform::{scale_after_scroll, snap_to_grid, GRID_SIZE, MAX_SCALING, MIN_SCALING};
use graph::viewport::{Region, Viewport};

fn units(v: i64) -> i64 {
    v * ONE
}

fn surface(width: i64, height: i64) -> Rectangle {
    Rectangle::new(Point::origin(), Size::new(units(width), units(height)))
}

fn viewport(scaling: i64, translation: Vector) -> Viewport {
    let mut v = Viewport::new();
    v.set_scaling(scaling);
    v.set_translation(translation);
    v
}

#[test]
fn new_viewport_is_at_scale_one_and_not_panned() {
    let v = Viewport::new();
    assert_eq!(v.scaling(), ONE);
    assert_eq!(v.translation(), Vector::zero());
    assert_eq!(v.bounds(), surface(0, 0));
}

#[test]
fn the_scale_limits_are_a_tenth_and_two() {
    assert_eq!(MIN_SCALING, ONE / 10);
    assert_eq!(MAX_SCALING, 2 * ONE);
}

#[test]
fn set_scaling_clamps_into_the_range() {
    let mut v = Viewport::new();
    v.set_scaling(5 * ONE);
    assert_eq!(v.scaling(), MAX_SCALING);
    v.set_scaling(0);
    assert_eq!(v.scaling(), MIN_SCALING);
    v.set_scaling(-ONE);
    assert_eq!(v.scaling(), MIN_SCALING);
    v.set_scaling(1_500_000);
    assert_eq!(v.scaling(), 1_500_000);
}

#[test]
fn setters_change_one_part_only() {
    let mut v = viewport(1_500_000, Vector::new(units(1), units(2)));
    v.set_bounds(surface(800, 600));
    assert_eq!(v.scaling(), 1_500_000);
    assert_eq!(v.translation(), Vector::new(units(1), units(2)));
    assert_eq!(v.bounds(), surface(800, 600));
    v.set_translation(Vector::new(units(3), units(4)));
    assert_eq!(v.scaling(), 1_500_000);
    assert_eq!(v.bounds(), surface(800, 600));
}

#[test]
fn window_to_canvas_subtracts_center_divides_by_scale_subtracts_translation() {
    let v = viewport(2 * ONE, Vector::new(units(10), units(-20)));
    // ((500 - 400) / 2) - 10 = 40, ((100 - 300) / 2) + 20 = -80
    let p = v.window_to_canvas(Point::new(units(500), units(100)), surface(800, 600));
    assert_eq!(p, Point::new(units(40), units(-80)));
}

#[test]
fn window_to_canvas_at_half_scale() {
    let v = viewport(ONE / 2, Vector::new(units(10), 0));
    // (500 - 400) / 0.5 - 10 = 190
    let p = v.window_to_canvas(Point::new(units(500), units(300)), surface(800, 600));
    assert_eq!(p, Point::new(units(190), 0));
}

#[test]
fn window_to_canvas_rounds_down() {
    let v = viewport(300_000, Vector::zero());
    let empty = surface(0, 0);
    assert_eq!(v.window_to_canvas(Point::new(1, -1), empty), Point::new(3, -4));
    let v = viewport(2 * ONE, Vector::zero());
    assert_eq!(v.window_to_canvas(Point::new(7, -7), empty), Point::new(3, -4));
}

#[test]
fn canvas_to_window_adds_translation_scales_adds_center() {
    let v = viewport(ONE / 2, Vector::new(units(10), units(-20)));
    // (40 + 10) * 0.5 + 400 = 425, (-80 - 20) * 0.5 + 300 = 250
    let p = v.canvas_to_window(Point::new(units(40), units(-80)), surface(800, 600));
    assert_eq!(p, Point::new(units(425), units(250)));
}

#[test]
fn canvas_to_window_rounds_down() {
    let v = viewport(1_500_000, Vector::zero());
    let empty = surface(0, 0);
    assert_eq!(v.canvas_to_window(Point::new(7, -7), empty), Point::new(10, -11));
}

#[test]
fn round_trip_from_the_canvas_loses_at_most_ten_millionths() {
    let bounds = surface(800, 600);
    for scaling in [MIN_SCALING, 333_333, ONE, 1_500_000, MAX_SCALING] {
        let v = viewport(scaling, Vector::new(units(7), units(-3)));
        for c in [0, 1, -1, 123_456_789, -987_654_321, units(5), units(-4096)] {
            let p = Point::new(c, -c);
            let back = v.window_to_canvas(v.canvas_to_window(p, bounds), bounds);
            assert!(0 <= p.x - back.x && p.x - back.x <= 10, "{:?} {:?}", p, back);
            assert!(0 <= p.y - back.y && p.y - back.y <= 10, "{:?} {:?}", p, back);
        }
    }
}

#[test]
fn round_trip_from_the_canvas_is_exact_at_scale_one() {
    let bounds = surface(800, 600);
    let v = viewport(ONE, Vector::new(units(7), units(-3)));
    let p = Point::new(123_456_789, -987_654_321);
    assert_eq!(v.window_to_canvas(v.canvas_to_window(p, bounds), bounds), p);
}

#[test]
fn round_trip_from_the_window_loses_at_most_two_millionths() {
    let bounds = surface(800, 600);
    for scaling in [MIN_SCALING, 333_333, ONE, 1_500_000, MAX_SCALING] {
        let v = viewport(scaling, Vector::new(units(7), units(-3)));
        for w in [0, 1, -1, 123_456_789, -987_654_321, units(5), units(799)] {
            let p = Point::new(w, -w);
            let again = v.canvas_to_window(v.window_to_canvas(p, bounds), bounds);
            assert!(0 <= p.x - again.x && p.x - again.x <= 2, "{:?} {:?}", p, again);
            assert!(0 <= p.y - again.y && p.y - again.y <= 2, "{:?} {:?}", p, again);
        }
    }
}

#[test]
fn conversions_saturate_at_the_ends_of_the_range() {
    let v = viewport(MIN_SCALING, Vector::new(i64::MIN, i64::MAX));
    let bounds = Rectangle::new(Point::origin(), Size::new(i64::MIN, i64::MAX));
    let p = v.window_to_canvas(Point::new(i64::MAX, i64::MIN), bounds);
    assert_eq!(p, Point::new(i64::MAX, i64::MIN));
    let v = viewport(MAX_SCALING, Vector::new(i64::MAX, i64::MIN));
    let p = v.canvas_to_window(Point::new(i64::MAX, i64::MIN), surface(0, 0));
    assert_eq!(p, Point::new(i64::MAX, i64::MIN));
}

#[test]
fn visible_region_is_translation_minus_half_the_scaled_size() {
    let v = viewport(2 * ONE, Vector::new(units(10), units(-20)));
    // 10 - (800 / 2) / 2 = -190, -20 - (600 / 2) / 2 = -170
    let region = v.visible_region(Size::new(units(800), units(600)));
    assert_eq!(region, Region { x: units(-190), y: units(-170) });
    let v = Viewport::new();
    let region = v.visible_region(Size::new(units(800), units(600)));
    assert_eq!(region, Region { x: units(-400), y: units(-300) });
}

#[test]
fn project_divides_by_scale_and_measures_from_the_visible_region() {
    let v = Viewport::new();
    // 400 / 1 - (-400) = 800, 300 / 1 - (-300) = 600
    let p = v.project(Point::new(units(400), units(300)), Size::new(units(800), units(600)));
    assert_eq!(p, Point::new(units(800), units(600)));
    let v = viewport(2 * ONE, Vector::new(units(10), units(-20)));
    // 400 / 2 - (-190) = 390, 300 / 2 - (-170) = 320
    let p = v.project(Point::new(units(400), units(300)), Size::new(units(800), units(600)));
    assert_eq!(p, Point::new(units(390), units(320)));
}

#[test]
fn scroll_multiplies_the_scale_by_one_plus_a_thirtieth_of_the_delta() {
    assert_eq!(scale_after_scroll(ONE, ONE), 1_033_333);
    assert_eq!(scale_after_scroll(ONE, -ONE), 966_666);
    assert_eq!(scale_after_scroll(MIN_SCALING, ONE), 103_333);
    assert_eq!(scale_after_scroll(ONE, units(15)), 1_500_000);
}

#[test]
fn scroll_is_clamped_at_both_ends() {
    assert_eq!(scale_after_scroll(MAX_SCALING, units(30)), MAX_SCALING);
    assert_eq!(scale_after_scroll(1_950_000, ONE), MAX_SCALING);
    assert_eq!(scale_after_scroll(MIN_SCALING, units(-30)), MIN_SCALING);
    assert_eq!(scale_after_scroll(ONE, units(-40)), MIN_SCALING);
    assert_eq!(scale_after_scroll(ONE, units(100)), MAX_SCALING);
    assert_eq!(scale_after_scroll(ONE, i64::MAX), MAX_SCALING);
    assert_eq!(scale_after_scroll(ONE, i64::MIN), MIN_SCALING);
}

#[test]
fn repeated_scrolling_never_leaves_the_range() {
    let mut scaling = ONE;
    for _ in 0..200 {
        scaling = scale_after_scroll(scaling, ONE);
        assert!(scaling <= MAX_SCALING);
    }
    assert_eq!(scaling, MAX_SCALING);
    for _ in 0..400 {
        scaling = scale_after_scroll(scaling, -ONE);
        assert!(scaling >= MIN_SCALING);
    }
    assert_eq!(scaling, MIN_SCALING);
}

#[test]
fn zoom_translation_moves_against_the_pointer_offset() {
    let v = Viewport::new();
    // 0 - 300 * 0.033333 / 1 = -9.9999
    let t = v.zoom_translation(Point::new(units(300), units(-300)), 1_033_333);
    assert_eq!(t, Vector::new(-9_999_900, 9_999_900));
    let v = viewport(ONE / 2, Vector::zero());
    // 0 - 300 * 0.016666 / 0.25 = -19.9992
    let t = v.zoom_translation(Point::new(units(300), 0), 516_666);
    assert_eq!(t, Vector::new(-19_999_200, 0));
}

#[test]
fn zoom_translation_at_the_middle_changes_nothing() {
    let v = viewport(ONE, Vector::new(units(5), units(-7)));
    let t = v.zoom_translation(Point::origin(), 1_033_333);
    assert_eq!(t, Vector::new(units(5), units(-7)));
}

#[test]
fn zoom_at_the_middle_keeps_the_canvas_point_under_the_pointer() {
    let bounds = surface(800, 600);
    let middle = Point::new(units(400), units(300));
    let mut v = viewport(ONE, Vector::new(units(5), units(-7)));
    let before = v.window_to_canvas(middle, bounds);
    let scaling = scale_after_scroll(v.scaling(), ONE);
    let t = v.zoom_translation(Point::origin(), scaling);
    v.set_scaling(scaling);
    v.set_translation(t);
    assert_eq!(v.window_to_canvas(middle, bounds), before);
}

#[test]
fn zoom_away_from_the_middle_moves_the_point_by_the_second_order_term() {
    let bounds = surface(800, 600);
    let pointer = Point::new(units(700), units(300));
    let offset = Point::new(units(300), 0);
    let mut v = Viewport::new();
    let before = v.window_to_canvas(pointer, bounds);
    let scaling = scale_after_scroll(v.scaling(), ONE);
    let t = v.zoom_translation(offset, scaling);
    v.set_scaling(scaling);
    v.set_translation(t);
    let after = v.window_to_canvas(pointer, bounds);
    // 300 / 1.033333 + 9.9999 = 300.322574: the point moves by 300 * 0.033333^2 / 1.033333
    assert_eq!(before, Point::new(units(300), 0));
    assert_eq!(after, Point::new(300_322_574, 0));
}

#[test]
fn pan_translation_adds_the_scaled_pointer_movement() {
    let v = viewport(2 * ONE, Vector::zero());
    let start = Point::new(units(100), units(100));
    // 5 + (160 - 100) / 2 = 35, 5 + (40 - 100) / 2 = -25
    let t = v.pan_translation(
        Vector::new(units(5), units(5)),
        start,
        Point::new(units(160), units(40)),
    );
    assert_eq!(t, Vector::new(units(35), units(-25)));
    let v = viewport(ONE / 2, Vector::zero());
    let t = v.pan_translation(Vector::new(units(5), 0), start, Point::new(units(40), units(100)));
    assert_eq!(t, Vector::new(units(-115), 0));
}

#[test]
fn snap_rounds_to_nearest_multiple_of_grid() {
    assert_eq!(GRID_SIZE, units(32));
    assert_eq!(snap_to_grid(Point::new(units(15), units(17))), Point::new(0, units(32)));
    assert_eq!(snap_to_grid(Point::new(units(-15), units(47))), Point::new(0, units(32)));
    assert_eq!(snap_to_grid(Point::new(units(48), units(225))), Point::new(units(64), units(224)));
}

#[test]
fn snap_rounds_half_way_points_away_from_zero() {
    assert_eq!(snap_to_grid(Point::new(units(16), units(-16))), Point::new(units(32), units(-32)));
    assert_eq!(snap_to_grid(Point::new(units(16) - 1, 1 - units(16))), Point::new(0, 0));
}

#[test]
fn snap_is_idempotent() {
    for v in [0, 1, -1, units(15), units(16), units(-16), units(1000), i64::MAX, i64::MIN] {
        let once = snap_to_grid(Point::new(v, -(v / 3)));
        assert_eq!(snap_to_grid(once), once);
        assert_eq!(once.x % GRID_SIZE, 0);
        assert_eq!(once.y % GRID_SIZE, 0);
    }
}

#[test]
fn snap_stays_within_the_range_at_its_ends() {
    let far = snap_to_grid(Point::new(i64::MAX, i64::MIN));
    assert_eq!(far, Point::new(9_223_372_036_832_000_000, -9_223_372_036_832_000_000));
}
