//! The arithmetic of the view, one axis at a time: the conversions between
//! window coordinates and canvas coordinates, the zoom step, the pan, and
//! the snap to the grid, each with what is proved of it.
//!
//! With the zoom factor `s`, the pan offset `t` and the surface extent `e`, a
//! canvas coordinate `c` appears at the window coordinate `(c + t) * s + e / 2`.
//! Every division rounds towards negative infinity.

use vstd::prelude::*;
use vstd::arithmetic::div_mod::{lemma_div_of0, lemma_fundamental_div_mod};
use crate::fixed::{fits, floor_div, half, lemma_product_bounds, saturate, saturate_wide, ONE};
use crate::geometry::Point;

verus! {

/// The smallest zoom factor, `0.1`.
pub const MIN_SCALING: i64 = 100_000;

/// The largest zoom factor, `2.0`.
pub const MAX_SCALING: i64 = 2_000_000;

/// The spacing of the grid that dragged nodes snap to, `32.0`.
pub const GRID_SIZE: i64 = 32_000_000;

/// The wheel delta that would double the zoom factor, `30.0`.
pub const WHEEL_RANGE: i64 = 30_000_000;

/// The largest grid cell index whose coordinate still fits in an `i64`.
pub const MAX_CELL: i64 = 288_230_376_151;

/// Whether `s` is an admissible zoom factor.
pub open spec fn valid_scale(s: int) -> bool {
    MIN_SCALING <= s <= MAX_SCALING
}

/// `s` moved to the nearest admissible zoom factor.
pub open spec fn clamp_scale(s: int) -> int {
    if s < MIN_SCALING {
        MIN_SCALING as int
    } else if s > MAX_SCALING {
        MAX_SCALING as int
    } else {
        s
    }
}

/// The canvas coordinate shown at a window coordinate, on one axis:
/// `(window - extent / 2) / scale - shift`.
pub open spec fn axis_to_canvas(window: int, extent: int, scale: int, shift: int) -> int {
    ((window - extent / 2) * ONE) / scale - shift
}

/// The window coordinate at which a canvas coordinate is shown, on one axis:
/// `(canvas + shift) * scale + extent / 2`.
pub open spec fn axis_to_window(canvas: int, extent: int, scale: int, shift: int) -> int {
    ((canvas + shift) * scale) / (ONE as int) + extent / 2
}

/// Where the visible area begins on one axis: `shift - (extent / scale) / 2`.
pub open spec fn axis_visible_from(extent: int, scale: int, shift: int) -> int {
    shift - ((extent * ONE) / scale) / 2
}

/// A position divided by the zoom factor and measured from the stored
/// beginning of the visible area, on one axis.
pub open spec fn axis_project(position: int, extent: int, scale: int, shift: int) -> int {
    (position * ONE) / scale - saturate(axis_visible_from(extent, scale, shift))
}

/// Whether a wheel delta changes the zoom factor at all: scrolling down at the
/// minimum and scrolling up at the maximum do nothing.
pub open spec fn zoom_applies(scale: int, delta: int) -> bool {
    (delta < 0 && scale > MIN_SCALING) || (delta > 0 && scale < MAX_SCALING)
}

/// The zoom factor after a wheel delta: `scale * (1 + delta / 30)`, clamped.
pub open spec fn zoomed_scale(scale: int, delta: int) -> int {
    clamp_scale((scale * (WHEEL_RANGE + delta)) / (WHEEL_RANGE as int))
}

/// The pan offset after a zoom step, on one axis:
/// `shift - offset * (new_scale - old_scale) / old_scale^2`, where `offset` is
/// the pointer's distance from the middle of the surface.
pub open spec fn axis_zoom_shift(shift: int, offset: int, old_scale: int, new_scale: int) -> int {
    shift - (offset * (new_scale - old_scale) * ONE) / (old_scale * old_scale)
}

/// The pan offset while dragging the view, on one axis:
/// `shift_at_start + (current - start) / scale`.
pub open spec fn axis_panned(shift_at_start: int, start: int, current: int, scale: int) -> int {
    shift_at_start + ((current - start) * ONE) / scale
}

/// The index of the grid line nearest to `v`; a value half-way between two
/// lines goes to the one farther from zero.
pub open spec fn nearest_cell(v: int) -> int {
    if v >= 0 {
        (v + GRID_SIZE / 2) / (GRID_SIZE as int)
    } else {
        -((-v + GRID_SIZE / 2) / (GRID_SIZE as int))
    }
}

/// `v` moved to the nearest grid line that an `i64` can hold.
pub open spec fn axis_snapped(v: int) -> int {
    let cell = nearest_cell(v);
    let cell = if cell > MAX_CELL {
        MAX_CELL as int
    } else if cell < -MAX_CELL {
        -MAX_CELL as int
    } else {
        cell
    };
    cell * GRID_SIZE
}

/// The point with each coordinate moved to the nearest grid line.
pub open spec fn spec_snap_to_grid(pos: Point) -> Point {
    Point { x: axis_snapped(pos.x as int) as i64, y: axis_snapped(pos.y as int) as i64 }
}

fn snap_axis(v: i64) -> (r: i64)
    ensures
        r == axis_snapped(v as int),
{
    let grid: i128 = GRID_SIZE as i128;
    let cell: i128 = if v >= 0 {
        floor_div(v as i128 + grid / 2, grid)
    } else {
        -floor_div(-(v as i128) + grid / 2, grid)
    };
    let cell: i128 = if cell > MAX_CELL as i128 {
        MAX_CELL as i128
    } else if cell < -(MAX_CELL as i128) {
        -(MAX_CELL as i128)
    } else {
        cell
    };
    (cell * grid) as i64
}

/// Rounds each coordinate to the nearest multiple of [`GRID_SIZE`].
pub fn snap_to_grid(pos: Point) -> (snapped: Point)
    ensures
        snapped == spec_snap_to_grid(pos),
{
    Point { x: snap_axis(pos.x), y: snap_axis(pos.y) }
}

pub(crate) fn to_canvas_axis(window: i64, extent: i64, scale: i64, shift: i64) -> (r: i64)
    requires
        valid_scale(scale as int),
    ensures
        r == saturate(axis_to_canvas(window as int, extent as int, scale as int, shift as int)),
{
    let centered: i128 = window as i128 - half(extent) as i128;
    proof {
        lemma_product_bounds(centered as int, ONE as int, 0x1_0000_0000_0000_0000, 1_000_000);
    }
    let scaled: i128 = floor_div(centered * (ONE as i128), scale as i128);
    saturate_wide(scaled - shift as i128)
}

pub(crate) fn to_window_axis(canvas: i64, extent: i64, scale: i64, shift: i64) -> (r: i64)
    requires
        valid_scale(scale as int),
    ensures
        r == saturate(axis_to_window(canvas as int, extent as int, scale as int, shift as int)),
{
    let moved: i128 = canvas as i128 + shift as i128;
    proof {
        lemma_product_bounds(moved as int, scale as int, 0x1_0000_0000_0000_0000, 2_000_000);
    }
    let scaled: i128 = floor_div(moved * (scale as i128), ONE as i128);
    saturate_wide(scaled + half(extent) as i128)
}

pub(crate) fn visible_from_axis(extent: i64, scale: i64, shift: i64) -> (r: i64)
    requires
        valid_scale(scale as int),
    ensures
        r == saturate(axis_visible_from(extent as int, scale as int, shift as int)),
{
    proof {
        lemma_product_bounds(extent as int, ONE as int, 0x8000_0000_0000_0000, 1_000_000);
    }
    let span: i128 = floor_div(extent as i128 * (ONE as i128), scale as i128);
    saturate_wide(shift as i128 - floor_div(span, 2))
}

pub(crate) fn project_axis(position: i64, extent: i64, scale: i64, shift: i64) -> (r: i64)
    requires
        valid_scale(scale as int),
    ensures
        r == saturate(axis_project(position as int, extent as int, scale as int, shift as int)),
{
    let from: i64 = visible_from_axis(extent, scale, shift);
    proof {
        lemma_product_bounds(position as int, ONE as int, 0x8000_0000_0000_0000, 1_000_000);
    }
    let scaled: i128 = floor_div(position as i128 * (ONE as i128), scale as i128);
    saturate_wide(scaled - from as i128)
}

pub(crate) fn zoom_shift_axis(shift: i64, offset: i64, old_scale: i64, new_scale: i64) -> (r: i64)
    requires
        valid_scale(old_scale as int),
        valid_scale(new_scale as int),
    ensures
        r == saturate(
            axis_zoom_shift(shift as int, offset as int, old_scale as int, new_scale as int),
        ),
{
    let change: i128 = new_scale as i128 - old_scale as i128;
    proof {
        lemma_product_bounds(offset as int, change as int, 0x8000_0000_0000_0000, 2_000_000);
        lemma_product_bounds(
            offset * change,
            ONE as int,
            0x8000_0000_0000_0000int * 2_000_000,
            1_000_000,
        );
        lemma_product_bounds(old_scale as int, old_scale as int, 2_000_000, 2_000_000);
        assert(old_scale * old_scale > 0) by (nonlinear_arith)
            requires
                old_scale > 0,
        ;
    }
    let square: i128 = old_scale as i128 * old_scale as i128;
    let moved: i128 = floor_div(offset as i128 * change * (ONE as i128), square);
    saturate_wide(shift as i128 - moved)
}

pub(crate) fn panned_axis(shift_at_start: i64, start: i64, current: i64, scale: i64) -> (r: i64)
    requires
        valid_scale(scale as int),
    ensures
        r == saturate(
            axis_panned(shift_at_start as int, start as int, current as int, scale as int),
        ),
{
    let moved: i128 = current as i128 - start as i128;
    proof {
        lemma_product_bounds(moved as int, ONE as int, 0x1_0000_0000_0000_0000, 1_000_000);
    }
    let scaled: i128 = floor_div(moved * (ONE as i128), scale as i128);
    saturate_wide(shift_at_start as i128 + scaled)
}

/// The zoom factor that a wheel delta leads to from an admissible one.
pub fn scale_after_scroll(scale: i64, delta: i64) -> (r: i64)
    requires
        valid_scale(scale as int),
    ensures
        r == zoomed_scale(scale as int, delta as int),
        valid_scale(r as int),
{
    let factor: i128 = WHEEL_RANGE as i128 + delta as i128;
    proof {
        lemma_product_bounds(factor as int, scale as int, 0x1_0000_0000_0000_0000, 2_000_000);
        assert(scale * factor == factor * scale) by (nonlinear_arith);
    }
    let raw: i128 = floor_div(scale as i128 * factor, WHEEL_RANGE as i128);
    if raw < MIN_SCALING as i128 {
        MIN_SCALING
    } else if raw > MAX_SCALING as i128 {
        MAX_SCALING
    } else {
        raw as i64
    }
}

/// What a floor division by a positive divisor leaves out: the quotient times
/// the divisor is at most the dividend and misses it by less than the divisor.
pub proof fn lemma_floor_div_gap(n: int, d: int)
    requires
        d > 0,
    ensures
        (n / d) * d <= n,
        n - (n / d) * d <= d - 1,
{
    lemma_fundamental_div_mod(n, d);
    assert(d * (n / d) == (n / d) * d) by (nonlinear_arith);
}

/// Round trip from the canvas: a canvas coordinate that is carried to the
/// window and back never grows, and it shrinks by less than `1 / scale + 1`
/// millionths, which is at most ten millionths.
pub proof fn lemma_canvas_round_trip(canvas: int, extent: int, scale: int, shift: int)
    requires
        valid_scale(scale),
    ensures
        ({
            let back = axis_to_canvas(
                axis_to_window(canvas, extent, scale, shift),
                extent,
                scale,
                shift,
            );
            &&& back <= canvas
            &&& (canvas - back) * scale <= ONE + scale - 2
            &&& canvas - back <= 10
        }),
{
    let moved = canvas + shift;
    let there = (moved * scale) / (ONE as int);
    let back = (there * ONE) / scale;
    assert(axis_to_window(canvas, extent, scale, shift) - extent / 2 == there);
    assert(axis_to_canvas(axis_to_window(canvas, extent, scale, shift), extent, scale, shift)
        == back - shift);
    lemma_floor_div_gap(moved * scale, ONE as int);
    lemma_floor_div_gap(there * ONE, scale);
    assert(back <= moved) by (nonlinear_arith)
        requires
            back * scale <= there * ONE,
            there * ONE <= moved * scale,
            scale > 0,
    ;
    assert((moved - back) * scale <= ONE + scale - 2) by (nonlinear_arith)
        requires
            there * ONE - back * scale <= scale - 1,
            moved * scale - there * ONE <= ONE - 1,
    ;
    assert(moved - back <= 10) by (nonlinear_arith)
        requires
            (moved - back) * scale <= ONE + scale - 2,
            scale >= 100_000,
            ONE == 1_000_000,
    ;
}

/// Round trip from the window: a window coordinate that is carried to the
/// canvas and back never grows, and it shrinks by less than `scale + 1`
/// millionths, which is at most two millionths.
pub proof fn lemma_window_round_trip(window: int, extent: int, scale: int, shift: int)
    requires
        valid_scale(scale),
    ensures
        ({
            let again = axis_to_window(
                axis_to_canvas(window, extent, scale, shift),
                extent,
                scale,
                shift,
            );
            &&& again <= window
            &&& (window - again) * ONE <= ONE + scale - 2
            &&& window - again <= 2
        }),
{
    let centered = window - extent / 2;
    let there = (centered * ONE) / scale;
    let again = (there * scale) / (ONE as int);
    assert(axis_to_canvas(window, extent, scale, shift) + shift == there);
    assert(axis_to_window(axis_to_canvas(window, extent, scale, shift), extent, scale, shift)
        == again + extent / 2);
    lemma_floor_div_gap(centered * ONE, scale);
    lemma_floor_div_gap(there * scale, ONE as int);
    assert(again <= centered) by (nonlinear_arith)
        requires
            again * ONE <= there * scale,
            there * scale <= centered * ONE,
            ONE > 0,
    ;
    assert((centered - again) * ONE <= ONE + scale - 2) by (nonlinear_arith)
        requires
            there * scale - again * ONE <= ONE - 1,
            centered * ONE - there * scale <= scale - 1,
    ;
}

/// Zooming about the middle of the surface: when the pointer is at the middle
/// on an axis, a zoom step leaves the pan offset on that axis as it was, and
/// the canvas coordinate under the pointer with it.
pub proof fn lemma_zoom_at_center(
    window: int,
    extent: int,
    shift: int,
    old_scale: int,
    new_scale: int,
)
    requires
        valid_scale(old_scale),
        valid_scale(new_scale),
        window - extent / 2 == 0,
    ensures
        axis_zoom_shift(shift, window - extent / 2, old_scale, new_scale) == shift,
        axis_to_canvas(
            window,
            extent,
            new_scale,
            axis_zoom_shift(shift, window - extent / 2, old_scale, new_scale),
        ) == axis_to_canvas(window, extent, old_scale, shift),
{
    assert(0 * (new_scale - old_scale) * ONE == 0) by (nonlinear_arith);
    assert(old_scale * old_scale > 0) by (nonlinear_arith)
        requires
            old_scale > 0,
    ;
    lemma_div_of0(old_scale * old_scale);
    lemma_div_of0(old_scale);
    lemma_div_of0(new_scale);
}

/// How far the canvas coordinate under the pointer moves in a zoom step, on
/// one axis: the coordinate after the step minus the one before it.
pub open spec fn axis_zoom_drift(
    window: int,
    extent: int,
    shift: int,
    old_scale: int,
    new_scale: int,
) -> int {
    axis_to_canvas(
        window,
        extent,
        new_scale,
        axis_zoom_shift(shift, window - extent / 2, old_scale, new_scale),
    ) - axis_to_canvas(window, extent, old_scale, shift)
}

/// Zoom anchoring away from the middle: the canvas coordinate under the
/// pointer moves by `offset * (new - old)^2 / (old^2 * new)`, up to the
/// rounding of three divisions. The movement is of second order in the change
/// of the zoom factor, and vanishes when the pointer is at the middle.
pub proof fn lemma_zoom_drift(window: int, extent: int, shift: int, old_scale: int, new_scale: int)
    requires
        valid_scale(old_scale),
        valid_scale(new_scale),
    ensures
        ({
            let offset = window - extent / 2;
            let change = new_scale - old_scale;
            let drift = axis_zoom_drift(window, extent, shift, old_scale, new_scale);
            let weight = old_scale * old_scale * new_scale;
            &&& (drift - 1) * weight < offset * ONE * change * change
            &&& offset * ONE * change * change < (drift + 2) * weight
        }),
{
    let offset = window - extent / 2;
    let change = new_scale - old_scale;
    let k = offset * ONE;
    let square = old_scale * old_scale;
    let weight = old_scale * old_scale * new_scale;
    let a = k / new_scale;
    let b = k / old_scale;
    let c = (offset * change * ONE) / square;
    assert(square > 0) by (nonlinear_arith)
        requires
            square == old_scale * old_scale,
            old_scale > 0,
    ;
    assert(offset * change * ONE == k * change) by (nonlinear_arith)
        requires
            k == offset * ONE,
    ;
    assert(axis_zoom_drift(window, extent, shift, old_scale, new_scale) == a - b + c);
    lemma_floor_div_gap(k, new_scale);
    lemma_floor_div_gap(k, old_scale);
    lemma_floor_div_gap(k * change, square);
    let ra = k - a * new_scale;
    let rb = k - b * old_scale;
    let rc = k * change - c * square;
    assert(0 <= ra <= new_scale - 1);
    assert(0 <= rb <= old_scale - 1);
    assert(0 <= rc <= square - 1);
    let mixed = old_scale * new_scale;
    assert(weight == square * new_scale);
    assert(weight == old_scale * mixed) by (nonlinear_arith)
        requires
            weight == old_scale * old_scale * new_scale,
            mixed == old_scale * new_scale,
    ;
    assert(a * weight == k * square - ra * square) by (nonlinear_arith)
        requires
            ra == k - a * new_scale,
            weight == square * new_scale,
    ;
    assert(b * weight == k * mixed - rb * mixed) by (nonlinear_arith)
        requires
            rb == k - b * old_scale,
            weight == old_scale * mixed,
    ;
    assert(c * weight == k * (change * new_scale) - rc * new_scale) by (nonlinear_arith)
        requires
            rc == k * change - c * square,
            weight == square * new_scale,
    ;
    assert(square - mixed + change * new_scale == change * change) by (nonlinear_arith)
        requires
            square == old_scale * old_scale,
            mixed == old_scale * new_scale,
            change == new_scale - old_scale,
    ;
    assert(k * square - k * mixed + k * (change * new_scale) == k * (change * change))
        by (nonlinear_arith)
        requires
            square - mixed + change * new_scale == change * change,
    ;
    assert(k * (change * change) == k * change * change) by (nonlinear_arith);
    assert((a - b + c) * weight == a * weight - b * weight + c * weight) by (nonlinear_arith);
    assert(0 <= ra * square <= (new_scale - 1) * square) by (nonlinear_arith)
        requires
            0 <= ra <= new_scale - 1,
            square > 0,
    ;
    assert(0 <= rb * mixed <= (old_scale - 1) * mixed) by (nonlinear_arith)
        requires
            0 <= rb <= old_scale - 1,
            mixed == old_scale * new_scale,
            old_scale > 0,
            new_scale > 0,
    ;
    assert(0 <= rc * new_scale <= (square - 1) * new_scale) by (nonlinear_arith)
        requires
            0 <= rc <= square - 1,
            new_scale > 0,
    ;
    assert((new_scale - 1) * square + (square - 1) * new_scale < 2 * weight) by (nonlinear_arith)
        requires
            square == old_scale * old_scale,
            weight == old_scale * old_scale * new_scale,
            old_scale > 0,
            new_scale > 0,
    ;
    assert((old_scale - 1) * mixed < weight) by (nonlinear_arith)
        requires
            weight == old_scale * mixed,
            mixed == old_scale * new_scale,
            old_scale > 0,
            new_scale > 0,
    ;
    assert(offset * ONE * change * change == k * change * change);
    let drift = a - b + c;
    assert((drift - 1) * weight == drift * weight - weight) by (nonlinear_arith);
    assert((drift + 2) * weight == drift * weight + 2 * weight) by (nonlinear_arith);
}

/// A zoom step that does not change the zoom factor leaves the pan offset as
/// it was, wherever the pointer is.
pub proof fn lemma_zoom_without_change(shift: int, offset: int, scale: int)
    requires
        valid_scale(scale),
    ensures
        axis_zoom_shift(shift, offset, scale, scale) == shift,
{
    assert(offset * (scale - scale) * ONE == 0) by (nonlinear_arith);
    assert(scale * scale > 0) by (nonlinear_arith)
        requires
            scale > 0,
    ;
    lemma_div_of0(scale * scale);
}

/// The zoom factor stays admissible under every wheel delta, never falls when
/// scrolling up, and never rises when scrolling down.
pub proof fn lemma_zoom_stays_in_range(scale: int, delta: int)
    requires
        valid_scale(scale),
    ensures
        valid_scale(zoomed_scale(scale, delta)),
        delta >= 0 ==> zoomed_scale(scale, delta) >= scale,
        delta <= 0 ==> zoomed_scale(scale, delta) <= scale,
{
    let raw = (scale * (WHEEL_RANGE + delta)) / (WHEEL_RANGE as int);
    lemma_floor_div_gap(scale * (WHEEL_RANGE + delta), WHEEL_RANGE as int);
    assert(scale * (WHEEL_RANGE + delta) == scale * WHEEL_RANGE + scale * delta)
        by (nonlinear_arith);
    if delta >= 0 {
        assert(scale * delta >= 0) by (nonlinear_arith)
            requires
                scale > 0,
                delta >= 0,
        ;
        assert(raw >= scale);
    }
    if delta <= 0 {
        assert(scale * delta <= 0) by (nonlinear_arith)
            requires
                scale > 0,
                delta <= 0,
        ;
        assert(raw <= scale);
    }
}

/// The zoom factor after a run of wheel deltas, each applied as the pointer
/// state machine applies it.
pub open spec fn scale_after_scrolls(scale: int, deltas: Seq<int>) -> int
    decreases deltas.len(),
{
    if deltas.len() == 0 {
        scale
    } else {
        let before = scale_after_scrolls(scale, deltas.drop_last());
        if zoom_applies(before, deltas.last()) {
            zoomed_scale(before, deltas.last())
        } else {
            before
        }
    }
}

/// However long the user scrolls, in whichever direction, the zoom factor
/// stays between [`MIN_SCALING`] and [`MAX_SCALING`].
pub proof fn lemma_scrolling_stays_in_range(scale: int, deltas: Seq<int>)
    requires
        valid_scale(scale),
    ensures
        valid_scale(scale_after_scrolls(scale, deltas)),
    decreases deltas.len(),
{
    if deltas.len() > 0 {
        lemma_scrolling_stays_in_range(scale, deltas.drop_last());
        lemma_zoom_stays_in_range(scale_after_scrolls(scale, deltas.drop_last()), deltas.last());
    }
}

/// A snapped coordinate is a multiple of the grid size that an `i64` holds,
/// and unless `v` lies beyond the outermost grid lines it is at most half a
/// cell away from `v`.
pub proof fn lemma_snapped_is_near(v: int)
    ensures
        axis_snapped(v) % (GRID_SIZE as int) == 0,
        fits(axis_snapped(v)),
        -MAX_CELL <= nearest_cell(v) <= MAX_CELL ==> -(GRID_SIZE / 2) <= axis_snapped(v) - v
            <= GRID_SIZE / 2,
{
}

/// Snapping is idempotent on one axis.
pub proof fn lemma_axis_snap_idempotent(v: int)
    ensures
        axis_snapped(axis_snapped(v)) == axis_snapped(v),
{
}

/// Snapping a snapped point changes nothing.
pub proof fn lemma_snap_idempotent(pos: Point)
    ensures
        spec_snap_to_grid(spec_snap_to_grid(pos)) == spec_snap_to_grid(pos),
{
    lemma_snapped_is_near(pos.x as int);
    lemma_snapped_is_near(pos.y as int);
    lemma_axis_snap_idempotent(pos.x as int);
    lemma_axis_snap_idempotent(pos.y as int);
}

} // verus!
