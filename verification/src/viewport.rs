//! The view onto the plane: a zoom factor and a pan offset, and the
//! conversions between window positions and canvas positions.
//!
//! A window position is measured from the top-left corner of the drawing
//! surface. A canvas position belongs to the plane that nodes live in.

use vstd::prelude::*;
use vstd::arithmetic::div_mod::lemma_div_of0;
use crate::fixed::{fits, saturate, ONE};
use crate::geometry::{Point, Rectangle, Size, Vector};
use crate::transform::{
    axis_panned, axis_project, axis_to_canvas, axis_to_window, axis_visible_from, axis_zoom_shift,
    clamp_scale, lemma_canvas_round_trip, lemma_window_round_trip, lemma_zoom_at_center,
    panned_axis, project_axis, to_canvas_axis, to_window_axis, valid_scale, visible_from_axis,
    zoom_shift_axis, MAX_SCALING, MIN_SCALING,
};

verus! {

/// The top-left corner of the part of the plane that is visible.
#[derive(Clone, Copy, Debug, PartialEq, Eq, Structural)]
pub struct Region {
    pub x: i64,
    pub y: i64,
}

/// The viewport as a mathematical value.
pub struct ViewportView {
    /// The zoom factor.
    pub scaling: i64,
    /// The pan offset.
    pub translation: Vector,
    /// The last known place of the drawing surface in the window.
    pub bounds: Rectangle,
}

impl ViewportView {
    /// The zoom factor is admissible.
    pub open spec fn wf(self) -> bool {
        valid_scale(self.scaling as int)
    }

    /// The viewport that differs from this one in the zoom factor only.
    pub open spec fn with_scaling(self, scaling: i64) -> ViewportView {
        ViewportView { scaling, ..self }
    }

    /// The viewport that differs from this one in the pan offset only.
    pub open spec fn with_translation(self, translation: Vector) -> ViewportView {
        ViewportView { translation, ..self }
    }

    /// The viewport that differs from this one in the surface bounds only.
    pub open spec fn with_bounds(self, bounds: Rectangle) -> ViewportView {
        ViewportView { bounds, ..self }
    }

    /// The canvas position shown at `window_pos` on a surface with `bounds`.
    pub open spec fn window_to_canvas(self, window_pos: Point, bounds: Rectangle) -> Point {
        Point {
            x: saturate(
                axis_to_canvas(
                    window_pos.x as int,
                    bounds.width as int,
                    self.scaling as int,
                    self.translation.x as int,
                ),
            ) as i64,
            y: saturate(
                axis_to_canvas(
                    window_pos.y as int,
                    bounds.height as int,
                    self.scaling as int,
                    self.translation.y as int,
                ),
            ) as i64,
        }
    }

    /// The window position at which `canvas_pos` is shown on a surface with `bounds`.
    pub open spec fn canvas_to_window(self, canvas_pos: Point, bounds: Rectangle) -> Point {
        Point {
            x: saturate(
                axis_to_window(
                    canvas_pos.x as int,
                    bounds.width as int,
                    self.scaling as int,
                    self.translation.x as int,
                ),
            ) as i64,
            y: saturate(
                axis_to_window(
                    canvas_pos.y as int,
                    bounds.height as int,
                    self.scaling as int,
                    self.translation.y as int,
                ),
            ) as i64,
        }
    }

    /// The top-left corner of the visible part of the plane for a surface of `size`.
    pub open spec fn visible_region(self, size: Size) -> Region {
        Region {
            x: saturate(
                axis_visible_from(
                    size.width as int,
                    self.scaling as int,
                    self.translation.x as int,
                ),
            ) as i64,
            y: saturate(
                axis_visible_from(
                    size.height as int,
                    self.scaling as int,
                    self.translation.y as int,
                ),
            ) as i64,
        }
    }

    /// `position` divided by the zoom factor, measured from the visible region.
    pub open spec fn project(self, position: Point, size: Size) -> Point {
        Point {
            x: saturate(
                axis_project(
                    position.x as int,
                    size.width as int,
                    self.scaling as int,
                    self.translation.x as int,
                ),
            ) as i64,
            y: saturate(
                axis_project(
                    position.y as int,
                    size.height as int,
                    self.scaling as int,
                    self.translation.y as int,
                ),
            ) as i64,
        }
    }

    /// The pan offset that keeps the view anchored near the pointer when the
    /// zoom factor changes to `new_scale`; `offset` is the pointer's position
    /// measured from the middle of the surface.
    pub open spec fn zoom_translation(self, offset: Point, new_scale: i64) -> Vector {
        Vector {
            x: saturate(
                axis_zoom_shift(
                    self.translation.x as int,
                    offset.x as int,
                    self.scaling as int,
                    new_scale as int,
                ),
            ) as i64,
            y: saturate(
                axis_zoom_shift(
                    self.translation.y as int,
                    offset.y as int,
                    self.scaling as int,
                    new_scale as int,
                ),
            ) as i64,
        }
    }

    /// The pan offset while the view is dragged from `start` to `current`,
    /// given the offset it had when the drag began.
    pub open spec fn pan_translation(
        self,
        translation_at_start: Vector,
        start: Point,
        current: Point,
    ) -> Vector {
        Vector {
            x: saturate(
                axis_panned(
                    translation_at_start.x as int,
                    start.x as int,
                    current.x as int,
                    self.scaling as int,
                ),
            ) as i64,
            y: saturate(
                axis_panned(
                    translation_at_start.y as int,
                    start.y as int,
                    current.y as int,
                    self.scaling as int,
                ),
            ) as i64,
        }
    }

    /// Round trip: a canvas position that is carried to the window and back
    /// comes back at most ten millionths to the left of and above where it
    /// was, provided the window position fits the coordinate range.
    pub proof fn lemma_round_trip(self, canvas_pos: Point, bounds: Rectangle)
        requires
            self.wf(),
            fits(
                axis_to_window(
                    canvas_pos.x as int,
                    bounds.width as int,
                    self.scaling as int,
                    self.translation.x as int,
                ),
            ),
            fits(
                axis_to_window(
                    canvas_pos.y as int,
                    bounds.height as int,
                    self.scaling as int,
                    self.translation.y as int,
                ),
            ),
        ensures
            ({
                let back = self.window_to_canvas(self.canvas_to_window(canvas_pos, bounds), bounds);
                &&& 0 <= canvas_pos.x - back.x <= 10
                &&& 0 <= canvas_pos.y - back.y <= 10
            }),
    {
        lemma_canvas_round_trip(
            canvas_pos.x as int,
            bounds.width as int,
            self.scaling as int,
            self.translation.x as int,
        );
        lemma_canvas_round_trip(
            canvas_pos.y as int,
            bounds.height as int,
            self.scaling as int,
            self.translation.y as int,
        );
    }

    /// Round trip the other way: a window position that is carried to the
    /// canvas and back comes back at most two millionths to the left of and
    /// above where it was, provided the canvas position fits the coordinate
    /// range.
    pub proof fn lemma_window_round_trip(self, window_pos: Point, bounds: Rectangle)
        requires
            self.wf(),
            fits(
                axis_to_canvas(
                    window_pos.x as int,
                    bounds.width as int,
                    self.scaling as int,
                    self.translation.x as int,
                ),
            ),
            fits(
                axis_to_canvas(
                    window_pos.y as int,
                    bounds.height as int,
                    self.scaling as int,
                    self.translation.y as int,
                ),
            ),
        ensures
            ({
                let again = self.canvas_to_window(self.window_to_canvas(window_pos, bounds), bounds);
                &&& 0 <= window_pos.x - again.x <= 2
                &&& 0 <= window_pos.y - again.y <= 2
            }),
    {
        lemma_window_round_trip(
            window_pos.x as int,
            bounds.width as int,
            self.scaling as int,
            self.translation.x as int,
        );
        lemma_window_round_trip(
            window_pos.y as int,
            bounds.height as int,
            self.scaling as int,
            self.translation.y as int,
        );
    }

    /// Panning does not drift: the pan offset depends on where the drag began
    /// and where the pointer is, not on the way between them; with the
    /// pointer back where the drag began, the pan offset is what it was.
    pub proof fn lemma_pan_returns(self, translation_at_start: Vector, start: Point)
        requires
            self.wf(),
        ensures
            self.pan_translation(translation_at_start, start, start) == translation_at_start,
    {
        lemma_div_of0(self.scaling as int);
    }

    /// Zoom anchoring at the middle: with the pointer at the middle of the
    /// surface, a zoom step leaves the pan offset as it was, and the canvas
    /// position under the pointer with it.
    pub proof fn lemma_zoom_at_center(self, window_pos: Point, bounds: Rectangle, new_scale: i64)
        requires
            self.wf(),
            valid_scale(new_scale as int),
            window_pos.x - bounds.width / 2 == 0,
            window_pos.y - bounds.height / 2 == 0,
        ensures
            self.zoom_translation(Point { x: 0, y: 0 }, new_scale) == self.translation,
            self.with_scaling(new_scale).with_translation(
                self.zoom_translation(Point { x: 0, y: 0 }, new_scale),
            ).window_to_canvas(window_pos, bounds) == self.window_to_canvas(window_pos, bounds),
    {
        lemma_zoom_at_center(
            window_pos.x as int,
            bounds.width as int,
            self.translation.x as int,
            self.scaling as int,
            new_scale as int,
        );
        lemma_zoom_at_center(
            window_pos.y as int,
            bounds.height as int,
            self.translation.y as int,
            self.scaling as int,
            new_scale as int,
        );
    }
}

/// The zoom factor, the pan offset, and the last known place of the drawing
/// surface in the window. The zoom factor always lies between
/// [`MIN_SCALING`] and [`MAX_SCALING`].
#[derive(Clone, Copy, Debug)]
pub struct Viewport {
    scaling: i64,
    translation: Vector,
    bounds: Rectangle,
}

impl View for Viewport {
    type V = ViewportView;

    closed spec fn view(&self) -> ViewportView {
        ViewportView { scaling: self.scaling, translation: self.translation, bounds: self.bounds }
    }
}

impl Viewport {
    /// The zoom factor is admissible. Every viewport that code can hold
    /// satisfies this.
    #[verifier::type_invariant]
    pub open spec fn wf(self) -> bool {
        self@.wf()
    }

    /// A viewport at zoom factor `1.0` that is not panned, over an empty surface.
    pub fn new() -> (v: Viewport)
        ensures
            v@ == (ViewportView {
                scaling: ONE,
                translation: Vector { x: 0, y: 0 },
                bounds: Rectangle { x: 0, y: 0, width: 0, height: 0 },
            }),
    {
        Viewport {
            scaling: ONE,
            translation: Vector { x: 0, y: 0 },
            bounds: Rectangle { x: 0, y: 0, width: 0, height: 0 },
        }
    }

    pub fn scaling(&self) -> (s: i64)
        ensures
            s == self@.scaling,
            valid_scale(s as int),
    {
        proof {
            use_type_invariant(self);
        }
        self.scaling
    }

    pub fn translation(&self) -> (t: Vector)
        ensures
            t == self@.translation,
    {
        self.translation
    }

    pub fn bounds(&self) -> (b: Rectangle)
        ensures
            b == self@.bounds,
    {
        self.bounds
    }

    pub fn set_bounds(&mut self, bounds: Rectangle)
        ensures
            final(self)@ == old(self)@.with_bounds(bounds),
    {
        proof {
            use_type_invariant(&*self);
        }
        self.bounds = bounds;
    }

    /// Sets the zoom factor to the admissible value nearest to `scaling`.
    pub fn set_scaling(&mut self, scaling: i64)
        ensures
            final(self)@ == old(self)@.with_scaling(clamp_scale(scaling as int) as i64),
    {
        self.scaling = if scaling < MIN_SCALING {
            MIN_SCALING
        } else if scaling > MAX_SCALING {
            MAX_SCALING
        } else {
            scaling
        };
    }

    pub fn set_translation(&mut self, translation: Vector)
        ensures
            final(self)@ == old(self)@.with_translation(translation),
    {
        proof {
            use_type_invariant(&*self);
        }
        self.translation = translation;
    }

    pub fn window_to_canvas(&self, window_pos: Point, bounds: Rectangle) -> (p: Point)
        ensures
            p == self@.window_to_canvas(window_pos, bounds),
    {
        proof {
            use_type_invariant(self);
        }
        Point {
            x: to_canvas_axis(window_pos.x, bounds.width, self.scaling, self.translation.x),
            y: to_canvas_axis(window_pos.y, bounds.height, self.scaling, self.translation.y),
        }
    }

    pub fn canvas_to_window(&self, canvas_pos: Point, bounds: Rectangle) -> (p: Point)
        ensures
            p == self@.canvas_to_window(canvas_pos, bounds),
    {
        proof {
            use_type_invariant(self);
        }
        Point {
            x: to_window_axis(canvas_pos.x, bounds.width, self.scaling, self.translation.x),
            y: to_window_axis(canvas_pos.y, bounds.height, self.scaling, self.translation.y),
        }
    }

    pub fn visible_region(&self, size: Size) -> (region: Region)
        ensures
            region == self@.visible_region(size),
    {
        proof {
            use_type_invariant(self);
        }
        Region {
            x: visible_from_axis(size.width, self.scaling, self.translation.x),
            y: visible_from_axis(size.height, self.scaling, self.translation.y),
        }
    }

    pub fn project(&self, position: Point, size: Size) -> (p: Point)
        ensures
            p == self@.project(position, size),
    {
        proof {
            use_type_invariant(self);
        }
        Point {
            x: project_axis(position.x, size.width, self.scaling, self.translation.x),
            y: project_axis(position.y, size.height, self.scaling, self.translation.y),
        }
    }

    /// The pan offset that goes with a change of the zoom factor to
    /// `new_scale`, with the pointer at `offset` from the middle of the surface.
    pub fn zoom_translation(&self, offset: Point, new_scale: i64) -> (t: Vector)
        requires
            valid_scale(new_scale as int),
        ensures
            t == self@.zoom_translation(offset, new_scale),
    {
        proof {
            use_type_invariant(self);
        }
        Vector {
            x: zoom_shift_axis(self.translation.x, offset.x, self.scaling, new_scale),
            y: zoom_shift_axis(self.translation.y, offset.y, self.scaling, new_scale),
        }
    }

    /// The pan offset while the view is dragged from `start` to `current`.
    pub fn pan_translation(&self, translation_at_start: Vector, start: Point, current: Point) -> (t:
        Vector)
        ensures
            t == self@.pan_translation(translation_at_start, start, current),
    {
        proof {
            use_type_invariant(self);
        }
        Vector {
            x: panned_axis(translation_at_start.x, start.x, current.x, self.scaling),
            y: panned_axis(translation_at_start.y, start.y, current.y, self.scaling),
        }
    }
}

} // verus!
