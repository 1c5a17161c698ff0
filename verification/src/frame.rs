//! What the renderer produces: a list of drawing commands, in the order in
//! which the drawing surface is to carry them out.

use vstd::prelude::*;
use crate::fixed::ONE;
use crate::geometry::{Point, Size, Vector};

verus! {

/// A colour with fixed-point channels between `0` and [`ONE`].
#[derive(Clone, Copy, Debug, PartialEq, Eq, Structural)]
pub struct Color {
    pub r: i64,
    pub g: i64,
    pub b: i64,
    pub a: i64,
}

impl Color {
    /// Opaque white.
    pub open spec fn spec_white() -> Color {
        Color { r: ONE, g: ONE, b: ONE, a: ONE }
    }

    /// Opaque black.
    pub open spec fn spec_black() -> Color {
        Color { r: 0, g: 0, b: 0, a: ONE }
    }

    /// This colour with another opacity.
    pub open spec fn spec_with_alpha(self, a: i64) -> Color {
        Color { r: self.r, g: self.g, b: self.b, a }
    }

    #[verifier::when_used_as_spec(spec_white)]
    pub fn white() -> (c: Color)
        ensures
            c == Color::spec_white(),
    {
        Color { r: ONE, g: ONE, b: ONE, a: ONE }
    }

    #[verifier::when_used_as_spec(spec_black)]
    pub fn black() -> (c: Color)
        ensures
            c == Color::spec_black(),
    {
        Color { r: 0, g: 0, b: 0, a: ONE }
    }

    #[verifier::when_used_as_spec(spec_with_alpha)]
    pub fn with_alpha(self, a: i64) -> (c: Color)
        ensures
            c == self.spec_with_alpha(a),
    {
        Color { r: self.r, g: self.g, b: self.b, a }
    }
}

/// One step of a drawing. Positions and lengths are canvas coordinates; the
/// transform commands say how later commands map to the surface.
#[derive(Debug, PartialEq, Eq)]
pub enum DrawCommand {
    /// Move the origin of all later commands by a vector.
    Translate(Vector),
    /// Scale all later commands by a fixed-point factor.
    Scale(i64),
    /// Fill the rectangle with the given top-left corner and extent.
    FillRectangle { anchor: Point, size: Size, color: Color },
    /// Write text of the given font size with its top-left corner at a position.
    FillText { content: String, position: Point, font_size: i64, color: Color },
    /// Stroke a straight line of the given width.
    StrokeLine { from: Point, to: Point, width: i64, color: Color },
}

/// A drawing in the making: the commands recorded so far.
#[derive(Debug)]
pub struct Frame {
    commands: Vec<DrawCommand>,
}

impl View for Frame {
    type V = Seq<DrawCommand>;

    closed spec fn view(&self) -> Seq<DrawCommand> {
        self.commands@
    }
}

impl Frame {
    /// A frame with nothing drawn.
    pub fn new() -> (frame: Frame)
        ensures
            frame@ == Seq::<DrawCommand>::empty(),
    {
        Frame { commands: Vec::new() }
    }

    pub fn translate(&mut self, translation: Vector)
        ensures
            final(self)@ == old(self)@.push(DrawCommand::Translate(translation)),
    {
        self.commands.push(DrawCommand::Translate(translation));
    }

    pub fn scale(&mut self, scale: i64)
        ensures
            final(self)@ == old(self)@.push(DrawCommand::Scale(scale)),
    {
        self.commands.push(DrawCommand::Scale(scale));
    }

    pub fn fill_rectangle(&mut self, anchor: Point, size: Size, color: Color)
        ensures
            final(self)@ == old(self)@.push(DrawCommand::FillRectangle { anchor, size, color }),
    {
        self.commands.push(DrawCommand::FillRectangle { anchor, size, color });
    }

    pub fn fill_text(&mut self, content: String, position: Point, font_size: i64, color: Color)
        ensures
            final(self)@ == old(self)@.push(
                DrawCommand::FillText { content, position, font_size, color },
            ),
    {
        self.commands.push(DrawCommand::FillText { content, position, font_size, color });
    }

    pub fn stroke_line(&mut self, from: Point, to: Point, width: i64, color: Color)
        ensures
            final(self)@ == old(self)@.push(DrawCommand::StrokeLine { from, to, width, color }),
    {
        self.commands.push(DrawCommand::StrokeLine { from, to, width, color });
    }

    /// The commands recorded so far, first to last.
    pub fn commands(&self) -> (commands: &Vec<DrawCommand>)
        ensures
            commands@ == self@,
    {
        &self.commands
    }

    /// Gives up the frame for its commands.
    pub fn into_commands(self) -> (commands: Vec<DrawCommand>)
        ensures
            commands@ == self@,
    {
        self.commands
    }
}

} // verus!
