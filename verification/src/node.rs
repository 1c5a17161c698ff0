//! What the canvas asks of a node: an identity, a place, an extent, and a way
//! to draw what the node holds.

use vstd::prelude::*;
use crate::fixed::ONE;
use crate::frame::{Color, DrawCommand, Frame};
use crate::geometry::{Point, Size};

verus! {

/// Whether the rectangle with top-left corner `anchor` and extent `size`
/// contains `point`. All four edges belong to the rectangle.
pub open spec fn rect_contains(anchor: Point, size: Size, point: Point) -> bool {
    &&& anchor.x <= point.x <= anchor.x + size.width
    &&& anchor.y <= point.y <= anchor.y + size.height
}

/// The colour that a node's rectangle is filled with: white, at half opacity
/// while the pointer hovers over the node.
pub open spec fn fill_color(hovered: bool) -> Color {
    if hovered {
        Color::spec_white().spec_with_alpha((ONE / 2) as i64)
    } else {
        Color::spec_white()
    }
}

/// A node of the graph. The canvas is written against this trait, so that a
/// new kind of node needs no change to the canvas.
pub trait GraphNodeTrait: Sized {
    /// The identifier, which never changes.
    spec fn spec_id(&self) -> u128;

    /// The top-left corner, in canvas coordinates.
    spec fn spec_anchor(&self) -> Point;

    /// The extent, positive on both axes.
    spec fn spec_size(&self) -> Size;

    /// The commands that draw what the node holds, on top of its rectangle.
    spec fn spec_content(&self) -> Seq<DrawCommand>;

    /// The node that `new` makes at `anchor` when the identifier it comes up
    /// with is `id`.
    spec fn spec_new(anchor: Point, id: u128) -> Self;

    /// A new node lies at the anchor it was made for and has the identifier
    /// it was given.
    proof fn lemma_new(anchor: Point, id: u128)
        ensures
            Self::spec_new(anchor, id).spec_anchor() == anchor,
            Self::spec_new(anchor, id).spec_id() == id,
    ;

    /// This node at another place.
    spec fn spec_moved_to(&self, anchor: Point) -> Self;

    /// Moving a node changes where it is, and neither which node it is nor
    /// how large it is.
    proof fn lemma_moved_to(&self, anchor: Point)
        ensures
            self.spec_moved_to(anchor).spec_anchor() == anchor,
            self.spec_moved_to(anchor).spec_id() == self.spec_id(),
            self.spec_moved_to(anchor).spec_size() == self.spec_size(),
    ;

    /// A node at `anchor` with an identifier of its own. Which identifier
    /// is up to the implementation; everything else about the node follows
    /// from the anchor.
    fn new(anchor: Point) -> (node: Self)
        ensures
            node == Self::spec_new(anchor, node.spec_id()),
    ;

    fn id(&self) -> (id: u128)
        ensures
            id == self.spec_id(),
    ;

    fn anchor(&self) -> (anchor: Point)
        ensures
            anchor == self.spec_anchor(),
    ;

    /// Moves the node. Its identifier and its extent stay as they are.
    fn set_anchor(&mut self, anchor: Point)
        ensures
            *final(self) == old(self).spec_moved_to(anchor),
    ;

    fn size(&self) -> (size: Size)
        ensures
            size == self.spec_size(),
            size.is_positive(),
    ;

    /// Appends the commands that draw what the node holds.
    fn draw_content(&self, frame: &mut Frame)
        ensures
            final(frame)@ == old(frame)@ + self.spec_content(),
    ;

    /// Draws the node: its rectangle, then what it holds.
    fn draw(&self, frame: &mut Frame, hovered: bool)
        ensures
            final(frame)@ == old(frame)@.push(
                DrawCommand::FillRectangle {
                    anchor: self.spec_anchor(),
                    size: self.spec_size(),
                    color: fill_color(hovered),
                },
            ) + self.spec_content(),
    {
        let color = if hovered {
            Color::white().with_alpha(ONE / 2)
        } else {
            Color::white()
        };
        frame.fill_rectangle(self.anchor(), self.size(), color);
        self.draw_content(frame);
    }

    /// Whether `point` lies on the node, edges included.
    fn is_in_bounds(&self, point: Point) -> (inside: bool)
        ensures
            inside == rect_contains(self.spec_anchor(), self.spec_size(), point),
    {
        let anchor = self.anchor();
        let size = self.size();
        point.x >= anchor.x && point.x as i128 <= anchor.x as i128 + size.width as i128
            && point.y >= anchor.y && point.y as i128 <= anchor.y as i128 + size.height as i128
    }
}

/// Everything that drawing a node appends: its filled rectangle, then what
/// the node holds.
pub open spec fn node_drawing<T: GraphNodeTrait>(node: &T, hovered: bool) -> Seq<DrawCommand> {
    seq![
        DrawCommand::FillRectangle {
            anchor: node.spec_anchor(),
            size: node.spec_size(),
            color: fill_color(hovered),
        },
    ] + node.spec_content()
}

/// Whether `point` lies on the node, edges included.
pub open spec fn node_contains<T: GraphNodeTrait>(node: &T, point: Point) -> bool {
    rect_contains(node.spec_anchor(), node.spec_size(), point)
}

} // verus!
