//! The node of a family tree: a person, with an optional sex and name.

use vstd::prelude::*;
use crate::fixed::{plus, saturate, times, ONE};
use crate::frame::{Color, DrawCommand, Frame};
use crate::geometry::{Point, Size, Vector};
use crate::node::GraphNodeTrait;

verus! {

/// The width of every person's rectangle, `128.0`.
pub const NODE_WIDTH: i64 = 128_000_000;

/// The height of every person's rectangle, `96.0`.
pub const NODE_HEIGHT: i64 = 96_000_000;

/// The share of the height left free above the first name, `0.2`.
pub const NODE_PADDING_V: i64 = 200_000;

/// The share of the width left free before the names, `0.2`.
pub const NODE_PADDING_H: i64 = 200_000;

/// The font size of the names, `16.0`.
pub const NODE_FONT_SIZE: i64 = 16_000_000;

/// The gap between the two lines of the name, `5.0`.
pub const NODE_LINE_GAP: i64 = 5_000_000;

#[derive(Debug, Clone, Copy, PartialEq, Eq, Structural)]
pub enum Sex {
    Male,
    Female,
}

/// A person on the canvas.
#[derive(Debug)]
pub struct GenealogicalNode {
    id: u128,
    anchor: Point,
    size: Size,
    sex: Option<Sex>,
    first_name: Option<String>,
    last_name: Option<String>,
}

/// A person as a mathematical value.
pub struct GenealogicalNodeView {
    pub id: u128,
    pub anchor: Point,
    pub size: Size,
    pub sex: Option<Sex>,
    pub first_name: Option<String>,
    pub last_name: Option<String>,
}

/// A fresh random identifier: the value of `uuid::Uuid::new_v4`, read as one
/// number by `Uuid::as_u128`. Nothing is claimed of the value: two calls may
/// return anything, the same number included. Where the operating system
/// cannot supply random bytes, `new_v4` stops the program.
#[verifier::external_body]
fn random_id() -> (id: u128) {
    uuid::Uuid::new_v4().as_u128()
}

/// How far the names begin to the right of the anchor: the width times
/// [`NODE_PADDING_H`].
pub open spec fn name_offset_x(size: Size) -> int {
    saturate((size.width * NODE_PADDING_H) / (ONE as int))
}

/// How far the first name begins below the anchor: the height times
/// [`NODE_PADDING_V`].
pub open spec fn first_name_offset_y(size: Size) -> int {
    saturate((size.height * NODE_PADDING_V) / (ONE as int))
}

/// How far the last name begins below the anchor: one line and a gap below
/// the first name.
pub open spec fn last_name_offset_y(size: Size) -> int {
    saturate(saturate(first_name_offset_y(size) + NODE_FONT_SIZE) + NODE_LINE_GAP)
}

/// The command that writes one line of the name, if there is one.
pub open spec fn name_drawing(name: Option<String>, position: Point) -> Seq<DrawCommand> {
    match name {
        Some(content) => seq![
            DrawCommand::FillText {
                content,
                position,
                font_size: NODE_FONT_SIZE,
                color: Color::spec_black(),
            },
        ],
        None => Seq::empty(),
    }
}

impl GenealogicalNodeView {
    /// Where the first name is written.
    pub open spec fn first_name_position(self) -> Point {
        self.anchor.spec_plus(
            Vector {
                x: name_offset_x(self.size) as i64,
                y: first_name_offset_y(self.size) as i64,
            },
        )
    }

    /// Where the last name is written.
    pub open spec fn last_name_position(self) -> Point {
        self.anchor.spec_plus(
            Vector { x: name_offset_x(self.size) as i64, y: last_name_offset_y(self.size) as i64 },
        )
    }

    /// The first name, then the last name, each where it is written.
    pub open spec fn content(self) -> Seq<DrawCommand> {
        name_drawing(self.first_name, self.first_name_position()) + name_drawing(
            self.last_name,
            self.last_name_position(),
        )
    }
}

impl View for GenealogicalNode {
    type V = GenealogicalNodeView;

    closed spec fn view(&self) -> GenealogicalNodeView {
        GenealogicalNodeView {
            id: self.id,
            anchor: self.anchor,
            size: self.size,
            sex: self.sex,
            first_name: self.first_name,
            last_name: self.last_name,
        }
    }
}

impl GenealogicalNode {
    /// The extent is positive on both axes. Every node that code can hold
    /// satisfies this.
    #[verifier::type_invariant]
    pub open spec fn wf(self) -> bool {
        self@.size.is_positive()
    }

    /// A person with the given identifier at `anchor`, of the usual extent,
    /// with no sex and no name.
    pub fn with_id(id: u128, anchor: Point) -> (node: Self)
        ensures
            node == Self::spec_new(anchor, id),
            node@ == (GenealogicalNodeView {
                id,
                anchor,
                size: Size { width: NODE_WIDTH, height: NODE_HEIGHT },
                sex: None,
                first_name: None,
                last_name: None,
            }),
    {
        GenealogicalNode {
            id,
            anchor,
            size: Size { width: NODE_WIDTH, height: NODE_HEIGHT },
            sex: None,
            first_name: None,
            last_name: None,
        }
    }

    fn draw_first_name(&self, frame: &mut Frame)
        ensures
            final(frame)@ == old(frame)@ + name_drawing(
                self@.first_name,
                self@.first_name_position(),
            ),
    {
        match &self.first_name {
            Some(first_name) => {
                let padding_h: i64 = times(self.size.width, NODE_PADDING_H);
                let padding_v: i64 = times(self.size.height, NODE_PADDING_V);
                let anchor = self.anchor.plus(Vector::new(padding_h, padding_v));
                frame.fill_text(first_name.clone(), anchor, NODE_FONT_SIZE, Color::black());
                assert(final(frame)@ == old(frame)@ + name_drawing(
                    self@.first_name,
                    self@.first_name_position(),
                ));
            },
            None => {
                assert(old(frame)@ + Seq::<DrawCommand>::empty() == old(frame)@);
            },
        }
    }

    fn draw_last_name(&self, frame: &mut Frame)
        ensures
            final(frame)@ == old(frame)@ + name_drawing(
                self@.last_name,
                self@.last_name_position(),
            ),
    {
        match &self.last_name {
            Some(last_name) => {
                let padding_h: i64 = times(self.size.width, NODE_PADDING_H);
                let padding_v: i64 = plus(
                    plus(times(self.size.height, NODE_PADDING_V), NODE_FONT_SIZE),
                    NODE_LINE_GAP,
                );
                let anchor = self.anchor.plus(Vector::new(padding_h, padding_v));
                frame.fill_text(last_name.clone(), anchor, NODE_FONT_SIZE, Color::black());
                assert(final(frame)@ == old(frame)@ + name_drawing(
                    self@.last_name,
                    self@.last_name_position(),
                ));
            },
            None => {
                assert(old(frame)@ + Seq::<DrawCommand>::empty() == old(frame)@);
            },
        }
    }

    pub fn sex(&self) -> (sex: Option<Sex>)
        ensures
            sex == self@.sex,
    {
        self.sex
    }

    pub fn set_sex(&mut self, sex: Sex)
        ensures
            final(self)@ == (GenealogicalNodeView { sex: Some(sex), ..old(self)@ }),
    {
        proof {
            use_type_invariant(&*self);
        }
        self.sex = Some(sex);
    }

    pub fn first_name(&self) -> (name: Option<String>)
        ensures
            name == self@.first_name,
    {
        match &self.first_name {
            Some(name) => Some(name.clone()),
            None => None,
        }
    }

    pub fn set_first_name(&mut self, first_name: String)
        ensures
            final(self)@ == (GenealogicalNodeView { first_name: Some(first_name), ..old(self)@ }),
    {
        proof {
            use_type_invariant(&*self);
        }
        self.first_name = Some(first_name);
    }

    pub fn last_name(&self) -> (name: Option<String>)
        ensures
            name == self@.last_name,
    {
        match &self.last_name {
            Some(name) => Some(name.clone()),
            None => None,
        }
    }

    pub fn set_last_name(&mut self, last_name: String)
        ensures
            final(self)@ == (GenealogicalNodeView { last_name: Some(last_name), ..old(self)@ }),
    {
        proof {
            use_type_invariant(&*self);
        }
        self.last_name = Some(last_name);
    }
}

impl GraphNodeTrait for GenealogicalNode {
    open spec fn spec_id(&self) -> u128 {
        self@.id
    }

    open spec fn spec_anchor(&self) -> Point {
        self@.anchor
    }

    open spec fn spec_size(&self) -> Size {
        self@.size
    }

    open spec fn spec_content(&self) -> Seq<DrawCommand> {
        self@.content()
    }

    closed spec fn spec_new(anchor: Point, id: u128) -> Self {
        GenealogicalNode {
            id,
            anchor,
            size: Size { width: NODE_WIDTH, height: NODE_HEIGHT },
            sex: None,
            first_name: None,
            last_name: None,
        }
    }

    proof fn lemma_new(anchor: Point, id: u128)
        ensures
            Self::spec_new(anchor, id)@ == (GenealogicalNodeView {
                id,
                anchor,
                size: Size { width: NODE_WIDTH, height: NODE_HEIGHT },
                sex: None,
                first_name: None,
                last_name: None,
            }),
    {
    }

    closed spec fn spec_moved_to(&self, anchor: Point) -> Self {
        GenealogicalNode {
            id: self.id,
            anchor,
            size: self.size,
            sex: self.sex,
            first_name: self.first_name,
            last_name: self.last_name,
        }
    }

    proof fn lemma_moved_to(&self, anchor: Point)
        ensures
            self.spec_moved_to(anchor)@ == (GenealogicalNodeView { anchor, ..self@ }),
    {
    }

    /// A person at `anchor` with a random identifier, of the usual extent,
    /// with no sex and no name.
    fn new(anchor: Point) -> (node: Self)
        ensures
            node@ == (GenealogicalNodeView {
                id: node@.id,
                anchor,
                size: Size { width: NODE_WIDTH, height: NODE_HEIGHT },
                sex: None,
                first_name: None,
                last_name: None,
            }),
    {
        GenealogicalNode::with_id(random_id(), anchor)
    }

    fn id(&self) -> (id: u128) {
        self.id
    }

    fn anchor(&self) -> (anchor: Point) {
        self.anchor
    }

    fn set_anchor(&mut self, anchor: Point) {
        proof {
            use_type_invariant(&*self);
        }
        self.anchor = anchor;
    }

    fn size(&self) -> (size: Size) {
        proof {
            use_type_invariant(self);
        }
        self.size
    }

    fn draw_content(&self, frame: &mut Frame) {
        self.draw_first_name(frame);
        self.draw_last_name(frame);
    }
}

} // verus!
