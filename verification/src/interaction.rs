//! The pointer state machine: from an input event, the current interaction
//! and the graph to the next interaction and at most one message for the
//! model. The graph itself is only read.
//!
//! A gesture, which is a drag of a node or of the view, ends when the left
//! or the right button goes up, wherever the pointer is. A drag moves its
//! node only once the pointer is more than [`DRAG_THRESHOLD`] away from
//! where the drag began, on both axes. The right button begins a drag of
//! the view whatever the interaction was. With the pointer off the
//! surface, nothing else has any effect.

use vstd::prelude::*;
use crate::geometry::{Cursor, Point, Rectangle, Vector};
use crate::graph::{Graph, GraphMessage};
use crate::model::{
    has_node, hit_flags, id_flags, index_of, lemma_index_of_moved, lemma_index_of_push, node_at,
    GraphView,
};
use crate::node::GraphNodeTrait;
use crate::search::{first_true, lemma_first_true_exists, lemma_first_true_meaning};
use crate::transform::{
    lemma_zoom_at_center, lemma_zoom_stays_in_range, scale_after_scroll, snap_to_grid,
    spec_snap_to_grid, valid_scale, zoom_applies, zoomed_scale, MAX_SCALING, MIN_SCALING,
};

verus! {

/// How far the pointer must move on each axis before a drag moves its node, `1.0`.
pub const DRAG_THRESHOLD: i64 = 1_000_000;

/// A button of the mouse.
#[derive(Debug, Clone, Copy, PartialEq, Eq, Structural)]
pub enum MouseButton {
    Left,
    Right,
    Middle,
    Back,
    Forward,
    Other(u16),
}

/// How far the wheel was turned, in lines or in pixels.
#[derive(Debug, Clone, Copy, PartialEq, Eq, Structural)]
pub enum ScrollDelta {
    Lines { x: i64, y: i64 },
    Pixels { x: i64, y: i64 },
}

impl ScrollDelta {
    /// The vertical part, whatever the unit.
    pub open spec fn spec_vertical(self) -> i64 {
        match self {
            ScrollDelta::Lines { y, .. } => y,
            ScrollDelta::Pixels { y, .. } => y,
        }
    }

    #[verifier::when_used_as_spec(spec_vertical)]
    pub fn vertical(self) -> (y: i64)
        ensures
            y == self.spec_vertical(),
    {
        match self {
            ScrollDelta::Lines { y, .. } => y,
            ScrollDelta::Pixels { y, .. } => y,
        }
    }
}

/// What the mouse did. Where the pointer is comes with the event, as a
/// [`Cursor`].
#[derive(Debug, Clone, Copy, PartialEq, Eq, Structural)]
pub enum MouseEvent {
    CursorEntered,
    CursorLeft,
    CursorMoved,
    ButtonPressed(MouseButton),
    ButtonReleased(MouseButton),
    WheelScrolled { delta: ScrollDelta },
}

/// An input event that reaches the canvas.
#[derive(Debug, Clone, Copy, PartialEq, Eq, Structural)]
pub enum CanvasEvent {
    Mouse(MouseEvent),
    Touch,
    Keyboard,
}

/// Whether the canvas made use of an event.
#[derive(Debug, Clone, Copy, PartialEq, Eq, Structural)]
pub enum Status {
    Ignored,
    Captured,
}

/// What the user is doing with the pointer.
#[derive(Debug, Clone, Copy, PartialEq, Eq, Structural)]
pub enum GraphInteraction {
    /// Nothing in particular.
    Idle,
    /// Dragging the view with the right button. `translation` is the pan
    /// offset and `start` the pointer position at the moment the drag began.
    Panning { translation: Vector, start: Point },
    /// Resting on the node with this identifier.
    HoverNode(u128),
    /// Dragging the node with this identifier; the point is where the
    /// pointer was when the drag began.
    DraggingNode(u128, Point),
}

impl Default for GraphInteraction {
    fn default() -> (interaction: Self)
        ensures
            interaction == GraphInteraction::Idle,
    {
        GraphInteraction::Idle
    }
}

/// What an event leads to: whether it was used, the message for the model if
/// there is one, and the interaction that follows.
pub struct Outcome {
    pub status: Status,
    pub message: Option<GraphMessage>,
    pub interaction: GraphInteraction,
}

/// Whether the pointer has moved more than [`DRAG_THRESHOLD`] away from
/// `start` on both axes. A drag moves the node only then.
pub open spec fn spec_moved_past_threshold(start: Point, current: Point) -> bool {
    &&& start.x - current.x > DRAG_THRESHOLD || current.x - start.x > DRAG_THRESHOLD
    &&& start.y - current.y > DRAG_THRESHOLD || current.y - start.y > DRAG_THRESHOLD
}

/// Whether `interaction` is a gesture that a button holds: a drag of a node
/// or of the view.
pub open spec fn is_gesture(interaction: GraphInteraction) -> bool {
    interaction is DraggingNode || interaction is Panning
}

/// The interaction after a button went up: the left and the right button end
/// a drag of a node or of the view, and nothing else changes.
pub open spec fn after_release(
    button: MouseButton,
    interaction: GraphInteraction,
) -> GraphInteraction {
    if (button == MouseButton::Left || button == MouseButton::Right) && is_gesture(interaction) {
        GraphInteraction::Idle
    } else {
        interaction
    }
}

/// Whether the node that the interaction names, if it names one, is in the
/// graph.
pub open spec fn names_known_node<T: GraphNodeTrait>(
    interaction: GraphInteraction,
    nodes: Seq<T>,
) -> bool {
    match interaction {
        GraphInteraction::HoverNode(id) => has_node(nodes, id),
        GraphInteraction::DraggingNode(id, _) => has_node(nodes, id),
        _ => true,
    }
}

/// Whether the event is the release of the left or the right button.
pub open spec fn is_release(event: CanvasEvent) -> bool {
    event matches CanvasEvent::Mouse(MouseEvent::ButtonReleased(button)) && (button
        == MouseButton::Left || button == MouseButton::Right)
}

#[verifier::when_used_as_spec(spec_moved_past_threshold)]
pub fn moved_past_threshold(start: Point, current: Point) -> (moved: bool)
    ensures
        moved == spec_moved_past_threshold(start, current),
{
    let dx: i128 = start.x as i128 - current.x as i128;
    let dy: i128 = start.y as i128 - current.y as i128;
    let threshold: i128 = DRAG_THRESHOLD as i128;
    (dx > threshold || -dx > threshold) && (dy > threshold || -dy > threshold)
}

impl<T: GraphNodeTrait> GraphView<T> {
    /// The pointer moved. A drag of a node past the threshold asks for the
    /// node to be moved to the grid point nearest to the pointer; a drag of
    /// the view asks for the pan offset that follows the pointer; otherwise
    /// the pointer comes to rest on the node under it, or on none.
    pub open spec fn on_cursor_moved(
        self,
        pending: Option<GraphMessage>,
        interaction: GraphInteraction,
        cursor_position: Point,
        bounds: Rectangle,
    ) -> Outcome {
        match interaction {
            GraphInteraction::DraggingNode(id, start) => if spec_moved_past_threshold(
                start,
                cursor_position,
            ) {
                Outcome {
                    status: Status::Captured,
                    message: Some(
                        GraphMessage::DraggingNode(
                            id,
                            spec_snap_to_grid(
                                self.viewport.window_to_canvas(cursor_position, bounds),
                            ),
                        ),
                    ),
                    interaction,
                }
            } else {
                Outcome { status: Status::Ignored, message: pending, interaction }
            },
            GraphInteraction::Panning { translation, start } => Outcome {
                status: Status::Captured,
                message: Some(
                    GraphMessage::Translated(
                        self.viewport.pan_translation(translation, start, cursor_position),
                    ),
                ),
                interaction,
            },
            _ => match node_at(
                self.nodes,
                self.viewport.window_to_canvas(cursor_position, bounds),
            ) {
                Some(id) => Outcome {
                    status: Status::Captured,
                    message: pending,
                    interaction: GraphInteraction::HoverNode(id),
                },
                None => Outcome {
                    status: Status::Ignored,
                    message: pending,
                    interaction: GraphInteraction::Idle,
                },
            },
        }
    }

    /// The message after the wheel turned by `delta`. Unless the zoom factor
    /// is at the end of its range in that direction, it asks for the next
    /// zoom factor and for the pan offset that anchors the view at the
    /// pointer; otherwise the pending message stays.
    pub open spec fn wheel_message(
        self,
        delta: i64,
        pending: Option<GraphMessage>,
        cursor: Cursor,
        bounds: Rectangle,
    ) -> Option<GraphMessage> {
        if zoom_applies(self.viewport.scaling as int, delta as int) {
            let scaling = zoomed_scale(self.viewport.scaling as int, delta as int) as i64;
            let translation = match cursor.spec_position_from(bounds.spec_center()) {
                Some(offset) => Some(self.viewport.zoom_translation(offset, scaling)),
                None => None,
            };
            Some(GraphMessage::Scaled(scaling, translation))
        } else {
            pending
        }
    }

    /// The wheel turned by `delta`. The interaction stays as it is.
    pub open spec fn on_wheel_scrolled(
        self,
        delta: i64,
        pending: Option<GraphMessage>,
        interaction: GraphInteraction,
        cursor: Cursor,
        bounds: Rectangle,
    ) -> Outcome {
        Outcome {
            status: Status::Ignored,
            message: self.wheel_message(delta, pending, cursor, bounds),
            interaction,
        }
    }

    /// A button went down. The right button begins a drag of the view. The
    /// left button on the selected node begins a drag of that node, on
    /// another node reports a click on it, and anywhere else reports a click
    /// outside every node.
    pub open spec fn on_button_pressed(
        self,
        button: MouseButton,
        pending: Option<GraphMessage>,
        interaction: GraphInteraction,
        cursor_position: Point,
    ) -> Outcome {
        match button {
            MouseButton::Right => Outcome {
                status: Status::Captured,
                message: pending,
                interaction: GraphInteraction::Panning {
                    translation: self.viewport.translation,
                    start: cursor_position,
                },
            },
            MouseButton::Left => match interaction {
                GraphInteraction::HoverNode(id) => if self.selected == Some(id) {
                    Outcome {
                        status: Status::Captured,
                        message: pending,
                        interaction: GraphInteraction::DraggingNode(id, cursor_position),
                    }
                } else {
                    Outcome {
                        status: Status::Captured,
                        message: Some(GraphMessage::ClickNode(id)),
                        interaction,
                    }
                },
                _ => Outcome {
                    status: Status::Captured,
                    message: Some(GraphMessage::ClickOutsideNode),
                    interaction,
                },
            },
            _ => Outcome { status: Status::Ignored, message: pending, interaction },
        }
    }

    /// A button went up. The left and the right button end a drag of a node
    /// or of the view.
    pub open spec fn on_button_released(
        button: MouseButton,
        pending: Option<GraphMessage>,
        interaction: GraphInteraction,
    ) -> Outcome {
        Outcome {
            status: Status::Ignored,
            message: pending,
            interaction: after_release(button, interaction),
        }
    }

    /// A mouse event with the pointer on the surface, at `cursor_position`
    /// from the surface's top-left corner.
    pub open spec fn on_mouse_event(
        self,
        event: MouseEvent,
        pending: Option<GraphMessage>,
        interaction: GraphInteraction,
        cursor: Cursor,
        cursor_position: Point,
        bounds: Rectangle,
    ) -> Outcome {
        match event {
            MouseEvent::CursorMoved => self.on_cursor_moved(
                pending,
                interaction,
                cursor_position,
                bounds,
            ),
            MouseEvent::WheelScrolled { delta } => self.on_wheel_scrolled(
                delta.spec_vertical(),
                pending,
                interaction,
                cursor,
                bounds,
            ),
            MouseEvent::ButtonReleased(button) => Self::on_button_released(
                button,
                pending,
                interaction,
            ),
            MouseEvent::ButtonPressed(button) => self.on_button_pressed(
                button,
                pending,
                interaction,
                cursor_position,
            ),
            _ => Outcome { status: Status::Ignored, message: pending, interaction },
        }
    }

    /// What an event leads to.
    ///
    /// Where the surface bounds differ from the stored ones, a message that
    /// reports them is pending; it is sent unless the event has a message of
    /// its own. With the pointer off the surface, the only event that has
    /// any effect is the release of a button, which ends a drag. With the
    /// pointer on the surface, mouse events are handled by kind, and other
    /// events are ignored.
    pub open spec fn on_event(
        self,
        event: CanvasEvent,
        interaction: GraphInteraction,
        cursor: Cursor,
        bounds: Rectangle,
    ) -> Outcome {
        let pending = if bounds != self.viewport.bounds {
            Some(GraphMessage::UpdateBounds(bounds))
        } else {
            None
        };
        match cursor.spec_position_in(bounds) {
            Some(cursor_position) => match event {
                CanvasEvent::Mouse(mouse_event) => self.on_mouse_event(
                    mouse_event,
                    pending,
                    interaction,
                    cursor,
                    cursor_position,
                    bounds,
                ),
                _ => Outcome { status: Status::Ignored, message: pending, interaction },
            },
            None => Outcome {
                status: Status::Ignored,
                message: pending,
                interaction: match event {
                    CanvasEvent::Mouse(MouseEvent::ButtonReleased(button)) => after_release(
                        button,
                        interaction,
                    ),
                    _ => interaction,
                },
            },
        }
    }

    /// No gesture outlives its button: the release of the left or the right
    /// button ends a drag of a node or of the view, wherever the pointer is.
    pub proof fn lemma_release_ends_gesture(
        self,
        event: CanvasEvent,
        interaction: GraphInteraction,
        cursor: Cursor,
        bounds: Rectangle,
    )
        requires
            is_release(event),
            is_gesture(interaction),
        ensures
            self.on_event(event, interaction, cursor, bounds).interaction
                == GraphInteraction::Idle,
    {
    }

    /// Turning the wheel never changes the interaction, and the zoom factor
    /// it asks for is admissible.
    pub proof fn lemma_wheel(
        self,
        delta: ScrollDelta,
        interaction: GraphInteraction,
        cursor: Cursor,
        bounds: Rectangle,
    )
        requires
            self.viewport.wf(),
        ensures
            ({
                let outcome = self.on_event(
                    CanvasEvent::Mouse(MouseEvent::WheelScrolled { delta }),
                    interaction,
                    cursor,
                    bounds,
                );
                &&& outcome.interaction == interaction
                &&& outcome.message matches Some(GraphMessage::Scaled(scaling, _)) ==> valid_scale(
                    scaling as int,
                )
            }),
    {
        lemma_zoom_stays_in_range(
            self.viewport.scaling as int,
            delta.spec_vertical() as int,
        );
    }

    /// Zooming about the middle: with the pointer at the middle of the
    /// surface, a turn of the wheel that changes the zoom factor asks for the
    /// next zoom factor and leaves the pan offset as it is.
    pub proof fn lemma_wheel_at_center(
        self,
        delta: ScrollDelta,
        interaction: GraphInteraction,
        cursor: Cursor,
        bounds: Rectangle,
    )
        requires
            self.viewport.wf(),
            cursor.spec_position_in(bounds) is Some,
            cursor.spec_position_from(bounds.spec_center()) == Some(Point { x: 0, y: 0 }),
            zoom_applies(self.viewport.scaling as int, delta.spec_vertical() as int),
        ensures
            self.on_event(
                CanvasEvent::Mouse(MouseEvent::WheelScrolled { delta }),
                interaction,
                cursor,
                bounds,
            ).message == Some(
                GraphMessage::Scaled(
                    zoomed_scale(self.viewport.scaling as int, delta.spec_vertical() as int) as i64,
                    Some(self.viewport.translation),
                ),
            ),
    {
        let scaling = zoomed_scale(self.viewport.scaling as int, delta.spec_vertical() as int);
        lemma_zoom_stays_in_range(self.viewport.scaling as int, delta.spec_vertical() as int);
        lemma_zoom_at_center(
            0,
            0,
            self.viewport.translation.x as int,
            self.viewport.scaling as int,
            scaling,
        );
        lemma_zoom_at_center(
            0,
            0,
            self.viewport.translation.y as int,
            self.viewport.scaling as int,
            scaling,
        );
    }

    /// The canvas and the model agree. An interaction that names a node of
    /// the graph is followed by one that does; and then the message of the
    /// event, if there is one, is none that inserts a node and none that the
    /// model refuses.
    pub proof fn lemma_model_accepts(
        self,
        event: CanvasEvent,
        interaction: GraphInteraction,
        cursor: Cursor,
        bounds: Rectangle,
    )
        requires
            names_known_node(interaction, self.nodes),
        ensures
            ({
                let outcome = self.on_event(event, interaction, cursor, bounds);
                &&& names_known_node(outcome.interaction, self.nodes)
                &&& outcome.message matches Some(message) ==> !(message is InsertNode)
                    && self.refusal(message) is None
            }),
    {
        self.lemma_messages_name_known_nodes(event, interaction, cursor, bounds);
    }

    /// An interaction that names a node of the graph still does after any
    /// message other than `InsertNode` is applied, and after a node is
    /// inserted: nodes come and move, and never go.
    pub proof fn lemma_known_node_stays(
        self,
        interaction: GraphInteraction,
        message: GraphMessage,
        node: T,
        parent: Option<u128>,
    )
        requires
            names_known_node(interaction, self.nodes),
        ensures
            names_known_node(interaction, self.applied(message).nodes),
            names_known_node(interaction, self.inserted(node, parent).nodes),
    {
        let id = match interaction {
            GraphInteraction::HoverNode(id) => id,
            GraphInteraction::DraggingNode(id, _) => id,
            _ => 0,
        };
        if interaction is HoverNode || interaction is DraggingNode {
            lemma_index_of_push(self.nodes, node, id);
            if let GraphMessage::DraggingNode(moved, position) = message {
                if let Some(i) = index_of(self.nodes, moved) {
                    lemma_first_true_meaning(id_flags(self.nodes, moved));
                    lemma_index_of_moved(self.nodes, i, position, id);
                }
            }
        }
    }

    /// Events only ever ask to click or drag a node that the pointer rests
    /// on or drags already, and a pointer only comes to rest on a node of
    /// the graph.
    pub proof fn lemma_messages_name_known_nodes(
        self,
        event: CanvasEvent,
        interaction: GraphInteraction,
        cursor: Cursor,
        bounds: Rectangle,
    )
        ensures
            ({
                let outcome = self.on_event(event, interaction, cursor, bounds);
                &&& outcome.message matches Some(GraphMessage::ClickNode(id)) ==> interaction
                    == GraphInteraction::HoverNode(id)
                &&& outcome.message matches Some(GraphMessage::DraggingNode(id, _))
                    ==> interaction matches GraphInteraction::DraggingNode(dragged, _) && dragged
                    == id
                &&& outcome.interaction matches GraphInteraction::HoverNode(id) ==> interaction
                    == GraphInteraction::HoverNode(id) || has_node(self.nodes, id)
            }),
    {
        let outcome = self.on_event(event, interaction, cursor, bounds);
        if let GraphInteraction::HoverNode(id) = outcome.interaction {
            if interaction != GraphInteraction::HoverNode(id) {
                let cursor_position = cursor.spec_position_in(bounds)->0;
                let point = self.viewport.window_to_canvas(cursor_position, bounds);
                lemma_first_true_meaning(hit_flags(self.nodes, point));
                let i = first_true(hit_flags(self.nodes, point))->0;
                assert(id_flags(self.nodes, id)[i]);
                lemma_first_true_exists(id_flags(self.nodes, id), i);
            }
        }
    }
}

impl<T: GraphNodeTrait> Graph<T> {
    fn on_cursor_moved(
        &self,
        message: Option<GraphMessage>,
        interaction: &mut GraphInteraction,
        cursor_position: Point,
        bounds: Rectangle,
    ) -> (result: (Status, Option<GraphMessage>))
        ensures
            (Outcome { status: result.0, message: result.1, interaction: *final(interaction) })
                == self@.on_cursor_moved(message, *old(interaction), cursor_position, bounds),
    {
        match *interaction {
            GraphInteraction::DraggingNode(id, start) => {
                if moved_past_threshold(start, cursor_position) {
                    let offset = self.window_to_canvas(cursor_position, bounds);
                    (Status::Captured, Some(GraphMessage::DraggingNode(id, snap_to_grid(offset))))
                } else {
                    (Status::Ignored, message)
                }
            },
            GraphInteraction::Panning { translation, start } => {
                let moved = self.viewport().pan_translation(translation, start, cursor_position);
                (Status::Captured, Some(GraphMessage::Translated(moved)))
            },
            _ => {
                let canvas_position = self.window_to_canvas(cursor_position, bounds);
                match self.find_node_at(canvas_position) {
                    Some(id) => {
                        *interaction = GraphInteraction::HoverNode(id);
                        (Status::Captured, message)
                    },
                    None => {
                        *interaction = GraphInteraction::Idle;
                        (Status::Ignored, message)
                    },
                }
            },
        }
    }

    fn on_wheel_scrolled(
        &self,
        delta: i64,
        message: Option<GraphMessage>,
        cursor: Cursor,
        bounds: Rectangle,
    ) -> (result: Option<GraphMessage>)
        ensures
            result == self@.wheel_message(delta, message, cursor, bounds),
    {
        let old_scaling: i64 = self.viewport().scaling();
        if delta < 0 && old_scaling > MIN_SCALING || delta > 0 && old_scaling < MAX_SCALING {
            let scaling: i64 = scale_after_scroll(old_scaling, delta);
            let translation = match cursor.position_from(bounds.center()) {
                Some(offset) => Some(self.viewport().zoom_translation(offset, scaling)),
                None => None,
            };
            Some(GraphMessage::Scaled(scaling, translation))
        } else {
            message
        }
    }

    fn on_button_pressed(
        &self,
        button: MouseButton,
        message: Option<GraphMessage>,
        interaction: &mut GraphInteraction,
        cursor_position: Point,
    ) -> (result: (Status, Option<GraphMessage>))
        ensures
            (Outcome { status: result.0, message: result.1, interaction: *final(interaction) })
                == self@.on_button_pressed(button, message, *old(interaction), cursor_position),
    {
        match button {
            MouseButton::Right => {
                *interaction = GraphInteraction::Panning {
                    translation: self.viewport().translation(),
                    start: cursor_position,
                };
                (Status::Captured, message)
            },
            MouseButton::Left => {
                match *interaction {
                    GraphInteraction::HoverNode(id) => {
                        if self.selected_id() == Some(id) {
                            *interaction = GraphInteraction::DraggingNode(id, cursor_position);
                            (Status::Captured, message)
                        } else {
                            (Status::Captured, Some(GraphMessage::ClickNode(id)))
                        }
                    },
                    _ => (Status::Captured, Some(GraphMessage::ClickOutsideNode)),
                }
            },
            _ => (Status::Ignored, message),
        }
    }

    fn on_button_released(button: MouseButton, interaction: &mut GraphInteraction)
        ensures
            *final(interaction) == after_release(button, *old(interaction)),
    {
        match button {
            MouseButton::Left | MouseButton::Right => {
                match *interaction {
                    GraphInteraction::DraggingNode(..) | GraphInteraction::Panning { .. } => {
                        *interaction = GraphInteraction::Idle;
                    },
                    _ => {},
                }
            },
            _ => {},
        }
    }

    fn on_mouse_event(
        &self,
        event: MouseEvent,
        message: Option<GraphMessage>,
        interaction: &mut GraphInteraction,
        cursor: Cursor,
        cursor_position: Point,
        bounds: Rectangle,
    ) -> (result: (Status, Option<GraphMessage>))
        ensures
            (Outcome { status: result.0, message: result.1, interaction: *final(interaction) })
                == self@.on_mouse_event(
                event,
                message,
                *old(interaction),
                cursor,
                cursor_position,
                bounds,
            ),
    {
        match event {
            MouseEvent::CursorMoved => self.on_cursor_moved(
                message,
                interaction,
                cursor_position,
                bounds,
            ),
            MouseEvent::WheelScrolled { delta } => {
                let scaled = self.on_wheel_scrolled(delta.vertical(), message, cursor, bounds);
                (Status::Ignored, scaled)
            },
            MouseEvent::ButtonReleased(button) => {
                Self::on_button_released(button, interaction);
                (Status::Ignored, message)
            },
            MouseEvent::ButtonPressed(button) => self.on_button_pressed(
                button,
                message,
                interaction,
                cursor_position,
            ),
            _ => (Status::Ignored, message),
        }
    }

    /// Handles one input event: moves `interaction` on and returns whether
    /// the event was used and the message for the model, if there is one.
    pub fn on_event(
        &self,
        event: CanvasEvent,
        interaction: &mut GraphInteraction,
        cursor: Cursor,
        bounds: Rectangle,
    ) -> (result: (Status, Option<GraphMessage>))
        ensures
            (Outcome { status: result.0, message: result.1, interaction: *final(interaction) })
                == self@.on_event(event, *old(interaction), cursor, bounds),
    {
        let message = if bounds != self.bounds() {
            Some(GraphMessage::UpdateBounds(bounds))
        } else {
            None
        };
        match cursor.position_in(bounds) {
            Some(cursor_position) => match event {
                CanvasEvent::Mouse(mouse_event) => self.on_mouse_event(
                    mouse_event,
                    message,
                    interaction,
                    cursor,
                    cursor_position,
                    bounds,
                ),
                _ => (Status::Ignored, message),
            },
            None => {
                match event {
                    CanvasEvent::Mouse(MouseEvent::ButtonReleased(button)) => {
                        Self::on_button_released(button, interaction);
                    },
                    _ => {},
                }
                (Status::Ignored, message)
            },
        }
    }
}

} // verus!
