//! The graph model: the nodes, the edges between them, the selection and the
//! viewport, and the messages that change them.
//!
//! Identifiers are expected to be unique, and both ends of an edge to be
//! nodes of the graph; the model refuses every change that would break this.
//! Edges may repeat. A click on the selected node clears the selection, and
//! so does a click outside every node.

use vstd::prelude::*;
use crate::fixed::saturate_wide;
use crate::geometry::{Point, Rectangle, Size, Vector};
use crate::model::{
    has_node, hit_flags, id_flags, index_of, lookup_key, next_tick, node_at, GraphView,
};
use crate::node::GraphNodeTrait;
use crate::search::{is_first_true, lemma_first_true_is, lemma_first_true_none};
use crate::transform::{snap_to_grid, spec_snap_to_grid};
use crate::viewport::{Region, Viewport};

verus! {

/// A connection from a parent node to a child node, each named by its identifier.
#[derive(Debug, Clone, Copy, PartialEq, Eq, Structural)]
pub struct Edge {
    pub start: u128,
    pub end: u128,
}

/// Why the model refused a change.
#[derive(Debug, Clone, Copy, PartialEq, Eq, Structural)]
pub enum GraphError {
    /// No node has this identifier.
    NodeNotFound(u128),
    /// A node with this identifier is in the graph already.
    DuplicateNode(u128),
}

/// What the canvas asks the model to do.
#[derive(Debug, Clone, Copy, PartialEq, Eq)]
pub enum GraphMessage {
    /// Add a node; below the given parent and linked to it, if there is one.
    InsertNode(Option<u128>),
    /// The user clicked the node.
    ClickNode(u128),
    /// The user clicked where no node is.
    ClickOutsideNode,
    /// The zoom factor changed, and with it perhaps the pan offset.
    Scaled(i64, Option<Vector>),
    /// The pan offset changed.
    Translated(Vector),
    /// The user dragged the node to a canvas position.
    DraggingNode(u128, Point),
    /// The drawing surface has moved or changed its extent.
    UpdateBounds(Rectangle),
}

/// The graph: nodes of one kind, edges, a selection and a viewport.
pub struct Graph<T: GraphNodeTrait> {
    nodes: Vec<T>,
    tick: u128,
    edges: Vec<Edge>,
    viewport: Viewport,
    selected_node: Option<u128>,
    revision: u64,
}

impl<T: GraphNodeTrait> View for Graph<T> {
    type V = GraphView<T>;

    closed spec fn view(&self) -> GraphView<T> {
        GraphView {
            nodes: self.nodes@,
            edges: self.edges@,
            selected: self.selected_node,
            viewport: self.viewport@,
            tick: self.tick,
            revision: self.revision,
        }
    }
}

impl<T: GraphNodeTrait> Default for Graph<T> {
    fn default() -> (graph: Self)
        ensures
            graph@ == GraphView::<T>::empty(),
    {
        Graph::new()
    }
}

impl<T: GraphNodeTrait> Graph<T> {
    /// An empty graph, seen at zoom factor `1.0` and not panned.
    pub fn new() -> (graph: Self)
        ensures
            graph@ == GraphView::<T>::empty(),
            graph@.wf(),
    {
        Graph {
            nodes: Vec::new(),
            tick: 0,
            edges: Vec::new(),
            viewport: Viewport::new(),
            selected_node: None,
            revision: 0,
        }
    }

    fn touch(&mut self)
        ensures
            final(self)@ == old(self)@.touched(),
    {
        self.revision = if self.revision == u64::MAX {
            0
        } else {
            self.revision + 1
        };
    }

    /// Marks every drawing made so far as stale.
    pub fn redraw(&mut self)
        ensures
            final(self)@ == old(self)@.touched(),
    {
        self.touch();
    }

    /// The number that changes with every change to the graph.
    pub fn revision(&self) -> (revision: u64)
        ensures
            revision == self@.revision,
    {
        self.revision
    }

    pub fn nodes(&self) -> (nodes: &Vec<T>)
        ensures
            nodes@ == self@.nodes,
    {
        &self.nodes
    }

    pub fn edges(&self) -> (edges: &Vec<Edge>)
        ensures
            edges@ == self@.edges,
    {
        &self.edges
    }

    pub fn viewport(&self) -> (viewport: &Viewport)
        ensures
            viewport@ == self@.viewport,
    {
        &self.viewport
    }

    pub fn bounds(&self) -> (bounds: Rectangle)
        ensures
            bounds == self@.viewport.bounds,
    {
        self.viewport.bounds()
    }

    pub fn set_bounds(&mut self, bounds: Rectangle)
        ensures
            final(self)@ == old(self)@.with_viewport(
                old(self)@.viewport.with_bounds(bounds),
            ).touched(),
    {
        self.viewport.set_bounds(bounds);
        self.touch();
    }

    /// The identifier of the selected node, if one is selected.
    pub fn selected_id(&self) -> (selected: Option<u128>)
        ensures
            selected == self@.selected,
    {
        self.selected_node
    }

    pub fn set_selected_node(&mut self, node_id: u128)
        ensures
            final(self)@ == old(self)@.with_selected(Some(node_id)).touched(),
    {
        self.selected_node = Some(node_id);
        self.touch();
    }

    pub fn deselect_node(&mut self)
        ensures
            final(self)@ == old(self)@.with_selected(None).touched(),
    {
        self.selected_node = None;
        self.touch();
    }

    /// How many timer ticks the graph has seen.
    pub fn ticks(&self) -> (ticks: u128)
        ensures
            ticks == self@.tick,
    {
        self.tick
    }

    /// Counts one timer tick. A tick changes nothing that is drawn, and so
    /// leaves the revision as it is.
    pub fn tick(&mut self)
        ensures
            final(self)@ == old(self)@.with_tick(next_tick(old(self)@.tick)),
    {
        self.tick = if self.tick == u128::MAX {
            0
        } else {
            self.tick + 1
        };
    }

    /// The index of the first node with the identifier `id`.
    fn position_of(&self, id: u128) -> (position: Option<usize>)
        ensures
            match position {
                Some(i) => index_of(self@.nodes, id) == Some(i as int) && i < self@.nodes.len(),
                None => index_of(self@.nodes, id) is None,
            },
    {
        let mut i: usize = 0;
        while i < self.nodes.len()
            invariant
                i <= self.nodes.len(),
                forall|j: int| 0 <= j < i ==> !id_flags(self.nodes@, id)[j],
            decreases self.nodes.len() - i,
        {
            if self.nodes[i].id() == id {
                proof {
                    assert(is_first_true(id_flags(self.nodes@, id), i as int));
                    lemma_first_true_is(id_flags(self.nodes@, id), i as int);
                }
                return Some(i);
            }
            i += 1;
        }
        proof {
            lemma_first_true_none(id_flags(self.nodes@, id));
        }
        None
    }

    /// The first node whose identifier is `node_id`, or zero where `node_id`
    /// is `None`.
    pub fn get_node(&self, node_id: Option<u128>) -> (node: Option<&T>)
        ensures
            match index_of(self@.nodes, lookup_key(node_id)) {
                Some(i) => node == Some(&self@.nodes[i]),
                None => node is None,
            },
    {
        let key: u128 = match node_id {
            Some(id) => id,
            None => 0,
        };
        match self.position_of(key) {
            Some(i) => Some(&self.nodes[i]),
            None => None,
        }
    }

    /// The first node whose identifier is `node_id`, which must exist.
    pub fn get_node_unsafe(&self, node_id: Option<u128>) -> (node: &T)
        requires
            has_node(self@.nodes, lookup_key(node_id)),
        ensures
            *node == self@.nodes[index_of(self@.nodes, lookup_key(node_id))->0],
    {
        let key: u128 = match node_id {
            Some(id) => id,
            None => 0,
        };
        match self.position_of(key) {
            Some(i) => &self.nodes[i],
            None => {
                proof {
                    assert(false);
                }
                &self.nodes[0]
            },
        }
    }

    /// The selected node, if a node is selected and in the graph.
    pub fn selected_node(&self) -> (node: Option<&T>)
        ensures
            match self@.selected {
                Some(id) => match index_of(self@.nodes, id) {
                    Some(i) => node == Some(&self@.nodes[i]),
                    None => node is None,
                },
                None => node is None,
            },
    {
        match self.selected_node {
            Some(id) => self.get_node(Some(id)),
            None => None,
        }
    }

    /// The first node whose identifier is `node_id`, which must exist, for
    /// changing it in place. The graph moves to its next revision. Whoever
    /// changes the node keeps its identifier as it is.
    pub fn get_node_mut_unsafe(&mut self, node_id: Option<u128>) -> (node: &mut T)
        requires
            has_node(old(self)@.nodes, lookup_key(node_id)),
        ensures
            *node == old(self)@.nodes[index_of(old(self)@.nodes, lookup_key(node_id))->0],
            final(self)@ == old(self)@.with_nodes(
                old(self)@.nodes.update(
                    index_of(old(self)@.nodes, lookup_key(node_id))->0,
                    *final(node),
                ),
            ).touched(),
    {
        let key: u128 = match node_id {
            Some(id) => id,
            None => 0,
        };
        self.touch();
        match self.position_of(key) {
            Some(i) => &mut self.nodes[i],
            None => {
                proof {
                    assert(false);
                }
                &mut self.nodes[0]
            },
        }
    }

    /// The first node whose identifier is `node_id`, or zero where `node_id`
    /// is `None`, for changing it in place. Where there is one, the graph
    /// moves to its next revision. Whoever changes the node keeps its
    /// identifier as it is.
    pub fn get_node_mut(&mut self, node_id: Option<u128>) -> (node: Option<&mut T>)
        ensures
            match index_of(old(self)@.nodes, lookup_key(node_id)) {
                Some(i) => {
                    &&& node matches Some(found)
                    &&& *found == old(self)@.nodes[i]
                    &&& final(self)@ == old(self)@.with_nodes(
                        old(self)@.nodes.update(i, *final(found)),
                    ).touched()
                },
                None => node is None && final(self)@ == old(self)@,
            },
    {
        let key: u128 = match node_id {
            Some(id) => id,
            None => 0,
        };
        match self.position_of(key) {
            Some(i) => {
                self.touch();
                Some(&mut self.nodes[i])
            },
            None => None,
        }
    }

    /// Hit test: the identifier of the first node, in the order of
    /// insertion, on which the canvas position `point` lies.
    pub fn find_node_at(&self, point: Point) -> (found: Option<u128>)
        ensures
            found == node_at(self@.nodes, point),
    {
        let mut i: usize = 0;
        while i < self.nodes.len()
            invariant
                i <= self.nodes.len(),
                forall|j: int| 0 <= j < i ==> !hit_flags(self.nodes@, point)[j],
            decreases self.nodes.len() - i,
        {
            if self.nodes[i].is_in_bounds(point) {
                proof {
                    assert(is_first_true(hit_flags(self.nodes@, point), i as int));
                    lemma_first_true_is(hit_flags(self.nodes@, point), i as int);
                }
                return Some(self.nodes[i].id());
            }
            i += 1;
        }
        proof {
            lemma_first_true_none(hit_flags(self.nodes@, point));
        }
        None
    }

    /// Moves the first node that has the identifier `id` to `anchor`.
    pub fn move_node(&mut self, id: u128, anchor: Point) -> (result: Result<(), GraphError>)
        ensures
            final(self)@ == old(self)@.moved(id, anchor),
            old(self)@.wf() ==> final(self)@.wf(),
            result == (if has_node(old(self)@.nodes, id) {
                Ok::<(), GraphError>(())
            } else {
                Err(GraphError::NodeNotFound(id))
            }),
    {
        proof {
            if old(self)@.wf() {
                old(self)@.lemma_moved_wf(id, anchor);
            }
        }
        match self.position_of(id) {
            Some(i) => {
                self.nodes[i].set_anchor(anchor);
                self.touch();
                Ok(())
            },
            None => Err(GraphError::NodeNotFound(id)),
        }
    }

    /// Appends the edge from `start_node_id` to `end_node_id`, where a start
    /// is given. Both ends must be nodes of the graph.
    pub fn add_edge_between_nodes(&mut self, start_node_id: Option<u128>, end_node_id: u128) -> (result:
        Result<(), GraphError>)
        ensures
            match start_node_id {
                None => result is Ok && final(self)@ == old(self)@,
                Some(start) => if !has_node(old(self)@.nodes, start) {
                    result == Err::<(), GraphError>(GraphError::NodeNotFound(start)) && final(self)@
                        == old(self)@
                } else if !has_node(old(self)@.nodes, end_node_id) {
                    result == Err::<(), GraphError>(GraphError::NodeNotFound(end_node_id))
                        && final(self)@ == old(self)@
                } else {
                    result is Ok && final(self)@ == old(self)@.with_edges(
                        old(self)@.edges.push(Edge { start, end: end_node_id }),
                    ).touched()
                },
            },
            old(self)@.wf() ==> final(self)@.wf(),
    {
        match start_node_id {
            None => Ok(()),
            Some(start) => {
                if self.position_of(start).is_none() {
                    return Err(GraphError::NodeNotFound(start));
                }
                if self.position_of(end_node_id).is_none() {
                    return Err(GraphError::NodeNotFound(end_node_id));
                }
                self.edges.push(Edge { start, end: end_node_id });
                self.touch();
                Ok(())
            },
        }
    }

    /// Appends `node` and, where a parent is given, the edge from the parent
    /// to the node. Refused, with the graph unchanged, where the parent is
    /// not in the graph or the node's identifier is taken.
    pub fn insert_node(&mut self, node: T, parent: Option<u128>) -> (result: Result<(), GraphError>)
        ensures
            match old(self)@.insert_refusal(node.spec_id(), parent) {
                Some(error) => result == Err::<(), GraphError>(error) && final(self)@ == old(self)@,
                None => result is Ok && final(self)@ == old(self)@.inserted(node, parent),
            },
            old(self)@.wf() ==> final(self)@.wf(),
    {
        proof {
            if old(self)@.wf() && old(self)@.insert_refusal(node.spec_id(), parent) is None {
                old(self)@.lemma_inserted_wf(node, parent);
            }
        }
        match parent {
            Some(p) => {
                if self.position_of(p).is_none() {
                    return Err(GraphError::NodeNotFound(p));
                }
            },
            None => {},
        }
        let id: u128 = node.id();
        if self.position_of(id).is_some() {
            return Err(GraphError::DuplicateNode(id));
        }
        self.nodes.push(node);
        match parent {
            Some(p) => {
                self.edges.push(Edge { start: p, end: id });
            },
            None => {},
        }
        self.touch();
        Ok(())
    }

    /// Where a new node under `parent` is placed. The parent, where one is
    /// given, must be in the graph.
    fn place(&self, parent: Option<u128>) -> (position: Point)
        requires
            parent matches Some(p) ==> has_node(self@.nodes, p),
        ensures
            position == self@.placement(parent),
    {
        match parent {
            Some(p) => {
                let found = self.get_node_unsafe(Some(p));
                let anchor = found.anchor();
                let size = found.size();
                Point {
                    x: anchor.x,
                    y: saturate_wide(anchor.y as i128 + 2 * (size.height as i128)),
                }
            },
            None => {
                let bounds = self.bounds();
                self.project(bounds.center(), bounds.size())
            },
        }
    }

    /// Applies a message to the model.
    ///
    /// `InsertNode` makes a node where new nodes are placed and inserts it
    /// under the parent; it is refused where the parent is not in the graph
    /// or, the new node's identifier being random, where that identifier is
    /// taken. `DraggingNode` is refused where the node is not in the graph.
    /// Every other message is applied. A refused message leaves the graph
    /// unchanged.
    pub fn update(&mut self, message: GraphMessage) -> (result: Result<(), GraphError>)
        ensures
            old(self)@.wf() ==> final(self)@.wf(),
            match message {
                GraphMessage::InsertNode(parent) => match result {
                    Ok(_) => {
                        let id = final(self)@.nodes.last().spec_id();
                        &&& old(self)@.insert_refusal(id, parent) is None
                        &&& final(self)@ == old(self)@.with_new_node(parent, id)
                    },
                    Err(error) => {
                        &&& final(self)@ == old(self)@
                        &&& match parent {
                            Some(p) if !has_node(old(self)@.nodes, p) => error
                                == GraphError::NodeNotFound(p),
                            _ => error matches GraphError::DuplicateNode(id) && has_node(
                                old(self)@.nodes,
                                id,
                            ),
                        }
                    },
                },
                _ => match old(self)@.refusal(message) {
                    Some(error) => result == Err::<(), GraphError>(error) && final(self)@ == old(
                        self,
                    )@,
                    None => result is Ok && final(self)@ == old(self)@.applied(message),
                },
            },
            message matches GraphMessage::InsertNode(Some(p)) && !has_node(old(self)@.nodes, p)
                ==> result is Err,
    {
        match message {
            GraphMessage::Scaled(scaling, translation) => {
                self.viewport.set_scaling(scaling);
                match translation {
                    Some(translation) => {
                        self.viewport.set_translation(translation);
                    },
                    None => {},
                }
                self.touch();
                Ok(())
            },
            GraphMessage::Translated(translation) => {
                self.viewport.set_translation(translation);
                self.touch();
                Ok(())
            },
            GraphMessage::ClickNode(node_id) => {
                if self.selected_node == Some(node_id) {
                    self.selected_node = None;
                } else {
                    self.selected_node = Some(node_id);
                }
                self.touch();
                Ok(())
            },
            GraphMessage::InsertNode(parent) => {
                match parent {
                    Some(p) => {
                        if self.position_of(p).is_none() {
                            return Err(GraphError::NodeNotFound(p));
                        }
                    },
                    None => {},
                }
                let position = self.place(parent);
                let node = T::new(position);
                proof {
                    T::lemma_new(position, node.spec_id());
                }
                self.insert_node(node, parent)
            },
            GraphMessage::DraggingNode(id, position) => self.move_node(id, position),
            GraphMessage::ClickOutsideNode => {
                self.selected_node = None;
                self.touch();
                Ok(())
            },
            GraphMessage::UpdateBounds(bounds) => {
                self.viewport.set_bounds(bounds);
                self.touch();
                Ok(())
            },
        }
    }

    /// The top-left corner of the visible part of the plane for a surface of `size`.
    pub fn visible_region(&self, size: Size) -> (region: Region)
        ensures
            region == self@.viewport.visible_region(size),
    {
        self.viewport.visible_region(size)
    }

    /// `position` divided by the zoom factor, measured from the visible region.
    pub fn project(&self, position: Point, size: Size) -> (p: Point)
        ensures
            p == self@.viewport.project(position, size),
    {
        self.viewport.project(position, size)
    }

    /// The canvas position shown at `window_pos` on a surface with `bounds`.
    pub fn window_to_canvas(&self, window_pos: Point, bounds: Rectangle) -> (p: Point)
        ensures
            p == self@.viewport.window_to_canvas(window_pos, bounds),
    {
        self.viewport.window_to_canvas(window_pos, bounds)
    }

    /// The window position at which `canvas_pos` is shown on a surface with `bounds`.
    pub fn canvas_to_window(&self, canvas_pos: Point, bounds: Rectangle) -> (p: Point)
        ensures
            p == self@.viewport.canvas_to_window(canvas_pos, bounds),
    {
        self.viewport.canvas_to_window(canvas_pos, bounds)
    }

    /// Rounds each coordinate to the nearest grid line.
    pub fn snap_to_grid(pos: Point) -> (snapped: Point)
        ensures
            snapped == spec_snap_to_grid(pos),
    {
        snap_to_grid(pos)
    }
}

} // verus!
