//! The graph as a mathematical value: what a lookup finds, what each change
//! leads to, and what stays true of a graph through every change.

use vstd::prelude::*;
use crate::fixed::{saturate, ONE};
use crate::geometry::{Point, Rectangle, Size, Vector};
use crate::graph::{Edge, GraphError, GraphMessage};
use crate::node::{node_contains, GraphNodeTrait};
use crate::search::{
    first_true, is_first_true, lemma_first_true_exists, lemma_first_true_is,
    lemma_first_true_meaning, lemma_first_true_none,
};
use crate::transform::clamp_scale;
use crate::viewport::ViewportView;

verus! {

/// For each node, whether it has the identifier `id`.
pub open spec fn id_flags<T: GraphNodeTrait>(nodes: Seq<T>, id: u128) -> Seq<bool> {
    Seq::new(nodes.len(), |i: int| nodes[i].spec_id() == id)
}

/// The index of the first node with the identifier `id`.
pub open spec fn index_of<T: GraphNodeTrait>(nodes: Seq<T>, id: u128) -> Option<int> {
    first_true(id_flags(nodes, id))
}

/// Whether some node has the identifier `id`.
pub open spec fn has_node<T: GraphNodeTrait>(nodes: Seq<T>, id: u128) -> bool {
    index_of(nodes, id) is Some
}

/// For each node, whether `point` lies on it.
pub open spec fn hit_flags<T: GraphNodeTrait>(nodes: Seq<T>, point: Point) -> Seq<bool> {
    Seq::new(nodes.len(), |i: int| node_contains(&nodes[i], point))
}

/// The identifier of the first node, in the order of insertion, on which
/// `point` lies.
pub open spec fn node_at<T: GraphNodeTrait>(nodes: Seq<T>, point: Point) -> Option<u128> {
    match first_true(hit_flags(nodes, point)) {
        Some(i) => Some(nodes[i].spec_id()),
        None => None,
    }
}

/// No two nodes share an identifier.
pub open spec fn ids_unique<T: GraphNodeTrait>(nodes: Seq<T>) -> bool {
    forall|i: int, j: int|
        0 <= i < j < nodes.len() ==> (#[trigger] nodes[i]).spec_id() != (#[trigger] nodes[j]).spec_id()
}

/// Both ends of every edge are nodes of the graph.
pub open spec fn edges_resolve<T: GraphNodeTrait>(nodes: Seq<T>, edges: Seq<Edge>) -> bool {
    forall|k: int|
        0 <= k < edges.len() ==> has_node(nodes, (#[trigger] edges[k]).start) && has_node(
            nodes,
            edges[k].end,
        )
}

/// The identifier that a lookup searches for: the given one, or zero where
/// none is given.
pub open spec fn lookup_key(node_id: Option<u128>) -> u128 {
    match node_id {
        Some(id) => id,
        None => 0,
    }
}

/// The selection after a click on the node `id`: a click on the selected
/// node clears the selection, a click on another node selects that one.
pub open spec fn toggled(selected: Option<u128>, id: u128) -> Option<u128> {
    if selected == Some(id) {
        None
    } else {
        Some(id)
    }
}

/// The revision that follows `revision`. It differs from `revision`.
pub open spec fn next_revision(revision: u64) -> u64 {
    if revision == u64::MAX {
        0
    } else {
        (revision + 1) as u64
    }
}

/// The tick count that follows `tick`.
pub open spec fn next_tick(tick: u128) -> u128 {
    if tick == u128::MAX {
        0
    } else {
        (tick + 1) as u128
    }
}

/// Where a child of `parent` is placed: straight below it, twice the
/// parent's height down.
pub open spec fn below<T: GraphNodeTrait>(parent: &T) -> Point {
    Point {
        x: parent.spec_anchor().x,
        y: saturate(parent.spec_anchor().y + 2 * parent.spec_size().height) as i64,
    }
}

/// The graph as a mathematical value.
pub struct GraphView<T> {
    /// The nodes, in the order of insertion.
    pub nodes: Seq<T>,
    /// The edges, in the order of insertion.
    pub edges: Seq<Edge>,
    /// The identifier of the selected node, if one is selected.
    pub selected: Option<u128>,
    pub viewport: ViewportView,
    /// How many timer ticks the graph has seen.
    pub tick: u128,
    /// A number that changes with every change to the graph. A drawing made
    /// at one revision is stale at any other.
    pub revision: u64,
}

impl<T: GraphNodeTrait> GraphView<T> {
    /// The graph with no nodes, seen at zoom factor `1.0` and not panned.
    pub open spec fn empty() -> Self {
        GraphView {
            nodes: Seq::empty(),
            edges: Seq::empty(),
            selected: None,
            viewport: ViewportView {
                scaling: ONE,
                translation: Vector { x: 0, y: 0 },
                bounds: Rectangle { x: 0, y: 0, width: 0, height: 0 },
            },
            tick: 0,
            revision: 0,
        }
    }

    /// The graph is well formed: identifiers are unique, and no edge dangles.
    pub open spec fn wf(self) -> bool {
        &&& ids_unique(self.nodes)
        &&& edges_resolve(self.nodes, self.edges)
    }

    /// This graph at its next revision.
    pub open spec fn touched(self) -> Self {
        GraphView { revision: next_revision(self.revision), ..self }
    }

    pub open spec fn with_selected(self, selected: Option<u128>) -> Self {
        GraphView { selected, ..self }
    }

    pub open spec fn with_viewport(self, viewport: ViewportView) -> Self {
        GraphView { viewport, ..self }
    }

    pub open spec fn with_nodes(self, nodes: Seq<T>) -> Self {
        GraphView { nodes, ..self }
    }

    pub open spec fn with_edges(self, edges: Seq<Edge>) -> Self {
        GraphView { edges, ..self }
    }

    pub open spec fn with_tick(self, tick: u128) -> Self {
        GraphView { tick, ..self }
    }

    /// Where a new node is placed: below its parent, or, without a parent,
    /// at the middle of the stored surface bounds as the viewport projects it.
    pub open spec fn placement(self, parent: Option<u128>) -> Point {
        match parent {
            Some(id) if has_node(self.nodes, id) => below(&self.nodes[index_of(self.nodes, id)->0]),
            _ => self.viewport.project(
                self.viewport.bounds.spec_center(),
                Size {
                    width: self.viewport.bounds.width,
                    height: self.viewport.bounds.height,
                },
            ),
        }
    }

    /// Why `node` cannot be inserted under `parent`, if it cannot: the parent
    /// is missing, or the node's identifier is taken.
    pub open spec fn insert_refusal(self, id: u128, parent: Option<u128>) -> Option<GraphError> {
        match parent {
            Some(p) if !has_node(self.nodes, p) => Some(GraphError::NodeNotFound(p)),
            _ => if has_node(self.nodes, id) {
                Some(GraphError::DuplicateNode(id))
            } else {
                None
            },
        }
    }

    /// The graph with `node` appended and, where there is a parent, the edge
    /// from the parent to the node appended.
    pub open spec fn inserted(self, node: T, parent: Option<u128>) -> Self {
        let edges = match parent {
            Some(p) => self.edges.push(Edge { start: p, end: node.spec_id() }),
            None => self.edges,
        };
        self.with_nodes(self.nodes.push(node)).with_edges(edges).touched()
    }

    /// The graph with the first node that has the identifier `id` moved to
    /// `anchor`; the graph itself where no node has it.
    pub open spec fn moved(self, id: u128, anchor: Point) -> Self {
        match index_of(self.nodes, id) {
            Some(i) => self.with_nodes(
                self.nodes.update(i, self.nodes[i].spec_moved_to(anchor)),
            ).touched(),
            None => self,
        }
    }

    /// The graph with the zoom factor set to the admissible value nearest to
    /// `scaling`, and with the pan offset replaced where one is given.
    pub open spec fn scaled(self, scaling: i64, translation: Option<Vector>) -> Self {
        let zoomed = self.viewport.with_scaling(clamp_scale(scaling as int) as i64);
        let viewport = match translation {
            Some(t) => zoomed.with_translation(t),
            None => zoomed,
        };
        self.with_viewport(viewport).touched()
    }

    /// The graph after a message other than `InsertNode`, which this leaves
    /// alone: a new node has a random identifier, and so no one graph follows.
    pub open spec fn applied(self, message: GraphMessage) -> Self {
        match message {
            GraphMessage::Scaled(scaling, translation) => self.scaled(scaling, translation),
            GraphMessage::Translated(translation) => self.with_viewport(
                self.viewport.with_translation(translation),
            ).touched(),
            GraphMessage::ClickNode(id) => self.with_selected(toggled(self.selected, id)).touched(),
            GraphMessage::ClickOutsideNode => self.with_selected(None).touched(),
            GraphMessage::DraggingNode(id, position) => self.moved(id, position),
            GraphMessage::UpdateBounds(bounds) => self.with_viewport(
                self.viewport.with_bounds(bounds),
            ).touched(),
            GraphMessage::InsertNode(_) => self,
        }
    }

    /// Why a message other than `InsertNode` is refused, if it is: only a
    /// drag of a node that is not in the graph is.
    pub open spec fn refusal(self, message: GraphMessage) -> Option<GraphError> {
        match message {
            GraphMessage::DraggingNode(id, _) if !has_node(self.nodes, id) => Some(
                GraphError::NodeNotFound(id),
            ),
            _ => None,
        }
    }

    /// The graph after `InsertNode`, given the identifier that the new node
    /// came up with: a new node with that identifier, made where new nodes
    /// are placed, is inserted under the parent.
    pub open spec fn with_new_node(self, parent: Option<u128>, id: u128) -> Self {
        self.inserted(T::spec_new(self.placement(parent), id), parent)
    }
}

/// Invalidate on write: a graph never keeps its revision through a change.
pub proof fn lemma_revision_moves(revision: u64)
    ensures
        next_revision(revision) != revision,
{
}

/// A node that is found in a sequence is found at the same index after
/// another node is appended.
pub proof fn lemma_index_of_push<T: GraphNodeTrait>(nodes: Seq<T>, node: T, id: u128)
    requires
        has_node(nodes, id),
    ensures
        index_of(nodes.push(node), id) == index_of(nodes, id),
{
    let i = index_of(nodes, id)->0;
    lemma_first_true_meaning(id_flags(nodes, id));
    assert(is_first_true(id_flags(nodes.push(node), id), i)) by {
        assert(nodes.push(node)[i] == nodes[i]);
        assert forall|j: int| 0 <= j < i implies !id_flags(nodes.push(node), id)[j] by {
            assert(nodes.push(node)[j] == nodes[j]);
            assert(!id_flags(nodes, id)[j]);
        }
    }
    lemma_first_true_is(id_flags(nodes.push(node), id), i);
}

/// A node that is appended can be found by its identifier.
pub proof fn lemma_has_pushed<T: GraphNodeTrait>(nodes: Seq<T>, node: T)
    ensures
        has_node(nodes.push(node), node.spec_id()),
{
    let after = nodes.push(node);
    assert(after[nodes.len() as int] == node);
    assert(id_flags(after, node.spec_id())[nodes.len() as int]);
    lemma_first_true_exists(id_flags(after, node.spec_id()), nodes.len() as int);
}

/// An identifier that no node has is the identifier of no element.
pub proof fn lemma_absent<T: GraphNodeTrait>(nodes: Seq<T>, id: u128)
    requires
        !has_node(nodes, id),
    ensures
        forall|j: int| 0 <= j < nodes.len() ==> (#[trigger] nodes[j]).spec_id() != id,
{
    lemma_first_true_meaning(id_flags(nodes, id));
    assert forall|j: int| 0 <= j < nodes.len() implies (#[trigger] nodes[j]).spec_id() != id by {
        assert(!id_flags(nodes, id)[j]);
    }
}

/// Moving a node leaves every lookup by identifier as it was.
pub proof fn lemma_index_of_moved<T: GraphNodeTrait>(nodes: Seq<T>, i: int, anchor: Point, id: u128)
    requires
        0 <= i < nodes.len(),
    ensures
        index_of(nodes.update(i, nodes[i].spec_moved_to(anchor)), id) == index_of(nodes, id),
{
    nodes[i].lemma_moved_to(anchor);
    assert(id_flags(nodes.update(i, nodes[i].spec_moved_to(anchor)), id) =~= id_flags(nodes, id));
}

impl<T: GraphNodeTrait> GraphView<T> {
    /// Insertion keeps a well-formed graph well formed.
    pub proof fn lemma_inserted_wf(self, node: T, parent: Option<u128>)
        requires
            self.wf(),
            self.insert_refusal(node.spec_id(), parent) is None,
        ensures
            self.inserted(node, parent).wf(),
    {
        let after = self.inserted(node, parent);
        lemma_absent(self.nodes, node.spec_id());
        assert(ids_unique(after.nodes));
        assert forall|k: int| 0 <= k < after.edges.len() implies has_node(
            after.nodes,
            (#[trigger] after.edges[k]).start,
        ) && has_node(after.nodes, after.edges[k].end) by {
            if k < self.edges.len() {
                assert(after.edges[k] == self.edges[k]);
                lemma_index_of_push(self.nodes, node, self.edges[k].start);
                lemma_index_of_push(self.nodes, node, self.edges[k].end);
            } else {
                lemma_index_of_push(self.nodes, node, parent->0);
                lemma_has_pushed(self.nodes, node);
            }
        }
    }

    /// Moving a node keeps a well-formed graph well formed.
    pub proof fn lemma_moved_wf(self, id: u128, anchor: Point)
        requires
            self.wf(),
        ensures
            self.moved(id, anchor).wf(),
    {
        match index_of(self.nodes, id) {
            Some(i) => {
                lemma_first_true_meaning(id_flags(self.nodes, id));
                let after = self.moved(id, anchor);
                self.nodes[i].lemma_moved_to(anchor);
                assert forall|a: int, b: int| 0 <= a < b < after.nodes.len() implies (
                #[trigger] after.nodes[a]).spec_id() != (#[trigger] after.nodes[b]).spec_id() by {
                    assert(after.nodes[a].spec_id() == self.nodes[a].spec_id());
                    assert(after.nodes[b].spec_id() == self.nodes[b].spec_id());
                }
                assert forall|k: int| 0 <= k < after.edges.len() implies has_node(
                    after.nodes,
                    (#[trigger] after.edges[k]).start,
                ) && has_node(after.nodes, after.edges[k].end) by {
                    lemma_index_of_moved(self.nodes, i, anchor, self.edges[k].start);
                    lemma_index_of_moved(self.nodes, i, anchor, self.edges[k].end);
                }
            },
            None => {},
        }
    }

    /// Changing a node in place keeps a well-formed graph well formed, as
    /// long as the node keeps its identifier.
    pub proof fn lemma_replaced_wf(self, i: int, node: T)
        requires
            self.wf(),
            0 <= i < self.nodes.len(),
            node.spec_id() == self.nodes[i].spec_id(),
        ensures
            self.with_nodes(self.nodes.update(i, node)).wf(),
    {
        let after = self.with_nodes(self.nodes.update(i, node));
        assert forall|a: int, b: int| 0 <= a < b < after.nodes.len() implies (
        #[trigger] after.nodes[a]).spec_id() != (#[trigger] after.nodes[b]).spec_id() by {
            assert(after.nodes[a].spec_id() == self.nodes[a].spec_id());
            assert(after.nodes[b].spec_id() == self.nodes[b].spec_id());
        }
        assert forall|k: int| 0 <= k < after.edges.len() implies has_node(
            after.nodes,
            (#[trigger] after.edges[k]).start,
        ) && has_node(after.nodes, after.edges[k].end) by {
            assert(id_flags(after.nodes, self.edges[k].start) =~= id_flags(
                self.nodes,
                self.edges[k].start,
            ));
            assert(id_flags(after.nodes, self.edges[k].end) =~= id_flags(
                self.nodes,
                self.edges[k].end,
            ));
        }
    }

    /// Messages other than `InsertNode` keep a well-formed graph well formed.
    pub proof fn lemma_applied_wf(self, message: GraphMessage)
        requires
            self.wf(),
        ensures
            self.applied(message).wf(),
    {
        match message {
            GraphMessage::DraggingNode(id, position) => {
                self.lemma_moved_wf(id, position);
            },
            _ => {},
        }
    }

    /// Edge insertion: inserting a node under a parent appends exactly the
    /// edge from the parent to the node, and inserting a node without a
    /// parent leaves the edges as they are. The nodes gain the new node at
    /// the end in either case.
    pub proof fn lemma_insert_edges(self, node: T, parent: Option<u128>)
        ensures
            self.inserted(node, parent).nodes == self.nodes.push(node),
            parent is None ==> self.inserted(node, parent).edges == self.edges,
            parent matches Some(p) ==> self.inserted(node, parent).edges == self.edges.push(
                Edge { start: p, end: node.spec_id() },
            ),
            parent matches Some(p) ==> self.inserted(node, parent).edges.len() == self.edges.len()
                + 1,
    {
    }

    /// Selection toggle: two clicks on the same node in a row leave nothing
    /// selected, unless the node was the selected one before the first click;
    /// then they leave it selected.
    pub proof fn lemma_click_twice(self, id: u128)
        ensures
            self.selected != Some(id) ==> self.applied(GraphMessage::ClickNode(id)).applied(
                GraphMessage::ClickNode(id),
            ).selected is None,
            self.selected == Some(id) ==> self.applied(GraphMessage::ClickNode(id)).applied(
                GraphMessage::ClickNode(id),
            ).selected == Some(id),
    {
    }
}

/// Hit test exclusivity: a point that lies on no node hits nothing, and a
/// point that lies on exactly one node hits that node.
pub proof fn lemma_hit_test_exclusive<T: GraphNodeTrait>(nodes: Seq<T>, point: Point)
    ensures
        (forall|j: int| 0 <= j < nodes.len() ==> !node_contains(&#[trigger] nodes[j], point))
            ==> node_at(nodes, point) is None,
        forall|i: int|
            0 <= i < nodes.len() && node_contains(&#[trigger] nodes[i], point) && (forall|j: int|
                0 <= j < nodes.len() && j != i ==> !node_contains(&#[trigger] nodes[j], point))
                ==> node_at(nodes, point) == Some(nodes[i].spec_id()),
{
    if forall|j: int| 0 <= j < nodes.len() ==> !node_contains(&#[trigger] nodes[j], point) {
        assert forall|j: int| 0 <= j < nodes.len() implies !hit_flags(nodes, point)[j] by {
            assert(!node_contains(&nodes[j], point));
        }
        lemma_first_true_none(hit_flags(nodes, point));
    }
    assert forall|i: int|
        0 <= i < nodes.len() && node_contains(&#[trigger] nodes[i], point) && (forall|j: int|
            0 <= j < nodes.len() && j != i ==> !node_contains(
                &#[trigger] nodes[j],
                point,
            )) implies node_at(nodes, point) == Some(nodes[i].spec_id()) by {
        assert forall|j: int| 0 <= j < i implies !hit_flags(nodes, point)[j] by {
            assert(!node_contains(&nodes[j], point));
        }
        assert(is_first_true(hit_flags(nodes, point), i));
        lemma_first_true_is(hit_flags(nodes, point), i);
    }
}

/// Whatever hits, it is the first node in the order of insertion on which
/// the point lies: no earlier node contains the point.
pub proof fn lemma_hit_test_first<T: GraphNodeTrait>(nodes: Seq<T>, point: Point)
    ensures
        match first_true(hit_flags(nodes, point)) {
            Some(i) => {
                &&& 0 <= i < nodes.len()
                &&& node_contains(&nodes[i], point)
                &&& forall|j: int| 0 <= j < i ==> !node_contains(&#[trigger] nodes[j], point)
            },
            None => forall|j: int|
                0 <= j < nodes.len() ==> !node_contains(&#[trigger] nodes[j], point),
        },
{
    lemma_first_true_meaning(hit_flags(nodes, point));
    match first_true(hit_flags(nodes, point)) {
        Some(i) => {
            assert(hit_flags(nodes, point)[i]);
            assert forall|j: int| 0 <= j < i implies !node_contains(&#[trigger] nodes[j], point) by {
                assert(!hit_flags(nodes, point)[j]);
            }
        },
        None => {
            assert forall|j: int| 0 <= j < nodes.len() implies !node_contains(
                &#[trigger] nodes[j],
                point,
            ) by {
                assert(!hit_flags(nodes, point)[j]);
            }
        },
    }
}

} // verus!
