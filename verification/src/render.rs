//! The renderer: the list of drawing commands for the graph as it is.
//!
//! A drawing begins with the transform of the viewport, goes on with every
//! node in the order of insertion, and ends with a connector for every edge.
//! A connector leaves the node that lies higher on the canvas at the middle
//! of its bottom edge and reaches the other node at the middle of its top
//! edge, in three straight segments: down, across, down.

use vstd::prelude::*;
use crate::fixed::{floor_div, half, plus, saturate};
use crate::frame::{Color, DrawCommand, Frame};
use crate::geometry::{Point, Rectangle, Size, Vector};
use crate::graph::{Edge, Graph, GraphError};
use crate::interaction::GraphInteraction;
use crate::model::{has_node, index_of, GraphView};
use crate::node::{node_drawing, GraphNodeTrait};
use crate::search::{first_true, is_first_true, lemma_first_true_is, lemma_first_true_none};
use crate::viewport::ViewportView;

verus! {

/// The width of a connector, `2.0`.
pub const STROKE_WIDTH: i64 = 2_000_000;

/// The commands that set up the transform: move to the middle of the
/// surface, scale by the zoom factor, move by the pan offset.
pub open spec fn transform_drawing(viewport: ViewportView, bounds: Rectangle) -> Seq<DrawCommand> {
    seq![
        DrawCommand::Translate(
            Vector { x: (bounds.width / 2) as i64, y: (bounds.height / 2) as i64 },
        ),
        DrawCommand::Scale(viewport.scaling),
        DrawCommand::Translate(viewport.translation),
    ]
}

/// Whether the pointer rests on the node with the identifier `id`.
pub open spec fn is_hovered(interaction: GraphInteraction, id: u128) -> bool {
    interaction == GraphInteraction::HoverNode(id)
}

/// The drawings of all nodes, one after the other.
pub open spec fn nodes_drawing<T: GraphNodeTrait>(
    nodes: Seq<T>,
    interaction: GraphInteraction,
) -> Seq<DrawCommand>
    decreases nodes.len(),
{
    if nodes.len() == 0 {
        Seq::empty()
    } else {
        nodes_drawing(nodes.drop_last(), interaction) + node_drawing(
            &nodes.last(),
            is_hovered(interaction, nodes.last().spec_id()),
        )
    }
}

/// The four corners of the connector between two nodes, first to last. The
/// connector starts at the node whose anchor lies higher, whichever end of
/// the edge that node is.
pub open spec fn connector_points(
    start_anchor: Point,
    start_size: Size,
    end_anchor: Point,
    end_size: Size,
) -> (Point, Point, Point, Point) {
    let swap = start_anchor.y > end_anchor.y;
    let upper_anchor = if swap {
        end_anchor
    } else {
        start_anchor
    };
    let upper_size = if swap {
        end_size
    } else {
        start_size
    };
    let lower_anchor = if swap {
        start_anchor
    } else {
        end_anchor
    };
    let lower_size = if swap {
        start_size
    } else {
        end_size
    };
    let first = Point {
        x: saturate(upper_anchor.x + upper_size.width / 2) as i64,
        y: saturate(upper_anchor.y + upper_size.height) as i64,
    };
    let last = Point {
        x: saturate(lower_anchor.x + lower_size.width / 2) as i64,
        y: lower_anchor.y,
    };
    let second = Point { x: first.x, y: saturate(first.y + (last.y - first.y) / 2) as i64 };
    let third = Point { x: last.x, y: second.y };
    (first, second, third, last)
}

/// A connector does not depend on the direction of its edge: unless the two
/// nodes are level, swapping the ends gives the same four corners.
pub proof fn lemma_connector_ignores_direction(
    start_anchor: Point,
    start_size: Size,
    end_anchor: Point,
    end_size: Size,
)
    requires
        start_anchor.y != end_anchor.y,
    ensures
        connector_points(start_anchor, start_size, end_anchor, end_size) == connector_points(
            end_anchor,
            end_size,
            start_anchor,
            start_size,
        ),
{
}

/// A connector runs downward: where the higher node ends at or above the top
/// of the lower one, the corners never rise from first to last, and the part
/// across is level. The first corner lies on the bottom edge of the higher
/// node and the last corner on the top edge of the lower one.
pub proof fn lemma_connector_runs_downward(
    start_anchor: Point,
    start_size: Size,
    end_anchor: Point,
    end_size: Size,
)
    requires
        start_size.height >= 0,
        start_anchor.y + start_size.height <= end_anchor.y,
    ensures
        ({
            let (first, second, third, last) = connector_points(
                start_anchor,
                start_size,
                end_anchor,
                end_size,
            );
            &&& first.y == start_anchor.y + start_size.height
            &&& last.y == end_anchor.y
            &&& first.y <= second.y == third.y <= last.y
            &&& first.x == second.x
            &&& third.x == last.x
        }),
{
}

/// The three strokes of the connector between two nodes.
pub open spec fn connector_drawing<T: GraphNodeTrait>(start: &T, end: &T) -> Seq<DrawCommand> {
    let (first, second, third, last) = connector_points(
        start.spec_anchor(),
        start.spec_size(),
        end.spec_anchor(),
        end.spec_size(),
    );
    seq![
        DrawCommand::StrokeLine {
            from: first,
            to: second,
            width: STROKE_WIDTH,
            color: Color::spec_white(),
        },
        DrawCommand::StrokeLine {
            from: second,
            to: third,
            width: STROKE_WIDTH,
            color: Color::spec_white(),
        },
        DrawCommand::StrokeLine {
            from: third,
            to: last,
            width: STROKE_WIDTH,
            color: Color::spec_white(),
        },
    ]
}

/// Whether both ends of the edge are nodes.
pub open spec fn resolves<T: GraphNodeTrait>(nodes: Seq<T>, edge: Edge) -> bool {
    has_node(nodes, edge.start) && has_node(nodes, edge.end)
}

/// The connector of one edge, between the first nodes that have the
/// identifiers of its ends.
pub open spec fn edge_drawing<T: GraphNodeTrait>(nodes: Seq<T>, edge: Edge) -> Seq<DrawCommand> {
    connector_drawing(
        &nodes[index_of(nodes, edge.start)->0],
        &nodes[index_of(nodes, edge.end)->0],
    )
}

/// The connectors of all edges, one after the other.
pub open spec fn edges_drawing<T: GraphNodeTrait>(nodes: Seq<T>, edges: Seq<Edge>) -> Seq<
    DrawCommand,
>
    decreases edges.len(),
{
    if edges.len() == 0 {
        Seq::empty()
    } else {
        edges_drawing(nodes, edges.drop_last()) + edge_drawing(nodes, edges.last())
    }
}

/// For each edge, whether one of its ends is missing.
pub open spec fn dangling_flags<T: GraphNodeTrait>(nodes: Seq<T>, edges: Seq<Edge>) -> Seq<bool> {
    Seq::new(edges.len(), |k: int| !resolves(nodes, edges[k]))
}

/// The end of a dangling edge that is reported as missing: the start where
/// that is missing, else the end.
pub open spec fn missing_end<T: GraphNodeTrait>(nodes: Seq<T>, edge: Edge) -> u128 {
    if !has_node(nodes, edge.start) {
        edge.start
    } else {
        edge.end
    }
}

impl<T: GraphNodeTrait> GraphView<T> {
    /// The whole drawing: the transform, the nodes, the connectors.
    pub open spec fn drawing(self, interaction: GraphInteraction, bounds: Rectangle) -> Seq<
        DrawCommand,
    > {
        transform_drawing(self.viewport, bounds) + nodes_drawing(self.nodes, interaction)
            + edges_drawing(self.nodes, self.edges)
    }

    /// Why the graph cannot be drawn, if it cannot: its first dangling edge
    /// names a node that is missing.
    pub open spec fn drawing_refusal(self) -> Option<GraphError> {
        match first_true(dangling_flags(self.nodes, self.edges)) {
            Some(k) => Some(GraphError::NodeNotFound(missing_end(self.nodes, self.edges[k]))),
            None => None,
        }
    }

    /// A well-formed graph can be drawn.
    pub proof fn lemma_wf_draws(self)
        requires
            self.wf(),
        ensures
            self.drawing_refusal() is None,
    {
        assert forall|k: int| 0 <= k < self.edges.len() implies !dangling_flags(
            self.nodes,
            self.edges,
        )[k] by {
            assert(has_node(self.nodes, self.edges[k].start));
        }
        lemma_first_true_none(dangling_flags(self.nodes, self.edges));
    }
}

/// Appends the three strokes of the connector between two nodes.
fn draw_connector<T: GraphNodeTrait>(frame: &mut Frame, start_node: &T, end_node: &T)
    ensures
        final(frame)@ == old(frame)@ + connector_drawing(start_node, end_node),
{
    let (upper, lower) = if start_node.anchor().y > end_node.anchor().y {
        (end_node, start_node)
    } else {
        (start_node, end_node)
    };
    let first = Point::new(
        plus(upper.anchor().x, half(upper.size().width)),
        plus(upper.anchor().y, upper.size().height),
    );
    let last = Point::new(plus(lower.anchor().x, half(lower.size().width)), lower.anchor().y);
    let second = Point::new(first.x, plus(first.y, half_of_difference(last.y, first.y)));
    let third = Point::new(last.x, second.y);
    frame.stroke_line(first, second, STROKE_WIDTH, Color::white());
    frame.stroke_line(second, third, STROKE_WIDTH, Color::white());
    frame.stroke_line(third, last, STROKE_WIDTH, Color::white());
    assert(final(frame)@ =~= old(frame)@ + connector_drawing(start_node, end_node));
}

/// Half of `a - b`, rounded towards negative infinity. It always fits.
fn half_of_difference(a: i64, b: i64) -> (r: i64)
    ensures
        r == (a - b) / 2,
{
    let q: i128 = floor_div(a as i128 - b as i128, 2);
    q as i64
}

impl<T: GraphNodeTrait> Graph<T> {
    /// Draws the graph for a surface with `bounds`, the node that the
    /// pointer rests on at half opacity. Refused where an edge dangles;
    /// nothing is left out and nothing made up.
    pub fn draw(&self, interaction: &GraphInteraction, bounds: Rectangle) -> (result: Result<
        Frame,
        GraphError,
    >)
        ensures
            match self@.drawing_refusal() {
                Some(error) => result matches Err(e) && e == error,
                None => result matches Ok(frame) && frame@ == self@.drawing(*interaction, bounds),
            },
    {
        let mut frame = Frame::new();
        frame.translate(Vector::new(half(bounds.width), half(bounds.height)));
        frame.scale(self.viewport().scaling());
        frame.translate(self.viewport().translation());
        assert(frame@ =~= transform_drawing(self@.viewport, bounds));
        let nodes = self.nodes();
        let mut i: usize = 0;
        assert(nodes@.take(0) =~= Seq::<T>::empty());
        while i < nodes.len()
            invariant
                i <= nodes.len(),
                nodes@ == self@.nodes,
                frame@ == transform_drawing(self@.viewport, bounds) + nodes_drawing(
                    nodes@.take(i as int),
                    *interaction,
                ),
            decreases nodes.len() - i,
        {
            let node = &nodes[i];
            let hovered = match *interaction {
                GraphInteraction::HoverNode(id) => id == node.id(),
                _ => false,
            };
            let ghost before = frame@;
            node.draw(&mut frame, hovered);
            proof {
                let prefix = nodes@.take(i as int + 1);
                assert(prefix.drop_last() =~= nodes@.take(i as int));
                assert(prefix.last() == nodes@[i as int]);
                assert(frame@ =~= before + node_drawing(node, hovered));
            }
            i += 1;
        }
        assert(nodes@.take(i as int) =~= nodes@);
        let edges = self.edges();
        let mut k: usize = 0;
        assert(edges@.take(0) =~= Seq::<Edge>::empty());
        while k < edges.len()
            invariant
                k <= edges.len(),
                nodes@ == self@.nodes,
                edges@ == self@.edges,
                forall|j: int| 0 <= j < k ==> !dangling_flags(self@.nodes, self@.edges)[j],
                frame@ == transform_drawing(self@.viewport, bounds) + nodes_drawing(
                    self@.nodes,
                    *interaction,
                ) + edges_drawing(self@.nodes, edges@.take(k as int)),
            decreases edges.len() - k,
        {
            let edge = edges[k];
            let start_node = match self.get_node(Some(edge.start)) {
                Some(node) => node,
                None => {
                    proof {
                        assert(is_first_true(dangling_flags(self@.nodes, self@.edges), k as int));
                        lemma_first_true_is(dangling_flags(self@.nodes, self@.edges), k as int);
                    }
                    return Err(GraphError::NodeNotFound(edge.start));
                },
            };
            let end_node = match self.get_node(Some(edge.end)) {
                Some(node) => node,
                None => {
                    proof {
                        assert(is_first_true(dangling_flags(self@.nodes, self@.edges), k as int));
                        lemma_first_true_is(dangling_flags(self@.nodes, self@.edges), k as int);
                    }
                    return Err(GraphError::NodeNotFound(edge.end));
                },
            };
            let ghost before = frame@;
            draw_connector(&mut frame, start_node, end_node);
            proof {
                let prefix = edges@.take(k as int + 1);
                assert(prefix.drop_last() =~= edges@.take(k as int));
                assert(prefix.last() == edges@[k as int]);
                assert(frame@ =~= before + edge_drawing(self@.nodes, edge));
            }
            k += 1;
        }
        proof {
            assert(edges@.take(k as int) =~= edges@);
            lemma_first_true_none(dangling_flags(self@.nodes, self@.edges));
        }
        Ok(frame)
    }
}

} // verus!
