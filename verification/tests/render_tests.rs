use graph::fixed::ONE;
use graph::frame::{Color, DrawCommand};
use graph::genealogical_node::GenealogicalNode;
use graph::geometry::{Point, Rectangle, Size, Vector};
use graph::render::STROKE_WIDTH;
use graph::{Graph, GraphInteraction, GraphMessage};

fn units(v: i64) -> i64 {
    v * ONE
}

fn surface() -> Rectangle {
    Rectangle::new(Point::new(units(30), units(40)), Size::new(units(800), units(600)))
}

fn fill(x: i64, y: i64, alpha: i64) -> DrawCommand {
    DrawCommand::FillRectangle {
        anchor: Point::new(units(x), units(y)),
        size: Size::new(units(128), units(96)),
        color: Color { r: ONE, g: ONE, b: ONE, a: alpha },
    }
}

fn stroke(from: (i64, i64), to: (i64, i64)) -> DrawCommand {
    DrawCommand::StrokeLine {
        from: Point::new(units(from.0), units(from.1)),
        to: Point::new(units(to.0), units(to.1)),
        width: 2 * ONE,
        color: Color { r: ONE, g: ONE, b: ONE, a: ONE },
    }
}

fn transform() -> Vec<DrawCommand> {
    vec![
        DrawCommand::Translate(Vector::new(units(400), units(300))),
        DrawCommand::Scale(ONE),
        DrawCommand::Translate(Vector::zero()),
    ]
}

#[test]
fn an_empty_graph_draws_only_the_transform() {
    let mut graph = Graph::<GenealogicalNode>::new();
    graph
        .update(GraphMessage::Scaled(1_500_000, Some(Vector::new(units(7), units(-9)))))
        .unwrap();
    let frame = graph.draw(&GraphInteraction::Idle, surface()).unwrap();
    assert_eq!(
        frame.into_commands(),
        vec![
            DrawCommand::Translate(Vector::new(units(400), units(300))),
            DrawCommand::Scale(1_500_000),
            DrawCommand::Translate(Vector::new(units(7), units(-9))),
        ]
    );
}

#[test]
fn nodes_are_drawn_in_the_order_of_insertion() {
    let mut graph = Graph::new();
    graph.insert_node(GenealogicalNode::with_id(2, Point::new(units(200), 0)), None).unwrap();
    graph.insert_node(GenealogicalNode::with_id(1, Point::origin()), None).unwrap();
    let frame = graph.draw(&GraphInteraction::Idle, surface()).unwrap();
    let mut expected = transform();
    expected.push(fill(200, 0, ONE));
    expected.push(fill(0, 0, ONE));
    assert_eq!(frame.into_commands(), expected);
}

#[test]
fn the_hovered_node_is_drawn_at_half_opacity() {
    let mut graph = Graph::new();
    graph.insert_node(GenealogicalNode::with_id(1, Point::origin()), None).unwrap();
    graph.insert_node(GenealogicalNode::with_id(2, Point::new(units(200), 0)), None).unwrap();
    let frame = graph.draw(&GraphInteraction::HoverNode(2), surface()).unwrap();
    let mut expected = transform();
    expected.push(fill(0, 0, ONE));
    expected.push(fill(200, 0, ONE / 2));
    assert_eq!(frame.into_commands(), expected);
}

#[test]
fn a_dragged_node_is_drawn_opaque() {
    let mut graph = Graph::new();
    graph.insert_node(GenealogicalNode::with_id(1, Point::origin()), None).unwrap();
    let frame = graph
        .draw(&GraphInteraction::DraggingNode(1, Point::origin()), surface())
        .unwrap();
    let mut expected = transform();
    expected.push(fill(0, 0, ONE));
    assert_eq!(frame.into_commands(), expected);
}

#[test]
fn node_content_follows_the_rectangle_of_its_node() {
    let mut graph = Graph::new();
    graph.insert_node(GenealogicalNode::with_id(1, Point::origin()), None).unwrap();
    graph.insert_node(GenealogicalNode::with_id(2, Point::new(units(200), 0)), None).unwrap();
    graph.get_node_mut(Some(1)).unwrap().set_first_name("Ada".to_string());
    let frame = graph.draw(&GraphInteraction::Idle, surface()).unwrap();
    let mut expected = transform();
    expected.push(fill(0, 0, ONE));
    expected.push(DrawCommand::FillText {
        content: "Ada".to_string(),
        position: Point::new(25_600_000, 19_200_000),
        font_size: units(16),
        color: Color { r: 0, g: 0, b: 0, a: ONE },
    });
    expected.push(fill(200, 0, ONE));
    assert_eq!(frame.into_commands(), expected);
}

#[test]
fn an_edge_is_an_elbow_from_the_bottom_of_the_parent_to_the_top_of_the_child() {
    let mut graph = Graph::new();
    graph.insert_node(GenealogicalNode::with_id(1, Point::origin()), None).unwrap();
    graph
        .insert_node(GenealogicalNode::with_id(2, Point::new(units(200), units(192))), Some(1))
        .unwrap();
    let frame = graph.draw(&GraphInteraction::Idle, surface()).unwrap();
    let mut expected = transform();
    expected.push(fill(0, 0, ONE));
    expected.push(fill(200, 192, ONE));
    // From (64, 96) down to y = 96 + (192 - 96) / 2 = 144, across to x = 264, down to (264, 192).
    expected.push(stroke((64, 96), (64, 144)));
    expected.push(stroke((64, 144), (264, 144)));
    expected.push(stroke((264, 144), (264, 192)));
    assert_eq!(frame.into_commands(), expected);
    assert_eq!(STROKE_WIDTH, 2 * ONE);
}

#[test]
fn an_edge_to_a_child_above_its_parent_is_drawn_downward_from_the_child() {
    let mut graph = Graph::new();
    graph.insert_node(GenealogicalNode::with_id(1, Point::new(0, units(300))), None).unwrap();
    graph
        .insert_node(GenealogicalNode::with_id(2, Point::new(units(200), 0)), Some(1))
        .unwrap();
    let frame = graph.draw(&GraphInteraction::Idle, surface()).unwrap();
    let commands = frame.into_commands();
    assert_eq!(
        commands[5..],
        [
            stroke((264, 96), (264, 198)),
            stroke((264, 198), (64, 198)),
            stroke((64, 198), (64, 300)),
        ]
    );
}

#[test]
fn nodes_at_the_same_height_keep_the_direction_of_the_edge() {
    let mut graph = Graph::new();
    graph.insert_node(GenealogicalNode::with_id(1, Point::origin()), None).unwrap();
    graph
        .insert_node(GenealogicalNode::with_id(2, Point::new(units(200), 0)), Some(1))
        .unwrap();
    let frame = graph.draw(&GraphInteraction::Idle, surface()).unwrap();
    let commands = frame.into_commands();
    // From (64, 96) to (264, 0): the middle is at y = 96 + (0 - 96) / 2 = 48.
    assert_eq!(
        commands[5..],
        [
            stroke((64, 96), (64, 48)),
            stroke((64, 48), (264, 48)),
            stroke((264, 48), (264, 0)),
        ]
    );
}

#[test]
fn edges_are_drawn_after_all_nodes_in_the_order_of_insertion() {
    let mut graph = Graph::new();
    graph.insert_node(GenealogicalNode::with_id(1, Point::origin()), None).unwrap();
    graph
        .insert_node(GenealogicalNode::with_id(2, Point::new(0, units(192))), Some(1))
        .unwrap();
    graph
        .insert_node(GenealogicalNode::with_id(3, Point::new(0, units(384))), Some(2))
        .unwrap();
    let frame = graph.draw(&GraphInteraction::Idle, surface()).unwrap();
    let commands = frame.into_commands();
    assert_eq!(commands.len(), 3 + 3 + 6);
    assert_eq!(commands[3..6], [fill(0, 0, ONE), fill(0, 192, ONE), fill(0, 384, ONE)]);
    assert_eq!(commands[6], stroke((64, 96), (64, 144)));
    assert_eq!(commands[9], stroke((64, 288), (64, 336)));
}

#[test]
fn a_drawing_follows_a_moved_node() {
    let mut graph = Graph::new();
    graph.insert_node(GenealogicalNode::with_id(1, Point::origin()), None).unwrap();
    graph
        .insert_node(GenealogicalNode::with_id(2, Point::new(0, units(192))), Some(1))
        .unwrap();
    graph.update(GraphMessage::DraggingNode(2, Point::new(units(32), units(192)))).unwrap();
    let frame = graph.draw(&GraphInteraction::Idle, surface()).unwrap();
    let commands = frame.into_commands();
    assert_eq!(commands[4], fill(32, 192, ONE));
    assert_eq!(commands[7], stroke((96, 144), (96, 192)));
}
