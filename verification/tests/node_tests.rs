use graph::fixed::ONE;
use graph::frame::{Color, DrawCommand, Frame};
use graph::genealogical_node::{
    GenealogicalNode, Sex, NODE_FONT_SIZE, NODE_HEIGHT, NODE_WIDTH,
};
use graph::geometry::{Point, Size};
use graph::node::GraphNodeTrait;

fn units(v: i64) -> i64 {
    v * ONE
}

#[test]
fn a_person_is_128_by_96() {
    assert_eq!(NODE_WIDTH, units(128));
    assert_eq!(NODE_HEIGHT, units(96));
    let node = GenealogicalNode::with_id(1, Point::origin());
    assert_eq!(node.size(), Size::new(units(128), units(96)));
}

#[test]
fn with_id_makes_a_blank_person() {
    let node = GenealogicalNode::with_id(42, Point::new(units(3), units(4)));
    assert_eq!(node.id(), 42);
    assert_eq!(node.anchor(), Point::new(units(3), units(4)));
    assert_eq!(node.sex(), None);
    assert_eq!(node.first_name(), None);
    assert_eq!(node.last_name(), None);
}

#[test]
fn new_makes_a_blank_person_at_the_anchor() {
    let node = GenealogicalNode::new(Point::new(units(3), units(4)));
    assert_eq!(node.anchor(), Point::new(units(3), units(4)));
    assert_eq!(node.size(), Size::new(units(128), units(96)));
    assert_eq!(node.sex(), None);
    assert_eq!(node.first_name(), None);
    assert_eq!(node.last_name(), None);
}

#[test]
fn new_draws_a_random_version_four_identifier() {
    let a = GenealogicalNode::new(Point::origin());
    let b = GenealogicalNode::new(Point::origin());
    assert_ne!(a.id(), b.id());
    assert_ne!(a.id(), 0);
    // The version of a random identifier is 4, and its variant bits are 10.
    assert_eq!((a.id() >> 76) & 0xf, 4);
    assert_eq!((a.id() >> 62) & 0x3, 2);
    assert_eq!((b.id() >> 76) & 0xf, 4);
}

#[test]
fn setters_change_what_they_name() {
    let mut node = GenealogicalNode::with_id(42, Point::origin());
    node.set_sex(Sex::Female);
    node.set_first_name("Ada".to_string());
    node.set_last_name("Lovelace".to_string());
    node.set_anchor(Point::new(units(32), units(64)));
    assert_eq!(node.id(), 42);
    assert_eq!(node.sex(), Some(Sex::Female));
    assert_eq!(node.first_name(), Some("Ada".to_string()));
    assert_eq!(node.last_name(), Some("Lovelace".to_string()));
    assert_eq!(node.anchor(), Point::new(units(32), units(64)));
    assert_eq!(node.size(), Size::new(units(128), units(96)));
    node.set_sex(Sex::Male);
    assert_eq!(node.sex(), Some(Sex::Male));
}

#[test]
fn a_node_contains_its_edges() {
    let node = GenealogicalNode::with_id(1, Point::new(units(10), units(20)));
    assert!(node.is_in_bounds(Point::new(units(10), units(20))));
    assert!(node.is_in_bounds(Point::new(units(138), units(116))));
    assert!(node.is_in_bounds(Point::new(units(10), units(116))));
    assert!(node.is_in_bounds(Point::new(units(74), units(68))));
    assert!(!node.is_in_bounds(Point::new(units(10) - 1, units(20))));
    assert!(!node.is_in_bounds(Point::new(units(10), units(20) - 1)));
    assert!(!node.is_in_bounds(Point::new(units(138) + 1, units(116))));
    assert!(!node.is_in_bounds(Point::new(units(138), units(116) + 1)));
}

#[test]
fn a_blank_person_draws_only_its_rectangle() {
    let node = GenealogicalNode::with_id(1, Point::new(units(10), units(20)));
    let mut frame = Frame::new();
    node.draw(&mut frame, false);
    assert_eq!(
        frame.into_commands(),
        vec![DrawCommand::FillRectangle {
            anchor: Point::new(units(10), units(20)),
            size: Size::new(units(128), units(96)),
            color: Color { r: ONE, g: ONE, b: ONE, a: ONE },
        }]
    );
}

#[test]
fn a_hovered_node_is_filled_at_half_opacity() {
    let node = GenealogicalNode::with_id(1, Point::new(units(10), units(20)));
    let mut frame = Frame::new();
    node.draw(&mut frame, true);
    assert_eq!(
        frame.into_commands(),
        vec![DrawCommand::FillRectangle {
            anchor: Point::new(units(10), units(20)),
            size: Size::new(units(128), units(96)),
            color: Color { r: ONE, g: ONE, b: ONE, a: ONE / 2 },
        }]
    );
}

#[test]
fn names_are_written_inside_the_rectangle() {
    let mut node = GenealogicalNode::with_id(1, Point::new(units(10), units(20)));
    node.set_first_name("Ada".to_string());
    node.set_last_name("Lovelace".to_string());
    let mut frame = Frame::new();
    node.draw_content(&mut frame);
    assert_eq!(NODE_FONT_SIZE, units(16));
    // 10 + 128 * 0.2 = 35.6, 20 + 96 * 0.2 = 39.2, 39.2 + 16 + 5 = 60.2
    assert_eq!(
        frame.into_commands(),
        vec![
            DrawCommand::FillText {
                content: "Ada".to_string(),
                position: Point::new(35_600_000, 39_200_000),
                font_size: units(16),
                color: Color { r: 0, g: 0, b: 0, a: ONE },
            },
            DrawCommand::FillText {
                content: "Lovelace".to_string(),
                position: Point::new(35_600_000, 60_200_000),
                font_size: units(16),
                color: Color { r: 0, g: 0, b: 0, a: ONE },
            },
        ]
    );
}

#[test]
fn a_last_name_alone_keeps_its_line() {
    let mut node = GenealogicalNode::with_id(1, Point::origin());
    node.set_last_name("Lovelace".to_string());
    let mut frame = Frame::new();
    node.draw(&mut frame, false);
    let commands = frame.into_commands();
    assert_eq!(commands.len(), 2);
    assert_eq!(
        commands[1],
        DrawCommand::FillText {
            content: "Lovelace".to_string(),
            position: Point::new(25_600_000, 40_200_000),
            font_size: units(16),
            color: Color::black(),
        }
    );
}

#[test]
fn frames_record_commands_in_order() {
    let mut frame = Frame::new();
    assert!(frame.commands().is_empty());
    frame.scale(ONE);
    frame.stroke_line(Point::origin(), Point::new(1, 1), 2, Color::white());
    assert_eq!(
        frame.commands(),
        &vec![
            DrawCommand::Scale(ONE),
            DrawCommand::StrokeLine {
                from: Point::origin(),
                to: Point::new(1, 1),
                width: 2,
                color: Color::white(),
            },
        ]
    );
    assert_eq!(Color::white().with_alpha(5), Color { r: ONE, g: ONE, b: ONE, a: 5 });
}
