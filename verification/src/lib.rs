//! An interactive node-and-edge graph canvas: nodes on an unbounded plane, a
//! view that pans and zooms, a pointer state machine, and a renderer that
//! lists what to draw.
//!
//! Every real quantity (a coordinate, a length, the zoom factor, a wheel
//! delta, a colour channel) is a fixed-point number: an `i64` that counts
//! millionths, so that [`fixed::ONE`] stands for `1.0`. Results that leave
//! the range of an `i64` are clamped to its ends.
//!
//! An input event goes to [`Graph::on_event`], which reads the graph and
//! answers with the next [`GraphInteraction`] and at most one
//! [`GraphMessage`]. The message goes to [`Graph::update`], which changes the
//! graph. [`Graph::draw`] lists the commands that draw the graph as it is.

pub mod fixed;
pub mod geometry;
pub mod transform;
pub mod viewport;
pub mod search;
pub mod frame;
pub mod node;
pub mod genealogical_node;
pub mod model;
pub mod graph;
pub mod interaction;
pub mod render;

pub use graph::Edge;
pub use graph::Graph;
pub use graph::GraphError;
pub use graph::GraphMessage;
pub use interaction::GraphInteraction;
