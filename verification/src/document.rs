//! The vector document model: an intrinsic size in document units and a list
//! of drawable nodes in paint order.

use vstd::prelude::*;

verus! {

/// An RGBA color with straight (non-premultiplied) channels.
#[derive(Clone, Copy, PartialEq, Eq, Structural, Debug)]
pub struct Rgba {
    pub red: u8,
    pub green: u8,
    pub blue: u8,
    pub alpha: u8,
}

/// The fully transparent color a fresh pixel buffer is cleared to.
pub open spec fn transparent() -> Rgba {
    Rgba { red: 0, green: 0, blue: 0, alpha: 0 }
}

/// An axis-aligned box in document units.
#[derive(Clone, Copy, PartialEq, Eq, Structural, Debug)]
pub struct Rect {
    pub x: u32,
    pub y: u32,
    pub width: u32,
    pub height: u32,
}

/// One drawable node of a vector document. A text node is a placeholder that
/// text resolution replaces in place with an outline node; an outline node
/// carries the identifier of the font face that shaped it, or none in the
/// degraded mode where no face is available.
#[derive(Clone, PartialEq, Eq, Debug)]
pub enum Node {
    Shape { bounds: Rect, color: Rgba },
    Text { family: String, bounds: Rect, color: Rgba },
    Outline { face: Option<usize>, bounds: Rect, color: Rgba },
}

/// A vector document: intrinsic size in document units, plus its nodes in
/// paint order (later nodes paint over earlier ones).
#[derive(Clone, PartialEq, Eq, Debug)]
pub struct VectorDocument {
    pub width: u32,
    pub height: u32,
    pub nodes: Vec<Node>,
}

/// The bounding box of a node in document units.
pub open spec fn node_bounds(n: Node) -> Rect {
    match n {
        Node::Shape { bounds, .. } => bounds,
        Node::Text { bounds, .. } => bounds,
        Node::Outline { bounds, .. } => bounds,
    }
}

/// The fill color of a node.
pub open spec fn node_color(n: Node) -> Rgba {
    match n {
        Node::Shape { color, .. } => color,
        Node::Text { color, .. } => color,
        Node::Outline { color, .. } => color,
    }
}

/// Whether a node is an unresolved text placeholder.
pub open spec fn is_text_node(n: Node) -> bool {
    n matches Node::Text { .. }
}

/// Whether any unresolved text placeholder remains in a node list.
pub open spec fn has_text_nodes(nodes: Seq<Node>) -> bool {
    exists|i: int| 0 <= i < nodes.len() && is_text_node(nodes[i])
}

} // verus!
