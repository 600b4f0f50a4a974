//! The request side of the wire protocol: queries a session sends to the
//! renderer process.
//!
//! Payload geometry and color arithmetic are not this crate's concern; the
//! dispatch core only carries them through unchanged. They are therefore held
//! as plain values (integer coordinates, integer color channels), which is all
//! the routing and the renderer's bookkeeping ever read.

use vstd::prelude::*;

verus! {

/// An RGBA color, one byte per channel.
#[derive(Clone, Copy, Debug, PartialEq, Eq, Structural)]
pub struct Color {
    pub red: u8,
    pub green: u8,
    pub blue: u8,
    pub alpha: u8,
}

/// A point on the canvas.
#[derive(Clone, Copy, Debug, PartialEq, Eq, Structural)]
pub struct Point {
    pub x: i64,
    pub y: i64,
}

/// A finished drawn path: the pen color and the points it visited, in order.
#[derive(Debug)]
pub struct Path {
    pub pen_color: Color,
    pub points: Vec<Point>,
}

/// The mathematical content of a path.
#[verifier::ext_equal]
pub ghost struct PathModel {
    pub pen_color: Color,
    pub points: Seq<Point>,
}

impl View for Path {
    type V = PathModel;

    open spec fn view(&self) -> PathModel {
        PathModel { pen_color: self.pen_color, points: self.points@ }
    }
}

/// Everything a session can send to the renderer.
pub enum Query {
    Request(Request),
    Drawing(DrawingCommand),
}

/// A read-only query against the renderer's state.
pub enum Request {
    TurtleState,
    DrawingState,
}

/// A command that mutates the renderer's drawing state.
pub enum DrawingCommand {
    /// When a path is finished being animated, it needs to be persisted in the
    /// renderer so it can be redrawn every frame.
    StorePath(Path),
    /// Begins filling from the next stored path onwards. The color is the fill
    /// color that was current when the command was issued; it is carried in
    /// the command itself so that later changes to the current fill color
    /// cannot affect this fill.
    BeginFill(Color),
    /// Finishes the filled shape begun by the last `BeginFill`.
    EndFill,
    /// Clears the image completely.
    ///
    /// A caller contract violation if a path is still being animated; the
    /// renderer's handler demands that no in-progress path exists.
    Clear,
}

} // verus!
