//! The response side of the wire protocol and the envelopes that cross the
//! process boundary.
//!
//! Every request envelope carries the identifier of the session that sent it;
//! the renderer echoes that identifier back on the matching response envelope,
//! and the dispatcher routes on nothing else. Connection establishment can
//! fail; that failure is the one recoverable error in the whole protocol.

use vstd::prelude::*;
use crate::query::{Color, Query};
use crate::renderer_client::ClientId;

verus! {

/// A snapshot of one session's turtle: where it is, where it points, whether
/// the pen is down. Carried back verbatim for a `Request::TurtleState` query.
#[derive(Clone, Copy, Debug, PartialEq, Eq, Structural)]
pub struct TurtleState {
    pub x: i64,
    pub y: i64,
    pub heading: i64,
    pub pen_down: bool,
}

/// A snapshot of the shared canvas, carried back verbatim for a
/// `Request::DrawingState` query.
#[derive(Clone, Copy, Debug, PartialEq, Eq, Structural)]
pub struct DrawingState {
    pub background: Color,
    pub width: u32,
    pub height: u32,
}

/// What the renderer sends back for one request: the snapshot a query asked
/// for, or an acknowledgement of a drawing command.
#[derive(Clone, Copy, Debug, PartialEq, Eq, Structural)]
pub enum ServerResponse {
    TurtleState(TurtleState),
    DrawingState(DrawingState),
    Ack,
}

/// A request envelope: the sending session's identifier and its query.
pub struct RequestEnvelope {
    pub id: ClientId,
    pub query: Query,
}

impl RequestEnvelope {
    /// Tags a query with the identifier of the session sending it; the
    /// response will come back tagged the same way, and the dispatcher routes
    /// on nothing else.
    pub fn tag(id: ClientId, query: Query) -> (e: RequestEnvelope)
        ensures
            e.id == id,
            e.query == query,
    {
        RequestEnvelope { id, query }
    }
}

/// A response envelope: the identifier echoed from the request that produced
/// this response, and the response itself.
#[derive(Clone, Copy, Debug, PartialEq, Eq, Structural)]
pub struct ResponseEnvelope {
    pub id: ClientId,
    pub response: ServerResponse,
}

/// Failure to establish the client/renderer pairing: the renderer process
/// could not be spawned, or the startup handshake did not complete. The only
/// error in this protocol a caller can recover from, by retrying creation.
#[derive(Clone, Copy, Debug, PartialEq, Eq, Structural)]
pub enum ConnectionError {
    SpawnFailed,
    HandshakeFailed,
}

} // verus!
