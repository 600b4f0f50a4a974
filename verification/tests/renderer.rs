//! Tests of the renderer's request handling, the startup handshake, and full
//! request/response round trips through the dispatcher.

use turtle_ipc::ipc_protocol::{ConnectionError, RequestEnvelope, ServerResponse, TurtleState};
use turtle_ipc::query::{Color, DrawingCommand, Path, Point, Query, Request};
use turtle_ipc::renderer_client::{ClientDispatcher, ClientId, DispatchMessage, IpcEvent};
use turtle_ipc::renderer_server::{parse_oneshot_name, RendererState};

const RED: Color = Color {
    red: 255,
    green: 0,
    blue: 0,
    alpha: 255,
};
const BLUE: Color = Color {
    red: 0,
    green: 0,
    blue: 255,
    alpha: 255,
};

fn diagonal_path() -> Path {
    Path {
        pen_color: RED,
        points: vec![Point { x: 0, y: 0 }, Point { x: 10, y: 10 }],
    }
}

#[test]
fn responses_echo_the_request_id() {
    let mut s = RendererState::new();
    let resp = s.handle_query(RequestEnvelope::tag(
        ClientId(5),
        Query::Request(Request::TurtleState),
    ));
    assert_eq!(resp.id, ClientId(5));
    assert_eq!(
        resp.response,
        ServerResponse::TurtleState(TurtleState {
            x: 0,
            y: 0,
            heading: 0,
            pen_down: true,
        })
    );
}

#[test]
fn begin_fill_captures_color_at_issue_time() {
    let mut s = RendererState::new();
    s.set_fill_color(RED);
    // The command carries the color current when it was issued.
    let captured = s.current_fill_color();
    s.handle_query(RequestEnvelope {
        id: ClientId(0),
        query: Query::Drawing(DrawingCommand::BeginFill(captured)),
    });
    // The current fill color changes well before the fill is closed...
    s.set_fill_color(BLUE);
    // ...and a path joins the fill after the change...
    s.handle_query(RequestEnvelope {
        id: ClientId(0),
        query: Query::Drawing(DrawingCommand::StorePath(diagonal_path())),
    });
    // ...but the accumulating fill keeps the captured color.
    assert_eq!(s.active_fill_color(), Some(RED));
    assert_eq!(s.current_fill_color(), BLUE);
    s.handle_query(RequestEnvelope {
        id: ClientId(0),
        query: Query::Drawing(DrawingCommand::EndFill),
    });
    assert_eq!(s.finished_fill_count(), 1);
    assert_eq!(s.finished_fill_color(0), RED);
}

#[test]
fn store_path_joins_active_fill() {
    let mut s = RendererState::new();
    s.handle_query(RequestEnvelope {
        id: ClientId(0),
        query: Query::Drawing(DrawingCommand::StorePath(diagonal_path())),
    });
    assert_eq!(s.stored_path_count(), 1);
    s.handle_query(RequestEnvelope {
        id: ClientId(0),
        query: Query::Drawing(DrawingCommand::BeginFill(RED)),
    });
    s.handle_query(RequestEnvelope {
        id: ClientId(0),
        query: Query::Drawing(DrawingCommand::StorePath(diagonal_path())),
    });
    // While a fill is open, stored paths accumulate in the fill shape.
    assert_eq!(s.stored_path_count(), 1);
    assert_eq!(s.active_fill_color(), Some(RED));
}

#[test]
fn end_fill_without_begin_is_harmless() {
    let mut s = RendererState::new();
    let resp = s.handle_query(RequestEnvelope {
        id: ClientId(0),
        query: Query::Drawing(DrawingCommand::EndFill),
    });
    assert_eq!(resp.response, ServerResponse::Ack);
    assert_eq!(s.finished_fill_count(), 0);
}

#[test]
fn clear_resets_the_canvas() {
    let mut s = RendererState::new();
    s.handle_query(RequestEnvelope {
        id: ClientId(0),
        query: Query::Drawing(DrawingCommand::StorePath(diagonal_path())),
    });
    s.handle_query(RequestEnvelope {
        id: ClientId(0),
        query: Query::Drawing(DrawingCommand::BeginFill(RED)),
    });
    s.handle_query(RequestEnvelope {
        id: ClientId(0),
        query: Query::Drawing(DrawingCommand::Clear),
    });
    assert_eq!(s.stored_path_count(), 0);
    assert_eq!(s.finished_fill_count(), 0);
    assert_eq!(s.active_fill_color(), None);
}

#[test]
fn clear_store_query_answered_in_order() {
    // One session drives the renderer through the dispatcher: Clear, then
    // StorePath, then a turtle query, and gets its three responses in order.
    let mut d = ClientDispatcher::new();
    let a = d.add_client();
    assert_eq!(a, ClientId(0));
    let mut s = RendererState::new();
    let requests = vec![
        Query::Drawing(DrawingCommand::Clear),
        Query::Drawing(DrawingCommand::StorePath(diagonal_path())),
        Query::Request(Request::TurtleState),
    ];
    for query in requests {
        let resp = s.handle_query(RequestEnvelope { id: a, query });
        d.dispatch(IpcEvent::Response(resp));
    }
    assert_eq!(
        d.recv_message(a),
        Some(DispatchMessage::Response(ServerResponse::Ack))
    );
    assert_eq!(
        d.recv_message(a),
        Some(DispatchMessage::Response(ServerResponse::Ack))
    );
    assert_eq!(
        d.recv_message(a),
        Some(DispatchMessage::Response(ServerResponse::TurtleState(
            TurtleState {
                x: 0,
                y: 0,
                heading: 0,
                pen_down: true,
            }
        )))
    );
    assert_eq!(d.recv_message(a), None);
}

#[test]
fn split_sessions_each_get_only_their_own_response() {
    // A second session split from the first shares the renderer; each request
    // is answered to the session that sent it, never the other.
    let mut d = ClientDispatcher::new();
    let a = d.add_client();
    let b = d.add_client();
    assert_eq!(b, ClientId(1));
    let mut s = RendererState::new();
    let resp_b = s.handle_query(RequestEnvelope {
        id: b,
        query: Query::Request(Request::DrawingState),
    });
    let resp_a = s.handle_query(RequestEnvelope {
        id: a,
        query: Query::Request(Request::TurtleState),
    });
    d.dispatch(IpcEvent::Response(resp_b));
    d.dispatch(IpcEvent::Response(resp_a));
    match d.recv_message(a) {
        Some(DispatchMessage::Response(ServerResponse::TurtleState(_))) => {}
        other => panic!("session a received {:?}", other),
    }
    assert_eq!(d.recv_message(a), None);
    match d.recv_message(b) {
        Some(DispatchMessage::Response(ServerResponse::DrawingState(_))) => {}
        other => panic!("session b received {:?}", other),
    }
    assert_eq!(d.recv_message(b), None);
}

#[test]
fn killed_renderer_disconnects_every_session_once() {
    // The renderer dies under two live sessions: each session's next receive
    // is the disconnection indicator, exactly once, with nothing after it.
    let mut d = ClientDispatcher::new();
    let a = d.add_client();
    let b = d.add_client();
    d.dispatch(IpcEvent::Disconnected);
    assert_eq!(d.recv_message(a), Some(DispatchMessage::Disconnected));
    assert_eq!(d.recv_message(a), None);
    assert_eq!(d.recv_message(b), Some(DispatchMessage::Disconnected));
    assert_eq!(d.recv_message(b), None);
}

#[test]
fn handshake_line_is_checked_and_stripped() {
    let line = b"oneshot-server-name\n".to_vec();
    assert_eq!(parse_oneshot_name(line), Ok(b"oneshot-server-name".to_vec()));
}

#[test]
fn handshake_empty_input_fails() {
    assert_eq!(
        parse_oneshot_name(Vec::new()),
        Err(ConnectionError::HandshakeFailed)
    );
}

#[test]
fn handshake_line_without_newline_fails() {
    assert_eq!(
        parse_oneshot_name(b"oneshot-server-name".to_vec()),
        Err(ConnectionError::HandshakeFailed)
    );
}
