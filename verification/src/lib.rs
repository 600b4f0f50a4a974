//! Multi-client dispatch core for a turtle-graphics renderer driven over IPC.
//!
//! A renderer process owns the window and the drawing state; many logical
//! drawing sessions share one channel to it. Requests travel as envelopes
//! tagged with a session identifier, responses come back tagged the same way,
//! and a dispatcher routes each response to the private queue of the session
//! that asked for it. The modules here hold the protocol data, the routing
//! state machine and the renderer's request handling, each with its contract;
//! the process spawning, the channel itself and the event loop live outside.

pub mod ipc_protocol;
pub mod query;
pub mod renderer_client;
pub mod renderer_server;
