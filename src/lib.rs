//! The core of a tool server for desktop design applications: a fixed
//! catalog of tools, decoding of their arguments, the handshake and request
//! routing, and a bounded, order-preserving batch scheduler.
//!
//! The library decides; the host acts. A request goes to
//! [`mcp::handle_request`]; a tool call comes back as a [`calls::ToolCall`]
//! whose [`action::Action`]s the host performs (a batch all at once) and
//! whose reports [`calls::complete_call`] turns into the reply.
pub mod action;
pub mod affinity;
pub mod args;
pub mod calls;
pub mod canva;
pub mod json;
pub mod mcp;
pub mod picture;
pub mod registry;
pub mod text;
