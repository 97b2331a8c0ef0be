//! Message protocol and dispatch core for a bidirectional RPC scheme between
//! an agent and a client.
//!
//! Incoming messages arrive as a method name plus an untyped JSON payload.
//! The library resolves them to strongly typed request variants, routes each
//! to exactly one handler, and re-serializes typed results into the matching
//! response shape. Wire payloads are modeled by [`json::Json`]; turning raw
//! bytes into such values is the transport's concern, not this crate's.

pub mod cancellation;
pub mod client;
pub mod content;
pub mod error;
pub mod json;
pub mod rpc;
pub mod schema;
pub mod tool_call;

use vstd::prelude::*;

verus! {

} // verus!
