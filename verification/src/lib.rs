//! Streaming RPC over a length-prefixed protocol buffer wire format.
//!
//! The crate is organised around three subsystems:
//!
//! - the packet model and its wire codec (`packet`, `varint`, `wire`, `codec`):
//!   a `Packet` carries one of `CallStart`, `CallData` or `CallCancel`, framed
//!   on the wire as a 4-byte little-endian length prefix followed by the
//!   protobuf encoding of the packet;
//! - the per-call state machine (`rpc`, `context`): bounded by a completion
//!   latch and a data-closed flag, with half-close, cancellation and
//!   remote-error surfacing;
//! - the dispatch fabric (`mux`, `server`): service and method registration,
//!   routing, and the decisions the server takes around a handler run.
//!
//! A nested-stream facility (`rpcstream`) tunnels packets of a second call
//! inside the data frames of an outer stream.
//!
//! All functions here are synchronous and free of I/O: reading, writing and
//! task scheduling live with the caller, which hands packets and events in
//! and carries packets and actions out.

use vstd::prelude::*;

pub mod codec;
pub mod context;
pub mod error;
pub mod mux;
pub mod packet;
pub mod rpc;
pub mod rpcstream;
pub mod server;
pub mod text;
pub mod varint;
pub mod wire;

verus! {

/// Largest admissible protobuf payload of one frame, in bytes.
///
/// This bound is part of the wire protocol: both sides reject frames whose
/// length prefix exceeds it.
pub const MAX_MESSAGE_SIZE: usize = 10_000_000;

} // verus!
