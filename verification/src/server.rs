//! The server's decisions around one connection.
//!
//! A connection serves exactly one call: the first packet must be a valid
//! `CallStart`, a packet pump then feeds the call's state machine while the
//! handler runs, and when the handler returns the server sends one terminal
//! packet — an error or a completion — before closing.  The loop itself,
//! the transport and the handler live with the caller; the decisions those
//! steps take live here.

use vstd::prelude::*;

verus! {

use crate::error::Error;
use crate::packet::Body;
use crate::packet::BodyV;
use crate::packet::CallStart;
use crate::packet::Packet;
use crate::packet::Validate;
use crate::packet::spec_call_start_valid;
use crate::packet::spec_packet_valid;

/// The grace period a server grants its packet pump after the terminal
/// response, in milliseconds.
pub const DEFAULT_SHUTDOWN_TIMEOUT_MS: u64 = 100;

/// Server configuration options.
#[derive(Debug, Clone)]
pub struct ServerConfig {
    /// Grace period for the packet pump after the handler completes, in
    /// milliseconds; the pump is aborted when it runs out.
    pub shutdown_timeout_ms: u64,
}

impl Default for ServerConfig {
    /// The default configuration: the standard shutdown grace period.
    fn default() -> (r: ServerConfig)
        ensures
            r.shutdown_timeout_ms == DEFAULT_SHUTDOWN_TIMEOUT_MS,
    {
        ServerConfig { shutdown_timeout_ms: DEFAULT_SHUTDOWN_TIMEOUT_MS }
    }
}

/// Judges the first packet of a connection: a valid `CallStart` opens the
/// call, an invalid packet fails with its own validation error, and any
/// other body was not the expected `CallStart`.
pub fn accept_call_start(packet: Packet) -> (r: Result<CallStart, Error>)
    ensures
        match packet@.body {
            Some(BodyV::CallStart(cs)) => if spec_call_start_valid(cs) {
                r matches Ok(out) && out@ == cs
            } else {
                r matches Err(e) && (if cs.rpc_method.len() == 0 {
                    e is EmptyMethodId
                } else {
                    e is EmptyServiceId
                })
            },
            Some(BodyV::CallData(cd)) => if crate::packet::spec_call_data_valid(cd) {
                r matches Err(e) && e is ExpectedCallStart
            } else {
                r matches Err(e) && e is EmptyPacket
            },
            Some(BodyV::CallCancel(_)) => r matches Err(e) && e is ExpectedCallStart,
            None => r matches Err(e) && e is EmptyPacket,
        },
{
    if let Err(e) = packet.validate() {
        return Err(e);
    }
    match packet.body {
        Some(Body::CallStart(cs)) => Ok(cs),
        _ => Err(Error::ExpectedCallStart),
    }
}

/// The terminal packet a server owes once the handler has returned.
#[derive(Debug)]
pub enum CompletionAction {
    /// Send a terminal error with this message.
    SendError(String),
    /// Send the bare completion: the call succeeded.
    CloseSend,
}

/// Decides the terminal response after a handler run: an unmatched method
/// reports `"method not implemented"`, a handler error reports its
/// message, and success half-closes the stream.
pub fn completion_action(found: bool, handler_error: Option<Error>) -> (r: CompletionAction)
    ensures
        !found ==> (r matches CompletionAction::SendError(m) && m@ == "method not implemented"@),
        found ==> match handler_error {
            Some(e) => r matches CompletionAction::SendError(m) && m@ == e.spec_message(),
            None => r is CloseSend,
        },
{
    if !found {
        return CompletionAction::SendError("method not implemented".to_owned());
    }
    match handler_error {
        Some(e) => CompletionAction::SendError(e.message()),
        None => CompletionAction::CloseSend,
    }
}

} // verus!
