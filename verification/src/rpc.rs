//! The per-call state machine.
//!
//! Every live call owns one [`CommonRpc`]: a completion latch
//! (`local_completed`), a queue of inbound payloads, a data-closed flag and
//! an optional terminal error from the peer.  [`ClientRpc`] adds the
//! start-once latch, [`ServerRpc`] the single-shot initial payload taken
//! from the opening `CallStart`.
//!
//! The functions here take decisions and mutate state only.  Each returns
//! what the caller must do next — a packet to hand to the writer, a wait, a
//! result to surface — and states it in its contract.  Whether the context
//! is cancelled comes in as an argument; closing the writer and cancelling
//! the context go out as explicit flags, since both live with the caller.

use vstd::prelude::*;

verus! {

use crate::error::Error;
use crate::packet::Body;
use crate::packet::BodyV;
use crate::packet::CallData;
use crate::packet::CallDataV;
use crate::packet::CallStart;
use crate::packet::Packet;
use crate::packet::PacketV;
use crate::packet::Validate;
use crate::packet::decode_optional_data;
use crate::packet::new_call_cancel;
use crate::packet::new_call_data_full;
use crate::packet::new_call_start;
use crate::packet::spec_decode_optional_data;
use crate::packet::spec_new_call_cancel;
use crate::packet::spec_new_call_data_full;
use crate::packet::spec_new_call_start;
use crate::packet::spec_packet_valid;

/// Mathematical model of a call's shared state.
#[verifier::ext_equal]
pub ghost struct RpcStateV {
    pub service: Seq<char>,
    pub method: Seq<char>,
    pub local_completed: bool,
    pub data_queue: Seq<Seq<u8>>,
    pub data_closed: bool,
    pub remote_err: Option<Seq<char>>,
}

impl RpcStateV {
    /// The state of a fresh call under the given identity.
    pub open spec fn initial(service: Seq<char>, method: Seq<char>) -> RpcStateV {
        RpcStateV {
            service: service,
            method: method,
            local_completed: false,
            data_queue: Seq::<Seq<u8>>::empty(),
            data_closed: false,
            remote_err: None,
        }
    }
}

/// The views of an inbound queue's payloads, in order.
pub open spec fn queue_view(q: Seq<Vec<u8>>) -> Seq<Seq<u8>> {
    Seq::new(q.len(), |i: int| q[i]@)
}

/// The view of an optional payload.
pub open spec fn opt_bytes_view(o: Option<Vec<u8>>) -> Option<Seq<u8>> {
    match o {
        Some(v) => Some(v@),
        None => None,
    }
}

/// The view of an optional text.
pub open spec fn opt_string_view(o: Option<String>) -> Option<Seq<char>> {
    match o {
        Some(s) => Some(s@),
        None => None,
    }
}

/// Shared state of one live call.
pub struct CommonRpc {
    service: String,
    method: String,
    local_completed: bool,
    data_queue: Vec<Vec<u8>>,
    data_closed: bool,
    remote_err: Option<String>,
}

impl View for CommonRpc {
    type V = RpcStateV;

    closed spec fn view(&self) -> RpcStateV {
        RpcStateV {
            service: self.service@,
            method: self.method@,
            local_completed: self.local_completed,
            data_queue: queue_view(self.data_queue@),
            data_closed: self.data_closed,
            remote_err: opt_string_view(self.remote_err),
        }
    }
}

/// What a write decision concluded.
#[verifier::ext_equal]
pub ghost enum WriteOutcome {
    /// Emit this packet.
    Send(PacketV),
    /// Accept silently: the idempotent repeat of a bare completion.
    Accepted,
    /// Refuse: the call is already locally completed.
    Rejected,
}

/// The write-data decision: how one `write_call_data` call changes the
/// state and what it concludes.
///
/// A write that completes or errors atomically latches `local_completed`;
/// once the latch is set, only the bare completion — no payload, no error —
/// is still accepted, and silently.  Every other write is rejected.
pub open spec fn spec_write_call_data(
    s: RpcStateV,
    data: Option<Seq<u8>>,
    complete: bool,
    error: Option<Seq<char>>,
) -> (RpcStateV, WriteOutcome) {
    let should = complete || error is Some;
    if !s.local_completed {
        (
            RpcStateV { local_completed: should, ..s },
            WriteOutcome::Send(spec_new_call_data_full(data, complete, error)),
        )
    } else if complete && data is None && error is None {
        (s, WriteOutcome::Accepted)
    } else {
        (s, WriteOutcome::Rejected)
    }
}

/// Once `local_completed` is set, every write except the bare completion is
/// rejected and leaves the state unchanged.
pub proof fn lemma_completed_rejects_writes(
    s: RpcStateV,
    data: Option<Seq<u8>>,
    complete: bool,
    error: Option<Seq<char>>,
)
    requires
        s.local_completed,
        !(complete && data is None && error is None),
    ensures
        spec_write_call_data(s, data, complete, error) == (s, WriteOutcome::Rejected),
{
}

/// The bare completion write succeeds twice in a row from any state: the
/// first call latches completion (or finds it latched) and the second is
/// accepted as an idempotent repeat.  Neither is rejected.
pub proof fn lemma_idempotent_completion(s: RpcStateV)
    ensures
        ({
            let (s1, o1) = spec_write_call_data(s, None, true, None);
            let (s2, o2) = spec_write_call_data(s1, None, true, None);
            &&& !(o1 is Rejected)
            &&& !(o2 is Rejected)
            &&& s1.local_completed
            &&& s2 == s1
        }),
{
}

/// How the result of a data write relates to the decision's outcome: the
/// packet to send, `None` for the accepted idempotent repeat, or the
/// rejection.
pub open spec fn write_data_result(o: WriteOutcome, r: Result<Option<Packet>, Error>) -> bool {
    match o {
        WriteOutcome::Send(pv) => r matches Ok(Some(pkt)) && pkt@ == pv,
        WriteOutcome::Accepted => r matches Ok(None),
        WriteOutcome::Rejected => r matches Err(e) && e is Completed,
    }
}

/// The full contract of one data write over states and result.
pub open spec fn write_data_post(
    s: RpcStateV,
    s2: RpcStateV,
    data: Option<Seq<u8>>,
    complete: bool,
    error: Option<Seq<char>>,
    r: Result<Option<Packet>, Error>,
) -> bool {
    let (next, o) = spec_write_call_data(s, data, complete, error);
    s2 == next && write_data_result(o, r)
}

/// The state after a transport-level close carrying an optional error: the
/// data side closes, and the error is kept unless the peer erred first.
pub open spec fn spec_after_stream_close(s: RpcStateV, err: Option<Seq<char>>) -> RpcStateV {
    RpcStateV {
        data_closed: true,
        remote_err: match s.remote_err {
            Some(e) => Some(e),
            None => err,
        },
        ..s
    }
}

/// The full contract of folding one inbound `CallData` into the state.
///
/// After the data side is closed nothing more enters the queue: a bare
/// completion is dropped silently, anything else is rejected.  On an open
/// data side the payload, if the optional-data rule says one is present,
/// joins the queue in arrival order, and an error or completion closes the
/// data side.
pub open spec fn handle_call_data_post(
    s: RpcStateV,
    s2: RpcStateV,
    cd: CallDataV,
    accepted: bool,
    rejected: bool,
) -> bool {
    if s.data_closed {
        s2 == s && if cd.complete {
            accepted && !rejected
        } else {
            rejected && !accepted
        }
    } else {
        accepted && !rejected && s2 == (RpcStateV {
            data_queue: match spec_decode_optional_data(cd.data, cd.data_is_zero) {
                Some(d) => s.data_queue.push(d),
                None => s.data_queue,
            },
            remote_err: if cd.error.len() > 0 {
                Some(cd.error)
            } else {
                s.remote_err
            },
            data_closed: cd.error.len() > 0 || cd.complete,
            ..s
        })
    }
}

/// The lifecycle converges monotonically across writes: a set completion
/// latch never clears, and neither the data side nor the remote error
/// moves on a local write.
pub proof fn lemma_write_monotone(
    s: RpcStateV,
    data: Option<Seq<u8>>,
    complete: bool,
    error: Option<Seq<char>>,
)
    ensures
        ({
            let (s2, o) = spec_write_call_data(s, data, complete, error);
            &&& s.local_completed ==> s2.local_completed
            &&& s2.data_closed == s.data_closed
            &&& s2.remote_err == s.remote_err
            &&& s2.data_queue == s.data_queue
        }),
{
}

/// The lifecycle converges monotonically across closes: the data side only
/// ever latches, and a recorded remote error is never replaced or cleared.
pub proof fn lemma_stream_close_monotone(s: RpcStateV, err: Option<Seq<char>>)
    ensures
        ({
            let s2 = spec_after_stream_close(s, err);
            &&& s2.data_closed
            &&& s.remote_err is Some ==> s2.remote_err == s.remote_err
            &&& s2.local_completed == s.local_completed
            &&& s2.data_queue == s.data_queue
        }),
{
}

/// The lifecycle converges monotonically across inbound payloads: the data
/// side never reopens and a recorded remote error is never replaced.
pub proof fn lemma_handle_data_monotone(
    s: RpcStateV,
    s2: RpcStateV,
    cd: CallDataV,
    accepted: bool,
    rejected: bool,
)
    requires
        handle_call_data_post(s, s2, cd, accepted, rejected),
    ensures
        s.data_closed ==> s2.data_closed,
        s.remote_err is Some && s.data_closed ==> s2.remote_err == s.remote_err,
        s2.local_completed == s.local_completed,
{
}

/// Once the data side is closed, nothing further enters the queue and no
/// flag moves: a bare completion is accepted silently and everything else
/// is rejected, the state unchanged either way.
pub proof fn lemma_closed_data_freezes_state(
    s: RpcStateV,
    s2: RpcStateV,
    cd: CallDataV,
    accepted: bool,
    rejected: bool,
)
    requires
        s.data_closed,
        handle_call_data_post(s, s2, cd, accepted, rejected),
    ensures
        s2 == s,
        s2.data_queue == s.data_queue,
        cd.complete ==> accepted,
        !cd.complete ==> rejected,
{
}

/// The well-formedness every reachable call state keeps: a recorded remote
/// error always goes with a closed data side.
pub open spec fn rpc_state_wf(s: RpcStateV) -> bool {
    s.remote_err is Some ==> s.data_closed
}

/// Every transition of the state machine preserves well-formedness: a
/// transition that records a remote error closes the data side with it.
pub proof fn lemma_transitions_preserve_wf(
    s: RpcStateV,
    s2: RpcStateV,
    data: Option<Seq<u8>>,
    complete: bool,
    error: Option<Seq<char>>,
    cd: CallDataV,
    accepted: bool,
    rejected: bool,
    close_err: Option<Seq<char>>,
)
    requires
        rpc_state_wf(s),
    ensures
        rpc_state_wf(spec_write_call_data(s, data, complete, error).0),
        rpc_state_wf(spec_after_stream_close(s, close_err)),
        rpc_state_wf(spec_after_close_state(s)),
        handle_call_data_post(s, s2, cd, accepted, rejected) ==> rpc_state_wf(s2),
{
}

/// What one read attempt concluded.
#[derive(Debug)]
pub enum ReadStep {
    /// One payload, dequeued in arrival order.
    Data(Vec<u8>),
    /// Nothing to read yet: wait for a notification and try again.
    Pending,
    /// The read fails with this error.  When `close_writer` is set the
    /// caller must also close the writer and cancel the context: this was
    /// the first read to observe cancellation.
    Failed { error: Error, close_writer: bool },
}

/// What one wait attempt concluded.
#[derive(Debug)]
pub enum WaitStep {
    /// The call finished cleanly.
    Done,
    /// Not finished yet: wait for a notification and try again.
    Pending,
    /// The call finished with this error.
    Failed(Error),
}

/// The full contract of one read attempt.
///
/// A cancelled context fails the read; the first read to observe the
/// cancellation also closes the data side, records `"context cancelled"`
/// unless the peer already erred, and tells the caller to close the writer
/// and cancel the context.  Otherwise the oldest queued payload is
/// returned; with an empty queue, a closed data side surfaces the peer's
/// error or a clean close, and an open one asks the caller to wait.
pub open spec fn read_step_post(s: RpcStateV, s2: RpcStateV, cancelled: bool, r: ReadStep) -> bool {
    if cancelled {
        if !s.data_closed {
            s2 == spec_after_stream_close(s, Some("context cancelled"@)) && (r matches
            ReadStep::Failed { error, close_writer } && error is Cancelled && close_writer)
        } else {
            s2 == s && (r matches ReadStep::Failed { error, close_writer } && error is Cancelled
                && !close_writer)
        }
    } else if s.data_queue.len() > 0 {
        s2 == (RpcStateV { data_queue: s.data_queue.drop_first(), ..s }) && (r matches
        ReadStep::Data(d) && d@ == s.data_queue[0])
    } else if s.data_closed {
        s2 == s && (r matches ReadStep::Failed { error, close_writer } && !close_writer && match s
            .remote_err {
            Some(e) => error matches Error::Remote(m) && m@ == e,
            None => error is StreamClosed,
        })
    } else {
        s2 == s && r is Pending
    }
}

/// The full contract of one wait attempt: a recorded remote error fails
/// the wait, a cancelled context fails it with `Cancelled`, a closed data
/// side finishes it, and otherwise the caller waits.
pub open spec fn wait_step_post(s: RpcStateV, cancelled: bool, r: WaitStep) -> bool {
    match s.remote_err {
        Some(e) => r matches WaitStep::Failed(err) && (err matches Error::Remote(m) && m@ == e),
        None => if cancelled {
            r matches WaitStep::Failed(err) && err is Cancelled
        } else if s.data_closed {
            r is Done
        } else {
            r is Pending
        },
    }
}

impl CommonRpc {
    /// Builds the state of a fresh call.
    pub fn new(service: String, method: String) -> (r: CommonRpc)
        ensures
            r@ == RpcStateV::initial(service@, method@),
    {
        let r = CommonRpc {
            service,
            method,
            local_completed: false,
            data_queue: Vec::new(),
            data_closed: false,
            remote_err: None,
        };
        proof {
            assert(r@ =~= RpcStateV::initial(r.service@, r.method@));
        }
        r
    }

    /// The service id of this call.
    pub fn service(&self) -> (r: &str)
        ensures
            r@ == self@.service,
    {
        self.service.as_str()
    }

    /// The method id of this call.
    pub fn method(&self) -> (r: &str)
        ensures
            r@ == self@.method,
    {
        self.method.as_str()
    }

    /// Whether this side has completed the call.
    pub fn is_local_completed(&self) -> (r: bool)
        ensures
            r == self@.local_completed,
    {
        self.local_completed
    }

    /// Whether the peer's side of the stream is closed.
    pub fn is_data_closed(&self) -> (r: bool)
        ensures
            r == self@.data_closed,
    {
        self.data_closed
    }

    /// Decides one data write, as [`spec_write_call_data`] lays down, and
    /// returns the `CallData` packet to hand to the writer, `None` for the
    /// accepted idempotent repeat, or the rejection.
    pub fn write_call_data(
        &mut self,
        data: Option<Vec<u8>>,
        complete: bool,
        error: Option<String>,
    ) -> (r: Result<Option<Packet>, Error>)
        ensures
            write_data_post(
                old(self)@,
                final(self)@,
                opt_bytes_view(data),
                complete,
                opt_string_view(error),
                r,
            ),
    {
        let should_complete = complete || error.is_some();
        if !self.local_completed {
            self.local_completed = should_complete;
            Ok(Some(new_call_data_full(data, complete, error)))
        } else if complete && data.is_none() && error.is_none() {
            Ok(None)
        } else {
            Err(Error::Completed)
        }
    }

    /// Decides one cancel write: the first one latches completion and
    /// returns the `CallCancel` packet to send; afterwards the call counts
    /// as completed and the write is rejected.
    pub fn write_call_cancel(&mut self) -> (r: Result<Packet, Error>)
        ensures
            cancel_write_post(old(self)@, final(self)@, r),
    {
        if self.local_completed {
            return Err(Error::Completed);
        }
        self.local_completed = true;
        Ok(new_call_cancel())
    }

    /// Folds one inbound `CallData` into the state, as
    /// [`handle_call_data_post`] lays down.
    pub fn handle_call_data(&mut self, call_data: CallData) -> (r: Result<(), Error>)
        ensures
            handle_call_data_post(
                old(self)@,
                final(self)@,
                call_data@,
                r is Ok,
                (r matches Err(e) && e is Completed),
            ),
    {
        if self.data_closed {
            if call_data.complete {
                return Ok(());
            }
            return Err(Error::Completed);
        }
        let has_error = !call_data.error.as_str().is_empty();
        let complete = call_data.complete;
        match decode_optional_data(call_data.data, call_data.data_is_zero) {
            Some(d) => {
                let ghost before = queue_view(self.data_queue@);
                self.data_queue.push(d);
                proof {
                    assert(queue_view(self.data_queue@) =~~= before.push(d@));
                }
            },
            None => {},
        }
        if has_error {
            self.remote_err = Some(call_data.error);
            self.data_closed = true;
        } else if complete {
            self.data_closed = true;
        }
        proof {
            assert(self@ =~= RpcStateV {
                data_queue: self@.data_queue,
                remote_err: self@.remote_err,
                data_closed: self@.data_closed,
                ..old(self)@
            });
        }
        Ok(())
    }

    /// Folds an inbound cancel into the state, as a stream close carrying
    /// the error `"cancelled"`.  The caller must close the writer and
    /// cancel the context.
    pub fn handle_call_cancel(&mut self) -> (r: Result<(), Error>)
        ensures
            r is Ok,
            final(self)@ == spec_after_stream_close(old(self)@, Some("cancelled"@)),
    {
        self.handle_stream_close(Some("cancelled".to_owned()))
    }

    /// Folds a transport-level close into the state: the given error is
    /// kept unless the peer already sent one, and the data side closes.
    /// The caller must close the writer and cancel the context.
    pub fn handle_stream_close(&mut self, err: Option<String>) -> (r: Result<(), Error>)
        ensures
            r is Ok,
            final(self)@ == spec_after_stream_close(old(self)@, opt_string_view(err)),
    {
        match err {
            Some(e) => {
                if self.remote_err.is_none() {
                    self.remote_err = Some(e);
                }
            },
            None => {},
        }
        self.data_closed = true;
        Ok(())
    }

    /// Decides one read attempt, as [`read_step_post`] lays down.
    pub fn read_step(&mut self, cancelled: bool) -> (r: ReadStep)
        ensures
            read_step_post(old(self)@, final(self)@, cancelled, r),
    {
        if cancelled {
            if !self.data_closed {
                self.data_closed = true;
                if self.remote_err.is_none() {
                    self.remote_err = Some("context cancelled".to_owned());
                }
                return ReadStep::Failed { error: Error::Cancelled, close_writer: true };
            }
            return ReadStep::Failed { error: Error::Cancelled, close_writer: false };
        }
        if self.data_queue.len() > 0 {
            let ghost before = queue_view(self.data_queue@);
            let d = self.data_queue.remove(0);
            proof {
                assert(queue_view(self.data_queue@) =~~= before.drop_first());
            }
            return ReadStep::Data(d);
        }
        if self.data_closed {
            match &self.remote_err {
                Some(e) => {
                    return ReadStep::Failed {
                        error: Error::Remote(e.clone()),
                        close_writer: false,
                    };
                },
                None => {
                    return ReadStep::Failed { error: Error::StreamClosed, close_writer: false };
                },
            }
        }
        ReadStep::Pending
    }

    /// Decides one wait attempt, as [`wait_step_post`] lays down.
    pub fn wait_step(&self, cancelled: bool) -> (r: WaitStep)
        ensures
            wait_step_post(self@, cancelled, r),
    {
        match &self.remote_err {
            Some(e) => WaitStep::Failed(Error::Remote(e.clone())),
            None => {
                if cancelled {
                    WaitStep::Failed(Error::Cancelled)
                } else if self.data_closed {
                    WaitStep::Done
                } else {
                    WaitStep::Pending
                }
            },
        }
    }

    /// Latches both completion and the closed data side on a local close,
    /// recording `"cancelled"` unless the peer already erred.  The caller
    /// must close the writer and cancel the context.
    fn close_state(&mut self)
        ensures
            final(self)@ == spec_after_close_state(old(self)@),
    {
        self.data_closed = true;
        self.local_completed = true;
        if self.remote_err.is_none() {
            self.remote_err = Some("cancelled".to_owned());
        }
    }

    /// Latches completion alone, for the server's local close.
    fn local_completed_latch(&mut self)
        ensures
            final(self)@ == (RpcStateV { local_completed: true, ..old(self)@ }),
    {
        self.local_completed = true;
    }
}

/// The full contract of one cancel write over states and result.
pub open spec fn cancel_write_post(s: RpcStateV, s2: RpcStateV, r: Result<Packet, Error>) -> bool {
    if !s.local_completed {
        s2 == (RpcStateV { local_completed: true, ..s }) && (r matches Ok(pkt) && pkt@
            == spec_new_call_cancel())
    } else {
        s2 == s && (r matches Err(e) && e is Completed)
    }
}

/// The state after a local close: completion and the closed data side both
/// latched, `"cancelled"` recorded unless the peer erred first.
pub open spec fn spec_after_close_state(s: RpcStateV) -> RpcStateV {
    RpcStateV {
        data_closed: true,
        local_completed: true,
        remote_err: match s.remote_err {
            Some(e) => Some(e),
            None => Some("cancelled"@),
        },
        ..s
    }
}

/// The full contract of folding one inbound packet into either side's
/// state.  The packet is validated first; `CallData` goes by
/// [`handle_call_data_post`], an abortive cancel closes the data side with
/// `"cancelled"`, a non-abortive one is ignored.  A `CallStart` is
/// rejected: towards a client it is unrecognized, towards a server a
/// duplicate.  `Ok(true)` tells the caller to close the writer and cancel
/// the context.
pub open spec fn handle_packet_post(
    s: RpcStateV,
    s2: RpcStateV,
    p: PacketV,
    server_side: bool,
    r: Result<bool, Error>,
) -> bool {
    if !spec_packet_valid(p) {
        s2 == s && (r matches Err(e) && crate::packet::spec_validate_error(p, e))
    } else {
        match p.body {
            Some(BodyV::CallData(cd)) => handle_call_data_post(
                s,
                s2,
                cd,
                (r matches Ok(b) && !b),
                (r matches Err(e) && e is Completed),
            ),
            Some(BodyV::CallCancel(b)) => if b {
                s2 == spec_after_stream_close(s, Some("cancelled"@)) && (r matches Ok(c) && c)
            } else {
                s2 == s && (r matches Ok(c) && !c)
            },
            Some(BodyV::CallStart(_)) => s2 == s && (r matches Err(e) && if server_side {
                e is DuplicateCallStart
            } else {
                e is UnrecognizedPacket
            }),
            None => s2 == s && r is Err,
        }
    }
}

/// Client side of one call: the shared state plus the start-once latch.
pub struct ClientRpc {
    common: CommonRpc,
    start_sent: bool,
}

/// Mathematical model of a client call.
#[verifier::ext_equal]
pub ghost struct ClientRpcV {
    pub common: RpcStateV,
    pub start_sent: bool,
}

impl View for ClientRpc {
    type V = ClientRpcV;

    closed spec fn view(&self) -> ClientRpcV {
        ClientRpcV { common: self.common@, start_sent: self.start_sent }
    }
}

/// The full contract of the start decision: only the first attempt passes
/// the latch; on an already-cancelled context the start fails and the
/// caller must close the writer; otherwise the `CallStart` packet to send
/// comes back, carrying the identity and the optional initial payload.
pub open spec fn start_post(
    s: ClientRpcV,
    s2: ClientRpcV,
    data: Option<Seq<u8>>,
    cancelled: bool,
    r: Result<Packet, Error>,
) -> bool {
    if s.start_sent {
        s2 == s && (r matches Err(e) && e is Completed)
    } else {
        s2 == (ClientRpcV { start_sent: true, ..s }) && if cancelled {
            r matches Err(e) && e is Cancelled
        } else {
            r matches Ok(pkt) && pkt@ == spec_new_call_start(s.common.service, s.common.method, data)
        }
    }
}

/// The full contract of the client's local close.  Before a start was ever
/// sent it is a no-op.  Otherwise the call latches completion and the
/// closed data side, records `"cancelled"` unless the peer erred first,
/// and the `CallCancel` packet to send comes back when completion was not
/// yet latched; the caller must close the writer and cancel the context.
pub open spec fn client_close_post(s: ClientRpcV, s2: ClientRpcV, r: Option<Packet>) -> bool {
    if !s.start_sent {
        s2 == s && r is None
    } else {
        s2 == (ClientRpcV { common: spec_after_close_state(s.common), ..s }) && if s
            .common
            .local_completed {
            r is None
        } else {
            r matches Some(pkt) && pkt@ == spec_new_call_cancel()
        }
    }
}

impl ClientRpc {
    /// Builds the client side of a fresh call.
    pub fn new(service: String, method: String) -> (r: ClientRpc)
        ensures
            r@.common == RpcStateV::initial(service@, method@),
            !r@.start_sent,
    {
        ClientRpc { common: CommonRpc::new(service, method), start_sent: false }
    }

    /// The service id of this call.
    pub fn service(&self) -> (r: &str)
        ensures
            r@ == self@.common.service,
    {
        self.common.service()
    }

    /// The method id of this call.
    pub fn method(&self) -> (r: &str)
        ensures
            r@ == self@.common.method,
    {
        self.common.method()
    }

    /// Whether this side has completed the call.
    pub fn is_local_completed(&self) -> (r: bool)
        ensures
            r == self@.common.local_completed,
    {
        self.common.is_local_completed()
    }

    /// Decides the start of the call, as [`start_post`] lays down.
    pub fn start(&mut self, data: Option<Vec<u8>>, cancelled: bool) -> (r: Result<Packet, Error>)
        ensures
            start_post(old(self)@, final(self)@, opt_bytes_view(data), cancelled, r),
    {
        if self.start_sent {
            return Err(Error::Completed);
        }
        self.start_sent = true;
        if cancelled {
            return Err(Error::Cancelled);
        }
        let pkt = new_call_start(self.common.service(), self.common.method(), data);
        Ok(pkt)
    }

    /// Folds one inbound packet into the state, as [`handle_packet_post`]
    /// lays down for the client side.
    pub fn handle_packet(&mut self, packet: Packet) -> (r: Result<bool, Error>)
        ensures
            final(self)@.start_sent == old(self)@.start_sent,
            handle_packet_post(old(self)@.common, final(self)@.common, packet@, false, r),
    {
        if let Err(e) = packet.validate() {
            return Err(e);
        }
        match packet.body {
            Some(Body::CallData(cd)) => match self.common.handle_call_data(cd) {
                Ok(()) => Ok(false),
                Err(e) => Err(e),
            },
            Some(Body::CallCancel(true)) => {
                let _ = self.common.handle_call_cancel();
                Ok(true)
            },
            Some(Body::CallCancel(false)) => Ok(false),
            Some(Body::CallStart(_)) => Err(Error::UnrecognizedPacket),
            None => Err(Error::EmptyPacket),
        }
    }

    /// Folds a transport-level close into the state; the caller must close
    /// the writer and cancel the context.
    pub fn handle_stream_close(&mut self, err: Option<String>) -> (r: Result<(), Error>)
        ensures
            r is Ok,
            final(self)@.start_sent == old(self)@.start_sent,
            final(self)@.common == spec_after_stream_close(old(self)@.common, opt_string_view(err)),
    {
        self.common.handle_stream_close(err)
    }

    /// Decides one send of a payload: the `CallData` packet to write, or
    /// the rejection once the call is locally completed.
    pub fn send_bytes(&mut self, data: Vec<u8>) -> (r: Result<Packet, Error>)
        ensures
            final(self)@.start_sent == old(self)@.start_sent,
            write_data_post(
                old(self)@.common,
                final(self)@.common,
                Some(data@),
                false,
                None,
                match r {
                    Ok(pkt) => Ok(Some(pkt)),
                    Err(e) => Err(e),
                },
            ),
    {
        match self.common.write_call_data(Some(data), false, None) {
            Ok(Some(pkt)) => Ok(pkt),
            Ok(None) => Err(Error::Completed),
            Err(e) => Err(e),
        }
    }

    /// Decides one read attempt, as [`read_step_post`] lays down.
    pub fn recv_step(&mut self, cancelled: bool) -> (r: ReadStep)
        ensures
            final(self)@.start_sent == old(self)@.start_sent,
            read_step_post(old(self)@.common, final(self)@.common, cancelled, r),
    {
        self.common.read_step(cancelled)
    }

    /// Decides the half-close of the sending side: the bare completion
    /// write.
    pub fn close_send(&mut self) -> (r: Result<Option<Packet>, Error>)
        ensures
            final(self)@.start_sent == old(self)@.start_sent,
            write_data_post(old(self)@.common, final(self)@.common, None, true, None, r),
    {
        self.common.write_call_data(None, true, None)
    }

    /// Decides one wait attempt, as [`wait_step_post`] lays down.
    pub fn wait_step(&self, cancelled: bool) -> (r: WaitStep)
        ensures
            wait_step_post(self@.common, cancelled, r),
    {
        self.common.wait_step(cancelled)
    }

    /// Decides the local close of the call, as [`client_close_post`] lays
    /// down.
    pub fn close(&mut self) -> (r: Option<Packet>)
        ensures
            client_close_post(old(self)@, final(self)@, r),
    {
        if !self.start_sent {
            return None;
        }
        let cancel_pkt = match self.common.write_call_cancel() {
            Ok(pkt) => Some(pkt),
            Err(_) => None,
        };
        self.common.close_state();
        cancel_pkt
    }
}

/// Server side of one call: the shared state plus the single-shot initial
/// payload carried by the opening `CallStart`.
pub struct ServerRpc {
    common: CommonRpc,
    initial_data: Option<Vec<u8>>,
}

/// Mathematical model of a server call.
#[verifier::ext_equal]
pub ghost struct ServerRpcV {
    pub common: RpcStateV,
    pub initial_data: Option<Seq<u8>>,
}

impl View for ServerRpc {
    type V = ServerRpcV;

    closed spec fn view(&self) -> ServerRpcV {
        ServerRpcV { common: self.common@, initial_data: opt_bytes_view(self.initial_data) }
    }
}

/// The full contract of one server read attempt: the initial payload of
/// the opening `CallStart`, when one is present, is delivered first and
/// exactly once; all later reads go through the queue by
/// [`read_step_post`].
pub open spec fn server_recv_post(
    s: ServerRpcV,
    s2: ServerRpcV,
    cancelled: bool,
    r: ReadStep,
) -> bool {
    match s.initial_data {
        Some(d) => s2 == (ServerRpcV { initial_data: None, ..s }) && (r matches ReadStep::Data(v)
            && v@ == d),
        None => s2.initial_data is None && read_step_post(s.common, s2.common, cancelled, r),
    }
}

impl ServerRpc {
    /// Builds the server side of a call from the `CallStart` that opened
    /// it: identity from its ids, the initial payload read by the
    /// optional-data rule.
    pub fn from_call_start(call_start: CallStart) -> (r: ServerRpc)
        ensures
            r@.common == RpcStateV::initial(call_start@.rpc_service, call_start@.rpc_method),
            r@.initial_data == spec_decode_optional_data(call_start@.data, call_start@.data_is_zero),
    {
        let CallStart { rpc_service, rpc_method, data, data_is_zero } = call_start;
        let initial_data = decode_optional_data(data, data_is_zero);
        ServerRpc { common: CommonRpc::new(rpc_service, rpc_method), initial_data }
    }

    /// The service id of this call.
    pub fn service(&self) -> (r: &str)
        ensures
            r@ == self@.common.service,
    {
        self.common.service()
    }

    /// The method id of this call.
    pub fn method(&self) -> (r: &str)
        ensures
            r@ == self@.common.method,
    {
        self.common.method()
    }

    /// Whether this side has completed the call.
    pub fn is_local_completed(&self) -> (r: bool)
        ensures
            r == self@.common.local_completed,
    {
        self.common.is_local_completed()
    }

    /// Folds one inbound packet into the state, as [`handle_packet_post`]
    /// lays down for the server side.
    pub fn handle_packet(&mut self, packet: Packet) -> (r: Result<bool, Error>)
        ensures
            final(self)@.initial_data == old(self)@.initial_data,
            handle_packet_post(old(self)@.common, final(self)@.common, packet@, true, r),
    {
        if let Err(e) = packet.validate() {
            return Err(e);
        }
        match packet.body {
            Some(Body::CallData(cd)) => match self.common.handle_call_data(cd) {
                Ok(()) => Ok(false),
                Err(e) => Err(e),
            },
            Some(Body::CallCancel(true)) => {
                let _ = self.common.handle_call_cancel();
                Ok(true)
            },
            Some(Body::CallCancel(false)) => Ok(false),
            Some(Body::CallStart(_)) => Err(Error::DuplicateCallStart),
            None => Err(Error::EmptyPacket),
        }
    }

    /// Folds a transport-level close into the state; the caller must close
    /// the writer and cancel the context.
    pub fn handle_stream_close(&mut self, err: Option<String>) -> (r: Result<(), Error>)
        ensures
            r is Ok,
            final(self)@.initial_data == old(self)@.initial_data,
            final(self)@.common == spec_after_stream_close(old(self)@.common, opt_string_view(err)),
    {
        self.common.handle_stream_close(err)
    }

    /// Decides one send of a payload: the `CallData` packet to write, or
    /// the rejection once the call is locally completed.
    pub fn send_bytes(&mut self, data: Vec<u8>) -> (r: Result<Packet, Error>)
        ensures
            final(self)@.initial_data == old(self)@.initial_data,
            write_data_post(
                old(self)@.common,
                final(self)@.common,
                Some(data@),
                false,
                None,
                match r {
                    Ok(pkt) => Ok(Some(pkt)),
                    Err(e) => Err(e),
                },
            ),
    {
        match self.common.write_call_data(Some(data), false, None) {
            Ok(Some(pkt)) => Ok(pkt),
            Ok(None) => Err(Error::Completed),
            Err(e) => Err(e),
        }
    }

    /// Decides one read attempt, as [`server_recv_post`] lays down.
    pub fn recv_step(&mut self, cancelled: bool) -> (r: ReadStep)
        ensures
            server_recv_post(old(self)@, final(self)@, cancelled, r),
    {
        let initial = self.initial_data.take();
        match initial {
            Some(d) => ReadStep::Data(d),
            None => self.common.read_step(cancelled),
        }
    }

    /// Decides the half-close of the sending side: the bare completion
    /// write.
    pub fn close_send(&mut self) -> (r: Result<Option<Packet>, Error>)
        ensures
            final(self)@.initial_data == old(self)@.initial_data,
            write_data_post(old(self)@.common, final(self)@.common, None, true, None, r),
    {
        self.common.write_call_data(None, true, None)
    }

    /// Decides a terminal error send: a `CallData` carrying the error and
    /// the completion flag, or the rejection once the call is completed.
    pub fn send_error(&mut self, error: String) -> (r: Result<Option<Packet>, Error>)
        ensures
            final(self)@.initial_data == old(self)@.initial_data,
            write_data_post(
                old(self)@.common,
                final(self)@.common,
                None,
                true,
                Some(error@),
                r,
            ),
    {
        self.common.write_call_data(None, true, Some(error))
    }

    /// Decides one wait attempt, as [`wait_step_post`] lays down.
    pub fn wait_step(&self, cancelled: bool) -> (r: WaitStep)
        ensures
            wait_step_post(self@.common, cancelled, r),
    {
        self.common.wait_step(cancelled)
    }

    /// Latches completion on the server's local close; the caller must
    /// close the writer and cancel the context.
    pub fn close(&mut self)
        ensures
            final(self)@.initial_data == old(self)@.initial_data,
            final(self)@.common == (RpcStateV { local_completed: true, ..old(self)@.common }),
    {
        self.common.local_completed_latch();
    }
}

} // verus!
