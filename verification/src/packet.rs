//! The packet model: the single wire unit and its validation rules.
//!
//! A [`Packet`] carries exactly one of three bodies: [`CallStart`] opens a
//! call, [`CallData`] carries payloads, half-close and terminal errors, and
//! `CallCancel` aborts.  A payload field is a byte string plus a companion
//! `data_is_zero` flag, so that an absent payload, an explicitly empty
//! payload and a non-empty payload stay distinguishable on the wire.

use vstd::prelude::*;

verus! {

use crate::error::Error;

/// Opens a call: service and method ids plus an optional initial payload.
#[derive(Debug, Clone, PartialEq)]
pub struct CallStart {
    /// Identifier of the called service.
    pub rpc_service: String,
    /// Identifier of the called method.
    pub rpc_method: String,
    /// Initial payload bytes, meaningful only under the optional-data rule.
    pub data: Vec<u8>,
    /// True when an explicitly empty payload is included.
    pub data_is_zero: bool,
}

/// Carries a payload, signals half-close, or conveys a terminal error.
#[derive(Debug, Clone, PartialEq)]
pub struct CallData {
    /// Payload bytes, meaningful only under the optional-data rule.
    pub data: Vec<u8>,
    /// True when an explicitly empty payload is included.
    pub data_is_zero: bool,
    /// True when the sender will send no further payloads.
    pub complete: bool,
    /// Terminal error message; empty when there is none.
    pub error: String,
}

/// The three possible bodies of a packet.
#[derive(Debug, Clone, PartialEq)]
pub enum Body {
    /// Opens a call.
    CallStart(CallStart),
    /// Carries payloads, half-close or a terminal error.
    CallData(CallData),
    /// Aborts the call when the flag is true.
    CallCancel(bool),
}

/// One wire unit.  A valid packet always has a body.
#[derive(Debug, Clone, PartialEq)]
pub struct Packet {
    /// The body, absent only in malformed traffic.
    pub body: Option<Body>,
}

/// Mathematical model of a [`CallStart`].
#[verifier::ext_equal]
pub ghost struct CallStartV {
    pub rpc_service: Seq<char>,
    pub rpc_method: Seq<char>,
    pub data: Seq<u8>,
    pub data_is_zero: bool,
}

/// Mathematical model of a [`CallData`].
#[verifier::ext_equal]
pub ghost struct CallDataV {
    pub data: Seq<u8>,
    pub data_is_zero: bool,
    pub complete: bool,
    pub error: Seq<char>,
}

/// Mathematical model of a [`Body`].
#[verifier::ext_equal]
pub ghost enum BodyV {
    CallStart(CallStartV),
    CallData(CallDataV),
    CallCancel(bool),
}

/// Mathematical model of a [`Packet`].
#[verifier::ext_equal]
pub ghost struct PacketV {
    pub body: Option<BodyV>,
}

impl View for CallStart {
    type V = CallStartV;

    open spec fn view(&self) -> CallStartV {
        CallStartV {
            rpc_service: self.rpc_service@,
            rpc_method: self.rpc_method@,
            data: self.data@,
            data_is_zero: self.data_is_zero,
        }
    }
}

impl View for CallData {
    type V = CallDataV;

    open spec fn view(&self) -> CallDataV {
        CallDataV {
            data: self.data@,
            data_is_zero: self.data_is_zero,
            complete: self.complete,
            error: self.error@,
        }
    }
}

impl View for Body {
    type V = BodyV;

    open spec fn view(&self) -> BodyV {
        match self {
            Body::CallStart(cs) => BodyV::CallStart(cs@),
            Body::CallData(cd) => BodyV::CallData(cd@),
            Body::CallCancel(b) => BodyV::CallCancel(*b),
        }
    }
}

impl View for Packet {
    type V = PacketV;

    open spec fn view(&self) -> PacketV {
        PacketV {
            body: match &self.body {
                Some(b) => Some(b@),
                None => None,
            },
        }
    }
}

/// The optional-data rule: how an optional payload maps to wire fields.
///
/// An absent payload becomes empty bytes with the flag clear, an explicitly
/// empty payload becomes empty bytes with the flag set, and a non-empty
/// payload travels as its bytes with the flag clear.
pub open spec fn spec_encode_optional_data(data: Option<Seq<u8>>) -> (Seq<u8>, bool) {
    match data {
        Some(d) => if d.len() == 0 {
            (Seq::<u8>::empty(), true)
        } else {
            (d, false)
        },
        None => (Seq::<u8>::empty(), false),
    }
}

/// The inverse reading of the optional-data rule.
pub open spec fn spec_decode_optional_data(data: Seq<u8>, data_is_zero: bool) -> Option<Seq<u8>> {
    if data.len() > 0 || data_is_zero {
        Some(data)
    } else {
        None
    }
}

/// Encodes an optional payload into wire fields by the optional-data rule.
pub fn encode_optional_data(data: Option<Vec<u8>>) -> (r: (Vec<u8>, bool))
    ensures
        (r.0@, r.1) == spec_encode_optional_data(match data {
            Some(d) => Some(d@),
            None => None,
        }),
{
    match data {
        Some(d) => {
            if d.len() == 0 {
                (Vec::new(), true)
            } else {
                (d, false)
            }
        },
        None => (Vec::new(), false),
    }
}

/// Reads an optional payload back from wire fields by the optional-data rule.
pub fn decode_optional_data(data: Vec<u8>, data_is_zero: bool) -> (r: Option<Vec<u8>>)
    ensures
        (match r {
            Some(d) => Some(d@),
            None => None,
        }) == spec_decode_optional_data(data@, data_is_zero),
{
    if data.len() > 0 || data_is_zero {
        Some(data)
    } else {
        None
    }
}

/// Decoding inverts encoding for every optional payload, keeping the
/// three-way distinction between absent, present-empty and present-nonempty.
pub proof fn lemma_optional_data_round_trip(data: Option<Seq<u8>>)
    ensures
        ({
            let (bytes, flag) = spec_encode_optional_data(data);
            spec_decode_optional_data(bytes, flag) == data
        }),
{
    match data {
        Some(d) => {
            if d.len() == 0 {
                assert(spec_encode_optional_data(data).0 =~= d);
            }
        },
        None => {},
    }
}

/// Encoding inverts decoding for every well-formed pair of wire fields,
/// that is, whenever the flag is only set beside empty bytes.
pub proof fn lemma_optional_data_round_trip_rev(data: Seq<u8>, data_is_zero: bool)
    requires
        data_is_zero ==> data.len() == 0,
    ensures
        spec_encode_optional_data(spec_decode_optional_data(data, data_is_zero)) == (
        data,
        data_is_zero,
        ),
{
    match spec_decode_optional_data(data, data_is_zero) {
        Some(d) => {
            if d.len() == 0 {
                assert(Seq::<u8>::empty() =~= data);
            }
        },
        None => {},
    }
}

/// The model of a freshly built `CallStart` packet.
pub open spec fn spec_new_call_start(
    service: Seq<char>,
    method: Seq<char>,
    data: Option<Seq<u8>>,
) -> PacketV {
    let (bytes, flag) = spec_encode_optional_data(data);
    PacketV {
        body: Some(
            BodyV::CallStart(
                CallStartV {
                    rpc_service: service,
                    rpc_method: method,
                    data: bytes,
                    data_is_zero: flag,
                },
            ),
        ),
    }
}

/// The model of a freshly built `CallData` packet.
pub open spec fn spec_new_call_data_full(
    data: Option<Seq<u8>>,
    complete: bool,
    error: Option<Seq<char>>,
) -> PacketV {
    let (bytes, flag) = spec_encode_optional_data(data);
    PacketV {
        body: Some(
            BodyV::CallData(
                CallDataV {
                    data: bytes,
                    data_is_zero: flag,
                    complete: complete || error is Some,
                    error: match error {
                        Some(e) => e,
                        None => Seq::<char>::empty(),
                    },
                },
            ),
        ),
    }
}

/// The model of a cancel packet.
pub open spec fn spec_new_call_cancel() -> PacketV {
    PacketV { body: Some(BodyV::CallCancel(true)) }
}

/// Builds a `CallStart` packet for the given service, method and payload.
pub fn new_call_start(service: &str, method: &str, data: Option<Vec<u8>>) -> (r: Packet)
    ensures
        r@ == spec_new_call_start(service@, method@, match data {
            Some(d) => Some(d@),
            None => None,
        }),
{
    let (data_bytes, data_is_zero) = encode_optional_data(data);
    Packet {
        body: Some(
            Body::CallStart(
                CallStart {
                    rpc_service: service.to_owned(),
                    rpc_method: method.to_owned(),
                    data: data_bytes,
                    data_is_zero,
                },
            ),
        ),
    }
}

/// Builds a `CallData` packet carrying the given payload and nothing else.
pub fn new_call_data(data: Vec<u8>) -> (r: Packet)
    ensures
        r@ == spec_new_call_data_full(Some(data@), false, None),
{
    let data_is_zero = data.len() == 0;
    proof {
        if data@.len() == 0 {
            assert(data@ =~= Seq::<u8>::empty());
        }
    }
    Packet {
        body: Some(
            Body::CallData(
                CallData { data, data_is_zero, complete: false, error: String::new() },
            ),
        ),
    }
}

/// Builds a `CallData` packet with optional payload, completion and error.
///
/// The completion flag is forced on whenever an error is carried.
pub fn new_call_data_full(data: Option<Vec<u8>>, complete: bool, error: Option<String>) -> (r:
    Packet)
    ensures
        r@ == spec_new_call_data_full(
            match data {
                Some(d) => Some(d@),
                None => None,
            },
            complete,
            match error {
                Some(e) => Some(e@),
                None => None,
            },
        ),
{
    let (data_bytes, data_is_zero) = encode_optional_data(data);
    let complete_flag = complete || error.is_some();
    let error_text = match error {
        Some(e) => e,
        None => String::new(),
    };
    Packet {
        body: Some(
            Body::CallData(
                CallData {
                    data: data_bytes,
                    data_is_zero,
                    complete: complete_flag,
                    error: error_text,
                },
            ),
        ),
    }
}

/// Builds a `CallData` packet that only signals completion.
pub fn new_call_complete() -> (r: Packet)
    ensures
        r@ == spec_new_call_data_full(None, true, None),
{
    Packet {
        body: Some(
            Body::CallData(
                CallData { data: Vec::new(), data_is_zero: false, complete: true, error: String::new() },
            ),
        ),
    }
}

/// Builds a terminal `CallData` packet carrying an error message.
pub fn new_call_error(error: &str) -> (r: Packet)
    ensures
        r@ == spec_new_call_data_full(None, true, Some(error@)),
{
    Packet {
        body: Some(
            Body::CallData(
                CallData {
                    data: Vec::new(),
                    data_is_zero: false,
                    complete: true,
                    error: error.to_owned(),
                },
            ),
        ),
    }
}

/// Builds a cancel packet.
pub fn new_call_cancel() -> (r: Packet)
    ensures
        r@ == spec_new_call_cancel(),
{
    Packet { body: Some(Body::CallCancel(true)) }
}

/// Names the body kind of a packet, for diagnostics.
pub fn body_type_name(packet: &Packet) -> (r: &'static str)
    ensures
        r@ == match packet@.body {
            Some(BodyV::CallStart(_)) => "CallStart"@,
            Some(BodyV::CallData(_)) => "CallData"@,
            Some(BodyV::CallCancel(_)) => "CallCancel"@,
            None => "Empty"@,
        },
{
    match &packet.body {
        Some(Body::CallStart(_)) => "CallStart",
        Some(Body::CallData(_)) => "CallData",
        Some(Body::CallCancel(_)) => "CallCancel",
        None => "Empty",
    }
}

/// Whether a `CallStart` model passes validation: both ids are non-empty.
pub open spec fn spec_call_start_valid(cs: CallStartV) -> bool {
    cs.rpc_method.len() > 0 && cs.rpc_service.len() > 0
}

/// Whether a `CallData` model passes validation: it must carry at least one
/// of a payload, the explicit-empty flag, completion, or an error.
pub open spec fn spec_call_data_valid(cd: CallDataV) -> bool {
    cd.data.len() > 0 || cd.data_is_zero || cd.complete || cd.error.len() > 0
}

/// Whether a packet model passes validation.
pub open spec fn spec_packet_valid(p: PacketV) -> bool {
    match p.body {
        Some(BodyV::CallStart(cs)) => spec_call_start_valid(cs),
        Some(BodyV::CallData(cd)) => spec_call_data_valid(cd),
        Some(BodyV::CallCancel(_)) => true,
        None => false,
    }
}

/// Which error validation reports for an invalid packet model.
pub open spec fn spec_validate_error(p: PacketV, e: Error) -> bool {
    match p.body {
        Some(BodyV::CallStart(cs)) => if cs.rpc_method.len() == 0 {
            e is EmptyMethodId
        } else {
            e is EmptyServiceId
        },
        Some(BodyV::CallData(_)) => e is EmptyPacket,
        Some(BodyV::CallCancel(_)) => false,
        None => e is EmptyPacket,
    }
}

/// Validation of a message received from the wire.
pub trait Validate {
    /// Checks the message, returning the reason when it is rejected.
    fn validate(&self) -> crate::error::Result<()>;
}

impl Validate for CallStart {
    /// Accepts exactly when service and method are both non-empty; an empty
    /// method is reported before an empty service.
    fn validate(&self) -> (r: crate::error::Result<()>)
        ensures
            r is Ok <==> spec_call_start_valid(self@),
            r matches Err(e) ==> if self@.rpc_method.len() == 0 {
                e is EmptyMethodId
            } else {
                e is EmptyServiceId
            },
    {
        if self.rpc_method.as_str().is_empty() {
            return Err(Error::EmptyMethodId);
        }
        if self.rpc_service.as_str().is_empty() {
            return Err(Error::EmptyServiceId);
        }
        Ok(())
    }
}

impl Validate for CallData {
    /// Accepts exactly when the packet carries some content or flag; an
    /// entirely empty `CallData` is an empty packet.
    fn validate(&self) -> (r: crate::error::Result<()>)
        ensures
            r is Ok <==> spec_call_data_valid(self@),
            r matches Err(e) ==> e is EmptyPacket,
    {
        if self.data.len() == 0 && !self.data_is_zero && !self.complete
            && self.error.as_str().is_empty() {
            return Err(Error::EmptyPacket);
        }
        Ok(())
    }
}

impl Validate for Packet {
    /// Accepts exactly the valid packets: a body must be present and must
    /// itself validate; a missing body is an empty packet.
    fn validate(&self) -> (r: crate::error::Result<()>)
        ensures
            r is Ok <==> spec_packet_valid(self@),
            r matches Err(e) ==> spec_validate_error(self@, e),
    {
        match &self.body {
            Some(Body::CallStart(cs)) => cs.validate(),
            Some(Body::CallData(cd)) => cd.validate(),
            Some(Body::CallCancel(_)) => Ok(()),
            None => Err(Error::EmptyPacket),
        }
    }
}

impl Packet {
    /// True exactly when this packet carries a `CallStart`.
    pub fn is_call_start(&self) -> (r: bool)
        ensures
            r == (self@.body matches Some(BodyV::CallStart(_))),
    {
        matches!(&self.body, Some(Body::CallStart(_)))
    }

    /// True exactly when this packet carries a `CallData`.
    pub fn is_call_data(&self) -> (r: bool)
        ensures
            r == (self@.body matches Some(BodyV::CallData(_))),
    {
        matches!(&self.body, Some(Body::CallData(_)))
    }

    /// True exactly when this packet is an abortive cancel.
    pub fn is_call_cancel(&self) -> (r: bool)
        ensures
            r == (self@.body matches Some(BodyV::CallCancel(true))),
    {
        matches!(&self.body, Some(Body::CallCancel(true)))
    }

    /// The `CallStart` body, when this packet carries one.
    pub fn into_call_start(self) -> (r: Option<CallStart>)
        ensures
            match r {
                Some(cs) => self@.body == Some(BodyV::CallStart(cs@)),
                None => !(self@.body matches Some(BodyV::CallStart(_))),
            },
    {
        match self.body {
            Some(Body::CallStart(cs)) => Some(cs),
            _ => None,
        }
    }

    /// The `CallData` body, when this packet carries one.
    pub fn into_call_data(self) -> (r: Option<CallData>)
        ensures
            match r {
                Some(cd) => self@.body == Some(BodyV::CallData(cd@)),
                None => !(self@.body matches Some(BodyV::CallData(_))),
            },
    {
        match self.body {
            Some(Body::CallData(cd)) => Some(cd),
            _ => None,
        }
    }

    /// True exactly when this packet terminates the peer's sending side:
    /// a `CallData` with completion or an error, or an abortive cancel.
    pub fn is_complete(&self) -> (r: bool)
        ensures
            r == match self@.body {
                Some(BodyV::CallData(cd)) => cd.complete || cd.error.len() > 0,
                Some(BodyV::CallCancel(b)) => b,
                _ => false,
            },
    {
        match &self.body {
            Some(Body::CallData(cd)) => cd.complete || !cd.error.as_str().is_empty(),
            Some(Body::CallCancel(true)) => true,
            _ => false,
        }
    }
}

} // verus!
