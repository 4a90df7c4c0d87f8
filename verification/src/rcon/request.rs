//! Requests and their wire form.

use crate::rcon::wire::{le_bytes, lemma_le_bytes_wraps, push_le_i32, push_le_u32};
use rand::Rng;
use vstd::prelude::*;
use vstd::std_specs::convert::FromSpecImpl;
use vstd::utf8::encode_utf8;

verus! {

/// What a request asks of the server.
#[derive(Debug, Clone, Copy, PartialEq, Eq, Structural)]
pub enum RconRequestType {
    /// Run a command.
    ExecCommand,
    /// Log in with the shared secret.
    Auth,
}

impl RconRequestType {
    /// The type code on the wire.
    pub open spec fn code(self) -> i32 {
        match self {
            RconRequestType::ExecCommand => 2,
            RconRequestType::Auth => 3,
        }
    }
}

impl From<&RconRequestType> for i32 {
    fn from(kind: &RconRequestType) -> (code: i32) {
        match kind {
            RconRequestType::ExecCommand => 2,
            RconRequestType::Auth => 3,
        }
    }
}

impl FromSpecImpl<&RconRequestType> for i32 {
    open spec fn obeys_from_spec() -> bool {
        true
    }

    open spec fn from_spec(kind: &RconRequestType) -> i32 {
        kind.code()
    }
}

/// One request: fixed once built.
#[derive(Debug, Clone)]
pub struct RconRequest {
    /// Echoed by the server in its reply.
    pub request_id: i32,
    pub request_type: RconRequestType,
    /// The command, or the shared secret of a login.
    pub request_payload: String,
}

/// The mathematical content of an [`RconRequest`].
pub ghost struct RconRequestView {
    pub id: i32,
    pub kind: RconRequestType,
    pub payload: Seq<char>,
}

/// A packet: the size of what follows the size field, the id, the type code,
/// the payload and two zero bytes, every number little-endian. A size that does
/// not fit in 32 bits is cut to its low 32 bits.
pub open spec fn packet(id: int, code: int, payload: Seq<u8>) -> Seq<u8> {
    le_bytes(payload.len() as int + 10) + le_bytes(id) + le_bytes(code) + payload + seq![0u8, 0u8]
}

impl RconRequestView {
    /// The payload as the wire carries it.
    pub open spec fn payload_bytes(self) -> Seq<u8> {
        encode_utf8(self.payload)
    }

    /// The request on the wire.
    pub open spec fn wire(self) -> Seq<u8> {
        packet(self.id as int, self.kind.code() as int, self.payload_bytes())
    }
}

impl View for RconRequest {
    type V = RconRequestView;

    open spec fn view(&self) -> RconRequestView {
        RconRequestView {
            id: self.request_id,
            kind: self.request_type,
            payload: self.request_payload@,
        }
    }
}

/// A fresh request id from `rand::rng()`, drawn with `Rng::random`: any 32-bit
/// value may come back, so nothing is claimed of it.
#[verifier::external_body]
pub(crate) fn random_request_id() -> (id: i32) {
    rand::rng().random::<i32>()
}

/// The size field of a packet whose payload has `length` bytes: the low 32 bits
/// of the count of bytes that follow the field.
fn size_field(length: usize) -> (size: u32)
    ensures
        size == (length + 10) % 0x1_0000_0000,
{
    ((length as u64 % 0x1_0000_0000 + 10) % 0x1_0000_0000) as u32
}

impl RconRequest {
    /// A request with the given id.
    pub fn with_id(request_id: i32, request_type: RconRequestType, request_payload: String) -> (request:
        RconRequest)
        ensures
            request@ == (RconRequestView {
                id: request_id,
                kind: request_type,
                payload: request_payload@,
            }),
    {
        RconRequest { request_id, request_type, request_payload }
    }

    /// A request with a random id.
    pub fn new(request_type: RconRequestType, request_payload: String) -> (request: RconRequest)
        ensures
            request@.kind == request_type,
            request@.payload == request_payload@,
    {
        RconRequest::with_id(random_request_id(), request_type, request_payload)
    }

    /// The request on the wire. Its length is that of the payload plus 14.
    pub fn to_rcon_bytes(&self) -> (bytes: Vec<u8>)
        ensures
            bytes@ == self@.wire(),
            bytes@.len() == self@.payload_bytes().len() + 14,
    {
        let request_type: i32 = i32::from(&self.request_type);
        let request_payload: &[u8] = self.request_payload.as_str().as_bytes();
        let length: usize = request_payload.len();
        let request_size: u32 = size_field(length);
        proof {
            lemma_le_bytes_wraps(length + 10);
        }

        let mut bytes: Vec<u8> = Vec::new();
        push_le_u32(&mut bytes, request_size);
        push_le_i32(&mut bytes, self.request_id);
        push_le_i32(&mut bytes, request_type);
        let ghost header = bytes@;
        assert(header =~= le_bytes(length + 10) + le_bytes(self.request_id as int) + le_bytes(
            request_type as int,
        ));
        bytes.extend_from_slice(request_payload);
        bytes.push(0u8);
        bytes.push(0u8);
        assert(bytes@ =~= header + request_payload@ + seq![0u8, 0u8]);
        bytes
    }
}

} // verus!
