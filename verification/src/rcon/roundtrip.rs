//! What reading a packet gives back of what was written.

use crate::rcon::request::{packet, RconRequestType, RconRequestView};
use crate::rcon::response::{
    decode, id_field, payload_end, payload_field, payload_in_bounds, size_field, type_field,
    DecodeFault, RconResponseType, RconResponseView,
};
use crate::rcon::wire::{le_bytes, lemma_le_signed_of_bytes};
use vstd::prelude::*;
use vstd::utf8::{decode_utf8, encode_utf8_decode_utf8, encode_utf8_valid_utf8, valid_utf8};

verus! {

/// A packet is 14 bytes longer than its payload: 12 of header and two zeros.
pub proof fn lemma_packet_len(id: int, code: int, payload: Seq<u8>)
    ensures
        packet(id, code, payload).len() == payload.len() + 14,
{
}

/// The header fields of a packet read back as they were written, as long as
/// the size fits in a signed 32-bit field.
pub proof fn lemma_packet_fields(id: i32, code: i32, payload: Seq<u8>)
    requires
        payload.len() + 10 <= i32::MAX,
    ensures
        size_field(packet(id as int, code as int, payload)) == payload.len() + 10,
        id_field(packet(id as int, code as int, payload)) == id,
        type_field(packet(id as int, code as int, payload)) == code,
{
    let bytes = packet(id as int, code as int, payload);
    let size = (payload.len() + 10) as i32;
    lemma_le_signed_of_bytes(size);
    lemma_le_signed_of_bytes(id);
    lemma_le_signed_of_bytes(code);
    assert(bytes.subrange(0, 4) =~= le_bytes(size as int));
    assert(bytes.subrange(4, 8) =~= le_bytes(id as int));
    assert(bytes.subrange(8, 12) =~= le_bytes(code as int));
}

/// Reading a packet gives back what was written: its id, its type and its
/// whole payload, whenever the type code is that of a response, the payload is
/// UTF-8 and the size fits in a signed 32-bit field.
pub proof fn lemma_decode_packet(id: i32, code: i32, payload: Seq<u8>)
    requires
        RconResponseType::of_code(code) is Some,
        payload.len() + 10 <= i32::MAX,
        valid_utf8(payload),
    ensures
        decode(packet(id as int, code as int, payload)) == Ok::<RconResponseView, DecodeFault>(
            RconResponseView {
                id,
                kind: RconResponseType::of_code(code)->0,
                payload: decode_utf8(payload),
            },
        ),
{
    let bytes = packet(id as int, code as int, payload);
    lemma_packet_len(id as int, code as int, payload);
    lemma_packet_fields(id, code, payload);
    assert(payload_end(bytes) == payload.len() + 12);
    assert(payload_in_bounds(bytes));
    assert(payload_field(bytes) =~= payload);
}

/// The same holds of a buffer that begins with the packet, whatever follows:
/// a receive buffer is read as the packet that arrived in it.
pub proof fn lemma_decode_buffer(id: i32, code: i32, payload: Seq<u8>, rest: Seq<u8>)
    requires
        RconResponseType::of_code(code) is Some,
        payload.len() + 10 <= i32::MAX,
        valid_utf8(payload),
    ensures
        decode(packet(id as int, code as int, payload) + rest) == decode(
            packet(id as int, code as int, payload),
        ),
{
    let whole = packet(id as int, code as int, payload);
    let bytes = whole + rest;
    lemma_decode_packet(id, code, payload);
    lemma_packet_len(id as int, code as int, payload);
    lemma_packet_fields(id, code, payload);
    assert(bytes.subrange(0, 4) =~= whole.subrange(0, 4));
    assert(bytes.subrange(4, 8) =~= whole.subrange(4, 8));
    assert(bytes.subrange(8, 12) =~= whole.subrange(8, 12));
    assert(payload_end(bytes) == payload.len() + 12);
    assert(payload_field(bytes) =~= payload_field(whole));
}

/// A buffer whose type code stands for no response type is never decoded,
/// whatever else it holds.
pub proof fn lemma_decode_unknown_type(bytes: Seq<u8>)
    requires
        bytes.len() >= 12,
        RconResponseType::of_code(type_field(bytes) as i32) is None,
    ensures
        decode(bytes) is Err,
{
}

/// A buffer whose size field puts the end of the payload before offset 12 or
/// past the end of the buffer is never decoded.
pub proof fn lemma_decode_out_of_bounds(bytes: Seq<u8>)
    requires
        payload_end(bytes) < 12 || payload_end(bytes) > bytes.len(),
    ensures
        decode(bytes) is Err,
{
}

/// A command request, read as a response, comes back whole: its id, its
/// payload and its type code, for code 2 is that of a login answer. This
/// holds of every payload that can be sent, and of larger ones as long as the
/// size fits its field.
pub proof fn lemma_request_round_trip(request: RconRequestView)
    requires
        request.kind == RconRequestType::ExecCommand,
        request.payload_bytes().len() + 10 <= i32::MAX,
    ensures
        decode(request.wire()) == Ok::<RconResponseView, DecodeFault>(
            RconResponseView {
                id: request.id,
                kind: RconResponseType::AuthResponse,
                payload: request.payload,
            },
        ),
        RconResponseType::AuthResponse.code() == request.kind.code(),
{
    encode_utf8_valid_utf8(request.payload);
    encode_utf8_decode_utf8(request.payload);
    lemma_decode_packet(request.id, request.kind.code(), request.payload_bytes());
}

/// A login request is no response: its type code is that of no response type.
pub proof fn lemma_login_request_not_read_back(request: RconRequestView)
    requires
        request.kind == RconRequestType::Auth,
        request.payload_bytes().len() + 10 <= i32::MAX,
    ensures
        decode(request.wire()) == Err::<RconResponseView, DecodeFault>(
            DecodeFault::UnknownType { code: 3 },
        ),
{
    lemma_packet_len(request.id as int, request.kind.code() as int, request.payload_bytes());
    lemma_packet_fields(request.id, request.kind.code(), request.payload_bytes());
}

} // verus!
