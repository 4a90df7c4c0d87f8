//! Responses and how they are read from the wire.

use crate::rcon::decimal::{decimal, i32_to_decimal};
use crate::rcon::error::concat;
use crate::rcon::wire::{le_signed, read_le_i32};
use vstd::prelude::*;
use vstd::slice::slice_subrange;
use vstd::std_specs::convert::TryFromSpecImpl;
use vstd::string::*;
use vstd::utf8::{decode_utf8, encode_utf8_decode_utf8, valid_utf8};

verus! {

/// Why a buffer is no response.
#[derive(Debug, PartialEq, Eq)]
pub enum RconResponseError {
    /// The buffer could not be decoded.
    Decode { cause: String },
}

/// The mathematical content of an [`RconResponseError`].
pub ghost enum RconResponseErrorView {
    Decode { cause: Seq<char> },
}

impl RconResponseErrorView {
    /// The message that the error shows.
    pub open spec fn message(self) -> Seq<char> {
        match self {
            RconResponseErrorView::Decode { cause } => "Failed to decode RCON response: "@ + cause,
        }
    }
}

impl View for RconResponseError {
    type V = RconResponseErrorView;

    open spec fn view(&self) -> RconResponseErrorView {
        match self {
            RconResponseError::Decode { cause } => RconResponseErrorView::Decode { cause: cause@ },
        }
    }
}

impl RconResponseError {
    /// The message that the error shows.
    pub fn to_string(&self) -> (text: String)
        ensures
            text@ == self@.message(),
    {
        match self {
            RconResponseError::Decode { cause } => concat(
                "Failed to decode RCON response: ",
                cause.as_str(),
            ),
        }
    }
}

/// What a response is.
#[derive(Debug, Clone, Copy, PartialEq, Eq, Structural)]
pub enum RconResponseType {
    /// The result of a command.
    ResponseValue,
    /// The answer to a login.
    AuthResponse,
}

impl RconResponseType {
    /// The type code on the wire.
    pub open spec fn code(self) -> i32 {
        match self {
            RconResponseType::ResponseValue => 0,
            RconResponseType::AuthResponse => 2,
        }
    }

    /// The type that a code stands for, if any: there is no fallback.
    pub open spec fn of_code(code: i32) -> Option<RconResponseType> {
        if code == 0 {
            Some(RconResponseType::ResponseValue)
        } else if code == 2 {
            Some(RconResponseType::AuthResponse)
        } else {
            None
        }
    }

    /// What is said of a code that stands for no type.
    pub open spec fn unknown(code: i32) -> Seq<char> {
        "Unknown RCON response type: "@ + decimal(code as int)
    }
}

impl TryFrom<i32> for RconResponseType {
    type Error = String;

    fn try_from(code: i32) -> (r: Result<RconResponseType, String>)
        ensures
            match RconResponseType::of_code(code) {
                Some(kind) => r == Ok::<RconResponseType, String>(kind),
                None => r matches Err(cause) && cause@ == RconResponseType::unknown(code),
            },
    {
        if code == 0 {
            Ok(RconResponseType::ResponseValue)
        } else if code == 2 {
            Ok(RconResponseType::AuthResponse)
        } else {
            let digits: String = i32_to_decimal(code);
            Err(concat("Unknown RCON response type: ", digits.as_str()))
        }
    }
}

/// The error text is a `String`, which a specification cannot build, so the law
/// of the conversion is the contract of `try_from` itself.
impl TryFromSpecImpl<i32> for RconResponseType {
    open spec fn obeys_try_from_spec() -> bool {
        false
    }

    open spec fn try_from_spec(code: i32) -> Result<RconResponseType, String> {
        match RconResponseType::of_code(code) {
            Some(kind) => Ok(kind),
            None => Err(arbitrary()),
        }
    }
}

#[verifier::external_type_specification]
#[verifier::external_body]
pub struct ExUtf8Error(core::str::Utf8Error);

/// `core::str::from_utf8` succeeds exactly on well-formed UTF-8, and the text
/// it then returns is made of the very bytes it was given.
pub assume_specification[ core::str::from_utf8 ](v: &[u8]) -> (r: Result<
    &str,
    core::str::Utf8Error,
>)
    ensures
        r is Ok <==> valid_utf8(v@),
        r matches Ok(text) ==> text.spec_bytes() == v@,
;

/// One response.
#[derive(Debug, Clone)]
pub struct RconResponse {
    /// The id of the request, or -1 where a login was refused.
    pub response_id: i32,
    pub response_type: RconResponseType,
    pub response_payload: String,
}

/// The mathematical content of an [`RconResponse`].
pub ghost struct RconResponseView {
    pub id: i32,
    pub kind: RconResponseType,
    pub payload: Seq<char>,
}

impl View for RconResponse {
    type V = RconResponseView;

    open spec fn view(&self) -> RconResponseView {
        RconResponseView {
            id: self.response_id,
            kind: self.response_type,
            payload: self.response_payload@,
        }
    }
}

/// The ways in which a buffer fails to be a response, in the order in which
/// they are looked for.
pub ghost enum DecodeFault {
    /// Fewer than 4 bytes: no size field.
    Size,
    /// Fewer than 8 bytes: no id field.
    Id,
    /// Fewer than 12 bytes: no type field.
    Type,
    /// The type code stands for no response type.
    UnknownType { code: i32 },
    /// The size field puts the end of the payload before offset 12 or past the
    /// end of the buffer, or the payload is not UTF-8.
    Payload,
}

impl DecodeFault {
    /// The cause that the error carries.
    pub open spec fn cause(self) -> Seq<char> {
        match self {
            DecodeFault::Size => "Failed to decode response size"@,
            DecodeFault::Id => "Failed to decode response id"@,
            DecodeFault::Type => "Failed to decode response type"@,
            DecodeFault::UnknownType { code } => RconResponseType::unknown(code),
            DecodeFault::Payload => "Failed to decode response payload"@,
        }
    }
}

/// The size field of a buffer of at least 4 bytes.
pub open spec fn size_field(bytes: Seq<u8>) -> int {
    le_signed(bytes.subrange(0, 4))
}

/// The id field of a buffer of at least 8 bytes.
pub open spec fn id_field(bytes: Seq<u8>) -> int {
    le_signed(bytes.subrange(4, 8))
}

/// The type field of a buffer of at least 12 bytes.
pub open spec fn type_field(bytes: Seq<u8>) -> int {
    le_signed(bytes.subrange(8, 12))
}

/// Where the payload ends, counted from the start of the buffer. The size
/// field counts what follows it, so the packet ends at 4 plus the size, and
/// the payload two zero bytes before that.
pub open spec fn payload_end(bytes: Seq<u8>) -> int {
    4 + size_field(bytes) - 2
}

/// Whether the payload lies within the buffer, after the 12 bytes of header.
pub open spec fn payload_in_bounds(bytes: Seq<u8>) -> bool {
    12 <= payload_end(bytes) <= bytes.len()
}

/// The bytes of the payload, where it lies within the buffer.
pub open spec fn payload_field(bytes: Seq<u8>) -> Seq<u8> {
    bytes.subrange(12, payload_end(bytes))
}

/// What a buffer decodes to.
pub open spec fn decode(bytes: Seq<u8>) -> Result<RconResponseView, DecodeFault> {
    if bytes.len() < 4 {
        Err(DecodeFault::Size)
    } else if bytes.len() < 8 {
        Err(DecodeFault::Id)
    } else if bytes.len() < 12 {
        Err(DecodeFault::Type)
    } else {
        match RconResponseType::of_code(type_field(bytes) as i32) {
            None => Err(DecodeFault::UnknownType { code: type_field(bytes) as i32 }),
            Some(kind) => if payload_in_bounds(bytes) && valid_utf8(payload_field(bytes)) {
                Ok(
                    RconResponseView {
                        id: id_field(bytes) as i32,
                        kind,
                        payload: decode_utf8(payload_field(bytes)),
                    },
                )
            } else {
                Err(DecodeFault::Payload)
            },
        }
    }
}

fn fault(cause: &str) -> (r: Result<RconResponse, RconResponseError>)
    ensures
        r matches Err(error) && error@ == (RconResponseErrorView::Decode { cause: cause@ }),
{
    Err(RconResponseError::Decode { cause: String::from_str(cause) })
}

impl RconResponse {
    /// Reads a response from a buffer: the id, the type and the whole payload,
    /// which is the text between the 12 bytes of header and the two zero bytes.
    /// The size field comes from the server and is trusted with nothing: a
    /// payload that it puts before offset 12 or past the end of the buffer is a
    /// decode error, as is a short buffer, an unknown type code and a payload
    /// that is not UTF-8. What the buffer holds after the payload is not looked
    /// at.
    pub fn try_from_rcon_bytes(rcon_bytes: &[u8]) -> (r: Result<RconResponse, RconResponseError>)
        ensures
            match decode(rcon_bytes@) {
                Ok(view) => r matches Ok(response) && response@ == view,
                Err(fault) => r matches Err(error) && error@ == (RconResponseErrorView::Decode {
                    cause: fault.cause(),
                }),
            },
            rcon_bytes@.len() >= 12 && !payload_in_bounds(rcon_bytes@) ==> r is Err,
    {
        let length: usize = rcon_bytes.len();
        if length < 4 {
            return fault("Failed to decode response size");
        }
        let response_size: i32 = read_le_i32(rcon_bytes, 0);
        if length < 8 {
            return fault("Failed to decode response id");
        }
        let response_id: i32 = read_le_i32(rcon_bytes, 4);
        if length < 12 {
            return fault("Failed to decode response type");
        }
        let response_type: RconResponseType = match RconResponseType::try_from(
            read_le_i32(rcon_bytes, 8),
        ) {
            Ok(kind) => kind,
            Err(cause) => {
                return Err(RconResponseError::Decode { cause });
            },
        };
        if response_size < 10 {
            return fault("Failed to decode response payload");
        }
        let payload_end: u64 = response_size as u64 + 2;
        if payload_end > length as u64 {
            return fault("Failed to decode response payload");
        }
        let payload: &[u8] = slice_subrange(rcon_bytes, 12, payload_end as usize);
        match core::str::from_utf8(payload) {
            Ok(text) => {
                proof {
                    encode_utf8_decode_utf8(text@);
                }
                Ok(
                    RconResponse {
                        response_id,
                        response_type,
                        response_payload: String::from_str(text),
                    },
                )
            },
            Err(_) => fault("Failed to decode response payload"),
        }
    }
}

} // verus!
