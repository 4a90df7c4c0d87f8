//! The connection: what is sent, what is accepted, and which error each
//! failure of the transport becomes. The transport itself is the caller's.

use crate::rcon::configuration::{
    resolve, resolved, RconConfiguration, RconEnvironment, RconEnvironmentView,
};
use crate::rcon::error::{RconError, RconErrorView};
use crate::rcon::request::{packet, RconRequest, RconRequestType, RconRequestView};
use crate::rcon::response::{
    decode, RconResponse, RconResponseErrorView, RconResponseType, RconResponseView,
};
use crate::rcon::roundtrip::{lemma_decode_buffer, lemma_decode_packet};
use vstd::prelude::*;
use vstd::string::*;
use vstd::utf8::{decode_utf8, valid_utf8};

verus! {

/// Maximum packet size for sending data: 4 bytes of size, 4 of id, 4 of type,
/// at most 1446 of payload and the two zero bytes.
pub const MAX_REQUEST_SIZE: usize = 1460;

/// Maximum packet size for receiving data: the same framing round a payload of
/// at most 4096 bytes. One read into a buffer of this size is all that is done
/// for a reply; a reply that comes in several pieces is not put together.
pub const MAX_RESPONSE_SIZE: usize = 4110;

/// The life of a connection. There is no way back: after a failure the
/// connection is closed and dropped.
#[derive(Debug, Clone, Copy, PartialEq, Eq, Structural)]
pub enum RconState {
    Disconnected,
    Connected,
    AuthenticatePending,
    Ready,
    Closed,
}

/// The operations of a connection.
#[derive(Debug, Clone, Copy)]
pub struct Rcon {}

impl Default for Rcon {
    fn default() -> (client: Rcon)
        ensures
            client == (Rcon {  }),
    {
        Rcon {  }
    }
}

/// The login request that a configuration asks for, under the given id.
pub open spec fn login_for(environment: RconEnvironmentView, id: i32) -> Result<
    RconRequestView,
    RconErrorView,
> {
    match resolve(environment) {
        Ok(configuration) => Ok(
            RconRequestView { id, kind: RconRequestType::Auth, payload: configuration.password },
        ),
        Err(fault) => Err(fault.error()),
    }
}

/// What to send for a request: its wire form, unless that is too large.
pub open spec fn frame(request: RconRequestView) -> Result<Seq<u8>, RconErrorView> {
    if request.wire().len() <= MAX_REQUEST_SIZE {
        Ok(request.wire())
    } else {
        Err(RconErrorView::Send { cause: "Request size exceeds the maximum size"@ })
    }
}

/// What a reply is: the response that the buffer decodes to, or the error that
/// says why there is none.
pub open spec fn reply(outcome: Result<Vec<u8>, String>) -> Result<RconResponseView, RconErrorView> {
    match outcome {
        Ok(bytes) => match decode(bytes@) {
            Ok(response) => Ok(response),
            Err(fault) => Err(
                RconErrorView::Receive {
                    cause: (RconResponseErrorView::Decode { cause: fault.cause() }).message(),
                },
            ),
        },
        Err(cause) => Err(RconErrorView::Receive { cause: cause@ }),
    }
}

/// A receive buffer that begins with a well-formed packet is a reply, never
/// an error: the response with its id, its type and its whole payload.
pub proof fn lemma_reply_of_packet(
    bytes: Vec<u8>,
    id: i32,
    code: i32,
    payload: Seq<u8>,
    rest: Seq<u8>,
)
    requires
        bytes@ == packet(id as int, code as int, payload) + rest,
        RconResponseType::of_code(code) is Some,
        payload.len() + 10 <= i32::MAX,
        valid_utf8(payload),
    ensures
        reply(Ok(bytes)) == Ok::<RconResponseView, RconErrorView>(
            RconResponseView {
                id,
                kind: RconResponseType::of_code(code)->0,
                payload: decode_utf8(payload),
            },
        ),
{
    lemma_decode_packet(id, code, payload);
    lemma_decode_buffer(id, code, payload, rest);
}

impl Rcon {
    /// Resolves the configuration from the environment, afresh.
    pub fn get_configuration(environment: &RconEnvironment) -> (r: Result<
        RconConfiguration,
        RconError,
    >)
        ensures
            resolved(environment@, r),
    {
        RconConfiguration::try_new(environment)
    }

    /// The address to open the transport to.
    pub fn connect(environment: &RconEnvironment) -> (r: Result<String, RconError>)
        ensures
            match resolve(environment@) {
                Ok(configuration) => r matches Ok(address) && address@ == configuration.address(),
                Err(fault) => r matches Err(error) && error@ == fault.error(),
            },
    {
        match Rcon::get_configuration(environment) {
            Ok(configuration) => Ok(configuration.address()),
            Err(error) => Err(error),
        }
    }

    /// What opening the transport came to: a failure is a connection error
    /// that carries its cause.
    pub fn connected(outcome: Result<(), String>) -> (r: Result<(), RconError>)
        ensures
            match outcome {
                Ok(_) => r is Ok,
                Err(cause) => r matches Err(error) && error@ == (RconErrorView::Connection {
                    cause: cause@,
                }),
            },
    {
        match outcome {
            Ok(_) => Ok(()),
            Err(cause) => Err(RconError::Connection { cause }),
        }
    }

    /// The login request under the given id: it carries the configured
    /// password.
    pub fn login_with_id(environment: &RconEnvironment, request_id: i32) -> (r: Result<
        RconRequest,
        RconError,
    >)
        ensures
            match login_for(environment@, request_id) {
                Ok(view) => r matches Ok(request) && request@ == view,
                Err(view) => r matches Err(error) && error@ == view,
            },
    {
        match Rcon::get_configuration(environment) {
            Ok(configuration) => Ok(
                RconRequest::with_id(request_id, RconRequestType::Auth, configuration.password),
            ),
            Err(error) => Err(error),
        }
    }

    /// The login request, under a random id.
    pub fn login(environment: &RconEnvironment) -> (r: Result<RconRequest, RconError>)
        ensures
            match resolve(environment@) {
                Ok(configuration) => r matches Ok(request) && request@.kind
                    == RconRequestType::Auth && request@.payload == configuration.password,
                Err(fault) => r matches Err(error) && error@ == fault.error(),
            },
    {
        match Rcon::get_configuration(environment) {
            Ok(configuration) => Ok(RconRequest::new(RconRequestType::Auth, configuration.password)),
            Err(error) => Err(error),
        }
    }

    /// Whether the server accepted the login: it answers a refused one with the
    /// id -1, and nothing else of the response is looked at.
    pub fn logged_in(response: &RconResponse) -> (accepted: bool)
        ensures
            accepted == (response@.id != -1),
    {
        response.response_id != -1
    }

    /// The bytes to write for a request. One that is larger than
    /// `MAX_REQUEST_SIZE` on the wire, that is one of more than 1446 payload
    /// bytes, is refused here, before anything is written.
    pub fn send(request: &RconRequest) -> (r: Result<Vec<u8>, RconError>)
        ensures
            match frame(request@) {
                Ok(wire) => r matches Ok(bytes) && bytes@ == wire,
                Err(view) => r matches Err(error) && error@ == view,
            },
            r is Ok <==> request@.payload_bytes().len() <= 1446,
    {
        let bytes: Vec<u8> = request.to_rcon_bytes();
        if bytes.len() > MAX_REQUEST_SIZE {
            return Err(
                RconError::Send { cause: String::from_str("Request size exceeds the maximum size") },
            );
        }
        Ok(bytes)
    }

    /// What writing and flushing came to: a failure is a send error that
    /// carries its cause.
    pub fn sent(outcome: Result<(), String>) -> (r: Result<(), RconError>)
        ensures
            match outcome {
                Ok(_) => r is Ok,
                Err(cause) => r matches Err(error) && error@ == (RconErrorView::Send {
                    cause: cause@,
                }),
            },
    {
        match outcome {
            Ok(_) => Ok(()),
            Err(cause) => Err(RconError::Send { cause }),
        }
    }

    /// The response in the receive buffer. A failed read and a buffer that does
    /// not decode are both receive errors: no reply is ever made up.
    pub fn receive(outcome: Result<Vec<u8>, String>) -> (r: Result<RconResponse, RconError>)
        ensures
            match reply(outcome) {
                Ok(view) => r matches Ok(response) && response@ == view,
                Err(view) => r matches Err(error) && error@ == view,
            },
    {
        match outcome {
            Ok(bytes) => match RconResponse::try_from_rcon_bytes(bytes.as_slice()) {
                Ok(response) => Ok(response),
                Err(error) => Err(RconError::Receive { cause: error.to_string() }),
            },
            Err(cause) => Err(RconError::Receive { cause }),
        }
    }

    /// What closing the transport came to: a failure is a shutdown error that
    /// carries its cause.
    pub fn shutdown(outcome: Result<(), String>) -> (r: Result<(), RconError>)
        ensures
            match outcome {
                Ok(_) => r is Ok,
                Err(cause) => r matches Err(error) && error@ == (RconErrorView::Shutdown {
                    cause: cause@,
                }),
            },
    {
        match outcome {
            Ok(_) => Ok(()),
            Err(cause) => Err(RconError::Shutdown { cause }),
        }
    }
}

} // verus!
