//! One call: connect, log in, run the command, disconnect. The transport is the
//! caller's; what to ask of it next, and what the call came to, is decided here.

use crate::rcon::client::{
    frame, lemma_reply_of_packet, login_for, reply, Rcon, RconState, MAX_RESPONSE_SIZE,
};
use crate::rcon::configuration::{resolve, RconEnvironment, RconEnvironmentView};
use crate::rcon::request::{
    packet, random_request_id, RconRequest, RconRequestType, RconRequestView,
};
use crate::rcon::response::{RconResponse, RconResponseType, RconResponseView};
use vstd::prelude::*;
use vstd::std_specs::convert::FromSpecImpl;
use vstd::utf8::{decode_utf8, valid_utf8};

verus! {

/// What a successful call returns.
#[derive(Debug, Clone)]
pub struct ApiRconResponse {
    pub id: i32,
    pub payload: String,
}

/// The mathematical content of an [`ApiRconResponse`].
pub ghost struct ApiRconResponseView {
    pub id: i32,
    pub payload: Seq<char>,
}

impl View for ApiRconResponse {
    type V = ApiRconResponseView;

    open spec fn view(&self) -> ApiRconResponseView {
        ApiRconResponseView { id: self.id, payload: self.payload@ }
    }
}

impl From<RconResponse> for ApiRconResponse {
    fn from(response: RconResponse) -> (api: ApiRconResponse) {
        ApiRconResponse { id: response.response_id, payload: response.response_payload }
    }
}

impl FromSpecImpl<RconResponse> for ApiRconResponse {
    open spec fn obeys_from_spec() -> bool {
        true
    }

    open spec fn from_spec(response: RconResponse) -> ApiRconResponse {
        ApiRconResponse { id: response.response_id, payload: response.response_payload }
    }
}

/// The id and payload of a response.
pub open spec fn answer(response: RconResponseView) -> ApiRconResponseView {
    ApiRconResponseView { id: response.id, payload: response.payload }
}

/// What a failed call returns.
#[derive(Debug, Clone, Copy, PartialEq, Eq, Structural)]
pub enum ApiStatus {
    /// The connection could not be made.
    BadGateway,
    /// The login or the command failed on the transport or in the protocol.
    ServiceUnavailable,
    /// The login was refused, or the server asked for it again.
    NetworkAuthenticationRequired,
    /// The connection could not be closed.
    InternalServerError,
}

impl ApiStatus {
    /// The HTTP status code.
    pub open spec fn spec_code(self) -> u16 {
        match self {
            ApiStatus::BadGateway => 502,
            ApiStatus::ServiceUnavailable => 503,
            ApiStatus::NetworkAuthenticationRequired => 511,
            ApiStatus::InternalServerError => 500,
        }
    }

    /// The HTTP status code.
    #[verifier::when_used_as_spec(spec_code)]
    pub fn code(self) -> (code: u16)
        ensures
            code == self.spec_code(),
    {
        match self {
            ApiStatus::BadGateway => 502,
            ApiStatus::ServiceUnavailable => 503,
            ApiStatus::NetworkAuthenticationRequired => 511,
            ApiStatus::InternalServerError => 500,
        }
    }
}

/// What the caller is to do next with the transport.
#[derive(Debug)]
pub enum RconAction {
    /// Open the transport to the address.
    Connect { address: String },
    /// Write all the bytes and flush.
    Send { bytes: Vec<u8> },
    /// Read once into a zeroed buffer of `capacity` bytes.
    Receive { capacity: usize },
    /// Shut the transport down in both directions.
    Shutdown,
    /// Nothing more: the call is over, with this result.
    Finish { result: Result<ApiRconResponse, ApiStatus> },
}

/// The mathematical content of an [`RconAction`].
pub ghost enum RconActionView {
    Connect { address: Seq<char> },
    Send { bytes: Seq<u8> },
    Receive { capacity: usize },
    Shutdown,
    Finish { result: Result<ApiRconResponseView, ApiStatus> },
}

impl View for RconAction {
    type V = RconActionView;

    open spec fn view(&self) -> RconActionView {
        match self {
            RconAction::Connect { address } => RconActionView::Connect { address: address@ },
            RconAction::Send { bytes } => RconActionView::Send { bytes: bytes@ },
            RconAction::Receive { capacity } => RconActionView::Receive { capacity: *capacity },
            RconAction::Shutdown => RconActionView::Shutdown,
            RconAction::Finish { result } => RconActionView::Finish {
                result: match result {
                    Ok(response) => Ok(response@),
                    Err(status) => Err(*status),
                },
            },
        }
    }
}

/// What the transport did with the last action. A failure carries the text of
/// its cause.
#[derive(Debug)]
pub enum RconEvent {
    Connected(Result<(), String>),
    Sent(Result<(), String>),
    /// The whole receive buffer, as it is after the read.
    Received(Result<Vec<u8>, String>),
    Shutdown(Result<(), String>),
}

/// Where a call stands: what it last asked of the transport.
#[derive(Debug)]
pub enum RconStage {
    /// It asked to connect.
    Connecting,
    /// It asked to send the login, and then to receive the answer.
    Authenticating { sent: bool },
    /// It asked to send the command, and then to receive the answer.
    Executing { sent: bool },
    /// It asked to shut down: the outcome is settled, and is given out once
    /// the transport is closed.
    Closing { state: RconState, outcome: Result<RconResponse, ApiStatus> },
    /// It is over.
    Finished,
}

/// The mathematical content of an [`RconStage`].
pub ghost enum RconStageView {
    Connecting,
    Authenticating { sent: bool },
    Executing { sent: bool },
    Closing { state: RconState, outcome: Result<RconResponseView, ApiStatus> },
    Finished,
}

impl RconStageView {
    /// The state of the connection at this stage.
    pub open spec fn state(self) -> RconState {
        match self {
            RconStageView::Connecting => RconState::Disconnected,
            RconStageView::Authenticating { sent } => RconState::AuthenticatePending,
            RconStageView::Executing { sent } => RconState::Ready,
            RconStageView::Closing { state, outcome } => state,
            RconStageView::Finished => RconState::Closed,
        }
    }
}

impl View for RconStage {
    type V = RconStageView;

    open spec fn view(&self) -> RconStageView {
        match self {
            RconStage::Connecting => RconStageView::Connecting,
            RconStage::Authenticating { sent } => RconStageView::Authenticating { sent: *sent },
            RconStage::Executing { sent } => RconStageView::Executing { sent: *sent },
            RconStage::Closing { state, outcome } => RconStageView::Closing {
                state: *state,
                outcome: match outcome {
                    Ok(response) => Ok(response@),
                    Err(status) => Err(*status),
                },
            },
            RconStage::Finished => RconStageView::Finished,
        }
    }
}

/// One call: the command to run, and where the call stands.
#[derive(Debug)]
pub struct RconCall {
    pub request: RconRequest,
    pub stage: RconStage,
}

/// The mathematical content of an [`RconCall`].
pub ghost struct RconCallView {
    pub request: RconRequestView,
    pub stage: RconStageView,
}

impl View for RconCall {
    type V = RconCallView;

    open spec fn view(&self) -> RconCallView {
        RconCallView { request: self.request@, stage: self.stage@ }
    }
}

/// The call as it is once the outcome is settled: it asks to shut down.
pub open spec fn close(
    request: RconRequestView,
    state: RconState,
    outcome: Result<RconResponseView, ApiStatus>,
) -> (RconCallView, Option<RconActionView>) {
    (
        RconCallView { request, stage: RconStageView::Closing { state, outcome } },
        Some(RconActionView::Shutdown),
    )
}

/// The call as it is once it is over.
pub open spec fn finish(request: RconRequestView, result: Result<ApiRconResponseView, ApiStatus>) -> (
    RconCallView,
    Option<RconActionView>,
) {
    (
        RconCallView { request, stage: RconStageView::Finished },
        Some(RconActionView::Finish { result }),
    )
}

/// The start of a call: it asks to connect to the configured address. Without
/// a configuration there is nothing to connect to, and the call is over.
pub open spec fn begin(request: RconRequestView, environment: RconEnvironmentView) -> (
    RconCallView,
    Option<RconActionView>,
) {
    match resolve(environment) {
        Ok(configuration) => (
            RconCallView { request, stage: RconStageView::Connecting },
            Some(RconActionView::Connect { address: configuration.address() }),
        ),
        Err(_) => finish(request, Err(ApiStatus::BadGateway)),
    }
}

/// The login, once connected: it asks to send the login request. Where there
/// is none to send, the login has failed.
pub open spec fn authenticate(
    request: RconRequestView,
    environment: RconEnvironmentView,
    login_id: i32,
) -> (RconCallView, Option<RconActionView>) {
    match login_for(environment, login_id) {
        Ok(login) => match frame(login) {
            Ok(bytes) => (
                RconCallView { request, stage: RconStageView::Authenticating { sent: false } },
                Some(RconActionView::Send { bytes }),
            ),
            Err(_) => close(request, RconState::Connected, Err(ApiStatus::ServiceUnavailable)),
        },
        Err(_) => close(request, RconState::Connected, Err(ApiStatus::ServiceUnavailable)),
    }
}

/// The command, once logged in: it asks to send the request of the call.
pub open spec fn execute(request: RconRequestView) -> (RconCallView, Option<RconActionView>) {
    match frame(request) {
        Ok(bytes) => (
            RconCallView { request, stage: RconStageView::Executing { sent: false } },
            Some(RconActionView::Send { bytes }),
        ),
        Err(_) => close(request, RconState::Ready, Err(ApiStatus::ServiceUnavailable)),
    }
}

/// What the answer to the login leads to: a failure of the exchange ends the
/// login, a refusal asks for authentication, and an acceptance goes on to the
/// command.
pub open spec fn authenticated(request: RconRequestView, outcome: Result<Vec<u8>, String>) -> (
    RconCallView,
    Option<RconActionView>,
) {
    match reply(outcome) {
        Ok(response) => if response.id == -1 {
            close(request, RconState::Connected, Err(ApiStatus::NetworkAuthenticationRequired))
        } else {
            execute(request)
        },
        Err(_) => close(request, RconState::AuthenticatePending, Err(ApiStatus::ServiceUnavailable)),
    }
}

/// What the answer to the command leads to: the response, unless the server
/// answers as to a login, which asks for authentication again.
pub open spec fn executed(request: RconRequestView, outcome: Result<Vec<u8>, String>) -> (
    RconCallView,
    Option<RconActionView>,
) {
    match reply(outcome) {
        Ok(response) => if response.kind == RconResponseType::AuthResponse {
            close(request, RconState::Ready, Err(ApiStatus::NetworkAuthenticationRequired))
        } else {
            close(request, RconState::Ready, Ok(response))
        },
        Err(_) => close(request, RconState::Ready, Err(ApiStatus::ServiceUnavailable)),
    }
}

/// What the call came to, once the transport is shut down: the settled
/// outcome, unless shutting down failed.
pub open spec fn closed(
    request: RconRequestView,
    outcome: Result<RconResponseView, ApiStatus>,
    shutdown: Result<(), String>,
) -> (RconCallView, Option<RconActionView>) {
    match shutdown {
        Ok(_) => finish(
            request,
            match outcome {
                Ok(response) => Ok(answer(response)),
                Err(status) => Err(status),
            },
        ),
        Err(_) => finish(request, Err(ApiStatus::InternalServerError)),
    }
}

/// One step of a call: the call after the event, and what it asks next. An
/// event that the call does not wait for leaves it as it is and asks nothing.
/// `login_id` is the id that a login request gets.
pub open spec fn step(
    call: RconCallView,
    event: RconEvent,
    environment: RconEnvironmentView,
    login_id: i32,
) -> (RconCallView, Option<RconActionView>) {
    match (call.stage, event) {
        (RconStageView::Connecting, RconEvent::Connected(Ok(_))) => authenticate(
            call.request,
            environment,
            login_id,
        ),
        (RconStageView::Connecting, RconEvent::Connected(Err(_))) => finish(
            call.request,
            Err(ApiStatus::BadGateway),
        ),
        (RconStageView::Authenticating { sent: false }, RconEvent::Sent(Ok(_))) => (
            RconCallView { request: call.request, stage: RconStageView::Authenticating { sent: true } },
            Some(RconActionView::Receive { capacity: MAX_RESPONSE_SIZE }),
        ),
        (RconStageView::Authenticating { sent: false }, RconEvent::Sent(Err(_))) => close(
            call.request,
            RconState::AuthenticatePending,
            Err(ApiStatus::ServiceUnavailable),
        ),
        (RconStageView::Authenticating { sent: true }, RconEvent::Received(outcome)) => authenticated(
            call.request,
            outcome,
        ),
        (RconStageView::Executing { sent: false }, RconEvent::Sent(Ok(_))) => (
            RconCallView { request: call.request, stage: RconStageView::Executing { sent: true } },
            Some(RconActionView::Receive { capacity: MAX_RESPONSE_SIZE }),
        ),
        (RconStageView::Executing { sent: false }, RconEvent::Sent(Err(_))) => close(
            call.request,
            RconState::Ready,
            Err(ApiStatus::ServiceUnavailable),
        ),
        (RconStageView::Executing { sent: true }, RconEvent::Received(outcome)) => executed(
            call.request,
            outcome,
        ),
        (RconStageView::Closing { state, outcome }, RconEvent::Shutdown(shutdown)) => closed(
            call.request,
            outcome,
            shutdown,
        ),
        _ => (call, None),
    }
}

/// The content of an action that may not be there.
pub open spec fn asked(action: Option<RconAction>) -> Option<RconActionView> {
    match action {
        Some(action) => Some(action@),
        None => None,
    }
}

fn close_call(request: RconRequest, state: RconState, outcome: Result<RconResponse, ApiStatus>) -> (r: (
    RconCall,
    Option<RconAction>,
))
    ensures
        (r.0@, asked(r.1)) == close(
            request@,
            state,
            match outcome {
                Ok(response) => Ok(response@),
                Err(status) => Err(status),
            },
        ),
{
    (RconCall { request, stage: RconStage::Closing { state, outcome } }, Some(RconAction::Shutdown))
}

fn finish_call(request: RconRequest, result: Result<ApiRconResponse, ApiStatus>) -> (r: (
    RconCall,
    Option<RconAction>,
))
    ensures
        (r.0@, asked(r.1)) == finish(
            request@,
            match result {
                Ok(response) => Ok(response@),
                Err(status) => Err(status),
            },
        ),
{
    (RconCall { request, stage: RconStage::Finished }, Some(RconAction::Finish { result }))
}

fn execute_call(request: RconRequest) -> (r: (RconCall, Option<RconAction>))
    ensures
        (r.0@, asked(r.1)) == execute(request@),
{
    match Rcon::send(&request) {
        Ok(bytes) => (
            RconCall { request, stage: RconStage::Executing { sent: false } },
            Some(RconAction::Send { bytes }),
        ),
        Err(_) => close_call(request, RconState::Ready, Err(ApiStatus::ServiceUnavailable)),
    }
}

fn authenticate_call(request: RconRequest, environment: &RconEnvironment, login_id: i32) -> (r: (
    RconCall,
    Option<RconAction>,
))
    ensures
        (r.0@, asked(r.1)) == authenticate(request@, environment@, login_id),
{
    match Rcon::login_with_id(environment, login_id) {
        Ok(login) => match Rcon::send(&login) {
            Ok(bytes) => (
                RconCall { request, stage: RconStage::Authenticating { sent: false } },
                Some(RconAction::Send { bytes }),
            ),
            Err(_) => close_call(request, RconState::Connected, Err(ApiStatus::ServiceUnavailable)),
        },
        Err(_) => close_call(request, RconState::Connected, Err(ApiStatus::ServiceUnavailable)),
    }
}

impl RconCall {
    /// Starts a call for a request that is already built.
    pub fn with_request(request: RconRequest, environment: &RconEnvironment) -> (r: (
        RconCall,
        RconAction,
    ))
        ensures
            (r.0@, Some(r.1@)) == begin(request@, environment@),
    {
        match Rcon::connect(environment) {
            Ok(address) => (
                RconCall { request, stage: RconStage::Connecting },
                RconAction::Connect { address },
            ),
            Err(_) => (
                RconCall { request, stage: RconStage::Finished },
                RconAction::Finish { result: Err(ApiStatus::BadGateway) },
            ),
        }
    }

    /// Starts a call that runs `command`, under a random request id.
    pub fn new(command: String, environment: &RconEnvironment) -> (r: (RconCall, RconAction))
        ensures
            r.0@.request.kind == RconRequestType::ExecCommand,
            r.0@.request.payload == command@,
            (r.0@, Some(r.1@)) == begin(r.0@.request, environment@),
    {
        RconCall::with_request(RconRequest::new(RconRequestType::ExecCommand, command), environment)
    }

    /// The state of the connection.
    pub fn state(&self) -> (state: RconState)
        ensures
            state == self@.stage.state(),
    {
        match &self.stage {
            RconStage::Connecting => RconState::Disconnected,
            RconStage::Authenticating { sent } => RconState::AuthenticatePending,
            RconStage::Executing { sent } => RconState::Ready,
            RconStage::Closing { state, outcome } => *state,
            RconStage::Finished => RconState::Closed,
        }
    }
}

/// One step of a call, where `login_id` is the id that a login request gets.
pub fn handle_rcon_with_id(
    call: RconCall,
    event: RconEvent,
    environment: &RconEnvironment,
    login_id: i32,
) -> (r: (RconCall, Option<RconAction>))
    ensures
        (r.0@, asked(r.1)) == step(call@, event, environment@, login_id),
{
    let RconCall { request, stage } = call;
    match stage {
        RconStage::Connecting => match event {
            RconEvent::Connected(outcome) => match Rcon::connected(outcome) {
                Ok(_) => authenticate_call(request, environment, login_id),
                Err(_) => finish_call(request, Err(ApiStatus::BadGateway)),
            },
            _ => (RconCall { request, stage: RconStage::Connecting }, None),
        },
        RconStage::Authenticating { sent } => match event {
            RconEvent::Sent(outcome) => if sent {
                (RconCall { request, stage: RconStage::Authenticating { sent } }, None)
            } else {
                match Rcon::sent(outcome) {
                    Ok(_) => (
                        RconCall { request, stage: RconStage::Authenticating { sent: true } },
                        Some(RconAction::Receive { capacity: MAX_RESPONSE_SIZE }),
                    ),
                    Err(_) => close_call(
                        request,
                        RconState::AuthenticatePending,
                        Err(ApiStatus::ServiceUnavailable),
                    ),
                }
            },
            RconEvent::Received(outcome) => if sent {
                match Rcon::receive(outcome) {
                    Ok(response) => if Rcon::logged_in(&response) {
                        execute_call(request)
                    } else {
                        close_call(
                            request,
                            RconState::Connected,
                            Err(ApiStatus::NetworkAuthenticationRequired),
                        )
                    },
                    Err(_) => close_call(
                        request,
                        RconState::AuthenticatePending,
                        Err(ApiStatus::ServiceUnavailable),
                    ),
                }
            } else {
                (RconCall { request, stage: RconStage::Authenticating { sent } }, None)
            },
            _ => (RconCall { request, stage: RconStage::Authenticating { sent } }, None),
        },
        RconStage::Executing { sent } => match event {
            RconEvent::Sent(outcome) => if sent {
                (RconCall { request, stage: RconStage::Executing { sent } }, None)
            } else {
                match Rcon::sent(outcome) {
                    Ok(_) => (
                        RconCall { request, stage: RconStage::Executing { sent: true } },
                        Some(RconAction::Receive { capacity: MAX_RESPONSE_SIZE }),
                    ),
                    Err(_) => close_call(
                        request,
                        RconState::Ready,
                        Err(ApiStatus::ServiceUnavailable),
                    ),
                }
            },
            RconEvent::Received(outcome) => if sent {
                match Rcon::receive(outcome) {
                    Ok(response) => if response.response_type == RconResponseType::AuthResponse {
                        close_call(
                            request,
                            RconState::Ready,
                            Err(ApiStatus::NetworkAuthenticationRequired),
                        )
                    } else {
                        close_call(request, RconState::Ready, Ok(response))
                    },
                    Err(_) => close_call(
                        request,
                        RconState::Ready,
                        Err(ApiStatus::ServiceUnavailable),
                    ),
                }
            } else {
                (RconCall { request, stage: RconStage::Executing { sent } }, None)
            },
            _ => (RconCall { request, stage: RconStage::Executing { sent } }, None),
        },
        RconStage::Closing { state, outcome } => match event {
            RconEvent::Shutdown(shutdown) => match Rcon::shutdown(shutdown) {
                Ok(_) => match outcome {
                    Ok(response) => finish_call(request, Ok(ApiRconResponse::from(response))),
                    Err(status) => finish_call(request, Err(status)),
                },
                Err(_) => finish_call(request, Err(ApiStatus::InternalServerError)),
            },
            _ => (RconCall { request, stage: RconStage::Closing { state, outcome } }, None),
        },
        RconStage::Finished => (RconCall { request, stage: RconStage::Finished }, None),
    }
}

/// Whether the step is the one that builds the login request.
pub open spec fn at_login(call: RconCallView, event: RconEvent) -> bool {
    call.stage is Connecting && event matches RconEvent::Connected(Ok(_))
}

/// The id of the login request bears on no step but the one that builds it.
pub proof fn lemma_login_id_only_at_login(
    call: RconCallView,
    event: RconEvent,
    environment: RconEnvironmentView,
    one: i32,
    other: i32,
)
    requires
        !at_login(call, event),
    ensures
        step(call, event, environment, one) == step(call, event, environment, other),
{
}

/// One step of a call: takes what the transport did with the last action, and
/// gives the call as it is after it and what to do next. A login request gets a
/// random id; every other step is fixed by the call, the event and the
/// environment.
pub fn handle_rcon(call: RconCall, event: RconEvent, environment: &RconEnvironment) -> (r: (
    RconCall,
    Option<RconAction>,
))
    ensures
        exists|login_id: i32| (r.0@, asked(r.1)) == step(call@, event, environment@, login_id),
        !at_login(call@, event) ==> (r.0@, asked(r.1)) == step(call@, event, environment@, 0),
{
    let login_id: i32 = random_request_id();
    handle_rcon_with_id(call, event, environment, login_id)
}

/// The answer to a login decides by its id alone: a receive buffer that
/// begins with a well-formed reply with the id -1 is a refusal, which asks for
/// authentication once the transport is shut down; one with any other id,
/// whatever its type, goes on to the command. Neither is a failure.
pub proof fn lemma_login_answer(
    request: RconRequestView,
    bytes: Vec<u8>,
    id: i32,
    code: i32,
    payload: Seq<u8>,
    rest: Seq<u8>,
)
    requires
        bytes@ == packet(id as int, code as int, payload) + rest,
        RconResponseType::of_code(code) is Some,
        payload.len() + 10 <= i32::MAX,
        valid_utf8(payload),
    ensures
        id == -1 ==> authenticated(request, Ok(bytes)) == close(
            request,
            RconState::Connected,
            Err(ApiStatus::NetworkAuthenticationRequired),
        ),
        id != -1 ==> authenticated(request, Ok(bytes)) == execute(request),
{
    lemma_reply_of_packet(bytes, id, code, payload, rest);
}

/// The answer to a command: a receive buffer that begins with a well-formed
/// reply of the value type is the outcome of the call, with its id and its
/// whole payload.
pub proof fn lemma_command_answer(
    request: RconRequestView,
    bytes: Vec<u8>,
    id: i32,
    payload: Seq<u8>,
    rest: Seq<u8>,
)
    requires
        bytes@ == packet(id as int, 0, payload) + rest,
        payload.len() + 10 <= i32::MAX,
        valid_utf8(payload),
    ensures
        executed(request, Ok(bytes)) == close(
            request,
            RconState::Ready,
            Ok(
                RconResponseView {
                    id,
                    kind: RconResponseType::ResponseValue,
                    payload: decode_utf8(payload),
                },
            ),
        ),
{
    lemma_reply_of_packet(bytes, id, 0, payload, rest);
}

/// A call gives its result only where nothing is connected: when connecting
/// failed, or when the transport was shut down. And it is then over.
pub proof fn lemma_finish_after_shutdown(
    call: RconCallView,
    event: RconEvent,
    environment: RconEnvironmentView,
    login_id: i32,
)
    requires
        step(call, event, environment, login_id).1 matches Some(RconActionView::Finish { .. }),
    ensures
        (call.stage is Connecting && event matches RconEvent::Connected(Err(_))) || (call.stage is Closing
            && event is Shutdown),
        step(call, event, environment, login_id).0.stage is Finished,
{
}

/// A call that is over stays over, whatever comes.
pub proof fn lemma_finished_is_final(
    call: RconCallView,
    event: RconEvent,
    environment: RconEnvironmentView,
    login_id: i32,
)
    requires
        call.stage is Finished,
    ensures
        step(call, event, environment, login_id) == (call, None::<RconActionView>),
{
}

} // verus!
