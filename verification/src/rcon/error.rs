//! The failures of the client.

use vstd::prelude::*;
use vstd::string::*;

verus! {

/// What can go wrong between resolving the configuration and closing the
/// connection. A refused login is not among them: it is an answer.
#[derive(Debug, PartialEq, Eq)]
pub enum RconError {
    /// A value of the configuration is missing or malformed.
    Configuration { cause: String },
    /// The transport could not be opened.
    Connection { cause: String },
    /// The request is too large, or writing it failed.
    Send { cause: String },
    /// Reading the reply failed, or the reply could not be decoded.
    Receive { cause: String },
    /// Closing the transport failed.
    Shutdown { cause: String },
    /// No reply came in time.
    Timeout { elapsed_ms: u64 },
}

/// The mathematical content of an [`RconError`].
pub ghost enum RconErrorView {
    Configuration { cause: Seq<char> },
    Connection { cause: Seq<char> },
    Send { cause: Seq<char> },
    Receive { cause: Seq<char> },
    Shutdown { cause: Seq<char> },
    Timeout { elapsed_ms: u64 },
}

impl RconErrorView {
    /// The message that the error shows.
    pub open spec fn message(self) -> Seq<char> {
        match self {
            RconErrorView::Configuration { cause } => "Invalid RCON configuration: "@ + cause,
            RconErrorView::Connection { cause } => "Failed to connect to the RCON server: "@
                + cause,
            RconErrorView::Send { cause } => "Failed to send data to the RCON server: "@ + cause,
            RconErrorView::Receive { cause } => "Failed to receive data from the RCON server: "@
                + cause,
            RconErrorView::Shutdown { cause } => "Failed to shutdown the RCON connection: "@
                + cause,
            RconErrorView::Timeout { elapsed_ms } =>
                "Timeout waiting for RCON response, elapsed time: "@ + crate::rcon::decimal::decimal_nat(
                    elapsed_ms as nat,
                ) + "ms"@,
        }
    }
}

impl View for RconError {
    type V = RconErrorView;

    open spec fn view(&self) -> RconErrorView {
        match self {
            RconError::Configuration { cause } => RconErrorView::Configuration { cause: cause@ },
            RconError::Connection { cause } => RconErrorView::Connection { cause: cause@ },
            RconError::Send { cause } => RconErrorView::Send { cause: cause@ },
            RconError::Receive { cause } => RconErrorView::Receive { cause: cause@ },
            RconError::Shutdown { cause } => RconErrorView::Shutdown { cause: cause@ },
            RconError::Timeout { elapsed_ms } => RconErrorView::Timeout { elapsed_ms: *elapsed_ms },
        }
    }
}

/// `head` followed by `tail`.
pub fn concat(head: &str, tail: &str) -> (text: String)
    ensures
        text@ == head@ + tail@,
{
    let mut text: String = String::from_str(head);
    text.append(tail);
    text
}

impl RconError {
    /// The message that the error shows.
    pub fn to_string(&self) -> (text: String)
        ensures
            text@ == self@.message(),
    {
        match self {
            RconError::Configuration { cause } => concat(
                "Invalid RCON configuration: ",
                cause.as_str(),
            ),
            RconError::Connection { cause } => concat(
                "Failed to connect to the RCON server: ",
                cause.as_str(),
            ),
            RconError::Send { cause } => concat(
                "Failed to send data to the RCON server: ",
                cause.as_str(),
            ),
            RconError::Receive { cause } => concat(
                "Failed to receive data from the RCON server: ",
                cause.as_str(),
            ),
            RconError::Shutdown { cause } => concat(
                "Failed to shutdown the RCON connection: ",
                cause.as_str(),
            ),
            RconError::Timeout { elapsed_ms } => {
                let digits: String = crate::rcon::decimal::u64_to_decimal(*elapsed_ms);
                let mut text: String = concat(
                    "Timeout waiting for RCON response, elapsed time: ",
                    digits.as_str(),
                );
                text.append("ms");
                text
            },
        }
    }
}

} // verus!
