//! The RCON protocol client.

pub mod client;
pub mod configuration;
pub mod decimal;
pub mod error;
pub mod request;
pub mod response;
pub mod roundtrip;
pub mod wire;

pub use client::{Rcon, RconState, MAX_REQUEST_SIZE, MAX_RESPONSE_SIZE};
pub use configuration::{RconConfiguration, RconEnvironment, DEFAULT_RCON_TIMEOUT};
pub use error::RconError;
pub use request::{RconRequest, RconRequestType};
pub use response::{RconResponse, RconResponseError, RconResponseType};
