//! What the HTTP front-end is given: one command in, one response or status out.

pub mod rcon;

pub use rcon::{
    handle_rcon, handle_rcon_with_id, ApiRconResponse, ApiStatus, RconAction, RconCall, RconEvent,
    RconStage,
};
