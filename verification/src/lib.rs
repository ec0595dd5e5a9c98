//! Event bridge core for a locally running game client: wire constants, frame
//! decoding, the callback registry, and the connection and dispatch state
//! machines, each with a verified contract.

pub mod constants;
pub mod decoder;
pub mod discovery;
pub mod dispatcher;
pub mod json;
pub mod lcu_api;
pub mod listener;
pub mod registry;
pub mod supervisor;
pub mod transport;
mod text;
