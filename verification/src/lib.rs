//! The core of a BGP speaker.
pub mod behaviour_laws;
pub mod codec_laws;
pub mod config;
pub mod connection;
pub mod connection_laws;
pub mod encoding_laws;
pub mod error;
pub mod fsm;
pub mod message;
pub mod net;
pub mod open;
pub mod session;
pub mod session_laws;
pub mod table;
pub mod time;
pub mod transition;
pub mod update;
pub mod wire;
