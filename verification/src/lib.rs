//! Central-system runtime for OCPP 1.6 over WebSocket: the envelope codec, the
//! dispatcher's decisions, the session registry and the acceptor's routing,
//! each stated as a contract and proved.

pub mod accept_loop;
pub mod client_loop;
pub mod codec;
pub mod controller;
pub mod error;
pub mod json;
pub mod messages;
pub mod server_loop;
pub mod text;
