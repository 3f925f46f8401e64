//! HTTP API: error mapping and the decisions of the request handlers.
pub mod errors;
pub mod handlers;
pub mod rpc;
pub mod assets;
pub mod messages;
