//! Verified core of a WebSocket RPC server and of the URL normalizer built on it.

pub mod json;
pub mod legacy;
pub mod normalizer;
pub mod probe;
pub mod rpc;
pub mod text;
pub mod url_parts;
