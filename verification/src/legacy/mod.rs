//! A URL normalizer that speaks its own messages: a status update carries
//! its argument under `data`, a URL is probed with `HEAD` only and trimmed
//! when its path is `/`, task IDs start at 1 and skip 0, and its connection
//! sends what is left and closes the WebSocket once the user interface stops
//! sending.

pub mod check;
pub mod client_messages;
pub mod connection;
pub mod server_messages;
