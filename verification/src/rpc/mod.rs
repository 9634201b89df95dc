//! A WebSocket RPC protocol: the messages that travel in each direction, the
//! bookkeeping of requests in flight, and the scheduling of the two directions
//! of a connection.

pub mod client_messages;
pub mod connection;
pub mod protocol;
pub mod select;
pub mod server_messages;
