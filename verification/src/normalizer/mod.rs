//! The URL normalizer: the messages it exchanges with its user interface, the
//! probing of URLs, and the routing of its HTTP requests.

pub mod check;
pub mod client_api;
pub mod routing;
pub mod server_api;
