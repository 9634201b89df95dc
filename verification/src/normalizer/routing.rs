//! The routing of the HTTP requests that the normalizer serves.

use vstd::prelude::*;
use vstd::string::*;

verus! {

/// What an HTTP request is answered with.
#[derive(Clone, Copy, Debug, PartialEq, Eq, Structural)]
pub enum Route {
    /// The page of the user interface, with status 200.
    Index,
    /// Status 405: the path does not take this method.
    MethodNotAllowed,
    /// The WebSocket handshake of an API session.
    WebSocket,
    /// Status 404.
    NotFound,
}

/// The route of a request for `path`: `/` serves the page to `GET` and
/// refuses other methods, `/api` opens a WebSocket session, and every other
/// path is not found.
pub open spec fn route_of(path: Seq<char>, is_get: bool) -> Route {
    if path == "/"@ {
        if is_get { Route::Index } else { Route::MethodNotAllowed }
    } else if path == "/api"@ {
        Route::WebSocket
    } else {
        Route::NotFound
    }
}

/// Routes a request for `path`, made with `GET` when `is_get`.
pub fn route(path: &str, is_get: bool) -> (route: Route)
    ensures
        route == route_of(path@, is_get),
{
    let path = String::from_str(path);
    if path == String::from_str("/") {
        if is_get { Route::Index } else { Route::MethodNotAllowed }
    } else if path == String::from_str("/api") {
        Route::WebSocket
    } else {
        Route::NotFound
    }
}

/// The HTTP status of a route that is answered at once.
pub fn route_status(route: Route) -> (status: u16)
    requires
        route != Route::WebSocket,
    ensures
        route == Route::Index ==> status == 200,
        route == Route::MethodNotAllowed ==> status == 405,
        route == Route::NotFound ==> status == 404,
{
    match route {
        Route::Index => 200,
        Route::MethodNotAllowed => 405,
        Route::WebSocket => 101,
        Route::NotFound => 404,
    }
}

/// Why a WebSocket handshake was refused.
#[derive(Clone, Copy, Debug, PartialEq, Eq, Structural)]
pub enum HandshakeFailure {
    /// The request did not use `GET`.
    WrongHttpMethod,
    /// Any other breach of the WebSocket protocol.
    Protocol,
    /// A failure that is not the client's.
    Other,
}

/// The HTTP status that answers a refused handshake: 405 for a wrong method,
/// 400 for another protocol error, 500 otherwise.
pub fn handshake_failure_status(failure: HandshakeFailure) -> (status: u16)
    ensures
        status == match failure {
            HandshakeFailure::WrongHttpMethod => 405u16,
            HandshakeFailure::Protocol => 400u16,
            HandshakeFailure::Other => 500u16,
        },
{
    match failure {
        HandshakeFailure::WrongHttpMethod => 405,
        HandshakeFailure::Protocol => 400,
        HandshakeFailure::Other => 500,
    }
}

/// Numbers connections and requests, from 0.
pub struct Counter(pub usize);

impl Counter {
    /// The present number; the counter moves on to the next one.
    pub fn next(&mut self) -> (number: usize)
        requires
            old(self).0 < usize::MAX,
        ensures
            number == old(self).0,
            final(self).0 == old(self).0 + 1,
    {
        let number = self.0;
        self.0 = self.0 + 1;
        number
    }
}

} // verus!
