//! The request/response data model that the router and the session logic
//! work on. A request is the pair the routing table dispatches on — the
//! method token and the path — and a response is a status code, a header
//! list, and a body. Bodies here are fixed buffers: no route streams.

use vstd::prelude::*;

verus! {

/// An HTTP request as the router sees it: the method token (`GET`,
/// `POST`, ...) and the request path. No route consults headers or the
/// body, so they are not modeled.
pub struct Request {
    pub method: String,
    pub path: String,
}

/// The mathematical value of a [`Request`]: both components as
/// character sequences.
#[verifier::ext_equal]
pub struct RequestView {
    pub method: Seq<char>,
    pub path: Seq<char>,
}

impl View for Request {
    type V = RequestView;

    open spec fn view(&self) -> RequestView {
        RequestView { method: self.method@, path: self.path@ }
    }
}

/// An HTTP response: status code, header list in send order, and a
/// fixed body.
pub struct Response {
    pub status: u16,
    pub headers: Vec<(String, String)>,
    pub body: String,
}

/// The mathematical value of a [`Response`]: the status, each header as
/// a name/value pair of character sequences, and the body.
#[verifier::ext_equal]
pub struct ResponseView {
    pub status: u16,
    pub headers: Seq<(Seq<char>, Seq<char>)>,
    pub body: Seq<char>,
}

impl View for Response {
    type V = ResponseView;

    open spec fn view(&self) -> ResponseView {
        ResponseView {
            status: self.status,
            headers: self.headers@.map_values(|h: (String, String)| (h.0@, h.1@)),
            body: self.body@,
        }
    }
}

} // verus!
