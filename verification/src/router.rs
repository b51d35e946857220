//! The router/handler: a total, pure function from request to response.
//! The whole routing policy is one match on `(method, path)`: `GET /`
//! yields the fixed HTML document with status 200 and a
//! `Content-Type: text/html` header; every other pair yields status 404
//! with the body `404 Not Found`. Unrecognized routes are answered, never
//! treated as errors, so the handler cannot fail.

use vstd::prelude::*;
use crate::http::{Request, RequestView, Response, ResponseView};
use crate::{STATUS_NOT_FOUND, STATUS_OK};

verus! {

/// The fixed HTML document served at the root route.
pub open spec fn spec_index_body() -> Seq<char> {
    "\n<!doctype html>\n<html>\n    <head>\n        <title>Hyper 1.7.0 Microservice with Handlers</title>\n    </head>\n    <body>\n        <h3>Rust Microservice - Hyper 1.7.0 Microservice with Handlers</h3>\n        <p>This microservice demonstrates:</p>\n        <ul>\n            <li><strong>hyper 1.7.0</strong> - HTTP library</li>\n            <li><strong>hyper-util 0.1</strong> - Server utilities</li>\n            <li><strong>tokio 1.0</strong> - Async runtime</li>\n            <li><strong>Route handling</strong> - Different responses for different paths</li>\n        </ul>\n        <p>Try visiting <code>/</code> for this page or any other path for a 404 response.</p>\n    </body>\n</html>\n"@
}

/// The body sent with every not-found response.
pub open spec fn spec_not_found_body() -> Seq<char> {
    "404 Not Found"@
}

/// A request hits the root route exactly when its method is `GET` and
/// its path is `/`.
pub open spec fn is_root_get(r: RequestView) -> bool {
    r.method == "GET"@ && r.path == "/"@
}

/// The routing table in full: what the handler returns for any request.
pub open spec fn spec_handle(r: RequestView) -> ResponseView {
    if is_root_get(r) {
        ResponseView {
            status: STATUS_OK,
            headers: seq![("Content-Type"@, "text/html"@)],
            body: spec_index_body(),
        }
    } else {
        ResponseView {
            status: STATUS_NOT_FOUND,
            headers: Seq::empty(),
            body: spec_not_found_body(),
        }
    }
}

/// Returns the fixed HTML document of the root route.
pub fn index_body() -> (r: String)
    ensures
        r@ == spec_index_body(),
{
    "\n<!doctype html>\n<html>\n    <head>\n        <title>Hyper 1.7.0 Microservice with Handlers</title>\n    </head>\n    <body>\n        <h3>Rust Microservice - Hyper 1.7.0 Microservice with Handlers</h3>\n        <p>This microservice demonstrates:</p>\n        <ul>\n            <li><strong>hyper 1.7.0</strong> - HTTP library</li>\n            <li><strong>hyper-util 0.1</strong> - Server utilities</li>\n            <li><strong>tokio 1.0</strong> - Async runtime</li>\n            <li><strong>Route handling</strong> - Different responses for different paths</li>\n        </ul>\n        <p>Try visiting <code>/</code> for this page or any other path for a 404 response.</p>\n    </body>\n</html>\n".to_owned()
}

/// The handler: total over all requests, dispatching exactly as
/// [`spec_handle`] says. It never fails — an unrecognized route gets a
/// well-formed not-found response.
pub fn handle(req: &Request) -> (resp: Response)
    ensures
        resp@ == spec_handle(req@),
{
    let get: String = "GET".to_owned();
    let root: String = "/".to_owned();
    if req.method == get && req.path == root {
        let mut headers: Vec<(String, String)> = Vec::new();
        headers.push(("Content-Type".to_owned(), "text/html".to_owned()));
        let resp = Response { status: STATUS_OK, headers, body: index_body() };
        proof {
            assert(resp@.headers =~= seq![("Content-Type"@, "text/html"@)]);
            assert(resp@ =~= spec_handle(req@));
        }
        resp
    } else {
        let resp = Response {
            status: STATUS_NOT_FOUND,
            headers: Vec::new(),
            body: "404 Not Found".to_owned(),
        };
        proof {
            assert(resp@.headers =~= Seq::<(Seq<char>, Seq<char>)>::empty());
            assert(resp@ =~= spec_handle(req@));
        }
        resp
    }
}

/// Law: a `GET /` request is answered with status 200, the single
/// header `Content-Type: text/html`, and the fixed document.
pub proof fn lemma_root_route(r: RequestView)
    requires
        is_root_get(r),
    ensures
        spec_handle(r).status == STATUS_OK,
        spec_handle(r).headers == seq![("Content-Type"@, "text/html"@)],
        spec_handle(r).body == spec_index_body(),
{
}

/// Law: every `(method, path)` pair other than `(GET, /)` is answered
/// with status 404 and the body `404 Not Found`.
pub proof fn lemma_not_found_route(r: RequestView)
    requires
        !is_root_get(r),
    ensures
        spec_handle(r).status == STATUS_NOT_FOUND,
        spec_handle(r).headers == Seq::<(Seq<char>, Seq<char>)>::empty(),
        spec_handle(r).body == spec_not_found_body(),
{
}

/// Law: the handler is pure and side-effect-free — its response is a
/// function of the request's method and path alone, so repeated calls
/// with identical input yield identical output.
pub proof fn lemma_handler_deterministic(a: RequestView, b: RequestView)
    requires
        a.method == b.method,
        a.path == b.path,
    ensures
        spec_handle(a) == spec_handle(b),
{
    assert(a =~= b);
}

} // verus!
