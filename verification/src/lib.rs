//! A minimal HTTP microservice core: a pure router/handler dispatching on
//! request method and path, a protocol-version negotiator over the first
//! bytes of a connection, and the per-connection session decision logic.
//! The network plumbing (accept loop, socket I/O) lives outside the library.

use vstd::prelude::*;

pub mod http;
pub mod router;
pub mod session;

verus! {

/// The HTTP status code of a successful routed response.
pub const STATUS_OK: u16 = 200;

/// The HTTP status code returned for every unrecognized route.
pub const STATUS_NOT_FOUND: u16 = 404;

} // verus!
