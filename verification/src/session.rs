//! The decision core of the serving layers around the handler.
//!
//! The protocol negotiator's choice is a function of the first bytes of
//! the stream: a connection that opens with the 24-byte HTTP/2 client
//! preface is served as HTTP/2, anything else as HTTP/1.x, and the
//! choice is fixed for the connection's lifetime. A session reacts to
//! one event at a time: a decoded request is answered by the handler,
//! and end-of-stream or any protocol or transport failure closes the
//! connection — a failure is contained in its own session and never
//! reaches the accept loop. The accept loop's own policy is that a
//! failed accept is skipped, never fatal.

use vstd::prelude::*;
use crate::http::{Request, RequestView, Response, ResponseView};
use crate::router::{handle, spec_handle};

verus! {

/// The protocol chosen for a connection, fixed at negotiation time.
#[derive(Clone, Copy, PartialEq, Eq, Structural, Debug)]
pub enum ProtocolVersion {
    /// Line-based framing, one exchange in flight at a time.
    Http1,
    /// Binary framing, exchanges may be multiplexed.
    Http2,
}

/// The 24-byte client preface that opens every cleartext HTTP/2
/// connection: the bytes of `PRI * HTTP/2.0\r\n\r\nSM\r\n\r\n`.
pub open spec fn spec_h2_preface() -> Seq<u8> {
    seq![
        80u8, 82u8, 73u8, 32u8, 42u8, 32u8, 72u8, 84u8, 84u8, 80u8, 47u8, 50u8,
        46u8, 48u8, 13u8, 10u8, 13u8, 10u8, 83u8, 77u8, 13u8, 10u8, 13u8, 10u8,
    ]
}

/// Which protocol a stream opening with these bytes speaks: HTTP/2
/// exactly when the stream begins with the full client preface.
pub open spec fn spec_negotiate(prefix: Seq<u8>) -> ProtocolVersion {
    if prefix.len() >= 24 && prefix.subrange(0, 24) == spec_h2_preface() {
        ProtocolVersion::Http2
    } else {
        ProtocolVersion::Http1
    }
}

/// The HTTP/2 client preface as bytes.
pub fn h2_preface() -> (r: Vec<u8>)
    ensures
        r@ == spec_h2_preface(),
{
    let mut r: Vec<u8> = Vec::new();
    r.push(80u8);
    r.push(82u8);
    r.push(73u8);
    r.push(32u8);
    r.push(42u8);
    r.push(32u8);
    r.push(72u8);
    r.push(84u8);
    r.push(84u8);
    r.push(80u8);
    r.push(47u8);
    r.push(50u8);
    r.push(46u8);
    r.push(48u8);
    r.push(13u8);
    r.push(10u8);
    r.push(13u8);
    r.push(10u8);
    r.push(83u8);
    r.push(77u8);
    r.push(13u8);
    r.push(10u8);
    r.push(13u8);
    r.push(10u8);
    proof {
        assert(r@ =~= spec_h2_preface());
    }
    r
}

/// Chooses the protocol version from the first bytes read off a new
/// connection, exactly as [`spec_negotiate`] says.
pub fn negotiate_version(prefix: &[u8]) -> (v: ProtocolVersion)
    ensures
        v == spec_negotiate(prefix@),
{
    let preface = h2_preface();
    if prefix.len() < 24 {
        return ProtocolVersion::Http1;
    }
    let mut i: usize = 0;
    while i < 24
        invariant
            i <= 24,
            prefix@.len() >= 24,
            preface@ == spec_h2_preface(),
            forall|j: int| 0 <= j < i ==> prefix@[j] == spec_h2_preface()[j],
        decreases 24 - i,
    {
        if prefix[i] != preface[i] {
            proof {
                assert(prefix@.subrange(0, 24)[i as int] != spec_h2_preface()[i as int]);
            }
            return ProtocolVersion::Http1;
        }
        i += 1;
    }
    proof {
        assert(prefix@.subrange(0, 24) =~= spec_h2_preface());
    }
    ProtocolVersion::Http2
}

/// One event a session can observe on its connection.
pub enum SessionEvent {
    /// The negotiator decoded a complete request.
    Decoded(Request),
    /// The peer finished cleanly: no further requests will arrive.
    EndOfStream,
    /// The preface or framing was malformed.
    ProtocolViolation,
    /// A read or write failed mid-exchange.
    TransportFailure,
}

/// What a session does next in reaction to one event.
pub enum SessionAction {
    /// Write this response back before taking the next event.
    Send(Response),
    /// Close the connection and stop taking events.
    Close,
}

/// One step of a session: a decoded request is answered by the handler;
/// end-of-stream and every failure close the connection. A failure is
/// contained in this session — closing is the whole reaction, nothing
/// propagates.
pub fn session_step(event: SessionEvent) -> (action: SessionAction)
    ensures
        (match event {
            SessionEvent::Decoded(req) => (action matches SessionAction::Send(resp)
                && resp@ == spec_handle(req@)),
            _ => (action matches SessionAction::Close),
        }),
{
    match event {
        SessionEvent::Decoded(req) => SessionAction::Send(handle(&req)),
        SessionEvent::EndOfStream => SessionAction::Close,
        SessionEvent::ProtocolViolation => SessionAction::Close,
        SessionEvent::TransportFailure => SessionAction::Close,
    }
}

/// Outcome of one accept() call on the listening socket.
pub enum AcceptOutcome {
    /// A new connection arrived.
    Accepted,
    /// This accept() call failed.
    Failed,
}

/// The accept loop's reaction to one accept() outcome.
#[derive(Clone, Copy, PartialEq, Eq, Structural, Debug)]
pub enum AcceptStep {
    /// Hand the connection to a fresh session and keep accepting.
    SpawnSession,
    /// Skip this attempt and keep accepting: an accept failure creates
    /// no session and never terminates the loop.
    SkipAndContinue,
}

/// The accept loop's whole per-iteration policy: each accepted
/// connection gets its own session; a failed accept is recovered
/// locally, so the loop never stops after binding succeeded.
pub fn accept_step(outcome: &AcceptOutcome) -> (step: AcceptStep)
    ensures
        (step == (match outcome {
            AcceptOutcome::Accepted => AcceptStep::SpawnSession,
            AcceptOutcome::Failed => AcceptStep::SkipAndContinue,
        })),
{
    match outcome {
        AcceptOutcome::Accepted => AcceptStep::SpawnSession,
        AcceptOutcome::Failed => AcceptStep::SkipAndContinue,
    }
}

/// The responses a connection's decoded requests receive, in order:
/// the handler's answer to each, independent of anything else.
pub open spec fn spec_session_responses(requests: Seq<RequestView>) -> Seq<ResponseView> {
    requests.map_values(|r: RequestView| spec_handle(r))
}

/// Law: sessions do not cross-talk — however many connections are open
/// at once, response `j` of session `i` is the handler's answer to
/// request `j` of session `i` alone; the other sessions' requests do
/// not appear in it.
pub proof fn lemma_no_cross_talk(sessions: Seq<Seq<RequestView>>, i: int, j: int)
    requires
        0 <= i < sessions.len(),
        0 <= j < sessions[i].len(),
    ensures
        spec_session_responses(sessions[i])[j] == spec_handle(sessions[i][j]),
{
}

/// Serves the decoded requests of one non-multiplexed connection in
/// arrival order: response `i` answers request `i`, and each response
/// is produced before the next request is taken up.
pub fn respond_in_order(requests: &Vec<Request>) -> (responses: Vec<Response>)
    ensures
        responses@.len() == requests@.len(),
        forall|i: int|
            0 <= i < requests@.len() ==> #[trigger] responses@[i]@ == spec_handle(
                requests@[i]@,
            ),
        (responses@.map_values(|r: Response| r@) == spec_session_responses(
            requests@.map_values(|q: Request| q@),
        )),
{
    let mut responses: Vec<Response> = Vec::new();
    let mut i: usize = 0;
    while i < requests.len()
        invariant
            i <= requests@.len(),
            responses@.len() == i,
            forall|j: int|
                0 <= j < i ==> #[trigger] responses@[j]@ == spec_handle(requests@[j]@),
        decreases requests@.len() - i,
    {
        responses.push(handle(&requests[i]));
        i += 1;
    }
    proof {
        assert(responses@.map_values(|r: Response| r@) =~= spec_session_responses(
            requests@.map_values(|q: Request| q@),
        ));
    }
    responses
}

} // verus!
