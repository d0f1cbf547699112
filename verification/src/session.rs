//! The forwarding session: the per-connection state machine from TLS
//! handshake through backend connect to the bidirectional relay, and the
//! relay's half-close discipline.

use vstd::prelude::*;

verus! {

// ---------------------------------------------------------------------------
// Session phases
// ---------------------------------------------------------------------------

/// The phases of one forwarding session. Every error is local to the session:
/// it moves only this session to `Errored`.
#[derive(Clone, Copy, PartialEq, Eq, Structural, Debug)]
pub enum SessionState {
    /// Performing the TLS server handshake on the inbound connection.
    Handshaking,
    /// Opening the outbound connection to the resolved backend address.
    Connecting,
    /// Relaying bytes in both directions.
    Relaying,
    /// Terminal: relaying ended cleanly.
    Closed,
    /// Terminal: the handshake, the connect, or the relay failed.
    Errored,
}

/// What a session must do after one phase outcome.
#[derive(Clone, Copy, PartialEq, Eq, Structural, Debug)]
pub enum SessionDirective {
    /// The handshake succeeded: open the outbound connection.
    OpenBackend,
    /// The outbound connect succeeded: start relaying.
    StartRelay,
    /// The session is over: release both connections.
    Release,
}

/// The session transition relation: each phase advances on success and moves
/// to `Errored` on failure; both terminal phases are absorbing, and every
/// entry into a terminal phase directs the release of both connections.
pub open spec fn spec_session_step(state: SessionState, ok: bool) -> (
    SessionState,
    SessionDirective,
) {
    match state {
        SessionState::Handshaking => if ok {
            (SessionState::Connecting, SessionDirective::OpenBackend)
        } else {
            (SessionState::Errored, SessionDirective::Release)
        },
        SessionState::Connecting => if ok {
            (SessionState::Relaying, SessionDirective::StartRelay)
        } else {
            (SessionState::Errored, SessionDirective::Release)
        },
        SessionState::Relaying => if ok {
            (SessionState::Closed, SessionDirective::Release)
        } else {
            (SessionState::Errored, SessionDirective::Release)
        },
        SessionState::Closed => (SessionState::Closed, SessionDirective::Release),
        SessionState::Errored => (SessionState::Errored, SessionDirective::Release),
    }
}

/// Advances one session by the outcome of the phase it just performed.
pub fn session_step(state: SessionState, ok: bool) -> (r: (SessionState, SessionDirective))
    ensures
        r == spec_session_step(state, ok),
{
    match state {
        SessionState::Handshaking => if ok {
            (SessionState::Connecting, SessionDirective::OpenBackend)
        } else {
            (SessionState::Errored, SessionDirective::Release)
        },
        SessionState::Connecting => if ok {
            (SessionState::Relaying, SessionDirective::StartRelay)
        } else {
            (SessionState::Errored, SessionDirective::Release)
        },
        SessionState::Relaying => if ok {
            (SessionState::Closed, SessionDirective::Release)
        } else {
            (SessionState::Errored, SessionDirective::Release)
        },
        SessionState::Closed => (SessionState::Closed, SessionDirective::Release),
        SessionState::Errored => (SessionState::Errored, SessionDirective::Release),
    }
}

/// Whether a session phase is terminal.
pub open spec fn spec_session_done(state: SessionState) -> bool {
    state == SessionState::Closed || state == SessionState::Errored
}

/// The session phase reached after a sequence of phase outcomes, starting
/// from `Handshaking`.
pub open spec fn spec_session_run(outcomes: Seq<bool>) -> SessionState
    decreases outcomes.len(),
{
    if outcomes.len() == 0 {
        SessionState::Handshaking
    } else {
        spec_session_step(spec_session_run(outcomes.drop_last()), outcomes.last()).0
    }
}

/// Law: terminal phases absorb every outcome, and whenever a step lands in a
/// terminal phase it directs the release of both connections — resources are
/// released on every exit path, handshake and connect failures included.
pub proof fn lemma_session_release(state: SessionState, ok: bool)
    ensures
        spec_session_done(state) ==> spec_session_step(state, ok).0 == state,
        spec_session_done(spec_session_step(state, ok).0) ==> spec_session_step(state, ok).1
            == SessionDirective::Release,
{
}

/// Law: within one session the order of phases is fixed. A session is
/// relaying only after a successful handshake followed by a successful
/// outbound connect, in that order; and after at most three phase outcomes
/// the session has reached a terminal phase.
pub proof fn lemma_session_order(outcomes: Seq<bool>)
    ensures
        spec_session_run(outcomes) == SessionState::Connecting ==> outcomes =~= seq![true],
        spec_session_run(outcomes) == SessionState::Relaying ==> outcomes =~= seq![true, true],
        outcomes.len() >= 3 ==> spec_session_done(spec_session_run(outcomes)),
    decreases outcomes.len(),
{
    if outcomes.len() > 0 {
        lemma_session_order(outcomes.drop_last());
    }
}

// ---------------------------------------------------------------------------
// Relay half-close discipline
// ---------------------------------------------------------------------------

/// Which relay directions are still streaming. `inbound_open` is the
/// client-to-backend direction, `outbound_open` the backend-to-client one.
#[derive(Clone, Copy, PartialEq, Eq, Structural, Debug)]
pub struct RelayState {
    pub inbound_open: bool,
    pub outbound_open: bool,
}

/// What can end progress in a relay: an end-of-stream on one direction, or
/// an I/O error on either side.
#[derive(Clone, Copy, PartialEq, Eq, Structural, Debug)]
pub enum RelayEvent {
    /// The client signalled end-of-stream: the client-to-backend direction
    /// finishes; the backend's write side is closed towards it.
    InboundEof,
    /// The backend signalled end-of-stream: the backend-to-client direction
    /// finishes; the client's write side is closed towards it.
    OutboundEof,
    /// An I/O error on either side: the relay ends at once.
    IoError,
}

/// What the relay does after an event.
#[derive(Clone, Copy, PartialEq, Eq, Structural, Debug)]
pub enum RelayVerdict {
    /// At least one direction still streams: keep relaying it.
    Continue,
    /// Both directions have finished: the relay is complete.
    Complete,
    /// The relay failed.
    Abort,
}

/// The relay transition relation: an end-of-stream finishes only its own
/// direction — the opposite direction keeps streaming (half-close) — and the
/// relay completes only once both directions have finished; an I/O error
/// aborts the whole relay.
pub open spec fn spec_relay_step(state: RelayState, event: RelayEvent) -> (
    RelayState,
    RelayVerdict,
) {
    match event {
        RelayEvent::InboundEof => {
            let next = RelayState { inbound_open: false, outbound_open: state.outbound_open };
            (next, if next.outbound_open {
                RelayVerdict::Continue
            } else {
                RelayVerdict::Complete
            })
        },
        RelayEvent::OutboundEof => {
            let next = RelayState { inbound_open: state.inbound_open, outbound_open: false };
            (next, if next.inbound_open {
                RelayVerdict::Continue
            } else {
                RelayVerdict::Complete
            })
        },
        RelayEvent::IoError => (
            RelayState { inbound_open: false, outbound_open: false },
            RelayVerdict::Abort,
        ),
    }
}

/// Applies one relay event.
pub fn relay_step(state: RelayState, event: RelayEvent) -> (r: (RelayState, RelayVerdict))
    requires
        event == RelayEvent::InboundEof ==> state.inbound_open,
        event == RelayEvent::OutboundEof ==> state.outbound_open,
    ensures
        r == spec_relay_step(state, event),
{
    match event {
        RelayEvent::InboundEof => {
            let next = RelayState { inbound_open: false, outbound_open: state.outbound_open };
            let verdict = if next.outbound_open {
                RelayVerdict::Continue
            } else {
                RelayVerdict::Complete
            };
            (next, verdict)
        },
        RelayEvent::OutboundEof => {
            let next = RelayState { inbound_open: state.inbound_open, outbound_open: false };
            let verdict = if next.inbound_open {
                RelayVerdict::Continue
            } else {
                RelayVerdict::Complete
            };
            (next, verdict)
        },
        RelayEvent::IoError => {
            (RelayState { inbound_open: false, outbound_open: false }, RelayVerdict::Abort)
        },
    }
}

/// Law: half-close propagation. When the backend closes its write side while
/// the client-to-backend direction still streams, that direction keeps
/// streaming — the client's bytes continue to be forwarded — and the relay
/// completes, ending the session, only once the client direction has also
/// finished.
pub proof fn lemma_half_close(state: RelayState)
    ensures
        state.inbound_open ==> spec_relay_step(state, RelayEvent::OutboundEof).0.inbound_open,
        state.inbound_open ==> spec_relay_step(state, RelayEvent::OutboundEof).1
            == RelayVerdict::Continue,
        !state.inbound_open ==> spec_relay_step(state, RelayEvent::OutboundEof).1
            == RelayVerdict::Complete,
{
}

/// The relay state reached after a sequence of events, starting with both
/// directions streaming.
pub open spec fn spec_relay_run(events: Seq<RelayEvent>) -> RelayState
    decreases events.len(),
{
    if events.len() == 0 {
        RelayState { inbound_open: true, outbound_open: true }
    } else {
        spec_relay_step(spec_relay_run(events.drop_last()), events.last()).0
    }
}

/// Law: however many end-of-stream signals the backend side produces, the
/// client-to-backend direction keeps streaming until the client itself
/// signals end-of-stream or an I/O error occurs.
pub proof fn lemma_client_direction_outlives_backend(events: Seq<RelayEvent>)
    requires
        forall|i: int|
            0 <= i < events.len() ==> events[i] != RelayEvent::InboundEof && events[i]
                != RelayEvent::IoError,
    ensures
        spec_relay_run(events).inbound_open,
    decreases events.len(),
{
    if events.len() > 0 {
        lemma_client_direction_outlives_backend(events.drop_last());
    }
}

/// Law: the relay completes exactly when the last open direction signals
/// end-of-stream, and an I/O error on either side aborts it at once.
pub proof fn lemma_relay_end(state: RelayState, event: RelayEvent)
    ensures
        spec_relay_step(state, event).1 == RelayVerdict::Complete <==> (event != RelayEvent::IoError
            && !spec_relay_step(state, event).0.inbound_open && !spec_relay_step(
            state,
            event,
        ).0.outbound_open),
        spec_relay_step(state, event).1 == RelayVerdict::Abort <==> event == RelayEvent::IoError,
{
}

} // verus!
