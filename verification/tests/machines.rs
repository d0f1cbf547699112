use hitherhost::acceptor::{
    acceptor_step, listen_spec_bytes, startup_step, AcceptDirective, AcceptOutcome, AcceptorState,
    StartupStage,
};
use hitherhost::resolve::{select_backend, BackendAddr, BackendIp, ResolveError};
use hitherhost::session::{
    relay_step, session_step, RelayEvent, RelayState, RelayVerdict, SessionDirective, SessionState,
};

// ---------------------------------------------------------------------------
// Startup sequence
// ---------------------------------------------------------------------------

#[test]
fn startup_all_successes_reach_accepting() {
    let mut stage = StartupStage::FetchChain;
    stage = startup_step(stage, true);
    assert_eq!(stage, StartupStage::FetchKey);
    stage = startup_step(stage, true);
    assert_eq!(stage, StartupStage::BuildContext);
    stage = startup_step(stage, true);
    assert_eq!(stage, StartupStage::Resolve);
    stage = startup_step(stage, true);
    assert_eq!(stage, StartupStage::Bind);
    stage = startup_step(stage, true);
    assert_eq!(stage, StartupStage::Accepting);
}

#[test]
fn startup_bad_key_material_never_binds() {
    // The supplier's key material yields no usable key: the context build
    // fails, startup aborts, and no later outcome brings it to Bind.
    let mut stage = StartupStage::FetchChain;
    stage = startup_step(stage, true);
    stage = startup_step(stage, true);
    stage = startup_step(stage, false);
    assert_eq!(stage, StartupStage::Aborted);
    stage = startup_step(stage, true);
    stage = startup_step(stage, true);
    assert_eq!(stage, StartupStage::Aborted);
}

#[test]
fn startup_empty_resolution_never_binds() {
    // Resolving the backend address yields no results: startup aborts
    // before the Bind stage.
    let mut stage = StartupStage::FetchChain;
    stage = startup_step(stage, true);
    stage = startup_step(stage, true);
    stage = startup_step(stage, true);
    assert_eq!(stage, StartupStage::Resolve);
    stage = startup_step(stage, false);
    assert_eq!(stage, StartupStage::Aborted);
}

#[test]
fn startup_bind_failure_aborts() {
    let mut stage = StartupStage::FetchChain;
    for _ in 0..4 {
        stage = startup_step(stage, true);
    }
    assert_eq!(stage, StartupStage::Bind);
    stage = startup_step(stage, false);
    assert_eq!(stage, StartupStage::Aborted);
}

// ---------------------------------------------------------------------------
// Listen specifier
// ---------------------------------------------------------------------------

#[test]
fn listen_specifier_is_wildcard_address_and_decimal_port() {
    assert_eq!(listen_spec_bytes(9443), b"[::]:9443".to_vec());
    assert_eq!(listen_spec_bytes(80), b"[::]:80".to_vec());
    assert_eq!(listen_spec_bytes(0), b"[::]:0".to_vec());
    assert_eq!(listen_spec_bytes(65535), b"[::]:65535".to_vec());
}

// ---------------------------------------------------------------------------
// Accept loop
// ---------------------------------------------------------------------------

#[test]
fn accepted_connection_spawns_session_and_keeps_listening() {
    let (state, directive) = acceptor_step(AcceptorState::Listening, AcceptOutcome::Accepted);
    assert_eq!(state, AcceptorState::Listening);
    assert_eq!(directive, AcceptDirective::SpawnSession);
}

#[test]
fn accept_failure_halts_the_service() {
    let (state, directive) = acceptor_step(AcceptorState::Listening, AcceptOutcome::Failed);
    assert_eq!(state, AcceptorState::Stopped);
    assert_eq!(directive, AcceptDirective::HaltService);
}

#[test]
fn stopped_acceptor_stays_stopped() {
    let (state, directive) = acceptor_step(AcceptorState::Stopped, AcceptOutcome::Accepted);
    assert_eq!(state, AcceptorState::Stopped);
    assert_eq!(directive, AcceptDirective::HaltService);
}

// ---------------------------------------------------------------------------
// Backend resolution
// ---------------------------------------------------------------------------

#[test]
fn first_resolved_address_is_selected() {
    let first = BackendAddr {
        ip: BackendIp::V4(127, 0, 0, 1),
        port: 9000,
    };
    let second = BackendAddr {
        ip: BackendIp::V6(0, 0, 0, 0, 0, 0, 0, 1),
        port: 9001,
    };
    let results = vec![first, second];
    assert_eq!(select_backend(&results).unwrap(), first);
}

#[test]
fn empty_resolution_is_a_fatal_error() {
    let results: Vec<BackendAddr> = Vec::new();
    assert_eq!(
        select_backend(&results).unwrap_err(),
        ResolveError::NoAddresses
    );
}

// ---------------------------------------------------------------------------
// Forwarding session
// ---------------------------------------------------------------------------

#[test]
fn session_happy_path_runs_in_order() {
    let (state, directive) = session_step(SessionState::Handshaking, true);
    assert_eq!(state, SessionState::Connecting);
    assert_eq!(directive, SessionDirective::OpenBackend);
    let (state, directive) = session_step(state, true);
    assert_eq!(state, SessionState::Relaying);
    assert_eq!(directive, SessionDirective::StartRelay);
    let (state, directive) = session_step(state, true);
    assert_eq!(state, SessionState::Closed);
    assert_eq!(directive, SessionDirective::Release);
}

#[test]
fn handshake_failure_releases_and_ends_the_session() {
    let (state, directive) = session_step(SessionState::Handshaking, false);
    assert_eq!(state, SessionState::Errored);
    assert_eq!(directive, SessionDirective::Release);
}

#[test]
fn connect_failure_releases_and_ends_the_session() {
    let (state, directive) = session_step(SessionState::Connecting, false);
    assert_eq!(state, SessionState::Errored);
    assert_eq!(directive, SessionDirective::Release);
}

#[test]
fn relay_failure_releases_and_ends_the_session() {
    let (state, directive) = session_step(SessionState::Relaying, false);
    assert_eq!(state, SessionState::Errored);
    assert_eq!(directive, SessionDirective::Release);
}

#[test]
fn terminal_session_states_absorb() {
    let (state, directive) = session_step(SessionState::Closed, false);
    assert_eq!(state, SessionState::Closed);
    assert_eq!(directive, SessionDirective::Release);
    let (state, _) = session_step(SessionState::Errored, true);
    assert_eq!(state, SessionState::Errored);
}

// ---------------------------------------------------------------------------
// Relay half-close
// ---------------------------------------------------------------------------

#[test]
fn backend_half_close_keeps_forwarding_client_bytes() {
    // The backend closes its write side while the client keeps writing.
    let both_open = RelayState {
        inbound_open: true,
        outbound_open: true,
    };
    let (state, verdict) = relay_step(both_open, RelayEvent::OutboundEof);
    assert!(state.inbound_open);
    assert_eq!(verdict, RelayVerdict::Continue);
    // Only when the client also closes does the relay complete.
    let (state, verdict) = relay_step(state, RelayEvent::InboundEof);
    assert!(!state.inbound_open && !state.outbound_open);
    assert_eq!(verdict, RelayVerdict::Complete);
}

#[test]
fn client_half_close_keeps_forwarding_backend_bytes() {
    let both_open = RelayState {
        inbound_open: true,
        outbound_open: true,
    };
    let (state, verdict) = relay_step(both_open, RelayEvent::InboundEof);
    assert!(state.outbound_open);
    assert_eq!(verdict, RelayVerdict::Continue);
    let (_, verdict) = relay_step(state, RelayEvent::OutboundEof);
    assert_eq!(verdict, RelayVerdict::Complete);
}

#[test]
fn io_error_aborts_the_relay() {
    let both_open = RelayState {
        inbound_open: true,
        outbound_open: true,
    };
    let (state, verdict) = relay_step(both_open, RelayEvent::IoError);
    assert_eq!(verdict, RelayVerdict::Abort);
    assert!(!state.inbound_open && !state.outbound_open);
}
