//! The acceptor's two state machines: the startup sequence that must succeed
//! in full before the listening port is bound, and the accept loop itself.

use vstd::prelude::*;

verus! {

// ---------------------------------------------------------------------------
// Startup sequence
// ---------------------------------------------------------------------------

/// The stage the proxy startup sequence is about to perform. Startup walks
/// the stages in a fixed order; the listener is bound only in `Bind`, after
/// every earlier stage succeeded. Any failure before `Accepting` aborts the
/// whole startup.
#[derive(Clone, Copy, PartialEq, Eq, Structural, Debug)]
pub enum StartupStage {
    /// Fetch the full certificate chain from the supplier.
    FetchChain,
    /// Fetch the private key from the supplier.
    FetchKey,
    /// Build the TLS server context from chain and key.
    BuildContext,
    /// Resolve the backend specifier to one concrete address.
    Resolve,
    /// Bind the listening port on the wildcard address.
    Bind,
    /// Steady state: the accept loop runs.
    Accepting,
    /// Terminal: a stage failed; the process exits without serving.
    Aborted,
}

/// The startup transition relation: each stage advances to the next on
/// success and to `Aborted` on failure; `Accepting` and `Aborted` are
/// absorbing.
pub open spec fn spec_startup_step(stage: StartupStage, ok: bool) -> StartupStage {
    match stage {
        StartupStage::FetchChain => if ok {
            StartupStage::FetchKey
        } else {
            StartupStage::Aborted
        },
        StartupStage::FetchKey => if ok {
            StartupStage::BuildContext
        } else {
            StartupStage::Aborted
        },
        StartupStage::BuildContext => if ok {
            StartupStage::Resolve
        } else {
            StartupStage::Aborted
        },
        StartupStage::Resolve => if ok {
            StartupStage::Bind
        } else {
            StartupStage::Aborted
        },
        StartupStage::Bind => if ok {
            StartupStage::Accepting
        } else {
            StartupStage::Aborted
        },
        StartupStage::Accepting => StartupStage::Accepting,
        StartupStage::Aborted => StartupStage::Aborted,
    }
}

/// Advances the startup sequence by the outcome of the stage just performed.
pub fn startup_step(stage: StartupStage, ok: bool) -> (r: StartupStage)
    ensures
        r == spec_startup_step(stage, ok),
{
    match stage {
        StartupStage::FetchChain => if ok {
            StartupStage::FetchKey
        } else {
            StartupStage::Aborted
        },
        StartupStage::FetchKey => if ok {
            StartupStage::BuildContext
        } else {
            StartupStage::Aborted
        },
        StartupStage::BuildContext => if ok {
            StartupStage::Resolve
        } else {
            StartupStage::Aborted
        },
        StartupStage::Resolve => if ok {
            StartupStage::Bind
        } else {
            StartupStage::Aborted
        },
        StartupStage::Bind => if ok {
            StartupStage::Accepting
        } else {
            StartupStage::Aborted
        },
        StartupStage::Accepting => StartupStage::Accepting,
        StartupStage::Aborted => StartupStage::Aborted,
    }
}

/// The startup stage reached after a sequence of stage outcomes, starting
/// from `FetchChain`.
pub open spec fn spec_startup_run(outcomes: Seq<bool>) -> StartupStage
    decreases outcomes.len(),
{
    if outcomes.len() == 0 {
        StartupStage::FetchChain
    } else {
        spec_startup_step(spec_startup_run(outcomes.drop_last()), outcomes.last())
    }
}

/// Law: a failed stage aborts startup, and an aborted startup stays aborted;
/// in particular no later outcome revives it.
pub proof fn lemma_failure_aborts(stage: StartupStage, ok: bool)
    ensures
        stage != StartupStage::Accepting && stage != StartupStage::Aborted && !ok
            ==> spec_startup_step(stage, ok) == StartupStage::Aborted,
        spec_startup_step(StartupStage::Aborted, ok) == StartupStage::Aborted,
{
}

/// Law: the listening port is bound only after every prior stage succeeded.
/// A run is about to bind exactly when both fetches, the context build and
/// the resolution all succeeded; a run that is accepting additionally bound
/// successfully. So a run in which certificate material or resolution failed
/// never binds.
pub proof fn lemma_bind_needs_full_success(outcomes: Seq<bool>)
    ensures
        spec_startup_run(outcomes) == StartupStage::Bind ==> outcomes =~= seq![
            true,
            true,
            true,
            true,
        ],
        spec_startup_run(outcomes) == StartupStage::Accepting ==> outcomes.len() >= 5 && (forall|
            i: int,
        |
            0 <= i < 5 ==> outcomes[i]),
    decreases outcomes.len(),
{
    if outcomes.len() > 0 {
        let prev = outcomes.drop_last();
        lemma_bind_needs_full_success(prev);
        if spec_startup_run(outcomes) == StartupStage::Bind {
            assert(spec_startup_run(prev) == StartupStage::Resolve && outcomes.last());
            lemma_stage_counts_successes(outcomes);
        }
        if spec_startup_run(outcomes) == StartupStage::Accepting {
            if spec_startup_run(prev) == StartupStage::Bind {
                assert(prev =~= seq![true, true, true, true]);
                assert(outcomes.last());
                assert(forall|i: int| 0 <= i < 4 ==> outcomes[i] == prev[i]);
                assert(forall|i: int| 0 <= i < 5 ==> outcomes[i]);
            } else {
                assert(spec_startup_run(prev) == StartupStage::Accepting);
                assert(forall|i: int| 0 <= i < 5 ==> outcomes[i] == prev[i]);
            }
        }
    }
}

/// Helper: while the run is still in one of the five ordered stages, the
/// outcomes seen so far are exactly that many successes.
pub proof fn lemma_stage_counts_successes(outcomes: Seq<bool>)
    ensures
        spec_startup_run(outcomes) == StartupStage::FetchChain ==> outcomes =~= Seq::<
            bool,
        >::empty(),
        spec_startup_run(outcomes) == StartupStage::FetchKey ==> outcomes =~= seq![true],
        spec_startup_run(outcomes) == StartupStage::BuildContext ==> outcomes =~= seq![true, true],
        spec_startup_run(outcomes) == StartupStage::Resolve ==> outcomes =~= seq![
            true,
            true,
            true,
        ],
        spec_startup_run(outcomes) == StartupStage::Bind ==> outcomes =~= seq![
            true,
            true,
            true,
            true,
        ],
    decreases outcomes.len(),
{
    if outcomes.len() > 0 {
        lemma_stage_counts_successes(outcomes.drop_last());
    }
}

// ---------------------------------------------------------------------------
// The listen specifier
// ---------------------------------------------------------------------------

/// The decimal digits of `n`, most significant first, as ASCII bytes.
pub open spec fn spec_decimal(n: nat) -> Seq<u8>
    decreases n,
{
    if n < 10 {
        seq![(0x30 + n) as u8]
    } else {
        spec_decimal(n / 10).push((0x30 + (n % 10)) as u8)
    }
}

/// The specifier the acceptor binds: the wildcard address and the configured
/// port — `[::]:` then the port in decimal, as ASCII bytes.
pub open spec fn spec_listen_spec(port: u16) -> Seq<u8> {
    seq![0x5bu8, 0x3au8, 0x3au8, 0x5du8, 0x3au8] + spec_decimal(port as nat)
}

/// Renders the listen specifier for a port.
pub fn listen_spec_bytes(port: u16) -> (r: Vec<u8>)
    ensures
        r@ == spec_listen_spec(port),
{
    let mut digits: Vec<u8> = Vec::new();
    if port == 0 {
        digits.push(0x30);
    } else {
        let mut m: u16 = port;
        while m > 0
            invariant
                m > 0 ==> spec_decimal(port as nat) =~= spec_decimal(m as nat) + digits@,
                m == 0 ==> digits@.len() > 0 && spec_decimal(port as nat) =~= digits@,
            decreases m,
        {
            let d: u8 = 0x30 + (m % 10) as u8;
            digits.insert(0, d);
            proof {
                if m >= 10 {
                    assert(spec_decimal(m as nat) == spec_decimal((m as nat) / 10).push(
                        (0x30 + ((m as nat) % 10)) as u8,
                    ));
                    assert(spec_decimal(port as nat) =~= spec_decimal(((m / 10) as u16) as nat)
                        + digits@);
                } else {
                    assert(spec_decimal(m as nat) =~= seq![d]);
                    assert(spec_decimal(port as nat) =~= digits@);
                }
            }
            m = m / 10;
        }
    }
    assert(spec_decimal(port as nat) =~= digits@);
    let mut r: Vec<u8> = Vec::new();
    r.push(0x5b);
    r.push(0x3a);
    r.push(0x3a);
    r.push(0x5d);
    r.push(0x3a);
    let mut i: usize = 0;
    while i < digits.len()
        invariant
            i <= digits.len(),
            spec_decimal(port as nat) =~= digits@,
            r@ == seq![0x5bu8, 0x3au8, 0x3au8, 0x5du8, 0x3au8] + digits@.take(i as int),
        decreases digits.len() - i,
    {
        r.push(digits[i]);
        assert(digits@.take(i as int + 1) =~= digits@.take(i as int).push(digits@[i as int]));
        i = i + 1;
    }
    proof {
        assert(digits@.take(digits@.len() as int) =~= digits@);
        assert(r@ =~= spec_listen_spec(port));
    }
    r
}

// ---------------------------------------------------------------------------
// Accept loop
// ---------------------------------------------------------------------------

/// The accept loop's states: it listens until the first accept failure, which
/// stops the whole service.
#[derive(Clone, Copy, PartialEq, Eq, Structural, Debug)]
pub enum AcceptorState {
    Listening,
    Stopped,
}

/// The outcome of one wait for an inbound connection.
#[derive(Clone, Copy, PartialEq, Eq, Structural, Debug)]
pub enum AcceptOutcome {
    /// A connection arrived and its ownership is handed off.
    Accepted,
    /// Waiting for a connection failed.
    Failed,
}

/// What the accept loop must do after one accept outcome.
#[derive(Clone, Copy, PartialEq, Eq, Structural, Debug)]
pub enum AcceptDirective {
    /// Hand the accepted connection to a new, independent forwarding session
    /// and keep listening.
    SpawnSession,
    /// Stop accepting; the service ends.
    HaltService,
}

/// The accept loop's transition relation: a successful accept spawns a
/// session and stays in `Listening`; any accept failure stops the service;
/// `Stopped` is terminal.
pub open spec fn spec_acceptor_step(state: AcceptorState, outcome: AcceptOutcome) -> (
    AcceptorState,
    AcceptDirective,
) {
    match (state, outcome) {
        (AcceptorState::Listening, AcceptOutcome::Accepted) => (
            AcceptorState::Listening,
            AcceptDirective::SpawnSession,
        ),
        (AcceptorState::Listening, AcceptOutcome::Failed) => (
            AcceptorState::Stopped,
            AcceptDirective::HaltService,
        ),
        (AcceptorState::Stopped, _) => (AcceptorState::Stopped, AcceptDirective::HaltService),
    }
}

/// Advances the accept loop by one accept outcome.
pub fn acceptor_step(state: AcceptorState, outcome: AcceptOutcome) -> (r: (
    AcceptorState,
    AcceptDirective,
))
    ensures
        r == spec_acceptor_step(state, outcome),
{
    match (state, outcome) {
        (AcceptorState::Listening, AcceptOutcome::Accepted) => (
            AcceptorState::Listening,
            AcceptDirective::SpawnSession,
        ),
        (AcceptorState::Listening, AcceptOutcome::Failed) => (
            AcceptorState::Stopped,
            AcceptDirective::HaltService,
        ),
        (AcceptorState::Stopped, _) => (AcceptorState::Stopped, AcceptDirective::HaltService),
    }
}

/// Law: while listening, every accepted connection spawns a session and
/// acceptance continues; the loop leaves `Listening` only on an accept
/// failure, and then never accepts again.
pub proof fn lemma_acceptor_behaviour(state: AcceptorState, outcome: AcceptOutcome)
    ensures
        state == AcceptorState::Listening && outcome == AcceptOutcome::Accepted
            ==> spec_acceptor_step(state, outcome) == (
            AcceptorState::Listening,
            AcceptDirective::SpawnSession,
        ),
        spec_acceptor_step(state, outcome).0 == AcceptorState::Stopped <==> (state
            == AcceptorState::Stopped || outcome == AcceptOutcome::Failed),
        spec_acceptor_step(AcceptorState::Stopped, outcome).0 == AcceptorState::Stopped,
{
}

} // verus!
