//! The life of one server, as the caller's context sees it.
//!
//! A server is `Idle` until it is run, `Starting` until the handshake with its
//! server context has ended, `Running` until a shutdown is asked for,
//! `ShuttingDown` until the server context has ended, and `Terminated` after.
//! [`step`] is the whole transition relation; the functions that start and stop
//! a server decide by it.

use vstd::prelude::*;

verus! {

/// Where a server stands in its life.
#[derive(Clone, Copy, Debug, PartialEq, Eq, Structural)]
pub enum Phase {
    /// Configured, not yet run.
    Idle,
    /// The server context was asked for; the handshake is still open.
    Starting,
    /// The listener is bound and the caller holds the shutdown handle.
    Running,
    /// The graceful stop was signalled; the server context has not ended yet.
    ShuttingDown,
    /// The server context has ended, or never came up.
    Terminated,
}

/// What the caller's context does or learns.
#[derive(Clone, Copy, Debug, PartialEq, Eq, Structural)]
pub enum Signal {
    /// The caller runs the server.
    Run,
    /// The server context could not be spawned.
    SpawnFailed,
    /// The handshake delivered the handle of the live listener.
    ListenerReady,
    /// The handshake channel closed without a value.
    HandshakeClosed,
    /// The caller asks for a shutdown.
    Shutdown,
    /// The server context has ended.
    Exited,
}

/// What the caller's context has to do in answer to a signal.
#[derive(Clone, Copy, Debug, PartialEq, Eq, Structural)]
pub enum Directive {
    /// Spawn the server context and wait for the handshake.
    Spawn,
    /// Hand the shutdown handle to the caller.
    HandOver,
    /// Report a start-up error to the caller.
    Fail,
    /// Send the graceful-stop signal to the server context.
    Stop,
    /// Nothing.
    Nothing,
}

/// The transition relation: the phase after `signal` arrives in `phase`, and
/// what is to be done. A signal that has no meaning in a phase changes nothing.
pub open spec fn step(phase: Phase, signal: Signal) -> (Phase, Directive) {
    match (phase, signal) {
        (Phase::Idle, Signal::Run) => (Phase::Starting, Directive::Spawn),
        (Phase::Starting, Signal::SpawnFailed) => (Phase::Terminated, Directive::Fail),
        (Phase::Starting, Signal::HandshakeClosed) => (Phase::Terminated, Directive::Fail),
        (Phase::Starting, Signal::ListenerReady) => (Phase::Running, Directive::HandOver),
        (Phase::Running, Signal::Shutdown) => (Phase::ShuttingDown, Directive::Stop),
        (Phase::Running, Signal::Exited) => (Phase::Terminated, Directive::Nothing),
        (Phase::ShuttingDown, Signal::Exited) => (Phase::Terminated, Directive::Nothing),
        _ => (phase, Directive::Nothing),
    }
}

/// Computes [`step`].
pub fn advance(phase: Phase, signal: Signal) -> (next: (Phase, Directive))
    ensures
        next == step(phase, signal),
{
    match phase {
        Phase::Idle => match signal {
            Signal::Run => (Phase::Starting, Directive::Spawn),
            _ => (phase, Directive::Nothing),
        },
        Phase::Starting => match signal {
            Signal::SpawnFailed => (Phase::Terminated, Directive::Fail),
            Signal::HandshakeClosed => (Phase::Terminated, Directive::Fail),
            Signal::ListenerReady => (Phase::Running, Directive::HandOver),
            _ => (phase, Directive::Nothing),
        },
        Phase::Running => match signal {
            Signal::Shutdown => (Phase::ShuttingDown, Directive::Stop),
            Signal::Exited => (Phase::Terminated, Directive::Nothing),
            _ => (phase, Directive::Nothing),
        },
        Phase::ShuttingDown => match signal {
            Signal::Exited => (Phase::Terminated, Directive::Nothing),
            _ => (phase, Directive::Nothing),
        },
        Phase::Terminated => (phase, Directive::Nothing),
    }
}

/// How far a phase is along the life of a server.
pub open spec fn rank(phase: Phase) -> nat {
    match phase {
        Phase::Idle => 0,
        Phase::Starting => 1,
        Phase::Running => 2,
        Phase::ShuttingDown => 3,
        Phase::Terminated => 4,
    }
}

/// The phase that a server in `phase` is in after `signals` have arrived, in
/// their order.
pub open spec fn after(phase: Phase, signals: Seq<Signal>) -> Phase
    decreases signals.len(),
{
    if signals.len() == 0 {
        phase
    } else {
        step(after(phase, signals.drop_last()), signals.last()).0
    }
}

/// How often the stop signal is sent to a server that is in `phase` when
/// `signals` arrive, in their order.
pub open spec fn stops(phase: Phase, signals: Seq<Signal>) -> nat
    decreases signals.len(),
{
    if signals.len() == 0 {
        0
    } else {
        let sent: nat = if step(after(phase, signals.drop_last()), signals.last()).1
            == Directive::Stop {
            1
        } else {
            0
        };
        stops(phase, signals.drop_last()) + sent
    }
}

/// A server never goes back: no signal takes it to an earlier phase, and
/// `Terminated` is left by none.
pub proof fn law_phases_only_advance(phase: Phase, signals: Seq<Signal>)
    ensures
        rank(after(phase, signals)) >= rank(phase),
        phase == Phase::Terminated ==> after(phase, signals) == Phase::Terminated,
    decreases signals.len(),
{
    if signals.len() > 0 {
        law_phases_only_advance(phase, signals.drop_last());
    }
}

/// The shutdown handle is handed over for a ready listener and for nothing
/// else: the directive `HandOver` answers the signal `ListenerReady` in phase
/// `Starting` only, and it is the only way into `Running`.
pub proof fn law_handle_only_for_ready_listener(phase: Phase, signal: Signal)
    ensures
        step(phase, signal).1 == Directive::HandOver <==> phase == Phase::Starting && signal
            == Signal::ListenerReady,
        phase != Phase::Running && step(phase, signal).0 == Phase::Running ==> step(
            phase,
            signal,
        ).1 == Directive::HandOver,
{
}

/// A server that was `Idle` and is `Running` or `ShuttingDown` has seen its
/// listener ready: no other course of signals leads there.
pub proof fn law_running_follows_ready_listener(signals: Seq<Signal>)
    ensures
        after(Phase::Idle, signals) == Phase::Running || after(Phase::Idle, signals)
            == Phase::ShuttingDown ==> signals.contains(Signal::ListenerReady),
    decreases signals.len(),
{
    if signals.len() > 0 {
        let earlier = signals.drop_last();
        law_running_follows_ready_listener(earlier);
        if earlier.contains(Signal::ListenerReady) {
            let i = choose|i: int| 0 <= i < earlier.len() && earlier[i] == Signal::ListenerReady;
            assert(signals[i] == Signal::ListenerReady);
        } else if after(Phase::Idle, earlier) == Phase::Starting && after(Phase::Idle, signals)
            == Phase::Running {
            assert(signals[signals.len() - 1] == Signal::ListenerReady);
        }
    }
}

/// A start that fails is reported and does not hang: in `Starting`, a failed
/// spawn and a closed handshake each end the server with the directive `Fail`,
/// and the three outcomes of the handshake are the only signals that a
/// `Starting` server heeds.
pub proof fn law_failed_start_is_reported(signal: Signal)
    ensures
        signal == Signal::SpawnFailed || signal == Signal::HandshakeClosed ==> step(
            Phase::Starting,
            signal,
        ) == (Phase::Terminated, Directive::Fail),
        step(Phase::Starting, signal).0 != Phase::Starting ==> signal == Signal::SpawnFailed
            || signal == Signal::HandshakeClosed || signal == Signal::ListenerReady,
{
}

/// Asking for a shutdown twice is asking once: the second request changes
/// nothing and sends nothing, whatever the phase of the first.
pub proof fn law_shutdown_is_idempotent(phase: Phase)
    ensures
        step(step(phase, Signal::Shutdown).0, Signal::Shutdown) == (
            step(phase, Signal::Shutdown).0,
            Directive::Nothing,
        ),
{
}

/// Whatever arrives and in whatever order, the stop signal is sent at most
/// once, and once it is sent the server is `ShuttingDown` or `Terminated`.
pub proof fn law_stop_is_sent_once(phase: Phase, signals: Seq<Signal>)
    ensures
        stops(phase, signals) <= 1,
        stops(phase, signals) == 1 ==> rank(after(phase, signals)) >= rank(Phase::ShuttingDown),
    decreases signals.len(),
{
    if signals.len() > 0 {
        law_stop_is_sent_once(phase, signals.drop_last());
    }
}

/// A shutdown of a running server takes its course: the request sends the stop
/// signal, the end of the server context then terminates the server, and no
/// signal in between or after makes it `Running` again.
pub proof fn law_shutdown_leads_to_termination(signals: Seq<Signal>)
    ensures
        step(Phase::Running, Signal::Shutdown) == (Phase::ShuttingDown, Directive::Stop),
        step(Phase::ShuttingDown, Signal::Exited) == (Phase::Terminated, Directive::Nothing),
        after(Phase::ShuttingDown, signals) == Phase::ShuttingDown || after(
            Phase::ShuttingDown,
            signals,
        ) == Phase::Terminated,
        signals.contains(Signal::Exited) ==> after(Phase::ShuttingDown, signals)
            == Phase::Terminated,
    decreases signals.len(),
{
    if signals.len() > 0 {
        let earlier = signals.drop_last();
        law_shutdown_leads_to_termination(earlier);
        if signals.contains(Signal::Exited) && signals.last() != Signal::Exited {
            let i = choose|i: int| 0 <= i < signals.len() && signals[i] == Signal::Exited;
            assert(earlier[i] == Signal::Exited);
        }
    }
}

} // verus!
