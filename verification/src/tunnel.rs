//! The life of the tunnel worker: what it is started with, and the order in
//! which it is asked to stop and waited for.
//!
//! The worker itself, its thread and its channel are the caller's. This module
//! holds the decisions: the caller performs each action and reports what
//! happened as the next event.

use crate::model::PortMappingMode;
use vstd::prelude::*;

verus! {

/// What the worker that runs the tunnel engine is started with.
#[derive(Debug, Clone, PartialEq, Eq)]
pub struct LaunchPlan {
    /// The name of the worker's thread.
    pub thread_name: String,
    /// The file that holds the engine's configuration.
    pub config_path: String,
    /// Whether the engine is told to run as server.
    pub server: bool,
    /// Whether the engine is told to run as client.
    pub client: bool,
    /// How many signals the shutdown channel holds.
    pub shutdown_capacity: usize,
}

/// Plans the start of a worker for the engine configuration at
/// `config_path`.
///
/// The engine is told exactly one role: server if `server` is set, client if
/// not. The worker's thread is named `rathole-runner`, and its shutdown
/// channel holds four signals.
pub fn launch_plan(config_path: &str, server: bool) -> (r: LaunchPlan)
    ensures
        r.thread_name@ == "rathole-runner"@,
        r.config_path@ == config_path@,
        r.server == server,
        r.client == !server,
        r.shutdown_capacity == 4,
{
    LaunchPlan {
        thread_name: "rathole-runner".to_owned(),
        config_path: config_path.to_owned(),
        server,
        client: !server,
        shutdown_capacity: 4,
    }
}

/// Plans the start of a worker that runs the engine in the role `mode`.
pub fn launch_plan_for(config_path: &str, mode: PortMappingMode) -> (r: LaunchPlan)
    ensures
        r.thread_name@ == "rathole-runner"@,
        r.config_path@ == config_path@,
        r.server == (mode == PortMappingMode::Server),
        r.client == (mode == PortMappingMode::Client),
        r.shutdown_capacity == 4,
{
    launch_plan(config_path, mode.is_server())
}

/// Where a tunnel worker stands.
#[derive(Debug, Clone, Copy, PartialEq, Eq, Structural)]
pub enum TunnelPhase {
    /// The worker was started and has not been asked to stop.
    Running,
    /// The shutdown signal is being sent.
    Signalling,
    /// The signal was dealt with; the worker is being waited for.
    Joining,
    /// The worker's thread has ended.
    Stopped,
}

/// What happened to a tunnel worker.
#[derive(Debug, Clone, Copy, PartialEq, Eq, Structural)]
pub enum TunnelEvent {
    /// The owner asks the worker to stop.
    ShutdownRequested,
    /// The shutdown signal was taken by the channel.
    SignalDelivered,
    /// The shutdown signal could not be sent: nobody listens.
    SignalFailed,
    /// The worker's thread has ended.
    WorkerJoined,
}

/// What the owner of a tunnel worker does next.
#[derive(Debug, Clone, Copy, PartialEq, Eq, Structural)]
pub enum TunnelAction {
    /// Send the shutdown signal, and report whether it was taken.
    SendSignal,
    /// Wait for the worker's thread to end.
    JoinWorker,
    /// Note that the signal could not be sent, then wait for the worker's
    /// thread to end all the same.
    NoteFailureAndJoin,
    /// Nothing.
    Idle,
}

/// The phase after `event`, and the action that it asks for.
///
/// A request to stop a running worker sends the signal. Whether or not the
/// signal was taken, the worker is then waited for; when it has ended, the
/// worker is stopped. Every other event changes nothing and asks for
/// nothing.
pub open spec fn stepped(phase: TunnelPhase, event: TunnelEvent) -> (TunnelPhase, TunnelAction) {
    match (phase, event) {
        (TunnelPhase::Running, TunnelEvent::ShutdownRequested) => (
            TunnelPhase::Signalling,
            TunnelAction::SendSignal,
        ),
        (TunnelPhase::Signalling, TunnelEvent::SignalDelivered) => (
            TunnelPhase::Joining,
            TunnelAction::JoinWorker,
        ),
        (TunnelPhase::Signalling, TunnelEvent::SignalFailed) => (
            TunnelPhase::Joining,
            TunnelAction::NoteFailureAndJoin,
        ),
        (TunnelPhase::Joining, TunnelEvent::WorkerJoined) => (
            TunnelPhase::Stopped,
            TunnelAction::Idle,
        ),
        _ => (phase, TunnelAction::Idle),
    }
}

/// How far a phase is from the start.
pub open spec fn progress(phase: TunnelPhase) -> nat {
    match phase {
        TunnelPhase::Running => 0,
        TunnelPhase::Signalling => 1,
        TunnelPhase::Joining => 2,
        TunnelPhase::Stopped => 3,
    }
}

/// Takes one step in the life of a tunnel worker.
pub fn step(phase: TunnelPhase, event: TunnelEvent) -> (r: (TunnelPhase, TunnelAction))
    ensures
        r == stepped(phase, event),
{
    match phase {
        TunnelPhase::Running => match event {
            TunnelEvent::ShutdownRequested => (TunnelPhase::Signalling, TunnelAction::SendSignal),
            _ => (phase, TunnelAction::Idle),
        },
        TunnelPhase::Signalling => match event {
            TunnelEvent::SignalDelivered => (TunnelPhase::Joining, TunnelAction::JoinWorker),
            TunnelEvent::SignalFailed => (TunnelPhase::Joining, TunnelAction::NoteFailureAndJoin),
            _ => (phase, TunnelAction::Idle),
        },
        TunnelPhase::Joining => match event {
            TunnelEvent::WorkerJoined => (TunnelPhase::Stopped, TunnelAction::Idle),
            _ => (phase, TunnelAction::Idle),
        },
        TunnelPhase::Stopped => (phase, TunnelAction::Idle),
    }
}

/// The phase after all of `events`, taken in their order.
pub open spec fn after(phase: TunnelPhase, events: Seq<TunnelEvent>) -> TunnelPhase
    decreases events.len(),
{
    if events.len() == 0 {
        phase
    } else {
        stepped(after(phase, events.drop_last()), events.last()).0
    }
}

/// A shutdown runs to its end whether or not the signal could be sent: the
/// signal is tried first, the worker is waited for next, and then the worker
/// is stopped.
pub proof fn lemma_shutdown_completes(signal: TunnelEvent)
    requires
        signal == TunnelEvent::SignalDelivered || signal == TunnelEvent::SignalFailed,
    ensures
        stepped(TunnelPhase::Running, TunnelEvent::ShutdownRequested) == (
            TunnelPhase::Signalling,
            TunnelAction::SendSignal,
        ),
        stepped(TunnelPhase::Signalling, signal).0 == TunnelPhase::Joining,
        stepped(TunnelPhase::Signalling, signal).1 == TunnelAction::JoinWorker || stepped(
            TunnelPhase::Signalling,
            signal,
        ).1 == TunnelAction::NoteFailureAndJoin,
        stepped(TunnelPhase::Joining, TunnelEvent::WorkerJoined) == (
            TunnelPhase::Stopped,
            TunnelAction::Idle,
        ),
{
}

/// A stopped worker stays stopped, and nothing is done to it again: every
/// event, a second request to stop among them, asks for nothing.
pub proof fn lemma_stopped_is_final(events: Seq<TunnelEvent>, event: TunnelEvent)
    ensures
        after(TunnelPhase::Stopped, events) == TunnelPhase::Stopped,
        stepped(after(TunnelPhase::Stopped, events), event) == (
            TunnelPhase::Stopped,
            TunnelAction::Idle,
        ),
    decreases events.len(),
{
    if events.len() > 0 {
        lemma_stopped_is_final(events.drop_last(), events.last());
    }
}

/// No step goes back, and the signal is sent at most once: only the request
/// that takes a worker out of `Running` asks for it.
pub proof fn lemma_signal_sent_once(phase: TunnelPhase, event: TunnelEvent)
    ensures
        progress(stepped(phase, event).0) >= progress(phase),
        stepped(phase, event).1 == TunnelAction::SendSignal <==> phase == TunnelPhase::Running
            && event == TunnelEvent::ShutdownRequested,
        stepped(phase, event).1 == TunnelAction::SendSignal ==> stepped(phase, event).0
            != TunnelPhase::Running,
{
}

} // verus!
