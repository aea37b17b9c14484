//! The order in which a node comes up and goes down.
//!
//! The routing table is built first, then the port mapping is resolved. If
//! there is one, the tunnel is started, and only then does the proxy serve.
//! When the proxy ends, a tunnel that was started is stopped. A failure before
//! the proxy serves ends the node with a code that is not zero.
//!
//! The caller performs each action and reports what happened as the next
//! event.

use vstd::prelude::*;

verus! {

/// Where a node stands.
#[derive(Debug, Clone, Copy, PartialEq, Eq, Structural)]
pub enum NodePhase {
    BuildingRoutes,
    ResolvingMapping,
    StartingTunnel,
    /// The proxy serves requests, and no tunnel runs beside it.
    ServingAlone,
    /// The proxy serves requests, and a tunnel runs beside it.
    ServingWithTunnel,
    StoppingTunnel,
    /// The node came up and has gone down in order.
    Finished,
    /// The node failed to come up.
    Failed,
}

/// What happened to a node.
#[derive(Debug, Clone, Copy, PartialEq, Eq, Structural)]
pub enum NodeEvent {
    /// The routing table was built.
    RoutesBuilt,
    /// The port mapping was resolved, and there is one.
    MappingPresent,
    /// The port mapping was resolved, and there is none.
    MappingAbsent,
    /// The tunnel worker was started.
    TunnelStarted,
    /// The step that was asked for failed.
    StepFailed,
    /// The proxy's run loop has ended.
    ProxyEnded,
    /// The tunnel worker has ended.
    TunnelStopped,
}

/// What the node does next.
#[derive(Debug, Clone, Copy, PartialEq, Eq, Structural)]
pub enum NodeAction {
    BuildRoutes,
    ResolveMapping,
    StartTunnel,
    ServeProxy,
    StopTunnel,
    /// End the process with exit code zero.
    ExitSuccess,
    /// End the process with an exit code that is not zero.
    ExitFailure,
    /// Nothing.
    Idle,
}

/// Whether the node is still coming up in this phase.
pub open spec fn starting(phase: NodePhase) -> bool {
    phase == NodePhase::BuildingRoutes || phase == NodePhase::ResolvingMapping || phase
        == NodePhase::StartingTunnel
}

/// The phase after `event`, and the action that it asks for. An event that
/// the phase does not wait for changes nothing and asks for nothing.
pub open spec fn advanced(phase: NodePhase, event: NodeEvent) -> (NodePhase, NodeAction) {
    match (phase, event) {
        (NodePhase::BuildingRoutes, NodeEvent::RoutesBuilt) => (
            NodePhase::ResolvingMapping,
            NodeAction::ResolveMapping,
        ),
        (NodePhase::ResolvingMapping, NodeEvent::MappingPresent) => (
            NodePhase::StartingTunnel,
            NodeAction::StartTunnel,
        ),
        (NodePhase::ResolvingMapping, NodeEvent::MappingAbsent) => (
            NodePhase::ServingAlone,
            NodeAction::ServeProxy,
        ),
        (NodePhase::StartingTunnel, NodeEvent::TunnelStarted) => (
            NodePhase::ServingWithTunnel,
            NodeAction::ServeProxy,
        ),
        (NodePhase::BuildingRoutes, NodeEvent::StepFailed) => (
            NodePhase::Failed,
            NodeAction::ExitFailure,
        ),
        (NodePhase::ResolvingMapping, NodeEvent::StepFailed) => (
            NodePhase::Failed,
            NodeAction::ExitFailure,
        ),
        (NodePhase::StartingTunnel, NodeEvent::StepFailed) => (
            NodePhase::Failed,
            NodeAction::ExitFailure,
        ),
        (NodePhase::ServingWithTunnel, NodeEvent::ProxyEnded) => (
            NodePhase::StoppingTunnel,
            NodeAction::StopTunnel,
        ),
        (NodePhase::ServingAlone, NodeEvent::ProxyEnded) => (
            NodePhase::Finished,
            NodeAction::ExitSuccess,
        ),
        (NodePhase::StoppingTunnel, NodeEvent::TunnelStopped) => (
            NodePhase::Finished,
            NodeAction::ExitSuccess,
        ),
        _ => (phase, NodeAction::Idle),
    }
}

/// The exit code that an action ends the process with, if it ends it.
pub open spec fn exit_code_of(action: NodeAction) -> Option<i32> {
    match action {
        NodeAction::ExitSuccess => Some(0i32),
        NodeAction::ExitFailure => Some(1i32),
        _ => None,
    }
}

/// The phase in which a node begins, and its first action: the routing table
/// is built before anything else.
pub fn begin() -> (r: (NodePhase, NodeAction))
    ensures
        r == (NodePhase::BuildingRoutes, NodeAction::BuildRoutes),
{
    (NodePhase::BuildingRoutes, NodeAction::BuildRoutes)
}

/// Takes the node one step further.
pub fn advance(phase: NodePhase, event: NodeEvent) -> (r: (NodePhase, NodeAction))
    ensures
        r == advanced(phase, event),
{
    let unchanged = (phase, NodeAction::Idle);
    match phase {
        NodePhase::BuildingRoutes => match event {
            NodeEvent::RoutesBuilt => (NodePhase::ResolvingMapping, NodeAction::ResolveMapping),
            NodeEvent::StepFailed => (NodePhase::Failed, NodeAction::ExitFailure),
            _ => unchanged,
        },
        NodePhase::ResolvingMapping => match event {
            NodeEvent::MappingPresent => (NodePhase::StartingTunnel, NodeAction::StartTunnel),
            NodeEvent::MappingAbsent => (NodePhase::ServingAlone, NodeAction::ServeProxy),
            NodeEvent::StepFailed => (NodePhase::Failed, NodeAction::ExitFailure),
            _ => unchanged,
        },
        NodePhase::StartingTunnel => match event {
            NodeEvent::TunnelStarted => (NodePhase::ServingWithTunnel, NodeAction::ServeProxy),
            NodeEvent::StepFailed => (NodePhase::Failed, NodeAction::ExitFailure),
            _ => unchanged,
        },
        NodePhase::ServingWithTunnel => match event {
            NodeEvent::ProxyEnded => (NodePhase::StoppingTunnel, NodeAction::StopTunnel),
            _ => unchanged,
        },
        NodePhase::ServingAlone => match event {
            NodeEvent::ProxyEnded => (NodePhase::Finished, NodeAction::ExitSuccess),
            _ => unchanged,
        },
        NodePhase::StoppingTunnel => match event {
            NodeEvent::TunnelStopped => (NodePhase::Finished, NodeAction::ExitSuccess),
            _ => unchanged,
        },
        NodePhase::Finished => unchanged,
        NodePhase::Failed => unchanged,
    }
}

/// The exit code that `action` ends the process with: zero for a node that
/// went down in order, one for a node that failed to come up; none for an
/// action that does not end the process.
pub fn exit_code(action: NodeAction) -> (r: Option<i32>)
    ensures
        r == exit_code_of(action),
{
    match action {
        NodeAction::ExitSuccess => Some(0),
        NodeAction::ExitFailure => Some(1),
        _ => None,
    }
}

/// The proxy serves only once the port mapping is settled: after the tunnel
/// has started where there is a mapping, at once where there is none.
pub proof fn lemma_tunnel_starts_before_proxy(phase: NodePhase, event: NodeEvent)
    ensures
        advanced(phase, event).1 == NodeAction::ServeProxy <==> (phase
            == NodePhase::StartingTunnel && event == NodeEvent::TunnelStarted) || (phase
            == NodePhase::ResolvingMapping && event == NodeEvent::MappingAbsent),
        advanced(phase, event).1 == NodeAction::StartTunnel <==> phase
            == NodePhase::ResolvingMapping && event == NodeEvent::MappingPresent,
        advanced(phase, event).0 == NodePhase::ServingWithTunnel && phase
            != NodePhase::ServingWithTunnel ==> phase == NodePhase::StartingTunnel,
{
}

/// A step that fails while the node comes up ends the node with a code that
/// is not zero, and the proxy is not served.
pub proof fn lemma_startup_failure_is_fatal(phase: NodePhase)
    requires
        starting(phase),
    ensures
        advanced(phase, NodeEvent::StepFailed) == (NodePhase::Failed, NodeAction::ExitFailure),
        exit_code_of(NodeAction::ExitFailure) matches Some(code) && code != 0,
{
}

/// When the proxy ends, the tunnel is stopped if and only if one was
/// started; and a node that has ended does nothing more.
pub proof fn lemma_tunnel_stopped_iff_started(phase: NodePhase, event: NodeEvent)
    ensures
        advanced(phase, event).1 == NodeAction::StopTunnel <==> phase
            == NodePhase::ServingWithTunnel && event == NodeEvent::ProxyEnded,
        phase == NodePhase::Finished || phase == NodePhase::Failed ==> advanced(phase, event) == (
            phase,
            NodeAction::Idle,
        ),
{
}

} // verus!
