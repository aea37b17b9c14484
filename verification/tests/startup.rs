use laval_node::orchestrator::{advance, begin, exit_code, NodeAction, NodeEvent, NodePhase};

const PHASES: [NodePhase; 8] = [
    NodePhase::BuildingRoutes,
    NodePhase::ResolvingMapping,
    NodePhase::StartingTunnel,
    NodePhase::ServingAlone,
    NodePhase::ServingWithTunnel,
    NodePhase::StoppingTunnel,
    NodePhase::Finished,
    NodePhase::Failed,
];
const EVENTS: [NodeEvent; 7] = [
    NodeEvent::RoutesBuilt,
    NodeEvent::MappingPresent,
    NodeEvent::MappingAbsent,
    NodeEvent::TunnelStarted,
    NodeEvent::StepFailed,
    NodeEvent::ProxyEnded,
    NodeEvent::TunnelStopped,
];

fn run(events: &[NodeEvent]) -> (NodePhase, Vec<NodeAction>) {
    let (mut phase, first) = begin();
    let mut actions = vec![first];
    for event in events {
        let (next, action) = advance(phase, *event);
        phase = next;
        actions.push(action);
    }
    (phase, actions)
}

#[test]
fn node_with_mapping_starts_tunnel_before_proxy() {
    let (phase, actions) = run(&[
        NodeEvent::RoutesBuilt,
        NodeEvent::MappingPresent,
        NodeEvent::TunnelStarted,
        NodeEvent::ProxyEnded,
        NodeEvent::TunnelStopped,
    ]);
    assert_eq!(phase, NodePhase::Finished);
    assert_eq!(
        actions,
        vec![
            NodeAction::BuildRoutes,
            NodeAction::ResolveMapping,
            NodeAction::StartTunnel,
            NodeAction::ServeProxy,
            NodeAction::StopTunnel,
            NodeAction::ExitSuccess,
        ]
    );
}

#[test]
fn node_without_mapping_serves_at_once() {
    let (phase, actions) = run(&[
        NodeEvent::RoutesBuilt,
        NodeEvent::MappingAbsent,
        NodeEvent::ProxyEnded,
    ]);
    assert_eq!(phase, NodePhase::Finished);
    assert_eq!(
        actions,
        vec![
            NodeAction::BuildRoutes,
            NodeAction::ResolveMapping,
            NodeAction::ServeProxy,
            NodeAction::ExitSuccess,
        ]
    );
}

#[test]
fn refused_routes_end_the_node() {
    let (phase, actions) = run(&[NodeEvent::StepFailed]);
    assert_eq!(phase, NodePhase::Failed);
    assert_eq!(actions, vec![NodeAction::BuildRoutes, NodeAction::ExitFailure]);
}

#[test]
fn failed_fetch_ends_the_node() {
    let (phase, actions) = run(&[NodeEvent::RoutesBuilt, NodeEvent::StepFailed]);
    assert_eq!(phase, NodePhase::Failed);
    assert_eq!(actions.last(), Some(&NodeAction::ExitFailure));
    assert!(!actions.contains(&NodeAction::ServeProxy));
}

#[test]
fn refused_tunnel_configuration_ends_the_node() {
    let (phase, actions) = run(&[
        NodeEvent::RoutesBuilt,
        NodeEvent::MappingPresent,
        NodeEvent::StepFailed,
    ]);
    assert_eq!(phase, NodePhase::Failed);
    assert_eq!(actions.last(), Some(&NodeAction::ExitFailure));
    assert!(!actions.contains(&NodeAction::ServeProxy));
}

#[test]
fn exit_codes() {
    assert_eq!(exit_code(NodeAction::ExitSuccess), Some(0));
    assert_eq!(exit_code(NodeAction::ExitFailure), Some(1));
    for action in [
        NodeAction::BuildRoutes,
        NodeAction::ResolveMapping,
        NodeAction::StartTunnel,
        NodeAction::ServeProxy,
        NodeAction::StopTunnel,
        NodeAction::Idle,
    ] {
        assert_eq!(exit_code(action), None);
    }
}

#[test]
fn ended_node_ignores_every_event() {
    for phase in [NodePhase::Finished, NodePhase::Failed] {
        for event in EVENTS {
            assert_eq!(advance(phase, event), (phase, NodeAction::Idle));
        }
    }
}

#[test]
fn proxy_is_served_only_when_the_mapping_is_settled() {
    for phase in PHASES {
        for event in EVENTS {
            let (_, action) = advance(phase, event);
            let settled = (phase == NodePhase::StartingTunnel
                && event == NodeEvent::TunnelStarted)
                || (phase == NodePhase::ResolvingMapping && event == NodeEvent::MappingAbsent);
            assert_eq!(action == NodeAction::ServeProxy, settled);
        }
    }
}

#[test]
fn tunnel_is_stopped_only_if_it_was_started() {
    for phase in PHASES {
        for event in EVENTS {
            let (_, action) = advance(phase, event);
            let expected =
                phase == NodePhase::ServingWithTunnel && event == NodeEvent::ProxyEnded;
            assert_eq!(action == NodeAction::StopTunnel, expected);
        }
    }
}

#[test]
fn failure_while_serving_is_no_startup_failure() {
    assert_eq!(
        advance(NodePhase::ServingAlone, NodeEvent::StepFailed),
        (NodePhase::ServingAlone, NodeAction::Idle)
    );
    assert_eq!(
        advance(NodePhase::ServingWithTunnel, NodeEvent::StepFailed),
        (NodePhase::ServingWithTunnel, NodeAction::Idle)
    );
}
