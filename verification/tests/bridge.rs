//! Tests of the life of the bridge.

use ryder_bridge::bridge::{Bridge, BridgeAction, BridgeEvent};

/// Returns what is done for a bridge that shuts down for the given reason.
fn shutdown(reason: BridgeEvent) -> Vec<BridgeAction> {
    let mut bridge = Bridge::new();
    assert_eq!(BridgeAction::Watch, bridge.action());
    bridge.handle(reason);
    let mut actions = Vec::new();
    while bridge.action() != BridgeAction::Finish {
        actions.push(bridge.action());
        bridge.handle(BridgeEvent::Done);
    }
    actions
}

#[test]
fn a_signal_ends_everything() {
    for reason in [BridgeEvent::Interrupted, BridgeEvent::Handle(true)] {
        assert_eq!(
            vec![
                BridgeAction::ForwardTermination,
                BridgeAction::AwaitListener,
                BridgeAction::AwaitConnections,
                BridgeAction::AwaitServer,
            ],
            shutdown(reason)
        );
    }
}

#[test]
fn a_server_that_has_exited_is_not_waited_for() {
    assert_eq!(
        vec![
            BridgeAction::ForwardTermination,
            BridgeAction::AwaitListener,
            BridgeAction::AwaitConnections,
        ],
        shutdown(BridgeEvent::ServerExited)
    );
}

#[test]
fn a_dropped_handle_changes_nothing() {
    let mut bridge = Bridge::new();
    bridge.handle(BridgeEvent::Handle(false));
    assert_eq!(Bridge::new(), bridge);
    assert_eq!(BridgeAction::Watch, bridge.action());
}
