use cim_domain_bevy::bridge::{process_domain_events, send_visualization_commands, AsyncSyncBridge};
use cim_domain_bevy::channel::{BridgeError, Channel, MAX_CAPACITY};
use cim_domain_bevy::events::{BridgeMessage, DomainEvent, EdgeRelationship, VisualizationCommand};
use cim_domain_bevy::ids::{EdgeId, GraphId, NodeId};
use cim_domain_bevy::position::Position;

fn position(x: f32, y: f32, z: f32) -> Position {
    Position::new(x.to_bits(), y.to_bits(), z.to_bits())
}

fn removed(node: u128) -> DomainEvent {
    DomainEvent::NodeRemoved { graph_id: GraphId(7), node_id: NodeId(node) }
}

fn delete(node: u128) -> VisualizationCommand {
    VisualizationCommand::DeleteNode { graph_id: GraphId(7), node_id: NodeId(node) }
}

#[test]
fn test_bridge_creation() {
    let mut bridge = AsyncSyncBridge::new(100);

    let event = DomainEvent::NodeAdded {
        graph_id: GraphId::new(),
        node_id: NodeId::new(),
        position: Some(position(0.0, 0.0, 0.0)),
        metadata: "Test".to_string(),
    };

    bridge.domain_sender().send(BridgeMessage::Event(event)).unwrap();

    let received = bridge.receive_domain_events();
    assert_eq!(received.len(), 1);
}

#[test]
fn test_bridge_channel_communication() {
    let mut bridge = AsyncSyncBridge::new(100);

    let command = VisualizationCommand::CreateNode {
        graph_id: GraphId::new(),
        position: position(0.0, 0.0, 0.0),
        metadata: Some("Test".to_string()),
    };

    assert!(bridge.send_command(command.clone()).is_ok());

    let event = DomainEvent::NodeAdded {
        graph_id: GraphId::new(),
        node_id: NodeId::new(),
        position: Some(position(1.0, 1.0, 1.0)),
        metadata: "Test Event".to_string(),
    };

    let sender = bridge.domain_sender();
    assert!(sender.send(BridgeMessage::Event(event)).is_ok());

    let received_events = bridge.receive_domain_events();
    assert_eq!(received_events.len(), 1);
}

#[test]
fn capacity_two_accepts_two_of_three() {
    let mut bridge = AsyncSyncBridge::new(2);
    assert_eq!(bridge.send_domain_event(removed(1)), Ok(()));
    assert_eq!(bridge.send_domain_event(removed(2)), Ok(()));
    assert_eq!(bridge.send_domain_event(removed(3)), Err(BridgeError::ChannelFull));
    let drained = bridge.receive_domain_events();
    assert_eq!(drained, vec![removed(1), removed(2)]);
    assert_eq!(bridge.receive_domain_events(), vec![]);
}

#[test]
fn sends_within_capacity_come_out_in_order() {
    let mut bridge = AsyncSyncBridge::new(8);
    for n in 0..8u128 {
        assert_eq!(bridge.send_domain_event(removed(n)), Ok(()));
    }
    let drained = bridge.receive_domain_events();
    let expected: Vec<DomainEvent> = (0..8u128).map(removed).collect();
    assert_eq!(drained, expected);
}

#[test]
fn every_send_beyond_capacity_is_refused_as_full() {
    let mut bridge = AsyncSyncBridge::new(3);
    let mut outcomes = Vec::new();
    for n in 0..7u128 {
        outcomes.push(bridge.send_domain_event(removed(n)));
    }
    assert_eq!(
        outcomes,
        vec![
            Ok(()),
            Ok(()),
            Ok(()),
            Err(BridgeError::ChannelFull),
            Err(BridgeError::ChannelFull),
            Err(BridgeError::ChannelFull),
            Err(BridgeError::ChannelFull),
        ]
    );
    assert_eq!(bridge.receive_domain_events(), vec![removed(0), removed(1), removed(2)]);
}

#[test]
fn a_drained_queue_accepts_again() {
    let mut bridge = AsyncSyncBridge::new(1);
    assert_eq!(bridge.send_domain_event(removed(1)), Ok(()));
    assert_eq!(bridge.send_domain_event(removed(2)), Err(BridgeError::ChannelFull));
    assert_eq!(bridge.receive_domain_events(), vec![removed(1)]);
    assert_eq!(bridge.send_domain_event(removed(3)), Ok(()));
    assert_eq!(bridge.receive_domain_events(), vec![removed(3)]);
}

#[test]
fn capacity_zero_refuses_everything() {
    let mut bridge = AsyncSyncBridge::new(0);
    assert_eq!(bridge.capacity(), 0);
    assert_eq!(bridge.send_domain_event(removed(1)), Err(BridgeError::ChannelFull));
    assert_eq!(bridge.send_command(delete(1)), Err(BridgeError::ChannelFull));
    assert_eq!(bridge.receive_domain_events(), vec![]);
    assert_eq!(bridge.receive_commands(), vec![]);
}

#[test]
fn closed_command_receiver_disconnects() {
    let mut bridge = AsyncSyncBridge::new(4);
    assert_eq!(bridge.send_command(delete(1)), Ok(()));
    bridge.close_command_receiver();
    assert_eq!(bridge.send_command(delete(2)), Err(BridgeError::ChannelDisconnected));
    assert_eq!(bridge.send_command(delete(3)), Err(BridgeError::ChannelDisconnected));
    assert_eq!(bridge.receive_commands(), vec![]);
    assert!(bridge.command_receiver().is_none());
    // The other direction is untouched.
    assert_eq!(bridge.send_domain_event(removed(1)), Ok(()));
    assert_eq!(bridge.receive_domain_events(), vec![removed(1)]);
}

#[test]
fn dropping_the_last_receiver_disconnects() {
    let mut bridge = AsyncSyncBridge::new(4);
    let receiver = bridge.command_receiver().unwrap();
    bridge.close_command_receiver();
    assert_eq!(bridge.send_command(delete(1)), Ok(()));
    assert_eq!(receiver.try_recv(), Ok(BridgeMessage::Command(delete(1))));
    drop(receiver);
    assert_eq!(bridge.send_command(delete(2)), Err(BridgeError::ChannelDisconnected));
}

#[test]
fn round_trip_keeps_event_and_command() {
    let mut bridge = AsyncSyncBridge::new(4);
    let event = DomainEvent::EdgeAdded {
        graph_id: GraphId(1),
        edge_id: EdgeId(2),
        source: NodeId(3),
        target: NodeId(4),
        relationship: EdgeRelationship::Custom("feeds".to_string()),
    };
    assert_eq!(bridge.send_domain_event(event.clone()), Ok(()));
    let drained = bridge.receive_domain_events();
    assert_eq!(drained, vec![event]);

    let command = VisualizationCommand::CreateEdge {
        graph_id: GraphId(1),
        source: NodeId(3),
        target: NodeId(4),
        relationship: EdgeRelationship::Custom("feeds".to_string()),
    };
    assert_eq!(bridge.send_command(command.clone()), Ok(()));
    assert_eq!(bridge.receive_commands(), vec![command]);
    assert_eq!(bridge.receive_commands(), vec![]);
}

#[test]
fn handles_reach_the_same_queues() {
    let mut bridge = AsyncSyncBridge::new(2);
    let sender = bridge.domain_sender();
    let receiver = bridge.command_receiver().unwrap();

    assert!(sender.try_send(BridgeMessage::Event(removed(1))).is_ok());
    assert_eq!(bridge.send_domain_event(removed(2)), Ok(()));
    assert_eq!(bridge.send_domain_event(removed(3)), Err(BridgeError::ChannelFull));
    assert_eq!(bridge.receive_domain_events(), vec![removed(1), removed(2)]);

    assert_eq!(bridge.send_command(delete(9)), Ok(()));
    assert_eq!(receiver.try_recv(), Ok(BridgeMessage::Command(delete(9))));
    assert!(receiver.try_recv().is_err());
}

#[test]
fn a_command_on_the_event_queue_is_not_an_event() {
    let mut bridge = AsyncSyncBridge::new(4);
    let sender = bridge.domain_sender();
    sender.try_send(BridgeMessage::Command(delete(1))).unwrap();
    sender.try_send(BridgeMessage::Event(removed(2))).unwrap();
    assert_eq!(bridge.receive_domain_events(), vec![removed(2)]);
}

#[test]
fn inbound_tick_appends_to_the_host_queue() {
    let mut bridge = AsyncSyncBridge::new(4);
    bridge.send_domain_event(removed(2)).unwrap();
    bridge.send_domain_event(removed(3)).unwrap();
    let mut host = vec![removed(1)];
    assert_eq!(process_domain_events(&mut bridge, &mut host), 2);
    assert_eq!(host, vec![removed(1), removed(2), removed(3)]);
    assert_eq!(process_domain_events(&mut bridge, &mut host), 0);
    assert_eq!(host.len(), 3);
}

#[test]
fn outbound_tick_reports_each_command() {
    let mut bridge = AsyncSyncBridge::new(2);
    let outcomes = send_visualization_commands(&mut bridge, vec![delete(1), delete(2), delete(3)]);
    assert_eq!(outcomes, vec![Ok(()), Ok(()), Err(BridgeError::ChannelFull)]);
    assert_eq!(bridge.receive_commands(), vec![delete(1), delete(2)]);
    bridge.close_command_receiver();
    let outcomes = send_visualization_commands(&mut bridge, vec![delete(4)]);
    assert_eq!(outcomes, vec![Err(BridgeError::ChannelDisconnected)]);
    assert_eq!(send_visualization_commands(&mut bridge, vec![]), vec![]);
}

#[test]
fn channel_is_first_in_first_out() {
    let mut channel = Channel::new(2);
    assert_eq!(channel.capacity(), 2);
    assert_eq!(channel.try_recv(), None);
    assert_eq!(channel.try_send(BridgeMessage::Event(removed(1))), Ok(()));
    assert_eq!(channel.try_send(BridgeMessage::Command(delete(2))), Ok(()));
    assert_eq!(
        channel.try_send(BridgeMessage::Event(removed(3))),
        Err(BridgeError::ChannelFull)
    );
    assert_eq!(channel.try_recv(), Some(BridgeMessage::Event(removed(1))));
    assert_eq!(channel.try_recv(), Some(BridgeMessage::Command(delete(2))));
    assert_eq!(channel.try_recv(), None);
    channel.close_receiver();
    assert_eq!(
        channel.try_send(BridgeMessage::Event(removed(4))),
        Err(BridgeError::ChannelDisconnected)
    );
    assert_eq!(channel.try_recv(), None);
    assert!(channel.receiver_handle().is_none());
}

#[test]
fn largest_capacity_is_accepted() {
    let bridge = AsyncSyncBridge::new(MAX_CAPACITY);
    assert_eq!(bridge.capacity(), MAX_CAPACITY);
}
