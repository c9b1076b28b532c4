use cim_domain_bevy::bridge::AsyncSyncBridge;
use cim_domain_bevy::components::{EdgeVisual, EdgeVisualBundle, NodeVisual, NodeVisualBundle};
use cim_domain_bevy::events::{DomainEvent, EdgeRelationship};
use cim_domain_bevy::ids::{EdgeId, EntityId, GraphId, NodeId};
use cim_domain_bevy::morphisms::{
    create_edge_visual, create_node_visual, materialize, remove_edge_visual, remove_node_visual,
    SceneAction, SceneEdge, SceneNode,
};
use cim_domain_bevy::position::Position;

fn position(x: f32, y: f32, z: f32) -> Position {
    Position::new(x.to_bits(), y.to_bits(), z.to_bits())
}

fn node(entity: u64, id: u128) -> SceneNode {
    SceneNode { entity: EntityId(entity), visual: NodeVisual { node_id: NodeId(id), graph_id: GraphId(1) } }
}

fn edge(entity: u64, id: u128, source: u64, target: u64) -> SceneEdge {
    SceneEdge {
        entity: EntityId(entity),
        visual: EdgeVisual {
            edge_id: EdgeId(id),
            graph_id: GraphId(1),
            source_entity: EntityId(source),
            target_entity: EntityId(target),
        },
    }
}

#[test]
fn node_added_materializes_one_entity_where_it_says() {
    let x = NodeId(0x1234);
    let mut bridge = AsyncSyncBridge::new(16);
    let event = DomainEvent::NodeAdded {
        graph_id: GraphId(1),
        node_id: x,
        position: Some(position(1.0, 2.0, 3.0)),
        metadata: "{}".to_string(),
    };
    bridge.send_domain_event(event).unwrap();
    let drained = bridge.receive_domain_events();
    assert_eq!(drained.len(), 1);

    let actions = materialize(&drained[0], &vec![], &vec![]);
    assert_eq!(
        actions,
        vec![SceneAction::SpawnNode {
            bundle: NodeVisualBundle {
                node: NodeVisual { node_id: x, graph_id: GraphId(1) },
                position: Position {
                    x: 1.0f32.to_bits(),
                    y: 2.0f32.to_bits(),
                    z: 3.0f32.to_bits(),
                },
            },
            metadata: "{}".to_string(),
        }]
    );
}

#[test]
fn node_without_position_goes_to_the_origin() {
    let bundle = create_node_visual(NodeId(1), GraphId(2), None);
    assert_eq!(bundle, NodeVisualBundle::new(NodeId(1), GraphId(2), position(0.0, 0.0, 0.0)));
    let bundle = create_node_visual(NodeId(1), GraphId(2), Some(position(-1.0, 0.5, 9.0)));
    assert_eq!(bundle.position, position(-1.0, 0.5, 9.0));
}

#[test]
fn removal_despawns_every_entity_of_the_node() {
    let nodes = vec![node(1, 10), node(2, 11), node(3, 10)];
    assert_eq!(remove_node_visual(&nodes, NodeId(10)), vec![EntityId(1), EntityId(3)]);
    assert_eq!(remove_node_visual(&nodes, NodeId(12)), vec![]);
    let event = DomainEvent::NodeRemoved { graph_id: GraphId(1), node_id: NodeId(10) };
    assert_eq!(
        materialize(&event, &nodes, &vec![]),
        vec![
            SceneAction::Despawn { entity: EntityId(1) },
            SceneAction::Despawn { entity: EntityId(3) },
        ]
    );
}

#[test]
fn edge_needs_both_ends() {
    let nodes = vec![node(1, 10), node(2, 11), node(3, 10)];
    assert_eq!(
        create_edge_visual(&nodes, EdgeId(5), GraphId(1), NodeId(10), NodeId(11)),
        Some(EdgeVisualBundle::new(EdgeId(5), GraphId(1), EntityId(3), EntityId(2)))
    );
    assert_eq!(create_edge_visual(&nodes, EdgeId(5), GraphId(1), NodeId(10), NodeId(12)), None);
    assert_eq!(create_edge_visual(&nodes, EdgeId(5), GraphId(1), NodeId(12), NodeId(11)), None);
    assert_eq!(
        create_edge_visual(&nodes, EdgeId(5), GraphId(1), NodeId(11), NodeId(11)),
        Some(EdgeVisualBundle::new(EdgeId(5), GraphId(1), EntityId(2), EntityId(2)))
    );

    let event = DomainEvent::EdgeAdded {
        graph_id: GraphId(1),
        edge_id: EdgeId(5),
        source: NodeId(11),
        target: NodeId(10),
        relationship: EdgeRelationship::ParentChild,
    };
    assert_eq!(
        materialize(&event, &nodes, &vec![]),
        vec![SceneAction::SpawnEdge {
            bundle: EdgeVisualBundle::new(EdgeId(5), GraphId(1), EntityId(2), EntityId(3)),
        }]
    );
    assert_eq!(materialize(&event, &vec![node(1, 10)], &vec![]), vec![]);
}

#[test]
fn edge_removal_and_metadata() {
    let edges = vec![edge(7, 1, 1, 2), edge(8, 2, 2, 3), edge(9, 1, 3, 1)];
    assert_eq!(remove_edge_visual(&edges, EdgeId(1)), vec![EntityId(7), EntityId(9)]);
    let removed = DomainEvent::EdgeRemoved { graph_id: GraphId(1), edge_id: EdgeId(2) };
    assert_eq!(
        materialize(&removed, &vec![], &edges),
        vec![SceneAction::Despawn { entity: EntityId(8) }]
    );
    let updated = DomainEvent::EdgeMetadataUpdated {
        graph_id: GraphId(1),
        edge_id: EdgeId(1),
        metadata: "{\"w\":1}".to_string(),
    };
    assert_eq!(
        materialize(&updated, &vec![], &edges),
        vec![
            SceneAction::SetMetadata { entity: EntityId(7), metadata: "{\"w\":1}".to_string() },
            SceneAction::SetMetadata { entity: EntityId(9), metadata: "{\"w\":1}".to_string() },
        ]
    );
}

#[test]
fn an_update_after_a_delete_changes_nothing() {
    let before = vec![node(1, 10), node(2, 11)];
    let delete = DomainEvent::NodeRemoved { graph_id: GraphId(1), node_id: NodeId(10) };
    assert_eq!(
        materialize(&delete, &before, &vec![]),
        vec![SceneAction::Despawn { entity: EntityId(1) }]
    );
    let after = vec![node(2, 11)];
    let late = DomainEvent::NodeMetadataUpdated {
        graph_id: GraphId(1),
        node_id: NodeId(10),
        metadata: "{\"label\":\"late\"}".to_string(),
    };
    assert_eq!(materialize(&late, &after, &vec![]), vec![]);
    assert_eq!(materialize(&delete, &after, &vec![]), vec![]);
    let live = DomainEvent::NodeMetadataUpdated {
        graph_id: GraphId(1),
        node_id: NodeId(11),
        metadata: "{}".to_string(),
    };
    assert_eq!(
        materialize(&live, &after, &vec![]),
        vec![SceneAction::SetMetadata { entity: EntityId(2), metadata: "{}".to_string() }]
    );
}
