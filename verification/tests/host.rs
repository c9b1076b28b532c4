use cim_domain_bevy::component_sync::{
    component_kind, find_synced, process_nats_component_event, ComponentEvent, ComponentKind,
    EcsComponentData, NatsSyncedEntity, PendingComponentUpdate, SyncAction, SyncedEntity,
};
use cim_domain_bevy::edge_systems::{
    handle_edge_state_change, highlight_connected_edges, EdgeEntry, EdgeStateChanged, FlowDirection,
};
use cim_domain_bevy::handlers::{
    handle_delete_visual_node, handle_move_node, handle_select_node, DeleteVisualNode, MoveNode,
    NodeDeselected, NodeMoved, NodeSelected, NodeState, SelectNode, SelectionChange,
    VisualNodeDeleted,
};
use cim_domain_bevy::ids::{EdgeId, EntityId, GraphId, NodeId};
use cim_domain_bevy::layout::{GraphLayoutState, LayoutType, SetLayoutAlgorithm};
use cim_domain_bevy::position::Position;
use cim_domain_bevy::projections::{
    update_graph_projection, update_spatial_index, GraphViewProjection, NodeView,
    ProjectionEvents, SpatialIndexProjection, VisualEdgeCreated, VisualEdgeDeleted,
    VisualNodeCreated,
};
use cim_domain_bevy::queries::{
    query_edges_for_node, query_graph_statistics, query_selected_nodes, GraphStatistics,
};
use cim_domain_bevy::resources::ActiveGraph;

fn position(x: f32, y: f32, z: f32) -> Position {
    Position::new(x.to_bits(), y.to_bits(), z.to_bits())
}

fn node(entity: u64, id: u128, selected: bool) -> NodeState {
    NodeState {
        entity: EntityId(entity),
        node_id: NodeId(id),
        position: position(entity as f32, 0.0, 0.0),
        is_selected: selected,
    }
}

#[test]
fn move_takes_the_first_node_of_that_name() {
    let nodes = vec![node(1, 10, false), node(2, 11, false), node(3, 11, false)];
    let to = position(5.0, 6.0, 7.0);
    assert_eq!(
        handle_move_node(&nodes, &MoveNode { node_id: NodeId(11), new_position: to, animate: true }),
        Some(NodeMoved {
            entity: EntityId(2),
            node_id: NodeId(11),
            old_position: position(2.0, 0.0, 0.0),
            new_position: to,
        })
    );
    assert_eq!(
        handle_move_node(&nodes, &MoveNode { node_id: NodeId(12), new_position: to, animate: false }),
        None
    );
    let nowhere = position(f32::NAN, 0.0, 0.0);
    assert_eq!(
        handle_move_node(&nodes, &MoveNode { node_id: NodeId(11), new_position: nowhere, animate: false }),
        None
    );
    let far = position(0.0, f32::INFINITY, 0.0);
    assert_eq!(
        handle_move_node(&nodes, &MoveNode { node_id: NodeId(10), new_position: far, animate: false }),
        None
    );
}

#[test]
fn delete_keeps_the_last_position() {
    let nodes = vec![node(1, 10, false), node(2, 11, false), node(3, 11, false)];
    assert_eq!(
        handle_delete_visual_node(&nodes, &DeleteVisualNode { node_id: NodeId(11) }),
        Some((
            EntityId(2),
            VisualNodeDeleted { node_id: NodeId(11), final_position: position(2.0, 0.0, 0.0) }
        ))
    );
    assert_eq!(handle_delete_visual_node(&nodes, &DeleteVisualNode { node_id: NodeId(9) }), None);
    assert_eq!(handle_delete_visual_node(&vec![], &DeleteVisualNode { node_id: NodeId(10) }), None);
}

#[test]
fn single_selection_deselects_the_others() {
    let nodes = vec![node(1, 10, true), node(2, 11, false), node(3, 12, true), node(4, 11, true)];
    assert_eq!(
        handle_select_node(&nodes, &SelectNode { node_id: NodeId(11), multi_select: false }),
        SelectionChange {
            deselected: vec![
                NodeDeselected { entity: EntityId(1), node_id: NodeId(10) },
                NodeDeselected { entity: EntityId(3), node_id: NodeId(12) },
            ],
            selected: Some(NodeSelected { entity: EntityId(2), node_id: NodeId(11) }),
        }
    );
    assert_eq!(
        handle_select_node(&nodes, &SelectNode { node_id: NodeId(11), multi_select: true }),
        SelectionChange {
            deselected: vec![],
            selected: Some(NodeSelected { entity: EntityId(2), node_id: NodeId(11) }),
        }
    );
    assert_eq!(
        handle_select_node(&nodes, &SelectNode { node_id: NodeId(10), multi_select: false }),
        SelectionChange {
            deselected: vec![
                NodeDeselected { entity: EntityId(3), node_id: NodeId(12) },
                NodeDeselected { entity: EntityId(4), node_id: NodeId(11) },
            ],
            selected: None,
        }
    );
    assert_eq!(
        handle_select_node(&nodes, &SelectNode { node_id: NodeId(99), multi_select: true }),
        SelectionChange { deselected: vec![], selected: None }
    );
}

#[test]
fn queries_filter_in_host_order() {
    let nodes = vec![node(1, 10, true), node(2, 11, false), node(3, 12, true)];
    assert_eq!(
        query_selected_nodes(&nodes),
        vec![(EntityId(1), NodeId(10)), (EntityId(3), NodeId(12))]
    );
    let edge = |entity: u64, id: u128, source: u64, target: u64| cim_domain_bevy::queries::EdgeState {
        entity: EntityId(entity),
        edge_id: EdgeId(id),
        source: EntityId(source),
        target: EntityId(target),
    };
    let edges = vec![edge(7, 1, 1, 2), edge(8, 2, 2, 3), edge(9, 3, 3, 1), edge(6, 4, 1, 1)];
    assert_eq!(
        query_edges_for_node(EntityId(1), &edges),
        vec![(EntityId(7), EdgeId(1)), (EntityId(9), EdgeId(3)), (EntityId(6), EdgeId(4))]
    );
    assert_eq!(query_edges_for_node(EntityId(5), &edges), vec![]);
    assert_eq!(
        query_graph_statistics(&nodes, &edges),
        GraphStatistics { node_count: 3, edge_count: 4, selected_count: 2 }
    );
    assert_eq!(
        query_graph_statistics(&vec![], &vec![]),
        GraphStatistics { node_count: 0, edge_count: 0, selected_count: 0 }
    );
}

fn state() -> cim_domain_bevy::edge_systems::EdgeState {
    cim_domain_bevy::edge_systems::EdgeState {
        is_highlighted: false,
        is_active: true,
        weight: 1.0f32.to_bits(),
        flow_direction: FlowDirection::Forward,
    }
}

fn entry(id: u128, source: u64, target: u64, highlighted: bool) -> EdgeEntry {
    let mut state = state();
    state.is_highlighted = highlighted;
    EdgeEntry { edge_id: EdgeId(id), source_entity: EntityId(source), target_entity: EntityId(target), state }
}

#[test]
fn edges_at_selected_nodes_are_highlighted() {
    let mut edges = vec![entry(1, 1, 2, false), entry(2, 2, 3, true), entry(3, 3, 4, true), entry(4, 4, 1, false)];
    highlight_connected_edges(&vec![EntityId(1), EntityId(9)], &mut edges);
    assert_eq!(
        edges,
        vec![entry(1, 1, 2, true), entry(2, 2, 3, false), entry(3, 3, 4, false), entry(4, 4, 1, true)]
    );
    highlight_connected_edges(&vec![], &mut edges);
    assert_eq!(
        edges,
        vec![entry(1, 1, 2, false), entry(2, 2, 3, false), entry(3, 3, 4, false), entry(4, 4, 1, false)]
    );
}

#[test]
fn state_change_takes_the_first_edge_of_that_name() {
    let mut edges = vec![entry(1, 1, 2, false), entry(2, 2, 3, false), entry(2, 3, 4, false)];
    let mut new_state = state();
    new_state.is_active = false;
    new_state.weight = 0.5f32.to_bits();
    new_state.flow_direction = FlowDirection::Bidirectional;
    handle_edge_state_change(&EdgeStateChanged { edge_id: EdgeId(2), new_state }, &mut edges);
    let mut changed = entry(2, 2, 3, false);
    changed.state = new_state;
    assert_eq!(edges, vec![entry(1, 1, 2, false), changed, entry(2, 3, 4, false)]);
    let before = edges.clone();
    handle_edge_state_change(&EdgeStateChanged { edge_id: EdgeId(9), new_state }, &mut edges);
    assert_eq!(edges, before);
}

#[test]
fn layout_is_chosen_per_graph() {
    let mut layouts = GraphLayoutState::default();
    let none = ActiveGraph::default();
    let first = ActiveGraph { graph_id: Some(GraphId(1)) };
    let second = ActiveGraph { graph_id: Some(GraphId(2)) };
    assert_eq!(layouts.apply_layout_algorithm(&none), None);
    assert_eq!(layouts.apply_layout_algorithm(&first), Some(LayoutType::ForceDirected));

    layouts.handle_layout_command(&SetLayoutAlgorithm { graph_id: GraphId(1), layout_type: LayoutType::Grid });
    assert_eq!(layouts.apply_layout_algorithm(&first), Some(LayoutType::Grid));
    assert_eq!(layouts.apply_layout_algorithm(&second), Some(LayoutType::ForceDirected));

    layouts.update_layout_from_hints(&second);
    assert_eq!(layouts.apply_layout_algorithm(&second), Some(LayoutType::ForceDirected));
    layouts.set_hint(GraphId(2), LayoutType::Circular);
    layouts.set_hint(GraphId(1), LayoutType::Hierarchical);
    layouts.update_layout_from_hints(&none);
    assert_eq!(layouts.apply_layout_algorithm(&second), Some(LayoutType::ForceDirected));
    layouts.update_layout_from_hints(&second);
    assert_eq!(layouts.apply_layout_algorithm(&second), Some(LayoutType::Circular));
    assert_eq!(layouts.apply_layout_algorithm(&first), Some(LayoutType::Grid));
    layouts.update_layout_from_hints(&first);
    assert_eq!(layouts.apply_layout_algorithm(&first), Some(LayoutType::Hierarchical));
}

fn data(kind: &str, json: &str) -> EcsComponentData {
    EcsComponentData { component_type: kind.to_string(), data: serde_json::from_str(json).unwrap() }
}

fn synced(entity: u64, id: u128) -> SyncedEntity {
    SyncedEntity { entity: EntityId(entity), synced: NatsSyncedEntity { entity_id: id } }
}

#[test]
fn component_kinds_go_by_name() {
    assert_eq!(component_kind(&"Position3D".to_string()), ComponentKind::Position3D);
    assert_eq!(component_kind(&"Label".to_string()), ComponentKind::Label);
    assert_eq!(component_kind(&"WorkflowStateComponent".to_string()), ComponentKind::WorkflowState);
    assert_eq!(component_kind(&"UnknownComponent".to_string()), ComponentKind::Unknown);
    assert_eq!(component_kind(&"label".to_string()), ComponentKind::Unknown);
    assert_eq!(component_kind(&"".to_string()), ComponentKind::Unknown);
}

#[test]
fn component_goes_to_the_synced_entity_or_a_new_one() {
    let entities = vec![synced(1, 100), synced(2, 200), synced(3, 200)];
    assert_eq!(find_synced(&entities, 200), Some(EntityId(2)));
    assert_eq!(find_synced(&entities, 300), None);

    let position = data("Position3D", "{\"x\": 5.0, \"y\": 10.0, \"z\": 15.0}");
    assert_eq!(
        process_nats_component_event(
            ComponentEvent::Added { entity_id: 200, component_data: position.clone() },
            &entities
        ),
        SyncAction::InsertPending {
            entity: EntityId(2),
            update: PendingComponentUpdate { component_data: position.clone() },
        }
    );
    assert_eq!(
        process_nats_component_event(
            ComponentEvent::Updated { entity_id: 100, component_data: position.clone() },
            &entities
        ),
        SyncAction::InsertPending {
            entity: EntityId(1),
            update: PendingComponentUpdate { component_data: position.clone() },
        }
    );
    let label = data("Label", "{\"text\": \"Test Node\"}");
    assert_eq!(
        process_nats_component_event(
            ComponentEvent::Updated { entity_id: 300, component_data: label.clone() },
            &entities
        ),
        SyncAction::Spawn {
            synced: NatsSyncedEntity { entity_id: 300 },
            update: PendingComponentUpdate { component_data: label },
        }
    );
    assert_eq!(
        process_nats_component_event(
            ComponentEvent::Removed { entity_id: 200, component_type: "Label".to_string() },
            &entities
        ),
        SyncAction::ReportRemoved { entity: EntityId(2), component_type: "Label".to_string() }
    );
    assert_eq!(
        process_nats_component_event(
            ComponentEvent::Removed { entity_id: 300, component_type: "Label".to_string() },
            &entities
        ),
        SyncAction::Ignore
    );
}

fn no_events() -> ProjectionEvents {
    ProjectionEvents {
        node_created: vec![],
        edge_created: vec![],
        node_moved: vec![],
        node_selected: vec![],
        node_deselected: vec![],
        node_deleted: vec![],
        edge_deleted: vec![],
    }
}

#[test]
fn projection_follows_the_events_of_a_tick() {
    let mut projection = GraphViewProjection::default();
    let mut tick = no_events();
    tick.node_created = vec![
        VisualNodeCreated { entity: EntityId(1), node_id: NodeId(10), position: position(1.0, 0.0, 0.0) },
        VisualNodeCreated { entity: EntityId(2), node_id: NodeId(11), position: position(2.0, 0.0, 0.0) },
        VisualNodeCreated { entity: EntityId(3), node_id: NodeId(12), position: position(3.0, 0.0, 0.0) },
    ];
    tick.edge_created = vec![
        VisualEdgeCreated { entity: EntityId(7), edge_id: EdgeId(1), source_entity: EntityId(1), target_entity: EntityId(2) },
        VisualEdgeCreated { entity: EntityId(8), edge_id: EdgeId(2), source_entity: EntityId(2), target_entity: EntityId(3) },
    ];
    tick.node_moved = vec![
        NodeMoved { entity: EntityId(1), node_id: NodeId(10), old_position: position(1.0, 0.0, 0.0), new_position: position(9.0, 9.0, 9.0) },
        NodeMoved { entity: EntityId(5), node_id: NodeId(99), old_position: position(0.0, 0.0, 0.0), new_position: position(1.0, 1.0, 1.0) },
    ];
    tick.node_selected = vec![
        NodeSelected { entity: EntityId(1), node_id: NodeId(10) },
        NodeSelected { entity: EntityId(2), node_id: NodeId(11) },
        NodeSelected { entity: EntityId(3), node_id: NodeId(12) },
    ];
    tick.node_deselected = vec![NodeDeselected { entity: EntityId(2), node_id: NodeId(11) }];
    tick.node_deleted = vec![VisualNodeDeleted { node_id: NodeId(12), final_position: position(3.0, 0.0, 0.0) }];
    tick.edge_deleted = vec![VisualEdgeDeleted { edge_id: EdgeId(2) }];
    update_graph_projection(&mut projection, &tick);

    assert_eq!(
        projection.node(NodeId(10)),
        Some(NodeView { entity: EntityId(1), position: position(9.0, 9.0, 9.0), is_selected: true })
    );
    assert_eq!(
        projection.node(NodeId(11)),
        Some(NodeView { entity: EntityId(2), position: position(2.0, 0.0, 0.0), is_selected: false })
    );
    assert_eq!(projection.node(NodeId(12)), None);
    assert_eq!(projection.node(NodeId(99)), None);
    assert!(projection.is_selected(NodeId(10)));
    assert!(!projection.is_selected(NodeId(11)));
    assert!(!projection.is_selected(NodeId(12)));
    assert_eq!(projection.edge(EdgeId(1)).map(|edge| edge.entity), Some(EntityId(7)));
    assert_eq!(projection.edge(EdgeId(2)), None);

    let mut late = no_events();
    late.node_moved = vec![NodeMoved {
        entity: EntityId(3),
        node_id: NodeId(12),
        old_position: position(3.0, 0.0, 0.0),
        new_position: position(4.0, 0.0, 0.0),
    }];
    update_graph_projection(&mut projection, &late);
    assert_eq!(projection.node(NodeId(12)), None);
}

#[test]
fn selecting_an_unknown_node_is_remembered() {
    let mut projection = GraphViewProjection::default();
    projection.apply_node_selected(&NodeSelected { entity: EntityId(1), node_id: NodeId(10) });
    assert!(projection.is_selected(NodeId(10)));
    assert_eq!(projection.node(NodeId(10)), None);
    projection.apply_node_created(&VisualNodeCreated {
        entity: EntityId(1),
        node_id: NodeId(10),
        position: position(0.0, 0.0, 0.0),
    });
    assert_eq!(projection.node(NodeId(10)).map(|view| view.is_selected), Some(false));
    projection.apply_node_deselected(&NodeDeselected { entity: EntityId(1), node_id: NodeId(10) });
    assert!(!projection.is_selected(NodeId(10)));
}

#[test]
fn spatial_index_follows_the_events_of_a_tick() {
    let mut index = SpatialIndexProjection::default();
    index.node_positions.push((NodeId(1), position(1.0, 0.0, 0.0)));
    let created = vec![
        VisualNodeCreated { entity: EntityId(2), node_id: NodeId(2), position: position(2.0, 0.0, 0.0) },
        VisualNodeCreated { entity: EntityId(3), node_id: NodeId(3), position: position(3.0, 0.0, 0.0) },
        VisualNodeCreated { entity: EntityId(4), node_id: NodeId(2), position: position(4.0, 0.0, 0.0) },
    ];
    let moved = vec![
        NodeMoved { entity: EntityId(2), node_id: NodeId(2), old_position: position(2.0, 0.0, 0.0), new_position: position(5.0, 0.0, 0.0) },
        NodeMoved { entity: EntityId(9), node_id: NodeId(9), old_position: position(0.0, 0.0, 0.0), new_position: position(6.0, 0.0, 0.0) },
    ];
    update_spatial_index(&mut index, &created, &moved, &vec![]);
    assert_eq!(
        index.node_positions,
        vec![
            (NodeId(1), position(1.0, 0.0, 0.0)),
            (NodeId(2), position(5.0, 0.0, 0.0)),
            (NodeId(3), position(3.0, 0.0, 0.0)),
            (NodeId(2), position(4.0, 0.0, 0.0)),
        ]
    );
    let deleted = vec![
        VisualNodeDeleted { node_id: NodeId(2), final_position: position(5.0, 0.0, 0.0) },
        VisualNodeDeleted { node_id: NodeId(7), final_position: position(0.0, 0.0, 0.0) },
    ];
    update_spatial_index(&mut index, &vec![], &vec![], &deleted);
    assert_eq!(
        index.node_positions,
        vec![(NodeId(1), position(1.0, 0.0, 0.0)), (NodeId(3), position(3.0, 0.0, 0.0))]
    );
}
