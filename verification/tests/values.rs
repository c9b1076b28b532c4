use cim_domain_bevy::components::{
    DeploymentVisualizationSettings, EdgeVisualBundle, NodeVisual, NodeVisualBundle,
};
use cim_domain_bevy::component_sync::NatsSyncedEntity;
use cim_domain_bevy::events::{
    CreateNodeVisual, NodeClicked, NodeDragEnd, NodeDragStart, RemoveNodeVisual,
    RequestEdgeCreation, RequestNodeCreation, SelectionChanged, VisualizationCommand,
    DomainEvent, EdgeRelationship,
};
use cim_domain_bevy::functors::{
    DomainToVisualFunctor, FunctorComposition, IdentityMorphism, NaturalTransformation,
    VisualOperation, VisualToDomainFunctor,
};
use cim_domain_bevy::components::{GraphVisual, LayoutType};
use cim_domain_bevy::ids::{EdgeId, EntityId, GraphId, NodeId};
use cim_domain_bevy::position::{finite_bits, Position};
use cim_domain_bevy::resources::{ActiveGraph, BoundingBox, NodeEntityMap, Selection, SpatialIndex};
use cim_domain_bevy::time::cutoff_before;

fn position(x: f32, y: f32, z: f32) -> Position {
    Position::new(x.to_bits(), y.to_bits(), z.to_bits())
}

const VERSION_AND_VARIANT: u128 = 0x0000_0000_0000_f000_c000_0000_0000_0000;
const RANDOM_UUID: u128 = 0x0000_0000_0000_4000_8000_0000_0000_0000;

#[test]
fn test_node_visual_bundle_creation() {
    let node_id = NodeId::new();
    let graph_id = GraphId::new();
    let position = position(1.0, 2.0, 3.0);

    let bundle = NodeVisualBundle::new(node_id, graph_id, position);

    assert_eq!(bundle.node.node_id, node_id);
    assert_eq!(bundle.node.graph_id, graph_id);
    assert_eq!(bundle.position, position);
}

#[test]
fn test_edge_visual_bundle_creation() {
    let edge_id = EdgeId::new();
    let graph_id = GraphId::new();
    let source = EntityId(1);
    let target = EntityId(2);

    let bundle = EdgeVisualBundle::new(edge_id, graph_id, source, target);

    assert_eq!(bundle.edge.edge_id, edge_id);
    assert_eq!(bundle.edge.graph_id, graph_id);
    assert_eq!(bundle.edge.source_entity, source);
    assert_eq!(bundle.edge.target_entity, target);
}

#[test]
fn test_event_creation() {
    let entity = EntityId(1);
    let node_id = NodeId::new();
    let graph_id = GraphId::new();

    let event = NodeClicked { entity, node_id, graph_id, world_position: position(0.0, 0.0, 0.0) };

    assert_eq!(event.entity, entity);
    assert_eq!(event.node_id, node_id);
    assert_eq!(event.graph_id, graph_id);
}

#[test]
fn test_selection_events() {
    let graph_id = GraphId::new();
    let node_id = NodeId::new();
    let entity = EntityId(1);

    let selection_changed = SelectionChanged {
        selected_nodes: vec![(entity, node_id)],
        selected_edges: vec![],
        graph_id,
    };

    assert_eq!(selection_changed.selected_nodes.len(), 1);
    assert_eq!(selection_changed.selected_edges.len(), 0);
    assert_eq!(selection_changed.graph_id, graph_id);
}

#[test]
fn test_identity_preservation() {
    let node_id = NodeId::new();
    let graph_id = GraphId::new();
    let position = position(0.0, 0.0, 0.0);

    let visual = NodeVisualBundle::new(node_id, graph_id, position);
    assert_eq!(visual.node.node_id, node_id);
    assert_eq!(visual.node.graph_id, graph_id);
}

#[test]
fn test_composition_preservation() {
}

#[test]
fn test_nats_synced_entity() {
    let entity_id = NodeId::new().0;
    let synced = NatsSyncedEntity { entity_id };
    assert_eq!(synced.entity_id, entity_id);
}

#[test]
fn test_selection_operations() {
    let mut selection = Selection::default();
    let entity = EntityId(1);
    let node_id = NodeId::new();

    selection.nodes.push((entity, node_id));

    assert!(!selection.is_empty());
    assert!(selection.contains_node(&node_id));

    selection.clear();
    assert!(selection.is_empty());
}

#[test]
fn test_domain_to_visual_functor_preserves_identity() {
    let node_id = NodeId::new();
    let graph_id = GraphId::new();
    let position = position(1.0, 2.0, 3.0);

    let visual_bundle = NodeVisualBundle::new(node_id, graph_id, position);

    assert_eq!(visual_bundle.node.node_id, node_id);
    assert_eq!(visual_bundle.node.graph_id, graph_id);
    assert_eq!(visual_bundle.position, position);
}

#[test]
fn test_visual_to_domain_functor_preserves_operations() {
    let node_id = NodeId::new();
    let new_position = position(5.0, 6.0, 7.0);

    let command = CreateNodeVisual {
        node_id,
        graph_id: GraphId::new(),
        position: new_position,
        metadata: "Test Node".to_string(),
    };

    assert_eq!(command.node_id, node_id);
    assert_eq!(command.position, new_position);
}

#[test]
fn test_functor_composition_identity() {
    let node_id = NodeId::new();
    let graph_id = GraphId::new();
    let position = position(1.0, 2.0, 3.0);

    let visual = NodeVisualBundle::new(node_id, graph_id, position);

    assert_eq!(visual.node.node_id, node_id);
    assert_eq!(visual.node.graph_id, graph_id);
    assert_eq!(visual.position, position);
}

#[test]
fn test_morphism_preservation() {
    let entity = EntityId(42);
    let node_id = NodeId::new();

    let click_event = NodeClicked {
        entity,
        node_id,
        graph_id: GraphId::new(),
        world_position: position(0.0, 0.0, 0.0),
    };

    assert_eq!(click_event.entity, entity);
    assert_eq!(click_event.node_id, node_id);
}

#[test]
fn test_event_morphism_categories() {
    let create_node = CreateNodeVisual {
        node_id: NodeId::new(),
        graph_id: GraphId::new(),
        position: position(0.0, 0.0, 0.0),
        metadata: "Test".to_string(),
    };

    let remove_node = RemoveNodeVisual { node_id: NodeId::new(), graph_id: GraphId::new() };

    let node_drag = NodeDragStart {
        entity: EntityId(1),
        node_id: NodeId::new(),
        graph_id: GraphId::new(),
        start_position: position(0.0, 0.0, 0.0),
    };

    assert_eq!(create_node.node_id, create_node.node_id);
    assert_eq!(remove_node.node_id, remove_node.node_id);
    assert_eq!(node_drag.start_position, position(0.0, 0.0, 0.0));
}

#[test]
fn test_component_value_object_semantics() {
    let node_visual = NodeVisual { node_id: NodeId::new(), graph_id: GraphId::new() };

    let node_visual_clone = node_visual.clone();

    assert_eq!(node_visual.node_id, node_visual_clone.node_id);
    assert_eq!(node_visual.graph_id, node_visual_clone.graph_id);
}

#[test]
fn test_bundle_composition() {
    let node_id = NodeId::new();
    let graph_id = GraphId::new();
    let position = position(1.0, 2.0, 3.0);

    let bundle = NodeVisualBundle::new(node_id, graph_id, position);

    assert_eq!(bundle.node.node_id, node_id);
    assert_eq!(bundle.position, position);
}

#[test]
fn fresh_identifiers_are_random_uuids() {
    for _ in 0..32 {
        assert_eq!(NodeId::new().0 & VERSION_AND_VARIANT, RANDOM_UUID);
        assert_eq!(EdgeId::new().0 & VERSION_AND_VARIANT, RANDOM_UUID);
        assert_eq!(GraphId::new().0 & VERSION_AND_VARIANT, RANDOM_UUID);
    }
    assert_ne!(NodeId::new(), NodeId::new());
}

#[test]
fn finite_coordinates_are_valid() {
    assert!(position(1.0, 2.0, 3.0).is_valid());
    assert!(position(0.0, -0.0, f32::MAX).is_valid());
    assert!(position(f32::MIN_POSITIVE, f32::MIN, 1.0e-40).is_valid());
    assert!(!position(f32::NAN, 0.0, 0.0).is_valid());
    assert!(!position(0.0, f32::INFINITY, 0.0).is_valid());
    assert!(!position(0.0, 0.0, f32::NEG_INFINITY).is_valid());
    assert!(finite_bits(0x7f7f_ffff));
    assert!(!finite_bits(0x7f80_0000));
    assert!(!finite_bits(0xffc0_0000));
}

#[test]
fn finite_bits_agrees_with_the_float_type() {
    let mut bits: u32 = 0;
    loop {
        assert_eq!(finite_bits(bits), f32::from_bits(bits).is_finite());
        match bits.checked_add(0x0001_0001) {
            Some(next) => bits = next,
            None => break,
        }
    }
}

#[test]
fn functors_keep_identity() {
    let node = NodeId(11);
    let graph = GraphId(22);
    let at = position(1.0, 2.0, 3.0);
    let bundle = DomainToVisualFunctor::map_node(node, graph, at);
    assert_eq!(bundle, NodeVisualBundle::new(node, graph, at));
    assert!(NaturalTransformation::verify_node_preservation(node, &bundle));
    assert!(!NaturalTransformation::verify_node_preservation(NodeId(12), &bundle));

    let edge = DomainToVisualFunctor::map_edge(EdgeId(5), graph, EntityId(1), EntityId(2));
    assert_eq!(edge.edge_id, EdgeId(5));
    assert_eq!(edge.graph_id, graph);
    assert_eq!(edge.source_entity, EntityId(1));
    assert_eq!(edge.target_entity, EntityId(2));

    assert_eq!(
        DomainToVisualFunctor::map_graph(graph),
        GraphVisual { graph_id: graph, layout_type: LayoutType::ForceDirected }
    );
    assert_eq!(IdentityMorphism::map(17u8), 17u8);
}

#[test]
fn functors_build_commands() {
    let at = position(4.0, 5.0, 6.0);
    assert_eq!(
        VisualToDomainFunctor::map_node_creation(at, GraphId(3)),
        VisualizationCommand::CreateNode { graph_id: GraphId(3), position: at, metadata: None }
    );
    assert_eq!(
        VisualToDomainFunctor::map_edge_creation(NodeId(1), NodeId(2), GraphId(3)),
        VisualizationCommand::CreateEdge {
            graph_id: GraphId(3),
            source: NodeId(1),
            target: NodeId(2),
            relationship: EdgeRelationship::Connected,
        }
    );
    match VisualToDomainFunctor::map_position_change(NodeId(9), at) {
        VisualizationCommand::UpdateNodePosition { graph_id, node_id, position } => {
            assert_eq!(node_id, NodeId(9));
            assert_eq!(position, at);
            assert_eq!(graph_id.0 & VERSION_AND_VARIANT, RANDOM_UUID);
        }
        other => panic!("not a move: {:?}", other),
    }
    match FunctorComposition::domain_visual_domain(NodeId(9), GraphId(3), at) {
        VisualizationCommand::UpdateNodePosition { node_id, position, .. } => {
            assert_eq!(node_id, NodeId(9));
            assert_eq!(position, at);
        }
        other => panic!("not a move: {:?}", other),
    }
}

#[test]
fn operations_are_preserved_by_kind() {
    let create_node =
        VisualizationCommand::CreateNode { graph_id: GraphId(1), position: position(0.0, 0.0, 0.0), metadata: None };
    let create_edge = VisualizationCommand::CreateEdge {
        graph_id: GraphId(1),
        source: NodeId(1),
        target: NodeId(2),
        relationship: EdgeRelationship::DataFlow,
    };
    let delete = VisualizationCommand::DeleteNode { graph_id: GraphId(1), node_id: NodeId(1) };
    let check = NaturalTransformation::verify_operation_preservation;
    assert!(check(&create_node, VisualOperation::CreateNodeVisual));
    assert!(!check(&create_node, VisualOperation::CreateEdgeVisual));
    assert!(!check(&create_node, VisualOperation::Other));
    assert!(check(&create_edge, VisualOperation::CreateEdgeVisual));
    assert!(!check(&create_edge, VisualOperation::CreateNodeVisual));
    assert!(check(&delete, VisualOperation::Other));
    assert!(check(&delete, VisualOperation::CreateNodeVisual));
}

#[test]
fn requests_become_commands() {
    let at = position(1.0, 0.0, -1.0);
    assert_eq!(
        RequestNodeCreation { graph_id: GraphId(1), position: at, metadata: "{}".to_string() }
            .into_command(),
        VisualizationCommand::CreateNode {
            graph_id: GraphId(1),
            position: at,
            metadata: Some("{}".to_string()),
        }
    );
    assert_eq!(
        RequestEdgeCreation {
            graph_id: GraphId(1),
            source_id: NodeId(2),
            target_id: NodeId(3),
            relationship: EdgeRelationship::DependsOn,
        }
        .into_command(),
        VisualizationCommand::CreateEdge {
            graph_id: GraphId(1),
            source: NodeId(2),
            target: NodeId(3),
            relationship: EdgeRelationship::DependsOn,
        }
    );
    assert_eq!(
        NodeDragEnd { entity: EntityId(4), node_id: NodeId(2), graph_id: GraphId(1), new_position: at }
            .into_command(),
        VisualizationCommand::UpdateNodePosition { graph_id: GraphId(1), node_id: NodeId(2), position: at }
    );
}

#[test]
fn messages_name_their_graph() {
    let event = DomainEvent::EdgeRemoved { graph_id: GraphId(5), edge_id: EdgeId(1) };
    assert_eq!(event.graph_id(), GraphId(5));
    let event = DomainEvent::NodeMetadataUpdated {
        graph_id: GraphId(6),
        node_id: NodeId(1),
        metadata: "{}".to_string(),
    };
    assert_eq!(event.graph_id(), GraphId(6));
    let command = VisualizationCommand::DeleteEdge { graph_id: GraphId(8), edge_id: EdgeId(1) };
    assert_eq!(command.graph_id(), GraphId(8));
}

#[test]
fn selection_finds_nodes_and_edges() {
    let mut selection = Selection::default();
    assert!(selection.is_empty());
    selection.nodes.push((EntityId(1), NodeId(10)));
    selection.edges.push((EntityId(2), EdgeId(20)));
    assert!(selection.contains_node(&NodeId(10)));
    assert!(!selection.contains_node(&NodeId(20)));
    assert!(selection.contains_edge(&EdgeId(20)));
    assert!(!selection.contains_edge(&EdgeId(10)));
    selection.nodes.clear();
    assert!(!selection.is_empty());
    selection.clear();
    assert!(selection.is_empty());
    assert!(!selection.contains_edge(&EdgeId(20)));
}

#[test]
fn spatial_index_keeps_the_latest_bounds() {
    let mut index = SpatialIndex::default();
    assert_eq!(index.get_bounds(&GraphId(1)), None);
    let small = BoundingBox::new(position(0.0, 0.0, 0.0), position(1.0, 1.0, 1.0));
    let large = BoundingBox::new(position(-5.0, -5.0, -5.0), position(5.0, 5.0, 5.0));
    index.update_bounds(GraphId(1), small);
    index.update_bounds(GraphId(2), large);
    assert_eq!(index.get_bounds(&GraphId(1)), Some(&small));
    index.update_bounds(GraphId(1), large);
    assert_eq!(index.get_bounds(&GraphId(1)), Some(&large));
    assert_eq!(index.get_bounds(&GraphId(3)), None);
}

#[test]
fn node_entity_map_keeps_the_latest_entity() {
    let mut map = NodeEntityMap::default();
    assert_eq!(map.get(&NodeId(1)), None);
    map.insert(NodeId(1), EntityId(7));
    map.insert(NodeId(2), EntityId(8));
    map.insert(NodeId(1), EntityId(9));
    assert_eq!(map.get(&NodeId(1)), Some(&EntityId(9)));
    assert_eq!(map.get(&NodeId(2)), Some(&EntityId(8)));
}

#[test]
fn defaults_are_as_documented() {
    assert_eq!(ActiveGraph::default().graph_id, None);
    assert_eq!(
        DeploymentVisualizationSettings::default(),
        DeploymentVisualizationSettings {
            show_resource_usage: true,
            show_dependencies: true,
            show_network_connections: true,
            animate_data_flow: false,
            highlight_critical_path: false,
        }
    );
}

#[test]
fn cutoff_goes_back_whole_seconds() {
    assert_eq!(cutoff_before(1_000_000, 300), 700_000);
    assert_eq!(cutoff_before(0, 1), -1000);
    assert_eq!(cutoff_before(5, 0), 5);
    assert_eq!(cutoff_before(i64::MIN + 999, 1), i64::MIN);
    assert_eq!(cutoff_before(i64::MIN + 1000, 1), i64::MIN);
    assert_eq!(cutoff_before(i64::MAX, u64::MAX), i64::MIN);
    assert_eq!(cutoff_before(i64::MAX, 9_223_372_036_854_775), 807);
}
