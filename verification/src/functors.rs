//! The two mappings between the domain and the visual layer.
//!
//! One maps a domain object to its visual counterpart and keeps its
//! identity. The other maps what a user did to a visual entity to the
//! command that asks the domain for the same change.

use vstd::prelude::*;
use crate::components::{EdgeVisual, GraphVisual, LayoutType, NodeVisualBundle};
use crate::events::{EdgeRelationship, VisualizationCommand};
use crate::ids::{is_random_uuid, EdgeId, EntityId, GraphId, NodeId};
use crate::position::Position;

verus! {

/// Maps domain objects to their visual counterparts.
pub struct DomainToVisualFunctor;

impl DomainToVisualFunctor {
    /// The visual counterpart of a node: same node, same graph, at the given
    /// position.
    pub fn map_node(node_id: NodeId, graph_id: GraphId, position: Position) -> (bundle:
        NodeVisualBundle)
        ensures
            bundle.node.node_id == node_id,
            bundle.node.graph_id == graph_id,
            bundle.position == position,
    {
        NodeVisualBundle::new(node_id, graph_id, position)
    }

    /// The visual counterpart of an edge: same edge, same graph, between the
    /// given host entities.
    pub fn map_edge(
        edge_id: EdgeId,
        graph_id: GraphId,
        source_entity: EntityId,
        target_entity: EntityId,
    ) -> (edge: EdgeVisual)
        ensures
            edge == (EdgeVisual { edge_id, graph_id, source_entity, target_entity }),
    {
        EdgeVisual { edge_id, graph_id, source_entity, target_entity }
    }

    /// The visual counterpart of a graph. A graph starts out with the
    /// force-directed layout.
    pub fn map_graph(graph_id: GraphId) -> (graph: GraphVisual)
        ensures
            graph == (GraphVisual { graph_id, layout_type: LayoutType::ForceDirected }),
    {
        GraphVisual { graph_id, layout_type: LayoutType::ForceDirected }
    }
}

/// Maps what happened to a visual entity to a command for the domain.
pub struct VisualToDomainFunctor;

impl VisualToDomainFunctor {
    /// The command that moves a node to where its visual counterpart went.
    /// The command names a graph of its own, freshly drawn.
    pub fn map_position_change(node_id: NodeId, new_position: Position) -> (command:
        VisualizationCommand)
        ensures
            command matches VisualizationCommand::UpdateNodePosition {
                graph_id,
                node_id: moved,
                position,
            } && moved == node_id && position == new_position && is_random_uuid(graph_id.0),
    {
        VisualizationCommand::UpdateNodePosition {
            graph_id: GraphId::new(),
            node_id,
            position: new_position,
        }
    }

    /// The command that creates a node without metadata at `position`.
    pub fn map_node_creation(position: Position, graph_id: GraphId) -> (command:
        VisualizationCommand)
        ensures
            command == (VisualizationCommand::CreateNode { graph_id, position, metadata: None }),
    {
        VisualizationCommand::CreateNode { graph_id, position, metadata: None }
    }

    /// The command that connects two nodes by a generic edge.
    pub fn map_edge_creation(source: NodeId, target: NodeId, graph_id: GraphId) -> (command:
        VisualizationCommand)
        ensures
            command == (VisualizationCommand::CreateEdge {
                graph_id,
                source,
                target,
                relationship: EdgeRelationship::Connected,
            }),
    {
        VisualizationCommand::CreateEdge {
            graph_id,
            source,
            target,
            relationship: EdgeRelationship::Connected,
        }
    }
}

/// The kinds of visual operation that a command can correspond to.
#[derive(Debug, Clone, Copy, PartialEq, Eq, Structural)]
pub enum VisualOperation {
    /// A visual node is created.
    CreateNodeVisual,
    /// A visual edge is created.
    CreateEdgeVisual,
    /// Any other visual operation.
    Other,
}

/// Tells whether the two mappings agree.
pub struct NaturalTransformation;

impl NaturalTransformation {
    /// Whether a visual bundle stands for the given domain node.
    pub fn verify_node_preservation(node_id: NodeId, visual_bundle: &NodeVisualBundle) -> (kept:
        bool)
        ensures
            kept == (node_id == visual_bundle.node.node_id),
    {
        node_id == visual_bundle.node.node_id
    }

    /// What `verify_operation_preservation` answers.
    pub open spec fn operation_preserved(
        command: VisualizationCommand,
        operation: VisualOperation,
    ) -> bool {
        match command {
            VisualizationCommand::CreateNode { .. } => operation
                == VisualOperation::CreateNodeVisual,
            VisualizationCommand::CreateEdge { .. } => operation
                == VisualOperation::CreateEdgeVisual,
            _ => true,
        }
    }

    /// Whether a visual operation is the one that a command stands for: a
    /// command that creates a node goes with the creation of a visual node,
    /// one that creates an edge with the creation of a visual edge, and any
    /// other command with every operation.
    pub fn verify_operation_preservation(
        domain_command: &VisualizationCommand,
        visual_operation: VisualOperation,
    ) -> (kept: bool)
        ensures
            kept == Self::operation_preserved(*domain_command, visual_operation),
    {
        match domain_command {
            VisualizationCommand::CreateNode { .. } => matches!(
                visual_operation,
                VisualOperation::CreateNodeVisual
            ),
            VisualizationCommand::CreateEdge { .. } => matches!(
                visual_operation,
                VisualOperation::CreateEdgeVisual
            ),
            _ => true,
        }
    }
}

/// The two mappings, one after the other.
pub struct FunctorComposition;

impl FunctorComposition {
    /// From a domain node to its visual counterpart and back to a command:
    /// the command moves the same node to the same position.
    pub fn domain_visual_domain(node_id: NodeId, graph_id: GraphId, position: Position) -> (command:
        VisualizationCommand)
        ensures
            command matches VisualizationCommand::UpdateNodePosition {
                graph_id: named,
                node_id: moved,
                position: target,
            } && moved == node_id && target == position && is_random_uuid(named.0),
    {
        let visual = DomainToVisualFunctor::map_node(node_id, graph_id, position);
        VisualToDomainFunctor::map_position_change(visual.node.node_id, visual.position)
    }
}

/// The mapping that changes nothing.
pub struct IdentityMorphism;

impl IdentityMorphism {
    /// Hands back what it is given.
    pub fn map<T>(x: T) -> (y: T)
        ensures
            y == x,
    {
        x
    }
}

} // verus!
