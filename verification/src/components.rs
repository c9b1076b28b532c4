//! The values that describe a visual entity.
//!
//! Each domain object has one visual counterpart that keeps its identity: a
//! graph, a node, an edge. What the host adds for drawing is not held here.

use vstd::prelude::*;
use crate::ids::{EdgeId, EntityId, GraphId, NodeId};
use crate::position::Position;

verus! {

/// How the nodes of a graph are laid out.
#[derive(Debug, Clone, Copy, PartialEq, Eq, Hash, Structural)]
pub enum LayoutType {
    ForceDirected,
    Hierarchical,
    Circular,
    Grid,
    Random,
    Manual,
}

/// The visual counterpart of a graph.
#[derive(Debug, Clone, Copy, PartialEq, Eq, Structural)]
pub struct GraphVisual {
    pub graph_id: GraphId,
    pub layout_type: LayoutType,
}

/// The visual counterpart of a node.
#[derive(Debug, Clone, Copy, PartialEq, Eq, Structural)]
pub struct NodeVisual {
    pub node_id: NodeId,
    pub graph_id: GraphId,
}

/// The visual counterpart of an edge, with the host entities of its ends.
#[derive(Debug, Clone, Copy, PartialEq, Eq, Structural)]
pub struct EdgeVisual {
    pub edge_id: EdgeId,
    pub graph_id: GraphId,
    pub source_entity: EntityId,
    pub target_entity: EntityId,
}

/// What the host needs to spawn the visual counterpart of a node.
#[derive(Debug, Clone, Copy, PartialEq, Eq, Structural)]
pub struct NodeVisualBundle {
    pub node: NodeVisual,
    pub position: Position,
}

impl NodeVisualBundle {
    /// The bundle of the given node of the given graph at the given position.
    pub fn new(node_id: NodeId, graph_id: GraphId, position: Position) -> (bundle: Self)
        ensures
            bundle == (NodeVisualBundle { node: NodeVisual { node_id, graph_id }, position }),
    {
        NodeVisualBundle { node: NodeVisual { node_id, graph_id }, position }
    }
}

/// What the host needs to spawn the visual counterpart of an edge.
#[derive(Debug, Clone, Copy, PartialEq, Eq, Structural)]
pub struct EdgeVisualBundle {
    pub edge: EdgeVisual,
}

impl EdgeVisualBundle {
    /// The bundle of the given edge between two host entities.
    pub fn new(
        edge_id: EdgeId,
        graph_id: GraphId,
        source_entity: EntityId,
        target_entity: EntityId,
    ) -> (bundle: Self)
        ensures
            bundle == (EdgeVisualBundle {
                edge: EdgeVisual { edge_id, graph_id, source_entity, target_entity },
            }),
    {
        EdgeVisualBundle { edge: EdgeVisual { edge_id, graph_id, source_entity, target_entity } }
    }
}

/// What a deployment view shows.
#[derive(Debug, Clone, Copy, PartialEq, Eq, Structural)]
pub struct DeploymentVisualizationSettings {
    pub show_resource_usage: bool,
    pub show_dependencies: bool,
    pub show_network_connections: bool,
    pub animate_data_flow: bool,
    pub highlight_critical_path: bool,
}

impl Default for DeploymentVisualizationSettings {
    /// Everything that is static is shown; nothing is animated or
    /// highlighted.
    fn default() -> (settings: Self)
        ensures
            settings == (DeploymentVisualizationSettings {
                show_resource_usage: true,
                show_dependencies: true,
                show_network_connections: true,
                animate_data_flow: false,
                highlight_critical_path: false,
            }),
    {
        DeploymentVisualizationSettings {
            show_resource_usage: true,
            show_dependencies: true,
            show_network_connections: true,
            animate_data_flow: false,
            highlight_critical_path: false,
        }
    }
}

} // verus!
