//! The messages that cross the boundary between the domain and the visual
//! layer.
//!
//! Domain events describe what happened in the graph and travel towards the
//! visual layer. Visualization commands ask for a change of the graph and
//! travel back. Both sets are closed: a message is one of the variants below
//! and holds everything a receiver needs to act on it. A message is a plain
//! value; it is moved, never shared.

use vstd::prelude::*;
use crate::components::LayoutType;
use crate::ids::{EdgeId, EntityId, GraphId, NodeId};
use crate::position::Position;

verus! {

/// How two nodes are related by an edge.
#[derive(Debug, Clone, PartialEq, Eq, Hash)]
pub enum EdgeRelationship {
    /// Generic connection.
    Connected,
    /// Parent and child in a hierarchy.
    ParentChild,
    /// The source depends on the target.
    DependsOn,
    /// Data flows from source to target.
    DataFlow,
    /// Control flows from source to target.
    ControlFlow,
    /// A relationship named by the domain.
    Custom(String),
}

/// Something that happened in the domain graph. Metadata is JSON text that
/// the bridge carries as it is.
#[derive(Debug, Clone, PartialEq, Eq)]
pub enum DomainEvent {
    /// A node was added to the graph.
    NodeAdded { graph_id: GraphId, node_id: NodeId, position: Option<Position>, metadata: String },
    /// A node was removed from the graph.
    NodeRemoved { graph_id: GraphId, node_id: NodeId },
    /// An edge was added to the graph.
    EdgeAdded {
        graph_id: GraphId,
        edge_id: EdgeId,
        source: NodeId,
        target: NodeId,
        relationship: EdgeRelationship,
    },
    /// An edge was removed from the graph.
    EdgeRemoved { graph_id: GraphId, edge_id: EdgeId },
    /// The metadata of a node was replaced.
    NodeMetadataUpdated { graph_id: GraphId, node_id: NodeId, metadata: String },
    /// The metadata of an edge was replaced.
    EdgeMetadataUpdated { graph_id: GraphId, edge_id: EdgeId, metadata: String },
}

/// A change of the domain graph that the visual layer asks for.
#[derive(Debug, Clone, PartialEq, Eq)]
pub enum VisualizationCommand {
    /// Create a node at a position.
    CreateNode { graph_id: GraphId, position: Position, metadata: Option<String> },
    /// Delete a node.
    DeleteNode { graph_id: GraphId, node_id: NodeId },
    /// Move a node.
    UpdateNodePosition { graph_id: GraphId, node_id: NodeId, position: Position },
    /// Create an edge between two nodes.
    CreateEdge {
        graph_id: GraphId,
        source: NodeId,
        target: NodeId,
        relationship: EdgeRelationship,
    },
    /// Delete an edge.
    DeleteEdge { graph_id: GraphId, edge_id: EdgeId },
}

/// What a queue of the bridge holds: a message of either direction.
#[derive(Debug, Clone, PartialEq, Eq)]
pub enum BridgeMessage {
    /// Travels from the domain to the visual layer.
    Event(DomainEvent),
    /// Travels from the visual layer to the domain.
    Command(VisualizationCommand),
}

impl DomainEvent {
    /// The graph that the event is about.
    pub open spec fn graph(self) -> GraphId {
        match self {
            DomainEvent::NodeAdded { graph_id, .. } => graph_id,
            DomainEvent::NodeRemoved { graph_id, .. } => graph_id,
            DomainEvent::EdgeAdded { graph_id, .. } => graph_id,
            DomainEvent::EdgeRemoved { graph_id, .. } => graph_id,
            DomainEvent::NodeMetadataUpdated { graph_id, .. } => graph_id,
            DomainEvent::EdgeMetadataUpdated { graph_id, .. } => graph_id,
        }
    }

    /// The graph that the event is about.
    pub fn graph_id(&self) -> (id: GraphId)
        ensures
            id == self.graph(),
    {
        match self {
            DomainEvent::NodeAdded { graph_id, .. } => *graph_id,
            DomainEvent::NodeRemoved { graph_id, .. } => *graph_id,
            DomainEvent::EdgeAdded { graph_id, .. } => *graph_id,
            DomainEvent::EdgeRemoved { graph_id, .. } => *graph_id,
            DomainEvent::NodeMetadataUpdated { graph_id, .. } => *graph_id,
            DomainEvent::EdgeMetadataUpdated { graph_id, .. } => *graph_id,
        }
    }
}

impl VisualizationCommand {
    /// The graph that the command is about.
    pub open spec fn graph(self) -> GraphId {
        match self {
            VisualizationCommand::CreateNode { graph_id, .. } => graph_id,
            VisualizationCommand::DeleteNode { graph_id, .. } => graph_id,
            VisualizationCommand::UpdateNodePosition { graph_id, .. } => graph_id,
            VisualizationCommand::CreateEdge { graph_id, .. } => graph_id,
            VisualizationCommand::DeleteEdge { graph_id, .. } => graph_id,
        }
    }

    /// The graph that the command is about.
    pub fn graph_id(&self) -> (id: GraphId)
        ensures
            id == self.graph(),
    {
        match self {
            VisualizationCommand::CreateNode { graph_id, .. } => *graph_id,
            VisualizationCommand::DeleteNode { graph_id, .. } => *graph_id,
            VisualizationCommand::UpdateNodePosition { graph_id, .. } => *graph_id,
            VisualizationCommand::CreateEdge { graph_id, .. } => *graph_id,
            VisualizationCommand::DeleteEdge { graph_id, .. } => *graph_id,
        }
    }
}

// Creation and deletion of visual counterparts.

/// Create the visual counterpart of a node.
#[derive(Debug, Clone, PartialEq, Eq)]
pub struct CreateNodeVisual {
    pub node_id: NodeId,
    pub graph_id: GraphId,
    pub position: Position,
    pub metadata: String,
}

/// Create the visual counterpart of an edge.
#[derive(Debug, Clone, PartialEq, Eq)]
pub struct CreateEdgeVisual {
    pub graph_id: GraphId,
    pub edge_id: EdgeId,
    pub source_id: NodeId,
    pub target_id: NodeId,
    pub relationship: EdgeRelationship,
}

/// Create the visual counterpart of a graph.
#[derive(Debug, Clone, PartialEq, Eq)]
pub struct CreateGraphVisual {
    pub graph_id: GraphId,
    pub name: String,
    pub metadata: String,
}

/// Remove the visual counterpart of a node.
#[derive(Debug, Clone, Copy, PartialEq, Eq, Structural)]
pub struct RemoveNodeVisual {
    pub node_id: NodeId,
    pub graph_id: GraphId,
}

/// Remove the visual counterpart of an edge.
#[derive(Debug, Clone, Copy, PartialEq, Eq, Structural)]
pub struct RemoveEdgeVisual {
    pub edge_id: EdgeId,
    pub graph_id: GraphId,
}

/// Remove the visual counterpart of a graph.
#[derive(Debug, Clone, Copy, PartialEq, Eq, Structural)]
pub struct RemoveGraphVisual {
    pub graph_id: GraphId,
}

// What the user did.

/// The user clicked on a node.
#[derive(Debug, Clone, Copy, PartialEq, Eq, Structural)]
pub struct NodeClicked {
    pub entity: EntityId,
    pub node_id: NodeId,
    pub graph_id: GraphId,
    pub world_position: Position,
}

/// The pointer came to rest over a node.
#[derive(Debug, Clone, Copy, PartialEq, Eq, Structural)]
pub struct NodeHovered {
    pub entity: EntityId,
    pub node_id: NodeId,
    pub graph_id: GraphId,
}

/// The pointer left a node.
#[derive(Debug, Clone, Copy, PartialEq, Eq, Structural)]
pub struct NodeUnhovered {
    pub entity: EntityId,
    pub node_id: NodeId,
    pub graph_id: GraphId,
}

/// The user clicked on an edge.
#[derive(Debug, Clone, Copy, PartialEq, Eq, Structural)]
pub struct EdgeClicked {
    pub entity: EntityId,
    pub edge_id: EdgeId,
    pub graph_id: GraphId,
}

/// The user clicked beside every node and edge.
#[derive(Debug, Clone, Copy, PartialEq, Eq, Structural)]
pub struct BackgroundClicked {
    pub world_position: Position,
}

/// The user began to drag a node.
#[derive(Debug, Clone, Copy, PartialEq, Eq, Structural)]
pub struct NodeDragStart {
    pub entity: EntityId,
    pub node_id: NodeId,
    pub graph_id: GraphId,
    pub start_position: Position,
}

/// The user is dragging a node.
#[derive(Debug, Clone, Copy, PartialEq, Eq, Structural)]
pub struct NodeDragging {
    pub entity: EntityId,
    pub node_id: NodeId,
    pub graph_id: GraphId,
    pub current_position: Position,
    pub delta: Position,
}

/// The user let go of a node.
#[derive(Debug, Clone, Copy, PartialEq, Eq, Structural)]
pub struct NodeDragEnd {
    pub entity: EntityId,
    pub node_id: NodeId,
    pub graph_id: GraphId,
    pub new_position: Position,
}

// Selection.

/// The selection changed to the given nodes and edges.
#[derive(Debug, Clone, PartialEq, Eq)]
pub struct SelectionChanged {
    pub selected_nodes: Vec<(EntityId, NodeId)>,
    pub selected_edges: Vec<(EntityId, EdgeId)>,
    pub graph_id: GraphId,
}

/// Select everything of a graph.
#[derive(Debug, Clone, Copy, PartialEq, Eq, Structural)]
pub struct SelectAll {
    pub graph_id: GraphId,
}

/// Select nothing of a graph.
#[derive(Debug, Clone, Copy, PartialEq, Eq, Structural)]
pub struct ClearSelection {
    pub graph_id: GraphId,
}

// Layout.

/// Lay a graph out afresh.
#[derive(Debug, Clone, Copy, PartialEq, Eq, Structural)]
pub struct RequestLayout {
    pub graph_id: GraphId,
    pub layout_type: LayoutType,
}

/// A layout was computed: where each node goes.
#[derive(Debug, Clone, PartialEq, Eq)]
pub struct LayoutCompleted {
    pub graph_id: GraphId,
    pub node_positions: Vec<(NodeId, Position)>,
}

// Camera and animation. A duration is a binary32 number of seconds, held as
// its bits.

/// Turn the camera to some entities.
#[derive(Debug, Clone, PartialEq, Eq)]
pub struct FocusCamera {
    pub target_entities: Vec<EntityId>,
    pub transition_duration: u32,
}

/// Turn the camera back to where it started.
#[derive(Debug, Clone, Copy, PartialEq, Eq, Structural)]
pub struct ResetCamera {
    pub transition_duration: u32,
}

/// Let a node appear.
#[derive(Debug, Clone, Copy, PartialEq, Eq, Structural)]
pub struct AnimateNodeAppear {
    pub entity: EntityId,
    pub duration: u32,
}

/// Let an edge connect.
#[derive(Debug, Clone, Copy, PartialEq, Eq, Structural)]
pub struct AnimateEdgeConnect {
    pub entity: EntityId,
    pub duration: u32,
}

// Requests to the domain.

/// Ask the domain for a node at a position.
#[derive(Debug, Clone, PartialEq, Eq)]
pub struct RequestNodeCreation {
    pub graph_id: GraphId,
    pub position: Position,
    pub metadata: String,
}

/// Ask the domain for an edge between two nodes.
#[derive(Debug, Clone, PartialEq, Eq)]
pub struct RequestEdgeCreation {
    pub graph_id: GraphId,
    pub source_id: NodeId,
    pub target_id: NodeId,
    pub relationship: EdgeRelationship,
}

/// Ask the domain to delete what is selected.
#[derive(Debug, Clone, Copy, PartialEq, Eq, Structural)]
pub struct RequestDeleteSelected {
    pub graph_id: GraphId,
}

// Changes that the domain made.

/// The domain moved a node.
#[derive(Debug, Clone, Copy, PartialEq, Eq, Structural)]
pub struct NodePositionChanged {
    pub node_id: NodeId,
    pub graph_id: GraphId,
    pub old_position: Position,
    pub new_position: Position,
}

/// The domain replaced the metadata of a node.
#[derive(Debug, Clone, PartialEq, Eq)]
pub struct NodeMetadataChanged {
    pub node_id: NodeId,
    pub graph_id: GraphId,
    pub metadata: String,
}

/// The domain replaced the metadata of an edge.
#[derive(Debug, Clone, PartialEq, Eq)]
pub struct EdgeMetadataChanged {
    pub edge_id: EdgeId,
    pub graph_id: GraphId,
    pub metadata: String,
}

impl RequestNodeCreation {
    /// The command that asks the domain for this node.
    pub fn into_command(self) -> (command: VisualizationCommand)
        ensures
            command == (VisualizationCommand::CreateNode {
                graph_id: self.graph_id,
                position: self.position,
                metadata: Some(self.metadata),
            }),
    {
        VisualizationCommand::CreateNode {
            graph_id: self.graph_id,
            position: self.position,
            metadata: Some(self.metadata),
        }
    }
}

impl RequestEdgeCreation {
    /// The command that asks the domain for this edge.
    pub fn into_command(self) -> (command: VisualizationCommand)
        ensures
            command == (VisualizationCommand::CreateEdge {
                graph_id: self.graph_id,
                source: self.source_id,
                target: self.target_id,
                relationship: self.relationship,
            }),
    {
        VisualizationCommand::CreateEdge {
            graph_id: self.graph_id,
            source: self.source_id,
            target: self.target_id,
            relationship: self.relationship,
        }
    }
}

impl NodeDragEnd {
    /// The command that moves the node in the domain to where the user left
    /// it.
    pub fn into_command(self) -> (command: VisualizationCommand)
        ensures
            command == (VisualizationCommand::UpdateNodePosition {
                graph_id: self.graph_id,
                node_id: self.node_id,
                position: self.new_position,
            }),
    {
        VisualizationCommand::UpdateNodePosition {
            graph_id: self.graph_id,
            node_id: self.node_id,
            position: self.new_position,
        }
    }
}

} // verus!
