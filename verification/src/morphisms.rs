//! From domain events to changes of the visual scene.
//!
//! The host owns the scene: it spawns and despawns entities. This module
//! decides. Given what the scene holds and one domain event, it says which
//! entities the host is to spawn, change or despawn. An event about an
//! object that the scene does not hold changes nothing, so a late update
//! cannot bring a removed object back.

use vstd::prelude::*;
use crate::components::{EdgeVisual, EdgeVisualBundle, NodeVisual, NodeVisualBundle};
use crate::events::DomainEvent;
use crate::ids::{EdgeId, EntityId, GraphId, NodeId};
use crate::position::Position;

verus! {

/// A visual node of the scene with the host entity that carries it.
#[derive(Debug, Clone, Copy, PartialEq, Eq, Structural)]
pub struct SceneNode {
    pub entity: EntityId,
    pub visual: NodeVisual,
}

/// A visual edge of the scene with the host entity that carries it.
#[derive(Debug, Clone, Copy, PartialEq, Eq, Structural)]
pub struct SceneEdge {
    pub entity: EntityId,
    pub visual: EdgeVisual,
}

/// One change that the host is to make to the scene.
#[derive(Debug, Clone, PartialEq, Eq)]
pub enum SceneAction {
    /// Spawn one entity for a node.
    SpawnNode { bundle: NodeVisualBundle, metadata: String },
    /// Spawn one entity for an edge.
    SpawnEdge { bundle: EdgeVisualBundle },
    /// Despawn an entity.
    Despawn { entity: EntityId },
    /// Replace the metadata that an entity shows.
    SetMetadata { entity: EntityId, metadata: String },
}

/// The position of a node that came without one: the origin, whose three
/// coordinates are positive zero.
pub open spec fn origin() -> Position {
    Position { x: 0, y: 0, z: 0 }
}

/// The entities that carry the node `node_id`, in scene order.
pub open spec fn entities_of_node(nodes: Seq<SceneNode>, node_id: NodeId) -> Seq<EntityId>
    decreases nodes.len(),
{
    if nodes.len() == 0 {
        Seq::empty()
    } else if nodes.last().visual.node_id == node_id {
        entities_of_node(nodes.drop_last(), node_id).push(nodes.last().entity)
    } else {
        entities_of_node(nodes.drop_last(), node_id)
    }
}

/// The entities that carry the edge `edge_id`, in scene order.
pub open spec fn entities_of_edge(edges: Seq<SceneEdge>, edge_id: EdgeId) -> Seq<EntityId>
    decreases edges.len(),
{
    if edges.len() == 0 {
        Seq::empty()
    } else if edges.last().visual.edge_id == edge_id {
        entities_of_edge(edges.drop_last(), edge_id).push(edges.last().entity)
    } else {
        entities_of_edge(edges.drop_last(), edge_id)
    }
}

/// The entity that stands for the node `node_id` as the end of an edge: the
/// last one in scene order that carries it.
pub open spec fn endpoint_of(nodes: Seq<SceneNode>, node_id: NodeId) -> Option<EntityId> {
    if entities_of_node(nodes, node_id).len() == 0 {
        None
    } else {
        Some(entities_of_node(nodes, node_id).last())
    }
}

/// The entities that carry a node. Removing a node despawns each of them.
pub fn remove_node_visual(nodes: &Vec<SceneNode>, node_id: NodeId) -> (entities: Vec<EntityId>)
    ensures
        entities@ == entities_of_node(nodes@, node_id),
{
    let mut entities: Vec<EntityId> = Vec::new();
    let mut i: usize = 0;
    while i < nodes.len()
        invariant
            i <= nodes@.len(),
            entities@ == entities_of_node(nodes@.take(i as int), node_id),
        decreases nodes@.len() - i,
    {
        proof {
            assert(nodes@.take(i + 1).drop_last() =~= nodes@.take(i as int));
        }
        if nodes[i].visual.node_id == node_id {
            entities.push(nodes[i].entity);
        }
        i = i + 1;
    }
    proof {
        assert(nodes@.take(i as int) =~= nodes@);
    }
    entities
}

/// The entities that carry an edge. Removing an edge despawns each of them.
pub fn remove_edge_visual(edges: &Vec<SceneEdge>, edge_id: EdgeId) -> (entities: Vec<EntityId>)
    ensures
        entities@ == entities_of_edge(edges@, edge_id),
{
    let mut entities: Vec<EntityId> = Vec::new();
    let mut i: usize = 0;
    while i < edges.len()
        invariant
            i <= edges@.len(),
            entities@ == entities_of_edge(edges@.take(i as int), edge_id),
        decreases edges@.len() - i,
    {
        proof {
            assert(edges@.take(i + 1).drop_last() =~= edges@.take(i as int));
        }
        if edges[i].visual.edge_id == edge_id {
            entities.push(edges[i].entity);
        }
        i = i + 1;
    }
    proof {
        assert(edges@.take(i as int) =~= edges@);
    }
    entities
}

/// What the host spawns for a new node: one entity for that node of that
/// graph, at the position that came with it or else at the origin.
pub fn create_node_visual(node_id: NodeId, graph_id: GraphId, position: Option<Position>) -> (bundle:
    NodeVisualBundle)
    ensures
        bundle.node == (NodeVisual { node_id, graph_id }),
        bundle.position == match position {
            Some(given) => given,
            None => origin(),
        },
{
    match position {
        Some(given) => NodeVisualBundle::new(node_id, graph_id, given),
        None => NodeVisualBundle::new(node_id, graph_id, Position::new(0, 0, 0)),
    }
}

/// What the host spawns for a new edge: one entity between the entities of
/// its two ends, or nothing where the scene lacks an end.
pub fn create_edge_visual(
    nodes: &Vec<SceneNode>,
    edge_id: EdgeId,
    graph_id: GraphId,
    source: NodeId,
    target: NodeId,
) -> (bundle: Option<EdgeVisualBundle>)
    ensures
        bundle == match (endpoint_of(nodes@, source), endpoint_of(nodes@, target)) {
            (Some(source_entity), Some(target_entity)) => Some(
                EdgeVisualBundle {
                    edge: EdgeVisual { edge_id, graph_id, source_entity, target_entity },
                },
            ),
            _ => None,
        },
{
    let mut source_entity: Option<EntityId> = None;
    let mut target_entity: Option<EntityId> = None;
    let mut i: usize = 0;
    while i < nodes.len()
        invariant
            i <= nodes@.len(),
            source_entity == endpoint_of(nodes@.take(i as int), source),
            target_entity == endpoint_of(nodes@.take(i as int), target),
        decreases nodes@.len() - i,
    {
        proof {
            assert(nodes@.take(i + 1).drop_last() =~= nodes@.take(i as int));
        }
        if nodes[i].visual.node_id == source {
            source_entity = Some(nodes[i].entity);
        }
        if nodes[i].visual.node_id == target {
            target_entity = Some(nodes[i].entity);
        }
        i = i + 1;
    }
    proof {
        assert(nodes@.take(i as int) =~= nodes@);
    }
    match (source_entity, target_entity) {
        (Some(source_entity), Some(target_entity)) => Some(
            EdgeVisualBundle::new(edge_id, graph_id, source_entity, target_entity),
        ),
        _ => None,
    }
}

/// One `Despawn` for each of `entities`, in order.
pub open spec fn despawn_all(entities: Seq<EntityId>) -> Seq<SceneAction> {
    Seq::new(entities.len(), |i: int| SceneAction::Despawn { entity: entities[i] })
}

/// One `SetMetadata` for each of `entities`, in order.
pub open spec fn set_metadata_all(entities: Seq<EntityId>, metadata: String) -> Seq<SceneAction> {
    Seq::new(entities.len(), |i: int| SceneAction::SetMetadata { entity: entities[i], metadata })
}

/// What a domain event does to a scene that holds `nodes` and `edges`.
pub open spec fn scene_actions(
    event: DomainEvent,
    nodes: Seq<SceneNode>,
    edges: Seq<SceneEdge>,
) -> Seq<SceneAction> {
    match event {
        DomainEvent::NodeAdded { graph_id, node_id, position, metadata } => seq![
            SceneAction::SpawnNode {
                bundle: NodeVisualBundle {
                    node: NodeVisual { node_id, graph_id },
                    position: match position {
                        Some(given) => given,
                        None => origin(),
                    },
                },
                metadata,
            },
        ],
        DomainEvent::NodeRemoved { node_id, .. } => despawn_all(entities_of_node(nodes, node_id)),
        DomainEvent::EdgeAdded { graph_id, edge_id, source, target, .. } => match (
            endpoint_of(nodes, source),
            endpoint_of(nodes, target),
        ) {
            (Some(source_entity), Some(target_entity)) => seq![
                SceneAction::SpawnEdge {
                    bundle: EdgeVisualBundle {
                        edge: EdgeVisual { edge_id, graph_id, source_entity, target_entity },
                    },
                },
            ],
            _ => Seq::empty(),
        },
        DomainEvent::EdgeRemoved { edge_id, .. } => despawn_all(entities_of_edge(edges, edge_id)),
        DomainEvent::NodeMetadataUpdated { node_id, metadata, .. } => set_metadata_all(
            entities_of_node(nodes, node_id),
            metadata,
        ),
        DomainEvent::EdgeMetadataUpdated { edge_id, metadata, .. } => set_metadata_all(
            entities_of_edge(edges, edge_id),
            metadata,
        ),
    }
}

/// One `Despawn` for each of the entities.
fn despawn_each(entities: Vec<EntityId>) -> (actions: Vec<SceneAction>)
    ensures
        actions@ == despawn_all(entities@),
{
    let mut actions: Vec<SceneAction> = Vec::new();
    let mut i: usize = 0;
    while i < entities.len()
        invariant
            i <= entities@.len(),
            actions@ == despawn_all(entities@.take(i as int)),
        decreases entities@.len() - i,
    {
        actions.push(SceneAction::Despawn { entity: entities[i] });
        proof {
            assert(actions@ =~= despawn_all(entities@.take(i + 1)));
        }
        i = i + 1;
    }
    proof {
        assert(entities@.take(i as int) =~= entities@);
    }
    actions
}

/// One `SetMetadata` for each of the entities.
fn set_metadata_each(entities: Vec<EntityId>, metadata: &String) -> (actions: Vec<SceneAction>)
    ensures
        actions@ == set_metadata_all(entities@, *metadata),
{
    let mut actions: Vec<SceneAction> = Vec::new();
    let mut i: usize = 0;
    while i < entities.len()
        invariant
            i <= entities@.len(),
            actions@ == set_metadata_all(entities@.take(i as int), *metadata),
        decreases entities@.len() - i,
    {
        actions.push(SceneAction::SetMetadata { entity: entities[i], metadata: metadata.clone() });
        proof {
            assert(actions@ =~= set_metadata_all(entities@.take(i + 1), *metadata));
        }
        i = i + 1;
    }
    proof {
        assert(entities@.take(i as int) =~= entities@);
    }
    actions
}

/// Decides what the host does to its scene for one domain event.
pub fn materialize(event: &DomainEvent, nodes: &Vec<SceneNode>, edges: &Vec<SceneEdge>) -> (actions:
    Vec<SceneAction>)
    ensures
        actions@ == scene_actions(*event, nodes@, edges@),
{
    match event {
        DomainEvent::NodeAdded { graph_id, node_id, position, metadata } => {
            let bundle = create_node_visual(*node_id, *graph_id, *position);
            let mut actions: Vec<SceneAction> = Vec::new();
            actions.push(SceneAction::SpawnNode { bundle, metadata: metadata.clone() });
            proof {
                assert(actions@ =~= scene_actions(*event, nodes@, edges@));
            }
            actions
        },
        DomainEvent::NodeRemoved { node_id, .. } => despawn_each(
            remove_node_visual(nodes, *node_id),
        ),
        DomainEvent::EdgeAdded { graph_id, edge_id, source, target, .. } => {
            let mut actions: Vec<SceneAction> = Vec::new();
            match create_edge_visual(nodes, *edge_id, *graph_id, *source, *target) {
                Some(bundle) => {
                    actions.push(SceneAction::SpawnEdge { bundle });
                },
                None => {},
            }
            proof {
                assert(actions@ =~= scene_actions(*event, nodes@, edges@));
            }
            actions
        },
        DomainEvent::EdgeRemoved { edge_id, .. } => despawn_each(
            remove_edge_visual(edges, *edge_id),
        ),
        DomainEvent::NodeMetadataUpdated { node_id, metadata, .. } => set_metadata_each(
            remove_node_visual(nodes, *node_id),
            metadata,
        ),
        DomainEvent::EdgeMetadataUpdated { edge_id, metadata, .. } => set_metadata_each(
            remove_edge_visual(edges, *edge_id),
            metadata,
        ),
    }
}

/// No entity carries a node that occurs nowhere in the scene.
pub proof fn lemma_absent_node_has_no_entity(nodes: Seq<SceneNode>, node_id: NodeId)
    requires
        forall|i: int| 0 <= i < nodes.len() ==> (#[trigger] nodes[i]).visual.node_id != node_id,
    ensures
        entities_of_node(nodes, node_id) == Seq::<EntityId>::empty(),
        endpoint_of(nodes, node_id) is None,
    decreases nodes.len(),
{
    if nodes.len() > 0 {
        assert(nodes.last() == nodes[nodes.len() - 1]);
        assert forall|i: int| 0 <= i < nodes.drop_last().len() implies (#[trigger] nodes.drop_last()[i]).visual.node_id
            != node_id by {
            assert(nodes.drop_last()[i] == nodes[i]);
        }
        lemma_absent_node_has_no_entity(nodes.drop_last(), node_id);
    }
}

/// No entity carries an edge that occurs nowhere in the scene.
pub proof fn lemma_absent_edge_has_no_entity(edges: Seq<SceneEdge>, edge_id: EdgeId)
    requires
        forall|i: int| 0 <= i < edges.len() ==> (#[trigger] edges[i]).visual.edge_id != edge_id,
    ensures
        entities_of_edge(edges, edge_id) == Seq::<EntityId>::empty(),
    decreases edges.len(),
{
    if edges.len() > 0 {
        assert(edges.last() == edges[edges.len() - 1]);
        assert forall|i: int| 0 <= i < edges.drop_last().len() implies (#[trigger] edges.drop_last()[i]).visual.edge_id
            != edge_id by {
            assert(edges.drop_last()[i] == edges[i]);
        }
        lemma_absent_edge_has_no_entity(edges.drop_last(), edge_id);
    }
}

/// A late update is a no-op: an event that removes or updates a node which
/// the scene does not hold, or no longer holds, changes nothing. It cannot
/// bring the node back.
pub proof fn lemma_stale_node_event_is_noop(
    event: DomainEvent,
    nodes: Seq<SceneNode>,
    edges: Seq<SceneEdge>,
    node_id: NodeId,
)
    requires
        forall|i: int| 0 <= i < nodes.len() ==> (#[trigger] nodes[i]).visual.node_id != node_id,
        (event is NodeRemoved && event->NodeRemoved_node_id == node_id) || (event
            is NodeMetadataUpdated && event->NodeMetadataUpdated_node_id == node_id),
    ensures
        scene_actions(event, nodes, edges) == Seq::<SceneAction>::empty(),
{
    lemma_absent_node_has_no_entity(nodes, node_id);
    assert(scene_actions(event, nodes, edges) =~= Seq::<SceneAction>::empty());
}

/// The same holds of edges: an event that removes or updates an edge which
/// the scene does not hold changes nothing.
pub proof fn lemma_stale_edge_event_is_noop(
    event: DomainEvent,
    nodes: Seq<SceneNode>,
    edges: Seq<SceneEdge>,
    edge_id: EdgeId,
)
    requires
        forall|i: int| 0 <= i < edges.len() ==> (#[trigger] edges[i]).visual.edge_id != edge_id,
        (event is EdgeRemoved && event->EdgeRemoved_edge_id == edge_id) || (event
            is EdgeMetadataUpdated && event->EdgeMetadataUpdated_edge_id == edge_id),
    ensures
        scene_actions(event, nodes, edges) == Seq::<SceneAction>::empty(),
{
    lemma_absent_edge_has_no_entity(edges, edge_id);
    assert(scene_actions(event, nodes, edges) =~= Seq::<SceneAction>::empty());
}

/// A new node materializes as exactly one entity, which carries the node's
/// identifier and stands where the event says.
pub proof fn lemma_node_added_spawns_one(
    event: DomainEvent,
    nodes: Seq<SceneNode>,
    edges: Seq<SceneEdge>,
)
    requires
        event is NodeAdded,
        event->NodeAdded_position is Some,
    ensures
        scene_actions(event, nodes, edges).len() == 1,
        scene_actions(event, nodes, edges)[0] matches SceneAction::SpawnNode { bundle, .. }
            && bundle.node.node_id == event->NodeAdded_node_id && bundle.node.graph_id
            == event->NodeAdded_graph_id && Some(bundle.position) == event->NodeAdded_position,
{
}

} // verus!
