//! Read models of the visual layer: what is selected, which graph is shown,
//! which host entity stands for which node, and the bounds of each graph.

use std::collections::HashMap;
use vstd::prelude::*;
use crate::ids::{EdgeId, EntityId, GraphId, NodeId};
use crate::position::Position;

verus! {

broadcast use vstd::std_specs::hash::group_hash_axioms;

/// The graph that is shown, if any.
#[derive(Debug, Clone, Copy, PartialEq, Eq, Structural)]
pub struct ActiveGraph {
    pub graph_id: Option<GraphId>,
}

impl Default for ActiveGraph {
    /// No graph is shown.
    fn default() -> (active: Self)
        ensures
            active.graph_id is None,
    {
        ActiveGraph { graph_id: None }
    }
}

/// The nodes and edges that are selected, each with its host entity, in the
/// order in which they were selected.
#[derive(Debug, Clone)]
pub struct Selection {
    pub nodes: Vec<(EntityId, NodeId)>,
    pub edges: Vec<(EntityId, EdgeId)>,
}

impl Default for Selection {
    /// Nothing is selected.
    fn default() -> (selection: Self)
        ensures
            selection.nodes@.len() == 0,
            selection.edges@.len() == 0,
    {
        Selection { nodes: Vec::new(), edges: Vec::new() }
    }
}

impl Selection {
    /// Whether `node_id` is among the selected nodes.
    pub open spec fn has_node(self, node_id: NodeId) -> bool {
        exists|i: int| 0 <= i < self.nodes@.len() && (#[trigger] self.nodes@[i]).1 == node_id
    }

    /// Whether `edge_id` is among the selected edges.
    pub open spec fn has_edge(self, edge_id: EdgeId) -> bool {
        exists|i: int| 0 <= i < self.edges@.len() && (#[trigger] self.edges@[i]).1 == edge_id
    }

    /// Deselects everything.
    pub fn clear(&mut self)
        ensures
            final(self).nodes@.len() == 0,
            final(self).edges@.len() == 0,
    {
        self.nodes.clear();
        self.edges.clear();
    }

    /// Whether nothing is selected.
    pub fn is_empty(&self) -> (empty: bool)
        ensures
            empty == (self.nodes@.len() == 0 && self.edges@.len() == 0),
    {
        self.nodes.len() == 0 && self.edges.len() == 0
    }

    /// Whether the node is selected.
    pub fn contains_node(&self, node_id: &NodeId) -> (found: bool)
        ensures
            found == self.has_node(*node_id),
    {
        let mut i: usize = 0;
        while i < self.nodes.len()
            invariant
                i <= self.nodes@.len(),
                forall|j: int| 0 <= j < i ==> (#[trigger] self.nodes@[j]).1 != *node_id,
            decreases self.nodes@.len() - i,
        {
            if self.nodes[i].1 == *node_id {
                return true;
            }
            i = i + 1;
        }
        false
    }

    /// Whether the edge is selected.
    pub fn contains_edge(&self, edge_id: &EdgeId) -> (found: bool)
        ensures
            found == self.has_edge(*edge_id),
    {
        let mut i: usize = 0;
        while i < self.edges.len()
            invariant
                i <= self.edges@.len(),
                forall|j: int| 0 <= j < i ==> (#[trigger] self.edges@[j]).1 != *edge_id,
            decreases self.edges@.len() - i,
        {
            if self.edges[i].1 == *edge_id {
                return true;
            }
            i = i + 1;
        }
        false
    }
}

/// An axis-aligned box in space, given by two opposite corners.
#[derive(Debug, Clone, Copy, PartialEq, Eq, Structural)]
pub struct BoundingBox {
    pub min: Position,
    pub max: Position,
}

impl BoundingBox {
    /// The box between the two corners.
    pub fn new(min: Position, max: Position) -> (bounds: Self)
        ensures
            bounds == (BoundingBox { min, max }),
    {
        BoundingBox { min, max }
    }
}

/// The bounds of each graph, by the graph's identifier.
pub struct SpatialIndex {
    graph_bounds: HashMap<u128, BoundingBox>,
}

impl View for SpatialIndex {
    type V = Map<GraphId, BoundingBox>;

    closed spec fn view(&self) -> Map<GraphId, BoundingBox> {
        Map::new(
            |graph: GraphId| self.graph_bounds@.contains_key(graph.0),
            |graph: GraphId| self.graph_bounds@[graph.0],
        )
    }
}

impl Default for SpatialIndex {
    /// No graph has bounds.
    fn default() -> (index: Self)
        ensures
            index@ == Map::<GraphId, BoundingBox>::empty(),
    {
        let index = SpatialIndex { graph_bounds: HashMap::new() };
        assert(index@ =~= Map::<GraphId, BoundingBox>::empty());
        index
    }
}

impl SpatialIndex {
    /// The bounds of a graph, if it has any.
    pub fn get_bounds(&self, graph_id: &GraphId) -> (bounds: Option<&BoundingBox>)
        ensures
            bounds is Some <==> self@.contains_key(*graph_id),
            bounds matches Some(found) ==> *found == self@[*graph_id],
    {
        self.graph_bounds.get(&graph_id.0)
    }

    /// Sets the bounds of a graph, in place of any it had.
    pub fn update_bounds(&mut self, graph_id: GraphId, bounds: BoundingBox)
        ensures
            final(self)@ == old(self)@.insert(graph_id, bounds),
    {
        self.graph_bounds.insert(graph_id.0, bounds);
        assert(self@ =~= old(self)@.insert(graph_id, bounds));
    }
}

/// The host entity that stands for each node.
pub struct NodeEntityMap {
    entities: HashMap<u128, EntityId>,
}

impl View for NodeEntityMap {
    type V = Map<NodeId, EntityId>;

    closed spec fn view(&self) -> Map<NodeId, EntityId> {
        Map::new(
            |node: NodeId| self.entities@.contains_key(node.0),
            |node: NodeId| self.entities@[node.0],
        )
    }
}

impl Default for NodeEntityMap {
    /// No node has a host entity.
    fn default() -> (map: Self)
        ensures
            map@ == Map::<NodeId, EntityId>::empty(),
    {
        let map = NodeEntityMap { entities: HashMap::new() };
        assert(map@ =~= Map::<NodeId, EntityId>::empty());
        map
    }
}

impl NodeEntityMap {
    /// Records the host entity of a node, in place of any recorded before.
    pub fn insert(&mut self, node_id: NodeId, entity: EntityId)
        ensures
            final(self)@ == old(self)@.insert(node_id, entity),
    {
        self.entities.insert(node_id.0, entity);
        assert(self@ =~= old(self)@.insert(node_id, entity));
    }

    /// The host entity of a node, if one is recorded.
    pub fn get(&self, node_id: &NodeId) -> (entity: Option<&EntityId>)
        ensures
            entity is Some <==> self@.contains_key(*node_id),
            entity matches Some(found) ==> *found == self@[*node_id],
    {
        self.entities.get(&node_id.0)
    }
}

} // verus!
