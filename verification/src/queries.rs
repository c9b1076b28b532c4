//! Questions about what the host holds.

use vstd::prelude::*;
use crate::handlers::NodeState;
use crate::ids::{EdgeId, EntityId, NodeId};

verus! {

/// What the host holds of one edge: its entity, its identifier and the
/// entities of its two ends.
#[derive(Debug, Clone, Copy, PartialEq, Eq, Structural)]
pub struct EdgeState {
    pub entity: EntityId,
    pub edge_id: EdgeId,
    pub source: EntityId,
    pub target: EntityId,
}

/// Counts of what the host holds.
#[derive(Debug, Clone, Copy, PartialEq, Eq, Structural)]
pub struct GraphStatistics {
    pub node_count: usize,
    pub edge_count: usize,
    pub selected_count: usize,
}

/// The selected nodes, each with its entity, in host order.
pub open spec fn selected_of(nodes: Seq<NodeState>) -> Seq<(EntityId, NodeId)>
    decreases nodes.len(),
{
    if nodes.len() == 0 {
        Seq::empty()
    } else if nodes.last().is_selected {
        selected_of(nodes.drop_last()).push((nodes.last().entity, nodes.last().node_id))
    } else {
        selected_of(nodes.drop_last())
    }
}

/// The edges of which `node` is an end, each with its entity, in host
/// order.
pub open spec fn edges_at(edges: Seq<EdgeState>, node: EntityId) -> Seq<(EntityId, EdgeId)>
    decreases edges.len(),
{
    if edges.len() == 0 {
        Seq::empty()
    } else if edges.last().source == node || edges.last().target == node {
        edges_at(edges.drop_last(), node).push((edges.last().entity, edges.last().edge_id))
    } else {
        edges_at(edges.drop_last(), node)
    }
}


/// The selected nodes, each with its entity.
pub fn query_selected_nodes(nodes: &Vec<NodeState>) -> (selected: Vec<(EntityId, NodeId)>)
    ensures
        selected@ == selected_of(nodes@),
{
    let mut selected: Vec<(EntityId, NodeId)> = Vec::new();
    let mut i: usize = 0;
    while i < nodes.len()
        invariant
            i <= nodes@.len(),
            selected@ == selected_of(nodes@.take(i as int)),
        decreases nodes@.len() - i,
    {
        proof {
            assert(nodes@.take(i + 1).drop_last() =~= nodes@.take(i as int));
        }
        if nodes[i].is_selected {
            selected.push((nodes[i].entity, nodes[i].node_id));
        }
        i = i + 1;
    }
    proof {
        assert(nodes@.take(i as int) =~= nodes@);
    }
    selected
}

/// The edges that start or end at a node, each with its entity.
pub fn query_edges_for_node(node_entity: EntityId, edges: &Vec<EdgeState>) -> (found: Vec<
    (EntityId, EdgeId),
>)
    ensures
        found@ == edges_at(edges@, node_entity),
{
    let mut found: Vec<(EntityId, EdgeId)> = Vec::new();
    let mut i: usize = 0;
    while i < edges.len()
        invariant
            i <= edges@.len(),
            found@ == edges_at(edges@.take(i as int), node_entity),
        decreases edges@.len() - i,
    {
        proof {
            assert(edges@.take(i + 1).drop_last() =~= edges@.take(i as int));
        }
        if edges[i].source == node_entity || edges[i].target == node_entity {
            found.push((edges[i].entity, edges[i].edge_id));
        }
        i = i + 1;
    }
    proof {
        assert(edges@.take(i as int) =~= edges@);
    }
    found
}

/// How many nodes and edges the host holds, and how many nodes are
/// selected.
pub fn query_graph_statistics(nodes: &Vec<NodeState>, edges: &Vec<EdgeState>) -> (statistics:
    GraphStatistics)
    ensures
        statistics.node_count == nodes@.len(),
        statistics.edge_count == edges@.len(),
        statistics.selected_count == selected_of(nodes@).len(),
{
    let mut selected_count: usize = 0;
    let mut i: usize = 0;
    while i < nodes.len()
        invariant
            i <= nodes@.len(),
            selected_count == selected_of(nodes@.take(i as int)).len(),
            selected_count <= i,
        decreases nodes@.len() - i,
    {
        proof {
            assert(nodes@.take(i + 1).drop_last() =~= nodes@.take(i as int));
        }
        if nodes[i].is_selected {
            selected_count = selected_count + 1;
        }
        i = i + 1;
    }
    proof {
        assert(nodes@.take(i as int) =~= nodes@);
    }
    GraphStatistics { node_count: nodes.len(), edge_count: edges.len(), selected_count }
}

} // verus!
