//! The state of edges: which are highlighted, and how a state is replaced.

use vstd::prelude::*;
use crate::ids::{EdgeId, EntityId};

verus! {

/// The direction in which something flows along an edge.
#[derive(Debug, Clone, Copy, PartialEq, Eq, Structural)]
pub enum FlowDirection {
    Forward,
    Backward,
    Bidirectional,
}

/// The state of an edge. The weight is a binary32 number, held as its bits.
#[derive(Debug, Clone, Copy, PartialEq, Eq, Structural)]
pub struct EdgeState {
    pub is_highlighted: bool,
    pub is_active: bool,
    pub weight: u32,
    pub flow_direction: FlowDirection,
}

/// An edge of the host: its identifier, the entities of its ends, and its
/// state.
#[derive(Debug, Clone, Copy, PartialEq, Eq, Structural)]
pub struct EdgeEntry {
    pub edge_id: EdgeId,
    pub source_entity: EntityId,
    pub target_entity: EntityId,
    pub state: EdgeState,
}

/// Event: the state of an edge is to be replaced.
#[derive(Debug, Clone, Copy, PartialEq, Eq, Structural)]
pub struct EdgeStateChanged {
    pub edge_id: EdgeId,
    pub new_state: EdgeState,
}

/// How an edge is drawn, as its state demands.
#[derive(Debug, Clone, Copy, PartialEq, Eq, Structural)]
pub enum EdgeAppearance {
    /// In the highlight colour, thick.
    Highlighted,
    /// In the usual colour and thickness.
    Normal,
    /// Pale and thin.
    Inactive,
}

/// How the head of an arrow is drawn.
#[derive(Debug, Clone, Copy, PartialEq, Eq, Structural)]
pub enum ArrowHead {
    /// One head of the usual size.
    Single,
    /// Larger, for a flow in both directions.
    Double,
}

impl EdgeState {
    /// The appearance that the state demands: a highlight goes before
    /// everything, and an edge that is not active is drawn as inactive.
    pub open spec fn look(self) -> EdgeAppearance {
        if self.is_highlighted {
            EdgeAppearance::Highlighted
        } else if self.is_active {
            EdgeAppearance::Normal
        } else {
            EdgeAppearance::Inactive
        }
    }

    /// The appearance that the state demands.
    pub fn appearance(&self) -> (appearance: EdgeAppearance)
        ensures
            appearance == self.look(),
    {
        if self.is_highlighted {
            EdgeAppearance::Highlighted
        } else if self.is_active {
            EdgeAppearance::Normal
        } else {
            EdgeAppearance::Inactive
        }
    }

    /// The head of the arrow: larger where the flow goes both ways.
    pub fn arrow_head(&self) -> (head: ArrowHead)
        ensures
            head == match self.flow_direction {
                FlowDirection::Bidirectional => ArrowHead::Double,
                _ => ArrowHead::Single,
            },
    {
        match self.flow_direction {
            FlowDirection::Forward => ArrowHead::Single,
            FlowDirection::Backward => ArrowHead::Single,
            FlowDirection::Bidirectional => ArrowHead::Double,
        }
    }
}

/// Whether `entity` is one of `entities`.
pub open spec fn is_among(entities: Seq<EntityId>, entity: EntityId) -> bool {
    exists|i: int| 0 <= i < entities.len() && #[trigger] entities[i] == entity
}

/// The edge with its highlight set as the selection demands: an edge is
/// highlighted exactly if one of its ends is selected.
pub open spec fn highlighted_by(edge: EdgeEntry, selected: Seq<EntityId>) -> EdgeEntry {
    EdgeEntry {
        state: EdgeState {
            is_highlighted: is_among(selected, edge.source_entity) || is_among(
                selected,
                edge.target_entity,
            ),
            ..edge.state
        },
        ..edge
    }
}

fn among(entities: &Vec<EntityId>, entity: EntityId) -> (found: bool)
    ensures
        found == is_among(entities@, entity),
{
    let mut i: usize = 0;
    while i < entities.len()
        invariant
            i <= entities@.len(),
            forall|j: int| 0 <= j < i ==> #[trigger] entities@[j] != entity,
        decreases entities@.len() - i,
    {
        if entities[i] == entity {
            return true;
        }
        i = i + 1;
    }
    false
}

/// Highlights the edges that touch a selected node and no others.
pub fn highlight_connected_edges(selected: &Vec<EntityId>, edges: &mut Vec<EdgeEntry>)
    ensures
        final(edges)@.len() == old(edges)@.len(),
        forall|i: int|
            0 <= i < final(edges)@.len() ==> #[trigger] final(edges)@[i] == highlighted_by(
                old(edges)@[i],
                selected@,
            ),
{
    let mut i: usize = 0;
    while i < edges.len()
        invariant
            i <= edges@.len(),
            edges@.len() == old(edges)@.len(),
            forall|j: int|
                0 <= j < i ==> #[trigger] edges@[j] == highlighted_by(old(edges)@[j], selected@),
            forall|j: int| i <= j < edges@.len() ==> #[trigger] edges@[j] == old(edges)@[j],
        decreases edges@.len() - i,
    {
        let edge = edges[i];
        let is_highlighted = among(selected, edge.source_entity) || among(
            selected,
            edge.target_entity,
        );
        edges.set(
            i,
            EdgeEntry {
                edge_id: edge.edge_id,
                source_entity: edge.source_entity,
                target_entity: edge.target_entity,
                state: EdgeState {
                    is_highlighted,
                    is_active: edge.state.is_active,
                    weight: edge.state.weight,
                    flow_direction: edge.state.flow_direction,
                },
            },
        );
        i = i + 1;
    }
}

/// `edges[i]` is the first edge with the identifier `edge_id`.
pub open spec fn is_first_edge(edges: Seq<EdgeEntry>, edge_id: EdgeId, i: int) -> bool {
    &&& 0 <= i < edges.len()
    &&& edges[i].edge_id == edge_id
    &&& forall|j: int| 0 <= j < i ==> (#[trigger] edges[j]).edge_id != edge_id
}

/// The edges after a change of state: the first edge that the change names
/// takes the new state, and where it names none, nothing changes.
pub open spec fn is_changed_by(
    before: Seq<EdgeEntry>,
    change: EdgeStateChanged,
    after: Seq<EdgeEntry>,
) -> bool {
    if exists|i: int| 0 <= i < before.len() && (#[trigger] before[i]).edge_id == change.edge_id {
        exists|i: int|
            is_first_edge(before, change.edge_id, i) && after == before.update(
                i,
                EdgeEntry { state: change.new_state, ..before[i] },
            )
    } else {
        after == before
    }
}

/// Replaces the state of the first edge that a change names.
pub fn handle_edge_state_change(change: &EdgeStateChanged, edges: &mut Vec<EdgeEntry>)
    ensures
        is_changed_by(old(edges)@, *change, final(edges)@),
{
    let mut i: usize = 0;
    while i < edges.len()
        invariant
            i <= edges@.len(),
            edges@ == old(edges)@,
            forall|j: int| 0 <= j < i ==> (#[trigger] edges@[j]).edge_id != change.edge_id,
        decreases edges@.len() - i,
    {
        if edges[i].edge_id == change.edge_id {
            let edge = edges[i];
            edges.set(
                i,
                EdgeEntry {
                    edge_id: edge.edge_id,
                    source_entity: edge.source_entity,
                    target_entity: edge.target_entity,
                    state: change.new_state,
                },
            );
            proof {
                assert(is_first_edge(old(edges)@, change.edge_id, i as int));
                assert(edges@ =~= old(edges)@.update(
                    i as int,
                    EdgeEntry { state: change.new_state, ..old(edges)@[i as int] },
                ));
            }
            return ;
        }
        i = i + 1;
    }
}

} // verus!
