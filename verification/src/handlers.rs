//! Command handlers of the visual layer.
//!
//! A handler takes a command and what the host holds, and decides what
//! happens: which node moves, which is deleted, which selection changes. The
//! host carries the decision out. A handler returns the events that tell of
//! what it decided.

use vstd::prelude::*;
use crate::ids::{EntityId, NodeId};
use crate::position::Position;
use crate::projections::VisualNodeCreated;

verus! {

/// What the host holds of one node.
#[derive(Debug, Clone, Copy, PartialEq, Eq, Structural)]
pub struct NodeState {
    pub entity: EntityId,
    pub node_id: NodeId,
    pub position: Position,
    pub is_selected: bool,
}

/// Command: move a node.
#[derive(Debug, Clone, Copy, PartialEq, Eq, Structural)]
pub struct MoveNode {
    pub node_id: NodeId,
    pub new_position: Position,
    pub animate: bool,
}

/// Command: delete the visual counterpart of a node.
#[derive(Debug, Clone, Copy, PartialEq, Eq, Structural)]
pub struct DeleteVisualNode {
    pub node_id: NodeId,
}

/// Command: select a node, alone or in addition to what is selected.
#[derive(Debug, Clone, Copy, PartialEq, Eq, Structural)]
pub struct SelectNode {
    pub node_id: NodeId,
    pub multi_select: bool,
}

/// Event: a node was moved.
#[derive(Debug, Clone, Copy, PartialEq, Eq, Structural)]
pub struct NodeMoved {
    pub entity: EntityId,
    pub node_id: NodeId,
    pub old_position: Position,
    pub new_position: Position,
}

/// Event: the visual counterpart of a node was deleted.
#[derive(Debug, Clone, Copy, PartialEq, Eq, Structural)]
pub struct VisualNodeDeleted {
    pub node_id: NodeId,
    pub final_position: Position,
}

/// Event: a node was selected.
#[derive(Debug, Clone, Copy, PartialEq, Eq, Structural)]
pub struct NodeSelected {
    pub entity: EntityId,
    pub node_id: NodeId,
}

/// Event: a node was deselected.
#[derive(Debug, Clone, Copy, PartialEq, Eq, Structural)]
pub struct NodeDeselected {
    pub entity: EntityId,
    pub node_id: NodeId,
}

/// What selecting a node changes.
#[derive(Debug, Clone, PartialEq, Eq)]
pub struct SelectionChange {
    /// The nodes that lose their selection, in host order.
    pub deselected: Vec<NodeDeselected>,
    /// The node that gains it, if any does.
    pub selected: Option<NodeSelected>,
}

/// `nodes[i]` is the first node with the identifier `node_id`.
pub open spec fn is_first_with_id(nodes: Seq<NodeState>, node_id: NodeId, i: int) -> bool {
    &&& 0 <= i < nodes.len()
    &&& nodes[i].node_id == node_id
    &&& forall|j: int| 0 <= j < i ==> (#[trigger] nodes[j]).node_id != node_id
}

/// Some node has the identifier `node_id`.
pub open spec fn has_node(nodes: Seq<NodeState>, node_id: NodeId) -> bool {
    exists|i: int| 0 <= i < nodes.len() && (#[trigger] nodes[i]).node_id == node_id
}

/// `nodes[i]` is the first node with the identifier `node_id` that is not
/// selected.
pub open spec fn is_first_unselected(nodes: Seq<NodeState>, node_id: NodeId, i: int) -> bool {
    &&& 0 <= i < nodes.len()
    &&& nodes[i].node_id == node_id && !nodes[i].is_selected
    &&& forall|j: int|
        0 <= j < i ==> !((#[trigger] nodes[j]).node_id == node_id && !nodes[j].is_selected)
}

/// The index of the first node with the given identifier.
fn find_node(nodes: &Vec<NodeState>, node_id: NodeId) -> (found: Option<usize>)
    ensures
        found is Some <==> has_node(nodes@, node_id),
        found matches Some(i) ==> is_first_with_id(nodes@, node_id, i as int),
{
    let mut i: usize = 0;
    while i < nodes.len()
        invariant
            i <= nodes@.len(),
            forall|j: int| 0 <= j < i ==> (#[trigger] nodes@[j]).node_id != node_id,
        decreases nodes@.len() - i,
    {
        if nodes[i].node_id == node_id {
            return Some(i);
        }
        i = i + 1;
    }
    None
}

/// Command: create the visual counterpart of a node.
#[derive(Debug, Clone, Copy, PartialEq, Eq, Structural)]
pub struct CreateVisualNode {
    pub node_id: NodeId,
    pub position: Position,
}

/// Handles a creation: the host has spawned `entity` for the node, and the
/// event tells of it.
pub fn handle_create_visual_node(entity: EntityId, command: &CreateVisualNode) -> (created:
    VisualNodeCreated)
    ensures
        created == (VisualNodeCreated {
            entity,
            node_id: command.node_id,
            position: command.position,
        }),
{
    VisualNodeCreated { entity, node_id: command.node_id, position: command.position }
}

/// Handles a move: the first node with the command's identifier moves to
/// the new position, provided that every coordinate of it is finite.
/// Otherwise nothing moves.
pub fn handle_move_node(nodes: &Vec<NodeState>, command: &MoveNode) -> (moved: Option<NodeMoved>)
    ensures
        moved is Some <==> has_node(nodes@, command.node_id) && command.new_position.valid(),
        moved matches Some(event) ==> exists|i: int|
            is_first_with_id(nodes@, command.node_id, i) && event == (NodeMoved {
                entity: nodes@[i].entity,
                node_id: command.node_id,
                old_position: nodes@[i].position,
                new_position: command.new_position,
            }),
{
    match find_node(nodes, command.node_id) {
        Some(i) => {
            if command.new_position.is_valid() {
                Some(
                    NodeMoved {
                        entity: nodes[i].entity,
                        node_id: nodes[i].node_id,
                        old_position: nodes[i].position,
                        new_position: command.new_position,
                    },
                )
            } else {
                None
            }
        },
        None => None,
    }
}

/// Handles a deletion: the first node with the command's identifier is
/// despawned, and the event keeps where it last stood.
pub fn handle_delete_visual_node(nodes: &Vec<NodeState>, command: &DeleteVisualNode) -> (deleted:
    Option<(EntityId, VisualNodeDeleted)>)
    ensures
        deleted is Some <==> has_node(nodes@, command.node_id),
        deleted matches Some(pair) ==> exists|i: int|
            is_first_with_id(nodes@, command.node_id, i) && pair.0 == nodes@[i].entity && pair.1
                == (VisualNodeDeleted {
                node_id: command.node_id,
                final_position: nodes@[i].position,
            }),
{
    match find_node(nodes, command.node_id) {
        Some(i) => Some(
            (
                nodes[i].entity,
                VisualNodeDeleted { node_id: nodes[i].node_id, final_position: nodes[i].position },
            ),
        ),
        None => None,
    }
}

/// The nodes that lose their selection when `node_id` alone is selected:
/// every selected node with another identifier, in host order.
pub open spec fn deselected_by(nodes: Seq<NodeState>, node_id: NodeId) -> Seq<NodeDeselected>
    decreases nodes.len(),
{
    if nodes.len() == 0 {
        Seq::empty()
    } else if nodes.last().is_selected && nodes.last().node_id != node_id {
        deselected_by(nodes.drop_last(), node_id).push(
            NodeDeselected { entity: nodes.last().entity, node_id: nodes.last().node_id },
        )
    } else {
        deselected_by(nodes.drop_last(), node_id)
    }
}

/// Handles a selection. Unless the command adds to the selection, every
/// selected node with another identifier is deselected. Then the first node
/// with the command's identifier that is not yet selected is selected.
pub fn handle_select_node(nodes: &Vec<NodeState>, command: &SelectNode) -> (change:
    SelectionChange)
    ensures
        change.deselected@ == if command.multi_select {
            Seq::<NodeDeselected>::empty()
        } else {
            deselected_by(nodes@, command.node_id)
        },
        change.selected is Some <==> exists|i: int|
            is_first_unselected(nodes@, command.node_id, i),
        change.selected matches Some(event) ==> exists|i: int|
            is_first_unselected(nodes@, command.node_id, i) && event == (NodeSelected {
                entity: nodes@[i].entity,
                node_id: command.node_id,
            }),
{
    let mut deselected: Vec<NodeDeselected> = Vec::new();
    if !command.multi_select {
        let mut i: usize = 0;
        while i < nodes.len()
            invariant
                i <= nodes@.len(),
                deselected@ == deselected_by(nodes@.take(i as int), command.node_id),
            decreases nodes@.len() - i,
        {
            proof {
                assert(nodes@.take(i + 1).drop_last() =~= nodes@.take(i as int));
            }
            if nodes[i].is_selected && nodes[i].node_id != command.node_id {
                deselected.push(NodeDeselected { entity: nodes[i].entity, node_id: nodes[i].node_id });
            }
            i = i + 1;
        }
        proof {
            assert(nodes@.take(i as int) =~= nodes@);
        }
    }
    let mut selected: Option<NodeSelected> = None;
    let mut k: usize = 0;
    while k < nodes.len()
        invariant_except_break
            selected is None,
        invariant
            k <= nodes@.len(),
            forall|j: int|
                0 <= j < k ==> !((#[trigger] nodes@[j]).node_id == command.node_id
                    && !nodes@[j].is_selected),
        ensures
            selected is Some ==> is_first_unselected(nodes@, command.node_id, k as int)
                && selected == Some(
                NodeSelected { entity: nodes@[k as int].entity, node_id: command.node_id },
            ),
            selected is None ==> forall|j: int|
                0 <= j < nodes@.len() ==> !((#[trigger] nodes@[j]).node_id == command.node_id
                    && !nodes@[j].is_selected),
        decreases nodes@.len() - k,
    {
        if nodes[k].node_id == command.node_id && !nodes[k].is_selected {
            selected = Some(NodeSelected { entity: nodes[k].entity, node_id: nodes[k].node_id });
            break ;
        }
        k = k + 1;
    }
    SelectionChange { deselected, selected }
}

} // verus!
