//! Read models that follow the events of the visual layer.
//!
//! A projection is derived state: it changes only by applying events, and
//! applying the events of a tick is a function of what it held before.

use std::collections::{HashMap, HashSet};
use vstd::prelude::*;
use crate::handlers::{NodeDeselected, NodeMoved, NodeSelected, VisualNodeDeleted};
use crate::ids::{EdgeId, EntityId, NodeId};
use crate::position::Position;

verus! {

broadcast use vstd::std_specs::hash::group_hash_axioms;

/// Event: a visual node was created.
#[derive(Debug, Clone, Copy, PartialEq, Eq, Structural)]
pub struct VisualNodeCreated {
    pub entity: EntityId,
    pub node_id: NodeId,
    pub position: Position,
}

/// Event: a visual edge was created.
#[derive(Debug, Clone, Copy, PartialEq, Eq, Structural)]
pub struct VisualEdgeCreated {
    pub entity: EntityId,
    pub edge_id: EdgeId,
    pub source_entity: EntityId,
    pub target_entity: EntityId,
}

/// Event: a visual edge was deleted.
#[derive(Debug, Clone, Copy, PartialEq, Eq, Structural)]
pub struct VisualEdgeDeleted {
    pub edge_id: EdgeId,
}

/// What the projection knows of a node.
#[derive(Debug, Clone, Copy, PartialEq, Eq, Structural)]
pub struct NodeView {
    pub entity: EntityId,
    pub position: Position,
    pub is_selected: bool,
}

/// What the projection knows of an edge. The nodes at its ends are not yet
/// looked up: the two identifiers are freshly drawn stand-ins.
#[derive(Debug, Clone, Copy, PartialEq, Eq, Structural)]
pub struct EdgeView {
    pub entity: EntityId,
    pub source_node_id: NodeId,
    pub target_node_id: NodeId,
}

/// The events of one tick, each kind in the order of arrival.
#[derive(Debug, Clone, PartialEq, Eq)]
pub struct ProjectionEvents {
    pub node_created: Vec<VisualNodeCreated>,
    pub edge_created: Vec<VisualEdgeCreated>,
    pub node_moved: Vec<NodeMoved>,
    pub node_selected: Vec<NodeSelected>,
    pub node_deselected: Vec<NodeDeselected>,
    pub node_deleted: Vec<VisualNodeDeleted>,
    pub edge_deleted: Vec<VisualEdgeDeleted>,
}

/// What a projection of the graph holds.
#[verifier::ext_equal]
pub struct GraphView {
    /// Each node that was created and not deleted.
    pub nodes: Map<NodeId, NodeView>,
    /// The entity of each edge that was created and not deleted.
    pub edge_entities: Map<EdgeId, EntityId>,
    /// The nodes that were selected and neither deselected nor deleted.
    pub selected_nodes: Set<NodeId>,
}

impl GraphView {
    /// A projection that holds nothing.
    pub open spec fn empty() -> Self {
        GraphView { nodes: Map::empty(), edge_entities: Map::empty(), selected_nodes: Set::empty() }
    }

    /// A node was created: it is held, unselected, where it was created. A
    /// node of the same identifier gives way.
    pub open spec fn node_created(self, event: VisualNodeCreated) -> Self {
        GraphView {
            nodes: self.nodes.insert(
                event.node_id,
                NodeView { entity: event.entity, position: event.position, is_selected: false },
            ),
            ..self
        }
    }

    /// An edge was created: its entity is held.
    pub open spec fn edge_created(self, event: VisualEdgeCreated) -> Self {
        GraphView { edge_entities: self.edge_entities.insert(event.edge_id, event.entity), ..self }
    }

    /// A node was moved: where it is held, it stands at the new position. A
    /// node that is not held stays away.
    pub open spec fn node_moved(self, event: NodeMoved) -> Self {
        if self.nodes.contains_key(event.node_id) {
            GraphView {
                nodes: self.nodes.insert(
                    event.node_id,
                    NodeView { position: event.new_position, ..self.nodes[event.node_id] },
                ),
                ..self
            }
        } else {
            self
        }
    }

    /// The nodes with the selection mark of one of them set, where that one
    /// is held.
    pub open spec fn marked(self, node_id: NodeId, is_selected: bool) -> Map<NodeId, NodeView> {
        if self.nodes.contains_key(node_id) {
            self.nodes.insert(node_id, NodeView { is_selected, ..self.nodes[node_id] })
        } else {
            self.nodes
        }
    }

    /// A node was selected.
    pub open spec fn node_selected(self, event: NodeSelected) -> Self {
        GraphView {
            nodes: self.marked(event.node_id, true),
            selected_nodes: self.selected_nodes.insert(event.node_id),
            ..self
        }
    }

    /// A node was deselected.
    pub open spec fn node_deselected(self, event: NodeDeselected) -> Self {
        GraphView {
            nodes: self.marked(event.node_id, false),
            selected_nodes: self.selected_nodes.remove(event.node_id),
            ..self
        }
    }

    /// A node was deleted: it is neither held nor selected any more.
    pub open spec fn node_deleted(self, event: VisualNodeDeleted) -> Self {
        GraphView {
            nodes: self.nodes.remove(event.node_id),
            selected_nodes: self.selected_nodes.remove(event.node_id),
            ..self
        }
    }

    /// An edge was deleted: it is not held any more.
    pub open spec fn edge_deleted(self, event: VisualEdgeDeleted) -> Self {
        GraphView { edge_entities: self.edge_entities.remove(event.edge_id), ..self }
    }

    /// After each of the creations of nodes, in order.
    pub open spec fn nodes_created(self, events: Seq<VisualNodeCreated>) -> Self
        decreases events.len(),
    {
        if events.len() == 0 {
            self
        } else {
            self.nodes_created(events.drop_last()).node_created(events.last())
        }
    }

    /// After each of the creations of edges, in order.
    pub open spec fn edges_created(self, events: Seq<VisualEdgeCreated>) -> Self
        decreases events.len(),
    {
        if events.len() == 0 {
            self
        } else {
            self.edges_created(events.drop_last()).edge_created(events.last())
        }
    }

    /// After each of the moves, in order.
    pub open spec fn nodes_moved(self, events: Seq<NodeMoved>) -> Self
        decreases events.len(),
    {
        if events.len() == 0 {
            self
        } else {
            self.nodes_moved(events.drop_last()).node_moved(events.last())
        }
    }

    /// After each of the selections, in order.
    pub open spec fn nodes_selected(self, events: Seq<NodeSelected>) -> Self
        decreases events.len(),
    {
        if events.len() == 0 {
            self
        } else {
            self.nodes_selected(events.drop_last()).node_selected(events.last())
        }
    }

    /// After each of the deselections, in order.
    pub open spec fn nodes_deselected(self, events: Seq<NodeDeselected>) -> Self
        decreases events.len(),
    {
        if events.len() == 0 {
            self
        } else {
            self.nodes_deselected(events.drop_last()).node_deselected(events.last())
        }
    }

    /// After each of the deletions of nodes, in order.
    pub open spec fn nodes_deleted(self, events: Seq<VisualNodeDeleted>) -> Self
        decreases events.len(),
    {
        if events.len() == 0 {
            self
        } else {
            self.nodes_deleted(events.drop_last()).node_deleted(events.last())
        }
    }

    /// After each of the deletions of edges, in order.
    pub open spec fn edges_deleted(self, events: Seq<VisualEdgeDeleted>) -> Self
        decreases events.len(),
    {
        if events.len() == 0 {
            self
        } else {
            self.edges_deleted(events.drop_last()).edge_deleted(events.last())
        }
    }

    /// After the events of one tick: creations first, then moves, then
    /// selections and deselections, and deletions last.
    pub open spec fn after_tick(self, events: ProjectionEvents) -> Self {
        self.nodes_created(events.node_created@).edges_created(events.edge_created@).nodes_moved(
            events.node_moved@,
        ).nodes_selected(events.node_selected@).nodes_deselected(
            events.node_deselected@,
        ).nodes_deleted(events.node_deleted@).edges_deleted(events.edge_deleted@)
    }
}

/// The projection of the graph that queries read.
pub struct GraphViewProjection {
    nodes: HashMap<u128, NodeView>,
    edges: HashMap<u128, EdgeView>,
    selected_nodes: HashSet<u128>,
}

impl View for GraphViewProjection {
    type V = GraphView;

    closed spec fn view(&self) -> GraphView {
        GraphView {
            nodes: Map::new(
                |node: NodeId| self.nodes@.contains_key(node.0),
                |node: NodeId| self.nodes@[node.0],
            ),
            edge_entities: Map::new(
                |edge: EdgeId| self.edges@.contains_key(edge.0),
                |edge: EdgeId| self.edges@[edge.0].entity,
            ),
            selected_nodes: Set::new(|node: NodeId| self.selected_nodes@.contains(node.0)),
        }
    }
}

impl Default for GraphViewProjection {
    /// A projection that holds nothing.
    fn default() -> (projection: Self)
        ensures
            projection@ == GraphView::empty(),
    {
        let projection = GraphViewProjection {
            nodes: HashMap::new(),
            edges: HashMap::new(),
            selected_nodes: HashSet::new(),
        };
        assert(projection@.nodes =~= Map::<NodeId, NodeView>::empty());
        assert(projection@.edge_entities =~= Map::<EdgeId, EntityId>::empty());
        assert(projection@.selected_nodes =~= Set::<NodeId>::empty());
        projection
    }
}

impl GraphViewProjection {
    /// What is held of a node.
    pub fn node(&self, node_id: NodeId) -> (view: Option<NodeView>)
        ensures
            view is Some <==> self@.nodes.contains_key(node_id),
            view matches Some(found) ==> found == self@.nodes[node_id],
    {
        match self.nodes.get(&node_id.0) {
            Some(view) => Some(*view),
            None => None,
        }
    }

    /// What is held of an edge.
    pub fn edge(&self, edge_id: EdgeId) -> (view: Option<EdgeView>)
        ensures
            view is Some <==> self@.edge_entities.contains_key(edge_id),
            view matches Some(found) ==> found.entity == self@.edge_entities[edge_id],
    {
        match self.edges.get(&edge_id.0) {
            Some(view) => Some(*view),
            None => None,
        }
    }

    /// Whether a node is selected.
    pub fn is_selected(&self, node_id: NodeId) -> (selected: bool)
        ensures
            selected == self@.selected_nodes.contains(node_id),
    {
        self.selected_nodes.contains(&node_id.0)
    }

    /// Applies the creation of a node.
    pub fn apply_node_created(&mut self, event: &VisualNodeCreated)
        ensures
            final(self)@ == old(self)@.node_created(*event),
    {
        self.nodes.insert(
            event.node_id.0,
            NodeView { entity: event.entity, position: event.position, is_selected: false },
        );
        proof {
            assert(self@.nodes =~= old(self)@.node_created(*event).nodes);
            assert(self@.edge_entities =~= old(self)@.edge_entities);
            assert(self@.selected_nodes =~= old(self)@.selected_nodes);
        }
    }

    /// Applies the creation of an edge.
    pub fn apply_edge_created(&mut self, event: &VisualEdgeCreated)
        ensures
            final(self)@ == old(self)@.edge_created(*event),
    {
        self.edges.insert(
            event.edge_id.0,
            EdgeView {
                entity: event.entity,
                source_node_id: NodeId::new(),
                target_node_id: NodeId::new(),
            },
        );
        proof {
            assert(self@.nodes =~= old(self)@.nodes);
            assert(self@.edge_entities =~= old(self)@.edge_created(*event).edge_entities);
            assert(self@.selected_nodes =~= old(self)@.selected_nodes);
        }
    }

    /// Applies a move.
    pub fn apply_node_moved(&mut self, event: &NodeMoved)
        ensures
            final(self)@ == old(self)@.node_moved(*event),
    {
        let held = match self.nodes.get(&event.node_id.0) {
            Some(view) => Some(*view),
            None => None,
        };
        match held {
            Some(view) => {
                self.nodes.insert(
                    event.node_id.0,
                    NodeView {
                        entity: view.entity,
                        position: event.new_position,
                        is_selected: view.is_selected,
                    },
                );
            },
            None => {},
        }
        proof {
            assert(self@.nodes =~= old(self)@.node_moved(*event).nodes);
            assert(self@.edge_entities =~= old(self)@.edge_entities);
            assert(self@.selected_nodes =~= old(self)@.selected_nodes);
        }
    }

    fn mark(&mut self, node_id: NodeId, is_selected: bool)
        ensures
            final(self)@.nodes == old(self)@.marked(node_id, is_selected),
            final(self).edges == old(self).edges,
            final(self).selected_nodes == old(self).selected_nodes,
    {
        let held = match self.nodes.get(&node_id.0) {
            Some(view) => Some(*view),
            None => None,
        };
        match held {
            Some(view) => {
                self.nodes.insert(
                    node_id.0,
                    NodeView { entity: view.entity, position: view.position, is_selected },
                );
            },
            None => {},
        }
        proof {
            assert(self@.nodes =~= old(self)@.marked(node_id, is_selected));
        }
    }

    /// Applies a selection.
    pub fn apply_node_selected(&mut self, event: &NodeSelected)
        ensures
            final(self)@ == old(self)@.node_selected(*event),
    {
        self.selected_nodes.insert(event.node_id.0);
        self.mark(event.node_id, true);
        proof {
            assert(self@.edge_entities =~= old(self)@.edge_entities);
            assert(self@.selected_nodes =~= old(self)@.node_selected(*event).selected_nodes);
        }
    }

    /// Applies a deselection.
    pub fn apply_node_deselected(&mut self, event: &NodeDeselected)
        ensures
            final(self)@ == old(self)@.node_deselected(*event),
    {
        self.selected_nodes.remove(&event.node_id.0);
        self.mark(event.node_id, false);
        proof {
            assert(self@.edge_entities =~= old(self)@.edge_entities);
            assert(self@.selected_nodes =~= old(self)@.node_deselected(*event).selected_nodes);
        }
    }

    /// Applies the deletion of a node.
    pub fn apply_node_deleted(&mut self, event: &VisualNodeDeleted)
        ensures
            final(self)@ == old(self)@.node_deleted(*event),
    {
        self.nodes.remove(&event.node_id.0);
        self.selected_nodes.remove(&event.node_id.0);
        proof {
            assert(self@.nodes =~= old(self)@.node_deleted(*event).nodes);
            assert(self@.edge_entities =~= old(self)@.edge_entities);
            assert(self@.selected_nodes =~= old(self)@.node_deleted(*event).selected_nodes);
        }
    }

    /// Applies the deletion of an edge.
    pub fn apply_edge_deleted(&mut self, event: &VisualEdgeDeleted)
        ensures
            final(self)@ == old(self)@.edge_deleted(*event),
    {
        self.edges.remove(&event.edge_id.0);
        proof {
            assert(self@.nodes =~= old(self)@.nodes);
            assert(self@.edge_entities =~= old(self)@.edge_deleted(*event).edge_entities);
            assert(self@.selected_nodes =~= old(self)@.selected_nodes);
        }
    }
}

/// Applies the events of one tick to the projection.
pub fn update_graph_projection(projection: &mut GraphViewProjection, events: &ProjectionEvents)
    ensures
        final(projection)@ == old(projection)@.after_tick(*events),
{
    let ghost start = projection@;
    let mut i: usize = 0;
    while i < events.node_created.len()
        invariant
            i <= events.node_created@.len(),
            projection@ == start.nodes_created(events.node_created@.take(i as int)),
        decreases events.node_created@.len() - i,
    {
        proof {
            assert(events.node_created@.take(i + 1).drop_last() =~= events.node_created@.take(
                i as int,
            ));
        }
        projection.apply_node_created(&events.node_created[i]);
        i = i + 1;
    }
    proof {
        assert(events.node_created@.take(i as int) =~= events.node_created@);
    }
    let ghost start = projection@;
    let mut i: usize = 0;
    while i < events.edge_created.len()
        invariant
            i <= events.edge_created@.len(),
            projection@ == start.edges_created(events.edge_created@.take(i as int)),
        decreases events.edge_created@.len() - i,
    {
        proof {
            assert(events.edge_created@.take(i + 1).drop_last() =~= events.edge_created@.take(
                i as int,
            ));
        }
        projection.apply_edge_created(&events.edge_created[i]);
        i = i + 1;
    }
    proof {
        assert(events.edge_created@.take(i as int) =~= events.edge_created@);
    }
    let ghost start = projection@;
    let mut i: usize = 0;
    while i < events.node_moved.len()
        invariant
            i <= events.node_moved@.len(),
            projection@ == start.nodes_moved(events.node_moved@.take(i as int)),
        decreases events.node_moved@.len() - i,
    {
        proof {
            assert(events.node_moved@.take(i + 1).drop_last() =~= events.node_moved@.take(
                i as int,
            ));
        }
        projection.apply_node_moved(&events.node_moved[i]);
        i = i + 1;
    }
    proof {
        assert(events.node_moved@.take(i as int) =~= events.node_moved@);
    }
    let ghost start = projection@;
    let mut i: usize = 0;
    while i < events.node_selected.len()
        invariant
            i <= events.node_selected@.len(),
            projection@ == start.nodes_selected(events.node_selected@.take(i as int)),
        decreases events.node_selected@.len() - i,
    {
        proof {
            assert(events.node_selected@.take(i + 1).drop_last() =~= events.node_selected@.take(
                i as int,
            ));
        }
        projection.apply_node_selected(&events.node_selected[i]);
        i = i + 1;
    }
    proof {
        assert(events.node_selected@.take(i as int) =~= events.node_selected@);
    }
    let ghost start = projection@;
    let mut i: usize = 0;
    while i < events.node_deselected.len()
        invariant
            i <= events.node_deselected@.len(),
            projection@ == start.nodes_deselected(events.node_deselected@.take(i as int)),
        decreases events.node_deselected@.len() - i,
    {
        proof {
            assert(events.node_deselected@.take(i + 1).drop_last()
                =~= events.node_deselected@.take(i as int));
        }
        projection.apply_node_deselected(&events.node_deselected[i]);
        i = i + 1;
    }
    proof {
        assert(events.node_deselected@.take(i as int) =~= events.node_deselected@);
    }
    let ghost start = projection@;
    let mut i: usize = 0;
    while i < events.node_deleted.len()
        invariant
            i <= events.node_deleted@.len(),
            projection@ == start.nodes_deleted(events.node_deleted@.take(i as int)),
        decreases events.node_deleted@.len() - i,
    {
        proof {
            assert(events.node_deleted@.take(i + 1).drop_last() =~= events.node_deleted@.take(
                i as int,
            ));
        }
        projection.apply_node_deleted(&events.node_deleted[i]);
        i = i + 1;
    }
    proof {
        assert(events.node_deleted@.take(i as int) =~= events.node_deleted@);
    }
    let ghost start = projection@;
    let mut i: usize = 0;
    while i < events.edge_deleted.len()
        invariant
            i <= events.edge_deleted@.len(),
            projection@ == start.edges_deleted(events.edge_deleted@.take(i as int)),
        decreases events.edge_deleted@.len() - i,
    {
        proof {
            assert(events.edge_deleted@.take(i + 1).drop_last() =~= events.edge_deleted@.take(
                i as int,
            ));
        }
        projection.apply_edge_deleted(&events.edge_deleted[i]);
        i = i + 1;
    }
    proof {
        assert(events.edge_deleted@.take(i as int) =~= events.edge_deleted@);
    }
}

/// Where each node stands, in the order in which the nodes were created.
#[derive(Debug, Clone, PartialEq, Eq)]
pub struct SpatialIndexProjection {
    pub node_positions: Vec<(NodeId, Position)>,
}

impl Default for SpatialIndexProjection {
    /// An index without nodes.
    fn default() -> (index: Self)
        ensures
            index.node_positions@.len() == 0,
    {
        SpatialIndexProjection { node_positions: Vec::new() }
    }
}

/// The entries with the first one of the node `node_id` moved to
/// `position`. Entries of other nodes stay, and so does everything where
/// the node has no entry.
pub open spec fn repositioned(
    entries: Seq<(NodeId, Position)>,
    node_id: NodeId,
    position: Position,
) -> Seq<(NodeId, Position)>
    decreases entries.len(),
{
    if entries.len() == 0 {
        entries
    } else if entries.first().0 == node_id {
        entries.update(0, (node_id, position))
    } else {
        seq![entries.first()] + repositioned(entries.drop_first(), node_id, position)
    }
}

/// The entries without those of the node `node_id`.
pub open spec fn without_node(entries: Seq<(NodeId, Position)>, node_id: NodeId) -> Seq<
    (NodeId, Position),
>
    decreases entries.len(),
{
    if entries.len() == 0 {
        Seq::empty()
    } else if entries.last().0 == node_id {
        without_node(entries.drop_last(), node_id)
    } else {
        without_node(entries.drop_last(), node_id).push(entries.last())
    }
}

/// The entries after each of the creations, in order: one new last entry
/// for each.
pub open spec fn with_created(entries: Seq<(NodeId, Position)>, events: Seq<VisualNodeCreated>) -> Seq<
    (NodeId, Position),
>
    decreases events.len(),
{
    if events.len() == 0 {
        entries
    } else {
        with_created(entries, events.drop_last()).push(
            (events.last().node_id, events.last().position),
        )
    }
}

/// The entries after each of the moves, in order.
pub open spec fn with_moved(entries: Seq<(NodeId, Position)>, events: Seq<NodeMoved>) -> Seq<
    (NodeId, Position),
>
    decreases events.len(),
{
    if events.len() == 0 {
        entries
    } else {
        repositioned(
            with_moved(entries, events.drop_last()),
            events.last().node_id,
            events.last().new_position,
        )
    }
}

/// The entries after each of the deletions, in order.
pub open spec fn with_deleted(entries: Seq<(NodeId, Position)>, events: Seq<VisualNodeDeleted>) -> Seq<
    (NodeId, Position),
>
    decreases events.len(),
{
    if events.len() == 0 {
        entries
    } else {
        without_node(with_deleted(entries, events.drop_last()), events.last().node_id)
    }
}

/// Where the node stands at `i` and nowhere before, that entry moves and
/// all else stays.
pub proof fn lemma_repositioned_at(
    entries: Seq<(NodeId, Position)>,
    node_id: NodeId,
    position: Position,
    i: int,
)
    requires
        0 <= i < entries.len(),
        entries[i].0 == node_id,
        forall|j: int| 0 <= j < i ==> (#[trigger] entries[j]).0 != node_id,
    ensures
        repositioned(entries, node_id, position) == entries.update(i, (node_id, position)),
    decreases entries.len(),
{
    if i > 0 {
        let rest = entries.drop_first();
        assert forall|j: int| 0 <= j < i - 1 implies (#[trigger] rest[j]).0 != node_id by {
            assert(rest[j] == entries[j + 1]);
        }
        lemma_repositioned_at(rest, node_id, position, i - 1);
        assert(repositioned(entries, node_id, position) =~= entries.update(i, (node_id, position)));
    }
}

/// Moving a node that has no entry changes nothing.
pub proof fn lemma_repositioned_absent(
    entries: Seq<(NodeId, Position)>,
    node_id: NodeId,
    position: Position,
)
    requires
        forall|j: int| 0 <= j < entries.len() ==> (#[trigger] entries[j]).0 != node_id,
    ensures
        repositioned(entries, node_id, position) == entries,
    decreases entries.len(),
{
    if entries.len() > 0 {
        let rest = entries.drop_first();
        assert(entries[0].0 != node_id);
        assert forall|j: int| 0 <= j < rest.len() implies (#[trigger] rest[j]).0 != node_id by {
            assert(rest[j] == entries[j + 1]);
        }
        lemma_repositioned_absent(rest, node_id, position);
        assert(repositioned(entries, node_id, position) =~= entries);
    }
}

fn reposition(entries: &mut Vec<(NodeId, Position)>, node_id: NodeId, position: Position)
    ensures
        final(entries)@ == repositioned(old(entries)@, node_id, position),
{
    let mut i: usize = 0;
    while i < entries.len()
        invariant
            i <= entries@.len(),
            entries@ == old(entries)@,
            forall|j: int| 0 <= j < i ==> (#[trigger] entries@[j]).0 != node_id,
        decreases entries@.len() - i,
    {
        if entries[i].0 == node_id {
            proof {
                lemma_repositioned_at(entries@, node_id, position, i as int);
            }
            entries.set(i, (node_id, position));
            return ;
        }
        i = i + 1;
    }
    proof {
        lemma_repositioned_absent(entries@, node_id, position);
    }
}

fn remove_node(entries: &mut Vec<(NodeId, Position)>, node_id: NodeId)
    ensures
        final(entries)@ == without_node(old(entries)@, node_id),
{
    let mut kept: Vec<(NodeId, Position)> = Vec::new();
    let mut i: usize = 0;
    while i < entries.len()
        invariant
            i <= entries@.len(),
            entries@ == old(entries)@,
            kept@ == without_node(entries@.take(i as int), node_id),
        decreases entries@.len() - i,
    {
        proof {
            assert(entries@.take(i + 1).drop_last() =~= entries@.take(i as int));
        }
        if entries[i].0 != node_id {
            kept.push(entries[i]);
        }
        i = i + 1;
    }
    proof {
        assert(entries@.take(i as int) =~= entries@);
    }
    *entries = kept;
}

/// Applies the events of one tick to the index: created nodes get an entry,
/// moved nodes a new position, and deleted nodes lose their entries.
pub fn update_spatial_index(
    index: &mut SpatialIndexProjection,
    node_created: &Vec<VisualNodeCreated>,
    node_moved: &Vec<NodeMoved>,
    node_deleted: &Vec<VisualNodeDeleted>,
)
    ensures
        final(index).node_positions@ == with_deleted(
            with_moved(with_created(old(index).node_positions@, node_created@), node_moved@),
            node_deleted@,
        ),
{
    let ghost start = index.node_positions@;
    let mut i: usize = 0;
    while i < node_created.len()
        invariant
            i <= node_created@.len(),
            index.node_positions@ == with_created(start, node_created@.take(i as int)),
        decreases node_created@.len() - i,
    {
        proof {
            assert(node_created@.take(i + 1).drop_last() =~= node_created@.take(i as int));
        }
        index.node_positions.push((node_created[i].node_id, node_created[i].position));
        i = i + 1;
    }
    proof {
        assert(node_created@.take(i as int) =~= node_created@);
    }
    let ghost start = index.node_positions@;
    let mut i: usize = 0;
    while i < node_moved.len()
        invariant
            i <= node_moved@.len(),
            index.node_positions@ == with_moved(start, node_moved@.take(i as int)),
        decreases node_moved@.len() - i,
    {
        proof {
            assert(node_moved@.take(i + 1).drop_last() =~= node_moved@.take(i as int));
        }
        reposition(&mut index.node_positions, node_moved[i].node_id, node_moved[i].new_position);
        i = i + 1;
    }
    proof {
        assert(node_moved@.take(i as int) =~= node_moved@);
    }
    let ghost start = index.node_positions@;
    let mut i: usize = 0;
    while i < node_deleted.len()
        invariant
            i <= node_deleted@.len(),
            index.node_positions@ == with_deleted(start, node_deleted@.take(i as int)),
        decreases node_deleted@.len() - i,
    {
        proof {
            assert(node_deleted@.take(i + 1).drop_last() =~= node_deleted@.take(i as int));
        }
        remove_node(&mut index.node_positions, node_deleted[i].node_id);
        i = i + 1;
    }
    proof {
        assert(node_deleted@.take(i as int) =~= node_deleted@);
    }
}

} // verus!
