//! Which layout each graph is shown in.
//!
//! Placing nodes is the host's work. This module keeps the choice of layout
//! for each graph and says which one applies.

use std::collections::HashMap;
use vstd::prelude::*;
use crate::ids::GraphId;
use crate::resources::ActiveGraph;

verus! {

broadcast use vstd::std_specs::hash::group_hash_axioms;

/// A way of placing the nodes of a graph.
#[derive(Debug, Clone, Copy, PartialEq, Eq, Hash, Structural)]
pub enum LayoutType {
    ForceDirected,
    Hierarchical,
    Circular,
    Grid,
    Random,
}

/// A way of working on a graph by hand.
#[derive(Debug, Clone, Copy, PartialEq, Eq, Hash, Structural)]
pub enum InteractionMode {
    Select,
    Pan,
    Zoom,
    AddNode,
    AddEdge,
    Delete,
}

/// Command: show a graph in a layout.
#[derive(Debug, Clone, Copy, PartialEq, Eq, Structural)]
pub struct SetLayoutAlgorithm {
    pub graph_id: GraphId,
    pub layout_type: LayoutType,
}

/// The layout chosen for each graph, and the layout that each graph's hints
/// ask for.
pub struct GraphLayoutState {
    layout_algorithms: HashMap<u128, LayoutType>,
    hinted_layouts: HashMap<u128, LayoutType>,
}

impl GraphLayoutState {
    /// The layout chosen for each graph.
    pub closed spec fn chosen(self) -> Map<GraphId, LayoutType> {
        Map::new(
            |graph: GraphId| self.layout_algorithms@.contains_key(graph.0),
            |graph: GraphId| self.layout_algorithms@[graph.0],
        )
    }

    /// The layout that each graph's hints ask for.
    pub closed spec fn hinted(self) -> Map<GraphId, LayoutType> {
        Map::new(
            |graph: GraphId| self.hinted_layouts@.contains_key(graph.0),
            |graph: GraphId| self.hinted_layouts@[graph.0],
        )
    }

    /// The layout that applies to the graph that is shown: the one chosen
    /// for it, the force-directed one where none was chosen, and none where
    /// no graph is shown.
    pub open spec fn applicable(self, active: ActiveGraph) -> Option<LayoutType> {
        match active.graph_id {
            Some(graph) => if self.chosen().contains_key(graph) {
                Some(self.chosen()[graph])
            } else {
                Some(LayoutType::ForceDirected)
            },
            None => None,
        }
    }
}

impl Default for GraphLayoutState {
    /// Nothing chosen, nothing hinted.
    fn default() -> (state: Self)
        ensures
            state.chosen() == Map::<GraphId, LayoutType>::empty(),
            state.hinted() == Map::<GraphId, LayoutType>::empty(),
    {
        let state = GraphLayoutState {
            layout_algorithms: HashMap::new(),
            hinted_layouts: HashMap::new(),
        };
        assert(state.chosen() =~= Map::<GraphId, LayoutType>::empty());
        assert(state.hinted() =~= Map::<GraphId, LayoutType>::empty());
        state
    }
}

impl GraphLayoutState {
    /// Records the layout that a graph's hints ask for.
    pub fn set_hint(&mut self, graph_id: GraphId, layout_type: LayoutType)
        ensures
            final(self).hinted() == old(self).hinted().insert(graph_id, layout_type),
            final(self).chosen() == old(self).chosen(),
    {
        self.hinted_layouts.insert(graph_id.0, layout_type);
        assert(self.hinted() =~= old(self).hinted().insert(graph_id, layout_type));
    }

    /// The layout that applies to the graph that is shown.
    pub fn apply_layout_algorithm(&self, active_graph: &ActiveGraph) -> (layout: Option<
        LayoutType,
    >)
        ensures
            layout == self.applicable(*active_graph),
    {
        match active_graph.graph_id {
            Some(graph) => match self.layout_algorithms.get(&graph.0) {
                Some(layout) => Some(*layout),
                None => Some(LayoutType::ForceDirected),
            },
            None => None,
        }
    }

    /// Chooses for the graph that is shown the layout that its hints ask
    /// for. Without a graph or without hints nothing changes.
    pub fn update_layout_from_hints(&mut self, active_graph: &ActiveGraph)
        ensures
            final(self).hinted() == old(self).hinted(),
            final(self).chosen() == match active_graph.graph_id {
                Some(graph) => if old(self).hinted().contains_key(graph) {
                    old(self).chosen().insert(graph, old(self).hinted()[graph])
                } else {
                    old(self).chosen()
                },
                None => old(self).chosen(),
            },
    {
        match active_graph.graph_id {
            Some(graph) => {
                let hinted = match self.hinted_layouts.get(&graph.0) {
                    Some(layout) => Some(*layout),
                    None => None,
                };
                match hinted {
                    Some(layout) => {
                        self.layout_algorithms.insert(graph.0, layout);
                        assert(self.chosen() =~= old(self).chosen().insert(graph, layout));
                    },
                    None => {},
                }
            },
            None => {},
        }
    }

    /// Carries out a command: the graph it names is shown in the layout it
    /// names from now on.
    pub fn handle_layout_command(&mut self, command: &SetLayoutAlgorithm)
        ensures
            final(self).hinted() == old(self).hinted(),
            final(self).chosen() == old(self).chosen().insert(
                command.graph_id,
                command.layout_type,
            ),
    {
        self.layout_algorithms.insert(command.graph_id.0, command.layout_type);
        assert(self.chosen() =~= old(self).chosen().insert(command.graph_id, command.layout_type));
    }
}

} // verus!
