//! A bridge between a graph domain and a tick-driven visual layer.
//!
//! Domain events travel towards the visual layer and visualization commands
//! travel back, each through a bounded queue that never blocks the caller.
//!
//! Every function of this crate carries a contract. Verus proves the
//! contracts from the bodies, but for the few functions that call into
//! another crate: what those say of the other crate is stated and believed.

pub mod ids;
pub mod position;
pub mod events;
pub mod channel;
pub mod bridge;
pub mod laws;
pub mod components;
pub mod functors;
pub mod resources;
pub mod morphisms;
pub mod handlers;
pub mod time;
pub mod json;
pub mod event_stream;
pub mod text;
pub mod filters;
pub mod tally;
pub mod filter_state;
pub mod statistics;
pub mod component_sync;
pub mod queries;
pub mod edge_systems;
pub mod layout;
pub mod projections;
