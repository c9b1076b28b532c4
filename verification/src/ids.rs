//! Identifiers of graphs, nodes, edges and host entities.
//!
//! Graph, node and edge identifiers are UUIDs held as their 128 bits, most
//! significant byte first. A host entity is named by the 64 bits under which
//! the host's entity store knows it.

use vstd::prelude::*;

verus! {

/// Whether `bits` carries the version and variant fields of a random
/// (version 4) UUID: the four version bits hold 4 and the two variant bits
/// hold binary 10.
pub open spec fn is_random_uuid(bits: u128) -> bool {
    bits & 0x0000_0000_0000_f000_c000_0000_0000_0000u128
        == 0x0000_0000_0000_4000_8000_0000_0000_0000u128
}

/// Draws a fresh identifier with `uuid::Uuid::new_v4` and hands back its bits
/// as `Uuid::as_u128` gives them. The value depends on the system's random
/// source, so the contract claims only what holds of every draw: the version
/// and variant fields that `new_v4` sets by mask.
#[verifier::external_body]
fn random_uuid_bits() -> (bits: u128)
    ensures
        is_random_uuid(bits),
{
    uuid::Uuid::new_v4().as_u128()
}

/// Draws a fresh identifier with `uuid::Uuid::new_v4` and prints it with the
/// `Display` of `Uuid`. Nothing is claimed of the text: it depends on the
/// system's random source.
#[verifier::external_body]
pub(crate) fn random_uuid_text() -> (text: String) {
    uuid::Uuid::new_v4().to_string()
}

/// Identifier of a node of the domain graph.
#[derive(Clone, Copy, Debug, PartialEq, Eq, Hash, Structural)]
pub struct NodeId(pub u128);

/// Identifier of an edge of the domain graph.
#[derive(Clone, Copy, Debug, PartialEq, Eq, Hash, Structural)]
pub struct EdgeId(pub u128);

/// Identifier of a domain graph.
#[derive(Clone, Copy, Debug, PartialEq, Eq, Hash, Structural)]
pub struct GraphId(pub u128);

/// Name of an entity in the host's entity store.
#[derive(Clone, Copy, Debug, PartialEq, Eq, Hash, Structural)]
pub struct EntityId(pub u64);

impl NodeId {
    /// A fresh random node identifier.
    pub fn new() -> (id: Self)
        ensures
            is_random_uuid(id.0),
    {
        NodeId(random_uuid_bits())
    }
}

impl EdgeId {
    /// A fresh random edge identifier.
    pub fn new() -> (id: Self)
        ensures
            is_random_uuid(id.0),
    {
        EdgeId(random_uuid_bits())
    }
}

impl GraphId {
    /// A fresh random graph identifier.
    pub fn new() -> (id: Self)
        ensures
            is_random_uuid(id.0),
    {
        GraphId(random_uuid_bits())
    }
}

} // verus!
