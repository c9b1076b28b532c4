//! Keeping host entities in step with components of the domain.
//!
//! The domain tells over the message bus which component was added to
//! which of its entities, updated or removed. A host entity is tied to a
//! domain entity by the domain entity's identifier. This module decides what
//! the host does for each such message.

use vstd::prelude::*;
use crate::ids::EntityId;

verus! {

/// A component as the domain sends it: the name of its kind and its data.
#[derive(Debug, Clone, PartialEq)]
pub struct EcsComponentData {
    pub component_type: String,
    pub data: serde_json::Value,
}

/// What the domain tells of a component. `entity_id` is the UUID of the
/// domain entity, held as its 128 bits.
#[derive(Debug, Clone, PartialEq)]
pub enum ComponentEvent {
    Added { entity_id: u128, component_data: EcsComponentData },
    Updated { entity_id: u128, component_data: EcsComponentData },
    Removed { entity_id: u128, component_type: String },
}

/// Marks a host entity as the counterpart of a domain entity.
#[derive(Debug, Clone, Copy, PartialEq, Eq, Structural)]
pub struct NatsSyncedEntity {
    pub entity_id: u128,
}

/// Marks a host entity whose component is still to be applied.
#[derive(Debug, Clone, PartialEq)]
pub struct PendingComponentUpdate {
    pub component_data: EcsComponentData,
}

/// A host entity with the mark that ties it to the domain.
#[derive(Debug, Clone, Copy, PartialEq, Eq, Structural)]
pub struct SyncedEntity {
    pub entity: EntityId,
    pub synced: NatsSyncedEntity,
}

/// What the host does for one message.
#[derive(Debug, Clone, PartialEq)]
pub enum SyncAction {
    /// Mark an entity: the component is to be applied to it.
    InsertPending { entity: EntityId, update: PendingComponentUpdate },
    /// Spawn an entity for the domain entity, marked with the component.
    Spawn { synced: NatsSyncedEntity, update: PendingComponentUpdate },
    /// Report that a component of an entity was removed.
    ReportRemoved { entity: EntityId, component_type: String },
    /// Nothing.
    Ignore,
}

/// `entities[i]` is the first entity tied to the domain entity `entity_id`.
pub open spec fn is_first_synced(entities: Seq<SyncedEntity>, entity_id: u128, i: int) -> bool {
    &&& 0 <= i < entities.len()
    &&& entities[i].synced.entity_id == entity_id
    &&& forall|j: int| 0 <= j < i ==> (#[trigger] entities[j]).synced.entity_id != entity_id
}

/// Some entity is tied to the domain entity `entity_id`.
pub open spec fn is_synced(entities: Seq<SyncedEntity>, entity_id: u128) -> bool {
    exists|i: int| 0 <= i < entities.len() && (#[trigger] entities[i]).synced.entity_id == entity_id
}

/// The first host entity tied to a domain entity.
pub fn find_synced(entities: &Vec<SyncedEntity>, entity_id: u128) -> (found: Option<EntityId>)
    ensures
        found is Some <==> is_synced(entities@, entity_id),
        found matches Some(entity) ==> exists|i: int|
            is_first_synced(entities@, entity_id, i) && entity == entities@[i].entity,
{
    let mut i: usize = 0;
    while i < entities.len()
        invariant
            i <= entities@.len(),
            forall|j: int| 0 <= j < i ==> (#[trigger] entities@[j]).synced.entity_id != entity_id,
        decreases entities@.len() - i,
    {
        if entities[i].synced.entity_id == entity_id {
            assert(is_first_synced(entities@, entity_id, i as int));
            return Some(entities[i].entity);
        }
        i = i + 1;
    }
    None
}

/// `action` is what the host does for a component that was added to the
/// domain entity `entity_id` or updated: apply it to the first host entity
/// tied to that domain entity, or spawn one where there is none.
pub open spec fn is_application(
    entities: Seq<SyncedEntity>,
    entity_id: u128,
    component_data: EcsComponentData,
    action: SyncAction,
) -> bool {
    if is_synced(entities, entity_id) {
        exists|i: int|
            is_first_synced(entities, entity_id, i) && action == (SyncAction::InsertPending {
                entity: entities[i].entity,
                update: PendingComponentUpdate { component_data },
            })
    } else {
        action == (SyncAction::Spawn {
            synced: NatsSyncedEntity { entity_id },
            update: PendingComponentUpdate { component_data },
        })
    }
}

/// `action` is what the host does for a component that was removed from
/// the domain entity `entity_id`: report it where a host entity is tied to
/// that domain entity, and nothing otherwise.
pub open spec fn is_removal(
    entities: Seq<SyncedEntity>,
    entity_id: u128,
    component_type: String,
    action: SyncAction,
) -> bool {
    if is_synced(entities, entity_id) {
        exists|i: int|
            is_first_synced(entities, entity_id, i) && action == (SyncAction::ReportRemoved {
                entity: entities[i].entity,
                component_type,
            })
    } else {
        action == SyncAction::Ignore
    }
}

/// Decides what the host does for one message.
pub fn process_nats_component_event(event: ComponentEvent, entities: &Vec<SyncedEntity>) -> (action:
    SyncAction)
    ensures
        event matches ComponentEvent::Added { entity_id, component_data } ==> is_application(
            entities@,
            entity_id,
            component_data,
            action,
        ),
        event matches ComponentEvent::Updated { entity_id, component_data } ==> is_application(
            entities@,
            entity_id,
            component_data,
            action,
        ),
        event matches ComponentEvent::Removed { entity_id, component_type } ==> is_removal(
            entities@,
            entity_id,
            component_type,
            action,
        ),
{
    match event {
        ComponentEvent::Added { entity_id, component_data } => apply_to(
            entities,
            entity_id,
            component_data,
        ),
        ComponentEvent::Updated { entity_id, component_data } => apply_to(
            entities,
            entity_id,
            component_data,
        ),
        ComponentEvent::Removed { entity_id, component_type } => match find_synced(
            entities,
            entity_id,
        ) {
            Some(entity) => SyncAction::ReportRemoved { entity, component_type },
            None => SyncAction::Ignore,
        },
    }
}

fn apply_to(entities: &Vec<SyncedEntity>, entity_id: u128, component_data: EcsComponentData) -> (action:
    SyncAction)
    ensures
        is_application(entities@, entity_id, component_data, action),
{
    match find_synced(entities, entity_id) {
        Some(entity) => SyncAction::InsertPending {
            entity,
            update: PendingComponentUpdate { component_data },
        },
        None => SyncAction::Spawn {
            synced: NatsSyncedEntity { entity_id },
            update: PendingComponentUpdate { component_data },
        },
    }
}

/// The kinds of component that the host knows how to show.
#[derive(Debug, Clone, Copy, PartialEq, Eq, Structural)]
pub enum ComponentKind {
    /// A position in space: the host moves the entity there.
    Position3D,
    /// A label: the host names the entity by it.
    Label,
    /// The state of a workflow.
    WorkflowState,
    /// A kind that the host does not know. Its update is dropped.
    Unknown,
}

/// The kind that a name of a component stands for.
pub open spec fn kind_of(component_type: Seq<char>) -> ComponentKind {
    if component_type == "Position3D"@ {
        ComponentKind::Position3D
    } else if component_type == "Label"@ {
        ComponentKind::Label
    } else if component_type == "WorkflowStateComponent"@ {
        ComponentKind::WorkflowState
    } else {
        ComponentKind::Unknown
    }
}

/// Tells the kind of a component by its name.
pub fn component_kind(component_type: &String) -> (kind: ComponentKind)
    ensures
        kind == kind_of(component_type@),
{
    if *component_type == "Position3D".to_owned() {
        ComponentKind::Position3D
    } else if *component_type == "Label".to_owned() {
        ComponentKind::Label
    } else if *component_type == "WorkflowStateComponent".to_owned() {
        ComponentKind::WorkflowState
    } else {
        ComponentKind::Unknown
    }
}

} // verus!
