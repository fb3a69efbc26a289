//! Interacting with objects: what the player points at, and what a click or
//! the interact key triggers.

use crate::entity::Entity;
use vstd::prelude::*;

verus! {

/// Marks an entity as interactable, with the name of the interaction where
/// it has one.
#[derive(Debug)]
pub struct InteractableObject(pub Option<String>);

impl Default for InteractableObject {
    fn default() -> (r: Self)
        ensures
            r.0 is None,
    {
        InteractableObject(None)
    }
}

/// Whether there is an interaction available, and its name where it has one.
#[derive(Debug)]
pub struct AvailableInteraction {
    pub target_entity: Option<Entity>,
    pub description: Option<String>,
}

impl Default for AvailableInteraction {
    fn default() -> (r: Self)
        ensures
            r.target_entity is None,
            r.description is None,
    {
        AvailableInteraction { target_entity: None, description: None }
    }
}

/// Triggered when the given entity was interacted with.
#[derive(Debug, PartialEq, Eq, Structural, Clone, Copy)]
pub struct InteractEvent(pub Entity);

/// A click on an entity: an interactable one takes the click for itself and
/// is interacted with; any other lets the click pass.
pub fn picking_click_observer(clicked: Entity, interactable: bool) -> (r: Option<InteractEvent>)
    ensures
        r == if interactable {
            Some(InteractEvent(clicked))
        } else {
            None
        },
{
    if interactable {
        Some(InteractEvent(clicked))
    } else {
        None
    }
}

/// The interact key: the entity in focus is interacted with, provided there
/// is one and it is interactable.
pub fn interact_by_input_action(focused_object: &AvailableInteraction, interactable: bool) -> (r:
    Option<InteractEvent>)
    ensures
        r == match focused_object.target_entity {
            Some(entity) if interactable => Some(InteractEvent(entity)),
            _ => None,
        },
{
    match focused_object.target_entity {
        Some(entity) => if interactable {
            Some(InteractEvent(entity))
        } else {
            None
        },
        None => None,
    }
}

/// The pointer moved onto an entity. An interactable one comes into focus
/// under the name of its interaction; any other changes nothing.
pub fn watch_for_interactability_hover(
    resource: &mut AvailableInteraction,
    hovered: Entity,
    interaction: Option<&InteractableObject>,
)
    ensures
        match interaction {
            Some(object) => {
                &&& final(resource).target_entity == Some(hovered)
                &&& final(resource).description == object.0
            },
            None => *final(resource) == *old(resource),
        },
{
    if let Some(object) = interaction {
        resource.target_entity = Some(hovered);
        resource.description = match &object.0 {
            Some(text) => Some(text.clone()),
            None => None,
        };
    }
}

/// The pointer left an entity. If that entity was in focus, nothing is in
/// focus any more; leaving any other entity changes nothing.
pub fn watch_for_interactability_unhover(resource: &mut AvailableInteraction, left: Entity)
    ensures
        old(resource).target_entity == Some(left) ==> final(resource).target_entity is None
            && final(resource).description is None,
        old(resource).target_entity != Some(left) ==> *final(resource) == *old(resource),
{
    if let Some(entity) = resource.target_entity {
        if entity == left {
            resource.target_entity = None;
            resource.description = None;
        }
    }
}

} // verus!
