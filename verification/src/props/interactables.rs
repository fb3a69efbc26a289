//! Props that the player can interact with, as the level designer sets them
//! up.

use crate::gameplay::interaction::InteractableObject;
use crate::gameplay::objectives::ObjectiveCompletor;
use vstd::prelude::*;

verus! {

/// The designer's settings of an entity that can be interacted with.
#[derive(Debug, Clone)]
pub struct InteractableEntity {
    /// Whether this entity can be eaten.
    is_edible: bool,
    /// The name of the interaction, where it is not to be told from the
    /// entity being edible.
    interaction_text_override: Option<String>,
    /// The target name of the objective, if any, that interacting with this
    /// entity completes.
    completes_subobjective: Option<String>,
    /// The target name of the entity, if any, that is interacted with along
    /// with this one.
    interaction_relay: Option<String>,
}

/// Whether an entity becomes edible or stops being so.
#[derive(Debug, PartialEq, Eq, Structural, Clone, Copy)]
pub enum Edibility {
    /// The entity is marked edible, unless it is so already.
    Mark,
    /// The mark is taken off the entity.
    Unmark,
}

/// What setting up an interactable entity changes on it. Nothing here takes
/// the place of something the entity already has.
#[derive(Debug)]
pub struct InsertEffects {
    /// The interaction to give the entity, unless it has one.
    pub interactable: Option<InteractableObject>,
    /// What becomes of the entity's being edible.
    pub edible: Option<Edibility>,
    /// The objective link to give the entity, unless it has one.
    pub completor: Option<ObjectiveCompletor>,
}

impl InteractableEntity {
    /// Settings with the given values.
    pub fn new(
        is_edible: bool,
        interaction_text_override: Option<String>,
        completes_subobjective: Option<String>,
        interaction_relay: Option<String>,
    ) -> (r: Self)
        ensures
            r.is_edible() == is_edible,
            r.interaction_text_override() == interaction_text_override,
            r.completes_subobjective() == completes_subobjective,
            r.interaction_relay() == interaction_relay,
    {
        InteractableEntity {
            is_edible,
            interaction_text_override,
            completes_subobjective,
            interaction_relay,
        }
    }

    pub closed spec fn is_edible(&self) -> bool {
        self.is_edible
    }

    pub closed spec fn interaction_text_override(&self) -> Option<String> {
        self.interaction_text_override
    }

    pub closed spec fn completes_subobjective(&self) -> Option<String> {
        self.completes_subobjective
    }

    pub closed spec fn interaction_relay(&self) -> Option<String> {
        self.interaction_relay
    }

    /// Decides what setting up the entity changes on it. In a world that
    /// only holds a scene being loaded nothing is set up. Elsewhere the
    /// entity gets its interaction where a name is given for one, is marked
    /// edible or loses that mark, and gets its objective link where it
    /// completes an objective.
    pub fn on_insert(&self, is_scene_world: bool) -> (r: InsertEffects)
        ensures
            is_scene_world ==> r.interactable is None && r.edible is None && r.completor is None,
            !is_scene_world ==> {
                &&& match self.interaction_text_override() {
                    Some(text) => r.interactable matches Some(object) && object.0 == Some(text),
                    None => r.interactable is None,
                }
                &&& r.edible == Some(
                    if self.is_edible() {
                        Edibility::Mark
                    } else {
                        Edibility::Unmark
                    },
                )
                &&& match self.completes_subobjective() {
                    Some(name) => r.completor matches Some(completor) && completor.target == name,
                    None => r.completor is None,
                }
            },
    {
        if is_scene_world {
            return InsertEffects { interactable: None, edible: None, completor: None };
        }
        let interactable = match &self.interaction_text_override {
            Some(text) => Some(InteractableObject(Some(text.clone()))),
            None => None,
        };
        let edible = if self.is_edible {
            Edibility::Mark
        } else {
            Edibility::Unmark
        };
        let completor = match &self.completes_subobjective {
            Some(name) => Some(ObjectiveCompletor { target: name.clone() }),
            None => None,
        };
        InsertEffects { interactable, edible: Some(edible), completor }
    }

    pub fn get_is_edible(&self) -> (r: bool)
        ensures
            r == self.is_edible(),
    {
        self.is_edible
    }

    pub fn get_interaction_text_override(&self) -> (r: Option<&str>)
        ensures
            r is Some == self.interaction_text_override() is Some,
            r matches Some(text) ==> text@ == self.interaction_text_override()->0@,
    {
        match &self.interaction_text_override {
            Some(text) => Some(text.as_str()),
            None => None,
        }
    }

    pub fn get_completes_subobjective(&self) -> (r: Option<&str>)
        ensures
            r is Some == self.completes_subobjective() is Some,
            r matches Some(text) ==> text@ == self.completes_subobjective()->0@,
    {
        match &self.completes_subobjective {
            Some(text) => Some(text.as_str()),
            None => None,
        }
    }

    pub fn get_interaction_relay(&self) -> (r: Option<&str>)
        ensures
            r is Some == self.interaction_relay() is Some,
            r matches Some(text) ==> text@ == self.interaction_relay()->0@,
    {
        match &self.interaction_relay {
            Some(text) => Some(text.as_str()),
            None => None,
        }
    }
}

impl Default for InteractableEntity {
    fn default() -> (r: Self)
        ensures
            !r.is_edible(),
            r.interaction_text_override() is None,
            r.completes_subobjective() is None,
            r.interaction_relay() is None,
    {
        InteractableEntity {
            is_edible: false,
            interaction_text_override: None,
            completes_subobjective: None,
            interaction_relay: None,
        }
    }
}

} // verus!
