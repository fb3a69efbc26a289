//! Rules of particular places in the levels.
//!
//! The break room: the objective to take a break bears the target name
//! `work_5`. Walking into the break room while that objective is the current
//! one completes it; so does the end of the break, which also calls the
//! player back to work.

use crate::entity::Entity;
use vstd::prelude::*;
use vstd::string::StringExecFns;

verus! {

/// The objectives of the world with their target names, in the order the
/// engine lists them.
#[derive(Debug)]
pub struct ObjectiveQuery {
    pub objectives: Vec<(Entity, String)>,
}

/// `entity` is the first of `objectives` that bears the target name.
pub open spec fn is_first_named(
    objectives: Seq<(Entity, String)>,
    name: Seq<char>,
    entity: Entity,
) -> bool {
    exists|i: int|
        {
            &&& 0 <= i < objectives.len()
            &&& (#[trigger] objectives[i]).1@ == name
            &&& objectives[i].0 == entity
            &&& forall|j: int| 0 <= j < i ==> (#[trigger] objectives[j]).1@ != name
        }
}

/// None of `objectives` bears the target name.
pub open spec fn none_named(objectives: Seq<(Entity, String)>, name: Seq<char>) -> bool {
    forall|i: int| 0 <= i < objectives.len() ==> (#[trigger] objectives[i]).1@ != name
}

/// The text of the error for an objective that is not there.
pub open spec fn not_found_message(name: Seq<char>) -> Seq<char> {
    "Failed to find objective "@ + name
}

impl ObjectiveQuery {
    /// The objective of the given target name: the first one listed that
    /// bears it. Fails where no objective bears the name.
    pub fn get_objective(&self, name: &str) -> (r: Result<Entity, String>)
        ensures
            match r {
                Ok(entity) => is_first_named(self.objectives@, name@, entity),
                Err(message) => {
                    &&& none_named(self.objectives@, name@)
                    &&& message@ == not_found_message(name@)
                },
            },
    {
        let wanted = name.to_owned();
        let mut i: usize = 0;
        while i < self.objectives.len()
            invariant
                i <= self.objectives@.len(),
                wanted@ == name@,
                forall|j: int| 0 <= j < i ==> (#[trigger] self.objectives@[j]).1@ != name@,
            decreases self.objectives@.len() - i,
        {
            if self.objectives[i].1 == wanted {
                return Ok(self.objectives[i].0);
            }
            i += 1;
        }
        let mut message = String::from_str("Failed to find objective ");
        message.append(name);
        Err(message)
    }
}

/// The target name of the objective to take a break.
pub open spec fn break_objective() -> Seq<char> {
    "work_5"@
}

/// The break is over: the objective to complete, which is the one to take a
/// break, if the world has it. With it the player is called back to work.
pub fn kick_out(objectives: &ObjectiveQuery) -> (r: Option<Entity>)
    ensures
        match r {
            Some(entity) => is_first_named(objectives.objectives@, break_objective(), entity),
            None => none_named(objectives.objectives@, break_objective()),
        },
{
    match objectives.get_objective("work_5") {
        Ok(entity) => Some(entity),
        Err(_) => None,
    }
}

/// The player walks into the break room: the objective to complete, which
/// is the current one if that is the objective to take a break.
/// `targetname` is the target name of the current objective, where it has
/// one.
pub fn tell_to_eat(current_objective: Option<Entity>, targetname: Option<&str>) -> (r: Option<
    Entity,
>)
    ensures
        r == if current_objective is Some && targetname is Some && targetname->0@
            == break_objective() {
            current_objective
        } else {
            None
        },
{
    let Some(current) = current_objective else {
        return None;
    };
    let Some(targetname) = targetname else {
        return None;
    };
    if targetname.to_owned() == "work_5".to_owned() {
        Some(current)
    } else {
        None
    }
}

} // verus!
