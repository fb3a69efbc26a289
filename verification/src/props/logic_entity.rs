//! Entities without a body that carry the logic of a level.

use crate::entity::{contains, Entity};
use vstd::prelude::*;

verus! {

/// What becomes of an objective that has yet to find its place in the tree
/// of objectives.
#[derive(Debug, PartialEq, Eq, Structural, Clone, Copy)]
pub enum ObjectiveLink {
    /// It names no parent: it is a top-level objective from now on.
    TopLevel,
    /// It is a sub-objective of the given objective from now on.
    SubObjectiveOf(Entity),
    /// The parent it names is not there yet: it has to be looked at again.
    Unresolved,
}

/// `parent` is the first of `named` that is among `objectives`.
pub open spec fn is_first_objective(named: Seq<Entity>, objectives: Seq<Entity>, parent: Entity)
    -> bool {
    exists|i: int|
        {
            &&& 0 <= i < named.len()
            &&& (#[trigger] named[i]) == parent
            &&& objectives.contains(parent)
            &&& forall|j: int| 0 <= j < i ==> !objectives.contains(#[trigger] named[j])
        }
}

/// Decides the place of an objective in the tree. An objective that names
/// no parent is a top-level one. One that names a parent becomes the
/// sub-objective of the first entity of that target name that is an
/// objective, and stays unresolved while there is none.
///
/// `named` are the entities that bear the target name the objective gives
/// for its parent, in the order the engine lists them; `objectives` are the
/// entities that are objectives.
pub fn initialise_objective(has_target: bool, named: &Vec<Entity>, objectives: &Vec<Entity>) -> (r:
    ObjectiveLink)
    ensures
        match r {
            ObjectiveLink::TopLevel => !has_target,
            ObjectiveLink::SubObjectiveOf(parent) => has_target && is_first_objective(
                named@,
                objectives@,
                parent,
            ),
            ObjectiveLink::Unresolved => has_target && forall|i: int|
                0 <= i < named@.len() ==> !objectives@.contains(#[trigger] named@[i]),
        },
{
    if !has_target {
        return ObjectiveLink::TopLevel;
    }
    let mut i: usize = 0;
    while i < named.len()
        invariant
            has_target,
            i <= named@.len(),
            forall|j: int| 0 <= j < i ==> !objectives@.contains(#[trigger] named@[j]),
        decreases named@.len() - i,
    {
        if contains(objectives, named[i]) {
            return ObjectiveLink::SubObjectiveOf(named[i]);
        }
        i += 1;
    }
    ObjectiveLink::Unresolved
}

} // verus!
