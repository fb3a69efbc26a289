//! Engine entities as the rules see them.

use vstd::prelude::*;

verus! {

/// An entity of the engine, known by its bits. Two entities are the same
/// exactly when their bits are.
#[derive(Debug, PartialEq, Eq, Structural, Clone, Copy, Hash)]
pub struct Entity(pub u64);

/// Whether `entity` occurs in `entities`.
pub fn contains(entities: &Vec<Entity>, entity: Entity) -> (r: bool)
    ensures
        r == entities@.contains(entity),
{
    let mut i: usize = 0;
    while i < entities.len()
        invariant
            i <= entities@.len(),
            forall|j: int| 0 <= j < i ==> entities@[j] != entity,
        decreases entities@.len() - i,
    {
        if entities[i] == entity {
            return true;
        }
        i += 1;
    }
    false
}

/// Whether every one of `wanted` occurs in `entities`.
pub fn contains_all(entities: &Vec<Entity>, wanted: &Vec<Entity>) -> (r: bool)
    ensures
        r == forall|i: int| 0 <= i < wanted@.len() ==> entities@.contains(#[trigger] wanted@[i]),
{
    let mut i: usize = 0;
    while i < wanted.len()
        invariant
            i <= wanted@.len(),
            forall|j: int| 0 <= j < i ==> entities@.contains(#[trigger] wanted@[j]),
        decreases wanted@.len() - i,
    {
        if !contains(entities, wanted[i]) {
            return false;
        }
        i += 1;
    }
    true
}

} // verus!
