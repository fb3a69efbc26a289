//! Objectives and how they hang together.
//!
//! An objective may be a sub-objective of another one. The engine keeps both
//! directions of that relation: every sub-objective names its parent, and
//! every parent lists its sub-objectives.

use crate::entity::Entity;
use vstd::prelude::*;
use vstd::string::StringExecFns;

pub mod ui;

verus! {

/// A game objective.
#[derive(Debug)]
pub struct Objective {
    /// The description of the objective.
    pub description: String,
}

impl Objective {
    /// Creates a new objective with the given description.
    pub fn new(description: &str) -> (r: Self)
        ensures
            r.description@ == description@,
    {
        Objective { description: String::from_str(description) }
    }
}

impl Default for Objective {
    fn default() -> (r: Self)
        ensures
            r.description@ == Seq::<char>::empty(),
    {
        Objective { description: String::new() }
    }
}

/// Links a sub-objective to its parent objective.
#[derive(Debug, PartialEq, Eq, Structural, Clone, Copy)]
pub struct SubObjectiveOf {
    /// The parent objective entity.
    pub objective: Entity,
}

/// All sub-objectives of a parent objective.
#[derive(Debug)]
pub struct SubObjectives(pub Vec<Entity>);

impl View for SubObjectives {
    type V = Seq<Entity>;

    open spec fn view(&self) -> Seq<Entity> {
        self.0@
    }
}

impl Default for SubObjectives {
    fn default() -> (r: Self)
        ensures
            r@ == Seq::<Entity>::empty(),
    {
        SubObjectives(Vec::new())
    }
}

/// Marks an entity whose use completes the objective of the given target
/// name.
#[derive(Debug)]
pub struct ObjectiveCompletor {
    /// The target name of the objective to complete.
    pub target: String,
}

} // verus!
