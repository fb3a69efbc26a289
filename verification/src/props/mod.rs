//! Things placed in a level by its designer.

pub mod interactables;
pub mod levels;
pub mod logic_entity;
pub mod specific;
