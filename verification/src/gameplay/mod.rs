//! What the player does and what the world answers.

pub mod interaction;
pub mod level;
pub mod objectives;
pub mod stomach;
