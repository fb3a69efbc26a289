//! Game rules of a first-person narrative game, kept apart from the engine
//! that runs them: every decision here is a function of plain values with a
//! contract, so the engine side only gathers inputs and carries out results.
//!
//! Engine entities appear as [`entity::Entity`], a plain number; engine
//! assets appear as paths or as slots that the engine side maps to handles.

pub mod audio;
pub mod entity;
pub mod gameplay;
pub mod menus;
pub mod props;
pub mod scatter;
pub mod screens;
