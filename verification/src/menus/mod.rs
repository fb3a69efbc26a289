//! Menus shown over the game.

use vstd::prelude::*;

pub mod settings;

verus! {

/// The menu that is open, or `Closed` while the game itself is on screen.
#[derive(Debug, PartialEq, Eq, Structural, Clone, Copy, Hash)]
pub enum Menu {
    Closed,
    Main,
    Settings,
    Pause,
}

} // verus!
