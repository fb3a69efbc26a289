//! The screens the game moves through.

use vstd::prelude::*;

verus! {

/// The screen the game is on.
#[derive(Debug, PartialEq, Eq, Structural, Clone, Copy, Hash)]
pub enum Screen {
    Title,
    Loading,
    Gameplay,
}

} // verus!
