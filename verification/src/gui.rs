//! Results handed back by the input and menu collaborators. The collaborators
//! themselves (drawing, key handling) live outside this core; each frame their
//! answers arrive as plain values.

use vstd::prelude::*;

verus! {

/// The option highlighted or chosen on the main menu.
#[derive(Clone, Copy, PartialEq, Eq, Structural, Debug)]
pub enum MainMenuSelection {
    NewGame,
    LoadGame,
    Quit,
}

/// What an item menu (inventory, drop, remove, targeting) answered.
#[derive(Clone, Copy, PartialEq, Eq, Structural, Debug)]
pub enum ItemMenuResult {
    Cancel,
    NoResponse,
    Selected,
}

/// What the main menu answered.
#[derive(Clone, Copy, PartialEq, Eq, Structural, Debug)]
pub enum MainMenuResult {
    NoSelection { selected: MainMenuSelection },
    Selected { selected: MainMenuSelection },
}

/// What the game-over prompt answered.
#[derive(Clone, Copy, PartialEq, Eq, Structural, Debug)]
pub enum GameOverResult {
    NoSelection,
    QuitToMenu,
}

/// What the cheat menu answered.
#[derive(Clone, Copy, PartialEq, Eq, Structural, Debug)]
pub enum CheatMenuResult {
    Cancel,
    NoResponse,
    TeleportToExit,
}

} // verus!
