//! Coarse game states: whose turn it is, and which interaction surface is
//! active.

use vstd::prelude::*;

verus! {

/// The turn state: the pre-game setup phase, or one player's turn.
#[derive(Copy, Clone, Debug, Default, PartialEq, Eq, Structural, Hash)]
pub enum TurnStates {
    #[default]
    Setup,
    PlayerTurn(u8),
    PlayerCleanup(u8),
}

/// The interaction mode: the main loop, a choice prompt between fixed
/// options, or a card selection.
#[derive(Copy, Clone, Debug, Default, PartialEq, Eq, Structural, Hash)]
pub enum GameStates {
    /// Cards and buttons are interactive; events dispatch normally.
    #[default]
    MainLoop,
    /// A choice prompt is open: events are buffered until it closes.
    ChoiceInput,
    /// A card selection is open: clicks pick selectable cards.
    SelectionInput,
}

} // verus!
