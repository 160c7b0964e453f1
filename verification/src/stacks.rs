//! The fixed zone kinds ("stacks") that hold cards, and their index policy.

use vstd::prelude::*;

verus! {

/// A zone kind. Each owner (market or a player) holds at most one zone of
/// each kind; a zone is an ordered collection of cards addressed by index.
#[derive(Copy, Clone, Debug, Default, PartialEq, Eq, Structural, Hash)]
pub enum Stacks {
    #[default]
    MarketDeck,
    MarketRow,
    JokerDeck,
    Scrapyard,
    PlayerDeck,
    Hand,
    UsedCards,
    Bases,
    DiscardPile,
    Focused,
    Selection,
    Log,
}

/// Whether a zone preserves gaps in its indices when a card leaves it
/// (hand, used cards, market row, selection, log), as opposed to compacting
/// the remaining indices down.
pub open spec fn spec_keep_empty_spaces(s: Stacks) -> bool {
    match s {
        Stacks::MarketDeck => false,
        Stacks::MarketRow => true,
        Stacks::JokerDeck => false,
        Stacks::Scrapyard => false,
        Stacks::PlayerDeck => false,
        Stacks::Hand => true,
        Stacks::UsedCards => true,
        Stacks::Bases => false,
        Stacks::DiscardPile => false,
        Stacks::Focused => false,
        Stacks::Selection => true,
        Stacks::Log => true,
    }
}

impl Stacks {
    /// Index policy of this zone: keep gaps, or compact on removal.
    pub fn keep_empty_spaces(&self) -> (r: bool)
        ensures
            r == spec_keep_empty_spaces(*self),
    {
        match self {
            Stacks::MarketRow => true,
            Stacks::Hand => true,
            Stacks::UsedCards => true,
            Stacks::Selection => true,
            Stacks::Log => true,
            _ => false,
        }
    }
}

} // verus!
