//! The decision parts of the input surface: which hit region each ability
//! slot of a rendered card occupies, and the click protocol of the card
//! selection surface. Pointer tracking and drawing live with the external
//! input and rendering collaborators.

use vstd::prelude::*;
use crate::state::GameState;
use crate::states::GameStates;
use crate::steps::spec_selected_ids;

verus! {

/// A hit region on a rendered card, in thousandths of the card's width and
/// height.
#[derive(Copy, Clone, Debug, Default, PartialEq, Eq, Structural)]
pub struct HitRect {
    pub min_x: u32,
    pub min_y: u32,
    pub max_x: u32,
    pub max_y: u32,
}

/// The hit region of one ability slot, given how many slots the card shows
/// and whether it is rendered as a ship: ships stack their regions along the
/// card's bottom text box, bases along its right edge.
pub open spec fn spec_check_area(count: u8, ship: bool, index: u8) -> HitRect {
    if count == 0 {
        HitRect { min_x: 0, min_y: 0, max_x: 0, max_y: 0 }
    } else if ship {
        if count == 1 {
            HitRect { min_x: 70, min_y: 55, max_x: 930, max_y: 315 }
        } else if index + 1 == count {
            HitRect { min_x: 70, min_y: 55, max_x: 930, max_y: 140 }
        } else if index == 0 {
            if count == 2 {
                HitRect { min_x: 70, min_y: 140, max_x: 930, max_y: 315 }
            } else {
                HitRect { min_x: 70, min_y: 230, max_x: 930, max_y: 315 }
            }
        } else if index == 1 && count == 3 {
            HitRect { min_x: 70, min_y: 140, max_x: 930, max_y: 230 }
        } else {
            HitRect { min_x: 0, min_y: 0, max_x: 0, max_y: 0 }
        }
    } else {
        if count == 1 {
            HitRect { min_x: 690, min_y: 40, max_x: 940, max_y: 960 }
        } else if index == 0 {
            HitRect { min_x: 690, min_y: 40, max_x: 815, max_y: 960 }
        } else if count == 3 {
            if index == 1 {
                HitRect { min_x: 815, min_y: 40, max_x: 940, max_y: 500 }
            } else if index == 2 {
                HitRect { min_x: 815, min_y: 500, max_x: 940, max_y: 960 }
            } else {
                HitRect { min_x: 0, min_y: 0, max_x: 0, max_y: 0 }
            }
        } else {
            HitRect { min_x: 815, min_y: 40, max_x: 940, max_y: 960 }
        }
    }
}

/// The hit region of one ability slot on a rendered card.
pub fn check_area(count: u8, ship: bool, index: u8) -> (r: HitRect)
    ensures
        r == spec_check_area(count, ship, index),
{
    if count == 0 {
        return HitRect { min_x: 0, min_y: 0, max_x: 0, max_y: 0 };
    }
    if ship {
        if count == 1 {
            HitRect { min_x: 70, min_y: 55, max_x: 930, max_y: 315 }
        } else if index.saturating_add(1) == count && index < u8::MAX {
            HitRect { min_x: 70, min_y: 55, max_x: 930, max_y: 140 }
        } else if index == 0 {
            if count == 2 {
                HitRect { min_x: 70, min_y: 140, max_x: 930, max_y: 315 }
            } else {
                HitRect { min_x: 70, min_y: 230, max_x: 930, max_y: 315 }
            }
        } else if index == 1 && count == 3 {
            HitRect { min_x: 70, min_y: 140, max_x: 930, max_y: 230 }
        } else {
            HitRect { min_x: 0, min_y: 0, max_x: 0, max_y: 0 }
        }
    } else {
        if count == 1 {
            HitRect { min_x: 690, min_y: 40, max_x: 940, max_y: 960 }
        } else if index == 0 {
            HitRect { min_x: 690, min_y: 40, max_x: 815, max_y: 960 }
        } else if count == 3 {
            if index == 1 {
                HitRect { min_x: 815, min_y: 40, max_x: 940, max_y: 500 }
            } else if index == 2 {
                HitRect { min_x: 815, min_y: 500, max_x: 940, max_y: 960 }
            } else {
                HitRect { min_x: 0, min_y: 0, max_x: 0, max_y: 0 }
            }
        } else {
            HitRect { min_x: 815, min_y: 40, max_x: 940, max_y: 960 }
        }
    }
}

/// Toggles the selected mark of a selectable card while the selection surface
/// is active; anything else is ignored.
pub fn selection_click(state: &mut GameState, card: usize)
    ensures
        if old(state).mode == GameStates::SelectionInput && card < old(state).cards@.len()
            && old(state).cards@[card as int].selectable {
            final(state).cards@ == old(state).cards@.update(
                card as int,
                crate::board::CardInstance {
                    selected: !old(state).cards@[card as int].selected,
                    ..old(state).cards@[card as int]
                },
            ) && *final(state) == (GameState { cards: final(state).cards, ..*old(state) })
        } else {
            *final(state) == *old(state)
        },
{
    if state.mode != GameStates::SelectionInput {
        return;
    }
    if card < state.cards.len() {
        let c = state.cards[card];
        if c.selectable {
            let mut nc = c;
            nc.selected = !nc.selected;
            state.cards.set(card, nc);
        }
    }
}

/// Confirms an open selection when the number of selected cards honors the
/// prompt's cardinality bounds; the surface then reports finished and the
/// waiting routine resumes on its next step.
pub fn selection_validation_button(state: &mut GameState) -> (confirmed: bool)
    ensures
        ({
            let picked = spec_selected_ids(old(state).cards@, old(state).cards@.len() as int)
                .len();
            let valid = !old(state).selection.finished
                && old(state).selection.min <= picked <= old(state).selection.max;
            &&& confirmed == valid
            &&& if valid {
                final(state).selection.finished
                    && final(state).selection.cards@ == old(state).selection.cards@
                    && final(state).selection.min == old(state).selection.min
                    && final(state).selection.max == old(state).selection.max
                    && *final(state) == (GameState {
                        selection: final(state).selection,
                        ..*old(state)
                    })
            } else {
                *final(state) == *old(state)
            }
        }),
{
    if state.selection.finished {
        return false;
    }
    let n = state.cards.len();
    let mut picked: usize = 0;
    let mut i: usize = 0;
    while i < n
        invariant
            i <= n,
            n == state.cards@.len(),
            picked == spec_selected_ids(state.cards@, i as int).len(),
            picked <= i,
            *state == *old(state),
        decreases n - i,
    {
        if state.cards[i].selected {
            picked = picked + 1;
        }
        i = i + 1;
    }
    if state.selection.min <= picked && picked <= state.selection.max {
        state.selection.finished = true;
        true
    } else {
        false
    }
}

/// A zone index narrowed to the width intents carry, stopping at the type's
/// limit.
pub open spec fn spec_slot_u32(index: usize) -> u32 {
    if index <= u32::MAX {
        index as u32
    } else {
        u32::MAX
    }
}

/// The intent a left click on a card produces, given where the card sits,
/// which ability region the pointer hit, and whose turn it is: hand cards are
/// played, used cards and own bases activate the hit ability, an enemy base
/// is attacked outright, and market-row or joker-deck cards are bought.
/// Clicks by a spectator produce nothing.
pub open spec fn spec_card_click_intent(
    owner: crate::cards::CardOwners,
    stack: crate::stacks::Stacks,
    index: usize,
    action: Option<u8>,
    playing: u8,
    acting: bool,
) -> Option<crate::events::GameEvents> {
    if !acting {
        None
    } else if stack == crate::stacks::Stacks::Hand
        && owner == crate::cards::CardOwners::Player(playing) {
        Some(crate::events::GameEvents::PlayCard((index % 256) as u8))
    } else if stack == crate::stacks::Stacks::UsedCards
        && owner == crate::cards::CardOwners::Player(playing) {
        match action {
            Some(a) => Some(crate::events::GameEvents::ActivateCard {
                base: false,
                index: spec_slot_u32(index),
                action: a,
            }),
            None => None,
        }
    } else if stack == crate::stacks::Stacks::Bases {
        match owner {
            crate::cards::CardOwners::Player(p) => if p == playing {
                match action {
                    Some(a) => Some(crate::events::GameEvents::ActivateCard {
                        base: true,
                        index: spec_slot_u32(index),
                        action: a,
                    }),
                    None => None,
                }
            } else {
                Some(crate::events::GameEvents::Attack {
                    as_much_as_possible: true,
                    player: p,
                    base_index: Some(spec_slot_u32(index)),
                })
            },
            crate::cards::CardOwners::Market => None,
        }
    } else if stack == crate::stacks::Stacks::MarketRow {
        Some(crate::events::GameEvents::BuyCard(crate::events::BuyFrom::Market(
            (index % 256) as u8,
        )))
    } else if stack == crate::stacks::Stacks::JokerDeck {
        Some(crate::events::GameEvents::BuyCard(crate::events::BuyFrom::Joker))
    } else {
        None
    }
}

/// Maps a left click on a card to the player intent it produces, if any:
/// `acting` says whether the click came from the player whose turn it is (or
/// from an inspection surface allowed to act for them), and `action` names
/// the ability region the pointer hit.
pub fn card_click_intent(
    owner: crate::cards::CardOwners,
    stack: crate::stacks::Stacks,
    index: usize,
    action: Option<u8>,
    playing: u8,
    acting: bool,
) -> (r: Option<crate::events::GameEvents>)
    ensures
        r == spec_card_click_intent(owner, stack, index, action, playing, acting),
{
    if !acting {
        return None;
    }
    let slot8 = (index % 256) as u8;
    let slot32 = if index <= u32::MAX as usize {
        index as u32
    } else {
        u32::MAX
    };
    if stack == crate::stacks::Stacks::Hand
        && owner == crate::cards::CardOwners::Player(playing) {
        Some(crate::events::GameEvents::PlayCard(slot8))
    } else if stack == crate::stacks::Stacks::UsedCards
        && owner == crate::cards::CardOwners::Player(playing) {
        match action {
            Some(a) => Some(crate::events::GameEvents::ActivateCard {
                base: false,
                index: slot32,
                action: a,
            }),
            None => None,
        }
    } else if stack == crate::stacks::Stacks::Bases {
        match owner {
            crate::cards::CardOwners::Player(p) => if p == playing {
                match action {
                    Some(a) => Some(crate::events::GameEvents::ActivateCard {
                        base: true,
                        index: slot32,
                        action: a,
                    }),
                    None => None,
                }
            } else {
                Some(crate::events::GameEvents::Attack {
                    as_much_as_possible: true,
                    player: p,
                    base_index: Some(slot32),
                })
            },
            crate::cards::CardOwners::Market => None,
        }
    } else if stack == crate::stacks::Stacks::MarketRow {
        Some(crate::events::GameEvents::BuyCard(crate::events::BuyFrom::Market(slot8)))
    } else if stack == crate::stacks::Stacks::JokerDeck {
        Some(crate::events::GameEvents::BuyCard(crate::events::BuyFrom::Joker))
    } else {
        None
    }
}

} // verus!
