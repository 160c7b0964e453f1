//! The routine scheduler queue: in-flight multi-tick board operations,
//! advanced strictly FIFO with explicit front-of-queue pre-emption.

use vstd::prelude::*;
use std::collections::VecDeque;
use crate::actions::{Action, ActionSet};
use crate::cards::{CardOwners, CardVisibility, KindMask};
use crate::stacks::Stacks;

verus! {

/// One filter of a selection prompt: which zones and owners are searched, and
/// which kinds and cost range qualify.
#[derive(Clone, Debug, Default)]
pub struct SelectionFilter {
    pub stacks: Vec<Stacks>,
    pub owners: Vec<CardOwners>,
    pub kinds: KindMask,
    pub min_cost: u8,
    pub max_cost: u8,
}

/// An in-flight multi-tick operation. Card handles are arena indices.
#[derive(Clone, Debug)]
pub enum Routines {
    /// Move the top deck card of the player into the first free hand slot,
    /// recycling and shuffling the discard pile first when the deck is empty.
    Draw { player: u8, drawn: Option<usize>, discard_to_deck: bool },
    /// Re-deal randomized indices to every card of the owner's zone.
    Shuffle { owner: CardOwners, stack: Stacks, running: bool },
    /// Refill one market-row slot from the market deck, recycling the
    /// scrapyard first when the deck is empty.
    ReloadMarket { slot: u8, card: Option<usize>, scrapyard_to_deck: bool },
    /// The general zone-transfer primitive.
    PushCardToStack {
        card: usize,
        owner: CardOwners,
        stack: Stacks,
        index: Option<usize>,
        visibility: CardVisibility,
        running: bool,
    },
    /// Resolve one ability slot of one card, prompting for choices where the
    /// set requires them.
    ActivateCard { card: usize, owner: u8, index: u8, set: ActionSet, running: bool },
    /// Resolve one atomic action.
    CardAction { card: usize, owner: u8, ability_index: u8, action_index: u8, action: Action },
    /// Prompt the player to pick `min..=max` cards matching the filters.
    Selection { filters: Vec<SelectionFilter>, min: usize, max: usize, running: bool },
}

/// The routine a draw enqueues.
pub open spec fn spec_draw_routine(player: u8) -> Routines {
    Routines::Draw { player, drawn: None, discard_to_deck: false }
}

/// The routine that moves a card to the top of the player's discard pile.
pub open spec fn spec_discard_routine(player: u8, card: usize) -> Routines {
    Routines::PushCardToStack {
        card,
        owner: CardOwners::Player(player),
        stack: Stacks::DiscardPile,
        index: Some(0),
        visibility: CardVisibility::Visible,
        running: false,
    }
}

/// The routine that moves a card to the scrapyard.
pub open spec fn spec_scrap_routine(card: usize) -> Routines {
    Routines::PushCardToStack {
        card,
        owner: CardOwners::Market,
        stack: Stacks::Scrapyard,
        index: Some(0),
        visibility: CardVisibility::Visible,
        running: false,
    }
}

/// The routine that refills one market-row slot.
pub open spec fn spec_reload_routine(slot: u8) -> Routines {
    Routines::ReloadMarket { slot, card: None, scrapyard_to_deck: false }
}

/// The routine that shuffles one zone.
pub open spec fn spec_shuffle_routine(owner: CardOwners, stack: Stacks) -> Routines {
    Routines::Shuffle { owner, stack, running: false }
}

/// Whether the routine is a fresh selection prompt over a single filter with
/// these bounds.
pub open spec fn spec_simple_selection(
    r: Routines,
    min: usize,
    max: usize,
    stack: Stacks,
    owner: CardOwners,
    kinds: KindMask,
    min_cost: u8,
    max_cost: u8,
) -> bool {
    r matches Routines::Selection { filters, min: m, max: x, running }
        && m == min && x == max && !running
        && filters@.len() == 1
        && filters@[0].stacks@ == seq![stack]
        && filters@[0].owners@ == seq![owner]
        && filters@[0].kinds == kinds
        && filters@[0].min_cost == min_cost
        && filters@[0].max_cost == max_cost
}

/// Whether the routine is a fresh selection prompt over one filter spanning
/// two zones of one owner, any kind, any cost.
pub open spec fn spec_two_stack_selection(
    r: Routines,
    min: usize,
    max: usize,
    first: Stacks,
    second: Stacks,
    owner: CardOwners,
) -> bool {
    r matches Routines::Selection { filters, min: m, max: x, running }
        && m == min && x == max && !running
        && filters@.len() == 1
        && filters@[0].stacks@ == seq![first, second]
        && filters@[0].owners@ == seq![owner]
        && filters@[0].kinds == KindMask::Any
        && filters@[0].min_cost == 0
        && filters@[0].max_cost == u8::MAX
}

/// The FIFO queue of in-flight routines. Normal work appends at the back;
/// work that must pre-empt the current front (a shuffle before a blocked
/// draw, a selection for a pending action, an immediate sub-effect of a
/// choice) pushes to the front. Only the front routine is ever advanced.
#[derive(Debug, Default)]
pub struct RoutineManager(pub VecDeque<Routines>);

impl RoutineManager {
    /// The queued routines, front first.
    pub open spec fn queue(&self) -> Seq<Routines> {
        self.0@
    }

    /// Pushes a selection prompt with a single filter to the front.
    pub fn selection(
        &mut self,
        min: usize,
        max: usize,
        stack: Stacks,
        owner: CardOwners,
        kinds: KindMask,
        min_cost: u8,
        max_cost: u8,
    )
        ensures
            final(self).queue().len() == old(self).queue().len() + 1,
            final(self).queue().skip(1) == old(self).queue(),
            final(self).queue()[0] matches Routines::Selection {
                filters, min: m, max: x, running }
                && m == min && x == max && !running
                && filters@.len() == 1
                && filters@[0].stacks@ == seq![stack]
                && filters@[0].owners@ == seq![owner]
                && filters@[0].kinds == kinds
                && filters@[0].min_cost == min_cost
                && filters@[0].max_cost == max_cost,
    {
        let mut stacks: Vec<Stacks> = Vec::new();
        stacks.push(stack);
        let mut owners: Vec<CardOwners> = Vec::new();
        owners.push(owner);
        let mut filters: Vec<SelectionFilter> = Vec::new();
        filters.push(SelectionFilter { stacks, owners, kinds, min_cost, max_cost });
        self.0.push_front(Routines::Selection { filters, min, max, running: false });
        proof {
            assert(final(self).queue().skip(1) =~= old(self).queue());
        }
    }

    /// Pushes a selection prompt with the given filters to the front.
    pub fn extended_selection(&mut self, min: usize, max: usize, filters: Vec<SelectionFilter>)
        ensures
            final(self).queue() == seq![
                Routines::Selection { filters, min, max, running: false }
            ] + old(self).queue(),
    {
        self.0.push_front(Routines::Selection { filters, min, max, running: false });
    }

    /// Puts a started selection prompt back at the front of the queue.
    pub fn extended_selection_running(&mut self, min: usize, max: usize,
        filters: Vec<SelectionFilter>)
        ensures
            final(self).queue() == seq![
                Routines::Selection { filters, min, max, running: true }
            ] + old(self).queue(),
    {
        self.0.push_front(Routines::Selection { filters, min, max, running: true });
    }

    /// Whether no routine is in flight: only then may the dispatcher
    /// accept the next event.
    pub fn is_empty(&self) -> (r: bool)
        ensures
            r == (self.queue().len() == 0),
    {
        self.0.len() == 0
    }

    /// The front routine, if any: the only routine the scheduler advances.
    pub fn routine(&self) -> (r: Option<&Routines>)
        ensures
            match r {
                Some(x) => self.queue().len() > 0 && *x == self.queue()[0],
                None => self.queue().len() == 0,
            },
    {
        if self.0.len() > 0 {
            Some(&self.0[0])
        } else {
            None
        }
    }

    /// Removes and hands out the front routine.
    pub fn take_front(&mut self) -> (r: Option<Routines>)
        ensures
            match r {
                Some(x) => old(self).queue().len() > 0 && x == old(self).queue()[0]
                    && final(self).queue() == old(self).queue().skip(1),
                None => old(self).queue().len() == 0
                    && final(self).queue() == old(self).queue(),
            },
    {
        let r = self.0.pop_front();
        proof {
            if old(self).queue().len() > 0 {
                assert(final(self).queue() =~= old(self).queue().skip(1));
            }
        }
        r
    }

    /// Removes the front routine: only called once its completion condition
    /// holds.
    pub fn finish(&mut self)
        ensures
            old(self).queue().len() == 0 ==> final(self).queue() == old(self).queue(),
            old(self).queue().len() > 0 ==> final(self).queue()
                == old(self).queue().skip(1),
    {
        let _front = self.0.pop_front();
        proof {
            if old(self).queue().len() > 0 {
                assert(final(self).queue() =~= old(self).queue().skip(1));
            }
        }
    }

    /// Replaces the front routine with an updated copy of itself.
    pub fn replace_front(&mut self, routine: Routines)
        requires
            old(self).queue().len() > 0,
        ensures
            final(self).queue() == old(self).queue().update(0, routine),
    {
        let _front = self.0.pop_front();
        self.0.push_front(routine);
        proof {
            assert(final(self).queue() =~= old(self).queue().update(0, routine));
        }
    }

    /// Enqueues a draw for the player; prioritized draws pre-empt the queue.
    pub fn draw(&mut self, player: u8, prioritize: bool)
        ensures
            ({
                let r = Routines::Draw { player, drawn: None, discard_to_deck: false };
                if prioritize {
                    final(self).queue() == seq![r] + old(self).queue()
                } else {
                    final(self).queue() == old(self).queue().push(r)
                }
            }),
    {
        let routine = Routines::Draw { player, drawn: None, discard_to_deck: false };
        if prioritize {
            self.0.push_front(routine);
        } else {
            self.0.push_back(routine);
        }
    }

    /// Enqueues a refill of one market-row slot.
    pub fn reload_market(&mut self, slot: u8)
        ensures
            final(self).queue() == old(self).queue().push(
                Routines::ReloadMarket { slot, card: None, scrapyard_to_deck: false },
            ),
    {
        self.0.push_back(Routines::ReloadMarket { slot, card: None, scrapyard_to_deck: false });
    }

    /// Enqueues a shuffle of the owner's zone; a prioritized shuffle (needed
    /// before a blocked draw can proceed) pre-empts the queue.
    pub fn shuffle(&mut self, owner: CardOwners, stack: Stacks, prioritize: bool)
        ensures
            ({
                let r = Routines::Shuffle { owner, stack, running: false };
                if prioritize {
                    final(self).queue() == seq![r] + old(self).queue()
                } else {
                    final(self).queue() == old(self).queue().push(r)
                }
            }),
    {
        let routine = Routines::Shuffle { owner, stack, running: false };
        if prioritize {
            self.0.push_front(routine);
        } else {
            self.0.push_back(routine);
        }
    }

    /// Enqueues a move of the card to the top of the player's discard pile.
    pub fn discard(&mut self, player: u8, card: usize)
        ensures
            final(self).queue() == old(self).queue().push(
                Routines::PushCardToStack {
                    card,
                    owner: CardOwners::Player(player),
                    stack: Stacks::DiscardPile,
                    index: Some(0),
                    visibility: CardVisibility::Visible,
                    running: false,
                },
            ),
    {
        self.0.push_back(Routines::PushCardToStack {
            card,
            owner: CardOwners::Player(player),
            stack: Stacks::DiscardPile,
            index: Some(0),
            visibility: CardVisibility::Visible,
            running: false,
        });
    }

    /// Enqueues a move of the card to the scrapyard.
    pub fn scrap(&mut self, card: usize)
        ensures
            final(self).queue() == old(self).queue().push(
                Routines::PushCardToStack {
                    card,
                    owner: CardOwners::Market,
                    stack: Stacks::Scrapyard,
                    index: Some(0),
                    visibility: CardVisibility::Visible,
                    running: false,
                },
            ),
    {
        self.0.push_back(Routines::PushCardToStack {
            card,
            owner: CardOwners::Market,
            stack: Stacks::Scrapyard,
            index: Some(0),
            visibility: CardVisibility::Visible,
            running: false,
        });
    }

    /// Enqueues playing a card from hand: bases go to the base row, ships to
    /// the used cards.
    pub fn play(&mut self, player: u8, card: usize, slot: usize, base: bool)
        ensures
            final(self).queue() == old(self).queue().push(
                Routines::PushCardToStack {
                    card,
                    owner: CardOwners::Player(player),
                    stack: if base { Stacks::Bases } else { Stacks::UsedCards },
                    index: Some(if base { 0 } else { slot }),
                    visibility: CardVisibility::Visible,
                    running: false,
                },
            ),
    {
        self.0.push_back(Routines::PushCardToStack {
            card,
            owner: CardOwners::Player(player),
            stack: if base { Stacks::Bases } else { Stacks::UsedCards },
            index: Some(if base { 0 } else { slot }),
            visibility: CardVisibility::Visible,
            running: false,
        });
    }

    /// Enqueues the resolution of one ability slot of one card.
    pub fn activate_card(&mut self, owner: u8, card: usize, index: u8, set: ActionSet)
        ensures
            final(self).queue() == old(self).queue().push(
                Routines::ActivateCard { card, owner, index, set, running: false },
            ),
    {
        self.0.push_back(Routines::ActivateCard { card, owner, index, set, running: false });
    }

    /// Enqueues the resolution of one atomic action at the back.
    pub fn action(
        &mut self,
        owner: u8,
        card: usize,
        ability_index: u8,
        action_index: u8,
        action: Action,
    )
        ensures
            final(self).queue() == old(self).queue().push(
                Routines::CardAction { card, owner, ability_index, action_index, action },
            ),
    {
        self.0.push_back(Routines::CardAction {
            card,
            owner,
            ability_index,
            action_index,
            action,
        });
    }

    /// Pushes the resolution of one atomic action to the front: used for the
    /// immediate sub-effects of a completed choice, which must pre-empt work
    /// queued behind the choice.
    pub fn action_now(
        &mut self,
        owner: u8,
        card: usize,
        ability_index: u8,
        action_index: u8,
        action: Action,
    )
        ensures
            final(self).queue() == seq![
                Routines::CardAction { card, owner, ability_index, action_index, action }
            ] + old(self).queue(),
    {
        self.0.push_front(Routines::CardAction {
            card,
            owner,
            ability_index,
            action_index,
            action,
        });
    }
}

} // verus!
