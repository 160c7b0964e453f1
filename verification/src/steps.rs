//! The per-tick steps of the multi-tick routines: draw, shuffle, market
//! reload, the general zone transfer, the action-set activation, and the
//! card-selection protocol. Each step advances only the front routine and
//! removes it only once its completion condition holds.

use vstd::prelude::*;
use crate::actions::{Action, ActionSet};
use crate::board::{
    lowest_free_index, spec_in_zone, spec_last_at, spec_lowest_free, spec_zone_members, zone_has,
    CardInstance, StartTransition,
};
use crate::cards::{CardOwners, CardVisibility, KindMask};
use crate::choice::{spec_spawn_choices, spawn_choices, ChoiceButton, PromptView};
use crate::execute::spec_execute_effect;
use crate::routines::{spec_shuffle_routine, Routines, SelectionFilter};
use crate::stacks::{spec_keep_empty_spaces, Stacks};
use crate::state::{GameState, NextBuyOnDeckFlag};
use crate::states::GameStates;

verus! {

/// One hidden move to the bottom of the destination zone for every card of
/// the source zone: the recycle step that refills an empty deck.
pub open spec fn spec_recycle_list(
    cards: Seq<CardInstance>,
    n: int,
    src_owner: CardOwners,
    src_stack: Stacks,
    dst_owner: CardOwners,
    dst_stack: Stacks,
) -> Seq<StartTransition>
    decreases n,
{
    if n <= 0 {
        Seq::empty()
    } else {
        spec_recycle_list(cards, n - 1, src_owner, src_stack, dst_owner, dst_stack)
            + if spec_in_zone(cards[n - 1], src_owner, src_stack) {
                seq![StartTransition {
                    card: (n - 1) as usize,
                    owner: dst_owner,
                    stack: dst_stack,
                    index: 0,
                    visibility: CardVisibility::Hidden,
                }]
            } else {
                Seq::empty()
            }
    }
}

/// The moves a draw issues over the player's deck: the top card (index zero)
/// heads for the free hand slot, every other deck card slides down one index.
pub open spec fn spec_draw_moves(
    cards: Seq<CardInstance>,
    n: int,
    player: u8,
    slot: usize,
    vis: CardVisibility,
) -> Seq<StartTransition>
    decreases n,
{
    if n <= 0 {
        Seq::empty()
    } else {
        spec_draw_moves(cards, n - 1, player, slot, vis)
            + if spec_in_zone(cards[n - 1], CardOwners::Player(player), Stacks::PlayerDeck) {
                if cards[n - 1].index == 0 {
                    seq![StartTransition {
                        card: (n - 1) as usize,
                        owner: CardOwners::Player(player),
                        stack: Stacks::Hand,
                        index: slot,
                        visibility: vis,
                    }]
                } else {
                    seq![StartTransition {
                        card: (n - 1) as usize,
                        owner: CardOwners::Player(player),
                        stack: Stacks::PlayerDeck,
                        index: (cards[n - 1].index - 1) as usize,
                        visibility: CardVisibility::Hidden,
                    }]
                }
            } else {
                Seq::empty()
            }
    }
}

/// The moves a market reload issues over the market deck: the top card heads
/// for the given row slot face up, every other deck card slides down.
pub open spec fn spec_reload_moves(cards: Seq<CardInstance>, n: int, slot: u8)
    -> Seq<StartTransition>
    decreases n,
{
    if n <= 0 {
        Seq::empty()
    } else {
        spec_reload_moves(cards, n - 1, slot)
            + if spec_in_zone(cards[n - 1], CardOwners::Market, Stacks::MarketDeck) {
                if cards[n - 1].index == 0 {
                    seq![StartTransition {
                        card: (n - 1) as usize,
                        owner: CardOwners::Market,
                        stack: Stacks::MarketRow,
                        index: slot as usize,
                        visibility: CardVisibility::Visible,
                    }]
                } else {
                    seq![StartTransition {
                        card: (n - 1) as usize,
                        owner: CardOwners::Market,
                        stack: Stacks::MarketDeck,
                        index: (cards[n - 1].index - 1) as usize,
                        visibility: CardVisibility::Hidden,
                    }]
                }
            } else {
                Seq::empty()
            }
    }
}

/// What one step of a draw routine does. The drawn card completes the routine
/// once it sits in the hand; an empty deck is first refilled from the discard
/// pile and shuffled; with both empty the routine stalls without effect.
pub open spec fn spec_draw_effect(
    pre: GameState,
    post: GameState,
    player: u8,
    drawn: Option<usize>,
    discard_to_deck: bool,
) -> bool {
    let q = pre.routines.queue();
    let deck_has = exists|i: int| 0 <= i < pre.cards@.len()
        && spec_in_zone(pre.cards@[i], CardOwners::Player(player), Stacks::PlayerDeck);
    let discard_has = exists|i: int| 0 <= i < pre.cards@.len()
        && spec_in_zone(pre.cards@[i], CardOwners::Player(player), Stacks::DiscardPile);
    if player >= 2 {
        post == pre
    } else {
        match drawn {
            Some(c) => if c < pre.cards@.len()
                && spec_in_zone(pre.cards@[c as int], CardOwners::Player(player), Stacks::Hand) {
                post == (GameState { routines: post.routines, ..pre })
                    && post.routines.queue() == q.skip(1)
            } else {
                post == pre
            },
            None => if discard_to_deck {
                if !deck_has {
                    post == pre
                } else {
                    post == (GameState { routines: post.routines, ..pre })
                        && post.routines.queue() == seq![
                            spec_shuffle_routine(CardOwners::Player(player), Stacks::PlayerDeck)
                        ] + q.update(0, Routines::Draw {
                            player,
                            drawn: None,
                            discard_to_deck: false,
                        })
                }
            } else if !deck_has {
                if discard_has {
                    post == (GameState { routines: post.routines, pending: post.pending, ..pre })
                        && post.pending@ == pre.pending@ + spec_recycle_list(
                            pre.cards@,
                            pre.cards@.len() as int,
                            CardOwners::Player(player),
                            Stacks::DiscardPile,
                            CardOwners::Player(player),
                            Stacks::PlayerDeck,
                        )
                        && post.routines.queue() == q.update(0, Routines::Draw {
                            player,
                            drawn: None,
                            discard_to_deck: true,
                        })
                } else {
                    post == pre
                }
            } else {
                let slot = spec_lowest_free(pre.cards@, CardOwners::Player(player), Stacks::Hand);
                let vis = if pre.local_player == player {
                    CardVisibility::Visible
                } else {
                    CardVisibility::Hidden
                };
                post == (GameState { routines: post.routines, pending: post.pending, ..pre })
                    && post.pending@ == pre.pending@ + spec_draw_moves(
                        pre.cards@,
                        pre.cards@.len() as int,
                        player,
                        slot,
                        vis,
                    )
                    && post.routines.queue() == q.update(0, Routines::Draw {
                        player,
                        drawn: spec_last_at(
                            pre.cards@,
                            pre.cards@.len() as int,
                            CardOwners::Player(player),
                            Stacks::PlayerDeck,
                            0,
                        ),
                        discard_to_deck: false,
                    })
            },
        }
    }
}

/// Advances the front routine when it is a draw; any other front routine (or
/// an empty queue) is left alone.
#[verifier::rlimit(60)]
pub fn draw_routine(state: &mut GameState)
    requires
        old(state).cards@.len() < usize::MAX,
    ensures
        ({
            let q = old(state).routines.queue();
            if q.len() > 0 && (q[0] matches Routines::Draw { .. }) {
                q[0] matches Routines::Draw { player, drawn, discard_to_deck }
                    ==> spec_draw_effect(*old(state), *final(state), player, drawn,
                        discard_to_deck)
            } else {
                *final(state) == *old(state)
            }
        }),
{
    let data: Option<(u8, Option<usize>, bool)> = match state.routines.routine() {
        Some(Routines::Draw { player, drawn, discard_to_deck }) => Some((
            *player,
            *drawn,
            *discard_to_deck,
        )),
        _ => None,
    };
    let (player, drawn, discard_to_deck) = match data {
        None => {
            return;
        },
        Some(d) => d,
    };
    if player >= 2 {
        return;
    }
    let me = CardOwners::Player(player);
    match drawn {
        Some(c) => {
            if c < state.cards.len() && state.cards[c].owner == me
                && state.cards[c].stack == Stacks::Hand {
                state.routines.finish();
            }
        },
        None => {
            if discard_to_deck {
                if zone_has(&state.cards, me, Stacks::PlayerDeck) {
                    state.routines.replace_front(Routines::Draw {
                        player,
                        drawn: None,
                        discard_to_deck: false,
                    });
                    state.routines.shuffle(me, Stacks::PlayerDeck, true);
                }
            } else if !zone_has(&state.cards, me, Stacks::PlayerDeck) {
                if zone_has(&state.cards, me, Stacks::DiscardPile) {
                    let n = state.cards.len();
                    let mut i: usize = 0;
                    while i < n
                        invariant
                            i <= n,
                            n == state.cards@.len(),
                            state.pending@ == old(state).pending@ + spec_recycle_list(
                                state.cards@,
                                i as int,
                                me,
                                Stacks::DiscardPile,
                                me,
                                Stacks::PlayerDeck,
                            ),
                            *state == (GameState { pending: state.pending, ..*old(state) }),
                        decreases n - i,
                    {
                        if state.cards[i].owner == me
                            && state.cards[i].stack == Stacks::DiscardPile {
                            state.pending.push(StartTransition {
                                card: i,
                                owner: me,
                                stack: Stacks::PlayerDeck,
                                index: 0,
                                visibility: CardVisibility::Hidden,
                            });
                        }
                        proof {
                            assert(state.pending@ =~= old(state).pending@ + spec_recycle_list(
                                state.cards@,
                                i + 1,
                                me,
                                Stacks::DiscardPile,
                                me,
                                Stacks::PlayerDeck,
                            ));
                        }
                        i = i + 1;
                    }
                    state.routines.replace_front(Routines::Draw {
                        player,
                        drawn: None,
                        discard_to_deck: true,
                    });
                }
            } else {
                let slot = lowest_free_index(&state.cards, me, Stacks::Hand);
                let vis = if state.local_player == player {
                    CardVisibility::Visible
                } else {
                    CardVisibility::Hidden
                };
                let n = state.cards.len();
                let mut found: Option<usize> = None;
                let mut i: usize = 0;
                while i < n
                    invariant
                        i <= n,
                        n == state.cards@.len(),
                        me == CardOwners::Player(player),
                        state.pending@ == old(state).pending@ + spec_draw_moves(
                            state.cards@,
                            i as int,
                            player,
                            slot,
                            vis,
                        ),
                        found == spec_last_at(state.cards@, i as int, me, Stacks::PlayerDeck, 0),
                        *state == (GameState { pending: state.pending, ..*old(state) }),
                    decreases n - i,
                {
                    if state.cards[i].owner == me && state.cards[i].stack == Stacks::PlayerDeck {
                        let idx = state.cards[i].index;
                        if idx == 0 {
                            found = Some(i);
                            state.pending.push(StartTransition {
                                card: i,
                                owner: me,
                                stack: Stacks::Hand,
                                index: slot,
                                visibility: vis,
                            });
                        } else {
                            state.pending.push(StartTransition {
                                card: i,
                                owner: me,
                                stack: Stacks::PlayerDeck,
                                index: idx - 1,
                                visibility: CardVisibility::Hidden,
                            });
                        }
                    }
                    proof {
                        assert(state.pending@ =~= old(state).pending@ + spec_draw_moves(
                            state.cards@,
                            i + 1,
                            player,
                            slot,
                            vis,
                        ));
                    }
                    i = i + 1;
                }
                state.routines.replace_front(Routines::Draw {
                    player,
                    drawn: found,
                    discard_to_deck: false,
                });
            }
        },
    }
}

/// What one step of a market reload does. The reloaded card completes the
/// routine once it sits in the market row; an empty market deck is first
/// refilled from the scrapyard and shuffled; with both empty the routine
/// finishes without effect.
pub open spec fn spec_reload_effect(
    pre: GameState,
    post: GameState,
    slot: u8,
    card: Option<usize>,
    scrapyard_to_deck: bool,
) -> bool {
    let q = pre.routines.queue();
    let deck_has = exists|i: int| 0 <= i < pre.cards@.len()
        && spec_in_zone(pre.cards@[i], CardOwners::Market, Stacks::MarketDeck);
    let scrap_has = exists|i: int| 0 <= i < pre.cards@.len()
        && spec_in_zone(pre.cards@[i], CardOwners::Market, Stacks::Scrapyard);
    match card {
        Some(c) => if c < pre.cards@.len()
            && spec_in_zone(pre.cards@[c as int], CardOwners::Market, Stacks::MarketRow) {
            post == (GameState { routines: post.routines, ..pre })
                && post.routines.queue() == q.skip(1)
        } else {
            post == pre
        },
        None => if scrapyard_to_deck {
            if !deck_has {
                post == pre
            } else {
                post == (GameState { routines: post.routines, ..pre })
                    && post.routines.queue() == seq![
                        spec_shuffle_routine(CardOwners::Market, Stacks::MarketDeck)
                    ] + q.update(0, Routines::ReloadMarket {
                        slot,
                        card: None,
                        scrapyard_to_deck: false,
                    })
            }
        } else if !deck_has {
            if scrap_has {
                post == (GameState { routines: post.routines, pending: post.pending, ..pre })
                    && post.pending@ == pre.pending@ + spec_recycle_list(
                        pre.cards@,
                        pre.cards@.len() as int,
                        CardOwners::Market,
                        Stacks::Scrapyard,
                        CardOwners::Market,
                        Stacks::MarketDeck,
                    )
                    && post.routines.queue() == q.update(0, Routines::ReloadMarket {
                        slot,
                        card: None,
                        scrapyard_to_deck: true,
                    })
            } else {
                post == (GameState { routines: post.routines, ..pre })
                    && post.routines.queue() == q.skip(1)
            }
        } else {
            post == (GameState { routines: post.routines, pending: post.pending, ..pre })
                && post.pending@ == pre.pending@ + spec_reload_moves(
                    pre.cards@,
                    pre.cards@.len() as int,
                    slot,
                )
                && post.routines.queue() == q.update(0, Routines::ReloadMarket {
                    slot,
                    card: spec_last_at(
                        pre.cards@,
                        pre.cards@.len() as int,
                        CardOwners::Market,
                        Stacks::MarketDeck,
                        0,
                    ),
                    scrapyard_to_deck: false,
                })
        },
    }
}

/// Advances the front routine when it is a market reload.
pub fn reload_market(state: &mut GameState)
    ensures
        ({
            let q = old(state).routines.queue();
            if q.len() > 0 && (q[0] matches Routines::ReloadMarket { .. }) {
                q[0] matches Routines::ReloadMarket { slot, card, scrapyard_to_deck }
                    ==> spec_reload_effect(*old(state), *final(state), slot, card,
                        scrapyard_to_deck)
            } else {
                *final(state) == *old(state)
            }
        }),
{
    let data: Option<(u8, Option<usize>, bool)> = match state.routines.routine() {
        Some(Routines::ReloadMarket { slot, card, scrapyard_to_deck }) => Some((
            *slot,
            *card,
            *scrapyard_to_deck,
        )),
        _ => None,
    };
    let (slot, card, scrapyard_to_deck) = match data {
        None => {
            return;
        },
        Some(d) => d,
    };
    match card {
        Some(c) => {
            if c < state.cards.len() && state.cards[c].owner == CardOwners::Market
                && state.cards[c].stack == Stacks::MarketRow {
                state.routines.finish();
            }
        },
        None => {
            if scrapyard_to_deck {
                if zone_has(&state.cards, CardOwners::Market, Stacks::MarketDeck) {
                    state.routines.replace_front(Routines::ReloadMarket {
                        slot,
                        card: None,
                        scrapyard_to_deck: false,
                    });
                    state.routines.shuffle(CardOwners::Market, Stacks::MarketDeck, true);
                }
            } else if !zone_has(&state.cards, CardOwners::Market, Stacks::MarketDeck) {
                if zone_has(&state.cards, CardOwners::Market, Stacks::Scrapyard) {
                    let n = state.cards.len();
                    let mut i: usize = 0;
                    while i < n
                        invariant
                            i <= n,
                            n == state.cards@.len(),
                            state.pending@ == old(state).pending@ + spec_recycle_list(
                                state.cards@,
                                i as int,
                                CardOwners::Market,
                                Stacks::Scrapyard,
                                CardOwners::Market,
                                Stacks::MarketDeck,
                            ),
                            *state == (GameState { pending: state.pending, ..*old(state) }),
                        decreases n - i,
                    {
                        if state.cards[i].owner == CardOwners::Market
                            && state.cards[i].stack == Stacks::Scrapyard {
                            state.pending.push(StartTransition {
                                card: i,
                                owner: CardOwners::Market,
                                stack: Stacks::MarketDeck,
                                index: 0,
                                visibility: CardVisibility::Hidden,
                            });
                        }
                        proof {
                            assert(state.pending@ =~= old(state).pending@ + spec_recycle_list(
                                state.cards@,
                                i + 1,
                                CardOwners::Market,
                                Stacks::Scrapyard,
                                CardOwners::Market,
                                Stacks::MarketDeck,
                            ));
                        }
                        i = i + 1;
                    }
                    state.routines.replace_front(Routines::ReloadMarket {
                        slot,
                        card: None,
                        scrapyard_to_deck: true,
                    });
                } else {
                    state.routines.finish();
                }
            } else {
                let n = state.cards.len();
                let mut found: Option<usize> = None;
                let mut i: usize = 0;
                while i < n
                    invariant
                        i <= n,
                        n == state.cards@.len(),
                        state.pending@ == old(state).pending@ + spec_reload_moves(
                            state.cards@,
                            i as int,
                            slot,
                        ),
                        found == spec_last_at(
                            state.cards@,
                            i as int,
                            CardOwners::Market,
                            Stacks::MarketDeck,
                            0,
                        ),
                        *state == (GameState { pending: state.pending, ..*old(state) }),
                    decreases n - i,
                {
                    if state.cards[i].owner == CardOwners::Market
                        && state.cards[i].stack == Stacks::MarketDeck {
                        let idx = state.cards[i].index;
                        if idx == 0 {
                            found = Some(i);
                            state.pending.push(StartTransition {
                                card: i,
                                owner: CardOwners::Market,
                                stack: Stacks::MarketRow,
                                index: slot as usize,
                                visibility: CardVisibility::Visible,
                            });
                        } else {
                            state.pending.push(StartTransition {
                                card: i,
                                owner: CardOwners::Market,
                                stack: Stacks::MarketDeck,
                                index: idx - 1,
                                visibility: CardVisibility::Hidden,
                            });
                        }
                    }
                    proof {
                        assert(state.pending@ =~= old(state).pending@ + spec_reload_moves(
                            state.cards@,
                            i + 1,
                            slot,
                        ));
                    }
                    i = i + 1;
                }
                state.routines.replace_front(Routines::ReloadMarket {
                    slot,
                    card: found,
                    scrapyard_to_deck: false,
                });
            }
        },
    }
}

/// What one step of a shuffle does. Only player decks and the market deck
/// are shuffled; a started shuffle completes once the zone is non-empty (a
/// guard against racing an empty zone); starting one deals every zone member
/// a hidden move to a fresh index drawn from the generator.
pub open spec fn spec_shuffle_effect(
    pre: GameState,
    post: GameState,
    owner: CardOwners,
    stack: Stacks,
    running: bool,
) -> bool {
    let q = pre.routines.queue();
    let handled = (owner == CardOwners::Player(0) || owner == CardOwners::Player(1))
        && stack == Stacks::PlayerDeck
        || owner == CardOwners::Market && stack == Stacks::MarketDeck;
    let zone_filled = exists|i: int| 0 <= i < pre.cards@.len()
        && spec_in_zone(pre.cards@[i], owner, stack);
    if !handled {
        post == pre
    } else if running {
        if !zone_filled {
            post == pre
        } else {
            post == (GameState { routines: post.routines, ..pre })
                && post.routines.queue() == q.skip(1)
        }
    } else {
        let members = spec_zone_members(pre.cards@, pre.cards@.len() as int, owner, stack);
        let n = members.len();
        let base = pre.pending@.len();
        post == (GameState { routines: post.routines, pending: post.pending, rng: post.rng, ..pre })
            && post.routines.queue() == q.update(0, Routines::Shuffle { owner, stack, running: true })
            && post.pending@.len() == base + n
            && post.pending@.take(base as int) == pre.pending@
            && (forall|j: int| 0 <= j < n ==> (#[trigger] post.pending@[base + j]).card
                == members[j]
                && post.pending@[base + j].owner == owner
                && post.pending@[base + j].stack == stack
                && post.pending@[base + j].visibility == CardVisibility::Hidden
                && post.pending@[base + j].index < n)
            && (forall|j1: int, j2: int| 0 <= j1 < j2 < n
                ==> (#[trigger] post.pending@[base + j1]).index
                    != (#[trigger] post.pending@[base + j2]).index)
    }
}

/// Advances the front routine when it is a shuffle.
pub fn shuffle(state: &mut GameState)
    requires
        old(state).cards@.len() < usize::MAX,
    ensures
        ({
            let q = old(state).routines.queue();
            if q.len() > 0 && (q[0] matches Routines::Shuffle { .. }) {
                q[0] matches Routines::Shuffle { owner, stack, running }
                    ==> spec_shuffle_effect(*old(state), *final(state), owner, stack, running)
            } else {
                *final(state) == *old(state)
            }
        }),
{
    let data: Option<(CardOwners, Stacks, bool)> = match state.routines.routine() {
        Some(Routines::Shuffle { owner, stack, running }) => Some((*owner, *stack, *running)),
        _ => None,
    };
    let (owner, stack, running) = match data {
        None => {
            return;
        },
        Some(d) => d,
    };
    let handled = match (owner, stack) {
        (CardOwners::Player(0), Stacks::PlayerDeck) => true,
        (CardOwners::Player(1), Stacks::PlayerDeck) => true,
        (CardOwners::Market, Stacks::MarketDeck) => true,
        _ => false,
    };
    if !handled {
        return;
    }
    if running {
        if zone_has(&state.cards, owner, stack) {
            state.routines.finish();
        }
        return;
    }
    let mut ids: Vec<usize> = Vec::new();
    let n_cards = state.cards.len();
    let mut i: usize = 0;
    while i < n_cards
        invariant
            i <= n_cards,
            n_cards == state.cards@.len(),
            ids@ == spec_zone_members(state.cards@, i as int, owner, stack),
            *state == *old(state),
        decreases n_cards - i,
    {
        if state.cards[i].owner == owner && state.cards[i].stack == stack {
            ids.push(i);
        }
        i = i + 1;
    }
    let n = ids.len();
    let perm = state.shuffled_indices(n);
    let ghost base = state.pending@.len();
    let mut j: usize = 0;
    while j < n
        invariant
            j <= n,
            n == ids@.len(),
            n == perm@.len(),
            ids@ == spec_zone_members(old(state).cards@, old(state).cards@.len() as int, owner,
                stack),
            forall|k: int| 0 <= k < n ==> perm@[k] < n,
            forall|k1: int, k2: int| 0 <= k1 < k2 < n ==> perm@[k1] != perm@[k2],
            base == old(state).pending@.len(),
            state.pending@.len() == base + j,
            state.pending@.take(base as int) == old(state).pending@,
            forall|k: int| 0 <= k < j ==> #[trigger] state.pending@[base + k]
                == (StartTransition {
                    card: ids@[k],
                    owner,
                    stack,
                    index: perm@[k],
                    visibility: CardVisibility::Hidden,
                }),
            *state == (GameState { pending: state.pending, rng: state.rng, ..*old(state) }),
        decreases n - j,
    {
        state.pending.push(StartTransition {
            card: ids[j],
            owner,
            stack,
            index: perm[j],
            visibility: CardVisibility::Hidden,
        });
        proof {
            assert(state.pending@.take(base as int) =~= old(state).pending@);
        }
        j = j + 1;
    }
    state.routines.replace_front(Routines::Shuffle { owner, stack, running: true });
}

/// The moves that close the gap a departing card leaves in a compacting
/// source zone (cards above it slide down, unless the move stays in the zone
/// below the target slot) and open a slot in the destination zone (every
/// destination card slides up when the move crosses zones).
pub open spec fn spec_move_shift_list(
    cards: Seq<CardInstance>,
    n: int,
    cur: CardInstance,
    dst_owner: CardOwners,
    dst_stack: Stacks,
    target_index: usize,
    same_stack: bool,
) -> Seq<StartTransition>
    decreases n,
{
    if n <= 0 {
        Seq::empty()
    } else {
        let c = cards[n - 1];
        spec_move_shift_list(cards, n - 1, cur, dst_owner, dst_stack, target_index, same_stack)
            + (if !spec_keep_empty_spaces(c.stack) && c.index > cur.index
                && c.owner == cur.owner && c.stack == cur.stack
                && !(same_stack && c.index < target_index) {
                seq![StartTransition {
                    card: (n - 1) as usize,
                    owner: c.owner,
                    stack: c.stack,
                    index: (c.index - 1) as usize,
                    visibility: c.visibility,
                }]
            } else {
                Seq::empty()
            })
            + (if !same_stack && c.owner == dst_owner && c.stack == dst_stack {
                seq![StartTransition {
                    card: (n - 1) as usize,
                    owner: c.owner,
                    stack: c.stack,
                    index: crate::tracker::sat_inc(c.index),
                    visibility: c.visibility,
                }]
            } else {
                Seq::empty()
            })
    }
}

/// What one step of the general zone transfer does. The routine completes
/// once its card resolves at the target; a stale handle completes at once;
/// starting the move rewrites the special cases (the joker returns to the
/// joker deck; a market-row card bought under the next-buy-on-deck flag heads
/// for the deck and clears the flag), picks the lowest free destination slot
/// when none was given, and issues the gap-closing, slot-opening and main
/// moves in one tick.
pub open spec fn spec_move_effect(
    pre: GameState,
    post: GameState,
    card: usize,
    t_owner: CardOwners,
    t_stack: Stacks,
    t_index: Option<usize>,
    t_vis: CardVisibility,
    running: bool,
) -> bool {
    let q = pre.routines.queue();
    let complete = card < pre.cards@.len() && pre.cards@[card as int].owner == t_owner
        && pre.cards@[card as int].stack == t_stack
        && (t_index matches Some(ti) && pre.cards@[card as int].index == ti)
        && pre.cards@[card as int].visibility == t_vis;
    if complete {
        post == (GameState { routines: post.routines, ..pre })
            && post.routines.queue() == q.skip(1)
    } else if running {
        post == pre
    } else if card >= pre.cards@.len() {
        post == (GameState { routines: post.routines, ..pre })
            && post.routines.queue() == q.skip(1)
    } else {
        let cur = pre.cards@[card as int];
        let ts1 = if t_stack == Stacks::Scrapyard && cur.joker {
            Stacks::JokerDeck
        } else {
            t_stack
        };
        let redirect = ts1 == Stacks::DiscardPile && cur.stack == Stacks::MarketRow
            && crate::cards::spec_in_mask(cur.kind, pre.next_buy_on_deck.0);
        let ts2 = if redirect {
            Stacks::PlayerDeck
        } else {
            ts1
        };
        let ti2 = match t_index {
            Some(ti) => ti,
            None => spec_lowest_free(pre.cards@, t_owner, ts2),
        };
        let same_stack = cur.stack == ts2 && cur.owner == t_owner;
        post == (GameState {
            routines: post.routines,
            pending: post.pending,
            next_buy_on_deck: post.next_buy_on_deck,
            ..pre
        })
            && post.next_buy_on_deck == (if redirect {
                NextBuyOnDeckFlag(KindMask::NoKinds)
            } else {
                pre.next_buy_on_deck
            })
            && post.pending@ == pre.pending@ + spec_move_shift_list(
                pre.cards@,
                pre.cards@.len() as int,
                cur,
                t_owner,
                ts2,
                ti2,
                same_stack,
            ) + seq![StartTransition {
                card,
                owner: t_owner,
                stack: ts2,
                index: ti2,
                visibility: t_vis,
            }]
            && post.routines.queue() == q.update(0, Routines::PushCardToStack {
                card,
                owner: t_owner,
                stack: ts2,
                index: Some(ti2),
                visibility: t_vis,
                running: true,
            })
    }
}

/// Advances the front routine when it is the general zone transfer.
pub fn move_to_stack(state: &mut GameState)
    requires
        old(state).cards@.len() < usize::MAX,
    ensures
        ({
            let q = old(state).routines.queue();
            if q.len() > 0 && (q[0] matches Routines::PushCardToStack { .. }) {
                q[0] matches Routines::PushCardToStack {
                    card, owner, stack, index, visibility, running }
                    ==> spec_move_effect(*old(state), *final(state), card, owner, stack, index,
                        visibility, running)
            } else {
                *final(state) == *old(state)
            }
        }),
{
    let data: Option<(usize, CardOwners, Stacks, Option<usize>, CardVisibility, bool)> =
        match state.routines.routine() {
        Some(Routines::PushCardToStack { card, owner, stack, index, visibility, running }) =>
            Some((*card, *owner, *stack, *index, *visibility, *running)),
        _ => None,
    };
    let (card, t_owner, t_stack, t_index, t_vis, running) = match data {
        None => {
            return;
        },
        Some(d) => d,
    };
    let complete = if card < state.cards.len() {
        let c = &state.cards[card];
        c.owner == t_owner && c.stack == t_stack
            && (match t_index {
                Some(ti) => c.index == ti,
                None => false,
            })
            && c.visibility == t_vis
    } else {
        false
    };
    if complete {
        state.routines.finish();
        return;
    }
    if running {
        return;
    }
    if card >= state.cards.len() {
        state.routines.finish();
        return;
    }
    let cur = state.cards[card];
    let ts1 = if t_stack == Stacks::Scrapyard && cur.joker {
        Stacks::JokerDeck
    } else {
        t_stack
    };
    let redirect = ts1 == Stacks::DiscardPile && cur.stack == Stacks::MarketRow
        && cur.kind.in_mask(state.next_buy_on_deck.0);
    let ts2 = if redirect {
        Stacks::PlayerDeck
    } else {
        ts1
    };
    if redirect {
        state.next_buy_on_deck = NextBuyOnDeckFlag(KindMask::NoKinds);
    }
    let ti2 = match t_index {
        Some(ti) => ti,
        None => lowest_free_index(&state.cards, t_owner, ts2),
    };
    let same_stack = cur.stack == ts2 && cur.owner == t_owner;
    let n = state.cards.len();
    let mut i: usize = 0;
    while i < n
        invariant
            i <= n,
            n == state.cards@.len(),
            state.pending@ == old(state).pending@ + spec_move_shift_list(
                state.cards@,
                i as int,
                cur,
                t_owner,
                ts2,
                ti2,
                same_stack,
            ),
            state.next_buy_on_deck == (if redirect {
                NextBuyOnDeckFlag(KindMask::NoKinds)
            } else {
                old(state).next_buy_on_deck
            }),
            *state == (GameState {
                pending: state.pending,
                next_buy_on_deck: state.next_buy_on_deck,
                ..*old(state)
            }),
        decreases n - i,
    {
        let c = state.cards[i];
        if !c.stack.keep_empty_spaces() && c.index > cur.index && c.owner == cur.owner
            && c.stack == cur.stack && !(same_stack && c.index < ti2) {
            state.pending.push(StartTransition {
                card: i,
                owner: c.owner,
                stack: c.stack,
                index: c.index - 1,
                visibility: c.visibility,
            });
        }
        if !same_stack && c.owner == t_owner && c.stack == ts2 {
            state.pending.push(StartTransition {
                card: i,
                owner: c.owner,
                stack: c.stack,
                index: c.index.saturating_add(1),
                visibility: c.visibility,
            });
        }
        proof {
            assert(state.pending@ =~= old(state).pending@ + spec_move_shift_list(
                state.cards@,
                i + 1,
                cur,
                t_owner,
                ts2,
                ti2,
                same_stack,
            ));
        }
        i = i + 1;
    }
    state.pending.push(StartTransition {
        card,
        owner: t_owner,
        stack: ts2,
        index: ti2,
        visibility: t_vis,
    });
    proof {
        assert(state.pending@ =~= old(state).pending@ + spec_move_shift_list(
            old(state).cards@,
            old(state).cards@.len() as int,
            cur,
            t_owner,
            ts2,
            ti2,
            same_stack,
        ) + seq![StartTransition {
            card,
            owner: t_owner,
            stack: ts2,
            index: ti2,
            visibility: t_vis,
        }]);
    }
    state.routines.replace_front(Routines::PushCardToStack {
        card,
        owner: t_owner,
        stack: ts2,
        index: Some(ti2),
        visibility: t_vis,
        running: true,
    });
}

/// Whether a card passes at least one filter of a selection prompt.
pub open spec fn spec_matches_filters(c: CardInstance, filters: Seq<SelectionFilter>) -> bool {
    exists|f: int| 0 <= f < filters.len() && filters[f].owners@.contains(c.owner)
        && filters[f].stacks@.contains(c.stack)
        && crate::cards::spec_in_mask(c.kind, filters[f].kinds)
        && filters[f].min_cost <= c.cost && c.cost <= filters[f].max_cost
}

/// The arena with every filter-matching card marked selectable.
pub open spec fn spec_mark_selectable(
    cards: Seq<CardInstance>,
    filters: Seq<SelectionFilter>,
) -> Seq<CardInstance> {
    Seq::new(
        cards.len(),
        |i: int| CardInstance {
            selectable: cards[i].selectable || spec_matches_filters(cards[i], filters),
            ..cards[i]
        },
    )
}

/// The arena with every selectable and selected mark cleared.
pub open spec fn spec_clear_marks(cards: Seq<CardInstance>) -> Seq<CardInstance> {
    Seq::new(
        cards.len(),
        |i: int| CardInstance { selectable: false, selected: false, ..cards[i] },
    )
}

/// The handles of the selected cards below `n`, in handle order.
pub open spec fn spec_selected_ids(cards: Seq<CardInstance>, n: int) -> Seq<usize>
    decreases n,
{
    if n <= 0 {
        Seq::empty()
    } else if cards[n - 1].selected {
        spec_selected_ids(cards, n - 1).push((n - 1) as usize)
    } else {
        spec_selected_ids(cards, n - 1)
    }
}

/// Whether a list of zones holds the given zone.
fn stacks_contain(v: &Vec<Stacks>, s: Stacks) -> (r: bool)
    ensures
        r == v@.contains(s),
{
    let mut i: usize = 0;
    while i < v.len()
        invariant
            i <= v@.len(),
            forall|j: int| 0 <= j < i ==> v@[j] != s,
        decreases v@.len() - i,
    {
        if v[i] == s {
            return true;
        }
        i = i + 1;
    }
    false
}

/// Whether a list of owners holds the given owner.
fn owners_contain(v: &Vec<CardOwners>, o: CardOwners) -> (r: bool)
    ensures
        r == v@.contains(o),
{
    let mut i: usize = 0;
    while i < v.len()
        invariant
            i <= v@.len(),
            forall|j: int| 0 <= j < i ==> v@[j] != o,
        decreases v@.len() - i,
    {
        if v[i] == o {
            return true;
        }
        i = i + 1;
    }
    false
}

/// Whether the card passes at least one filter.
fn matches_filters(c: &CardInstance, filters: &Vec<SelectionFilter>) -> (r: bool)
    ensures
        r == spec_matches_filters(*c, filters@),
{
    let mut f: usize = 0;
    while f < filters.len()
        invariant
            f <= filters@.len(),
            forall|j: int| 0 <= j < f ==> !(filters@[j].owners@.contains(c.owner)
                && filters@[j].stacks@.contains(c.stack)
                && crate::cards::spec_in_mask(c.kind, filters@[j].kinds)
                && filters@[j].min_cost <= c.cost && c.cost <= filters@[j].max_cost),
        decreases filters@.len() - f,
    {
        if owners_contain(&filters[f].owners, c.owner)
            && stacks_contain(&filters[f].stacks, c.stack)
            && c.kind.in_mask(filters[f].kinds)
            && c.cost >= filters[f].min_cost && c.cost <= filters[f].max_cost {
            return true;
        }
        f = f + 1;
    }
    false
}

/// What one step of a selection routine does. Opening it marks the matching
/// cards selectable, resets the surface with the prompt's bounds, and hands
/// the interaction to the selection surface; a prompt that matches nothing
/// finishes at once. Once the surface reports the selection finished, every
/// mark clears, the picked handles land on the surface, and the main loop
/// resumes.
pub open spec fn spec_selection_effect(
    pre: GameState,
    post: GameState,
    filters: Seq<SelectionFilter>,
    min: usize,
    max: usize,
    running: bool,
) -> bool {
    let q = pre.routines.queue();
    let any = exists|i: int| 0 <= i < pre.cards@.len()
        && spec_matches_filters(pre.cards@[i], filters);
    if !running {
        let marked = spec_mark_selectable(pre.cards@, filters);
        if any {
            post.cards@ == marked
                && post.selection.cards@.len() == 0
                && !post.selection.finished
                && post.selection.min == min && post.selection.max == max
                && post.mode == GameStates::SelectionInput
                && post.routines.queue().len() == q.len()
                && post.routines.queue().skip(1) == q.skip(1)
                && (post.routines.queue()[0] matches Routines::Selection {
                    filters: f2, min: m, max: x, running: r2 }
                    && f2@ == filters && m == min && x == max && r2)
                && post.same_players(pre)
                && post.next_buy_on_deck == pre.next_buy_on_deck
                && post.events == pre.events && post.turn == pre.turn
                && post.choice == pre.choice && post.pending == pre.pending
                && post.local_player == pre.local_player && post.rng == pre.rng
        } else {
            post.cards@ == spec_clear_marks(marked)
                && post.selection.cards@ == spec_selected_ids(marked, marked.len() as int)
                && post.selection.finished
                && post.selection.min == min && post.selection.max == max
                && post.mode == GameStates::MainLoop
                && post.routines.queue() == q.skip(1)
                && post.same_players(pre)
                && post.next_buy_on_deck == pre.next_buy_on_deck
                && post.events == pre.events && post.turn == pre.turn
                && post.choice == pre.choice && post.pending == pre.pending
                && post.local_player == pre.local_player && post.rng == pre.rng
        }
    } else if !pre.selection.finished {
        post == pre
    } else {
        post.cards@ == spec_clear_marks(pre.cards@)
            && post.selection.cards@ == pre.selection.cards@
                + spec_selected_ids(pre.cards@, pre.cards@.len() as int)
            && post.selection.finished
            && post.selection.min == pre.selection.min
            && post.selection.max == pre.selection.max
            && post.mode == GameStates::MainLoop
            && post.routines.queue() == q.skip(1)
            && post.same_players(pre)
            && post.next_buy_on_deck == pre.next_buy_on_deck
            && post.events == pre.events && post.turn == pre.turn
            && post.choice == pre.choice && post.pending == pre.pending
            && post.local_player == pre.local_player && post.rng == pre.rng
    }
}

/// Clears every selectable mark, collects the selected handles onto the
/// surface in handle order, and clears the selected marks.
fn collect_selection(state: &mut GameState)
    ensures
        final(state).cards@ == spec_clear_marks(old(state).cards@),
        final(state).selection.cards@ == old(state).selection.cards@
            + spec_selected_ids(old(state).cards@, old(state).cards@.len() as int),
        final(state).selection.finished == old(state).selection.finished,
        final(state).selection.min == old(state).selection.min,
        final(state).selection.max == old(state).selection.max,
        *final(state) == (GameState {
            cards: final(state).cards,
            selection: final(state).selection,
            ..*old(state)
        }),
{
    let n = state.cards.len();
    let mut i: usize = 0;
    while i < n
        invariant
            i <= n,
            n == state.cards@.len(),
            state.cards@.len() == old(state).cards@.len(),
            forall|j: int| 0 <= j < i ==> state.cards@[j] == spec_clear_marks(
                old(state).cards@,
            )[j],
            forall|j: int| i <= j < n ==> state.cards@[j] == old(state).cards@[j],
            state.selection.cards@ == old(state).selection.cards@
                + spec_selected_ids(old(state).cards@, i as int),
            state.selection.finished == old(state).selection.finished,
            state.selection.min == old(state).selection.min,
            state.selection.max == old(state).selection.max,
            *state == (GameState {
                cards: state.cards,
                selection: state.selection,
                ..*old(state)
            }),
        decreases n - i,
    {
        let mut c = state.cards[i];
        if c.selected {
            state.selection.cards.push(i);
        }
        c.selectable = false;
        c.selected = false;
        state.cards.set(i, c);
        i = i + 1;
    }
    proof {
        assert(state.cards@ =~= spec_clear_marks(old(state).cards@));
    }
}

/// Advances the front routine when it is a selection prompt.
pub fn selection(state: &mut GameState)
    ensures
        ({
            let q = old(state).routines.queue();
            if q.len() > 0 && (q[0] matches Routines::Selection { .. }) {
                q[0] matches Routines::Selection { filters, min, max, running }
                    ==> spec_selection_effect(*old(state), *final(state), filters@, min, max,
                        running)
            } else {
                *final(state) == *old(state)
            }
        }),
{
    let scalars: Option<(usize, usize, bool)> = match state.routines.routine() {
        Some(Routines::Selection { min, max, running, .. }) => Some((*min, *max, *running)),
        _ => None,
    };
    let (min, max, running) = match scalars {
        None => {
            return;
        },
        Some(d) => d,
    };
    if running && !state.selection.finished {
        return;
    }
    let front = state.routines.take_front();
    let filters: Vec<SelectionFilter> = match front {
        Some(Routines::Selection { filters, .. }) => filters,
        _ => {
            return;
        },
    };
    if !running {
        state.selection.finished = false;
        state.selection.cards.clear();
        state.selection.min = min;
        state.selection.max = max;
        let mut any = false;
        let n = state.cards.len();
        let mut i: usize = 0;
        while i < n
            invariant
                i <= n,
                n == state.cards@.len(),
                state.cards@.len() == old(state).cards@.len(),
                forall|j: int| 0 <= j < i ==> state.cards@[j] == spec_mark_selectable(
                    old(state).cards@,
                    filters@,
                )[j],
                forall|j: int| i <= j < n ==> state.cards@[j] == old(state).cards@[j],
                any == exists|j: int| 0 <= j < i && #[trigger] spec_matches_filters(
                    old(state).cards@[j],
                    filters@,
                ),
                state.selection.cards@.len() == 0,
                !state.selection.finished,
                state.selection.min == min,
                state.selection.max == max,
                state.routines.queue() == old(state).routines.queue().skip(1),
                *state == (GameState {
                    cards: state.cards,
                    selection: state.selection,
                    routines: state.routines,
                    ..*old(state)
                }),
            decreases n - i,
        {
            let m = matches_filters(&state.cards[i], &filters);
            if m {
                let mut c = state.cards[i];
                c.selectable = true;
                state.cards.set(i, c);
                any = true;
            }
            i = i + 1;
        }
        proof {
            assert(state.cards@ =~= spec_mark_selectable(old(state).cards@, filters@));
        }
        if !any {
            state.selection.finished = true;
        }
        state.mode = GameStates::SelectionInput;
        state.routines.extended_selection_running(min, max, filters);
        proof {
            assert(state.routines.queue().skip(1)
                =~= old(state).routines.queue().skip(1));
        }
        if state.selection.finished {
            collect_selection(state);
            state.mode = GameStates::MainLoop;
            state.routines.finish();
        }
    } else {
        collect_selection(state);
        state.mode = GameStates::MainLoop;
    }
}

/// The one-based collection of the selected option buttons, in button order.
pub open spec fn spec_selected_choice_indices(
    buttons: Seq<ChoiceButton>,
    n: int,
) -> Seq<u8>
    decreases n,
{
    if n <= 0 {
        Seq::empty()
    } else if buttons[n - 1].selected {
        spec_selected_choice_indices(buttons, n - 1).push(buttons[n - 1].index)
    } else {
        spec_selected_choice_indices(buttons, n - 1)
    }
}

/// The choices a finished prompt reports: none when the decline button was
/// picked, else the selected option indices.
pub open spec fn spec_choices_of(v: PromptView) -> Seq<u8> {
    if v.none_button matches Some(nb) && nb.selected {
        Seq::empty()
    } else {
        spec_selected_choice_indices(v.buttons, v.buttons.len() as int)
    }
}

/// The immediate sub-actions a completed pick-any-of-two choice resolves to,
/// in pick order.
pub open spec fn spec_anyof_suffix(
    choices: Seq<u8>,
    i: int,
    owner: u8,
    card: usize,
    first: Action,
    second: Action,
) -> Seq<Routines>
    decreases choices.len() - i,
{
    if i < 0 || i >= choices.len() {
        Seq::empty()
    } else {
        (if choices[i] == 0 {
            seq![Routines::CardAction {
                card,
                owner,
                ability_index: 0,
                action_index: 0,
                action: first,
            }]
        } else if choices[i] == 1 {
            seq![Routines::CardAction {
                card,
                owner,
                ability_index: 1,
                action_index: 1,
                action: second,
            }]
        } else {
            Seq::empty()
        }) + spec_anyof_suffix(choices, i + 1, owner, card, first, second)
    }
}

/// The routine resolving one atomic action of one ability slot.
pub open spec fn spec_action_routine(
    owner: u8,
    card: usize,
    ability_index: u8,
    action_index: u8,
    action: Action,
) -> Routines {
    Routines::CardAction { card, owner, ability_index, action_index, action }
}

/// The queue a completed choice leaves behind: the settled sub-actions
/// pre-empt the queue, the activation routine is done.
pub open spec fn spec_choice_followup(
    q: Seq<Routines>,
    choices: Seq<u8>,
    owner: u8,
    card: usize,
    index: u8,
    set: ActionSet,
) -> Seq<Routines> {
    if choices.len() == 0 {
        q.skip(1)
    } else {
        match set {
            ActionSet::Optional(a) => seq![spec_action_routine(owner, card, index, 0, a)]
                + q.skip(1),
            ActionSet::OneAndOptional(_, a) => seq![spec_action_routine(owner, card, index, 1, a)]
                + q.skip(1),
            ActionSet::AnyOf2(f, s2) => spec_anyof_suffix(choices, 0, owner, card, f, s2)
                + q.skip(1),
            ActionSet::OneOf2(f, s2) => (if choices[0] == 0 {
                seq![spec_action_routine(owner, card, index, 0, f)]
            } else if choices[0] == 1 {
                seq![spec_action_routine(owner, card, index, 1, s2)]
            } else {
                Seq::empty()
            }) + q.skip(1),
            _ => q.skip(1),
        }
    }
}

/// What one step of an action-set activation does. A fixed sequence enqueues
/// its atomic actions and completes; a set with a decision opens a choice
/// prompt, switches the interaction mode, and waits; once the prompt reports
/// finished, the picked sub-actions pre-empt the queue and the prompt closes.
pub open spec fn spec_activate_effect(
    pre: GameState,
    post: GameState,
    card: usize,
    owner: u8,
    index: u8,
    set: ActionSet,
    running: bool,
) -> bool {
    let q = pre.routines.queue();
    match pre.choice {
        Some(prompt) => if prompt@.finished {
            let choices = spec_choices_of(prompt@);
            post.choice is None
                && post.routines.queue() == spec_choice_followup(q, choices, owner, card, index,
                    set)
                && post == (GameState { routines: post.routines, choice: post.choice, ..pre })
        } else {
            post == pre
        },
        None => if !running {
            match set {
                ActionSet::Nothing => post == (GameState { routines: post.routines, ..pre })
                    && post.routines.queue() == q.skip(1),
                ActionSet::One(a) => post == (GameState { routines: post.routines, ..pre })
                    && post.routines.queue() == q.skip(1).push(
                        spec_action_routine(owner, card, index, 0, a),
                    ),
                ActionSet::Two(a, b) => post == (GameState { routines: post.routines, ..pre })
                    && post.routines.queue() == q.skip(1)
                        .push(spec_action_routine(owner, card, index, 0, a))
                        .push(spec_action_routine(owner, card, index, 1, b)),
                ActionSet::Three(a, b, c) => post == (GameState { routines: post.routines, ..pre })
                    && post.routines.queue() == q.skip(1)
                        .push(spec_action_routine(owner, card, index, 0, a))
                        .push(spec_action_routine(owner, card, index, 1, b))
                        .push(spec_action_routine(owner, card, index, 2, c)),
                ActionSet::Four(a, b, c, d) => post == (GameState {
                    routines: post.routines,
                    ..pre
                })
                    && post.routines.queue() == q.skip(1)
                        .push(spec_action_routine(owner, card, index, 0, a))
                        .push(spec_action_routine(owner, card, index, 1, b))
                        .push(spec_action_routine(owner, card, index, 2, c))
                        .push(spec_action_routine(owner, card, index, 3, d)),
                ActionSet::Optional(_) | ActionSet::AnyOf2(_, _) | ActionSet::OneOf2(_, _) => {
                    &&& post == (GameState {
                        routines: post.routines,
                        choice: post.choice,
                        mode: post.mode,
                        ..pre
                    })
                    &&& post.mode == GameStates::ChoiceInput
                    &&& (post.choice matches Some(p) && Some(p@) == spec_spawn_choices(set))
                    &&& post.routines.queue() == q.update(0, Routines::ActivateCard {
                        card,
                        owner,
                        index,
                        set,
                        running: true,
                    })
                },
                ActionSet::OneAndOptional(a, _) => exists|mid: GameState| {
                    &&& #[trigger] spec_execute_effect(pre, mid, a, card)
                    &&& post == (GameState {
                        routines: post.routines,
                        choice: post.choice,
                        mode: post.mode,
                        ..mid
                    })
                    &&& post.mode == GameStates::ChoiceInput
                    &&& (post.choice matches Some(p) && Some(p@) == spec_spawn_choices(set))
                    &&& post.routines.queue() == mid.routines.queue().update(
                        0,
                        Routines::ActivateCard { card, owner, index, set, running: true },
                    )
                },
            }
        } else {
            post == (GameState { routines: post.routines, ..pre })
                && post.routines.queue() == q.skip(1)
        },
    }
}

/// Advances the front routine when it is an action-set activation.
pub fn activate_card(state: &mut GameState)
    ensures
        ({
            let q = old(state).routines.queue();
            if q.len() > 0 && (q[0] matches Routines::ActivateCard { .. }) {
                q[0] matches Routines::ActivateCard { card, owner, index, set, running }
                    ==> spec_activate_effect(*old(state), *final(state), card, owner, index, set,
                        running)
            } else {
                *final(state) == *old(state)
            }
        }),
{
    let data: Option<(usize, u8, u8, ActionSet, bool)> = match state.routines.routine() {
        Some(Routines::ActivateCard { card, owner, index, set, running }) => Some((
            *card,
            *owner,
            *index,
            *set,
            *running,
        )),
        _ => None,
    };
    let (card, owner, index, set, running) = match data {
        None => {
            return;
        },
        Some(d) => d,
    };
    let prompt_finished: Option<bool> = match &state.choice {
        Some(p) => Some(p.root.finished),
        None => None,
    };
    match prompt_finished {
        Some(false) => {
            return;
        },
        Some(true) => {
            let mut choices: Vec<u8> = Vec::new();
            let mut declined = false;
            match &state.choice {
                Some(p) => {
                    match p.none_button {
                        Some(nb) => {
                            if nb.selected {
                                declined = true;
                            }
                        },
                        None => {},
                    }
                    if !declined {
                        let nb = p.buttons.len();
                        let mut i: usize = 0;
                        while i < nb
                            invariant
                                i <= nb,
                                nb == p.buttons@.len(),
                                choices@ == spec_selected_choice_indices(p.buttons@, i as int),
                            decreases nb - i,
                        {
                            if p.buttons[i].selected {
                                choices.push(p.buttons[i].index);
                            }
                            i = i + 1;
                        }
                    }
                },
                None => {},
            }
            proof {
                assert(choices@ == spec_choices_of(old(state).choice.unwrap()@));
            }
            state.choice = None;
            state.routines.finish();
            if choices.len() > 0 {
                match set {
                    ActionSet::Optional(a) => {
                        state.routines.action_now(owner, card, index, 0, a);
                    },
                    ActionSet::OneAndOptional(_, a) => {
                        state.routines.action_now(owner, card, index, 1, a);
                    },
                    ActionSet::AnyOf2(f, s2) => {
                        let mut k: usize = choices.len();
                        while k > 0
                            invariant
                                k <= choices@.len(),
                                state.routines.queue() == spec_anyof_suffix(
                                    choices@,
                                    k as int,
                                    owner,
                                    card,
                                    f,
                                    s2,
                                ) + old(state).routines.queue().skip(1),
                                *state == (GameState {
                                    routines: state.routines,
                                    choice: state.choice,
                                    ..*old(state)
                                }),
                                state.choice is None,
                            decreases k,
                        {
                            k = k - 1;
                            let c = choices[k];
                            if c == 0 {
                                state.routines.action_now(owner, card, 0, 0, f);
                            } else if c == 1 {
                                state.routines.action_now(owner, card, 1, 1, s2);
                            }
                            proof {
                                assert(state.routines.queue() =~= spec_anyof_suffix(
                                    choices@,
                                    k as int,
                                    owner,
                                    card,
                                    f,
                                    s2,
                                ) + old(state).routines.queue().skip(1));
                            }
                        }
                    },
                    ActionSet::OneOf2(f, s2) => {
                        let c = choices[0];
                        if c == 0 {
                            state.routines.action_now(owner, card, index, 0, f);
                        } else if c == 1 {
                            state.routines.action_now(owner, card, index, 1, s2);
                        }
                    },
                    _ => {},
                }
            }
        },
        None => {
            if !running {
                match set {
                    ActionSet::Nothing => {
                        state.routines.finish();
                    },
                    ActionSet::One(a) => {
                        state.routines.action(owner, card, index, 0, a);
                        state.routines.finish();
                        proof {
                            assert(state.routines.queue() =~= old(state).routines.queue().skip(1)
                                .push(spec_action_routine(owner, card, index, 0, a)));
                        }
                    },
                    ActionSet::Two(a, b) => {
                        state.routines.action(owner, card, index, 0, a);
                        state.routines.action(owner, card, index, 1, b);
                        state.routines.finish();
                        proof {
                            assert(state.routines.queue() =~= old(state).routines.queue().skip(1)
                                .push(spec_action_routine(owner, card, index, 0, a))
                                .push(spec_action_routine(owner, card, index, 1, b)));
                        }
                    },
                    ActionSet::Three(a, b, c) => {
                        state.routines.action(owner, card, index, 0, a);
                        state.routines.action(owner, card, index, 1, b);
                        state.routines.action(owner, card, index, 2, c);
                        state.routines.finish();
                        proof {
                            assert(state.routines.queue() =~= old(state).routines.queue().skip(1)
                                .push(spec_action_routine(owner, card, index, 0, a))
                                .push(spec_action_routine(owner, card, index, 1, b))
                                .push(spec_action_routine(owner, card, index, 2, c)));
                        }
                    },
                    ActionSet::Four(a, b, c, d) => {
                        state.routines.action(owner, card, index, 0, a);
                        state.routines.action(owner, card, index, 1, b);
                        state.routines.action(owner, card, index, 2, c);
                        state.routines.action(owner, card, index, 3, d);
                        state.routines.finish();
                        proof {
                            assert(state.routines.queue() =~= old(state).routines.queue().skip(1)
                                .push(spec_action_routine(owner, card, index, 0, a))
                                .push(spec_action_routine(owner, card, index, 1, b))
                                .push(spec_action_routine(owner, card, index, 2, c))
                                .push(spec_action_routine(owner, card, index, 3, d)));
                        }
                    },
                    ActionSet::Optional(_) | ActionSet::AnyOf2(_, _) | ActionSet::OneOf2(_, _) => {
                        state.mode = GameStates::ChoiceInput;
                        state.choice = spawn_choices(set);
                        state.routines.replace_front(Routines::ActivateCard {
                            card,
                            owner,
                            index,
                            set,
                            running: true,
                        });
                    },
                    ActionSet::OneAndOptional(a, _) => {
                        a.execute(state, card);
                        let ghost mid = *state;
                        state.mode = GameStates::ChoiceInput;
                        state.choice = spawn_choices(set);
                        state.routines.replace_front(Routines::ActivateCard {
                            card,
                            owner,
                            index,
                            set,
                            running: true,
                        });
                        proof {
                            assert(spec_execute_effect(*old(state), mid, a, card));
                        }
                    },
                }
            } else {
                state.routines.finish();
            }
        },
    }
}

} // verus!
