//! The interpreter for atomic card actions: resolving one `CardAction`
//! routine against the board and turn state, including the card-unique
//! hardcoded effects and the immediate-application path used while an action
//! set is being activated.

use vstd::prelude::*;
use crate::actions::{Action, Uniques};
use crate::arith::sat_add_i64;
use crate::cards::{CardKinds, CardOwners, KindMask};
use crate::routines::{
    spec_discard_routine, spec_draw_routine, spec_reload_routine, spec_scrap_routine,
    spec_simple_selection, spec_two_stack_selection, Routines, SelectionFilter,
};
use crate::stacks::Stacks;
use crate::state::{spec_gain_atk, spec_gain_eco, spec_gain_life, GameState};
use crate::tracker::sat_inc;

verus! {

/// A zone index narrowed to a market-row slot number.
pub open spec fn spec_slot_u8(index: usize) -> u8 {
    (index % 256) as u8
}

/// One scrap routine per picked card.
pub open spec fn spec_scrap_list(picks: Seq<usize>, n: int) -> Seq<Routines>
    decreases n,
{
    if n <= 0 {
        Seq::empty()
    } else {
        spec_scrap_list(picks, n - 1) + seq![spec_scrap_routine(picks[n - 1])]
    }
}

/// One discard routine per picked card.
pub open spec fn spec_discard_list(picks: Seq<usize>, owner: u8, n: int) -> Seq<Routines>
    decreases n,
{
    if n <= 0 {
        Seq::empty()
    } else {
        spec_discard_list(picks, owner, n - 1) + seq![spec_discard_routine(owner, picks[n - 1])]
    }
}

/// The given number of draw routines for one player.
pub open spec fn spec_draws_list(owner: u8, n: int) -> Seq<Routines>
    decreases n,
{
    if n <= 0 {
        Seq::empty()
    } else {
        spec_draws_list(owner, n - 1) + seq![spec_draw_routine(owner)]
    }
}

/// A scrap and a market reload per picked card; a stale pick is dropped.
pub open spec fn spec_scrap_reload_list(
    board: Seq<crate::board::CardInstance>,
    picks: Seq<usize>,
    n: int,
) -> Seq<Routines>
    decreases n,
{
    if n <= 0 {
        Seq::empty()
    } else {
        spec_scrap_reload_list(board, picks, n - 1) + if picks[n - 1] < board.len() {
            seq![
                spec_scrap_routine(picks[n - 1]),
                spec_reload_routine(spec_slot_u8(board[picks[n - 1] as int].index)),
            ]
        } else {
            Seq::empty()
        }
    }
}

/// A discard and a market reload per picked card; a stale pick is dropped.
pub open spec fn spec_discard_reload_list(
    board: Seq<crate::board::CardInstance>,
    picks: Seq<usize>,
    owner: u8,
    n: int,
) -> Seq<Routines>
    decreases n,
{
    if n <= 0 {
        Seq::empty()
    } else {
        spec_discard_reload_list(board, picks, owner, n - 1) + if picks[n - 1] < board.len() {
            seq![
                spec_discard_routine(owner, picks[n - 1]),
                spec_reload_routine(spec_slot_u8(board[picks[n - 1] as int].index)),
            ]
        } else {
            Seq::empty()
        }
    }
}

/// A scrap and a draw per picked card.
pub open spec fn spec_scrap_draw_list(picks: Seq<usize>, owner: u8, n: int) -> Seq<Routines>
    decreases n,
{
    if n <= 0 {
        Seq::empty()
    } else {
        spec_scrap_draw_list(picks, owner, n - 1) + seq![
            spec_scrap_routine(picks[n - 1]),
            spec_draw_routine(owner),
        ]
    }
}

/// A discard and a draw per picked card.
pub open spec fn spec_discard_draw_list(picks: Seq<usize>, owner: u8, n: int) -> Seq<Routines>
    decreases n,
{
    if n <= 0 {
        Seq::empty()
    } else {
        spec_discard_draw_list(picks, owner, n - 1) + seq![
            spec_discard_routine(owner, picks[n - 1]),
            spec_draw_routine(owner),
        ]
    }
}

/// Whether some card of the owner's zone has the wanted base kind.
pub open spec fn spec_zone_has_kind(
    cards: Seq<crate::board::CardInstance>,
    owner: CardOwners,
    stack: Stacks,
    outpost: bool,
) -> bool {
    exists|i: int| 0 <= i < cards.len() && crate::board::spec_in_zone(cards[i], owner, stack)
        && (if outpost { cards[i].kind is Outpost } else { cards[i].kind is Base })
}

/// Whether some card of the owner's zone has the wanted base kind.
pub fn zone_has_kind(
    cards: &Vec<crate::board::CardInstance>,
    owner: CardOwners,
    stack: Stacks,
    outpost: bool,
) -> (r: bool)
    ensures
        r == spec_zone_has_kind(cards@, owner, stack, outpost),
{
    let mut i: usize = 0;
    while i < cards.len()
        invariant
            i <= cards@.len(),
            forall|j: int| 0 <= j < i ==> !(crate::board::spec_in_zone(cards@[j], owner, stack)
                && (if outpost { cards@[j].kind is Outpost } else { cards@[j].kind is Base })),
        decreases cards@.len() - i,
    {
        if cards[i].owner == owner && cards[i].stack == stack {
            let hit = match cards[i].kind {
                CardKinds::Outpost(_) => outpost,
                CardKinds::Base(_) => !outpost,
                CardKinds::Ship => false,
            };
            if hit {
                return true;
            }
        }
        i = i + 1;
    }
    false
}

/// Consumes a finished selection: hands out the picked cards, clears the
/// surface, and removes the front routine.
fn take_selection(state: &mut GameState) -> (picks: Vec<usize>)
    requires
        old(state).routines.queue().len() > 0,
    ensures
        picks@ == old(state).selection.cards@,
        final(state).selection.cards@.len() == 0,
        !final(state).selection.finished,
        final(state).selection.min == old(state).selection.min,
        final(state).selection.max == old(state).selection.max,
        final(state).routines.queue() == old(state).routines.queue().skip(1),
        final(state).same_players(*old(state)),
        final(state).next_buy_on_deck == old(state).next_buy_on_deck,
        old(state).action_frame(*final(state)),
{
    state.selection.finished = false;
    let mut picks: Vec<usize> = Vec::new();
    let n = state.selection.cards.len();
    let mut i: usize = 0;
    while i < n
        invariant
            i <= n,
            picks@.len() == i,
            *state == (GameState { selection: state.selection, ..*old(state) }),
            state.selection == (crate::state::Selection {
                finished: false,
                ..old(state).selection
            }),
            n == state.selection.cards@.len(),
            forall|j: int| 0 <= j < i ==> picks@[j] == state.selection.cards@[j],
        decreases n - i,
    {
        picks.push(state.selection.cards[i]);
        i = i + 1;
    }
    proof {
        assert(picks@ =~= old(state).selection.cards@);
    }
    state.selection.cards.clear();
    state.routines.finish();
    picks
}

impl Action {
    /// Applies the action immediately for the card's owner: resource gains
    /// land on the owner's counters, draws enqueue draw routines, and every
    /// selection-driven effect is left to its own routine.
    pub fn execute(&self, state: &mut GameState, card: usize)
        ensures
            spec_execute_effect(*old(state), *final(state), *self, card),
    {
        let owner: Option<u8> = if card < state.cards.len() {
            match state.cards[card].owner {
                CardOwners::Player(p) => Some(p),
                CardOwners::Market => None,
            }
        } else {
            None
        };
        match owner {
            None => {},
            Some(p) => {
                match *self {
                    Action::Eco(qty) => {
                        if p == 0 {
                            state.p0.economy = sat_add_i64(state.p0.economy, qty as i64);
                        } else if p == 1 {
                            state.p1.economy = sat_add_i64(state.p1.economy, qty as i64);
                        }
                    },
                    Action::Atk(qty) => {
                        if p == 0 {
                            state.p0.attack = sat_add_i64(state.p0.attack, qty as i64);
                        } else if p == 1 {
                            state.p1.attack = sat_add_i64(state.p1.attack, qty as i64);
                        }
                    },
                    Action::Life(qty) => {
                        if p == 0 {
                            state.p0.life = sat_add_i64(state.p0.life, qty as i64);
                        } else if p == 1 {
                            state.p1.life = sat_add_i64(state.p1.life, qty as i64);
                        }
                    },
                    Action::Draw(qty) => {
                        let mut k: u8 = 0;
                        while k < qty
                            invariant
                                k <= qty,
                                state.routines.queue() == old(state).routines.queue()
                                    + spec_draws_list(p, k as int),
                                *state == (GameState { routines: state.routines, ..*old(state) }),
                            decreases qty - k,
                        {
                            state.routines.draw(p, false);
                            k = k + 1;
                        }
                    },
                    _ => {},
                }
            },
        }
    }
}

/// What applying an atomic action immediately does: the owner of the trigger
/// card gains the stated resource, a draw enqueues that many draw routines at
/// the back, and every other action (all selection-driven) changes nothing on
/// this path.
pub open spec fn spec_execute_effect(
    pre: GameState,
    post: GameState,
    action: Action,
    card: usize,
) -> bool {
    let owner = if card < pre.cards.len() {
        pre.cards[card as int].owner
    } else {
        CardOwners::Market
    };
    match owner {
        CardOwners::Market => post == pre,
        CardOwners::Player(p) => if p >= 2 {
            match action {
                Action::Draw(qty) => post == (GameState { routines: post.routines, ..pre })
                    && post.routines.queue() == pre.routines.queue()
                        + spec_draws_list(p, qty as int),
                _ => post == pre,
            }
        } else {
            match action {
                Action::Eco(qty) => if p == 0 {
                    post == (GameState { p0: spec_gain_eco(pre.p0, qty), ..pre })
                } else {
                    post == (GameState { p1: spec_gain_eco(pre.p1, qty), ..pre })
                },
                Action::Atk(qty) => if p == 0 {
                    post == (GameState { p0: spec_gain_atk(pre.p0, qty), ..pre })
                } else {
                    post == (GameState { p1: spec_gain_atk(pre.p1, qty), ..pre })
                },
                Action::Life(qty) => if p == 0 {
                    post == (GameState { p0: spec_gain_life(pre.p0, qty), ..pre })
                } else {
                    post == (GameState { p1: spec_gain_life(pre.p1, qty), ..pre })
                },
                Action::Draw(qty) => post == (GameState { routines: post.routines, ..pre })
                    && post.routines.queue() == pre.routines.queue()
                        + spec_draws_list(p, qty as int),
                _ => post == pre,
            }
        },
    }
}

/// What resolving one card-unique effect does to the state.
pub open spec fn spec_unique_effect(
    pre: GameState,
    post: GameState,
    unique: Uniques,
    card: usize,
    owner: u8,
) -> bool {
    let q = pre.routines.queue();
    match unique {
        Uniques::BlobWorld => {
            let played = if owner == 0 {
                pre.p0.tracker.blob.ships_played
            } else {
                pre.p1.tracker.blob.ships_played
            };
            post.routines.queue() == q.skip(1) + spec_draws_list(owner, played as int)
                && post.same_players(pre) && post.same_selection(pre)
                && post.next_buy_on_deck == pre.next_buy_on_deck && pre.action_frame(post)
        },
        Uniques::EmbassyYacht => {
            let bases = if owner == 0 {
                pre.p0.tracker.common.bases_in_play
            } else {
                pre.p1.tracker.common.bases_in_play
            };
            post.routines.queue() == q.skip(1) + if bases >= 2 {
                spec_draws_list(owner, 2)
            } else {
                Seq::empty()
            }
                && post.same_players(pre) && post.same_selection(pre)
                && post.next_buy_on_deck == pre.next_buy_on_deck && pre.action_frame(post)
        },
        Uniques::BrainWorld => if pre.selection.finished {
            let picks = pre.selection.cards@;
            post.routines.queue() == q.skip(1)
                + spec_scrap_draw_list(picks, owner, picks.len() as int)
                && post.selection.cards@.len() == 0 && !post.selection.finished
                && post.selection.min == pre.selection.min
                && post.selection.max == pre.selection.max
                && post.same_players(pre)
                && post.next_buy_on_deck == pre.next_buy_on_deck && pre.action_frame(post)
        } else {
            post.routines.queue().len() == q.len() + 1
                && post.routines.queue().skip(1) == q
                && spec_two_stack_selection(
                    post.routines.queue()[0],
                    0,
                    2,
                    Stacks::Hand,
                    Stacks::DiscardPile,
                    CardOwners::Player(owner),
                )
                && post.same_players(pre) && post.same_selection(pre)
                && post.next_buy_on_deck == pre.next_buy_on_deck && pre.action_frame(post)
        },
        Uniques::RecyclingStation => if pre.selection.finished {
            let picks = pre.selection.cards@;
            post.routines.queue() == q.skip(1)
                + spec_discard_draw_list(picks, owner, picks.len() as int)
                && post.selection.cards@.len() == 0 && !post.selection.finished
                && post.selection.min == pre.selection.min
                && post.selection.max == pre.selection.max
                && post.same_players(pre)
                && post.next_buy_on_deck == pre.next_buy_on_deck && pre.action_frame(post)
        } else {
            post.routines.queue().len() == q.len() + 1
                && post.routines.queue().skip(1) == q
                && spec_simple_selection(
                    post.routines.queue()[0],
                    0,
                    2,
                    Stacks::Hand,
                    CardOwners::Player(owner),
                    KindMask::Any,
                    0,
                    u8::MAX,
                )
                && post.same_players(pre) && post.same_selection(pre)
                && post.next_buy_on_deck == pre.next_buy_on_deck && pre.action_frame(post)
        },
        _ => post.routines.queue() == q.skip(1)
            && post.same_players(pre) && post.same_selection(pre)
            && post.next_buy_on_deck == pre.next_buy_on_deck && pre.action_frame(post),
    }
}

impl Uniques {
    /// Resolves this card-unique effect against the board and turn state; the
    /// front routine is the triggering card action.
    pub fn card_action(&self, state: &mut GameState, card: usize, owner: u8)
        requires
            old(state).routines.queue().len() > 0,
        ensures
            spec_unique_effect(*old(state), *final(state), *self, card, owner),
    {
        match *self {
            Uniques::BlobWorld => {
                let played: usize = if owner == 0 {
                    state.p0.tracker.blob.ships_played
                } else {
                    state.p1.tracker.blob.ships_played
                };
                state.routines.finish();
                let mut k: usize = 0;
                while k < played
                    invariant
                        k <= played,
                        state.routines.queue() == old(state).routines.queue().skip(1)
                            + spec_draws_list(owner, k as int),
                        *state == (GameState { routines: state.routines, ..*old(state) }),
                    decreases played - k,
                {
                    state.routines.draw(owner, false);
                    k = k + 1;
                }
            },
            Uniques::EmbassyYacht => {
                let bases: usize = if owner == 0 {
                    state.p0.tracker.common.bases_in_play
                } else {
                    state.p1.tracker.common.bases_in_play
                };
                state.routines.finish();
                if bases >= 2 {
                    state.routines.draw(owner, false);
                    state.routines.draw(owner, false);
                    proof {
                        reveal_with_fuel(spec_draws_list, 3);
                        assert(state.routines.queue() =~= old(state).routines.queue().skip(1)
                            + spec_draws_list(owner, 2));
                    }
                }
            },
            Uniques::BrainWorld => {
                if state.selection.finished {
                    let picks = take_selection(state);
                    let ghost base = old(state).routines.queue().skip(1);
                    let mut k: usize = 0;
                    while k < picks.len()
                        invariant
                            k <= picks@.len(),
                            state.routines.queue() == base
                                + spec_scrap_draw_list(picks@, owner, k as int),
                            *state == (GameState {
                                routines: state.routines,
                                selection: state.selection,
                                ..*old(state)
                            }),
                            state.selection.cards@.len() == 0,
                            !state.selection.finished,
                            state.selection.min == old(state).selection.min,
                            state.selection.max == old(state).selection.max,
                            state.p0 == old(state).p0,
                            state.p1 == old(state).p1,
                            state.next_buy_on_deck == old(state).next_buy_on_deck,
                        decreases picks@.len() - k,
                    {
                        state.routines.scrap(picks[k]);
                        state.routines.draw(owner, false);
                        k = k + 1;
                    }
                } else {
                    let mut stacks: Vec<Stacks> = Vec::new();
                    stacks.push(Stacks::Hand);
                    stacks.push(Stacks::DiscardPile);
                    let mut owners: Vec<CardOwners> = Vec::new();
                    owners.push(CardOwners::Player(owner));
                    proof {
                        assert(stacks@ =~= seq![Stacks::Hand, Stacks::DiscardPile]);
                        assert(owners@ =~= seq![CardOwners::Player(owner)]);
                    }
                    let mut filters: Vec<SelectionFilter> = Vec::new();
                    filters.push(SelectionFilter {
                        stacks,
                        owners,
                        kinds: KindMask::Any,
                        min_cost: 0,
                        max_cost: u8::MAX,
                    });
                    state.routines.extended_selection(0, 2, filters);
                    proof {
                        assert(state.routines.queue().skip(1)
                            =~= old(state).routines.queue());
                    }
                }
            },
            Uniques::RecyclingStation => {
                if state.selection.finished {
                    let picks = take_selection(state);
                    let ghost base = old(state).routines.queue().skip(1);
                    let mut k: usize = 0;
                    while k < picks.len()
                        invariant
                            k <= picks@.len(),
                            state.routines.queue() == base
                                + spec_discard_draw_list(picks@, owner, k as int),
                            *state == (GameState {
                                routines: state.routines,
                                selection: state.selection,
                                ..*old(state)
                            }),
                            state.selection.cards@.len() == 0,
                            !state.selection.finished,
                            state.selection.min == old(state).selection.min,
                            state.selection.max == old(state).selection.max,
                            state.p0 == old(state).p0,
                            state.p1 == old(state).p1,
                            state.next_buy_on_deck == old(state).next_buy_on_deck,
                        decreases picks@.len() - k,
                    {
                        state.routines.discard(owner, picks[k]);
                        state.routines.draw(owner, false);
                        k = k + 1;
                    }
                } else {
                    state.routines.selection(
                        0,
                        2,
                        Stacks::Hand,
                        CardOwners::Player(owner),
                        KindMask::Any,
                        0,
                        u8::MAX,
                    );
                }
            },
            _ => {
                state.routines.finish();
            },
        }
    }
}

/// Since every draw routine of a player is the same value, prepending one
/// more equals appending one more.
proof fn lemma_draws_prepend(owner: u8, n: int)
    requires
        n >= 0,
    ensures
        seq![spec_draw_routine(owner)] + spec_draws_list(owner, n)
            =~= spec_draws_list(owner, n + 1),
    decreases n,
{
    if n > 0 {
        lemma_draws_prepend(owner, n - 1);
        assert(seq![spec_draw_routine(owner)] + spec_draws_list(owner, n)
            =~= (seq![spec_draw_routine(owner)] + spec_draws_list(owner, n - 1))
                + seq![spec_draw_routine(owner)]);
    }
}

/// The common shape of a consumed selection: the front routine is replaced by
/// the given follow-up routines, the picked cards are drained, and nothing
/// else moves.
pub open spec fn spec_consumed(pre: GameState, post: GameState, follow: Seq<Routines>) -> bool {
    &&& post.routines.queue() == pre.routines.queue().skip(1) + follow
    &&& post.selection.cards@.len() == 0
    &&& !post.selection.finished
    &&& post.selection.min == pre.selection.min
    &&& post.selection.max == pre.selection.max
    &&& post.same_players(pre)
    &&& post.next_buy_on_deck == pre.next_buy_on_deck
    &&& pre.action_frame(post)
}

/// The common shape of an opened selection: the prompt routine pre-empts the
/// queue (the pending action stays behind it) and nothing else moves.
pub open spec fn spec_prompted(pre: GameState, post: GameState) -> bool {
    &&& post.routines.queue().len() == pre.routines.queue().len() + 1
    &&& post.routines.queue().skip(1) == pre.routines.queue()
    &&& post.same_players(pre)
    &&& post.same_selection(pre)
    &&& post.next_buy_on_deck == pre.next_buy_on_deck
    &&& pre.action_frame(post)
}

/// What resolving one atomic card action does to the state: resource gains
/// land on the acting player, draws pre-empt the queue, selection-driven
/// effects first open a selection prompt and consume its picks on the next
/// visit, a forced enemy discard is deferred onto the enemy's tracker, and
/// the purchase redirection flag is set by its action.
pub open spec fn spec_card_action_effect(
    pre: GameState,
    post: GameState,
    card: usize,
    owner: u8,
    action: Action,
) -> bool {
    let q = pre.routines.queue();
    let dropped = q.skip(1);
    match action {
        Action::Eco(qty) => post.routines.queue() == dropped
            && (if owner == 0 {
                post.p0 == spec_gain_eco(pre.p0, qty) && post.p1 == pre.p1
            } else if owner == 1 {
                post.p1 == spec_gain_eco(pre.p1, qty) && post.p0 == pre.p0
            } else {
                post.same_players(pre)
            })
            && post.same_selection(pre) && post.next_buy_on_deck == pre.next_buy_on_deck
            && pre.action_frame(post),
        Action::Atk(qty) => post.routines.queue() == dropped
            && (if owner == 0 {
                post.p0 == spec_gain_atk(pre.p0, qty) && post.p1 == pre.p1
            } else if owner == 1 {
                post.p1 == spec_gain_atk(pre.p1, qty) && post.p0 == pre.p0
            } else {
                post.same_players(pre)
            })
            && post.same_selection(pre) && post.next_buy_on_deck == pre.next_buy_on_deck
            && pre.action_frame(post),
        Action::Life(qty) => post.routines.queue() == dropped
            && (if owner == 0 {
                post.p0 == spec_gain_life(pre.p0, qty) && post.p1 == pre.p1
            } else if owner == 1 {
                post.p1 == spec_gain_life(pre.p1, qty) && post.p0 == pre.p0
            } else {
                post.same_players(pre)
            })
            && post.same_selection(pre) && post.next_buy_on_deck == pre.next_buy_on_deck
            && pre.action_frame(post),
        Action::Draw(qty) => post.routines.queue() == spec_draws_list(owner, qty as int)
            + dropped
            && post.same_players(pre) && post.same_selection(pre)
            && post.next_buy_on_deck == pre.next_buy_on_deck && pre.action_frame(post),
        Action::Discard => if pre.selection.finished {
            spec_consumed(pre, post, spec_discard_list(
                pre.selection.cards@,
                owner,
                pre.selection.cards@.len() as int,
            ))
        } else {
            spec_prompted(pre, post) && spec_simple_selection(
                post.routines.queue()[0],
                1,
                1,
                Stacks::Hand,
                CardOwners::Player(owner),
                KindMask::Any,
                0,
                u8::MAX,
            )
        },
        Action::ScrapHand => if pre.selection.finished {
            spec_consumed(pre, post, spec_scrap_list(
                pre.selection.cards@,
                pre.selection.cards@.len() as int,
            ))
        } else {
            spec_prompted(pre, post) && spec_simple_selection(
                post.routines.queue()[0],
                1,
                1,
                Stacks::Hand,
                CardOwners::Player(owner),
                KindMask::Any,
                0,
                u8::MAX,
            )
        },
        Action::ScrapDiscard => if pre.selection.finished {
            spec_consumed(pre, post, spec_scrap_list(
                pre.selection.cards@,
                pre.selection.cards@.len() as int,
            ))
        } else {
            spec_prompted(pre, post) && spec_simple_selection(
                post.routines.queue()[0],
                1,
                1,
                Stacks::DiscardPile,
                CardOwners::Player(owner),
                KindMask::Any,
                0,
                u8::MAX,
            )
        },
        Action::ScrapHandOrDiscard => if pre.selection.finished {
            spec_consumed(pre, post, spec_scrap_list(
                pre.selection.cards@,
                pre.selection.cards@.len() as int,
            ))
        } else {
            spec_prompted(pre, post) && spec_two_stack_selection(
                post.routines.queue()[0],
                1,
                1,
                Stacks::Hand,
                Stacks::DiscardPile,
                CardOwners::Player(owner),
            )
        },
        Action::ScrapMarket => if pre.selection.finished {
            spec_consumed(pre, post, spec_scrap_reload_list(
                pre.cards@,
                pre.selection.cards@,
                pre.selection.cards@.len() as int,
            ))
        } else {
            spec_prompted(pre, post) && spec_simple_selection(
                post.routines.queue()[0],
                1,
                1,
                Stacks::MarketRow,
                CardOwners::Market,
                KindMask::Any,
                0,
                u8::MAX,
            )
        },
        Action::ScrapSelf => post.routines.queue() == dropped.push(spec_scrap_routine(card))
            && post.same_players(pre) && post.same_selection(pre)
            && post.next_buy_on_deck == pre.next_buy_on_deck && pre.action_frame(post),
        Action::DestroyBase => {
            let enemy: u8 = if owner == 0 { 1 } else { 0 };
            if pre.selection.finished {
                spec_consumed(pre, post, spec_discard_list(
                    pre.selection.cards@,
                    enemy,
                    pre.selection.cards@.len() as int,
                ))
            } else if spec_zone_has_kind(
                pre.cards@,
                CardOwners::Player(enemy),
                Stacks::Bases,
                true,
            ) {
                spec_prompted(pre, post) && spec_simple_selection(
                    post.routines.queue()[0],
                    1,
                    1,
                    Stacks::Bases,
                    CardOwners::Player(enemy),
                    KindMask::Outposts,
                    0,
                    u8::MAX,
                )
            } else if spec_zone_has_kind(
                pre.cards@,
                CardOwners::Player(enemy),
                Stacks::Bases,
                false,
            ) {
                spec_prompted(pre, post) && spec_simple_selection(
                    post.routines.queue()[0],
                    1,
                    1,
                    Stacks::Bases,
                    CardOwners::Player(enemy),
                    KindMask::Bases,
                    0,
                    u8::MAX,
                )
            } else {
                post.routines.queue() == dropped
                    && post.same_players(pre) && post.same_selection(pre)
                    && post.next_buy_on_deck == pre.next_buy_on_deck && pre.action_frame(post)
            }
        },
        Action::EnemyDiscard => post.routines.queue() == dropped
            && (if owner == 0 {
                post.p0 == pre.p0 && post.p1 == (crate::state::PlayerState {
                    tracker: crate::tracker::PlayerTurnTracker {
                        cards_to_discard: sat_inc(pre.p1.tracker.cards_to_discard),
                        ..pre.p1.tracker
                    },
                    ..pre.p1
                })
            } else {
                post.p1 == pre.p1 && post.p0 == (crate::state::PlayerState {
                    tracker: crate::tracker::PlayerTurnTracker {
                        cards_to_discard: sat_inc(pre.p0.tracker.cards_to_discard),
                        ..pre.p0.tracker
                    },
                    ..pre.p0
                })
            })
            && post.same_selection(pre) && post.next_buy_on_deck == pre.next_buy_on_deck
            && pre.action_frame(post),
        Action::FreeBuy { min_cost, max_cost, valid_kinds } => if pre.selection.finished {
            spec_consumed(pre, post, spec_discard_reload_list(
                pre.cards@,
                pre.selection.cards@,
                owner,
                pre.selection.cards@.len() as int,
            ))
        } else {
            spec_prompted(pre, post) && spec_simple_selection(
                post.routines.queue()[0],
                1,
                1,
                Stacks::MarketRow,
                CardOwners::Market,
                valid_kinds,
                min_cost,
                max_cost,
            )
        },
        Action::NextBuyOnDeck(kinds) => post.routines.queue() == dropped
            && post.next_buy_on_deck == crate::state::NextBuyOnDeckFlag(kinds)
            && post.same_players(pre) && post.same_selection(pre) && pre.action_frame(post),
        Action::Unique(unique) => spec_unique_effect(pre, post, unique, card, owner),
    }
}

/// Resolves the front routine when it is an atomic card action; any other
/// front routine (or an empty queue) is left to its own step.
pub fn card_action(state: &mut GameState)
    ensures
        ({
            let q = old(state).routines.queue();
            if q.len() > 0 && (q[0] matches Routines::CardAction { .. }) {
                q[0] matches Routines::CardAction { card, owner, action, .. }
                    ==> spec_card_action_effect(*old(state), *final(state), card, owner, action)
            } else {
                *final(state) == *old(state)
            }
        }),
{
    let data: Option<(usize, u8, Action)> = match state.routines.routine() {
        Some(Routines::CardAction { card, owner, action, .. }) => Some((*card, *owner, *action)),
        _ => None,
    };
    let (card, owner, action) = match data {
        None => {
            return;
        },
        Some(d) => d,
    };
    match action {
        Action::Eco(qty) => {
            if owner == 0 {
                state.p0.economy = sat_add_i64(state.p0.economy, qty as i64);
            } else if owner == 1 {
                state.p1.economy = sat_add_i64(state.p1.economy, qty as i64);
            }
            state.routines.finish();
        },
        Action::Atk(qty) => {
            if owner == 0 {
                state.p0.attack = sat_add_i64(state.p0.attack, qty as i64);
            } else if owner == 1 {
                state.p1.attack = sat_add_i64(state.p1.attack, qty as i64);
            }
            state.routines.finish();
        },
        Action::Life(qty) => {
            if owner == 0 {
                state.p0.life = sat_add_i64(state.p0.life, qty as i64);
            } else if owner == 1 {
                state.p1.life = sat_add_i64(state.p1.life, qty as i64);
            }
            state.routines.finish();
        },
        Action::Draw(qty) => {
            state.routines.finish();
            let mut k: u8 = 0;
            while k < qty
                invariant
                    k <= qty,
                    state.routines.queue() == spec_draws_list(owner, k as int)
                        + old(state).routines.queue().skip(1),
                    *state == (GameState { routines: state.routines, ..*old(state) }),
                decreases qty - k,
            {
                state.routines.draw(owner, true);
                proof {
                    lemma_draws_prepend(owner, k as int);
                    assert(state.routines.queue() =~= spec_draws_list(owner, k + 1 as int)
                        + old(state).routines.queue().skip(1));
                }
                k = k + 1;
            }
        },
        Action::Discard => {
            if state.selection.finished {
                let picks = take_selection(state);
                enqueue_discards(state, &picks, owner, Ghost(*old(state)));
            } else {
                state.routines.selection(
                    1,
                    1,
                    Stacks::Hand,
                    CardOwners::Player(owner),
                    KindMask::Any,
                    0,
                    u8::MAX,
                );
            }
        },
        Action::ScrapHand => {
            if state.selection.finished {
                let picks = take_selection(state);
                enqueue_scraps(state, &picks, Ghost(*old(state)));
            } else {
                state.routines.selection(
                    1,
                    1,
                    Stacks::Hand,
                    CardOwners::Player(owner),
                    KindMask::Any,
                    0,
                    u8::MAX,
                );
            }
        },
        Action::ScrapDiscard => {
            if state.selection.finished {
                let picks = take_selection(state);
                enqueue_scraps(state, &picks, Ghost(*old(state)));
            } else {
                state.routines.selection(
                    1,
                    1,
                    Stacks::DiscardPile,
                    CardOwners::Player(owner),
                    KindMask::Any,
                    0,
                    u8::MAX,
                );
            }
        },
        Action::ScrapHandOrDiscard => {
            if state.selection.finished {
                let picks = take_selection(state);
                enqueue_scraps(state, &picks, Ghost(*old(state)));
            } else {
                let mut stacks: Vec<Stacks> = Vec::new();
                stacks.push(Stacks::Hand);
                stacks.push(Stacks::DiscardPile);
                let mut owners: Vec<CardOwners> = Vec::new();
                owners.push(CardOwners::Player(owner));
                proof {
                    assert(stacks@ =~= seq![Stacks::Hand, Stacks::DiscardPile]);
                    assert(owners@ =~= seq![CardOwners::Player(owner)]);
                }
                let mut filters: Vec<SelectionFilter> = Vec::new();
                filters.push(SelectionFilter {
                    stacks,
                    owners,
                    kinds: KindMask::Any,
                    min_cost: 0,
                    max_cost: u8::MAX,
                });
                state.routines.extended_selection(1, 1, filters);
                proof {
                    assert(state.routines.queue().skip(1) =~= old(state).routines.queue());
                }
            }
        },
        Action::ScrapMarket => {
            if state.selection.finished {
                let picks = take_selection(state);
                let ghost base = old(state).routines.queue().skip(1);
                let mut k: usize = 0;
                while k < picks.len()
                    invariant
                        k <= picks@.len(),
                        state.routines.queue() == base
                            + spec_scrap_reload_list(state.cards@, picks@, k as int),
                        *state == (GameState {
                            routines: state.routines,
                            selection: state.selection,
                            ..*old(state)
                        }),
                        state.selection.cards@.len() == 0,
                        !state.selection.finished,
                        state.selection.min == old(state).selection.min,
                        state.selection.max == old(state).selection.max,
                    decreases picks@.len() - k,
                {
                    let c = picks[k];
                    if c < state.cards.len() {
                        state.routines.scrap(c);
                        let slot = (state.cards[c].index % 256) as u8;
                        state.routines.reload_market(slot);
                    }
                    k = k + 1;
                }
            } else {
                state.routines.selection(
                    1,
                    1,
                    Stacks::MarketRow,
                    CardOwners::Market,
                    KindMask::Any,
                    0,
                    u8::MAX,
                );
            }
        },
        Action::ScrapSelf => {
            state.routines.finish();
            state.routines.scrap(card);
        },
        Action::DestroyBase => {
            let enemy: u8 = if owner == 0 { 1 } else { 0 };
            if state.selection.finished {
                let picks = take_selection(state);
                enqueue_discards(state, &picks, enemy, Ghost(*old(state)));
            } else {
                if zone_has_kind(&state.cards, CardOwners::Player(enemy), Stacks::Bases, true) {
                    state.routines.selection(
                        1,
                        1,
                        Stacks::Bases,
                        CardOwners::Player(enemy),
                        KindMask::Outposts,
                        0,
                        u8::MAX,
                    );
                } else if zone_has_kind(
                    &state.cards,
                    CardOwners::Player(enemy),
                    Stacks::Bases,
                    false,
                ) {
                    state.routines.selection(
                        1,
                        1,
                        Stacks::Bases,
                        CardOwners::Player(enemy),
                        KindMask::Bases,
                        0,
                        u8::MAX,
                    );
                } else {
                    state.routines.finish();
                }
            }
        },
        Action::EnemyDiscard => {
            state.routines.finish();
            if owner == 0 {
                state.p1.tracker.cards_to_discard =
                    state.p1.tracker.cards_to_discard.saturating_add(1);
            } else {
                state.p0.tracker.cards_to_discard =
                    state.p0.tracker.cards_to_discard.saturating_add(1);
            }
        },
        Action::FreeBuy { min_cost, max_cost, valid_kinds } => {
            if state.selection.finished {
                let picks = take_selection(state);
                let ghost base = old(state).routines.queue().skip(1);
                let mut k: usize = 0;
                while k < picks.len()
                    invariant
                        k <= picks@.len(),
                        state.routines.queue() == base
                            + spec_discard_reload_list(state.cards@, picks@, owner, k as int),
                        *state == (GameState {
                            routines: state.routines,
                            selection: state.selection,
                            ..*old(state)
                        }),
                        state.selection.cards@.len() == 0,
                        !state.selection.finished,
                        state.selection.min == old(state).selection.min,
                        state.selection.max == old(state).selection.max,
                    decreases picks@.len() - k,
                {
                    let c = picks[k];
                    if c < state.cards.len() {
                        state.routines.discard(owner, c);
                        let slot = (state.cards[c].index % 256) as u8;
                        state.routines.reload_market(slot);
                    }
                    k = k + 1;
                }
            } else {
                state.routines.selection(
                    1,
                    1,
                    Stacks::MarketRow,
                    CardOwners::Market,
                    valid_kinds,
                    min_cost,
                    max_cost,
                );
            }
        },
        Action::NextBuyOnDeck(kinds) => {
            state.routines.finish();
            state.next_buy_on_deck = crate::state::NextBuyOnDeckFlag(kinds);
        },
        Action::Unique(unique) => {
            unique.card_action(state, card, owner);
        },
    }
}

/// Enqueues one discard routine per picked card, after a drained selection.
fn enqueue_discards(
    state: &mut GameState,
    picks: &Vec<usize>,
    owner: u8,
    Ghost(pre): Ghost<GameState>,
)
    requires
        old(state).routines.queue() == pre.routines.queue().skip(1),
        old(state).selection.cards@.len() == 0,
        !old(state).selection.finished,
        old(state).selection.min == pre.selection.min,
        old(state).selection.max == pre.selection.max,
        old(state).same_players(pre),
        old(state).next_buy_on_deck == pre.next_buy_on_deck,
        pre.action_frame(*old(state)),
        picks@ == pre.selection.cards@,
    ensures
        spec_consumed(pre, *final(state), spec_discard_list(
            pre.selection.cards@,
            owner,
            pre.selection.cards@.len() as int,
        )),
{
    let ghost base = pre.routines.queue().skip(1);
    let mut k: usize = 0;
    while k < picks.len()
        invariant
            k <= picks@.len(),
            picks@ == pre.selection.cards@,
            state.routines.queue() == base + spec_discard_list(picks@, owner, k as int),
            *state == (GameState { routines: state.routines, ..*old(state) }),
        decreases picks@.len() - k,
    {
        state.routines.discard(owner, picks[k]);
        k = k + 1;
    }
}

/// Enqueues one scrap routine per picked card, after a drained selection.
fn enqueue_scraps(state: &mut GameState, picks: &Vec<usize>, Ghost(pre): Ghost<GameState>)
    requires
        old(state).routines.queue() == pre.routines.queue().skip(1),
        old(state).selection.cards@.len() == 0,
        !old(state).selection.finished,
        old(state).selection.min == pre.selection.min,
        old(state).selection.max == pre.selection.max,
        old(state).same_players(pre),
        old(state).next_buy_on_deck == pre.next_buy_on_deck,
        pre.action_frame(*old(state)),
        picks@ == pre.selection.cards@,
    ensures
        spec_consumed(pre, *final(state), spec_scrap_list(
            pre.selection.cards@,
            pre.selection.cards@.len() as int,
        )),
{
    let ghost base = pre.routines.queue().skip(1);
    let mut k: usize = 0;
    while k < picks.len()
        invariant
            k <= picks@.len(),
            picks@ == pre.selection.cards@,
            state.routines.queue() == base + spec_scrap_list(picks@, k as int),
            *state == (GameState { routines: state.routines, ..*old(state) }),
        decreases picks@.len() - k,
    {
        state.routines.scrap(picks[k]);
        k = k + 1;
    }
}

} // verus!
