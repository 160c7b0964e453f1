//! The per-intent event handlers and the dispatcher that gates them: an
//! intent is handled only while no routine is in flight, and each handler
//! validates turn ownership and domain legality before it enqueues routines
//! and marks the intent processed, or cancels it.

use vstd::prelude::*;
use crate::actions::{spec_action_set_of, spec_cleared};
use crate::arith::{sat_sub_i64, spec_sat_sub_i64};
use crate::board::{find_in_zone_at, spec_in_zone, spec_instance, CardDef, CardInstance};
use crate::cards::{CardKinds, CardOwners, CardVisibility};
use crate::events::{BuyFrom, GameEvents};
use crate::execute::{spec_draws_list, spec_zone_has_kind};
use crate::routines::{
    spec_discard_routine, spec_draw_routine, spec_reload_routine, spec_scrap_routine,
    spec_shuffle_routine, Routines,
};
use crate::stacks::Stacks;
use crate::state::{GameSet, GameState, PlayerState, MAXIMUM_PLAYERS};
use crate::states::TurnStates;
use crate::tracker::spec_turn_finished;

verus! {

/// The number of copies a deck entry spawns at consecutive indices.
pub open spec fn spec_spawn_copies(
    def: CardDef,
    qty: int,
    owner: CardOwners,
    stack: Stacks,
    vis: CardVisibility,
    base: int,
) -> Seq<CardInstance> {
    Seq::new(
        if qty >= 0 { qty as nat } else { 0 },
        |k: int| spec_instance(def, owner, stack, (base + k) as usize, vis),
    )
}

/// The instances a whole deck manifest spawns into one zone, entry by entry,
/// at consecutive indices starting from `base`.
pub open spec fn spec_spawn_deck(
    deck: Seq<(u32, CardDef)>,
    n: int,
    owner: CardOwners,
    stack: Stacks,
    vis: CardVisibility,
    base: int,
) -> Seq<CardInstance>
    decreases n,
{
    if n <= 0 {
        Seq::empty()
    } else {
        let prefix = spec_spawn_deck(deck, n - 1, owner, stack, vis, base);
        prefix + spec_spawn_copies(
            deck[n - 1].1,
            deck[n - 1].0 as int,
            owner,
            stack,
            vis,
            base + prefix.len(),
        )
    }
}

/// How many cards a deck manifest holds.
pub open spec fn spec_deck_total(deck: Seq<(u32, CardDef)>, n: int) -> int
    decreases n,
{
    if n <= 0 {
        0
    } else {
        spec_deck_total(deck, n - 1) + deck[n - 1].0
    }
}

/// Spawns every copy of a deck manifest into one zone at consecutive indices.
/// An entry whose quantity would push the arena over the machine limit is
/// skipped, which a real deck cannot reach.
fn spawn_deck(
    state: &mut GameState,
    deck: &Vec<(u32, CardDef)>,
    owner: CardOwners,
    stack: Stacks,
    vis: CardVisibility,
)
    requires
        old(state).cards@.len() + spec_deck_total(deck@, deck@.len() as int) <= usize::MAX,
    ensures
        final(state).cards@ == old(state).cards@ + spec_spawn_deck(
            deck@,
            deck@.len() as int,
            owner,
            stack,
            vis,
            0,
        ),
        final(state).cards@.len() == old(state).cards@.len()
            + spec_deck_total(deck@, deck@.len() as int),
        *final(state) == (GameState { cards: final(state).cards, ..*old(state) }),
{
    let mut index: usize = 0;
    let mut e: usize = 0;
    proof {
        lemma_deck_total_grows(deck@, deck@.len() as int);
    }
    while e < deck.len()
        invariant
            e <= deck@.len(),
            old(state).cards@.len() + spec_deck_total(deck@, deck@.len() as int) <= usize::MAX,
            state.cards@ == old(state).cards@ + spec_spawn_deck(deck@, e as int, owner, stack,
                vis, 0),
            index == spec_spawn_deck(deck@, e as int, owner, stack, vis, 0).len(),
            index == spec_deck_total(deck@, e as int),
            spec_deck_total(deck@, e as int) + spec_deck_total_from(deck@, e as int,
                deck@.len() as int) == spec_deck_total(deck@, deck@.len() as int),
            *state == (GameState { cards: state.cards, ..*old(state) }),
        decreases deck@.len() - e,
    {
        let qty = deck[e].0;
        proof {
            lemma_deck_total_from_step(deck@, e as int, deck@.len() as int);
            lemma_deck_total_from_nonneg(deck@, e + 1 as int, deck@.len() as int);
        }
        let mut k: u32 = 0;
        let ghost base = index as int;
        while k < qty
            invariant
                k <= qty,
                e < deck@.len(),
                qty == deck@[e as int].0,
                index == base + k,
                base + qty <= usize::MAX,
                state.cards@ == old(state).cards@ + spec_spawn_deck(deck@, e as int, owner,
                    stack, vis, 0) + spec_spawn_copies(deck@[e as int].1, k as int, owner, stack,
                    vis, base),
                base == spec_spawn_deck(deck@, e as int, owner, stack, vis, 0).len(),
                *state == (GameState { cards: state.cards, ..*old(state) }),
            decreases qty - k,
        {
            state.cards.push(CardInstance::spawn(&deck[e].1, owner, stack, index, vis));
            proof {
                assert(state.cards@ =~= old(state).cards@ + spec_spawn_deck(deck@, e as int,
                    owner, stack, vis, 0) + spec_spawn_copies(deck@[e as int].1, k + 1 as int,
                    owner, stack, vis, base));
            }
            index = index + 1;
            k = k + 1;
        }
        proof {
            assert(state.cards@ =~= old(state).cards@ + spec_spawn_deck(deck@, e + 1 as int,
                owner, stack, vis, 0));
        }
        e = e + 1;
    }
}

/// What a deck manifest still holds from entry `from` on.
pub open spec fn spec_deck_total_from(deck: Seq<(u32, CardDef)>, from: int, n: int) -> int
    decreases n - from,
{
    if from >= n || from < 0 {
        0
    } else {
        deck[from].0 + spec_deck_total_from(deck, from + 1, n)
    }
}

/// The whole count splits at any entry.
proof fn lemma_deck_total_from_step(deck: Seq<(u32, CardDef)>, e: int, n: int)
    requires
        0 <= e < n,
    ensures
        spec_deck_total_from(deck, e, n) == deck[e].0 + spec_deck_total_from(deck, e + 1, n),
{
}

/// A suffix count is never negative.
proof fn lemma_deck_total_from_nonneg(deck: Seq<(u32, CardDef)>, from: int, n: int)
    ensures
        spec_deck_total_from(deck, from, n) >= 0,
    decreases n - from,
{
    if 0 <= from && from < n {
        lemma_deck_total_from_nonneg(deck, from + 1, n);
    }
}

/// The prefix count plus the suffix count is the whole count.
proof fn lemma_deck_total_grows(deck: Seq<(u32, CardDef)>, n: int)
    ensures
        forall|e: int| 0 <= e <= n ==> #[trigger] spec_deck_total(deck, e)
            + spec_deck_total_from(deck, e, n) == spec_deck_total(deck, n),
    decreases n,
{
    if n > 0 {
        lemma_deck_total_grows(deck, n - 1);
        assert forall|e: int| 0 <= e <= n implies #[trigger] spec_deck_total(deck, e)
            + spec_deck_total_from(deck, e, n) == spec_deck_total(deck, n) by {
            if e < n {
                lemma_deck_total_split(deck, e, n);
            }
        }
    }
}

/// The suffix count from `e` is the whole count minus the prefix count.
proof fn lemma_deck_total_split(deck: Seq<(u32, CardDef)>, e: int, n: int)
    requires
        0 <= e <= n,
    ensures
        spec_deck_total(deck, e) + spec_deck_total_from(deck, e, n) == spec_deck_total(deck, n),
    decreases n - e,
{
    if e < n {
        lemma_deck_total_split(deck, e + 1, n);
    }
}

/// The routine queue the setup handler leaves behind: shuffles of the market
/// deck and both player decks, five market reloads, and the opening draws --
/// three rounds for both players, then two more for the non-starting player.
pub open spec fn spec_setup_routines(starting_player: u8) -> Seq<Routines> {
    let other: u8 = if starting_player == 0 { 1 } else { 0 };
    seq![
        spec_shuffle_routine(CardOwners::Market, Stacks::MarketDeck),
        spec_shuffle_routine(CardOwners::Player(0), Stacks::PlayerDeck),
        spec_shuffle_routine(CardOwners::Player(1), Stacks::PlayerDeck),
        spec_reload_routine(0),
        spec_reload_routine(1),
        spec_reload_routine(2),
        spec_reload_routine(3),
        spec_reload_routine(4),
        spec_draw_routine(0),
        spec_draw_routine(1),
        spec_draw_routine(0),
        spec_draw_routine(1),
        spec_draw_routine(0),
        spec_draw_routine(1),
        spec_draw_routine(other),
        spec_draw_routine(other),
    ]
}

/// The cards a whole game set spawns: the market deck face down, one copy of
/// the player deck per player face down, and the joker deck face up.
pub open spec fn spec_setup_cards(pre: Seq<CardInstance>, set: GameSet) -> Seq<CardInstance> {
    pre + spec_spawn_deck(
        set.market_deck@,
        set.market_deck@.len() as int,
        CardOwners::Market,
        Stacks::MarketDeck,
        CardVisibility::Hidden,
        0,
    ) + spec_spawn_deck(
        set.player_deck@,
        set.player_deck@.len() as int,
        CardOwners::Player(0),
        Stacks::PlayerDeck,
        CardVisibility::Hidden,
        0,
    ) + spec_spawn_deck(
        set.player_deck@,
        set.player_deck@.len() as int,
        CardOwners::Player(1),
        Stacks::PlayerDeck,
        CardVisibility::Hidden,
        0,
    ) + spec_spawn_deck(
        set.joker_deck@,
        set.joker_deck@.len() as int,
        CardOwners::Market,
        Stacks::JokerDeck,
        CardVisibility::Visible,
        0,
    )
}

/// How many cards a whole game set spawns.
pub open spec fn spec_set_total(set: GameSet) -> int {
    spec_deck_total(set.market_deck@, set.market_deck@.len() as int)
        + 2 * spec_deck_total(set.player_deck@, set.player_deck@.len() as int)
        + spec_deck_total(set.joker_deck@, set.joker_deck@.len() as int)
}

/// What a handled setup intent does: the board is dealt from the set, the
/// opening shuffles, reloads and draws are queued, the turn passes to the
/// starting player, and the intent is processed. Any other current intent
/// leaves the state alone.
pub open spec fn spec_setup_effect(pre: GameState, post: GameState, set: GameSet) -> bool {
    match pre.events.current() {
        Some(GameEvents::Setup { seed, set: _, players: _, starting_player }) => {
            &&& post.cards@ == spec_setup_cards(pre.cards@, set)
            &&& post.routines.queue() == pre.routines.queue()
                + spec_setup_routines(starting_player)
            &&& post.turn == TurnStates::PlayerTurn(starting_player)
            &&& post.events.log_view() == pre.events.log_view()
            &&& post.events.flags_view() == 0
            &&& (if pre.events.head_view() == pre.events.log_view().len() {
                post.events.is_processed()
                    && post.events.head_view() == pre.events.head_view()
            } else {
                post.events.head_view() == pre.events.head_view() + 1
                    && !post.events.is_processed()
            })
            &&& post.mode == pre.mode
            &&& post.same_players(pre)
            &&& post.next_buy_on_deck == pre.next_buy_on_deck
            &&& post.same_selection(pre)
            &&& post.choice == pre.choice
            &&& post.pending == pre.pending
            &&& post.local_player == pre.local_player
        },
        _ => post == pre,
    }
}

/// Handles the setup intent: reseeds the generator, deals every deck of the
/// set, and queues the opening shuffles, reloads and draws.
pub fn setup(state: &mut GameState, set: &GameSet)
    requires
        old(state).events.wf(),
        old(state).cards@.len() + spec_set_total(*set) <= usize::MAX,
    ensures
        spec_setup_effect(*old(state), *final(state), *set),
        final(state).events.wf(),
{
    let data: Option<(u64, u8)> = match state.events.get_unprocessed() {
        Some(GameEvents::Setup { seed, starting_player, .. }) => Some((*seed, *starting_player)),
        _ => None,
    };
    let (seed, starting_player) = match data {
        None => {
            return;
        },
        Some(d) => d,
    };
    state.reseed(seed);
    proof {
        lemma_deck_total_nonneg(set.market_deck@, set.market_deck@.len() as int);
        lemma_deck_total_nonneg(set.player_deck@, set.player_deck@.len() as int);
        lemma_deck_total_nonneg(set.joker_deck@, set.joker_deck@.len() as int);
    }
    spawn_deck(state, &set.market_deck, CardOwners::Market, Stacks::MarketDeck,
        CardVisibility::Hidden);
    spawn_deck(state, &set.player_deck, CardOwners::Player(0), Stacks::PlayerDeck,
        CardVisibility::Hidden);
    spawn_deck(state, &set.player_deck, CardOwners::Player(1), Stacks::PlayerDeck,
        CardVisibility::Hidden);
    spawn_deck(state, &set.joker_deck, CardOwners::Market, Stacks::JokerDeck,
        CardVisibility::Visible);
    state.routines.shuffle(CardOwners::Market, Stacks::MarketDeck, false);
    state.routines.shuffle(CardOwners::Player(0), Stacks::PlayerDeck, false);
    state.routines.shuffle(CardOwners::Player(1), Stacks::PlayerDeck, false);
    let mut slot: u8 = 0;
    while slot < 5
        invariant
            slot <= 5,
            state.routines.queue() == old(state).routines.queue()
                + spec_setup_routines_prefix(3 + slot as int, starting_player),
            *state == (GameState {
                cards: state.cards,
                routines: state.routines,
                rng: state.rng,
                ..*old(state)
            }),
            state.cards@ == spec_setup_cards(old(state).cards@, *set),
        decreases 5 - slot,
    {
        state.routines.reload_market(slot);
        proof {
            assert(state.routines.queue() =~= old(state).routines.queue()
                + spec_setup_routines_prefix(3 + (slot + 1) as int, starting_player));
        }
        slot = slot + 1;
    }
    let mut i: u8 = 0;
    while i < 5
        invariant
            i <= 5,
            state.routines.queue() == old(state).routines.queue()
                + spec_setup_routines_prefix(8 + spec_draw_count(i as int), starting_player),
            *state == (GameState {
                cards: state.cards,
                routines: state.routines,
                rng: state.rng,
                ..*old(state)
            }),
            state.cards@ == spec_setup_cards(old(state).cards@, *set),
        decreases 5 - i,
    {
        if i >= 3 {
            if starting_player == 0 {
                state.routines.draw(1, false);
            } else {
                state.routines.draw(0, false);
            }
        } else {
            state.routines.draw(0, false);
            state.routines.draw(1, false);
        }
        proof {
            assert(state.routines.queue() =~= old(state).routines.queue()
                + spec_setup_routines_prefix(8 + spec_draw_count(i + 1 as int), starting_player));
        }
        i = i + 1;
    }
    proof {
        assert(spec_setup_routines_prefix(16, starting_player)
            =~= spec_setup_routines(starting_player));
    }
    state.turn = TurnStates::PlayerTurn(starting_player);
    state.events.set_processed();
}

/// How many opening draw routines the first `i` rounds enqueue.
pub open spec fn spec_draw_count(i: int) -> int {
    if i <= 3 {
        2 * i
    } else {
        6 + (i - 3)
    }
}

/// The first `n` routines of the setup queue.
pub open spec fn spec_setup_routines_prefix(n: int, starting_player: u8) -> Seq<Routines> {
    spec_setup_routines(starting_player).take(
        if n <= 16 { n } else { 16 },
    )
}

/// A deck count is never negative.
proof fn lemma_deck_total_nonneg(deck: Seq<(u32, CardDef)>, n: int)
    ensures
        spec_deck_total(deck, n) >= 0,
    decreases n,
{
    if n > 0 {
        lemma_deck_total_nonneg(deck, n - 1);
    }
}

/// The event log after `set_processed` ran on a log with a current event.
pub open spec fn spec_processed_events(
    pre: GameState,
    post: GameState,
) -> bool {
    if pre.events.is_processed() {
        post.events == pre.events
    } else {
        &&& post.events.log_view() == pre.events.log_view()
        &&& post.events.flags_view() == 0
        &&& (if pre.events.head_view() == pre.events.log_view().len() {
            post.events.is_processed() && post.events.head_view() == pre.events.head_view()
        } else {
            post.events.head_view() == pre.events.head_view() + 1
                && !post.events.is_processed()
        })
    }
}

/// The event log after `cancel` removed the current event.
pub open spec fn spec_cancelled_events(pre: GameState, post: GameState) -> bool {
    &&& post.events.head_view() == pre.events.head_view() - 1
    &&& post.events.log_view() == pre.events.log_view().remove(pre.events.head_view() - 1)
    &&& (if pre.events.head_view() == pre.events.log_view().len() {
        post.events.is_processed() && post.events.flags_view() == 0
    } else {
        post.events.is_processed() == pre.events.is_processed()
            && post.events.flags_view() == pre.events.flags_view()
    })
}

/// What a handled play-card intent does: the hand card at the played slot
/// heads for the base row (bases) or the used cards (ships); a ship whose
/// first ability is available gets it activated and marked used. The intent
/// is processed even when the slot is empty.
pub open spec fn spec_play_effect(pre: GameState, post: GameState, p: u8) -> bool {
    match pre.events.current() {
        Some(GameEvents::PlayCard(slot)) => {
            let found = spec_first_at(pre.cards@, CardOwners::Player(p), Stacks::Hand,
                slot as usize);
            &&& spec_processed_events(pre, post)
            &&& post == (GameState {
                cards: post.cards,
                events: post.events,
                routines: post.routines,
                ..pre
            })
            &&& match found {
                None => post.cards@ == pre.cards@
                    && post.routines.queue() == pre.routines.queue(),
                Some(e) => {
                    let c = pre.cards@[e as int];
                    let base = !(c.kind is Ship);
                    let tracker = if p == 0 { pre.p0.tracker } else { pre.p1.tracker };
                    let activated = (c.kind is Ship) && c.actions.is_available(0, tracker);
                    let play = Routines::PushCardToStack {
                        card: e,
                        owner: CardOwners::Player(p),
                        stack: if base { Stacks::Bases } else { Stacks::UsedCards },
                        index: Some(0),
                        visibility: CardVisibility::Visible,
                        running: false,
                    };
                    if activated {
                        let set = spec_action_set_of(c.actions.slots()[0].0).unwrap().0;
                        post.routines.queue() == pre.routines.queue().push(play).push(
                            Routines::ActivateCard {
                                card: e,
                                owner: p,
                                index: 0,
                                set,
                                running: false,
                            },
                        )
                            && post.cards@ == pre.cards@.update(e as int, CardInstance {
                                actions: post.cards@[e as int].actions,
                                ..c
                            })
                            && post.cards@[e as int].actions.slots() == c.actions.slots().update(
                                0,
                                (c.actions.slots()[0].0, true),
                            )
                    } else {
                        post.routines.queue() == pre.routines.queue().push(play)
                            && post.cards@ == pre.cards@
                    }
                },
            }
        },
        _ => post == pre,
    }
}

/// The first card (in handle order) at the given slot of the owner's zone.
pub open spec fn spec_first_at(
    cards: Seq<CardInstance>,
    owner: CardOwners,
    stack: Stacks,
    slot: usize,
) -> Option<usize> {
    if crate::board::spec_slot_occupied(cards, owner, stack, slot) {
        Some((choose|i: int| 0 <= i < cards.len() && spec_in_zone(cards[i], owner, stack)
            && cards[i].index == slot && (forall|j: int| 0 <= j < i
                ==> !(spec_in_zone(cards[j], owner, stack) && cards[j].index == slot)))
            as usize)
    } else {
        None
    }
}

/// Handles a play-card intent for the player whose turn it is.
pub fn play_card(state: &mut GameState, p: u8)
    requires
        old(state).events.wf(),
        p < MAXIMUM_PLAYERS,
    ensures
        spec_play_effect(*old(state), *final(state), p),
        final(state).events.wf(),
{
    let slot: u8 = match state.events.get_unprocessed() {
        Some(GameEvents::PlayCard(slot)) => *slot,
        _ => {
            return;
        },
    };
    let found = find_in_zone_at(&state.cards, CardOwners::Player(p), Stacks::Hand,
        slot as usize);
    proof {
        match found {
            Some(e) => {
                assert(spec_first_at(old(state).cards@, CardOwners::Player(p), Stacks::Hand,
                    slot as usize) == Some(e)) by {
                    let w = choose|i: int| 0 <= i < old(state).cards@.len()
                        && spec_in_zone(old(state).cards@[i], CardOwners::Player(p), Stacks::Hand)
                        && old(state).cards@[i].index == slot as usize
                        && (forall|j: int| 0 <= j < i ==> !(spec_in_zone(old(state).cards@[j],
                            CardOwners::Player(p), Stacks::Hand)
                            && old(state).cards@[j].index == slot as usize));
                    assert(w == e as int);
                };
            },
            None => {},
        }
    }
    match found {
        None => {},
        Some(e) => {
            let c = state.cards[e];
            let is_ship = c.kind.is_ship();
            state.routines.play(p, e, 0, !is_ship);
            if is_ship {
                let tracker = if p == 0 { state.p0.tracker } else { state.p1.tracker };
                if c.actions.is_action_available(0, &tracker) {
                    let mut actions = c.actions;
                    let used = actions.use_action(0, &tracker);
                    let mut nc = c;
                    nc.actions = actions;
                    state.cards.set(e, nc);
                    match used {
                        Some((set, _)) => {
                            state.routines.activate_card(p, e, 0, set);
                        },
                        None => {},
                    }
                }
            }
        },
    }
    state.events.set_processed();
}

/// What a handled activate-card intent does: the addressed base or used card
/// gets the chosen ability slot marked used and its action set queued for
/// resolution (a scrap-triggered set also queues the card's scrap), and the
/// intent is processed; a missing card or unavailable slot cancels the
/// intent.
pub open spec fn spec_activate_handler_effect(pre: GameState, post: GameState, p: u8) -> bool {
    match pre.events.current() {
        Some(GameEvents::ActivateCard { base, index, action }) => {
            let zone = if base { Stacks::Bases } else { Stacks::UsedCards };
            let found = spec_first_at(pre.cards@, CardOwners::Player(p), zone, index as usize);
            let tracker = if p == 0 { pre.p0.tracker } else { pre.p1.tracker };
            &&& post == (GameState {
                cards: post.cards,
                events: post.events,
                routines: post.routines,
                ..pre
            })
            &&& match found {
                Some(e) => {
                    let c = pre.cards@[e as int];
                    if c.actions.is_available(action, tracker) {
                        let picked = spec_action_set_of(
                            c.actions.slots()[action as int].0,
                        ).unwrap();
                        &&& spec_processed_events(pre, post)
                        &&& post.cards@ == pre.cards@.update(e as int, CardInstance {
                            actions: post.cards@[e as int].actions,
                            ..c
                        })
                        &&& post.cards@[e as int].actions.slots() == c.actions.slots().update(
                            action as int,
                            (c.actions.slots()[action as int].0, true),
                        )
                        &&& post.routines.queue() == (if picked.1 {
                            pre.routines.queue().push(Routines::ActivateCard {
                                card: e,
                                owner: p,
                                index: action,
                                set: picked.0,
                                running: false,
                            }).push(spec_scrap_routine(e))
                        } else {
                            pre.routines.queue().push(Routines::ActivateCard {
                                card: e,
                                owner: p,
                                index: action,
                                set: picked.0,
                                running: false,
                            })
                        })
                    } else {
                        spec_cancelled_events(pre, post) && post.cards@ == pre.cards@
                            && post.routines.queue() == pre.routines.queue()
                    }
                },
                None => spec_cancelled_events(pre, post) && post.cards@ == pre.cards@
                    && post.routines.queue() == pre.routines.queue(),
            }
        },
        _ => post == pre,
    }
}

/// Handles an activate-card intent for the player whose turn it is.
#[verifier::rlimit(100)]
pub fn activate_card(state: &mut GameState, p: u8)
    requires
        old(state).events.wf(),
        p < MAXIMUM_PLAYERS,
    ensures
        spec_activate_handler_effect(*old(state), *final(state), p),
        final(state).events.wf(),
{
    let data: Option<(bool, u32, u8)> = match state.events.get_unprocessed() {
        Some(GameEvents::ActivateCard { base, index, action }) => Some((*base, *index, *action)),
        _ => None,
    };
    let (base, index, action) = match data {
        None => {
            return;
        },
        Some(d) => d,
    };
    let zone = if base {
        Stacks::Bases
    } else {
        Stacks::UsedCards
    };
    let found = find_in_zone_at(&state.cards, CardOwners::Player(p), zone, index as usize);
    proof {
        match found {
            Some(e) => {
                assert(spec_first_at(old(state).cards@, CardOwners::Player(p), zone,
                    index as usize) == Some(e)) by {
                    let w = choose|i: int| 0 <= i < old(state).cards@.len()
                        && spec_in_zone(old(state).cards@[i], CardOwners::Player(p), zone)
                        && old(state).cards@[i].index == index as usize
                        && (forall|j: int| 0 <= j < i ==> !(spec_in_zone(old(state).cards@[j],
                            CardOwners::Player(p), zone)
                            && old(state).cards@[j].index == index as usize));
                    assert(w == e as int);
                };
            },
            None => {},
        }
    }
    match found {
        None => {
            state.events.cancel();
        },
        Some(e) => {
            let c = state.cards[e];
            let tracker = if p == 0 { state.p0.tracker } else { state.p1.tracker };
            let mut actions = c.actions;
            let used = actions.use_action(action, &tracker);
            match used {
                Some((set, scrap)) => {
                    let mut nc = c;
                    nc.actions = actions;
                    state.cards.set(e, nc);
                    state.routines.activate_card(p, e, action, set);
                    if scrap {
                        state.routines.scrap(e);
                    }
                    state.events.set_processed();
                },
                None => {
                    state.events.cancel();
                },
            }
        },
    }
}

/// What a handled buy-card intent does: an affordable card of the market row
/// slot (or the top of the joker deck) costs its price in economy and heads
/// for the buyer's discard pile, and a bought row slot is reloaded; a missing
/// card or insufficient economy cancels the intent.
pub open spec fn spec_buy_effect(pre: GameState, post: GameState, p: u8) -> bool {
    match pre.events.current() {
        Some(GameEvents::BuyCard(from)) => {
            if pre.turn != TurnStates::PlayerTurn(p) {
                post == pre
            } else {
                let found = match from {
                    BuyFrom::Market(slot) => spec_first_at(pre.cards@, CardOwners::Market,
                        Stacks::MarketRow, slot as usize),
                    BuyFrom::Joker => spec_first_at(pre.cards@, CardOwners::Market,
                        Stacks::JokerDeck, 0),
                };
                let eco = if p == 0 { pre.p0.economy } else { pre.p1.economy };
                &&& post == (GameState {
                    events: post.events,
                    routines: post.routines,
                    p0: post.p0,
                    p1: post.p1,
                    ..pre
                })
                &&& match found {
                    Some(e) => {
                        let cost = pre.cards@[e as int].cost;
                        if cost as i64 <= eco {
                            &&& spec_processed_events(pre, post)
                            &&& (if p == 0 {
                                post.p0 == (PlayerState {
                                    economy: (eco - cost) as i64,
                                    ..pre.p0
                                }) && post.p1 == pre.p1
                            } else {
                                post.p1 == (PlayerState {
                                    economy: (eco - cost) as i64,
                                    ..pre.p1
                                }) && post.p0 == pre.p0
                            })
                            &&& post.routines.queue() == (match from {
                                BuyFrom::Market(slot) => pre.routines.queue().push(
                                    spec_discard_routine(p, e),
                                ).push(spec_reload_routine(slot)),
                                BuyFrom::Joker => pre.routines.queue().push(
                                    spec_discard_routine(p, e),
                                ),
                            })
                        } else {
                            spec_cancelled_events(pre, post) && post.same_players(pre)
                                && post.routines.queue() == pre.routines.queue()
                        }
                    },
                    None => spec_cancelled_events(pre, post) && post.same_players(pre)
                        && post.routines.queue() == pre.routines.queue(),
                }
            }
        },
        _ => post == pre,
    }
}

/// Handles a buy-card intent for the player whose turn it is.
pub fn buy_card(state: &mut GameState, p: u8)
    requires
        old(state).events.wf(),
        p < MAXIMUM_PLAYERS,
    ensures
        spec_buy_effect(*old(state), *final(state), p),
        final(state).events.wf(),
{
    let from: BuyFrom = match state.events.get_unprocessed() {
        Some(GameEvents::BuyCard(from)) => *from,
        _ => {
            return;
        },
    };
    if state.turn != TurnStates::PlayerTurn(p) {
        return;
    }
    let (zone, slot): (Stacks, usize) = match from {
        BuyFrom::Market(slot) => (Stacks::MarketRow, slot as usize),
        BuyFrom::Joker => (Stacks::JokerDeck, 0),
    };
    let found = find_in_zone_at(&state.cards, CardOwners::Market, zone, slot);
    proof {
        match found {
            Some(e) => {
                assert(spec_first_at(old(state).cards@, CardOwners::Market, zone, slot)
                    == Some(e)) by {
                    let w = choose|i: int| 0 <= i < old(state).cards@.len()
                        && spec_in_zone(old(state).cards@[i], CardOwners::Market, zone)
                        && old(state).cards@[i].index == slot
                        && (forall|j: int| 0 <= j < i ==> !(spec_in_zone(old(state).cards@[j],
                            CardOwners::Market, zone)
                            && old(state).cards@[j].index == slot));
                    assert(w == e as int);
                };
            },
            None => {},
        }
    }
    match found {
        None => {
            state.events.cancel();
        },
        Some(e) => {
            let cost = state.cards[e].cost;
            let eco = if p == 0 { state.p0.economy } else { state.p1.economy };
            if cost as i64 <= eco {
                if p == 0 {
                    state.p0.economy = eco - cost as i64;
                } else {
                    state.p1.economy = eco - cost as i64;
                }
                state.routines.discard(p, e);
                match from {
                    BuyFrom::Market(slot2) => {
                        state.routines.reload_market(slot2);
                    },
                    BuyFrom::Joker => {},
                }
                state.events.set_processed();
            } else {
                state.events.cancel();
            }
        },
    }
}

/// What a handled attack intent does. With attack points in hand: a targeted
/// base or outpost takes one point (or as much as it has, when asked), is
/// discarded at zero life, and the spent points leave the attacker; the
/// target player takes damage directly only while no outpost shields them,
/// and a base can be hit only once the outposts are gone. Anything else
/// cancels the intent.
pub open spec fn spec_attack_effect(pre: GameState, post: GameState, by: u8, target: u8) -> bool {
    match pre.events.current() {
        Some(GameEvents::Attack { player: _, as_much_as_possible, base_index }) => {
            let atk = if by == 0 { pre.p0.attack } else { pre.p1.attack };
            let outposts = spec_zone_has_kind(pre.cards@, CardOwners::Player(target),
                Stacks::Bases, true);
            &&& post == (GameState {
                events: post.events,
                routines: post.routines,
                cards: post.cards,
                p0: post.p0,
                p1: post.p1,
                ..pre
            })
            &&& if atk <= 0 {
                spec_cancelled_events(pre, post) && post.cards@ == pre.cards@
                    && post.same_players(pre) && post.routines.queue() == pre.routines.queue()
            } else {
                match base_index {
                    Some(bi) => {
                        let found = spec_first_at(pre.cards@, CardOwners::Player(target),
                            Stacks::Bases, bi as usize);
                        match found {
                            Some(e) => {
                                let c = pre.cards@[e as int];
                                let is_outpost = c.kind is Outpost;
                                let is_base = c.kind is Base;
                                if is_outpost || (is_base && !outposts) {
                                    let damage: i64 = if as_much_as_possible {
                                        if c.base_life as i64 <= atk {
                                            c.base_life as i64
                                        } else {
                                            atk
                                        }
                                    } else {
                                        1
                                    };
                                    let new_life: u32 = if damage <= c.base_life as i64 {
                                        (c.base_life - damage) as u32
                                    } else {
                                        0
                                    };
                                    &&& spec_processed_events(pre, post)
                                    &&& post.cards@ == pre.cards@.update(e as int, CardInstance {
                                        base_life: new_life,
                                        ..c
                                    })
                                    &&& (if by == 0 {
                                        post.p0 == (PlayerState {
                                            attack: spec_sat_sub_i64(pre.p0.attack, damage),
                                            ..pre.p0
                                        }) && post.p1 == pre.p1
                                    } else {
                                        post.p1 == (PlayerState {
                                            attack: spec_sat_sub_i64(pre.p1.attack, damage),
                                            ..pre.p1
                                        }) && post.p0 == pre.p0
                                    })
                                    &&& post.routines.queue() == (if new_life == 0 {
                                        pre.routines.queue().push(
                                            spec_discard_routine(target, e),
                                        )
                                    } else {
                                        pre.routines.queue()
                                    })
                                } else {
                                    spec_cancelled_events(pre, post) && post.cards@ == pre.cards@
                                        && post.same_players(pre)
                                        && post.routines.queue() == pre.routines.queue()
                                }
                            },
                            None => spec_cancelled_events(pre, post) && post.cards@ == pre.cards@
                                && post.same_players(pre)
                                && post.routines.queue() == pre.routines.queue(),
                        }
                    },
                    None => if !outposts {
                        let life = if target == 0 { pre.p0.life } else { pre.p1.life };
                        let damage: i64 = if as_much_as_possible {
                            if life <= atk { life } else { atk }
                        } else {
                            1
                        };
                        &&& spec_processed_events(pre, post)
                        &&& post.cards@ == pre.cards@
                        &&& (if by == 0 {
                            post.p0 == (PlayerState {
                                attack: spec_sat_sub_i64(pre.p0.attack, damage),
                                ..pre.p0
                            }) && post.p1 == (PlayerState {
                                life: spec_sat_sub_i64(pre.p1.life, damage),
                                ..pre.p1
                            })
                        } else {
                            post.p1 == (PlayerState {
                                attack: spec_sat_sub_i64(pre.p1.attack, damage),
                                ..pre.p1
                            }) && post.p0 == (PlayerState {
                                life: spec_sat_sub_i64(pre.p0.life, damage),
                                ..pre.p0
                            })
                        })
                        &&& post.routines.queue() == pre.routines.queue()
                    } else {
                        spec_cancelled_events(pre, post) && post.cards@ == pre.cards@
                            && post.same_players(pre)
                            && post.routines.queue() == pre.routines.queue()
                    },
                }
            }
        },
        _ => post == pre,
    }
}

/// Handles an attack intent of `by` against `target`.
pub fn attack(state: &mut GameState, by: u8, target: u8)
    requires
        old(state).events.wf(),
        by < MAXIMUM_PLAYERS,
        target < MAXIMUM_PLAYERS,
        by != target,
    ensures
        spec_attack_effect(*old(state), *final(state), by, target),
        final(state).events.wf(),
{
    let data: Option<(bool, Option<u32>)> = match state.events.get_unprocessed() {
        Some(GameEvents::Attack { as_much_as_possible, base_index, .. }) => Some((
            *as_much_as_possible,
            *base_index,
        )),
        _ => None,
    };
    let (as_much_as_possible, base_index) = match data {
        None => {
            return;
        },
        Some(d) => d,
    };
    let atk = if by == 0 { state.p0.attack } else { state.p1.attack };
    if atk <= 0 {
        state.events.cancel();
        return;
    }
    let outposts = crate::execute::zone_has_kind(&state.cards, CardOwners::Player(target),
        Stacks::Bases, true);
    match base_index {
        Some(bi) => {
            let found = find_in_zone_at(&state.cards, CardOwners::Player(target), Stacks::Bases,
                bi as usize);
            proof {
                match found {
                    Some(e) => {
                        assert(spec_first_at(old(state).cards@, CardOwners::Player(target),
                            Stacks::Bases, bi as usize) == Some(e)) by {
                            let w = choose|i: int| 0 <= i < old(state).cards@.len()
                                && spec_in_zone(old(state).cards@[i], CardOwners::Player(target),
                                    Stacks::Bases)
                                && old(state).cards@[i].index == bi as usize
                                && (forall|j: int| 0 <= j < i
                                    ==> !(spec_in_zone(old(state).cards@[j],
                                        CardOwners::Player(target), Stacks::Bases)
                                        && old(state).cards@[j].index == bi as usize));
                            assert(w == e as int);
                        };
                    },
                    None => {},
                }
            }
            match found {
                None => {
                    state.events.cancel();
                },
                Some(e) => {
                    let c = state.cards[e];
                    let is_outpost = match c.kind {
                        CardKinds::Outpost(_) => true,
                        _ => false,
                    };
                    let is_base = match c.kind {
                        CardKinds::Base(_) => true,
                        _ => false,
                    };
                    if is_outpost || (is_base && !outposts) {
                        let damage: i64 = if as_much_as_possible {
                            if c.base_life as i64 <= atk {
                                c.base_life as i64
                            } else {
                                atk
                            }
                        } else {
                            1
                        };
                        let new_life: u32 = if damage <= c.base_life as i64 {
                            (c.base_life as i64 - damage) as u32
                        } else {
                            0
                        };
                        let mut nc = c;
                        nc.base_life = new_life;
                        state.cards.set(e, nc);
                        if by == 0 {
                            state.p0.attack = sat_sub_i64(state.p0.attack, damage);
                        } else {
                            state.p1.attack = sat_sub_i64(state.p1.attack, damage);
                        }
                        if new_life == 0 {
                            state.routines.discard(target, e);
                        }
                        state.events.set_processed();
                    } else {
                        state.events.cancel();
                    }
                },
            }
        },
        None => {
            if !outposts {
                let life = if target == 0 { state.p0.life } else { state.p1.life };
                let damage: i64 = if as_much_as_possible {
                    if life <= atk { life } else { atk }
                } else {
                    1
                };
                if by == 0 {
                    state.p0.attack = sat_sub_i64(state.p0.attack, damage);
                    state.p1.life = sat_sub_i64(state.p1.life, damage);
                } else {
                    state.p1.attack = sat_sub_i64(state.p1.attack, damage);
                    state.p0.life = sat_sub_i64(state.p0.life, damage);
                }
                state.events.set_processed();
            } else {
                state.events.cancel();
            }
        },
    }
}

/// What one dispatcher run does: while no routine is in flight and an
/// unprocessed intent exists, the handler matching the intent and the current
/// turn state runs; everything else leaves the state alone. This is the
/// engine's backpressure: intents never interleave with in-flight routines.
pub open spec fn spec_dispatch_effect(pre: GameState, post: GameState, set: GameSet) -> bool {
    if pre.routines.queue().len() == 0 {
        match pre.events.current() {
            Some(e) => match e {
                GameEvents::Setup { .. } => if pre.turn == TurnStates::Setup {
                    spec_setup_effect(pre, post, set)
                } else {
                    post == pre
                },
                GameEvents::PlayCard(_) => if pre.turn == TurnStates::PlayerTurn(0) {
                    spec_play_effect(pre, post, 0)
                } else if pre.turn == TurnStates::PlayerTurn(1) {
                    spec_play_effect(pre, post, 1)
                } else {
                    post == pre
                },
                GameEvents::ActivateCard { .. } => if pre.turn == TurnStates::PlayerTurn(0) {
                    spec_activate_handler_effect(pre, post, 0)
                } else if pre.turn == TurnStates::PlayerTurn(1) {
                    spec_activate_handler_effect(pre, post, 1)
                } else {
                    post == pre
                },
                GameEvents::BuyCard(_) => if pre.turn == TurnStates::PlayerTurn(0) {
                    spec_buy_effect(pre, post, 0)
                } else if pre.turn == TurnStates::PlayerTurn(1) {
                    spec_buy_effect(pre, post, 1)
                } else {
                    post == pre
                },
                GameEvents::Attack { player, .. } => if pre.turn == TurnStates::PlayerTurn(0)
                    && player == 1 {
                    spec_attack_effect(pre, post, 0, 1)
                } else if pre.turn == TurnStates::PlayerTurn(1) && player == 0 {
                    spec_attack_effect(pre, post, 1, 0)
                } else {
                    post == pre
                },
                GameEvents::PassTurn => if pre.turn == TurnStates::PlayerTurn(0) {
                    spec_pass_effect(pre, post, 0)
                } else if pre.turn == TurnStates::PlayerTurn(1) {
                    spec_pass_effect(pre, post, 1)
                } else {
                    post == pre
                },
                GameEvents::Freeze => post == pre,
            },
            None => post == pre,
        }
    } else {
        post == pre
    }
}

/// Runs once per scheduling tick: while the routine queue is empty and an
/// unprocessed intent exists, dispatches the matching per-intent, per-player
/// handler.
pub fn event_handler_dispatcher(state: &mut GameState, set: &GameSet)
    requires
        old(state).events.wf(),
        old(state).cards@.len() + spec_set_total(*set) <= usize::MAX,
    ensures
        spec_dispatch_effect(*old(state), *final(state), *set),
        final(state).events.wf(),
{
    if !state.routines.is_empty() {
        return;
    }
    let event: GameEvents = match state.events.get_unprocessed() {
        Some(e) => *e,
        None => {
            return;
        },
    };
    let turn = state.turn;
    match event {
        GameEvents::Setup { .. } => {
            if turn == TurnStates::Setup {
                setup(state, set);
            }
        },
        GameEvents::PlayCard(_) => {
            if turn == TurnStates::PlayerTurn(0) {
                play_card(state, 0);
            } else if turn == TurnStates::PlayerTurn(1) {
                play_card(state, 1);
            }
        },
        GameEvents::ActivateCard { .. } => {
            if turn == TurnStates::PlayerTurn(0) {
                activate_card(state, 0);
            } else if turn == TurnStates::PlayerTurn(1) {
                activate_card(state, 1);
            }
        },
        GameEvents::BuyCard(_) => {
            if turn == TurnStates::PlayerTurn(0) {
                buy_card(state, 0);
            } else if turn == TurnStates::PlayerTurn(1) {
                buy_card(state, 1);
            }
        },
        GameEvents::Attack { player, .. } => {
            if turn == TurnStates::PlayerTurn(0) && player == 1 {
                attack(state, 0, 1);
            } else if turn == TurnStates::PlayerTurn(1) && player == 0 {
                attack(state, 1, 0);
            }
        },
        GameEvents::PassTurn => {
            if turn == TurnStates::PlayerTurn(0) {
                pass_turn(state, 0);
            } else if turn == TurnStates::PlayerTurn(1) {
                pass_turn(state, 1);
            }
        },
        GameEvents::Freeze => {},
    }
}

/// One scheduler tick: with routines in flight, the front routine advances by
/// one step; with an empty queue, the dispatcher considers the next intent.
/// Issued zone transitions complete separately, between ticks.
pub fn tick(state: &mut GameState, set: &GameSet)
    requires
        old(state).events.wf(),
        old(state).cards@.len() + spec_set_total(*set) <= usize::MAX,
        old(state).cards@.len() < usize::MAX,
    ensures
        final(state).events.wf(),
        ({
            let q = old(state).routines.queue();
            if q.len() == 0 {
                spec_dispatch_effect(*old(state), *final(state), *set)
            } else {
                match q[0] {
                    Routines::Draw { player, drawn, discard_to_deck } =>
                        crate::steps::spec_draw_effect(*old(state), *final(state), player, drawn,
                            discard_to_deck),
                    Routines::Shuffle { owner, stack, running } =>
                        crate::steps::spec_shuffle_effect(*old(state), *final(state), owner,
                            stack, running),
                    Routines::ReloadMarket { slot, card, scrapyard_to_deck } =>
                        crate::steps::spec_reload_effect(*old(state), *final(state), slot, card,
                            scrapyard_to_deck),
                    Routines::PushCardToStack { card, owner, stack, index, visibility, running }
                        => crate::steps::spec_move_effect(*old(state), *final(state), card,
                            owner, stack, index, visibility, running),
                    Routines::ActivateCard { card, owner, index, set: aset, running } =>
                        crate::steps::spec_activate_effect(*old(state), *final(state), card,
                            owner, index, aset, running),
                    Routines::CardAction { card, owner, action, .. } =>
                        crate::execute::spec_card_action_effect(*old(state), *final(state), card,
                            owner, action),
                    Routines::Selection { filters, min, max, running } =>
                        crate::steps::spec_selection_effect(*old(state), *final(state), filters@,
                            min, max, running),
                }
            }
        }),
{
    let kind: Option<u8> = match state.routines.routine() {
        None => None,
        Some(r) => Some(match r {
            Routines::Draw { .. } => 0,
            Routines::Shuffle { .. } => 1,
            Routines::ReloadMarket { .. } => 2,
            Routines::PushCardToStack { .. } => 3,
            Routines::ActivateCard { .. } => 4,
            Routines::CardAction { .. } => 5,
            Routines::Selection { .. } => 6,
        }),
    };
    match kind {
        None => {
            event_handler_dispatcher(state, set);
        },
        Some(0) => {
            crate::steps::draw_routine(state);
        },
        Some(1) => {
            crate::steps::shuffle(state);
        },
        Some(2) => {
            crate::steps::reload_market(state);
        },
        Some(3) => {
            crate::steps::move_to_stack(state);
        },
        Some(4) => {
            crate::steps::activate_card(state);
        },
        Some(5) => {
            crate::execute::card_action(state);
        },
        Some(_) => {
            crate::steps::selection(state);
        },
    }
}

/// The card after the turn-boundary cleanup of player `p`: bases on the table
/// get their abilities back, and every base or outpost the player owns heals
/// to its printed life.
pub open spec fn spec_pass_card(c: CardInstance, p: u8) -> CardInstance {
    CardInstance {
        actions: if c.owner == CardOwners::Player(p) && c.stack == Stacks::Bases {
            spec_cleared(c.actions)
        } else {
            c.actions
        },
        base_life: if c.owner == CardOwners::Player(p) && !(c.kind is Ship) {
            crate::cards::spec_starting_life(c.kind)
        } else {
            c.base_life
        },
        ..c
    }
}

/// One discard routine per card of the owner's zone, in handle order.
pub open spec fn spec_discard_zone_list(
    cards: Seq<CardInstance>,
    n: int,
    p: u8,
    stack: Stacks,
) -> Seq<Routines>
    decreases n,
{
    if n <= 0 {
        Seq::empty()
    } else {
        spec_discard_zone_list(cards, n - 1, p, stack)
            + if spec_in_zone(cards[n - 1], CardOwners::Player(p), stack) {
                seq![spec_discard_routine(p, (n - 1) as usize)]
            } else {
                Seq::empty()
            }
    }
}

/// What a handled pass-turn intent does: the passing player's attack and
/// economy drop to zero and their turn statistics reset; their bases get
/// their abilities and life back; their whole hand and used cards head for
/// the discard pile; five fresh draws queue up; and the turn passes to the
/// other player.
pub open spec fn spec_pass_effect(pre: GameState, post: GameState, p: u8) -> bool {
    let cleaned = Seq::new(pre.cards@.len(), |i: int| spec_pass_card(pre.cards@[i], p));
    &&& spec_processed_events(pre, post)
    &&& post == (GameState {
        cards: post.cards,
        events: post.events,
        routines: post.routines,
        turn: post.turn,
        p0: post.p0,
        p1: post.p1,
        ..pre
    })
    &&& post.cards@ == cleaned
    &&& (if p == 0 {
        post.p0 == (PlayerState {
            attack: 0,
            economy: 0,
            tracker: spec_turn_finished_tracker(pre.p0.tracker),
            ..pre.p0
        }) && post.p1 == pre.p1
    } else {
        post.p1 == (PlayerState {
            attack: 0,
            economy: 0,
            tracker: spec_turn_finished_tracker(pre.p1.tracker),
            ..pre.p1
        }) && post.p0 == pre.p0
    })
    &&& post.routines.queue() == pre.routines.queue()
        + spec_discard_zone_list(cleaned, cleaned.len() as int, p, Stacks::Hand)
        + spec_discard_zone_list(cleaned, cleaned.len() as int, p, Stacks::UsedCards)
        + spec_draws_list(p, 5)
    &&& post.turn == TurnStates::PlayerTurn(if p == 0 { 1 } else { 0 })
}

/// The tracker after the turn boundary.
pub open spec fn spec_turn_finished_tracker(
    t: crate::tracker::PlayerTurnTracker,
) -> crate::tracker::PlayerTurnTracker {
    crate::tracker::PlayerTurnTracker {
        common: spec_turn_finished(t.common),
        cards_drawn: 0,
        life_lost: 0,
        life_gained: 0,
        blob: spec_turn_finished(t.blob),
        machine_cult: spec_turn_finished(t.machine_cult),
        neutral: spec_turn_finished(t.neutral),
        trade_federation: spec_turn_finished(t.trade_federation),
        star_empire: spec_turn_finished(t.star_empire),
        ..t
    }
}

/// Handles a pass-turn intent of player `p`.
pub fn pass_turn(state: &mut GameState, p: u8)
    requires
        old(state).events.wf(),
        p < MAXIMUM_PLAYERS,
    ensures
        spec_pass_effect(*old(state), *final(state), p),
        final(state).events.wf(),
{
    if p == 0 {
        state.p0.attack = 0;
        state.p0.economy = 0;
        state.p0.tracker.turn_finished();
    } else {
        state.p1.attack = 0;
        state.p1.economy = 0;
        state.p1.tracker.turn_finished();
    }
    let n = state.cards.len();
    let mut i: usize = 0;
    while i < n
        invariant
            i <= n,
            n == state.cards@.len(),
            state.cards@.len() == old(state).cards@.len(),
            forall|j: int| 0 <= j < i ==> state.cards@[j] == spec_pass_card(
                old(state).cards@[j],
                p,
            ),
            forall|j: int| i <= j < n ==> state.cards@[j] == old(state).cards@[j],
            *state == (GameState { cards: state.cards, p0: state.p0, p1: state.p1, ..*old(state) }),
            p == 0 ==> state.p0 == (PlayerState {
                attack: 0,
                economy: 0,
                tracker: spec_turn_finished_tracker(old(state).p0.tracker),
                ..old(state).p0
            }) && state.p1 == old(state).p1,
            p != 0 ==> state.p1 == (PlayerState {
                attack: 0,
                economy: 0,
                tracker: spec_turn_finished_tracker(old(state).p1.tracker),
                ..old(state).p1
            }) && state.p0 == old(state).p0,
        decreases n - i,
    {
        let mut c = state.cards[i];
        if c.owner == CardOwners::Player(p) && c.stack == Stacks::Bases {
            c.actions.reset();
        }
        let heal = c.owner == CardOwners::Player(p) && !c.kind.is_ship();
        if heal {
            c.base_life = c.kind.starting_life();
        }
        state.cards.set(i, c);
        i = i + 1;
    }
    proof {
        assert(state.cards@ =~= Seq::new(old(state).cards@.len(), |j: int| spec_pass_card(
            old(state).cards@[j],
            p,
        )));
    }
    let ghost cleaned = state.cards@;
    let mut i2: usize = 0;
    while i2 < n
        invariant
            i2 <= n,
            n == state.cards@.len(),
            cleaned == state.cards@,
            state.routines.queue() == old(state).routines.queue()
                + spec_discard_zone_list(cleaned, i2 as int, p, Stacks::Hand),
            state.events == old(state).events,
            state.turn == old(state).turn,
            state.mode == old(state).mode,
            state.next_buy_on_deck == old(state).next_buy_on_deck,
            state.selection == old(state).selection,
            state.choice == old(state).choice,
            state.pending == old(state).pending,
            state.local_player == old(state).local_player,
            state.rng == old(state).rng,
            p == 0 ==> state.p0 == (PlayerState {
                attack: 0,
                economy: 0,
                tracker: spec_turn_finished_tracker(old(state).p0.tracker),
                ..old(state).p0
            }) && state.p1 == old(state).p1,
            p != 0 ==> state.p1 == (PlayerState {
                attack: 0,
                economy: 0,
                tracker: spec_turn_finished_tracker(old(state).p1.tracker),
                ..old(state).p1
            }) && state.p0 == old(state).p0,
        decreases n - i2,
    {
        if state.cards[i2].owner == CardOwners::Player(p)
            && state.cards[i2].stack == Stacks::Hand {
            state.routines.discard(p, i2);
        }
        proof {
            assert(state.routines.queue() =~= old(state).routines.queue()
                + spec_discard_zone_list(cleaned, i2 + 1 as int, p, Stacks::Hand));
        }
        i2 = i2 + 1;
    }
    let mut i3: usize = 0;
    while i3 < n
        invariant
            i3 <= n,
            n == state.cards@.len(),
            cleaned == state.cards@,
            state.routines.queue() == old(state).routines.queue()
                + spec_discard_zone_list(cleaned, cleaned.len() as int, p, Stacks::Hand)
                + spec_discard_zone_list(cleaned, i3 as int, p, Stacks::UsedCards),
            state.events == old(state).events,
            state.turn == old(state).turn,
            state.mode == old(state).mode,
            state.next_buy_on_deck == old(state).next_buy_on_deck,
            state.selection == old(state).selection,
            state.choice == old(state).choice,
            state.pending == old(state).pending,
            state.local_player == old(state).local_player,
            state.rng == old(state).rng,
            p == 0 ==> state.p0 == (PlayerState {
                attack: 0,
                economy: 0,
                tracker: spec_turn_finished_tracker(old(state).p0.tracker),
                ..old(state).p0
            }) && state.p1 == old(state).p1,
            p != 0 ==> state.p1 == (PlayerState {
                attack: 0,
                economy: 0,
                tracker: spec_turn_finished_tracker(old(state).p1.tracker),
                ..old(state).p1
            }) && state.p0 == old(state).p0,
        decreases n - i3,
    {
        if state.cards[i3].owner == CardOwners::Player(p)
            && state.cards[i3].stack == Stacks::UsedCards {
            state.routines.discard(p, i3);
        }
        proof {
            assert(state.routines.queue() =~= old(state).routines.queue()
                + spec_discard_zone_list(cleaned, cleaned.len() as int, p, Stacks::Hand)
                + spec_discard_zone_list(cleaned, i3 + 1 as int, p, Stacks::UsedCards));
        }
        i3 = i3 + 1;
    }
    let mut d: u8 = 0;
    while d < 5
        invariant
            d <= 5,
            cleaned == state.cards@,
            state.routines.queue() == old(state).routines.queue()
                + spec_discard_zone_list(cleaned, cleaned.len() as int, p, Stacks::Hand)
                + spec_discard_zone_list(cleaned, cleaned.len() as int, p, Stacks::UsedCards)
                + spec_draws_list(p, d as int),
            state.events == old(state).events,
            state.turn == old(state).turn,
            state.mode == old(state).mode,
            state.next_buy_on_deck == old(state).next_buy_on_deck,
            state.selection == old(state).selection,
            state.choice == old(state).choice,
            state.pending == old(state).pending,
            state.local_player == old(state).local_player,
            state.rng == old(state).rng,
            p == 0 ==> state.p0 == (PlayerState {
                attack: 0,
                economy: 0,
                tracker: spec_turn_finished_tracker(old(state).p0.tracker),
                ..old(state).p0
            }) && state.p1 == old(state).p1,
            p != 0 ==> state.p1 == (PlayerState {
                attack: 0,
                economy: 0,
                tracker: spec_turn_finished_tracker(old(state).p1.tracker),
                ..old(state).p1
            }) && state.p0 == old(state).p0,
        decreases 5 - d,
    {
        state.routines.draw(p, false);
        proof {
            assert(state.routines.queue() =~= old(state).routines.queue()
                + spec_discard_zone_list(cleaned, cleaned.len() as int, p, Stacks::Hand)
                + spec_discard_zone_list(cleaned, cleaned.len() as int, p, Stacks::UsedCards)
                + spec_draws_list(p, d + 1 as int));
        }
        d = d + 1;
    }
    state.turn = TurnStates::PlayerTurn(if p == 0 { 1 } else { 0 });
    state.events.set_processed();
}

} // verus!
