//! End-to-end flows through the scheduler: zone moves, draws, purchases,
//! choices, selections, attacks and whole-turn scenarios.

use realms_core::actions::{Action, ActionCondition, ActionSet, CardActions};
use realms_core::board::{CardDef, CardInstance};
use realms_core::cards::{CardKinds, CardOwners, CardVisibility, KindMask};
use realms_core::choice::ChoiceTarget;
use realms_core::events::{BuyFrom, GameEvents};
use realms_core::handlers::tick;
use realms_core::input::{selection_click, selection_validation_button};
use realms_core::stacks::Stacks;
use realms_core::state::{GameSet, GameState, NextBuyOnDeckFlag};
use realms_core::states::{GameStates, TurnStates};
use realms_core::tracker::CardFactions;

fn empty_set() -> GameSet {
    GameSet { market_deck: Vec::new(), player_deck: Vec::new(), joker_deck: Vec::new() }
}

fn ship(cost: u8) -> CardDef {
    CardDef {
        kind: CardKinds::Ship,
        factions: CardFactions::default(),
        cost,
        joker: false,
        actions: CardActions::from_conditions(&Vec::new()),
    }
}

fn base(life: u32, conditions: Vec<ActionCondition>) -> CardDef {
    CardDef {
        kind: CardKinds::Base(life),
        factions: CardFactions::default(),
        cost: 5,
        joker: false,
        actions: CardActions::from_conditions(&conditions),
    }
}

fn outpost(life: u32) -> CardDef {
    CardDef {
        kind: CardKinds::Outpost(life),
        factions: CardFactions::default(),
        cost: 4,
        joker: false,
        actions: CardActions::from_conditions(&Vec::new()),
    }
}

fn place(state: &mut GameState, def: &CardDef, owner: CardOwners, stack: Stacks, index: usize)
    -> usize {
    let id = state.cards.len();
    state.cards.push(CardInstance::spawn(def, owner, stack, index, CardVisibility::Visible));
    id
}

fn drive(state: &mut GameState, set: &GameSet, ticks: usize) {
    let mut i = 0;
    while i < ticks {
        tick(state, set);
        state.complete_all_transitions();
        i += 1;
    }
}

fn zone_indices(state: &GameState, owner: CardOwners, stack: Stacks) -> Vec<usize> {
    let mut v = Vec::new();
    for c in state.cards.iter() {
        if c.owner == owner && c.stack == stack {
            v.push(c.index);
        }
    }
    v.sort();
    v
}

#[test]
fn compacting_zone_closes_the_gap() {
    let mut state = GameState::new();
    state.turn = TurnStates::PlayerTurn(0);
    let d = base(5, Vec::new());
    let _c0 = place(&mut state, &d, CardOwners::Player(0), Stacks::Bases, 0);
    let c1 = place(&mut state, &d, CardOwners::Player(0), Stacks::Bases, 1);
    let _c2 = place(&mut state, &d, CardOwners::Player(0), Stacks::Bases, 2);
    state.routines.discard(0, c1);
    drive(&mut state, &empty_set(), 3);
    assert!(state.routines.is_empty());
    assert_eq!(state.cards[c1].stack, Stacks::DiscardPile);
    assert_eq!(
        zone_indices(&state, CardOwners::Player(0), Stacks::Bases),
        vec![0, 1],
    );
}

#[test]
fn gap_keeping_zone_preserves_indices() {
    let mut state = GameState::new();
    state.turn = TurnStates::PlayerTurn(0);
    let d = ship(1);
    let _h0 = place(&mut state, &d, CardOwners::Player(0), Stacks::Hand, 0);
    let h1 = place(&mut state, &d, CardOwners::Player(0), Stacks::Hand, 1);
    let _h2 = place(&mut state, &d, CardOwners::Player(0), Stacks::Hand, 2);
    state.routines.discard(0, h1);
    drive(&mut state, &empty_set(), 3);
    assert!(state.routines.is_empty());
    assert_eq!(
        zone_indices(&state, CardOwners::Player(0), Stacks::Hand),
        vec![0, 2],
    );
}

#[test]
fn draw_recycles_discard_then_shuffles() {
    let mut state = GameState::new();
    state.turn = TurnStates::PlayerTurn(0);
    let d = ship(1);
    let a = place(&mut state, &d, CardOwners::Player(0), Stacks::DiscardPile, 0);
    let b = place(&mut state, &d, CardOwners::Player(0), Stacks::DiscardPile, 1);
    state.routines.draw(0, false);
    let set = empty_set();

    // First step: the discard pile heads for the deck, the draw is not done.
    tick(&mut state, &set);
    assert!(!state.routines.is_empty());
    assert_eq!(state.pending.len(), 2);
    state.complete_all_transitions();
    assert_eq!(state.cards[a].stack, Stacks::PlayerDeck);
    assert_eq!(state.cards[b].stack, Stacks::PlayerDeck);

    // Next step: a prioritized shuffle pre-empts the draw.
    tick(&mut state, &set);
    assert!(matches!(
        state.routines.routine(),
        Some(realms_core::routines::Routines::Shuffle { .. }),
    ));

    // Only after the shuffle completes does a card reach the hand.
    drive(&mut state, &set, 4);
    assert!(state.routines.is_empty());
    assert_eq!(
        zone_indices(&state, CardOwners::Player(0), Stacks::Hand).len(),
        1,
    );
}

#[test]
fn shuffle_deals_a_permutation() {
    let mut state = GameState::new();
    let d = ship(1);
    for i in 0..5 {
        place(&mut state, &d, CardOwners::Player(0), Stacks::PlayerDeck, i);
    }
    state.routines.shuffle(CardOwners::Player(0), Stacks::PlayerDeck, false);
    drive(&mut state, &empty_set(), 2);
    assert!(state.routines.is_empty());
    assert_eq!(
        zone_indices(&state, CardOwners::Player(0), Stacks::PlayerDeck),
        vec![0, 1, 2, 3, 4],
    );
}

#[test]
fn next_buy_on_deck_round_trip() {
    let mut state = GameState::new();
    state.turn = TurnStates::PlayerTurn(0);
    state.p0.economy = 5;
    state.next_buy_on_deck = NextBuyOnDeckFlag(KindMask::Ships);
    let d = ship(2);
    let first = place(&mut state, &d, CardOwners::Market, Stacks::MarketRow, 0);
    let second = place(&mut state, &d, CardOwners::Market, Stacks::MarketRow, 1);
    let set = empty_set();

    state.events.push(GameEvents::BuyCard(BuyFrom::Market(0)));
    drive(&mut state, &set, 6);
    assert!(state.routines.is_empty());
    assert_eq!(state.cards[first].owner, CardOwners::Player(0));
    assert_eq!(state.cards[first].stack, Stacks::PlayerDeck);
    assert_eq!(state.next_buy_on_deck, NextBuyOnDeckFlag(KindMask::NoKinds));
    assert_eq!(state.p0.economy, 3);

    // The flag is consumed: a second purchase lands in the discard pile.
    state.events.push(GameEvents::BuyCard(BuyFrom::Market(1)));
    drive(&mut state, &set, 6);
    assert!(state.routines.is_empty());
    assert_eq!(state.cards[second].owner, CardOwners::Player(0));
    assert_eq!(state.cards[second].stack, Stacks::DiscardPile);
    assert_eq!(state.p0.economy, 1);
}

#[test]
fn buy_without_economy_cancels() {
    let mut state = GameState::new();
    state.turn = TurnStates::PlayerTurn(0);
    state.p0.economy = 1;
    let d = ship(3);
    let card = place(&mut state, &d, CardOwners::Market, Stacks::MarketRow, 0);
    state.events.push(GameEvents::BuyCard(BuyFrom::Market(0)));
    tick(&mut state, &empty_set());
    assert!(state.events.get_unprocessed().is_none());
    assert!(state.routines.is_empty());
    assert_eq!(state.cards[card].stack, Stacks::MarketRow);
    assert_eq!(state.p0.economy, 1);
}

#[test]
fn joker_scrap_returns_to_joker_deck() {
    let mut state = GameState::new();
    let mut d = ship(2);
    d.joker = true;
    let card = place(&mut state, &d, CardOwners::Player(0), Stacks::Hand, 0);
    state.routines.scrap(card);
    drive(&mut state, &empty_set(), 3);
    assert!(state.routines.is_empty());
    assert_eq!(state.cards[card].stack, Stacks::JokerDeck);
}

#[test]
fn card_action_gains_resources() {
    let mut state = GameState::new();
    let d = ship(1);
    let card = place(&mut state, &d, CardOwners::Player(0), Stacks::UsedCards, 0);
    state.routines.action(0, card, 0, 0, Action::Eco(3));
    state.routines.action(0, card, 0, 1, Action::Atk(2));
    state.routines.action(0, card, 0, 2, Action::Life(1));
    drive(&mut state, &empty_set(), 3);
    assert!(state.routines.is_empty());
    assert_eq!(state.p0.economy, 3);
    assert_eq!(state.p0.attack, 2);
    assert_eq!(state.p0.life, 51);
}

#[test]
fn enemy_discard_defers_onto_tracker() {
    let mut state = GameState::new();
    let d = ship(1);
    let card = place(&mut state, &d, CardOwners::Player(0), Stacks::UsedCards, 0);
    state.routines.action(0, card, 0, 0, Action::EnemyDiscard);
    drive(&mut state, &empty_set(), 1);
    assert_eq!(state.p1.tracker.cards_to_discard, 1);
    assert_eq!(state.p0.tracker.cards_to_discard, 0);
}

#[test]
fn next_buy_action_sets_flag() {
    let mut state = GameState::new();
    let d = ship(1);
    let card = place(&mut state, &d, CardOwners::Player(0), Stacks::UsedCards, 0);
    state.routines.action(0, card, 0, 0, Action::NextBuyOnDeck(KindMask::Ships));
    drive(&mut state, &empty_set(), 1);
    assert_eq!(state.next_buy_on_deck, NextBuyOnDeckFlag(KindMask::Ships));
}

#[test]
fn optional_choice_resolves_on_accept() {
    let mut state = GameState::new();
    state.turn = TurnStates::PlayerTurn(0);
    let d = ship(1);
    let card = place(&mut state, &d, CardOwners::Player(0), Stacks::UsedCards, 0);
    state.routines.activate_card(0, card, 0, ActionSet::Optional(Action::Eco(2)));
    let set = empty_set();
    tick(&mut state, &set);
    assert_eq!(state.mode, GameStates::ChoiceInput);
    assert!(state.choice.is_some());
    state.choice_click(Some(ChoiceTarget::Entry(0)));
    assert_eq!(state.mode, GameStates::MainLoop);
    drive(&mut state, &set, 2);
    assert!(state.routines.is_empty());
    assert!(state.choice.is_none());
    assert_eq!(state.p0.economy, 2);
}

#[test]
fn optional_choice_declines_to_nothing() {
    let mut state = GameState::new();
    state.turn = TurnStates::PlayerTurn(0);
    let d = ship(1);
    let card = place(&mut state, &d, CardOwners::Player(0), Stacks::UsedCards, 0);
    state.routines.activate_card(0, card, 0, ActionSet::Optional(Action::Eco(2)));
    let set = empty_set();
    tick(&mut state, &set);
    state.choice_click(Some(ChoiceTarget::Decline));
    drive(&mut state, &set, 2);
    assert!(state.routines.is_empty());
    assert_eq!(state.p0.economy, 0);
}

#[test]
fn fixed_sequence_set_queues_all_actions() {
    let mut state = GameState::new();
    let d = ship(1);
    let card = place(&mut state, &d, CardOwners::Player(0), Stacks::UsedCards, 0);
    state.routines.activate_card(0, card, 0, ActionSet::Two(Action::Eco(1), Action::Atk(4)));
    drive(&mut state, &empty_set(), 3);
    assert!(state.routines.is_empty());
    assert_eq!(state.p0.economy, 1);
    assert_eq!(state.p0.attack, 4);
}

#[test]
fn discard_action_runs_the_selection_protocol() {
    let mut state = GameState::new();
    state.turn = TurnStates::PlayerTurn(0);
    let d = ship(1);
    let h0 = place(&mut state, &d, CardOwners::Player(0), Stacks::Hand, 0);
    let h1 = place(&mut state, &d, CardOwners::Player(0), Stacks::Hand, 1);
    let trigger = place(&mut state, &d, CardOwners::Player(0), Stacks::UsedCards, 0);
    state.routines.action(0, trigger, 0, 0, Action::Discard);
    let set = empty_set();
    tick(&mut state, &set); // the action opens a selection
    tick(&mut state, &set); // the selection marks and waits
    assert_eq!(state.mode, GameStates::SelectionInput);
    assert!(state.cards[h0].selectable && state.cards[h1].selectable);
    selection_click(&mut state, h0);
    assert!(state.cards[h0].selected);
    assert!(selection_validation_button(&mut state));
    drive(&mut state, &set, 5);
    assert!(state.routines.is_empty());
    assert_eq!(state.cards[h0].stack, Stacks::DiscardPile);
    assert_eq!(state.cards[h1].stack, Stacks::Hand);
    assert!(!state.cards[h1].selectable);
}

#[test]
fn empty_selection_finishes_at_once() {
    let mut state = GameState::new();
    state.turn = TurnStates::PlayerTurn(0);
    let d = ship(1);
    let trigger = place(&mut state, &d, CardOwners::Player(0), Stacks::UsedCards, 0);
    // A discard with an empty hand has nothing to select.
    state.routines.action(0, trigger, 0, 0, Action::Discard);
    let set = empty_set();
    drive(&mut state, &set, 3);
    assert!(state.routines.is_empty());
    assert_eq!(state.mode, GameStates::MainLoop);
}

#[test]
fn attack_hits_the_player_without_outposts() {
    let mut state = GameState::new();
    state.turn = TurnStates::PlayerTurn(0);
    state.p0.attack = 3;
    state.events.push(GameEvents::Attack {
        player: 1,
        as_much_as_possible: false,
        base_index: None,
    });
    tick(&mut state, &empty_set());
    assert_eq!(state.p1.life, 49);
    assert_eq!(state.p0.attack, 2);
    assert!(state.events.get_unprocessed().is_none());
}

#[test]
fn outposts_shield_the_player() {
    let mut state = GameState::new();
    state.turn = TurnStates::PlayerTurn(0);
    state.p0.attack = 3;
    let o = outpost(4);
    place(&mut state, &o, CardOwners::Player(1), Stacks::Bases, 0);
    state.events.push(GameEvents::Attack {
        player: 1,
        as_much_as_possible: false,
        base_index: None,
    });
    tick(&mut state, &empty_set());
    // The intent is cancelled: the outpost must fall first.
    assert!(state.events.get_unprocessed().is_none());
    assert_eq!(state.p1.life, 50);
    assert_eq!(state.p0.attack, 3);
}

#[test]
fn destroyed_outpost_heads_for_the_discard_pile() {
    let mut state = GameState::new();
    state.turn = TurnStates::PlayerTurn(0);
    state.p0.attack = 5;
    let o = outpost(3);
    let card = place(&mut state, &o, CardOwners::Player(1), Stacks::Bases, 0);
    state.events.push(GameEvents::Attack {
        player: 1,
        as_much_as_possible: true,
        base_index: Some(0),
    });
    let set = empty_set();
    drive(&mut state, &set, 4);
    assert!(state.routines.is_empty());
    assert_eq!(state.p0.attack, 2);
    assert_eq!(state.cards[card].stack, Stacks::DiscardPile);
    assert_eq!(state.cards[card].owner, CardOwners::Player(1));
}

#[test]
fn play_card_moves_ship_to_used_cards() {
    let mut state = GameState::new();
    state.turn = TurnStates::PlayerTurn(0);
    let mut d = ship(1);
    d.actions = CardActions::from_conditions(&vec![ActionCondition::Do(ActionSet::One(
        Action::Eco(2),
    ))]);
    let card = place(&mut state, &d, CardOwners::Player(0), Stacks::Hand, 0);
    state.events.push(GameEvents::PlayCard(0));
    drive(&mut state, &empty_set(), 6);
    assert!(state.routines.is_empty());
    assert_eq!(state.cards[card].stack, Stacks::UsedCards);
    assert_eq!(state.p0.economy, 2);
}

#[test]
fn activate_base_ability_marks_it_used() {
    let mut state = GameState::new();
    state.turn = TurnStates::PlayerTurn(0);
    let d = base(6, vec![ActionCondition::Do(ActionSet::One(Action::Atk(2)))]);
    let card = place(&mut state, &d, CardOwners::Player(0), Stacks::Bases, 0);
    state.events.push(GameEvents::ActivateCard { base: true, index: 0, action: 0 });
    drive(&mut state, &empty_set(), 4);
    assert!(state.routines.is_empty());
    assert_eq!(state.p0.attack, 2);
    // A second activation of the used slot is rejected.
    state.events.push(GameEvents::ActivateCard { base: true, index: 0, action: 0 });
    tick(&mut state, &empty_set());
    assert!(state.events.get_unprocessed().is_none());
    assert_eq!(state.p0.attack, 2);
    let _ = card;
}

#[test]
fn pass_turn_scenario() {
    let mut state = GameState::new();
    state.turn = TurnStates::PlayerTurn(0);
    state.p0.attack = 3;
    state.p0.economy = 2;
    let d = ship(1);
    let h0 = place(&mut state, &d, CardOwners::Player(0), Stacks::Hand, 0);
    let h1 = place(&mut state, &d, CardOwners::Player(0), Stacks::Hand, 1);
    let u0 = place(&mut state, &d, CardOwners::Player(0), Stacks::UsedCards, 0);
    for i in 0..7 {
        place(&mut state, &d, CardOwners::Player(0), Stacks::PlayerDeck, i);
    }
    let b = base(6, vec![ActionCondition::Do(ActionSet::One(Action::Atk(2)))]);
    let base_id = place(&mut state, &b, CardOwners::Player(0), Stacks::Bases, 0);
    {
        let tracker = state.p0.tracker;
        let mut actions = state.cards[base_id].actions;
        actions.use_action(0, &tracker);
        state.cards[base_id].actions = actions;
        state.cards[base_id].base_life = 4;
    }
    state.events.push(GameEvents::PassTurn);
    drive(&mut state, &empty_set(), 40);
    assert!(state.routines.is_empty());
    assert_eq!(state.p0.attack, 0);
    assert_eq!(state.p0.economy, 0);
    assert_eq!(state.turn, TurnStates::PlayerTurn(1));
    assert_eq!(state.cards[h0].stack, Stacks::DiscardPile);
    assert_eq!(state.cards[h1].stack, Stacks::DiscardPile);
    assert_eq!(state.cards[u0].stack, Stacks::DiscardPile);
    assert_eq!(
        zone_indices(&state, CardOwners::Player(0), Stacks::Hand).len(),
        5,
    );
    // The base healed and got its ability back.
    assert_eq!(state.cards[base_id].base_life, 6);
    let tracker = state.p0.tracker;
    assert!(state.cards[base_id].actions.is_action_available(0, &tracker));
}

#[test]
fn setup_scenario_deals_market_and_hands() {
    let mut state = GameState::new();
    let set = GameSet {
        market_deck: vec![(10, ship(3))],
        player_deck: vec![(10, ship(1))],
        joker_deck: vec![(2, ship(2))],
    };
    state.events.push(GameEvents::Setup {
        seed: 42,
        set: 0,
        players: 2,
        starting_player: 0,
    });
    drive(&mut state, &set, 80);
    assert!(state.routines.is_empty());
    assert_eq!(state.turn, TurnStates::PlayerTurn(0));
    assert_eq!(zone_indices(&state, CardOwners::Market, Stacks::MarketRow).len(), 5);
    assert_eq!(zone_indices(&state, CardOwners::Market, Stacks::MarketDeck).len(), 5);
    // The starting player opens with three cards, the other with five.
    assert_eq!(zone_indices(&state, CardOwners::Player(0), Stacks::Hand).len(), 3);
    assert_eq!(zone_indices(&state, CardOwners::Player(1), Stacks::Hand).len(), 5);
    assert_eq!(zone_indices(&state, CardOwners::Market, Stacks::JokerDeck).len(), 2);
}

#[test]
fn setup_is_deterministic_for_a_seed() {
    let run = |seed: u64| -> Vec<(CardOwners, Stacks, usize)> {
        let mut state = GameState::new();
        let set = GameSet {
            market_deck: vec![(8, ship(3)), (4, ship(5))],
            player_deck: vec![(10, ship(1))],
            joker_deck: vec![(2, ship(2))],
        };
        state.events.push(GameEvents::Setup {
            seed,
            set: 0,
            players: 2,
            starting_player: 0,
        });
        drive(&mut state, &set, 80);
        state.cards.iter().map(|c| (c.owner, c.stack, c.index)).collect()
    };
    assert_eq!(run(7), run(7));
}
