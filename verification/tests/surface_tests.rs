//! Tests of the input and choice surfaces, and of the card-unique effects.

use realms_core::actions::{Action, ActionSet, CardActions, Uniques};
use realms_core::board::CardDef;
use realms_core::cards::{CardKinds, CardOwners, CardVisibility};
use realms_core::choice::{
    handle_choice_hover, spawn_choices, ChoiceTarget,
};
use realms_core::events::{BuyFrom, GameEvents};
use realms_core::handlers::tick;
use realms_core::input::card_click_intent;
use realms_core::stacks::Stacks;
use realms_core::state::{GameSet, GameState};
use realms_core::states::TurnStates;
use realms_core::tracker::CardFactions;

fn empty_set() -> GameSet {
    GameSet { market_deck: Vec::new(), player_deck: Vec::new(), joker_deck: Vec::new() }
}

fn ship(cost: u8) -> CardDef {
    CardDef {
        kind: CardKinds::Ship,
        factions: CardFactions::default(),
        cost,
        joker: false,
        actions: CardActions::from_conditions(&Vec::new()),
    }
}

fn place(state: &mut GameState, def: &CardDef, owner: CardOwners, stack: Stacks, index: usize)
    -> usize {
    let id = state.cards.len();
    state.cards.push(realms_core::board::CardInstance::spawn(
        def,
        owner,
        stack,
        index,
        CardVisibility::Visible,
    ));
    id
}

fn drive(state: &mut GameState, set: &GameSet, ticks: usize) {
    for _ in 0..ticks {
        tick(state, set);
        state.complete_all_transitions();
    }
}

#[test]
fn click_on_hand_plays_the_slot() {
    let intent = card_click_intent(CardOwners::Player(0), Stacks::Hand, 2, None, 0, true);
    assert!(matches!(intent, Some(GameEvents::PlayCard(2))));
}

#[test]
fn click_on_enemy_base_attacks_it() {
    let intent = card_click_intent(CardOwners::Player(1), Stacks::Bases, 0, None, 0, true);
    assert!(matches!(
        intent,
        Some(GameEvents::Attack { player: 1, as_much_as_possible: true, base_index: Some(0) }),
    ));
}

#[test]
fn click_on_own_base_activates_the_hit_ability() {
    let intent = card_click_intent(CardOwners::Player(0), Stacks::Bases, 1, Some(1), 0, true);
    assert!(matches!(
        intent,
        Some(GameEvents::ActivateCard { base: true, index: 1, action: 1 }),
    ));
    let none = card_click_intent(CardOwners::Player(0), Stacks::Bases, 1, None, 0, true);
    assert!(none.is_none());
}

#[test]
fn click_on_market_row_buys_the_slot() {
    let intent = card_click_intent(CardOwners::Market, Stacks::MarketRow, 4, None, 0, true);
    assert!(matches!(intent, Some(GameEvents::BuyCard(BuyFrom::Market(4)))));
    let joker = card_click_intent(CardOwners::Market, Stacks::JokerDeck, 0, None, 0, true);
    assert!(matches!(joker, Some(GameEvents::BuyCard(BuyFrom::Joker))));
}

#[test]
fn spectator_clicks_do_nothing() {
    let intent = card_click_intent(CardOwners::Player(0), Stacks::Hand, 0, None, 0, false);
    assert!(intent.is_none());
}

#[test]
fn prompts_match_their_action_sets() {
    let optional = spawn_choices(ActionSet::Optional(Action::Eco(1))).unwrap();
    assert_eq!(optional.buttons.len(), 1);
    assert!(optional.none_button.is_some());
    assert!(optional.validate.is_none());

    let any2 = spawn_choices(ActionSet::AnyOf2(Action::Eco(1), Action::Atk(1))).unwrap();
    assert_eq!(any2.buttons.len(), 2);
    assert!(any2.none_button.is_some());
    assert!(any2.validate.is_some());

    let one2 = spawn_choices(ActionSet::OneOf2(Action::Eco(1), Action::Atk(1))).unwrap();
    assert_eq!(one2.buttons.len(), 2);
    assert!(one2.none_button.is_none());
    assert!(one2.validate.is_none());

    assert!(spawn_choices(ActionSet::One(Action::Eco(1))).is_none());
}

#[test]
fn hover_highlights_only_the_pointed_widget() {
    let prompt = spawn_choices(ActionSet::AnyOf2(Action::Eco(1), Action::Atk(1))).unwrap();
    let (entries, decline, validate) =
        handle_choice_hover(&prompt, Some(ChoiceTarget::Entry(1)));
    assert_eq!(entries, vec![false, true]);
    assert!(!decline && !validate);
    let (entries2, decline2, validate2) =
        handle_choice_hover(&prompt, Some(ChoiceTarget::Validate));
    assert_eq!(entries2, vec![false, false]);
    assert!(!decline2 && validate2);
}

#[test]
fn any_of_two_choice_applies_both_picks() {
    let mut state = GameState::new();
    state.turn = TurnStates::PlayerTurn(0);
    let d = ship(1);
    let card = place(&mut state, &d, CardOwners::Player(0), Stacks::UsedCards, 0);
    state.routines.activate_card(0, card, 0, ActionSet::AnyOf2(Action::Eco(1), Action::Atk(2)));
    let set = empty_set();
    tick(&mut state, &set);
    state.choice_click(Some(ChoiceTarget::Entry(0)));
    state.choice_click(Some(ChoiceTarget::Entry(1)));
    state.choice_click(Some(ChoiceTarget::Validate));
    drive(&mut state, &set, 3);
    assert!(state.routines.is_empty());
    assert_eq!(state.p0.economy, 1);
    assert_eq!(state.p0.attack, 2);
}

#[test]
fn one_of_two_choice_applies_only_the_pick() {
    let mut state = GameState::new();
    state.turn = TurnStates::PlayerTurn(0);
    let d = ship(1);
    let card = place(&mut state, &d, CardOwners::Player(0), Stacks::UsedCards, 0);
    state.routines.activate_card(0, card, 0, ActionSet::OneOf2(Action::Eco(3), Action::Atk(3)));
    let set = empty_set();
    tick(&mut state, &set);
    state.choice_click(Some(ChoiceTarget::Entry(1)));
    drive(&mut state, &set, 2);
    assert!(state.routines.is_empty());
    assert_eq!(state.p0.economy, 0);
    assert_eq!(state.p0.attack, 3);
}

#[test]
fn embassy_yacht_draws_with_two_bases() {
    let mut state = GameState::new();
    let d = ship(1);
    let card = place(&mut state, &d, CardOwners::Player(0), Stacks::UsedCards, 0);
    for i in 0..3 {
        place(&mut state, &d, CardOwners::Player(0), Stacks::PlayerDeck, i);
    }
    state.p0.tracker.common.bases_in_play = 2;
    state.routines.action(0, card, 0, 0, Action::Unique(Uniques::EmbassyYacht));
    drive(&mut state, &empty_set(), 8);
    assert!(state.routines.is_empty());
    let hand: Vec<_> = state
        .cards
        .iter()
        .filter(|c| c.owner == CardOwners::Player(0) && c.stack == Stacks::Hand)
        .collect();
    assert_eq!(hand.len(), 2);
}

#[test]
fn embassy_yacht_without_bases_draws_nothing() {
    let mut state = GameState::new();
    let d = ship(1);
    let card = place(&mut state, &d, CardOwners::Player(0), Stacks::UsedCards, 0);
    for i in 0..3 {
        place(&mut state, &d, CardOwners::Player(0), Stacks::PlayerDeck, i);
    }
    state.routines.action(0, card, 0, 0, Action::Unique(Uniques::EmbassyYacht));
    drive(&mut state, &empty_set(), 3);
    assert!(state.routines.is_empty());
    let hand = state
        .cards
        .iter()
        .filter(|c| c.owner == CardOwners::Player(0) && c.stack == Stacks::Hand)
        .count();
    assert_eq!(hand, 0);
}

#[test]
fn blob_world_draws_per_blob_ship_played() {
    let mut state = GameState::new();
    let d = ship(1);
    let card = place(&mut state, &d, CardOwners::Player(0), Stacks::UsedCards, 0);
    for i in 0..4 {
        place(&mut state, &d, CardOwners::Player(0), Stacks::PlayerDeck, i);
    }
    state.p0.tracker.blob.ships_played = 2;
    state.routines.action(0, card, 0, 0, Action::Unique(Uniques::BlobWorld));
    drive(&mut state, &empty_set(), 8);
    assert!(state.routines.is_empty());
    let hand = state
        .cards
        .iter()
        .filter(|c| c.owner == CardOwners::Player(0) && c.stack == Stacks::Hand)
        .count();
    assert_eq!(hand, 2);
}

#[test]
fn scrap_self_heads_for_the_scrapyard() {
    let mut state = GameState::new();
    let d = ship(1);
    let card = place(&mut state, &d, CardOwners::Player(0), Stacks::UsedCards, 0);
    state.routines.action(0, card, 0, 0, Action::ScrapSelf);
    drive(&mut state, &empty_set(), 3);
    assert!(state.routines.is_empty());
    assert_eq!(state.cards[card].stack, Stacks::Scrapyard);
    assert_eq!(state.cards[card].owner, CardOwners::Market);
}

#[test]
fn card_leaving_play_gets_its_abilities_back() {
    let mut state = GameState::new();
    let mut d = ship(1);
    d.actions = CardActions::from_conditions(&vec![
        realms_core::actions::ActionCondition::Do(ActionSet::One(Action::Eco(1))),
    ]);
    let card = place(&mut state, &d, CardOwners::Player(0), Stacks::UsedCards, 0);
    let tracker = state.p0.tracker;
    let mut actions = state.cards[card].actions;
    actions.use_action(0, &tracker);
    state.cards[card].actions = actions;
    state.p0.tracker.common.ships_in_play = 1;
    state.routines.discard(0, card);
    drive(&mut state, &empty_set(), 3);
    assert!(state.routines.is_empty());
    assert_eq!(state.cards[card].stack, Stacks::DiscardPile);
    // The zone-transition listener cleared the used flag and the statistics.
    assert!(state.cards[card].actions.is_action_available(0, &state.p0.tracker));
    assert_eq!(state.p0.tracker.common.ships_in_play, 0);
    assert_eq!(state.p0.tracker.common.ship_discarded, 1);
}
