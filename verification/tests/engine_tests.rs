//! Unit tests of the event log, the routine queue, the action conditions and
//! the board primitives.

use realms_core::actions::{Action, ActionCondition, ActionSet, CardActions};
use realms_core::board::{CardDef, CardInstance};
use realms_core::cards::{CardFaction, CardKinds, CardOwners, CardVisibility, KindMask};
use realms_core::events::{BuyFrom, GameEvent, GameEvents};
use realms_core::input::{check_area, HitRect};
use realms_core::routines::{RoutineManager, Routines};
use realms_core::stacks::Stacks;
use realms_core::state::GameState;
use realms_core::tracker::{CardFactions, CardStateSnapshot, PlayerTurnTracker};

fn blob_factions() -> CardFactions {
    CardFactions { blob: true, ..Default::default() }
}

fn plain_def(kind: CardKinds, cost: u8, conditions: Vec<ActionCondition>) -> CardDef {
    CardDef {
        kind,
        factions: CardFactions::default(),
        cost,
        joker: false,
        actions: CardActions::from_conditions(&conditions),
    }
}

#[test]
fn event_log_starts_idle() {
    let log = GameEvent::default();
    assert!(log.get_unprocessed().is_none());
}

#[test]
fn event_log_push_makes_current() {
    let mut log = GameEvent::default();
    log.push(GameEvents::PassTurn);
    assert!(matches!(log.get_unprocessed(), Some(GameEvents::PassTurn)));
}

#[test]
fn event_log_buffers_behind_current() {
    let mut log = GameEvent::default();
    log.push(GameEvents::PassTurn);
    log.push(GameEvents::PlayCard(3));
    assert!(matches!(log.get_unprocessed(), Some(GameEvents::PassTurn)));
    let next = log.set_processed();
    assert!(matches!(next, Some(GameEvents::PlayCard(3))));
    assert!(matches!(log.get_unprocessed(), Some(GameEvents::PlayCard(3))));
    assert!(log.set_processed().is_none());
    assert!(log.get_unprocessed().is_none());
}

#[test]
fn event_log_cancel_removes_current() {
    let mut log = GameEvent::default();
    log.push(GameEvents::PassTurn);
    let removed = log.cancel();
    assert!(matches!(removed, Some(GameEvents::PassTurn)));
    assert!(log.get_unprocessed().is_none());
    assert!(log.cancel().is_none());
}

#[test]
fn routine_queue_fifo() {
    let mut m = RoutineManager::default();
    m.draw(0, false);
    m.draw(1, false);
    match m.routine() {
        Some(Routines::Draw { player, .. }) => assert_eq!(*player, 0),
        _ => panic!("front should be the first enqueued draw"),
    }
    m.finish();
    match m.routine() {
        Some(Routines::Draw { player, .. }) => assert_eq!(*player, 1),
        _ => panic!("second draw should reach the front only after the first left"),
    }
    m.finish();
    assert!(m.is_empty());
}

#[test]
fn routine_queue_priority_preempts() {
    let mut m = RoutineManager::default();
    m.draw(0, false);
    m.shuffle(CardOwners::Player(0), Stacks::PlayerDeck, true);
    match m.routine() {
        Some(Routines::Shuffle { .. }) => {},
        _ => panic!("a prioritized shuffle must pre-empt the queue"),
    }
}

#[test]
fn ally_condition_needs_two_in_play() {
    let mut tracker = PlayerTurnTracker::new_empty();
    let cond = ActionCondition::Ally(CardFaction::Blob, ActionSet::One(Action::Eco(1)));
    tracker.blob.ships_in_play = 1;
    assert!(!cond.check(&tracker));
    tracker.blob.ships_in_play = 2;
    assert!(cond.check(&tracker));
    tracker.blob.ships_in_play = 1;
    tracker.blob.bases_in_play = 1;
    assert!(cond.check(&tracker));
}

#[test]
fn ally_condition_gates_card_ability() {
    let cond = vec![ActionCondition::Ally(CardFaction::Blob, ActionSet::One(Action::Atk(2)))];
    let actions = CardActions::from_conditions(&cond);
    let mut tracker = PlayerTurnTracker::new_empty();
    tracker.blob.ships_in_play = 1;
    assert!(!actions.is_action_available(0, &tracker));
    tracker.blob.ships_in_play = 2;
    assert!(actions.is_action_available(0, &tracker));
}

#[test]
fn double_ally_same_faction_needs_three() {
    let mut tracker = PlayerTurnTracker::new_empty();
    let cond = ActionCondition::DoubleAlly(
        CardFaction::Blob,
        CardFaction::Blob,
        ActionSet::One(Action::Eco(1)),
    );
    tracker.blob.ships_in_play = 2;
    assert!(!cond.check(&tracker));
    tracker.blob.ships_in_play = 3;
    assert!(cond.check(&tracker));
}

#[test]
fn double_ally_distinct_factions_need_two_each() {
    let mut tracker = PlayerTurnTracker::new_empty();
    let cond = ActionCondition::DoubleAlly(
        CardFaction::Blob,
        CardFaction::StarEmpire,
        ActionSet::One(Action::Eco(1)),
    );
    tracker.blob.ships_in_play = 2;
    tracker.star_empire.ships_in_play = 1;
    assert!(!cond.check(&tracker));
    tracker.star_empire.ships_in_play = 2;
    assert!(cond.check(&tracker));
}

#[test]
fn used_action_is_unavailable_until_reset() {
    let cond = vec![ActionCondition::Do(ActionSet::One(Action::Eco(1)))];
    let mut actions = CardActions::from_conditions(&cond);
    let tracker = PlayerTurnTracker::new_empty();
    assert!(actions.is_action_available(0, &tracker));
    let used = actions.use_action(0, &tracker);
    assert!(matches!(used, Some((ActionSet::One(Action::Eco(1)), false))));
    assert!(!actions.is_action_available(0, &tracker));
    assert!(actions.use_action(0, &tracker).is_none());
    actions.reset();
    assert!(actions.is_action_available(0, &tracker));
}

#[test]
fn scrap_condition_reports_scrap_flag() {
    let cond = vec![ActionCondition::Scrap(ActionSet::One(Action::Atk(3)))];
    let mut actions = CardActions::from_conditions(&cond);
    let tracker = PlayerTurnTracker::new_empty();
    let used = actions.use_action(0, &tracker);
    assert!(matches!(used, Some((ActionSet::One(Action::Atk(3)), true))));
}

#[test]
fn kind_mask_matches_kinds() {
    assert!(CardKinds::Ship.in_mask(KindMask::Any));
    assert!(CardKinds::Ship.in_mask(KindMask::Ships));
    assert!(!CardKinds::Ship.in_mask(KindMask::NonShip));
    assert!(CardKinds::Base(5).in_mask(KindMask::Bases));
    assert!(!CardKinds::Base(5).in_mask(KindMask::Ships));
    assert!(CardKinds::Outpost(4).in_mask(KindMask::NonBase));
    assert!(!CardKinds::Outpost(4).in_mask(KindMask::NoKinds));
}

#[test]
fn zone_policy_keeps_gaps_where_expected() {
    assert!(Stacks::Hand.keep_empty_spaces());
    assert!(Stacks::MarketRow.keep_empty_spaces());
    assert!(Stacks::UsedCards.keep_empty_spaces());
    assert!(!Stacks::Bases.keep_empty_spaces());
    assert!(!Stacks::DiscardPile.keep_empty_spaces());
    assert!(!Stacks::PlayerDeck.keep_empty_spaces());
}

#[test]
fn tracker_counts_played_and_discarded_ships() {
    let mut tracker = PlayerTurnTracker::new_empty();
    let into_play = CardStateSnapshot {
        owner: CardOwners::Player(0),
        stack: Stacks::UsedCards,
        index: 0,
        visibility: CardVisibility::Visible,
    };
    let from_hand = CardStateSnapshot {
        owner: CardOwners::Player(0),
        stack: Stacks::Hand,
        index: 0,
        visibility: CardVisibility::Visible,
    };
    tracker.card_snapshots(&from_hand, &into_play, &blob_factions());
    assert_eq!(tracker.common.ships_in_play, 1);
    assert_eq!(tracker.common.ships_played, 1);
    assert_eq!(tracker.blob.ships_in_play, 1);
    assert_eq!(tracker.neutral.ships_in_play, 0);
    let to_discard = CardStateSnapshot {
        owner: CardOwners::Player(0),
        stack: Stacks::DiscardPile,
        index: 0,
        visibility: CardVisibility::Visible,
    };
    tracker.card_snapshots(&into_play, &to_discard, &blob_factions());
    assert_eq!(tracker.common.ships_in_play, 0);
    assert_eq!(tracker.common.ship_discarded, 1);
    assert_eq!(tracker.blob.ship_discarded, 1);
}

#[test]
fn tracker_counts_draws() {
    let mut tracker = PlayerTurnTracker::new_empty();
    let deck = CardStateSnapshot {
        owner: CardOwners::Player(0),
        stack: Stacks::PlayerDeck,
        index: 0,
        visibility: CardVisibility::Hidden,
    };
    let hand = CardStateSnapshot {
        owner: CardOwners::Player(0),
        stack: Stacks::Hand,
        index: 2,
        visibility: CardVisibility::Visible,
    };
    tracker.card_snapshots(&deck, &hand, &CardFactions::default());
    assert_eq!(tracker.cards_drawn, 1);
}

#[test]
fn turn_finished_keeps_bases_in_play() {
    let mut tracker = PlayerTurnTracker::new_empty();
    tracker.common.bases_in_play = 2;
    tracker.common.ships_in_play = 3;
    tracker.common.ships_played = 3;
    tracker.cards_drawn = 5;
    tracker.cards_to_discard = 1;
    tracker.turn_finished();
    assert_eq!(tracker.common.bases_in_play, 2);
    assert_eq!(tracker.common.ships_in_play, 0);
    assert_eq!(tracker.common.ships_played, 0);
    assert_eq!(tracker.cards_drawn, 0);
    assert_eq!(tracker.cards_to_discard, 1);
}

#[test]
fn check_area_regions() {
    assert_eq!(
        check_area(1, true, 0),
        HitRect { min_x: 70, min_y: 55, max_x: 930, max_y: 315 },
    );
    assert_eq!(
        check_area(2, true, 1),
        HitRect { min_x: 70, min_y: 55, max_x: 930, max_y: 140 },
    );
    assert_eq!(
        check_area(3, false, 2),
        HitRect { min_x: 815, min_y: 500, max_x: 940, max_y: 960 },
    );
    assert_eq!(check_area(0, true, 0), HitRect::default());
}

#[test]
fn spawned_instance_copies_definition() {
    let def = plain_def(CardKinds::Outpost(6), 4, vec![ActionCondition::Do(
        ActionSet::One(Action::Eco(2)),
    )]);
    let c = CardInstance::spawn(&def, CardOwners::Player(1), Stacks::Bases, 2,
        CardVisibility::Visible);
    assert_eq!(c.base_life, 6);
    assert_eq!(c.cost, 4);
    assert_eq!(c.index, 2);
    assert!(matches!(c.kind, CardKinds::Outpost(6)));
    assert!(!c.selectable && !c.selected);
}

#[test]
fn buy_event_carries_source() {
    let mut log = GameEvent::default();
    log.push(GameEvents::BuyCard(BuyFrom::Market(3)));
    match log.get_unprocessed() {
        Some(GameEvents::BuyCard(BuyFrom::Market(3))) => {},
        _ => panic!("buy intent should carry its market slot"),
    }
}

#[test]
fn new_game_is_idle_at_setup() {
    let state = GameState::new();
    assert_eq!(state.turn, realms_core::states::TurnStates::Setup);
    assert!(state.cards.is_empty());
    assert_eq!(state.p0.life, 50);
    assert_eq!(state.p1.life, 50);
    assert_eq!(state.p0.attack, 0);
    assert_eq!(state.p0.economy, 0);
}
