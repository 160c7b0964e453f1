//! The card-effect data model: atomic actions, fixed-arity action sets, the
//! conditions gating them, and the per-card slots of (condition, used) pairs.

use vstd::prelude::*;
use crate::cards::{CardFaction, KindMask};
use crate::tracker::{spec_faction_counter, PlayerTurnTracker};

verus! {

/// Card-unique hardcoded effects.
#[derive(Copy, Clone, Debug, Default, PartialEq, Eq, Structural)]
pub enum Uniques {
    #[default]
    Unimplemented,
    BlobWorld,
    BrainWorld,
    EmbassyYacht,
    FleetHQ,
    RecyclingStation,
    StealthNeedle,
}

/// An atomic card effect.
#[derive(Copy, Clone, Debug, PartialEq, Eq, Structural)]
pub enum Action {
    /// Gain economy.
    Eco(u8),
    /// Gain attack.
    Atk(u8),
    /// Gain life.
    Life(u8),
    /// Draw the given number of cards.
    Draw(u8),
    /// Discard a card (player-selected).
    Discard,
    /// Scrap a card from hand.
    ScrapHand,
    /// Scrap a card from the discard pile.
    ScrapDiscard,
    /// Scrap a card from the hand or the discard pile.
    ScrapHandOrDiscard,
    /// Scrap a card from the market row.
    ScrapMarket,
    /// Scrap the card that triggered this action.
    ScrapSelf,
    /// Put a target enemy base in its owner's discard pile.
    DestroyBase,
    /// Force the other player to discard at the start of their turn.
    EnemyDiscard,
    /// Acquire a matching market card at no cost.
    FreeBuy { min_cost: u8, max_cost: u8, valid_kinds: KindMask },
    /// The next matching purchase goes on top of the deck.
    NextBuyOnDeck(KindMask),
    /// A card-unique hardcoded effect.
    Unique(Uniques),
}

impl Default for Action {
    /// The placeholder effect.
    fn default() -> (r: Self)
        ensures
            r == Action::Unique(Uniques::Unimplemented),
    {
        Action::Unique(Uniques::Unimplemented)
    }
}

/// A fixed-arity composition of atomic actions: a sequence of one to four,
/// an optional one, one-then-optional, both-optional, or an exclusive choice.
#[derive(Copy, Clone, Debug, Default, PartialEq, Eq, Structural)]
pub enum ActionSet {
    #[default]
    Nothing,
    One(Action),
    Optional(Action),
    OneAndOptional(Action, Action),
    Two(Action, Action),
    Three(Action, Action, Action),
    Four(Action, Action, Action, Action),
    AnyOf2(Action, Action),
    OneOf2(Action, Action),
}

/// The condition in front of an action set: run always, run on scrap, or run only
/// with enough same-faction cards in play.
#[derive(Copy, Clone, Debug, Default, PartialEq, Eq, Structural)]
pub enum ActionCondition {
    /// An empty slot: no action.
    #[default]
    Absent,
    Do(ActionSet),
    Scrap(ActionSet),
    Ally(CardFaction, ActionSet),
    DoubleAlly(CardFaction, CardFaction, ActionSet),
}

/// How many cards of the faction the tracker counts as in play, bases and
/// ships together.
pub open spec fn spec_in_play_count(t: PlayerTurnTracker, f: CardFaction) -> int {
    spec_faction_counter(t, f).ships_in_play + spec_faction_counter(t, f).bases_in_play
}

/// Whether a condition holds against the tracker: `Do` and `Scrap` always
/// hold, an ally needs strictly more than one card of the faction in play
/// (the trigger card included), and a same-faction double ally strictly more
/// than two.
pub open spec fn spec_condition_holds(c: ActionCondition, t: PlayerTurnTracker) -> bool {
    match c {
        ActionCondition::Absent => false,
        ActionCondition::Do(_) => true,
        ActionCondition::Scrap(_) => true,
        ActionCondition::Ally(f, _) => spec_in_play_count(t, f) > 1,
        ActionCondition::DoubleAlly(f1, f2, _) => if f1 == f2 {
            spec_in_play_count(t, f1) > 2
        } else {
            spec_in_play_count(t, f1) > 1 && spec_in_play_count(t, f2) > 1
        },
    }
}

/// The action set behind a condition, if any, with the scrap-after flag.
pub open spec fn spec_action_set_of(c: ActionCondition) -> Option<(ActionSet, bool)> {
    match c {
        ActionCondition::Absent => None,
        ActionCondition::Do(set) => Some((set, false)),
        ActionCondition::Scrap(set) => Some((set, true)),
        ActionCondition::Ally(_, set) => Some((set, false)),
        ActionCondition::DoubleAlly(_, _, set) => Some((set, false)),
    }
}

impl ActionCondition {
    /// Evaluates the condition against the player's turn statistics.
    pub fn check(&self, tracker: &PlayerTurnTracker) -> (r: bool)
        ensures
            r == spec_condition_holds(*self, *tracker),
    {
        match self {
            ActionCondition::Absent => false,
            ActionCondition::Do(_) => true,
            ActionCondition::Scrap(_) => true,
            ActionCondition::Ally(faction, _) => {
                let c = tracker.faction_counter(*faction);
                c.ships_in_play.saturating_add(c.bases_in_play) > 1
            },
            ActionCondition::DoubleAlly(first, second, _) => {
                let c1 = tracker.faction_counter(*first);
                if first == second {
                    c1.ships_in_play.saturating_add(c1.bases_in_play) > 2
                } else {
                    let c2 = tracker.faction_counter(*second);
                    c1.ships_in_play.saturating_add(c1.bases_in_play) > 1
                        && c2.ships_in_play.saturating_add(c2.bases_in_play) > 1
                }
            },
        }
    }

    /// The action set behind this condition, with its scrap-after flag.
    pub fn get_action_set(&self) -> (r: Option<(ActionSet, bool)>)
        ensures
            r == spec_action_set_of(*self),
    {
        match self {
            ActionCondition::Absent => None,
            ActionCondition::Do(set) => Some((*set, false)),
            ActionCondition::Scrap(set) => Some((*set, true)),
            ActionCondition::Ally(_, set) => Some((*set, false)),
            ActionCondition::DoubleAlly(_, _, set) => Some((*set, false)),
        }
    }
}

/// The most ability slots a card can carry: the fixed-arity design keeps
/// every card's action list exhaustively matchable.
pub const MAX_CARD_ACTIONS: u8 = 4;

/// A card's abilities: a fixed ordered sequence of (condition, used-flag)
/// pairs, at most four per card. A slot can be used at most once per turn;
/// the flags reset when the card leaves play or at turn cleanup.
#[derive(Copy, Clone, Debug, Default, PartialEq, Eq)]
pub struct CardActions {
    pub count: u8,
    pub s0: (ActionCondition, bool),
    pub s1: (ActionCondition, bool),
    pub s2: (ActionCondition, bool),
    pub s3: (ActionCondition, bool),
}

/// The slots of a card's abilities, each a condition with its used flag.
pub open spec fn spec_slots(a: CardActions) -> Seq<(ActionCondition, bool)> {
    seq![a.s0, a.s1, a.s2, a.s3].take(
        if a.count <= MAX_CARD_ACTIONS { a.count as int } else { MAX_CARD_ACTIONS as int },
    )
}

/// The same abilities with every used flag cleared.
pub open spec fn spec_cleared(a: CardActions) -> CardActions {
    CardActions {
        count: a.count,
        s0: (a.s0.0, false),
        s1: (a.s1.0, false),
        s2: (a.s2.0, false),
        s3: (a.s3.0, false),
    }
}

/// A copy of the abilities with every used flag cleared: the state a fresh
/// card instance starts from.
pub fn cleared(a: CardActions) -> (r: CardActions)
    ensures
        r == spec_cleared(a),
{
    CardActions {
        count: a.count,
        s0: (a.s0.0, false),
        s1: (a.s1.0, false),
        s2: (a.s2.0, false),
        s3: (a.s3.0, false),
    }
}

impl CardActions {
    /// The ability slots: each a condition with its used flag.
    pub open spec fn slots(&self) -> Seq<(ActionCondition, bool)> {
        spec_slots(*self)
    }

    /// Whether `use_action` would succeed on this slot.
    pub open spec fn is_available(&self, index: u8, tracker: PlayerTurnTracker) -> bool {
        index < self.slots().len() && !self.slots()[index as int].1
            && spec_condition_holds(self.slots()[index as int].0, tracker)
    }

    /// Fresh (unused) slots for the given conditions.
    pub fn from_conditions(conditions: &Vec<ActionCondition>) -> (r: Self)
        requires
            conditions@.len() <= MAX_CARD_ACTIONS,
        ensures
            r.slots().len() == conditions@.len(),
            forall|i: int| 0 <= i < conditions@.len()
                ==> r.slots()[i] == (conditions@[i], false),
    {
        let n = conditions.len();
        CardActions {
            count: n as u8,
            s0: (if n > 0 { conditions[0] } else { ActionCondition::Absent }, false),
            s1: (if n > 1 { conditions[1] } else { ActionCondition::Absent }, false),
            s2: (if n > 2 { conditions[2] } else { ActionCondition::Absent }, false),
            s3: (if n > 3 { conditions[3] } else { ActionCondition::Absent }, false),
        }
    }

    /// How many ability slots the card has.
    pub fn len(&self) -> (r: u8)
        ensures
            r == self.slots().len(),
    {
        if self.count <= MAX_CARD_ACTIONS {
            self.count
        } else {
            MAX_CARD_ACTIONS
        }
    }

    /// The slot at the given position.
    pub fn slot(&self, index: u8) -> (r: (ActionCondition, bool))
        requires
            index < self.slots().len(),
        ensures
            r == self.slots()[index as int],
    {
        if index == 0 {
            self.s0
        } else if index == 1 {
            self.s1
        } else if index == 2 {
            self.s2
        } else {
            self.s3
        }
    }

    /// Clears every used flag.
    pub fn reset(&mut self)
        ensures
            *final(self) == spec_cleared(*old(self)),
    {
        self.s0 = (self.s0.0, false);
        self.s1 = (self.s1.0, false);
        self.s2 = (self.s2.0, false);
        self.s3 = (self.s3.0, false);
    }

    /// Whether the slot exists and holds a real action.
    pub fn is_action_real(&self, index: u8) -> (r: bool)
        ensures
            r == (index < self.slots().len()
                && self.slots()[index as int].0 != ActionCondition::Absent),
    {
        if index < self.len() {
            match self.slot(index).0 {
                ActionCondition::Absent => false,
                _ => true,
            }
        } else {
            false
        }
    }

    /// Whether the slot exists, is not yet used this turn, and its condition
    /// holds against the tracker.
    pub fn is_action_available(&self, index: u8, tracker: &PlayerTurnTracker) -> (r: bool)
        ensures
            r == self.is_available(index, *tracker),
    {
        if index < self.len() {
            let (condition, used) = self.slot(index);
            !used && condition.check(tracker)
        } else {
            false
        }
    }

    /// Marks an available slot used and hands out its action set together
    /// with the scrap-after-resolve flag; an unavailable slot is left alone.
    pub fn use_action(&mut self, index: u8, tracker: &PlayerTurnTracker)
        -> (r: Option<(ActionSet, bool)>)
        ensures
            if old(self).is_available(index, *tracker) {
                r == spec_action_set_of(old(self).slots()[index as int].0)
                    && final(self).slots() == old(self).slots().update(
                        index as int,
                        (old(self).slots()[index as int].0, true),
                    )
                    && final(self).count == old(self).count
            } else {
                r is None && *final(self) == *old(self)
            },
    {
        if index < self.len() {
            let (condition, used) = self.slot(index);
            if !used && condition.check(tracker) {
                if index == 0 {
                    self.s0 = (condition, true);
                } else if index == 1 {
                    self.s1 = (condition, true);
                } else if index == 2 {
                    self.s2 = (condition, true);
                } else {
                    self.s3 = (condition, true);
                }
                proof {
                    assert(final(self).slots() =~= old(self).slots().update(
                        index as int,
                        (old(self).slots()[index as int].0, true),
                    ));
                }
                condition.get_action_set()
            } else {
                None
            }
        } else {
            None
        }
    }
}

} // verus!
