//! Per-player, per-faction turn statistics, maintained solely by the
//! zone-transition listener and read by ally/combo conditions.

use vstd::prelude::*;
use crate::cards::{CardFaction, CardOwners, CardVisibility};
use crate::stacks::Stacks;

verus! {

/// The faction sets a card carries.
#[derive(Copy, Clone, Debug, Default, PartialEq, Eq, Structural)]
pub struct CardFactions {
    pub blob: bool,
    pub machine_cult: bool,
    pub neutral: bool,
    pub trade_federation: bool,
    pub star_empire: bool,
}

impl CardFactions {
    /// Whether the card carries the given faction.
    pub fn contains(&self, f: CardFaction) -> (r: bool)
        ensures
            r == spec_contains_faction(*self, f),
    {
        match f {
            CardFaction::Blob => self.blob,
            CardFaction::MachineCult => self.machine_cult,
            CardFaction::Neutral => self.neutral,
            CardFaction::TradeFederation => self.trade_federation,
            CardFaction::StarEmpire => self.star_empire,
        }
    }
}

/// Whether a faction set carries the given faction.
pub open spec fn spec_contains_faction(s: CardFactions, f: CardFaction) -> bool {
    match f {
        CardFaction::Blob => s.blob,
        CardFaction::MachineCult => s.machine_cult,
        CardFaction::Neutral => s.neutral,
        CardFaction::TradeFederation => s.trade_federation,
        CardFaction::StarEmpire => s.star_empire,
    }
}

/// The resolved (owner, zone, index, visibility) state of a card, before or
/// after a zone transition.
#[derive(Copy, Clone, Debug, Default, PartialEq, Eq, Structural)]
pub struct CardStateSnapshot {
    pub owner: CardOwners,
    pub stack: Stacks,
    pub index: usize,
    pub visibility: CardVisibility,
}

/// Counters for one faction (or for the any-faction aggregate): cards in
/// play, and cards played / discarded / scrapped this turn, bases and ships
/// separately.
#[derive(Copy, Clone, Debug, Default, PartialEq, Eq, Structural)]
pub struct FactionTurnTracker {
    pub bases_in_play: usize,
    pub bases_played: usize,
    pub bases_discarded: usize,
    pub bases_scrapped: usize,
    pub ships_in_play: usize,
    pub ships_played: usize,
    pub ship_discarded: usize,
    pub ships_scrapped: usize,
}

/// A counter bumped by one, stopping at the machine limit.
pub open spec fn sat_inc(x: usize) -> usize {
    if x + 1 <= usize::MAX { (x + 1) as usize } else { x }
}

/// A counter dropped by one, stopping at zero.
pub open spec fn sat_dec(x: usize) -> usize {
    if x > 0 { (x - 1) as usize } else { 0 }
}

/// Whether a card in this zone counts as "in play" (bases on the table or
/// ships among the used cards).
pub open spec fn spec_in_play(s: Stacks) -> bool {
    s == Stacks::Bases || s == Stacks::UsedCards
}

/// The counter update observed for one zone transition: `base` says whether
/// the moving card occupies a base slot on either end of the move.
pub open spec fn spec_snapshot_step(
    t: FactionTurnTracker,
    prev: Stacks,
    next: Stacks,
    base: bool,
) -> FactionTurnTracker {
    let was = spec_in_play(prev);
    let will = spec_in_play(next);
    if was && !will {
        let t1 = if next == Stacks::DiscardPile {
            if base {
                FactionTurnTracker { bases_discarded: sat_inc(t.bases_discarded), ..t }
            } else {
                FactionTurnTracker { ship_discarded: sat_inc(t.ship_discarded), ..t }
            }
        } else {
            t
        };
        let t2 = if next == Stacks::Scrapyard {
            if base {
                FactionTurnTracker { bases_scrapped: sat_inc(t1.bases_scrapped), ..t1 }
            } else {
                FactionTurnTracker { ships_scrapped: sat_inc(t1.ships_scrapped), ..t1 }
            }
        } else {
            t1
        };
        if base {
            FactionTurnTracker { bases_in_play: sat_dec(t2.bases_in_play), ..t2 }
        } else {
            FactionTurnTracker { ships_in_play: sat_dec(t2.ships_in_play), ..t2 }
        }
    } else if will && !was {
        if base {
            FactionTurnTracker {
                bases_in_play: sat_inc(t.bases_in_play),
                bases_played: sat_inc(t.bases_played),
                ..t
            }
        } else {
            FactionTurnTracker {
                ships_in_play: sat_inc(t.ships_in_play),
                ships_played: sat_inc(t.ships_played),
                ..t
            }
        }
    } else {
        t
    }
}

/// The per-turn counters reset at a turn boundary: everything except the
/// bases still in play.
pub open spec fn spec_turn_finished(t: FactionTurnTracker) -> FactionTurnTracker {
    FactionTurnTracker {
        bases_in_play: t.bases_in_play,
        bases_played: 0,
        bases_discarded: 0,
        bases_scrapped: 0,
        ships_in_play: 0,
        ships_played: 0,
        ship_discarded: 0,
        ships_scrapped: 0,
    }
}

impl FactionTurnTracker {
    /// Resets the per-turn counters; bases stay in play across turns.
    pub fn turn_finished(&mut self)
        ensures
            *final(self) == spec_turn_finished(*old(self)),
    {
        self.bases_played = 0;
        self.bases_discarded = 0;
        self.bases_scrapped = 0;
        self.ships_in_play = 0;
        self.ships_played = 0;
        self.ship_discarded = 0;
        self.ships_scrapped = 0;
    }

    /// Applies the counter update for one observed zone transition.
    pub fn snapshot_step(&mut self, prev: Stacks, next: Stacks, base: bool)
        ensures
            *final(self) == spec_snapshot_step(*old(self), prev, next, base),
    {
        let was = prev == Stacks::Bases || prev == Stacks::UsedCards;
        let will = next == Stacks::Bases || next == Stacks::UsedCards;
        if was && !will {
            if next == Stacks::DiscardPile {
                if base {
                    self.bases_discarded = self.bases_discarded.saturating_add(1);
                } else {
                    self.ship_discarded = self.ship_discarded.saturating_add(1);
                }
            }
            if next == Stacks::Scrapyard {
                if base {
                    self.bases_scrapped = self.bases_scrapped.saturating_add(1);
                } else {
                    self.ships_scrapped = self.ships_scrapped.saturating_add(1);
                }
            }
            if base {
                self.bases_in_play = if self.bases_in_play > 0 {
                    self.bases_in_play - 1
                } else {
                    0
                };
            } else {
                self.ships_in_play = if self.ships_in_play > 0 {
                    self.ships_in_play - 1
                } else {
                    0
                };
            }
        } else if will && !was {
            if base {
                self.bases_in_play = self.bases_in_play.saturating_add(1);
                self.bases_played = self.bases_played.saturating_add(1);
            } else {
                self.ships_in_play = self.ships_in_play.saturating_add(1);
                self.ships_played = self.ships_played.saturating_add(1);
            }
        }
    }
}

/// All per-player turn statistics: the any-faction aggregate, one counter set
/// per faction, the number of cards drawn this turn, and the pending
/// enemy-forced discards applied at the start of this player's own turn.
#[derive(Copy, Clone, Debug, Default, PartialEq, Eq, Structural)]
pub struct PlayerTurnTracker {
    pub common: FactionTurnTracker,
    pub cards_drawn: usize,
    pub cards_to_discard: usize,
    pub life_lost: usize,
    pub life_gained: usize,
    pub blob: FactionTurnTracker,
    pub machine_cult: FactionTurnTracker,
    pub neutral: FactionTurnTracker,
    pub trade_federation: FactionTurnTracker,
    pub star_empire: FactionTurnTracker,
}

/// The counter set this tracker keeps for the given faction.
pub open spec fn spec_faction_counter(
    t: PlayerTurnTracker,
    f: CardFaction,
) -> FactionTurnTracker {
    match f {
        CardFaction::Blob => t.blob,
        CardFaction::MachineCult => t.machine_cult,
        CardFaction::Neutral => t.neutral,
        CardFaction::TradeFederation => t.trade_federation,
        CardFaction::StarEmpire => t.star_empire,
    }
}

/// The whole-tracker update observed for one zone transition of a card that
/// carries the given factions.
pub open spec fn spec_card_snapshots(
    t: PlayerTurnTracker,
    prev: CardStateSnapshot,
    next: CardStateSnapshot,
    factions: CardFactions,
) -> PlayerTurnTracker {
    let base = prev.stack == Stacks::Bases || next.stack == Stacks::Bases;
    PlayerTurnTracker {
        common: spec_snapshot_step(t.common, prev.stack, next.stack, base),
        cards_drawn: if prev.stack == Stacks::PlayerDeck && next.stack == Stacks::Hand {
            sat_inc(t.cards_drawn)
        } else {
            t.cards_drawn
        },
        blob: if factions.blob {
            spec_snapshot_step(t.blob, prev.stack, next.stack, base)
        } else {
            t.blob
        },
        machine_cult: if factions.machine_cult {
            spec_snapshot_step(t.machine_cult, prev.stack, next.stack, base)
        } else {
            t.machine_cult
        },
        neutral: if factions.neutral {
            spec_snapshot_step(t.neutral, prev.stack, next.stack, base)
        } else {
            t.neutral
        },
        trade_federation: if factions.trade_federation {
            spec_snapshot_step(t.trade_federation, prev.stack, next.stack, base)
        } else {
            t.trade_federation
        },
        star_empire: if factions.star_empire {
            spec_snapshot_step(t.star_empire, prev.stack, next.stack, base)
        } else {
            t.star_empire
        },
        ..t
    }
}

/// A tracker with every statistic at zero: the state a player starts in.
pub open spec fn spec_tracker_zero() -> PlayerTurnTracker {
    PlayerTurnTracker {
        common: spec_counter_zero(),
        cards_drawn: 0,
        cards_to_discard: 0,
        life_lost: 0,
        life_gained: 0,
        blob: spec_counter_zero(),
        machine_cult: spec_counter_zero(),
        neutral: spec_counter_zero(),
        trade_federation: spec_counter_zero(),
        star_empire: spec_counter_zero(),
    }
}

/// A counter set with every count at zero.
pub open spec fn spec_counter_zero() -> FactionTurnTracker {
    FactionTurnTracker {
        bases_in_play: 0,
        bases_played: 0,
        bases_discarded: 0,
        bases_scrapped: 0,
        ships_in_play: 0,
        ships_played: 0,
        ship_discarded: 0,
        ships_scrapped: 0,
    }
}

impl PlayerTurnTracker {
    /// A tracker with every statistic at zero.
    pub fn new_empty() -> (r: Self)
        ensures
            r == spec_tracker_zero(),
    {
        PlayerTurnTracker {
            common: FactionTurnTracker {
                bases_in_play: 0,
                bases_played: 0,
                bases_discarded: 0,
                bases_scrapped: 0,
                ships_in_play: 0,
                ships_played: 0,
                ship_discarded: 0,
                ships_scrapped: 0,
            },
            cards_drawn: 0,
            cards_to_discard: 0,
            life_lost: 0,
            life_gained: 0,
            blob: FactionTurnTracker {
                bases_in_play: 0,
                bases_played: 0,
                bases_discarded: 0,
                bases_scrapped: 0,
                ships_in_play: 0,
                ships_played: 0,
                ship_discarded: 0,
                ships_scrapped: 0,
            },
            machine_cult: FactionTurnTracker {
                bases_in_play: 0,
                bases_played: 0,
                bases_discarded: 0,
                bases_scrapped: 0,
                ships_in_play: 0,
                ships_played: 0,
                ship_discarded: 0,
                ships_scrapped: 0,
            },
            neutral: FactionTurnTracker {
                bases_in_play: 0,
                bases_played: 0,
                bases_discarded: 0,
                bases_scrapped: 0,
                ships_in_play: 0,
                ships_played: 0,
                ship_discarded: 0,
                ships_scrapped: 0,
            },
            trade_federation: FactionTurnTracker {
                bases_in_play: 0,
                bases_played: 0,
                bases_discarded: 0,
                bases_scrapped: 0,
                ships_in_play: 0,
                ships_played: 0,
                ship_discarded: 0,
                ships_scrapped: 0,
            },
            star_empire: FactionTurnTracker {
                bases_in_play: 0,
                bases_played: 0,
                bases_discarded: 0,
                bases_scrapped: 0,
                ships_in_play: 0,
                ships_played: 0,
                ship_discarded: 0,
                ships_scrapped: 0,
            },
        }
    }

    /// The counter set kept for the given faction.
    pub fn faction_counter(&self, f: CardFaction) -> (r: FactionTurnTracker)
        ensures
            r == spec_faction_counter(*self, f),
    {
        match f {
            CardFaction::Blob => self.blob,
            CardFaction::MachineCult => self.machine_cult,
            CardFaction::Neutral => self.neutral,
            CardFaction::TradeFederation => self.trade_federation,
            CardFaction::StarEmpire => self.star_empire,
        }
    }

    /// Resets all per-turn statistics at a turn boundary; bases stay in play
    /// and pending forced discards are kept.
    pub fn turn_finished(&mut self)
        ensures
            *final(self) == (PlayerTurnTracker {
                common: spec_turn_finished(old(self).common),
                cards_drawn: 0,
                life_lost: 0,
                life_gained: 0,
                blob: spec_turn_finished(old(self).blob),
                machine_cult: spec_turn_finished(old(self).machine_cult),
                neutral: spec_turn_finished(old(self).neutral),
                trade_federation: spec_turn_finished(old(self).trade_federation),
                star_empire: spec_turn_finished(old(self).star_empire),
                ..*old(self)
            }),
    {
        self.common.turn_finished();
        self.cards_drawn = 0;
        self.life_lost = 0;
        self.life_gained = 0;
        self.blob.turn_finished();
        self.machine_cult.turn_finished();
        self.neutral.turn_finished();
        self.trade_federation.turn_finished();
        self.star_empire.turn_finished();
    }

    /// Updates the statistics for one completed zone transition of a card
    /// carrying the given factions: entering play counts it as played and in
    /// play, leaving play counts it as discarded or scrapped per destination,
    /// and deck-to-hand moves count as draws.
    pub fn card_snapshots(
        &mut self,
        previous: &CardStateSnapshot,
        next: &CardStateSnapshot,
        factions: &CardFactions,
    )
        ensures
            *final(self) == spec_card_snapshots(*old(self), *previous, *next, *factions),
    {
        let base = previous.stack == Stacks::Bases || next.stack == Stacks::Bases;
        self.common.snapshot_step(previous.stack, next.stack, base);
        if previous.stack == Stacks::PlayerDeck && next.stack == Stacks::Hand {
            self.cards_drawn = self.cards_drawn.saturating_add(1);
        }
        if factions.blob {
            self.blob.snapshot_step(previous.stack, next.stack, base);
        }
        if factions.machine_cult {
            self.machine_cult.snapshot_step(previous.stack, next.stack, base);
        }
        if factions.neutral {
            self.neutral.snapshot_step(previous.stack, next.stack, base);
        }
        if factions.trade_federation {
            self.trade_federation.snapshot_step(previous.stack, next.stack, base);
        }
        if factions.star_empire {
            self.star_empire.snapshot_step(previous.stack, next.stack, base);
        }
    }
}

} // verus!
