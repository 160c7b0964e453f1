//! The whole game state: the card arena, the event log, the routine queue,
//! per-player counters and statistics, the interaction surfaces, and the
//! issued zone transitions together with the listener that completes them.

use vstd::prelude::*;
use crate::actions::{spec_cleared, CardActions};
use crate::board::{CardDef, CardInstance, StartTransition};
use crate::cards::{CardOwners, CardVisibility, KindMask};
use crate::choice::ChoicePrompt;
use crate::events::GameEvent;
use crate::routines::RoutineManager;
use crate::stacks::Stacks;
use crate::states::{GameStates, TurnStates};
use crate::tracker::{spec_card_snapshots, spec_tracker_zero, CardStateSnapshot, PlayerTurnTracker};

verus! {

/// The number of players a game holds.
pub const MAXIMUM_PLAYERS: u8 = 2;

/// The life every player starts with.
pub const STARTING_LIFE: i64 = 50;

/// When set, the next purchased card whose kind passes the mask goes on top
/// of the buyer's deck instead of the discard pile, and the flag clears.
#[derive(Copy, Clone, Debug, PartialEq, Eq, Structural)]
pub struct NextBuyOnDeckFlag(pub KindMask);

impl Default for NextBuyOnDeckFlag {
    /// The cleared flag: no purchase is redirected.
    fn default() -> (r: Self)
        ensures
            r == NextBuyOnDeckFlag(KindMask::NoKinds),
    {
        NextBuyOnDeckFlag(KindMask::NoKinds)
    }
}

/// One player's counters: life, and the attack and economy accumulated this
/// turn, plus the turn statistics the zone-transition listener maintains.
#[derive(Copy, Clone, Debug, Default, PartialEq, Eq, Structural)]
pub struct PlayerState {
    pub life: i64,
    pub attack: i64,
    pub economy: i64,
    pub tracker: PlayerTurnTracker,
}

/// The state of the card-selection surface: the picked cards of the finished
/// selection, and the cardinality bounds of the open one.
#[derive(Clone, Debug, Default)]
pub struct Selection {
    pub cards: Vec<usize>,
    pub finished: bool,
    pub min: usize,
    pub max: usize,
}

/// The static data of one game set, as the external loader hands it over:
/// each deck is a list of (quantity, card definition) pairs.
#[derive(Clone, Debug)]
pub struct GameSet {
    pub market_deck: Vec<(u32, CardDef)>,
    pub player_deck: Vec<(u32, CardDef)>,
    pub joker_deck: Vec<(u32, CardDef)>,
}

/// The whole game: every component the turn/action resolution engine reads
/// or mutates. Exactly one handler or routine step touches it per tick.
pub struct GameState {
    /// The card arena: handles are indices and stay stable for a whole game.
    pub cards: Vec<CardInstance>,
    /// The append-only log of player intents.
    pub events: GameEvent,
    /// The FIFO queue of in-flight routines.
    pub routines: RoutineManager,
    /// Whose turn it is.
    pub turn: TurnStates,
    /// Which interaction surface is active.
    pub mode: GameStates,
    /// The first player's counters and statistics.
    pub p0: PlayerState,
    /// The second player's counters and statistics.
    pub p1: PlayerState,
    /// The pending purchase redirection.
    pub next_buy_on_deck: NextBuyOnDeckFlag,
    /// The card-selection surface.
    pub selection: Selection,
    /// The open choice prompt, if any.
    pub choice: Option<ChoicePrompt>,
    /// Issued zone transitions not yet completed by the animation
    /// collaborator, oldest first.
    pub pending: Vec<StartTransition>,
    /// The player this instance renders face up.
    pub local_player: u8,
    /// The deterministic generator behind the shuffles, seeded by the setup
    /// intent. Opaque: contracts can only say it is left alone or replaced.
    pub rng: rand::rngs::StdRng,
}

/// The resolved (owner, zone, index, visibility) state of a card.
pub open spec fn spec_snapshot(c: CardInstance) -> CardStateSnapshot {
    CardStateSnapshot { owner: c.owner, stack: c.stack, index: c.index, visibility: c.visibility }
}

/// The state a transition resolves its card to.
pub open spec fn spec_target_snapshot(t: StartTransition) -> CardStateSnapshot {
    CardStateSnapshot { owner: t.owner, stack: t.stack, index: t.index, visibility: t.visibility }
}

/// The card after its transition completes: it sits at the target, and its
/// used-action flags reset when the move dropped it into a discard pile or
/// the scrapyard.
pub open spec fn spec_card_after(c: CardInstance, t: StartTransition) -> CardInstance {
    CardInstance {
        owner: t.owner,
        stack: t.stack,
        index: t.index,
        visibility: t.visibility,
        actions: if spec_snapshot(c) != spec_target_snapshot(t)
            && (t.stack == Stacks::DiscardPile || t.stack == Stacks::Scrapyard) {
            spec_cleared(c.actions)
        } else {
            c.actions
        },
        ..c
    }
}

/// The turn statistics of player `p` after the card's transition completes:
/// the listener updates the owner the card leaves, and the owner it joins
/// when the move changes owners.
pub open spec fn spec_tracker_after(
    tr: PlayerTurnTracker,
    p: u8,
    c: CardInstance,
    t: StartTransition,
) -> PlayerTurnTracker {
    let prev = spec_snapshot(c);
    let next = spec_target_snapshot(t);
    if prev != next && (prev.owner == CardOwners::Player(p)
        || (next.owner == CardOwners::Player(p) && next.owner != prev.owner)) {
        spec_card_snapshots(tr, prev, next, c.factions)
    } else {
        tr
    }
}

/// The arena and both players' statistics after one issued transition
/// completes; a transition whose card handle is stale changes nothing.
pub open spec fn spec_complete_one(
    cards: Seq<CardInstance>,
    t0: PlayerTurnTracker,
    t1: PlayerTurnTracker,
    t: StartTransition,
) -> (Seq<CardInstance>, PlayerTurnTracker, PlayerTurnTracker) {
    if t.card >= cards.len() {
        (cards, t0, t1)
    } else {
        let c = cards[t.card as int];
        (
            cards.update(t.card as int, spec_card_after(c, t)),
            spec_tracker_after(t0, 0, c, t),
            spec_tracker_after(t1, 1, c, t),
        )
    }
}

/// The arena and statistics after a whole list of issued transitions
/// completes, oldest first.
pub open spec fn spec_complete_fold(
    cards: Seq<CardInstance>,
    t0: PlayerTurnTracker,
    t1: PlayerTurnTracker,
    ts: Seq<StartTransition>,
) -> (Seq<CardInstance>, PlayerTurnTracker, PlayerTurnTracker)
    decreases ts.len(),
{
    if ts.len() == 0 {
        (cards, t0, t1)
    } else {
        let step = spec_complete_one(cards, t0, t1, ts[0]);
        spec_complete_fold(step.0, step.1, step.2, ts.skip(1))
    }
}

/// The player's counters after an economy gain.
pub open spec fn spec_gain_eco(ps: PlayerState, qty: u8) -> PlayerState {
    PlayerState { economy: crate::arith::spec_sat_add_i64(ps.economy, qty as i64), ..ps }
}

/// The player's counters after an attack gain.
pub open spec fn spec_gain_atk(ps: PlayerState, qty: u8) -> PlayerState {
    PlayerState { attack: crate::arith::spec_sat_add_i64(ps.attack, qty as i64), ..ps }
}

/// The player's counters after a life gain.
pub open spec fn spec_gain_life(ps: PlayerState, qty: u8) -> PlayerState {
    PlayerState { life: crate::arith::spec_sat_add_i64(ps.life, qty as i64), ..ps }
}

impl GameState {
    /// Everything but the arena, the trackers and the pending transitions is
    /// the same in both states.
    pub open spec fn same_but_completion(self, other: GameState) -> bool {
        &&& self.events == other.events
        &&& self.routines == other.routines
        &&& self.turn == other.turn
        &&& self.mode == other.mode
        &&& self.p0.life == other.p0.life
        &&& self.p0.attack == other.p0.attack
        &&& self.p0.economy == other.p0.economy
        &&& self.p1.life == other.p1.life
        &&& self.p1.attack == other.p1.attack
        &&& self.p1.economy == other.p1.economy
        &&& self.next_buy_on_deck == other.next_buy_on_deck
        &&& self.selection == other.selection
        &&& self.choice == other.choice
        &&& self.local_player == other.local_player
    }

    /// The fields the action interpreter never touches: the arena, the log,
    /// the turn, the mode, the prompt, the issued transitions and the
    /// generator.
    pub open spec fn action_frame(self, other: GameState) -> bool {
        &&& self.cards == other.cards
        &&& self.events == other.events
        &&& self.turn == other.turn
        &&& self.mode == other.mode
        &&& self.choice == other.choice
        &&& self.pending == other.pending
        &&& self.local_player == other.local_player
        &&& self.rng == other.rng
    }

    /// Both players' counters and statistics are the same in both states.
    pub open spec fn same_players(self, other: GameState) -> bool {
        self.p0 == other.p0 && self.p1 == other.p1
    }

    /// The selection surface is the same in both states.
    pub open spec fn same_selection(self, other: GameState) -> bool {
        self.selection == other.selection
    }

    /// A fresh game awaiting its setup intent: an empty board, an idle log,
    /// an empty routine queue, both players at the starting life with no
    /// resources, and every surface closed.
    pub fn new() -> (r: Self)
        ensures
            r.cards@.len() == 0,
            r.events.wf(),
            r.events.idle(),
            r.events.log_view().len() == 0,
            r.routines.queue().len() == 0,
            r.turn == TurnStates::Setup,
            r.mode == GameStates::MainLoop,
            r.p0 == (PlayerState {
                life: STARTING_LIFE,
                attack: 0,
                economy: 0,
                tracker: spec_tracker_zero(),
            }),
            r.p1 == r.p0,
            r.next_buy_on_deck == NextBuyOnDeckFlag(KindMask::NoKinds),
            r.selection.cards@.len() == 0,
            !r.selection.finished,
            r.selection.min == 0,
            r.selection.max == 0,
            r.choice is None,
            r.pending@.len() == 0,
            r.local_player == 0,
    {
        GameState {
            cards: Vec::new(),
            events: Default::default(),
            routines: RoutineManager(std::collections::VecDeque::new()),
            turn: TurnStates::Setup,
            mode: GameStates::MainLoop,
            p0: PlayerState {
                life: STARTING_LIFE,
                attack: 0,
                economy: 0,
                tracker: PlayerTurnTracker::new_empty(),
            },
            p1: PlayerState {
                life: STARTING_LIFE,
                attack: 0,
                economy: 0,
                tracker: PlayerTurnTracker::new_empty(),
            },
            next_buy_on_deck: NextBuyOnDeckFlag(KindMask::NoKinds),
            selection: Selection { cards: Vec::new(), finished: false, min: 0, max: 0 },
            choice: None,
            pending: Vec::new(),
            local_player: 0,
            rng: crate::rng::rng_from_seed(0),
        }
    }

    /// Replaces the deterministic generator behind the shuffles.
    pub fn reseed(&mut self, seed: u64)
        ensures
            final(self).cards == old(self).cards,
            final(self).events == old(self).events,
            final(self).routines == old(self).routines,
            final(self).turn == old(self).turn,
            final(self).mode == old(self).mode,
            final(self).p0 == old(self).p0,
            final(self).p1 == old(self).p1,
            final(self).next_buy_on_deck == old(self).next_buy_on_deck,
            final(self).selection == old(self).selection,
            final(self).choice == old(self).choice,
            final(self).pending == old(self).pending,
            final(self).local_player == old(self).local_player,
    {
        self.rng = crate::rng::rng_from_seed(seed);
    }

    /// Applies one click of the choice surface to the open prompt, given the
    /// hovered widget; a click while no prompt is open does nothing.
    pub fn choice_click(&mut self, hovered: Option<crate::choice::ChoiceTarget>)
        ensures
            match old(self).choice {
                Some(p) => {
                    let stepped = crate::choice::spec_choice_clicks(p@, hovered, old(self).mode);
                    final(self).choice matches Some(np) && np@ == stepped.0
                        && final(self).mode == stepped.1
                        && *final(self) == (GameState {
                            choice: final(self).choice,
                            mode: final(self).mode,
                            ..*old(self)
                        })
                },
                None => *final(self) == *old(self),
            },
    {
        match &mut self.choice {
            Some(prompt) => {
                crate::choice::handle_choice_clicks(prompt, hovered, &mut self.mode);
            },
            None => {},
        }
    }

    /// One player's counters.
    pub fn player(&self, p: u8) -> (r: PlayerState)
        requires
            p < MAXIMUM_PLAYERS,
        ensures
            r == if p == 0 { self.p0 } else { self.p1 },
    {
        if p == 0 {
            self.p0
        } else {
            self.p1
        }
    }

    /// Completes the oldest issued transition, if any: the card resolves to
    /// its target, the listener updates the turn statistics, and a card that
    /// landed in a discard pile or the scrapyard gets its used flags back.
    pub fn complete_next_transition(&mut self) -> (progress: bool)
        ensures
            old(self).same_but_completion(*final(self)),
            final(self).rng == old(self).rng,
            progress == (old(self).pending@.len() > 0),
            if progress {
                final(self).pending@ == old(self).pending@.skip(1)
                    && (final(self).cards@, final(self).p0.tracker, final(self).p1.tracker)
                        == spec_complete_one(
                            old(self).cards@,
                            old(self).p0.tracker,
                            old(self).p1.tracker,
                            old(self).pending@[0],
                        )
            } else {
                final(self).pending@ == old(self).pending@
                    && final(self).cards@ == old(self).cards@
                    && final(self).p0.tracker == old(self).p0.tracker
                    && final(self).p1.tracker == old(self).p1.tracker
            },
    {
        if self.pending.len() == 0 {
            return false;
        }
        let t = self.pending.remove(0);
        if t.card < self.cards.len() {
            let c = self.cards[t.card];
            let prev = CardStateSnapshot {
                owner: c.owner,
                stack: c.stack,
                index: c.index,
                visibility: c.visibility,
            };
            let next = CardStateSnapshot {
                owner: t.owner,
                stack: t.stack,
                index: t.index,
                visibility: t.visibility,
            };
            let mut nc = c;
            nc.owner = t.owner;
            nc.stack = t.stack;
            nc.index = t.index;
            nc.visibility = t.visibility;
            if prev != next {
                if t.stack == Stacks::DiscardPile || t.stack == Stacks::Scrapyard {
                    nc.actions = crate::actions::cleared(nc.actions);
                }
                match prev.owner {
                    CardOwners::Player(p) => {
                        if p == 0 {
                            self.p0.tracker.card_snapshots(&prev, &next, &c.factions);
                        } else if p == 1 {
                            self.p1.tracker.card_snapshots(&prev, &next, &c.factions);
                        }
                    },
                    CardOwners::Market => {},
                }
                if next.owner != prev.owner {
                    match next.owner {
                        CardOwners::Player(p) => {
                            if p == 0 {
                                self.p0.tracker.card_snapshots(&prev, &next, &c.factions);
                            } else if p == 1 {
                                self.p1.tracker.card_snapshots(&prev, &next, &c.factions);
                            }
                        },
                        CardOwners::Market => {},
                    }
                }
            }
            self.cards.set(t.card, nc);
        }
        true
    }

    /// Completes every issued transition, oldest first: the synchronous
    /// resolution a headless host or a test harness uses between ticks.
    pub fn complete_all_transitions(&mut self)
        ensures
            old(self).same_but_completion(*final(self)),
            final(self).rng == old(self).rng,
            final(self).pending@.len() == 0,
            (final(self).cards@, final(self).p0.tracker, final(self).p1.tracker)
                == spec_complete_fold(
                    old(self).cards@,
                    old(self).p0.tracker,
                    old(self).p1.tracker,
                    old(self).pending@,
                ),
    {
        loop
            invariant
                old(self).same_but_completion(*self),
                self.rng == old(self).rng,
                spec_complete_fold(self.cards@, self.p0.tracker, self.p1.tracker, self.pending@)
                    == spec_complete_fold(
                        old(self).cards@,
                        old(self).p0.tracker,
                        old(self).p1.tracker,
                        old(self).pending@,
                    ),
            decreases self.pending@.len(),
        {
            let progress = self.complete_next_transition();
            if !progress {
                return;
            }
        }
    }

    /// Draws a shuffled assignment of the indices `0 .. n` from the
    /// generator.
    pub fn shuffled_indices(&mut self, n: usize) -> (r: Vec<usize>)
        ensures
            final(self).cards == old(self).cards,
            final(self).events == old(self).events,
            final(self).routines == old(self).routines,
            final(self).turn == old(self).turn,
            final(self).mode == old(self).mode,
            final(self).p0 == old(self).p0,
            final(self).p1 == old(self).p1,
            final(self).next_buy_on_deck == old(self).next_buy_on_deck,
            final(self).selection == old(self).selection,
            final(self).choice == old(self).choice,
            final(self).pending == old(self).pending,
            final(self).local_player == old(self).local_player,
            r@.len() == n,
            forall|k: int| 0 <= k < n ==> #[trigger] r@.contains(k as usize),
            forall|i: int, j: int| 0 <= i < j < n ==> r@[i] != r@[j],
            forall|i: int| 0 <= i < n ==> r@[i] < n,
    {
        let mut v: Vec<usize> = Vec::new();
        let mut i: usize = 0;
        while i < n
            invariant
                i <= n,
                v@.len() == i,
                forall|j: int| 0 <= j < i ==> v@[j] == j,
            decreases n - i,
        {
            v.push(i);
            i = i + 1;
        }
        proof {
            assert(v@ =~= Seq::new(n as nat, |k: int| k as usize));
        }
        crate::rng::shuffle_indices(&mut v, &mut self.rng);
        proof {
            lemma_permutation_of_identity(v@, n as nat);
        }
        v
    }
}

/// A sequence whose multiset equals the identity assignment `0 .. n` has
/// length `n`, holds every value below `n`, and holds no value twice.
proof fn lemma_permutation_of_identity(s: Seq<usize>, n: nat)
    requires
        n <= usize::MAX,
        s.to_multiset() == Seq::new(n, |k: int| k as usize).to_multiset(),
    ensures
        s.len() == n,
        forall|k: int| 0 <= k < n ==> #[trigger] s.contains(k as usize),
        forall|i: int, j: int| 0 <= i < j < s.len() ==> s[i] != s[j],
        forall|i: int| 0 <= i < s.len() ==> s[i] < n,
{
    let ident = Seq::new(n, |k: int| k as usize);
    s.to_multiset_ensures();
    ident.to_multiset_ensures();
    assert(s.len() == n) by {
        assert(s.to_multiset().len() == ident.to_multiset().len());
    }
    assert forall|k: int| 0 <= k < n implies #[trigger] s.contains(k as usize) by {
        assert(ident[k] == k as usize);
        assert(ident.to_multiset().count(k as usize) > 0);
        assert(s.to_multiset().count(k as usize) > 0);
    }
    assert forall|i: int| 0 <= i < s.len() implies s[i] < n by {
        assert(s.to_multiset().count(s[i]) > 0);
        assert(ident.to_multiset().count(s[i]) > 0);
        assert(ident.contains(s[i]));
        let k = choose|k: int| 0 <= k < n && ident[k] == s[i];
        assert(s[i] == k as usize);
    }
    assert(ident.no_duplicates());
    ident.lemma_multiset_has_no_duplicates();
    s.lemma_multiset_has_no_duplicates_conv();
}

} // verus!
