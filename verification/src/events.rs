//! Append-only, cursor-based log of player-intent events.
//!
//! The log gates acceptance of new intents on the current resolution state:
//! at most one event is "current" (unprocessed) at a time, new events pushed
//! while one is current are buffered behind it, and a rejected intent is
//! removed by rewinding the cursor.

use vstd::prelude::*;

verus! {

/// Where a purchased card is taken from.
#[derive(Copy, Clone, Debug, PartialEq, Eq, Structural)]
pub enum BuyFrom {
    Market(u8),
    Joker,
}

/// A player intent, as produced by the input surface.
#[derive(Copy, Clone, Debug, PartialEq, Eq)]
pub enum GameEvents {
    Setup { seed: u64, set: u8, players: u8, starting_player: u8 },
    PlayCard(u8),
    ActivateCard { base: bool, index: u32, action: u8 },
    BuyCard(BuyFrom),
    Attack { player: u8, as_much_as_possible: bool, base_index: Option<u32> },
    PassTurn,
    /// Special intent that freezes the game: no handler ever processes it.
    Freeze,
}

/// The event log: an append-only sequence with a read cursor (`head`, offset
/// by one) and a processed flag.
///
/// Invariant: the head never exceeds the log length, and exactly when the log
/// is idle (`processed` set, or head at zero) there is no current event.
pub struct GameEvent {
    processed: bool,
    flags: usize,
    head: usize,
    log: Vec<GameEvents>,
}

impl GameEvent {
    /// The events appended so far, oldest first.
    pub closed spec fn log_view(&self) -> Seq<GameEvents> {
        self.log@
    }

    /// The read cursor, offset by one: the current event, if any, sits at
    /// `head_view() - 1`.
    pub closed spec fn head_view(&self) -> int {
        self.head as int
    }

    /// Whether the event under the cursor has already been handled.
    pub closed spec fn is_processed(&self) -> bool {
        self.processed
    }

    /// The general-purpose per-event scratch word.
    pub closed spec fn flags_view(&self) -> int {
        self.flags as int
    }

    /// Idle: no unprocessed event is available.
    pub open spec fn idle(&self) -> bool {
        self.is_processed() || self.head_view() == 0
    }

    /// The head never exceeds the log length.
    pub open spec fn wf(&self) -> bool {
        0 <= self.head_view() <= self.log_view().len()
    }

    /// The current (unprocessed) event, if any.
    pub open spec fn current(&self) -> Option<GameEvents> {
        if self.idle() {
            None
        } else {
            Some(self.log_view()[self.head_view() - 1])
        }
    }

    /// How many events the log has recorded.
    pub fn len(&self) -> (r: usize)
        ensures
            r == self.log_view().len(),
    {
        self.log.len()
    }

    /// The read cursor, offset by one.
    pub fn cursor(&self) -> (r: usize)
        ensures
            r == self.head_view(),
    {
        self.head
    }

    /// The general-purpose flags word available to the current event.
    pub fn flags(&mut self) -> (r: &mut usize)
        ensures
            *r == old(self).flags_view(),
            final(self).flags_view() == *final(r),
            final(self).log_view() == old(self).log_view(),
            final(self).head_view() == old(self).head_view(),
            final(self).is_processed() == old(self).is_processed(),
    {
        &mut self.flags
    }

    /// The current event, or none while the log is idle.
    pub fn get_unprocessed(&self) -> (r: Option<&GameEvents>)
        requires
            self.wf(),
        ensures
            match r {
                Some(e) => self.current() == Some(*e),
                None => self.current() is None,
            },
            r is None <==> self.idle(),
    {
        if !self.processed && self.head > 0 {
            self.log.get(self.head - 1)
        } else {
            None
        }
    }

    /// Appends an event; if the log was idle at its tail, the new event
    /// becomes current.
    pub fn push(&mut self, event: GameEvents) -> (r: &mut Self)
        requires
            old(self).wf(),
            old(self).log_view().len() < usize::MAX,
        ensures
            *final(self) == *final(r),
            r.wf(),
            r.log_view() == old(self).log_view().push(event),
            r.flags_view() == old(self).flags_view(),
            if old(self).head_view() == 0 || (old(self).is_processed()
                && old(self).head_view() == old(self).log_view().len()) {
                r.head_view() == old(self).head_view() + 1
                    && !r.is_processed()
            } else {
                r.head_view() == old(self).head_view()
                    && r.is_processed() == old(self).is_processed()
            },
    {
        if self.head == 0 || (self.processed && self.head == self.log.len()) {
            self.processed = false;
            self.head = self.head + 1;
        }
        self.log.push(event);
        self
    }

    /// Advances past the current event if more events are queued, else marks
    /// the log idle; returns the new current event, if any.
    pub fn set_processed(&mut self) -> (r: Option<GameEvents>)
        requires
            old(self).wf(),
        ensures
            final(self).wf(),
            final(self).log_view() == old(self).log_view(),
            r == final(self).current(),
            if old(self).is_processed() {
                *final(self) == *old(self)
            } else {
                final(self).flags_view() == 0
                    && if old(self).head_view() == old(self).log_view().len() {
                        final(self).is_processed()
                            && final(self).head_view() == old(self).head_view()
                    } else {
                        final(self).head_view() == old(self).head_view() + 1
                            && final(self).is_processed() == old(self).is_processed()
                    }
            },
    {
        if !self.processed {
            self.flags = 0;
            if self.head == self.log.len() {
                self.processed = true;
            } else {
                self.head = self.head + 1;
            }
        }
        match self.get_unprocessed() {
            Some(e) => Some(*e),
            None => None,
        }
    }

    /// Removes the current event (used when a handler rejects an intent as
    /// illegal) and rewinds the cursor; returns the removed event.
    pub fn cancel(&mut self) -> (r: Option<GameEvents>)
        requires
            old(self).wf(),
        ensures
            final(self).wf(),
            if old(self).head_view() > 0 {
                r == Some(old(self).log_view()[old(self).head_view() - 1])
                    && final(self).head_view() == old(self).head_view() - 1
                    && final(self).log_view()
                        == old(self).log_view().remove(old(self).head_view() - 1)
            } else {
                r is None
                    && final(self).head_view() == old(self).head_view()
                    && final(self).log_view() == old(self).log_view()
            },
            if old(self).head_view() == old(self).log_view().len() {
                final(self).is_processed() && final(self).flags_view() == 0
            } else {
                final(self).is_processed() == old(self).is_processed()
                    && final(self).flags_view() == old(self).flags_view()
            },
    {
        if self.head == self.log.len() {
            self.flags = 0;
            self.processed = true;
        }
        if self.head > 0 {
            self.head = self.head - 1;
            Some(self.log.remove(self.head))
        } else {
            None
        }
    }
}

impl Default for GameEvent {
    /// An empty, idle log.
    fn default() -> (r: Self)
        ensures
            r.wf(),
            r.idle(),
            r.log_view() == Seq::<GameEvents>::empty(),
            r.head_view() == 0,
            !r.is_processed(),
            r.flags_view() == 0,
    {
        GameEvent { processed: false, flags: 0, head: 0, log: Vec::new() }
    }
}

} // verus!
