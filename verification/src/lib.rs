//! Core turn/action resolution engine for a two-player deck-building card
//! game: an append-only event log of player intents, a FIFO routine scheduler
//! that sequences multi-tick board mutations (draw, shuffle, discard, market
//! reload, zone moves), and the card-action execution model (conditions,
//! action sets, choices and targeted selections), all over an arena of card
//! instances grouped into per-owner zones.
//!
//! Rendering, input capture and asset loading are external collaborators: the
//! engine consumes plain intent values and exposes plain state transitions.

pub mod actions;
pub mod arith;
pub mod board;
pub mod cards;
pub mod choice;
pub mod events;
pub mod execute;
pub mod handlers;
pub mod input;
pub mod laws;
pub mod rng;
pub mod routines;
pub mod stacks;
pub mod state;
pub mod states;
pub mod steps;
pub mod tracker;
