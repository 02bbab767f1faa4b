//! A Pokemon TCG game engine: cards, decks, game state, rules, damage,
//! card effects and the turn state machine.
use vstd::prelude::*;

pub mod card;
pub mod state;
pub mod text;
pub mod action;
pub mod action_codec;
pub mod action_json;
pub mod error;
pub mod rules;
pub mod damage;
pub mod deck;
pub mod rng;
pub mod engine;
pub mod observe;
pub mod replay;
pub mod effects;
pub mod strategy;
pub mod sim;

verus! {

/// Number of bench slots of a player.
pub const MAX_BENCH_SIZE: usize = 5;

/// Cards in an opening hand.
pub const INITIAL_HAND_SIZE: usize = 7;

/// Prize cards set aside per player.
pub const PRIZE_CARDS: usize = 6;

/// Cards in a legal deck.
pub const MAX_DECK_SIZE: usize = 60;

} // verus!
