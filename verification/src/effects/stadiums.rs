//! Stadium card effects.

use vstd::prelude::*;

use crate::card::str_eq;
use crate::state::{GameState, GameView, PlayerId};
use crate::MAX_BENCH_SIZE;

verus! {

/// Whether the stadium on the side of `p` has definition identifier `key`.
pub open spec fn stadium_is(g: GameView, p: PlayerId, key: Seq<char>) -> bool {
    match g.player(p).stadium {
        Some(st) => match g.card(st.card_id) {
            Some(c) => c.def_id.0@ == key,
            None => false,
        },
        None => false,
    }
}

fn stadium_def_is(state: &GameState, player: PlayerId, key: &str) -> (r: bool)
    requires
        player.0 < 2,
    ensures
        r == stadium_is(state@, player, key@),
{
    match &state.players[player.0].stadium {
        Some(stadium) => match state.get_card(stadium.card_id) {
            Some(card) => str_eq(card.def_id.0.as_str(), key),
            None => false,
        },
        None => false,
    }
}

/// Artazon: whether it is the stadium in play on the side of `player`.
pub fn effect_artazon(state: &GameState, player: PlayerId) -> (r: bool)
    requires
        player.0 < 2,
    ensures
        r == stadium_is(state@, player, "CSV2C_127"@),
{
    stadium_def_is(state, player, "CSV2C_127")
}

/// The bench size on the side of `p`: 3 under Collapsed Stadium or Gravity
/// Mountain, 5 otherwise.
pub open spec fn spec_bench_limit(g: GameView, p: PlayerId) -> usize {
    if stadium_is(g, p, "CS6.5C_071"@) || stadium_is(g, p, "CSV7C_201"@) {
        3
    } else {
        MAX_BENCH_SIZE
    }
}

/// Collapsed Stadium / Gravity Mountain: the bench size they leave.
pub fn effect_bench_limit(state: &GameState, player: PlayerId) -> (r: usize)
    requires
        player.0 < 2,
    ensures
        r == spec_bench_limit(state@, player),
{
    if stadium_def_is(state, player, "CS6.5C_071") || stadium_def_is(state, player, "CSV7C_201") {
        3
    } else {
        MAX_BENCH_SIZE
    }
}

/// Lost City: whether it is the stadium in play on the side of `player`.
pub fn effect_lost_city(state: &GameState, player: PlayerId) -> (r: bool)
    requires
        player.0 < 2,
    ensures
        r == stadium_is(state@, player, "CSV6bC_130"@),
{
    stadium_def_is(state, player, "CSV6bC_130")
}

} // verus!
