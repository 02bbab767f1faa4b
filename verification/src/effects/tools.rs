//! Tool card effects.

use vstd::prelude::*;

use crate::state::{CardInstanceId, GameState, GameView, PlayerId, PlayerState, SlotRef, SlotView};

verus! {

/// Whether the Pokemon at `slot` is within 120 damage of being knocked out.
pub open spec fn spec_rescue_board(g: GameView, p: PlayerId, slot: SlotRef) -> bool {
    match g.player(p).slot(slot) {
        Some(s) => match super::common::spec_max_hp(g, s) {
            Some(hp) => s.damage + 120 >= hp,
            None => false,
        },
        None => false,
    }
}

/// Rescue Board: whether the Pokemon at `slot` has taken enough damage that
/// 120 more would knock it out (its retreat cost then drops to zero).
pub fn effect_rescue_board(state: &mut GameState, player: PlayerId, slot: SlotRef) -> (r: bool)
    requires
        player.0 < 2,
        old(state)@.player(player).slot(slot) matches Some(s) ==> s.damage + 120 <= u16::MAX,
    ensures
        final(state)@ == old(state)@,
        r == spec_rescue_board(old(state)@, player, slot),
{
    match state.players[player.0].get_slot(slot) {
        Some(pokemon) => match pokemon.top_card() {
            Some(card_id) => match state.get_card_def(card_id) {
                Some(card_def) => match card_def.hp {
                    Some(max_hp) => pokemon.damage + 120 >= max_hp,
                    None => false,
                },
                None => false,
            },
            None => false,
        },
        None => false,
    }
}

/// Defiance Band: the damage bonus it gives.
pub fn effect_defiance_band() -> (r: i32)
    ensures
        r == 40,
{
    40
}

/// Maximum Belt: the damage bonus it gives against ex Pokemon.
pub fn effect_maximum_belt() -> (r: i32)
    ensures
        r == 50,
{
    50
}

/// Choice Belt: the damage bonus it gives against V Pokemon.
pub fn effect_choice_belt() -> (r: i32)
    ensures
        r == 30,
{
    30
}

/// Forest Seal Stone: its VSTAR power is tracked elsewhere; always true.
pub fn effect_forest_seal_stone() -> (r: bool)
    ensures
        r,
{
    true
}

/// The player after the Pokemon at `slot` (if any) loses all its energy.
pub open spec fn spec_strip_energy(pv: crate::state::PlayerView, slot: SlotRef) -> crate::state::PlayerView {
    match pv.slot(slot) {
        Some(s) => pv.with_slot(slot, Some(SlotView { energies: Seq::empty(), ..s })),
        None => pv,
    }
}

/// Heavy Baton: take all energy cards off the Pokemon at `slot` and return
/// them in order (none when the slot is empty).
pub fn effect_heavy_baton(state: &mut GameState, player: PlayerId, slot: SlotRef) -> (r: Vec<CardInstanceId>)
    requires
        player.0 < 2,
    ensures
        r@ == match old(state)@.player(player).slot(slot) {
            Some(s) => s.energies,
            None => Seq::empty(),
        },
        final(state)@ == old(state)@.with_player(player, spec_strip_energy(old(state)@.player(player), slot)),
{
    let ps = &mut state.players[player.0];
    let ghost p0 = ps@;
    let r = match ps.take_slot(slot) {
        Some(mut pokemon) => {
            let ghost s0 = pokemon@;
            let mut energies: Vec<CardInstanceId> = Vec::new();
            std::mem::swap(&mut energies, &mut pokemon.energies);
            ps.put_slot(slot, Some(pokemon));
            proof {
                crate::state::lemma_with_slot_twice(p0, slot, None, Some(pokemon@));
                assert(pokemon@ == (SlotView { energies: Seq::empty(), ..s0 }));
            }
            energies
        },
        None => {
            proof {
                crate::state::lemma_with_slot_none(p0, slot);
            }
            Vec::new()
        },
    };
    proof {
        assert(state@.players =~= old(state)@.players.update(player.0 as int, state.players@[player.0 as int]@));
    }
    r
}

} // verus!
