//! Energy card effects.

use vstd::prelude::*;

use crate::card::EnergyType;
use crate::state::{CardInstanceId, GameState, GameView};

verus! {

/// Double Turbo Energy: two Colorless, and 20 less damage.
pub fn effect_double_turbo_energy() -> (r: (Vec<EnergyType>, i32))
    ensures
        r.0@ == seq![EnergyType::Colorless, EnergyType::Colorless],
        r.1 == -20,
{
    let mut v: Vec<EnergyType> = Vec::new();
    v.push(EnergyType::Colorless);
    v.push(EnergyType::Colorless);
    proof {
        assert(v@ =~= seq![EnergyType::Colorless, EnergyType::Colorless]);
    }
    (v, -20)
}

/// Jet Energy: one Colorless.
pub fn effect_jet_energy() -> (r: Vec<EnergyType>)
    ensures
        r@ == seq![EnergyType::Colorless],
{
    let mut v: Vec<EnergyType> = Vec::new();
    v.push(EnergyType::Colorless);
    proof {
        assert(v@ =~= seq![EnergyType::Colorless]);
    }
    v
}

/// The energy provided by the card `id`, as its definition lists it.
pub open spec fn spec_provided_energy(g: GameView, id: CardInstanceId) -> Seq<EnergyType> {
    match g.def_of(id) {
        Some(d) => match d.provides_energy {
            Some(p) => p@,
            None => Seq::empty(),
        },
        None => Seq::empty(),
    }
}

/// The energy an attached card provides (none when its definition lists none).
pub fn get_provided_energy(state: &GameState, card_id: CardInstanceId) -> (r: Vec<EnergyType>)
    ensures
        r@ == spec_provided_energy(state@, card_id),
{
    match state.get_card_def(card_id) {
        Some(card_def) => match &card_def.provides_energy {
            Some(provides) => {
                let mut v: Vec<EnergyType> = Vec::new();
                let mut i: usize = 0;
                while i < provides.len()
                    invariant
                        i <= provides@.len(),
                        v@ == provides@.take(i as int),
                    decreases provides@.len() - i,
                {
                    v.push(provides[i]);
                    proof {
                        assert(provides@.take(i + 1) =~= provides@.take(i as int).push(provides@[i as int]));
                    }
                    i = i + 1;
                }
                proof {
                    assert(provides@.take(provides@.len() as int) =~= provides@);
                }
                v
            },
            None => Vec::new(),
        },
        None => Vec::new(),
    }
}

/// The damage modifier of an attached card (0 when it has none).
pub fn get_energy_damage_modifier(state: &GameState, card_id: CardInstanceId) -> (r: i32)
    ensures
        r == match state@.def_of(card_id) {
            Some(d) => match d.damage_modifier {
                Some(m) => m,
                None => 0,
            },
            None => 0,
        },
{
    match state.get_card_def(card_id) {
        Some(card_def) => match card_def.damage_modifier {
            Some(m) => m,
            None => 0,
        },
        None => 0,
    }
}

} // verus!
