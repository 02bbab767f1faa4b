//! Damage of an attack, with modifiers, weakness and resistance.

use vstd::prelude::*;

use crate::card::{str_eq, CardDef, EnergyType};
use crate::state::{spec_top_card, GameState, GameView, PlayerId, PlayerView, PokemonSlot, SlotRef, SlotView};

verus! {

/// The Pokemon in `s` is a Miraidon ex (definition `CSV1C_050`).
pub open spec fn is_miraidon_slot(g: GameView, s: Option<SlotView>) -> bool {
    match s {
        Some(sv) => match spec_top_card(sv) {
            Some(id) => match g.def_of(id) {
                Some(d) => d.id.0@ == "CSV1C_050"@,
                None => false,
            },
            None => false,
        },
        None => false,
    }
}

/// Number of Miraidon ex on a bench.
pub open spec fn count_miraidon(g: GameView, bench: Seq<Option<SlotView>>) -> nat
    decreases bench.len(),
{
    if bench.len() == 0 {
        0
    } else {
        count_miraidon(g, bench.drop_last()) + if is_miraidon_slot(g, bench.last()) {
            1nat
        } else {
            0nat
        }
    }
}

pub proof fn lemma_count_miraidon_bound(g: GameView, bench: Seq<Option<SlotView>>)
    ensures
        count_miraidon(g, bench) <= bench.len(),
    decreases bench.len(),
{
    if bench.len() > 0 {
        lemma_count_miraidon_bound(g, bench.drop_last());
    }
}

/// The damage modifier of a card definition (0 when unknown or absent).
pub open spec fn def_modifier(d: Option<CardDef>) -> int {
    match d {
        Some(def) => match def.damage_modifier {
            Some(m) => m as int,
            None => 0,
        },
        None => 0,
    }
}

/// Damage modifier of the tool attached to the Pokemon in `s`.
pub open spec fn tool_modifier(g: GameView, s: Option<SlotView>) -> int {
    match s {
        Some(sv) => match sv.tool {
            Some(t) => def_modifier(g.def_of(t)),
            None => 0,
        },
        None => 0,
    }
}

/// The Pokemon at `slot` of player `p` is of Lightning type.
pub open spec fn is_lightning_attacker(g: GameView, p: PlayerId, slot: SlotRef) -> bool {
    match g.slot_def(p, slot) {
        Some(d) => d.energy_type == Some(EnergyType::Lightning),
        None => false,
    }
}

/// Miraidon ex in play (bench and active) of player `p`.
pub open spec fn miraidon_count(g: GameView, p: PlayerId) -> nat {
    count_miraidon(g, g.player(p).bench) + if is_miraidon_slot(g, g.player(p).active) {
        1nat
    } else {
        0nat
    }
}

/// Attacker modifier: +30 for each Miraidon ex in play when the attacker is of
/// Lightning type, plus the modifier of the attacker's tool.
pub open spec fn spec_attacker_modifier(g: GameView, p: PlayerId, slot: SlotRef) -> int {
    (if is_lightning_attacker(g, p, slot) {
        30 * miraidon_count(g, p)
    } else {
        0
    }) + tool_modifier(g, g.player(p).slot(slot))
}

/// Defender modifier: the modifier of the defender's stadium plus that of its tool.
pub open spec fn spec_defender_modifier(g: GameView, p: PlayerId, slot: SlotRef) -> int {
    (match g.player(p).stadium {
        Some(st) => def_modifier(g.def_of(st.card_id)),
        None => 0,
    }) + tool_modifier(g, g.player(p).slot(slot))
}

/// Weakness term: what a weakness adds to the base damage when the
/// attacker's type is the defender's weakness, so that a multiplier of 2
/// doubles it: `(multiplier - 1) * base`.
pub open spec fn weakness_term(atk: CardDef, def: CardDef, base: u16) -> int {
    match def.weakness {
        Some(w) => match atk.energy_type {
            Some(t) => if t == w.energy_type {
                w.multiplier * base - base
            } else {
                0
            },
            None => 0,
        },
        None => 0,
    }
}

/// Resistance term: the (negative) multiplier when the attacker's type is the
/// defender's resistance.
pub open spec fn resistance_term(atk: CardDef, def: CardDef) -> int {
    match def.resistance {
        Some(r) => match atk.energy_type {
            Some(t) => if t == r.energy_type {
                r.multiplier as int
            } else {
                0
            },
            None => 0,
        },
        None => 0,
    }
}

/// The raw damage before it is clamped at 0.
pub open spec fn raw_damage(g: GameView, a: PlayerId, aslot: SlotRef, d: PlayerId, dslot: SlotRef, base: u16, atk: CardDef, def: CardDef) -> int {
    base + spec_attacker_modifier(g, a, aslot) - spec_defender_modifier(g, d, dslot) + weakness_term(atk, def, base)
        + resistance_term(atk, def)
}

pub open spec fn in_i32(x: int) -> bool {
    i32::MIN <= x <= i32::MAX
}

/// Every intermediate value of the damage computation fits in an `i32`.
pub open spec fn damage_fits(g: GameView, a: PlayerId, aslot: SlotRef, d: PlayerId, dslot: SlotRef, base: u16) -> bool {
    match (g.slot_def(a, aslot), g.slot_def(d, dslot)) {
        (Some(atk), Some(def)) => {
            let am = spec_attacker_modifier(g, a, aslot);
            let dm = spec_defender_modifier(g, d, dslot);
            let s1 = base + am;
            let s2 = s1 - dm;
            let s3 = s2 + weakness_term(atk, def, base);
            &&& in_i32(am)
            &&& in_i32(dm)
            &&& in_i32(s1)
            &&& in_i32(s2)
            &&& (match def.weakness {
                Some(w) => in_i32(w.multiplier * base),
                None => true,
            })
            &&& in_i32(s3)
            &&& in_i32(s3 + resistance_term(atk, def))
        },
        _ => true,
    }
}

/// The damage an attack of base damage `base` deals: `base` when either Pokemon
/// or its definition is missing; otherwise the raw damage clamped at 0 and
/// read as a `u16`.
pub open spec fn spec_damage(g: GameView, a: PlayerId, aslot: SlotRef, d: PlayerId, dslot: SlotRef, base: u16) -> u16 {
    match (g.slot_def(a, aslot), g.slot_def(d, dslot)) {
        (Some(atk), Some(def)) => {
            let raw = raw_damage(g, a, aslot, d, dslot, base, atk, def);
            if raw < 0 {
                0
            } else {
                raw as u16
            }
        },
        _ => base,
    }
}

/// The damage of a hit of base damage `base` on a bench Pokemon: `base` when
/// either Pokemon or its definition is missing; otherwise the base with the
/// attacker's and defender's modifiers, without weakness or resistance,
/// clamped at 0.
pub open spec fn spec_bench_damage(g: GameView, a: PlayerId, aslot: SlotRef, d: PlayerId, dslot: SlotRef, base: u16) -> u16 {
    match (g.slot_def(a, aslot), g.slot_def(d, dslot)) {
        (Some(atk), Some(def)) => {
            let raw = base + spec_attacker_modifier(g, a, aslot) - spec_defender_modifier(g, d, dslot);
            if raw < 0 {
                0
            } else {
                raw as u16
            }
        },
        _ => base,
    }
}

/// Every intermediate value of the bench damage computation fits in an `i32`.
pub open spec fn bench_damage_fits(g: GameView, a: PlayerId, aslot: SlotRef, d: PlayerId, dslot: SlotRef, base: u16) -> bool {
    match (g.slot_def(a, aslot), g.slot_def(d, dslot)) {
        (Some(atk), Some(def)) => {
            let am = spec_attacker_modifier(g, a, aslot);
            let dm = spec_defender_modifier(g, d, dslot);
            &&& in_i32(am)
            &&& in_i32(dm)
            &&& in_i32(base + am)
            &&& in_i32(base + am - dm)
        },
        _ => true,
    }
}

fn slot_top_def<'a>(state: &'a GameState, s: &PokemonSlot) -> (r: Option<&'a CardDef>)
    ensures
        match r {
            Some(d) => match spec_top_card(s@) {
                Some(id) => state@.def_of(id) == Some(*d),
                None => false,
            },
            None => match spec_top_card(s@) {
                Some(id) => state@.def_of(id) is None,
                None => true,
            },
        },
{
    match s.top_card() {
        Some(id) => state.get_card_def(id),
        None => None,
    }
}

fn is_miraidon(state: &GameState, s: &Option<PokemonSlot>) -> (r: bool)
    ensures
        r == is_miraidon_slot(state@, crate::state::opt_slot_view(*s)),
{
    match s {
        Some(p) => match slot_top_def(state, p) {
            Some(d) => str_eq(d.id.0.as_str(), "CSV1C_050"),
            None => false,
        },
        None => false,
    }
}

fn tool_mod(state: &GameState, s: Option<&PokemonSlot>) -> (r: i64)
    ensures
        r == tool_modifier(state@, crate::state::opt_slot_view(match s {
            Some(x) => Some(*x),
            None => None,
        })),
{
    match s {
        Some(p) => match p.tool {
            Some(t) => match state.get_card_def(t) {
                Some(d) => match d.damage_modifier {
                    Some(m) => m as i64,
                    None => 0,
                },
                None => 0,
            },
            None => 0,
        },
        None => 0,
    }
}

/// Damage calculator.
#[derive(Debug, Clone, Copy)]
pub struct DamageCalculator;

impl Default for DamageCalculator {
    fn default() -> (r: Self) {
        DamageCalculator
    }
}

impl DamageCalculator {
    pub fn new() -> (r: Self) {
        DamageCalculator
    }

    /// Damage of an attack with base damage `base_damage` from the Pokemon at
    /// `attacker_slot` of `attacker` to the one at `defender_slot` of `defender`.
    pub fn calculate_damage(
        &self,
        state: &GameState,
        attacker: PlayerId,
        attacker_slot: SlotRef,
        defender: PlayerId,
        defender_slot: SlotRef,
        base_damage: u16,
    ) -> (r: u16)
        requires
            attacker.0 < 2,
            defender.0 < 2,
            state@.wf(),
            damage_fits(state@, attacker, attacker_slot, defender, defender_slot, base_damage),
        ensures
            r == spec_damage(state@, attacker, attacker_slot, defender, defender_slot, base_damage),
    {
        let attacker_pokemon = match state.players[attacker.0].get_slot(attacker_slot) {
            Some(p) => p,
            None => return base_damage,
        };
        let defender_pokemon = match state.players[defender.0].get_slot(defender_slot) {
            Some(p) => p,
            None => return base_damage,
        };
        let attacker_def = match slot_top_def(state, attacker_pokemon) {
            Some(d) => d,
            None => return base_damage,
        };
        let defender_def = match slot_top_def(state, defender_pokemon) {
            Some(d) => d,
            None => return base_damage,
        };
        let mut damage: i64 = base_damage as i64;
        damage = damage + self.get_attacker_modifier(state, attacker, attacker_slot, attacker_def);
        damage = damage - self.get_defender_modifier(state, defender, defender_slot, defender_def);
        match defender_def.weakness {
            Some(w) => match attacker_def.energy_type {
                Some(t) => {
                    if t == w.energy_type {
                        let prod: i64 = w.multiplier as i64 * base_damage as i64;
                        damage = damage + (prod - base_damage as i64);
                    }
                },
                None => {},
            },
            None => {},
        }
        match defender_def.resistance {
            Some(res) => match attacker_def.energy_type {
                Some(t) => {
                    if t == res.energy_type {
                        damage = damage + res.multiplier as i64;
                    }
                },
                None => {},
            },
            None => {},
        }
        if damage < 0 {
            0
        } else {
            damage as u16
        }
    }

    /// Modifier of the attacking Pokemon (Miraidon ex in play boost Lightning
    /// attackers by 30 each; the attacker's tool adds its modifier).
    pub fn get_attacker_modifier(&self, state: &GameState, player: PlayerId, slot: SlotRef, _def: &CardDef) -> (r: i64)
        requires
            player.0 < 2,
            state@.wf(),
            in_i32(spec_attacker_modifier(state@, player, slot)),
        ensures
            r == spec_attacker_modifier(state@, player, slot),
    {
        attacker_modifier_value(state, player, slot)
    }

    /// Modifier of the defending Pokemon: its player's stadium and its tool.
    pub fn get_defender_modifier(&self, state: &GameState, player: PlayerId, slot: SlotRef, _def: &CardDef) -> (r: i64)
        requires
            player.0 < 2,
        ensures
            r == spec_defender_modifier(state@, player, slot),
    {
        let player_state = &state.players[player.0];
        let stadium_mod: i64 = match player_state.stadium {
            Some(st) => match state.get_card_def(st.card_id) {
                Some(d) => match d.damage_modifier {
                    Some(m) => m as i64,
                    None => 0,
                },
                None => 0,
            },
            None => 0,
        };
        stadium_mod + tool_mod(state, player_state.get_slot(slot))
    }

    /// Damage of a hit on a bench Pokemon: the modifiers apply, weakness
    /// and resistance do not.
    pub fn calculate_bench_damage(
        &self,
        state: &GameState,
        attacker: PlayerId,
        attacker_slot: SlotRef,
        defender: PlayerId,
        defender_slot: SlotRef,
        base_damage: u16,
    ) -> (r: u16)
        requires
            attacker.0 < 2,
            defender.0 < 2,
            state@.wf(),
            bench_damage_fits(state@, attacker, attacker_slot, defender, defender_slot, base_damage),
        ensures
            r == spec_bench_damage(state@, attacker, attacker_slot, defender, defender_slot, base_damage),
    {
        let attacker_pokemon = match state.players[attacker.0].get_slot(attacker_slot) {
            Some(p) => p,
            None => return base_damage,
        };
        let defender_pokemon = match state.players[defender.0].get_slot(defender_slot) {
            Some(p) => p,
            None => return base_damage,
        };
        let attacker_def = match slot_top_def(state, attacker_pokemon) {
            Some(d) => d,
            None => return base_damage,
        };
        let defender_def = match slot_top_def(state, defender_pokemon) {
            Some(d) => d,
            None => return base_damage,
        };
        let mut damage: i64 = base_damage as i64;
        damage = damage + self.get_attacker_modifier(state, attacker, attacker_slot, attacker_def);
        damage = damage - self.get_defender_modifier(state, defender, defender_slot, defender_def);
        if damage < 0 {
            0
        } else {
            damage as u16
        }
    }
}

fn attacker_modifier_value(state: &GameState, player: PlayerId, slot: SlotRef) -> (r: i64)
    requires
        player.0 < 2,
        state@.wf(),
    ensures
        r == spec_attacker_modifier(state@, player, slot),
{
    let player_state = &state.players[player.0];
    let attacker_slot = player_state.get_slot(slot);
    let lightning = match attacker_slot {
        Some(a) => match slot_top_def(state, a) {
            Some(d) => d.energy_type == Some(EnergyType::Lightning),
            None => false,
        },
        None => false,
    };
    let mut count: i64 = 0;
    let mut i: usize = 0;
    let ghost g = state@;
    let ghost bench = g.player(player).bench;
    proof {
        lemma_count_miraidon_bound(g, bench);
    }
    while i < player_state.bench.len()
        invariant
            g == state@,
            player.0 < 2,
            player_state@ == g.player(player),
            bench == g.player(player).bench,
            bench.len() == player_state.bench@.len(),
            bench.len() == crate::MAX_BENCH_SIZE,
            i <= bench.len(),
            count == count_miraidon(g, bench.subrange(0, i as int)),
        decreases bench.len() - i,
    {
        proof {
            assert(bench.subrange(0, i + 1).drop_last() =~= bench.subrange(0, i as int));
            assert(bench[i as int] == crate::state::opt_slot_view(player_state.bench@[i as int]));
            lemma_count_miraidon_bound(g, bench.subrange(0, i as int));
        }
        if is_miraidon(state, &player_state.bench[i]) {
            count = count + 1;
        }
        i = i + 1;
    }
    proof {
        assert(bench.subrange(0, i as int) =~= bench);
    }
    if is_miraidon(state, &player_state.active) {
        count = count + 1;
    }
    let mut modifier: i64 = if lightning {
        30 * count
    } else {
        0
    };
    modifier = modifier + tool_mod(state, attacker_slot);
    modifier
}

fn fits_i32(x: i64) -> (r: bool)
    ensures
        r == in_i32(x as int),
{
    -2147483648i64 <= x && x <= 2147483647i64
}

/// Whether the damage computation of `calculate_damage` stays within `i32`
/// (see `damage_fits`).
pub fn damage_fits_exec(
    state: &GameState,
    attacker: PlayerId,
    attacker_slot: SlotRef,
    defender: PlayerId,
    defender_slot: SlotRef,
    base_damage: u16,
) -> (r: bool)
    requires
        attacker.0 < 2,
        defender.0 < 2,
        state@.wf(),
    ensures
        r == damage_fits(state@, attacker, attacker_slot, defender, defender_slot, base_damage),
{
    let attacker_pokemon = match state.players[attacker.0].get_slot(attacker_slot) {
        Some(p) => p,
        None => return true,
    };
    let defender_pokemon = match state.players[defender.0].get_slot(defender_slot) {
        Some(p) => p,
        None => return true,
    };
    let attacker_def = match slot_top_def(state, attacker_pokemon) {
        Some(d) => d,
        None => return true,
    };
    let defender_def = match slot_top_def(state, defender_pokemon) {
        Some(d) => d,
        None => return true,
    };
    let calc = DamageCalculator::new();
    let am = attacker_modifier_value(state, attacker, attacker_slot);
    let dm = calc.get_defender_modifier(state, defender, defender_slot, defender_def);
    if !fits_i32(am) || !fits_i32(dm) {
        return false;
    }
    let s1: i64 = base_damage as i64 + am;
    if !fits_i32(s1) {
        return false;
    }
    let s2: i64 = s1 - dm;
    if !fits_i32(s2) {
        return false;
    }
    let mut wt: i64 = 0;
    match defender_def.weakness {
        Some(w) => {
            assert(-2147483648 * 65535 <= w.multiplier as int * base_damage as int <= 2147483647 * 65535) by (nonlinear_arith)
                requires
                    -2147483648 <= w.multiplier <= 2147483647,
                    0 <= base_damage <= 65535,
            ;
            let prod: i64 = w.multiplier as i64 * base_damage as i64;
            if !fits_i32(prod) {
                return false;
            }
            match attacker_def.energy_type {
                Some(t) => {
                    if t == w.energy_type {
                        wt = prod - base_damage as i64;
                    }
                },
                None => {},
            }
        },
        None => {},
    }
    let s3: i64 = s2 + wt;
    if !fits_i32(s3) {
        return false;
    }
    let rt: i64 = match defender_def.resistance {
        Some(res) => match attacker_def.energy_type {
            Some(t) => if t == res.energy_type {
                res.multiplier as i64
            } else {
                0
            },
            None => 0,
        },
        None => 0,
    };
    fits_i32(s3 + rt)
}

/// The top card of the Pokemon in `s` is a Miraidon ex (`CSV1C_050`).
pub open spec fn top_is_miraidon_ex(g: GameView, s: Option<SlotView>) -> bool {
    s matches Some(sv) && spec_top_card(sv) matches Some(id) && g.def_of(id) matches Some(d) && d.id.0@
        == "CSV1C_050"@
}

proof fn lemma_count_none(g: GameView, bench: Seq<Option<SlotView>>)
    requires
        forall|i: int| 0 <= i < bench.len() ==> !top_is_miraidon_ex(g, #[trigger] bench[i]),
    ensures
        count_miraidon(g, bench) == 0,
    decreases bench.len(),
{
    if bench.len() > 0 {
        assert(!top_is_miraidon_ex(g, bench[bench.len() - 1]));
        lemma_count_none(g, bench.drop_last());
    }
}

proof fn lemma_count_put(g: GameView, bench: Seq<Option<SlotView>>, i: int, m: SlotView)
    requires
        0 <= i < bench.len(),
        bench[i] is None,
        top_is_miraidon_ex(g, Some(m)),
    ensures
        count_miraidon(g, bench.update(i, Some(m))) == count_miraidon(g, bench) + 1,
    decreases bench.len(),
{
    let b2 = bench.update(i, Some(m));
    if i == bench.len() - 1 {
        assert(b2.drop_last() =~= bench.drop_last());
    } else {
        lemma_count_put(g, bench.drop_last(), i, m);
        assert(b2.drop_last() =~= bench.drop_last().update(i, Some(m)));
    }
}

proof fn lemma_count_same_cards(g1: GameView, g2: GameView, bench: Seq<Option<SlotView>>)
    requires
        g1.cards == g2.cards,
        g1.registry == g2.registry,
    ensures
        count_miraidon(g1, bench) == count_miraidon(g2, bench),
    decreases bench.len(),
{
    if bench.len() > 0 {
        lemma_count_same_cards(g1, g2, bench.drop_last());
        assert(is_miraidon_slot(g1, bench.last()) == is_miraidon_slot(g2, bench.last()));
    }
}

/// A Miraidon ex in the active spot counts for a Lightning attacker: with
/// no Miraidon ex on its bench, no tool on the attacker, and a defender with
/// no stadium, no tool and neither weakness nor resistance to Lightning, an
/// attack of base damage `base` deals `base + 30`.
pub proof fn lemma_active_miraidon_boost(g: GameView, a: PlayerId, aslot: SlotRef, d: PlayerId, dslot: SlotRef, base: u16)
    requires
        top_is_miraidon_ex(g, g.player(a).active),
        g.slot_def(a, aslot) matches Some(x) && x.energy_type == Some(EnergyType::Lightning),
        forall|i: int| 0 <= i < g.player(a).bench.len() ==> !top_is_miraidon_ex(g, #[trigger] g.player(a).bench[i]),
        g.player(a).slot(aslot) matches Some(s) && s.tool is None,
        g.slot_def(d, dslot) matches Some(y) && !(y.weakness matches Some(w) && w.energy_type == EnergyType::Lightning)
            && !(y.resistance matches Some(r) && r.energy_type == EnergyType::Lightning),
        g.player(d).stadium is None,
        g.player(d).slot(dslot) matches Some(t) && t.tool is None,
        base + 30 <= u16::MAX,
    ensures
        spec_damage(g, a, aslot, d, dslot, base) == base + 30,
{
    lemma_count_none(g, g.player(a).bench);
}

/// Each Miraidon ex put on an empty bench slot adds 30 to the modifier of a
/// Lightning attacker of the same player (the attacker itself staying put).
pub proof fn lemma_bench_miraidon_boost(g: GameView, p: PlayerId, aslot: SlotRef, i: int, m: SlotView)
    requires
        p.0 < 2,
        g.players.len() == 2,
        0 <= i < g.player(p).bench.len(),
        g.player(p).bench[i] is None,
        aslot != SlotRef::Bench(i as usize),
        top_is_miraidon_ex(g, Some(m)),
        g.slot_def(p, aslot) matches Some(x) && x.energy_type == Some(EnergyType::Lightning),
    ensures
        spec_attacker_modifier(
            g.with_player(p, PlayerView { bench: g.player(p).bench.update(i, Some(m)), ..g.player(p) }),
            p,
            aslot,
        ) == spec_attacker_modifier(g, p, aslot) + 30,
{
    let g2 = g.with_player(p, PlayerView { bench: g.player(p).bench.update(i, Some(m)), ..g.player(p) });
    lemma_count_put(g, g.player(p).bench, i, m);
    lemma_count_same_cards(g, g2, g.player(p).bench.update(i, Some(m)));
    assert(g2.player(p).slot(aslot) == g.player(p).slot(aslot));
    assert(is_miraidon_slot(g2, g2.player(p).active) == is_miraidon_slot(g, g.player(p).active));
    assert(miraidon_count(g2, p) == miraidon_count(g, p) + 1);
}

} // verus!
