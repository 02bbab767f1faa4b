//! Pokemon ability and attack effects.

use vstd::prelude::*;

use super::common::{
    apply_damage, damage_addable, scan_deck, spec_apply_damage, spec_damage_kos, spec_search, CardFilter,
    AttackResult, EffectResult,
};
use crate::action::Choices;
use crate::card::{str_eq, CardDef, CardType, EnergyType};
use crate::damage::{bench_damage_fits, spec_bench_damage, DamageCalculator};
use crate::engine::Event;
use crate::error::{is_err, EngineError, EngineResult, ErrorKind};
use crate::state::{
    spec_draw, spec_new_slot, spec_remove_first, spec_top_card, CardInstanceId, GameState, GameView, PlayerId,
    PlayerState, PlayerView, PokemonSlot, SlotRef, SlotView,
};
use crate::MAX_BENCH_SIZE;

verus! {

/// Whether the Pokemon at `source` has already used an ability this turn.
pub open spec fn ability_used(pv: PlayerView, source: SlotRef) -> bool {
    match pv.slot(source) {
        Some(s) => s.used_ability_this_turn,
        None => false,
    }
}

/// The player with the Pokemon at `source` (if any) marked as having used its ability.
pub open spec fn spec_mark_used(pv: PlayerView, source: SlotRef) -> PlayerView {
    match pv.slot(source) {
        Some(s) => pv.with_slot(source, Some(SlotView { used_ability_this_turn: true, ..s })),
        None => pv,
    }
}

/// The player after each card of `cards`, in order, is put as a new Pokemon
/// into the first empty bench slot while the bench has room; a card that
/// finds no room is put nowhere.
pub open spec fn spec_bench_new(pv: PlayerView, cards: Seq<CardInstanceId>, turn: u16) -> PlayerView
    decreases cards.len(),
{
    if cards.len() == 0 {
        pv
    } else {
        let p1 = spec_bench_new(pv, cards.drop_last(), turn);
        if p1.bench_count() < MAX_BENCH_SIZE {
            match p1.first_empty_bench() {
                Some(i) => PlayerView { bench: p1.bench.update(i, Some(spec_new_slot(cards.last(), turn))), ..p1 },
                None => p1,
            }
        } else {
            p1
        }
    }
}

fn mark_used(ps: &mut PlayerState, source: SlotRef)
    ensures
        final(ps)@ == spec_mark_used(old(ps)@, source),
{
    match ps.get_slot_mut(source) {
        Some(slot) => {
            slot.used_ability_this_turn = true;
        },
        None => {},
    }
}

fn is_ability_used(ps: &PlayerState, source: SlotRef) -> (r: bool)
    ensures
        r == ability_used(ps@, source),
{
    match ps.get_slot(source) {
        Some(s) => s.used_ability_this_turn,
        None => false,
    }
}

fn bench_new(ps: &mut PlayerState, cards: &Vec<CardInstanceId>, turn: u16)
    ensures
        final(ps)@ == spec_bench_new(old(ps)@, cards@, turn),
{
    let mut k: usize = 0;
    while k < cards.len()
        invariant
            k <= cards@.len(),
            ps@ == spec_bench_new(old(ps)@, cards@.take(k as int), turn),
        decreases cards@.len() - k,
    {
        let c = cards[k];
        proof {
            assert(cards@.take(k + 1).drop_last() =~= cards@.take(k as int));
            assert(cards@.take(k + 1).last() == c);
        }
        if ps.bench_count() < MAX_BENCH_SIZE {
            match ps.first_empty_bench() {
                Some(i) => {
                    let ghost before = ps@;
                    ps.bench.set(i, Some(PokemonSlot::with_card(c, turn)));
                    proof {
                        assert(ps@.bench =~= before.bench.update(i as int, Some(spec_new_slot(c, turn))));
                    }
                },
                None => {},
            }
        }
        k = k + 1;
    }
    proof {
        assert(cards@.take(cards@.len() as int) =~= cards@);
    }
}

/// How many Pokemon Tandem Unit looks for: 2, or fewer when the bench has
/// fewer free slots.
pub open spec fn tandem_count(pv: PlayerView) -> nat {
    if pv.bench_count() >= MAX_BENCH_SIZE {
        0
    } else if MAX_BENCH_SIZE - pv.bench_count() < 2 {
        (MAX_BENCH_SIZE - pv.bench_count()) as nat
    } else {
        2
    }
}

/// What `ability_tandem_unit` does: `g` before, `g2` after, `r` its result.
pub open spec fn ability_tandem_unit_post(g: GameView, g2: GameView, player: PlayerId, source: SlotRef, r: EngineResult<EffectResult>) -> bool {
    &&& (ability_used(g.player(player), source) ==> g2 == g && is_err(
        r,
        ErrorKind::InvalidAction,
        "Ability already used this turn"@,
    )
    )
    &&& (!ability_used(g.player(player), source) ==> {
        let (found, rem) = spec_search(g, player, tandem_count(g.player(player)), CardFilter::BasicLightningPokemon);
        let pv = PlayerView { deck: rem, ..g.player(player) };
        &&& r matches Ok(res) && res.events@.len() == 0
        &&& g2 == g.with_player(player, spec_mark_used(spec_bench_new(pv, found, g.turn.turn_number), source))
    }
    )
}

/// Tandem Unit: once per turn, search the deck for up to 2 Basic Lightning
/// Pokemon, no more than the bench has room for, and put them onto the
/// bench. The deck keeps its other cards in reversed order.
pub fn ability_tandem_unit(state: &mut GameState, player: PlayerId, source: SlotRef) -> (r: EngineResult<EffectResult>)
    requires
        player.0 < 2,
    ensures
        ability_tandem_unit_post(old(state)@, final(state)@, player, source, r),
{
    if is_ability_used(&state.players[player.0], source) {
        return Err(EngineError::invalid_action("Ability already used this turn"));
    }
    let benched = state.players[player.0].bench_count();
    let count: usize = if benched >= MAX_BENCH_SIZE {
        0
    } else if MAX_BENCH_SIZE - benched < 2 {
        MAX_BENCH_SIZE - benched
    } else {
        2
    };
    let (found, remaining) = scan_deck(state, player, count, CardFilter::BasicLightningPokemon);
    let turn = state.turn.turn_number;
    state.players[player.0].deck = remaining;
    bench_new(&mut state.players[player.0], &found, turn);
    mark_used(&mut state.players[player.0], source);
    proof {
        assert(state@.players =~= old(state)@.players.update(player.0 as int, state.players@[player.0 as int]@));
    }
    Ok(EffectResult::new())
}

/// The player with `cards` attached, in order, to the Pokemon at `source`
/// (with no Pokemon there, the cards are put nowhere).
pub open spec fn spec_attach_all(pv: PlayerView, source: SlotRef, cards: Seq<CardInstanceId>) -> PlayerView {
    match pv.slot(source) {
        Some(s) => pv.with_slot(source, Some(SlotView { energies: s.energies + cards, ..s })),
        None => pv,
    }
}

fn attach_all(ps: &mut PlayerState, source: SlotRef, cards: &Vec<CardInstanceId>)
    ensures
        final(ps)@ == spec_attach_all(old(ps)@, source, cards@),
{
    let ghost p0 = ps@;
    match ps.take_slot(source) {
        Some(mut slot) => {
            let ghost e0 = slot.energies@;
            let ghost s0 = slot@;
            let mut k: usize = 0;
            while k < cards.len()
                invariant
                    k <= cards@.len(),
                    slot.energies@ == e0 + cards@.take(k as int),
                    slot@ == (SlotView { energies: slot.energies@, ..s0 }),
                decreases cards@.len() - k,
            {
                slot.energies.push(cards[k]);
                proof {
                    assert(e0 + cards@.take(k + 1) =~= (e0 + cards@.take(k as int)).push(cards@[k as int]));
                }
                k = k + 1;
            }
            proof {
                assert(cards@.take(cards@.len() as int) =~= cards@);
                assert(slot@ == SlotView { energies: s0.energies + cards@, ..s0 });
            }
            ps.put_slot(source, Some(slot));
            proof {
                crate::state::lemma_with_slot_twice(p0, source, None, Some(slot@));
            }
        },
        None => {
            proof {
                crate::state::lemma_with_slot_none(p0, source);
            }
        },
    }
}

/// What `ability_infernal_reign` does: `g` before, `g2` after, `r` its result.
pub open spec fn ability_infernal_reign_post(g: GameView, g2: GameView, player: PlayerId, source: SlotRef, r: EngineResult<EffectResult>) -> bool {
    &&& (({
        let (found, rem) = spec_search(g, player, 3, CardFilter::BasicFireEnergy);
        let pv = PlayerView { deck: rem, ..g.player(player) };
        &&& r matches Ok(res) && res.events@.len() == 0
        &&& g2 == g.with_player(player, spec_attach_all(pv, source, found))
    })
    )
}

/// Infernal Reign: search the deck for up to 3 basic Fire Energy and attach
/// them to this Pokemon. The deck keeps its other cards in reversed order.
pub fn ability_infernal_reign(state: &mut GameState, player: PlayerId, source: SlotRef) -> (r: EngineResult<EffectResult>)
    requires
        player.0 < 2,
    ensures
        ability_infernal_reign_post(old(state)@, final(state)@, player, source, r),
{
    let (found, remaining) = scan_deck(state, player, 3, CardFilter::BasicFireEnergy);
    state.players[player.0].deck = remaining;
    attach_all(&mut state.players[player.0], source, &found);
    proof {
        assert(state@.players =~= old(state)@.players.update(player.0 as int, state.players@[player.0 as int]@));
    }
    Ok(EffectResult::new())
}

/// The player with the top card of the deck (if any) moved to the hand.
pub open spec fn spec_top_to_hand(pv: PlayerView) -> PlayerView {
    if pv.deck.len() == 0 {
        pv
    } else {
        PlayerView { deck: pv.deck.drop_last(), hand: pv.hand.push(pv.deck.last()), ..pv }
    }
}

fn top_to_hand(ps: &mut PlayerState)
    ensures
        final(ps)@ == spec_top_to_hand(old(ps)@),
{
    match ps.deck.pop() {
        Some(c) => {
            ps.hand.push(c);
        },
        None => {},
    }
}

/// What `ability_wind_search` does: `g` before, `g2` after, `r` its result.
pub open spec fn ability_wind_search_post(g: GameView, g2: GameView, player: PlayerId, source: SlotRef, r: EngineResult<EffectResult>) -> bool {
    &&& (ability_used(g.player(player), source) ==> g2 == g && is_err(
        r,
        ErrorKind::InvalidAction,
        "Ability already used this turn"@,
    )
    )
    &&& (!ability_used(g.player(player), source) ==> {
        &&& r matches Ok(res) && res.events@.len() == 0
        &&& g2 == g.with_player(
            player,
            spec_mark_used(spec_top_to_hand(g.player(player)), source),
        )
    }
    )
}

/// Wind Search: once per turn, take the top card of the deck into the hand.
pub fn ability_wind_search(state: &mut GameState, player: PlayerId, source: SlotRef) -> (r: EngineResult<EffectResult>)
    requires
        player.0 < 2,
    ensures
        ability_wind_search_post(old(state)@, final(state)@, player, source, r),
{
    if is_ability_used(&state.players[player.0], source) {
        return Err(EngineError::invalid_action("Ability already used this turn"));
    }
    top_to_hand(&mut state.players[player.0]);
    mark_used(&mut state.players[player.0], source);
    proof {
        assert(state@.players =~= old(state)@.players.update(player.0 as int, state.players@[player.0 as int]@));
    }
    Ok(EffectResult::new())
}

/// What `ability_star_alchemy` does: `g` before, `g2` after, `r` its result.
pub open spec fn ability_star_alchemy_post(g: GameView, g2: GameView, player: PlayerId, source: SlotRef, r: EngineResult<EffectResult>) -> bool {
    &&& (r matches Ok(res) && res.events@.len() == 0)
    &&& (g2 == g.with_player(player, spec_top_to_hand(g.player(player))))
}

/// Star Alchemy: take the top card of the deck (if any) into the hand.
pub fn ability_star_alchemy(state: &mut GameState, player: PlayerId, source: SlotRef) -> (r: EngineResult<EffectResult>)
    requires
        player.0 < 2,
    ensures
        ability_star_alchemy_post(old(state)@, final(state)@, player, source, r),
{
    top_to_hand(&mut state.players[player.0]);
    proof {
        assert(state@.players =~= old(state)@.players.update(player.0 as int, state.players@[player.0 as int]@));
    }
    Ok(EffectResult::new())
}

/// The definition identifier of the Pokemon whose ability is Awaken.
pub open spec fn awaken_card_id() -> Seq<char> {
    "CS5bC_052"@
}

/// Whether the top card of the Pokemon `s` has the definition identifier `key`.
pub open spec fn top_def_is(g: GameView, s: Option<SlotView>, key: Seq<char>) -> bool {
    match s {
        Some(slot) => match spec_top_card(slot) {
            Some(id) => match g.def_of(id) {
                Some(d) => d.id.0@ == key,
                None => false,
            },
            None => false,
        },
        None => false,
    }
}

/// Awaken: whether the active Pokemon of `player` is the Pokemon with Awaken.
pub fn ability_awaken_is_active(state: &GameState, player: PlayerId) -> (r: bool)
    requires
        player.0 < 2,
    ensures
        r == top_def_is(state@, state@.player(player).active, awaken_card_id()),
{
    proof {
        reveal_strlit("CS5bC_052");
    }
    match &state.players[player.0].active {
        Some(active) => match active.top_card() {
            Some(id) => match state.get_card_def(id) {
                Some(d) => str_eq(d.id.0.as_str(), "CS5bC_052"),
                None => false,
            },
            None => false,
        },
        None => false,
    }
}

/// The event of `damage` dealt to the Pokemon at `slot` of `p`.
pub open spec fn damage_event(p: PlayerId, slot: SlotRef, damage: u16, ko: bool) -> Event {
    Event::Damage { target_player: p, target_slot: slot, damage, ko }
}

/// Adding damage to one Pokemon keeps both players' bench sizes.
pub proof fn lemma_apply_damage_wf(g: GameView, p: PlayerId, slot: SlotRef, damage: u16)
    requires
        g.wf(),
        p.0 < 2,
    ensures
        spec_apply_damage(g, p, slot, damage).wf(),
{
}

/// Damage to the active Pokemon of `defender` together with its event.
fn hit_active(state: &mut GameState, defender: PlayerId, damage: u16) -> (r: (bool, Event))
    requires
        defender.0 < 2,
        damage_addable(old(state)@, defender, SlotRef::Active, damage),
    ensures
        r.0 == spec_damage_kos(old(state)@, defender, SlotRef::Active, damage),
        r.1 == damage_event(defender, SlotRef::Active, damage, r.0),
        final(state)@ == spec_apply_damage(old(state)@, defender, SlotRef::Active, damage),
{
    let ko = apply_damage(state, defender, SlotRef::Active, damage);
    (ko, Event::Damage { target_player: defender, target_slot: SlotRef::Active, damage, ko })
}

/// An attack that only damages the defending active Pokemon.
pub open spec fn plain_attack(g: GameView, defender: PlayerId, damage: u16, lock: bool, r: AttackResult, g2: GameView) -> bool {
    let ko = spec_damage_kos(g, defender, SlotRef::Active, damage);
    &&& r.damage == damage
    &&& r.ko == ko
    &&& r.bench_damage@.len() == 0
    &&& r.events@ == seq![damage_event(defender, SlotRef::Active, damage, ko)]
    &&& r.self_lock == lock
    &&& g2 == spec_apply_damage(g, defender, SlotRef::Active, damage)
}

/// What `attack_double_impact` requires of the state.
pub open spec fn attack_double_impact_pre(g: GameView, attacker: PlayerId, defender: PlayerId, base_damage: u16, choices: Choices) -> bool {
    &&& (defender.0 < 2)
    &&& (damage_addable(g, defender, SlotRef::Active, base_damage))
    &&& (choices.selected_slots@.len() > 0 ==> damage_addable(
        spec_apply_damage(g, defender, SlotRef::Active, base_damage),
        defender,
        choices.selected_slots@[0],
        30,
    )
    )
}

/// What `attack_double_impact` does: `g` before, `g2` after, `r` its result.
pub open spec fn attack_double_impact_post(g: GameView, g2: GameView, attacker: PlayerId, defender: PlayerId, base_damage: u16, choices: Choices, r: EngineResult<AttackResult>) -> bool {
    &&& (r matches Ok(res) && {
        let ko = spec_damage_kos(g, defender, SlotRef::Active, base_damage);
        let g1 = spec_apply_damage(g, defender, SlotRef::Active, base_damage);
        let e0 = damage_event(defender, SlotRef::Active, base_damage, ko);
        &&& res.damage == base_damage
        &&& res.ko == ko
        &&& !res.self_lock
        &&& if choices.selected_slots@.len() > 0 {
            let t = choices.selected_slots@[0];
            &&& res.bench_damage@ == seq![(t, 30u16)]
            &&& res.events@ == seq![e0, damage_event(defender, t, 30, spec_damage_kos(g1, defender, t, 30))]
            &&& g2 == spec_apply_damage(g1, defender, t, 30)
        } else {
            &&& res.bench_damage@.len() == 0
            &&& res.events@ == seq![e0]
            &&& g2 == g1
        }
    }
    )
}

/// Double Impact: the base damage to the active Pokemon, then 30 to the
/// first chosen slot, if any.
pub fn attack_double_impact(
    state: &mut GameState,
    attacker: PlayerId,
    defender: PlayerId,
    base_damage: u16,
    choices: &Choices,
) -> (r: EngineResult<AttackResult>)
    requires
        attack_double_impact_pre(old(state)@, attacker, defender, base_damage, *choices),

    ensures
        attack_double_impact_post(old(state)@, final(state)@, attacker, defender, base_damage, *choices, r),
{
    let (ko, e0) = hit_active(state, defender, base_damage);
    let mut bench_damage: Vec<(SlotRef, u16)> = Vec::new();
    let mut events: Vec<Event> = Vec::new();
    events.push(e0);
    if choices.selected_slots.len() > 0 {
        let t = choices.selected_slots[0];
        bench_damage.push((t, 30u16));
        let bench_ko = apply_damage(state, defender, t, 30);
        events.push(Event::Damage { target_player: defender, target_slot: t, damage: 30, ko: bench_ko });
        proof {
            assert(bench_damage@ =~= seq![(t, 30u16)]);
            assert(events@ =~= seq![e0, damage_event(defender, t, 30, bench_ko)]);
        }
    } else {
        proof {
            assert(events@ =~= seq![e0]);
        }
    }
    Ok(AttackResult { damage: base_damage, ko, bench_damage, events, self_lock: false })
}

/// Damage of Scorching Darkness: the base damage plus 30 for each prize card
/// the defender has left.
pub open spec fn scorching_damage(g: GameView, defender: PlayerId, base_damage: u16) -> int {
    base_damage + 30 * g.player(defender).prizes.len()
}

/// What `attack_scorching_darkness` requires of the state.
pub open spec fn attack_scorching_darkness_pre(g: GameView, attacker: PlayerId, defender: PlayerId, base_damage: u16) -> bool {
    &&& (defender.0 < 2)
    &&& (scorching_damage(g, defender, base_damage) <= u16::MAX)
    &&& (damage_addable(g, defender, SlotRef::Active, scorching_damage(g, defender, base_damage) as u16))
}

/// What `attack_scorching_darkness` does: `g` before, `g2` after, `r` its result.
pub open spec fn attack_scorching_darkness_post(g: GameView, g2: GameView, attacker: PlayerId, defender: PlayerId, base_damage: u16, r: EngineResult<AttackResult>) -> bool {
    &&& (r matches Ok(res) && plain_attack(
        g,
        defender,
        scorching_damage(g, defender, base_damage) as u16,
        false,
        res,
        g2,
    )
    )
}

/// Scorching Darkness: the base damage plus 30 for each prize card the
/// defender has left, to the active Pokemon.
pub fn attack_scorching_darkness(
    state: &mut GameState,
    attacker: PlayerId,
    defender: PlayerId,
    base_damage: u16,
) -> (r: EngineResult<AttackResult>)
    requires
        attack_scorching_darkness_pre(old(state)@, attacker, defender, base_damage),

    ensures
        attack_scorching_darkness_post(old(state)@, final(state)@, attacker, defender, base_damage, r),
{
    let prizes = state.players[defender.0].prizes.len();
    let damage: u16 = base_damage + (prizes as u16) * 30;
    let (ko, e0) = hit_active(state, defender, damage);
    let mut events: Vec<Event> = Vec::new();
    events.push(e0);
    proof {
        assert(events@ =~= seq![e0]);
    }
    Ok(AttackResult { damage, ko, bench_damage: Vec::new(), events, self_lock: false })
}

/// What `attack_photon_blaster` requires of the state.
pub open spec fn attack_photon_blaster_pre(g: GameView, defender: PlayerId, base_damage: u16) -> bool {
    &&& (defender.0 < 2)
    &&& (damage_addable(g, defender, SlotRef::Active, base_damage))
}

/// What `attack_photon_blaster` does: `g` before, `g2` after, `r` its result.
pub open spec fn attack_photon_blaster_post(g: GameView, g2: GameView, defender: PlayerId, base_damage: u16, r: EngineResult<AttackResult>) -> bool {
    &&& (r matches Ok(res) && plain_attack(g, defender, base_damage, true, res, g2))
}

/// Photon Blaster: the base damage to the active Pokemon; the attack locks
/// itself for the next turn.
pub fn attack_photon_blaster(state: &mut GameState, defender: PlayerId, base_damage: u16) -> (r: EngineResult<AttackResult>)
    requires
        attack_photon_blaster_pre(old(state)@, defender, base_damage),

    ensures
        attack_photon_blaster_post(old(state)@, final(state)@, defender, base_damage, r),
{
    let (ko, e0) = hit_active(state, defender, base_damage);
    let mut events: Vec<Event> = Vec::new();
    events.push(e0);
    proof {
        assert(events@ =~= seq![e0]);
    }
    Ok(AttackResult { damage: base_damage, ko, bench_damage: Vec::new(), events, self_lock: true })
}

/// What `attack_combustion_blast` requires of the state.
pub open spec fn attack_combustion_blast_pre(g: GameView, attacker: PlayerId, defender: PlayerId, base_damage: u16) -> bool {
    &&& (attacker.0 < 2)
    &&& (defender.0 < 2)
    &&& (g.player(attacker).prizes.len() <= 1 ==> damage_addable(
        g,
        defender,
        SlotRef::Active,
        base_damage,
    )
    )
}

/// What `attack_combustion_blast` does: `g` before, `g2` after, `r` its result.
pub open spec fn attack_combustion_blast_post(g: GameView, g2: GameView, attacker: PlayerId, defender: PlayerId, base_damage: u16, r: EngineResult<AttackResult>) -> bool {
    &&& (g.player(attacker).prizes.len() > 1 ==> g2 == g && (r matches Ok(res)
        && res.damage == 0 && !res.ko && res.bench_damage@.len() == 0 && res.events@.len() == 0 && !res.self_lock)
    )
    &&& (g.player(attacker).prizes.len() <= 1 ==> (r matches Ok(res) && plain_attack(
        g,
        defender,
        base_damage,
        false,
        res,
        g2,
    ))
    )
}

/// Combustion Blast: the base damage to the active Pokemon, only when the
/// attacker has at most one prize card left; otherwise nothing happens.
pub fn attack_combustion_blast(
    state: &mut GameState,
    attacker: PlayerId,
    defender: PlayerId,
    base_damage: u16,
) -> (r: EngineResult<AttackResult>)
    requires
        attack_combustion_blast_pre(old(state)@, attacker, defender, base_damage),

    ensures
        attack_combustion_blast_post(old(state)@, final(state)@, attacker, defender, base_damage, r),
{
    if state.players[attacker.0].prizes.len() > 1 {
        return Ok(AttackResult::new(0));
    }
    let (ko, e0) = hit_active(state, defender, base_damage);
    let mut events: Vec<Event> = Vec::new();
    events.push(e0);
    proof {
        assert(events@ =~= seq![e0]);
    }
    Ok(AttackResult { damage: base_damage, ko, bench_damage: Vec::new(), events, self_lock: false })
}

/// Whether a stadium is in play on either side.
pub open spec fn stadium_in_play(g: GameView) -> bool {
    g.players[0].stadium is Some || g.players[1].stadium is Some
}

/// Damage of Calamity Storm: 60 more while a stadium is in play.
pub open spec fn stadium_bonus_damage(g: GameView, base_damage: u16) -> int {
    if stadium_in_play(g) {
        base_damage + 60
    } else {
        base_damage as int
    }
}

/// What `attack_discard_stadium_bonus` requires of the state.
pub open spec fn attack_discard_stadium_bonus_pre(g: GameView, attacker: PlayerId, defender: PlayerId, base_damage: u16, choices: Choices) -> bool {
    &&& (defender.0 < 2)
    &&& (g.wf())
    &&& (stadium_bonus_damage(g, base_damage) <= u16::MAX)
    &&& (damage_addable(g, defender, SlotRef::Active, stadium_bonus_damage(g, base_damage) as u16))
}

/// What `attack_discard_stadium_bonus` does: `g` before, `g2` after, `r` its result.
pub open spec fn attack_discard_stadium_bonus_post(g: GameView, g2: GameView, attacker: PlayerId, defender: PlayerId, base_damage: u16, choices: Choices, r: EngineResult<AttackResult>) -> bool {
    &&& (r matches Ok(res) && plain_attack(
        g,
        defender,
        stadium_bonus_damage(g, base_damage) as u16,
        false,
        res,
        g2,
    )
    )
}

/// Calamity Storm: the base damage, 60 more while a stadium is in play, to
/// the active Pokemon.
pub fn attack_discard_stadium_bonus(
    state: &mut GameState,
    attacker: PlayerId,
    defender: PlayerId,
    base_damage: u16,
    choices: &Choices,
) -> (r: EngineResult<AttackResult>)
    requires
        attack_discard_stadium_bonus_pre(old(state)@, attacker, defender, base_damage, *choices),

    ensures
        attack_discard_stadium_bonus_post(old(state)@, final(state)@, attacker, defender, base_damage, *choices, r),
{
    let has_stadium = state.players[0].stadium.is_some() || state.players[1].stadium.is_some();
    let damage = if has_stadium {
        base_damage + 60
    } else {
        base_damage
    };
    let (ko, e0) = hit_active(state, defender, damage);
    let mut events: Vec<Event> = Vec::new();
    events.push(e0);
    proof {
        assert(events@ =~= seq![e0]);
    }
    Ok(AttackResult { damage, ko, bench_damage: Vec::new(), events, self_lock: false })
}

/// The player with the last energy card of the active Pokemon (if any) moved
/// to the discard pile.
pub open spec fn spec_discard_active_energy(pv: PlayerView) -> PlayerView {
    match pv.active {
        Some(s) => if s.energies.len() > 0 {
            PlayerView {
                active: Some(SlotView { energies: s.energies.drop_last(), ..s }),
                discard: pv.discard.push(s.energies.last()),
                ..pv
            }
        } else {
            pv
        },
        None => pv,
    }
}

fn discard_active_energy(ps: &mut PlayerState)
    ensures
        final(ps)@ == spec_discard_active_energy(old(ps)@),
{
    let mut popped: Option<CardInstanceId> = None;
    match ps.active.as_mut() {
        Some(slot) => {
            popped = slot.energies.pop();
        },
        None => {},
    }
    match popped {
        Some(e) => {
            ps.discard.push(e);
        },
        None => {},
    }
}

/// What `attack_discard_energy_from_self` requires of the state.
pub open spec fn attack_discard_energy_from_self_pre(g: GameView, attacker: PlayerId, defender: PlayerId, base_damage: u16) -> bool {
    &&& (attacker.0 < 2)
    &&& (defender.0 < 2)
    &&& (damage_addable(g, defender, SlotRef::Active, base_damage))
}

/// What `attack_discard_energy_from_self` does: `g` before, `g2` after, `r` its result.
pub open spec fn attack_discard_energy_from_self_post(g: GameView, g2: GameView, attacker: PlayerId, defender: PlayerId, base_damage: u16, r: EngineResult<AttackResult>) -> bool {
    &&& (r matches Ok(res) && {
        let g1 = spec_apply_damage(g, defender, SlotRef::Active, base_damage);
        &&& plain_attack(g, defender, base_damage, false, res, g1)
        &&& g2 == g1.with_player(attacker, spec_discard_active_energy(g1.player(attacker)))
    }
    )
}

/// Magma Blast: the base damage to the active Pokemon, then the attacker's
/// active Pokemon discards its last energy card.
pub fn attack_discard_energy_from_self(
    state: &mut GameState,
    attacker: PlayerId,
    defender: PlayerId,
    base_damage: u16,
) -> (r: EngineResult<AttackResult>)
    requires
        attack_discard_energy_from_self_pre(old(state)@, attacker, defender, base_damage),

    ensures
        attack_discard_energy_from_self_post(old(state)@, final(state)@, attacker, defender, base_damage, r),
{
    let (ko, e0) = hit_active(state, defender, base_damage);
    let ghost g1 = state@;
    discard_active_energy(&mut state.players[attacker.0]);
    proof {
        assert(state@.players =~= g1.players.update(attacker.0 as int, state.players@[attacker.0 as int]@));
    }
    let mut events: Vec<Event> = Vec::new();
    events.push(e0);
    proof {
        assert(events@ =~= seq![e0]);
    }
    Ok(AttackResult { damage: base_damage, ko, bench_damage: Vec::new(), events, self_lock: false })
}

/// Moonlight Shuriken's bench hits, one after the other for each slot of
/// `slots`: the state after them, the damage dealt to each and their events.
/// Each hit deals 90 with the modifiers but without weakness or resistance.
pub open spec fn shuriken_hits(g: GameView, attacker: PlayerId, defender: PlayerId, slots: Seq<SlotRef>) -> (
    GameView,
    Seq<(SlotRef, u16)>,
    Seq<Event>,
)
    decreases slots.len(),
{
    if slots.len() == 0 {
        (g, Seq::empty(), Seq::empty())
    } else {
        let (g1, bd, ev) = shuriken_hits(g, attacker, defender, slots.drop_last());
        let t = slots.last();
        let dmg = spec_bench_damage(g1, attacker, SlotRef::Active, defender, t, 90) as u16;
        let ko = spec_damage_kos(g1, defender, t, dmg);
        (spec_apply_damage(g1, defender, t, dmg), bd.push((t, dmg)), ev.push(damage_event(defender, t, dmg, ko)))
    }
}

/// Every hit of `shuriken_hits` can be computed and added without overflow.
pub open spec fn shuriken_fits(g: GameView, attacker: PlayerId, defender: PlayerId, slots: Seq<SlotRef>) -> bool
    decreases slots.len(),
{
    if slots.len() == 0 {
        true
    } else {
        let g1 = shuriken_hits(g, attacker, defender, slots.drop_last()).0;
        let t = slots.last();
        &&& shuriken_fits(g, attacker, defender, slots.drop_last())
        &&& bench_damage_fits(g1, attacker, SlotRef::Active, defender, t, 90)
        &&& damage_addable(g1, defender, t, spec_bench_damage(g1, attacker, SlotRef::Active, defender, t, 90) as u16)
    }
}

proof fn lemma_shuriken_wf(g: GameView, attacker: PlayerId, defender: PlayerId, slots: Seq<SlotRef>)
    requires
        g.wf(),
        defender.0 < 2,
    ensures
        shuriken_hits(g, attacker, defender, slots).0.wf(),
    decreases slots.len(),
{
    if slots.len() > 0 {
        lemma_shuriken_wf(g, attacker, defender, slots.drop_last());
    }
}

/// The first `n` elements of `s` (all of them when it is shorter).
pub open spec fn first_n<T>(s: Seq<T>, n: nat) -> Seq<T> {
    if s.len() <= n {
        s
    } else {
        s.take(n as int)
    }
}

/// What `attack_moonlight_shuriken` requires of the state.
pub open spec fn attack_moonlight_shuriken_pre(g: GameView, attacker: PlayerId, defender: PlayerId, base_damage: u16, choices: Choices) -> bool {
    &&& (attacker.0 < 2)
    &&& (defender.0 < 2)
    &&& (g.wf())
    &&& (damage_addable(g, defender, SlotRef::Active, base_damage))
    &&& (shuriken_fits(
        spec_apply_damage(g, defender, SlotRef::Active, base_damage),
        attacker,
        defender,
        first_n(choices.selected_slots@, 2),
    )
    )
}

/// What `attack_moonlight_shuriken` does: `g` before, `g2` after, `r` its result.
pub open spec fn attack_moonlight_shuriken_post(g: GameView, g2: GameView, attacker: PlayerId, defender: PlayerId, base_damage: u16, choices: Choices, r: EngineResult<AttackResult>) -> bool {
    &&& (r matches Ok(res) && {
        let ko = spec_damage_kos(g, defender, SlotRef::Active, base_damage);
        let g1 = spec_apply_damage(g, defender, SlotRef::Active, base_damage);
        let (gh, bd, ev) = shuriken_hits(g1, attacker, defender, first_n(choices.selected_slots@, 2));
        &&& res.damage == base_damage
        &&& res.ko == ko
        &&& !res.self_lock
        &&& res.bench_damage@ == bd
        &&& res.events@ == seq![damage_event(defender, SlotRef::Active, base_damage, ko)] + ev
        &&& g2 == gh
    }
    )
}

/// Moonlight Shuriken: the base damage to the active Pokemon, then 90
/// (computed as for an attack) to each of up to two chosen slots.
pub fn attack_moonlight_shuriken(
    state: &mut GameState,
    attacker: PlayerId,
    defender: PlayerId,
    base_damage: u16,
    choices: &Choices,
) -> (r: EngineResult<AttackResult>)
    requires
        attack_moonlight_shuriken_pre(old(state)@, attacker, defender, base_damage, *choices),

    ensures
        attack_moonlight_shuriken_post(old(state)@, final(state)@, attacker, defender, base_damage, *choices, r),
{
    let calc = DamageCalculator::new();
    let (ko, e0) = hit_active(state, defender, base_damage);
    let ghost g1 = state@;
    let ghost slots = first_n(choices.selected_slots@, 2);
    proof {
        lemma_apply_damage_wf(old(state)@, defender, SlotRef::Active, base_damage);
    }
    let mut bench_damage: Vec<(SlotRef, u16)> = Vec::new();
    let mut events: Vec<Event> = Vec::new();
    events.push(e0);
    let n: usize = if choices.selected_slots.len() < 2 {
        choices.selected_slots.len()
    } else {
        2
    };
    proof {
        assert(slots.len() == n);
    }
    let mut k: usize = 0;
    while k < n
        invariant
            attacker.0 < 2,
            defender.0 < 2,
            g1.wf(),
            n == slots.len(),
            n <= choices.selected_slots@.len(),
            slots == first_n(choices.selected_slots@, 2),
            forall|j: int| 0 <= j < n ==> slots[j] == choices.selected_slots@[j],
            shuriken_fits(g1, attacker, defender, slots),
            k <= n,
            (state@, bench_damage@, events@.drop_first()) == shuriken_hits(g1, attacker, defender, slots.take(k as int)),
            events@.len() >= 1,
            events@[0] == e0,
        decreases n - k,
    {
        let t = choices.selected_slots[k];
        proof {
            assert(slots.take(k + 1).drop_last() =~= slots.take(k as int));
            assert(slots.take(k + 1).last() == t);
            lemma_shuriken_fits_prefix(g1, attacker, defender, slots, k + 1);
            lemma_shuriken_wf(g1, attacker, defender, slots.take(k as int));
        }
        let bench_dmg = calc.calculate_bench_damage(state, attacker, SlotRef::Active, defender, t, 90);
        bench_damage.push((t, bench_dmg));
        let bench_ko = apply_damage(state, defender, t, bench_dmg);
        let ghost ev_before = events@;
        events.push(Event::Damage { target_player: defender, target_slot: t, damage: bench_dmg, ko: bench_ko });
        proof {
            assert(events@.drop_first() =~= ev_before.drop_first().push(damage_event(defender, t, bench_dmg, bench_ko)));
        }
        k = k + 1;
    }
    proof {
        assert(slots.take(n as int) =~= slots);
        assert(events@ =~= seq![e0] + events@.drop_first());
    }
    Ok(AttackResult { damage: base_damage, ko, bench_damage, events, self_lock: false })
}

proof fn lemma_shuriken_fits_prefix(g: GameView, attacker: PlayerId, defender: PlayerId, slots: Seq<SlotRef>, k: int)
    requires
        shuriken_fits(g, attacker, defender, slots),
        0 <= k <= slots.len(),
    ensures
        shuriken_fits(g, attacker, defender, slots.take(k)),
    decreases slots.len(),
{
    if k < slots.len() {
        assert(slots.drop_last().take(k) =~= slots.take(k));
        lemma_shuriken_fits_prefix(g, attacker, defender, slots.drop_last(), k);
    } else {
        assert(slots.take(k) =~= slots);
    }
}

/// The player after the first copy of `c` in the hand (if any) is discarded.
pub open spec fn spec_discard_card(pv: PlayerView, c: CardInstanceId) -> PlayerView {
    if pv.hand.contains(c) {
        PlayerView { hand: spec_remove_first(pv.hand, c), discard: pv.discard.push(c), ..pv }
    } else {
        pv
    }
}

fn discard_card(ps: &mut PlayerState, c: CardInstanceId)
    ensures
        final(ps)@ == spec_discard_card(old(ps)@, c),
{
    let ghost h0 = ps.hand@;
    if crate::state::remove_card(&mut ps.hand, c) {
        ps.discard.push(c);
    } else {
        proof {
            crate::state::lemma_remove_first_absent(h0, c);
        }
    }
}

/// Whether Gale Winds' extra hit is chosen: mode 1 with a card to discard.
pub open spec fn gale_extra(choices: Choices) -> bool {
    choices.mode == Some(1u8) && choices.selected_cards@.len() > 0
}

/// What `attack_gale_winds` requires of the state.
pub open spec fn attack_gale_winds_pre(g: GameView, attacker: PlayerId, defender: PlayerId, base_damage: u16, choices: Choices) -> bool {
    &&& (attacker.0 < 2)
    &&& (defender.0 < 2)
    &&& (damage_addable(g, defender, SlotRef::Active, base_damage))
    &&& (gale_extra(choices) && choices.selected_slots@.len() > 0 ==> {
        let g1 = spec_apply_damage(g, defender, SlotRef::Active, base_damage);
        let g2 = g1.with_player(attacker, spec_discard_card(g1.player(attacker), choices.selected_cards@[0]));
        damage_addable(g2, defender, choices.selected_slots@[0], 120)
    }
    )
}

/// What `attack_gale_winds` does: `g` before, `g2` after, `r` its result.
pub open spec fn attack_gale_winds_post(g: GameView, g2: GameView, attacker: PlayerId, defender: PlayerId, base_damage: u16, choices: Choices, r: EngineResult<AttackResult>) -> bool {
    &&& (r matches Ok(res) && {
        let ko = spec_damage_kos(g, defender, SlotRef::Active, base_damage);
        let g1 = spec_apply_damage(g, defender, SlotRef::Active, base_damage);
        let e0 = damage_event(defender, SlotRef::Active, base_damage, ko);
        &&& res.damage == base_damage
        &&& res.ko == ko
        &&& !res.self_lock
        &&& if !gale_extra(choices) {
            &&& res.bench_damage@.len() == 0
            &&& res.events@ == seq![e0]
            &&& g2 == g1
        } else {
            let gd = g1.with_player(attacker, spec_discard_card(g1.player(attacker), choices.selected_cards@[0]));
            if choices.selected_slots@.len() > 0 {
                let t = choices.selected_slots@[0];
                &&& res.bench_damage@ == seq![(t, 120u16)]
                &&& res.events@ == seq![e0, damage_event(defender, t, 120, spec_damage_kos(gd, defender, t, 120))]
                &&& g2 == spec_apply_damage(gd, defender, t, 120)
            } else {
                &&& res.bench_damage@.len() == 0
                &&& res.events@ == seq![e0]
                &&& g2 == gd
            }
        }
    }
    )
}

/// Gale Winds: the base damage to the active Pokemon; in mode 1 with a chosen
/// card, that card is discarded from the attacker's hand (when there) and 120
/// goes to the first chosen slot, if any.
pub fn attack_gale_winds(
    state: &mut GameState,
    attacker: PlayerId,
    defender: PlayerId,
    base_damage: u16,
    choices: &Choices,
) -> (r: EngineResult<AttackResult>)
    requires
        attack_gale_winds_pre(old(state)@, attacker, defender, base_damage, *choices),

    ensures
        attack_gale_winds_post(old(state)@, final(state)@, attacker, defender, base_damage, *choices, r),
{
    let (ko, e0) = hit_active(state, defender, base_damage);
    let mut bench_damage: Vec<(SlotRef, u16)> = Vec::new();
    let mut events: Vec<Event> = Vec::new();
    events.push(e0);
    if choices.mode == Some(1u8) && choices.selected_cards.len() > 0 {
        let stadium_card = choices.selected_cards[0];
        let ghost g1 = state@;
        discard_card(&mut state.players[attacker.0], stadium_card);
        proof {
            assert(state@.players =~= g1.players.update(attacker.0 as int, state.players@[attacker.0 as int]@));
        }
        if choices.selected_slots.len() > 0 {
            let t = choices.selected_slots[0];
            bench_damage.push((t, 120u16));
            let bench_ko = apply_damage(state, defender, t, 120);
            events.push(Event::Damage { target_player: defender, target_slot: t, damage: 120, ko: bench_ko });
            proof {
                assert(bench_damage@ =~= seq![(t, 120u16)]);
                assert(events@ =~= seq![e0, damage_event(defender, t, 120, bench_ko)]);
            }
        } else {
            proof {
                assert(events@ =~= seq![e0]);
            }
        }
    } else {
        proof {
            assert(events@ =~= seq![e0]);
        }
    }
    Ok(AttackResult { damage: base_damage, ko, bench_damage, events, self_lock: false })
}

/// Whether bench slot `i` holds a Pokemon with at least one card.
pub open spec fn occupied(bench: Seq<Option<SlotView>>, i: int) -> bool {
    bench[i] matches Some(s) && s.cards.len() > 0
}

/// The bench indices below `k` that Phantom Dive hits, in order.
pub open spec fn phantom_targets(bench: Seq<Option<SlotView>>, k: nat) -> Seq<usize>
    decreases k,
{
    if k == 0 {
        Seq::empty()
    } else {
        let prev = phantom_targets(bench, (k - 1) as nat);
        if occupied(bench, k - 1) {
            prev.push((k - 1) as usize)
        } else {
            prev
        }
    }
}

/// The first occupied bench slot below `k`.
pub open spec fn phantom_first(bench: Seq<Option<SlotView>>, k: nat) -> Option<usize>
    decreases k,
{
    if k == 0 {
        None
    } else {
        match phantom_first(bench, (k - 1) as nat) {
            Some(j) => Some(j),
            None => if occupied(bench, k - 1) {
                Some((k - 1) as usize)
            } else {
                None
            },
        }
    }
}

proof fn lemma_phantom_first(bench: Seq<Option<SlotView>>, k: nat)
    requires
        k <= usize::MAX,
    ensures
        phantom_first(bench, k) matches Some(j) ==> j < k && occupied(bench, j as int),
    decreases k,
{
    if k > 0 {
        lemma_phantom_first(bench, (k - 1) as nat);
    }
}

/// The Pokemon that takes Phantom Dive's six damage counters: the first
/// occupied one among the five bench slots.
pub open spec fn phantom_target(g: GameView, defender: PlayerId) -> Option<usize> {
    phantom_first(g.player(defender).bench, 5)
}

/// What `attack_phantom_dive` requires of the state.
pub open spec fn attack_phantom_dive_pre(g: GameView, attacker: PlayerId, defender: PlayerId, base_damage: u16, choices: Choices) -> bool {
    &&& (defender.0 < 2)
    &&& (g.wf())
    &&& (damage_addable(g, defender, SlotRef::Active, base_damage))
    &&& (phantom_target(g, defender) matches Some(j) ==> g.player(defender).bench[j as int]->0.damage + 60
        <= u16::MAX)
}

/// What `attack_phantom_dive` does: `g` before, `g2` after, `r` its result.
pub open spec fn attack_phantom_dive_post(g: GameView, g2: GameView, attacker: PlayerId, defender: PlayerId, base_damage: u16, choices: Choices, r: EngineResult<AttackResult>) -> bool {
    &&& (r matches Ok(res) && {
        let ko = spec_damage_kos(g, defender, SlotRef::Active, base_damage);
        let g1 = spec_apply_damage(g, defender, SlotRef::Active, base_damage);
        let e0 = damage_event(defender, SlotRef::Active, base_damage, ko);
        &&& res.damage == base_damage
        &&& res.ko == ko
        &&& !res.self_lock
        &&& match phantom_target(g, defender) {
            Some(j) => {
                let s = g.player(defender).bench[j as int]->0;
                &&& res.bench_damage@ == seq![(SlotRef::Bench(j), 60u16)]
                &&& res.events@ == seq![e0, damage_event(defender, SlotRef::Bench(j), 60, false)]
                &&& g2 == g1.with_player(
                    defender,
                    g1.player(defender).with_slot(SlotRef::Bench(j), Some(SlotView { damage: (s.damage + 60) as u16, ..s })),
                )
            },
            None => {
                &&& res.bench_damage@.len() == 0
                &&& res.events@ == seq![e0]
                &&& g2 == g1
            },
        }
    }
    )
}

/// Phantom Dive: the base damage to the active Pokemon, then six damage
/// counters (60 damage, without a knock-out check) on the defender's bench:
/// all on the first occupied bench slot.
pub fn attack_phantom_dive(
    state: &mut GameState,
    attacker: PlayerId,
    defender: PlayerId,
    base_damage: u16,
    choices: &Choices,
) -> (r: EngineResult<AttackResult>)
    requires
        attack_phantom_dive_pre(old(state)@, attacker, defender, base_damage, *choices),
    ensures
        attack_phantom_dive_post(old(state)@, final(state)@, attacker, defender, base_damage, *choices, r),
{
    let (ko, e0) = hit_active(state, defender, base_damage);
    let ghost g1 = state@;
    let ghost bench0 = old(state)@.player(defender).bench;
    let mut bench_damage: Vec<(SlotRef, u16)> = Vec::new();
    let mut events: Vec<Event> = Vec::new();
    events.push(e0);
    proof {
        assert(g1.player(defender).bench == bench0);
        assert(state@.players[defender.0 as int] == state.players@[defender.0 as int]@);
    }
    let mut target: Option<usize> = None;
    let mut i: usize = 0;
    while i < 5 && target.is_none()
        invariant
            defender.0 < 2,
            i <= 5,
            bench0.len() == 5,
            state@ == g1,
            g1.player(defender).bench == bench0,
            state.players@[defender.0 as int]@ == g1.player(defender),
            target == phantom_first(bench0, i as nat),
            target is Some ==> i >= 1,
            target matches Some(j) ==> phantom_first(bench0, 5) == Some(j),
        decreases 5 - i,
    {
        let hit = match &state.players[defender.0].bench[i] {
            Some(slot) => !slot.is_empty(),
            None => false,
        };
        proof {
            assert(state.players@[defender.0 as int]@.bench[i as int] == crate::state::opt_slot_view(state.players@[defender.0 as int].bench@[i as int]));
            assert(hit == occupied(bench0, i as int));
        }
        if hit {
            target = Some(i);
            proof {
                lemma_phantom_first_stays(bench0, (i + 1) as nat, 5);
            }
        }
        i = i + 1;
    }
    proof {
        if target is None {
            assert(i == 5);
        }
    }
    match target {
        Some(j) => {
            proof {
                lemma_phantom_first(bench0, 5);
                assert(state.players@[defender.0 as int]@.bench[j as int] == crate::state::opt_slot_view(state.players@[defender.0 as int].bench@[j as int]));
            }
            let mut slot = state.players[defender.0].bench[j].take().unwrap();
            slot.damage = slot.damage + 60;
            state.players[defender.0].bench.set(j, Some(slot));
            proof {
                let s = bench0[j as int]->0;
                assert(state.players@[defender.0 as int]@ =~= g1.player(defender).with_slot(SlotRef::Bench(j), Some(SlotView { damage: (s.damage + 60) as u16, ..s })));
                assert(state@.players =~= g1.players.update(
                    defender.0 as int,
                    g1.player(defender).with_slot(SlotRef::Bench(j), Some(SlotView { damage: (s.damage + 60) as u16, ..s })),
                ));
            }
            bench_damage.push((SlotRef::Bench(j), 60u16));
            events.push(Event::Damage { target_player: defender, target_slot: SlotRef::Bench(j), damage: 60, ko: false });
            proof {
                assert(bench_damage@ =~= seq![(SlotRef::Bench(j), 60u16)]);
                assert(events@ =~= seq![e0, damage_event(defender, SlotRef::Bench(j), 60, false)]);
            }
        },
        None => {
            proof {
                assert(bench_damage@.len() == 0);
            }
        },
    }
    Ok(AttackResult { damage: base_damage, ko, bench_damage, events, self_lock: false })
}

proof fn lemma_phantom_first_stays(bench: Seq<Option<SlotView>>, k: nat, n: nat)
    requires
        k <= n,
        phantom_first(bench, k) is Some,
    ensures
        phantom_first(bench, n) == phantom_first(bench, k),
    decreases n - k,
{
    if k < n {
        lemma_phantom_first_stays(bench, k, (n - 1) as nat);
    }
}

/// The player after the Pokemon at `source` discards its last energy card and
/// draws 2; unchanged when there is no Pokemon there or it has no energy.
pub open spec fn spec_concealed_cards(pv: PlayerView, source: SlotRef) -> PlayerView {
    match pv.slot(source) {
        Some(s) => if s.energies.len() > 0 {
            let p1 = pv.with_slot(source, Some(SlotView { energies: s.energies.drop_last(), ..s }));
            spec_draw(PlayerView { discard: p1.discard.push(s.energies.last()), ..p1 }, 2)
        } else {
            pv
        },
        None => pv,
    }
}

/// What `ability_concealed_cards` does: `g` before, `g2` after, `r` its result.
pub open spec fn ability_concealed_cards_post(g: GameView, g2: GameView, player: PlayerId, source: SlotRef, r: EngineResult<EffectResult>) -> bool {
    &&& (r matches Ok(res) && res.events@.len() == 0)
    &&& (g2 == g.with_player(player, spec_concealed_cards(g.player(player), source)))
}

/// Concealed Cards: discard an energy card from this Pokemon and draw 2.
pub fn ability_concealed_cards(state: &mut GameState, player: PlayerId, source: SlotRef) -> (r: EngineResult<EffectResult>)
    requires
        player.0 < 2,
    ensures
        ability_concealed_cards_post(old(state)@, final(state)@, player, source, r),
{
    let ps = &mut state.players[player.0];
    let ghost p0 = ps@;
    match ps.take_slot(source) {
        Some(mut slot) => {
            if slot.energies.len() == 0 {
                ps.put_slot(source, Some(slot));
                proof {
                    crate::state::lemma_with_slot_twice(p0, source, None, Some(slot@));
                    crate::state::lemma_with_slot_same(p0, source);
                }
            } else {
                let ghost s0 = slot@;
                let e = slot.energies.pop().unwrap();
                ps.put_slot(source, Some(slot));
                proof {
                    crate::state::lemma_with_slot_twice(p0, source, None, Some(slot@));
                    assert(slot@ == (SlotView { energies: s0.energies.drop_last(), ..s0 }));
                }
                ps.discard.push(e);
                ps.draw(2);
            }
        },
        None => {
            proof {
                crate::state::lemma_with_slot_none(p0, source);
            }
        },
    }
    proof {
        assert(state@.players =~= old(state)@.players.update(player.0 as int, state.players@[player.0 as int]@));
    }
    Ok(EffectResult::new())
}

/// The player after putting the hand on the bottom of the deck and drawing as
/// many cards; unchanged with an empty hand.
pub open spec fn spec_restart(pv: PlayerView) -> PlayerView {
    if pv.hand.len() == 0 {
        pv
    } else {
        spec_draw(PlayerView { hand: Seq::empty(), deck: pv.hand + pv.deck, ..pv }, pv.hand.len())
    }
}

/// What `ability_restart` does: `g` before, `g2` after, `r` its result.
pub open spec fn ability_restart_post(g: GameView, g2: GameView, player: PlayerId, source: SlotRef, r: EngineResult<EffectResult>) -> bool {
    &&& (r matches Ok(res) && res.events@.len() == 0)
    &&& (g2 == g.with_player(player, spec_restart(g.player(player))))
}

/// Restart: put the hand on the bottom of the deck, then draw as many cards.
pub fn ability_restart(state: &mut GameState, player: PlayerId, source: SlotRef) -> (r: EngineResult<EffectResult>)
    requires
        player.0 < 2,
    ensures
        ability_restart_post(old(state)@, final(state)@, player, source, r),
{
    let ps = &mut state.players[player.0];
    let hand_size = ps.hand.len();
    if hand_size > 0 {
        let ghost p0 = ps@;
        let mut deck: Vec<CardInstanceId> = Vec::new();
        let mut k: usize = 0;
        while k < ps.hand.len()
            invariant
                k <= ps.hand@.len(),
                ps@ == p0,
                deck@ == p0.hand.take(k as int),
            decreases ps.hand@.len() - k,
        {
            deck.push(ps.hand[k]);
            proof {
                assert(p0.hand.take(k + 1) =~= p0.hand.take(k as int).push(p0.hand[k as int]));
            }
            k = k + 1;
        }
        let mut j: usize = 0;
        while j < ps.deck.len()
            invariant
                j <= ps.deck@.len(),
                ps@ == p0,
                deck@ == p0.hand + p0.deck.take(j as int),
            decreases ps.deck@.len() - j,
        {
            deck.push(ps.deck[j]);
            proof {
                assert(p0.hand + p0.deck.take(j + 1) =~= (p0.hand + p0.deck.take(j as int)).push(p0.deck[j as int]));
            }
            j = j + 1;
        }
        proof {
            assert(p0.hand.take(p0.hand.len() as int) =~= p0.hand);
            assert(p0.deck.take(p0.deck.len() as int) =~= p0.deck);
        }
        ps.deck = deck;
        ps.hand = Vec::new();
        ps.draw(hand_size);
    }
    proof {
        assert(state@.players =~= old(state)@.players.update(player.0 as int, state.players@[player.0 as int]@));
    }
    Ok(EffectResult::new())
}

/// Whether the card `id` is an Energy card of type `t`.
pub open spec fn has_energy_type(g: GameView, id: CardInstanceId, t: EnergyType) -> bool {
    g.def_of(id) matches Some(d) && d.spec_is_energy() && d.energy_type == Some(t)
}

/// Index of the first Energy card of type `t` in `s`.
pub open spec fn first_of_type(g: GameView, s: Seq<CardInstanceId>, t: EnergyType) -> Option<int>
    decreases s.len(),
{
    if s.len() == 0 {
        None
    } else if has_energy_type(g, s[0], t) {
        Some(0)
    } else {
        match first_of_type(g, s.drop_first(), t) {
            Some(j) => Some(j + 1),
            None => None,
        }
    }
}

/// The player after the first card of type `t` in the discard pile is taken
/// out and attached to the Pokemon at `source` (lost when there is none).
pub open spec fn spec_attach_from_discard(g: GameView, p: PlayerId, source: SlotRef, t: EnergyType) -> PlayerView {
    let pv = g.player(p);
    match first_of_type(g, pv.discard, t) {
        Some(j) => spec_attach_all(PlayerView { discard: pv.discard.remove(j), ..pv }, source, seq![pv.discard[j]]),
        None => pv,
    }
}

proof fn lemma_first_of_type(g: GameView, s: Seq<CardInstanceId>, t: EnergyType, i: int)
    requires
        0 <= i <= s.len(),
        forall|j: int| 0 <= j < i ==> !#[trigger] has_energy_type(g, s[j], t),
    ensures
        i < s.len() && has_energy_type(g, s[i], t) ==> first_of_type(g, s, t) == Some(i),
        i == s.len() ==> first_of_type(g, s, t) is None,
    decreases i,
{
    if i > 0 {
        assert(!has_energy_type(g, s[0], t));
        assert forall|j: int| 0 <= j < i - 1 implies !#[trigger] has_energy_type(g, s.drop_first()[j], t) by {
            assert(s.drop_first()[j] == s[j + 1]);
        }
        lemma_first_of_type(g, s.drop_first(), t, i - 1);
    }
}

fn position_of_type(state: &GameState, player: PlayerId, t: EnergyType) -> (r: Option<usize>)
    requires
        player.0 < 2,
    ensures
        match r {
            Some(j) => first_of_type(state@, state@.player(player).discard, t) == Some(j as int) && j
                < state@.player(player).discard.len(),
            None => first_of_type(state@, state@.player(player).discard, t) is None,
        },
{
    let discard = &state.players[player.0].discard;
    let ghost s = state@.player(player).discard;
    let mut i: usize = 0;
    while i < discard.len()
        invariant
            discard@ == s,
            s == state@.player(player).discard,
            i <= s.len(),
            forall|j: int| 0 <= j < i ==> !#[trigger] has_energy_type(state@, s[j], t),
        decreases s.len() - i,
    {
        let hit = match state.get_card_def(discard[i]) {
            Some(d) => (d.card_type == CardType::BasicEnergy || d.card_type == CardType::SpecialEnergy)
                && d.energy_type == Some(t),
            None => false,
        };
        if hit {
            proof {
                lemma_first_of_type(state@, s, t, i as int);
            }
            return Some(i);
        }
        i = i + 1;
    }
    proof {
        lemma_first_of_type(state@, s, t, i as int);
    }
    None
}

fn attach_from_discard(state: &mut GameState, player: PlayerId, source: SlotRef, t: EnergyType)
    requires
        player.0 < 2,
    ensures
        final(state)@ == old(state)@.with_player(player, spec_attach_from_discard(old(state)@, player, source, t)),
{
    match position_of_type(state, player, t) {
        Some(pos) => {
            let card = state.players[player.0].discard.remove(pos);
            let mut one: Vec<CardInstanceId> = Vec::new();
            one.push(card);
            attach_all(&mut state.players[player.0], source, &one);
            proof {
                assert(one@ =~= seq![card]);
            }
        },
        None => {},
    }
    proof {
        assert(state@.players =~= old(state)@.players.update(player.0 as int, state.players@[player.0 as int]@));
    }
}

/// What `ability_burst_roar` does: `g` before, `g2` after, `r` its result.
pub open spec fn ability_burst_roar_post(g: GameView, g2: GameView, player: PlayerId, source: SlotRef, r: EngineResult<EffectResult>) -> bool {
    &&& (r matches Ok(res) && res.events@.len() == 0)
    &&& (g2 == g.with_player(player, spec_attach_from_discard(g, player, source, EnergyType::Fire)))
}

/// Burst Roar: attach the first Fire Energy card of the discard pile to this Pokemon.
pub fn ability_burst_roar(state: &mut GameState, player: PlayerId, source: SlotRef) -> (r: EngineResult<EffectResult>)
    requires
        player.0 < 2,
    ensures
        ability_burst_roar_post(old(state)@, final(state)@, player, source, r),
{
    attach_from_discard(state, player, source, EnergyType::Fire);
    Ok(EffectResult::new())
}

/// What `ability_psychic_embrace` does: `g` before, `g2` after, `r` its result.
pub open spec fn ability_psychic_embrace_post(g: GameView, g2: GameView, player: PlayerId, source: SlotRef, r: EngineResult<EffectResult>) -> bool {
    &&& (r matches Ok(res) && res.events@.len() == 0)
    &&& (g2 == g.with_player(
        player,
        spec_attach_from_discard(g, player, source, EnergyType::Psychic),
    )
    )
}

/// Psychic Embrace: attach the first Psychic Energy card of the discard pile to this Pokemon.
pub fn ability_psychic_embrace(state: &mut GameState, player: PlayerId, source: SlotRef) -> (r: EngineResult<EffectResult>)
    requires
        player.0 < 2,
    ensures
        ability_psychic_embrace_post(old(state)@, final(state)@, player, source, r),
{
    attach_from_discard(state, player, source, EnergyType::Psychic);
    Ok(EffectResult::new())
}

/// What `ability_squawk_and_seize` does: `g` before, `g2` after, `r` its result.
pub open spec fn ability_squawk_and_seize_post(g: GameView, g2: GameView, player: PlayerId, source: SlotRef, r: EngineResult<EffectResult>) -> bool {
    &&& (g.turn.turn_number > 2 ==> g2 == g && is_err(
        r,
        ErrorKind::InvalidAction,
        "Squawk and Seize can only be used on your first turn"@,
    ))
    &&& (g.turn.turn_number <= 2 ==> {
        let pv = g.player(player);
        &&& r matches Ok(res) && res.events@.len() == 0
        &&& g2 == g.with_player(
            player,
            spec_draw(PlayerView { discard: pv.discard + pv.hand, hand: Seq::empty(), ..pv }, 6),
        )
    })
}

/// Squawk and Seize: on the player's first turn (turn 1 or 2 of the game),
/// discard the whole hand, then draw 6; refused on any later turn.
pub fn ability_squawk_and_seize(state: &mut GameState, player: PlayerId, source: SlotRef) -> (r: EngineResult<EffectResult>)
    requires
        player.0 < 2,
    ensures
        ability_squawk_and_seize_post(old(state)@, final(state)@, player, source, r),
{
    if state.turn.turn_number > 2 {
        return Err(EngineError::invalid_action("Squawk and Seize can only be used on your first turn"));
    }
    let ps = &mut state.players[player.0];
    let ghost p0 = ps@;
    let mut k: usize = 0;
    while k < ps.hand.len()
        invariant
            k <= ps.hand@.len(),
            ps.hand@ == p0.hand,
            ps@ == (PlayerView { discard: p0.discard + p0.hand.take(k as int), ..p0 }),
        decreases ps.hand@.len() - k,
    {
        let c = ps.hand[k];
        ps.discard.push(c);
        proof {
            assert(p0.discard + p0.hand.take(k + 1) =~= (p0.discard + p0.hand.take(k as int)).push(c));
        }
        k = k + 1;
    }
    proof {
        assert(p0.hand.take(p0.hand.len() as int) =~= p0.hand);
    }
    ps.hand = Vec::new();
    ps.draw(6);
    proof {
        assert(state@.players =~= old(state)@.players.update(player.0 as int, state.players@[player.0 as int]@));
    }
    Ok(EffectResult::new())
}

/// Whether the card `id` is a Supporter.
pub open spec fn is_supporter_card(g: GameView, id: CardInstanceId) -> bool {
    g.def_of(id) matches Some(d) && d.card_type == CardType::Supporter
}

/// Index of the last Supporter of `s` (the one nearest the top of a deck).
pub open spec fn last_supporter(g: GameView, s: Seq<CardInstanceId>) -> Option<int>
    decreases s.len(),
{
    if s.len() == 0 {
        None
    } else if is_supporter_card(g, s.last()) {
        Some(s.len() - 1)
    } else {
        last_supporter(g, s.drop_last())
    }
}

proof fn lemma_last_supporter(g: GameView, s: Seq<CardInstanceId>, i: int)
    requires
        0 <= i <= s.len(),
        forall|j: int| i <= j < s.len() ==> !#[trigger] is_supporter_card(g, s[j]),
    ensures
        i > 0 && is_supporter_card(g, s[i - 1]) ==> last_supporter(g, s) == Some(i - 1),
        i == 0 ==> last_supporter(g, s) is None,
    decreases s.len(),
{
    if s.len() > 0 && i < s.len() {
        assert(!is_supporter_card(g, s[s.len() - 1]));
        assert forall|j: int| i <= j < s.len() - 1 implies !#[trigger] is_supporter_card(g, s.drop_last()[j]) by {
            assert(s.drop_last()[j] == s[j]);
        }
        lemma_last_supporter(g, s.drop_last(), i);
    }
}

/// What `ability_luminous_sign` does: `g` before, `g2` after, `r` its result.
pub open spec fn ability_luminous_sign_post(g: GameView, g2: GameView, player: PlayerId, source: SlotRef, r: EngineResult<EffectResult>) -> bool {
    &&& (r matches Ok(res) && res.events@.len() == 0)
    &&& (({
        let pv = g.player(player);
        g2 == match last_supporter(g, pv.deck) {
            Some(j) => g.with_player(player, PlayerView { deck: pv.deck.remove(j), hand: pv.hand.push(pv.deck[j]), ..pv }),
            None => g,
        }
    })
    )
}

/// Luminous Sign: take the Supporter nearest the top of the deck into the hand.
pub fn ability_luminous_sign(state: &mut GameState, player: PlayerId, source: SlotRef) -> (r: EngineResult<EffectResult>)
    requires
        player.0 < 2,
    ensures
        ability_luminous_sign_post(old(state)@, final(state)@, player, source, r),
{
    let ghost s = state@.player(player).deck;
    let mut i: usize = state.players[player.0].deck.len();
    let mut found: Option<usize> = None;
    while i > 0 && found.is_none()
        invariant
            player.0 < 2,
            i <= s.len(),
            s == state@.player(player).deck,
            state.players@[player.0 as int].deck@ == s,
            found is None ==> forall|j: int| i <= j < s.len() ==> !#[trigger] is_supporter_card(state@, s[j]),
            found matches Some(j) ==> j < s.len() && last_supporter(state@, s) == Some(j as int),
        decreases i + (if found is None { 1int } else { 0int }),
    {
        let id = state.players[player.0].deck[i - 1];
        let hit = match state.get_card_def(id) {
            Some(d) => d.card_type == CardType::Supporter,
            None => false,
        };
        if hit {
            proof {
                lemma_last_supporter(state@, s, i as int);
            }
            found = Some(i - 1);
        } else {
            i = i - 1;
        }
    }
    proof {
        if found is None {
            lemma_last_supporter(state@, s, 0);
        }
    }
    match found {
        Some(idx) => {
            let ps = &mut state.players[player.0];
            let card_id = ps.deck.remove(idx);
            ps.hand.push(card_id);
            proof {
                assert(state@.players =~= old(state)@.players.update(player.0 as int, state.players@[player.0 as int]@));
            }
        },
        None => {},
    }
    Ok(EffectResult::new())
}

/// What `ability_instant_charge` does: `g` before, `g2` after, `r` its result.
pub open spec fn ability_instant_charge_post(g: GameView, g2: GameView, player: PlayerId, source: SlotRef, r: EngineResult<EffectResult>) -> bool {
    &&& (r matches Ok(res) && res.events@.len() == 0)
    &&& (g2 == g.with_player(player, spec_draw(g.player(player), 3)))
}

/// Instant Charge: draw 3 cards.
pub fn ability_instant_charge(state: &mut GameState, player: PlayerId, source: SlotRef) -> (r: EngineResult<EffectResult>)
    requires
        player.0 < 2,
    ensures
        ability_instant_charge_post(old(state)@, final(state)@, player, source, r),
{
    state.draw_cards(player, 3);
    Ok(EffectResult::new())
}

/// What `ability_flip_the_script` does: `g` before, `g2` after, `r` its result.
pub open spec fn ability_flip_the_script_post(g: GameView, g2: GameView, player: PlayerId, source: SlotRef, r: EngineResult<EffectResult>) -> bool {
    &&& (r matches Ok(res) && res.events@.len() == 0)
    &&& (g2 == g.with_player(player, spec_draw(g.player(player), 3)))
}

/// Flip the Script: draw 3 cards.
pub fn ability_flip_the_script(state: &mut GameState, player: PlayerId, source: SlotRef) -> (r: EngineResult<EffectResult>)
    requires
        player.0 < 2,
    ensures
        ability_flip_the_script_post(old(state)@, final(state)@, player, source, r),
{
    state.draw_cards(player, 3);
    Ok(EffectResult::new())
}

/// Whether the definition `d` has an ability with effect identifier `key`.
pub open spec fn has_ability_effect(d: CardDef, key: Seq<char>) -> bool {
    exists|i: int| 0 <= i < d.abilities@.len() && (#[trigger] d.abilities@[i]).effect_id@ == key
}

/// Whether the top card of the Pokemon `s` has an ability with effect `key`.
pub open spec fn top_has_ability(g: GameView, s: Option<SlotView>, key: Seq<char>) -> bool {
    match s {
        Some(slot) => match spec_top_card(slot) {
            Some(id) => match g.def_of(id) {
                Some(d) => has_ability_effect(d, key),
                None => false,
            },
            None => false,
        },
        None => false,
    }
}

fn def_has_ability(d: &CardDef, key: &str) -> (r: bool)
    ensures
        r == has_ability_effect(*d, key@),
{
    let mut i: usize = 0;
    while i < d.abilities.len()
        invariant
            i <= d.abilities@.len(),
            forall|j: int| 0 <= j < i ==> (#[trigger] d.abilities@[j]).effect_id@ != key@,
        decreases d.abilities@.len() - i,
    {
        if str_eq(d.abilities[i].effect_id.as_str(), key) {
            return true;
        }
        i = i + 1;
    }
    false
}

fn slot_has_ability(state: &GameState, slot: &Option<PokemonSlot>, key: &str) -> (r: bool)
    ensures
        r == top_has_ability(state@, crate::state::opt_slot_view(*slot), key@),
{
    match slot {
        Some(s) => match s.top_card() {
            Some(id) => match state.get_card_def(id) {
                Some(d) => def_has_ability(d, key),
                None => false,
            },
            None => false,
        },
        None => false,
    }
}

/// Whether a bench Pokemon of `player` has the Awaken ability.
pub fn is_manaphy_awaken_active(state: &GameState, player: PlayerId) -> (r: bool)
    requires
        player.0 < 2,
    ensures
        r == exists|i: int|
            0 <= i < state@.player(player).bench.len() && #[trigger] top_has_ability(
                state@,
                state@.player(player).bench[i],
                "ability_awaken"@,
            ),
{
    let bench = &state.players[player.0].bench;
    let ghost b = state@.player(player).bench;
    let mut i: usize = 0;
    while i < bench.len()
        invariant
            b == state@.player(player).bench,
            bench@.len() == b.len(),
            forall|j: int| 0 <= j < b.len() ==> b[j] == crate::state::opt_slot_view(#[trigger] bench@[j]),
            i <= b.len(),
            forall|j: int| 0 <= j < i ==> !#[trigger] top_has_ability(state@, b[j], "ability_awaken"@),
        decreases b.len() - i,
    {
        if slot_has_ability(state, &bench[i], "ability_awaken") {
            proof {
                assert(top_has_ability(state@, b[i as int], "ability_awaken"@));
            }
            return true;
        }
        i = i + 1;
    }
    false
}

/// Whether `needle` occurs in `hay` as a contiguous run.
pub open spec fn spec_contains(hay: Seq<char>, needle: Seq<char>) -> bool {
    exists|i: int| 0 <= i && i + needle.len() <= hay.len() && #[trigger] hay.subrange(i, i + needle.len()) == needle
}

/// `str::contains` with a string pattern: true when the pattern occurs in the
/// string as a contiguous run of characters.
#[verifier::external_body]
fn str_contains(hay: &str, needle: &str) -> (r: bool)
    ensures
        r == spec_contains(hay@, needle@),
{
    hay.contains(needle)
}

/// Whether the name of the Pokemon at `source` marks it as a Dusknoir.
pub open spec fn is_dusknoir(g: GameView, s: Option<SlotView>) -> bool {
    match s {
        Some(slot) => match spec_top_card(slot) {
            Some(id) => match g.def_of(id) {
                Some(d) => spec_contains(d.name@, "Dusknoir"@) || spec_contains(d.name@, "黑夜魔灵"@),
                None => false,
            },
            None => false,
        },
        None => false,
    }
}

/// Damage counters of Curse Bomb: 13 for a Dusknoir, 5 otherwise.
pub open spec fn curse_counters(g: GameView, p: PlayerId, source: SlotRef) -> u16 {
    if is_dusknoir(g, g.player(p).slot(source)) {
        13
    } else {
        5
    }
}

/// The state after Curse Bomb: the Pokemon at `source` takes 999 damage, then
/// the opponent's active Pokemon (if any) takes ten per counter.
pub open spec fn spec_curse_bomb(g: GameView, p: PlayerId, source: SlotRef) -> GameView {
    let pv = g.player(p);
    let g1 = match pv.slot(source) {
        Some(s) => g.with_player(p, pv.with_slot(source, Some(SlotView { damage: 999, ..s }))),
        None => g,
    };
    let o = p.opponent();
    let ov = g1.player(o);
    match ov.active {
        Some(a) => g1.with_player(
            o,
            PlayerView { active: Some(SlotView { damage: (a.damage + 10 * curse_counters(g, p, source)) as u16, ..a }), ..ov },
        ),
        None => g1,
    }
}

/// What `ability_dusknoir_curse_bomb` does: `g` before, `g2` after, `r` its result.
pub open spec fn ability_dusknoir_curse_bomb_post(g: GameView, g2: GameView, player: PlayerId, source: SlotRef, r: EngineResult<EffectResult>) -> bool {
    &&& (r matches Ok(res) && res.events@.len() == 0)
    &&& (g2 == spec_curse_bomb(g, player, source))
}

/// Curse Bomb: this Pokemon is knocked out (999 damage) and the opponent's
/// active Pokemon takes 130 (a Dusknoir) or 50 damage.
#[verifier::rlimit(40)]
pub fn ability_dusknoir_curse_bomb(state: &mut GameState, player: PlayerId, source: SlotRef) -> (r: EngineResult<EffectResult>)
    requires
        player.0 < 2,
        ({
            let g = old(state)@;
            let o = player.opponent();
            let g1 = match g.player(player).slot(source) {
                Some(s) => g.with_player(player, g.player(player).with_slot(source, Some(SlotView { damage: 999, ..s }))),
                None => g,
            };
            g1.player(o).active matches Some(a) ==> a.damage + 10 * curse_counters(g, player, source) <= u16::MAX
        }),
    ensures
        ability_dusknoir_curse_bomb_post(old(state)@, final(state)@, player, source, r),
{
    let dusk = match state.players[player.0].get_slot(source) {
        Some(s) => match s.top_card() {
            Some(id) => match state.get_card_def(id) {
                Some(d) => str_contains(d.name.as_str(), "Dusknoir") || str_contains(d.name.as_str(), "黑夜魔灵"),
                None => false,
            },
            None => false,
        },
        None => false,
    };
    let num_counters: u16 = if dusk {
        13
    } else {
        5
    };
    assert(num_counters == curse_counters(old(state)@, player, source));
    let ghost g0 = state@;
    match state.players[player.0].take_slot(source) {
        Some(mut slot) => {
            slot.damage = 999;
            state.players[player.0].put_slot(source, Some(slot));
            proof {
                crate::state::lemma_with_slot_twice(g0.player(player), source, None, Some(slot@));
            }
        },
        None => {
            proof {
                crate::state::lemma_with_slot_none(g0.player(player), source);
            }
        },
    }
    proof {
        assert(state@.players =~= g0.players.update(player.0 as int, state.players@[player.0 as int]@));
    }
    let ghost g1 = state@;
    let opponent = player.opponent();
    match state.players[opponent.0].active.as_mut() {
        Some(active) => {
            active.damage = active.damage + num_counters * 10;
        },
        None => {},
    }
    proof {
        assert(state@.players =~= g1.players.update(opponent.0 as int, state.players@[opponent.0 as int]@));
        assert(state@ == spec_curse_bomb(old(state)@, player, source));
    }
    Ok(EffectResult::new())
}

/// Index of the first bench slot holding a Pokemon with cards.
pub open spec fn first_occupied(bench: Seq<Option<SlotView>>) -> Option<int> {
    if exists|i: int| 0 <= i < bench.len() && #[trigger] occupied(bench, i) {
        Some(choose|i: int| 0 <= i < bench.len() && #[trigger] occupied(bench, i)
            && forall|j: int| 0 <= j < i ==> !#[trigger] occupied(bench, j))
    } else {
        None
    }
}

/// The opponent after Blower: its active Pokemon trades places with its
/// first occupied bench slot, when it has an active Pokemon.
pub open spec fn spec_blower(ov: PlayerView) -> PlayerView {
    match first_occupied(ov.bench) {
        Some(i) => if ov.active is Some {
            PlayerView { active: ov.bench[i], bench: ov.bench.update(i, ov.active), ..ov }
        } else {
            ov
        },
        None => ov,
    }
}

proof fn lemma_first_occupied(bench: Seq<Option<SlotView>>, i: int)
    requires
        0 <= i < bench.len(),
        occupied(bench, i),
        forall|j: int| 0 <= j < i ==> !#[trigger] occupied(bench, j),
    ensures
        first_occupied(bench) == Some(i),
{
    let k = choose|k: int| 0 <= k < bench.len() && #[trigger] occupied(bench, k)
        && forall|j: int| 0 <= j < k ==> !#[trigger] occupied(bench, j);
    assert(occupied(bench, i));
    if k < i {
        assert(!occupied(bench, k));
    } else if k > i {
        assert(!occupied(bench, i));
    }
}

/// What `ability_iron_bundle_blower` does: `g` before, `g2` after, `r` its result.
pub open spec fn ability_iron_bundle_blower_post(g: GameView, g2: GameView, player: PlayerId, source: SlotRef, r: EngineResult<EffectResult>) -> bool {
    &&& (r matches Ok(res) && res.events@.len() == 0)
    &&& (g2 == g.with_player(player.opponent(), spec_blower(g.player(player.opponent()))))
}

/// Blower: switch the opponent's active Pokemon with its first occupied bench slot.
pub fn ability_iron_bundle_blower(state: &mut GameState, player: PlayerId, source: SlotRef) -> (r: EngineResult<EffectResult>)
    requires
        player.0 < 2,
    ensures
        ability_iron_bundle_blower_post(old(state)@, final(state)@, player, source, r),
{
    let opp = player.opponent();
    let ps = &mut state.players[opp.0];
    let ghost p0 = ps@;
    let mut i: usize = 0;
    let mut found: Option<usize> = None;
    while i < ps.bench.len() && found.is_none()
        invariant
            ps@ == p0,
            i <= p0.bench.len(),
            found is None ==> forall|j: int| 0 <= j < i ==> !#[trigger] occupied(p0.bench, j),
            found matches Some(k) ==> k < p0.bench.len() && first_occupied(p0.bench) == Some(k as int),
        decreases p0.bench.len() - i + (if found is None { 1int } else { 0int }),
    {
        let hit = match &ps.bench[i] {
            Some(s) => !s.is_empty(),
            None => false,
        };
        proof {
            assert(p0.bench[i as int] == crate::state::opt_slot_view(ps.bench@[i as int]));
        }
        if hit {
            proof {
                lemma_first_occupied(p0.bench, i as int);
            }
            found = Some(i);
        } else {
            i = i + 1;
        }
    }
    proof {
        if found is None {
            assert(!exists|j: int| 0 <= j < p0.bench.len() && #[trigger] occupied(p0.bench, j));
        }
    }
    match found {
        Some(idx) => {
            if ps.active.is_some() {
                let active = ps.active.take();
                let bench = ps.bench[idx].take();
                ps.active = bench;
                ps.bench.set(idx, active);
                proof {
                    assert(ps@.bench =~= p0.bench.update(idx as int, p0.active));
                }
            }
        },
        None => {},
    }
    proof {
        assert(state@.players =~= old(state)@.players.update(opp.0 as int, state.players@[opp.0 as int]@));
    }
    Ok(EffectResult::new())
}

} // verus!
