//! Executing the actions of a step.

use vstd::prelude::*;
use vstd::string::StringExecFns;

use super::{card_played, is_card_played, Engine, EngineView, Event};
use crate::card::{Ability, CardDef, CardType, Mechanic};
use crate::effects::common::slot_cards;
use crate::state::{
    remove_card, spec_new_slot, spec_remove_first, CardInstanceId, GameState, GameView, PlayerId, PlayerState,
    PlayerView, PokemonSlot, SlotRef, SlotView, StadiumInPlay,
};
use crate::text::{push_decimal, spec_decimal};
use crate::card::str_eq;
use crate::damage::{damage_fits, spec_damage};
use crate::effects::common::{apply_damage, damage_addable, spec_apply_damage, spec_damage_kos, spec_max_hp, spec_search, CardFilter, EffectResult};
use crate::effects::dispatch::{ability_dispatch_post, dispatch_ability};
use crate::effects::pokemon::{ability_infernal_reign, spec_attach_all};
use crate::error::{EngineError, EngineResult};
use crate::card::find_def;
use crate::rules::{is_basic_def, spec_has_basic, RuleValidator};
use crate::state::{spec_cleared, spec_draw, spec_top_card, spec_top_cards, spec_min, Phase, TurnState};

verus! {

/// The player with the first copy of `card` (if any) taken out of the hand.
pub open spec fn without_card(pv: PlayerView, card: CardInstanceId) -> PlayerView {
    PlayerView { hand: spec_remove_first(pv.hand, card), ..pv }
}

fn take_from_hand(ps: &mut PlayerState, card: CardInstanceId)
    ensures
        final(ps)@ == without_card(old(ps)@, card),
{
    remove_card(&mut ps.hand, card);
}

/// How a slot is written in event texts: `Active` or `Bench(i)`.
pub open spec fn slot_text(t: SlotRef) -> Seq<char> {
    match t {
        SlotRef::Active => "Active"@,
        SlotRef::Bench(i) => "Bench("@ + spec_decimal(i as nat) + ")"@,
    }
}

/// The text of a slot: `Active` or `Bench(i)`.
pub fn slot_string(t: SlotRef) -> (r: String)
    ensures
        r@ == slot_text(t),
{
    match t {
        SlotRef::Active => {
            proof {
                reveal_strlit("Active");
            }
            String::from_str("Active")
        },
        SlotRef::Bench(i) => {
            let mut s = String::from_str("Bench(");
            proof {
                reveal_strlit("Bench(");
            }
            push_decimal(&mut s, i as u64);
            s.append(")");
            s
        },
    }
}

/// Setting up: the player takes `card` from the hand as the active Pokemon.
pub open spec fn spec_choose_active(g: GameView, p: PlayerId, card: CardInstanceId) -> GameView {
    g.with_player(p, PlayerView { active: Some(spec_new_slot(card, g.turn.turn_number)), ..without_card(g.player(p), card) })
}

/// Playing a Basic Pokemon: the card leaves the hand and goes to the first
/// empty bench slot (when there is none, it is put nowhere).
pub open spec fn spec_play_basic(g: GameView, p: PlayerId, card: CardInstanceId) -> GameView {
    let pv = without_card(g.player(p), card);
    match pv.first_empty_bench() {
        Some(i) => g.with_player(p, PlayerView { bench: pv.bench.update(i, Some(spec_new_slot(card, g.turn.turn_number))), ..pv }),
        None => g.with_player(p, pv),
    }
}

/// Attaching an energy card: it leaves the hand and is attached to the
/// Pokemon at `target` (when there is one).
pub open spec fn spec_attach_energy(g: GameView, p: PlayerId, card: CardInstanceId, target: SlotRef) -> GameView {
    let pv = without_card(g.player(p), card);
    match pv.slot(target) {
        Some(s) => g.with_player(p, pv.with_slot(target, Some(SlotView { energies: s.energies.push(card), ..s }))),
        None => g.with_player(p, pv),
    }
}

/// Playing a trainer card: it goes from the hand to the discard pile; a
/// Supporter is recorded for the turn.
pub open spec fn spec_play_trainer(g: GameView, p: PlayerId, card: CardInstanceId) -> GameView {
    let pv = without_card(g.player(p), card);
    let pv2 = PlayerView { discard: pv.discard.push(card), ..pv };
    match g.def_of(card) {
        Some(d) => if d.card_type == CardType::Supporter {
            let key = crate::rules::spec_supporter_key();
            g.with_player(
                p,
                PlayerView {
                    turn_actions_used: if pv2.turn_actions_used.contains(key) {
                        pv2.turn_actions_used
                    } else {
                        pv2.turn_actions_used.push(key)
                    },
                    ..pv2
                },
            )
        } else {
            g.with_player(p, pv2)
        },
        None => g.with_player(p, pv2),
    }
}

/// Playing a stadium: it leaves the hand and replaces the player's stadium,
/// whose card goes to the discard pile.
pub open spec fn spec_play_stadium(g: GameView, p: PlayerId, card: CardInstanceId) -> GameView {
    let pv = without_card(g.player(p), card);
    let st = Some(StadiumInPlay { card_id: card, owner: p });
    match pv.stadium {
        Some(old) => g.with_player(p, PlayerView { stadium: st, discard: pv.discard.push(old.card_id), ..pv }),
        None => g.with_player(p, PlayerView { stadium: st, ..pv }),
    }
}

/// Retreating: the active Pokemon and the one at `target` change places.
pub open spec fn spec_retreat(g: GameView, p: PlayerId, i: usize) -> GameView {
    let pv = g.player(p);
    g.with_player(p, PlayerView { active: pv.bench[i as int], bench: pv.bench.update(i as int, pv.active), ..pv })
}

impl Engine {
    pub(crate) fn execute_setup_choose_active(&mut self, player: PlayerId, card: CardInstanceId) -> (r: Vec<Event>)
        requires
            player.0 < 2,
        ensures
            final(self)@ == (EngineView { state: spec_choose_active(old(self)@.state, player, card), ..old(self)@ }),
            r@.len() == 1 && is_card_played(r@[0], player, card, "active"@),
    {
        let turn = self.state.turn.turn_number;
        let ps = &mut self.state.players[player.0];
        take_from_hand(ps, card);
        ps.active = Some(PokemonSlot::with_card(card, turn));
        proof {
            assert(self.state@.players =~= old(self).state@.players.update(
                player.0 as int,
                self.state.players@[player.0 as int]@,
            ));
        }
        let mut events: Vec<Event> = Vec::new();
        events.push(card_played(player, card, "active"));
        events
    }

    pub(crate) fn execute_play_basic(&mut self, player: PlayerId, card: CardInstanceId) -> (r: Vec<Event>)
        requires
            player.0 < 2,
        ensures
            final(self)@ == (EngineView { state: spec_play_basic(old(self)@.state, player, card), ..old(self)@ }),
            without_card(old(self)@.state.player(player), card).first_empty_bench() is Some ==> r@.len() == 1
                && is_card_played(r@[0], player, card, "bench"@),
            without_card(old(self)@.state.player(player), card).first_empty_bench() is None ==> r@.len() == 0,
    {
        let turn = self.state.turn.turn_number;
        let ps = &mut self.state.players[player.0];
        take_from_hand(ps, card);
        let mut events: Vec<Event> = Vec::new();
        match ps.first_empty_bench() {
            Some(i) => {
                let ghost before = ps@;
                ps.bench.set(i, Some(PokemonSlot::with_card(card, turn)));
                proof {
                    assert(ps@.bench =~= before.bench.update(i as int, Some(spec_new_slot(card, turn))));
                }
                events.push(card_played(player, card, "bench"));
            },
            None => {},
        }
        proof {
            assert(self.state@.players =~= old(self).state@.players.update(
                player.0 as int,
                self.state.players@[player.0 as int]@,
            ));
        }
        events
    }

    pub(crate) fn execute_attach_energy(&mut self, player: PlayerId, card: CardInstanceId, target: SlotRef) -> (r: Vec<
        Event,
    >)
        requires
            player.0 < 2,
        ensures
            final(self)@ == (EngineView { state: spec_attach_energy(old(self)@.state, player, card, target), ..old(self)@ }),
            r@.len() == 1 && is_card_played(r@[0], player, card, slot_text(target)),
    {
        let ps = &mut self.state.players[player.0];
        take_from_hand(ps, card);
        let ghost p1 = ps@;
        match ps.take_slot(target) {
            Some(mut slot) => {
                let ghost s0 = slot@;
                slot.energies.push(card);
                ps.put_slot(target, Some(slot));
                proof {
                    crate::state::lemma_with_slot_twice(p1, target, None, Some(slot@));
                    assert(slot@ == (SlotView { energies: s0.energies.push(card), ..s0 }));
                }
            },
            None => {
                proof {
                    crate::state::lemma_with_slot_none(p1, target);
                }
            },
        }
        proof {
            assert(self.state@.players =~= old(self).state@.players.update(
                player.0 as int,
                self.state.players@[player.0 as int]@,
            ));
        }
        let text = slot_string(target);
        let mut events: Vec<Event> = Vec::new();
        events.push(Event::CardPlayed { player, card, location: text });
        events
    }

    pub(crate) fn execute_play_trainer(&mut self, player: PlayerId, card: CardInstanceId) -> (r: Vec<Event>)
        requires
            player.0 < 2,
        ensures
            final(self)@ == (EngineView { state: spec_play_trainer(old(self)@.state, player, card), ..old(self)@ }),
            r@.len() == 1 && is_card_played(r@[0], player, card, "discard"@),
    {
        let key: Option<String> = match self.state.get_card_def(card) {
            Some(d) => if d.card_type == CardType::Supporter {
                Some(crate::rules::supporter_key())
            } else {
                None
            },
            None => None,
        };
        let ps = &mut self.state.players[player.0];
        take_from_hand(ps, card);
        ps.discard.push(card);
        match key {
            Some(k) => {
                ps.mark_used(k);
            },
            None => {},
        }
        proof {
            assert(self.state@.players =~= old(self).state@.players.update(
                player.0 as int,
                self.state.players@[player.0 as int]@,
            ));
        }
        let mut events: Vec<Event> = Vec::new();
        events.push(card_played(player, card, "discard"));
        events
    }

    pub(crate) fn execute_play_stadium(&mut self, player: PlayerId, card: CardInstanceId) -> (r: Vec<Event>)
        requires
            player.0 < 2,
        ensures
            final(self)@ == (EngineView { state: spec_play_stadium(old(self)@.state, player, card), ..old(self)@ }),
            r@.len() == 1 && is_card_played(r@[0], player, card, "stadium"@),
    {
        let ps = &mut self.state.players[player.0];
        take_from_hand(ps, card);
        let old_stadium = ps.stadium;
        ps.stadium = Some(StadiumInPlay { card_id: card, owner: player });
        match old_stadium {
            Some(o) => {
                ps.discard.push(o.card_id);
            },
            None => {},
        }
        proof {
            assert(self.state@.players =~= old(self).state@.players.update(
                player.0 as int,
                self.state.players@[player.0 as int]@,
            ));
        }
        let mut events: Vec<Event> = Vec::new();
        events.push(card_played(player, card, "stadium"));
        events
    }

    pub(crate) fn execute_retreat(&mut self, player: PlayerId, target: SlotRef) -> (r: Vec<Event>)
        requires
            player.0 < 2,
            target matches SlotRef::Bench(i) && i < old(self)@.state.player(player).bench.len(),
        ensures
            final(self)@ == (EngineView { state: spec_retreat(old(self)@.state, player, target->0), ..old(self)@ }),
            r@ == seq![Event::Switched { player, from: SlotRef::Active, to: target }],
    {
        let i = match target {
            SlotRef::Bench(i) => i,
            SlotRef::Active => 0,
        };
        let ps = &mut self.state.players[player.0];
        let ghost p0 = ps@;
        let active = ps.active.take();
        let bench_pokemon = ps.bench[i].take();
        ps.active = bench_pokemon;
        ps.bench.set(i, active);
        proof {
            assert(ps@.bench =~= p0.bench.update(i as int, p0.active));
            assert(self.state@.players =~= old(self).state@.players.update(
                player.0 as int,
                self.state.players@[player.0 as int]@,
            ));
        }
        let mut events: Vec<Event> = Vec::new();
        events.push(Event::Switched { player, from: SlotRef::Active, to: target });
        proof {
            assert(events@ =~= seq![Event::Switched { player, from: SlotRef::Active, to: target }]);
        }
        events
    }
}

/// Number of abilities in `abs` with the Infernal Reign effect.
pub open spec fn count_infernal(abs: Seq<Ability>) -> nat
    decreases abs.len(),
{
    if abs.len() == 0 {
        0
    } else {
        count_infernal(abs.drop_last()) + if abs.last().effect_id@ == "ability_infernal_reign"@ {
            1nat
        } else {
            0nat
        }
    }
}

/// Infernal Reign triggered for the Pokemon at `src`.
pub open spec fn infernal_state(g: GameView, p: PlayerId, src: SlotRef) -> GameView {
    let (found, rem) = spec_search(g, p, 3, CardFilter::BasicFireEnergy);
    g.with_player(p, spec_attach_all(PlayerView { deck: rem, ..g.player(p) }, src, found))
}

/// Infernal Reign triggered `n` times in a row.
pub open spec fn infernal_times(g: GameView, p: PlayerId, src: SlotRef, n: nat) -> GameView
    decreases n,
{
    if n == 0 {
        g
    } else {
        infernal_state(infernal_times(g, p, src, (n - 1) as nat), p, src)
    }
}

/// Evolving: the card leaves the hand and tops the Pokemon at `target`,
/// marked as evolved this turn.
pub open spec fn spec_evolve_stack(g: GameView, p: PlayerId, card: CardInstanceId, target: SlotRef) -> GameView {
    let pv = without_card(g.player(p), card);
    match pv.slot(target) {
        Some(s) => g.with_player(
            p,
            pv.with_slot(target, Some(SlotView { cards: s.cards.push(card), turn_evolved: Some(g.turn.turn_number), ..s })),
        ),
        None => g.with_player(p, pv),
    }
}

/// How many times evolving into `card` triggers Infernal Reign.
pub open spec fn evolve_triggers(g: GameView, card: CardInstanceId) -> nat {
    match g.def_of(card) {
        Some(d) => count_infernal(d.abilities@),
        None => 0,
    }
}

/// The first ability of the Pokemon `s`, if its top card has one.
pub open spec fn first_ability(g: GameView, s: SlotView) -> Option<Ability> {
    match spec_top_card(s) {
        Some(id) => match g.def_of(id) {
            Some(d) => if d.abilities@.len() > 0 {
                Some(d.abilities@[0])
            } else {
                None
            },
            None => None,
        },
        None => None,
    }
}

/// The effect identifier of the first ability of `s` (empty when it has none).
pub open spec fn first_ability_id(g: GameView, s: SlotView) -> Seq<char> {
    match first_ability(g, s) {
        Some(a) => a.effect_id@,
        None => Seq::empty(),
    }
}

/// The name of the first ability of `s` (empty when it has none).
pub open spec fn first_ability_name(g: GameView, s: SlotView) -> Seq<char> {
    match first_ability(g, s) {
        Some(a) => a.name@,
        None => Seq::empty(),
    }
}

/// The events of using an ability named `name` that returned `res`.
pub open spec fn ability_events(ev: Seq<Event>, res: EngineResult<EffectResult>, p: PlayerId, src: SlotRef, name: Seq<char>) -> bool {
    ev.len() == 1 && match res {
        Ok(_) => ev[0] matches Event::AbilityUsed { player, source, name: n } && player == p && source == src && n@ == name,
        Err(e) => ev[0] matches Event::Error { message } && message@ == e.spec_message(),
    }
}

/// The cards of the Pokemon at `slot` go to the discard pile and the slot is emptied.
pub open spec fn spec_ko_discard(pv: PlayerView, slot: SlotRef) -> PlayerView {
    match pv.slot(slot) {
        Some(s) => PlayerView { discard: pv.discard + slot_cards(s), ..pv.with_slot(slot, None) },
        None => pv.with_slot(slot, None),
    }
}

/// The prize cards a knock-out of the Pokemon at `slot` of `p` is worth:
/// 2 when its top card is a Pokemon ex, else 1.
pub open spec fn ko_prize_value(g: GameView, p: PlayerId, slot: SlotRef) -> nat {
    match g.slot_def(p, slot) {
        Some(d) => if d.mechanic == Some(Mechanic::Ex) {
            2
        } else {
            1
        },
        None => 1,
    }
}

/// Number of prize cards the attacker takes for a knock-out: the value of
/// the knocked-out Pokemon, or fewer if fewer are left in its own pile.
pub open spec fn prize_take(g: GameView, p: PlayerId, slot: SlotRef, attacker: PlayerId) -> nat {
    spec_min(ko_prize_value(g, p, slot), g.player(attacker).prizes.len())
}

/// Index of the first bench slot that holds a Pokemon.
pub open spec fn first_filled(b: Seq<Option<SlotView>>) -> Option<int>
    decreases b.len(),
{
    if b.len() == 0 {
        None
    } else if b[0] is Some {
        Some(0)
    } else {
        match first_filled(b.drop_first()) {
            Some(j) => Some(j + 1),
            None => None,
        }
    }
}

/// The player after the first filled bench slot moves up to an empty active spot.
pub open spec fn spec_promote(pv: PlayerView) -> PlayerView {
    if pv.active is None {
        match first_filled(pv.bench) {
            Some(i) => PlayerView { active: pv.bench[i], bench: pv.bench.update(i, None), ..pv },
            None => pv,
        }
    } else {
        pv
    }
}

/// The state after the Pokemon at `slot` of `p` is knocked out by `attacker`:
/// its cards are discarded, the attacker moves `prize_take` cards from the
/// top of its own prize pile to its hand, and the first benched Pokemon of
/// `p` moves up if the active spot is empty.
pub open spec fn spec_process_ko(g: GameView, p: PlayerId, slot: SlotRef, attacker: PlayerId) -> GameView {
    let k = prize_take(g, p, slot, attacker);
    let g1 = g.with_player(p, spec_ko_discard(g.player(p), slot));
    let pa = g1.player(attacker);
    let g2 = g1.with_player(
        attacker,
        PlayerView { prizes: pa.prizes.take(pa.prizes.len() - k), hand: pa.hand + spec_top_cards(pa.prizes, k), ..pa },
    );
    g2.with_player(p, spec_promote(g2.player(p)))
}

/// The events of `spec_process_ko`.
pub open spec fn ko_events(g: GameView, p: PlayerId, slot: SlotRef, attacker: PlayerId) -> Seq<Event> {
    let k = prize_take(g, p, slot, attacker);
    let pv2 = spec_ko_discard(g.player(p), slot);
    seq![Event::KnockedOut { player: p, slot }] + Seq::new(k, |i: int| Event::PrizeTaken { player: attacker, count: 1 })
        + if pv2.active is None && first_filled(pv2.bench) is Some {
        seq![Event::Switched { player: p, from: SlotRef::Bench(first_filled(pv2.bench)->0 as usize), to: SlotRef::Active }]
    } else {
        Seq::empty()
    }
}

/// The base damage of attack `idx` of the active Pokemon of `p` (0 when there is no such attack).
pub open spec fn base_damage_of(g: GameView, p: PlayerId, idx: u8) -> u16 {
    match g.player(p).active {
        Some(a) => match spec_top_card(a) {
            Some(id) => match g.def_of(id) {
                Some(d) => if idx < d.attacks@.len() {
                    d.attacks@[idx as int].damage
                } else {
                    0
                },
                None => 0,
            },
            None => 0,
        },
        None => 0,
    }
}

/// The damage attack `idx` of `p` deals to the opponent's active Pokemon.
pub open spec fn attack_damage(g: GameView, p: PlayerId, idx: u8) -> u16 {
    spec_damage(g, p, SlotRef::Active, p.spec_opponent(), SlotRef::Active, base_damage_of(g, p, idx))
}

/// The attack can be computed and its damage added without overflow.
pub open spec fn attack_fits(g: GameView, p: PlayerId, idx: u8) -> bool {
    &&& damage_fits(g, p, SlotRef::Active, p.spec_opponent(), SlotRef::Active, base_damage_of(g, p, idx))
    &&& damage_addable(g, p.spec_opponent(), SlotRef::Active, attack_damage(g, p, idx))
}

/// Whether attack `idx` of `p` knocks out the opponent's active Pokemon.
pub open spec fn attack_kos(g: GameView, p: PlayerId, idx: u8) -> bool {
    spec_damage_kos(g, p.spec_opponent(), SlotRef::Active, attack_damage(g, p, idx))
}

/// The state after attack `idx` of `p`: the damage is added, attacks are
/// locked for the turn, and a knock-out is processed.
pub open spec fn spec_attack(g: GameView, p: PlayerId, idx: u8) -> GameView {
    let o = p.spec_opponent();
    let g1 = spec_apply_damage(g, o, SlotRef::Active, attack_damage(g, p, idx));
    let g2 = GameView { turn: TurnState { attack_locked: true, ..g1.turn }, ..g1 };
    if attack_kos(g, p, idx) {
        spec_process_ko(g2, o, SlotRef::Active, p)
    } else {
        g2
    }
}

/// The events of `spec_attack`.
pub open spec fn attack_events(g: GameView, p: PlayerId, idx: u8) -> Seq<Event> {
    let o = p.spec_opponent();
    let dmg = attack_damage(g, p, idx);
    let ko = attack_kos(g, p, idx);
    let g1 = spec_apply_damage(g, o, SlotRef::Active, dmg);
    let g2 = GameView { turn: TurnState { attack_locked: true, ..g1.turn }, ..g1 };
    (if ko {
        ko_events(g2, o, SlotRef::Active, p)
    } else {
        Seq::empty()
    }) + seq![
        Event::Attack { attacker: p, defender: o, attack_index: idx, damage: dmg },
        Event::Damage { target_player: o, target_slot: SlotRef::Active, damage: dmg, ko },
    ]
}

/// Ending the turn of `p`: its turn state is cleared, the opponent becomes
/// the active player, the turn number goes up, the new active player draws a
/// card, and play resumes with attacks unlocked.
pub open spec fn spec_end_turn(g: GameView, p: PlayerId) -> GameView {
    let g1 = g.with_player(p, spec_cleared(g.player(p)));
    let np = p.spec_opponent();
    let t = TurnState {
        active_player: np,
        turn_number: (g.turn.turn_number + 1) as u16,
        phase: Phase::Play,
        attack_locked: false,
        ..g.turn
    };
    let g2 = GameView { turn: t, ..g1 };
    g2.with_player(np, spec_draw(g2.player(np), 1))
}

proof fn lemma_first_filled(b: Seq<Option<SlotView>>, i: int)
    requires
        0 <= i <= b.len(),
        forall|j: int| 0 <= j < i ==> #[trigger] b[j] is None,
    ensures
        i < b.len() && b[i] is Some ==> first_filled(b) == Some(i),
        i == b.len() ==> first_filled(b) is None,
    decreases i,
{
    if i > 0 {
        assert(b[0] is None);
        assert forall|j: int| 0 <= j < i - 1 implies #[trigger] b.drop_first()[j] is None by {
            assert(b.drop_first()[j] == b[j + 1]);
        }
        lemma_first_filled(b.drop_first(), i - 1);
    }
}

fn promote(ps: &mut PlayerState) -> (r: Option<usize>)
    ensures
        final(ps)@ == spec_promote(old(ps)@),
        r == (if old(ps)@.active is None {
            match first_filled(old(ps)@.bench) {
                Some(i) => Some(i as usize),
                None => None,
            }
        } else {
            None
        }),
{
    if ps.active.is_some() {
        return None;
    }
    let ghost p0 = ps@;
    let mut i: usize = 0;
    while i < ps.bench.len()
        invariant
            ps@ == p0,
            p0 == old(ps)@,
            p0.active is None,
            i <= p0.bench.len(),
            forall|j: int| 0 <= j < i ==> #[trigger] p0.bench[j] is None,
        decreases p0.bench.len() - i,
    {
        proof {
            assert(p0.bench[i as int] == crate::state::opt_slot_view(ps.bench@[i as int]));
        }
        if ps.bench[i].is_some() {
            proof {
                lemma_first_filled(p0.bench, i as int);
            }
            let pokemon = ps.bench[i].take();
            ps.active = pokemon;
            proof {
                assert(ps@.bench =~= p0.bench.update(i as int, None));
            }
            return Some(i);
        }
        i = i + 1;
    }
    proof {
        lemma_first_filled(p0.bench, i as int);
    }
    None
}

fn ko_discard(ps: &mut PlayerState, slot: SlotRef)
    ensures
        final(ps)@ == spec_ko_discard(old(ps)@, slot),
{
    match ps.take_slot(slot) {
        Some(pokemon) => {
            let ghost d0 = ps.discard@;
            let mut k: usize = 0;
            while k < pokemon.cards.len()
                invariant
                    k <= pokemon.cards@.len(),
                    ps@ == (PlayerView { discard: d0 + pokemon.cards@.take(k as int), ..old(ps)@.with_slot(slot, None) }),
                decreases pokemon.cards@.len() - k,
            {
                ps.discard.push(pokemon.cards[k]);
                proof {
                    assert(d0 + pokemon.cards@.take(k + 1) =~= (d0 + pokemon.cards@.take(k as int)).push(pokemon.cards@[k as int]));
                }
                k = k + 1;
            }
            proof {
                assert(pokemon.cards@.take(k as int) =~= pokemon.cards@);
            }
            let ghost d1 = ps.discard@;
            let mut e: usize = 0;
            while e < pokemon.energies.len()
                invariant
                    e <= pokemon.energies@.len(),
                    ps@ == (PlayerView { discard: d1 + pokemon.energies@.take(e as int), ..old(ps)@.with_slot(slot, None) }),
                decreases pokemon.energies@.len() - e,
            {
                ps.discard.push(pokemon.energies[e]);
                proof {
                    assert(d1 + pokemon.energies@.take(e + 1) =~= (d1 + pokemon.energies@.take(e as int)).push(
                        pokemon.energies@[e as int],
                    ));
                }
                e = e + 1;
            }
            proof {
                assert(pokemon.energies@.take(e as int) =~= pokemon.energies@);
            }
            match pokemon.tool {
                Some(t) => {
                    ps.discard.push(t);
                },
                None => {},
            }
            proof {
                assert(ps@.discard =~= d0 + slot_cards(pokemon@));
            }
        },
        None => {},
    }
}

fn ability_texts(state: &GameState, slot: &PokemonSlot) -> (r: (String, String))
    ensures
        r.0@ == first_ability_id(state@, slot@),
        r.1@ == first_ability_name(state@, slot@),
{
    match slot.top_card() {
        Some(id) => match state.get_card_def(id) {
            Some(d) => if d.abilities.len() > 0 {
                (d.abilities[0].effect_id.clone(), d.abilities[0].name.clone())
            } else {
                (String::new(), String::new())
            },
            None => (String::new(), String::new()),
        },
        None => (String::new(), String::new()),
    }
}

impl Engine {
    pub(crate) fn execute_evolve(&mut self, player: PlayerId, card: CardInstanceId, target: SlotRef) -> (r: Vec<Event>)
        requires
            player.0 < 2,
        ensures
            final(self)@ == (EngineView {
                state: infernal_times(
                    spec_evolve_stack(old(self)@.state, player, card, target),
                    player,
                    target,
                    evolve_triggers(old(self)@.state, card),
                ),
                ..old(self)@
            }),
            r@ == seq![Event::Evolved { player, slot: target, card }],
            final(self)@.state.turn == old(self)@.state.turn,
    {
        let mut n: usize = 0;
        match self.state.get_card_def(card) {
            Some(d) => {
                let mut i: usize = 0;
                while i < d.abilities.len()
                    invariant
                        i <= d.abilities@.len(),
                        n == count_infernal(d.abilities@.take(i as int)),
                        n <= i,
                    decreases d.abilities@.len() - i,
                {
                    proof {
                        assert(d.abilities@.take(i + 1).drop_last() =~= d.abilities@.take(i as int));
                        reveal_strlit("ability_infernal_reign");
                    }
                    if str_eq(d.abilities[i].effect_id.as_str(), "ability_infernal_reign") {
                        n = n + 1;
                    }
                    i = i + 1;
                }
                proof {
                    assert(d.abilities@.take(i as int) =~= d.abilities@);
                }
            },
            None => {},
        }
        let turn = self.state.turn.turn_number;
        let ps = &mut self.state.players[player.0];
        take_from_hand(ps, card);
        let ghost p1 = ps@;
        match ps.take_slot(target) {
            Some(mut slot) => {
                let ghost s0 = slot@;
                slot.cards.push(card);
                slot.turn_evolved = Some(turn);
                ps.put_slot(target, Some(slot));
                proof {
                    crate::state::lemma_with_slot_twice(p1, target, None, Some(slot@));
                    assert(slot@ == (SlotView { cards: s0.cards.push(card), turn_evolved: Some(turn), ..s0 }));
                }
            },
            None => {
                proof {
                    crate::state::lemma_with_slot_none(p1, target);
                }
            },
        }
        proof {
            assert(self.state@.players =~= old(self).state@.players.update(
                player.0 as int,
                self.state.players@[player.0 as int]@,
            ));
        }
        let ghost g1 = self.state@;
        let mut k: usize = 0;
        while k < n
            invariant
                player.0 < 2,
                k <= n,
                self.state@ == infernal_times(g1, player, target, k as nat),
                self.record_replay == old(self).record_replay,
                self.state@.turn == old(self)@.state.turn,
            decreases n - k,
        {
            let _ = ability_infernal_reign(&mut self.state, player, target);
            k = k + 1;
        }
        let mut events: Vec<Event> = Vec::new();
        events.push(Event::Evolved { player, slot: target, card });
        proof {
            assert(events@ =~= seq![Event::Evolved { player, slot: target, card }]);
        }
        events
    }

    pub(crate) fn execute_use_ability(&mut self, player: PlayerId, source: SlotRef) -> (r: Vec<Event>)
        requires
            player.0 < 2,
        ensures
            final(self)@.record_replay == old(self)@.record_replay,
            final(self)@.state.turn == old(self)@.state.turn,
            match old(self)@.state.player(player).slot(source) {
                None => final(self)@ == old(self)@ && r@.len() == 0,
                Some(s) => exists|res: EngineResult<EffectResult>|
                    #![trigger ability_events(r@, res, player, source, first_ability_name(old(self)@.state, s))]
                    ability_dispatch_post(first_ability_id(old(self)@.state, s), old(self)@.state, final(self)@.state, player, source, res)
                        && ability_events(r@, res, player, source, first_ability_name(old(self)@.state, s)),
            },
    {
        let ghost g = self.state@;
        let (effect_id, name) = match self.state.players[player.0].get_slot(source) {
            None => return Vec::new(),
            Some(slot) => ability_texts(&self.state, slot),
        };
        let ghost s = g.player(player).slot(source)->0;
        let ghost id_text = first_ability_id(g, s);
        let ghost name_text = first_ability_name(g, s);
        assert(effect_id@ == id_text && name@ == name_text);
        let result = dispatch_ability(&mut self.state, player, source, effect_id.as_str());
        let mut events: Vec<Event> = Vec::new();
        match &result {
            Ok(_) => {
                events.push(Event::AbilityUsed { player, source, name });
            },
            Err(e) => {
                events.push(Event::Error { message: e.message() });
            },
        }
        proof {
            assert(ability_events(events@, result, player, source, name_text));
            assert(ability_dispatch_post(id_text, g, self.state@, player, source, result));
            assert(ability_dispatch_post(id_text, g, self.state@, player, source, result) && ability_events(
                events@,
                result,
                player,
                source,
                name_text,
            ));
        }
        events
    }

    pub(crate) fn process_ko(&mut self, player: PlayerId, slot: SlotRef, attacker: PlayerId) -> (r: Vec<Event>)
        requires
            player.0 < 2,
            attacker.0 < 2,
            player.0 != attacker.0,
        ensures
            final(self)@ == (EngineView { state: spec_process_ko(old(self)@.state, player, slot, attacker), ..old(self)@ }),
            r@ == ko_events(old(self)@.state, player, slot, attacker),
    {
        let ghost g = self.state@;
        let value: usize = match self.state.players[player.0].get_slot(slot) {
            Some(s) => match s.top_card() {
                Some(id) => match self.state.get_card_def(id) {
                    Some(d) => if d.is_ex() {
                        2
                    } else {
                        1
                    },
                    None => 1,
                },
                None => 1,
            },
            None => 1,
        };
        assert(value == ko_prize_value(g, player, slot));
        let mut events: Vec<Event> = Vec::new();
        ko_discard(&mut self.state.players[player.0], slot);
        events.push(Event::KnockedOut { player, slot });
        proof {
            assert(self.state@.players =~= g.players.update(player.0 as int, self.state.players@[player.0 as int]@));
        }
        let ghost g1 = self.state@;
        let ghost pa = g1.player(attacker);
        assert(pa == g.player(attacker));
        let prize_count: usize = if self.state.players[attacker.0].prizes.len() >= value {
            value
        } else {
            self.state.players[attacker.0].prizes.len()
        };
        proof {
            assert(pa.prizes.take(pa.prizes.len() - 0) =~= pa.prizes);
            assert(pa.hand + spec_top_cards(pa.prizes, 0) =~= pa.hand);
            assert(g1.with_player(attacker, pa).players =~= g1.players);
        }
        let mut k: usize = 0;
        while k < prize_count
            invariant
                player.0 < 2,
                attacker.0 < 2,
                player.0 != attacker.0,
                prize_count == prize_take(g, player, slot, attacker),
                prize_count <= pa.prizes.len(),
                k <= prize_count,
                g1.players.len() == 2,
                self.state@ == g1.with_player(attacker, PlayerView {
                    prizes: pa.prizes.take(pa.prizes.len() - k),
                    hand: pa.hand + spec_top_cards(pa.prizes, k as nat),
                    ..pa
                }),
                events@ == seq![Event::KnockedOut { player, slot }] + Seq::new(
                    k as nat,
                    |i: int| Event::PrizeTaken { player: attacker, count: 1 },
                ),
                self.record_replay == old(self).record_replay,
            decreases prize_count - k,
        {
            let ghost before = self.state@;
            assert(before.players[attacker.0 as int] == self.state.players@[attacker.0 as int]@);
            assert(self.state.players@[attacker.0 as int]@.prizes == pa.prizes.take(pa.prizes.len() - k));
            let prize = self.state.players[attacker.0].prizes.pop().unwrap();
            assert(prize == pa.prizes[pa.prizes.len() - 1 - k]);
            self.state.players[attacker.0].hand.push(prize);
            events.push(Event::PrizeTaken { player: attacker, count: 1 });
            proof {
                assert(pa.prizes.take(pa.prizes.len() - k - 1) =~= pa.prizes.take(pa.prizes.len() - k).drop_last());
                assert(spec_top_cards(pa.prizes, (k + 1) as nat) =~= spec_top_cards(pa.prizes, k as nat).push(prize));
                assert(pa.hand + spec_top_cards(pa.prizes, (k + 1) as nat) =~= (pa.hand + spec_top_cards(
                    pa.prizes,
                    k as nat,
                )).push(prize));
                assert(self.state@.players =~= before.players.update(
                    attacker.0 as int,
                    self.state.players@[attacker.0 as int]@,
                ));
                assert(events@ =~= seq![Event::KnockedOut { player, slot }] + Seq::new(
                    (k + 1) as nat,
                    |i: int| Event::PrizeTaken { player: attacker, count: 1 },
                ));
            }
            k = k + 1;
        }
        let ghost g2 = self.state@;
        let promoted = promote(&mut self.state.players[player.0]);
        match promoted {
            Some(i) => {
                events.push(Event::Switched { player, from: SlotRef::Bench(i), to: SlotRef::Active });
            },
            None => {},
        }
        proof {
            assert(self.state@.players =~= g2.players.update(player.0 as int, self.state.players@[player.0 as int]@));
            assert(self.state@ == spec_process_ko(g, player, slot, attacker));
            assert(events@ =~= ko_events(g, player, slot, attacker));
        }
        events
    }

    pub(crate) fn execute_attack(&mut self, player: PlayerId, attack_index: u8) -> (r: Vec<Event>)
        requires
            player.0 < 2,
            old(self)@.state.wf(),
            attack_fits(old(self)@.state, player, attack_index),
        ensures
            final(self)@ == (EngineView { state: spec_attack(old(self)@.state, player, attack_index), ..old(self)@ }),
            r@ == attack_events(old(self)@.state, player, attack_index),
    {
        let opponent = player.opponent();
        let base_damage: u16 = match &self.state.players[player.0].active {
            Some(active) => match active.top_card() {
                Some(id) => match self.state.get_card_def(id) {
                    Some(d) => if (attack_index as usize) < d.attacks.len() {
                        d.attacks[attack_index as usize].damage
                    } else {
                        0
                    },
                    None => 0,
                },
                None => 0,
            },
            None => 0,
        };
        let damage = self.damage_calculator.calculate_damage(
            &self.state,
            player,
            SlotRef::Active,
            opponent,
            SlotRef::Active,
            base_damage,
        );
        let ko = apply_damage(&mut self.state, opponent, SlotRef::Active, damage);
        self.state.turn.attack_locked = true;
        let mut events: Vec<Event> = Vec::new();
        if ko {
            events = self.process_ko(opponent, SlotRef::Active, player);
        }
        let ghost e0 = events@;
        events.push(Event::Attack { attacker: player, defender: opponent, attack_index, damage });
        events.push(Event::Damage { target_player: opponent, target_slot: SlotRef::Active, damage, ko });
        proof {
            assert(events@ =~= e0 + seq![
                Event::Attack { attacker: player, defender: opponent, attack_index, damage },
                Event::Damage { target_player: opponent, target_slot: SlotRef::Active, damage, ko },
            ]);
        }
        events
    }

    pub(crate) fn execute_end_turn(&mut self, player: PlayerId) -> (r: Vec<Event>)
        requires
            player.0 < 2,
            old(self)@.state.turn.turn_number < u16::MAX,
        ensures
            final(self)@ == (EngineView { state: spec_end_turn(old(self)@.state, player), ..old(self)@ }),
            r@.len() == 0,
    {
        self.state.players[player.0].clear_turn_state();
        proof {
            assert(self.state@.players =~= old(self).state@.players.update(
                player.0 as int,
                self.state.players@[player.0 as int]@,
            ));
        }
        self.state.turn.active_player = player.opponent();
        self.state.turn.turn_number = self.state.turn.turn_number + 1;
        self.state.turn.phase = Phase::Draw;
        let np = self.state.turn.active_player;
        self.state.draw_cards(np, 1);
        self.state.turn.phase = Phase::Play;
        self.state.turn.attack_locked = false;
        Vec::new()
    }
}

/// The phase change that follows a step: setup ends once both players have
/// an active Pokemon; a mulligan ends once the active player's hand holds a
/// Basic Pokemon.
pub open spec fn spec_phase_transition(g: GameView) -> GameView {
    match g.turn.phase {
        Phase::Setup => if g.players[0].active is Some && g.players[1].active is Some {
            GameView { turn: TurnState { phase: Phase::Play, ..g.turn }, ..g }
        } else {
            g
        },
        Phase::Mulligan => if spec_has_basic(g, g.player(g.turn.active_player).hand) {
            GameView { turn: TurnState { mulligan_done: true, phase: Phase::Setup, ..g.turn }, ..g }
        } else {
            g
        },
        _ => g,
    }
}

/// Whether the game is past setup and mulligans.
pub open spec fn in_play(g: GameView) -> bool {
    g.turn.phase != Phase::Setup && g.turn.phase != Phase::Mulligan
}

/// The winner, if the game is over: past setup, a player whose prize pile is
/// empty (player 0 first), else the opponent of a player with no Pokemon in
/// play (player 0 first).
pub open spec fn spec_check_winner(g: GameView) -> Option<PlayerId> {
    if !in_play(g) {
        None
    } else if g.players[0].prizes.len() == 0 {
        Some(PlayerId(0))
    } else if g.players[1].prizes.len() == 0 {
        Some(PlayerId(1))
    } else if !g.players[0].has_pokemon_in_play() {
        Some(PlayerId(1))
    } else if !g.players[1].has_pokemon_in_play() {
        Some(PlayerId(0))
    } else {
        None
    }
}

/// Whether the card `id` is a Basic Pokemon created for player `p`.
pub open spec fn is_owned_basic(g: GameView, p: PlayerId, id: CardInstanceId) -> bool {
    exists|i: int|
        0 <= i < g.cards.len() && (#[trigger] g.cards[i]).id == id && g.cards[i].owner == p && is_basic_def(
            find_def(g.registry, g.cards[i].def_id.0@),
        )
}

/// Whether some Basic Pokemon was created for player `p`.
pub open spec fn has_owned_basic(g: GameView, p: PlayerId) -> bool {
    exists|i: int|
        0 <= i < g.cards.len() && (#[trigger] g.cards[i]).owner == p && is_basic_def(find_def(g.registry, g.cards[i].def_id.0@))
}

/// Whether some card of `s` is a Basic Pokemon of player `p`.
pub open spec fn holds_owned_basic(g: GameView, p: PlayerId, s: Seq<CardInstanceId>) -> bool {
    exists|k: int| 0 <= k < s.len() && is_owned_basic(g, p, #[trigger] s[k])
}

/// What a mulligan does to player `p`, whatever the shuffles give: the hand
/// and deck keep their cards between them, the hand keeps its size, it holds
/// a Basic Pokemon of the player whenever hand and deck held one (and the
/// hand was not empty), and the mulligan is counted.
pub open spec fn mulligan_post(g: GameView, g2: GameView, p: PlayerId) -> bool {
    let pv = g.player(p);
    let all = pv.deck + pv.hand;
    let pv2 = g2.player(p);
    &&& g2 == (GameView {
        turn: TurnState { mulligan_count: (g.turn.mulligan_count + 1) as u8, ..g.turn },
        ..g.with_player(p, PlayerView { deck: pv2.deck, hand: pv2.hand, ..pv })
    })
    &&& (pv2.deck + pv2.hand).to_multiset() == all.to_multiset()
    &&& pv2.hand.len() == pv.hand.len()
    &&& pv.hand.len() > 0 && holds_owned_basic(g, p, all) ==> holds_owned_basic(g, p, pv2.hand)
}

/// The mulligan cannot overflow its counter, and an empty hand is only
/// redrawn when the deck holds no Basic Pokemon of the player.
pub open spec fn mulligan_fits(g: GameView, p: PlayerId) -> bool {
    &&& g.turn.mulligan_count < u8::MAX
    &&& g.player(p).hand.len() == 0 ==> !holds_owned_basic(g, p, g.player(p).deck)
}

fn owned_basic(state: &GameState, player: PlayerId, id: CardInstanceId) -> (r: bool)
    ensures
        r == is_owned_basic(state@, player, id),
{
    let mut i: usize = 0;
    while i < state.cards.len()
        invariant
            i <= state@.cards.len(),
            forall|j: int|
                0 <= j < i ==> !((#[trigger] state@.cards[j]).id == id && state@.cards[j].owner == player && is_basic_def(
                    find_def(state@.registry, state@.cards[j].def_id.0@),
                )),
        decreases state@.cards.len() - i,
    {
        let c = &state.cards[i];
        if c.id == id && c.owner == player {
            let b = match state.card_registry.get(&c.def_id) {
                Some(d) => d.is_basic_pokemon(),
                None => false,
            };
            if b {
                return true;
            }
        }
        i = i + 1;
    }
    false
}

fn any_owned_basic(state: &GameState, player: PlayerId) -> (r: bool)
    ensures
        r == has_owned_basic(state@, player),
{
    let mut i: usize = 0;
    while i < state.cards.len()
        invariant
            i <= state@.cards.len(),
            forall|j: int|
                0 <= j < i ==> !((#[trigger] state@.cards[j]).owner == player && is_basic_def(
                    find_def(state@.registry, state@.cards[j].def_id.0@),
                )),
        decreases state@.cards.len() - i,
    {
        let c = &state.cards[i];
        if c.owner == player {
            let b = match state.card_registry.get(&c.def_id) {
                Some(d) => d.is_basic_pokemon(),
                None => false,
            };
            if b {
                return true;
            }
        }
        i = i + 1;
    }
    false
}

pub(crate) fn first_owned_basic(state: &GameState, player: PlayerId, s: &Vec<CardInstanceId>) -> (r: Option<usize>)
    ensures
        match r {
            Some(i) => i < s@.len() && is_owned_basic(state@, player, s@[i as int]),
            None => !holds_owned_basic(state@, player, s@),
        },
{
    let mut i: usize = 0;
    while i < s.len()
        invariant
            i <= s@.len(),
            forall|j: int| 0 <= j < i ==> !is_owned_basic(state@, player, #[trigger] s@[j]),
        decreases s@.len() - i,
    {
        if owned_basic(state, player, s[i]) {
            return Some(i);
        }
        i = i + 1;
    }
    None
}

pub(crate) fn attack_fits_exec(state: &GameState, player: PlayerId, idx: u8) -> (r: bool)
    requires
        player.0 < 2,
        state@.wf(),
    ensures
        r == attack_fits(state@, player, idx),
{
    let opponent = player.opponent();
    let base_damage: u16 = match &state.players[player.0].active {
        Some(active) => match active.top_card() {
            Some(id) => match state.get_card_def(id) {
                Some(d) => if (idx as usize) < d.attacks.len() {
                    d.attacks[idx as usize].damage
                } else {
                    0
                },
                None => 0,
            },
            None => 0,
        },
        None => 0,
    };
    if !crate::damage::damage_fits_exec(state, player, SlotRef::Active, opponent, SlotRef::Active, base_damage) {
        return false;
    }
    let calc = crate::damage::DamageCalculator::new();
    let damage = calc.calculate_damage(state, player, SlotRef::Active, opponent, SlotRef::Active, base_damage);
    match &state.players[opponent.0].active {
        Some(a) => a.damage as u32 + damage as u32 <= 65535,
        None => true,
    }
}

impl Engine {
    pub(crate) fn apply_phase_transitions(&mut self)
        requires
            old(self)@.state.turn.active_player.0 < 2,
        ensures
            final(self)@ == (EngineView { state: spec_phase_transition(old(self)@.state), ..old(self)@ }),
    {
        match self.state.turn.phase {
            Phase::Setup => {
                if self.state.players[0].active.is_some() && self.state.players[1].active.is_some() {
                    self.state.turn.phase = Phase::Play;
                }
            },
            Phase::Mulligan => {
                let ap = self.state.turn.active_player;
                if RuleValidator::has_basic(&self.state, &self.state.players[ap.0].hand) {
                    self.state.turn.mulligan_done = true;
                    self.state.turn.phase = Phase::Setup;
                }
            },
            _ => {},
        }
    }

    pub(crate) fn check_winner(&self) -> (r: Option<PlayerId>)
        ensures
            r == spec_check_winner(self@.state),
    {
        let in_setup = self.state.turn.phase == Phase::Setup || self.state.turn.phase == Phase::Mulligan;
        if in_setup {
            return None;
        }
        if self.state.players[0].prizes.len() == 0 {
            return Some(PlayerId(0));
        }
        if self.state.players[1].prizes.len() == 0 {
            return Some(PlayerId(1));
        }
        if !self.state.players[0].has_pokemon_in_play() {
            return Some(PlayerId(1));
        }
        if !self.state.players[1].has_pokemon_in_play() {
            return Some(PlayerId(0));
        }
        None
    }

    pub(crate) fn execute_mulligan(&mut self, player: PlayerId) -> (r: Vec<Event>)
        requires
            player.0 < 2,
            mulligan_fits(old(self)@.state, player),
        ensures
            r@.len() == 0,
            final(self)@.record_replay == old(self)@.record_replay,
            mulligan_post(old(self)@.state, final(self)@.state, player),
    {
        broadcast use vstd::seq_lib::group_to_multiset_ensures;

        let ghost g = self.state@;
        let ghost pv = g.player(player);
        let ghost all = pv.deck + pv.hand;
        let has_any = any_owned_basic(&self.state, player);
        let mut ps = PlayerState::new();
        std::mem::swap(&mut ps, &mut self.state.players[player.0]);
        let ghost gs = self.state@;
        proof {
            assert(ps@ == pv);
            assert(gs.cards == g.cards && gs.registry == g.registry);
        }
        let hand_size = ps.hand.len();
        let mut k: usize = 0;
        while k < hand_size
            invariant
                k <= hand_size,
                hand_size == pv.hand.len(),
                ps@ == (PlayerView { deck: pv.deck + pv.hand.take(k as int), ..pv }),
            decreases hand_size - k,
        {
            let c = ps.hand[k];
            ps.deck.push(c);
            proof {
                assert(pv.deck + pv.hand.take(k + 1) =~= (pv.deck + pv.hand.take(k as int)).push(c));
            }
            k = k + 1;
        }
        proof {
            assert(pv.hand.take(k as int) =~= pv.hand);
        }
        ps.hand = Vec::new();
        self.rng.shuffle_vec(&mut ps.deck);
        let ghost p1 = ps@;
        proof {
            assert(ps.deck@ + Seq::<CardInstanceId>::empty() =~= ps.deck@);
        }
        let mut hand_temp: Vec<CardInstanceId> = Vec::new();
        let mut n: usize = 0;
        while n < hand_size
            invariant
                n <= hand_size,
                hand_size == pv.hand.len(),
                all == pv.deck + pv.hand,
                hand_temp@.len() == n,
                ps.deck@.len() + n == all.len(),
                (ps.deck@ + hand_temp@).to_multiset() == all.to_multiset(),
                ps@ == (PlayerView { deck: ps.deck@, ..p1 }),
            decreases hand_size - n,
        {
            let ghost d0 = ps.deck@;
            let ghost h0 = hand_temp@;
            let c = ps.deck.pop().unwrap();
            hand_temp.push(c);
            proof {
                assert(d0 =~= d0.drop_last().push(c));
                vstd::seq_lib::lemma_multiset_commutative(d0.drop_last(), h0.push(c));
                vstd::seq_lib::lemma_multiset_commutative(d0, h0);
                vstd::seq_lib::to_multiset_build(d0.drop_last(), c);
                vstd::seq_lib::to_multiset_build(h0, c);
                assert((d0.drop_last() + h0.push(c)).to_multiset() =~= (d0 + h0).to_multiset());
            }
            n = n + 1;
        }
        let has_basic = first_owned_basic(&self.state, player, &hand_temp).is_some();
        if !has_basic && has_any {
            match first_owned_basic(&self.state, player, &ps.deck) {
                Some(idx) => {
                    let ghost d0 = ps.deck@;
                    let ghost h0 = hand_temp@;
                    proof {
                        if h0.len() == 0 {
                            assert(d0 + h0 =~= d0);
                            assert(all =~= pv.deck);
                            assert(d0.contains(d0[idx as int]));
                            assert(d0.to_multiset().count(d0[idx as int]) > 0);
                            assert(all.to_multiset().count(d0[idx as int]) > 0);
                            assert(all.contains(d0[idx as int]));
                            let j = choose|j: int| 0 <= j < all.len() && all[j] == d0[idx as int];
                            assert(is_owned_basic(g, player, pv.deck[j]));
                            assert(false);
                        }
                    }
                    let basic_card = ps.deck.remove(idx);
                    let swap_idx = self.rng.next_usize(hand_temp.len());
                    let non_basic = hand_temp[swap_idx];
                    hand_temp.set(swap_idx, basic_card);
                    ps.deck.push(non_basic);
                    proof {
                        assert(hand_temp@[swap_idx as int] == basic_card);
                        let d1 = d0.remove(idx as int).push(non_basic);
                        let h1 = h0.update(swap_idx as int, basic_card);
                        vstd::seq_lib::lemma_multiset_commutative(d1, h1);
                        vstd::seq_lib::lemma_multiset_commutative(d0, h0);
                        assert((d1 + h1).to_multiset() =~= (d0 + h0).to_multiset());
                    }
                    let ghost d2 = ps.deck@;
                    self.rng.shuffle_vec(&mut ps.deck);
                    proof {
                        vstd::seq_lib::lemma_multiset_commutative(d2, hand_temp@);
                        vstd::seq_lib::lemma_multiset_commutative(ps.deck@, hand_temp@);
                    }
                },
                None => {},
            }
        }
        proof {
            let d_final = ps.deck@;
            if pv.hand.len() > 0 && holds_owned_basic(g, player, all) && !holds_owned_basic(g, player, hand_temp@) {
                let i = choose|i: int| 0 <= i < all.len() && is_owned_basic(g, player, #[trigger] all[i]);
                assert(all.contains(all[i]));
                assert(all.to_multiset().count(all[i]) > 0);
                assert((d_final + hand_temp@).to_multiset().count(all[i]) > 0);
                assert((d_final + hand_temp@).contains(all[i]));
                let j = choose|j: int| 0 <= j < (d_final + hand_temp@).len() && (d_final + hand_temp@)[j] == all[i];
                if j >= d_final.len() {
                    assert(hand_temp@[j - d_final.len()] == all[i]);
                    assert(false);
                } else {
                    assert(d_final[j] == all[i]);
                }
            }
        }
        ps.hand = hand_temp;
        std::mem::swap(&mut ps, &mut self.state.players[player.0]);
        self.state.turn.mulligan_count = self.state.turn.mulligan_count + 1;
        proof {
            assert(self.state@.players =~= g.players.update(
                player.0 as int,
                PlayerView { deck: self.state@.player(player).deck, hand: self.state@.player(player).hand, ..pv },
            ));
        }
        Vec::new()
    }
}

} // verus!
