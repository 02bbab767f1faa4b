//! Common effect primitives.

use vstd::prelude::*;

use crate::card::{CardDef, CardType, EnergyType, Stage};
use crate::engine::Event;
use crate::error::{is_err, EngineError, EngineResult, ErrorKind};
use crate::state::{
    spec_draw, spec_drawn, spec_remove_first, spec_top_card, opt_slot_view, remove_card, CardInstanceId,
    GameState, GameView, PlayerId, PlayerState, PlayerView, PokemonSlot, SlotRef, SlotView,
};

verus! {

/// Result of an effect.
#[derive(Debug, Clone)]
pub struct EffectResult {
    pub events: Vec<Event>,
}

/// Result of resolving an attack with effects.
#[derive(Debug, Clone)]
pub struct AttackResult {
    /// Damage to the defending active Pokemon.
    pub damage: u16,
    /// Whether the defending active Pokemon was knocked out.
    pub ko: bool,
    /// Additional bench damage: (target slot, amount).
    pub bench_damage: Vec<(SlotRef, u16)>,
    /// Events generated during the attack.
    pub events: Vec<Event>,
    /// Whether this attack locks itself next turn.
    pub self_lock: bool,
}

impl AttackResult {
    pub fn new(damage: u16) -> (r: Self)
        ensures
            r.damage == damage,
            !r.ko,
            r.bench_damage@.len() == 0,
            r.events@.len() == 0,
            !r.self_lock,
    {
        AttackResult { damage, ko: false, bench_damage: Vec::new(), events: Vec::new(), self_lock: false }
    }

    pub fn with_ko(damage: u16) -> (r: Self)
        ensures
            r.damage == damage,
            r.ko,
            r.bench_damage@.len() == 0,
            r.events@.len() == 0,
            !r.self_lock,
    {
        AttackResult { damage, ko: true, bench_damage: Vec::new(), events: Vec::new(), self_lock: false }
    }
}

impl Default for EffectResult {
    fn default() -> (r: Self)
        ensures
            r.events@.len() == 0,
    {
        EffectResult::new()
    }
}

impl EffectResult {
    pub fn new() -> (r: Self)
        ensures
            r.events@.len() == 0,
    {
        EffectResult { events: Vec::new() }
    }

    pub fn with_event(self, event: Event) -> (r: Self)
        ensures
            r.events@ == self.events@.push(event),
    {
        let mut s = self;
        s.events.push(event);
        s
    }
}

/// Player `player` draws up to `count` cards.
pub fn draw_cards(state: &mut GameState, player: PlayerId, count: usize) -> (drawn: Vec<CardInstanceId>)
    requires
        player.0 < 2,
    ensures
        drawn@ == spec_drawn(old(state)@.player(player), count as nat),
        final(state)@ == old(state)@.with_player(player, spec_draw(old(state)@.player(player), count as nat)),
{
    state.draw_cards(player, count)
}

/// Search of a deck seen top first (`s`): the first `count` positions for which
/// `take` holds are found; every other card is kept, in the order met.
pub open spec fn scan(s: Seq<CardInstanceId>, count: nat, take: spec_fn(int) -> bool) -> (Seq<CardInstanceId>, Seq<CardInstanceId>)
    decreases s.len(),
{
    if s.len() == 0 {
        (Seq::empty(), Seq::empty())
    } else {
        let prev = scan(s.drop_last(), count, take);
        if prev.0.len() < count && take(s.len() - 1) {
            (prev.0.push(s.last()), prev.1)
        } else {
            (prev.0, prev.1.push(s.last()))
        }
    }
}

pub proof fn lemma_scan_len(s: Seq<CardInstanceId>, count: nat, take: spec_fn(int) -> bool)
    ensures
        scan(s, count, take).0.len() <= count,
        scan(s, count, take).0.len() + scan(s, count, take).1.len() == s.len(),
    decreases s.len(),
{
    if s.len() > 0 {
        lemma_scan_len(s.drop_last(), count, take);
    }
}

/// `scan` only reads `take` below the length of the sequence.
pub proof fn lemma_scan_ext(s: Seq<CardInstanceId>, count: nat, t1: spec_fn(int) -> bool, t2: spec_fn(int) -> bool)
    requires
        forall|i: int| 0 <= i < s.len() ==> #[trigger] t1(i) == t2(i),
    ensures
        scan(s, count, t1) == scan(s, count, t2),
    decreases s.len(),
{
    if s.len() > 0 {
        lemma_scan_ext(s.drop_last(), count, t1, t2);
    }
}

/// What a deck search looks for.
#[derive(Debug, Clone, Copy, PartialEq, Eq, Structural)]
pub enum CardFilter {
    /// A Basic Pokemon of Lightning type.
    BasicLightningPokemon,
    /// A basic Fire energy.
    BasicFireEnergy,
    /// A Basic Pokemon.
    BasicPokemon,
    /// Any Pokemon.
    AnyPokemon,
    /// A Stage 2 Pokemon, when the flag says the target can take one.
    Stage2Pokemon(bool),
}

pub open spec fn filter_accepts(f: CardFilter, d: CardDef) -> bool {
    match f {
        CardFilter::BasicLightningPokemon => d.spec_is_basic_pokemon() && d.energy_type == Some(EnergyType::Lightning),
        CardFilter::BasicFireEnergy => d.card_type == CardType::BasicEnergy && d.energy_type == Some(EnergyType::Fire),
        CardFilter::BasicPokemon => d.spec_is_basic_pokemon(),
        CardFilter::AnyPokemon => d.spec_is_pokemon(),
        CardFilter::Stage2Pokemon(ok) => ok && d.spec_is_pokemon() && d.stage == Some(Stage::Stage2),
    }
}

/// The position predicate of a search with filter `f` over `s` in state `g`.
pub open spec fn filter_take(g: GameView, f: CardFilter, s: Seq<CardInstanceId>) -> spec_fn(int) -> bool {
    |i: int|
        match g.def_of(s[i]) {
            Some(d) => filter_accepts(f, d),
            None => false,
        }
}

/// The deck search of `count` cards matching `f` in the deck of player `p`,
/// looking from the top.
pub open spec fn spec_search(g: GameView, p: PlayerId, count: nat, f: CardFilter) -> (Seq<CardInstanceId>, Seq<CardInstanceId>) {
    let rev = g.player(p).deck.reverse();
    scan(rev, count, filter_take(g, f, rev))
}

fn accepts(f: CardFilter, d: &CardDef) -> (r: bool)
    ensures
        r == filter_accepts(f, *d),
{
    match f {
        CardFilter::BasicLightningPokemon => d.is_basic_pokemon() && d.energy_type == Some(EnergyType::Lightning),
        CardFilter::BasicFireEnergy => d.is_basic_energy() && d.energy_type == Some(EnergyType::Fire),
        CardFilter::BasicPokemon => d.is_basic_pokemon(),
        CardFilter::AnyPokemon => d.is_pokemon(),
        CardFilter::Stage2Pokemon(ok) => ok && d.is_pokemon() && d.stage == Some(Stage::Stage2),
    }
}

/// Search the deck of `player` from the top for up to `count` cards matching
/// `filter`: returns the cards found and the rest of the deck in the order
/// met (that is, top first). The state is not changed.
pub fn scan_deck(state: &GameState, player: PlayerId, count: usize, filter: CardFilter) -> (r: (Vec<CardInstanceId>, Vec<CardInstanceId>))
    requires
        player.0 < 2,
    ensures
        (r.0@, r.1@) == spec_search(state@, player, count as nat, filter),
        r.0@.len() <= count,
{
    let deck = &state.players[player.0].deck;
    let ghost rev = state@.player(player).deck.reverse();
    let ghost take = filter_take(state@, filter, rev);
    let mut found: Vec<CardInstanceId> = Vec::new();
    let mut remaining: Vec<CardInstanceId> = Vec::new();
    let n = deck.len();
    let mut k: usize = 0;
    proof {
        assert(rev.take(0) =~= Seq::<CardInstanceId>::empty());
    }
    while k < n
        invariant
            n == deck@.len(),
            deck@ == state@.player(player).deck,
            rev == deck@.reverse(),
            take == filter_take(state@, filter, rev),
            k <= n,
            (found@, remaining@) == scan(rev.take(k as int), count as nat, take),
        decreases n - k,
    {
        let id = deck[n - 1 - k];
        proof {
            assert(rev[k as int] == id);
            assert(rev.take(k + 1).drop_last() =~= rev.take(k as int));
            assert(rev.take(k + 1).last() == id);
            lemma_scan_len(rev.take(k as int), count as nat, take);
        }
        let mut taken = false;
        if found.len() < count {
            match state.get_card_def(id) {
                Some(d) => {
                    if accepts(filter, d) {
                        taken = true;
                    }
                },
                None => {},
            }
        }
        if taken {
            found.push(id);
        } else {
            remaining.push(id);
        }
        k = k + 1;
    }
    proof {
        assert(rev.take(n as int) =~= rev);
        lemma_scan_len(rev, count as nat, take);
    }
    (found, remaining)
}

/// Search the deck of `player` for up to `count` cards whose definition
/// `filter` accepts, looking from the top; the found cards go to the hand in
/// the order found, and the deck keeps the other cards in the order met,
/// so that it ends up reversed.
pub fn search_deck<F: Fn(&CardDef) -> bool>(state: &mut GameState, player: PlayerId, count: usize, filter: F) -> (found: Vec<CardInstanceId>)
    requires
        player.0 < 2,
        forall|d: &CardDef| call_requires(filter, (d,)),
    ensures
        found@.len() <= count,
        exists|take: spec_fn(int) -> bool|
            #![trigger scan(old(state)@.player(player).deck.reverse(), count as nat, take)]
            {
                let rev = old(state)@.player(player).deck.reverse();
                &&& (found@, final(state)@.player(player).deck) == scan(rev, count as nat, take)
                &&& forall|i: int|
                    #![trigger take(i)]
                    0 <= i < rev.len() && scan(rev.take(i), count as nat, take).0.len() < count ==> (take(i)
                        ==> (old(state)@.def_of(rev[i]) matches Some(d) && call_ensures(filter, (&d,), true))) && (!take(i)
                        ==> (old(state)@.def_of(rev[i]) matches Some(d) ==> call_ensures(filter, (&d,), false)))
            },
        final(state)@ == old(state)@.with_player(
            player,
            PlayerView {
                deck: final(state)@.player(player).deck,
                hand: old(state)@.player(player).hand + found@,
                ..old(state)@.player(player)
            },
        ),
{
    let ghost g = state@;
    let ghost rev = state@.player(player).deck.reverse();
    let n = state.players[player.0].deck.len();
    let mut found: Vec<CardInstanceId> = Vec::new();
    let mut remaining: Vec<CardInstanceId> = Vec::new();
    let ghost mut decisions: Seq<bool> = Seq::empty();
    let mut k: usize = 0;
    proof {
        assert(rev.take(0) =~= Seq::<CardInstanceId>::empty());
    }
    while k < n
        invariant
            g == state@,
            player.0 < 2,
            forall|d: &CardDef| call_requires(filter, (d,)),
            n == g.player(player).deck.len(),
            rev == g.player(player).deck.reverse(),
            k <= n,
            decisions.len() == k,
            (found@, remaining@) == scan(rev.take(k as int), count as nat, |i: int| 0 <= i < decisions.len() && decisions[i]),
            forall|i: int|
                0 <= i < k && scan(rev.take(i), count as nat, |j: int| 0 <= j < decisions.len() && decisions[j]).0.len() < count
                    ==> (#[trigger] decisions[i] ==> (g.def_of(rev[i]) matches Some(d) && call_ensures(filter, (&d,), true)))
                    && (!decisions[i] ==> (g.def_of(rev[i]) matches Some(d) ==> call_ensures(filter, (&d,), false))),
        decreases n - k,
    {
        let id = state.players[player.0].deck[n - 1 - k];
        let ghost t_old = |i: int| 0 <= i < decisions.len() && decisions[i];
        proof {
            assert(rev[k as int] == id);
            assert(rev.take(k + 1).drop_last() =~= rev.take(k as int));
            lemma_scan_len(rev.take(k as int), count as nat, t_old);
        }
        let mut taken = false;
        if found.len() < count {
            match state.get_card_def(id) {
                Some(d) => {
                    if filter(d) {
                        taken = true;
                    }
                },
                None => {},
            }
        }
        proof {
            let nd = decisions.push(taken);
            let t_new = |i: int| 0 <= i < nd.len() && nd[i];
            assert forall|i: int| 0 <= i < k implies #[trigger] t_old(i) == t_new(i) by {}
            lemma_scan_ext(rev.take(k as int), count as nat, t_old, t_new);
            assert forall|i: int| 0 <= i <= k implies scan(rev.take(i), count as nat, t_old) == scan(rev.take(i), count as nat, t_new) by {
                lemma_scan_ext(rev.take(i), count as nat, t_old, t_new);
            }
            decisions = nd;
        }
        if taken {
            found.push(id);
        } else {
            remaining.push(id);
        }
        k = k + 1;
    }
    let ghost take = |i: int| 0 <= i < decisions.len() && decisions[i];
    proof {
        assert(rev.take(n as int) =~= rev);
        lemma_scan_len(rev, count as nat, take);
    }
    let ghost found_view = found@;
    state.players[player.0].deck = remaining;
    let mut i: usize = 0;
    while i < found.len()
        invariant
            player.0 < 2,
            i <= found@.len(),
            found@ == found_view,
            state.players@[player.0 as int].hand@ == g.player(player).hand + found@.take(i as int),
            state.players@[player.0 as int].deck@ == scan(rev, count as nat, take).1,
            state.players@[1 - player.0] == old(state).players@[1 - player.0],
            state.turn == old(state).turn,
            state.card_registry == old(state).card_registry,
            state.cards == old(state).cards,
            state.next_card_id == old(state).next_card_id,
            state.winner == old(state).winner,
            state.action_log == old(state).action_log,
            state.players@[player.0 as int].prizes == old(state).players@[player.0 as int].prizes,
            state.players@[player.0 as int].discard == old(state).players@[player.0 as int].discard,
            state.players@[player.0 as int].lost_zone == old(state).players@[player.0 as int].lost_zone,
            state.players@[player.0 as int].active == old(state).players@[player.0 as int].active,
            state.players@[player.0 as int].bench == old(state).players@[player.0 as int].bench,
            state.players@[player.0 as int].stadium == old(state).players@[player.0 as int].stadium,
            state.players@[player.0 as int].turn_actions_used == old(state).players@[player.0 as int].turn_actions_used,
        decreases found@.len() - i,
    {
        let c = found[i];
        state.players[player.0].hand.push(c);
        proof {
            assert(found@.take(i + 1) =~= found@.take(i as int).push(c));
        }
        i = i + 1;
    }
    proof {
        assert(found@.take(i as int) =~= found@);
        assert(state@.players =~= g.players.update(player.0 as int, state.players@[player.0 as int]@));
        assert forall|ii: int|
            #![trigger take(ii)]
            0 <= ii < rev.len() && scan(rev.take(ii), count as nat, take).0.len() < count implies (take(ii)
                ==> (g.def_of(rev[ii]) matches Some(d) && call_ensures(filter, (&d,), true))) && (!take(ii)
                ==> (g.def_of(rev[ii]) matches Some(d) ==> call_ensures(filter, (&d,), false))) by {
            assert(decisions[ii] == take(ii));
        }
    }
    found
}


/// The predicate "is not `x`".
pub open spec fn not_id(x: CardInstanceId) -> spec_fn(CardInstanceId) -> bool {
    |y: CardInstanceId| y != x
}

/// Remove every occurrence of `x` from `v`.
pub fn remove_all(v: &mut Vec<CardInstanceId>, x: CardInstanceId)
    ensures
        final(v)@ == old(v)@.filter(not_id(x)),
{
    let mut out: Vec<CardInstanceId> = Vec::new();
    let mut i: usize = 0;
    let ghost s = v@;
    proof {
        reveal_with_fuel(Seq::<CardInstanceId>::filter, 1);
        assert(s.take(0).filter(not_id(x)) =~= Seq::<CardInstanceId>::empty());
    }
    while i < v.len()
        invariant
            v@ == s,
            i <= s.len(),
            out@ == s.take(i as int).filter(not_id(x)),
        decreases s.len() - i,
    {
        proof {
            assert(s.take(i + 1).drop_last() =~= s.take(i as int));
            assert(s.take(i + 1).last() == s[i as int]);
            assert(not_id(x)(s[i as int]) == (s[i as int] != x));
            reveal_with_fuel(Seq::<CardInstanceId>::filter, 1);
            assert(s.take(i + 1).filter(not_id(x)) == if not_id(x)(s[i as int]) {
                s.take(i as int).filter(not_id(x)).push(s[i as int])
            } else {
                s.take(i as int).filter(not_id(x))
            });
        }
        if v[i] != x {
            out.push(v[i]);
        }
        i = i + 1;
    }
    proof {
        assert(s.take(i as int) =~= s);
    }
    *v = out;
}

/// Search the deck of `player` from the top for the first card whose
/// definition `energy_filter` accepts. That card is removed from the deck
/// (every copy of its identifier) and attached to the Pokemon at `target`;
/// the hand is left as it was (with no Pokemon at `target`, the card is put
/// nowhere). `Ok(None)` when no card is accepted.
pub fn search_deck_attach_energy<F: Fn(&CardDef) -> bool>(
    state: &mut GameState,
    player: PlayerId,
    energy_filter: F,
    target: SlotRef,
) -> (r: EngineResult<Option<CardInstanceId>>)
    requires
        player.0 < 2,
        forall|d: &CardDef| call_requires(energy_filter, (d,)),
    ensures
        r is Ok,
        r matches Ok(None) ==> final(state)@ == old(state)@ && forall|j: int|
            0 <= j < old(state)@.player(player).deck.len() ==> (old(state)@.def_of(
                #[trigger] old(state)@.player(player).deck[j],
            ) matches Some(d) ==> call_ensures(energy_filter, (&d,), false)),
        r matches Ok(Some(c)) ==> {
            let pv = old(state)@.player(player);
            &&& exists|j: int|
                0 <= j < pv.deck.len() && #[trigger] pv.deck[j] == c && (old(state)@.def_of(c) matches Some(d)
                    && call_ensures(energy_filter, (&d,), true)) && forall|k: int|
                    j < k < pv.deck.len() ==> (old(state)@.def_of(#[trigger] pv.deck[k]) matches Some(d)
                        ==> call_ensures(energy_filter, (&d,), false))
            &&& final(state)@ == old(state)@.with_player(
                player,
                (PlayerView {
                    deck: pv.deck.filter(not_id(c)),
                    ..pv
                }).with_slot(
                    target,
                    match pv.slot(target) {
                        Some(sv) => Some(SlotView { energies: sv.energies.push(c), ..sv }),
                        None => None,
                    },
                ),
            )
        },
{
    let n = state.players[player.0].deck.len();
    let mut k: usize = n;
    while k > 0
        invariant
            player.0 < 2,
            forall|d: &CardDef| call_requires(energy_filter, (d,)),
            n == state@.player(player).deck.len(),
            k <= n,
            state@ == old(state)@,
            forall|j: int|
                k <= j < n ==> (old(state)@.def_of(#[trigger] old(state)@.player(player).deck[j]) matches Some(d)
                    ==> call_ensures(energy_filter, (&d,), false)),
        decreases k,
    {
        let j = k - 1;
        let card_id = state.players[player.0].deck[j];
        let hit = match state.get_card_def(card_id) {
            Some(d) => energy_filter(d),
            None => false,
        };
        if hit {
            let ghost pv = old(state)@.player(player);
            remove_all(&mut state.players[player.0].deck, card_id);
            let ps = &mut state.players[player.0];
            match ps.get_slot_mut(target) {
                Some(slot) => {
                    slot.energies.push(card_id);
                },
                None => {},
            }
            proof {
                let pv2 = (PlayerView {
                    deck: pv.deck.filter(not_id(card_id)),
                    ..pv
                }).with_slot(
                    target,
                    match pv.slot(target) {
                        Some(sv) => Some(SlotView { energies: sv.energies.push(card_id), ..sv }),
                        None => None,
                    },
                );
                assert(state.players@[player.0 as int]@ =~= pv2);
                assert(state@.players =~= old(state)@.players.update(player.0 as int, pv2));
                assert(pv.deck[j as int] == card_id);
            }
            return Ok(Some(card_id));
        }
        k = j;
    }
    Ok(None)
}

/// Swap the active Pokemon of `player` with the one on bench slot `target`.
pub fn switch_pokemon(state: &mut GameState, player: PlayerId, target: SlotRef) -> (r: EngineResult<()>)
    requires
        player.0 < 2,
        target matches SlotRef::Bench(i) ==> i < old(state)@.player(player).bench.len(),
    ensures
        match target {
            SlotRef::Active => final(state)@ == old(state)@ && is_err(r, ErrorKind::InvalidAction, "Must target bench slot"@),
            SlotRef::Bench(i) => r is Ok && final(state)@ == old(state)@.with_player(
                player,
                PlayerView {
                    active: old(state)@.player(player).bench[i as int],
                    bench: old(state)@.player(player).bench.update(i as int, old(state)@.player(player).active),
                    ..old(state)@.player(player)
                },
            ),
        },
{
    let bench_index = match target.bench_index() {
        Some(i) => i,
        None => return Err(EngineError::invalid_action("Must target bench slot")),
    };
    let player_state = &mut state.players[player.0];
    let active = player_state.active.take();
    let bench_pokemon = player_state.bench[bench_index].take();
    player_state.active = bench_pokemon;
    player_state.bench.set(bench_index, active);
    proof {
        let pv = old(state)@.player(player);
        let pv2 = PlayerView { active: pv.bench[bench_index as int], bench: pv.bench.update(bench_index as int, pv.active), ..pv };
        assert(state.players@[player.0 as int]@ =~= pv2);
        assert(state@.players =~= old(state)@.players.update(player.0 as int, pv2));
    }
    Ok(())
}

/// Maximum HP of the Pokemon in a slot: the HP of its top card's definition.
pub open spec fn spec_max_hp(g: GameView, s: SlotView) -> Option<u16> {
    match spec_top_card(s) {
        Some(id) => match g.def_of(id) {
            Some(d) => d.hp,
            None => None,
        },
        None => None,
    }
}

/// The damage can be added to the Pokemon at `slot` without exceeding `u16`.
pub open spec fn damage_addable(g: GameView, p: PlayerId, slot: SlotRef, damage: u16) -> bool {
    match g.player(p).slot(slot) {
        Some(s) => s.damage + damage <= u16::MAX,
        None => true,
    }
}

/// The state after `damage` is added to the Pokemon at `slot` of `p`.
pub open spec fn spec_apply_damage(g: GameView, p: PlayerId, slot: SlotRef, damage: u16) -> GameView {
    match g.player(p).slot(slot) {
        Some(s) => g.with_player(
            p,
            g.player(p).with_slot(slot, Some(SlotView { damage: (s.damage + damage) as u16, ..s })),
        ),
        None => g,
    }
}

/// Whether adding `damage` knocks the Pokemon out (its damage reaches its HP).
pub open spec fn spec_damage_kos(g: GameView, p: PlayerId, slot: SlotRef, damage: u16) -> bool {
    match g.player(p).slot(slot) {
        Some(s) => match spec_max_hp(g, s) {
            Some(hp) => s.damage + damage >= hp,
            None => false,
        },
        None => false,
    }
}

/// Add `damage` to the Pokemon at `target_slot`; true when that knocks it out.
pub fn apply_damage(state: &mut GameState, target_player: PlayerId, target_slot: SlotRef, damage: u16) -> (ko: bool)
    requires
        target_player.0 < 2,
        damage_addable(old(state)@, target_player, target_slot, damage),
    ensures
        ko == spec_damage_kos(old(state)@, target_player, target_slot, damage),
        final(state)@ == spec_apply_damage(old(state)@, target_player, target_slot, damage),
{
    let max_hp: Option<u16> = match state.players[target_player.0].get_slot(target_slot) {
        Some(s) => match s.top_card() {
            Some(id) => match state.get_card_def(id) {
                Some(d) => d.hp,
                None => None,
            },
            None => None,
        },
        None => None,
    };
    let ps = &mut state.players[target_player.0];
    let mut ko = false;
    match ps.get_slot_mut(target_slot) {
        Some(slot) => {
            slot.damage = slot.damage + damage;
            match max_hp {
                Some(hp) => {
                    if slot.damage >= hp {
                        ko = true;
                    }
                },
                None => {},
            }
        },
        None => {},
    }
    proof {
        assert(state@.players =~= old(state)@.players.update(target_player.0 as int, state.players@[target_player.0 as int]@));
    }
    ko
}

/// The cards of a Pokemon in the order they are discarded: its stack, its
/// energy, then its tool.
pub open spec fn slot_cards(s: SlotView) -> Seq<CardInstanceId> {
    s.cards + s.energies + match s.tool {
        Some(t) => seq![t],
        None => Seq::empty(),
    }
}

/// Move every card of the Pokemon at `slot` to the discard pile (or the lost
/// zone); the slot keeps its counters but no cards. Returns the moved cards.
pub fn discard_pokemon(state: &mut GameState, player: PlayerId, slot: SlotRef, to_lost_zone: bool) -> (discarded: Vec<CardInstanceId>)
    requires
        player.0 < 2,
    ensures
        match old(state)@.player(player).slot(slot) {
            Some(s) => {
                let pv = old(state)@.player(player);
                let pv2 = pv.with_slot(slot, Some(SlotView { cards: Seq::empty(), energies: Seq::empty(), tool: None, ..s }));
                &&& discarded@ == slot_cards(s)
                &&& final(state)@ == old(state)@.with_player(
                    player,
                    if to_lost_zone {
                        PlayerView { lost_zone: pv.lost_zone + slot_cards(s), ..pv2 }
                    } else {
                        PlayerView { discard: pv.discard + slot_cards(s), ..pv2 }
                    },
                )
            },
            None => discarded@.len() == 0 && final(state)@ == old(state)@,
        },
{
    let ghost pv = old(state)@.player(player);
    let player_state = &mut state.players[player.0];
    let mut discarded: Vec<CardInstanceId> = Vec::new();
    let taken = player_state.take_slot(slot);
    let mut pokemon = match taken {
        Some(p) => p,
        None => {
            proof {
                assert(state.players@[player.0 as int]@ =~= pv);
                assert(state@.players =~= old(state)@.players);
            }
            return discarded;
        },
    };
    let ghost sv = pokemon@;
    discarded.append(&mut pokemon.cards);
    discarded.append(&mut pokemon.energies);
    match pokemon.tool.take() {
        Some(t) => discarded.push(t),
        None => {},
    }
    proof {
        assert(discarded@ =~= slot_cards(sv));
        assert(pokemon@ =~= SlotView { cards: Seq::empty(), energies: Seq::empty(), tool: None, ..sv });
    }
    player_state.put_slot(slot, Some(pokemon));
    let mut copy = clone_ids(&discarded);
    if to_lost_zone {
        player_state.lost_zone.append(&mut copy);
    } else {
        player_state.discard.append(&mut copy);
    }
    proof {
        let pv2 = pv.with_slot(slot, Some(SlotView { cards: Seq::empty(), energies: Seq::empty(), tool: None, ..sv }));
        let expected = if to_lost_zone {
            PlayerView { lost_zone: pv.lost_zone + slot_cards(sv), ..pv2 }
        } else {
            PlayerView { discard: pv.discard + slot_cards(sv), ..pv2 }
        };
        assert(state.players@[player.0 as int]@ =~= expected);
        assert(state@.players =~= old(state)@.players.update(player.0 as int, expected));
    }
    discarded
}

/// A copy of a list of card identifiers.
pub fn clone_ids(v: &Vec<CardInstanceId>) -> (r: Vec<CardInstanceId>)
    ensures
        r@ == v@,
{
    let mut r: Vec<CardInstanceId> = Vec::new();
    let mut i: usize = 0;
    while i < v.len()
        invariant
            i <= v@.len(),
            r@ == v@.take(i as int),
        decreases v@.len() - i,
    {
        r.push(v[i]);
        proof {
            assert(v@.take(i + 1) =~= v@.take(i as int).push(v@[i as int]));
        }
        i = i + 1;
    }
    proof {
        assert(v@.take(i as int) =~= v@);
    }
    r
}

/// Evolve the Pokemon at `target` with `card` from the hand: the card leaves
/// the hand and goes on top of the stack, and the turn is recorded.
pub fn evolve_pokemon(state: &mut GameState, player: PlayerId, card: CardInstanceId, target: SlotRef) -> (r: EngineResult<()>)
    requires
        player.0 < 2,
    ensures
        !old(state)@.player(player).hand.contains(card) ==> final(state)@ == old(state)@ && is_err(r, ErrorKind::InvalidAction, "Card not in hand"@),
        old(state)@.player(player).hand.contains(card) ==> r is Ok && {
            let pv = old(state)@.player(player);
            let pv2 = PlayerView { hand: spec_remove_first(pv.hand, card), ..pv };
            final(state)@ == old(state)@.with_player(
                player,
                match pv.slot(target) {
                    Some(s) => pv2.with_slot(
                        target,
                        Some(SlotView { cards: s.cards.push(card), turn_evolved: Some(old(state)@.turn.turn_number), ..s }),
                    ),
                    None => pv2,
                },
            )
        },
{
    let turn = state.turn.turn_number;
    let player_state = &mut state.players[player.0];
    if !remove_card(&mut player_state.hand, card) {
        proof {
            crate::state::lemma_remove_first_absent(old(state)@.player(player).hand, card);
            assert(state.players@[player.0 as int]@ =~= old(state)@.player(player));
            assert(state@.players =~= old(state)@.players);
        }
        return Err(EngineError::invalid_action("Card not in hand"));
    }
    match player_state.get_slot_mut(target) {
        Some(slot) => {
            slot.cards.push(card);
            slot.turn_evolved = Some(turn);
        },
        None => {},
    }
    proof {
        assert(state@.players =~= old(state)@.players.update(player.0 as int, state.players@[player.0 as int]@));
    }
    Ok(())
}

} // verus!
