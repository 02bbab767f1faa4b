//! Trainer card effects.

use vstd::prelude::*;

use super::common::{filter_accepts, filter_take, not_id, remove_all, scan, scan_deck, spec_search, CardFilter, EffectResult};
use crate::action::Choices;
use crate::card::{CardType, EnergyType, Stage};
use crate::engine::{card_played, is_card_played, Event};
use crate::error::{is_err, EngineError, EngineResult, ErrorKind};
use crate::state::{
    contains_card, remove_card, spec_draw, spec_new_slot, spec_remove_first, spec_top_card, CardInstanceId, GameState,
    GameView, PlayerId, PlayerView, PokemonSlot, SlotRef, SlotView,
};
use crate::MAX_BENCH_SIZE;

verus! {

/// Nest Ball: the first Basic Pokemon from the top of the deck goes to the
/// first empty bench slot; the deck keeps its other cards in reversed order.
pub open spec fn spec_nest_ball(g: GameView, p: PlayerId) -> PlayerView {
    let (found, rem) = spec_search(g, p, 1, CardFilter::BasicPokemon);
    let pv = PlayerView { deck: rem, ..g.player(p) };
    if found.len() > 0 {
        match pv.first_empty_bench() {
            Some(i) => PlayerView { bench: pv.bench.update(i, Some(spec_new_slot(found[0], g.turn.turn_number))), ..pv },
            None => pv,
        }
    } else {
        pv
    }
}

/// What `effect_nest_ball` does: `g` before, `g2` after, `r` its result.
pub open spec fn effect_nest_ball_post(g: GameView, g2: GameView, player: PlayerId, r: EngineResult<EffectResult>) -> bool {
    &&& (g.player(player).bench_count() >= MAX_BENCH_SIZE ==> g2 == g && is_err(
        r,
        ErrorKind::InvalidAction,
        "Bench is full"@,
    )
    )
    &&& (g.player(player).bench_count() < MAX_BENCH_SIZE ==> r is Ok && g2 == g.with_player(
        player,
        spec_nest_ball(g, player),
    )
    )
    &&& (r matches Ok(res) ==> {
        let found = spec_search(g, player, 1, CardFilter::BasicPokemon).0;
        if found.len() > 0 && g.player(player).first_empty_bench() is Some {
            res.events@.len() == 1 && is_card_played(res.events@[0], player, found[0], "bench"@)
        } else {
            res.events@.len() == 0
        }
    }
    )
}

/// Nest Ball: put a Basic Pokemon from the deck onto the bench.
#[verifier::rlimit(40)]
pub fn effect_nest_ball(state: &mut GameState, player: PlayerId) -> (r: EngineResult<EffectResult>)
    requires
        player.0 < 2,
    ensures
        effect_nest_ball_post(old(state)@, final(state)@, player, r),
{
    if state.players[player.0].bench_count() >= MAX_BENCH_SIZE {
        return Err(EngineError::invalid_action("Bench is full"));
    }
    let (found, remaining) = scan_deck(state, player, 1, CardFilter::BasicPokemon);
    let ghost pv = PlayerView { deck: remaining@, ..old(state)@.player(player) };
    state.players[player.0].deck = remaining;
    proof {
        assert(state.players@[player.0 as int]@ =~= pv);
        assert(state@.players =~= old(state)@.players.update(player.0 as int, pv));
    }
    if found.len() > 0 {
        let card_id = found[0];
        let turn = state.turn.turn_number;
        match state.players[player.0].first_empty_bench() {
            Some(i) => {
                let slot = PokemonSlot::with_card(card_id, turn);
                state.players[player.0].put_slot(SlotRef::Bench(i), Some(slot));
                proof {
                    assert(state@.players =~= old(state)@.players.update(player.0 as int, state.players@[player.0 as int]@));
                }
                return Ok(EffectResult::new().with_event(card_played(player, card_id, "bench")));
            },
            None => {},
        }
    }
    Ok(EffectResult::new())
}

/// The player after each card of `cards` still in the hand is moved from the
/// hand to the discard pile, in order.
pub open spec fn spec_discard_from_hand(pv: PlayerView, cards: Seq<CardInstanceId>) -> PlayerView
    decreases cards.len(),
{
    if cards.len() == 0 {
        pv
    } else {
        let p1 = spec_discard_from_hand(pv, cards.drop_last());
        let c = cards.last();
        if p1.hand.contains(c) {
            PlayerView { hand: spec_remove_first(p1.hand, c), discard: p1.discard.push(c), ..p1 }
        } else {
            p1
        }
    }
}

/// Ultra Ball after discarding: the first Pokemon from the top of the deck
/// goes to the hand; the deck keeps its other cards in reversed order.
pub open spec fn spec_ultra_ball(g: GameView, p: PlayerId, discard: Seq<CardInstanceId>) -> PlayerView {
    let p1 = spec_discard_from_hand(g.player(p), discard);
    let g1 = g.with_player(p, p1);
    let (found, rem) = spec_search(g1, p, 1, CardFilter::AnyPokemon);
    PlayerView { deck: rem, hand: p1.hand + found, ..p1 }
}

/// What `effect_ultra_ball` does: `g` before, `g2` after, `r` its result.
pub open spec fn effect_ultra_ball_post(g: GameView, g2: GameView, player: PlayerId, discard: Vec<CardInstanceId>, r: EngineResult<EffectResult>) -> bool {
    &&& (discard@.len() != 2 ==> g2 == g && is_err(r, ErrorKind::InvalidAction, "Must discard exactly 2 cards"@))
    &&& (discard@.len() == 2 ==> r is Ok && g2 == g.with_player(
        player,
        spec_ultra_ball(g, player, discard@),
    )
    )
    &&& (r matches Ok(res) ==> {
        let g1 = g.with_player(player, spec_discard_from_hand(g.player(player), discard@));
        let found = spec_search(g1, player, 1, CardFilter::AnyPokemon).0;
        if found.len() > 0 {
            res.events@.len() == 1 && is_card_played(res.events@[0], player, found[0], "hand"@)
        } else {
            res.events@.len() == 0
        }
    }
    )
}

/// Ultra Ball: discard two cards from the hand, then take a Pokemon from the deck.
pub fn effect_ultra_ball(state: &mut GameState, player: PlayerId, discard: Vec<CardInstanceId>) -> (r: EngineResult<EffectResult>)
    requires
        player.0 < 2,
    ensures
        effect_ultra_ball_post(old(state)@, final(state)@, player, discard, r),
{
    if discard.len() != 2 {
        return Err(EngineError::invalid_action("Must discard exactly 2 cards"));
    }
    let ghost g = state@;
    let mut k: usize = 0;
    while k < discard.len()
        invariant
            player.0 < 2,
            k <= discard@.len(),
            state@ == g.with_player(player, spec_discard_from_hand(g.player(player), discard@.take(k as int))),
            g.players.len() == 2,
        decreases discard@.len() - k,
    {
        let c = discard[k];
        proof {
            assert(discard@.take(k + 1).drop_last() =~= discard@.take(k as int));
        }
        let ghost before = state.players@[player.0 as int]@;
        let ghost old_state_view = state@;
        let removed = remove_card(&mut state.players[player.0].hand, c);
        if removed {
            state.players[player.0].discard.push(c);
        }
        proof {
            if !before.hand.contains(c) {
                crate::state::lemma_remove_first_absent(before.hand, c);
            }
            assert(discard@.take(k + 1).last() == c);
            assert(before == old_state_view.player(player));
            assert(before == spec_discard_from_hand(g.player(player), discard@.take(k as int)));
            let expect = spec_discard_from_hand(g.player(player), discard@.take(k + 1));
            assert(state.players@[player.0 as int]@ =~= expect);
            assert(state@.players =~= old_state_view.players.update(player.0 as int, expect));
            assert(state@.players =~= g.players.update(player.0 as int, expect));
        }
        k = k + 1;
    }
    proof {
        assert(discard@.take(2) =~= discard@);
    }
    let ghost p1 = spec_discard_from_hand(g.player(player), discard@);
    let ghost g1 = state@;
    let (found, remaining) = scan_deck(state, player, 1, CardFilter::AnyPokemon);
    state.players[player.0].deck = remaining;
    if found.len() > 0 {
        let card_id = found[0];
        state.players[player.0].hand.push(card_id);
        proof {
            assert(found@ =~= seq![card_id]);
            assert(p1.hand + found@ =~= p1.hand.push(card_id));
            let expect = spec_ultra_ball(g, player, discard@);
            assert(state.players@[player.0 as int]@ =~= expect);
            assert(state@.players =~= g1.players.update(player.0 as int, expect));
            assert(state@.players =~= g.players.update(player.0 as int, expect));
        }
        return Ok(EffectResult::new().with_event(card_played(player, card_id, "hand")));
    }
    proof {
        assert(found@ =~= Seq::<CardInstanceId>::empty());
        assert(p1.hand + found@ =~= p1.hand);
        let expect = spec_ultra_ball(g, player, discard@);
        assert(state.players@[player.0 as int]@ =~= expect);
        assert(state@.players =~= g1.players.update(player.0 as int, expect));
        assert(state@.players =~= g.players.update(player.0 as int, expect));
    }
    Ok(EffectResult::new())
}

/// Whether a Stage 2 card can evolve the Pokemon whose top card has definition `top`.
pub open spec fn rare_candy_ok(top: Option<crate::card::CardDef>) -> bool {
    match top {
        Some(t) => t.spec_is_pokemon() && t.stage == Some(Stage::Stage1),
        None => false,
    }
}

/// The error Rare Candy reports before it searches, if any.
pub open spec fn spec_rare_candy_check(g: GameView, p: PlayerId, target: SlotRef) -> Option<crate::error::ErrorView> {
    match g.player(p).slot(target) {
        None => crate::error::err(ErrorKind::InvalidTarget, "Invalid slot"@),
        Some(s) => if s.cards.len() == 0 {
            crate::error::err(ErrorKind::InvalidTarget, "Slot is empty"@)
        } else if (g.def_of(s.cards.last()) matches Some(d) && d.stage != Some(Stage::Stage1)) {
            crate::error::err(ErrorKind::CannotEvolve, "Target must be a Stage 1 Pokemon"@)
        } else if s.turn_put_in_play == g.turn.turn_number {
            crate::error::err(ErrorKind::CannotEvolve, "Cannot evolve Pokemon put in play this turn"@)
        } else {
            None
        },
    }
}

/// What `effect_rare_candy` does: `g` before, `g2` after, `r` its result.
pub open spec fn effect_rare_candy_post(g: GameView, g2: GameView, player: PlayerId, target: SlotRef, r: EngineResult<EffectResult>) -> bool {
    &&& (spec_rare_candy_check(g, player, target) matches Some(e) ==> g2 == g && is_err(r, e.0, e.1))
    &&& (spec_rare_candy_check(g, player, target) is None ==> {
        let s = g.player(player).slot(target)->0;
        let f = CardFilter::Stage2Pokemon(rare_candy_ok(g.def_of(s.cards.last())));
        let (found, rem) = spec_search(g, player, 1, f);
        let pv = PlayerView { deck: rem, ..g.player(player) };
        if found.len() > 0 {
            &&& r matches Ok(res) && res.events@.len() == 1 && res.events@[0] == (Event::Evolved { player, slot: target, card: found[0] })
            &&& g2 == g.with_player(
                player,
                pv.with_slot(target, Some(SlotView { cards: s.cards.push(found[0]), turn_evolved: Some(g.turn.turn_number), ..s })),
            )
        } else {
            &&& is_err(r, ErrorKind::CannotEvolve, "No valid Stage 2 evolution found"@)
            &&& g2 == g.with_player(player, pv)
        }
    }
    )
}

/// Rare Candy: evolve the Stage 1 Pokemon at `target` with a matching Stage 2
/// Pokemon from the deck (the first one from the top). The deck keeps its
/// other cards in reversed order, also when none is found.
pub fn effect_rare_candy(state: &mut GameState, player: PlayerId, target: SlotRef) -> (r: EngineResult<EffectResult>)
    requires
        player.0 < 2,
    ensures
        effect_rare_candy_post(old(state)@, final(state)@, player, target, r),
{
    let target_slot = match state.players[player.0].get_slot(target) {
        Some(s) => s,
        None => return Err(EngineError::invalid_target("Invalid slot")),
    };
    if target_slot.is_empty() {
        return Err(EngineError::invalid_target("Slot is empty"));
    }
    let target_top_card = target_slot.top_card();
    let target_turn_put_in_play = target_slot.turn_put_in_play;
    let mut ok = false;
    match target_top_card {
        Some(card_id) => match state.get_card_def(card_id) {
            Some(card_def) => {
                if card_def.stage != Some(Stage::Stage1) {
                    return Err(EngineError::cannot_evolve("Target must be a Stage 1 Pokemon"));
                }
                ok = card_def.is_pokemon();
            },
            None => {},
        },
        None => {},
    }
    if target_turn_put_in_play == state.turn.turn_number {
        return Err(EngineError::cannot_evolve("Cannot evolve Pokemon put in play this turn"));
    }
    let (found, remaining) = scan_deck(state, player, 1, CardFilter::Stage2Pokemon(ok));
    let ghost pv = PlayerView { deck: remaining@, ..old(state)@.player(player) };
    state.players[player.0].deck = remaining;
    proof {
        assert(state.players@[player.0 as int]@ =~= pv);
        assert(state@.players =~= old(state)@.players.update(player.0 as int, pv));
    }
    if found.len() > 0 {
        let card_id = found[0];
        let turn = state.turn.turn_number;
        let ps = &mut state.players[player.0];
        match ps.get_slot_mut(target) {
            Some(slot) => {
                slot.cards.push(card_id);
                slot.turn_evolved = Some(turn);
                proof {
                    assert(state@.players =~= old(state)@.players.update(player.0 as int, state.players@[player.0 as int]@));
                }
                return Ok(EffectResult::new().with_event(Event::Evolved { player, slot: target, card: card_id }));
            },
            None => {},
        }
    }
    Err(EngineError::cannot_evolve("No valid Stage 2 evolution found"))
}

/// Arven's search over a deck seen top first: the first Item and the first Tool
/// met are taken, every other card is kept in the order met.
pub open spec fn spec_arven_scan(g: GameView, s: Seq<CardInstanceId>) -> (Seq<CardInstanceId>, Seq<CardInstanceId>, Seq<CardInstanceId>)
    decreases s.len(),
{
    if s.len() == 0 {
        (Seq::empty(), Seq::empty(), Seq::empty())
    } else {
        let (items, tools, rem) = spec_arven_scan(g, s.drop_last());
        let c = s.last();
        if items.len() < 1 || tools.len() < 1 {
            match g.def_of(c) {
                Some(d) => if items.len() < 1 && d.card_type == CardType::Item {
                    (items.push(c), tools, rem)
                } else if tools.len() < 1 && d.card_type == CardType::Tool {
                    (items, tools.push(c), rem)
                } else {
                    (items, tools, rem.push(c))
                },
                None => (items, tools, rem.push(c)),
            }
        } else {
            (items, tools, rem.push(c))
        }
    }
}

pub proof fn lemma_arven_scan_len(g: GameView, s: Seq<CardInstanceId>)
    ensures
        spec_arven_scan(g, s).0.len() <= 1,
        spec_arven_scan(g, s).1.len() <= 1,
    decreases s.len(),
{
    if s.len() > 0 {
        lemma_arven_scan_len(g, s.drop_last());
    }
}

/// Arven: the first Item and the first Tool from the top of the deck go to the
/// hand (the Item first); the deck keeps its other cards in reversed order.
pub open spec fn spec_arven(g: GameView, p: PlayerId) -> PlayerView {
    let (items, tools, rem) = spec_arven_scan(g, g.player(p).deck.reverse());
    PlayerView { deck: rem, hand: g.player(p).hand + items + tools, ..g.player(p) }
}

/// What `effect_arven` does: `g` before, `g2` after, `r` its result.
pub open spec fn effect_arven_post(g: GameView, g2: GameView, player: PlayerId, r: EngineResult<EffectResult>) -> bool {
    &&& (r matches Ok(res) && res.events@.len() == 0)
    &&& (g2 == g.with_player(player, spec_arven(g, player)))
}

/// Arven: search an Item and a Tool.
pub fn effect_arven(state: &mut GameState, player: PlayerId) -> (r: EngineResult<EffectResult>)
    requires
        player.0 < 2,
    ensures
        effect_arven_post(old(state)@, final(state)@, player, r),
{
    let ghost g = state@;
    let ghost rev = g.player(player).deck.reverse();
    let mut items: Vec<CardInstanceId> = Vec::new();
    let mut tools: Vec<CardInstanceId> = Vec::new();
    let mut remaining: Vec<CardInstanceId> = Vec::new();
    let n = state.players[player.0].deck.len();
    let mut k: usize = 0;
    proof {
        assert(rev.take(0) =~= Seq::<CardInstanceId>::empty());
    }
    while k < n
        invariant
            g == state@,
            player.0 < 2,
            n == g.player(player).deck.len(),
            rev == g.player(player).deck.reverse(),
            k <= n,
            (items@, tools@, remaining@) == spec_arven_scan(g, rev.take(k as int)),
        decreases n - k,
    {
        let id = state.players[player.0].deck[n - 1 - k];
        proof {
            assert(rev[k as int] == id);
            assert(rev.take(k + 1).drop_last() =~= rev.take(k as int));
            lemma_arven_scan_len(g, rev.take(k as int));
        }
        if items.len() < 1 || tools.len() < 1 {
            match state.get_card_def(id) {
                Some(d) => {
                    if items.len() < 1 && d.card_type == CardType::Item {
                        items.push(id);
                    } else if tools.len() < 1 && d.card_type == CardType::Tool {
                        tools.push(id);
                    } else {
                        remaining.push(id);
                    }
                },
                None => {
                    remaining.push(id);
                },
            }
        } else {
            remaining.push(id);
        }
        k = k + 1;
    }
    proof {
        assert(rev.take(n as int) =~= rev);
        lemma_arven_scan_len(g, rev);
    }
    let ps = &mut state.players[player.0];
    ps.deck = remaining;
    if items.len() > 0 {
        ps.hand.push(items[0]);
    }
    if tools.len() > 0 {
        ps.hand.push(tools[0]);
    }
    proof {
        let expect = spec_arven(g, player);
        assert(state.players@[player.0 as int]@ =~= expect);
        assert(state@.players =~= g.players.update(player.0 as int, expect));
    }
    Ok(EffectResult::new())
}

/// What `effect_boss_orders` does: `g` before, `g2` after, `r` its result.
pub open spec fn effect_boss_orders_post(g: GameView, g2: GameView, player: PlayerId, target: SlotRef, r: EngineResult<EffectResult>) -> bool {
    &&& (({
        let opp = PlayerId((1 - player.0) as usize);
        let ov = g.player(opp);
        match target {
            SlotRef::Active => g2 == g && is_err(r, ErrorKind::InvalidTarget, "Must target bench"@),
            SlotRef::Bench(i) => r matches Ok(res) && res.events@ == seq![Event::Switched { player: opp, from: target, to: SlotRef::Active }]
                && g2 == g.with_player(
                opp,
                PlayerView { active: ov.bench[i as int], bench: ov.bench.update(i as int, ov.active), ..ov },
            ),
        }
    })
    )
}

/// Boss's Orders: swap the opponent's active Pokemon with the one on bench slot `target`.
pub fn effect_boss_orders(state: &mut GameState, player: PlayerId, target: SlotRef) -> (r: EngineResult<EffectResult>)
    requires
        player.0 < 2,
        target matches SlotRef::Bench(i) ==> i < old(state)@.player(PlayerId((1 - player.0) as usize)).bench.len(),
    ensures
        effect_boss_orders_post(old(state)@, final(state)@, player, target, r),
{
    let opponent = player.opponent();
    let bench_index = match target.bench_index() {
        Some(i) => i,
        None => return Err(EngineError::invalid_target("Must target bench")),
    };
    let opponent_state = &mut state.players[opponent.0];
    let bench_pokemon = opponent_state.bench[bench_index].take();
    let active_pokemon = opponent_state.active.take();
    opponent_state.active = bench_pokemon;
    opponent_state.bench.set(bench_index, active_pokemon);
    proof {
        let ov = old(state)@.player(opponent);
        let expect = PlayerView { active: ov.bench[bench_index as int], bench: ov.bench.update(bench_index as int, ov.active), ..ov };
        assert(state.players@[opponent.0 as int]@ =~= expect);
        assert(state@.players =~= old(state)@.players.update(opponent.0 as int, expect));
    }
    let r = EffectResult::new().with_event(Event::Switched { player: opponent, from: target, to: SlotRef::Active });
    proof {
        assert(r.events@ =~= seq![Event::Switched { player: opponent, from: target, to: SlotRef::Active }]);
    }
    Ok(r)
}

/// Iono for one player: the hand goes onto the deck's end (its top), then the
/// player draws as many cards as they have prize cards left.
pub open spec fn spec_iono_player(pv: PlayerView) -> PlayerView {
    spec_draw(PlayerView { deck: pv.deck + pv.hand, hand: Seq::empty(), ..pv }, pv.prizes.len())
}

fn iono_one(ps: &mut crate::state::PlayerState)
    ensures
        final(ps)@ == spec_iono_player(old(ps)@),
{
    let prizes = ps.prizes.len();
    ps.deck.append(&mut ps.hand);
    let _ = ps.draw(prizes);
    proof {
        assert(PlayerView { deck: old(ps)@.deck + old(ps)@.hand, hand: Seq::empty(), ..old(ps)@ } =~= PlayerView {
            deck: old(ps)@.deck + old(ps)@.hand,
            hand: Seq::empty(),
            ..old(ps)@
        });
    }
}

/// What `effect_iono` does: `g` before, `g2` after, `r` its result.
pub open spec fn effect_iono_post(g: GameView, g2: GameView, player: PlayerId, r: EngineResult<EffectResult>) -> bool {
    &&& (r matches Ok(res) && res.events@.len() == 0)
    &&& (({
        let opp = PlayerId((1 - player.0) as usize);
        let g1 = g.with_player(player, spec_iono_player(g.player(player)));
        g2 == g1.with_player(opp, spec_iono_player(g1.player(opp)))
    })
    )
}

/// Iono: each player (the one who plays it first) puts their hand on the
/// deck and draws a card per remaining prize card.
pub fn effect_iono(state: &mut GameState, player: PlayerId) -> (r: EngineResult<EffectResult>)
    requires
        player.0 < 2,
    ensures
        effect_iono_post(old(state)@, final(state)@, player, r),
{
    let opponent = player.opponent();
    iono_one(&mut state.players[player.0]);
    proof {
        assert(state@.players =~= old(state)@.players.update(player.0 as int, state.players@[player.0 as int]@));
    }
    let ghost g1 = state@;
    iono_one(&mut state.players[opponent.0]);
    proof {
        assert(state@.players =~= g1.players.update(opponent.0 as int, state.players@[opponent.0 as int]@));
    }
    Ok(EffectResult::new())
}

/// The definition is a basic Lightning energy.
pub open spec fn is_lightning_basic(d: Option<crate::card::CardDef>) -> bool {
    match d {
        Some(def) => def.card_type == CardType::BasicEnergy && def.energy_type == Some(EnergyType::Lightning),
        None => false,
    }
}

/// `c` is among the top five cards of `deck` and is a basic Lightning energy.
pub open spec fn in_top5_lightning(g: GameView, deck: Seq<CardInstanceId>, c: CardInstanceId) -> bool {
    exists|k: int| 0 <= k < 5 && k < deck.len() && #[trigger] deck[deck.len() - 1 - k] == c && is_lightning_basic(g.def_of(c))
}

/// What `effect_electric_generator` does: `g` before, `g2` after, `r` its result.
pub open spec fn effect_electric_generator_post(g: GameView, g2: GameView, player: PlayerId, choices: Choices, r: EngineResult<EffectResult>) -> bool {
    &&& (({
        let deck = g.player(player).deck;
        if !exists|c: CardInstanceId| #[trigger] in_top5_lightning(g, deck, c) {
            r matches Ok(res) && res.events@.len() == 0 && g2 == g
        } else if choices.selected_cards@.len() == 0 {
            g2 == g && is_err(r, ErrorKind::InvalidAction, "Must select a Lightning energy"@)
        } else if !in_top5_lightning(g, deck, choices.selected_cards@[0]) {
            g2 == g && is_err(r, ErrorKind::InvalidAction, "Selected card not in top 5"@)
        } else {
            let c = choices.selected_cards@[0];
            let pv = PlayerView { deck: deck.filter(not_id(c)), ..g.player(player) };
            &&& r matches Ok(res) && res.events@.len() == 0
            &&& g2 == g.with_player(
                player,
                if choices.selected_slots@.len() > 0 {
                    match pv.slot(choices.selected_slots@[0]) {
                        Some(s) => pv.with_slot(choices.selected_slots@[0], Some(SlotView { energies: s.energies.push(c), ..s })),
                        None => pv,
                    }
                } else {
                    pv
                },
            )
        }
    })
    )
}

/// Electric Generator: attach a basic Lightning energy chosen among the top
/// five cards of the deck to the chosen Pokemon.
pub fn effect_electric_generator(state: &mut GameState, player: PlayerId, choices: &Choices) -> (r: EngineResult<EffectResult>)
    requires
        player.0 < 2,
    ensures
        effect_electric_generator_post(old(state)@, final(state)@, player, *choices, r),
{
    let ghost g = state@;
    let deck_len = state.players[player.0].deck.len();
    let mut lightning_ids: Vec<CardInstanceId> = Vec::new();
    let mut k: usize = 0;
    while k < 5 && k < deck_len
        invariant
            g == state@,
            player.0 < 2,
            deck_len == g.player(player).deck.len(),
            k <= 5,
            k <= deck_len,
            forall|c: CardInstanceId|
                lightning_ids@.contains(c) <==> exists|j: int|
                    0 <= j < k && #[trigger] g.player(player).deck[deck_len - 1 - j] == c && is_lightning_basic(g.def_of(c)),
        decreases 5 - k,
    {
        let id = state.players[player.0].deck[deck_len - 1 - k];
        let is_l = match state.get_card_def(id) {
            Some(d) => d.is_basic_energy() && d.energy_type == Some(EnergyType::Lightning),
            None => false,
        };
        let ghost before = lightning_ids@;
        if is_l {
            lightning_ids.push(id);
        }
        proof {
            assert forall|c: CardInstanceId|
                lightning_ids@.contains(c) <==> exists|j: int|
                    0 <= j < k + 1 && #[trigger] g.player(player).deck[deck_len - 1 - j] == c && is_lightning_basic(g.def_of(c)) by {
                if lightning_ids@.contains(c) && !before.contains(c) {
                    let t = choose|t: int| 0 <= t < lightning_ids@.len() && lightning_ids@[t] == c;
                    if t < before.len() {
                        assert(before[t] == c);
                    }
                    assert(g.player(player).deck[deck_len - 1 - k] == c);
                }
                if before.contains(c) {
                    let t = choose|t: int| 0 <= t < before.len() && before[t] == c;
                    assert(lightning_ids@[t] == c);
                }
                if (exists|j: int| 0 <= j < k + 1 && #[trigger] g.player(player).deck[deck_len - 1 - j] == c && is_lightning_basic(g.def_of(c))) && !(exists|j: int|
                    0 <= j < k && #[trigger] g.player(player).deck[deck_len - 1 - j] == c && is_lightning_basic(g.def_of(c))) {
                    assert(g.player(player).deck[deck_len - 1 - k] == c);
                    assert(lightning_ids@[lightning_ids@.len() - 1] == c);
                }
            }
        }
        k = k + 1;
    }
    proof {
        assert forall|c: CardInstanceId| lightning_ids@.contains(c) <==> #[trigger] in_top5_lightning(g, g.player(player).deck, c) by {
            if in_top5_lightning(g, g.player(player).deck, c) {
                let j = choose|j: int| 0 <= j < 5 && j < deck_len && #[trigger] g.player(player).deck[deck_len - 1 - j] == c && is_lightning_basic(g.def_of(c));
                assert(0 <= j < k);
            }
        }
    }
    if lightning_ids.len() == 0 {
        proof {
            assert forall|c: CardInstanceId| !#[trigger] in_top5_lightning(g, g.player(player).deck, c) by {
                if in_top5_lightning(g, g.player(player).deck, c) {
                    assert(lightning_ids@.contains(c));
                }
            }
        }
        return Ok(EffectResult::new());
    }
    proof {
        let c = lightning_ids@[0];
        assert(lightning_ids@.contains(c));
        assert(in_top5_lightning(g, g.player(player).deck, c));
    }
    if choices.selected_cards.len() == 0 {
        return Err(EngineError::invalid_action("Must select a Lightning energy"));
    }
    let selected = choices.selected_cards[0];
    if !contains_card(&lightning_ids, selected) {
        return Err(EngineError::invalid_action("Selected card not in top 5"));
    }
    remove_all(&mut state.players[player.0].deck, selected);
    let ghost pv = state.players@[player.0 as int]@;
    proof {
        assert(pv =~= PlayerView { deck: g.player(player).deck.filter(not_id(selected)), ..g.player(player) });
    }
    if choices.selected_slots.len() > 0 {
        let t = choices.selected_slots[0];
        let ps = &mut state.players[player.0];
        match ps.get_slot_mut(t) {
            Some(slot) => {
                slot.energies.push(selected);
            },
            None => {},
        }
    }
    proof {
        assert(state@.players =~= g.players.update(player.0 as int, state.players@[player.0 as int]@));
    }
    Ok(EffectResult::new())
}

proof fn lemma_top_cards_multiset(d: Seq<CardInstanceId>, k: nat)
    requires
        k <= d.len(),
    ensures
        crate::state::spec_top_cards(d, k).to_multiset() == d.subrange(d.len() - k, d.len() as int).to_multiset(),
    decreases k,
{
    broadcast use vstd::seq_lib::group_to_multiset_ensures;
    let n = d.len() as int;
    if k == 0 {
        assert(crate::state::spec_top_cards(d, k) =~= Seq::<CardInstanceId>::empty());
        assert(d.subrange(n, n) =~= Seq::<CardInstanceId>::empty());
    } else {
        let j = (k - 1) as nat;
        lemma_top_cards_multiset(d, j);
        assert(crate::state::spec_top_cards(d, k) =~= crate::state::spec_top_cards(d, j).push(d[n - k]));
        assert(d.subrange(n - k, n) =~= seq![d[n - k]] + d.subrange(n - j, n));
        vstd::seq_lib::lemma_multiset_commutative(seq![d[n - k]], d.subrange(n - j, n));
        assert(seq![d[n - k]] =~= Seq::<CardInstanceId>::empty().push(d[n - k]));
    }
}

/// Iono, for each player: afterwards the hand holds one card per prize card
/// left (all the cards of hand and deck when they are fewer), whatever the
/// hand held before; hand and deck together hold the same cards as before;
/// the prize cards stay.
pub proof fn lemma_iono_hands(g: GameView, g2: GameView, player: PlayerId, r: EngineResult<EffectResult>, q: PlayerId)
    requires
        player.0 < 2,
        q.0 < 2,
        g.players.len() == 2,
        effect_iono_post(g, g2, player, r),
    ensures
        g2.player(q).hand.len() == (if g.player(q).prizes.len() <= g.player(q).deck.len() + g.player(q).hand.len() {
            g.player(q).prizes.len()
        } else {
            g.player(q).deck.len() + g.player(q).hand.len()
        }),
        (g2.player(q).hand + g2.player(q).deck).to_multiset() == (g.player(q).hand + g.player(q).deck).to_multiset(),
        g2.player(q).prizes == g.player(q).prizes,
{
    let pv = g.player(q);
    assert(g2.player(q) == spec_iono_player(pv));
    let d = pv.deck + pv.hand;
    let n = d.len() as int;
    let k = crate::state::spec_min(pv.prizes.len(), d.len());
    let pv2 = g2.player(q);
    lemma_top_cards_multiset(d, k);
    assert(d =~= d.take(n - k) + d.subrange(n - k, n));
    vstd::seq_lib::lemma_multiset_commutative(d.take(n - k), d.subrange(n - k, n));
    vstd::seq_lib::lemma_multiset_commutative(pv2.hand, pv2.deck);
    vstd::seq_lib::lemma_multiset_commutative(pv.deck, pv.hand);
    vstd::seq_lib::lemma_multiset_commutative(pv.hand, pv.deck);
    broadcast use vstd::multiset::group_multiset_axioms;
    let top = crate::state::spec_top_cards(d, k);
    let rest = d.take(n - k);
    let sub = d.subrange(n - k, n);
    assert(pv2.hand == top);
    assert(pv2.deck == rest);
    assert(top.to_multiset().add(rest.to_multiset()) =~= rest.to_multiset().add(sub.to_multiset()));
    assert(pv.hand.to_multiset().add(pv.deck.to_multiset()) =~= pv.deck.to_multiset().add(pv.hand.to_multiset()));
}

} // verus!
