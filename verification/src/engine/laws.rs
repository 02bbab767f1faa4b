//! What every step keeps: two players, five bench slots each, and an active
//! player that is one of them.

use vstd::prelude::*;

use super::execute::{
    first_filled, infernal_state, infernal_times, mulligan_post, spec_attack, spec_end_turn, spec_evolve_stack,
    spec_process_ko, spec_promote,
};
use super::{action_post, spec_check_winner, spec_logged, spec_phase_transition, step_result_post, EngineView, Event};
use crate::action::Action;
use crate::effects::common::{spec_apply_damage, EffectResult};
use crate::effects::dispatch::{ability_dispatch_post, ability_effect_of, ability_post, AbilityEffect};
use crate::effects::pokemon::spec_bench_new;
use crate::error::EngineResult;
use crate::rules::spec_check_action;
use crate::state::{CardInstanceId, GameView, Phase, PlayerId, PlayerView, SlotRef};
use super::StepResult;

verus! {

/// The engine's invariant holds of a state.
pub open spec fn state_inv(g: GameView) -> bool {
    g.wf() && g.turn.active_player.0 < 2
}

/// What executing an action leaves alone: the log, the winner, the cards
/// and their definitions.
pub open spec fn frame(g: GameView, g1: GameView) -> bool {
    &&& g1.action_log == g.action_log
    &&& g1.winner == g.winner
    &&& g1.cards == g.cards
    &&& g1.registry == g.registry
    &&& g1.next_card_id == g.next_card_id
}

proof fn lemma_min_empty(b: Seq<Option<crate::state::SlotView>>, k: int)
    requires
        0 <= k <= b.len(),
        forall|j: int| 0 <= j < k ==> #[trigger] b[j] is Some,
        exists|i: int| k <= i < b.len() && #[trigger] b[i] is None,
    ensures
        exists|i: int|
            0 <= i < b.len() && #[trigger] b[i] is None && forall|j: int| 0 <= j < i ==> #[trigger] b[j] is Some,
    decreases b.len() - k,
{
    if b[k] is None {
        assert(0 <= k < b.len() && b[k] is None && forall|j: int| 0 <= j < k ==> #[trigger] b[j] is Some);
    } else {
        let w = choose|i: int| k <= i < b.len() && #[trigger] b[i] is None;
        assert(k + 1 <= w);
        lemma_min_empty(b, k + 1);
    }
}

proof fn lemma_first_empty_in_range(pv: PlayerView)
    ensures
        pv.first_empty_bench() matches Some(i) ==> 0 <= i < pv.bench.len(),
{
    if exists|i: int| 0 <= i < pv.bench.len() && #[trigger] pv.bench[i] is None {
        lemma_min_empty(pv.bench, 0);
    }
}

proof fn lemma_bench_new_len(pv: PlayerView, cards: Seq<CardInstanceId>, turn: u16)
    ensures
        spec_bench_new(pv, cards, turn).bench.len() == pv.bench.len(),
    decreases cards.len(),
{
    if cards.len() > 0 {
        let p1 = spec_bench_new(pv, cards.drop_last(), turn);
        lemma_bench_new_len(pv, cards.drop_last(), turn);
        lemma_first_empty_in_range(p1);
    }
}

proof fn lemma_first_filled_in_range(b: Seq<Option<crate::state::SlotView>>)
    ensures
        first_filled(b) matches Some(i) ==> 0 <= i < b.len(),
    decreases b.len(),
{
    if b.len() > 0 && b[0] is None {
        lemma_first_filled_in_range(b.drop_first());
    }
}

proof fn lemma_promote_len(pv: PlayerView)
    ensures
        spec_promote(pv).bench.len() == pv.bench.len(),
{
    lemma_first_filled_in_range(pv.bench);
}

proof fn lemma_process_ko_inv(g: GameView, p: PlayerId, slot: SlotRef, attacker: PlayerId)
    requires
        state_inv(g),
        p.0 < 2,
        attacker.0 < 2,
    ensures
        state_inv(spec_process_ko(g, p, slot, attacker)),
        spec_process_ko(g, p, slot, attacker).turn == g.turn,
        frame(g, spec_process_ko(g, p, slot, attacker)),
{
    let k = crate::engine::execute::prize_take(g, p, slot, attacker);
    let g1 = g.with_player(p, crate::engine::execute::spec_ko_discard(g.player(p), slot));
    let pa = g1.player(attacker);
    let g2 = g1.with_player(
        attacker,
        PlayerView { prizes: pa.prizes.take(pa.prizes.len() - k), hand: pa.hand + crate::state::spec_top_cards(pa.prizes, k), ..pa },
    );
    lemma_promote_len(g2.player(p));
}

proof fn lemma_infernal_times_inv(g: GameView, p: PlayerId, src: SlotRef, n: nat)
    requires
        state_inv(g),
        p.0 < 2,
    ensures
        state_inv(infernal_times(g, p, src, n)),
        infernal_times(g, p, src, n).turn == g.turn,
        frame(g, infernal_times(g, p, src, n)),
    decreases n,
{
    if n > 0 {
        lemma_infernal_times_inv(g, p, src, (n - 1) as nat);
    }
}

proof fn lemma_tandem_unit_inv(g: GameView, g2: GameView, p: PlayerId, source: SlotRef, r: EngineResult<EffectResult>)
    requires
        state_inv(g),
        p.0 < 2,
        crate::effects::pokemon::ability_tandem_unit_post(g, g2, p, source, r),
    ensures
        state_inv(g2),
        g2.turn == g.turn,
        frame(g, g2),
{
    let (found, rem) = crate::effects::common::spec_search(
        g,
        p,
        crate::effects::pokemon::tandem_count(g.player(p)),
        crate::effects::common::CardFilter::BasicLightningPokemon,
    );
    let pv = PlayerView { deck: rem, ..g.player(p) };
    lemma_bench_new_len(pv, found, g.turn.turn_number);
}

#[verifier::rlimit(30)]
proof fn lemma_ability_post_inv(
    e: AbilityEffect,
    g: GameView,
    g2: GameView,
    p: PlayerId,
    source: SlotRef,
    r: EngineResult<EffectResult>,
)
    requires
        state_inv(g),
        p.0 < 2,
        ability_post(e, g, g2, p, source, r),
    ensures
        state_inv(g2),
        g2.turn == g.turn,
        frame(g, g2),
{
    match e {
        AbilityEffect::TandemUnit => lemma_tandem_unit_inv(g, g2, p, source, r),
        _ => {},
    }
}

proof fn lemma_ability_inv(
    id: Seq<char>,
    g: GameView,
    g2: GameView,
    p: PlayerId,
    source: SlotRef,
    r: EngineResult<EffectResult>,
)
    requires
        state_inv(g),
        p.0 < 2,
        ability_dispatch_post(id, g, g2, p, source, r),
    ensures
        state_inv(g2),
        g2.turn == g.turn,
        frame(g, g2),
{
    reveal(ability_dispatch_post);
    match ability_effect_of(id) {
        Some(e) => lemma_ability_post_inv(e, g, g2, p, source, r),
        None => {},
    }
}

/// Executing an action the rules accept keeps the invariant and the
/// engine's turn counters untouched but where the action moves them.
pub proof fn lemma_action_keeps_inv(g: GameView, g1: GameView, p: PlayerId, a: Action, ev: Seq<Event>)
    requires
        state_inv(g),
        p.0 < 2,
        spec_check_action(g, p, a) is None,
        super::step_fits(g, p, a),
        action_post(g, g1, p, a, ev),
    ensures
        state_inv(g1),
        frame(g, g1),
        g1.turn.turn_number >= g.turn.turn_number,
{
    match a {
        Action::PlayBasicToBench { card } => {
            lemma_first_empty_in_range(crate::engine::execute::without_card(g.player(p), card));
        },
        Action::Evolve { card, target } => {
            lemma_infernal_times_inv(
                spec_evolve_stack(g, p, card, target),
                p,
                target,
                crate::engine::execute::evolve_triggers(g, card),
            );
        },
        Action::UseAbility { source, .. } => {
            match g.player(p).slot(source) {
                None => {},
                Some(s) => {
                    let res = choose|res: EngineResult<EffectResult>|
                        #![trigger crate::engine::execute::ability_events(ev, res, p, source, crate::engine::execute::first_ability_name(g, s))]
                        ability_dispatch_post(crate::engine::execute::first_ability_id(g, s), g, g1, p, source, res)
                            && crate::engine::execute::ability_events(
                            ev,
                            res,
                            p,
                            source,
                            crate::engine::execute::first_ability_name(g, s),
                        );
                    lemma_ability_inv(crate::engine::execute::first_ability_id(g, s), g, g1, p, source, res);
                },
            }
        },
        Action::Attack { attack_index, .. } => {
            let o = p.spec_opponent();
            let g0 = spec_apply_damage(g, o, SlotRef::Active, crate::engine::execute::attack_damage(g, p, attack_index));
            let g2 = GameView { turn: crate::state::TurnState { attack_locked: true, ..g0.turn }, ..g0 };
            lemma_process_ko_inv(g2, o, SlotRef::Active, p);
        },
        _ => {},
    }
}

/// Reward of a finished step: the game is over exactly when there is a
/// winner; the winner gets 1 and the other player -1, so the rewards sum to
/// zero; an unfinished step rewards nobody.
pub proof fn lemma_step_rewards(g: GameView, g_final: GameView, ev: Seq<Event>, r: super::StepResult)
    requires
        step_result_post(g, g_final, ev, r),
    ensures
        r.reward@.len() == 2,
        r.reward@[0] + r.reward@[1] == 0,
        r.done <==> r.winner is Some,
        r.winner matches Some(w) ==> g_final.winner == Some(w) && r.reward@[w.0 as int] == 1 && r.reward@[1 - w.0]
            == -1,
        r.winner is None ==> r.reward@[0] == 0 && r.reward@[1] == 0,
{
    match spec_check_winner(g) {
        Some(w) => {
            assert(w.0 == 0 || w.0 == 1) by {
                reveal_check_winner(g);
            }
        },
        None => {},
    }
}

proof fn reveal_check_winner(g: GameView)
    ensures
        spec_check_winner(g) matches Some(w) ==> w.0 < 2,
{
}

/// The replay record: an accepted step appends exactly one entry, naming
/// the player and the action, when recording, and nothing when not.
pub proof fn lemma_step_log(
    g: GameView,
    g1: GameView,
    record: bool,
    p: PlayerId,
    a: Action,
    ev: Seq<Event>,
    g_final: GameView,
    r: super::StepResult,
)
    requires
        state_inv(g),
        p.0 < 2,
        spec_check_action(g, p, a) is None,
        super::step_fits(g, p, a),
        action_post(g, g1, p, a, ev),
        step_result_post(spec_logged(spec_phase_transition(g1), record, p, a), g_final, ev, r),
    ensures
        g_final.action_log.len() == g.action_log.len() + if record { 1int } else { 0int },
        g_final.action_log.subrange(0, g.action_log.len() as int) == g.action_log,
        record ==> g_final.action_log.last().player == p && g_final.action_log.last().action == a,
{
    lemma_action_keeps_inv(g, g1, p, a, ev);
    assert(g.action_log.push(g_final.action_log.last()).subrange(0, g.action_log.len() as int) =~= g.action_log);
}

/// Ending a turn after setup hands the turn to the opponent: the turn
/// number grows by one and play resumes in the Play phase.
pub proof fn lemma_end_turn_passes(
    g: GameView,
    g1: GameView,
    record: bool,
    p: PlayerId,
    ev: Seq<Event>,
    g_final: GameView,
    r: super::StepResult,
)
    requires
        state_inv(g),
        p.0 < 2,
        g.turn.phase != crate::state::Phase::Setup,
        g.turn.turn_number < u16::MAX,
        action_post(g, g1, p, Action::EndTurn, ev),
        step_result_post(spec_logged(spec_phase_transition(g1), record, p, Action::EndTurn), g_final, ev, r),
    ensures
        g_final.turn.active_player == p.spec_opponent(),
        g_final.turn.turn_number == g.turn.turn_number + 1,
        g_final.turn.phase == crate::state::Phase::Play,
{
}

/// No player has a legal action once the game is over, nor, past setup and
/// the mulligans, a player whose turn it is not.
pub proof fn lemma_no_actions_out_of_turn(g: GameView, p: PlayerId)
    ensures
        g.winner is Some ==> super::spec_offered_actions(g, p).len() == 0,
        g.turn.phase != crate::state::Phase::Setup && g.turn.phase != crate::state::Phase::Mulligan
            && g.turn.active_player != p ==> super::spec_offered_actions(g, p).len() == 0,
{
}

/// Past setup, with prize cards left on both sides, a player with no
/// Pokemon in play (no active Pokemon and an empty bench) loses to an
/// opponent who has an active Pokemon.
pub proof fn lemma_no_pokemon_loses(g: GameView, q: PlayerId)
    requires
        g.players.len() == 2,
        q.0 < 2,
        g.turn.phase != Phase::Setup,
        g.turn.phase != Phase::Mulligan,
        g.players[0].prizes.len() > 0,
        g.players[1].prizes.len() > 0,
        g.player(q).active is None,
        forall|i: int| 0 <= i < g.player(q).bench.len() ==> #[trigger] g.player(q).bench[i] is None,
        g.player(q.spec_opponent()).active is Some,
    ensures
        spec_check_winner(g) == Some(q.spec_opponent()),
{
}

/// A step that leaves a player with no Pokemon in play (as in
/// `lemma_no_pokemon_loses`) ends the game: it is reported done, the
/// opponent wins and is recorded as winner, with reward 1 and -1 for the
/// other player.
pub proof fn lemma_step_ends_without_pokemon(g: GameView, g_final: GameView, ev: Seq<Event>, r: StepResult, q: PlayerId)
    requires
        step_result_post(g, g_final, ev, r),
        g.players.len() == 2,
        q.0 < 2,
        g.turn.phase != Phase::Setup,
        g.turn.phase != Phase::Mulligan,
        g.players[0].prizes.len() > 0,
        g.players[1].prizes.len() > 0,
        g.player(q).active is None,
        forall|i: int| 0 <= i < g.player(q).bench.len() ==> #[trigger] g.player(q).bench[i] is None,
        g.player(q.spec_opponent()).active is Some,
    ensures
        r.done,
        r.winner == Some(q.spec_opponent()),
        g_final.winner == Some(q.spec_opponent()),
        r.reward@[q.spec_opponent().0 as int] == 1,
        r.reward@[q.0 as int] == -1,
{
    lemma_no_pokemon_loses(g, q);
}

} // verus!
