//! Self-play: whole games between two built-in players, and the statistics
//! of many games.

use vstd::prelude::*;

use crate::deck::{deck_list, lemma_expand_len, spec_expand, templates, MatchConfig, StartingPlayer};
use crate::engine::{lemma_step_rel, new_engine_post, step_fits, step_rel, Engine, EngineView};
use crate::engine::{realizes, shape_of, spec_offered_actions};
use crate::action::Action;
use crate::state::{GameState, GameView, Phase, PlayerId};
use crate::strategy::{CharizardStrategy, DeckStrategy, MiraidonStrategy};

verus! {

/// Steps after which a simulated game with pseudo-random moves is cut off.
pub const MAX_SIM_STEPS: usize = 5000;

/// The outcome of one simulated game.
#[derive(Debug, Clone, Copy)]
pub struct GameResult {
    pub winner: Option<PlayerId>,
    pub turns: u16,
    pub steps: usize,
    pub seed: u64,
}

/// What `standard_config` returns for the two names: the two preset decks
/// with their card lists, and a random starting player.
pub open spec fn standard_config_post(player_name: Seq<char>, opponent_name: Seq<char>, r: MatchConfig) -> bool {
    &&& r.player_deck.name@ == "Miraidon"@
    &&& r.opponent_deck.name@ == "Charizard Pidgeot"@
    &&& deck_list(r.player_deck.cards@) == templates::miraidon_list()
    &&& deck_list(r.opponent_deck.cards@) == templates::charizard_pidgeot_list()
    &&& r.player_name@ == player_name
    &&& r.opponent_name@ == opponent_name
    &&& r.starting_player == StartingPlayer::Random
    &&& spec_expand(r.player_deck.cards@).len() == 60
    &&& spec_expand(r.opponent_deck.cards@).len() == 60
}

/// The players who move in a round of self-play that starts at `e`: both
/// during setup and the mulligans, else the active player.
pub open spec fn round_players(e: EngineView) -> Seq<PlayerId> {
    if e.state.turn.phase == Phase::Setup || e.state.turn.phase == Phase::Mulligan {
        seq![PlayerId(0), PlayerId(1)]
    } else {
        seq![e.state.turn.active_player]
    }
}

/// The index `play_game` picks at step `i` among `n` legal actions:
/// `seed + i` wrapped to 64 bits, as a `usize`, modulo `n`.
pub open spec fn random_pick(seed: u64, i: nat, n: nat) -> int {
    let w: u64 = if seed + i > u64::MAX {
        (seed + i - 0x1_0000_0000_0000_0000int) as u64
    } else {
        (seed + i) as u64
    };
    (w as usize) as int % (n as int)
}

/// Step `i` of a `play_game` run: `p` has legal actions at `e`, `a` is the
/// one at the picked index, the engine's counters can take it, and the step
/// leads from `e` to `e2`.
pub open spec fn random_move(seed: u64, i: nat, e: EngineView, p: PlayerId, a: Action, e2: EngineView) -> bool {
    let offered = spec_offered_actions(e.state, p);
    &&& p.0 < 2
    &&& offered.len() > 0
    &&& shape_of(a) == Some(offered[random_pick(seed, i, offered.len())])
    &&& step_fits(e.state, p, a)
    &&& step_rel(e, p, a, e2)
}

/// Player `p` would move at `e` with `a`, but the engine's counters cannot take it.
pub open spec fn random_refused(seed: u64, i: nat, e: EngineView, p: PlayerId, a: Action) -> bool {
    let offered = spec_offered_actions(e.state, p);
    &&& p.0 < 2
    &&& offered.len() > 0
    &&& shape_of(a) == Some(offered[random_pick(seed, i, offered.len())])
    &&& !step_fits(e.state, p, a)
}

/// A round that starts at `e` has no move: no player of the round has a
/// legal action.
pub open spec fn no_move(e: EngineView) -> bool {
    forall|j: int| 0 <= j < round_players(e).len() ==> spec_offered_actions(e.state, #[trigger] round_players(e)[j]).len() == 0
}

/// Why a `play_game` run stopped at `e` after `steps` steps.
pub open spec fn random_game_ends(seed: u64, e: EngineView, steps: nat) -> bool {
    ||| e.state.winner is Some
    ||| steps >= MAX_SIM_STEPS
    ||| exists|p: PlayerId, a: Action| #[trigger] random_refused(seed, steps, e, p, a)
    ||| no_move(e)
}

/// A whole `play_game` run for `seed` with result `r`: it starts at a game
/// that `Engine::new` may return for the standard configuration, each step
/// is a `random_move`, it stops as `random_game_ends` says, and `r` reports
/// its length and the winner and turn number of its last state.
pub open spec fn random_run(
    seed: u64,
    cfg: MatchConfig,
    states: Seq<EngineView>,
    moves: Seq<(PlayerId, Action)>,
    r: GameResult,
) -> bool {
    &&& standard_config_post("Player"@, "Opponent"@, cfg)
    &&& new_engine_post(cfg, states[0])
    &&& states.len() == moves.len() + 1
    &&& forall|i: int|
        0 <= i < moves.len() ==> #[trigger] random_move(seed, i as nat, states[i], moves[i].0, moves[i].1, states[i + 1])
    &&& r.seed == seed
    &&& r.steps == moves.len()
    &&& r.winner == states.last().state.winner
    &&& r.turns == states.last().state.turn.turn_number
    &&& random_game_ends(seed, states.last(), r.steps as nat)
}

/// The Miraidon deck against the Charizard Pidgeot deck, starting player
/// drawn at random, with the given player names.
pub fn standard_config(player_name: &str, opponent_name: &str) -> (r: MatchConfig)
    ensures
        standard_config_post(player_name@, opponent_name@, r),
{
    let r = MatchConfig {
        player_deck: templates::miraidon_deck(),
        opponent_deck: templates::charizard_pidgeot_deck(),
        player_name: String::from_str(player_name),
        opponent_name: String::from_str(opponent_name),
        starting_player: StartingPlayer::Random,
    };
    proof {
        lemma_expand_len(r.player_deck.cards@);
        lemma_expand_len(r.opponent_deck.cards@);
    }
    r
}

/// Play one game of the Miraidon deck against the Charizard Pidgeot deck in
/// which each move is the legal action at index `(seed + steps) % count`.
/// During setup and the mulligans both players move in turn, afterwards the
/// active player alone. The game ends when it has a winner, after
/// `MAX_SIM_STEPS` steps, when a round passes in which no player can move,
/// or before a step that `Engine::can_step` refuses.
pub fn play_game(seed: u64) -> (r: GameResult)
    ensures
        exists|cfg: MatchConfig, states: Seq<EngineView>, moves: Seq<(PlayerId, Action)>|
            #[trigger] random_run(seed, cfg, states, moves, r),
        r.steps <= MAX_SIM_STEPS + 1,
{
    let config = standard_config("Player", "Opponent");
    let ghost cfg = config;
    let mut engine = Engine::new(config, seed);
    let ghost mut states: Seq<EngineView> = seq![engine@];
    let ghost mut moves: Seq<(PlayerId, Action)> = Seq::empty();
    let mut steps: usize = 0;
    loop
        invariant
            engine@.inv(),
            engine@.state.turn.turn_number >= 1,
            steps <= MAX_SIM_STEPS + 1,
            standard_config_post("Player"@, "Opponent"@, cfg),
            new_engine_post(cfg, states[0]),
            states.len() == steps + 1,
            moves.len() == steps,
            states.last() == engine@,
            forall|i: int|
                0 <= i < moves.len() ==> #[trigger] random_move(seed, i as nat, states[i], moves[i].0, moves[i].1, states[i + 1]),
        ensures
            random_game_ends(seed, engine@, steps as nat),
            steps <= MAX_SIM_STEPS + 1,
            standard_config_post("Player"@, "Opponent"@, cfg),
            new_engine_post(cfg, states[0]),
            states.len() == steps + 1,
            moves.len() == steps,
            states.last() == engine@,
            forall|i: int|
                0 <= i < moves.len() ==> #[trigger] random_move(seed, i as nat, states[i], moves[i].0, moves[i].1, states[i + 1]),
        decreases MAX_SIM_STEPS + 1 - steps,
    {
        if engine.state().is_done() || steps >= MAX_SIM_STEPS {
            break;
        }
        let players: Vec<PlayerId> = if engine.state().turn.phase.is_setup() {
            vec![PlayerId(0), PlayerId(1)]
        } else {
            vec![engine.state().turn.active_player]
        };
        let ghost start = engine@;
        assert(players@ == round_players(start));
        let before = steps;
        let mut stuck = false;
        let ghost mut done_break = false;
        let ghost mut stuck_p = PlayerId(0);
        let ghost mut stuck_a = Action::Pass;
        let mut k: usize = 0;
        while k < players.len()
            invariant_except_break
                !stuck,
                !done_break,
            invariant
                engine@.inv(),
                engine@.state.turn.turn_number >= 1,
                players@ == round_players(start),
                players@.len() <= 2,
                forall|j: int| 0 <= j < players@.len() ==> (#[trigger] players@[j]).0 < 2,
                before < MAX_SIM_STEPS,
                before <= steps <= before + k,
                k <= players@.len(),
                standard_config_post("Player"@, "Opponent"@, cfg),
                new_engine_post(cfg, states[0]),
                states.len() == steps + 1,
                moves.len() == steps,
                states.last() == engine@,
                states[before as int] == start,
                forall|i: int|
                    0 <= i < moves.len() ==> #[trigger] random_move(seed, i as nat, states[i], moves[i].0, moves[i].1, states[i + 1]),
                steps == before ==> forall|j: int| 0 <= j < k ==> spec_offered_actions(start.state, #[trigger] players@[j]).len() == 0,
            ensures
                k >= players@.len() || stuck || done_break,
                stuck ==> random_refused(seed, steps as nat, engine@, stuck_p, stuck_a),
                done_break ==> engine@.state.winner is Some,
            decreases players@.len() - k,
        {
            let player = players[k];
            if engine.state().is_done() {
                proof {
                    done_break = true;
                }
                break;
            }
            let mut actions = engine.legal_actions(player);
            let ghost offered = spec_offered_actions(engine@.state, player);
            let ghost acts = actions@;
            if actions.len() > 0 {
                let idx = (#[verifier::truncate] (seed.wrapping_add(steps as u64) as usize)) % actions.len();
                assert(idx == random_pick(seed, steps as nat, offered.len()));
                let action = actions.remove(idx);
                assert(shape_of(acts[idx as int]) == Some(offered[idx as int]));
                if !engine.can_step(player, &action) {
                    stuck = true;
                    proof {
                        stuck_p = player;
                        stuck_a = action;
                    }
                    break;
                }
                let ghost e0 = engine@;
                let ghost ga = action;
                let res = engine.step(player, action);
                proof {
                    lemma_step_rel(e0, player, ga, engine@, res);
                    assert(random_move(seed, steps as nat, e0, player, ga, engine@));
                    states = states.push(engine@);
                    moves = moves.push((player, ga));
                    assert forall|i: int| 0 <= i < moves.len() implies #[trigger] random_move(
                        seed,
                        i as nat,
                        states[i],
                        moves[i].0,
                        moves[i].1,
                        states[i + 1],
                    ) by {
                        if i < moves.len() - 1 {
                            assert(states[i] == states.drop_last()[i]);
                        }
                    }
                }
                steps = steps + 1;
            }
            k = k + 1;
        }
        if stuck || steps == before {
            proof {
                if !stuck && steps == before && !done_break {
                    assert(engine@ == start);
                    assert forall|j: int| 0 <= j < round_players(engine@).len() implies spec_offered_actions(
                        engine@.state,
                        #[trigger] round_players(engine@)[j],
                    ).len() == 0 by {
                        assert(round_players(engine@)[j] == players@[j]);
                    }
                    assert(no_move(engine@));
                }
                if stuck {
                    assert(random_refused(seed, steps as nat, engine@, stuck_p, stuck_a));
                }
            }
            break;
        }
    }
    let r = GameResult { winner: engine.state().winner, turns: engine.state().turn.turn_number, steps, seed };
    assert(random_run(seed, cfg, states, moves, r));
    r
}

/// Steps after which a game between the two strategies is cut off.
pub const MAX_STRATEGY_STEPS: usize = 2000;

/// `i` is the index `s.select_action` returns for `acts`: the last action
/// of best relative score.
pub open spec fn best_choice<S: DeckStrategy>(s: S, acts: Seq<Action>, g: GameView, p: PlayerId, i: int) -> bool {
    &&& 0 <= i < acts.len()
    &&& forall|j: int|
        0 <= j < acts.len() ==> s.spec_score(#[trigger] acts[j], g, p) - s.spec_base(acts[j]) <= s.spec_score(
            acts[i],
            g,
            p,
        ) - s.spec_base(acts[i])
    &&& forall|j: int|
        i < j < acts.len() ==> s.spec_score(#[trigger] acts[j], g, p) - s.spec_base(acts[j]) < s.spec_score(
            acts[i],
            g,
            p,
        ) - s.spec_base(acts[i])
}

/// Every action of `acts` can be scored by the strategy of player `p`
/// (`MiraidonStrategy` for player 0, `CharizardStrategy` for player 1).
pub open spec fn all_scored(acts: Seq<Action>, g: GameView, p: PlayerId) -> bool {
    forall|j: int|
        0 <= j < acts.len() ==> if p.0 == 0 {
            MiraidonStrategy.score_defined(#[trigger] acts[j], g, p)
        } else {
            CharizardStrategy.score_defined(acts[j], g, p)
        }
}

/// The strategy of player `p` picks index `i` of `acts`.
pub open spec fn strategy_choice(acts: Seq<Action>, g: GameView, p: PlayerId, i: int) -> bool {
    if p.0 == 0 {
        best_choice(MiraidonStrategy, acts, g, p, i)
    } else {
        best_choice(CharizardStrategy, acts, g, p, i)
    }
}

/// A step of a `play_strategy_game` run: `acts` are the legal actions of
/// `p` at `e`, in the order `Engine::legal_actions` gives them, all of them
/// scorable; `a` is the one the strategy of `p` selects, the engine's
/// counters can take it, and the step leads from `e` to `e2`.
pub open spec fn strategy_move(e: EngineView, p: PlayerId, acts: Seq<Action>, i: int, a: Action, e2: EngineView) -> bool {
    &&& p.0 < 2
    &&& realizes(acts, spec_offered_actions(e.state, p))
    &&& acts.len() > 0
    &&& all_scored(acts, e.state, p)
    &&& strategy_choice(acts, e.state, p, i)
    &&& a == acts[i]
    &&& step_fits(e.state, p, a)
    &&& step_rel(e, p, a, e2)
}

/// Player `p` has legal actions `acts` at `e`, but one of them cannot be
/// scored, or the selected one does not fit the engine's counters.
pub open spec fn strategy_stuck(e: EngineView, p: PlayerId, acts: Seq<Action>) -> bool {
    &&& p.0 < 2
    &&& realizes(acts, spec_offered_actions(e.state, p))
    &&& acts.len() > 0
    &&& (!all_scored(acts, e.state, p) || exists|i: int|
        #[trigger] strategy_choice(acts, e.state, p, i) && !step_fits(e.state, p, acts[i]))
}

/// Why a `play_strategy_game` run stopped at `e` after `steps` steps.
pub open spec fn strategy_game_ends(e: EngineView, steps: nat) -> bool {
    ||| e.state.winner is Some
    ||| steps >= MAX_STRATEGY_STEPS
    ||| exists|p: PlayerId, acts: Seq<Action>| #[trigger] strategy_stuck(e, p, acts)
    ||| no_move(e)
}

/// A whole `play_strategy_game` run for `seed` with result `r`: it starts,
/// unrecorded, at a game that `Engine::new` may return for the standard
/// configuration, each step is a `strategy_move`, it stops as
/// `strategy_game_ends` says, and `r` reports its length and the winner and
/// turn number of its last state.
pub open spec fn strategy_run(
    seed: u64,
    cfg: MatchConfig,
    states: Seq<EngineView>,
    moves: Seq<(PlayerId, Seq<Action>, int)>,
    r: GameResult,
) -> bool {
    &&& standard_config_post("P0"@, "P1"@, cfg)
    &&& new_engine_post(cfg, EngineView { record_replay: true, ..states[0] })
    &&& !states[0].record_replay
    &&& states.len() == moves.len() + 1
    &&& forall|i: int|
        0 <= i < moves.len() ==> #[trigger] strategy_move(
            states[i],
            moves[i].0,
            moves[i].1,
            moves[i].2,
            moves[i].1[moves[i].2],
            states[i + 1],
        )
    &&& r.seed == seed
    &&& r.steps == moves.len()
    &&& r.winner == states.last().state.winner
    &&& r.turns == states.last().state.turn.turn_number
    &&& strategy_game_ends(states.last(), r.steps as nat)
}


/// Whether `strategy` can score every action of `actions`.
pub fn all_scorable<S: DeckStrategy>(strategy: &S, actions: &Vec<Action>, state: &GameState, player: PlayerId) -> (r:
    bool)
    requires
        player.0 < 2,
    ensures
        r == forall|j: int| 0 <= j < actions@.len() ==> strategy.score_defined(#[trigger] actions@[j], state@, player),
{
    let mut i: usize = 0;
    while i < actions.len()
        invariant
            player.0 < 2,
            i <= actions@.len(),
            forall|j: int| 0 <= j < i ==> strategy.score_defined(#[trigger] actions@[j], state@, player),
        decreases actions@.len() - i,
    {
        if !strategy.can_score(&actions[i], state, player) {
            return false;
        }
        i = i + 1;
    }
    true
}

/// Play one game, unrecorded, of the Miraidon deck (player 0, moved by
/// `MiraidonStrategy`) against the Charizard Pidgeot deck (player 1, moved
/// by `CharizardStrategy`); each move is the action its strategy selects
/// among the legal ones. During setup and the mulligans both players move in
/// turn, afterwards the active player alone. The game ends when it has a
/// winner, after `MAX_STRATEGY_STEPS` steps, when a round passes in which no
/// player can move, or before a move that cannot be scored or that
/// `Engine::can_step` refuses.
pub fn play_strategy_game(seed: u64) -> (r: GameResult)
    ensures
        exists|cfg: MatchConfig, states: Seq<EngineView>, moves: Seq<(PlayerId, Seq<Action>, int)>|
            #[trigger] strategy_run(seed, cfg, states, moves, r),
        r.steps <= MAX_STRATEGY_STEPS + 1,
{
    let config = standard_config("P0", "P1");
    let ghost cfg = config;
    let mut engine = Engine::new(config, seed);
    let ghost e_new = engine@;
    engine.set_record_replay(false);
    assert(EngineView { record_replay: true, ..engine@ } == e_new);
    let miraidon = MiraidonStrategy;
    let charizard = CharizardStrategy;
    let ghost mut states: Seq<EngineView> = seq![engine@];
    let ghost mut moves: Seq<(PlayerId, Seq<Action>, int)> = Seq::empty();
    let mut steps: usize = 0;
    loop
        invariant
            engine@.inv(),
            engine@.state.turn.turn_number >= 1,
            steps <= MAX_STRATEGY_STEPS + 1,
            standard_config_post("P0"@, "P1"@, cfg),
            new_engine_post(cfg, EngineView { record_replay: true, ..states[0] }),
            !states[0].record_replay,
            states.len() == steps + 1,
            moves.len() == steps,
            states.last() == engine@,
            forall|i: int|
                0 <= i < moves.len() ==> #[trigger] strategy_move(
                    states[i],
                    moves[i].0,
                    moves[i].1,
                    moves[i].2,
                    moves[i].1[moves[i].2],
                    states[i + 1],
                ),
        ensures
            strategy_game_ends(engine@, steps as nat),
            steps <= MAX_STRATEGY_STEPS + 1,
            standard_config_post("P0"@, "P1"@, cfg),
            new_engine_post(cfg, EngineView { record_replay: true, ..states[0] }),
            !states[0].record_replay,
            states.len() == steps + 1,
            moves.len() == steps,
            states.last() == engine@,
            forall|i: int|
                0 <= i < moves.len() ==> #[trigger] strategy_move(
                    states[i],
                    moves[i].0,
                    moves[i].1,
                    moves[i].2,
                    moves[i].1[moves[i].2],
                    states[i + 1],
                ),
        decreases MAX_STRATEGY_STEPS + 1 - steps,
    {
        if engine.state().is_done() || steps >= MAX_STRATEGY_STEPS {
            break;
        }
        let players: Vec<PlayerId> = if engine.state().turn.phase.is_setup() {
            vec![PlayerId(0), PlayerId(1)]
        } else {
            vec![engine.state().turn.active_player]
        };
        let ghost start = engine@;
        assert(players@ == round_players(start));
        let before = steps;
        let mut stuck = false;
        let ghost mut done_break = false;
        let ghost mut stuck_p = PlayerId(0);
        let ghost mut stuck_acts: Seq<Action> = Seq::empty();
        let mut k: usize = 0;
        while k < players.len()
            invariant_except_break
                !stuck,
                !done_break,
            invariant
                engine@.inv(),
                engine@.state.turn.turn_number >= 1,
                players@ == round_players(start),
                players@.len() <= 2,
                forall|j: int| 0 <= j < players@.len() ==> (#[trigger] players@[j]).0 < 2,
                before < MAX_STRATEGY_STEPS,
                before <= steps <= before + k,
                k <= players@.len(),
                standard_config_post("P0"@, "P1"@, cfg),
                new_engine_post(cfg, EngineView { record_replay: true, ..states[0] }),
                !states[0].record_replay,
                states.len() == steps + 1,
                moves.len() == steps,
                states.last() == engine@,
                states[before as int] == start,
                forall|i: int|
                    0 <= i < moves.len() ==> #[trigger] strategy_move(
                        states[i],
                        moves[i].0,
                        moves[i].1,
                        moves[i].2,
                        moves[i].1[moves[i].2],
                        states[i + 1],
                    ),
                steps == before ==> forall|j: int| 0 <= j < k ==> spec_offered_actions(start.state, #[trigger] players@[j]).len() == 0,
            ensures
                k >= players@.len() || stuck || done_break,
                stuck ==> strategy_stuck(engine@, stuck_p, stuck_acts),
                done_break ==> engine@.state.winner is Some,
            decreases players@.len() - k,
        {
            let p = players[k];
            if engine.state().is_done() {
                proof {
                    done_break = true;
                }
                break;
            }
            let mut actions = engine.legal_actions(p);
            let ghost acts = actions@;
            if actions.len() > 0 {
                let chosen = if p.0 == 0 {
                    if !all_scorable(&miraidon, &actions, engine.state(), p) {
                        None
                    } else {
                        miraidon.select_action(actions.as_slice(), engine.state(), p)
                    }
                } else {
                    if !all_scorable(&charizard, &actions, engine.state(), p) {
                        None
                    } else {
                        charizard.select_action(actions.as_slice(), engine.state(), p)
                    }
                };
                let idx = match chosen {
                    Some(i) => i,
                    None => {
                        stuck = true;
                        proof {
                            stuck_p = p;
                            stuck_acts = acts;
                        }
                        break;
                    },
                };
                assert(all_scored(acts, engine@.state, p));
                assert(strategy_choice(acts, engine@.state, p, idx as int));
                let action = actions.remove(idx);
                if !engine.can_step(p, &action) {
                    stuck = true;
                    proof {
                        stuck_p = p;
                        stuck_acts = acts;
                        assert(strategy_choice(acts, engine@.state, p, idx as int) && !step_fits(
                            engine@.state,
                            p,
                            acts[idx as int],
                        ));
                    }
                    break;
                }
                let ghost e0 = engine@;
                let ghost ga = action;
                let res = engine.step(p, action);
                proof {
                    lemma_step_rel(e0, p, ga, engine@, res);
                    assert(strategy_move(e0, p, acts, idx as int, ga, engine@));
                    states = states.push(engine@);
                    moves = moves.push((p, acts, idx as int));
                    assert forall|i: int| 0 <= i < moves.len() implies #[trigger] strategy_move(
                        states[i],
                        moves[i].0,
                        moves[i].1,
                        moves[i].2,
                        moves[i].1[moves[i].2],
                        states[i + 1],
                    ) by {
                        if i < moves.len() - 1 {
                            assert(states[i] == states.drop_last()[i]);
                        }
                    }
                }
                steps = steps + 1;
            }
            k = k + 1;
        }
        if stuck || steps == before {
            proof {
                if !stuck && steps == before && !done_break {
                    assert(engine@ == start);
                    assert forall|j: int| 0 <= j < round_players(engine@).len() implies spec_offered_actions(
                        engine@.state,
                        #[trigger] round_players(engine@)[j],
                    ).len() == 0 by {
                        assert(round_players(engine@)[j] == players@[j]);
                    }
                    assert(no_move(engine@));
                }
                if stuck {
                    assert(strategy_stuck(engine@, stuck_p, stuck_acts));
                }
            }
            break;
        }
    }
    let r = GameResult { winner: engine.state().winner, turns: engine.state().turn.turn_number, steps, seed };
    assert(strategy_run(seed, cfg, states, moves, r));
    r
}

/// Counts over many simulated games.
#[derive(Debug, Clone, Copy)]
pub struct BenchmarkStats {
    pub total_games: usize,
    pub player0_wins: usize,
    pub player1_wins: usize,
    pub draws: usize,
    pub total_turns: u64,
    pub total_steps: u64,
    pub max_turns: u16,
    pub min_turns: u16,
}

impl Default for BenchmarkStats {
    /// Every count at zero.
    fn default() -> (r: Self)
        ensures
            r == (BenchmarkStats {
                total_games: 0,
                player0_wins: 0,
                player1_wins: 0,
                draws: 0,
                total_turns: 0,
                total_steps: 0,
                max_turns: 0,
                min_turns: 0,
            }),
    {
        BenchmarkStats {
            total_games: 0,
            player0_wins: 0,
            player1_wins: 0,
            draws: 0,
            total_turns: 0,
            total_steps: 0,
            max_turns: 0,
            min_turns: 0,
        }
    }
}

impl BenchmarkStats {
    /// No game recorded: every count at zero, the smallest turn count at its
    /// largest value so that the first game sets it.
    pub fn new() -> (r: Self)
        ensures
            r == (BenchmarkStats {
                total_games: 0,
                player0_wins: 0,
                player1_wins: 0,
                draws: 0,
                total_turns: 0,
                total_steps: 0,
                max_turns: 0,
                min_turns: u16::MAX,
            }),
    {
        BenchmarkStats { min_turns: u16::MAX, ..Default::default() }
    }

    /// Add one game: its turns and steps to the totals, its turn count to the
    /// range, and a win of player 0, a win of player 1 or, for any other
    /// outcome, a draw.
    pub fn record(&mut self, result: GameResult)
        requires
            old(self).total_games < usize::MAX,
            old(self).player0_wins < usize::MAX,
            old(self).player1_wins < usize::MAX,
            old(self).draws < usize::MAX,
            old(self).total_turns + result.turns <= u64::MAX,
            old(self).total_steps + result.steps <= u64::MAX,
        ensures
            final(self).total_games == old(self).total_games + 1,
            final(self).total_turns == old(self).total_turns + result.turns,
            final(self).total_steps == old(self).total_steps + result.steps,
            final(self).max_turns == if result.turns > old(self).max_turns {
                result.turns
            } else {
                old(self).max_turns
            },
            final(self).min_turns == if result.turns < old(self).min_turns {
                result.turns
            } else {
                old(self).min_turns
            },
            final(self).player0_wins == old(self).player0_wins + if result.winner == Some(PlayerId(0)) {
                1int
            } else {
                0int
            },
            final(self).player1_wins == old(self).player1_wins + if result.winner == Some(PlayerId(1)) {
                1int
            } else {
                0int
            },
            final(self).draws == old(self).draws + if result.winner == Some(PlayerId(0)) || result.winner == Some(
                PlayerId(1),
            ) {
                0int
            } else {
                1int
            },
    {
        self.total_games = self.total_games + 1;
        self.total_turns = self.total_turns + result.turns as u64;
        self.total_steps = self.total_steps + result.steps as u64;
        if result.turns > self.max_turns {
            self.max_turns = result.turns;
        }
        if result.turns < self.min_turns {
            self.min_turns = result.turns;
        }
        match result.winner {
            Some(PlayerId(0)) => {
                self.player0_wins = self.player0_wins + 1;
            },
            Some(PlayerId(1)) => {
                self.player1_wins = self.player1_wins + 1;
            },
            _ => {
                self.draws = self.draws + 1;
            },
        }
    }
}

} // verus!
