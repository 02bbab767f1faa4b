use ptcg_core::engine::Engine;
use ptcg_core::deck::MatchConfig;
use ptcg_core::sim::{play_game, play_strategy_game, BenchmarkStats, GameResult, MAX_SIM_STEPS, MAX_STRATEGY_STEPS};
use ptcg_core::state::PlayerId;

#[test]
fn simulated_game_keeps_its_seed() {
    let r = play_game(42);
    assert_eq!(r.seed, 42);
    assert!(r.steps <= MAX_SIM_STEPS + 1);
    assert!(r.turns >= 1);
    let again = play_game(42);
    assert_eq!(again.steps, r.steps);
    assert_eq!(again.turns, r.turns);
    assert_eq!(again.winner, r.winner);
}

#[test]
fn strategy_game_keeps_its_seed() {
    let r = play_strategy_game(7);
    assert_eq!(r.seed, 7);
    assert!(r.steps <= MAX_STRATEGY_STEPS + 1);
    assert!(r.steps > 0);
}

#[test]
fn stats_record_games() {
    let mut stats = BenchmarkStats::new();
    assert_eq!(stats.min_turns, u16::MAX);
    assert_eq!(stats.max_turns, 0);
    stats.record(GameResult { winner: Some(PlayerId(0)), turns: 12, steps: 40, seed: 1 });
    stats.record(GameResult { winner: Some(PlayerId(1)), turns: 20, steps: 70, seed: 2 });
    stats.record(GameResult { winner: None, turns: 5, steps: 9, seed: 3 });
    assert_eq!(stats.total_games, 3);
    assert_eq!(stats.player0_wins, 1);
    assert_eq!(stats.player1_wins, 1);
    assert_eq!(stats.draws, 1);
    assert_eq!(stats.total_turns, 37);
    assert_eq!(stats.total_steps, 119);
    assert_eq!(stats.max_turns, 20);
    assert_eq!(stats.min_turns, 5);
    let d = BenchmarkStats::default();
    assert_eq!(d.min_turns, 0);
}

#[test]
fn acting_players_by_phase() {
    let engine = Engine::new(MatchConfig::default(), 43);
    assert_eq!(engine.acting_players(), vec![0, 1]);
}
