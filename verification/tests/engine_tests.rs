use ptcg_core::action::Action;
use ptcg_core::deck::MatchConfig;
use ptcg_core::engine::{Engine, StepResult};
use ptcg_core::state::{Phase, PlayerId};

#[test]
fn test_engine_creation() {
    let engine = Engine::new(MatchConfig::default(), 42);
    assert_eq!(engine.state().turn.turn_number, 1);
}

#[test]
fn test_legal_actions() {
    let engine = Engine::new(MatchConfig::default(), 42);
    let actions = engine.legal_actions(PlayerId(0));
    assert!(!actions.is_empty(), "Expected legal actions during setup");
}

#[test]
fn test_state_hash_deterministic() {
    let engine1 = Engine::new(MatchConfig::default(), 42);
    let engine2 = Engine::new(MatchConfig::default(), 42);
    assert_eq!(engine1.state_hash(), engine2.state_hash());
}

#[test]
fn test_setup_flow() {
    let mut engine = Engine::new(MatchConfig::default(), 43);
    assert!(matches!(engine.state().turn.phase, Phase::Setup));

    let p0_actions = engine.legal_actions(PlayerId(0));
    let choose_active = p0_actions.iter().find(|a| matches!(a, Action::SetupChooseActive { .. }));
    assert!(choose_active.is_some(), "P0 should have SetupChooseActive");

    engine.step(PlayerId(0), choose_active.unwrap().clone());
    assert!(engine.state().players[0].active.is_some(), "P0 should have active Pokemon");
}

#[test]
fn test_phase_transition_to_play() {
    let mut engine = Engine::new(MatchConfig::default(), 43);

    let p0_actions = engine.legal_actions(PlayerId(0));
    let p0_active = p0_actions.iter().find(|a| matches!(a, Action::SetupChooseActive { .. })).unwrap().clone();
    engine.step(PlayerId(0), p0_active);

    let p1_actions = engine.legal_actions(PlayerId(1));
    let p1_active = p1_actions.iter().find(|a| matches!(a, Action::SetupChooseActive { .. }));
    if let Some(action) = p1_active {
        engine.step(PlayerId(1), action.clone());
    }

    let p0_has = engine.state().players[0].active.is_some();
    let p1_has = engine.state().players[1].active.is_some();
    assert!(p0_has || p1_has, "At least one player should have active");
}

#[test]
fn test_end_turn_switches_player() {
    let mut engine = Engine::new(MatchConfig::default(), 43);

    for &p in &[PlayerId(0), PlayerId(1)] {
        let actions = engine.legal_actions(p);
        if let Some(a) = actions.iter().find(|a| matches!(a, Action::SetupChooseActive { .. })) {
            engine.step(p, a.clone());
        }
    }

    if matches!(engine.state().turn.phase, Phase::Play) {
        let prev_player = engine.state().turn.active_player;
        engine.step(prev_player, Action::EndTurn);
        let new_player = engine.state().turn.active_player;
        assert_ne!(prev_player, new_player, "Active player should switch after EndTurn");
    }
}

#[test]
fn test_record_replay_flag() {
    let mut engine = Engine::new(MatchConfig::default(), 43);
    assert!(engine.record_replay, "record_replay should default to true");

    engine.record_replay = false;
    let actions = engine.legal_actions(PlayerId(0));
    if !actions.is_empty() {
        let log_before = engine.state().action_log.len();
        engine.step(PlayerId(0), actions[0].clone());
        let log_after = engine.state().action_log.len();
        assert_eq!(log_before, log_after, "No action should be logged when record_replay is false");
    }
}

#[test]
fn test_prize_setup() {
    let engine = Engine::new(MatchConfig::default(), 43);
    assert_eq!(engine.state().players[0].prizes.len(), 6);
    assert_eq!(engine.state().players[1].prizes.len(), 6);
}

#[test]
fn test_winner_check_no_false_positive() {
    let engine = Engine::new(MatchConfig::default(), 43);
    assert!(engine.state().winner.is_none(), "No winner during setup");
}

#[test]
fn test_state_accessors() {
    let engine = Engine::new(MatchConfig::default(), 43);
    assert_eq!(engine.state().turn.turn_number, 1);
    assert_eq!(engine.state().players.len(), 2);
    assert!(engine.state().players[0].hand.len() == 7);
    assert!(engine.state().players[1].hand.len() == 7);
}

#[test]
fn step_logs_when_recording() {
    let mut engine = Engine::new(MatchConfig::default(), 43);
    let actions = engine.legal_actions(PlayerId(0));
    let a = actions.iter().find(|a| matches!(a, Action::SetupChooseActive { .. })).unwrap().clone();
    assert_eq!(engine.action_log().len(), 0);
    engine.step(PlayerId(0), a);
    assert_eq!(engine.action_log().len(), 1);
    assert_eq!(engine.action_log()[0].player, PlayerId(0));
    assert_eq!(engine.action_log()[0].resulting_state_hash, engine.state_hash());
}

#[test]
fn illegal_step_changes_nothing() {
    let mut engine = Engine::new(MatchConfig::default(), 43);
    let before = engine.state_hash();
    let hand_before = engine.state().players[0].hand.clone();
    let r = engine.step(PlayerId(0), Action::Attack { attack_index: 0, choices: Default::default() });
    assert!(!r.done);
    assert!(r.events.is_empty());
    assert_eq!(r.reward, [0, 0]);
    assert_eq!(engine.state_hash(), before);
    assert_eq!(engine.state().players[0].hand, hand_before);
    assert_eq!(engine.action_log().len(), 0);
}

#[test]
fn game_over_rewards_are_zero_sum() {
    let r = StepResult::game_over(Some(PlayerId(1)));
    assert!(r.done);
    assert_eq!(r.reward, [-1, 1]);
    assert_eq!(r.reward[0] + r.reward[1], 0);
    let r = StepResult::game_over(None);
    assert_eq!(r.reward, [0, 0]);
    let r = StepResult::default();
    assert!(!r.done && r.winner.is_none());
}

#[test]
fn starting_player_follows_config() {
    let mut c = MatchConfig::default();
    c.starting_player = ptcg_core::deck::StartingPlayer::Opponent;
    let engine = Engine::new(c, 7);
    assert_eq!(engine.state().turn.active_player, PlayerId(1));
}

#[test]
fn both_players_can_reach_play_phase() {
    let mut engine = Engine::new(MatchConfig::default(), 43);
    for &p in &[PlayerId(0), PlayerId(1)] {
        let actions = engine.legal_actions(p);
        if let Some(a) = actions.iter().find(|a| matches!(a, Action::SetupChooseActive { .. })) {
            engine.step(p, a.clone());
        }
    }
    if engine.state().players[0].active.is_some() && engine.state().players[1].active.is_some() {
        assert_eq!(engine.state().turn.phase, Phase::Play);
        let current = engine.state().turn.active_player;
        let other = PlayerId(1 - current.0);
        assert!(engine.legal_actions(other).is_empty());
        assert!(!engine.legal_actions(current).is_empty());
    }
}

fn reach_play(engine: &mut Engine) -> bool {
    for &p in &[PlayerId(0), PlayerId(1)] {
        let actions = engine.legal_actions(p);
        if let Some(a) = actions.iter().find(|a| matches!(a, Action::SetupChooseActive { .. })) {
            engine.step(p, a.clone());
        }
    }
    engine.state().turn.phase == Phase::Play
}

#[test]
fn empty_prize_pile_wins_with_zero_sum_rewards() {
    let mut engine = Engine::new(MatchConfig::default(), 43);
    if reach_play(&mut engine) {
        engine.state_mut().players[1].prizes.clear();
        let current = engine.state().turn.active_player;
        let r = engine.step(current, Action::EndTurn);
        assert!(r.done);
        assert_eq!(r.winner, Some(PlayerId(1)));
        assert_eq!(r.reward, [-1, 1]);
        assert_eq!(engine.state().winner, Some(PlayerId(1)));
        assert!(engine.legal_actions(PlayerId(0)).is_empty());
        assert!(engine.legal_actions(PlayerId(1)).is_empty());
    }
}

#[test]
fn end_turn_counts_turns_and_logs_once() {
    let mut engine = Engine::new(MatchConfig::default(), 43);
    if reach_play(&mut engine) {
        let turn = engine.state().turn.turn_number;
        let log = engine.action_log().len();
        let current = engine.state().turn.active_player;
        let r = engine.step(current, Action::EndTurn);
        assert!(!r.done);
        assert_eq!(engine.state().turn.turn_number, turn + 1);
        assert_eq!(engine.state().turn.active_player, PlayerId(1 - current.0));
        assert_eq!(engine.state().turn.phase, Phase::Play);
        assert_eq!(engine.action_log().len(), log + 1);
        assert_eq!(engine.action_log()[log].player, current);
        assert!(matches!(engine.action_log()[log].action, Action::EndTurn));
    }
}

#[test]
fn bench_keeps_five_slots_over_a_game_start() {
    let mut engine = Engine::new(MatchConfig::default(), 43);
    reach_play(&mut engine);
    for _ in 0..20 {
        let p = engine.state().turn.active_player;
        let actions = engine.legal_actions(p);
        if actions.is_empty() || engine.state().winner.is_some() {
            break;
        }
        let a = actions[actions.len() - 1].clone();
        if !engine.can_step(p, &a) {
            break;
        }
        engine.step(p, a);
        assert_eq!(engine.state().players[0].bench.len(), 5);
        assert_eq!(engine.state().players[1].bench.len(), 5);
    }
}

#[test]
fn describe_summarises_the_game() {
    let engine = Engine::new(MatchConfig::default(), 43);
    let text = engine.describe();
    assert!(text.starts_with("Turn 1 - Setup\nActive player: PlayerId("));
    assert!(text.contains("Player 0: hand=7, deck=47, prizes=6\n"));
    assert!(text.ends_with("Player 1: hand=7, deck=47, prizes=6\n"));
}
