use ptcg_core::deck::MatchConfig;
use ptcg_core::engine::Engine;
use ptcg_core::observe::Observation;
use ptcg_core::replay::Replay;
use ptcg_core::state::PlayerId;

#[test]
fn test_observation_creation() {
    let engine = Engine::new(MatchConfig::default(), 42);
    let obs = Observation::from_state(engine.state(), PlayerId(0));

    assert_eq!(obs.player_id, PlayerId(0));
    assert_eq!(obs.turn, 1);
}

#[test]
fn observation_shows_public_sizes() {
    let engine = Engine::new(MatchConfig::default(), 43);
    let obs = Observation::from_state(engine.state(), PlayerId(1));
    assert_eq!(obs.phase, "Setup");
    assert_eq!(obs.player_hand_size, 7);
    assert_eq!(obs.opponent_prizes, 6);
    assert_eq!(obs.player_bench.len(), 5);
    assert!(obs.player_active.is_none());
    assert!(!obs.can_attack);
    assert_eq!(Observation::vector_dim_extended(), 140);
}

#[test]
fn test_replay_creation() {
    let engine = Engine::new(MatchConfig::default(), 42);
    let replay = Replay::from_game(engine.state(), 42, 575720, 575716);

    assert_eq!(replay.seed, 42);
    assert_eq!(replay.player_deck_id, 575720);
}

#[test]
fn replay_summary() {
    let engine = Engine::new(MatchConfig::default(), 42);
    let replay = Replay::from_game(engine.state(), 42, 575720, 575716);
    assert_eq!(replay.summary(), "Replay: Player 575720 vs 575716, 1 turns, winner: None");
    assert_eq!(replay.final_state_hash, engine.state_hash());
}

#[test]
fn hidden_cards_do_not_change_the_observation() {
    let mut engine = Engine::new(MatchConfig::default(), 7);
    let before = Observation::from_state(engine.state(), PlayerId(0));
    {
        let st = engine.state_mut();
        st.players[0].deck.reverse();
        st.players[1].deck.reverse();
        let h = st.players[1].hand[0];
        let d = st.players[1].deck[0];
        st.players[1].hand[0] = d;
        st.players[1].deck[0] = h;
        st.players[1].prizes.reverse();
    }
    let after = Observation::from_state(engine.state(), PlayerId(0));
    assert_eq!(format!("{:?}", before), format!("{:?}", after));
}
