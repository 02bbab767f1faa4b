use ptcg_core::action::{Action, Choices};
use ptcg_core::deck::MatchConfig;
use ptcg_core::engine::Engine;
use ptcg_core::state::{CardInstanceId, PlayerId, SlotRef};
use ptcg_core::strategy::{
    attack_energy_gap, slot_card, CharizardStrategy, DeckStrategy, FutureBoxStrategy, GougingFireStrategy,
    IronThornsStrategy, MiraidonStrategy,
};

#[test]
fn test_miraidon_strategy_scores() {
    let engine = Engine::new(MatchConfig::default(), 43);
    let strategy = MiraidonStrategy;

    let actions = engine.legal_actions(PlayerId(0));
    assert!(!actions.is_empty());

    for action in &actions {
        let score = strategy.score_action(action, engine.state(), PlayerId(0));
        assert!(score >= -200, "Score should be >= -200 for {:?}", action);
    }
}

#[test]
fn test_charizard_strategy_scores() {
    let engine = Engine::new(MatchConfig::default(), 43);
    let strategy = CharizardStrategy;

    let actions = engine.legal_actions(PlayerId(0));
    assert!(!actions.is_empty());

    for action in &actions {
        let score = strategy.score_action(action, engine.state(), PlayerId(0));
        assert!(score >= -200, "Score should be >= -200 for {:?}", action);
    }
}

#[test]
fn test_attack_energy_gap() {
    let engine = Engine::new(MatchConfig::default(), 43);
    let state = engine.state();
    let player_state = &state.players[0];

    if let Some(active) = &player_state.active {
        if let Some(card) = slot_card(active, state) {
            let gap = attack_energy_gap(active, card);
            let energy = active.energies.len();
            let cost = card.attacks.first().map(|a| a.cost.len()).unwrap_or(0);
            assert_eq!(gap, ((cost as i32) - (energy as i32)).max(0));
        }
    }
}

#[test]
fn test_fixed_scores_by_kind() {
    let engine = Engine::new(MatchConfig::default(), 43);
    let state = engine.state();
    let p = PlayerId(0);
    assert_eq!(MiraidonStrategy.score_action(&Action::EndTurn, state, p), 0);
    assert_eq!(MiraidonStrategy.score_action(&Action::SetupChooseActive { card: CardInstanceId(0) }, state, p), 500);
    assert_eq!(MiraidonStrategy.score_action(&Action::SetupBenchBasics { cards: vec![] }, state, p), 300);
    assert_eq!(MiraidonStrategy.score_action(&Action::Pass, state, p), 100);
    assert_eq!(GougingFireStrategy.score_action(&Action::SetupBenchBasics { cards: vec![] }, state, p), 100);
    assert_eq!(FutureBoxStrategy.score_action(
        &Action::UseAbility { source: SlotRef::Active, ability_index: 0, choices: Choices::new() }, state, p), 350);
    assert_eq!(IronThornsStrategy.score_action(
        &Action::Evolve { card: CardInstanceId(0), target: SlotRef::Active }, state, p), 500);
}

#[test]
fn test_heuristic_base_and_relative() {
    let engine = Engine::new(MatchConfig::default(), 43);
    let state = engine.state();
    let p = PlayerId(0);
    assert_eq!(CharizardStrategy.heuristic_base(&Action::EndTurn), 10);
    assert_eq!(MiraidonStrategy.heuristic_base(&Action::EndTurn), 0);
    assert_eq!(GougingFireStrategy.heuristic_base(&Action::Evolve { card: CardInstanceId(0), target: SlotRef::Active }), 200);
    assert_eq!(CharizardStrategy.score_relative(&Action::EndTurn, state, p), -10);
    assert_eq!(MiraidonStrategy.score_relative(&Action::SetupChooseActive { card: CardInstanceId(0) }, state, p), 400);
}

#[test]
fn test_charizard_evolve_on_empty_slot() {
    let engine = Engine::new(MatchConfig::default(), 43);
    let state = engine.state();
    // No Pokemon on the bench during setup: the name is empty.
    let a = Action::Evolve { card: CardInstanceId(0), target: SlotRef::Bench(4) };
    assert_eq!(CharizardStrategy.score_action(&a, state, PlayerId(0)), 480);
}

#[test]
fn test_retreat_without_active_scores_zero() {
    let engine = Engine::new(MatchConfig::default(), 43);
    let state = engine.state();
    // During setup nobody has an active Pokemon yet.
    assert!(state.players[0].active.is_none());
    let a = Action::Retreat { target: SlotRef::Bench(0), discard: vec![] };
    assert_eq!(MiraidonStrategy.score_action(&a, state, PlayerId(0)), 0);
    // The standard heuristics do not look at the active spot first.
    assert_eq!(IronThornsStrategy.score_action(&a, state, PlayerId(0)), -100);
}

#[test]
fn test_select_action_takes_last_best() {
    let engine = Engine::new(MatchConfig::default(), 43);
    let state = engine.state();
    let p = PlayerId(0);
    let actions = vec![
        Action::SetupChooseActive { card: CardInstanceId(1) },
        Action::EndTurn,
        Action::SetupChooseActive { card: CardInstanceId(2) },
        Action::Pass,
    ];
    assert_eq!(MiraidonStrategy.select_action(&actions, state, p), Some(2));
    assert_eq!(MiraidonStrategy.select_action(&[], state, p), None);
}

#[test]
fn test_empty_bench_budget() {
    let engine = Engine::new(MatchConfig::default(), 43);
    let state = engine.state();
    let p = PlayerId(0);
    let a = Action::PlayBasicToBench { card: CardInstanceId(0) };
    // Empty bench: five free slots, two essentials missing, fewer than three benched.
    assert_eq!(MiraidonStrategy.score_action(&a, state, p), 200);
    assert_eq!(CharizardStrategy.score_action(&a, state, p), 250);
    assert_eq!(GougingFireStrategy.score_action(&a, state, p), 300);
}

#[test]
fn test_attach_energy_to_empty_slot() {
    let engine = Engine::new(MatchConfig::default(), 43);
    let state = engine.state();
    let a = Action::AttachEnergy { card: CardInstanceId(0), target: SlotRef::Bench(2) };
    assert_eq!(MiraidonStrategy.score_action(&a, state, PlayerId(0)), 40);
    assert_eq!(IronThornsStrategy.score_action(&a, state, PlayerId(0)), 40);
}

fn reach_play(engine: &mut Engine) -> bool {
    for &p in &[PlayerId(0), PlayerId(1)] {
        let actions = engine.legal_actions(p);
        if let Some(a) = actions.iter().find(|a| matches!(a, Action::SetupChooseActive { .. })) {
            engine.step(p, a.clone());
        }
    }
    engine.state().turn.phase == ptcg_core::state::Phase::Play
}

#[test]
fn energy_routing_follows_the_gap() {
    for seed in 40..50u64 {
        let mut engine = Engine::new(ptcg_core::deck::MatchConfig::default(), seed);
        if !reach_play(&mut engine) {
            continue;
        }
        let p = engine.state().turn.active_player;
        let actions = engine.legal_actions(p);
        for a in &actions {
            if let Action::AttachEnergy { target: SlotRef::Active, .. } = a {
                let state = engine.state();
                let active = state.players[p.0].active.as_ref().unwrap();
                let card = slot_card(active, state).unwrap();
                let gap = attack_energy_gap(active, card);
                let expected = if MiraidonStrategy::is_lightning_attacker(&card.name) {
                    match gap {
                        1 => 550,
                        0 => 80,
                        2 => 350,
                        _ => 260,
                    }
                } else {
                    40
                };
                assert_eq!(MiraidonStrategy.score_action(a, state, p), expected);
                let generic = match gap {
                    1 => 550,
                    0 => 80,
                    _ => 300,
                };
                assert_eq!(IronThornsStrategy.score_action(a, state, p), generic);
                assert!(MiraidonStrategy.can_score(a, state, p));
            }
        }
        let best = MiraidonStrategy.select_action(&actions, engine.state(), p);
        assert_eq!(best.is_some(), !actions.is_empty());
    }
}
