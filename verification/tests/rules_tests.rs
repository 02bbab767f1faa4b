use ptcg_core::action::Action;
use ptcg_core::card::presets::load_miraidon_charizard_cards;
use ptcg_core::deck::templates;
use ptcg_core::rng::GameRng;
use ptcg_core::rules::RuleValidator;
use ptcg_core::state::{CardInstanceId, GameState, PlayerId, SlotRef};

#[test]
fn test_validate_setup() {
    let _validator = RuleValidator::new();
    let mut state = GameState::new();
    state.card_registry = load_miraidon_charizard_cards();

    let miraidon = templates::miraidon_deck();
    let charizard = templates::charizard_pidgeot_deck();

    let mut rng = GameRng::new(42);
    state.setup_initial_state(&miraidon, &charizard, &mut rng);

    let player = PlayerId(0);
    assert!(!state.players[player.0].hand.is_empty());
}

#[test]
fn refuses_cards_not_in_hand() {
    let validator = RuleValidator::new();
    let mut state = GameState::new();
    state.card_registry = load_miraidon_charizard_cards();
    let mut rng = GameRng::new(42);
    state.setup_initial_state(&templates::miraidon_deck(), &templates::charizard_pidgeot_deck(), &mut rng);
    let r = validator.is_legal(&state, PlayerId(0), &Action::SetupChooseActive { card: CardInstanceId(100000) });
    assert!(r.is_err());
    let r = validator.is_legal(&state, PlayerId(0), &Action::Retreat { target: SlotRef::Bench(0), discard: vec![] });
    assert_eq!(r.unwrap_err().message(), "Cannot retreat: No active Pokemon");
    assert!(validator.is_legal(&state, PlayerId(0), &Action::EndTurn).is_ok());
}
