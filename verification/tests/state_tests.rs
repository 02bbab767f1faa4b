use ptcg_core::card::presets::load_miraidon_charizard_cards;
use ptcg_core::deck::templates;
use ptcg_core::rng::GameRng;
use ptcg_core::state::{CardInstanceId, GameState, PlayerState, SlotRef};

#[test]
fn test_player_state() {
    let state = PlayerState::new();
    assert_eq!(state.bench_count(), 0);
    assert!(!state.has_pokemon_in_play());
}

#[test]
fn test_game_state() {
    let mut state = GameState::new();
    state.card_registry = load_miraidon_charizard_cards();

    let miraidon = templates::miraidon_deck();
    let charizard = templates::charizard_pidgeot_deck();

    let mut rng = GameRng::new(42);
    state.setup_initial_state(&miraidon, &charizard, &mut rng);

    assert_eq!(state.players[0].hand.len(), 7);
    assert_eq!(state.players[1].hand.len(), 7);
    assert_eq!(state.players[0].deck.len(), 47);
    assert_eq!(state.players[1].deck.len(), 47);
    assert_eq!(state.players[0].prizes.len(), 6);
    assert_eq!(state.players[1].prizes.len(), 6);
}

#[test]
fn test_state_hash() {
    let state1 = GameState::new();
    let state2 = GameState::new();
    assert_eq!(state1.state_hash(), state2.state_hash());
}

#[test]
fn setup_deals_each_player_its_own_cards() {
    let mut state = GameState::new();
    state.card_registry = load_miraidon_charizard_cards();
    let mut rng = GameRng::new(5);
    state.setup_initial_state(&templates::miraidon_deck(), &templates::charizard_pidgeot_deck(), &mut rng);
    assert_eq!(state.cards.len(), 120);
    for p in 0..2 {
        let ps = &state.players[p];
        for id in ps.deck.iter().chain(ps.hand.iter()).chain(ps.prizes.iter()) {
            assert_eq!(state.get_card(*id).unwrap().owner.0, p);
        }
    }
}

#[test]
fn draw_takes_from_the_top() {
    let mut ps = PlayerState::new();
    ps.deck = vec![CardInstanceId(1), CardInstanceId(2), CardInstanceId(3)];
    let drawn = ps.draw(2);
    assert_eq!(drawn, vec![CardInstanceId(3), CardInstanceId(2)]);
    assert_eq!(ps.hand, vec![CardInstanceId(3), CardInstanceId(2)]);
    assert_eq!(ps.deck, vec![CardInstanceId(1)]);
    let drawn = ps.draw(5);
    assert_eq!(drawn, vec![CardInstanceId(1)]);
    assert!(ps.deck.is_empty());
}

#[test]
fn slots_and_bench() {
    let mut ps = PlayerState::new();
    assert_eq!(ps.first_empty_bench(), Some(0));
    ps.put_slot(SlotRef::Bench(0), Some(ptcg_core::state::PokemonSlot::with_card(CardInstanceId(9), 1)));
    assert_eq!(ps.bench_count(), 1);
    assert_eq!(ps.first_empty_bench(), Some(1));
    assert!(ps.has_pokemon_in_play());
    let taken = ps.take_slot(SlotRef::Bench(0)).unwrap();
    assert_eq!(taken.top_card(), Some(CardInstanceId(9)));
    assert_eq!(ps.bench_count(), 0);
}

#[test]
fn identifiers_as_text() {
    assert_eq!(ptcg_core::state::PlayerId(1).to_string(), "Player1");
    assert_eq!(ptcg_core::state::CardInstanceId(42).to_string(), "CardInstance(42)");
}
