use ptcg_core::card::presets::load_miraidon_charizard_cards;
use ptcg_core::card::CardDefId;
use ptcg_core::deck::{templates, Deck, DeckError, MatchConfig, StartingPlayer};

#[test]
fn test_miraidon_deck() {
    let deck = templates::miraidon_deck();
    assert_eq!(deck.total_cards, 60);

    let registry = load_miraidon_charizard_cards();
    deck.validate(&registry).expect("Deck should be valid");
}

#[test]
fn test_charizard_deck() {
    let deck = templates::charizard_pidgeot_deck();
    assert_eq!(deck.total_cards, 60);

    let registry = load_miraidon_charizard_cards();
    deck.validate(&registry).expect("Deck should be valid");
}

#[test]
fn test_deck_expand() {
    let deck = templates::miraidon_deck();
    let cards = deck.expand();
    assert_eq!(cards.len(), 60);
}

#[test]
fn every_template_has_sixty_cards() {
    let decks = vec![
        templates::miraidon_deck(),
        templates::charizard_pidgeot_deck(),
        templates::gouging_fire_deck(),
        templates::future_box_deck(),
        templates::iron_thorns_deck(),
        templates::dialga_metang_deck(),
        templates::palkia_dusknoir_deck(),
        templates::palkia_gholdengo_deck(),
        templates::lost_box_deck(),
        templates::regidrago_deck(),
        templates::lugia_archeops_deck(),
        templates::arceus_giratina_deck(),
        templates::raging_bolt_deck(),
        templates::gardevoir_deck(),
        templates::blissey_tank_deck(),
        templates::dragapult_banette_deck(),
        templates::dragapult_dusknoir_deck(),
        templates::dragapult_charizard_deck(),
    ];
    for d in &decks {
        assert_eq!(d.total_cards, 60);
        assert_eq!(d.expand().len(), 60);
    }
}

#[test]
fn validate_reports_size_first() {
    let registry = load_miraidon_charizard_cards();
    let mut deck = Deck::new("small".to_string(), 7);
    deck.add_card(CardDefId::new("CSVE1C", "LIG"), 3);
    match deck.validate(&registry) {
        Err(DeckError::InvalidSize { expected, actual }) => {
            assert_eq!(expected, 60);
            assert_eq!(actual, 3);
        }
        other => panic!("unexpected {:?}", other),
    }
    let e = deck.validate(&registry).unwrap_err();
    assert_eq!(e.message(), "Invalid deck size: expected 60, got 3");
}

#[test]
fn validate_reports_unknown_card() {
    let registry = load_miraidon_charizard_cards();
    let mut deck = Deck::new("odd".to_string(), 1);
    deck.add_card(CardDefId::new("CSVE1C", "LIG"), 30);
    deck.add_card(CardDefId::new("NOPE", "001"), 30);
    let e = deck.validate(&registry).unwrap_err();
    assert_eq!(e.message(), "Unknown card: NOPE_001");
}

#[test]
fn validate_reports_missing_basic_and_energy() {
    let registry = load_miraidon_charizard_cards();
    let mut deck = Deck::new("energy only".to_string(), 1);
    deck.add_card(CardDefId::new("CSVE1C", "LIG"), 60);
    let e = deck.validate(&registry).unwrap_err();
    assert_eq!(e.message(), "Deck must contain at least one Basic Pokemon");

    let mut deck = Deck::new("no energy".to_string(), 1);
    deck.add_card(CardDefId::new("CSV1C", "050"), 60);
    let e = deck.validate(&registry).unwrap_err();
    assert_eq!(e.message(), "Deck must contain at least one Energy card");
}

#[test]
fn expand_repeats_in_order() {
    let mut deck = Deck::new("t".to_string(), 1);
    deck.add_card(CardDefId::new("A", "1"), 2);
    deck.add_card(CardDefId::new("B", "2"), 1);
    let ids: Vec<String> = deck.expand().into_iter().map(|c| c.0).collect();
    assert_eq!(ids, vec!["A_1", "A_1", "B_2"]);
    assert_eq!(deck.total_cards, 3);
    assert!(deck.describe().starts_with("Deck: t (ID: 1)\nTotal cards: 3\n"));
}

#[test]
fn default_match_config() {
    let c = MatchConfig::default();
    assert_eq!(c.player_deck.name, "Miraidon");
    assert_eq!(c.opponent_deck.name, "Charizard Pidgeot");
    assert_eq!(c.starting_player, StartingPlayer::Random);
}
