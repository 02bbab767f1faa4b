use ptcg_core::card::presets::load_miraidon_charizard_cards;
use ptcg_core::card::{CardDefId, CardType, EnergyType};

#[test]
fn test_card_def_id() {
    let id = CardDefId::new("CSV1C", "050");
    assert_eq!(id.0, "CSV1C_050");
}

#[test]
fn test_energy_type_conversion() {
    assert_eq!(EnergyType::from_char('R'), Some(EnergyType::Fire));
    assert_eq!(EnergyType::from_char('L'), Some(EnergyType::Lightning));
    assert_eq!(EnergyType::to_char(&EnergyType::Fire), 'R');
}

#[test]
fn test_card_registry() {
    let registry = load_miraidon_charizard_cards();
    assert!(registry.len() > 0);

    let miraidon = registry.get(&CardDefId::new("CSV1C", "050"));
    assert!(miraidon.is_some());
    assert!(miraidon.unwrap().is_ex());
}

#[test]
fn energy_chars_round_trip() {
    for c in ['R', 'W', 'G', 'L', 'P', 'F', 'D', 'M', 'N', 'C'] {
        let e = EnergyType::from_char(c).unwrap();
        assert_eq!(e.to_char(), c);
    }
    assert_eq!(EnergyType::from_char('x'), None);
}

#[test]
fn registry_register_replaces_same_id() {
    let mut registry = load_miraidon_charizard_cards();
    let n = registry.len();
    let existing = registry.get(&CardDefId::new("CSVE1C", "LIG")).unwrap();
    assert_eq!(existing.card_type, CardType::BasicEnergy);
    assert!(registry.get_by_key("no such card").is_none());
    assert!(n > 50);
    let _ = &mut registry;
}
