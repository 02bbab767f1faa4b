use ptcg_core::action::Action;
use ptcg_core::action_json::{action_from_fields, parse_action_json, parse_slot_ref, JsonField, JsonItem};
use ptcg_core::state::{CardInstanceId, SlotRef};

#[test]
fn slot_refs_from_text() {
    assert_eq!(parse_slot_ref("active"), SlotRef::Active);
    assert_eq!(parse_slot_ref("bench_3"), SlotRef::Bench(3));
    assert_eq!(parse_slot_ref("bench_+4"), SlotRef::Bench(4));
    assert_eq!(parse_slot_ref("bench_"), SlotRef::Active);
    assert_eq!(parse_slot_ref("bench_x"), SlotRef::Active);
    assert_eq!(parse_slot_ref("bench_-1"), SlotRef::Active);
    assert_eq!(parse_slot_ref("bench_99999999999999999999999"), SlotRef::Active);
    assert_eq!(parse_slot_ref("Bench_1"), SlotRef::Active);
    assert_eq!(parse_slot_ref(""), SlotRef::Active);
}

#[test]
fn json_objects_to_actions() {
    assert!(matches!(parse_action_json(r#"{"type": "EndTurn"}"#), Action::EndTurn));
    assert!(matches!(parse_action_json(r#"{"type": "MulliganDraw"}"#), Action::MulliganDraw { draw: true }));
    assert!(matches!(parse_action_json(r#"{"type": "MulliganDraw", "draw": false}"#), Action::MulliganDraw { draw: false }));
    match parse_action_json(r#"{"type": "Evolve", "card_id": 12, "target": "bench_2"}"#) {
        Action::Evolve { card, target } => {
            assert_eq!(card, CardInstanceId(12));
            assert_eq!(target, SlotRef::Bench(2));
        }
        other => panic!("unexpected {:?}", other),
    }
    match parse_action_json(r#"{"type": "SetupBenchBasics", "card_ids": [3, "x", 5]}"#) {
        Action::SetupBenchBasics { cards } => assert_eq!(cards, vec![CardInstanceId(3), CardInstanceId(5)]),
        other => panic!("unexpected {:?}", other),
    }
    match parse_action_json(r#"{"type": "PlayTrainer", "card_id": 7, "selected_cards": [1, 2], "selected_slots": ["active", "bench_1"], "selected_count": 2, "mode": 1}"#) {
        Action::PlayTrainer { card, choices } => {
            assert_eq!(card, CardInstanceId(7));
            assert_eq!(choices.selected_cards, vec![CardInstanceId(1), CardInstanceId(2)]);
            assert_eq!(choices.selected_slots, vec![SlotRef::Active, SlotRef::Bench(1)]);
            assert_eq!(choices.selected_count, Some(2));
            assert_eq!(choices.mode, Some(1));
        }
        other => panic!("unexpected {:?}", other),
    }
    match parse_action_json(r#"{"type": "Attack"}"#) {
        Action::Attack { attack_index, choices } => {
            assert_eq!(attack_index, 0);
            assert!(choices.selected_cards.is_empty());
        }
        other => panic!("unexpected {:?}", other),
    }
    match parse_action_json(r#"{"type": "Retreat", "target": "bench_0", "discard": [9]}"#) {
        Action::Retreat { target, discard } => {
            assert_eq!(target, SlotRef::Bench(0));
            assert_eq!(discard, vec![CardInstanceId(9)]);
        }
        other => panic!("unexpected {:?}", other),
    }
    match parse_action_json(r#"{"type": "UseAbility", "source": "active", "ability_index": 1}"#) {
        Action::UseAbility { source, ability_index, .. } => {
            assert_eq!(source, SlotRef::Active);
            assert_eq!(ability_index, 1);
        }
        other => panic!("unexpected {:?}", other),
    }
    // A card number past 32 bits is cut.
    match parse_action_json(r#"{"type": "PlayBasicToBench", "card_id": 4294967301}"#) {
        Action::PlayBasicToBench { card } => assert_eq!(card, CardInstanceId(5)),
        other => panic!("unexpected {:?}", other),
    }
    // A later duplicate key wins.
    assert!(matches!(parse_action_json(r#"{"type": "Pass", "type": "EndTurn"}"#), Action::EndTurn));
}

#[test]
fn incomplete_or_unreadable_json_falls_back() {
    assert!(matches!(parse_action_json(r#"{"type": "Evolve", "card_id": 12}"#), Action::Pass));
    assert!(matches!(parse_action_json(r#"{"type": "Dance"}"#), Action::Pass));
    assert!(matches!(parse_action_json(r#"{"card_id": 1}"#), Action::Pass));
    assert!(matches!(parse_action_json(r#""EndTurn""#), Action::EndTurn));
    assert!(matches!(parse_action_json("EndTurn"), Action::EndTurn));
    assert!(matches!(parse_action_json(r#"""EndTurn""#), Action::EndTurn));
    assert!(matches!(parse_action_json("not json"), Action::Pass));
    assert!(matches!(parse_action_json(r#"[1, 2]"#), Action::Pass));
}

#[test]
fn fields_to_action() {
    let fields = vec![
        ("type".to_string(), JsonField::Str("AttachEnergy".to_string())),
        ("card_id".to_string(), JsonField::Unsigned(4)),
        ("target".to_string(), JsonField::Str("bench_1".to_string())),
    ];
    match action_from_fields(&fields) {
        Some(Action::AttachEnergy { card, target }) => {
            assert_eq!(card, CardInstanceId(4));
            assert_eq!(target, SlotRef::Bench(1));
        }
        other => panic!("unexpected {:?}", other),
    }
    let fields = vec![
        ("type".to_string(), JsonField::Str("SetupBenchBasics".to_string())),
        ("card_ids".to_string(), JsonField::Array(vec![JsonItem::Unsigned(1), JsonItem::Other])),
    ];
    match action_from_fields(&fields) {
        Some(Action::SetupBenchBasics { cards }) => assert_eq!(cards, vec![CardInstanceId(1)]),
        other => panic!("unexpected {:?}", other),
    }
    let fields = vec![("type".to_string(), JsonField::Bool(true))];
    assert!(matches!(action_from_fields(&fields), Some(Action::Pass)));
    let fields = vec![("type".to_string(), JsonField::Str("Retreat".to_string()))];
    assert!(action_from_fields(&fields).is_none());
}
