use ptcg_core::action::{Action, Choices};
use ptcg_core::action_codec::{format_slot_ref, ActionCodec};
use ptcg_core::state::{CardInstanceId, SlotRef};

#[test]
fn test_encode_empty() {
    let codec = ActionCodec::new(16);
    let encoded = codec.encode(&[]);
    assert!(encoded.actions.is_empty());
    assert_eq!(encoded.mask.len(), 16);
    assert!(encoded.mask.iter().all(|&v| !v));
}

#[test]
fn test_encode_sort_order() {
    let codec = ActionCodec::new(16);
    let actions = vec![Action::Attack { attack_index: 0, choices: Choices::new() }, Action::EndTurn, Action::Pass];
    let encoded = codec.encode(&actions);
    assert_eq!(encoded.actions.len(), 3);
    assert!(matches!(encoded.actions[0], Action::EndTurn));
    assert!(matches!(encoded.actions[1], Action::Pass));
    assert!(matches!(encoded.actions[2], Action::Attack { .. }));
    assert!(encoded.mask[0]);
    assert!(encoded.mask[1]);
    assert!(encoded.mask[2]);
    assert!(!encoded.mask[3]);
}

#[test]
fn test_decode_roundtrip() {
    let codec = ActionCodec::new(64);
    let actions = vec![
        Action::EndTurn,
        Action::AttachEnergy { card: CardInstanceId(5), target: SlotRef::Active },
        Action::Retreat { target: SlotRef::Bench(2), discard: vec![] },
    ];
    let encoded = codec.encode(&actions);

    for i in 0..actions.len() {
        let decoded = codec.decode(&encoded, i);
        assert!(decoded.is_some());
    }

    assert!(codec.decode(&encoded, 5).is_none());
}

#[test]
fn test_action_to_dict() {
    let codec = ActionCodec::new(64);

    let dict = codec.action_to_dict(&Action::EndTurn);
    assert_eq!(dict.get("type").unwrap(), "EndTurn");

    let dict = codec.action_to_dict(&Action::AttachEnergy { card: CardInstanceId(10), target: SlotRef::Active });
    assert_eq!(dict.get("type").unwrap(), "AttachEnergy");
    assert_eq!(dict.get("card_id").unwrap(), "10");
    assert_eq!(dict.get("target").unwrap(), "active");

    let dict = codec.action_to_dict(&Action::Retreat {
        target: SlotRef::Bench(3),
        discard: vec![CardInstanceId(1), CardInstanceId(2)],
    });
    assert_eq!(dict.get("type").unwrap(), "Retreat");
    assert_eq!(dict.get("target").unwrap(), "bench_3");
    assert_eq!(dict.get("discard_count").unwrap(), "2");
}

#[test]
fn test_sort_key_ordering() {
    let a = ActionCodec::action_sort_key(&Action::EndTurn);
    let b = ActionCodec::action_sort_key(&Action::Pass);
    let c = ActionCodec::action_sort_key(&Action::Attack { attack_index: 0, choices: Choices::new() });
    assert!(a < b);
    assert!(b < c);

    let d = ActionCodec::action_sort_key(&Action::PlayBasicToBench { card: CardInstanceId(3) });
    let e = ActionCodec::action_sort_key(&Action::PlayBasicToBench { card: CardInstanceId(7) });
    assert!(d < e);
}

#[test]
fn test_mask_bounds() {
    let codec = ActionCodec::new(8);
    let mut actions = Vec::new();
    for i in 0..20 {
        actions.push(Action::PlayBasicToBench { card: CardInstanceId(i) });
    }
    let encoded = codec.encode(&actions);
    assert_eq!(encoded.actions.len(), 20);
    assert_eq!(encoded.mask.len(), 8);
    let true_count = encoded.mask.iter().filter(|&&v| v).count();
    assert_eq!(true_count, 8);
}

#[test]
fn encode_is_stable_for_equal_keys() {
    let codec = ActionCodec::new(4);
    let c1 = Choices::new().with_mode(1);
    let c2 = Choices::new().with_mode(2);
    let actions = vec![
        Action::PlayTrainer { card: CardInstanceId(4), choices: c1 },
        Action::EndTurn,
        Action::PlayTrainer { card: CardInstanceId(4), choices: c2 },
        Action::PlayBasicToBench { card: CardInstanceId(1) },
    ];
    let encoded = codec.encode(&actions);
    assert!(matches!(encoded.actions[0], Action::EndTurn));
    assert!(matches!(encoded.actions[1], Action::PlayBasicToBench { .. }));
    match (&encoded.actions[2], &encoded.actions[3]) {
        (Action::PlayTrainer { choices: a, .. }, Action::PlayTrainer { choices: b, .. }) => {
            assert_eq!(a.mode, Some(1));
            assert_eq!(b.mode, Some(2));
        }
        _ => panic!("wrong order"),
    }
}

#[test]
fn dict_and_slot_texts() {
    assert_eq!(format_slot_ref(&SlotRef::Bench(4)), "bench_4");
    let codec = ActionCodec::new(2);
    let d = codec.action_to_dict(&Action::SetupBenchBasics { cards: vec![CardInstanceId(3), CardInstanceId(12)] });
    assert_eq!(d.get("card_ids").unwrap(), "[3,12]");
    let d = codec.action_to_dict(&Action::MulliganDraw { draw: true });
    assert_eq!(d.get("draw").unwrap(), "true");
    assert_eq!(d.len(), 2);
    assert!(d.get("missing").is_none());
    let key = ActionCodec::action_sort_key(&Action::UseAbility { source: SlotRef::Bench(1), ability_index: 2, choices: Choices::new() });
    assert_eq!(key, (12, 2, 2, 0));
}

#[test]
fn every_legal_action_has_an_index() {
    let engine = ptcg_core::engine::Engine::new(ptcg_core::deck::MatchConfig::default(), 43);
    let legal = engine.legal_actions(ptcg_core::state::PlayerId(0));
    let codec = ActionCodec::new(1024);
    let enc = codec.encode(&legal);
    for a in &legal {
        let text = format!("{:?}", a);
        let found = (0..legal.len()).any(|i| format!("{:?}", codec.decode(&enc, i).unwrap()) == text);
        assert!(found, "{} has no index", text);
    }
    assert!(codec.decode(&enc, legal.len()).is_none());
}
