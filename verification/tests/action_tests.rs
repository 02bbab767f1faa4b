use ptcg_core::action::{Action, AttackIndex, Choices};
use ptcg_core::state::{CardInstanceId, SlotRef};

#[test]
fn test_choices() {
    let choices = Choices::new()
        .with_cards(vec![CardInstanceId(1), CardInstanceId(2)])
        .with_count(2);

    assert_eq!(choices.selected_cards.len(), 2);
    assert_eq!(choices.selected_count, Some(2));
}

#[test]
fn test_action_display() {
    let action = Action::EndTurn;
    assert_eq!(action.to_string(), "EndTurn");
}

#[test]
fn action_text_shows_fields() {
    let a = Action::AttachEnergy { card: CardInstanceId(5), target: SlotRef::Bench(2) };
    assert_eq!(a.to_string(), "AttachEnergy(CardInstance(5), Bench(2))");
    let a = Action::MulliganDraw { draw: false };
    assert_eq!(a.to_string(), "MulliganDraw(draw=false)");
    let a = Action::Retreat { target: SlotRef::Bench(0), discard: vec![CardInstanceId(1), CardInstanceId(2)] };
    assert_eq!(a.to_string(), "Retreat(Bench(0), 2 cards)");
    let c = Choices::new().with_cards(vec![CardInstanceId(1), CardInstanceId(2)]).with_slots(vec![SlotRef::Active]).with_mode(1);
    let a = Action::Attack { attack_index: 1, choices: c };
    assert_eq!(
        a.to_string(),
        "Attack(1, Choices { selected_cards: [CardInstanceId(1), CardInstanceId(2)], selected_slots: [Active], selected_count: None, mode: Some(1) })"
    );
    assert_eq!(format!("{:?}", Choices::new().with_count(3)), "Choices { selected_cards: [], selected_slots: [], selected_count: Some(3), mode: None }");
}

#[test]
fn attack_index_text() {
    assert_eq!(AttackIndex::new(3).to_string(), "Attack3");
}
