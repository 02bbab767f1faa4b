use ptcg_core::action::{Action, Choices};
use ptcg_core::action_codec::ActionCodec;
use ptcg_core::card::presets::load_miraidon_charizard_cards;
use ptcg_core::card::{CardDefId, CardType, EnergyType, Mechanic, Stage};
use ptcg_core::damage::DamageCalculator;
use ptcg_core::deck::MatchConfig;
use ptcg_core::effects::common::search_deck_attach_energy;
use ptcg_core::effects::pokemon::{
    ability_burst_roar, ability_squawk_and_seize, ability_tandem_unit, attack_phantom_dive,
};
use ptcg_core::engine::Engine;
use ptcg_core::rules::RuleValidator;
use ptcg_core::state::{CardInstanceId, GameState, Phase, PlayerId, PokemonSlot, SlotRef};
use ptcg_core::strategy::attack_energy_gap;

fn new_state() -> GameState {
    let mut st = GameState::new();
    st.card_registry = load_miraidon_charizard_cards();
    st
}

fn add(st: &mut GameState, set: &str, num: &str, owner: PlayerId) -> CardInstanceId {
    st.add_card(CardDefId::new(set, num), owner)
}

fn pokemon(st: &mut GameState, set: &str, num: &str, owner: PlayerId) -> PokemonSlot {
    let id = add(st, set, num, owner);
    PokemonSlot::with_card(id, 1)
}

#[test]
fn registry_holds_every_preset_definition() {
    let registry = load_miraidon_charizard_cards();
    assert_eq!(registry.len(), 81);
    let miraidon = registry.get(&CardDefId::new("CSV1C", "050")).unwrap();
    assert_eq!(miraidon.name, "Miraidon ex");
    assert_eq!(miraidon.hp, Some(220));
    assert_eq!(miraidon.stage, Some(Stage::Basic));
    assert_eq!(miraidon.mechanic, Some(Mechanic::Ex));
    assert_eq!(miraidon.attacks[0].damage, 220);
    let fire = registry.get(&CardDefId::new("CSVE1C", "FIR")).unwrap();
    assert_eq!(fire.card_type, CardType::BasicEnergy);
    assert!(registry.get(&CardDefId::new("CSV1C", "999")).is_none());
}

#[test]
fn weakness_doubles_active_damage() {
    let mut st = new_state();
    st.players[0].active = Some(pokemon(&mut st, "CSV6C", "051", PlayerId(0)));
    st.players[1].active = Some(pokemon(&mut st, "CSV4C", "099", PlayerId(1)));
    let calc = DamageCalculator::new();
    assert_eq!(calc.calculate_damage(&st, PlayerId(0), SlotRef::Active, PlayerId(1), SlotRef::Active, 30), 60);
    assert_eq!(calc.calculate_damage(&st, PlayerId(0), SlotRef::Active, PlayerId(1), SlotRef::Active, 100), 200);
}

#[test]
fn bench_damage_skips_weakness() {
    let mut st = new_state();
    st.players[0].active = Some(pokemon(&mut st, "CSV6C", "051", PlayerId(0)));
    st.players[1].bench[0] = Some(pokemon(&mut st, "CSV4C", "099", PlayerId(1)));
    let calc = DamageCalculator::new();
    assert_eq!(calc.calculate_bench_damage(&st, PlayerId(0), SlotRef::Active, PlayerId(1), SlotRef::Bench(0), 30), 30);
}

#[test]
fn colorless_cost_is_paid_by_any_energy() {
    let mut st = new_state();
    st.players[0].active = Some(pokemon(&mut st, "CSV6C", "051", PlayerId(0)));
    let v = RuleValidator::new();
    assert!(!v.has_enough_energy(&st, PlayerId(0), SlotRef::Active, &[EnergyType::Colorless]));
    let l = add(&mut st, "CSVE1C", "LIG", PlayerId(0));
    st.players[0].active.as_mut().unwrap().energies.push(l);
    assert!(v.has_enough_energy(&st, PlayerId(0), SlotRef::Active, &[EnergyType::Colorless]));
    assert!(!v.has_enough_energy(&st, PlayerId(0), SlotRef::Active, &[EnergyType::Lightning, EnergyType::Colorless]));
    let f = add(&mut st, "CSVE1C", "FIR", PlayerId(0));
    st.players[0].active.as_mut().unwrap().energies.push(f);
    assert!(v.has_enough_energy(&st, PlayerId(0), SlotRef::Active, &[EnergyType::Lightning, EnergyType::Colorless]));
    assert!(!v.has_enough_energy(&st, PlayerId(0), SlotRef::Active, &[EnergyType::Lightning, EnergyType::Lightning]));
}

#[test]
fn stage_two_evolves_onto_stage_one() {
    let mut st = new_state();
    st.turn.turn_number = 3;
    st.turn.phase = Phase::Play;
    let mut slot = pokemon(&mut st, "151C", "004", PlayerId(0));
    let charmeleon = add(&mut st, "CSV5C", "015", PlayerId(0));
    slot.cards.push(charmeleon);
    st.players[0].active = Some(slot);
    let charizard = add(&mut st, "CSV5C", "075", PlayerId(0));
    st.players[0].hand.push(charizard);
    let v = RuleValidator::new();
    assert!(v.is_legal(&st, PlayerId(0), &Action::Evolve { card: charizard, target: SlotRef::Active }).is_ok());
}

#[test]
fn decode_refuses_indices_outside_the_mask() {
    let codec = ActionCodec::new(8);
    let actions: Vec<Action> = (0..20).map(|i| Action::PlayBasicToBench { card: CardInstanceId(i) }).collect();
    let e = codec.encode(&actions);
    assert!(matches!(codec.decode(&e, 3), Some(Action::PlayBasicToBench { card: CardInstanceId(3) })));
    assert!(codec.decode(&e, 10).is_none());
    assert!(codec.decode(&e, 20).is_none());
}

#[test]
fn energy_gap_is_zero_without_attacks() {
    let registry = load_miraidon_charizard_cards();
    let nest_ball = registry.get(&CardDefId::new("CSV1C", "043")).unwrap();
    let slot = PokemonSlot::new();
    assert_eq!(attack_energy_gap(&slot, nest_ball), 0);
}

#[test]
fn squawk_and_seize_only_on_first_turns() {
    let mut st = new_state();
    st.players[0].active = Some(pokemon(&mut st, "CSV2C", "105", PlayerId(0)));
    let h = add(&mut st, "CSVE1C", "LIG", PlayerId(0));
    st.players[0].hand.push(h);
    for _ in 0..8 {
        let d = add(&mut st, "CSVE1C", "FIR", PlayerId(0));
        st.players[0].deck.push(d);
    }
    st.turn.turn_number = 3;
    assert!(ability_squawk_and_seize(&mut st, PlayerId(0), SlotRef::Active).is_err());
    assert_eq!(st.players[0].hand, vec![h]);
    assert_eq!(st.players[0].deck.len(), 8);
    st.turn.turn_number = 1;
    assert!(ability_squawk_and_seize(&mut st, PlayerId(0), SlotRef::Active).is_ok());
    assert_eq!(st.players[0].hand.len(), 6);
    assert_eq!(st.players[0].discard, vec![h]);
}

#[test]
fn only_one_supporter_per_turn() {
    let mut st = new_state();
    st.turn.phase = Phase::Play;
    let iono = add(&mut st, "CSV3C", "123", PlayerId(0));
    let arven = add(&mut st, "CSV1C", "123", PlayerId(0));
    st.players[0].hand.push(iono);
    st.players[0].hand.push(arven);
    let v = RuleValidator::new();
    let play = |c| Action::PlayTrainer { card: c, choices: Choices::default() };
    assert!(v.is_legal(&st, PlayerId(0), &play(arven)).is_ok());
    st.players[0].mark_used(ptcg_core::rules::supporter_key());
    let r = v.is_legal(&st, PlayerId(0), &play(arven));
    assert_eq!(r.unwrap_err().message(), "Invalid action: Already used a Supporter this turn");
    assert!(v.is_legal(&st, PlayerId(0), &play(iono)).is_err());
}

#[test]
fn every_listed_action_is_legal() {
    let v = RuleValidator::new();
    for seed in 0..12u64 {
        let mut engine = Engine::new(MatchConfig::default(), seed);
        for step in 0..150u64 {
            if engine.state().winner.is_some() {
                break;
            }
            let players = if engine.state().turn.phase.is_setup() {
                vec![PlayerId(0), PlayerId(1)]
            } else {
                vec![engine.state().turn.active_player]
            };
            let mut moved = false;
            for p in players {
                let actions = engine.legal_actions(p);
                for a in &actions {
                    assert!(v.is_legal(engine.state(), p, a).is_ok(), "seed {} offered {:?}", seed, a);
                }
                if !actions.is_empty() {
                    let a = actions[((seed + step) as usize) % actions.len()].clone();
                    if !engine.can_step(p, &a) {
                        break;
                    }
                    engine.step(p, a);
                    moved = true;
                }
            }
            if !moved {
                break;
            }
        }
    }
}

#[test]
fn tandem_unit_takes_only_what_fits() {
    let mut st = new_state();
    st.players[0].active = Some(pokemon(&mut st, "CSV1C", "050", PlayerId(0)));
    for i in 0..4 {
        st.players[0].bench[i] = Some(pokemon(&mut st, "CSV4C", "099", PlayerId(0)));
    }
    for _ in 0..3 {
        let z = add(&mut st, "CS6aC", "057", PlayerId(0));
        st.players[0].deck.push(z);
    }
    assert!(ability_tandem_unit(&mut st, PlayerId(0), SlotRef::Active).is_ok());
    assert_eq!(st.players[0].deck.len(), 2);
    assert_eq!(st.players[0].bench_count(), 5);
    assert!(st.players[0].active.as_ref().unwrap().used_ability_this_turn);
    assert!(ability_tandem_unit(&mut st, PlayerId(0), SlotRef::Active).is_err());
}

#[test]
fn burst_roar_attaches_only_fire_energy_cards() {
    let mut st = new_state();
    st.players[0].active = Some(pokemon(&mut st, "CSV5C", "075", PlayerId(0)));
    let charmander = add(&mut st, "151C", "004", PlayerId(0));
    st.players[0].discard.push(charmander);
    assert!(ability_burst_roar(&mut st, PlayerId(0), SlotRef::Active).is_ok());
    assert!(st.players[0].active.as_ref().unwrap().energies.is_empty());
    assert_eq!(st.players[0].discard, vec![charmander]);
    let fire = add(&mut st, "CSVE1C", "FIR", PlayerId(0));
    st.players[0].discard.push(fire);
    assert!(ability_burst_roar(&mut st, PlayerId(0), SlotRef::Active).is_ok());
    assert_eq!(st.players[0].active.as_ref().unwrap().energies, vec![fire]);
    assert_eq!(st.players[0].discard, vec![charmander]);
}

#[test]
fn phantom_dive_places_sixty_on_the_bench() {
    let mut st = new_state();
    st.players[0].active = Some(pokemon(&mut st, "CSV5C", "075", PlayerId(0)));
    st.players[1].active = Some(pokemon(&mut st, "CSV5C", "075", PlayerId(1)));
    st.players[1].bench[1] = Some(pokemon(&mut st, "CSV4C", "101", PlayerId(1)));
    st.players[1].bench[3] = Some(pokemon(&mut st, "CSV4C", "101", PlayerId(1)));
    let r = attack_phantom_dive(&mut st, PlayerId(0), PlayerId(1), 200, &Choices::default()).unwrap();
    assert_eq!(r.damage, 200);
    let total: u32 = r.bench_damage.iter().map(|(_, d)| *d as u32).sum();
    assert_eq!(total, 60);
    let on_bench: u32 = st.players[1].bench.iter().flatten().map(|s| s.damage as u32).sum();
    assert_eq!(on_bench, 60);
}

#[test]
fn search_attach_energy_leaves_the_hand_alone() {
    let mut st = new_state();
    st.players[0].active = Some(pokemon(&mut st, "CSV1C", "050", PlayerId(0)));
    let l = add(&mut st, "CSVE1C", "LIG", PlayerId(0));
    st.players[0].deck.push(l);
    let r = search_deck_attach_energy(&mut st, PlayerId(0), |d| d.card_type == CardType::BasicEnergy, SlotRef::Active);
    assert_eq!(r.unwrap(), Some(l));
    assert!(st.players[0].hand.is_empty());
    assert!(st.players[0].deck.is_empty());
    assert_eq!(st.players[0].active.as_ref().unwrap().energies, vec![l]);
}

fn reach_second_turn(seed: u64) -> Option<Engine> {
    let mut engine = Engine::new(MatchConfig::default(), seed);
    for &p in &[PlayerId(0), PlayerId(1)] {
        let actions = engine.legal_actions(p);
        if let Some(a) = actions.iter().find(|a| matches!(a, Action::SetupChooseActive { .. })) {
            engine.step(p, a.clone());
        }
    }
    if engine.state().turn.phase != Phase::Play {
        return None;
    }
    let p = engine.state().turn.active_player;
    engine.step(p, Action::EndTurn);
    Some(engine)
}

fn knock_out(engine: &mut Engine, set: &str, num: &str, damage: u16) -> (usize, usize, usize, usize) {
    let p = engine.state().turn.active_player;
    let o = PlayerId(1 - p.0);
    let st = engine.state_mut();
    st.players[p.0].active = Some(pokemon(st, "CSV6C", "051", p));
    let mut target = pokemon(st, set, num, o);
    target.damage = damage;
    st.players[o.0].active = Some(target);
    let before = (st.players[p.0].prizes.len(), st.players[p.0].hand.len(), st.players[o.0].prizes.len());
    let r = engine.step(p, Action::Attack { attack_index: 0, choices: Choices::default() });
    assert!(!r.events.is_empty());
    let st = engine.state();
    let taken = before.0 - st.players[p.0].prizes.len();
    (taken, st.players[p.0].hand.len() - before.1, before.2, st.players[o.0].prizes.len())
}

#[test]
fn knock_out_gives_one_prize_to_the_attacker() {
    if let Some(mut engine) = reach_second_turn(43) {
        let (taken, to_hand, o_before, o_after) = knock_out(&mut engine, "CSV4C", "099", 0);
        assert_eq!(taken, 1);
        assert_eq!(to_hand, 1);
        assert_eq!(o_before, o_after);
    }
}

#[test]
fn knock_out_of_an_ex_gives_two_prizes() {
    if let Some(mut engine) = reach_second_turn(43) {
        let (taken, to_hand, o_before, o_after) = knock_out(&mut engine, "CSV4C", "101", 270);
        assert_eq!(taken, 2);
        assert_eq!(to_hand, 2);
        assert_eq!(o_before, o_after);
    }
}
