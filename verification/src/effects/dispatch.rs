//! Routing of effect identifiers to the effect functions.

use vstd::prelude::*;
use vstd::string::StringExecFns;

use super::common::{AttackResult, EffectResult};
use super::pokemon::{
    ability_burst_roar, ability_burst_roar_post, ability_concealed_cards, ability_concealed_cards_post,
    ability_flip_the_script, ability_flip_the_script_post, ability_infernal_reign,
    ability_infernal_reign_post, ability_instant_charge, ability_instant_charge_post, ability_luminous_sign,
    ability_luminous_sign_post, ability_restart, ability_restart_post, ability_squawk_and_seize,
    ability_squawk_and_seize_post, ability_star_alchemy, ability_star_alchemy_post, ability_tandem_unit,
    ability_tandem_unit_post, ability_wind_search, ability_wind_search_post, attack_combustion_blast,
    attack_combustion_blast_post, attack_combustion_blast_pre, attack_discard_energy_from_self,
    attack_discard_energy_from_self_post, attack_discard_energy_from_self_pre, attack_discard_stadium_bonus,
    attack_discard_stadium_bonus_post, attack_discard_stadium_bonus_pre, attack_double_impact,
    attack_double_impact_post, attack_double_impact_pre, attack_gale_winds, attack_gale_winds_post,
    attack_gale_winds_pre, attack_moonlight_shuriken, attack_moonlight_shuriken_post,
    attack_moonlight_shuriken_pre, attack_photon_blaster, attack_photon_blaster_post,
    attack_photon_blaster_pre, attack_scorching_darkness, attack_scorching_darkness_post,
    attack_scorching_darkness_pre,
};
use super::trainers::{
    effect_arven, effect_arven_post, effect_boss_orders, effect_boss_orders_post, effect_electric_generator,
    effect_electric_generator_post, effect_iono, effect_iono_post, effect_nest_ball, effect_nest_ball_post,
    effect_rare_candy, effect_rare_candy_post, effect_ultra_ball, effect_ultra_ball_post,
};
use crate::action::Choices;
use crate::card::str_eq;
use crate::error::{is_err, EngineError, EngineResult, ErrorKind};
use crate::rng::GameRng;
use crate::state::{GameState, GameView, PlayerId, SlotRef};

verus! {

/// The ability effects that an identifier can name.
#[derive(Debug, Clone, Copy, PartialEq, Eq, Structural)]
pub enum AbilityEffect {
    TandemUnit,
    InfernalReign,
    WindSearch,
    ConcealedCards,
    Restart,
    BurstRoar,
    StarAlchemy,
    SquawkAndSeize,
    LuminousSign,
    InstantCharge,
    FlipTheScript,
    /// An ability whose effect is passive or not modelled: nothing happens.
    Passive,
}

/// The ability effect named by `id`, if any.
pub open spec fn ability_effect_of(id: Seq<char>) -> Option<AbilityEffect> {
    if id == "ability_tandem_unit"@ {
        Some(AbilityEffect::TandemUnit)
    } else if id == "ability_infernal_reign"@ {
        Some(AbilityEffect::InfernalReign)
    } else if id == "ability_wind_search"@ {
        Some(AbilityEffect::WindSearch)
    } else if id == "ability_awaken"@ {
        Some(AbilityEffect::Passive)
    } else if id == "ability_concealed_cards"@ {
        Some(AbilityEffect::ConcealedCards)
    } else if id == "ability_restart"@ {
        Some(AbilityEffect::Restart)
    } else if id == "ability_burst_roar"@ {
        Some(AbilityEffect::BurstRoar)
    } else if id == "tool_star_alchemy"@ {
        Some(AbilityEffect::StarAlchemy)
    } else if id == "ability_quick_draw"@ {
        Some(AbilityEffect::Passive)
    } else if id == "ability_squawk_and_seize"@ {
        Some(AbilityEffect::SquawkAndSeize)
    } else if id == "ability_luminous_sign"@ {
        Some(AbilityEffect::LuminousSign)
    } else if id == "ability_instant_charge"@ {
        Some(AbilityEffect::InstantCharge)
    } else if id == "ability_flip_the_script"@ {
        Some(AbilityEffect::FlipTheScript)
    } else if id == "ability_iron_bundle_blower"@ {
        Some(AbilityEffect::Passive)
    } else if id == "ability_azure_command"@ {
        Some(AbilityEffect::Passive)
    } else {
        None
    }
}

fn ability_effect(id: &str) -> (r: Option<AbilityEffect>)
    ensures
        r == ability_effect_of(id@),
{
    if str_eq(id, "ability_tandem_unit") {
        Some(AbilityEffect::TandemUnit)
    } else if str_eq(id, "ability_infernal_reign") {
        Some(AbilityEffect::InfernalReign)
    } else if str_eq(id, "ability_wind_search") {
        Some(AbilityEffect::WindSearch)
    } else if str_eq(id, "ability_awaken") {
        Some(AbilityEffect::Passive)
    } else if str_eq(id, "ability_concealed_cards") {
        Some(AbilityEffect::ConcealedCards)
    } else if str_eq(id, "ability_restart") {
        Some(AbilityEffect::Restart)
    } else if str_eq(id, "ability_burst_roar") {
        Some(AbilityEffect::BurstRoar)
    } else if str_eq(id, "tool_star_alchemy") {
        Some(AbilityEffect::StarAlchemy)
    } else if str_eq(id, "ability_quick_draw") {
        Some(AbilityEffect::Passive)
    } else if str_eq(id, "ability_squawk_and_seize") {
        Some(AbilityEffect::SquawkAndSeize)
    } else if str_eq(id, "ability_luminous_sign") {
        Some(AbilityEffect::LuminousSign)
    } else if str_eq(id, "ability_instant_charge") {
        Some(AbilityEffect::InstantCharge)
    } else if str_eq(id, "ability_flip_the_script") {
        Some(AbilityEffect::FlipTheScript)
    } else if str_eq(id, "ability_iron_bundle_blower") {
        Some(AbilityEffect::Passive)
    } else if str_eq(id, "ability_azure_command") {
        Some(AbilityEffect::Passive)
    } else {
        None
    }
}

/// What the ability effect `e` does: `g` before, `g2` after, `r` its result.
pub open spec fn ability_post(
    e: AbilityEffect,
    g: GameView,
    g2: GameView,
    player: PlayerId,
    source: SlotRef,
    r: EngineResult<EffectResult>,
) -> bool {
    match e {
        AbilityEffect::TandemUnit => ability_tandem_unit_post(g, g2, player, source, r),
        AbilityEffect::InfernalReign => ability_infernal_reign_post(g, g2, player, source, r),
        AbilityEffect::WindSearch => ability_wind_search_post(g, g2, player, source, r),
        AbilityEffect::ConcealedCards => ability_concealed_cards_post(g, g2, player, source, r),
        AbilityEffect::Restart => ability_restart_post(g, g2, player, source, r),
        AbilityEffect::BurstRoar => ability_burst_roar_post(g, g2, player, source, r),
        AbilityEffect::StarAlchemy => ability_star_alchemy_post(g, g2, player, source, r),
        AbilityEffect::SquawkAndSeize => ability_squawk_and_seize_post(g, g2, player, source, r),
        AbilityEffect::LuminousSign => ability_luminous_sign_post(g, g2, player, source, r),
        AbilityEffect::InstantCharge => ability_instant_charge_post(g, g2, player, source, r),
        AbilityEffect::FlipTheScript => ability_flip_the_script_post(g, g2, player, source, r),
        AbilityEffect::Passive => g2 == g && (r matches Ok(res) && res.events@.len() == 0),
    }
}

/// What running the ability effect named `id` does: `g` before, `g2` after,
/// `r` its result.
#[verifier::opaque]
pub open spec fn ability_dispatch_post(
    id: Seq<char>,
    g: GameView,
    g2: GameView,
    player: PlayerId,
    source: SlotRef,
    r: EngineResult<EffectResult>,
) -> bool {
    match ability_effect_of(id) {
        Some(e) => ability_post(e, g, g2, player, source, r),
        None => g2 == g && is_err(r, ErrorKind::InvalidAction, "Unknown ability effect: "@ + id),
    }
}

/// Run the ability effect named `effect_id` for the Pokemon at `source`.
/// An unknown identifier is refused with an error that names it.
pub fn dispatch_ability(state: &mut GameState, player: PlayerId, source: SlotRef, effect_id: &str) -> (r: EngineResult<
    EffectResult,
>)
    requires
        player.0 < 2,
    ensures
        ability_dispatch_post(effect_id@, old(state)@, final(state)@, player, source, r),
        final(state)@.turn == old(state)@.turn,
{
    proof {
        reveal(ability_dispatch_post);
    }
    match ability_effect(effect_id) {
        Some(AbilityEffect::TandemUnit) => ability_tandem_unit(state, player, source),
        Some(AbilityEffect::InfernalReign) => ability_infernal_reign(state, player, source),
        Some(AbilityEffect::WindSearch) => ability_wind_search(state, player, source),
        Some(AbilityEffect::ConcealedCards) => ability_concealed_cards(state, player, source),
        Some(AbilityEffect::Restart) => ability_restart(state, player, source),
        Some(AbilityEffect::BurstRoar) => ability_burst_roar(state, player, source),
        Some(AbilityEffect::StarAlchemy) => ability_star_alchemy(state, player, source),
        Some(AbilityEffect::SquawkAndSeize) => ability_squawk_and_seize(state, player, source),
        Some(AbilityEffect::LuminousSign) => ability_luminous_sign(state, player, source),
        Some(AbilityEffect::InstantCharge) => ability_instant_charge(state, player, source),
        Some(AbilityEffect::FlipTheScript) => ability_flip_the_script(state, player, source),
        Some(AbilityEffect::Passive) => Ok(EffectResult::new()),
        None => {
            let mut msg = String::from_str("Unknown ability effect: ");
            msg.append(effect_id);
            proof {
                reveal_strlit("Unknown ability effect: ");
            }
            Err(EngineError::InvalidAction(msg))
        },
    }
}

/// The trainer effects that a card name can name.
#[derive(Debug, Clone, Copy, PartialEq, Eq, Structural)]
pub enum TrainerEffect {
    ElectricGenerator,
    NestBall,
    UltraBall,
    RareCandy,
    Arven,
    BossOrders,
    Iono,
    CounterCatcher,
}

/// The trainer effect named by `id`, if any.
pub open spec fn trainer_effect_of(id: Seq<char>) -> Option<TrainerEffect> {
    if id == "Electric Generator"@ || id == "electric_generator"@ {
        Some(TrainerEffect::ElectricGenerator)
    } else if id == "Nest Ball"@ || id == "nest_ball"@ {
        Some(TrainerEffect::NestBall)
    } else if id == "Ultra Ball"@ || id == "ultra_ball"@ {
        Some(TrainerEffect::UltraBall)
    } else if id == "Rare Candy"@ || id == "rare_candy"@ {
        Some(TrainerEffect::RareCandy)
    } else if id == "Arven"@ || id == "arven"@ {
        Some(TrainerEffect::Arven)
    } else if id == "Boss's Orders"@ || id == "boss_orders"@ || id == "Guzzlord"@ {
        Some(TrainerEffect::BossOrders)
    } else if id == "Iono"@ || id == "iono"@ {
        Some(TrainerEffect::Iono)
    } else if id == "Counter Catcher"@ || id == "counter_catcher"@ {
        Some(TrainerEffect::CounterCatcher)
    } else {
        None
    }
}

fn trainer_effect(id: &str) -> (r: Option<TrainerEffect>)
    ensures
        r == trainer_effect_of(id@),
{
    if str_eq(id, "Electric Generator") || str_eq(id, "electric_generator") {
        Some(TrainerEffect::ElectricGenerator)
    } else if str_eq(id, "Nest Ball") || str_eq(id, "nest_ball") {
        Some(TrainerEffect::NestBall)
    } else if str_eq(id, "Ultra Ball") || str_eq(id, "ultra_ball") {
        Some(TrainerEffect::UltraBall)
    } else if str_eq(id, "Rare Candy") || str_eq(id, "rare_candy") {
        Some(TrainerEffect::RareCandy)
    } else if str_eq(id, "Arven") || str_eq(id, "arven") {
        Some(TrainerEffect::Arven)
    } else if str_eq(id, "Boss's Orders") || str_eq(id, "boss_orders") || str_eq(id, "Guzzlord") {
        Some(TrainerEffect::BossOrders)
    } else if str_eq(id, "Iono") || str_eq(id, "iono") {
        Some(TrainerEffect::Iono)
    } else if str_eq(id, "Counter Catcher") || str_eq(id, "counter_catcher") {
        Some(TrainerEffect::CounterCatcher)
    } else {
        None
    }
}

/// Whether the trainer effect `e` needs a chosen slot.
pub open spec fn needs_target(e: TrainerEffect) -> bool {
    e == TrainerEffect::RareCandy || e == TrainerEffect::BossOrders || e == TrainerEffect::CounterCatcher
}

/// What the trainer effect `e` does: `g` before, `g2` after, `r` its result.
pub open spec fn trainer_post(
    e: TrainerEffect,
    g: GameView,
    g2: GameView,
    player: PlayerId,
    choices: Choices,
    r: EngineResult<EffectResult>,
) -> bool {
    if needs_target(e) && choices.selected_slots@.len() == 0 {
        g2 == g && is_err(r, ErrorKind::InvalidAction, "Must select target"@)
    } else {
        match e {
            TrainerEffect::ElectricGenerator => effect_electric_generator_post(g, g2, player, choices, r),
            TrainerEffect::NestBall => effect_nest_ball_post(g, g2, player, r),
            TrainerEffect::UltraBall => effect_ultra_ball_post(g, g2, player, choices.selected_cards, r),
            TrainerEffect::RareCandy => effect_rare_candy_post(g, g2, player, choices.selected_slots@[0], r),
            TrainerEffect::Arven => effect_arven_post(g, g2, player, r),
            TrainerEffect::BossOrders => effect_boss_orders_post(g, g2, player, choices.selected_slots@[0], r),
            TrainerEffect::Iono => effect_iono_post(g, g2, player, r),
            TrainerEffect::CounterCatcher => effect_boss_orders_post(g, g2, player, choices.selected_slots@[0], r),
        }
    }
}

/// Run the trainer effect of the card named `card_id`. A name that has no
/// effect here is refused with an error that names it.
pub fn dispatch_trainer(state: &mut GameState, player: PlayerId, card_id: &str, choices: &Choices) -> (r: EngineResult<
    EffectResult,
>)
    requires
        player.0 < 2,
        (trainer_effect_of(card_id@) == Some(TrainerEffect::BossOrders) || trainer_effect_of(card_id@) == Some(
            TrainerEffect::CounterCatcher,
        )) && choices.selected_slots@.len() > 0 ==> (choices.selected_slots@[0] matches SlotRef::Bench(i) ==> i
            < old(state)@.player(player.spec_opponent()).bench.len()),
    ensures
        match trainer_effect_of(card_id@) {
            Some(e) => trainer_post(e, old(state)@, final(state)@, player, *choices, r),
            None => final(state)@ == old(state)@ && is_err(
                r,
                ErrorKind::InvalidAction,
                "Unknown trainer effect: "@ + card_id@,
            ),
        },
{
    match trainer_effect(card_id) {
        Some(e) => {
            if (e == TrainerEffect::RareCandy || e == TrainerEffect::BossOrders || e == TrainerEffect::CounterCatcher)
                && choices.selected_slots.len() == 0 {
                return Err(EngineError::invalid_action("Must select target"));
            }
            match e {
                TrainerEffect::ElectricGenerator => effect_electric_generator(state, player, choices),
                TrainerEffect::NestBall => effect_nest_ball(state, player),
                TrainerEffect::UltraBall => {
                    let mut cards = Vec::new();
                    let mut i: usize = 0;
                    while i < choices.selected_cards.len()
                        invariant
                            i <= choices.selected_cards@.len(),
                            cards@ == choices.selected_cards@.take(i as int),
                        decreases choices.selected_cards@.len() - i,
                    {
                        cards.push(choices.selected_cards[i]);
                        proof {
                            assert(choices.selected_cards@.take(i + 1) =~= choices.selected_cards@.take(i as int).push(
                                choices.selected_cards@[i as int],
                            ));
                        }
                        i = i + 1;
                    }
                    proof {
                        assert(choices.selected_cards@.take(i as int) =~= choices.selected_cards@);
                    }
                    effect_ultra_ball(state, player, cards)
                },
                TrainerEffect::RareCandy => effect_rare_candy(state, player, choices.selected_slots[0]),
                TrainerEffect::Arven => effect_arven(state, player),
                TrainerEffect::BossOrders => effect_boss_orders(state, player, choices.selected_slots[0]),
                TrainerEffect::Iono => effect_iono(state, player),
                TrainerEffect::CounterCatcher => effect_boss_orders(state, player, choices.selected_slots[0]),
            }
        },
        None => {
            let mut msg = String::from_str("Unknown trainer effect: ");
            msg.append(card_id);
            proof {
                reveal_strlit("Unknown trainer effect: ");
            }
            Err(EngineError::InvalidAction(msg))
        },
    }
}

/// The attack effects that an identifier can name.
#[derive(Debug, Clone, Copy, PartialEq, Eq, Structural)]
pub enum AttackEffect {
    BenchSnipe30,
    PrizeCountDamage,
    SelfLockNextTurn,
    BenchSnipeDouble90,
    OptionalDiscardStadium,
    PrizeConditionDamage,
    DiscardEnergyFromSelf,
    DiscardStadiumBonus,
}

/// The attack effect named by `id`, if any.
pub open spec fn attack_effect_of(id: Seq<char>) -> Option<AttackEffect> {
    if id == "attack_bench_snipe_30"@ {
        Some(AttackEffect::BenchSnipe30)
    } else if id == "attack_prize_count_damage"@ {
        Some(AttackEffect::PrizeCountDamage)
    } else if id == "attack_self_lock_next_turn"@ {
        Some(AttackEffect::SelfLockNextTurn)
    } else if id == "attack_bench_snipe_double_90"@ {
        Some(AttackEffect::BenchSnipeDouble90)
    } else if id == "attack_optional_discard_stadium"@ {
        Some(AttackEffect::OptionalDiscardStadium)
    } else if id == "attack_prize_condition_damage"@ {
        Some(AttackEffect::PrizeConditionDamage)
    } else if id == "attack_discard_energy_from_self"@ {
        Some(AttackEffect::DiscardEnergyFromSelf)
    } else if id == "attack_discard_stadium_bonus"@ {
        Some(AttackEffect::DiscardStadiumBonus)
    } else {
        None
    }
}

fn attack_effect(id: &str) -> (r: Option<AttackEffect>)
    ensures
        r == attack_effect_of(id@),
{
    if str_eq(id, "attack_bench_snipe_30") {
        Some(AttackEffect::BenchSnipe30)
    } else if str_eq(id, "attack_prize_count_damage") {
        Some(AttackEffect::PrizeCountDamage)
    } else if str_eq(id, "attack_self_lock_next_turn") {
        Some(AttackEffect::SelfLockNextTurn)
    } else if str_eq(id, "attack_bench_snipe_double_90") {
        Some(AttackEffect::BenchSnipeDouble90)
    } else if str_eq(id, "attack_optional_discard_stadium") {
        Some(AttackEffect::OptionalDiscardStadium)
    } else if str_eq(id, "attack_prize_condition_damage") {
        Some(AttackEffect::PrizeConditionDamage)
    } else if str_eq(id, "attack_discard_energy_from_self") {
        Some(AttackEffect::DiscardEnergyFromSelf)
    } else if str_eq(id, "attack_discard_stadium_bonus") {
        Some(AttackEffect::DiscardStadiumBonus)
    } else {
        None
    }
}

/// What the attack effect `e` requires of the state.
pub open spec fn attack_pre(
    e: AttackEffect,
    g: GameView,
    attacker: PlayerId,
    defender: PlayerId,
    base_damage: u16,
    choices: Choices,
) -> bool {
    match e {
        AttackEffect::BenchSnipe30 => attack_double_impact_pre(g, attacker, defender, base_damage, choices),
        AttackEffect::PrizeCountDamage => attack_scorching_darkness_pre(g, attacker, defender, base_damage),
        AttackEffect::SelfLockNextTurn => attack_photon_blaster_pre(g, defender, base_damage),
        AttackEffect::BenchSnipeDouble90 => attack_moonlight_shuriken_pre(g, attacker, defender, base_damage, choices),
        AttackEffect::OptionalDiscardStadium => attack_gale_winds_pre(g, attacker, defender, base_damage, choices),
        AttackEffect::PrizeConditionDamage => attack_combustion_blast_pre(g, attacker, defender, base_damage),
        AttackEffect::DiscardEnergyFromSelf => attack_discard_energy_from_self_pre(g, attacker, defender, base_damage),
        AttackEffect::DiscardStadiumBonus => attack_discard_stadium_bonus_pre(g, attacker, defender, base_damage, choices),
    }
}

/// What the attack effect `e` does: `g` before, `g2` after, `r` its result.
pub open spec fn attack_post(
    e: AttackEffect,
    g: GameView,
    g2: GameView,
    attacker: PlayerId,
    defender: PlayerId,
    base_damage: u16,
    choices: Choices,
    r: EngineResult<AttackResult>,
) -> bool {
    match e {
        AttackEffect::BenchSnipe30 => attack_double_impact_post(g, g2, attacker, defender, base_damage, choices, r),
        AttackEffect::PrizeCountDamage => attack_scorching_darkness_post(g, g2, attacker, defender, base_damage, r),
        AttackEffect::SelfLockNextTurn => attack_photon_blaster_post(g, g2, defender, base_damage, r),
        AttackEffect::BenchSnipeDouble90 => attack_moonlight_shuriken_post(g, g2, attacker, defender, base_damage, choices, r),
        AttackEffect::OptionalDiscardStadium => attack_gale_winds_post(g, g2, attacker, defender, base_damage, choices, r),
        AttackEffect::PrizeConditionDamage => attack_combustion_blast_post(g, g2, attacker, defender, base_damage, r),
        AttackEffect::DiscardEnergyFromSelf => attack_discard_energy_from_self_post(g, g2, attacker, defender, base_damage, r),
        AttackEffect::DiscardStadiumBonus => attack_discard_stadium_bonus_post(
            g,
            g2,
            attacker,
            defender,
            base_damage,
            choices,
            r,
        ),
    }
}

/// Run the attack effect named `effect_id`. An identifier with no effect
/// here leaves the state alone and reports the base damage.
pub fn dispatch_attack(
    state: &mut GameState,
    attacker: PlayerId,
    defender: PlayerId,
    effect_id: &str,
    base_damage: u16,
    choices: &Choices,
    rng: &mut GameRng,
) -> (r: EngineResult<AttackResult>)
    requires
        attack_effect_of(effect_id@) matches Some(e) ==> attack_pre(e, old(state)@, attacker, defender, base_damage, *choices),
    ensures
        *final(rng) == *old(rng),
        match attack_effect_of(effect_id@) {
            Some(e) => attack_post(e, old(state)@, final(state)@, attacker, defender, base_damage, *choices, r),
            None => final(state)@ == old(state)@ && (r matches Ok(res) && res.damage == base_damage && !res.ko
                && res.bench_damage@.len() == 0 && res.events@.len() == 0 && !res.self_lock),
        },
{
    match attack_effect(effect_id) {
        Some(AttackEffect::BenchSnipe30) => attack_double_impact(state, attacker, defender, base_damage, choices),
        Some(AttackEffect::PrizeCountDamage) => attack_scorching_darkness(state, attacker, defender, base_damage),
        Some(AttackEffect::SelfLockNextTurn) => attack_photon_blaster(state, defender, base_damage),
        Some(AttackEffect::BenchSnipeDouble90) => attack_moonlight_shuriken(state, attacker, defender, base_damage, choices),
        Some(AttackEffect::OptionalDiscardStadium) => attack_gale_winds(state, attacker, defender, base_damage, choices),
        Some(AttackEffect::PrizeConditionDamage) => attack_combustion_blast(state, attacker, defender, base_damage),
        Some(AttackEffect::DiscardEnergyFromSelf) => attack_discard_energy_from_self(state, attacker, defender, base_damage),
        Some(AttackEffect::DiscardStadiumBonus) => attack_discard_stadium_bonus(state, attacker, defender, base_damage, choices),
        None => Ok(AttackResult::new(base_damage)),
    }
}

/// Stadium effects: none is resolved when a stadium is played.
pub fn dispatch_stadium(state: &mut GameState, player: PlayerId, card_id: &str) -> (r: EngineResult<EffectResult>)
    ensures
        final(state)@ == old(state)@,
        r matches Ok(res) && res.events@.len() == 0,
{
    Ok(EffectResult::new())
}

} // verus!
