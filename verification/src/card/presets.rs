//! Card definitions of the supported sets.

use vstd::prelude::*;
use vstd::string::StringExecFns;

use super::{
    find_def, lemma_find_def_at, Ability, AbilityView, Attack, AttackView, CardDef, CardDefId, CardDefView,
    CardRegistry, CardType, EnergyType, Mechanic, Stage, TypeMultiplier,
};

verus! {

/// Definition number 0 of the registry.
pub open spec fn preset_def_0() -> CardDefView {
    CardDefView {
        id: "151C"@ + seq!['_'] + "004"@,
        name: "Charmander"@,
        name_en: "Charmander"@,
        set_code: "151C"@,
        card_type: CardType::Pokemon,
        stage: Some(Stage::Basic),
        hp: Some(70),
        energy_type: Some(EnergyType::Fire),
        weakness: Some(TypeMultiplier { energy_type: EnergyType::Water, multiplier: 2i32 }),
        resistance: None,
        retreat_cost: Some(1),
        mechanic: None,
        attacks: seq![
            AttackView {
                name: "Ember"@,
                cost: seq![EnergyType::Fire, EnergyType::Colorless],
                damage: 50,
                text: "50 damage. Discard 1 Energy from this Pokemon."@,
                effect_id: None,
            }
        ],
        abilities: Seq::empty(),
        provides_energy: None,
        damage_modifier: None,
        retreat_modifier: None,
    }
}

/// Definition number 1 of the registry.
pub open spec fn preset_def_1() -> CardDefView {
    CardDefView {
        id: "CSV1C"@ + seq!['_'] + "043"@,
        name: "Nest Ball"@,
        name_en: "Nest Ball"@,
        set_code: "CSV1C"@,
        card_type: CardType::Item,
        stage: None,
        hp: None,
        energy_type: None,
        weakness: None,
        resistance: None,
        retreat_cost: None,
        mechanic: None,
        attacks: Seq::empty(),
        abilities: Seq::empty(),
        provides_energy: None,
        damage_modifier: None,
        retreat_modifier: None,
    }
}

/// Definition number 2 of the registry.
pub open spec fn preset_def_2() -> CardDefView {
    CardDefView {
        id: "CSVH1C"@ + seq!['_'] + "045"@,
        name: "Rare Candy"@,
        name_en: "Rare Candy"@,
        set_code: "CSVH1C"@,
        card_type: CardType::Item,
        stage: None,
        hp: None,
        energy_type: None,
        weakness: None,
        resistance: None,
        retreat_cost: None,
        mechanic: None,
        attacks: Seq::empty(),
        abilities: Seq::empty(),
        provides_energy: None,
        damage_modifier: None,
        retreat_modifier: None,
    }
}

/// Definition number 3 of the registry.
pub open spec fn preset_def_3() -> CardDefView {
    CardDefView {
        id: "CSV1C"@ + seq!['_'] + "050"@,
        name: "Miraidon ex"@,
        name_en: "Miraidon ex"@,
        set_code: "CSV1C"@,
        card_type: CardType::Pokemon,
        stage: Some(Stage::Basic),
        hp: Some(220),
        energy_type: Some(EnergyType::Lightning),
        weakness: Some(TypeMultiplier { energy_type: EnergyType::Fighting, multiplier: 2i32 }),
        resistance: Some(TypeMultiplier { energy_type: EnergyType::Fighting, multiplier: -30i32 }),
        retreat_cost: Some(1),
        mechanic: Some(Mechanic::Ex),
        attacks: seq![
            AttackView {
                name: "Photon Blaster"@,
                cost: seq![EnergyType::Lightning, EnergyType::Lightning, EnergyType::Colorless],
                damage: 220,
                text: "220 damage. During your next turn, you can't use this attack."@,
                effect_id: Some("attack_self_lock_next_turn"@),
            }
        ],
        abilities: seq![
            AbilityView {
                name: "Tandem Unit"@,
                text: "Once during your turn, you may search your deck for up to 2 Basic Lightning Pokemon and put them on your Bench."@,
                effect_id: "ability_tandem_unit"@,
            }
        ],
        provides_energy: None,
        damage_modifier: None,
        retreat_modifier: None,
    }
}

/// Definition number 4 of the registry.
pub open spec fn preset_def_4() -> CardDefView {
    CardDefView {
        id: "CSV1C"@ + seq!['_'] + "060"@,
        name: "Klefki"@, name_en: "Klefki"@, set_code: "CSV1C"@,
        card_type: CardType::Pokemon, stage: Some(Stage::Basic), hp: Some(70), energy_type: Some(EnergyType::Psychic),
        weakness: Some(TypeMultiplier { energy_type: EnergyType::Darkness, multiplier: 2i32 }),
        resistance: Some(TypeMultiplier { energy_type: EnergyType::Fighting, multiplier: -30i32 }),
        retreat_cost: Some(1), mechanic: None,
        attacks: Seq::empty(), abilities: Seq::empty(), provides_energy: None, damage_modifier: None, retreat_modifier: None,
    }
}

/// Definition number 5 of the registry.
pub open spec fn preset_def_5() -> CardDefView {
    CardDefView {
        id: "CSV1C"@ + seq!['_'] + "107"@,
        name: "Electric Generator"@,
        name_en: "Electric Generator"@,
        set_code: "CSV1C"@,
        card_type: CardType::Item,
        stage: None,
        hp: None,
        energy_type: None,
        weakness: None,
        resistance: None,
        retreat_cost: None,
        mechanic: None,
        attacks: Seq::empty(),
        abilities: Seq::empty(),
        provides_energy: None,
        damage_modifier: None,
        retreat_modifier: None,
    }
}

/// Definition number 6 of the registry.
pub open spec fn preset_def_6() -> CardDefView {
    CardDefView {
        id: "CSV1C"@ + seq!['_'] + "109"@,
        name: "Super Rod"@, name_en: "Super Rod"@, set_code: "CSV1C"@,
        card_type: CardType::Item, stage: None, hp: None, energy_type: None, weakness: None, resistance: None,
        retreat_cost: None, mechanic: None, attacks: Seq::empty(), abilities: Seq::empty(), provides_energy: None, damage_modifier: None, retreat_modifier: None,
    }
}

/// Definition number 7 of the registry.
pub open spec fn preset_def_7() -> CardDefView {
    CardDefView {
        id: "CSV1C"@ + seq!['_'] + "111"@, name: "Pal Pad"@, name_en: "Pal Pad"@,
        set_code: "CSV1C"@, card_type: CardType::Item, stage: None, hp: None, energy_type: None,
        weakness: None, resistance: None, retreat_cost: None, mechanic: None, attacks: Seq::empty(), abilities: Seq::empty(),
        provides_energy: None, damage_modifier: None, retreat_modifier: None,
    }
}

/// Definition number 8 of the registry.
pub open spec fn preset_def_8() -> CardDefView {
    CardDefView {
        id: "CSV1C"@ + seq!['_'] + "112"@,
        name: "Ultra Ball"@,
        name_en: "Ultra Ball"@,
        set_code: "CSV1C"@,
        card_type: CardType::Item,
        stage: None,
        hp: None,
        energy_type: None,
        weakness: None,
        resistance: None,
        retreat_cost: None,
        mechanic: None,
        attacks: Seq::empty(),
        abilities: Seq::empty(),
        provides_energy: None,
        damage_modifier: None,
        retreat_modifier: None,
    }
}

/// Definition number 9 of the registry.
pub open spec fn preset_def_9() -> CardDefView {
    CardDefView {
        id: "CSV1C"@ + seq!['_'] + "117"@,
        name: "Defiance Band"@, name_en: "Defiance Band"@, set_code: "CSV1C"@,
        card_type: CardType::Tool, stage: None, hp: None, energy_type: None, weakness: None, resistance: None,
        retreat_cost: None, mechanic: None, attacks: Seq::empty(), abilities: Seq::empty(), provides_energy: None, damage_modifier: None, retreat_modifier: None,
    }
}

/// Definition number 10 of the registry.
pub open spec fn preset_def_10() -> CardDefView {
    CardDefView {
        id: "CSV1C"@ + seq!['_'] + "118"@,
        name: "Bravery Charm"@, name_en: "Bravery Charm"@, set_code: "CSV1C"@,
        card_type: CardType::Tool, stage: None, hp: None, energy_type: None, weakness: None, resistance: None,
        retreat_cost: None, mechanic: None, attacks: Seq::empty(), abilities: Seq::empty(), provides_energy: None, damage_modifier: None, retreat_modifier: None,
    }
}

/// Definition number 11 of the registry.
pub open spec fn preset_def_11() -> CardDefView {
    CardDefView {
        id: "CSV1C"@ + seq!['_'] + "121"@, name: "Professor's Research"@, name_en: "Professor's Research"@,
        set_code: "CSV1C"@, card_type: CardType::Supporter, stage: None, hp: None, energy_type: None,
        weakness: None, resistance: None, retreat_cost: None, mechanic: None, attacks: Seq::empty(), abilities: Seq::empty(),
        provides_energy: None, damage_modifier: None, retreat_modifier: None,
    }
}

/// Definition number 12 of the registry.
pub open spec fn preset_def_12() -> CardDefView {
    CardDefView {
        id: "CSV1C"@ + seq!['_'] + "123"@,
        name: "Arven"@,
        name_en: "Arven"@,
        set_code: "CSV1C"@,
        card_type: CardType::Supporter,
        stage: None,
        hp: None,
        energy_type: None,
        weakness: None,
        resistance: None,
        retreat_cost: None,
        mechanic: None,
        attacks: Seq::empty(),
        abilities: Seq::empty(),
        provides_energy: None,
        damage_modifier: None,
        retreat_modifier: None,
    }
}

/// Definition number 13 of the registry.
pub open spec fn preset_def_13() -> CardDefView {
    CardDefView {
        id: "151C"@ + seq!['_'] + "151"@,
        name: "Mew ex"@, name_en: "Mew ex"@, set_code: "151C"@,
        card_type: CardType::Pokemon, stage: Some(Stage::Basic), hp: Some(180), energy_type: Some(EnergyType::Psychic),
        weakness: Some(TypeMultiplier { energy_type: EnergyType::Darkness, multiplier: 2i32 }),
        resistance: Some(TypeMultiplier { energy_type: EnergyType::Fighting, multiplier: -30i32 }),
        retreat_cost: Some(1), mechanic: Some(Mechanic::Ex),
        attacks: Seq::empty(), abilities: seq![AbilityView { name: "Restart"@, text: "Redraw hand."@, effect_id: "ability_restart"@ }],
        provides_energy: None, damage_modifier: None, retreat_modifier: None,
    }
}

/// Definition number 14 of the registry.
pub open spec fn preset_def_14() -> CardDefView {
    CardDefView {
        id: "CSVE1C"@ + seq!['_'] + "DAR"@,
        name: "Darkness Energy"@,
        name_en: "Darkness Energy"@,
        set_code: "CSVE1C"@,
        card_type: CardType::BasicEnergy,
        stage: None,
        hp: None,
        energy_type: Some(EnergyType::Darkness),
        weakness: None,
        resistance: None,
        retreat_cost: None,
        mechanic: None,
        attacks: Seq::empty(),
        abilities: Seq::empty(),
        provides_energy: Some(seq![EnergyType::Darkness]),
        damage_modifier: None,
        retreat_modifier: None,
    }
}

/// Definition number 15 of the registry.
pub open spec fn preset_def_15() -> CardDefView {
    CardDefView {
        id: "CSVE1C"@ + seq!['_'] + "FIR"@,
        name: "Fire Energy"@,
        name_en: "Fire Energy"@,
        set_code: "CSVE1C"@,
        card_type: CardType::BasicEnergy,
        stage: None,
        hp: None,
        energy_type: Some(EnergyType::Fire),
        weakness: None,
        resistance: None,
        retreat_cost: None,
        mechanic: None,
        attacks: Seq::empty(),
        abilities: Seq::empty(),
        provides_energy: Some(seq![EnergyType::Fire]),
        damage_modifier: None,
        retreat_modifier: None,
    }
}

/// Definition number 16 of the registry.
pub open spec fn preset_def_16() -> CardDefView {
    CardDefView {
        id: "CSVE1C"@ + seq!['_'] + "GRA"@,
        name: "Grass Energy"@,
        name_en: "Grass Energy"@,
        set_code: "CSVE1C"@,
        card_type: CardType::BasicEnergy,
        stage: None,
        hp: None,
        energy_type: Some(EnergyType::Grass),
        weakness: None,
        resistance: None,
        retreat_cost: None,
        mechanic: None,
        attacks: Seq::empty(),
        abilities: Seq::empty(),
        provides_energy: Some(seq![EnergyType::Grass]),
        damage_modifier: None,
        retreat_modifier: None,
    }
}

/// Definition number 17 of the registry.
pub open spec fn preset_def_17() -> CardDefView {
    CardDefView {
        id: "CSVE1C"@ + seq!['_'] + "LIG"@,
        name: "Lightning Energy"@,
        name_en: "Lightning Energy"@,
        set_code: "CSVE1C"@,
        card_type: CardType::BasicEnergy,
        stage: None,
        hp: None,
        energy_type: Some(EnergyType::Lightning),
        weakness: None,
        resistance: None,
        retreat_cost: None,
        mechanic: None,
        attacks: Seq::empty(),
        abilities: Seq::empty(),
        provides_energy: Some(seq![EnergyType::Lightning]),
        damage_modifier: None,
        retreat_modifier: None,
    }
}

/// Definition number 18 of the registry.
pub open spec fn preset_def_18() -> CardDefView {
    CardDefView {
        id: "CSVE1C"@ + seq!['_'] + "PSY"@,
        name: "Psychic Energy"@,
        name_en: "Psychic Energy"@,
        set_code: "CSVE1C"@,
        card_type: CardType::BasicEnergy,
        stage: None,
        hp: None,
        energy_type: Some(EnergyType::Psychic),
        weakness: None,
        resistance: None,
        retreat_cost: None,
        mechanic: None,
        attacks: Seq::empty(),
        abilities: Seq::empty(),
        provides_energy: Some(seq![EnergyType::Psychic]),
        damage_modifier: None,
        retreat_modifier: None,
    }
}

/// Definition number 19 of the registry.
pub open spec fn preset_def_19() -> CardDefView {
    CardDefView {
        id: "CSV2C"@ + seq!['_'] + "060"@,
        name: "Drifloon"@, name_en: "Drifloon"@, set_code: "CSV2C"@,
        card_type: CardType::Pokemon, stage: Some(Stage::Basic), hp: Some(80), energy_type: Some(EnergyType::Psychic),
        weakness: Some(TypeMultiplier { energy_type: EnergyType::Darkness, multiplier: 2i32 }),
        resistance: Some(TypeMultiplier { energy_type: EnergyType::Fighting, multiplier: -30i32 }),
        retreat_cost: Some(2), mechanic: None,
        attacks: Seq::empty(), abilities: Seq::empty(), provides_energy: None, damage_modifier: None, retreat_modifier: None,
    }
}

/// Definition number 20 of the registry.
pub open spec fn preset_def_20() -> CardDefView {
    CardDefView {
        id: "CSV2C"@ + seq!['_'] + "105"@,
        name: "Squawkabilly ex"@, name_en: "Squawkabilly ex"@, set_code: "CSV2C"@,
        card_type: CardType::Pokemon, stage: Some(Stage::Basic), hp: Some(240), energy_type: Some(EnergyType::Colorless),
        weakness: Some(TypeMultiplier { energy_type: EnergyType::Lightning, multiplier: 2i32 }),
        resistance: Some(TypeMultiplier { energy_type: EnergyType::Fighting, multiplier: -30i32 }),
        retreat_cost: Some(2), mechanic: Some(Mechanic::Ex),
        attacks: Seq::empty(), abilities: Seq::empty(), provides_energy: None, damage_modifier: None, retreat_modifier: None,
    }
}

/// Definition number 21 of the registry.
pub open spec fn preset_def_21() -> CardDefView {
    CardDefView {
        id: "CSV2C"@ + seq!['_'] + "113"@, name: "Pokegear 3.0"@, name_en: "Pokegear 3.0"@,
        set_code: "CSV2C"@, card_type: CardType::Item, stage: None, hp: None, energy_type: None,
        weakness: None, resistance: None, retreat_cost: None, mechanic: None, attacks: Seq::empty(), abilities: Seq::empty(),
        provides_energy: None, damage_modifier: None, retreat_modifier: None,
    }
}

/// Definition number 22 of the registry.
pub open spec fn preset_def_22() -> CardDefView {
    CardDefView {
        id: "CSV3C"@ + seq!['_'] + "123"@,
        name: "Iono"@,
        name_en: "Iono"@,
        set_code: "CSV3C"@,
        card_type: CardType::Supporter,
        stage: None,
        hp: None,
        energy_type: None,
        weakness: None,
        resistance: None,
        retreat_cost: None,
        mechanic: None,
        attacks: Seq::empty(),
        abilities: Seq::empty(),
        provides_energy: None,
        damage_modifier: None,
        retreat_modifier: None,
    }
}

/// Definition number 23 of the registry.
pub open spec fn preset_def_23() -> CardDefView {
    CardDefView {
        id: "CSV4C"@ + seq!['_'] + "099"@,
        name: "Pidgey"@,
        name_en: "Pidgey"@,
        set_code: "CSV4C"@,
        card_type: CardType::Pokemon,
        stage: Some(Stage::Basic),
        hp: Some(60),
        energy_type: Some(EnergyType::Colorless),
        weakness: Some(TypeMultiplier { energy_type: EnergyType::Lightning, multiplier: 2i32 }),
        resistance: Some(TypeMultiplier { energy_type: EnergyType::Fighting, multiplier: -30i32 }),
        retreat_cost: Some(0),
        mechanic: None,
        attacks: Seq::empty(),
        abilities: Seq::empty(),
        provides_energy: None,
        damage_modifier: None,
        retreat_modifier: None,
    }
}

/// Definition number 24 of the registry.
pub open spec fn preset_def_24() -> CardDefView {
    CardDefView {
        id: "CSV4C"@ + seq!['_'] + "101"@,
        name: "Pidgeot ex"@,
        name_en: "Pidgeot ex"@,
        set_code: "CSV4C"@,
        card_type: CardType::Pokemon,
        stage: Some(Stage::Stage2),
        hp: Some(280),
        energy_type: Some(EnergyType::Colorless),
        weakness: Some(TypeMultiplier { energy_type: EnergyType::Lightning, multiplier: 2i32 }),
        resistance: Some(TypeMultiplier { energy_type: EnergyType::Fighting, multiplier: -30i32 }),
        retreat_cost: Some(1),
        mechanic: Some(Mechanic::Ex),
        attacks: seq![
            AttackView {
                name: "Gale Winds"@,
                cost: seq![EnergyType::Colorless, EnergyType::Colorless, EnergyType::Colorless],
                damage: 120,
                text: "120 damage. You may discard 1 Stadium card from your hand. If you do, this attack does 120 damage to 1 of your opponent's Benched Pokemon."@,
                effect_id: Some("attack_optional_discard_stadium"@),
            }
        ],
        abilities: seq![
            AbilityView {
                name: "Wind Search"@,
                text: "Once during your turn, you may search your deck for any 1 card and put it in your hand. Then, shuffle your deck."@,
                effect_id: "ability_wind_search"@,
            }
        ],
        provides_energy: None,
        damage_modifier: None,
        retreat_modifier: None,
    }
}

/// Definition number 25 of the registry.
pub open spec fn preset_def_25() -> CardDefView {
    CardDefView {
        id: "CSV4C"@ + seq!['_'] + "129"@, name: "Jet Energy"@, name_en: "Jet Energy"@,
        set_code: "CSV4C"@, card_type: CardType::SpecialEnergy, stage: None, hp: None, energy_type: Some(EnergyType::Colorless),
        weakness: None, resistance: None, retreat_cost: None, mechanic: None, attacks: Seq::empty(), abilities: Seq::empty(),
        provides_energy: Some(seq![EnergyType::Colorless]), damage_modifier: None, retreat_modifier: Some(1i8),
    }
}

/// Definition number 26 of the registry.
pub open spec fn preset_def_26() -> CardDefView {
    CardDefView {
        id: "CS5.5C"@ + seq!['_'] + "007"@,
        name: "Radiant Charizard"@, name_en: "Radiant Charizard"@, set_code: "CS5.5C"@,
        card_type: CardType::Pokemon, stage: Some(Stage::Basic), hp: Some(130), energy_type: Some(EnergyType::Fire),
        weakness: Some(TypeMultiplier { energy_type: EnergyType::Water, multiplier: 2i32 }),
        resistance: None, retreat_cost: Some(2), mechanic: Some(Mechanic::Radiant),
        attacks: seq![AttackView { name: "Combustion Blast"@, cost: seq![EnergyType::Fire, EnergyType::Fire, EnergyType::Colorless, EnergyType::Colorless], damage: 250, text: "250 if 1+ prizes remaining."@, effect_id: Some("attack_prize_condition_damage"@) }],
        abilities: Seq::empty(), provides_energy: None, damage_modifier: None, retreat_modifier: None,
    }
}

/// Definition number 27 of the registry.
pub open spec fn preset_def_27() -> CardDefView {
    CardDefView {
        id: "CS6.5C"@ + seq!['_'] + "012"@, name: "Delphox V"@, name_en: "Delphox V"@,
        set_code: "CS6.5C"@, card_type: CardType::Pokemon, stage: Some(Stage::Basic),
        hp: Some(210), energy_type: Some(EnergyType::Fire), weakness: Some(TypeMultiplier { energy_type: EnergyType::Water, multiplier: 2i32 }),
        resistance: None, retreat_cost: Some(2), mechanic: Some(Mechanic::V),
        attacks: seq![
            AttackView { name: "Magic Fire"@, cost: seq![EnergyType::Fire, EnergyType::Colorless, EnergyType::Colorless], damage: 160, text: ""@, effect_id: Some("attack_delphox_v_magic_fire"@) },
        ], abilities: Seq::empty(), provides_energy: None, damage_modifier: None, retreat_modifier: None,
    }
}

/// Definition number 28 of the registry.
pub open spec fn preset_def_28() -> CardDefView {
    CardDefView {
        id: "CSV5C"@ + seq!['_'] + "015"@,
        name: "Charmeleon"@,
        name_en: "Charmeleon"@,
        set_code: "CSV5C"@,
        card_type: CardType::Pokemon,
        stage: Some(Stage::Stage1),
        hp: Some(110),
        energy_type: Some(EnergyType::Fire),
        weakness: Some(TypeMultiplier { energy_type: EnergyType::Water, multiplier: 2i32 }),
        resistance: None,
        retreat_cost: Some(2),
        mechanic: None,
        attacks: seq![
            AttackView {
                name: "Raging Claw"@,
                cost: seq![EnergyType::Fire, EnergyType::Fire, EnergyType::Colorless],
                damage: 80,
                text: "80+ damage. If your opponent's Active Pokemon is a Pokemon V, this attack does 80 more damage."@,
                effect_id: None,
            }
        ],
        abilities: Seq::empty(),
        provides_energy: None,
        damage_modifier: None,
        retreat_modifier: None,
    }
}

/// Definition number 29 of the registry.
pub open spec fn preset_def_29() -> CardDefView {
    CardDefView {
        id: "CS6.5C"@ + seq!['_'] + "020"@,
        name: "Radiant Greninja"@,
        name_en: "Radiant Greninja"@,
        set_code: "CS6.5C"@,
        card_type: CardType::Pokemon,
        stage: Some(Stage::Basic), hp: Some(130), energy_type: Some(EnergyType::Water),
        weakness: Some(TypeMultiplier { energy_type: EnergyType::Lightning, multiplier: 2i32 }),
        resistance: Some(TypeMultiplier { energy_type: EnergyType::Fighting, multiplier: -30i32 }),
        retreat_cost: Some(1), mechanic: Some(Mechanic::Radiant),
        attacks: seq![AttackView { name: "Moonlight Shuriken"@, cost: seq![EnergyType::Water, EnergyType::Water, EnergyType::Colorless], damage: 90, text: "90 to 2 Pokemon."@, effect_id: Some("attack_bench_snipe_double_90"@) }],
        abilities: seq![AbilityView { name: "Concealed Cards"@, text: "Discard Energy to draw 2."@, effect_id: "ability_concealed_cards"@ }],
        provides_energy: None, damage_modifier: None, retreat_modifier: None,
    }
}

/// Definition number 30 of the registry.
pub open spec fn preset_def_30() -> CardDefView {
    CardDefView {
        id: "CS5.5C"@ + seq!['_'] + "032"@,
        name: "Duskull"@, name_en: "Duskull"@, set_code: "CS5.5C"@,
        card_type: CardType::Pokemon, stage: Some(Stage::Basic), hp: Some(70), energy_type: Some(EnergyType::Psychic),
        weakness: Some(TypeMultiplier { energy_type: EnergyType::Darkness, multiplier: 2i32 }),
        resistance: Some(TypeMultiplier { energy_type: EnergyType::Fighting, multiplier: -30i32 }),
        retreat_cost: Some(1), mechanic: None,
        attacks: Seq::empty(), abilities: Seq::empty(), provides_energy: None, damage_modifier: None, retreat_modifier: None,
    }
}

/// Definition number 31 of the registry.
pub open spec fn preset_def_31() -> CardDefView {
    CardDefView {
        id: "CS5.5C"@ + seq!['_'] + "060"@,
        name: "Hisuian Heavy Ball"@, name_en: "Hisuian Heavy Ball"@, set_code: "CS5.5C"@,
        card_type: CardType::Item, stage: None, hp: None, energy_type: None, weakness: None, resistance: None,
        retreat_cost: None, mechanic: None, attacks: Seq::empty(), abilities: Seq::empty(), provides_energy: None, damage_modifier: None, retreat_modifier: None,
    }
}

/// Definition number 32 of the registry.
pub open spec fn preset_def_32() -> CardDefView {
    CardDefView {
        id: "CS6.5C"@ + seq!['_'] + "071"@,
        name: "Collapsed Stadium"@, name_en: "Collapsed Stadium"@, set_code: "CS6.5C"@,
        card_type: CardType::Stadium, stage: None, hp: None, energy_type: None, weakness: None, resistance: None,
        retreat_cost: None, mechanic: None, attacks: Seq::empty(), abilities: Seq::empty(), provides_energy: None, damage_modifier: None, retreat_modifier: None,
    }
}

/// Definition number 33 of the registry.
pub open spec fn preset_def_33() -> CardDefView {
    CardDefView {
        id: "CSV5C"@ + seq!['_'] + "075"@,
        name: "Charizard ex"@,
        name_en: "Charizard ex"@,
        set_code: "CSV5C"@,
        card_type: CardType::Pokemon,
        stage: Some(Stage::Stage2),
        hp: Some(330),
        energy_type: Some(EnergyType::Fire),
        weakness: Some(TypeMultiplier { energy_type: EnergyType::Water, multiplier: 2i32 }),
        resistance: None,
        retreat_cost: Some(2),
        mechanic: Some(Mechanic::Ex),
        attacks: seq![
            AttackView {
                name: "Scorching Darkness"@,
                cost: seq![EnergyType::Fire, EnergyType::Fire, EnergyType::Colorless, EnergyType::Colorless],
                damage: 180,
                text: "180+ damage. If your opponent has 3 or fewer Prize Cards remaining, this attack does 180 more damage (for each of their remaining Prize Cards, add 30 more damage)."@,
                effect_id: Some("attack_prize_count_damage"@),
            }
        ],
        abilities: seq![
            AbilityView {
                name: "Infernal Reign"@,
                text: "When you evolve this Pokemon during your turn, you may search your deck for up to 3 Fire Energy cards and attach them to your Pokemon in any way you like."@,
                effect_id: "ability_infernal_reign"@,
            }
        ],
        provides_energy: None,
        damage_modifier: None,
        retreat_modifier: None,
    }
}

/// Definition number 34 of the registry.
pub open spec fn preset_def_34() -> CardDefView {
    CardDefView {
        id: "CSV6C"@ + seq!['_'] + "023"@,
        name: "Rotom V"@, name_en: "Rotom V"@, set_code: "CSV6C"@,
        card_type: CardType::Pokemon, stage: Some(Stage::Basic), hp: Some(160), energy_type: Some(EnergyType::Psychic),
        weakness: Some(TypeMultiplier { energy_type: EnergyType::Darkness, multiplier: 2i32 }),
        resistance: Some(TypeMultiplier { energy_type: EnergyType::Fighting, multiplier: -30i32 }),
        retreat_cost: Some(1), mechanic: Some(Mechanic::V),
        attacks: Seq::empty(), abilities: Seq::empty(), provides_energy: None, damage_modifier: None, retreat_modifier: None,
    }
}

/// Definition number 35 of the registry.
pub open spec fn preset_def_35() -> CardDefView {
    CardDefView {
        id: "CSV6C"@ + seq!['_'] + "042"@, name: "Iron Bundle"@, name_en: "Iron Bundle"@,
        set_code: "CSV6C"@, card_type: CardType::Pokemon, stage: Some(Stage::Basic),
        hp: Some(100), energy_type: Some(EnergyType::Water), weakness: Some(TypeMultiplier { energy_type: EnergyType::Lightning, multiplier: 2i32 }),
        resistance: None, retreat_cost: Some(1), mechanic: None,
        attacks: seq![AttackView { name: "Refrigerated Stream"@, cost: seq![EnergyType::Water, EnergyType::Colorless, EnergyType::Colorless], damage: 80, text: ""@, effect_id: None }],
        abilities: seq![AbilityView { name: "Blower"@, effect_id: "ability_iron_bundle_blower"@, text: "If on bench, switch opponent active with bench"@ }],
        provides_energy: None, damage_modifier: None, retreat_modifier: None,
    }
}

/// Definition number 36 of the registry.
pub open spec fn preset_def_36() -> CardDefView {
    CardDefView {
        id: "CSV6C"@ + seq!['_'] + "051"@,
        name: "Iron Hands ex"@,
        name_en: "Iron Hands ex"@,
        set_code: "CSV6C"@,
        card_type: CardType::Pokemon,
        stage: Some(Stage::Basic),
        hp: Some(230),
        energy_type: Some(EnergyType::Lightning),
        weakness: Some(TypeMultiplier { energy_type: EnergyType::Fighting, multiplier: 2i32 }),
        resistance: Some(TypeMultiplier { energy_type: EnergyType::Fighting, multiplier: -30i32 }),
        retreat_cost: Some(2),
        mechanic: Some(Mechanic::Ex),
        attacks: seq![
            AttackView {
                name: "Double Impact"@,
                cost: seq![EnergyType::Lightning, EnergyType::Lightning, EnergyType::Colorless, EnergyType::Colorless],
                damage: 120,
                text: "120 damage. Does 30 damage to 1 of your opponent's Benched Pokemon."@,
                effect_id: Some("attack_bench_snipe_30"@),
            }
        ],
        abilities: Seq::empty(),
        provides_energy: None,
        damage_modifier: None,
        retreat_modifier: None,
    }
}

/// Definition number 37 of the registry.
pub open spec fn preset_def_37() -> CardDefView {
    CardDefView {
        id: "CSV6C"@ + seq!['_'] + "060"@,
        name: "Earthen Vessel"@, name_en: "Earthen Vessel"@, set_code: "CSV6C"@,
        card_type: CardType::Item, stage: None, hp: None, energy_type: None, weakness: None, resistance: None,
        retreat_cost: None, mechanic: None, attacks: Seq::empty(), abilities: Seq::empty(), provides_energy: None, damage_modifier: None, retreat_modifier: None,
    }
}

/// Definition number 38 of the registry.
pub open spec fn preset_def_38() -> CardDefView {
    CardDefView {
        id: "CSV6C"@ + seq!['_'] + "096"@, name: "Roaring Moon ex"@, name_en: "Roaring Moon ex"@,
        set_code: "CSV6C"@, card_type: CardType::Pokemon, stage: Some(Stage::Basic),
        hp: Some(230), energy_type: Some(EnergyType::Darkness), weakness: Some(TypeMultiplier { energy_type: EnergyType::Grass, multiplier: 2i32 }),
        resistance: None, retreat_cost: Some(2), mechanic: None,
        attacks: seq![
            AttackView { name: "Calamity Storm"@, cost: seq![EnergyType::Darkness, EnergyType::Darkness, EnergyType::Colorless], damage: 200, text: ""@, effect_id: Some("attack_discard_stadium_bonus"@) },
        ], abilities: Seq::empty(), provides_energy: None, damage_modifier: None, retreat_modifier: None,
    }
}

/// Definition number 39 of the registry.
pub open spec fn preset_def_39() -> CardDefView {
    CardDefView {
        id: "CSV6C"@ + seq!['_'] + "114"@,
        name: "Counter Catcher"@, name_en: "Counter Catcher"@, set_code: "CSV6C"@,
        card_type: CardType::Item, stage: None, hp: None, energy_type: None, weakness: None, resistance: None,
        retreat_cost: None, mechanic: None, attacks: Seq::empty(), abilities: Seq::empty(), provides_energy: None, damage_modifier: None, retreat_modifier: None,
    }
}

/// Definition number 40 of the registry.
pub open spec fn preset_def_40() -> CardDefView {
    CardDefView {
        id: "CSV6C"@ + seq!['_'] + "116"@, name: "Techno Radar"@, name_en: "Techno Radar"@,
        set_code: "CSV6C"@, card_type: CardType::Item, stage: None, hp: None, energy_type: None,
        weakness: None, resistance: None, retreat_cost: None, mechanic: None, attacks: Seq::empty(), abilities: Seq::empty(),
        provides_energy: None, damage_modifier: None, retreat_modifier: None,
    }
}

/// Definition number 41 of the registry.
pub open spec fn preset_def_41() -> CardDefView {
    CardDefView {
        id: "CSV6C"@ + seq!['_'] + "119"@, name: "Future Booster Energy Capsule"@, name_en: "Future Booster Energy Capsule"@,
        set_code: "CSV6C"@, card_type: CardType::Tool, stage: None, hp: None, energy_type: None,
        weakness: None, resistance: None, retreat_cost: None, mechanic: None, attacks: Seq::empty(), abilities: Seq::empty(),
        provides_energy: None, damage_modifier: None, retreat_modifier: Some(0i8),
    }
}

/// Definition number 42 of the registry.
pub open spec fn preset_def_42() -> CardDefView {
    CardDefView {
        id: "CSV6C"@ + seq!['_'] + "121"@, name: "Professor Sada's Vitality"@, name_en: "Professor Sada's Vitality"@,
        set_code: "CSV6C"@, card_type: CardType::Supporter, stage: None, hp: None, energy_type: None,
        weakness: None, resistance: None, retreat_cost: None, mechanic: None, attacks: Seq::empty(), abilities: Seq::empty(),
        provides_energy: None, damage_modifier: None, retreat_modifier: None,
    }
}

/// Definition number 43 of the registry.
pub open spec fn preset_def_43() -> CardDefView {
    CardDefView {
        id: "CSV6C"@ + seq!['_'] + "125"@,
        name: "Professor Turo's Scenario"@, name_en: "Professor Turo's Scenario"@, set_code: "CSV6C"@,
        card_type: CardType::Supporter, stage: None, hp: None, energy_type: None, weakness: None, resistance: None,
        retreat_cost: None, mechanic: None, attacks: Seq::empty(), abilities: Seq::empty(), provides_energy: None, damage_modifier: None, retreat_modifier: None,
    }
}

/// Definition number 44 of the registry.
pub open spec fn preset_def_44() -> CardDefView {
    CardDefView {
        id: "CSV7C"@ + seq!['_'] + "033"@, name: "Iron Leaves ex"@, name_en: "Iron Leaves ex"@,
        set_code: "CSV7C"@, card_type: CardType::Pokemon, stage: Some(Stage::Basic),
        hp: Some(220), energy_type: Some(EnergyType::Grass), weakness: Some(TypeMultiplier { energy_type: EnergyType::Fire, multiplier: 2i32 }),
        resistance: None, retreat_cost: Some(1), mechanic: Some(Mechanic::Ex),
        attacks: seq![AttackView { name: "Prism Blade"@, cost: seq![EnergyType::Grass, EnergyType::Grass, EnergyType::Colorless], damage: 180, text: ""@, effect_id: None }],
        abilities: seq![AbilityView { name: "Quick Draw"@, effect_id: "ability_quick_draw"@, text: "When played to bench, switch with active and move energy"@ }],
        provides_energy: None, damage_modifier: None, retreat_modifier: None,
    }
}

/// Definition number 45 of the registry.
pub open spec fn preset_def_45() -> CardDefView {
    CardDefView {
        id: "CSV7C"@ + seq!['_'] + "051"@, name: "Gouging Fire ex"@, name_en: "Gouging Fire ex"@,
        set_code: "CSV7C"@, card_type: CardType::Pokemon, stage: Some(Stage::Basic),
        hp: Some(230), energy_type: Some(EnergyType::Fire), weakness: Some(TypeMultiplier { energy_type: EnergyType::Water, multiplier: 2i32 }),
        resistance: None, retreat_cost: Some(2), mechanic: None,
        attacks: seq![
            AttackView { name: "Burning Overrun"@, cost: seq![EnergyType::Fire, EnergyType::Colorless], damage: 60, text: ""@, effect_id: None },
            AttackView { name: "Magma Blast"@, cost: seq![EnergyType::Fire, EnergyType::Fire, EnergyType::Colorless, EnergyType::Colorless], damage: 220, text: "Discard 1 Energy"@, effect_id: Some("attack_discard_energy_from_self"@) },
        ], abilities: Seq::empty(), provides_energy: None, damage_modifier: None, retreat_modifier: None,
    }
}

/// Definition number 46 of the registry.
pub open spec fn preset_def_46() -> CardDefView {
    CardDefView {
        id: "CSV7C"@ + seq!['_'] + "066"@,
        name: "Forest Seal Stone"@, name_en: "Forest Seal Stone"@, set_code: "CSV7C"@,
        card_type: CardType::Tool, stage: None, hp: None, energy_type: None, weakness: None, resistance: None,
        retreat_cost: None, mechanic: None, attacks: Seq::empty(), abilities: seq![
            AbilityView { name: "Star Alchemy"@, effect_id: "tool_star_alchemy"@, text: "Search deck for any 1 card"@ }
        ], provides_energy: None, damage_modifier: None, retreat_modifier: None,
    }
}

/// Definition number 47 of the registry.
pub open spec fn preset_def_47() -> CardDefView {
    CardDefView {
        id: "CSV7C"@ + seq!['_'] + "109"@,
        name: "Flutter Mane"@, name_en: "Flutter Mane"@, set_code: "CSV7C"@,
        card_type: CardType::Pokemon, stage: Some(Stage::Basic), hp: Some(110), energy_type: Some(EnergyType::Psychic),
        weakness: Some(TypeMultiplier { energy_type: EnergyType::Darkness, multiplier: 2i32 }),
        resistance: Some(TypeMultiplier { energy_type: EnergyType::Fighting, multiplier: -30i32 }),
        retreat_cost: Some(1), mechanic: None,
        attacks: Seq::empty(), abilities: Seq::empty(), provides_energy: None, damage_modifier: None, retreat_modifier: None,
    }
}

/// Definition number 48 of the registry.
pub open spec fn preset_def_48() -> CardDefView {
    CardDefView {
        id: "CSV7C"@ + seq!['_'] + "111"@, name: "Iron Crown ex"@, name_en: "Iron Crown ex"@,
        set_code: "CSV7C"@, card_type: CardType::Pokemon, stage: Some(Stage::Basic),
        hp: Some(220), energy_type: Some(EnergyType::Psychic), weakness: Some(TypeMultiplier { energy_type: EnergyType::Darkness, multiplier: 2i32 }),
        resistance: None, retreat_cost: Some(2), mechanic: Some(Mechanic::Ex),
        attacks: seq![AttackView { name: "Double Blade"@, cost: seq![EnergyType::Psychic, EnergyType::Colorless, EnergyType::Colorless], damage: 160, text: ""@, effect_id: None }],
        abilities: seq![AbilityView { name: "Azure Command"@, effect_id: "ability_azure_command"@, text: "Future Pokemon attacks +20 to opponent active"@ }],
        provides_energy: None, damage_modifier: None, retreat_modifier: None,
    }
}

/// Definition number 49 of the registry.
pub open spec fn preset_def_49() -> CardDefView {
    CardDefView {
        id: "CSV7C"@ + seq!['_'] + "153"@, name: "Miraidon"@, name_en: "Miraidon"@,
        set_code: "CSV7C"@, card_type: CardType::Pokemon, stage: Some(Stage::Basic),
        hp: Some(110), energy_type: Some(EnergyType::Lightning), weakness: Some(TypeMultiplier { energy_type: EnergyType::Fighting, multiplier: 2i32 }),
        resistance: None, retreat_cost: Some(2), mechanic: None,
        attacks: seq![
            AttackView { name: "Peak Acceleration"@, cost: seq![EnergyType::Colorless], damage: 40, text: ""@, effect_id: None },
            AttackView { name: "Electric Spark"@, cost: seq![EnergyType::Lightning, EnergyType::Lightning, EnergyType::Psychic], damage: 160, text: ""@, effect_id: None },
        ], abilities: Seq::empty(), provides_energy: None, damage_modifier: None, retreat_modifier: None,
    }
}

/// Definition number 50 of the registry.
pub open spec fn preset_def_50() -> CardDefView {
    CardDefView {
        id: "CSV7C"@ + seq!['_'] + "177"@,
        name: "Buddy-Buddy Poffin"@, name_en: "Buddy-Buddy Poffin"@, set_code: "CSV7C"@,
        card_type: CardType::Item, stage: None, hp: None, energy_type: None, weakness: None, resistance: None,
        retreat_cost: None, mechanic: None, attacks: Seq::empty(), abilities: Seq::empty(), provides_energy: None, damage_modifier: None, retreat_modifier: None,
    }
}

/// Definition number 51 of the registry.
pub open spec fn preset_def_51() -> CardDefView {
    CardDefView {
        id: "CSV7C"@ + seq!['_'] + "180"@, name: "Prime Catcher"@, name_en: "Prime Catcher"@,
        set_code: "CSV7C"@, card_type: CardType::Item, stage: None, hp: None, energy_type: None,
        weakness: None, resistance: None, retreat_cost: None, mechanic: None, attacks: Seq::empty(), abilities: Seq::empty(),
        provides_energy: None, damage_modifier: None, retreat_modifier: None,
    }
}

/// Definition number 52 of the registry.
pub open spec fn preset_def_52() -> CardDefView {
    CardDefView {
        id: "CSV7C"@ + seq!['_'] + "185"@,
        name: "Rescue Board"@, name_en: "Rescue Board"@, set_code: "CSV7C"@,
        card_type: CardType::Tool, stage: None, hp: None, energy_type: None, weakness: None, resistance: None,
        retreat_cost: None, mechanic: None, attacks: Seq::empty(), abilities: Seq::empty(), provides_energy: None, damage_modifier: None, retreat_modifier: None,
    }
}

/// Definition number 53 of the registry.
pub open spec fn preset_def_53() -> CardDefView {
    CardDefView {
        id: "CSV7C"@ + seq!['_'] + "188"@,
        name: "Heavy Baton"@, name_en: "Heavy Baton"@, set_code: "CSV7C"@,
        card_type: CardType::Tool, stage: None, hp: None, energy_type: None, weakness: None, resistance: None,
        retreat_cost: None, mechanic: None, attacks: Seq::empty(), abilities: Seq::empty(), provides_energy: None,
        damage_modifier: None, retreat_modifier: None,
    }
}

/// Definition number 54 of the registry.
pub open spec fn preset_def_54() -> CardDefView {
    CardDefView {
        id: "CSV7C"@ + seq!['_'] + "191"@,
        name: "Ciphermaniac's Codebreaking"@, name_en: "Ciphermaniac's Codebreaking"@, set_code: "CSV7C"@,
        card_type: CardType::Supporter, stage: None, hp: None, energy_type: None, weakness: None, resistance: None,
        retreat_cost: None, mechanic: None, attacks: Seq::empty(), abilities: Seq::empty(), provides_energy: None, damage_modifier: None, retreat_modifier: None,
    }
}

/// Definition number 55 of the registry.
pub open spec fn preset_def_55() -> CardDefView {
    CardDefView {
        id: "CSV7C"@ + seq!['_'] + "201"@,
        name: "Gravity Mountain"@, name_en: "Gravity Mountain"@, set_code: "CSV7C"@,
        card_type: CardType::Stadium, stage: None, hp: None, energy_type: None, weakness: None, resistance: None,
        retreat_cost: None, mechanic: None, attacks: Seq::empty(), abilities: Seq::empty(), provides_energy: None, damage_modifier: None, retreat_modifier: None,
    }
}

/// Definition number 56 of the registry.
pub open spec fn preset_def_56() -> CardDefView {
    CardDefView {
        id: "CSV8C"@ + seq!['_'] + "065"@,
        name: "Scream Tail"@, name_en: "Scream Tail"@, set_code: "CSV8C"@,
        card_type: CardType::Pokemon, stage: Some(Stage::Basic), hp: Some(110), energy_type: Some(EnergyType::Psychic),
        weakness: Some(TypeMultiplier { energy_type: EnergyType::Darkness, multiplier: 2i32 }),
        resistance: Some(TypeMultiplier { energy_type: EnergyType::Fighting, multiplier: -30i32 }),
        retreat_cost: Some(2), mechanic: None,
        attacks: Seq::empty(), abilities: Seq::empty(), provides_energy: None, damage_modifier: None, retreat_modifier: None,
    }
}

/// Definition number 57 of the registry.
pub open spec fn preset_def_57() -> CardDefView {
    CardDefView {
        id: "CSV8C"@ + seq!['_'] + "082"@,
        name: "Dusclops"@, name_en: "Dusclops"@, set_code: "CSV8C"@,
        card_type: CardType::Pokemon, stage: Some(Stage::Stage1), hp: Some(120), energy_type: Some(EnergyType::Psychic),
        weakness: Some(TypeMultiplier { energy_type: EnergyType::Darkness, multiplier: 2i32 }),
        resistance: Some(TypeMultiplier { energy_type: EnergyType::Fighting, multiplier: -30i32 }),
        retreat_cost: Some(3), mechanic: None,
        attacks: Seq::empty(), abilities: Seq::empty(), provides_energy: None, damage_modifier: None, retreat_modifier: None,
    }
}

/// Definition number 58 of the registry.
pub open spec fn preset_def_58() -> CardDefView {
    CardDefView {
        id: "CSV8C"@ + seq!['_'] + "083"@,
        name: "Dusknoir"@, name_en: "Dusknoir"@, set_code: "CSV8C"@,
        card_type: CardType::Pokemon, stage: Some(Stage::Stage2), hp: Some(150), energy_type: Some(EnergyType::Psychic),
        weakness: Some(TypeMultiplier { energy_type: EnergyType::Darkness, multiplier: 2i32 }),
        resistance: Some(TypeMultiplier { energy_type: EnergyType::Fighting, multiplier: -30i32 }),
        retreat_cost: Some(3), mechanic: None,
        attacks: Seq::empty(), abilities: Seq::empty(), provides_energy: None, damage_modifier: None, retreat_modifier: None,
    }
}

/// Definition number 59 of the registry.
pub open spec fn preset_def_59() -> CardDefView {
    CardDefView {
        id: "CSV8C"@ + seq!['_'] + "094"@,
        name: "Munkidori"@, name_en: "Munkidori"@, set_code: "CSV8C"@,
        card_type: CardType::Pokemon, stage: Some(Stage::Basic), hp: Some(120), energy_type: Some(EnergyType::Psychic),
        weakness: Some(TypeMultiplier { energy_type: EnergyType::Darkness, multiplier: 2i32 }),
        resistance: Some(TypeMultiplier { energy_type: EnergyType::Fighting, multiplier: -30i32 }),
        retreat_cost: Some(2), mechanic: None,
        attacks: Seq::empty(), abilities: Seq::empty(), provides_energy: None, damage_modifier: None, retreat_modifier: None,
    }
}

/// Definition number 60 of the registry.
pub open spec fn preset_def_60() -> CardDefView {
    CardDefView {
        id: "CSV8C"@ + seq!['_'] + "135"@,
        name: "Fezandipiti ex"@, name_en: "Fezandipiti ex"@, set_code: "CSV8C"@,
        card_type: CardType::Pokemon, stage: Some(Stage::Basic), hp: Some(220), energy_type: Some(EnergyType::Psychic),
        weakness: Some(TypeMultiplier { energy_type: EnergyType::Darkness, multiplier: 2i32 }),
        resistance: Some(TypeMultiplier { energy_type: EnergyType::Fighting, multiplier: -30i32 }),
        retreat_cost: Some(2), mechanic: Some(Mechanic::Ex),
        attacks: Seq::empty(), abilities: Seq::empty(), provides_energy: None, damage_modifier: None, retreat_modifier: None,
    }
}

/// Definition number 61 of the registry.
pub open spec fn preset_def_61() -> CardDefView {
    CardDefView {
        id: "CSV8C"@ + seq!['_'] + "172"@,
        name: "Bloodmoon Ursaluna ex"@, name_en: "Bloodmoon Ursaluna ex"@, set_code: "CSV8C"@,
        card_type: CardType::Pokemon, stage: Some(Stage::Basic), hp: Some(220), energy_type: Some(EnergyType::Darkness),
        weakness: Some(TypeMultiplier { energy_type: EnergyType::Grass, multiplier: 2i32 }),
        resistance: Some(TypeMultiplier { energy_type: EnergyType::Psychic, multiplier: -30i32 }),
        retreat_cost: Some(2), mechanic: Some(Mechanic::Ex),
        attacks: Seq::empty(), abilities: Seq::empty(), provides_energy: None, damage_modifier: None, retreat_modifier: None,
    }
}

/// Definition number 62 of the registry.
pub open spec fn preset_def_62() -> CardDefView {
    CardDefView {
        id: "CSV8C"@ + seq!['_'] + "173"@,
        name: "Unfair Stamp"@, name_en: "Unfair Stamp"@, set_code: "CSV8C"@,
        card_type: CardType::Item, stage: None, hp: None, energy_type: None, weakness: None, resistance: None,
        retreat_cost: None, mechanic: None, attacks: Seq::empty(), abilities: Seq::empty(), provides_energy: None, damage_modifier: None, retreat_modifier: None,
    }
}

/// Definition number 63 of the registry.
pub open spec fn preset_def_63() -> CardDefView {
    CardDefView {
        id: "CSV8C"@ + seq!['_'] + "176"@,
        name: "Secret Box"@, name_en: "Secret Box"@, set_code: "CSV8C"@,
        card_type: CardType::Item, stage: None, hp: None, energy_type: None, weakness: None, resistance: None,
        retreat_cost: None, mechanic: None, attacks: Seq::empty(), abilities: Seq::empty(), provides_energy: None, damage_modifier: None, retreat_modifier: None,
    }
}

/// Definition number 64 of the registry.
pub open spec fn preset_def_64() -> CardDefView {
    CardDefView {
        id: "CSV8C"@ + seq!['_'] + "183"@,
        name: "Night Stretcher"@, name_en: "Night Stretcher"@, set_code: "CSV8C"@,
        card_type: CardType::Item, stage: None, hp: None, energy_type: None, weakness: None, resistance: None,
        retreat_cost: None, mechanic: None, attacks: Seq::empty(), abilities: Seq::empty(), provides_energy: None, damage_modifier: None, retreat_modifier: None,
    }
}

/// Definition number 65 of the registry.
pub open spec fn preset_def_65() -> CardDefView {
    CardDefView {
        id: "CS5DC"@ + seq!['_'] + "116"@,
        name: "Switch Cart"@, name_en: "Switch Cart"@, set_code: "CS5DC"@,
        card_type: CardType::Item, stage: None, hp: None, energy_type: None, weakness: None, resistance: None,
        retreat_cost: None, mechanic: None, attacks: Seq::empty(), abilities: Seq::empty(), provides_energy: None, damage_modifier: None, retreat_modifier: None,
    }
}

/// Definition number 66 of the registry.
pub open spec fn preset_def_66() -> CardDefView {
    CardDefView {
        id: "CS5DC"@ + seq!['_'] + "126"@, name: "Dark Patch"@, name_en: "Dark Patch"@,
        set_code: "CS5DC"@, card_type: CardType::Item, stage: None, hp: None, energy_type: None,
        weakness: None, resistance: None, retreat_cost: None, mechanic: None, attacks: Seq::empty(), abilities: Seq::empty(),
        provides_energy: None, damage_modifier: None, retreat_modifier: None,
    }
}

/// Definition number 67 of the registry.
pub open spec fn preset_def_67() -> CardDefView {
    CardDefView {
        id: "CS5DC"@ + seq!['_'] + "140"@,
        name: "Cyllene"@, name_en: "Cyllene"@, set_code: "CS5DC"@,
        card_type: CardType::Supporter, stage: None, hp: None, energy_type: None, weakness: None, resistance: None,
        retreat_cost: None, mechanic: None, attacks: Seq::empty(), abilities: Seq::empty(), provides_energy: None, damage_modifier: None, retreat_modifier: None,
    }
}

/// Definition number 68 of the registry.
pub open spec fn preset_def_68() -> CardDefView {
    CardDefView {
        id: "CS5DC"@ + seq!['_'] + "152"@, name: "Magma Basin"@, name_en: "Magma Basin"@,
        set_code: "CS5DC"@, card_type: CardType::Stadium, stage: None, hp: None, energy_type: None,
        weakness: None, resistance: None, retreat_cost: None, mechanic: None, attacks: Seq::empty(), abilities: Seq::empty(),
        provides_energy: None, damage_modifier: None, retreat_modifier: None,
    }
}

/// Definition number 69 of the registry.
pub open spec fn preset_def_69() -> CardDefView {
    CardDefView {
        id: "CSNC"@ + seq!['_'] + "024"@,
        name: "Double Turbo Energy"@,
        name_en: "Double Turbo Energy"@,
        set_code: "CSNC"@,
        card_type: CardType::SpecialEnergy,
        stage: None,
        hp: None,
        energy_type: Some(EnergyType::Colorless),
        weakness: None,
        resistance: None,
        retreat_cost: None,
        mechanic: None,
        attacks: Seq::empty(),
        abilities: Seq::empty(),
        provides_energy: Some(seq![EnergyType::Colorless, EnergyType::Colorless]),
        damage_modifier: Some(-20i32),
        retreat_modifier: None,
    }
}

/// Definition number 70 of the registry.
pub open spec fn preset_def_70() -> CardDefView {
    CardDefView {
        id: "CS5aC"@ + seq!['_'] + "006"@, name: "Moltres"@, name_en: "Moltres"@,
        set_code: "CS5aC"@, card_type: CardType::Pokemon, stage: Some(Stage::Basic),
        hp: Some(120), energy_type: Some(EnergyType::Fire), weakness: Some(TypeMultiplier { energy_type: EnergyType::Lightning, multiplier: 2i32 }),
        resistance: Some(TypeMultiplier { energy_type: EnergyType::Fighting, multiplier: -30i32 }), retreat_cost: Some(1), mechanic: None,
        attacks: seq![
            AttackView { name: "Flare"@, cost: seq![EnergyType::Fire, EnergyType::Colorless], damage: 50, text: ""@, effect_id: None },
        ], abilities: Seq::empty(), provides_energy: None, damage_modifier: None, retreat_modifier: None,
    }
}

/// Definition number 71 of the registry.
pub open spec fn preset_def_71() -> CardDefView {
    CardDefView {
        id: "CSVH1aC"@ + seq!['_'] + "008"@, name: "Energy Switch"@, name_en: "Energy Switch"@,
        set_code: "CSVH1aC"@, card_type: CardType::Item, stage: None, hp: None, energy_type: None,
        weakness: None, resistance: None, retreat_cost: None, mechanic: None, attacks: Seq::empty(), abilities: Seq::empty(),
        provides_energy: None, damage_modifier: None, retreat_modifier: None,
    }
}

/// Definition number 72 of the registry.
pub open spec fn preset_def_72() -> CardDefView {
    CardDefView {
        id: "CS5aC"@ + seq!['_'] + "019"@,
        name: "Raichu V"@, name_en: "Raichu V"@, set_code: "CS5aC"@,
        card_type: CardType::Pokemon, stage: Some(Stage::Basic), hp: Some(170), energy_type: Some(EnergyType::Lightning),
        weakness: Some(TypeMultiplier { energy_type: EnergyType::Fighting, multiplier: 2i32 }),
        resistance: Some(TypeMultiplier { energy_type: EnergyType::Fighting, multiplier: -30i32 }),
        retreat_cost: Some(2), mechanic: Some(Mechanic::V),
        attacks: Seq::empty(), abilities: Seq::empty(), provides_energy: None, damage_modifier: None, retreat_modifier: None,
    }
}

/// Definition number 73 of the registry.
pub open spec fn preset_def_73() -> CardDefView {
    CardDefView {
        id: "CSVH1aC"@ + seq!['_'] + "023"@,
        name: "Boss's Orders"@,
        name_en: "Boss's Orders"@,
        set_code: "CSVH1aC"@,
        card_type: CardType::Supporter,
        stage: None,
        hp: None,
        energy_type: None,
        weakness: None,
        resistance: None,
        retreat_cost: None,
        mechanic: None,
        attacks: Seq::empty(),
        abilities: Seq::empty(),
        provides_energy: None,
        damage_modifier: None,
        retreat_modifier: None,
    }
}

/// Definition number 74 of the registry.
pub open spec fn preset_def_74() -> CardDefView {
    CardDefView {
        id: "CS4DaC"@ + seq!['_'] + "056"@, name: "Entei V"@, name_en: "Entei V"@,
        set_code: "CS4DaC"@, card_type: CardType::Pokemon, stage: Some(Stage::Basic),
        hp: Some(220), energy_type: Some(EnergyType::Fire), weakness: Some(TypeMultiplier { energy_type: EnergyType::Water, multiplier: 2i32 }),
        resistance: None, retreat_cost: Some(2), mechanic: Some(Mechanic::V),
        attacks: seq![
            AttackView { name: "Burning Arrow"@, cost: seq![EnergyType::Fire, EnergyType::Colorless, EnergyType::Colorless], damage: 160, text: ""@, effect_id: None },
        ], abilities: seq![
            AbilityView { name: "Burst Roar"@, effect_id: "ability_burst_roar"@, text: "Attach a Fire Energy from discard"@ },
        ], provides_energy: None, damage_modifier: None, retreat_modifier: None,
    }
}

/// Definition number 75 of the registry.
pub open spec fn preset_def_75() -> CardDefView {
    CardDefView {
        id: "CS6aC"@ + seq!['_'] + "057"@,
        name: "Zapdos"@, name_en: "Zapdos"@, set_code: "CS6aC"@,
        card_type: CardType::Pokemon, stage: Some(Stage::Basic), hp: Some(120), energy_type: Some(EnergyType::Lightning),
        weakness: Some(TypeMultiplier { energy_type: EnergyType::Lightning, multiplier: 2i32 }),
        resistance: Some(TypeMultiplier { energy_type: EnergyType::Fighting, multiplier: -30i32 }),
        retreat_cost: Some(1), mechanic: None,
        attacks: seq![AttackView { name: "Quick Strike"@, cost: seq![EnergyType::Lightning, EnergyType::Colorless], damage: 70, text: "70 damage."@, effect_id: None }],
        abilities: Seq::empty(), provides_energy: None, damage_modifier: None, retreat_modifier: None,
    }
}

/// Definition number 76 of the registry.
pub open spec fn preset_def_76() -> CardDefView {
    CardDefView {
        id: "CS6aC"@ + seq!['_'] + "127"@,
        name: "Thorton"@, name_en: "Thorton"@, set_code: "CS6aC"@,
        card_type: CardType::Supporter, stage: None, hp: None, energy_type: None, weakness: None, resistance: None,
        retreat_cost: None, mechanic: None, attacks: Seq::empty(), abilities: Seq::empty(), provides_energy: None, damage_modifier: None, retreat_modifier: None,
    }
}

/// Definition number 77 of the registry.
pub open spec fn preset_def_77() -> CardDefView {
    CardDefView {
        id: "CS4DaC"@ + seq!['_'] + "137"@,
        name: "Raikou V"@, name_en: "Raikou V"@, set_code: "CS4DaC"@,
        card_type: CardType::Pokemon, stage: Some(Stage::Basic), hp: Some(170), energy_type: Some(EnergyType::Lightning),
        weakness: Some(TypeMultiplier { energy_type: EnergyType::Fighting, multiplier: 2i32 }),
        resistance: Some(TypeMultiplier { energy_type: EnergyType::Fighting, multiplier: -30i32 }),
        retreat_cost: Some(1), mechanic: Some(Mechanic::V),
        attacks: Seq::empty(), abilities: Seq::empty(), provides_energy: None, damage_modifier: None, retreat_modifier: None,
    }
}

/// Definition number 78 of the registry.
pub open spec fn preset_def_78() -> CardDefView {
    CardDefView {
        id: "CS5bC"@ + seq!['_'] + "049"@,
        name: "Lumineon V"@, name_en: "Lumineon V"@, set_code: "CS5bC"@,
        card_type: CardType::Pokemon, stage: Some(Stage::Basic), hp: Some(170), energy_type: Some(EnergyType::Water),
        weakness: Some(TypeMultiplier { energy_type: EnergyType::Lightning, multiplier: 2i32 }),
        resistance: Some(TypeMultiplier { energy_type: EnergyType::Fighting, multiplier: -30i32 }),
        retreat_cost: Some(2), mechanic: Some(Mechanic::V),
        attacks: Seq::empty(), abilities: Seq::empty(), provides_energy: None, damage_modifier: None, retreat_modifier: None,
    }
}

/// Definition number 79 of the registry.
pub open spec fn preset_def_79() -> CardDefView {
    CardDefView {
        id: "CS5bC"@ + seq!['_'] + "052"@,
        name: "Manaphy"@,
        name_en: "Manaphy"@,
        set_code: "CS5bC"@,
        card_type: CardType::Pokemon,
        stage: Some(Stage::Basic),
        hp: Some(70),
        energy_type: Some(EnergyType::Water),
        weakness: Some(TypeMultiplier { energy_type: EnergyType::Lightning, multiplier: 2i32 }),
        resistance: Some(TypeMultiplier { energy_type: EnergyType::Fighting, multiplier: -30i32 }),
        retreat_cost: Some(1),
        mechanic: None,
        attacks: Seq::empty(),
        abilities: seq![
            AbilityView {
                name: "Awaken"@,
                text: "Prevent all damage done to your Benched Pokemon by attacks."@,
                effect_id: "ability_awaken"@,
            }
        ],
        provides_energy: None,
        damage_modifier: None,
        retreat_modifier: None,
    }
}

/// Definition number 80 of the registry.
pub open spec fn preset_def_80() -> CardDefView {
    CardDefView {
        id: "CSV6bC"@ + seq!['_'] + "123"@,
        name: "Lost Vacuum"@, name_en: "Lost Vacuum"@, set_code: "CSV6bC"@,
        card_type: CardType::Item, stage: None, hp: None, energy_type: None, weakness: None, resistance: None,
        retreat_cost: None, mechanic: None, attacks: Seq::empty(), abilities: Seq::empty(), provides_energy: None, damage_modifier: None, retreat_modifier: None,
    }
}

/// A number made of the length and the last six characters of an
/// identifier; it tells the preset identifiers apart.
pub open spec fn key_code(k: Seq<char>) -> int {
    k.len() + 16 * (k[k.len() - 1] as int + 128 * (k[k.len() - 2] as int + 128 * (k[k.len() - 3] as int + 128 * (
    k[k.len() - 4] as int + 128 * (k[k.len() - 5] as int + 128 * (k[k.len() - 6] as int))))))
}

/// Consecutive entries of `s` increase.
pub open spec fn steps_up(s: Seq<int>, k: int) -> bool {
    s[k] < s[k + 1]
}

proof fn lemma_increasing(s: Seq<int>, i: int, j: int)
    requires
        forall|k: int| 0 <= k < s.len() - 1 ==> #[trigger] steps_up(s, k),
        0 <= i < j < s.len(),
    ensures
        s[i] < s[j],
    decreases j - i,
{
    assert(steps_up(s, j - 1));
    if j > i + 1 {
        lemma_increasing(s, i, j - 1);
    }
}

proof fn lemma_codes_0()
    ensures
        key_code(preset_def_0().id) == 27228998042440,
        key_code(preset_def_1().id) == 27228998050617,
        key_code(preset_def_2().id) == 27228998050650,
        key_code(preset_def_3().id) == 27228998052617,
        key_code(preset_def_4().id) == 27228998054665,
        key_code(preset_def_5().id) == 27228998304633,
        key_code(preset_def_6().id) == 27228998304665,
        key_code(preset_def_7().id) == 27228998306585,
        key_code(preset_def_8().id) == 27228998306601,
{
    reveal_strlit("151C");
    reveal_strlit("004");
    reveal_strlit("CSV1C");
    reveal_strlit("043");
    reveal_strlit("CSVH1C");
    reveal_strlit("045");
    reveal_strlit("050");
    reveal_strlit("060");
    reveal_strlit("107");
    reveal_strlit("109");
    reveal_strlit("111");
    reveal_strlit("112");
}

fn preset_group_0() -> (v: Vec<CardDef>)
    ensures
        v@.len() == 9,
        v@[0]@ == preset_def_0(),
        v@[1]@ == preset_def_1(),
        v@[2]@ == preset_def_2(),
        v@[3]@ == preset_def_3(),
        v@[4]@ == preset_def_4(),
        v@[5]@ == preset_def_5(),
        v@[6]@ == preset_def_6(),
        v@[7]@ == preset_def_7(),
        v@[8]@ == preset_def_8(),
{
    let v = vec![
        CardDef {
            id: CardDefId::new("151C", "004"),
            name: String::from_str("Charmander"),
            name_en: String::from_str("Charmander"),
            set_code: String::from_str("151C"),
            card_type: CardType::Pokemon,
            stage: Some(Stage::Basic),
            hp: Some(70),
            energy_type: Some(EnergyType::Fire),
            weakness: Some(TypeMultiplier { energy_type: EnergyType::Water, multiplier: 2 }),
            resistance: None,
            retreat_cost: Some(1),
            mechanic: None,
            attacks: vec![
                Attack {
                    name: String::from_str("Ember"),
                    cost: vec![EnergyType::Fire, EnergyType::Colorless],
                    damage: 50,
                    text: String::from_str("50 damage. Discard 1 Energy from this Pokemon."),
                    effect_id: None,
                }
            ],
            abilities: vec![],
            provides_energy: None,
            damage_modifier: None,
            retreat_modifier: None,
        },
        CardDef {
            id: CardDefId::new("CSV1C", "043"),
            name: String::from_str("Nest Ball"),
            name_en: String::from_str("Nest Ball"),
            set_code: String::from_str("CSV1C"),
            card_type: CardType::Item,
            stage: None,
            hp: None,
            energy_type: None,
            weakness: None,
            resistance: None,
            retreat_cost: None,
            mechanic: None,
            attacks: vec![],
            abilities: vec![],
            provides_energy: None,
            damage_modifier: None,
            retreat_modifier: None,
        },
        CardDef {
            id: CardDefId::new("CSVH1C", "045"),
            name: String::from_str("Rare Candy"),
            name_en: String::from_str("Rare Candy"),
            set_code: String::from_str("CSVH1C"),
            card_type: CardType::Item,
            stage: None,
            hp: None,
            energy_type: None,
            weakness: None,
            resistance: None,
            retreat_cost: None,
            mechanic: None,
            attacks: vec![],
            abilities: vec![],
            provides_energy: None,
            damage_modifier: None,
            retreat_modifier: None,
        },
        CardDef {
            id: CardDefId::new("CSV1C", "050"),
            name: String::from_str("Miraidon ex"),
            name_en: String::from_str("Miraidon ex"),
            set_code: String::from_str("CSV1C"),
            card_type: CardType::Pokemon,
            stage: Some(Stage::Basic),
            hp: Some(220),
            energy_type: Some(EnergyType::Lightning),
            weakness: Some(TypeMultiplier { energy_type: EnergyType::Fighting, multiplier: 2 }),
            resistance: Some(TypeMultiplier { energy_type: EnergyType::Fighting, multiplier: -30 }),
            retreat_cost: Some(1),
            mechanic: Some(Mechanic::Ex),
            attacks: vec![
                Attack {
                    name: String::from_str("Photon Blaster"),
                    cost: vec![EnergyType::Lightning, EnergyType::Lightning, EnergyType::Colorless],
                    damage: 220,
                    text: String::from_str("220 damage. During your next turn, you can't use this attack."),
                    effect_id: Some(String::from_str("attack_self_lock_next_turn")),
                }
            ],
            abilities: vec![
                Ability {
                    name: String::from_str("Tandem Unit"),
                    text: String::from_str("Once during your turn, you may search your deck for up to 2 Basic Lightning Pokemon and put them on your Bench."),
                    effect_id: String::from_str("ability_tandem_unit"),
                }
            ],
            provides_energy: None,
            damage_modifier: None,
            retreat_modifier: None,
        },
        CardDef {
            id: CardDefId::new("CSV1C", "060"),
            name: String::from_str("Klefki"), name_en: String::from_str("Klefki"), set_code: String::from_str("CSV1C"),
            card_type: CardType::Pokemon, stage: Some(Stage::Basic), hp: Some(70), energy_type: Some(EnergyType::Psychic),
            weakness: Some(TypeMultiplier { energy_type: EnergyType::Darkness, multiplier: 2 }),
            resistance: Some(TypeMultiplier { energy_type: EnergyType::Fighting, multiplier: -30 }),
            retreat_cost: Some(1), mechanic: None,
            attacks: vec![], abilities: vec![], provides_energy: None, damage_modifier: None, retreat_modifier: None,
        },
        CardDef {
            id: CardDefId::new("CSV1C", "107"),
            name: String::from_str("Electric Generator"),
            name_en: String::from_str("Electric Generator"),
            set_code: String::from_str("CSV1C"),
            card_type: CardType::Item,
            stage: None,
            hp: None,
            energy_type: None,
            weakness: None,
            resistance: None,
            retreat_cost: None,
            mechanic: None,
            attacks: vec![],
            abilities: vec![],
            provides_energy: None,
            damage_modifier: None,
            retreat_modifier: None,
        },
        CardDef {
            id: CardDefId::new("CSV1C", "109"),
            name: String::from_str("Super Rod"), name_en: String::from_str("Super Rod"), set_code: String::from_str("CSV1C"),
            card_type: CardType::Item, stage: None, hp: None, energy_type: None, weakness: None, resistance: None,
            retreat_cost: None, mechanic: None, attacks: vec![], abilities: vec![], provides_energy: None, damage_modifier: None, retreat_modifier: None,
        },
        CardDef {
            id: CardDefId::new("CSV1C", "111"), name: String::from_str("Pal Pad"), name_en: String::from_str("Pal Pad"),
            set_code: String::from_str("CSV1C"), card_type: CardType::Item, stage: None, hp: None, energy_type: None,
            weakness: None, resistance: None, retreat_cost: None, mechanic: None, attacks: vec![], abilities: vec![],
            provides_energy: None, damage_modifier: None, retreat_modifier: None,
        },
        CardDef {
            id: CardDefId::new("CSV1C", "112"),
            name: String::from_str("Ultra Ball"),
            name_en: String::from_str("Ultra Ball"),
            set_code: String::from_str("CSV1C"),
            card_type: CardType::Item,
            stage: None,
            hp: None,
            energy_type: None,
            weakness: None,
            resistance: None,
            retreat_cost: None,
            mechanic: None,
            attacks: vec![],
            abilities: vec![],
            provides_energy: None,
            damage_modifier: None,
            retreat_modifier: None,
        }
    ];
    proof {
        assert(v@[0]@ =~~= preset_def_0());
        assert(v@[1]@ =~~= preset_def_1());
        assert(v@[2]@ =~~= preset_def_2());
        assert(v@[3]@ =~~= preset_def_3());
        assert(v@[4]@ =~~= preset_def_4());
        assert(v@[5]@ =~~= preset_def_5());
        assert(v@[6]@ =~~= preset_def_6());
        assert(v@[7]@ =~~= preset_def_7());
        assert(v@[8]@ =~~= preset_def_8());
    }
    v
}

proof fn lemma_codes_1()
    ensures
        key_code(preset_def_9().id) == 27228998306681,
        key_code(preset_def_10().id) == 27228998306697,
        key_code(preset_def_11().id) == 27228998308633,
        key_code(preset_def_12().id) == 27228998308665,
        key_code(preset_def_13().id) == 27228998314776,
        key_code(preset_def_14().id) == 27229003320618,
        key_code(preset_def_15().id) == 27229003861290,
        key_code(preset_def_16().id) == 27229004141594,
        key_code(preset_def_17().id) == 27229005433978,
{
    reveal_strlit("CSV1C");
    reveal_strlit("117");
    reveal_strlit("118");
    reveal_strlit("121");
    reveal_strlit("123");
    reveal_strlit("151C");
    reveal_strlit("151");
    reveal_strlit("CSVE1C");
    reveal_strlit("DAR");
    reveal_strlit("FIR");
    reveal_strlit("GRA");
    reveal_strlit("LIG");
}

fn preset_group_1() -> (v: Vec<CardDef>)
    ensures
        v@.len() == 9,
        v@[0]@ == preset_def_9(),
        v@[1]@ == preset_def_10(),
        v@[2]@ == preset_def_11(),
        v@[3]@ == preset_def_12(),
        v@[4]@ == preset_def_13(),
        v@[5]@ == preset_def_14(),
        v@[6]@ == preset_def_15(),
        v@[7]@ == preset_def_16(),
        v@[8]@ == preset_def_17(),
{
    let v = vec![
        CardDef {
            id: CardDefId::new("CSV1C", "117"),
            name: String::from_str("Defiance Band"), name_en: String::from_str("Defiance Band"), set_code: String::from_str("CSV1C"),
            card_type: CardType::Tool, stage: None, hp: None, energy_type: None, weakness: None, resistance: None,
            retreat_cost: None, mechanic: None, attacks: vec![], abilities: vec![], provides_energy: None, damage_modifier: None, retreat_modifier: None,
        },
        CardDef {
            id: CardDefId::new("CSV1C", "118"),
            name: String::from_str("Bravery Charm"), name_en: String::from_str("Bravery Charm"), set_code: String::from_str("CSV1C"),
            card_type: CardType::Tool, stage: None, hp: None, energy_type: None, weakness: None, resistance: None,
            retreat_cost: None, mechanic: None, attacks: vec![], abilities: vec![], provides_energy: None, damage_modifier: None, retreat_modifier: None,
        },
        CardDef {
            id: CardDefId::new("CSV1C", "121"), name: String::from_str("Professor's Research"), name_en: String::from_str("Professor's Research"),
            set_code: String::from_str("CSV1C"), card_type: CardType::Supporter, stage: None, hp: None, energy_type: None,
            weakness: None, resistance: None, retreat_cost: None, mechanic: None, attacks: vec![], abilities: vec![],
            provides_energy: None, damage_modifier: None, retreat_modifier: None,
        },
        CardDef {
            id: CardDefId::new("CSV1C", "123"),
            name: String::from_str("Arven"),
            name_en: String::from_str("Arven"),
            set_code: String::from_str("CSV1C"),
            card_type: CardType::Supporter,
            stage: None,
            hp: None,
            energy_type: None,
            weakness: None,
            resistance: None,
            retreat_cost: None,
            mechanic: None,
            attacks: vec![],
            abilities: vec![],
            provides_energy: None,
            damage_modifier: None,
            retreat_modifier: None,
        },
        CardDef {
            id: CardDefId::new("151C", "151"),
            name: String::from_str("Mew ex"), name_en: String::from_str("Mew ex"), set_code: String::from_str("151C"),
            card_type: CardType::Pokemon, stage: Some(Stage::Basic), hp: Some(180), energy_type: Some(EnergyType::Psychic),
            weakness: Some(TypeMultiplier { energy_type: EnergyType::Darkness, multiplier: 2 }),
            resistance: Some(TypeMultiplier { energy_type: EnergyType::Fighting, multiplier: -30 }),
            retreat_cost: Some(1), mechanic: Some(Mechanic::Ex),
            attacks: vec![], abilities: vec![Ability { name: String::from_str("Restart"), text: String::from_str("Redraw hand."), effect_id: String::from_str("ability_restart") }],
            provides_energy: None, damage_modifier: None, retreat_modifier: None,
        },
        CardDef {
            id: CardDefId::new("CSVE1C", "DAR"),
            name: String::from_str("Darkness Energy"),
            name_en: String::from_str("Darkness Energy"),
            set_code: String::from_str("CSVE1C"),
            card_type: CardType::BasicEnergy,
            stage: None,
            hp: None,
            energy_type: Some(EnergyType::Darkness),
            weakness: None,
            resistance: None,
            retreat_cost: None,
            mechanic: None,
            attacks: vec![],
            abilities: vec![],
            provides_energy: Some(vec![EnergyType::Darkness]),
            damage_modifier: None,
            retreat_modifier: None,
        },
        CardDef {
            id: CardDefId::new("CSVE1C", "FIR"),
            name: String::from_str("Fire Energy"),
            name_en: String::from_str("Fire Energy"),
            set_code: String::from_str("CSVE1C"),
            card_type: CardType::BasicEnergy,
            stage: None,
            hp: None,
            energy_type: Some(EnergyType::Fire),
            weakness: None,
            resistance: None,
            retreat_cost: None,
            mechanic: None,
            attacks: vec![],
            abilities: vec![],
            provides_energy: Some(vec![EnergyType::Fire]),
            damage_modifier: None,
            retreat_modifier: None,
        },
        CardDef {
            id: CardDefId::new("CSVE1C", "GRA"),
            name: String::from_str("Grass Energy"),
            name_en: String::from_str("Grass Energy"),
            set_code: String::from_str("CSVE1C"),
            card_type: CardType::BasicEnergy,
            stage: None,
            hp: None,
            energy_type: Some(EnergyType::Grass),
            weakness: None,
            resistance: None,
            retreat_cost: None,
            mechanic: None,
            attacks: vec![],
            abilities: vec![],
            provides_energy: Some(vec![EnergyType::Grass]),
            damage_modifier: None,
            retreat_modifier: None,
        },
        CardDef {
            id: CardDefId::new("CSVE1C", "LIG"),
            name: String::from_str("Lightning Energy"),
            name_en: String::from_str("Lightning Energy"),
            set_code: String::from_str("CSVE1C"),
            card_type: CardType::BasicEnergy,
            stage: None,
            hp: None,
            energy_type: Some(EnergyType::Lightning),
            weakness: None,
            resistance: None,
            retreat_cost: None,
            mechanic: None,
            attacks: vec![],
            abilities: vec![],
            provides_energy: Some(vec![EnergyType::Lightning]),
            damage_modifier: None,
            retreat_modifier: None,
        }
    ];
    proof {
        assert(v@[0]@ =~~= preset_def_9());
        assert(v@[1]@ =~~= preset_def_10());
        assert(v@[2]@ =~~= preset_def_11());
        assert(v@[3]@ =~~= preset_def_12());
        assert(v@[4]@ =~~= preset_def_13());
        assert(v@[5]@ =~~= preset_def_14());
        assert(v@[6]@ =~~= preset_def_15());
        assert(v@[7]@ =~~= preset_def_16());
        assert(v@[8]@ =~~= preset_def_17());
    }
    v
}

proof fn lemma_codes_2()
    ensures
        key_code(preset_def_18().id) == 27229006503322,
        key_code(preset_def_19().id) == 27778753868553,
        key_code(preset_def_20().id) == 27778754118489,
        key_code(preset_def_21().id) == 27778754120505,
        key_code(preset_def_22().id) == 28328509936441,
        key_code(preset_def_23().id) == 28878265502617,
        key_code(preset_def_24().id) == 28878265746201,
        key_code(preset_def_25().id) == 28878265750425,
        key_code(preset_def_26().id) == 29428021298042,
{
    reveal_strlit("CSVE1C");
    reveal_strlit("PSY");
    reveal_strlit("CSV2C");
    reveal_strlit("060");
    reveal_strlit("105");
    reveal_strlit("113");
    reveal_strlit("CSV3C");
    reveal_strlit("123");
    reveal_strlit("CSV4C");
    reveal_strlit("099");
    reveal_strlit("101");
    reveal_strlit("129");
    reveal_strlit("CS5.5C");
    reveal_strlit("007");
}

fn preset_group_2() -> (v: Vec<CardDef>)
    ensures
        v@.len() == 9,
        v@[0]@ == preset_def_18(),
        v@[1]@ == preset_def_19(),
        v@[2]@ == preset_def_20(),
        v@[3]@ == preset_def_21(),
        v@[4]@ == preset_def_22(),
        v@[5]@ == preset_def_23(),
        v@[6]@ == preset_def_24(),
        v@[7]@ == preset_def_25(),
        v@[8]@ == preset_def_26(),
{
    let v = vec![
        CardDef {
            id: CardDefId::new("CSVE1C", "PSY"),
            name: String::from_str("Psychic Energy"),
            name_en: String::from_str("Psychic Energy"),
            set_code: String::from_str("CSVE1C"),
            card_type: CardType::BasicEnergy,
            stage: None,
            hp: None,
            energy_type: Some(EnergyType::Psychic),
            weakness: None,
            resistance: None,
            retreat_cost: None,
            mechanic: None,
            attacks: vec![],
            abilities: vec![],
            provides_energy: Some(vec![EnergyType::Psychic]),
            damage_modifier: None,
            retreat_modifier: None,
        },
        CardDef {
            id: CardDefId::new("CSV2C", "060"),
            name: String::from_str("Drifloon"), name_en: String::from_str("Drifloon"), set_code: String::from_str("CSV2C"),
            card_type: CardType::Pokemon, stage: Some(Stage::Basic), hp: Some(80), energy_type: Some(EnergyType::Psychic),
            weakness: Some(TypeMultiplier { energy_type: EnergyType::Darkness, multiplier: 2 }),
            resistance: Some(TypeMultiplier { energy_type: EnergyType::Fighting, multiplier: -30 }),
            retreat_cost: Some(2), mechanic: None,
            attacks: vec![], abilities: vec![], provides_energy: None, damage_modifier: None, retreat_modifier: None,
        },
        CardDef {
            id: CardDefId::new("CSV2C", "105"),
            name: String::from_str("Squawkabilly ex"), name_en: String::from_str("Squawkabilly ex"), set_code: String::from_str("CSV2C"),
            card_type: CardType::Pokemon, stage: Some(Stage::Basic), hp: Some(240), energy_type: Some(EnergyType::Colorless),
            weakness: Some(TypeMultiplier { energy_type: EnergyType::Lightning, multiplier: 2 }),
            resistance: Some(TypeMultiplier { energy_type: EnergyType::Fighting, multiplier: -30 }),
            retreat_cost: Some(2), mechanic: Some(Mechanic::Ex),
            attacks: vec![], abilities: vec![], provides_energy: None, damage_modifier: None, retreat_modifier: None,
        },
        CardDef {
            id: CardDefId::new("CSV2C", "113"), name: String::from_str("Pokegear 3.0"), name_en: String::from_str("Pokegear 3.0"),
            set_code: String::from_str("CSV2C"), card_type: CardType::Item, stage: None, hp: None, energy_type: None,
            weakness: None, resistance: None, retreat_cost: None, mechanic: None, attacks: vec![], abilities: vec![],
            provides_energy: None, damage_modifier: None, retreat_modifier: None,
        },
        CardDef {
            id: CardDefId::new("CSV3C", "123"),
            name: String::from_str("Iono"),
            name_en: String::from_str("Iono"),
            set_code: String::from_str("CSV3C"),
            card_type: CardType::Supporter,
            stage: None,
            hp: None,
            energy_type: None,
            weakness: None,
            resistance: None,
            retreat_cost: None,
            mechanic: None,
            attacks: vec![],
            abilities: vec![],
            provides_energy: None,
            damage_modifier: None,
            retreat_modifier: None,
        },
        CardDef {
            id: CardDefId::new("CSV4C", "099"),
            name: String::from_str("Pidgey"),
            name_en: String::from_str("Pidgey"),
            set_code: String::from_str("CSV4C"),
            card_type: CardType::Pokemon,
            stage: Some(Stage::Basic),
            hp: Some(60),
            energy_type: Some(EnergyType::Colorless),
            weakness: Some(TypeMultiplier { energy_type: EnergyType::Lightning, multiplier: 2 }),
            resistance: Some(TypeMultiplier { energy_type: EnergyType::Fighting, multiplier: -30 }),
            retreat_cost: Some(0),
            mechanic: None,
            attacks: vec![],
            abilities: vec![],
            provides_energy: None,
            damage_modifier: None,
            retreat_modifier: None,
        },
        CardDef {
            id: CardDefId::new("CSV4C", "101"),
            name: String::from_str("Pidgeot ex"),
            name_en: String::from_str("Pidgeot ex"),
            set_code: String::from_str("CSV4C"),
            card_type: CardType::Pokemon,
            stage: Some(Stage::Stage2),
            hp: Some(280),
            energy_type: Some(EnergyType::Colorless),
            weakness: Some(TypeMultiplier { energy_type: EnergyType::Lightning, multiplier: 2 }),
            resistance: Some(TypeMultiplier { energy_type: EnergyType::Fighting, multiplier: -30 }),
            retreat_cost: Some(1),
            mechanic: Some(Mechanic::Ex),
            attacks: vec![
                Attack {
                    name: String::from_str("Gale Winds"),
                    cost: vec![EnergyType::Colorless, EnergyType::Colorless, EnergyType::Colorless],
                    damage: 120,
                    text: String::from_str("120 damage. You may discard 1 Stadium card from your hand. If you do, this attack does 120 damage to 1 of your opponent's Benched Pokemon."),
                    effect_id: Some(String::from_str("attack_optional_discard_stadium")),
                }
            ],
            abilities: vec![
                Ability {
                    name: String::from_str("Wind Search"),
                    text: String::from_str("Once during your turn, you may search your deck for any 1 card and put it in your hand. Then, shuffle your deck."),
                    effect_id: String::from_str("ability_wind_search"),
                }
            ],
            provides_energy: None,
            damage_modifier: None,
            retreat_modifier: None,
        },
        CardDef {
            id: CardDefId::new("CSV4C", "129"), name: String::from_str("Jet Energy"), name_en: String::from_str("Jet Energy"),
            set_code: String::from_str("CSV4C"), card_type: CardType::SpecialEnergy, stage: None, hp: None, energy_type: Some(EnergyType::Colorless),
            weakness: None, resistance: None, retreat_cost: None, mechanic: None, attacks: vec![], abilities: vec![],
            provides_energy: Some(vec![EnergyType::Colorless]), damage_modifier: None, retreat_modifier: Some(1),
        },
        CardDef {
            id: CardDefId::new("CS5.5C", "007"),
            name: String::from_str("Radiant Charizard"), name_en: String::from_str("Radiant Charizard"), set_code: String::from_str("CS5.5C"),
            card_type: CardType::Pokemon, stage: Some(Stage::Basic), hp: Some(130), energy_type: Some(EnergyType::Fire),
            weakness: Some(TypeMultiplier { energy_type: EnergyType::Water, multiplier: 2 }),
            resistance: None, retreat_cost: Some(2), mechanic: Some(Mechanic::Radiant),
            attacks: vec![Attack { name: String::from_str("Combustion Blast"), cost: vec![EnergyType::Fire, EnergyType::Fire, EnergyType::Colorless, EnergyType::Colorless], damage: 250, text: String::from_str("250 if 1+ prizes remaining."), effect_id: Some(String::from_str("attack_prize_condition_damage")) }],
            abilities: vec![], provides_energy: None, damage_modifier: None, retreat_modifier: None,
        }
    ];
    proof {
        assert(v@[0]@ =~~= preset_def_18());
        assert(v@[1]@ =~~= preset_def_19());
        assert(v@[2]@ =~~= preset_def_20());
        assert(v@[3]@ =~~= preset_def_21());
        assert(v@[4]@ =~~= preset_def_22());
        assert(v@[5]@ =~~= preset_def_23());
        assert(v@[6]@ =~~= preset_def_24());
        assert(v@[7]@ =~~= preset_def_25());
        assert(v@[8]@ =~~= preset_def_26());
    }
    v
}

proof fn lemma_codes_3()
    ensures
        key_code(preset_def_27().id) == 29428021300010,
        key_code(preset_def_28().id) == 29428021300057,
        key_code(preset_def_29().id) == 29428021302026,
        key_code(preset_def_30().id) == 29428021304106,
        key_code(preset_def_31().id) == 29428021310218,
        key_code(preset_def_32().id) == 29428021312282,
        key_code(preset_def_33().id) == 29428021312345,
        key_code(preset_def_34().id) == 29977777115961,
        key_code(preset_def_35().id) == 29977777120041,
{
    reveal_strlit("CS6.5C");
    reveal_strlit("012");
    reveal_strlit("CSV5C");
    reveal_strlit("015");
    reveal_strlit("020");
    reveal_strlit("CS5.5C");
    reveal_strlit("032");
    reveal_strlit("060");
    reveal_strlit("071");
    reveal_strlit("075");
    reveal_strlit("CSV6C");
    reveal_strlit("023");
    reveal_strlit("042");
}

fn preset_group_3() -> (v: Vec<CardDef>)
    ensures
        v@.len() == 9,
        v@[0]@ == preset_def_27(),
        v@[1]@ == preset_def_28(),
        v@[2]@ == preset_def_29(),
        v@[3]@ == preset_def_30(),
        v@[4]@ == preset_def_31(),
        v@[5]@ == preset_def_32(),
        v@[6]@ == preset_def_33(),
        v@[7]@ == preset_def_34(),
        v@[8]@ == preset_def_35(),
{
    let v = vec![
        CardDef {
            id: CardDefId::new("CS6.5C", "012"), name: String::from_str("Delphox V"), name_en: String::from_str("Delphox V"),
            set_code: String::from_str("CS6.5C"), card_type: CardType::Pokemon, stage: Some(Stage::Basic),
            hp: Some(210), energy_type: Some(EnergyType::Fire), weakness: Some(TypeMultiplier { energy_type: EnergyType::Water, multiplier: 2 }),
            resistance: None, retreat_cost: Some(2), mechanic: Some(Mechanic::V),
            attacks: vec![
                Attack { name: String::from_str("Magic Fire"), cost: vec![EnergyType::Fire, EnergyType::Colorless, EnergyType::Colorless], damage: 160, text: String::from_str(""), effect_id: Some(String::from_str("attack_delphox_v_magic_fire")) },
            ], abilities: vec![], provides_energy: None, damage_modifier: None, retreat_modifier: None,
        },
        CardDef {
            id: CardDefId::new("CSV5C", "015"),
            name: String::from_str("Charmeleon"),
            name_en: String::from_str("Charmeleon"),
            set_code: String::from_str("CSV5C"),
            card_type: CardType::Pokemon,
            stage: Some(Stage::Stage1),
            hp: Some(110),
            energy_type: Some(EnergyType::Fire),
            weakness: Some(TypeMultiplier { energy_type: EnergyType::Water, multiplier: 2 }),
            resistance: None,
            retreat_cost: Some(2),
            mechanic: None,
            attacks: vec![
                Attack {
                    name: String::from_str("Raging Claw"),
                    cost: vec![EnergyType::Fire, EnergyType::Fire, EnergyType::Colorless],
                    damage: 80,
                    text: String::from_str("80+ damage. If your opponent's Active Pokemon is a Pokemon V, this attack does 80 more damage."),
                    effect_id: None,
                }
            ],
            abilities: vec![],
            provides_energy: None,
            damage_modifier: None,
            retreat_modifier: None,
        },
        CardDef {
            id: CardDefId::new("CS6.5C", "020"),
            name: String::from_str("Radiant Greninja"),
            name_en: String::from_str("Radiant Greninja"),
            set_code: String::from_str("CS6.5C"),
            card_type: CardType::Pokemon,
            stage: Some(Stage::Basic), hp: Some(130), energy_type: Some(EnergyType::Water),
            weakness: Some(TypeMultiplier { energy_type: EnergyType::Lightning, multiplier: 2 }),
            resistance: Some(TypeMultiplier { energy_type: EnergyType::Fighting, multiplier: -30 }),
            retreat_cost: Some(1), mechanic: Some(Mechanic::Radiant),
            attacks: vec![Attack { name: String::from_str("Moonlight Shuriken"), cost: vec![EnergyType::Water, EnergyType::Water, EnergyType::Colorless], damage: 90, text: String::from_str("90 to 2 Pokemon."), effect_id: Some(String::from_str("attack_bench_snipe_double_90")) }],
            abilities: vec![Ability { name: String::from_str("Concealed Cards"), text: String::from_str("Discard Energy to draw 2."), effect_id: String::from_str("ability_concealed_cards") }],
            provides_energy: None, damage_modifier: None, retreat_modifier: None,
        },
        CardDef {
            id: CardDefId::new("CS5.5C", "032"),
            name: String::from_str("Duskull"), name_en: String::from_str("Duskull"), set_code: String::from_str("CS5.5C"),
            card_type: CardType::Pokemon, stage: Some(Stage::Basic), hp: Some(70), energy_type: Some(EnergyType::Psychic),
            weakness: Some(TypeMultiplier { energy_type: EnergyType::Darkness, multiplier: 2 }),
            resistance: Some(TypeMultiplier { energy_type: EnergyType::Fighting, multiplier: -30 }),
            retreat_cost: Some(1), mechanic: None,
            attacks: vec![], abilities: vec![], provides_energy: None, damage_modifier: None, retreat_modifier: None,
        },
        CardDef {
            id: CardDefId::new("CS5.5C", "060"),
            name: String::from_str("Hisuian Heavy Ball"), name_en: String::from_str("Hisuian Heavy Ball"), set_code: String::from_str("CS5.5C"),
            card_type: CardType::Item, stage: None, hp: None, energy_type: None, weakness: None, resistance: None,
            retreat_cost: None, mechanic: None, attacks: vec![], abilities: vec![], provides_energy: None, damage_modifier: None, retreat_modifier: None,
        },
        CardDef {
            id: CardDefId::new("CS6.5C", "071"),
            name: String::from_str("Collapsed Stadium"), name_en: String::from_str("Collapsed Stadium"), set_code: String::from_str("CS6.5C"),
            card_type: CardType::Stadium, stage: None, hp: None, energy_type: None, weakness: None, resistance: None,
            retreat_cost: None, mechanic: None, attacks: vec![], abilities: vec![], provides_energy: None, damage_modifier: None, retreat_modifier: None,
        },
        CardDef {
            id: CardDefId::new("CSV5C", "075"),
            name: String::from_str("Charizard ex"),
            name_en: String::from_str("Charizard ex"),
            set_code: String::from_str("CSV5C"),
            card_type: CardType::Pokemon,
            stage: Some(Stage::Stage2),
            hp: Some(330),
            energy_type: Some(EnergyType::Fire),
            weakness: Some(TypeMultiplier { energy_type: EnergyType::Water, multiplier: 2 }),
            resistance: None,
            retreat_cost: Some(2),
            mechanic: Some(Mechanic::Ex),
            attacks: vec![
                Attack {
                    name: String::from_str("Scorching Darkness"),
                    cost: vec![EnergyType::Fire, EnergyType::Fire, EnergyType::Colorless, EnergyType::Colorless],
                    damage: 180,
                    text: String::from_str("180+ damage. If your opponent has 3 or fewer Prize Cards remaining, this attack does 180 more damage (for each of their remaining Prize Cards, add 30 more damage)."),
                    effect_id: Some(String::from_str("attack_prize_count_damage")),
                }
            ],
            abilities: vec![
                Ability {
                    name: String::from_str("Infernal Reign"),
                    text: String::from_str("When you evolve this Pokemon during your turn, you may search your deck for up to 3 Fire Energy cards and attach them to your Pokemon in any way you like."),
                    effect_id: String::from_str("ability_infernal_reign"),
                }
            ],
            provides_energy: None,
            damage_modifier: None,
            retreat_modifier: None,
        },
        CardDef {
            id: CardDefId::new("CSV6C", "023"),
            name: String::from_str("Rotom V"), name_en: String::from_str("Rotom V"), set_code: String::from_str("CSV6C"),
            card_type: CardType::Pokemon, stage: Some(Stage::Basic), hp: Some(160), energy_type: Some(EnergyType::Psychic),
            weakness: Some(TypeMultiplier { energy_type: EnergyType::Darkness, multiplier: 2 }),
            resistance: Some(TypeMultiplier { energy_type: EnergyType::Fighting, multiplier: -30 }),
            retreat_cost: Some(1), mechanic: Some(Mechanic::V),
            attacks: vec![], abilities: vec![], provides_energy: None, damage_modifier: None, retreat_modifier: None,
        },
        CardDef {
            id: CardDefId::new("CSV6C", "042"), name: String::from_str("Iron Bundle"), name_en: String::from_str("Iron Bundle"),
            set_code: String::from_str("CSV6C"), card_type: CardType::Pokemon, stage: Some(Stage::Basic),
            hp: Some(100), energy_type: Some(EnergyType::Water), weakness: Some(TypeMultiplier { energy_type: EnergyType::Lightning, multiplier: 2 }),
            resistance: None, retreat_cost: Some(1), mechanic: None,
            attacks: vec![Attack { name: String::from_str("Refrigerated Stream"), cost: vec![EnergyType::Water, EnergyType::Colorless, EnergyType::Colorless], damage: 80, text: String::from_str(""), effect_id: None }],
            abilities: vec![Ability { name: String::from_str("Blower"), effect_id: String::from_str("ability_iron_bundle_blower"), text: String::from_str("If on bench, switch opponent active with bench") }],
            provides_energy: None, damage_modifier: None, retreat_modifier: None,
        }
    ];
    proof {
        assert(v@[0]@ =~~= preset_def_27());
        assert(v@[1]@ =~~= preset_def_28());
        assert(v@[2]@ =~~= preset_def_29());
        assert(v@[3]@ =~~= preset_def_30());
        assert(v@[4]@ =~~= preset_def_31());
        assert(v@[5]@ =~~= preset_def_32());
        assert(v@[6]@ =~~= preset_def_33());
        assert(v@[7]@ =~~= preset_def_34());
        assert(v@[8]@ =~~= preset_def_35());
    }
    v
}

proof fn lemma_codes_4()
    ensures
        key_code(preset_def_36().id) == 29977777122073,
        key_code(preset_def_37().id) == 29977777124105,
        key_code(preset_def_38().id) == 29977777130345,
        key_code(preset_def_39().id) == 29977777376073,
        key_code(preset_def_40().id) == 29977777376105,
        key_code(preset_def_41().id) == 29977777376153,
        key_code(preset_def_42().id) == 29977777378073,
        key_code(preset_def_43().id) == 29977777378137,
        key_code(preset_def_44().id) == 30527532931897,
{
    reveal_strlit("CSV6C");
    reveal_strlit("051");
    reveal_strlit("060");
    reveal_strlit("096");
    reveal_strlit("114");
    reveal_strlit("116");
    reveal_strlit("119");
    reveal_strlit("121");
    reveal_strlit("125");
    reveal_strlit("CSV7C");
    reveal_strlit("033");
}

fn preset_group_4() -> (v: Vec<CardDef>)
    ensures
        v@.len() == 9,
        v@[0]@ == preset_def_36(),
        v@[1]@ == preset_def_37(),
        v@[2]@ == preset_def_38(),
        v@[3]@ == preset_def_39(),
        v@[4]@ == preset_def_40(),
        v@[5]@ == preset_def_41(),
        v@[6]@ == preset_def_42(),
        v@[7]@ == preset_def_43(),
        v@[8]@ == preset_def_44(),
{
    let v = vec![
        CardDef {
            id: CardDefId::new("CSV6C", "051"),
            name: String::from_str("Iron Hands ex"),
            name_en: String::from_str("Iron Hands ex"),
            set_code: String::from_str("CSV6C"),
            card_type: CardType::Pokemon,
            stage: Some(Stage::Basic),
            hp: Some(230),
            energy_type: Some(EnergyType::Lightning),
            weakness: Some(TypeMultiplier { energy_type: EnergyType::Fighting, multiplier: 2 }),
            resistance: Some(TypeMultiplier { energy_type: EnergyType::Fighting, multiplier: -30 }),
            retreat_cost: Some(2),
            mechanic: Some(Mechanic::Ex),
            attacks: vec![
                Attack {
                    name: String::from_str("Double Impact"),
                    cost: vec![EnergyType::Lightning, EnergyType::Lightning, EnergyType::Colorless, EnergyType::Colorless],
                    damage: 120,
                    text: String::from_str("120 damage. Does 30 damage to 1 of your opponent's Benched Pokemon."),
                    effect_id: Some(String::from_str("attack_bench_snipe_30")),
                }
            ],
            abilities: vec![],
            provides_energy: None,
            damage_modifier: None,
            retreat_modifier: None,
        },
        CardDef {
            id: CardDefId::new("CSV6C", "060"),
            name: String::from_str("Earthen Vessel"), name_en: String::from_str("Earthen Vessel"), set_code: String::from_str("CSV6C"),
            card_type: CardType::Item, stage: None, hp: None, energy_type: None, weakness: None, resistance: None,
            retreat_cost: None, mechanic: None, attacks: vec![], abilities: vec![], provides_energy: None, damage_modifier: None, retreat_modifier: None,
        },
        CardDef {
            id: CardDefId::new("CSV6C", "096"), name: String::from_str("Roaring Moon ex"), name_en: String::from_str("Roaring Moon ex"),
            set_code: String::from_str("CSV6C"), card_type: CardType::Pokemon, stage: Some(Stage::Basic),
            hp: Some(230), energy_type: Some(EnergyType::Darkness), weakness: Some(TypeMultiplier { energy_type: EnergyType::Grass, multiplier: 2 }),
            resistance: None, retreat_cost: Some(2), mechanic: None,
            attacks: vec![
                Attack { name: String::from_str("Calamity Storm"), cost: vec![EnergyType::Darkness, EnergyType::Darkness, EnergyType::Colorless], damage: 200, text: String::from_str(""), effect_id: Some(String::from_str("attack_discard_stadium_bonus")) },
            ], abilities: vec![], provides_energy: None, damage_modifier: None, retreat_modifier: None,
        },
        CardDef {
            id: CardDefId::new("CSV6C", "114"),
            name: String::from_str("Counter Catcher"), name_en: String::from_str("Counter Catcher"), set_code: String::from_str("CSV6C"),
            card_type: CardType::Item, stage: None, hp: None, energy_type: None, weakness: None, resistance: None,
            retreat_cost: None, mechanic: None, attacks: vec![], abilities: vec![], provides_energy: None, damage_modifier: None, retreat_modifier: None,
        },
        CardDef {
            id: CardDefId::new("CSV6C", "116"), name: String::from_str("Techno Radar"), name_en: String::from_str("Techno Radar"),
            set_code: String::from_str("CSV6C"), card_type: CardType::Item, stage: None, hp: None, energy_type: None,
            weakness: None, resistance: None, retreat_cost: None, mechanic: None, attacks: vec![], abilities: vec![],
            provides_energy: None, damage_modifier: None, retreat_modifier: None,
        },
        CardDef {
            id: CardDefId::new("CSV6C", "119"), name: String::from_str("Future Booster Energy Capsule"), name_en: String::from_str("Future Booster Energy Capsule"),
            set_code: String::from_str("CSV6C"), card_type: CardType::Tool, stage: None, hp: None, energy_type: None,
            weakness: None, resistance: None, retreat_cost: None, mechanic: None, attacks: vec![], abilities: vec![],
            provides_energy: None, damage_modifier: None, retreat_modifier: Some(0),
        },
        CardDef {
            id: CardDefId::new("CSV6C", "121"), name: String::from_str("Professor Sada's Vitality"), name_en: String::from_str("Professor Sada's Vitality"),
            set_code: String::from_str("CSV6C"), card_type: CardType::Supporter, stage: None, hp: None, energy_type: None,
            weakness: None, resistance: None, retreat_cost: None, mechanic: None, attacks: vec![], abilities: vec![],
            provides_energy: None, damage_modifier: None, retreat_modifier: None,
        },
        CardDef {
            id: CardDefId::new("CSV6C", "125"),
            name: String::from_str("Professor Turo's Scenario"), name_en: String::from_str("Professor Turo's Scenario"), set_code: String::from_str("CSV6C"),
            card_type: CardType::Supporter, stage: None, hp: None, energy_type: None, weakness: None, resistance: None,
            retreat_cost: None, mechanic: None, attacks: vec![], abilities: vec![], provides_energy: None, damage_modifier: None, retreat_modifier: None,
        },
        CardDef {
            id: CardDefId::new("CSV7C", "033"), name: String::from_str("Iron Leaves ex"), name_en: String::from_str("Iron Leaves ex"),
            set_code: String::from_str("CSV7C"), card_type: CardType::Pokemon, stage: Some(Stage::Basic),
            hp: Some(220), energy_type: Some(EnergyType::Grass), weakness: Some(TypeMultiplier { energy_type: EnergyType::Fire, multiplier: 2 }),
            resistance: None, retreat_cost: Some(1), mechanic: Some(Mechanic::Ex),
            attacks: vec![Attack { name: String::from_str("Prism Blade"), cost: vec![EnergyType::Grass, EnergyType::Grass, EnergyType::Colorless], damage: 180, text: String::from_str(""), effect_id: None }],
            abilities: vec![Ability { name: String::from_str("Quick Draw"), effect_id: String::from_str("ability_quick_draw"), text: String::from_str("When played to bench, switch with active and move energy") }],
            provides_energy: None, damage_modifier: None, retreat_modifier: None,
        }
    ];
    proof {
        assert(v@[0]@ =~~= preset_def_36());
        assert(v@[1]@ =~~= preset_def_37());
        assert(v@[2]@ =~~= preset_def_38());
        assert(v@[3]@ =~~= preset_def_39());
        assert(v@[4]@ =~~= preset_def_40());
        assert(v@[5]@ =~~= preset_def_41());
        assert(v@[6]@ =~~= preset_def_42());
        assert(v@[7]@ =~~= preset_def_43());
        assert(v@[8]@ =~~= preset_def_44());
    }
    v
}

proof fn lemma_codes_5()
    ensures
        key_code(preset_def_45().id) == 30527532935961,
        key_code(preset_def_46().id) == 30527532938089,
        key_code(preset_def_47().id) == 30527533187993,
        key_code(preset_def_48().id) == 30527533189913,
        key_code(preset_def_49().id) == 30527533198137,
        key_code(preset_def_50().id) == 30527533202297,
        key_code(preset_def_51().id) == 30527533204233,
        key_code(preset_def_52().id) == 30527533204313,
        key_code(preset_def_53().id) == 30527533204361,
{
    reveal_strlit("CSV7C");
    reveal_strlit("051");
    reveal_strlit("066");
    reveal_strlit("109");
    reveal_strlit("111");
    reveal_strlit("153");
    reveal_strlit("177");
    reveal_strlit("180");
    reveal_strlit("185");
    reveal_strlit("188");
}

fn preset_group_5() -> (v: Vec<CardDef>)
    ensures
        v@.len() == 9,
        v@[0]@ == preset_def_45(),
        v@[1]@ == preset_def_46(),
        v@[2]@ == preset_def_47(),
        v@[3]@ == preset_def_48(),
        v@[4]@ == preset_def_49(),
        v@[5]@ == preset_def_50(),
        v@[6]@ == preset_def_51(),
        v@[7]@ == preset_def_52(),
        v@[8]@ == preset_def_53(),
{
    let v = vec![
        CardDef {
            id: CardDefId::new("CSV7C", "051"), name: String::from_str("Gouging Fire ex"), name_en: String::from_str("Gouging Fire ex"),
            set_code: String::from_str("CSV7C"), card_type: CardType::Pokemon, stage: Some(Stage::Basic),
            hp: Some(230), energy_type: Some(EnergyType::Fire), weakness: Some(TypeMultiplier { energy_type: EnergyType::Water, multiplier: 2 }),
            resistance: None, retreat_cost: Some(2), mechanic: None,
            attacks: vec![
                Attack { name: String::from_str("Burning Overrun"), cost: vec![EnergyType::Fire, EnergyType::Colorless], damage: 60, text: String::from_str(""), effect_id: None },
                Attack { name: String::from_str("Magma Blast"), cost: vec![EnergyType::Fire, EnergyType::Fire, EnergyType::Colorless, EnergyType::Colorless], damage: 220, text: String::from_str("Discard 1 Energy"), effect_id: Some(String::from_str("attack_discard_energy_from_self")) },
            ], abilities: vec![], provides_energy: None, damage_modifier: None, retreat_modifier: None,
        },
        CardDef {
            id: CardDefId::new("CSV7C", "066"),
            name: String::from_str("Forest Seal Stone"), name_en: String::from_str("Forest Seal Stone"), set_code: String::from_str("CSV7C"),
            card_type: CardType::Tool, stage: None, hp: None, energy_type: None, weakness: None, resistance: None,
            retreat_cost: None, mechanic: None, attacks: vec![], abilities: vec![
                Ability { name: String::from_str("Star Alchemy"), effect_id: String::from_str("tool_star_alchemy"), text: String::from_str("Search deck for any 1 card") }
            ], provides_energy: None, damage_modifier: None, retreat_modifier: None,
        },
        CardDef {
            id: CardDefId::new("CSV7C", "109"),
            name: String::from_str("Flutter Mane"), name_en: String::from_str("Flutter Mane"), set_code: String::from_str("CSV7C"),
            card_type: CardType::Pokemon, stage: Some(Stage::Basic), hp: Some(110), energy_type: Some(EnergyType::Psychic),
            weakness: Some(TypeMultiplier { energy_type: EnergyType::Darkness, multiplier: 2 }),
            resistance: Some(TypeMultiplier { energy_type: EnergyType::Fighting, multiplier: -30 }),
            retreat_cost: Some(1), mechanic: None,
            attacks: vec![], abilities: vec![], provides_energy: None, damage_modifier: None, retreat_modifier: None,
        },
        CardDef {
            id: CardDefId::new("CSV7C", "111"), name: String::from_str("Iron Crown ex"), name_en: String::from_str("Iron Crown ex"),
            set_code: String::from_str("CSV7C"), card_type: CardType::Pokemon, stage: Some(Stage::Basic),
            hp: Some(220), energy_type: Some(EnergyType::Psychic), weakness: Some(TypeMultiplier { energy_type: EnergyType::Darkness, multiplier: 2 }),
            resistance: None, retreat_cost: Some(2), mechanic: Some(Mechanic::Ex),
            attacks: vec![Attack { name: String::from_str("Double Blade"), cost: vec![EnergyType::Psychic, EnergyType::Colorless, EnergyType::Colorless], damage: 160, text: String::from_str(""), effect_id: None }],
            abilities: vec![Ability { name: String::from_str("Azure Command"), effect_id: String::from_str("ability_azure_command"), text: String::from_str("Future Pokemon attacks +20 to opponent active") }],
            provides_energy: None, damage_modifier: None, retreat_modifier: None,
        },
        CardDef {
            id: CardDefId::new("CSV7C", "153"), name: String::from_str("Miraidon"), name_en: String::from_str("Miraidon"),
            set_code: String::from_str("CSV7C"), card_type: CardType::Pokemon, stage: Some(Stage::Basic),
            hp: Some(110), energy_type: Some(EnergyType::Lightning), weakness: Some(TypeMultiplier { energy_type: EnergyType::Fighting, multiplier: 2 }),
            resistance: None, retreat_cost: Some(2), mechanic: None,
            attacks: vec![
                Attack { name: String::from_str("Peak Acceleration"), cost: vec![EnergyType::Colorless], damage: 40, text: String::from_str(""), effect_id: None },
                Attack { name: String::from_str("Electric Spark"), cost: vec![EnergyType::Lightning, EnergyType::Lightning, EnergyType::Psychic], damage: 160, text: String::from_str(""), effect_id: None },
            ], abilities: vec![], provides_energy: None, damage_modifier: None, retreat_modifier: None,
        },
        CardDef {
            id: CardDefId::new("CSV7C", "177"),
            name: String::from_str("Buddy-Buddy Poffin"), name_en: String::from_str("Buddy-Buddy Poffin"), set_code: String::from_str("CSV7C"),
            card_type: CardType::Item, stage: None, hp: None, energy_type: None, weakness: None, resistance: None,
            retreat_cost: None, mechanic: None, attacks: vec![], abilities: vec![], provides_energy: None, damage_modifier: None, retreat_modifier: None,
        },
        CardDef {
            id: CardDefId::new("CSV7C", "180"), name: String::from_str("Prime Catcher"), name_en: String::from_str("Prime Catcher"),
            set_code: String::from_str("CSV7C"), card_type: CardType::Item, stage: None, hp: None, energy_type: None,
            weakness: None, resistance: None, retreat_cost: None, mechanic: None, attacks: vec![], abilities: vec![],
            provides_energy: None, damage_modifier: None, retreat_modifier: None,
        },
        CardDef {
            id: CardDefId::new("CSV7C", "185"),
            name: String::from_str("Rescue Board"), name_en: String::from_str("Rescue Board"), set_code: String::from_str("CSV7C"),
            card_type: CardType::Tool, stage: None, hp: None, energy_type: None, weakness: None, resistance: None,
            retreat_cost: None, mechanic: None, attacks: vec![], abilities: vec![], provides_energy: None, damage_modifier: None, retreat_modifier: None,
        },
        CardDef {
            id: CardDefId::new("CSV7C", "188"),
            name: String::from_str("Heavy Baton"), name_en: String::from_str("Heavy Baton"), set_code: String::from_str("CSV7C"),
            card_type: CardType::Tool, stage: None, hp: None, energy_type: None, weakness: None, resistance: None,
            retreat_cost: None, mechanic: None, attacks: vec![], abilities: vec![], provides_energy: None,
            damage_modifier: None, retreat_modifier: None,
        }
    ];
    proof {
        assert(v@[0]@ =~~= preset_def_45());
        assert(v@[1]@ =~~= preset_def_46());
        assert(v@[2]@ =~~= preset_def_47());
        assert(v@[3]@ =~~= preset_def_48());
        assert(v@[4]@ =~~= preset_def_49());
        assert(v@[5]@ =~~= preset_def_50());
        assert(v@[6]@ =~~= preset_def_51());
        assert(v@[7]@ =~~= preset_def_52());
        assert(v@[8]@ =~~= preset_def_53());
    }
    v
}

proof fn lemma_codes_6()
    ensures
        key_code(preset_def_54().id) == 30527533206297,
        key_code(preset_def_55().id) == 30527533450009,
        key_code(preset_def_56().id) == 31077288751961,
        key_code(preset_def_57().id) == 31077288756009,
        key_code(preset_def_58().id) == 31077288756025,
        key_code(preset_def_59().id) == 31077288758089,
        key_code(preset_def_60().id) == 31077289007961,
        key_code(preset_def_61().id) == 31077289016105,
        key_code(preset_def_62().id) == 31077289016121,
{
    reveal_strlit("CSV7C");
    reveal_strlit("191");
    reveal_strlit("201");
    reveal_strlit("CSV8C");
    reveal_strlit("065");
    reveal_strlit("082");
    reveal_strlit("083");
    reveal_strlit("094");
    reveal_strlit("135");
    reveal_strlit("172");
    reveal_strlit("173");
}

fn preset_group_6() -> (v: Vec<CardDef>)
    ensures
        v@.len() == 9,
        v@[0]@ == preset_def_54(),
        v@[1]@ == preset_def_55(),
        v@[2]@ == preset_def_56(),
        v@[3]@ == preset_def_57(),
        v@[4]@ == preset_def_58(),
        v@[5]@ == preset_def_59(),
        v@[6]@ == preset_def_60(),
        v@[7]@ == preset_def_61(),
        v@[8]@ == preset_def_62(),
{
    let v = vec![
        CardDef {
            id: CardDefId::new("CSV7C", "191"),
            name: String::from_str("Ciphermaniac's Codebreaking"), name_en: String::from_str("Ciphermaniac's Codebreaking"), set_code: String::from_str("CSV7C"),
            card_type: CardType::Supporter, stage: None, hp: None, energy_type: None, weakness: None, resistance: None,
            retreat_cost: None, mechanic: None, attacks: vec![], abilities: vec![], provides_energy: None, damage_modifier: None, retreat_modifier: None,
        },
        CardDef {
            id: CardDefId::new("CSV7C", "201"),
            name: String::from_str("Gravity Mountain"), name_en: String::from_str("Gravity Mountain"), set_code: String::from_str("CSV7C"),
            card_type: CardType::Stadium, stage: None, hp: None, energy_type: None, weakness: None, resistance: None,
            retreat_cost: None, mechanic: None, attacks: vec![], abilities: vec![], provides_energy: None, damage_modifier: None, retreat_modifier: None,
        },
        CardDef {
            id: CardDefId::new("CSV8C", "065"),
            name: String::from_str("Scream Tail"), name_en: String::from_str("Scream Tail"), set_code: String::from_str("CSV8C"),
            card_type: CardType::Pokemon, stage: Some(Stage::Basic), hp: Some(110), energy_type: Some(EnergyType::Psychic),
            weakness: Some(TypeMultiplier { energy_type: EnergyType::Darkness, multiplier: 2 }),
            resistance: Some(TypeMultiplier { energy_type: EnergyType::Fighting, multiplier: -30 }),
            retreat_cost: Some(2), mechanic: None,
            attacks: vec![], abilities: vec![], provides_energy: None, damage_modifier: None, retreat_modifier: None,
        },
        CardDef {
            id: CardDefId::new("CSV8C", "082"),
            name: String::from_str("Dusclops"), name_en: String::from_str("Dusclops"), set_code: String::from_str("CSV8C"),
            card_type: CardType::Pokemon, stage: Some(Stage::Stage1), hp: Some(120), energy_type: Some(EnergyType::Psychic),
            weakness: Some(TypeMultiplier { energy_type: EnergyType::Darkness, multiplier: 2 }),
            resistance: Some(TypeMultiplier { energy_type: EnergyType::Fighting, multiplier: -30 }),
            retreat_cost: Some(3), mechanic: None,
            attacks: vec![], abilities: vec![], provides_energy: None, damage_modifier: None, retreat_modifier: None,
        },
        CardDef {
            id: CardDefId::new("CSV8C", "083"),
            name: String::from_str("Dusknoir"), name_en: String::from_str("Dusknoir"), set_code: String::from_str("CSV8C"),
            card_type: CardType::Pokemon, stage: Some(Stage::Stage2), hp: Some(150), energy_type: Some(EnergyType::Psychic),
            weakness: Some(TypeMultiplier { energy_type: EnergyType::Darkness, multiplier: 2 }),
            resistance: Some(TypeMultiplier { energy_type: EnergyType::Fighting, multiplier: -30 }),
            retreat_cost: Some(3), mechanic: None,
            attacks: vec![], abilities: vec![], provides_energy: None, damage_modifier: None, retreat_modifier: None,
        },
        CardDef {
            id: CardDefId::new("CSV8C", "094"),
            name: String::from_str("Munkidori"), name_en: String::from_str("Munkidori"), set_code: String::from_str("CSV8C"),
            card_type: CardType::Pokemon, stage: Some(Stage::Basic), hp: Some(120), energy_type: Some(EnergyType::Psychic),
            weakness: Some(TypeMultiplier { energy_type: EnergyType::Darkness, multiplier: 2 }),
            resistance: Some(TypeMultiplier { energy_type: EnergyType::Fighting, multiplier: -30 }),
            retreat_cost: Some(2), mechanic: None,
            attacks: vec![], abilities: vec![], provides_energy: None, damage_modifier: None, retreat_modifier: None,
        },
        CardDef {
            id: CardDefId::new("CSV8C", "135"),
            name: String::from_str("Fezandipiti ex"), name_en: String::from_str("Fezandipiti ex"), set_code: String::from_str("CSV8C"),
            card_type: CardType::Pokemon, stage: Some(Stage::Basic), hp: Some(220), energy_type: Some(EnergyType::Psychic),
            weakness: Some(TypeMultiplier { energy_type: EnergyType::Darkness, multiplier: 2 }),
            resistance: Some(TypeMultiplier { energy_type: EnergyType::Fighting, multiplier: -30 }),
            retreat_cost: Some(2), mechanic: Some(Mechanic::Ex),
            attacks: vec![], abilities: vec![], provides_energy: None, damage_modifier: None, retreat_modifier: None,
        },
        CardDef {
            id: CardDefId::new("CSV8C", "172"),
            name: String::from_str("Bloodmoon Ursaluna ex"), name_en: String::from_str("Bloodmoon Ursaluna ex"), set_code: String::from_str("CSV8C"),
            card_type: CardType::Pokemon, stage: Some(Stage::Basic), hp: Some(220), energy_type: Some(EnergyType::Darkness),
            weakness: Some(TypeMultiplier { energy_type: EnergyType::Grass, multiplier: 2 }),
            resistance: Some(TypeMultiplier { energy_type: EnergyType::Psychic, multiplier: -30 }),
            retreat_cost: Some(2), mechanic: Some(Mechanic::Ex),
            attacks: vec![], abilities: vec![], provides_energy: None, damage_modifier: None, retreat_modifier: None,
        },
        CardDef {
            id: CardDefId::new("CSV8C", "173"),
            name: String::from_str("Unfair Stamp"), name_en: String::from_str("Unfair Stamp"), set_code: String::from_str("CSV8C"),
            card_type: CardType::Item, stage: None, hp: None, energy_type: None, weakness: None, resistance: None,
            retreat_cost: None, mechanic: None, attacks: vec![], abilities: vec![], provides_energy: None, damage_modifier: None, retreat_modifier: None,
        }
    ];
    proof {
        assert(v@[0]@ =~~= preset_def_54());
        assert(v@[1]@ =~~= preset_def_55());
        assert(v@[2]@ =~~= preset_def_56());
        assert(v@[3]@ =~~= preset_def_57());
        assert(v@[4]@ =~~= preset_def_58());
        assert(v@[5]@ =~~= preset_def_59());
        assert(v@[6]@ =~~= preset_def_60());
        assert(v@[7]@ =~~= preset_def_61());
        assert(v@[8]@ =~~= preset_def_62());
    }
    v
}

proof fn lemma_codes_7()
    ensures
        key_code(preset_def_63().id) == 31077289016169,
        key_code(preset_def_64().id) == 31077289018169,
        key_code(preset_def_65().id) == 37674358770537,
        key_code(preset_def_66().id) == 37674358772585,
        key_code(preset_def_67().id) == 37674358776585,
        key_code(preset_def_68().id) == 37674358778665,
        key_code(preset_def_69().id) == 43171916649288,
        key_code(preset_def_70().id) == 53617277109097,
        key_code(preset_def_71().id) == 53617277109131,
{
    reveal_strlit("CSV8C");
    reveal_strlit("176");
    reveal_strlit("183");
    reveal_strlit("CS5DC");
    reveal_strlit("116");
    reveal_strlit("126");
    reveal_strlit("140");
    reveal_strlit("152");
    reveal_strlit("CSNC");
    reveal_strlit("024");
    reveal_strlit("CS5aC");
    reveal_strlit("006");
    reveal_strlit("CSVH1aC");
    reveal_strlit("008");
}

fn preset_group_7() -> (v: Vec<CardDef>)
    ensures
        v@.len() == 9,
        v@[0]@ == preset_def_63(),
        v@[1]@ == preset_def_64(),
        v@[2]@ == preset_def_65(),
        v@[3]@ == preset_def_66(),
        v@[4]@ == preset_def_67(),
        v@[5]@ == preset_def_68(),
        v@[6]@ == preset_def_69(),
        v@[7]@ == preset_def_70(),
        v@[8]@ == preset_def_71(),
{
    let v = vec![
        CardDef {
            id: CardDefId::new("CSV8C", "176"),
            name: String::from_str("Secret Box"), name_en: String::from_str("Secret Box"), set_code: String::from_str("CSV8C"),
            card_type: CardType::Item, stage: None, hp: None, energy_type: None, weakness: None, resistance: None,
            retreat_cost: None, mechanic: None, attacks: vec![], abilities: vec![], provides_energy: None, damage_modifier: None, retreat_modifier: None,
        },
        CardDef {
            id: CardDefId::new("CSV8C", "183"),
            name: String::from_str("Night Stretcher"), name_en: String::from_str("Night Stretcher"), set_code: String::from_str("CSV8C"),
            card_type: CardType::Item, stage: None, hp: None, energy_type: None, weakness: None, resistance: None,
            retreat_cost: None, mechanic: None, attacks: vec![], abilities: vec![], provides_energy: None, damage_modifier: None, retreat_modifier: None,
        },
        CardDef {
            id: CardDefId::new("CS5DC", "116"),
            name: String::from_str("Switch Cart"), name_en: String::from_str("Switch Cart"), set_code: String::from_str("CS5DC"),
            card_type: CardType::Item, stage: None, hp: None, energy_type: None, weakness: None, resistance: None,
            retreat_cost: None, mechanic: None, attacks: vec![], abilities: vec![], provides_energy: None, damage_modifier: None, retreat_modifier: None,
        },
        CardDef {
            id: CardDefId::new("CS5DC", "126"), name: String::from_str("Dark Patch"), name_en: String::from_str("Dark Patch"),
            set_code: String::from_str("CS5DC"), card_type: CardType::Item, stage: None, hp: None, energy_type: None,
            weakness: None, resistance: None, retreat_cost: None, mechanic: None, attacks: vec![], abilities: vec![],
            provides_energy: None, damage_modifier: None, retreat_modifier: None,
        },
        CardDef {
            id: CardDefId::new("CS5DC", "140"),
            name: String::from_str("Cyllene"), name_en: String::from_str("Cyllene"), set_code: String::from_str("CS5DC"),
            card_type: CardType::Supporter, stage: None, hp: None, energy_type: None, weakness: None, resistance: None,
            retreat_cost: None, mechanic: None, attacks: vec![], abilities: vec![], provides_energy: None, damage_modifier: None, retreat_modifier: None,
        },
        CardDef {
            id: CardDefId::new("CS5DC", "152"), name: String::from_str("Magma Basin"), name_en: String::from_str("Magma Basin"),
            set_code: String::from_str("CS5DC"), card_type: CardType::Stadium, stage: None, hp: None, energy_type: None,
            weakness: None, resistance: None, retreat_cost: None, mechanic: None, attacks: vec![], abilities: vec![],
            provides_energy: None, damage_modifier: None, retreat_modifier: None,
        },
        CardDef {
            id: CardDefId::new("CSNC", "024"),
            name: String::from_str("Double Turbo Energy"),
            name_en: String::from_str("Double Turbo Energy"),
            set_code: String::from_str("CSNC"),
            card_type: CardType::SpecialEnergy,
            stage: None,
            hp: None,
            energy_type: Some(EnergyType::Colorless),
            weakness: None,
            resistance: None,
            retreat_cost: None,
            mechanic: None,
            attacks: vec![],
            abilities: vec![],
            provides_energy: Some(vec![EnergyType::Colorless, EnergyType::Colorless]),
            damage_modifier: Some(-20),
            retreat_modifier: None,
        },
        CardDef {
            id: CardDefId::new("CS5aC", "006"), name: String::from_str("Moltres"), name_en: String::from_str("Moltres"),
            set_code: String::from_str("CS5aC"), card_type: CardType::Pokemon, stage: Some(Stage::Basic),
            hp: Some(120), energy_type: Some(EnergyType::Fire), weakness: Some(TypeMultiplier { energy_type: EnergyType::Lightning, multiplier: 2 }),
            resistance: Some(TypeMultiplier { energy_type: EnergyType::Fighting, multiplier: -30 }), retreat_cost: Some(1), mechanic: None,
            attacks: vec![
                Attack { name: String::from_str("Flare"), cost: vec![EnergyType::Fire, EnergyType::Colorless], damage: 50, text: String::from_str(""), effect_id: None },
            ], abilities: vec![], provides_energy: None, damage_modifier: None, retreat_modifier: None,
        },
        CardDef {
            id: CardDefId::new("CSVH1aC", "008"), name: String::from_str("Energy Switch"), name_en: String::from_str("Energy Switch"),
            set_code: String::from_str("CSVH1aC"), card_type: CardType::Item, stage: None, hp: None, energy_type: None,
            weakness: None, resistance: None, retreat_cost: None, mechanic: None, attacks: vec![], abilities: vec![],
            provides_energy: None, damage_modifier: None, retreat_modifier: None,
        }
    ];
    proof {
        assert(v@[0]@ =~~= preset_def_63());
        assert(v@[1]@ =~~= preset_def_64());
        assert(v@[2]@ =~~= preset_def_65());
        assert(v@[3]@ =~~= preset_def_66());
        assert(v@[4]@ =~~= preset_def_67());
        assert(v@[5]@ =~~= preset_def_68());
        assert(v@[6]@ =~~= preset_def_69());
        assert(v@[7]@ =~~= preset_def_70());
        assert(v@[8]@ =~~= preset_def_71());
    }
    v
}

proof fn lemma_codes_8()
    ensures
        key_code(preset_def_72().id) == 53617277111193,
        key_code(preset_def_73().id) == 53617277113147,
        key_code(preset_def_74().id) == 53617277119338,
        key_code(preset_def_75().id) == 53617277119353,
        key_code(preset_def_76().id) == 53617277375353,
        key_code(preset_def_77().id) == 53617277377402,
        key_code(preset_def_78().id) == 54167032931225,
        key_code(preset_def_79().id) == 54167032933161,
        key_code(preset_def_80().id) == 54167033189178,
{
    reveal_strlit("CS5aC");
    reveal_strlit("019");
    reveal_strlit("CSVH1aC");
    reveal_strlit("023");
    reveal_strlit("CS4DaC");
    reveal_strlit("056");
    reveal_strlit("CS6aC");
    reveal_strlit("057");
    reveal_strlit("127");
    reveal_strlit("137");
    reveal_strlit("CS5bC");
    reveal_strlit("049");
    reveal_strlit("052");
    reveal_strlit("CSV6bC");
    reveal_strlit("123");
}

fn preset_group_8() -> (v: Vec<CardDef>)
    ensures
        v@.len() == 9,
        v@[0]@ == preset_def_72(),
        v@[1]@ == preset_def_73(),
        v@[2]@ == preset_def_74(),
        v@[3]@ == preset_def_75(),
        v@[4]@ == preset_def_76(),
        v@[5]@ == preset_def_77(),
        v@[6]@ == preset_def_78(),
        v@[7]@ == preset_def_79(),
        v@[8]@ == preset_def_80(),
{
    let v = vec![
        CardDef {
            id: CardDefId::new("CS5aC", "019"),
            name: String::from_str("Raichu V"), name_en: String::from_str("Raichu V"), set_code: String::from_str("CS5aC"),
            card_type: CardType::Pokemon, stage: Some(Stage::Basic), hp: Some(170), energy_type: Some(EnergyType::Lightning),
            weakness: Some(TypeMultiplier { energy_type: EnergyType::Fighting, multiplier: 2 }),
            resistance: Some(TypeMultiplier { energy_type: EnergyType::Fighting, multiplier: -30 }),
            retreat_cost: Some(2), mechanic: Some(Mechanic::V),
            attacks: vec![], abilities: vec![], provides_energy: None, damage_modifier: None, retreat_modifier: None,
        },
        CardDef {
            id: CardDefId::new("CSVH1aC", "023"),
            name: String::from_str("Boss's Orders"),
            name_en: String::from_str("Boss's Orders"),
            set_code: String::from_str("CSVH1aC"),
            card_type: CardType::Supporter,
            stage: None,
            hp: None,
            energy_type: None,
            weakness: None,
            resistance: None,
            retreat_cost: None,
            mechanic: None,
            attacks: vec![],
            abilities: vec![],
            provides_energy: None,
            damage_modifier: None,
            retreat_modifier: None,
        },
        CardDef {
            id: CardDefId::new("CS4DaC", "056"), name: String::from_str("Entei V"), name_en: String::from_str("Entei V"),
            set_code: String::from_str("CS4DaC"), card_type: CardType::Pokemon, stage: Some(Stage::Basic),
            hp: Some(220), energy_type: Some(EnergyType::Fire), weakness: Some(TypeMultiplier { energy_type: EnergyType::Water, multiplier: 2 }),
            resistance: None, retreat_cost: Some(2), mechanic: Some(Mechanic::V),
            attacks: vec![
                Attack { name: String::from_str("Burning Arrow"), cost: vec![EnergyType::Fire, EnergyType::Colorless, EnergyType::Colorless], damage: 160, text: String::from_str(""), effect_id: None },
            ], abilities: vec![
                Ability { name: String::from_str("Burst Roar"), effect_id: String::from_str("ability_burst_roar"), text: String::from_str("Attach a Fire Energy from discard") },
            ], provides_energy: None, damage_modifier: None, retreat_modifier: None,
        },
        CardDef {
            id: CardDefId::new("CS6aC", "057"),
            name: String::from_str("Zapdos"), name_en: String::from_str("Zapdos"), set_code: String::from_str("CS6aC"),
            card_type: CardType::Pokemon, stage: Some(Stage::Basic), hp: Some(120), energy_type: Some(EnergyType::Lightning),
            weakness: Some(TypeMultiplier { energy_type: EnergyType::Lightning, multiplier: 2 }),
            resistance: Some(TypeMultiplier { energy_type: EnergyType::Fighting, multiplier: -30 }),
            retreat_cost: Some(1), mechanic: None,
            attacks: vec![Attack { name: String::from_str("Quick Strike"), cost: vec![EnergyType::Lightning, EnergyType::Colorless], damage: 70, text: String::from_str("70 damage."), effect_id: None }],
            abilities: vec![], provides_energy: None, damage_modifier: None, retreat_modifier: None,
        },
        CardDef {
            id: CardDefId::new("CS6aC", "127"),
            name: String::from_str("Thorton"), name_en: String::from_str("Thorton"), set_code: String::from_str("CS6aC"),
            card_type: CardType::Supporter, stage: None, hp: None, energy_type: None, weakness: None, resistance: None,
            retreat_cost: None, mechanic: None, attacks: vec![], abilities: vec![], provides_energy: None, damage_modifier: None, retreat_modifier: None,
        },
        CardDef {
            id: CardDefId::new("CS4DaC", "137"),
            name: String::from_str("Raikou V"), name_en: String::from_str("Raikou V"), set_code: String::from_str("CS4DaC"),
            card_type: CardType::Pokemon, stage: Some(Stage::Basic), hp: Some(170), energy_type: Some(EnergyType::Lightning),
            weakness: Some(TypeMultiplier { energy_type: EnergyType::Fighting, multiplier: 2 }),
            resistance: Some(TypeMultiplier { energy_type: EnergyType::Fighting, multiplier: -30 }),
            retreat_cost: Some(1), mechanic: Some(Mechanic::V),
            attacks: vec![], abilities: vec![], provides_energy: None, damage_modifier: None, retreat_modifier: None,
        },
        CardDef {
            id: CardDefId::new("CS5bC", "049"),
            name: String::from_str("Lumineon V"), name_en: String::from_str("Lumineon V"), set_code: String::from_str("CS5bC"),
            card_type: CardType::Pokemon, stage: Some(Stage::Basic), hp: Some(170), energy_type: Some(EnergyType::Water),
            weakness: Some(TypeMultiplier { energy_type: EnergyType::Lightning, multiplier: 2 }),
            resistance: Some(TypeMultiplier { energy_type: EnergyType::Fighting, multiplier: -30 }),
            retreat_cost: Some(2), mechanic: Some(Mechanic::V),
            attacks: vec![], abilities: vec![], provides_energy: None, damage_modifier: None, retreat_modifier: None,
        },
        CardDef {
            id: CardDefId::new("CS5bC", "052"),
            name: String::from_str("Manaphy"),
            name_en: String::from_str("Manaphy"),
            set_code: String::from_str("CS5bC"),
            card_type: CardType::Pokemon,
            stage: Some(Stage::Basic),
            hp: Some(70),
            energy_type: Some(EnergyType::Water),
            weakness: Some(TypeMultiplier { energy_type: EnergyType::Lightning, multiplier: 2 }),
            resistance: Some(TypeMultiplier { energy_type: EnergyType::Fighting, multiplier: -30 }),
            retreat_cost: Some(1),
            mechanic: None,
            attacks: vec![],
            abilities: vec![
                Ability {
                    name: String::from_str("Awaken"),
                    text: String::from_str("Prevent all damage done to your Benched Pokemon by attacks."),
                    effect_id: String::from_str("ability_awaken"),
                }
            ],
            provides_energy: None,
            damage_modifier: None,
            retreat_modifier: None,
        },
        CardDef {
            id: CardDefId::new("CSV6bC", "123"),
            name: String::from_str("Lost Vacuum"), name_en: String::from_str("Lost Vacuum"), set_code: String::from_str("CSV6bC"),
            card_type: CardType::Item, stage: None, hp: None, energy_type: None, weakness: None, resistance: None,
            retreat_cost: None, mechanic: None, attacks: vec![], abilities: vec![], provides_energy: None, damage_modifier: None, retreat_modifier: None,
        }
    ];
    proof {
        assert(v@[0]@ =~~= preset_def_72());
        assert(v@[1]@ =~~= preset_def_73());
        assert(v@[2]@ =~~= preset_def_74());
        assert(v@[3]@ =~~= preset_def_75());
        assert(v@[4]@ =~~= preset_def_76());
        assert(v@[5]@ =~~= preset_def_77());
        assert(v@[6]@ =~~= preset_def_78());
        assert(v@[7]@ =~~= preset_def_79());
        assert(v@[8]@ =~~= preset_def_80());
    }
    v
}

/// The preset definitions, in order of `key_code`, each identifier once.
pub open spec fn preset_registry(defs: Seq<CardDef>) -> bool {
    &&& defs.len() == 81
    &&& defs[0]@ == preset_def_0()
    &&& defs[1]@ == preset_def_1()
    &&& defs[2]@ == preset_def_2()
    &&& defs[3]@ == preset_def_3()
    &&& defs[4]@ == preset_def_4()
    &&& defs[5]@ == preset_def_5()
    &&& defs[6]@ == preset_def_6()
    &&& defs[7]@ == preset_def_7()
    &&& defs[8]@ == preset_def_8()
    &&& defs[9]@ == preset_def_9()
    &&& defs[10]@ == preset_def_10()
    &&& defs[11]@ == preset_def_11()
    &&& defs[12]@ == preset_def_12()
    &&& defs[13]@ == preset_def_13()
    &&& defs[14]@ == preset_def_14()
    &&& defs[15]@ == preset_def_15()
    &&& defs[16]@ == preset_def_16()
    &&& defs[17]@ == preset_def_17()
    &&& defs[18]@ == preset_def_18()
    &&& defs[19]@ == preset_def_19()
    &&& defs[20]@ == preset_def_20()
    &&& defs[21]@ == preset_def_21()
    &&& defs[22]@ == preset_def_22()
    &&& defs[23]@ == preset_def_23()
    &&& defs[24]@ == preset_def_24()
    &&& defs[25]@ == preset_def_25()
    &&& defs[26]@ == preset_def_26()
    &&& defs[27]@ == preset_def_27()
    &&& defs[28]@ == preset_def_28()
    &&& defs[29]@ == preset_def_29()
    &&& defs[30]@ == preset_def_30()
    &&& defs[31]@ == preset_def_31()
    &&& defs[32]@ == preset_def_32()
    &&& defs[33]@ == preset_def_33()
    &&& defs[34]@ == preset_def_34()
    &&& defs[35]@ == preset_def_35()
    &&& defs[36]@ == preset_def_36()
    &&& defs[37]@ == preset_def_37()
    &&& defs[38]@ == preset_def_38()
    &&& defs[39]@ == preset_def_39()
    &&& defs[40]@ == preset_def_40()
    &&& defs[41]@ == preset_def_41()
    &&& defs[42]@ == preset_def_42()
    &&& defs[43]@ == preset_def_43()
    &&& defs[44]@ == preset_def_44()
    &&& defs[45]@ == preset_def_45()
    &&& defs[46]@ == preset_def_46()
    &&& defs[47]@ == preset_def_47()
    &&& defs[48]@ == preset_def_48()
    &&& defs[49]@ == preset_def_49()
    &&& defs[50]@ == preset_def_50()
    &&& defs[51]@ == preset_def_51()
    &&& defs[52]@ == preset_def_52()
    &&& defs[53]@ == preset_def_53()
    &&& defs[54]@ == preset_def_54()
    &&& defs[55]@ == preset_def_55()
    &&& defs[56]@ == preset_def_56()
    &&& defs[57]@ == preset_def_57()
    &&& defs[58]@ == preset_def_58()
    &&& defs[59]@ == preset_def_59()
    &&& defs[60]@ == preset_def_60()
    &&& defs[61]@ == preset_def_61()
    &&& defs[62]@ == preset_def_62()
    &&& defs[63]@ == preset_def_63()
    &&& defs[64]@ == preset_def_64()
    &&& defs[65]@ == preset_def_65()
    &&& defs[66]@ == preset_def_66()
    &&& defs[67]@ == preset_def_67()
    &&& defs[68]@ == preset_def_68()
    &&& defs[69]@ == preset_def_69()
    &&& defs[70]@ == preset_def_70()
    &&& defs[71]@ == preset_def_71()
    &&& defs[72]@ == preset_def_72()
    &&& defs[73]@ == preset_def_73()
    &&& defs[74]@ == preset_def_74()
    &&& defs[75]@ == preset_def_75()
    &&& defs[76]@ == preset_def_76()
    &&& defs[77]@ == preset_def_77()
    &&& defs[78]@ == preset_def_78()
    &&& defs[79]@ == preset_def_79()
    &&& defs[80]@ == preset_def_80()
    &&& forall|i: int, j: int| 0 <= i < j < defs.len() ==> defs[i].id.0@ != defs[j].id.0@
}

/// The registry of every card definition the decks of this crate use, in
/// this order (by `key_code`), each identifier once.
pub fn load_miraidon_charizard_cards() -> (r: CardRegistry)
    ensures
        preset_registry(r@),
        forall|i: int| 0 <= i < r@.len() ==> r.spec_get(#[trigger] r@[i].id.0@) == Some(r@[i]),
{
    let mut cards = preset_group_0();
    let mut g1 = preset_group_1();
    cards.append(&mut g1);
    let mut g2 = preset_group_2();
    cards.append(&mut g2);
    let mut g3 = preset_group_3();
    cards.append(&mut g3);
    let mut g4 = preset_group_4();
    cards.append(&mut g4);
    let mut g5 = preset_group_5();
    cards.append(&mut g5);
    let mut g6 = preset_group_6();
    cards.append(&mut g6);
    let mut g7 = preset_group_7();
    cards.append(&mut g7);
    let mut g8 = preset_group_8();
    cards.append(&mut g8);
    proof {
        lemma_codes_0();
        lemma_codes_1();
        lemma_codes_2();
        lemma_codes_3();
        lemma_codes_4();
        lemma_codes_5();
        lemma_codes_6();
        lemma_codes_7();
        lemma_codes_8();
        let s = Seq::new(cards@.len(), |i: int| key_code(cards@[i].id.0@));
        assert forall|k: int| 0 <= k < s.len() - 1 implies #[trigger] steps_up(s, k) by {
            // The key code of each entry is known; split on the entry.
            if k == 0 {
            } else if k == 1 {
            } else if k == 2 {
            } else if k == 3 {
            } else if k == 4 {
            } else if k == 5 {
            } else if k == 6 {
            } else if k == 7 {
            } else if k == 8 {
            } else if k == 9 {
            } else if k == 10 {
            } else if k == 11 {
            } else if k == 12 {
            } else if k == 13 {
            } else if k == 14 {
            } else if k == 15 {
            } else if k == 16 {
            } else if k == 17 {
            } else if k == 18 {
            } else if k == 19 {
            } else if k == 20 {
            } else if k == 21 {
            } else if k == 22 {
            } else if k == 23 {
            } else if k == 24 {
            } else if k == 25 {
            } else if k == 26 {
            } else if k == 27 {
            } else if k == 28 {
            } else if k == 29 {
            } else if k == 30 {
            } else if k == 31 {
            } else if k == 32 {
            } else if k == 33 {
            } else if k == 34 {
            } else if k == 35 {
            } else if k == 36 {
            } else if k == 37 {
            } else if k == 38 {
            } else if k == 39 {
            } else if k == 40 {
            } else if k == 41 {
            } else if k == 42 {
            } else if k == 43 {
            } else if k == 44 {
            } else if k == 45 {
            } else if k == 46 {
            } else if k == 47 {
            } else if k == 48 {
            } else if k == 49 {
            } else if k == 50 {
            } else if k == 51 {
            } else if k == 52 {
            } else if k == 53 {
            } else if k == 54 {
            } else if k == 55 {
            } else if k == 56 {
            } else if k == 57 {
            } else if k == 58 {
            } else if k == 59 {
            } else if k == 60 {
            } else if k == 61 {
            } else if k == 62 {
            } else if k == 63 {
            } else if k == 64 {
            } else if k == 65 {
            } else if k == 66 {
            } else if k == 67 {
            } else if k == 68 {
            } else if k == 69 {
            } else if k == 70 {
            } else if k == 71 {
            } else if k == 72 {
            } else if k == 73 {
            } else if k == 74 {
            } else if k == 75 {
            } else if k == 76 {
            } else if k == 77 {
            } else if k == 78 {
            } else if k == 79 {
            }
        }
        assert forall|i: int, j: int| 0 <= i < j < cards@.len() implies cards@[i].id.0@ != cards@[j].id.0@ by {
            lemma_increasing(s, i, j);
        }
        assert forall|i: int| 0 <= i < cards@.len() implies find_def(cards@, #[trigger] cards@[i].id.0@) == Some(cards@[i]) by {
            lemma_find_def_at(cards@, cards@[i].id.0@, i);
        }
    }
    CardRegistry::from_defs(cards)
}

} // verus!
