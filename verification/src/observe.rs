//! What a player can see of the game: the public information of the state.

use vstd::prelude::*;
use vstd::string::StringExecFns;

use crate::card::{CardDef, EnergyType, Stage};
use crate::state::{spec_phase_name, spec_top_card, GameState, GameView, Phase, PlayerId, PokemonSlot, SlotView};
use crate::MAX_BENCH_SIZE;

verus! {

/// Public information about a Pokemon in play.
#[derive(Debug, Clone)]
pub struct PokemonObservation {
    pub hp: u16,
    pub max_hp: u16,
    pub damage: u16,
    pub energy_count: usize,
    pub has_tool: bool,
    pub is_ex: bool,
    pub is_v: bool,
    pub is_vstar: bool,
    /// The stage as written by `Option<Stage>`'s debug text, e.g. `Some(Basic)`.
    pub stage: String,
    /// The energy type's name, empty when the card has none.
    pub energy_type: String,
    pub attack_count: usize,
}

/// What player `player_id` observes of the game.
#[derive(Debug, Clone)]
pub struct Observation {
    pub player_id: PlayerId,
    pub turn: u16,
    pub phase: String,
    pub player_deck_size: usize,
    pub opponent_deck_size: usize,
    pub player_hand_size: usize,
    pub opponent_hand_size: usize,
    pub player_prizes: usize,
    pub opponent_prizes: usize,
    pub player_active: Option<PokemonObservation>,
    pub opponent_active: Option<PokemonObservation>,
    pub player_bench: Vec<Option<PokemonObservation>>,
    pub opponent_bench: Vec<Option<PokemonObservation>>,
    pub player_stadium: Option<String>,
    pub opponent_stadium: Option<String>,
    pub can_attack: bool,
    pub attack_locked: bool,
}

/// The debug text of a stage.
pub open spec fn spec_stage_text(s: Option<Stage>) -> Seq<char> {
    match s {
        Some(Stage::Basic) => "Some(Basic)"@,
        Some(Stage::Stage1) => "Some(Stage1)"@,
        Some(Stage::Stage2) => "Some(Stage2)"@,
        None => "None"@,
    }
}

/// The name of an energy type (empty for none).
pub open spec fn spec_energy_text(e: Option<EnergyType>) -> Seq<char> {
    match e {
        Some(EnergyType::Fire) => "Fire"@,
        Some(EnergyType::Water) => "Water"@,
        Some(EnergyType::Grass) => "Grass"@,
        Some(EnergyType::Lightning) => "Lightning"@,
        Some(EnergyType::Psychic) => "Psychic"@,
        Some(EnergyType::Fighting) => "Fighting"@,
        Some(EnergyType::Darkness) => "Darkness"@,
        Some(EnergyType::Metal) => "Metal"@,
        Some(EnergyType::Dragon) => "Dragon"@,
        Some(EnergyType::Colorless) => "Colorless"@,
        None => Seq::empty(),
    }
}

fn stage_text(s: Option<Stage>) -> (r: String)
    ensures
        r@ == spec_stage_text(s),
{
    proof {
        reveal_strlit("Some(Basic)");
        reveal_strlit("Some(Stage1)");
        reveal_strlit("Some(Stage2)");
        reveal_strlit("None");
    }
    match s {
        Some(Stage::Basic) => String::from_str("Some(Basic)"),
        Some(Stage::Stage1) => String::from_str("Some(Stage1)"),
        Some(Stage::Stage2) => String::from_str("Some(Stage2)"),
        None => String::from_str("None"),
    }
}

fn energy_text(e: Option<EnergyType>) -> (r: String)
    ensures
        r@ == spec_energy_text(e),
{
    match e {
        Some(EnergyType::Fire) => String::from_str("Fire"),
        Some(EnergyType::Water) => String::from_str("Water"),
        Some(EnergyType::Grass) => String::from_str("Grass"),
        Some(EnergyType::Lightning) => String::from_str("Lightning"),
        Some(EnergyType::Psychic) => String::from_str("Psychic"),
        Some(EnergyType::Fighting) => String::from_str("Fighting"),
        Some(EnergyType::Darkness) => String::from_str("Darkness"),
        Some(EnergyType::Metal) => String::from_str("Metal"),
        Some(EnergyType::Dragon) => String::from_str("Dragon"),
        Some(EnergyType::Colorless) => String::from_str("Colorless"),
        None => String::new(),
    }
}

/// `o` shows the Pokemon `s` whose top card has definition `d`.
pub open spec fn shows_pokemon(o: PokemonObservation, s: SlotView, d: CardDef) -> bool {
    let max_hp = match d.hp {
        Some(h) => h,
        None => 0,
    };
    &&& o.max_hp == max_hp
    &&& o.hp == (if max_hp >= s.damage {
        (max_hp - s.damage) as u16
    } else {
        0
    })
    &&& o.damage == s.damage
    &&& o.energy_count == s.energies.len()
    &&& o.has_tool == (s.tool is Some)
    &&& o.is_ex == (d.mechanic == Some(crate::card::Mechanic::Ex))
    &&& o.is_v == (d.mechanic == Some(crate::card::Mechanic::V))
    &&& o.is_vstar == (d.mechanic == Some(crate::card::Mechanic::Vstar))
    &&& o.stage@ == spec_stage_text(d.stage)
    &&& o.energy_type@ == spec_energy_text(d.energy_type)
    &&& o.attack_count == d.attacks@.len()
}

/// `o` is the observation of the Pokemon `s`: none without a top card or
/// a definition for it.
pub open spec fn observes(g: GameView, o: Option<PokemonObservation>, s: Option<SlotView>) -> bool {
    match s {
        None => o is None,
        Some(slot) => match spec_top_card(slot) {
            None => o is None,
            Some(id) => match g.def_of(id) {
                None => o is None,
                Some(d) => o matches Some(ob) && shows_pokemon(ob, slot, d),
            },
        },
    }
}

/// The stadium's definition identifier, when the player has one in play.
pub open spec fn stadium_text(g: GameView, p: PlayerId) -> Option<Seq<char>> {
    match g.player(p).stadium {
        Some(st) => match g.card(st.card_id) {
            Some(c) => Some(c.def_id.0@),
            None => None,
        },
        None => None,
    }
}

/// `o` is a text or none as `t` says.
pub open spec fn opt_text(o: Option<String>, t: Option<Seq<char>>) -> bool {
    match (o, t) {
        (Some(s), Some(x)) => s@ == x,
        (None, None) => true,
        _ => false,
    }
}

/// What `from_state` returns for `player` in `g`.
pub open spec fn observation_post(g: GameView, player: PlayerId, r: Observation) -> bool {
    let o = player.spec_opponent();
    &&& r.player_id == player
    &&& r.turn == g.turn.turn_number
    &&& r.phase@ == spec_phase_name(g.turn.phase)
    &&& r.player_deck_size == g.player(player).deck.len()
    &&& r.opponent_deck_size == g.player(o).deck.len()
    &&& r.player_hand_size == g.player(player).hand.len()
    &&& r.opponent_hand_size == g.player(o).hand.len()
    &&& r.player_prizes == g.player(player).prizes.len()
    &&& r.opponent_prizes == g.player(o).prizes.len()
    &&& observes(g, r.player_active, g.player(player).active)
    &&& observes(g, r.opponent_active, g.player(o).active)
    &&& r.player_bench@.len() == g.player(player).bench.len()
    &&& (forall|i: int| 0 <= i < r.player_bench@.len() ==> observes(g, #[trigger] r.player_bench@[i], g.player(player).bench[i]))
    &&& r.opponent_bench@.len() == g.player(o).bench.len()
    &&& (forall|i: int| 0 <= i < r.opponent_bench@.len() ==> observes(g, #[trigger] r.opponent_bench@[i], g.player(o).bench[i]))
    &&& opt_text(r.player_stadium, stadium_text(g, player))
    &&& opt_text(r.opponent_stadium, stadium_text(g, o))
    &&& r.can_attack == (g.turn.active_player == player && g.turn.phase == Phase::Play)
    &&& r.attack_locked == g.turn.attack_locked
}

/// The two states differ at most in what `player` cannot see: the order and
/// identity of the cards in both decks, both hands and both prize piles
/// (their sizes agree), the discard piles, and everything else outside play.
pub open spec fn same_public_view(g1: GameView, g2: GameView, player: PlayerId) -> bool {
    &&& g1.players.len() == 2
    &&& g2.players.len() == 2
    &&& g1.turn == g2.turn
    &&& g1.registry == g2.registry
    &&& g1.cards == g2.cards
    &&& forall|q: PlayerId|
        q.0 < 2 ==> {
            &&& (#[trigger] g1.player(q)).deck.len() == g2.player(q).deck.len()
            &&& g1.player(q).hand.len() == g2.player(q).hand.len()
            &&& g1.player(q).prizes.len() == g2.player(q).prizes.len()
            &&& g1.player(q).active == g2.player(q).active
            &&& g1.player(q).bench == g2.player(q).bench
            &&& g1.player(q).stadium == g2.player(q).stadium
        }
}

/// The HP shown for an observed Pokemon is its maximum HP less its damage,
/// and 0 once the damage reaches the maximum.
pub open spec fn hp_shown_right(ob: PokemonObservation) -> bool {
    &&& (ob.damage <= ob.max_hp ==> ob.hp + ob.damage == ob.max_hp)
    &&& (ob.damage > ob.max_hp ==> ob.hp == 0)
}

/// What an observation shows of a Pokemon in play: the damage on its slot,
/// the HP of its top card as maximum, and the HP left (`hp_shown_right`).
pub proof fn lemma_observed_hp(g: GameView, o: Option<PokemonObservation>, s: Option<SlotView>)
    requires
        observes(g, o, s),
        o is Some,
    ensures
        o matches Some(ob) && s matches Some(sv) && spec_top_card(sv) matches Some(id) && g.def_of(id) matches Some(d)
            && ob.damage == sv.damage && ob.max_hp == (match d.hp {
            Some(h) => h,
            None => 0u16,
        }) && hp_shown_right(ob),
{
}

/// Every Pokemon in an observation, on either side, shows the HP it has
/// left: maximum HP less damage, floored at 0.
pub proof fn lemma_observation_hp(g: GameView, player: PlayerId, r: Observation)
    requires
        player.0 < 2,
        observation_post(g, player, r),
    ensures
        r.player_active matches Some(ob) ==> hp_shown_right(ob),
        r.opponent_active matches Some(ob) ==> hp_shown_right(ob),
        forall|i: int| 0 <= i < r.player_bench@.len() ==> (#[trigger] r.player_bench@[i] matches Some(ob) ==> hp_shown_right(ob)),
        forall|i: int| 0 <= i < r.opponent_bench@.len() ==> (#[trigger] r.opponent_bench@[i] matches Some(ob) ==> hp_shown_right(ob)),
{
    let o = player.spec_opponent();
    if r.player_active is Some {
        lemma_observed_hp(g, r.player_active, g.player(player).active);
    }
    if r.opponent_active is Some {
        lemma_observed_hp(g, r.opponent_active, g.player(o).active);
    }
    assert forall|i: int| 0 <= i < r.player_bench@.len() implies (#[trigger] r.player_bench@[i] matches Some(ob) ==> hp_shown_right(ob)) by {
        if r.player_bench@[i] is Some {
            lemma_observed_hp(g, r.player_bench@[i], g.player(player).bench[i]);
        }
    }
    assert forall|i: int| 0 <= i < r.opponent_bench@.len() implies (#[trigger] r.opponent_bench@[i] matches Some(ob) ==> hp_shown_right(ob)) by {
        if r.opponent_bench@[i] is Some {
            lemma_observed_hp(g, r.opponent_bench@[i], g.player(o).bench[i]);
        }
    }
}

/// Hidden information does not show: two states that agree on what
/// `player` can see (sizes of the decks, hands and prize piles; the Pokemon
/// in play; the stadiums; the turn) give the same observation, whatever
/// the cards in the decks, the hands and the prizes are.
pub proof fn lemma_hidden_information(g1: GameView, g2: GameView, player: PlayerId, r: Observation)
    requires
        player.0 < 2,
        same_public_view(g1, g2, player),
        observation_post(g1, player, r),
    ensures
        observation_post(g2, player, r),
{
    let o = player.spec_opponent();
    assert(g1.player(player).deck.len() == g2.player(player).deck.len());
    assert(g1.player(o).deck.len() == g2.player(o).deck.len());
}

impl Observation {
    /// The observation of the Pokemon in `slot`, if its top card is known.
    pub fn pokemon_to_observation(state: &GameState, slot: &PokemonSlot) -> (r: Option<PokemonObservation>)
        ensures
            observes(state@, r, Some(slot@)),
    {
        let top_card = match slot.top_card() {
            Some(c) => c,
            None => return None,
        };
        let card_def = match state.get_card_def(top_card) {
            Some(d) => d,
            None => return None,
        };
        let max_hp: u16 = match card_def.hp {
            Some(h) => h,
            None => 0,
        };
        Some(PokemonObservation {
            hp: max_hp.saturating_sub(slot.damage),
            max_hp,
            damage: slot.damage,
            energy_count: slot.energies.len(),
            has_tool: slot.tool.is_some(),
            is_ex: card_def.is_ex(),
            is_v: card_def.is_v(),
            is_vstar: card_def.is_vstar(),
            stage: stage_text(card_def.stage),
            energy_type: energy_text(card_def.energy_type),
            attack_count: card_def.attacks.len(),
        })
    }

    fn observe_slot(state: &GameState, slot: &Option<PokemonSlot>) -> (r: Option<PokemonObservation>)
        ensures
            observes(state@, r, crate::state::opt_slot_view(*slot)),
    {
        match slot {
            Some(s) => Self::pokemon_to_observation(state, s),
            None => None,
        }
    }

    fn observe_bench(state: &GameState, player: PlayerId) -> (r: Vec<Option<PokemonObservation>>)
        requires
            player.0 < 2,
        ensures
            r@.len() == state@.player(player).bench.len(),
            forall|i: int| 0 <= i < r@.len() ==> observes(state@, #[trigger] r@[i], state@.player(player).bench[i]),
    {
        let bench = &state.players[player.0].bench;
        let mut r: Vec<Option<PokemonObservation>> = Vec::new();
        let mut i: usize = 0;
        while i < bench.len()
            invariant
                player.0 < 2,
                bench@ == state.players@[player.0 as int].bench@,
                i <= bench@.len(),
                r@.len() == i,
                state@.player(player).bench.len() == bench@.len(),
                forall|j: int| 0 <= j < i ==> observes(state@, #[trigger] r@[j], state@.player(player).bench[j]),
            decreases bench@.len() - i,
        {
            proof {
                assert(state@.player(player).bench[i as int] == crate::state::opt_slot_view(bench@[i as int]));
            }
            r.push(Self::observe_slot(state, &bench[i]));
            i = i + 1;
        }
        r
    }

    fn stadium_of(state: &GameState, player: PlayerId) -> (r: Option<String>)
        requires
            player.0 < 2,
        ensures
            opt_text(r, stadium_text(state@, player)),
    {
        match &state.players[player.0].stadium {
            Some(st) => match state.get_card(st.card_id) {
                Some(c) => Some(c.def_id.0.clone()),
                None => None,
            },
            None => None,
        }
    }

    /// What `player` observes: sizes of decks, hands and prize piles, the
    /// Pokemon in play of both sides, the stadiums, and whether it may attack.
    pub fn from_state(state: &GameState, player: PlayerId) -> (r: Self)
        requires
            player.0 < 2,
        ensures
            observation_post(state@, player, r),
    {
        let opponent = player.opponent();
        let player_state = &state.players[player.0];
        let opponent_state = &state.players[opponent.0];
        Observation {
            player_id: player,
            turn: state.turn.turn_number,
            phase: String::from_str(state.turn.phase.name()),
            player_deck_size: player_state.deck.len(),
            opponent_deck_size: opponent_state.deck.len(),
            player_hand_size: player_state.hand.len(),
            opponent_hand_size: opponent_state.hand.len(),
            player_prizes: player_state.prizes.len(),
            opponent_prizes: opponent_state.prizes.len(),
            player_active: Self::observe_slot(state, &player_state.active),
            opponent_active: Self::observe_slot(state, &opponent_state.active),
            player_bench: Self::observe_bench(state, player),
            opponent_bench: Self::observe_bench(state, opponent),
            player_stadium: Self::stadium_of(state, player),
            opponent_stadium: Self::stadium_of(state, opponent),
            can_attack: state.turn.active_player == player && state.turn.phase == Phase::Play,
            attack_locked: state.turn.attack_locked,
        }
    }

    /// Length of the extended feature vector.
    pub fn vector_dim_extended() -> (r: usize)
        ensures
            r == 140,
    {
        140
    }
}

} // verus!
