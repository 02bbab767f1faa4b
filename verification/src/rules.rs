//! Rule validation: whether an action is legal in a state.

use vstd::prelude::*;
use vstd::string::StringExecFns;

use crate::action::{Action, Choices};
use crate::card::{CardDef, CardType, EnergyType, Stage};
use crate::error::{err, EngineError, EngineResult, ErrorKind, ErrorView};
use crate::state::{
    contains_card, contains_string, spec_top_card, CardInstanceId, GameState, GameView, Phase,
    PlayerId, PlayerView, SlotRef, TurnState,
};
use crate::MAX_BENCH_SIZE;

verus! {

/// The definition is known and is a Basic Pokemon.
pub open spec fn is_basic_def(o: Option<CardDef>) -> bool {
    match o {
        Some(d) => d.spec_is_basic_pokemon(),
        None => false,
    }
}

/// Whether some card of `cards` is a Basic Pokemon.
pub open spec fn spec_has_basic(g: GameView, cards: Seq<CardInstanceId>) -> bool {
    exists|i: int| 0 <= i < cards.len() && is_basic_def(#[trigger] g.def_of(cards[i]))
}

/// The key under which playing a Supporter is recorded for the turn: one
/// key for every Supporter, as only one Supporter may be played per turn.
pub open spec fn spec_supporter_key() -> Seq<char> {
    "supporter"@
}

pub open spec fn spec_play_stadium_key() -> Seq<char> {
    "play_stadium"@
}

pub open spec fn spec_check_setup_choose_active(g: GameView, p: PlayerId, card: CardInstanceId) -> Option<ErrorView> {
    let ps = g.player(p);
    if !ps.hand.contains(card) {
        err(ErrorKind::InvalidAction, "Card not in hand"@)
    } else {
        match g.def_of(card) {
            None => err(ErrorKind::InvalidCard, "Unknown card"@),
            Some(d) => if !d.spec_is_pokemon() {
                err(ErrorKind::InvalidAction, "Not a Pokemon"@)
            } else if d.stage != Some(Stage::Basic) {
                err(ErrorKind::InvalidAction, "Not a basic Pokemon"@)
            } else if ps.active is Some {
                err(ErrorKind::InvalidAction, "Already have active Pokemon"@)
            } else {
                None
            },
        }
    }
}

/// The error for the first card of `cards` that is not a Basic Pokemon in the hand.
pub open spec fn spec_check_bench_cards(g: GameView, p: PlayerId, cards: Seq<CardInstanceId>) -> Option<ErrorView>
    decreases cards.len(),
{
    if cards.len() == 0 {
        None
    } else {
        let card = cards[0];
        if !g.player(p).hand.contains(card) {
            err(ErrorKind::InvalidAction, "Card not in hand"@)
        } else {
            match g.def_of(card) {
                None => err(ErrorKind::InvalidCard, "Unknown card"@),
                Some(d) => if !d.spec_is_basic_pokemon() {
                    err(ErrorKind::InvalidAction, "Not a basic Pokemon"@)
                } else {
                    spec_check_bench_cards(g, p, cards.drop_first())
                },
            }
        }
    }
}

pub open spec fn spec_check_setup_bench_basics(g: GameView, p: PlayerId, cards: Seq<CardInstanceId>) -> Option<ErrorView> {
    if cards.len() > MAX_BENCH_SIZE {
        err(ErrorKind::InvalidAction, "Too many bench Pokemon"@)
    } else {
        spec_check_bench_cards(g, p, cards)
    }
}

pub open spec fn spec_check_mulligan(g: GameView, p: PlayerId) -> Option<ErrorView> {
    if g.turn.phase != Phase::Mulligan && g.turn.phase != Phase::Setup {
        err(ErrorKind::InvalidAction, "Not in setup or mulligan phase"@)
    } else if spec_has_basic(g, g.player(p).hand) {
        err(ErrorKind::InvalidAction, "Hand has basic Pokemon, cannot mulligan"@)
    } else {
        None
    }
}

pub open spec fn spec_check_play_basic(g: GameView, p: PlayerId, card: CardInstanceId) -> Option<ErrorView> {
    let ps = g.player(p);
    if !ps.hand.contains(card) {
        err(ErrorKind::InvalidAction, "Card not in hand"@)
    } else {
        match g.def_of(card) {
            None => err(ErrorKind::InvalidCard, "Unknown card"@),
            Some(d) => if !d.spec_is_basic_pokemon() {
                err(ErrorKind::InvalidAction, "Not a basic Pokemon"@)
            } else if ps.bench_count() >= MAX_BENCH_SIZE {
                err(ErrorKind::InvalidAction, "Bench is full"@)
            } else {
                None
            },
        }
    }
}

pub open spec fn spec_check_evolve(g: GameView, p: PlayerId, card: CardInstanceId, target: SlotRef) -> Option<ErrorView> {
    let ps = g.player(p);
    if !ps.hand.contains(card) {
        err(ErrorKind::InvalidAction, "Card not in hand"@)
    } else {
        match ps.slot(target) {
            None => err(ErrorKind::InvalidTarget, "Invalid slot"@),
            Some(s) => match g.def_of(card) {
                None => err(ErrorKind::InvalidCard, "Unknown card"@),
                Some(d) => {
                    let base = match spec_top_card(s) {
                        Some(id) => g.def_of(id),
                        None => None,
                    };
                    match base {
                        None => err(ErrorKind::CannotEvolve, "Unknown Pokemon"@),
                        Some(b) => if !d.spec_evolves_from(&b) {
                            err(ErrorKind::CannotEvolve, "Cannot evolve from this Pokemon"@)
                        } else if s.turn_put_in_play == g.turn.turn_number {
                            err(ErrorKind::CannotEvolve, "Cannot evolve same turn as put in play"@)
                        } else {
                            None
                        },
                    }
                },
            },
        }
    }
}

pub open spec fn spec_check_attach_energy(g: GameView, p: PlayerId, card: CardInstanceId, target: SlotRef) -> Option<ErrorView> {
    let ps = g.player(p);
    if !ps.hand.contains(card) {
        err(ErrorKind::InvalidAction, "Card not in hand"@)
    } else {
        match g.def_of(card) {
            None => err(ErrorKind::InvalidCard, "Unknown card"@),
            Some(d) => if !d.spec_is_energy() {
                err(ErrorKind::InvalidAction, "Not an energy card"@)
            } else {
                match ps.slot(target) {
                    None => err(ErrorKind::InvalidTarget, "Invalid slot"@),
                    Some(s) => if s.cards.len() == 0 {
                        err(ErrorKind::InvalidTarget, "Slot is empty"@)
                    } else {
                        None
                    },
                }
            },
        }
    }
}

pub open spec fn spec_check_attach_tool(g: GameView, p: PlayerId, card: CardInstanceId, target: SlotRef) -> Option<ErrorView> {
    let ps = g.player(p);
    if !ps.hand.contains(card) {
        err(ErrorKind::InvalidAction, "Card not in hand"@)
    } else {
        match g.def_of(card) {
            None => err(ErrorKind::InvalidCard, "Unknown card"@),
            Some(d) => if d.card_type != CardType::Tool {
                err(ErrorKind::InvalidAction, "Not a tool card"@)
            } else {
                match ps.slot(target) {
                    None => err(ErrorKind::InvalidTarget, "Invalid slot"@),
                    Some(s) => if s.cards.len() == 0 {
                        err(ErrorKind::InvalidTarget, "Slot is empty"@)
                    } else if s.tool is Some {
                        err(ErrorKind::InvalidAction, "Pokemon already has a tool"@)
                    } else {
                        None
                    },
                }
            },
        }
    }
}

pub open spec fn spec_check_play_trainer(g: GameView, p: PlayerId, card: CardInstanceId) -> Option<ErrorView> {
    let ps = g.player(p);
    if !ps.hand.contains(card) {
        err(ErrorKind::InvalidAction, "Card not in hand"@)
    } else {
        match g.def_of(card) {
            None => err(ErrorKind::InvalidCard, "Unknown card"@),
            Some(d) => if !d.spec_is_trainer() {
                err(ErrorKind::InvalidAction, "Not a trainer card"@)
            } else if d.card_type == CardType::Supporter && ps.has_used(spec_supporter_key()) {
                err(ErrorKind::InvalidAction, "Already used a Supporter this turn"@)
            } else {
                None
            },
        }
    }
}

pub open spec fn spec_check_play_stadium(g: GameView, p: PlayerId, card: CardInstanceId) -> Option<ErrorView> {
    let ps = g.player(p);
    if !ps.hand.contains(card) {
        err(ErrorKind::InvalidAction, "Card not in hand"@)
    } else {
        match g.def_of(card) {
            None => err(ErrorKind::InvalidCard, "Unknown card"@),
            Some(d) => if d.card_type != CardType::Stadium {
                err(ErrorKind::InvalidAction, "Not a stadium card"@)
            } else if ps.has_used(spec_play_stadium_key()) {
                err(ErrorKind::InvalidAction, "Already played a stadium this turn"@)
            } else {
                None
            },
        }
    }
}

pub open spec fn spec_check_use_ability(g: GameView, p: PlayerId, source: SlotRef) -> Option<ErrorView> {
    match g.player(p).slot(source) {
        None => err(ErrorKind::InvalidTarget, "Invalid slot"@),
        Some(s) => if s.cards.len() == 0 {
            err(ErrorKind::InvalidTarget, "Slot is empty"@)
        } else if s.used_ability_this_turn {
            err(ErrorKind::InvalidAction, "Ability already used this turn"@)
        } else {
            None
        },
    }
}

pub open spec fn spec_check_retreat(g: GameView, p: PlayerId, target: SlotRef) -> Option<ErrorView> {
    let ps = g.player(p);
    match ps.active {
        None => err(ErrorKind::CannotRetreat, "No active Pokemon"@),
        Some(a) => if a.cards.len() == 0 {
            err(ErrorKind::CannotRetreat, "Active slot is empty"@)
        } else {
            match target {
                SlotRef::Bench(i) => if i >= MAX_BENCH_SIZE {
                    err(ErrorKind::InvalidTarget, "Invalid bench index"@)
                } else {
                    match ps.bench[i as int] {
                        None => err(ErrorKind::CannotRetreat, "Bench slot is empty"@),
                        Some(b) => if b.cards.len() == 0 {
                            err(ErrorKind::CannotRetreat, "Bench slot is empty"@)
                        } else {
                            None
                        },
                    }
                },
                SlotRef::Active => err(ErrorKind::CannotRetreat, "Cannot retreat to active"@),
            }
        },
    }
}

pub open spec fn spec_check_attack(g: GameView, p: PlayerId, attack_index: u8) -> Option<ErrorView> {
    match g.player(p).active {
        None => err(ErrorKind::CannotAttack, "No active Pokemon"@),
        Some(a) => if a.cards.len() == 0 {
            err(ErrorKind::CannotAttack, "Active slot is empty"@)
        } else if g.turn.attack_locked {
            err(ErrorKind::CannotAttack, "Attack is locked"@)
        } else {
            match g.def_of(a.cards.last()) {
                None => err(ErrorKind::CannotAttack, "Unknown Pokemon"@),
                Some(d) => if attack_index >= d.attacks@.len() {
                    err(ErrorKind::CannotAttack, "Invalid attack index"@)
                } else if a.status.asleep || a.status.paralyzed {
                    err(ErrorKind::CannotAttack, "Pokemon is asleep or paralyzed"@)
                } else if g.turn.turn_number == 1 && g.turn.first_player == p {
                    err(ErrorKind::CannotAttack, "First player cannot attack on turn 1"@)
                } else {
                    None
                },
            }
        },
    }
}

/// Why `action` is illegal for player `p` in state `g`; `None` when it is legal.
pub open spec fn spec_check_action(g: GameView, p: PlayerId, action: Action) -> Option<ErrorView> {
    match action {
        Action::SetupChooseActive { card } => spec_check_setup_choose_active(g, p, card),
        Action::SetupBenchBasics { cards } => spec_check_setup_bench_basics(g, p, cards@),
        Action::MulliganDraw { .. } => spec_check_mulligan(g, p),
        Action::PlayBasicToBench { card } => spec_check_play_basic(g, p, card),
        Action::Evolve { card, target } => spec_check_evolve(g, p, card, target),
        Action::AttachEnergy { card, target } => spec_check_attach_energy(g, p, card, target),
        Action::AttachTool { card, target } => spec_check_attach_tool(g, p, card, target),
        Action::PlayTrainer { card, .. } => spec_check_play_trainer(g, p, card),
        Action::PlayStadium { card, .. } => spec_check_play_stadium(g, p, card),
        Action::UseAbility { source, .. } => spec_check_use_ability(g, p, source),
        Action::Retreat { target, .. } => spec_check_retreat(g, p, target),
        Action::Attack { attack_index, .. } => spec_check_attack(g, p, attack_index),
        Action::EndTurn => None,
        Action::Pass => None,
    }
}

/// `r` reports the outcome `expected` of a check.
pub open spec fn reports(r: EngineResult<()>, expected: Option<ErrorView>) -> bool {
    match r {
        Ok(_) => expected is None,
        Err(e) => expected == Some(e.spec_view()),
    }
}

/// Occurrences of `t` in `s`.
pub open spec fn count_of(s: Seq<EnergyType>, t: EnergyType) -> nat
    decreases s.len(),
{
    if s.len() == 0 {
        0
    } else {
        count_of(s.drop_last(), t) + if s.last() == t {
            1nat
        } else {
            0nat
        }
    }
}

/// Energy of type `t` that the definition `d` provides.
pub open spec fn provides_of(d: Option<CardDef>, t: EnergyType) -> nat {
    match d {
        Some(def) => match def.provides_energy {
            Some(v) => count_of(v@, t),
            None => 0,
        },
        None => 0,
    }
}

/// Energy of type `t` provided by the attached cards `e`.
pub open spec fn provided_of(g: GameView, e: Seq<CardInstanceId>, t: EnergyType) -> nat
    decreases e.len(),
{
    if e.len() == 0 {
        0
    } else {
        provided_of(g, e.drop_last(), t) + provides_of(g.def_of(e.last()), t)
    }
}

/// Energy units (of any type) that the definition `d` provides.
pub open spec fn provides_len(d: Option<CardDef>) -> nat {
    match d {
        Some(def) => match def.provides_energy {
            Some(v) => v@.len(),
            None => 0,
        },
        None => 0,
    }
}

/// Energy units of any type provided by the attached cards `e`.
pub open spec fn total_provided(g: GameView, e: Seq<CardInstanceId>) -> nat
    decreases e.len(),
{
    if e.len() == 0 {
        0
    } else {
        total_provided(g, e.drop_last()) + provides_len(g.def_of(e.last()))
    }
}

/// The Pokemon at `slot` can pay `cost`: for every non-Colorless type, at
/// least as much attached energy of that type as `cost` asks for, and at
/// least as much energy in all as `cost` has symbols, so that the Colorless
/// symbols are paid by the energy left over.
pub open spec fn spec_has_enough_energy(g: GameView, p: PlayerId, slot: SlotRef, cost: Seq<EnergyType>) -> bool {
    match g.player(p).slot(slot) {
        None => false,
        Some(s) => {
            &&& forall|t: EnergyType|
                t != EnergyType::Colorless ==> #[trigger] count_of(cost, t) <= provided_of(g, s.energies, t)
            &&& cost.len() <= total_provided(g, s.energies)
        },
    }
}

/// Whether the attached cards provide at least `need` energy units in all.
fn provides_total_at_least(state: &GameState, energies: &Vec<CardInstanceId>, need: usize) -> (r: bool)
    ensures
        r == (need <= total_provided(state@, energies@)),
{
    let mut acc: usize = 0;
    let mut i: usize = 0;
    let ghost g = state@;
    while i < energies.len()
        invariant
            g == state@,
            i <= energies@.len(),
            acc <= need,
            acc == if total_provided(g, energies@.subrange(0, i as int)) < need {
                total_provided(g, energies@.subrange(0, i as int))
            } else {
                need as nat
            },
        decreases energies@.len() - i,
    {
        proof {
            assert(energies@.subrange(0, i + 1).drop_last() =~= energies@.subrange(0, i as int));
        }
        let c: usize = match state.get_card_def(energies[i]) {
            Some(d) => match &d.provides_energy {
                Some(v) => v.len(),
                None => 0,
            },
            None => 0,
        };
        if c >= need - acc {
            acc = need;
        } else {
            acc = acc + c;
        }
        i = i + 1;
    }
    proof {
        assert(energies@.subrange(0, i as int) =~= energies@);
    }
    acc == need
}

fn count_in(v: &[EnergyType], t: EnergyType) -> (r: usize)
    ensures
        r == count_of(v@, t),
{
    let mut i: usize = 0;
    let mut c: usize = 0;
    while i < v.len()
        invariant
            i <= v@.len(),
            c == count_of(v@.subrange(0, i as int), t),
            c <= i,
        decreases v@.len() - i,
    {
        proof {
            assert(v@.subrange(0, i + 1).drop_last() =~= v@.subrange(0, i as int));
        }
        if v[i] == t {
            c = c + 1;
        }
        i = i + 1;
    }
    proof {
        assert(v@.subrange(0, i as int) =~= v@);
    }
    c
}

/// Whether the attached cards provide at least `need` energy of type `t`.
fn provides_at_least(state: &GameState, energies: &Vec<CardInstanceId>, t: EnergyType, need: usize) -> (r: bool)
    ensures
        r == (need <= provided_of(state@, energies@, t)),
{
    let mut acc: usize = 0;
    let mut i: usize = 0;
    let ghost g = state@;
    while i < energies.len()
        invariant
            g == state@,
            i <= energies@.len(),
            acc <= need,
            acc == if provided_of(g, energies@.subrange(0, i as int), t) < need {
                provided_of(g, energies@.subrange(0, i as int), t)
            } else {
                need as nat
            },
        decreases energies@.len() - i,
    {
        proof {
            assert(energies@.subrange(0, i + 1).drop_last() =~= energies@.subrange(0, i as int));
        }
        let c: usize = match state.get_card_def(energies[i]) {
            Some(d) => match &d.provides_energy {
                Some(v) => count_in(v.as_slice(), t),
                None => 0,
            },
            None => 0,
        };
        if c >= need - acc {
            acc = need;
        } else {
            acc = acc + c;
        }
        i = i + 1;
    }
    proof {
        assert(energies@.subrange(0, i as int) =~= energies@);
    }
    acc == need
}

/// Rule validator for checking action legality.
#[derive(Debug, Clone, Copy)]
pub struct RuleValidator;

impl Default for RuleValidator {
    fn default() -> (r: Self) {
        RuleValidator
    }
}

impl RuleValidator {
    pub fn new() -> (r: Self) {
        RuleValidator
    }

    /// Whether `action` is legal for `player`; the error says why not.
    pub fn is_legal(&self, state: &GameState, player: PlayerId, action: &Action) -> (r: EngineResult<()>)
        requires
            player.0 < 2,
            state@.wf(),
        ensures
            reports(r, spec_check_action(state@, player, *action)),
    {
        match action {
            Action::SetupChooseActive { card } => self.validate_setup_choose_active(state, player, *card),
            Action::SetupBenchBasics { cards } => self.validate_setup_bench_basics(state, player, cards.as_slice()),
            Action::MulliganDraw { draw: _ } => self.validate_mulligan(state, player),
            Action::PlayBasicToBench { card } => self.validate_play_basic(state, player, *card),
            Action::Evolve { card, target } => self.validate_evolve(state, player, *card, *target),
            Action::AttachEnergy { card, target } => self.validate_attach_energy(state, player, *card, *target),
            Action::AttachTool { card, target } => self.validate_attach_tool(state, player, *card, *target),
            Action::PlayTrainer { card, choices } => self.validate_play_trainer(state, player, *card, choices),
            Action::PlayStadium { card, choices } => self.validate_play_stadium(state, player, *card, choices),
            Action::UseAbility { source, ability_index, choices } => self.validate_use_ability(
                state,
                player,
                *source,
                *ability_index,
                choices,
            ),
            Action::Retreat { target, discard } => self.validate_retreat(state, player, *target, discard.as_slice()),
            Action::Attack { attack_index, choices } => self.validate_attack(state, player, *attack_index, choices),
            Action::EndTurn => Ok(()),
            Action::Pass => Ok(()),
        }
    }

    pub fn validate_setup_choose_active(&self, state: &GameState, player: PlayerId, card: CardInstanceId) -> (r: EngineResult<()>)
        requires
            player.0 < 2,
        ensures
            reports(r, spec_check_setup_choose_active(state@, player, card)),
    {
        let player_state = &state.players[player.0];
        if !contains_card(&player_state.hand, card) {
            return Err(EngineError::invalid_action("Card not in hand"));
        }
        let card_def = match state.get_card_def(card) {
            Some(d) => d,
            None => return Err(EngineError::invalid_card("Unknown card")),
        };
        if !card_def.is_pokemon() {
            return Err(EngineError::invalid_action("Not a Pokemon"));
        }
        if card_def.stage != Some(Stage::Basic) {
            return Err(EngineError::invalid_action("Not a basic Pokemon"));
        }
        if player_state.active.is_some() {
            return Err(EngineError::invalid_action("Already have active Pokemon"));
        }
        Ok(())
    }

    pub fn validate_setup_bench_basics(&self, state: &GameState, player: PlayerId, cards: &[CardInstanceId]) -> (r: EngineResult<()>)
        requires
            player.0 < 2,
        ensures
            reports(r, spec_check_setup_bench_basics(state@, player, cards@)),
    {
        let player_state = &state.players[player.0];
        if cards.len() > MAX_BENCH_SIZE {
            return Err(EngineError::invalid_action("Too many bench Pokemon"));
        }
        let mut i: usize = 0;
        proof {
            assert(cards@.skip(0) =~= cards@);
        }
        while i < cards.len()
            invariant
                i <= cards@.len(),
                cards@.len() <= MAX_BENCH_SIZE,
                player.0 < 2,
                player_state@ == state@.player(player),
                spec_check_bench_cards(state@, player, cards@) == spec_check_bench_cards(
                    state@,
                    player,
                    cards@.skip(i as int),
                ),
            decreases cards@.len() - i,
        {
            let card = cards[i];
            proof {
                assert(cards@.skip(i as int)[0] == card);
                assert(cards@.skip(i as int).drop_first() =~= cards@.skip(i + 1));
            }
            if !contains_card(&player_state.hand, card) {
                return Err(EngineError::invalid_action("Card not in hand"));
            }
            let card_def = match state.get_card_def(card) {
                Some(d) => d,
                None => return Err(EngineError::invalid_card("Unknown card")),
            };
            if !card_def.is_basic_pokemon() {
                return Err(EngineError::invalid_action("Not a basic Pokemon"));
            }
            i = i + 1;
        }
        proof {
            assert(cards@.skip(i as int).len() == 0);
        }
        Ok(())
    }

    /// Whether some card of `cards` is a Basic Pokemon.
    pub fn has_basic(state: &GameState, cards: &Vec<CardInstanceId>) -> (r: bool)
        ensures
            r == spec_has_basic(state@, cards@),
    {
        let mut i: usize = 0;
        while i < cards.len()
            invariant
                i <= cards@.len(),
                forall|j: int| 0 <= j < i ==> !is_basic_def(#[trigger] state@.def_of(cards@[j])),
            decreases cards@.len() - i,
        {
            match state.get_card_def(cards[i]) {
                Some(d) => {
                    if d.is_basic_pokemon() {
                        return true;
                    }
                },
                None => {},
            }
            i = i + 1;
        }
        false
    }

    pub fn validate_mulligan(&self, state: &GameState, player: PlayerId) -> (r: EngineResult<()>)
        requires
            player.0 < 2,
        ensures
            reports(r, spec_check_mulligan(state@, player)),
    {
        if state.turn.phase != Phase::Mulligan && state.turn.phase != Phase::Setup {
            return Err(EngineError::invalid_action("Not in setup or mulligan phase"));
        }
        let player_state = &state.players[player.0];
        if Self::has_basic(state, &player_state.hand) {
            return Err(EngineError::invalid_action("Hand has basic Pokemon, cannot mulligan"));
        }
        Ok(())
    }

    pub fn validate_play_basic(&self, state: &GameState, player: PlayerId, card: CardInstanceId) -> (r: EngineResult<()>)
        requires
            player.0 < 2,
        ensures
            reports(r, spec_check_play_basic(state@, player, card)),
    {
        let player_state = &state.players[player.0];
        if !contains_card(&player_state.hand, card) {
            return Err(EngineError::invalid_action("Card not in hand"));
        }
        let card_def = match state.get_card_def(card) {
            Some(d) => d,
            None => return Err(EngineError::invalid_card("Unknown card")),
        };
        if !card_def.is_basic_pokemon() {
            return Err(EngineError::invalid_action("Not a basic Pokemon"));
        }
        if player_state.bench_count() >= MAX_BENCH_SIZE {
            return Err(EngineError::invalid_action("Bench is full"));
        }
        Ok(())
    }

    pub fn validate_evolve(&self, state: &GameState, player: PlayerId, card: CardInstanceId, target: SlotRef) -> (r: EngineResult<()>)
        requires
            player.0 < 2,
        ensures
            reports(r, spec_check_evolve(state@, player, card, target)),
    {
        let player_state = &state.players[player.0];
        if !contains_card(&player_state.hand, card) {
            return Err(EngineError::invalid_action("Card not in hand"));
        }
        let target_slot = match player_state.get_slot(target) {
            Some(s) => s,
            None => return Err(EngineError::invalid_target("Invalid slot")),
        };
        let card_def = match state.get_card_def(card) {
            Some(d) => d,
            None => return Err(EngineError::invalid_card("Unknown card")),
        };
        let target_def = match target_slot.top_card() {
            Some(id) => match state.get_card_def(id) {
                Some(d) => d,
                None => return Err(EngineError::cannot_evolve("Unknown Pokemon")),
            },
            None => return Err(EngineError::cannot_evolve("Unknown Pokemon")),
        };
        if !card_def.can_be_evolved_from(target_def) {
            return Err(EngineError::cannot_evolve("Cannot evolve from this Pokemon"));
        }
        if target_slot.turn_put_in_play == state.turn.turn_number {
            return Err(EngineError::cannot_evolve("Cannot evolve same turn as put in play"));
        }
        Ok(())
    }

    pub fn validate_attach_energy(&self, state: &GameState, player: PlayerId, card: CardInstanceId, target: SlotRef) -> (r: EngineResult<()>)
        requires
            player.0 < 2,
        ensures
            reports(r, spec_check_attach_energy(state@, player, card, target)),
    {
        let player_state = &state.players[player.0];
        if !contains_card(&player_state.hand, card) {
            return Err(EngineError::invalid_action("Card not in hand"));
        }
        let card_def = match state.get_card_def(card) {
            Some(d) => d,
            None => return Err(EngineError::invalid_card("Unknown card")),
        };
        if !card_def.is_basic_energy() && !card_def.is_special_energy() {
            return Err(EngineError::invalid_action("Not an energy card"));
        }
        let target_slot = match player_state.get_slot(target) {
            Some(s) => s,
            None => return Err(EngineError::invalid_target("Invalid slot")),
        };
        if target_slot.is_empty() {
            return Err(EngineError::invalid_target("Slot is empty"));
        }
        Ok(())
    }

    pub fn validate_attach_tool(&self, state: &GameState, player: PlayerId, card: CardInstanceId, target: SlotRef) -> (r: EngineResult<()>)
        requires
            player.0 < 2,
        ensures
            reports(r, spec_check_attach_tool(state@, player, card, target)),
    {
        let player_state = &state.players[player.0];
        if !contains_card(&player_state.hand, card) {
            return Err(EngineError::invalid_action("Card not in hand"));
        }
        let card_def = match state.get_card_def(card) {
            Some(d) => d,
            None => return Err(EngineError::invalid_card("Unknown card")),
        };
        if card_def.card_type != CardType::Tool {
            return Err(EngineError::invalid_action("Not a tool card"));
        }
        let target_slot = match player_state.get_slot(target) {
            Some(s) => s,
            None => return Err(EngineError::invalid_target("Invalid slot")),
        };
        if target_slot.is_empty() {
            return Err(EngineError::invalid_target("Slot is empty"));
        }
        if target_slot.tool.is_some() {
            return Err(EngineError::invalid_action("Pokemon already has a tool"));
        }
        Ok(())
    }

    pub fn validate_play_trainer(&self, state: &GameState, player: PlayerId, card: CardInstanceId, _choices: &Choices) -> (r: EngineResult<()>)
        requires
            player.0 < 2,
        ensures
            reports(r, spec_check_play_trainer(state@, player, card)),
    {
        let player_state = &state.players[player.0];
        if !contains_card(&player_state.hand, card) {
            return Err(EngineError::invalid_action("Card not in hand"));
        }
        let card_def = match state.get_card_def(card) {
            Some(d) => d,
            None => return Err(EngineError::invalid_card("Unknown card")),
        };
        if !card_def.is_trainer() {
            return Err(EngineError::invalid_action("Not a trainer card"));
        }
        if card_def.card_type == CardType::Supporter {
            let key = supporter_key();
            if contains_string(&player_state.turn_actions_used, key.as_str()) {
                return Err(EngineError::invalid_action("Already used a Supporter this turn"));
            }
        }
        Ok(())
    }

    pub fn validate_play_stadium(&self, state: &GameState, player: PlayerId, card: CardInstanceId, _choices: &Choices) -> (r: EngineResult<()>)
        requires
            player.0 < 2,
        ensures
            reports(r, spec_check_play_stadium(state@, player, card)),
    {
        let player_state = &state.players[player.0];
        if !contains_card(&player_state.hand, card) {
            return Err(EngineError::invalid_action("Card not in hand"));
        }
        let card_def = match state.get_card_def(card) {
            Some(d) => d,
            None => return Err(EngineError::invalid_card("Unknown card")),
        };
        if card_def.card_type != CardType::Stadium {
            return Err(EngineError::invalid_action("Not a stadium card"));
        }
        if contains_string(&player_state.turn_actions_used, "play_stadium") {
            return Err(EngineError::invalid_action("Already played a stadium this turn"));
        }
        Ok(())
    }

    pub fn validate_use_ability(
        &self,
        state: &GameState,
        player: PlayerId,
        source: SlotRef,
        _ability_index: u8,
        _choices: &Choices,
    ) -> (r: EngineResult<()>)
        requires
            player.0 < 2,
        ensures
            reports(r, spec_check_use_ability(state@, player, source)),
    {
        let player_state = &state.players[player.0];
        let slot = match player_state.get_slot(source) {
            Some(s) => s,
            None => return Err(EngineError::invalid_target("Invalid slot")),
        };
        if slot.is_empty() {
            return Err(EngineError::invalid_target("Slot is empty"));
        }
        if slot.used_ability_this_turn {
            return Err(EngineError::invalid_action("Ability already used this turn"));
        }
        Ok(())
    }

    pub fn validate_retreat(&self, state: &GameState, player: PlayerId, target: SlotRef, _discard: &[CardInstanceId]) -> (r: EngineResult<()>)
        requires
            player.0 < 2,
            state@.wf(),
        ensures
            reports(r, spec_check_retreat(state@, player, target)),
    {
        let player_state = &state.players[player.0];
        let active = match &player_state.active {
            Some(a) => a,
            None => return Err(EngineError::cannot_retreat("No active Pokemon")),
        };
        if active.is_empty() {
            return Err(EngineError::cannot_retreat("Active slot is empty"));
        }
        match target {
            SlotRef::Bench(i) => {
                if i >= MAX_BENCH_SIZE {
                    return Err(EngineError::invalid_target("Invalid bench index"));
                }
                proof {
                    assert(state@.player(player).bench.len() == MAX_BENCH_SIZE);
                    assert(state@.player(player).bench[i as int] == crate::state::opt_slot_view(player_state.bench@[i as int]));
                }
                let bench_slot = match &player_state.bench[i] {
                    Some(b) => b,
                    None => return Err(EngineError::cannot_retreat("Bench slot is empty")),
                };
                if bench_slot.is_empty() {
                    return Err(EngineError::cannot_retreat("Bench slot is empty"));
                }
            },
            SlotRef::Active => {
                return Err(EngineError::cannot_retreat("Cannot retreat to active"));
            },
        }
        Ok(())
    }

    pub fn validate_attack(&self, state: &GameState, player: PlayerId, attack_index: u8, _choices: &Choices) -> (r: EngineResult<()>)
        requires
            player.0 < 2,
        ensures
            reports(r, spec_check_attack(state@, player, attack_index)),
    {
        let player_state = &state.players[player.0];
        let active = match &player_state.active {
            Some(a) => a,
            None => return Err(EngineError::cannot_attack("No active Pokemon")),
        };
        if active.is_empty() {
            return Err(EngineError::cannot_attack("Active slot is empty"));
        }
        if state.turn.attack_locked {
            return Err(EngineError::cannot_attack("Attack is locked"));
        }
        let top_card = match active.top_card() {
            Some(id) => match state.get_card_def(id) {
                Some(d) => d,
                None => return Err(EngineError::cannot_attack("Unknown Pokemon")),
            },
            None => return Err(EngineError::cannot_attack("Unknown Pokemon")),
        };
        if attack_index as usize >= top_card.attacks.len() {
            return Err(EngineError::cannot_attack("Invalid attack index"));
        }
        if active.status.asleep || active.status.paralyzed {
            return Err(EngineError::cannot_attack("Pokemon is asleep or paralyzed"));
        }
        if state.turn.turn_number == 1 && state.turn.first_player == player {
            return Err(EngineError::cannot_attack("First player cannot attack on turn 1"));
        }
        Ok(())
    }

    /// Whether the Pokemon at `slot` can pay `cost` (see `spec_has_enough_energy`).
    pub fn has_enough_energy(&self, state: &GameState, player: PlayerId, slot: SlotRef, cost: &[EnergyType]) -> (r: bool)
        requires
            player.0 < 2,
        ensures
            r == spec_has_enough_energy(state@, player, slot, cost@),
    {
        let player_state = &state.players[player.0];
        let pokemon_slot = match player_state.get_slot(slot) {
            Some(s) => s,
            None => return false,
        };
        let e = &pokemon_slot.energies;
        let r = enough_of(state, e, cost, EnergyType::Fire) && enough_of(state, e, cost, EnergyType::Water)
            && enough_of(state, e, cost, EnergyType::Grass) && enough_of(state, e, cost, EnergyType::Lightning)
            && enough_of(state, e, cost, EnergyType::Psychic) && enough_of(state, e, cost, EnergyType::Fighting)
            && enough_of(state, e, cost, EnergyType::Darkness) && enough_of(state, e, cost, EnergyType::Metal)
            && enough_of(state, e, cost, EnergyType::Dragon) && provides_total_at_least(state, e, cost.len());
        proof {
            if r {
                assert forall|t: EnergyType| t != EnergyType::Colorless implies #[trigger] count_of(cost@, t)
                    <= provided_of(state@, e@, t) by {
                    match t {
                        EnergyType::Fire => {},
                        EnergyType::Water => {},
                        EnergyType::Grass => {},
                        EnergyType::Lightning => {},
                        EnergyType::Psychic => {},
                        EnergyType::Fighting => {},
                        EnergyType::Darkness => {},
                        EnergyType::Metal => {},
                        EnergyType::Dragon => {},
                        EnergyType::Colorless => {},
                    }
                }
            }
        }
        r
    }
}

fn enough_of(state: &GameState, e: &Vec<CardInstanceId>, cost: &[EnergyType], t: EnergyType) -> (r: bool)
    ensures
        r == (count_of(cost@, t) <= provided_of(state@, e@, t)),
{
    let need = count_in(cost, t);
    provides_at_least(state, e, t, need)
}

/// The turn key of playing a Supporter.
pub fn supporter_key() -> (r: String)
    ensures
        r@ == spec_supporter_key(),
{
    String::from_str("supporter")
}

/// The player who takes the first turn cannot attack on turn 1: whatever
/// the attack and the state of its Pokemon, the attack is refused with an
/// attack error.
pub proof fn lemma_no_attack_on_first_turn(g: GameView, p: PlayerId, attack_index: u8, choices: Choices)
    requires
        g.turn.turn_number == 1,
        g.turn.first_player == p,
    ensures
        spec_check_action(g, p, Action::Attack { attack_index, choices }) matches Some(e) && e.0
            == ErrorKind::CannotAttack,
{
}

/// The turn number matters to an attack only through that rule: for the
/// player who did not take the first turn, and for anyone past turn 1, the
/// verdict on an attack is the same whatever the turn number.
pub proof fn lemma_attack_check_ignores_turn(g: GameView, p: PlayerId, attack_index: u8, choices: Choices, t: u16)
    requires
        g.turn.first_player != p || (g.turn.turn_number != 1 && t != 1),
    ensures
        spec_check_action(g, p, Action::Attack { attack_index, choices }) == spec_check_action(
            GameView { turn: TurnState { turn_number: t, ..g.turn }, ..g },
            p,
            Action::Attack { attack_index, choices },
        ),
{
}

} // verus!
