//! The game engine: legal actions, action execution and phase transitions.

use vstd::prelude::*;
use vstd::string::StringExecFns;

use crate::action::{Action, Choices, LoggedAction};
use crate::card::presets::{load_miraidon_charizard_cards, preset_registry};
use crate::damage::DamageCalculator;
use crate::deck::{spec_expand, MatchConfig, StartingPlayer};
use crate::rng::GameRng;
use crate::effects::common::EffectResult;
use crate::effects::dispatch::ability_dispatch_post;
use crate::error::EngineResult;
use crate::rules::{spec_check_action, RuleValidator};
use crate::state::{
    dealt_entries, spec_phase_name, spec_setup, CardInstanceId, GameState, GameView, Phase, PlayerId, PlayerState,
    PlayerView, SlotRef, TurnState,
};
use crate::text::{push_decimal, push_str, spec_decimal};

mod execute;
mod laws;
mod legal;

pub use execute::{
    ability_events, attack_events, attack_fits, evolve_triggers, first_ability_id, first_ability_name, infernal_times,
    mulligan_fits, mulligan_post, slot_text, spec_attach_energy, spec_attack, spec_check_winner, spec_choose_active,
    spec_end_turn, spec_evolve_stack, spec_phase_transition, spec_play_basic, spec_play_stadium, spec_play_trainer,
    spec_retreat, without_card,
};
pub use laws::{frame, lemma_action_keeps_inv, lemma_end_turn_passes, lemma_no_actions_out_of_turn, lemma_no_pokemon_loses, lemma_step_ends_without_pokemon, lemma_step_log, lemma_step_rewards, state_inv};
pub use legal::{
    accepted_shapes, lemma_no_attack_offered_on_first_turn, lemma_offered_accepted, lemma_shape_check, realizes, shape_check, shape_of, spec_legal_actions,
    spec_offered_actions, ActionShape,
};



verus! {

/// Something that happened in the game.
#[derive(Debug, Clone)]
pub enum Event {
    CardPlayed { player: PlayerId, card: CardInstanceId, location: String },
    Damage { target_player: PlayerId, target_slot: SlotRef, damage: u16, ko: bool },
    Evolved { player: PlayerId, slot: SlotRef, card: CardInstanceId },
    Switched { player: PlayerId, from: SlotRef, to: SlotRef },
    PrizeTaken { player: PlayerId, count: usize },
    KnockedOut { player: PlayerId, slot: SlotRef },
    GameEnd { winner: Option<PlayerId> },
    Attack { attacker: PlayerId, defender: PlayerId, attack_index: u8, damage: u16 },
    AbilityUsed { player: PlayerId, source: SlotRef, name: String },
    Error { message: String },
}


/// `e` says that `p` played `c` to `loc`.
pub open spec fn is_card_played(e: Event, p: PlayerId, c: CardInstanceId, loc: Seq<char>) -> bool {
    match e {
        Event::CardPlayed { player, card, location } => player == p && card == c && location@ == loc,
        _ => false,
    }
}

/// A `CardPlayed` event.
pub fn card_played(player: PlayerId, card: CardInstanceId, location: &str) -> (e: Event)
    ensures
        is_card_played(e, player, card, location@),
{
    Event::CardPlayed { player, card, location: String::from_str(location) }
}

/// The outcome of one step of the game.
#[derive(Debug, Clone)]
pub struct StepResult {
    pub done: bool,
    pub winner: Option<PlayerId>,
    /// Zero-sum reward of each player: 1 for the winner, -1 for the loser.
    pub reward: [i32; 2],
    pub events: Vec<Event>,
}

impl StepResult {
    /// A step that did not end the game, with no events.
    pub fn new() -> (r: Self)
        ensures
            !r.done,
            r.winner is None,
            r.reward@ == seq![0i32, 0i32],
            r.events@.len() == 0,
    {
        StepResult { done: false, winner: None, reward: [0, 0], events: Vec::new() }
    }

    /// The step that ends the game: 1 to the winner and -1 to the other
    /// player, 0 to both without a winner.
    pub fn game_over(winner: Option<PlayerId>) -> (r: Self)
        requires
            winner matches Some(w) ==> w.0 < 2,
        ensures
            r.done,
            r.winner == winner,
            r.reward@ == match winner {
                Some(w) => if w.0 == 0 {
                    seq![1i32, -1i32]
                } else {
                    seq![-1i32, 1i32]
                },
                None => seq![0i32, 0i32],
            },
            r.events@ == seq![Event::GameEnd { winner }],
    {
        let reward: [i32; 2] = match winner {
            Some(w) => if w.0 == 0 {
                [1, -1]
            } else {
                [-1, 1]
            },
            None => [0, 0],
        };
        let mut events: Vec<Event> = Vec::new();
        events.push(Event::GameEnd { winner });
        proof {
            assert(events@ =~= seq![Event::GameEnd { winner }]);
            assert(reward@ =~= match winner {
                Some(w) => if w.0 == 0 {
                    seq![1i32, -1i32]
                } else {
                    seq![-1i32, 1i32]
                },
                None => seq![0i32, 0i32],
            });
        }
        StepResult { done: true, winner, reward, events }
    }
}

impl Default for StepResult {
    fn default() -> (r: Self)
        ensures
            !r.done,
            r.winner is None,
            r.reward@ == seq![0i32, 0i32],
            r.events@.len() == 0,
    {
        StepResult::new()
    }
}

/// The abstract engine: the game state and whether steps are recorded.
pub struct EngineView {
    pub state: GameView,
    pub record_replay: bool,
}

impl EngineView {
    /// Both players have every bench slot and the active player is 0 or 1.
    pub open spec fn inv(self) -> bool {
        self.state.wf() && self.state.turn.active_player.0 < 2
    }
}

/// The game engine: it owns the game state and the random generator, lists
/// the legal actions of a player and executes actions step by step, with the
/// phase transitions and the end of the game.
pub struct Engine {
    state: GameState,
    rng: GameRng,
    validator: RuleValidator,
    damage_calculator: DamageCalculator,
    /// When false (training), steps are not hashed and logged.
    pub record_replay: bool,
}

impl View for Engine {
    type V = EngineView;

    closed spec fn view(&self) -> EngineView {
        EngineView { state: self.state@, record_replay: self.record_replay }
    }
}

/// The number of cards of a deck of `n` cards that are set aside as prizes,
/// and the number then drawn into the opening hand.
pub open spec fn opening_counts(n: nat) -> (nat, nat) {
    let prizes = if n < 6 {
        n
    } else {
        6
    };
    let hand = if n - prizes < 7 {
        (n - prizes) as nat
    } else {
        7
    };
    (prizes, hand)
}

/// The relation between the engine before and after `p` steps with `a`: a
/// refused action changes nothing; an accepted one has its effect, then the
/// phase change, the log entry and the end-of-game check.
pub open spec fn step_rel(e: EngineView, p: PlayerId, a: Action, e2: EngineView) -> bool {
    &&& e2.record_replay == e.record_replay
    &&& e2.inv()
    &&& e2.state.turn.turn_number >= e.state.turn.turn_number
    &&& spec_check_action(e.state, p, a) is Some ==> e2 == e
    &&& spec_check_action(e.state, p, a) is None ==> exists|g1: GameView, ev: Seq<Event>, r: StepResult|
        #![trigger action_post(e.state, g1, p, a, ev), step_result_post(spec_logged(spec_phase_transition(g1), e.record_replay, p, a), e2.state, ev, r)]
        action_post(e.state, g1, p, a, ev) && step_result_post(
            spec_logged(spec_phase_transition(g1), e.record_replay, p, a),
            e2.state,
            ev,
            r,
        )
}

/// What `Engine::step` ensures, gathered into `step_rel`.
pub proof fn lemma_step_rel(e: EngineView, p: PlayerId, a: Action, e2: EngineView, r: StepResult)
    requires
        e2.record_replay == e.record_replay,
        e2.inv(),
        e2.state.turn.turn_number >= e.state.turn.turn_number,
        spec_check_action(e.state, p, a) is Some ==> e2 == e,
        spec_check_action(e.state, p, a) is None ==> exists|g1: GameView, ev: Seq<Event>|
            #![trigger action_post(e.state, g1, p, a, ev)]
            action_post(e.state, g1, p, a, ev) && step_result_post(
                spec_logged(spec_phase_transition(g1), e.record_replay, p, a),
                e2.state,
                ev,
                r,
            ),
    ensures
        step_rel(e, p, a, e2),
{
    if spec_check_action(e.state, p, a) is None {
        let (g1, ev) = choose|g1: GameView, ev: Seq<Event>|
            action_post(e.state, g1, p, a, ev) && step_result_post(
                spec_logged(spec_phase_transition(g1), e.record_replay, p, a),
                e2.state,
                ev,
                r,
            );
        assert(action_post(e.state, g1, p, a, ev));
        assert(step_result_post(spec_logged(spec_phase_transition(g1), e.record_replay, p, a), e2.state, ev, r));
    }
}

/// What `Engine::new` guarantees of a new game for `config`: the game is in
/// setup on turn 1 with the starting player the configuration asks for, no
/// winner and an empty log, and the two decks were dealt from some
/// arrangement of the dealt cards into prizes, hands and decks.
pub open spec fn new_engine_post(config: MatchConfig, e: EngineView) -> bool {
    &&& e.inv()
    &&& e.record_replay
    &&& e.state.turn.turn_number == 1
    &&& e.state.turn.phase == Phase::Setup
    &&& config.starting_player == StartingPlayer::Player ==> e.state.turn.active_player == PlayerId(0)
    &&& config.starting_player == StartingPlayer::Opponent ==> e.state.turn.active_player == PlayerId(1)
    &&& e.state.winner is None
    &&& e.state.action_log.len() == 0
    &&& preset_registry(e.state.registry)
    &&& exists|perm: Seq<(CardInstanceId, PlayerId)>|
            #![trigger perm.to_multiset()]
            perm.to_multiset() == dealt_entries(
                0,
                spec_expand(config.player_deck.cards@).len(),
                spec_expand(config.opponent_deck.cards@).len(),
            ).to_multiset() && e.state == spec_setup(
                GameView {
                    turn: e.state.turn,
                    registry: e.state.registry,
                    ..GameState::new_view()
                },
                spec_expand(config.player_deck.cards@),
                spec_expand(config.opponent_deck.cards@),
                perm,
            )
    &&& forall|p: int|
            0 <= p < 2 ==> {
                let n = if p == 0 {
                    spec_expand(config.player_deck.cards@).len()
                } else {
                    spec_expand(config.opponent_deck.cards@).len()
                };
                &&& (#[trigger] e.state.players[p]).prizes.len() == opening_counts(n).0
                &&& e.state.players[p].hand.len() == opening_counts(n).1
            }
}

impl Engine {
    /// A new game: the card registry, both decks dealt (see
    /// `setup_initial_state`), turn 1 in the setup phase, the starting
    /// player chosen by the configuration (a coin flip when random).
    pub fn new(config: MatchConfig, seed: u64) -> (r: Self)
        requires
            spec_expand(config.player_deck.cards@).len() + spec_expand(config.opponent_deck.cards@).len() < u32::MAX,
        ensures
            new_engine_post(config, r@),
    {
        let mut state = GameState::new();
        state.card_registry = load_miraidon_charizard_cards();
        let mut rng = GameRng::new(seed);
        let ghost g0 = state@;
        state.setup_initial_state(&config.player_deck, &config.opponent_deck, &mut rng);
        let starting_player = match config.starting_player {
            StartingPlayer::Random => {
                if rng.coin_flip() {
                    PlayerId(0)
                } else {
                    PlayerId(1)
                }
            },
            StartingPlayer::Player => PlayerId(0),
            StartingPlayer::Opponent => PlayerId(1),
        };
        let ghost g1 = state@;
        state.turn.active_player = starting_player;
        state.turn.turn_number = 1;
        state.turn.phase = Phase::Setup;
        let r = Engine {
            state,
            rng,
            validator: RuleValidator::new(),
            damage_calculator: DamageCalculator::new(),
            record_replay: true,
        };
        proof {
            let k0 = spec_expand(config.player_deck.cards@).len();
            let k1 = spec_expand(config.opponent_deck.cards@).len();
            let perm = choose|perm: Seq<(CardInstanceId, PlayerId)>|
                #![trigger perm.to_multiset()]
                perm.to_multiset() == dealt_entries(0, k0, k1).to_multiset() && g1 == spec_setup(
                    g0,
                    spec_expand(config.player_deck.cards@),
                    spec_expand(config.opponent_deck.cards@),
                    perm,
                );
            crate::state::lemma_ids_of_perm(perm, dealt_entries(0, k0, k1), PlayerId(0));
            crate::state::lemma_ids_of_perm(perm, dealt_entries(0, k0, k1), PlayerId(1));
            crate::state::lemma_ids_of_dealt(0, k0, k1);
            assert(r@.state == spec_setup(
                GameView { turn: r@.state.turn, registry: r@.state.registry, ..GameState::new_view() },
                spec_expand(config.player_deck.cards@),
                spec_expand(config.opponent_deck.cards@),
                perm,
            ));
        }
        r
    }

    /// The game state.
    pub fn state(&self) -> (r: &GameState)
        ensures
            r@ == self@.state,
    {
        &self.state
    }

    /// The game state, to change it in place.
    pub fn state_mut(&mut self) -> (r: &mut GameState)
        ensures
            r@ == old(self)@.state,
            final(self)@ == (EngineView { state: final(r)@, ..old(self)@ }),
    {
        &mut self.state
    }

    /// The recorded steps.
    pub fn action_log(&self) -> (r: &[LoggedAction])
        ensures
            r@ == self@.state.action_log,
    {
        self.state.action_log.as_slice()
    }

    /// Hash of the public game state.
    pub fn state_hash(&self) -> (r: u64)
        ensures
            r == GameState::spec_hash(self@.state),
    {
        self.state.state_hash()
    }

    /// The players who can act now: nobody once the game is over, both
    /// during setup and the mulligans, otherwise the active player.
    pub fn acting_players(&self) -> (r: Vec<usize>)
        ensures
            r@ == spec_acting_players(self@.state),
    {
        if self.state.is_done() {
            return Vec::new();
        }
        if self.state.turn.phase.is_setup() {
            vec![0, 1]
        } else {
            vec![self.state.turn.active_player.0]
        }
    }

    /// Turn the recording of steps on or off.
    pub fn set_record_replay(&mut self, on: bool)
        ensures
            final(self)@ == (EngineView { record_replay: on, ..old(self)@ }),
    {
        self.record_replay = on;
    }

    /// A summary of the game: turn and phase, the active player, and the
    /// hand, deck and prize sizes of both players, one line each.
    pub fn describe(&self) -> (r: String)
        ensures
            r@ == spec_engine_text(self@.state),
    {
        let mut s = String::new();
        push_str(&mut s, "Turn ");
        push_decimal(&mut s, self.state.turn.turn_number as u64);
        push_str(&mut s, " - ");
        push_str(&mut s, self.state.turn.phase.name());
        push_str(&mut s, "\nActive player: PlayerId(");
        push_decimal(&mut s, self.state.turn.active_player.0 as u64);
        push_str(&mut s, ")\n");
        let ghost head = s@;
        push_player_line(&mut s, 0, &self.state.players[0]);
        push_player_line(&mut s, 1, &self.state.players[1]);
        proof {
            assert(head =~= "Turn "@ + spec_decimal(self@.state.turn.turn_number as nat) + " - "@
                + spec_phase_name(self@.state.turn.phase) + "\nActive player: PlayerId("@
                + spec_decimal(self@.state.turn.active_player.0 as nat) + ")\n"@);
            assert(s@ =~= spec_engine_text(self@.state));
        }
        s
    }
}

/// The players who can act in `g`.
pub open spec fn spec_acting_players(g: GameView) -> Seq<usize> {
    if g.winner is Some {
        Seq::empty()
    } else if g.turn.phase == Phase::Setup || g.turn.phase == Phase::Mulligan {
        seq![0usize, 1usize]
    } else {
        seq![g.turn.active_player.0]
    }
}

/// The summary line of player `i`.
pub open spec fn player_line(i: nat, pv: PlayerView) -> Seq<char> {
    "Player "@ + spec_decimal(i) + ": hand="@ + spec_decimal(pv.hand.len()) + ", deck="@ + spec_decimal(
        pv.deck.len(),
    ) + ", prizes="@ + spec_decimal(pv.prizes.len()) + "\n"@
}

/// The text of `Engine::describe`.
pub open spec fn spec_engine_text(g: GameView) -> Seq<char> {
    "Turn "@ + spec_decimal(g.turn.turn_number as nat) + " - "@ + spec_phase_name(g.turn.phase)
        + "\nActive player: PlayerId("@ + spec_decimal(g.turn.active_player.0 as nat) + ")\n"@ + player_line(
        0,
        g.players[0],
    ) + player_line(1, g.players[1])
}

fn push_player_line(s: &mut String, i: u64, ps: &PlayerState)
    ensures
        final(s)@ == old(s)@ + player_line(i as nat, ps@),
{
    push_str(s, "Player ");
    push_decimal(s, i);
    push_str(s, ": hand=");
    push_decimal(s, ps.hand.len() as u64);
    push_str(s, ", deck=");
    push_decimal(s, ps.deck.len() as u64);
    push_str(s, ", prizes=");
    push_decimal(s, ps.prizes.len() as u64);
    push_str(s, "\n");
    proof {
        assert(s@ =~= old(s)@ + player_line(i as nat, ps@));
    }
}

/// What executing `a` for `p` does to the state `g` (giving `g1`) and which
/// events `ev` it reports.
pub open spec fn action_post(g: GameView, g1: GameView, p: PlayerId, a: Action, ev: Seq<Event>) -> bool {
    match a {
        Action::SetupChooseActive { card } => g1 == spec_choose_active(g, p, card) && ev.len() == 1 && is_card_played(
            ev[0],
            p,
            card,
            "active"@,
        ),
        Action::PlayBasicToBench { card } => g1 == spec_play_basic(g, p, card) && if without_card(
            g.player(p),
            card,
        ).first_empty_bench() is Some {
            ev.len() == 1 && is_card_played(ev[0], p, card, "bench"@)
        } else {
            ev.len() == 0
        },
        Action::MulliganDraw { .. } => mulligan_post(g, g1, p) && ev.len() == 0,
        Action::AttachEnergy { card, target } => g1 == spec_attach_energy(g, p, card, target) && ev.len() == 1
            && is_card_played(ev[0], p, card, slot_text(target)),
        Action::Evolve { card, target } => g1 == infernal_times(
            spec_evolve_stack(g, p, card, target),
            p,
            target,
            evolve_triggers(g, card),
        ) && ev == seq![Event::Evolved { player: p, slot: target, card }],
        Action::PlayTrainer { card, .. } => g1 == spec_play_trainer(g, p, card) && ev.len() == 1 && is_card_played(
            ev[0],
            p,
            card,
            "discard"@,
        ),
        Action::PlayStadium { card, .. } => g1 == spec_play_stadium(g, p, card) && ev.len() == 1 && is_card_played(
            ev[0],
            p,
            card,
            "stadium"@,
        ),
        Action::UseAbility { source, .. } => match g.player(p).slot(source) {
            None => g1 == g && ev.len() == 0,
            Some(s) => exists|res: EngineResult<EffectResult>|
                #![trigger ability_events(ev, res, p, source, first_ability_name(g, s))]
                ability_dispatch_post(first_ability_id(g, s), g, g1, p, source, res) && ability_events(
                    ev,
                    res,
                    p,
                    source,
                    first_ability_name(g, s),
                ),
        },
        Action::Retreat { target, .. } => g1 == spec_retreat(g, p, target->0) && ev == seq![
            Event::Switched { player: p, from: SlotRef::Active, to: target },
        ],
        Action::EndTurn => if g.turn.phase == Phase::Setup {
            g1 == g && ev.len() == 0
        } else {
            g1 == spec_end_turn(g, p) && ev.len() == 0
        },
        Action::Attack { attack_index, .. } => g1 == spec_attack(g, p, attack_index) && ev == attack_events(
            g,
            p,
            attack_index,
        ),
        _ => g1 == g && ev.len() == 0,
    }
}

/// Executing `a` (when legal) stays within the machine's integers and does
/// not hit a case the engine cannot handle.
pub open spec fn step_fits(g: GameView, p: PlayerId, a: Action) -> bool {
    match a {
        Action::MulliganDraw { .. } => mulligan_fits(g, p),
        Action::EndTurn => g.turn.phase != Phase::Setup ==> g.turn.turn_number < u16::MAX,
        Action::Attack { attack_index, .. } => attack_fits(g, p, attack_index),
        _ => true,
    }
}

/// The state after a step is recorded (when recording): the turn, the
/// player, the action and the hash of the state.
pub open spec fn spec_logged(g: GameView, record: bool, p: PlayerId, a: Action) -> GameView {
    if record {
        GameView {
            action_log: g.action_log.push(
                LoggedAction { turn: g.turn.turn_number, player: p, action: a, resulting_state_hash: GameState::spec_hash(g) },
            ),
            ..g
        }
    } else {
        g
    }
}

/// The result of a step that ended with the state `g` and the events `ev`:
/// the game is over when there is a winner.
pub open spec fn step_result_post(g: GameView, g_final: GameView, ev: Seq<Event>, r: StepResult) -> bool {
    match spec_check_winner(g) {
        Some(w) => {
            &&& g_final == (GameView { winner: Some(w), ..g })
            &&& r.done
            &&& r.winner == Some(w)
            &&& r.reward@ == if w.0 == 0 {
                seq![1i32, -1i32]
            } else {
                seq![-1i32, 1i32]
            }
            &&& r.events@ == seq![Event::GameEnd { winner: Some(w) }]
        },
        None => {
            &&& g_final == g
            &&& !r.done
            &&& r.winner is None
            &&& r.reward@ == seq![0i32, 0i32]
            &&& r.events@ == ev
        },
    }
}

impl Engine {
    /// Whether `step` can execute `action` for `player` (see `step_fits`).
    pub fn can_step(&self, player: PlayerId, action: &Action) -> (r: bool)
        requires
            player.0 < 2,
            self@.inv(),
        ensures
            r == step_fits(self@.state, player, *action),
    {
        match action {
            Action::MulliganDraw { .. } => {
                if self.state.turn.mulligan_count >= 255 {
                    return false;
                }
                let ps = &self.state.players[player.0];
                if ps.hand.len() == 0 {
                    execute::first_owned_basic(&self.state, player, &ps.deck).is_none()
                } else {
                    true
                }
            },
            Action::EndTurn => self.state.turn.phase == Phase::Setup || self.state.turn.turn_number < 65535,
            Action::Attack { attack_index, .. } => execute::attack_fits_exec(&self.state, player, *attack_index),
            _ => true,
        }
    }

    /// Execute `action` for `player`. An action the rules refuse changes
    /// nothing and gives an empty result. Otherwise the action is executed,
    /// the phase moves on, the step is recorded (when recording), and the game
    /// ends when a player has won: 1 to the winner, -1 to the other.
    pub fn step(&mut self, player: PlayerId, action: Action) -> (r: StepResult)
        requires
            player.0 < 2,
            old(self)@.inv(),
            step_fits(old(self)@.state, player, action),
        ensures
            final(self)@.record_replay == old(self)@.record_replay,
            final(self)@.inv(),
            final(self)@.state.turn.turn_number >= old(self)@.state.turn.turn_number,
            spec_check_action(old(self)@.state, player, action) is Some ==> final(self)@ == old(self)@ && !r.done
                && r.winner is None && r.reward@ == seq![0i32, 0i32] && r.events@.len() == 0,
            spec_check_action(old(self)@.state, player, action) is None ==> exists|g1: GameView, ev: Seq<Event>|
                #![trigger action_post(old(self)@.state, g1, player, action, ev)]
                action_post(old(self)@.state, g1, player, action, ev) && step_result_post(
                    spec_logged(spec_phase_transition(g1), old(self)@.record_replay, player, action),
                    final(self)@.state,
                    ev,
                    r,
                ),
    {
        if self.validator.is_legal(&self.state, player, &action).is_err() {
            return StepResult::new();
        }
        let ghost g = self.state@;
        let events = match &action {
            Action::SetupChooseActive { card } => self.execute_setup_choose_active(player, *card),
            Action::PlayBasicToBench { card } => self.execute_play_basic(player, *card),
            Action::MulliganDraw { .. } => self.execute_mulligan(player),
            Action::AttachEnergy { card, target } => self.execute_attach_energy(player, *card, *target),
            Action::Evolve { card, target } => self.execute_evolve(player, *card, *target),
            Action::PlayTrainer { card, .. } => self.execute_play_trainer(player, *card),
            Action::PlayStadium { card, .. } => self.execute_play_stadium(player, *card),
            Action::UseAbility { source, .. } => self.execute_use_ability(player, *source),
            Action::Retreat { target, .. } => self.execute_retreat(player, *target),
            Action::EndTurn => {
                if self.state.turn.phase == Phase::Setup {
                    Vec::new()
                } else {
                    self.execute_end_turn(player)
                }
            },
            Action::Attack { attack_index, .. } => self.execute_attack(player, *attack_index),
            _ => Vec::new(),
        };
        let ghost g1 = self.state@;
        let ghost ev = events@;
        proof {
            assert(action_post(g, g1, player, action, ev));
            laws::lemma_action_keeps_inv(g, g1, player, action, ev);
        }
        self.apply_phase_transitions();
        let ghost g2 = self.state@;
        if self.record_replay {
            let state_hash = self.state.state_hash();
            let turn = self.state.turn.turn_number;
            self.state.action_log.push(LoggedAction::new(turn, player, action, state_hash));
        }
        proof {
            assert(self.state@ == spec_logged(g2, old(self)@.record_replay, player, action));
        }
        match self.check_winner() {
            Some(w) => {
                self.state.winner = Some(w);
                StepResult::game_over(Some(w))
            },
            None => StepResult { done: false, winner: None, reward: [0, 0], events },
        }
    }
}

} // verus!
