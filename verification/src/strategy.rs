//! Deck strategies: heuristic scores of legal actions for a computer opponent.
//!
//! Four heuristics drive every strategy: an attack is scored by whether it
//! knocks out the defending Pokemon, energy goes where it closes the gap to
//! an attack, the bench is filled within its budget, and a retreat is only
//! made towards a Pokemon that can attack at once.
//!
//! Every score is a whole number; they are kept as `i32`.

use vstd::prelude::*;

mod generic;
pub use generic::{
    IronThornsStrategy,
    DialgaMetangStrategy,
    PalkiaDusknoirStrategy,
    PalkiaGholdengoStrategy,
    LostBoxStrategy,
    RegidragoStrategy,
    LugiaArcheopsStrategy,
    ArceusGiratinaStrategy,
    RagingBoltOgerponStrategy,
    GardevoirStrategy,
    BlisseyTankStrategy,
    DragapultBanetteStrategy,
    DragapultDusknoirStrategy,
    DragapultCharizardStrategy,
};

use crate::action::Action;
use crate::card::{str_eq, Attack, CardDef, EnergyType};
use crate::state::{spec_top_card, GameState, GameView, PlayerId, PlayerState, PlayerView, PokemonSlot, SlotRef, SlotView};

verus! {

// ── Shared model ────────────────────────────────────────────────────

/// The number of energies of the cheapest attack of a non-empty list.
pub open spec fn spec_min_cost(attacks: Seq<Attack>) -> int
    decreases attacks.len(),
{
    if attacks.len() <= 1 {
        attacks[0].cost@.len() as int
    } else {
        let rest = spec_min_cost(attacks.drop_last());
        let last = attacks.last().cost@.len() as int;
        if last < rest { last } else { rest }
    }
}

/// The number of energies of the cheapest attack, 0 without attacks.
pub open spec fn spec_cheapest_cost(d: CardDef) -> int {
    if d.attacks@.len() == 0 {
        0
    } else {
        spec_min_cost(d.attacks@)
    }
}

/// How many more energies the Pokemon needs for its cheapest attack (never below 0).
pub open spec fn spec_gap(s: SlotView, d: CardDef) -> int {
    let g = spec_cheapest_cost(d) - s.energies.len();
    if g < 0 { 0 } else { g }
}

/// The energy counts involved in the gap fit in an `i32`.
pub open spec fn gap_fits(s: SlotView, d: CardDef) -> bool {
    &&& s.energies.len() <= i32::MAX
    &&& forall|k: int| 0 <= k < d.attacks@.len() ==> #[trigger] d.attacks@[k].cost@.len() <= i32::MAX
}

/// The definition of the top card of a Pokemon.
pub open spec fn def_of_slot(g: GameView, s: SlotView) -> Option<CardDef> {
    match spec_top_card(s) {
        Some(id) => g.def_of(id),
        None => None,
    }
}

/// The Pokemon can use an attack without more energy.
pub open spec fn spec_can_attack_now(g: GameView, s: SlotView) -> bool {
    match def_of_slot(g, s) {
        Some(d) => spec_gap(s, d) == 0,
        None => false,
    }
}

pub open spec fn can_attack_fits(g: GameView, s: SlotView) -> bool {
    match def_of_slot(g, s) {
        Some(d) => gap_fits(s, d),
        None => true,
    }
}

/// The player's active spot holds a Pokemon with at least one card.
pub open spec fn spec_has_active(g: GameView, p: PlayerId) -> bool {
    match g.player(p).active {
        Some(s) => s.cards.len() > 0,
        None => false,
    }
}

/// The damage of attack `index` of the player's active Pokemon (0 if there is none).
pub open spec fn spec_attack_damage(g: GameView, p: PlayerId, index: u8) -> u16 {
    match g.slot_def(p, SlotRef::Active) {
        Some(c) => if (index as int) < c.attacks@.len() {
            c.attacks@[index as int].damage
        } else {
            0
        },
        None => 0,
    }
}

/// `damage` more would knock out the opponent's active Pokemon.
pub open spec fn spec_would_ko(g: GameView, p: PlayerId, damage: u16) -> bool {
    match g.player(p.spec_opponent()).active {
        Some(s) => match def_of_slot(g, s) {
            Some(d) => match d.hp {
                Some(hp) => s.damage + damage >= hp,
                None => false,
            },
            None => false,
        },
        None => false,
    }
}

/// Adding `damage` to the opponent's active Pokemon fits in a `u16` where it is computed.
pub open spec fn ko_fits(g: GameView, p: PlayerId, damage: u16) -> bool {
    match g.player(p.spec_opponent()).active {
        Some(s) => match def_of_slot(g, s) {
            Some(d) => d.hp is Some ==> s.damage + damage <= u16::MAX,
            None => true,
        },
        None => true,
    }
}

/// The opponent's active Pokemon is an ex, V or VSTAR.
pub open spec fn spec_opp_rule_box(g: GameView, p: PlayerId) -> bool {
    match g.player(p.spec_opponent()).active {
        Some(s) => match def_of_slot(g, s) {
            Some(d) => d.spec_is_rule_box(),
            None => false,
        },
        None => false,
    }
}

/// Score of an attack: a knock-out scores 1200 (1000 against a Pokemon worth
/// one prize when `prize_aware`), otherwise `high` or `low` plus the damage,
/// as the damage reaches `threshold` or not.
pub open spec fn spec_attack_score(
    g: GameView,
    p: PlayerId,
    index: u8,
    threshold: u16,
    high: int,
    low: int,
    prize_aware: bool,
) -> int {
    let dmg = spec_attack_damage(g, p, index);
    if spec_would_ko(g, p, dmg) {
        if !prize_aware || spec_opp_rule_box(g, p) { 1200 } else { 1000 }
    } else if dmg >= threshold {
        high + dmg
    } else {
        low + dmg
    }
}

pub open spec fn attack_defined(g: GameView, p: PlayerId, index: u8) -> bool {
    ko_fits(g, p, spec_attack_damage(g, p, index))
}

/// The active Pokemon can attack at once.
pub open spec fn spec_active_ready(g: GameView, p: PlayerId) -> bool {
    match g.player(p).active {
        Some(s) => spec_can_attack_now(g, s),
        None => false,
    }
}

/// `target` is a bench Pokemon that can attack at once.
pub open spec fn spec_bench_ready(g: GameView, p: PlayerId, target: SlotRef) -> bool {
    match target {
        SlotRef::Bench(i) => match g.player(p).bench[i as int] {
            Some(s) => spec_can_attack_now(g, s),
            None => false,
        },
        SlotRef::Active => false,
    }
}

/// Score of a retreat towards `target`: 0 without an active Pokemon when
/// `guarded`, -200 when the active Pokemon can attack, 550 when the target
/// can, `fallback` otherwise.
pub open spec fn spec_retreat_score(g: GameView, p: PlayerId, target: SlotRef, guarded: bool, fallback: int) -> int {
    if guarded && !spec_has_active(g, p) {
        0
    } else if spec_active_ready(g, p) {
        -200
    } else if spec_bench_ready(g, p, target) {
        550
    } else {
        fallback
    }
}

/// A bench target lies within the bench, and the gaps it reads fit.
pub open spec fn retreat_defined(g: GameView, p: PlayerId, target: SlotRef, guarded: bool) -> bool {
    (guarded && !spec_has_active(g, p)) || {
        &&& match g.player(p).active {
            Some(s) => can_attack_fits(g, s),
            None => true,
        }
        &&& match target {
            SlotRef::Bench(i) => i < g.player(p).bench.len() && match g.player(p).bench[i as int] {
                Some(s) => can_attack_fits(g, s),
                None => true,
            },
            SlotRef::Active => true,
        }
    }
}

/// Picks a score by the energy gap: 1, 0, 2 or more.
pub open spec fn spec_by_gap(gap: int, one: int, zero: int, two: int, more: int) -> int {
    if gap == 1 {
        one
    } else if gap == 0 {
        zero
    } else if gap == 2 {
        two
    } else {
        more
    }
}

/// The base every strategy subtracts, with its own values for an evolution
/// and for ending the turn.
pub open spec fn spec_base_table(a: Action, evolve: int, end_turn: int) -> int {
    match a {
        Action::Attack { .. } => 500,
        Action::AttachEnergy { .. } => 220,
        Action::PlayTrainer { .. } => 110,
        Action::PlayBasicToBench { .. } => 180,
        Action::UseAbility { .. } => 160,
        Action::Retreat { .. } => 90,
        Action::Evolve { .. } => evolve,
        Action::EndTurn => end_turn,
        _ => 100,
    }
}

/// Some bench Pokemon of `pv` has a top card named `name`.
pub open spec fn spec_bench_has_named(g: GameView, pv: PlayerView, name: Seq<char>) -> bool {
    exists|i: int| 0 <= i < pv.bench.len() && #[trigger] bench_named(g, pv.bench[i], name)
}

pub open spec fn bench_named(g: GameView, o: Option<SlotView>, name: Seq<char>) -> bool {
    match o {
        Some(s) => match def_of_slot(g, s) {
            Some(c) => c.name@ == name,
            None => false,
        },
        None => false,
    }
}

// ── Helpers ─────────────────────────────────────────────────────────

/// How many more energies the Pokemon needs for its cheapest attack.
pub fn attack_energy_gap(slot: &PokemonSlot, card: &CardDef) -> (r: i32)
    requires
        gap_fits(slot@, *card),
    ensures
        r == spec_gap(slot@, *card),
{
    let energy_count = slot.energies.len() as i32;
    let n = card.attacks.len();
    let mut cheapest: i32 = 0;
    if n > 0 {
        proof {
            assert(card.attacks@[0].cost@.len() <= i32::MAX);
            assert(card.attacks@.subrange(0, 1).len() == 1);
        }
        cheapest = card.attacks[0].cost.len() as i32;
        let mut i: usize = 1;
        while i < n
            invariant
                1 <= i <= n,
                n == card.attacks@.len(),
                gap_fits(slot@, *card),
                0 <= cheapest,
                cheapest == spec_min_cost(card.attacks@.subrange(0, i as int)),
            decreases n - i,
        {
            let c = card.attacks[i].cost.len() as i32;
            proof {
                let s = card.attacks@.subrange(0, i as int + 1);
                assert(s.drop_last() =~= card.attacks@.subrange(0, i as int));
                assert(card.attacks@[i as int].cost@.len() <= i32::MAX);
            }
            if c < cheapest {
                cheapest = c;
            }
            i = i + 1;
        }
        proof {
            assert(card.attacks@.subrange(0, n as int) =~= card.attacks@);
        }
    }
    let gap = cheapest - energy_count;
    if gap < 0 {
        0
    } else {
        gap
    }
}

/// The definition of the top card of `slot`.
pub fn slot_card<'a>(slot: &PokemonSlot, state: &'a GameState) -> (r: Option<&'a CardDef>)
    ensures
        match r {
            Some(d) => def_of_slot(state@, slot@) == Some(*d),
            None => def_of_slot(state@, slot@) is None,
        },
{
    match slot.top_card() {
        Some(id) => state.get_card_def(id),
        None => None,
    }
}

/// Whether a basic Lightning energy is attached to the Pokemon.
pub fn has_lightning_energy(slot: &PokemonSlot, state: &GameState) -> (r: bool)
    ensures
        r == exists|i: int|
            0 <= i < slot@.energies.len() && match #[trigger] state@.def_of(slot@.energies[i]) {
                Some(d) => d.energy_type == Some(EnergyType::Lightning),
                None => false,
            },
{
    let mut i: usize = 0;
    while i < slot.energies.len()
        invariant
            i <= slot@.energies.len(),
            forall|j: int|
                0 <= j < i ==> match #[trigger] state@.def_of(slot@.energies[j]) {
                    Some(d) => d.energy_type != Some(EnergyType::Lightning),
                    None => true,
                },
        decreases slot@.energies.len() - i,
    {
        match state.get_card_def(slot.energies[i]) {
            Some(d) => {
                if d.energy_type == Some(EnergyType::Lightning) {
                    return true;
                }
            },
            None => {},
        }
        i = i + 1;
    }
    false
}

/// Whether `damage` more would knock out the opponent's active Pokemon.
pub fn would_ko_opponent(state: &GameState, player: PlayerId, damage: u16) -> (r: bool)
    requires
        player.0 < 2,
        ko_fits(state@, player, damage),
    ensures
        r == spec_would_ko(state@, player, damage),
{
    let opponent = player.opponent();
    match &state.player(opponent).active {
        Some(s) => match slot_card(s, state) {
            Some(d) => match d.hp {
                Some(hp) => s.damage + damage >= hp,
                None => false,
            },
            None => false,
        },
        None => false,
    }
}

/// An ex, V or VSTAR Pokemon (worth more prizes).
pub fn is_rule_box(card: &CardDef) -> (r: bool)
    ensures
        r == card.spec_is_rule_box(),
{
    card.is_ex() || card.is_v() || card.is_vstar()
}

/// Whether the Pokemon can attack without more energy.
pub fn can_attack_now(slot: &PokemonSlot, state: &GameState) -> (r: bool)
    requires
        can_attack_fits(state@, slot@),
    ensures
        r == spec_can_attack_now(state@, slot@),
{
    match slot_card(slot, state) {
        Some(card) => attack_energy_gap(slot, card) == 0,
        None => false,
    }
}

fn opp_rule_box(state: &GameState, player: PlayerId) -> (r: bool)
    requires
        player.0 < 2,
    ensures
        r == spec_opp_rule_box(state@, player),
{
    match &state.player(player.opponent()).active {
        Some(s) => match slot_card(s, state) {
            Some(d) => is_rule_box(d),
            None => false,
        },
        None => false,
    }
}

fn has_active(state: &GameState, player: PlayerId) -> (r: bool)
    requires
        player.0 < 2,
    ensures
        r == spec_has_active(state@, player),
{
    match &state.player(player).active {
        Some(s) => !s.is_empty(),
        None => false,
    }
}

/// The damage of attack `index` of the player's active Pokemon (0 if there is none).
pub fn attack_damage(state: &GameState, player: PlayerId, index: u8) -> (r: u16)
    requires
        player.0 < 2,
    ensures
        r == spec_attack_damage(state@, player, index),
{
    match &state.player(player).active {
        Some(s) => match slot_card(s, state) {
            Some(c) => {
                let i = index as usize;
                if i < c.attacks.len() {
                    c.attacks[i].damage
                } else {
                    0
                }
            },
            None => 0,
        },
        None => 0,
    }
}

fn attack_score(
    state: &GameState,
    player: PlayerId,
    index: u8,
    threshold: u16,
    high: i32,
    low: i32,
    prize_aware: bool,
) -> (r: i32)
    requires
        player.0 < 2,
        attack_defined(state@, player, index),
        0 <= high <= 1000,
        0 <= low <= 1000,
    ensures
        r == spec_attack_score(state@, player, index, threshold, high as int, low as int, prize_aware),
{
    let dmg = attack_damage(state, player, index);
    if would_ko_opponent(state, player, dmg) {
        if !prize_aware || opp_rule_box(state, player) {
            1200
        } else {
            1000
        }
    } else if dmg >= threshold {
        high + dmg as i32
    } else {
        low + dmg as i32
    }
}

fn active_ready(state: &GameState, player: PlayerId) -> (r: bool)
    requires
        player.0 < 2,
        match state@.player(player).active {
            Some(s) => can_attack_fits(state@, s),
            None => true,
        },
    ensures
        r == spec_active_ready(state@, player),
{
    match &state.player(player).active {
        Some(s) => can_attack_now(s, state),
        None => false,
    }
}

fn bench_ready(state: &GameState, player: PlayerId, target: SlotRef) -> (r: bool)
    requires
        player.0 < 2,
        match target {
            SlotRef::Bench(i) => i < state@.player(player).bench.len() && match state@.player(player).bench[i as int] {
                Some(s) => can_attack_fits(state@, s),
                None => true,
            },
            SlotRef::Active => true,
        },
    ensures
        r == spec_bench_ready(state@, player, target),
{
    let ps = state.player(player);
    match target {
        SlotRef::Bench(i) => {
            proof {
                assert(ps@.bench[i as int] == crate::state::opt_slot_view(ps.bench@[i as int]));
            }
            match &ps.bench[i] {
                Some(s) => can_attack_now(s, state),
                None => false,
            }
        },
        SlotRef::Active => false,
    }
}

fn retreat_score(state: &GameState, player: PlayerId, target: SlotRef, guarded: bool, fallback: i32) -> (r: i32)
    requires
        player.0 < 2,
        retreat_defined(state@, player, target, guarded),
    ensures
        r == spec_retreat_score(state@, player, target, guarded, fallback as int),
{
    if guarded && !has_active(state, player) {
        return 0;
    }
    let active_can = active_ready(state, player);
    let bench_can = bench_ready(state, player, target);
    if active_can {
        -200
    } else if bench_can {
        550
    } else {
        fallback
    }
}

fn by_gap(gap: i32, one: i32, zero: i32, two: i32, more: i32) -> (r: i32)
    ensures
        r == spec_by_gap(gap as int, one as int, zero as int, two as int, more as int),
{
    if gap == 1 {
        one
    } else if gap == 0 {
        zero
    } else if gap == 2 {
        two
    } else {
        more
    }
}

fn base_table(action: &Action, evolve: i32, end_turn: i32) -> (r: i32)
    ensures
        r == spec_base_table(*action, evolve as int, end_turn as int),
{
    match action {
        Action::Attack { .. } => 500,
        Action::AttachEnergy { .. } => 220,
        Action::PlayTrainer { .. } => 110,
        Action::PlayBasicToBench { .. } => 180,
        Action::UseAbility { .. } => 160,
        Action::Retreat { .. } => 90,
        Action::Evolve { .. } => evolve,
        Action::EndTurn => end_turn,
        _ => 100,
    }
}

/// Whether some bench Pokemon of `ps` has a top card named `name`.
fn bench_has_named(ps: &PlayerState, state: &GameState, name: &str) -> (r: bool)
    ensures
        r == spec_bench_has_named(state@, ps@, name@),
{
    let mut i: usize = 0;
    while i < ps.bench.len()
        invariant
            i <= ps@.bench.len(),
            ps@.bench.len() == ps.bench@.len(),
            forall|j: int| 0 <= j < i ==> !#[trigger] bench_named(state@, ps@.bench[j], name@),
        decreases ps.bench@.len() - i,
    {
        proof {
            assert(ps@.bench[i as int] == crate::state::opt_slot_view(ps.bench@[i as int]));
        }
        match &ps.bench[i] {
            Some(s) => match slot_card(s, state) {
                Some(c) => {
                    if str_eq(c.name.as_str(), name) {
                        assert(bench_named(state@, ps@.bench[i as int], name@));
                        return true;
                    }
                },
                None => {},
            },
            None => {},
        }
        i = i + 1;
    }
    false
}

/// Whether the gap of the Pokemon can be computed (see `gap_fits`).
pub fn gap_fits_exec(slot: &PokemonSlot, card: &CardDef) -> (r: bool)
    ensures
        r == gap_fits(slot@, *card),
{
    if slot.energies.len() > 2147483647 {
        return false;
    }
    let mut i: usize = 0;
    while i < card.attacks.len()
        invariant
            i <= card.attacks@.len(),
            forall|k: int| 0 <= k < i ==> #[trigger] card.attacks@[k].cost@.len() <= i32::MAX,
        decreases card.attacks@.len() - i,
    {
        if card.attacks[i].cost.len() > 2147483647 {
            return false;
        }
        i = i + 1;
    }
    true
}

fn can_attack_fits_exec(state: &GameState, slot: &PokemonSlot) -> (r: bool)
    ensures
        r == can_attack_fits(state@, slot@),
{
    match slot_card(slot, state) {
        Some(d) => gap_fits_exec(slot, d),
        None => true,
    }
}

fn attack_defined_exec(state: &GameState, player: PlayerId, index: u8) -> (r: bool)
    requires
        player.0 < 2,
    ensures
        r == attack_defined(state@, player, index),
{
    let damage = attack_damage(state, player, index);
    match &state.player(player.opponent()).active {
        Some(s) => match slot_card(s, state) {
            Some(d) => d.hp.is_none() || s.damage as u32 + damage as u32 <= 65535,
            None => true,
        },
        None => true,
    }
}

fn retreat_defined_exec(state: &GameState, player: PlayerId, target: SlotRef, guarded: bool) -> (r: bool)
    requires
        player.0 < 2,
    ensures
        r == retreat_defined(state@, player, target, guarded),
{
    if guarded && !has_active(state, player) {
        return true;
    }
    let ps = state.player(player);
    let active_ok = match &ps.active {
        Some(s) => can_attack_fits_exec(state, s),
        None => true,
    };
    let target_ok = match target {
        SlotRef::Bench(i) => {
            if i < ps.bench.len() {
                proof {
                    assert(ps@.bench[i as int] == crate::state::opt_slot_view(ps.bench@[i as int]));
                }
                match &ps.bench[i] {
                    Some(s) => can_attack_fits_exec(state, s),
                    None => true,
                }
            } else {
                false
            }
        },
        SlotRef::Active => true,
    };
    active_ok && target_ok
}

// ── Trait ───────────────────────────────────────────────────────────

/// Scores legal actions for heuristic opponent play.
pub trait DeckStrategy {
    /// Scoring `action` for `player` in `g` neither overflows nor reads past the bench.
    spec fn score_defined(&self, action: Action, g: GameView, player: PlayerId) -> bool;

    /// The absolute score of `action` for `player` in `g`.
    spec fn spec_score(&self, action: Action, g: GameView, player: PlayerId) -> int;

    /// The baseline of `action`'s kind, subtracted to compare kinds.
    spec fn spec_base(&self, action: Action) -> int;

    /// Absolute score of an action; higher is better.
    fn score_action(&self, action: &Action, state: &GameState, player: PlayerId) -> (r: i32)
        requires
            player.0 < 2,
            self.score_defined(*action, state@, player),
        ensures
            r == self.spec_score(*action, state@, player),
            -100_000 <= r <= 100_000,
    ;

    /// Whether `score_action` may be called for `action` (see `score_defined`).
    fn can_score(&self, action: &Action, state: &GameState, player: PlayerId) -> (r: bool)
        requires
            player.0 < 2,
        ensures
            r == self.score_defined(*action, state@, player),
    ;

    /// Baseline estimate of the action's kind.
    fn heuristic_base(&self, action: &Action) -> (r: i32)
        ensures
            r == self.spec_base(*action),
            -100_000 <= r <= 100_000,
    ;

    /// The absolute score less the baseline.
    fn score_relative(&self, action: &Action, state: &GameState, player: PlayerId) -> (r: i32)
        requires
            player.0 < 2,
            self.score_defined(*action, state@, player),
        ensures
            r == self.spec_score(*action, state@, player) - self.spec_base(*action),
    {
        let abs = self.score_action(action, state, player);
        let base = self.heuristic_base(action);
        abs - base
    }

    /// The index of the action with the best relative score; of several
    /// equal best, the last one. `None` for no actions.
    fn select_action(&self, actions: &[Action], state: &GameState, player: PlayerId) -> (r: Option<usize>)
        requires
            player.0 < 2,
            forall|j: int| 0 <= j < actions@.len() ==> self.score_defined(#[trigger] actions@[j], state@, player),
        ensures
            r is None <==> actions@.len() == 0,
            r matches Some(i) ==> {
                &&& i < actions@.len()
                &&& forall|j: int|
                    0 <= j < actions@.len() ==> self.spec_score(#[trigger] actions@[j], state@, player)
                        - self.spec_base(actions@[j]) <= self.spec_score(actions@[i as int], state@, player)
                        - self.spec_base(actions@[i as int])
                &&& forall|j: int|
                    i < j < actions@.len() ==> self.spec_score(#[trigger] actions@[j], state@, player)
                        - self.spec_base(actions@[j]) < self.spec_score(actions@[i as int], state@, player)
                        - self.spec_base(actions@[i as int])
            },
    {
        if actions.len() == 0 {
            return None;
        }
        let mut best: usize = 0;
        let mut best_score = self.score_relative(&actions[0], state, player);
        let mut i: usize = 1;
        while i < actions.len()
            invariant
                1 <= i <= actions@.len(),
                best < i,
                player.0 < 2,
                forall|j: int| 0 <= j < actions@.len() ==> self.score_defined(#[trigger] actions@[j], state@, player),
                best_score == self.spec_score(actions@[best as int], state@, player) - self.spec_base(actions@[best as int]),
                forall|j: int|
                    0 <= j < i ==> self.spec_score(#[trigger] actions@[j], state@, player)
                        - self.spec_base(actions@[j]) <= best_score,
                forall|j: int|
                    best < j < i ==> self.spec_score(#[trigger] actions@[j], state@, player)
                        - self.spec_base(actions@[j]) < best_score,
            decreases actions@.len() - i,
        {
            let s = self.score_relative(&actions[i], state, player);
            if s >= best_score {
                best = i;
                best_score = s;
            }
            i = i + 1;
        }
        Some(best)
    }
}


/// The gap of the Pokemon at `target` fits an `i32` when `reads(c)` holds of its card `c`.
pub open spec fn target_gap_fits_if(g: GameView, p: PlayerId, target: SlotRef, reads: spec_fn(CardDef) -> bool) -> bool {
    match g.player(p).slot(target) {
        Some(s) => match def_of_slot(g, s) {
            Some(c) => reads(c) ==> gap_fits(s, c),
            None => true,
        },
        None => true,
    }
}

/// The score of attaching energy to `target`: `by_gap` of its gap where
/// `routed(c)` holds of its card `c`, 40 otherwise.
pub open spec fn spec_routed_energy_score(
    g: GameView,
    p: PlayerId,
    target: SlotRef,
    routed: spec_fn(CardDef) -> bool,
    one: int,
    zero: int,
    two: int,
    more: int,
) -> int {
    match g.player(p).slot(target) {
        Some(s) => match def_of_slot(g, s) {
            Some(c) => if routed(c) {
                spec_by_gap(spec_gap(s, c), one, zero, two, more)
            } else {
                40
            },
            None => 40,
        },
        None => 40,
    }
}

// ── Miraidon ────────────────────────────────────────────────────────

/// Strategy of the Miraidon ex deck: Lightning attackers get the energy.
pub struct MiraidonStrategy;

pub open spec fn spec_is_core_pokemon(name: Seq<char>) -> bool {
    ||| name == "Miraidon ex"@
    ||| name == "Iron Hands ex"@
    ||| name == "Raikou V"@
    ||| name == "Zapdos"@
    ||| name == "Raichu V"@
}

pub open spec fn spec_is_lightning_attacker(name: Seq<char>) -> bool {
    ||| name == "Miraidon ex"@
    ||| name == "Iron Hands ex"@
    ||| name == "Raikou V"@
    ||| name == "Raichu V"@
    ||| name == "Zapdos"@
    ||| name == "Radiant Greninja"@
}

pub open spec fn miraidon_energy_score(g: GameView, p: PlayerId, target: SlotRef) -> int {
    match g.player(p).slot(target) {
        Some(s) => match def_of_slot(g, s) {
            Some(c) => if spec_is_lightning_attacker(c.name@) {
                spec_by_gap(spec_gap(s, c), 550, 80, 350, 260)
            } else if c.name@ == "Miraidon ex"@ {
                if target is Active {
                    if spec_gap(s, c) == 1 { 380 } else { 100 }
                } else {
                    -50
                }
            } else {
                40
            },
            None => 40,
        },
        None => 40,
    }
}

/// Bench budgeting: 350 while the free slots are only enough for the
/// missing Miraidon ex and Iron Hands ex, 200 below three benched, 100 after.
pub open spec fn miraidon_bench_score(g: GameView, p: PlayerId) -> int {
    let pv = g.player(p);
    let n = pv.bench_count() as int;
    if n >= 5 {
        0
    } else {
        let needed = (if !spec_bench_has_named(g, pv, "Miraidon ex"@) { 1int } else { 0int }) + (
        if !spec_bench_has_named(g, pv, "Iron Hands ex"@) { 1int } else { 0int });
        if 5 - n <= needed {
            350
        } else if n < 3 {
            200
        } else {
            100
        }
    }
}

pub open spec fn miraidon_score(a: Action, g: GameView, p: PlayerId) -> int {
    match a {
        Action::Attack { attack_index, .. } => spec_attack_score(g, p, attack_index, 120, 400, 300, true),
        Action::AttachEnergy { target, .. } => miraidon_energy_score(g, p, target),
        Action::PlayBasicToBench { .. } => miraidon_bench_score(g, p),
        Action::Retreat { target, .. } => spec_retreat_score(g, p, target, true, -150),
        Action::UseAbility { .. } => 400,
        Action::PlayTrainer { .. } => 220,
        Action::Evolve { .. } => 500,
        Action::EndTurn => 0,
        Action::SetupChooseActive { .. } => 500,
        Action::SetupBenchBasics { .. } => 300,
        _ => 100,
    }
}

pub open spec fn miraidon_defined(a: Action, g: GameView, p: PlayerId) -> bool {
    match a {
        Action::Attack { attack_index, .. } => attack_defined(g, p, attack_index),
        Action::AttachEnergy { target, .. } => target_gap_fits_if(
            g,
            p,
            target,
            |c: CardDef| spec_is_lightning_attacker(c.name@) || c.name@ == "Miraidon ex"@,
        ),
        Action::Retreat { target, .. } => retreat_defined(g, p, target, true),
        _ => true,
    }
}

impl MiraidonStrategy {
    fn energy_fits(state: &GameState, player: PlayerId, target: SlotRef) -> (r: bool)
        requires
            player.0 < 2,
        ensures
            r == target_gap_fits_if(state@, player, target, |c: CardDef| spec_is_lightning_attacker(c.name@) || c.name@ == "Miraidon ex"@),
    {
        match state.player(player).get_slot(target) {
            Some(s) => match slot_card(s, state) {
                Some(c) => !(Self::is_lightning_attacker(c.name.as_str()) || str_eq(c.name.as_str(), "Miraidon ex")) || gap_fits_exec(s, c),
                None => true,
            },
            None => true,
        }
    }

    /// Pokemon that should be benched early.
    pub fn is_core_pokemon(name: &str) -> (r: bool)
        ensures
            r == spec_is_core_pokemon(name@),
    {
        str_eq(name, "Miraidon ex") || str_eq(name, "Iron Hands ex") || str_eq(name, "Raikou V") || str_eq(
            name,
            "Zapdos",
        ) || str_eq(name, "Raichu V")
    }

    /// Lightning attackers, which should receive energy.
    pub fn is_lightning_attacker(name: &str) -> (r: bool)
        ensures
            r == spec_is_lightning_attacker(name@),
    {
        str_eq(name, "Miraidon ex") || str_eq(name, "Iron Hands ex") || str_eq(name, "Raikou V") || str_eq(
            name,
            "Raichu V",
        ) || str_eq(name, "Zapdos") || str_eq(name, "Radiant Greninja")
    }

    fn energy_score(state: &GameState, player: PlayerId, target: SlotRef) -> (r: i32)
        requires
            player.0 < 2,
            target_gap_fits_if(
                state@,
                player,
                target,
                |c: CardDef| spec_is_lightning_attacker(c.name@) || c.name@ == "Miraidon ex"@,
            ),
        ensures
            r == miraidon_energy_score(state@, player, target),
    {
        let ps = state.player(player);
        match ps.get_slot(target) {
            Some(s) => match slot_card(s, state) {
                Some(c) => {
                    if Self::is_lightning_attacker(c.name.as_str()) {
                        by_gap(attack_energy_gap(s, c), 550, 80, 350, 260)
                    } else if str_eq(c.name.as_str(), "Miraidon ex") {
                        match target {
                            SlotRef::Active => if attack_energy_gap(s, c) == 1 {
                                380
                            } else {
                                100
                            },
                            _ => -50,
                        }
                    } else {
                        40
                    }
                },
                None => 40,
            },
            None => 40,
        }
    }

    fn bench_score(state: &GameState, player: PlayerId) -> (r: i32)
        requires
            player.0 < 2,
        ensures
            r == miraidon_bench_score(state@, player),
    {
        let ps = state.player(player);
        let bench_count = ps.bench_count();
        if bench_count >= 5 {
            return 0;
        }
        let free_slots = 5 - bench_count;
        let missing_miraidon: usize = if !bench_has_named(ps, state, "Miraidon ex") { 1 } else { 0 };
        let missing_hands: usize = if !bench_has_named(ps, state, "Iron Hands ex") { 1 } else { 0 };
        let essentials_needed = missing_miraidon + missing_hands;
        if free_slots <= essentials_needed {
            350
        } else if bench_count < 3 {
            200
        } else {
            100
        }
    }
}

impl DeckStrategy for MiraidonStrategy {
    open spec fn score_defined(&self, action: Action, g: GameView, player: PlayerId) -> bool {
        miraidon_defined(action, g, player)
    }

    open spec fn spec_score(&self, action: Action, g: GameView, player: PlayerId) -> int {
        miraidon_score(action, g, player)
    }

    open spec fn spec_base(&self, action: Action) -> int {
        spec_base_table(action, 300, 0)
    }

    fn score_action(&self, action: &Action, state: &GameState, player: PlayerId) -> (r: i32) {
        match action {
            Action::Attack { attack_index, .. } => attack_score(state, player, *attack_index, 120, 400, 300, true),
            Action::AttachEnergy { card: _, target } => Self::energy_score(state, player, *target),
            Action::PlayBasicToBench { card: _ } => Self::bench_score(state, player),
            Action::Retreat { target, .. } => retreat_score(state, player, *target, true, -150),
            Action::UseAbility { .. } => 400,
            Action::PlayTrainer { .. } => 220,
            Action::Evolve { .. } => 500,
            Action::EndTurn => 0,
            Action::SetupChooseActive { .. } => 500,
            Action::SetupBenchBasics { .. } => 300,
            _ => 100,
        }
    }

    fn heuristic_base(&self, action: &Action) -> (r: i32) {
        base_table(action, 300, 0)
    }

    fn can_score(&self, action: &Action, state: &GameState, player: PlayerId) -> (r: bool) {
        match action {
            Action::Attack { attack_index, .. } => attack_defined_exec(state, player, *attack_index),
            Action::AttachEnergy { card: _, target } => Self::energy_fits(state, player, *target),
            Action::Retreat { target, .. } => retreat_defined_exec(state, player, *target, true),
            _ => true,
        }
    }
}


/// 0 with a full bench, `early` below three benched, `late` after.
pub open spec fn spec_tiered_bench_score(g: GameView, p: PlayerId, early: int, late: int) -> int {
    let n = g.player(p).bench_count();
    if n >= 5 {
        0
    } else if n < 3 {
        early
    } else {
        late
    }
}

fn tiered_bench_score(state: &GameState, player: PlayerId, early: i32, late: i32) -> (r: i32)
    requires
        player.0 < 2,
    ensures
        r == spec_tiered_bench_score(state@, player, early as int, late as int),
{
    let n = state.player(player).bench_count();
    if n >= 5 {
        0
    } else if n < 3 {
        early
    } else {
        late
    }
}

// ── Charizard ───────────────────────────────────────────────────────

/// Strategy of the Charizard ex deck: Fire attackers get the energy and
/// evolutions come first.
pub struct CharizardStrategy;

pub open spec fn spec_is_fire_attacker(name: Seq<char>) -> bool {
    ||| name == "Charizard ex"@
    ||| name == "Charmander"@
    ||| name == "Charmeleon"@
    ||| name == "Radiant Charizard"@
}

pub open spec fn fire_attacker_card(c: CardDef) -> bool {
    spec_is_fire_attacker(c.name@)
}

/// An evolution scores by the name of the Pokemon it lands on.
pub open spec fn charizard_evolve_score(g: GameView, p: PlayerId, target: SlotRef) -> int {
    let name = match g.slot_def(p, target) {
        Some(c) => c.name@,
        None => ""@,
    };
    if name == "Charizard ex"@ {
        860
    } else if name == "Pidgeot ex"@ {
        780
    } else if name == "Dusknoir"@ {
        560
    } else {
        480
    }
}

pub open spec fn charizard_score(a: Action, g: GameView, p: PlayerId) -> int {
    match a {
        Action::Attack { attack_index, .. } => spec_attack_score(g, p, attack_index, 180, 500, 300, true),
        Action::AttachEnergy { target, .. } => spec_routed_energy_score(
            g,
            p,
            target,
            |c: CardDef| fire_attacker_card(c),
            640,
            120,
            420,
            300,
        ),
        Action::PlayBasicToBench { .. } => spec_tiered_bench_score(g, p, 250, 250),
        Action::Evolve { target, .. } => charizard_evolve_score(g, p, target),
        Action::Retreat { target, .. } => spec_retreat_score(g, p, target, true, -150),
        Action::UseAbility { .. } => 400,
        Action::PlayTrainer { .. } => 200,
        Action::EndTurn => 0,
        Action::SetupChooseActive { .. } => 500,
        Action::SetupBenchBasics { .. } => 300,
        _ => 100,
    }
}

pub open spec fn charizard_defined(a: Action, g: GameView, p: PlayerId) -> bool {
    match a {
        Action::Attack { attack_index, .. } => attack_defined(g, p, attack_index),
        Action::AttachEnergy { target, .. } => target_gap_fits_if(g, p, target, |c: CardDef| fire_attacker_card(c)),
        Action::Retreat { target, .. } => retreat_defined(g, p, target, true),
        _ => true,
    }
}

impl CharizardStrategy {
    fn energy_fits(state: &GameState, player: PlayerId, target: SlotRef) -> (r: bool)
        requires
            player.0 < 2,
        ensures
            r == target_gap_fits_if(state@, player, target, |c: CardDef| fire_attacker_card(c)),
    {
        match state.player(player).get_slot(target) {
            Some(s) => match slot_card(s, state) {
                Some(c) => !(Self::is_fire_attacker(c.name.as_str())) || gap_fits_exec(s, c),
                None => true,
            },
            None => true,
        }
    }

    pub fn is_fire_attacker(name: &str) -> (r: bool)
        ensures
            r == spec_is_fire_attacker(name@),
    {
        str_eq(name, "Charizard ex") || str_eq(name, "Charmander") || str_eq(name, "Charmeleon") || str_eq(
            name,
            "Radiant Charizard",
        )
    }

    fn energy_score(state: &GameState, player: PlayerId, target: SlotRef) -> (r: i32)
        requires
            player.0 < 2,
            target_gap_fits_if(state@, player, target, |c: CardDef| fire_attacker_card(c)),
        ensures
            r == spec_routed_energy_score(
                state@,
                player,
                target,
                |c: CardDef| fire_attacker_card(c),
                640,
                120,
                420,
                300,
            ),
    {
        let ps = state.player(player);
        match ps.get_slot(target) {
            Some(s) => match slot_card(s, state) {
                Some(c) => {
                    if Self::is_fire_attacker(c.name.as_str()) {
                        by_gap(attack_energy_gap(s, c), 640, 120, 420, 300)
                    } else {
                        40
                    }
                },
                None => 40,
            },
            None => 40,
        }
    }

    fn evolve_score(state: &GameState, player: PlayerId, target: SlotRef) -> (r: i32)
        requires
            player.0 < 2,
        ensures
            r == charizard_evolve_score(state@, player, target),
    {
        let ps = state.player(player);
        let card = match ps.get_slot(target) {
            Some(s) => slot_card(s, state),
            None => None,
        };
        let card_name: &str = match card {
            Some(c) => c.name.as_str(),
            None => "",
        };
        if str_eq(card_name, "Charizard ex") {
            860
        } else if str_eq(card_name, "Pidgeot ex") {
            780
        } else if str_eq(card_name, "Dusknoir") {
            560
        } else {
            480
        }
    }
}

impl DeckStrategy for CharizardStrategy {
    open spec fn score_defined(&self, action: Action, g: GameView, player: PlayerId) -> bool {
        charizard_defined(action, g, player)
    }

    open spec fn spec_score(&self, action: Action, g: GameView, player: PlayerId) -> int {
        charizard_score(action, g, player)
    }

    open spec fn spec_base(&self, action: Action) -> int {
        spec_base_table(action, 300, 10)
    }

    fn score_action(&self, action: &Action, state: &GameState, player: PlayerId) -> (r: i32) {
        match action {
            Action::Attack { attack_index, .. } => attack_score(state, player, *attack_index, 180, 500, 300, true),
            Action::AttachEnergy { card: _, target } => Self::energy_score(state, player, *target),
            Action::PlayBasicToBench { .. } => tiered_bench_score(state, player, 250, 250),
            Action::Evolve { card: _, target } => Self::evolve_score(state, player, *target),
            Action::Retreat { target, .. } => retreat_score(state, player, *target, true, -150),
            Action::UseAbility { .. } => 400,
            Action::PlayTrainer { .. } => 200,
            Action::EndTurn => 0,
            Action::SetupChooseActive { .. } => 500,
            Action::SetupBenchBasics { .. } => 300,
            _ => 100,
        }
    }

    fn heuristic_base(&self, action: &Action) -> (r: i32) {
        base_table(action, 300, 10)
    }

    fn can_score(&self, action: &Action, state: &GameState, player: PlayerId) -> (r: bool) {
        match action {
            Action::Attack { attack_index, .. } => attack_defined_exec(state, player, *attack_index),
            Action::AttachEnergy { card: _, target } => Self::energy_fits(state, player, *target),
            Action::Retreat { target, .. } => retreat_defined_exec(state, player, *target, true),
            _ => true,
        }
    }
}

// ── Gouging Fire ────────────────────────────────────────────────────

/// Strategy of the Gouging Fire deck: Fire and then Darkness Pokemon get the energy.
pub struct GougingFireStrategy;

pub open spec fn fire_or_dark_card(c: CardDef) -> bool {
    c.energy_type == Some(EnergyType::Fire) || c.energy_type == Some(EnergyType::Darkness)
}

pub open spec fn gouging_energy_score(g: GameView, p: PlayerId, target: SlotRef) -> int {
    match g.player(p).slot(target) {
        Some(s) => match def_of_slot(g, s) {
            Some(c) => if c.energy_type == Some(EnergyType::Fire) {
                spec_by_gap(spec_gap(s, c), 550, 80, 350, 260)
            } else if c.energy_type == Some(EnergyType::Darkness) {
                spec_by_gap(spec_gap(s, c), 520, 70, 320, 240)
            } else {
                40
            },
            None => 40,
        },
        None => 40,
    }
}

pub open spec fn gouging_score(a: Action, g: GameView, p: PlayerId) -> int {
    match a {
        Action::Attack { attack_index, .. } => spec_attack_score(g, p, attack_index, 200, 600, 400, true),
        Action::AttachEnergy { target, .. } => gouging_energy_score(g, p, target),
        Action::PlayBasicToBench { .. } => spec_tiered_bench_score(g, p, 300, 150),
        Action::Retreat { target, .. } => spec_retreat_score(g, p, target, true, -150),
        Action::UseAbility { .. } => 400,
        Action::PlayTrainer { .. } => 200,
        Action::Evolve { .. } => 300,
        Action::EndTurn => 0,
        Action::SetupChooseActive { .. } => 500,
        _ => 100,
    }
}

pub open spec fn gouging_defined(a: Action, g: GameView, p: PlayerId) -> bool {
    match a {
        Action::Attack { attack_index, .. } => attack_defined(g, p, attack_index),
        Action::AttachEnergy { target, .. } => target_gap_fits_if(g, p, target, |c: CardDef| fire_or_dark_card(c)),
        Action::Retreat { target, .. } => retreat_defined(g, p, target, true),
        _ => true,
    }
}

impl GougingFireStrategy {
    fn energy_fits(state: &GameState, player: PlayerId, target: SlotRef) -> (r: bool)
        requires
            player.0 < 2,
        ensures
            r == target_gap_fits_if(state@, player, target, |c: CardDef| fire_or_dark_card(c)),
    {
        match state.player(player).get_slot(target) {
            Some(s) => match slot_card(s, state) {
                Some(c) => !(c.energy_type == Some(EnergyType::Fire) || c.energy_type == Some(EnergyType::Darkness)) || gap_fits_exec(s, c),
                None => true,
            },
            None => true,
        }
    }

    fn energy_score(state: &GameState, player: PlayerId, target: SlotRef) -> (r: i32)
        requires
            player.0 < 2,
            target_gap_fits_if(state@, player, target, |c: CardDef| fire_or_dark_card(c)),
        ensures
            r == gouging_energy_score(state@, player, target),
    {
        let ps = state.player(player);
        match ps.get_slot(target) {
            Some(s) => match slot_card(s, state) {
                Some(c) => {
                    if c.energy_type == Some(EnergyType::Fire) {
                        by_gap(attack_energy_gap(s, c), 550, 80, 350, 260)
                    } else if c.energy_type == Some(EnergyType::Darkness) {
                        by_gap(attack_energy_gap(s, c), 520, 70, 320, 240)
                    } else {
                        40
                    }
                },
                None => 40,
            },
            None => 40,
        }
    }
}

impl DeckStrategy for GougingFireStrategy {
    open spec fn score_defined(&self, action: Action, g: GameView, player: PlayerId) -> bool {
        gouging_defined(action, g, player)
    }

    open spec fn spec_score(&self, action: Action, g: GameView, player: PlayerId) -> int {
        gouging_score(action, g, player)
    }

    open spec fn spec_base(&self, action: Action) -> int {
        spec_base_table(action, 200, 0)
    }

    fn score_action(&self, action: &Action, state: &GameState, player: PlayerId) -> (r: i32) {
        match action {
            Action::Attack { attack_index, .. } => attack_score(state, player, *attack_index, 200, 600, 400, true),
            Action::AttachEnergy { card: _, target } => Self::energy_score(state, player, *target),
            Action::PlayBasicToBench { .. } => tiered_bench_score(state, player, 300, 150),
            Action::Retreat { target, .. } => retreat_score(state, player, *target, true, -150),
            Action::UseAbility { .. } => 400,
            Action::PlayTrainer { .. } => 200,
            Action::Evolve { .. } => 300,
            Action::EndTurn => 0,
            Action::SetupChooseActive { .. } => 500,
            _ => 100,
        }
    }

    fn heuristic_base(&self, action: &Action) -> (r: i32) {
        base_table(action, 200, 0)
    }

    fn can_score(&self, action: &Action, state: &GameState, player: PlayerId) -> (r: bool) {
        match action {
            Action::Attack { attack_index, .. } => attack_defined_exec(state, player, *attack_index),
            Action::AttachEnergy { card: _, target } => Self::energy_fits(state, player, *target),
            Action::Retreat { target, .. } => retreat_defined_exec(state, player, *target, true),
            _ => true,
        }
    }
}

// ── Future Box ──────────────────────────────────────────────────────

/// Strategy of the Future Box deck: Lightning and Grass Pokemon get the energy.
pub struct FutureBoxStrategy;

pub open spec fn lightning_or_grass_card(c: CardDef) -> bool {
    c.energy_type == Some(EnergyType::Lightning) || c.energy_type == Some(EnergyType::Grass)
}

pub open spec fn future_box_score(a: Action, g: GameView, p: PlayerId) -> int {
    match a {
        Action::Attack { attack_index, .. } => spec_attack_score(g, p, attack_index, 160, 500, 300, false),
        Action::AttachEnergy { target, .. } => spec_routed_energy_score(
            g,
            p,
            target,
            |c: CardDef| lightning_or_grass_card(c),
            550,
            80,
            300,
            300,
        ),
        Action::PlayBasicToBench { .. } => spec_tiered_bench_score(g, p, 300, 150),
        Action::Retreat { target, .. } => spec_retreat_score(g, p, target, true, -100),
        Action::UseAbility { .. } => 350,
        Action::PlayTrainer { .. } => 200,
        Action::Evolve { .. } => 200,
        Action::EndTurn => 0,
        Action::SetupChooseActive { .. } => 500,
        _ => 100,
    }
}

pub open spec fn future_box_defined(a: Action, g: GameView, p: PlayerId) -> bool {
    match a {
        Action::Attack { attack_index, .. } => attack_defined(g, p, attack_index),
        Action::AttachEnergy { target, .. } => target_gap_fits_if(
            g,
            p,
            target,
            |c: CardDef| lightning_or_grass_card(c),
        ),
        Action::Retreat { target, .. } => retreat_defined(g, p, target, true),
        _ => true,
    }
}

impl FutureBoxStrategy {
    fn energy_fits(state: &GameState, player: PlayerId, target: SlotRef) -> (r: bool)
        requires
            player.0 < 2,
        ensures
            r == target_gap_fits_if(state@, player, target, |c: CardDef| lightning_or_grass_card(c)),
    {
        match state.player(player).get_slot(target) {
            Some(s) => match slot_card(s, state) {
                Some(c) => !(c.energy_type == Some(EnergyType::Lightning) || c.energy_type == Some(EnergyType::Grass)) || gap_fits_exec(s, c),
                None => true,
            },
            None => true,
        }
    }

    fn energy_score(state: &GameState, player: PlayerId, target: SlotRef) -> (r: i32)
        requires
            player.0 < 2,
            target_gap_fits_if(state@, player, target, |c: CardDef| lightning_or_grass_card(c)),
        ensures
            r == spec_routed_energy_score(
                state@,
                player,
                target,
                |c: CardDef| lightning_or_grass_card(c),
                550,
                80,
                300,
                300,
            ),
    {
        let ps = state.player(player);
        match ps.get_slot(target) {
            Some(s) => match slot_card(s, state) {
                Some(c) => {
                    if c.energy_type == Some(EnergyType::Lightning) || c.energy_type == Some(EnergyType::Grass) {
                        by_gap(attack_energy_gap(s, c), 550, 80, 300, 300)
                    } else {
                        40
                    }
                },
                None => 40,
            },
            None => 40,
        }
    }
}

impl DeckStrategy for FutureBoxStrategy {
    open spec fn score_defined(&self, action: Action, g: GameView, player: PlayerId) -> bool {
        future_box_defined(action, g, player)
    }

    open spec fn spec_score(&self, action: Action, g: GameView, player: PlayerId) -> int {
        future_box_score(action, g, player)
    }

    open spec fn spec_base(&self, action: Action) -> int {
        spec_base_table(action, 200, 0)
    }

    fn score_action(&self, action: &Action, state: &GameState, player: PlayerId) -> (r: i32) {
        match action {
            Action::Attack { attack_index, .. } => attack_score(state, player, *attack_index, 160, 500, 300, false),
            Action::AttachEnergy { card: _, target } => Self::energy_score(state, player, *target),
            Action::PlayBasicToBench { .. } => tiered_bench_score(state, player, 300, 150),
            Action::Retreat { target, .. } => retreat_score(state, player, *target, true, -100),
            Action::UseAbility { .. } => 350,
            Action::PlayTrainer { .. } => 200,
            Action::Evolve { .. } => 200,
            Action::EndTurn => 0,
            Action::SetupChooseActive { .. } => 500,
            _ => 100,
        }
    }

    fn heuristic_base(&self, action: &Action) -> (r: i32) {
        base_table(action, 200, 0)
    }

    fn can_score(&self, action: &Action, state: &GameState, player: PlayerId) -> (r: bool) {
        match action {
            Action::Attack { attack_index, .. } => attack_defined_exec(state, player, *attack_index),
            Action::AttachEnergy { card: _, target } => Self::energy_fits(state, player, *target),
            Action::Retreat { target, .. } => retreat_defined_exec(state, player, *target, true),
            _ => true,
        }
    }
}


// ── Generic ─────────────────────────────────────────────────────────

/// The standard heuristics, shared by the decks without a strategy of their own.
pub open spec fn any_card(c: CardDef) -> bool {
    true
}

pub open spec fn generic_score(a: Action, g: GameView, p: PlayerId) -> int {
    match a {
        Action::Attack { attack_index, .. } => spec_attack_score(g, p, attack_index, 150, 500, 300, false),
        Action::AttachEnergy { target, .. } => spec_routed_energy_score(
            g,
            p,
            target,
            |c: CardDef| any_card(c),
            550,
            80,
            300,
            300,
        ),
        Action::PlayBasicToBench { .. } => spec_tiered_bench_score(g, p, 250, 250),
        Action::Retreat { target, .. } => spec_retreat_score(g, p, target, false, -100),
        Action::Evolve { .. } => 500,
        Action::UseAbility { .. } => 400,
        Action::PlayTrainer { .. } => 200,
        Action::EndTurn => 0,
        Action::SetupChooseActive { .. } => 500,
        _ => 100,
    }
}

pub open spec fn generic_defined(a: Action, g: GameView, p: PlayerId) -> bool {
    match a {
        Action::Attack { attack_index, .. } => attack_defined(g, p, attack_index),
        Action::AttachEnergy { target, .. } => target_gap_fits_if(g, p, target, |c: CardDef| any_card(c)),
        Action::Retreat { target, .. } => retreat_defined(g, p, target, false),
        _ => true,
    }
}

pub open spec fn generic_base(a: Action) -> int {
    spec_base_table(a, 300, 0)
}

fn generic_energy_score(state: &GameState, player: PlayerId, target: SlotRef) -> (r: i32)
    requires
        player.0 < 2,
        target_gap_fits_if(state@, player, target, |c: CardDef| any_card(c)),
    ensures
        r == spec_routed_energy_score(state@, player, target, |c: CardDef| any_card(c), 550, 80, 300, 300),
{
    let ps = state.player(player);
    match ps.get_slot(target) {
        Some(s) => match slot_card(s, state) {
            Some(c) => by_gap(attack_energy_gap(s, c), 550, 80, 300, 300),
            None => 40,
        },
        None => 40,
    }
}

fn generic_energy_fits(state: &GameState, player: PlayerId, target: SlotRef) -> (r: bool)
    requires
        player.0 < 2,
    ensures
        r == target_gap_fits_if(state@, player, target, |c: CardDef| any_card(c)),
{
    match state.player(player).get_slot(target) {
        Some(s) => match slot_card(s, state) {
            Some(c) => gap_fits_exec(s, c),
            None => true,
        },
        None => true,
    }
}

/// Whether the standard heuristics can score `action` (see `generic_defined`).
pub fn generic_can_score(action: &Action, state: &GameState, player: PlayerId) -> (r: bool)
    requires
        player.0 < 2,
    ensures
        r == generic_defined(*action, state@, player),
{
    match action {
        Action::Attack { attack_index, .. } => attack_defined_exec(state, player, *attack_index),
        Action::AttachEnergy { card: _, target } => generic_energy_fits(state, player, *target),
        Action::Retreat { target, .. } => retreat_defined_exec(state, player, *target, false),
        _ => true,
    }
}

/// The score of the standard heuristics.
pub fn generic_score_action(action: &Action, state: &GameState, player: PlayerId) -> (r: i32)
    requires
        player.0 < 2,
        generic_defined(*action, state@, player),
    ensures
        r == generic_score(*action, state@, player),
{
    match action {
        Action::Attack { attack_index, .. } => attack_score(state, player, *attack_index, 150, 500, 300, false),
        Action::AttachEnergy { card: _, target } => generic_energy_score(state, player, *target),
        Action::PlayBasicToBench { .. } => tiered_bench_score(state, player, 250, 250),
        Action::Retreat { target, .. } => retreat_score(state, player, *target, false, -100),
        Action::Evolve { .. } => 500,
        Action::UseAbility { .. } => 400,
        Action::PlayTrainer { .. } => 200,
        Action::EndTurn => 0,
        Action::SetupChooseActive { .. } => 500,
        _ => 100,
    }
}

/// The baseline of the standard heuristics.
pub fn generic_heuristic_base(action: &Action) -> (r: i32)
    ensures
        r == generic_base(*action),
{
    base_table(action, 300, 0)
}

/// No action scores below -200 for either deck's strategy: the lowest
/// score is that of retreating an active Pokemon that can attack.
pub proof fn lemma_score_floor(a: Action, g: GameView, p: PlayerId)
    ensures
        miraidon_score(a, g, p) >= -200,
        charizard_score(a, g, p) >= -200,
{
}

} // verus!
