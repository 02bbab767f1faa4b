//! The legal actions of a player.

use vstd::prelude::*;

use super::Engine;
use crate::action::{Action, Choices};
use crate::card::{CardDef, CardType, Stage};
use crate::effects::pokemon::{occupied, phantom_targets};
use crate::error::ErrorView;
use crate::rules::{
    is_basic_def, spec_check_action, spec_check_attach_energy, spec_check_attack, spec_check_evolve,
    spec_check_mulligan, spec_check_play_basic, spec_check_play_trainer, spec_check_retreat,
    spec_check_setup_choose_active, spec_check_use_ability, spec_has_basic, RuleValidator,
};
use crate::state::{spec_top_card, CardInstanceId, GameState, GameView, Phase, PlayerId, PlayerView, SlotRef, SlotView};
use crate::MAX_BENCH_SIZE;

verus! {

/// The actions the engine offers, without their choices.
#[derive(Debug, Clone, Copy, PartialEq, Eq, Structural)]
pub enum ActionShape {
    SetupChooseActive(CardInstanceId),
    MulliganDraw(bool),
    PlayBasicToBench(CardInstanceId),
    Evolve(CardInstanceId, SlotRef),
    AttachEnergy(CardInstanceId, SlotRef),
    PlayTrainer(CardInstanceId),
    UseAbility(SlotRef),
    Retreat(SlotRef),
    Attack(u8),
    EndTurn,
}

/// Whether `c` chooses nothing.
pub open spec fn no_choices(c: Choices) -> bool {
    c.selected_cards@.len() == 0 && c.selected_slots@.len() == 0 && c.selected_count is None && c.mode is None
}

/// The shape of an action with no choices (and the first ability, and no
/// retreat discards); `None` for any other action.
pub open spec fn shape_of(a: Action) -> Option<ActionShape> {
    match a {
        Action::SetupChooseActive { card } => Some(ActionShape::SetupChooseActive(card)),
        Action::MulliganDraw { draw } => Some(ActionShape::MulliganDraw(draw)),
        Action::PlayBasicToBench { card } => Some(ActionShape::PlayBasicToBench(card)),
        Action::Evolve { card, target } => Some(ActionShape::Evolve(card, target)),
        Action::AttachEnergy { card, target } => Some(ActionShape::AttachEnergy(card, target)),
        Action::PlayTrainer { card, choices } => if no_choices(choices) {
            Some(ActionShape::PlayTrainer(card))
        } else {
            None
        },
        Action::UseAbility { source, ability_index, choices } => if ability_index == 0 && no_choices(choices) {
            Some(ActionShape::UseAbility(source))
        } else {
            None
        },
        Action::Retreat { target, discard } => if discard@.len() == 0 {
            Some(ActionShape::Retreat(target))
        } else {
            None
        },
        Action::Attack { attack_index, choices } => if no_choices(choices) {
            Some(ActionShape::Attack(attack_index))
        } else {
            None
        },
        Action::EndTurn => Some(ActionShape::EndTurn),
        _ => None,
    }
}

/// `acts` are, in order, the actions of shapes `s`.
pub open spec fn realizes(acts: Seq<Action>, s: Seq<ActionShape>) -> bool {
    acts.len() == s.len() && forall|i: int| 0 <= i < acts.len() ==> shape_of(#[trigger] acts[i]) == Some(s[i])
}

/// The action of shape `s`.
pub fn action_of(s: ActionShape) -> (a: Action)
    ensures
        shape_of(a) == Some(s),
{
    match s {
        ActionShape::SetupChooseActive(card) => Action::SetupChooseActive { card },
        ActionShape::MulliganDraw(draw) => Action::MulliganDraw { draw },
        ActionShape::PlayBasicToBench(card) => Action::PlayBasicToBench { card },
        ActionShape::Evolve(card, target) => Action::Evolve { card, target },
        ActionShape::AttachEnergy(card, target) => Action::AttachEnergy { card, target },
        ActionShape::PlayTrainer(card) => Action::PlayTrainer { card, choices: Choices::new() },
        ActionShape::UseAbility(source) => Action::UseAbility { source, ability_index: 0, choices: Choices::new() },
        ActionShape::Retreat(target) => Action::Retreat { target, discard: Vec::new() },
        ActionShape::Attack(i) => Action::Attack { attack_index: i, choices: Choices::new() },
        ActionShape::EndTurn => Action::EndTurn,
    }
}

/// Why the action of shape `s` is illegal for `p` in `g`; `None` when legal.
pub open spec fn shape_check(g: GameView, p: PlayerId, s: ActionShape) -> Option<ErrorView> {
    match s {
        ActionShape::SetupChooseActive(c) => spec_check_setup_choose_active(g, p, c),
        ActionShape::MulliganDraw(_) => spec_check_mulligan(g, p),
        ActionShape::PlayBasicToBench(c) => spec_check_play_basic(g, p, c),
        ActionShape::Evolve(c, t) => spec_check_evolve(g, p, c, t),
        ActionShape::AttachEnergy(c, t) => spec_check_attach_energy(g, p, c, t),
        ActionShape::PlayTrainer(c) => spec_check_play_trainer(g, p, c),
        ActionShape::UseAbility(src) => spec_check_use_ability(g, p, src),
        ActionShape::Retreat(t) => spec_check_retreat(g, p, t),
        ActionShape::Attack(i) => spec_check_attack(g, p, i),
        ActionShape::EndTurn => None,
    }
}

/// The shapes of `s`, in order, whose actions the rules accept.
pub open spec fn accepted_shapes(g: GameView, p: PlayerId, s: Seq<ActionShape>) -> Seq<ActionShape>
    decreases s.len(),
{
    if s.len() == 0 {
        s
    } else {
        let r = accepted_shapes(g, p, s.drop_last());
        if shape_check(g, p, s.last()) is None {
            r.push(s.last())
        } else {
            r
        }
    }
}

/// The actions offered to `p` in `g`: the candidates of `spec_legal_actions`
/// that the rules accept.
pub open spec fn spec_offered_actions(g: GameView, p: PlayerId) -> Seq<ActionShape> {
    accepted_shapes(g, p, spec_legal_actions(g, p))
}

/// The rules judge an action by its shape alone.
pub proof fn lemma_shape_check(g: GameView, p: PlayerId, a: Action)
    ensures
        shape_of(a) matches Some(s) ==> spec_check_action(g, p, a) == shape_check(g, p, s),
{
}

/// Every offered action is accepted by the rules.
pub proof fn lemma_offered_accepted(g: GameView, p: PlayerId, s: Seq<ActionShape>, k: int)
    requires
        0 <= k < accepted_shapes(g, p, s).len(),
    ensures
        shape_check(g, p, accepted_shapes(g, p, s)[k]) is None,
    decreases s.len(),
{
    let r = accepted_shapes(g, p, s.drop_last());
    if k < r.len() {
        lemma_offered_accepted(g, p, s.drop_last(), k);
    }
}

fn push_shape(acts: &mut Vec<Action>, s: ActionShape, Ghost(shapes): Ghost<Seq<ActionShape>>)
    requires
        realizes(old(acts)@, shapes),
    ensures
        realizes(final(acts)@, shapes.push(s)),
{
    acts.push(action_of(s));
    proof {
        assert forall|i: int| 0 <= i < acts@.len() implies shape_of(#[trigger] acts@[i]) == Some(shapes.push(s)[i]) by {
            if i < shapes.len() {
                assert(acts@[i] == old(acts)@[i]);
            }
        }
    }
}

/// The Basic Pokemon of `cards`, in order.
pub open spec fn basics_in(g: GameView, cards: Seq<CardInstanceId>) -> Seq<CardInstanceId>
    decreases cards.len(),
{
    if cards.len() == 0 {
        Seq::empty()
    } else {
        let r = basics_in(g, cards.drop_last());
        if is_basic_def(g.def_of(cards.last())) {
            r.push(cards.last())
        } else {
            r
        }
    }
}

/// Setup actions: choosing each Basic Pokemon of the hand as the active one
/// (while there is none), then benching each of them (while the bench has room).
pub open spec fn setup_shapes(g: GameView, p: PlayerId) -> Seq<ActionShape> {
    let ps = g.player(p);
    let basics = basics_in(g, ps.hand);
    (if ps.active is None {
        basics.map_values(|c: CardInstanceId| ActionShape::SetupChooseActive(c))
    } else {
        Seq::empty()
    }) + (if ps.bench_count() < MAX_BENCH_SIZE {
        basics.map_values(|c: CardInstanceId| ActionShape::PlayBasicToBench(c))
    } else {
        Seq::empty()
    })
}

/// Whether the player has a Pokemon with cards in the active spot.
pub open spec fn has_active(ps: PlayerView) -> bool {
    ps.active matches Some(a) && a.cards.len() > 0
}

/// The occupied bench indices of the player, in order.
pub open spec fn occupied_bench(ps: PlayerView) -> Seq<usize> {
    phantom_targets(ps.bench, ps.bench.len())
}

/// Evolving `c` onto each of the bench indices `idx` whose Pokemon was not
/// put in play this turn.
pub open spec fn bench_evolves(ps: PlayerView, c: CardInstanceId, idx: Seq<usize>, turn: u16) -> Seq<ActionShape>
    decreases idx.len(),
{
    if idx.len() == 0 {
        Seq::empty()
    } else {
        let r = bench_evolves(ps, c, idx.drop_last(), turn);
        let i = idx.last();
        if ps.bench[i as int]->0.turn_put_in_play != turn {
            r.push(ActionShape::Evolve(c, SlotRef::Bench(i)))
        } else {
            r
        }
    }
}

/// The play actions for one card of the hand.
pub open spec fn card_shapes(g: GameView, p: PlayerId, c: CardInstanceId) -> Seq<ActionShape> {
    let ps = g.player(p);
    let turn = g.turn.turn_number;
    let occ = occupied_bench(ps);
    match g.def_of(c) {
        None => Seq::empty(),
        Some(d) => if d.spec_is_pokemon() {
            if d.stage == Some(Stage::Basic) {
                if ps.bench_count() < MAX_BENCH_SIZE {
                    seq![ActionShape::PlayBasicToBench(c)]
                } else {
                    Seq::empty()
                }
            } else if d.stage is Some {
                (if has_active(ps) && ps.active->0.turn_put_in_play != turn {
                    seq![ActionShape::Evolve(c, SlotRef::Active)]
                } else {
                    Seq::empty()
                }) + bench_evolves(ps, c, occ, turn)
            } else {
                Seq::empty()
            }
        } else if d.card_type == CardType::BasicEnergy || d.card_type == CardType::SpecialEnergy {
            (if has_active(ps) {
                seq![ActionShape::AttachEnergy(c, SlotRef::Active)]
            } else {
                Seq::empty()
            }) + occ.map_values(|i: usize| ActionShape::AttachEnergy(c, SlotRef::Bench(i)))
        } else if d.spec_is_trainer() {
            seq![ActionShape::PlayTrainer(c)]
        } else {
            Seq::empty()
        },
    }
}

/// The play actions for the cards `cards` of the hand, in order.
pub open spec fn hand_shapes(g: GameView, p: PlayerId, cards: Seq<CardInstanceId>) -> Seq<ActionShape>
    decreases cards.len(),
{
    if cards.len() == 0 {
        Seq::empty()
    } else {
        hand_shapes(g, p, cards.drop_last()) + card_shapes(g, p, cards.last())
    }
}

/// Play actions: those of each card of the hand, then retreating to each
/// occupied bench slot and ending the turn (with an active Pokemon).
pub open spec fn play_shapes(g: GameView, p: PlayerId) -> Seq<ActionShape> {
    let ps = g.player(p);
    hand_shapes(g, p, ps.hand) + if has_active(ps) {
        occupied_bench(ps).map_values(|i: usize| ActionShape::Retreat(SlotRef::Bench(i))) + seq![ActionShape::EndTurn]
    } else {
        Seq::empty()
    }
}

/// Whether the Pokemon `s` can use its first ability now.
pub open spec fn can_use_ability(g: GameView, s: Option<SlotView>) -> bool {
    match s {
        Some(slot) => slot.cards.len() > 0 && !slot.used_ability_this_turn && match g.def_of(slot.cards.last()) {
            Some(d) => d.abilities@.len() > 0,
            None => false,
        },
        None => false,
    }
}

/// Ability actions for the bench slots below `k`.
pub open spec fn bench_ability_shapes(g: GameView, b: Seq<Option<SlotView>>, k: nat) -> Seq<ActionShape>
    decreases k,
{
    if k == 0 {
        Seq::empty()
    } else {
        let r = bench_ability_shapes(g, b, (k - 1) as nat);
        if can_use_ability(g, b[k - 1]) {
            r.push(ActionShape::UseAbility(SlotRef::Bench((k - 1) as usize)))
        } else {
            r
        }
    }
}

/// Ability actions: the active Pokemon, then each bench slot.
pub open spec fn ability_shapes(g: GameView, p: PlayerId) -> Seq<ActionShape> {
    let ps = g.player(p);
    (if can_use_ability(g, ps.active) {
        seq![ActionShape::UseAbility(SlotRef::Active)]
    } else {
        Seq::empty()
    }) + bench_ability_shapes(g, ps.bench, ps.bench.len())
}

/// Attack actions: each attack of the active Pokemon, then ending the turn.
pub open spec fn attack_shapes(g: GameView, p: PlayerId) -> Seq<ActionShape> {
    let ps = g.player(p);
    (match ps.active {
        Some(a) => if a.cards.len() > 0 {
            match g.def_of(a.cards.last()) {
                Some(d) => Seq::new(d.attacks@.len(), |i: int| ActionShape::Attack(i as u8)),
                None => Seq::empty(),
            }
        } else {
            Seq::empty()
        },
        None => Seq::empty(),
    }) + seq![ActionShape::EndTurn]
}

/// The actions the engine offers player `p`: none once the game is over or,
/// past setup and mulligans, when it is not `p`'s turn; otherwise by phase.
pub open spec fn spec_legal_actions(g: GameView, p: PlayerId) -> Seq<ActionShape> {
    let setup = g.turn.phase == Phase::Setup || g.turn.phase == Phase::Mulligan;
    let ps = g.player(p);
    if g.winner is Some {
        Seq::empty()
    } else if !setup && g.turn.active_player != p {
        Seq::empty()
    } else {
        match g.turn.phase {
            Phase::Setup => if ps.active is None && !spec_has_basic(g, ps.hand) {
                seq![ActionShape::MulliganDraw(true)]
            } else {
                setup_shapes(g, p) + if ps.active is Some {
                    seq![ActionShape::EndTurn]
                } else {
                    Seq::empty()
                }
            },
            Phase::Mulligan => seq![ActionShape::MulliganDraw(true), ActionShape::MulliganDraw(false)],
            Phase::Play => play_shapes(g, p) + ability_shapes(g, p),
            Phase::Attack => attack_shapes(g, p),
            Phase::End => seq![ActionShape::EndTurn],
            _ => Seq::empty(),
        }
    }
}

/// Choosing (`choose`) or benching a Basic Pokemon.
pub open spec fn basic_shape(c: CardInstanceId, choose: bool) -> ActionShape {
    if choose {
        ActionShape::SetupChooseActive(c)
    } else {
        ActionShape::PlayBasicToBench(c)
    }
}

/// Retreating to (`retreat`) or attaching `c` to bench slot `i`.
pub open spec fn bench_shape(i: usize, retreat: bool, c: CardInstanceId) -> ActionShape {
    if retreat {
        ActionShape::Retreat(SlotRef::Bench(i))
    } else {
        ActionShape::AttachEnergy(c, SlotRef::Bench(i))
    }
}

fn is_basic(state: &GameState, c: CardInstanceId) -> (r: bool)
    ensures
        r == is_basic_def(state@.def_of(c)),
{
    match state.get_card_def(c) {
        Some(d) => d.is_pokemon() && d.stage == Some(Stage::Basic),
        None => false,
    }
}

fn add_basics(state: &GameState, hand: &Vec<CardInstanceId>, choose: bool, acts: &mut Vec<Action>, Ghost(sh): Ghost<Seq<ActionShape>>)
    requires
        realizes(old(acts)@, sh),
    ensures
        realizes(final(acts)@, sh + basics_in(state@, hand@).map_values(|c: CardInstanceId| basic_shape(c, choose))),
{
    let mut k: usize = 0;
    while k < hand.len()
        invariant
            k <= hand@.len(),
            realizes(acts@, sh + basics_in(state@, hand@.take(k as int)).map_values(|x: CardInstanceId| basic_shape(x, choose))),
        decreases hand@.len() - k,
    {
        let c = hand[k];
        proof {
            assert(hand@.take(k + 1).drop_last() =~= hand@.take(k as int));
            assert(hand@.take(k + 1).last() == c);
        }
        if is_basic(state, c) {
            let shape = if choose {
                ActionShape::SetupChooseActive(c)
            } else {
                ActionShape::PlayBasicToBench(c)
            };
            push_shape(acts, shape, Ghost(sh + basics_in(state@, hand@.take(k as int)).map_values(|x: CardInstanceId| basic_shape(x, choose))));
            proof {
                assert(sh + basics_in(state@, hand@.take(k + 1)).map_values(|x: CardInstanceId| basic_shape(x, choose)) =~= (sh + basics_in(state@, hand@.take(k as int)).map_values(|x: CardInstanceId| basic_shape(x, choose))).push(shape));
            }
        }
        k = k + 1;
    }
    proof {
        assert(hand@.take(k as int) =~= hand@);
    }
}

fn occupied_indices(ps: &crate::state::PlayerState) -> (r: Vec<usize>)
    ensures
        r@ == occupied_bench(ps@),
{
    let mut r: Vec<usize> = Vec::new();
    let mut i: usize = 0;
    while i < ps.bench.len()
        invariant
            i <= ps@.bench.len(),
            r@ == phantom_targets(ps@.bench, i as nat),
        decreases ps@.bench.len() - i,
    {
        let hit = match &ps.bench[i] {
            Some(s) => !s.is_empty(),
            None => false,
        };
        proof {
            assert(ps@.bench[i as int] == crate::state::opt_slot_view(ps.bench@[i as int]));
        }
        if hit {
            r.push(i);
        }
        i = i + 1;
    }
    r
}

fn push_mapped(occ: &Vec<usize>, retreat: bool, c: CardInstanceId, acts: &mut Vec<Action>, Ghost(sh): Ghost<Seq<ActionShape>>)
    requires
        realizes(old(acts)@, sh),
    ensures
        realizes(final(acts)@, sh + occ@.map_values(|i: usize| bench_shape(i, retreat, c))),
{
    let mut k: usize = 0;
    while k < occ.len()
        invariant
            k <= occ@.len(),
            realizes(acts@, sh + occ@.take(k as int).map_values(|x: usize| bench_shape(x, retreat, c))),
        decreases occ@.len() - k,
    {
        let i = occ[k];
        let shape = if retreat {
            ActionShape::Retreat(SlotRef::Bench(i))
        } else {
            ActionShape::AttachEnergy(c, SlotRef::Bench(i))
        };
        push_shape(acts, shape, Ghost(sh + occ@.take(k as int).map_values(|x: usize| bench_shape(x, retreat, c))));
        proof {
            assert(sh + occ@.take(k + 1).map_values(|x: usize| bench_shape(x, retreat, c)) =~= (sh + occ@.take(k as int).map_values(|x: usize| bench_shape(x, retreat, c))).push(shape));
        }
        k = k + 1;
    }
    proof {
        assert(occ@.take(k as int) =~= occ@);
    }
}

fn push_bench_evolves(
    ps: &crate::state::PlayerState,
    c: CardInstanceId,
    occ: &Vec<usize>,
    turn: u16,
    acts: &mut Vec<Action>,
    Ghost(sh): Ghost<Seq<ActionShape>>,
)
    requires
        realizes(old(acts)@, sh),
        occ@ == occupied_bench(ps@),
    ensures
        realizes(final(acts)@, sh + bench_evolves(ps@, c, occ@, turn)),
{
    let blen = ps.bench.len();
    let mut k: usize = 0;
    while k < occ.len()
        invariant
            k <= occ@.len(),
            blen == ps@.bench.len(),
            occ@ == occupied_bench(ps@),
            realizes(acts@, sh + bench_evolves(ps@, c, occ@.take(k as int), turn)),
        decreases occ@.len() - k,
    {
        let i = occ[k];
        proof {
            assert(occ@.take(k + 1).drop_last() =~= occ@.take(k as int));
            assert(occ@.take(k + 1).last() == i);
            assert(ps@.bench.len() == ps.bench@.len());
            lemma_occupied_bench(ps@, k as int);
            assert(ps@.bench[i as int] == crate::state::opt_slot_view(ps.bench@[i as int]));
        }
        let put = match &ps.bench[i] {
            Some(s) => s.turn_put_in_play,
            None => turn,
        };
        if put != turn {
            let shape = ActionShape::Evolve(c, SlotRef::Bench(i));
            push_shape(acts, shape, Ghost(sh + bench_evolves(ps@, c, occ@.take(k as int), turn)));
            proof {
                assert(sh + bench_evolves(ps@, c, occ@.take(k + 1), turn) =~= (sh + bench_evolves(
                    ps@,
                    c,
                    occ@.take(k as int),
                    turn,
                )).push(shape));
            }
        } else {
            proof {
                assert(sh + bench_evolves(ps@, c, occ@.take(k + 1), turn) =~= sh + bench_evolves(
                    ps@,
                    c,
                    occ@.take(k as int),
                    turn,
                ));
            }
        }
        k = k + 1;
    }
    proof {
        assert(occ@.take(k as int) =~= occ@);
    }
}

proof fn lemma_phantom_targets(b: Seq<Option<SlotView>>, n: nat, k: int)
    requires
        0 <= k < phantom_targets(b, n).len(),
        n <= b.len(),
        b.len() <= usize::MAX,
    ensures
        (phantom_targets(b, n)[k] as int) < n,
        occupied(b, phantom_targets(b, n)[k] as int),
    decreases n,
{
    if n > 0 {
        let prev = phantom_targets(b, (n - 1) as nat);
        if k < prev.len() {
            lemma_phantom_targets(b, (n - 1) as nat, k);
            assert(phantom_targets(b, n)[k] == prev[k]);
        } else {
            assert(occupied(b, n - 1));
            assert(phantom_targets(b, n)[k] == (n - 1) as usize);
        }
    }
}

proof fn lemma_occupied_bench(ps: PlayerView, k: int)
    requires
        0 <= k < occupied_bench(ps).len(),
        ps.bench.len() <= usize::MAX,
    ensures
        (occupied_bench(ps)[k] as int) < ps.bench.len(),
        occupied(ps.bench, occupied_bench(ps)[k] as int),
{
    lemma_phantom_targets(ps.bench, ps.bench.len(), k);
}

fn push_card_actions(state: &GameState, player: PlayerId, c: CardInstanceId, occ: &Vec<usize>, acts: &mut Vec<Action>, Ghost(sh): Ghost<Seq<ActionShape>>)
    requires
        player.0 < 2,
        realizes(old(acts)@, sh),
        occ@ == occupied_bench(state@.player(player)),
    ensures
        realizes(final(acts)@, sh + card_shapes(state@, player, c)),
{
    let ps = &state.players[player.0];
    let turn = state.turn.turn_number;
    let active_ok = match &ps.active {
        Some(a) => !a.is_empty(),
        None => false,
    };
    let d = match state.get_card_def(c) {
        Some(d) => d,
        None => {
            proof {
                assert(sh + card_shapes(state@, player, c) =~= sh);
            }
            return;
        },
    };
    if d.is_pokemon() {
        if d.stage == Some(Stage::Basic) {
            if ps.bench_count() < MAX_BENCH_SIZE {
                push_shape(acts, ActionShape::PlayBasicToBench(c), Ghost(sh));
                proof {
                    assert(sh + card_shapes(state@, player, c) =~= sh.push(ActionShape::PlayBasicToBench(c)));
                }
            } else {
                proof {
                    assert(sh + card_shapes(state@, player, c) =~= sh);
                }
            }
        } else if d.stage.is_some() {
            let evolve_active = match &ps.active {
                Some(a) => !a.is_empty() && a.turn_put_in_play != turn,
                None => false,
            };
            let ghost sh1 = if evolve_active {
                sh.push(ActionShape::Evolve(c, SlotRef::Active))
            } else {
                sh
            };
            if evolve_active {
                push_shape(acts, ActionShape::Evolve(c, SlotRef::Active), Ghost(sh));
            }
            push_bench_evolves(ps, c, occ, turn, acts, Ghost(sh1));
            proof {
                assert(sh + card_shapes(state@, player, c) =~= sh1 + bench_evolves(ps@, c, occ@, turn));
            }
        } else {
            proof {
                assert(sh + card_shapes(state@, player, c) =~= sh);
            }
        }
    } else if d.is_basic_energy() || d.is_special_energy() {
        let ghost sh1 = if active_ok {
            sh.push(ActionShape::AttachEnergy(c, SlotRef::Active))
        } else {
            sh
        };
        if active_ok {
            push_shape(acts, ActionShape::AttachEnergy(c, SlotRef::Active), Ghost(sh));
        }
        push_mapped(occ, false, c, acts, Ghost(sh1));
        proof {
            assert(occ@.map_values(|i: usize| bench_shape(i, false, c)) =~= occ@.map_values(
                |i: usize| ActionShape::AttachEnergy(c, SlotRef::Bench(i)),
            ));
            assert(sh + card_shapes(state@, player, c) =~= sh1 + occ@.map_values(|i: usize| bench_shape(i, false, c)));
        }
    } else if d.is_trainer() {
        push_shape(acts, ActionShape::PlayTrainer(c), Ghost(sh));
        proof {
            assert(sh + card_shapes(state@, player, c) =~= sh.push(ActionShape::PlayTrainer(c)));
        }
    } else {
        proof {
            assert(sh + card_shapes(state@, player, c) =~= sh);
        }
    }
}

fn slot_can_use_ability(state: &GameState, slot: &Option<crate::state::PokemonSlot>) -> (r: bool)
    ensures
        r == can_use_ability(state@, crate::state::opt_slot_view(*slot)),
{
    match slot {
        Some(s) => {
            if s.is_empty() || s.used_ability_this_turn {
                return false;
            }
            match s.top_card() {
                Some(id) => match state.get_card_def(id) {
                    Some(d) => d.abilities.len() > 0,
                    None => false,
                },
                None => false,
            }
        },
        None => false,
    }
}

impl Engine {
    fn add_setup_actions(&self, player: PlayerId, actions: &mut Vec<Action>, Ghost(sh): Ghost<Seq<ActionShape>>)
        requires
            player.0 < 2,
            realizes(old(actions)@, sh),
        ensures
            realizes(final(actions)@, sh + setup_shapes(self@.state, player)),
    {
        let ps = &self.state.players[player.0];
        let ghost g = self.state@;
        let ghost basics = basics_in(g, g.player(player).hand);
        let ghost sh1 = if g.player(player).active is None {
            sh + basics.map_values(|c: CardInstanceId| basic_shape(c, true))
        } else {
            sh
        };
        if ps.active.is_none() {
            add_basics(&self.state, &ps.hand, true, actions, Ghost(sh));
        }
        if ps.bench_count() < MAX_BENCH_SIZE {
            add_basics(&self.state, &ps.hand, false, actions, Ghost(sh1));
            proof {
                assert(sh + setup_shapes(g, player) =~= sh1 + basics.map_values(|c: CardInstanceId| basic_shape(c, false)));
            }
        } else {
            proof {
                assert(sh + setup_shapes(g, player) =~= sh1);
            }
        }
    }

    fn add_play_actions(&self, player: PlayerId, actions: &mut Vec<Action>, Ghost(sh): Ghost<Seq<ActionShape>>)
        requires
            player.0 < 2,
            realizes(old(actions)@, sh),
        ensures
            realizes(final(actions)@, sh + play_shapes(self@.state, player)),
    {
        let ghost g = self.state@;
        let ps = &self.state.players[player.0];
        let occ = occupied_indices(ps);
        let mut k: usize = 0;
        while k < ps.hand.len()
            invariant
                player.0 < 2,
                g == self.state@,
                k <= ps@.hand.len(),
                ps@ == g.player(player),
                occ@ == occupied_bench(g.player(player)),
                realizes(actions@, sh + hand_shapes(g, player, ps@.hand.take(k as int))),
            decreases ps@.hand.len() - k,
        {
            let c = ps.hand[k];
            proof {
                assert(ps@.hand.take(k + 1).drop_last() =~= ps@.hand.take(k as int));
                assert(ps@.hand.take(k + 1).last() == c);
            }
            push_card_actions(&self.state, player, c, &occ, actions, Ghost(sh + hand_shapes(g, player, ps@.hand.take(k as int))));
            proof {
                assert(sh + hand_shapes(g, player, ps@.hand.take(k + 1)) =~= sh + hand_shapes(g, player, ps@.hand.take(k as int))
                    + card_shapes(g, player, c));
            }
            k = k + 1;
        }
        proof {
            assert(ps@.hand.take(k as int) =~= ps@.hand);
        }
        let ghost sh1 = sh + hand_shapes(g, player, g.player(player).hand);
        let active_ok = match &ps.active {
            Some(a) => !a.is_empty(),
            None => false,
        };
        if active_ok {
            push_mapped(&occ, true, CardInstanceId(0), actions, Ghost(sh1));
            let ghost sh2 = sh1 + occ@.map_values(|i: usize| bench_shape(i, true, CardInstanceId(0)));
            push_shape(actions, ActionShape::EndTurn, Ghost(sh2));
            proof {
                assert(occ@.map_values(|i: usize| bench_shape(i, true, CardInstanceId(0))) =~= occ@.map_values(
                    |i: usize| ActionShape::Retreat(SlotRef::Bench(i)),
                ));
                assert(sh + play_shapes(g, player) =~= sh2.push(ActionShape::EndTurn));
            }
        } else {
            proof {
                assert(sh + play_shapes(g, player) =~= sh1);
            }
        }
    }

    fn add_attack_actions(&self, player: PlayerId, actions: &mut Vec<Action>, Ghost(sh): Ghost<Seq<ActionShape>>)
        requires
            player.0 < 2,
            realizes(old(actions)@, sh),
        ensures
            realizes(final(actions)@, sh + attack_shapes(self@.state, player)),
    {
        let ghost g = self.state@;
        let ps = &self.state.players[player.0];
        let n: usize = match &ps.active {
            Some(a) => if a.is_empty() {
                0
            } else {
                match a.top_card() {
                    Some(id) => match self.state.get_card_def(id) {
                        Some(d) => d.attacks.len(),
                        None => 0,
                    },
                    None => 0,
                }
            },
            None => 0,
        };
        let ghost atk = attack_shapes(g, player).drop_last();
        proof {
            assert(atk.len() == n);
        }
        let mut i: usize = 0;
        while i < n
            invariant
                i <= n,
                n == atk.len(),
                atk == attack_shapes(g, player).drop_last(),
                forall|j: int| 0 <= j < n ==> #[trigger] atk[j] == ActionShape::Attack(j as u8),
                realizes(actions@, sh + atk.take(i as int)),
            decreases n - i,
        {
            push_shape(actions, ActionShape::Attack(i as u8), Ghost(sh + atk.take(i as int)));
            proof {
                assert(sh + atk.take(i + 1) =~= (sh + atk.take(i as int)).push(ActionShape::Attack(i as u8)));
            }
            i = i + 1;
        }
        proof {
            assert(atk.take(i as int) =~= atk);
        }
        push_shape(actions, ActionShape::EndTurn, Ghost(sh + atk));
        proof {
            assert(sh + attack_shapes(g, player) =~= (sh + atk).push(ActionShape::EndTurn));
        }
    }

    fn add_ability_actions(&self, player: PlayerId, actions: &mut Vec<Action>, Ghost(sh): Ghost<Seq<ActionShape>>)
        requires
            player.0 < 2,
            realizes(old(actions)@, sh),
        ensures
            realizes(final(actions)@, sh + ability_shapes(self@.state, player)),
    {
        let ghost g = self.state@;
        let ps = &self.state.players[player.0];
        let ghost sh1 = if can_use_ability(g, g.player(player).active) {
            sh.push(ActionShape::UseAbility(SlotRef::Active))
        } else {
            sh
        };
        if slot_can_use_ability(&self.state, &ps.active) {
            push_shape(actions, ActionShape::UseAbility(SlotRef::Active), Ghost(sh));
        }
        let mut i: usize = 0;
        while i < ps.bench.len()
            invariant
                g == self.state@,
                player.0 < 2,
                ps@ == g.player(player),
                i <= ps@.bench.len(),
                realizes(actions@, sh1 + bench_ability_shapes(g, ps@.bench, i as nat)),
            decreases ps@.bench.len() - i,
        {
            proof {
                assert(ps@.bench[i as int] == crate::state::opt_slot_view(ps.bench@[i as int]));
            }
            if slot_can_use_ability(&self.state, &ps.bench[i]) {
                push_shape(actions, ActionShape::UseAbility(SlotRef::Bench(i)), Ghost(sh1 + bench_ability_shapes(g, ps@.bench, i as nat)));
                proof {
                    assert(sh1 + bench_ability_shapes(g, ps@.bench, (i + 1) as nat) =~= (sh1 + bench_ability_shapes(
                        g,
                        ps@.bench,
                        i as nat,
                    )).push(ActionShape::UseAbility(SlotRef::Bench(i))));
                }
            }
            i = i + 1;
        }
        proof {
            assert(sh + ability_shapes(g, player) =~= sh1 + bench_ability_shapes(g, ps@.bench, ps@.bench.len()));
        }
    }

    /// The actions the engine offers `player` now: those of
    /// `spec_legal_actions` that the rules accept (see `spec_offered_actions`).
    /// During setup and mulligans either player may act, afterwards only the
    /// active player; none once the game is over.
    pub fn legal_actions(&self, player: PlayerId) -> (r: Vec<Action>)
        requires
            player.0 < 2,
            self@.inv(),
        ensures
            realizes(r@, spec_offered_actions(self@.state, player)),
    {
        let ghost g = self.state@;
        let ghost shapes = spec_legal_actions(g, player);
        let mut cands = self.candidate_actions(player);
        let mut out: Vec<Action> = Vec::new();
        let n: usize = cands.len();
        let mut i: usize = 0;
        proof {
            assert(shapes.take(0) =~= Seq::<ActionShape>::empty());
            assert(realizes(out@, accepted_shapes(g, player, shapes.take(0))));
        }
        while cands.len() > 0
            invariant
                g == self.state@,
                g.wf(),
                player.0 < 2,
                n == shapes.len(),
                i + cands@.len() == n,
                forall|j: int| 0 <= j < cands@.len() ==> shape_of(#[trigger] cands@[j]) == Some(shapes[i + j]),
                realizes(out@, accepted_shapes(g, player, shapes.take(i as int))),
            decreases cands@.len(),
        {
            let ghost prev = cands@;
            let a = cands.remove(0);
            proof {
                assert(a == prev[0]);
                assert(shape_of(a) == Some(shapes[i as int]));
                lemma_shape_check(g, player, a);
                assert(shapes.take(i + 1).drop_last() =~= shapes.take(i as int));
                assert forall|j: int| 0 <= j < cands@.len() implies shape_of(#[trigger] cands@[j]) == Some(
                    shapes[i + 1 + j],
                ) by {
                    assert(cands@[j] == prev[j + 1]);
                }
            }
            let ok = self.validator.is_legal(&self.state, player, &a).is_ok();
            let ghost before = out@;
            if ok {
                out.push(a);
                proof {
                    assert forall|k: int| 0 <= k < out@.len() implies shape_of(#[trigger] out@[k]) == Some(
                        accepted_shapes(g, player, shapes.take(i + 1))[k],
                    ) by {
                        if k < before.len() {
                            assert(out@[k] == before[k]);
                        }
                    }
                }
            }
            i = i + 1;
        }
        proof {
            assert(shapes.take(n as int) =~= shapes);
        }
        out
    }

    /// The candidate actions of `spec_legal_actions`, before the rules are asked.
    fn candidate_actions(&self, player: PlayerId) -> (r: Vec<Action>)
        requires
            player.0 < 2,
        ensures
            realizes(r@, spec_legal_actions(self@.state, player)),
    {
        let ghost g = self.state@;
        let mut actions: Vec<Action> = Vec::new();
        proof {
            assert(realizes(actions@, Seq::<ActionShape>::empty()));
        }
        if self.state.is_done() {
            return actions;
        }
        let is_setup_phase = self.state.turn.phase == Phase::Setup || self.state.turn.phase == Phase::Mulligan;
        if !is_setup_phase && self.state.turn.active_player != player {
            return actions;
        }
        let ghost e = Seq::<ActionShape>::empty();
        match self.state.turn.phase {
            Phase::Setup => {
                let ps = &self.state.players[player.0];
                if ps.active.is_none() && !RuleValidator::has_basic(&self.state, &ps.hand) {
                    push_shape(&mut actions, ActionShape::MulliganDraw(true), Ghost(e));
                    proof {
                        assert(e.push(ActionShape::MulliganDraw(true)) =~= seq![ActionShape::MulliganDraw(true)]);
                    }
                    return actions;
                }
                self.add_setup_actions(player, &mut actions, Ghost(e));
                if ps.active.is_some() {
                    push_shape(&mut actions, ActionShape::EndTurn, Ghost(e + setup_shapes(g, player)));
                    proof {
                        assert((e + setup_shapes(g, player)).push(ActionShape::EndTurn) =~= setup_shapes(g, player) + seq![
                            ActionShape::EndTurn,
                        ]);
                    }
                } else {
                    proof {
                        assert(e + setup_shapes(g, player) =~= setup_shapes(g, player) + Seq::<ActionShape>::empty());
                    }
                }
            },
            Phase::Mulligan => {
                push_shape(&mut actions, ActionShape::MulliganDraw(true), Ghost(e));
                push_shape(&mut actions, ActionShape::MulliganDraw(false), Ghost(e.push(ActionShape::MulliganDraw(true))));
                proof {
                    assert(e.push(ActionShape::MulliganDraw(true)).push(ActionShape::MulliganDraw(false)) =~= seq![
                        ActionShape::MulliganDraw(true),
                        ActionShape::MulliganDraw(false),
                    ]);
                }
            },
            Phase::Play => {
                self.add_play_actions(player, &mut actions, Ghost(e));
                self.add_ability_actions(player, &mut actions, Ghost(e + play_shapes(g, player)));
                proof {
                    assert(e + play_shapes(g, player) + ability_shapes(g, player) =~= play_shapes(g, player) + ability_shapes(
                        g,
                        player,
                    ));
                }
            },
            Phase::Attack => {
                self.add_attack_actions(player, &mut actions, Ghost(e));
                proof {
                    assert(e + attack_shapes(g, player) =~= attack_shapes(g, player));
                }
            },
            Phase::End => {
                push_shape(&mut actions, ActionShape::EndTurn, Ghost(e));
                proof {
                    assert(e.push(ActionShape::EndTurn) =~= seq![ActionShape::EndTurn]);
                }
            },
            _ => {},
        }
        actions
    }
}

/// On turn 1 the player who takes the first turn is offered no attack.
pub proof fn lemma_no_attack_offered_on_first_turn(g: GameView, p: PlayerId, k: int)
    requires
        g.turn.turn_number == 1,
        g.turn.first_player == p,
        0 <= k < spec_offered_actions(g, p).len(),
    ensures
        !(spec_offered_actions(g, p)[k] is Attack),
{
    lemma_offered_accepted(g, p, spec_legal_actions(g, p), k);
    if let ActionShape::Attack(i) = spec_offered_actions(g, p)[k] {
        crate::rules::lemma_no_attack_on_first_turn(g, p, i, vstd::pervasive::arbitrary::<Choices>());
        assert(spec_check_attack(g, p, i) is Some);
    }
}

} // verus!
