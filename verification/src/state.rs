//! Game state: players, Pokemon slots, card instances and turn state.

use vstd::prelude::*;

use crate::card::{find_def, CardDef, CardDefId, CardRegistry};
use crate::action::LoggedAction;
use crate::MAX_BENCH_SIZE;
use crate::text::{push_decimal, push_str, spec_decimal};
use vstd::std_specs::iter::IteratorSpec;
use std::hash::Hash;
use std::hash::Hasher;

mod setup;
pub use setup::{dealt_entries, ids_of, new_instances, spec_deal, spec_set_prizes, spec_setup, lemma_ids_of_dealt, lemma_ids_of_perm};

verus! {

/// Player identifier (0 or 1).
#[derive(Debug, Clone, Copy, PartialEq, Eq, Hash, Structural)]
pub struct PlayerId(pub usize);

impl PlayerId {
    /// The other player.
    pub open spec fn spec_opponent(&self) -> Self {
        PlayerId((1 - self.0) as usize)
    }

    #[verifier::when_used_as_spec(spec_opponent)]
    pub fn opponent(&self) -> (r: Self)
        requires
            self.0 <= 1,
        ensures
            r.0 == 1 - self.0,
            r == self.spec_opponent(),
    {
        PlayerId(1 - self.0)
    }

    /// The text of the identifier: `Player` and the number.
    pub fn to_string(&self) -> (r: String)
        ensures
            r@ == "Player"@ + spec_decimal(self.0 as nat),
    {
        let mut s = String::new();
        push_str(&mut s, "Player");
        push_decimal(&mut s, self.0 as u64);
        s
    }
}

/// A position a Pokemon can occupy.
#[derive(Debug, Clone, Copy, PartialEq, Eq, Hash, Structural)]
pub enum SlotRef {
    Active,
    Bench(usize),
}

impl SlotRef {
    pub fn bench_index(&self) -> (r: Option<usize>)
        ensures
            r == match *self {
                SlotRef::Active => None,
                SlotRef::Bench(i) => Some(i),
            },
    {
        match self {
            SlotRef::Active => None,
            SlotRef::Bench(i) => Some(*i),
        }
    }
}

/// Identifier of one physical card in a game.
#[derive(Debug, Clone, Copy, PartialEq, Eq, Hash, Structural)]
pub struct CardInstanceId(pub u32);

impl CardInstanceId {
    pub fn new(id: u32) -> (r: Self)
        ensures
            r.0 == id,
    {
        CardInstanceId(id)
    }

    /// The text of the identifier: `CardInstance(n)`.
    pub fn to_string(&self) -> (r: String)
        ensures
            r@ == "CardInstance("@ + spec_decimal(self.0 as nat) + ")"@,
    {
        let mut s = String::new();
        push_str(&mut s, "CardInstance(");
        push_decimal(&mut s, self.0 as u64);
        push_str(&mut s, ")");
        proof {
            assert(s@ =~= "CardInstance("@ + spec_decimal(self.0 as nat) + ")"@);
        }
        s
    }
}

/// One physical card in a game.
#[derive(Debug)]
pub struct CardInstance {
    pub id: CardInstanceId,
    pub def_id: CardDefId,
    pub owner: PlayerId,
}

impl CardInstance {
    pub fn new(id: CardInstanceId, def_id: CardDefId, owner: PlayerId) -> (r: Self)
        ensures
            r == (CardInstance { id, def_id, owner }),
    {
        CardInstance { id, def_id, owner }
    }
}

/// Special conditions of a Pokemon.
#[derive(Debug, Clone, Copy, PartialEq, Eq, Structural)]
pub struct StatusFlags {
    pub poisoned: bool,
    pub burned: bool,
    pub paralyzed: bool,
    pub asleep: bool,
    pub confused: bool,
    pub cannot_retreat: bool,
}

pub open spec fn spec_no_status() -> StatusFlags {
    StatusFlags {
        poisoned: false,
        burned: false,
        paralyzed: false,
        asleep: false,
        confused: false,
        cannot_retreat: false,
    }
}

impl Default for StatusFlags {
    fn default() -> (r: Self)
        ensures
            r == spec_no_status(),
    {
        StatusFlags::new()
    }
}

impl StatusFlags {
    pub fn new() -> (r: Self)
        ensures
            r == spec_no_status(),
    {
        StatusFlags {
            poisoned: false,
            burned: false,
            paralyzed: false,
            asleep: false,
            confused: false,
            cannot_retreat: false,
        }
    }

    pub fn clear(&mut self)
        ensures
            *final(self) == spec_no_status(),
    {
        *self = StatusFlags::new();
    }

    pub fn is_active(&self) -> (r: bool)
        ensures
            r == (self.poisoned || self.burned || self.paralyzed || self.asleep || self.confused),
    {
        self.poisoned || self.burned || self.paralyzed || self.asleep || self.confused
    }
}

/// Abstract contents of a Pokemon slot.
#[verifier::ext_equal]
pub struct SlotView {
    pub cards: Seq<CardInstanceId>,
    pub energies: Seq<CardInstanceId>,
    pub tool: Option<CardInstanceId>,
    pub damage: u16,
    pub status: StatusFlags,
    pub turn_put_in_play: u16,
    pub turn_evolved: Option<u16>,
    pub used_ability_this_turn: bool,
    pub vstar_power_used: bool,
}

/// A Pokemon in play: its evolution stack (bottom to top), attached cards and counters.
#[derive(Debug)]
pub struct PokemonSlot {
    pub cards: Vec<CardInstanceId>,
    pub energies: Vec<CardInstanceId>,
    pub tool: Option<CardInstanceId>,
    pub damage: u16,
    pub status: StatusFlags,
    pub turn_put_in_play: u16,
    pub turn_evolved: Option<u16>,
    pub used_ability_this_turn: bool,
    pub vstar_power_used: bool,
}

impl View for PokemonSlot {
    type V = SlotView;

    open spec fn view(&self) -> SlotView {
        SlotView {
            cards: self.cards@,
            energies: self.energies@,
            tool: self.tool,
            damage: self.damage,
            status: self.status,
            turn_put_in_play: self.turn_put_in_play,
            turn_evolved: self.turn_evolved,
            used_ability_this_turn: self.used_ability_this_turn,
            vstar_power_used: self.vstar_power_used,
        }
    }
}

/// A freshly placed Pokemon: `card` alone in its stack, put in play on `turn`.
pub open spec fn spec_new_slot(card: CardInstanceId, turn: u16) -> SlotView {
    SlotView {
        cards: seq![card],
        energies: Seq::empty(),
        tool: None,
        damage: 0,
        status: spec_no_status(),
        turn_put_in_play: turn,
        turn_evolved: None,
        used_ability_this_turn: false,
        vstar_power_used: false,
    }
}

pub open spec fn spec_top_card(s: SlotView) -> Option<CardInstanceId> {
    if s.cards.len() == 0 {
        None
    } else {
        Some(s.cards.last())
    }
}

pub open spec fn opt_slot_view(o: Option<PokemonSlot>) -> Option<SlotView> {
    match o {
        Some(s) => Some(s@),
        None => None,
    }
}

impl PokemonSlot {
    pub fn new() -> (r: Self)
        ensures
            r@ == (SlotView {
                cards: Seq::empty(),
                energies: Seq::empty(),
                tool: None,
                damage: 0,
                status: spec_no_status(),
                turn_put_in_play: 0,
                turn_evolved: None,
                used_ability_this_turn: false,
                vstar_power_used: false,
            }),
    {
        PokemonSlot {
            cards: Vec::new(),
            energies: Vec::new(),
            tool: None,
            damage: 0,
            status: StatusFlags::new(),
            turn_put_in_play: 0,
            turn_evolved: None,
            used_ability_this_turn: false,
            vstar_power_used: false,
        }
    }

    /// A slot holding `card` alone, put in play on `turn`.
    pub fn with_card(card: CardInstanceId, turn: u16) -> (r: Self)
        ensures
            r@ == spec_new_slot(card, turn),
    {
        let mut s = PokemonSlot::new();
        s.cards.push(card);
        s.turn_put_in_play = turn;
        proof {
            assert(s.cards@ =~= seq![card]);
        }
        s
    }

    pub fn is_empty(&self) -> (r: bool)
        ensures
            r == (self.cards@.len() == 0),
    {
        self.cards.len() == 0
    }

    pub fn top_card(&self) -> (r: Option<CardInstanceId>)
        ensures
            r == spec_top_card(self@),
    {
        if self.cards.len() == 0 {
            None
        } else {
            Some(self.cards[self.cards.len() - 1])
        }
    }

    pub fn base_card(&self) -> (r: Option<CardInstanceId>)
        ensures
            r == (if self.cards@.len() == 0 {
                None
            } else {
                Some(self.cards@[0])
            }),
    {
        if self.cards.len() == 0 {
            None
        } else {
            Some(self.cards[0])
        }
    }

    /// Remaining HP, computed in 16-bit signed arithmetic as the two values
    /// read as `i16`.
    pub fn hp(&self, max_hp: u16) -> (r: i16)
        requires
            i16::MIN <= (max_hp as i16) - (self.damage as i16) <= i16::MAX,
        ensures
            r == (max_hp as i16) - (self.damage as i16),
    {
        max_hp as i16 - self.damage as i16
    }

    pub fn is_knocked_out(&self, max_hp: u16) -> (r: bool)
        ensures
            r == (self.damage >= max_hp),
    {
        self.damage >= max_hp
    }

    /// Empty the slot; the turn it was put in play is kept.
    pub fn clear(&mut self)
        ensures
            final(self)@ == (SlotView {
                cards: Seq::empty(),
                energies: Seq::empty(),
                tool: None,
                damage: 0,
                status: spec_no_status(),
                turn_evolved: None,
                used_ability_this_turn: false,
                vstar_power_used: false,
                ..old(self)@
            }),
    {
        self.cards.clear();
        self.energies.clear();
        self.tool = None;
        self.damage = 0;
        self.status.clear();
        self.turn_evolved = None;
        self.used_ability_this_turn = false;
        self.vstar_power_used = false;
    }
}

/// Stadium card in play.
#[derive(Debug, Clone, Copy, PartialEq, Eq, Structural)]
pub struct StadiumInPlay {
    pub card_id: CardInstanceId,
    pub owner: PlayerId,
}

/// Abstract state of a player.
#[verifier::ext_equal]
pub struct PlayerView {
    pub deck: Seq<CardInstanceId>,
    pub hand: Seq<CardInstanceId>,
    pub prizes: Seq<CardInstanceId>,
    pub discard: Seq<CardInstanceId>,
    pub lost_zone: Seq<CardInstanceId>,
    pub active: Option<SlotView>,
    pub bench: Seq<Option<SlotView>>,
    pub stadium: Option<StadiumInPlay>,
    pub turn_actions_used: Seq<Seq<char>>,
}

/// State of one player. The deck's top card is its last element.
#[derive(Debug)]
pub struct PlayerState {
    pub deck: Vec<CardInstanceId>,
    pub hand: Vec<CardInstanceId>,
    pub prizes: Vec<CardInstanceId>,
    pub discard: Vec<CardInstanceId>,
    pub lost_zone: Vec<CardInstanceId>,
    pub active: Option<PokemonSlot>,
    pub bench: Vec<Option<PokemonSlot>>,
    pub stadium: Option<StadiumInPlay>,
    /// Keys of the once-per-turn actions already taken this turn, each once.
    pub turn_actions_used: Vec<String>,
}

pub open spec fn strings_view(v: Seq<String>) -> Seq<Seq<char>> {
    v.map_values(|s: String| s@)
}

impl View for PlayerState {
    type V = PlayerView;

    open spec fn view(&self) -> PlayerView {
        PlayerView {
            deck: self.deck@,
            hand: self.hand@,
            prizes: self.prizes@,
            discard: self.discard@,
            lost_zone: self.lost_zone@,
            active: opt_slot_view(self.active),
            bench: self.bench@.map_values(|o: Option<PokemonSlot>| opt_slot_view(o)),
            stadium: self.stadium,
            turn_actions_used: strings_view(self.turn_actions_used@),
        }
    }
}

/// The player with the once-per-turn actions and the ability uses forgotten.
pub open spec fn spec_cleared(pv: PlayerView) -> PlayerView {
    PlayerView {
        turn_actions_used: Seq::empty(),
        active: match pv.active {
            Some(s) => Some(SlotView { used_ability_this_turn: false, ..s }),
            None => None,
        },
        bench: pv.bench.map_values(
            |o: Option<SlotView>|
                match o {
                    Some(s) => Some(SlotView { used_ability_this_turn: false, ..s }),
                    None => None,
                },
        ),
        ..pv
    }
}

/// Setting a slot twice keeps the second value.
pub proof fn lemma_with_slot_twice(pv: PlayerView, r: SlotRef, a: Option<SlotView>, b: Option<SlotView>)
    ensures
        pv.with_slot(r, a).with_slot(r, b) == pv.with_slot(r, b),
{
    match r {
        SlotRef::Bench(i) => {
            if i < pv.bench.len() {
                assert(pv.bench.update(i as int, a).update(i as int, b) =~= pv.bench.update(i as int, b));
            }
        },
        SlotRef::Active => {},
    }
}

/// Putting back what a slot held changes nothing.
pub proof fn lemma_with_slot_same(pv: PlayerView, r: SlotRef)
    ensures
        pv.with_slot(r, pv.slot(r)) == pv,
{
    match r {
        SlotRef::Bench(i) => {
            if i < pv.bench.len() {
                assert(pv.bench.update(i as int, pv.bench[i as int]) =~= pv.bench);
            }
        },
        SlotRef::Active => {},
    }
}

/// Emptying an empty slot changes nothing.
pub proof fn lemma_with_slot_none(pv: PlayerView, r: SlotRef)
    requires
        pv.slot(r) is None,
    ensures
        pv.with_slot(r, None) == pv,
{
    match r {
        SlotRef::Bench(i) => {
            if i < pv.bench.len() {
                assert(pv.bench.update(i as int, None) =~= pv.bench);
            }
        },
        SlotRef::Active => {},
    }
}

/// Number of occupied bench slots.
pub open spec fn spec_bench_count(bench: Seq<Option<SlotView>>) -> nat
    decreases bench.len(),
{
    if bench.len() == 0 {
        0
    } else {
        spec_bench_count(bench.drop_last()) + if bench.last() is Some {
            1nat
        } else {
            0nat
        }
    }
}

pub proof fn lemma_bench_count_bound(bench: Seq<Option<SlotView>>)
    ensures
        spec_bench_count(bench) <= bench.len(),
    decreases bench.len(),
{
    if bench.len() > 0 {
        lemma_bench_count_bound(bench.drop_last());
    }
}

/// The bench count is 0 exactly when no bench slot is occupied.
pub proof fn lemma_bench_count_zero(bench: Seq<Option<SlotView>>)
    ensures
        (spec_bench_count(bench) == 0) == (forall|i: int| 0 <= i < bench.len() ==> #[trigger] bench[i] is None),
    decreases bench.len(),
{
    if bench.len() > 0 {
        lemma_bench_count_zero(bench.drop_last());
        if spec_bench_count(bench) == 0 {
            assert forall|i: int| 0 <= i < bench.len() implies #[trigger] bench[i] is None by {
                if i < bench.len() - 1 {
                    assert(bench.drop_last()[i] == bench[i]);
                }
            }
        } else if forall|i: int| 0 <= i < bench.len() ==> #[trigger] bench[i] is None {
            assert(bench[bench.len() - 1] is None);
            assert forall|i: int| 0 <= i < bench.len() - 1 implies #[trigger] bench.drop_last()[i] is None by {
                assert(bench.drop_last()[i] == bench[i]);
            }
        }
    }
}

/// Replacing one bench entry changes the count by the difference in occupancy.
pub proof fn lemma_bench_count_update(bench: Seq<Option<SlotView>>, i: int, v: Option<SlotView>)
    requires
        0 <= i < bench.len(),
    ensures
        spec_bench_count(bench.update(i, v)) + (if bench[i] is Some { 1int } else { 0int })
            == spec_bench_count(bench) + (if v is Some { 1int } else { 0int }),
    decreases bench.len(),
{
    let nb = bench.update(i, v);
    if i == bench.len() - 1 {
        assert(nb.drop_last() =~= bench.drop_last());
    } else {
        assert(nb.drop_last() =~= bench.drop_last().update(i, v));
        lemma_bench_count_update(bench.drop_last(), i, v);
    }
}

impl PlayerView {
    /// The Pokemon at `r`, if that slot exists and is occupied.
    pub open spec fn slot(self, r: SlotRef) -> Option<SlotView> {
        match r {
            SlotRef::Active => self.active,
            SlotRef::Bench(i) => if i < self.bench.len() {
                self.bench[i as int]
            } else {
                None
            },
        }
    }

    /// The player with the slot at `r` set to `v` (a bench index past the end changes nothing).
    pub open spec fn with_slot(self, r: SlotRef, v: Option<SlotView>) -> PlayerView {
        match r {
            SlotRef::Active => PlayerView { active: v, ..self },
            SlotRef::Bench(i) => if i < self.bench.len() {
                PlayerView { bench: self.bench.update(i as int, v), ..self }
            } else {
                self
            },
        }
    }

    pub open spec fn bench_count(self) -> nat {
        spec_bench_count(self.bench)
    }

    pub open spec fn has_pokemon_in_play(self) -> bool {
        self.active is Some || exists|i: int| 0 <= i < self.bench.len() && #[trigger] self.bench[i] is Some
    }

    /// The first empty bench slot, if any.
    pub open spec fn first_empty_bench(self) -> Option<int> {
        if exists|i: int| 0 <= i < self.bench.len() && #[trigger] self.bench[i] is None {
            Some(choose|i: int| 0 <= i < self.bench.len() && #[trigger] self.bench[i] is None
                && forall|j: int| 0 <= j < i ==> #[trigger] self.bench[j] is Some)
        } else {
            None
        }
    }

    pub open spec fn has_used(self, key: Seq<char>) -> bool {
        self.turn_actions_used.contains(key)
    }
}

/// The empty bench slot found by a scan from the front is the first one.
pub proof fn lemma_first_empty_bench(p: PlayerView, i: int)
    requires
        0 <= i < p.bench.len(),
        p.bench[i] is None,
        forall|j: int| 0 <= j < i ==> #[trigger] p.bench[j] is Some,
    ensures
        p.first_empty_bench() == Some(i),
{
    let k = choose|k: int| 0 <= k < p.bench.len() && #[trigger] p.bench[k] is None
        && forall|j: int| 0 <= j < k ==> #[trigger] p.bench[j] is Some;
    assert(0 <= k < p.bench.len() && p.bench[k] is None && forall|j: int| 0 <= j < k ==> #[trigger] p.bench[j] is Some);
    if k < i {
        assert(p.bench[k] is Some);
    }
    if i < k {
        assert(p.bench[i] is Some);
    }
}

/// Remove the first occurrence of `x` from `s` (unchanged when absent).
pub open spec fn spec_remove_first(s: Seq<CardInstanceId>, x: CardInstanceId) -> Seq<CardInstanceId>
    decreases s.len(),
{
    if s.len() == 0 {
        s
    } else if s[0] == x {
        s.drop_first()
    } else {
        seq![s[0]] + spec_remove_first(s.drop_first(), x)
    }
}

pub proof fn lemma_remove_first_at(s: Seq<CardInstanceId>, x: CardInstanceId, i: int)
    requires
        0 <= i < s.len(),
        s[i] == x,
        forall|j: int| 0 <= j < i ==> s[j] != x,
    ensures
        spec_remove_first(s, x) == s.remove(i),
    decreases i,
{
    if i == 0 {
        assert(s.drop_first() =~= s.remove(0));
    } else {
        lemma_remove_first_at(s.drop_first(), x, i - 1);
        assert(seq![s[0]] + s.drop_first().remove(i - 1) =~= s.remove(i));
    }
}

pub proof fn lemma_remove_first_absent(s: Seq<CardInstanceId>, x: CardInstanceId)
    requires
        !s.contains(x),
    ensures
        spec_remove_first(s, x) == s,
    decreases s.len(),
{
    if s.len() > 0 {
        assert(!s.drop_first().contains(x)) by {
            if s.drop_first().contains(x) {
                let j = choose|j: int| 0 <= j < s.drop_first().len() && s.drop_first()[j] == x;
                assert(s[j + 1] == x);
            }
        }
        lemma_remove_first_absent(s.drop_first(), x);
        assert(seq![s[0]] + s.drop_first() =~= s);
    }
}

/// Index of the first occurrence of `x` in `v`.
pub fn position_of(v: &Vec<CardInstanceId>, x: CardInstanceId) -> (r: Option<usize>)
    ensures
        match r {
            Some(i) => i < v@.len() && v@[i as int] == x && forall|j: int| 0 <= j < i ==> v@[j] != x,
            None => !v@.contains(x),
        },
{
    let mut i: usize = 0;
    while i < v.len()
        invariant
            i <= v@.len(),
            forall|j: int| 0 <= j < i ==> v@[j] != x,
        decreases v@.len() - i,
    {
        if v[i] == x {
            return Some(i);
        }
        i = i + 1;
    }
    None
}

/// Whether `v` holds `x`.
pub fn contains_card(v: &Vec<CardInstanceId>, x: CardInstanceId) -> (r: bool)
    ensures
        r == v@.contains(x),
{
    match position_of(v, x) {
        Some(i) => {
            assert(v@[i as int] == x);
            true
        },
        None => false,
    }
}

/// Remove the first occurrence of `x` from `v`; tells whether it was there.
pub fn remove_card(v: &mut Vec<CardInstanceId>, x: CardInstanceId) -> (r: bool)
    ensures
        r == old(v)@.contains(x),
        final(v)@ == spec_remove_first(old(v)@, x),
{
    match position_of(v, x) {
        Some(i) => {
            proof {
                lemma_remove_first_at(v@, x, i as int);
            }
            v.remove(i);
            true
        },
        None => {
            proof {
                lemma_remove_first_absent(v@, x);
            }
            false
        },
    }
}

/// Whether `v` holds a string equal to `key`.
pub fn contains_string(v: &Vec<String>, key: &str) -> (r: bool)
    ensures
        r == strings_view(v@).contains(key@),
{
    let mut i: usize = 0;
    while i < v.len()
        invariant
            i <= v@.len(),
            forall|j: int| 0 <= j < i ==> #[trigger] v@[j]@ != key@,
        decreases v@.len() - i,
    {
        if crate::card::str_eq(v[i].as_str(), key) {
            proof {
                assert(strings_view(v@)[i as int] == key@);
            }
            return true;
        }
        i = i + 1;
    }
    proof {
        if strings_view(v@).contains(key@) {
            let j = choose|j: int| 0 <= j < strings_view(v@).len() && strings_view(v@)[j] == key@;
            assert(v@[j]@ == key@);
        }
    }
    false
}

impl PlayerState {
    pub fn new() -> (r: Self)
        ensures
            r@ == (PlayerView {
                deck: Seq::empty(),
                hand: Seq::empty(),
                prizes: Seq::empty(),
                discard: Seq::empty(),
                lost_zone: Seq::empty(),
                active: None,
                bench: Seq::new(MAX_BENCH_SIZE as nat, |i: int| None::<SlotView>),
                stadium: None,
                turn_actions_used: Seq::empty(),
            }),
    {
        let mut bench: Vec<Option<PokemonSlot>> = Vec::new();
        let mut i: usize = 0;
        while i < MAX_BENCH_SIZE
            invariant
                i <= MAX_BENCH_SIZE,
                bench@.len() == i,
                forall|j: int| 0 <= j < i ==> bench@[j] is None,
            decreases MAX_BENCH_SIZE - i,
        {
            bench.push(None);
            i = i + 1;
        }
        let r = PlayerState {
            deck: Vec::new(),
            hand: Vec::new(),
            prizes: Vec::new(),
            discard: Vec::new(),
            lost_zone: Vec::new(),
            active: None,
            bench,
            stadium: None,
            turn_actions_used: Vec::new(),
        };
        proof {
            assert(r@.bench =~= Seq::new(MAX_BENCH_SIZE as nat, |i: int| None::<SlotView>));
            assert(r@.turn_actions_used =~= Seq::<Seq<char>>::empty());
        }
        r
    }

    pub fn bench_count(&self) -> (r: usize)
        ensures
            r == self@.bench_count(),
    {
        let mut count: usize = 0;
        let mut i: usize = 0;
        let ghost bv = self@.bench;
        while i < self.bench.len()
            invariant
                i <= self.bench@.len(),
                bv == self@.bench,
                bv.len() == self.bench@.len(),
                count == spec_bench_count(bv.subrange(0, i as int)),
                count <= i,
            decreases self.bench@.len() - i,
        {
            proof {
                assert(bv.subrange(0, i + 1).drop_last() =~= bv.subrange(0, i as int));
                assert(bv[i as int] == opt_slot_view(self.bench@[i as int]));
            }
            if self.bench[i].is_some() {
                count = count + 1;
            }
            i = i + 1;
        }
        proof {
            assert(bv.subrange(0, i as int) =~= bv);
        }
        count
    }

    pub fn total_pokemon_count(&self) -> (r: usize)
        requires
            self.bench@.len() < usize::MAX,
        ensures
            r == self@.bench_count() + if self.active is Some {
                1nat
            } else {
                0nat
            },
    {
        let active: usize = if self.active.is_some() {
            1
        } else {
            0
        };
        let b = self.bench_count();
        proof {
            lemma_bench_count_bound(self@.bench);
        }
        active + b
    }

    pub fn has_pokemon_in_play(&self) -> (r: bool)
        ensures
            r == self@.has_pokemon_in_play(),
    {
        if self.active.is_some() {
            return true;
        }
        let mut i: usize = 0;
        while i < self.bench.len()
            invariant
                i <= self.bench@.len(),
                forall|j: int| 0 <= j < i ==> #[trigger] self.bench@[j] is None,
            decreases self.bench@.len() - i,
        {
            if self.bench[i].is_some() {
                proof {
                    assert(self@.bench[i as int] is Some);
                }
                return true;
            }
            i = i + 1;
        }
        proof {
            assert forall|j: int| 0 <= j < self@.bench.len() implies #[trigger] self@.bench[j] is None by {
                assert(self.bench@[j] is None);
            }
        }
        false
    }

    /// Forget the once-per-turn actions and the ability uses of this turn.
    pub fn clear_turn_state(&mut self)
        ensures
            final(self)@ == spec_cleared(old(self)@),
            final(self)@ == (PlayerView {
                turn_actions_used: Seq::empty(),
                active: match old(self)@.active {
                    Some(s) => Some(SlotView { used_ability_this_turn: false, ..s }),
                    None => None,
                },
                bench: old(self)@.bench.map_values(
                    |o: Option<SlotView>|
                        match o {
                            Some(s) => Some(SlotView { used_ability_this_turn: false, ..s }),
                            None => None,
                        },
                ),
                ..old(self)@
            }),
    {
        self.turn_actions_used.clear();
        match &mut self.active {
            Some(a) => {
                a.used_ability_this_turn = false;
            },
            None => {},
        }
        let ghost b0 = self@.bench;
        let ghost a0 = self.active;
        let mut i: usize = 0;
        while i < self.bench.len()
            invariant
                i <= self.bench@.len(),
                self.turn_actions_used@.len() == 0,
                self.active == a0,
                self.deck == old(self).deck,
                self.hand == old(self).hand,
                self.prizes == old(self).prizes,
                self.discard == old(self).discard,
                self.lost_zone == old(self).lost_zone,
                self.stadium == old(self).stadium,
                b0.len() == self.bench@.len(),
                forall|j: int| 0 <= j < i ==> #[trigger] opt_slot_view(self.bench@[j]) == match b0[j] {
                    Some(s) => Some(SlotView { used_ability_this_turn: false, ..s }),
                    None => None,
                },
                forall|j: int| i <= j < b0.len() ==> #[trigger] opt_slot_view(self.bench@[j]) == b0[j],
            decreases self.bench@.len() - i,
        {
            match &mut self.bench[i] {
                Some(s) => {
                    s.used_ability_this_turn = false;
                },
                None => {},
            }
            i = i + 1;
        }
        proof {
            assert(self@.bench =~= b0.map_values(
                |o: Option<SlotView>|
                    match o {
                        Some(s) => Some(SlotView { used_ability_this_turn: false, ..s }),
                        None => None,
                    },
            ));
            assert(self@.turn_actions_used =~= Seq::<Seq<char>>::empty());
        }
    }

    pub fn get_slot(&self, slot_ref: SlotRef) -> (r: Option<&PokemonSlot>)
        ensures
            opt_slot_view(match r {
                Some(s) => Some(*s),
                None => None,
            }) == self@.slot(slot_ref),
    {
        match slot_ref {
            SlotRef::Active => self.active.as_ref(),
            SlotRef::Bench(i) => {
                if i < self.bench.len() {
                    proof {
                        assert(self@.bench[i as int] == opt_slot_view(self.bench@[i as int]));
                    }
                    self.bench[i].as_ref()
                } else {
                    None
                }
            },
        }
    }

    pub fn get_slot_mut(&mut self, slot_ref: SlotRef) -> (r: Option<&mut PokemonSlot>)
        ensures
            r is Some == old(self)@.slot(slot_ref) is Some,
            r matches Some(s) ==> Some((*s)@) == old(self)@.slot(slot_ref) && final(self)@
                == old(self)@.with_slot(slot_ref, Some((*final(s))@)),
            r is None ==> final(self)@ == old(self)@,
    {
        match slot_ref {
            SlotRef::Active => {
                let r = self.active.as_mut();
                r
            },
            SlotRef::Bench(i) => {
                if i < self.bench.len() {
                    self.bench[i].as_mut()
                } else {
                    None
                }
            },
        }
    }

    /// Take the Pokemon out of slot `r`, leaving it empty.
    pub fn take_slot(&mut self, r: SlotRef) -> (res: Option<PokemonSlot>)
        ensures
            opt_slot_view(res) == old(self)@.slot(r),
            final(self)@ == old(self)@.with_slot(r, None),
    {
        match r {
            SlotRef::Active => self.active.take(),
            SlotRef::Bench(i) => {
                if i < self.bench.len() {
                    let res = self.bench[i].take();
                    proof {
                        assert(self@.bench =~= old(self)@.bench.update(i as int, None));
                    }
                    res
                } else {
                    None
                }
            },
        }
    }

    /// Put `v` into slot `r` (nothing happens for a bench index past the end).
    pub fn put_slot(&mut self, r: SlotRef, v: Option<PokemonSlot>)
        ensures
            final(self)@ == old(self)@.with_slot(r, opt_slot_view(v)),
    {
        match r {
            SlotRef::Active => {
                self.active = v;
            },
            SlotRef::Bench(i) => {
                if i < self.bench.len() {
                    self.bench.set(i, v);
                    proof {
                        assert(self@.bench =~= old(self)@.bench.update(i as int, opt_slot_view(v)));
                    }
                }
            },
        }
    }

    /// Index of the first empty bench slot.
    pub fn first_empty_bench(&self) -> (r: Option<usize>)
        ensures
            r matches Some(i) ==> i < self@.bench.len() && self@.bench[i as int] is None,
            match r {
                Some(i) => self@.first_empty_bench() == Some(i as int),
                None => self@.first_empty_bench() is None,
            },
    {
        let mut i: usize = 0;
        while i < self.bench.len()
            invariant
                i <= self.bench@.len(),
                forall|j: int| 0 <= j < i ==> #[trigger] self@.bench[j] is Some,
            decreases self.bench@.len() - i,
        {
            if self.bench[i].is_none() {
                proof {
                    lemma_first_empty_bench(self@, i as int);
                }
                return Some(i);
            }
            proof {
                assert(self@.bench[i as int] is Some);
            }
            i = i + 1;
        }
        None
    }

    /// Record a once-per-turn action key (kept once).
    pub fn mark_used(&mut self, key: String)
        ensures
            final(self)@ == (PlayerView {
                turn_actions_used: if old(self)@.turn_actions_used.contains(key@) {
                    old(self)@.turn_actions_used
                } else {
                    old(self)@.turn_actions_used.push(key@)
                },
                ..old(self)@
            }),
    {
        if !contains_string(&self.turn_actions_used, key.as_str()) {
            let ghost k = key@;
            self.turn_actions_used.push(key);
            proof {
                assert(strings_view(self.turn_actions_used@) =~= strings_view(old(self).turn_actions_used@).push(k));
            }
        }
    }
}

/// Game phase.
#[derive(Debug, Clone, Copy, PartialEq, Eq, Hash, Structural)]
pub enum Phase {
    Setup,
    Mulligan,
    Draw,
    Energy,
    Play,
    Retreat,
    Attack,
    End,
}

pub open spec fn spec_phase_name(p: Phase) -> Seq<char> {
    match p {
        Phase::Setup => "Setup"@,
        Phase::Mulligan => "Mulligan"@,
        Phase::Draw => "Draw"@,
        Phase::Energy => "Energy"@,
        Phase::Play => "Play"@,
        Phase::Retreat => "Retreat"@,
        Phase::Attack => "Attack"@,
        Phase::End => "End"@,
    }
}

impl Phase {
    /// Name of the phase.
    pub fn name(&self) -> (r: &'static str)
        ensures
            r@ == spec_phase_name(*self),
    {
        match self {
            Phase::Setup => "Setup",
            Phase::Mulligan => "Mulligan",
            Phase::Draw => "Draw",
            Phase::Energy => "Energy",
            Phase::Play => "Play",
            Phase::Retreat => "Retreat",
            Phase::Attack => "Attack",
            Phase::End => "End",
        }
    }

    /// Setup and Mulligan, during which both players act.
    pub fn is_setup(&self) -> (r: bool)
        ensures
            r == (*self == Phase::Setup || *self == Phase::Mulligan),
    {
        match self {
            Phase::Setup | Phase::Mulligan => true,
            _ => false,
        }
    }
}

/// Turn state.
#[derive(Debug)]
pub struct TurnState {
    pub turn_number: u16,
    pub active_player: PlayerId,
    pub phase: Phase,
    pub sub_phase: Option<String>,
    pub mulligan_done: bool,
    pub mulligan_count: u8,
    pub prizes_taken_this_turn: u8,
    pub attack_locked: bool,
    /// The player who takes the first turn (cannot attack on turn 1).
    pub first_player: PlayerId,
}

impl TurnState {
    pub fn new() -> (r: Self)
        ensures
            r == (TurnState {
                turn_number: 0,
                active_player: PlayerId(0),
                phase: Phase::Setup,
                sub_phase: None,
                mulligan_done: false,
                first_player: PlayerId(0),
                mulligan_count: 0,
                prizes_taken_this_turn: 0,
                attack_locked: false,
            }),
    {
        TurnState {
            turn_number: 0,
            active_player: PlayerId(0),
            phase: Phase::Setup,
            sub_phase: None,
            mulligan_done: false,
            first_player: PlayerId(0),
            mulligan_count: 0,
            prizes_taken_this_turn: 0,
            attack_locked: false,
        }
    }
}


/// The top `k` cards of `deck` in the order they are taken off (top first).
pub open spec fn spec_top_cards(deck: Seq<CardInstanceId>, k: nat) -> Seq<CardInstanceId> {
    Seq::new(k, |i: int| deck[deck.len() - 1 - i])
}

pub open spec fn spec_min(a: nat, b: nat) -> nat {
    if a < b {
        a
    } else {
        b
    }
}

/// Player state after drawing `count` cards (as many as the deck holds).
pub open spec fn spec_draw(p: PlayerView, count: nat) -> PlayerView {
    let k = spec_min(count, p.deck.len());
    PlayerView {
        deck: p.deck.take(p.deck.len() - k),
        hand: p.hand + spec_top_cards(p.deck, k),
        ..p
    }
}

/// The cards drawn by `spec_draw`.
pub open spec fn spec_drawn(p: PlayerView, count: nat) -> Seq<CardInstanceId> {
    spec_top_cards(p.deck, spec_min(count, p.deck.len()))
}

impl PlayerState {
    /// Draw up to `count` cards from the top of the deck into the hand.
    pub fn draw(&mut self, count: usize) -> (drawn: Vec<CardInstanceId>)
        ensures
            drawn@ == spec_drawn(old(self)@, count as nat),
            final(self)@ == spec_draw(old(self)@, count as nat),
    {
        let ghost d0 = self.deck@;
        let ghost h0 = self.hand@;
        let mut drawn: Vec<CardInstanceId> = Vec::new();
        let mut n: usize = 0;
        while n < count
            invariant
                n <= count,
                drawn@ == spec_top_cards(d0, drawn@.len()),
                drawn@.len() <= n,
                drawn@.len() <= d0.len(),
                self.deck@ == d0.take(d0.len() - drawn@.len()),
                self.hand@ == h0 + drawn@,
                drawn@.len() < n ==> drawn@.len() == d0.len(),
                self.prizes == old(self).prizes,
                self.discard == old(self).discard,
                self.lost_zone == old(self).lost_zone,
                self.active == old(self).active,
                self.bench == old(self).bench,
                self.stadium == old(self).stadium,
                self.turn_actions_used == old(self).turn_actions_used,
            decreases count - n,
        {
            match self.deck.pop() {
                Some(card) => {
                    drawn.push(card);
                    self.hand.push(card);
                    proof {
                        assert(drawn@ =~= spec_top_cards(d0, drawn@.len()));
                        assert(self.deck@ =~= d0.take(d0.len() - drawn@.len()));
                        assert(self.hand@ =~= h0 + drawn@);
                    }
                },
                None => {},
            }
            n = n + 1;
        }
        proof {
            assert(drawn@.len() == spec_min(count as nat, d0.len()));
            assert(self@ =~= spec_draw(old(self)@, count as nat));
        }
        drawn
    }
}

/// The first instance in `s` with identifier `id`.
pub open spec fn find_instance(s: Seq<CardInstance>, id: CardInstanceId) -> Option<CardInstance>
    decreases s.len(),
{
    if s.len() == 0 {
        None
    } else if s[0].id == id {
        Some(s[0])
    } else {
        find_instance(s.drop_first(), id)
    }
}

pub proof fn lemma_find_instance_at(s: Seq<CardInstance>, id: CardInstanceId, i: int)
    requires
        0 <= i < s.len(),
        s[i].id == id,
        forall|j: int| 0 <= j < i ==> #[trigger] s[j].id != id,
    ensures
        find_instance(s, id) == Some(s[i]),
    decreases i,
{
    if i > 0 {
        let rest = s.drop_first();
        assert forall|j: int| 0 <= j < i - 1 implies #[trigger] rest[j].id != id by {
            assert(rest[j] == s[j + 1]);
        }
        lemma_find_instance_at(rest, id, i - 1);
    }
}

pub proof fn lemma_find_instance_none(s: Seq<CardInstance>, id: CardInstanceId)
    requires
        forall|j: int| 0 <= j < s.len() ==> #[trigger] s[j].id != id,
    ensures
        find_instance(s, id) == None::<CardInstance>,
    decreases s.len(),
{
    if s.len() > 0 {
        let rest = s.drop_first();
        assert forall|j: int| 0 <= j < rest.len() implies #[trigger] rest[j].id != id by {
            assert(rest[j] == s[j + 1]);
        }
        lemma_find_instance_none(rest, id);
    }
}

pub proof fn lemma_find_instance_push(s: Seq<CardInstance>, c: CardInstance, id: CardInstanceId)
    requires
        find_instance(s, id) is Some || c.id != id,
    ensures
        find_instance(s.push(c), id) == if find_instance(s, id) is Some {
            find_instance(s, id)
        } else {
            None
        },
    decreases s.len(),
{
    let ns = s.push(c);
    if s.len() > 0 {
        assert(ns[0] == s[0]);
        assert(ns.drop_first() =~= s.drop_first().push(c));
        if s[0].id != id {
            lemma_find_instance_push(s.drop_first(), c, id);
        }
    } else {
        assert(ns[0] == c);
        assert(ns.drop_first() =~= Seq::<CardInstance>::empty());
        assert(find_instance(ns.drop_first(), id) == None::<CardInstance>);
    }
}

/// Abstract game state.
#[verifier::ext_equal]
pub struct GameView {
    pub players: Seq<PlayerView>,
    pub turn: TurnState,
    pub registry: Seq<CardDef>,
    pub cards: Seq<CardInstance>,
    pub next_card_id: u32,
    pub winner: Option<PlayerId>,
    pub action_log: Seq<LoggedAction>,
}

impl GameView {
    /// The card instance with identifier `id`.
    pub open spec fn card(self, id: CardInstanceId) -> Option<CardInstance> {
        find_instance(self.cards, id)
    }

    /// The definition of the card with identifier `id`.
    pub open spec fn def_of(self, id: CardInstanceId) -> Option<CardDef> {
        match find_instance(self.cards, id) {
            Some(c) => find_def(self.registry, c.def_id.0@),
            None => None,
        }
    }

    pub open spec fn player(self, p: PlayerId) -> PlayerView {
        self.players[p.0 as int]
    }

    pub open spec fn with_player(self, p: PlayerId, pv: PlayerView) -> GameView {
        GameView { players: self.players.update(p.0 as int, pv), ..self }
    }

    /// Both players have every bench slot.
    pub open spec fn wf(self) -> bool {
        &&& self.players.len() == 2
        &&& self.players[0].bench.len() == MAX_BENCH_SIZE
        &&& self.players[1].bench.len() == MAX_BENCH_SIZE
    }

    /// The definition of the top card of the Pokemon at `r` of player `p`.
    pub open spec fn slot_def(self, p: PlayerId, r: SlotRef) -> Option<CardDef> {
        match self.player(p).slot(r) {
            Some(s) => match spec_top_card(s) {
                Some(id) => self.def_of(id),
                None => None,
            },
            None => None,
        }
    }
}

/// Game state.
#[derive(Debug)]
pub struct GameState {
    pub players: [PlayerState; 2],
    pub turn: TurnState,
    pub card_registry: CardRegistry,
    /// Every card instance of the game, each created once by `add_card`.
    pub cards: Vec<CardInstance>,
    pub next_card_id: u32,
    pub winner: Option<PlayerId>,
    pub action_log: Vec<LoggedAction>,
}

impl View for GameState {
    type V = GameView;

    open spec fn view(&self) -> GameView {
        GameView {
            players: self.players@.map_values(|p: PlayerState| p@),
            turn: self.turn,
            registry: self.card_registry@,
            cards: self.cards@,
            next_card_id: self.next_card_id,
            winner: self.winner,
            action_log: self.action_log@,
        }
    }
}

/// The public part of a game state mixed into one 64-bit value with std's
/// default hasher.
pub uninterp spec fn spec_public_state_hash(
    turn_number: u16,
    active_player: usize,
    phase: Phase,
    deck0: usize,
    deck1: usize,
    hand0: usize,
    hand1: usize,
    prizes0: usize,
    prizes1: usize,
    damage0: Option<u16>,
    damage1: Option<u16>,
) -> u64;

/// Feeds the values, in this order, to `std::collections::hash_map::DefaultHasher::new()`
/// through their `Hash` impls (a damage only when it is present) and returns `finish()`.
/// The hasher's keys are fixed, so equal values give equal results; the contract names
/// the result and claims nothing more.
#[verifier::external_body]
fn public_state_hash(
    turn_number: u16,
    active_player: usize,
    phase: Phase,
    deck0: usize,
    deck1: usize,
    hand0: usize,
    hand1: usize,
    prizes0: usize,
    prizes1: usize,
    damage0: Option<u16>,
    damage1: Option<u16>,
) -> (r: u64)
    ensures
        r == spec_public_state_hash(
            turn_number, active_player, phase, deck0, deck1, hand0, hand1, prizes0, prizes1, damage0, damage1,
        ),
{
    let mut hasher = std::collections::hash_map::DefaultHasher::new();
    turn_number.hash(&mut hasher);
    active_player.hash(&mut hasher);
    phase.hash(&mut hasher);
    deck0.hash(&mut hasher);
    deck1.hash(&mut hasher);
    hand0.hash(&mut hasher);
    hand1.hash(&mut hasher);
    prizes0.hash(&mut hasher);
    prizes1.hash(&mut hasher);
    if let Some(d) = damage0 { d.hash(&mut hasher); }
    if let Some(d) = damage1 { d.hash(&mut hasher); }
    hasher.finish()
}

pub open spec fn spec_active_damage(p: PlayerView) -> Option<u16> {
    match p.active {
        Some(s) => Some(s.damage),
        None => None,
    }
}

impl GameState {
    /// The hash that `state_hash` gives for a state with view `v`.
    pub open spec fn spec_hash(v: GameView) -> u64 {
        spec_public_state_hash(
            v.turn.turn_number,
            v.turn.active_player.0,
            v.turn.phase,
            v.players[0].deck.len() as usize,
            v.players[1].deck.len() as usize,
            v.players[0].hand.len() as usize,
            v.players[1].hand.len() as usize,
            v.players[0].prizes.len() as usize,
            v.players[1].prizes.len() as usize,
            spec_active_damage(v.players[0]),
            spec_active_damage(v.players[1]),
        )
    }

    /// The state of a new game before any card is created.
    pub open spec fn new_view() -> GameView {
        GameView {
            players: seq![PlayerState::new_view(), PlayerState::new_view()],
            turn: TurnState::initial(),
            registry: Seq::empty(),
            cards: Seq::empty(),
            next_card_id: 0,
            winner: None,
            action_log: Seq::empty(),
        }
    }

    pub fn new() -> (r: Self)
        ensures
            r@ == GameState::new_view(),
            r@.players == seq![PlayerState::new_view(), PlayerState::new_view()],
            r@.turn == TurnState::initial(),
            r@.registry == Seq::<CardDef>::empty(),
            r@.cards == Seq::<CardInstance>::empty(),
            r@.next_card_id == 0,
            r@.winner is None,
            r@.action_log == Seq::<LoggedAction>::empty(),
            r@.wf(),
    {
        let r = GameState {
            players: [PlayerState::new(), PlayerState::new()],
            turn: TurnState::new(),
            card_registry: CardRegistry::new(),
            cards: Vec::new(),
            next_card_id: 0,
            winner: None,
            action_log: Vec::new(),
        };
        proof {
            assert(r@.players =~= seq![PlayerState::new_view(), PlayerState::new_view()]);
        }
        r
    }

    pub fn card_registry_mut(&mut self) -> (r: &mut CardRegistry)
        ensures
            *r == old(self).card_registry,
            final(self)@ == (GameView { registry: final(r)@, ..old(self)@ }),
    {
        &mut self.card_registry
    }

    /// Create a new card instance of definition `def_id` owned by `owner`.
    pub fn add_card(&mut self, def_id: CardDefId, owner: PlayerId) -> (id: CardInstanceId)
        requires
            old(self).next_card_id < u32::MAX,
        ensures
            id.0 == old(self).next_card_id,
            final(self)@ == (GameView {
                cards: old(self)@.cards.push(CardInstance { id, def_id, owner }),
                next_card_id: (old(self).next_card_id + 1) as u32,
                ..old(self)@
            }),
    {
        let id = CardInstanceId(self.next_card_id);
        self.next_card_id = self.next_card_id + 1;
        let instance = CardInstance::new(id, def_id, owner);
        self.cards.push(instance);
        id
    }

    pub fn get_card(&self, id: CardInstanceId) -> (r: Option<&CardInstance>)
        ensures
            match r {
                Some(c) => self@.card(id) == Some(*c),
                None => self@.card(id) is None,
            },
    {
        let mut i: usize = 0;
        while i < self.cards.len()
            invariant
                i <= self.cards@.len(),
                forall|j: int| 0 <= j < i ==> #[trigger] self.cards@[j].id != id,
            decreases self.cards@.len() - i,
        {
            if self.cards[i].id == id {
                proof {
                    lemma_find_instance_at(self.cards@, id, i as int);
                }
                return Some(&self.cards[i]);
            }
            i = i + 1;
        }
        proof {
            lemma_find_instance_none(self.cards@, id);
        }
        None
    }

    /// Every card instance, in order of creation.
    pub fn cards_iter(&self) -> (r: std::slice::Iter<'_, CardInstance>)
        ensures
            r.remaining() == self@.cards.map_values(|c: CardInstance| &c),
    {
        let r = self.cards.as_slice().iter();
        proof {
            assert(r.remaining() =~= self@.cards.map_values(|c: CardInstance| &c));
        }
        r
    }

    pub fn get_card_def(&self, id: CardInstanceId) -> (r: Option<&CardDef>)
        ensures
            match r {
                Some(d) => self@.def_of(id) == Some(*d),
                None => self@.def_of(id) is None,
            },
    {
        match self.get_card(id) {
            Some(c) => self.card_registry.get(&c.def_id),
            None => None,
        }
    }

    pub fn player(&self, id: PlayerId) -> (r: &PlayerState)
        requires
            id.0 < 2,
        ensures
            r@ == self@.player(id),
    {
        &self.players[id.0]
    }

    pub fn player_mut(&mut self, id: PlayerId) -> (r: &mut PlayerState)
        requires
            id.0 < 2,
        ensures
            r@ == old(self)@.player(id),
            final(self)@ == old(self)@.with_player(id, final(r)@),
    {
        &mut self.players[id.0]
    }

    pub fn current_player(&self) -> (r: PlayerId)
        ensures
            r == self.turn.active_player,
    {
        self.turn.active_player
    }

    pub fn opponent(&self) -> (r: PlayerId)
        requires
            self.turn.active_player.0 <= 1,
        ensures
            r.0 == 1 - self.turn.active_player.0,
    {
        self.turn.active_player.opponent()
    }

    pub fn is_done(&self) -> (r: bool)
        ensures
            r == (self.winner is Some),
    {
        self.winner.is_some()
    }

    /// Hash of the public state: turn, active player, phase, the sizes of
    /// both decks, hands and prize piles, and the damage on both active Pokemon.
    pub fn state_hash(&self) -> (r: u64)
        ensures
            r == GameState::spec_hash(self@),
    {
        let d0 = match &self.players[0].active {
            Some(a) => Some(a.damage),
            None => None,
        };
        let d1 = match &self.players[1].active {
            Some(a) => Some(a.damage),
            None => None,
        };
        public_state_hash(
            self.turn.turn_number,
            self.turn.active_player.0,
            self.turn.phase,
            self.players[0].deck.len(),
            self.players[1].deck.len(),
            self.players[0].hand.len(),
            self.players[1].hand.len(),
            self.players[0].prizes.len(),
            self.players[1].prizes.len(),
            d0,
            d1,
        )
    }

    /// Move the first occurrence of `card_id` from `from` to the end of `to`.
    pub fn move_card(&mut self, card_id: CardInstanceId, from: &mut Vec<CardInstanceId>, to: &mut Vec<CardInstanceId>)
        ensures
            final(self)@ == old(self)@,
            final(from)@ == spec_remove_first(old(from)@, card_id),
            final(to)@ == if old(from)@.contains(card_id) {
                old(to)@.push(card_id)
            } else {
                old(to)@
            },
    {
        if remove_card(from, card_id) {
            to.push(card_id);
        }
    }

    /// Player `player` draws up to `count` cards; returns them in the order drawn.
    pub fn draw_cards(&mut self, player: PlayerId, count: usize) -> (drawn: Vec<CardInstanceId>)
        requires
            player.0 < 2,
        ensures
            drawn@ == spec_drawn(old(self)@.player(player), count as nat),
            final(self)@ == old(self)@.with_player(player, spec_draw(old(self)@.player(player), count as nat)),
    {
        let r = self.players[player.0].draw(count);
        proof {
            assert(self@.players =~= old(self)@.players.update(player.0 as int, self.players@[player.0 as int]@));
        }
        r
    }
}

impl PlayerState {
    pub open spec fn new_view() -> PlayerView {
        PlayerView {
            deck: Seq::empty(),
            hand: Seq::empty(),
            prizes: Seq::empty(),
            discard: Seq::empty(),
            lost_zone: Seq::empty(),
            active: None,
            bench: Seq::new(MAX_BENCH_SIZE as nat, |i: int| None::<SlotView>),
            stadium: None,
            turn_actions_used: Seq::empty(),
        }
    }
}

impl TurnState {
    pub open spec fn initial() -> TurnState {
        TurnState {
            turn_number: 0,
            active_player: PlayerId(0),
            phase: Phase::Setup,
            sub_phase: None,
            mulligan_done: false,
            first_player: PlayerId(0),
            mulligan_count: 0,
            prizes_taken_this_turn: 0,
            attack_locked: false,
        }
    }
}

} // verus!
