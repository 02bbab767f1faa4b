//! Encoding the legal actions as a flat, masked index space: the actions in
//! a canonical order, index `i` naming the `i`-th of them.

use vstd::prelude::*;
use vstd::string::StringExecFns;

use crate::action::{Action, Choices};
use crate::state::{CardInstanceId, SlotRef};
use crate::text::{push_decimal, spec_decimal};

verus! {

/// Maximum number of flat actions in the encoded space.
pub const MAX_ACTION_SPACE: usize = 1024;

/// The legal actions in canonical order, with a mask of the indices in use.
pub struct EncodedActions {
    /// The actions, sorted by `action_sort_key` (ties keep their order).
    pub actions: Vec<Action>,
    /// `mask[i]` holds when index `i` names an action.
    pub mask: Vec<bool>,
}

/// Encodes and decodes between actions and flat indices.
pub struct ActionCodec {
    max_action_space: usize,
}

/// The sort key of an action.
pub type SortKey = (u8, u64, u64, u64);

/// `a` sorts strictly before `b` (lexicographic order of the keys).
pub open spec fn key_lt(a: SortKey, b: SortKey) -> bool {
    a.0 < b.0 || (a.0 == b.0 && (a.1 < b.1 || (a.1 == b.1 && (a.2 < b.2 || (a.2 == b.2 && a.3 < b.3)))))
}

/// `a` sorts before `b` or with it.
pub open spec fn key_le(a: SortKey, b: SortKey) -> bool {
    !key_lt(b, a)
}

/// The key of a slot: 0 for the active spot, `1 + i` for bench slot `i`
/// (wrapping to 0 for the largest index).
pub open spec fn spec_slot_key(s: SlotRef) -> u64 {
    match s {
        SlotRef::Active => 0,
        SlotRef::Bench(i) => if i < u64::MAX {
            (1 + i) as u64
        } else {
            0
        },
    }
}

/// The canonical sort key of an action: its variant's rank, then the card
/// or slot it names, then further fields.
pub open spec fn spec_sort_key(a: Action) -> SortKey {
    match a {
        Action::EndTurn => (0, 0, 0, 0),
        Action::Pass => (1, 0, 0, 0),
        Action::MulliganDraw { draw } => if draw {
            (2, 0, 0, 0)
        } else {
            (3, 0, 0, 0)
        },
        Action::SetupChooseActive { card } => (4, card.0 as u64, 0, 0),
        Action::SetupBenchBasics { cards } => (
            5,
            if cards@.len() > 0 {
                cards@[0].0 as u64
            } else {
                0
            },
            cards@.len() as u64,
            0,
        ),
        Action::PlayBasicToBench { card } => (6, card.0 as u64, 0, 0),
        Action::Evolve { card, target } => (7, card.0 as u64, spec_slot_key(target), 0),
        Action::AttachEnergy { card, target } => (8, card.0 as u64, spec_slot_key(target), 0),
        Action::AttachTool { card, target } => (9, card.0 as u64, spec_slot_key(target), 0),
        Action::PlayTrainer { card, .. } => (10, card.0 as u64, 0, 0),
        Action::PlayStadium { card, .. } => (11, card.0 as u64, 0, 0),
        Action::UseAbility { source, ability_index, .. } => (12, spec_slot_key(source), ability_index as u64, 0),
        Action::Retreat { target, .. } => (13, spec_slot_key(target), 0, 0),
        Action::Attack { attack_index, .. } => (14, attack_index as u64, 0, 0),
    }
}

/// `a` and `b` make the same choices.
pub open spec fn choices_copy(a: Choices, b: Choices) -> bool {
    a.selected_cards@ == b.selected_cards@ && a.selected_slots@ == b.selected_slots@ && a.selected_count
        == b.selected_count && a.mode == b.mode
}

/// `a` is a copy of `b`: the same variant with the same fields.
pub open spec fn action_copy(a: Action, b: Action) -> bool {
    match (a, b) {
        (Action::SetupChooseActive { card: x }, Action::SetupChooseActive { card: y }) => x == y,
        (Action::SetupBenchBasics { cards: x }, Action::SetupBenchBasics { cards: y }) => x@ == y@,
        (Action::MulliganDraw { draw: x }, Action::MulliganDraw { draw: y }) => x == y,
        (Action::PlayBasicToBench { card: x }, Action::PlayBasicToBench { card: y }) => x == y,
        (Action::Evolve { card: x, target: s }, Action::Evolve { card: y, target: t }) => x == y && s == t,
        (Action::AttachEnergy { card: x, target: s }, Action::AttachEnergy { card: y, target: t }) => x == y && s == t,
        (Action::AttachTool { card: x, target: s }, Action::AttachTool { card: y, target: t }) => x == y && s == t,
        (Action::PlayTrainer { card: x, choices: c }, Action::PlayTrainer { card: y, choices: d }) => x == y
            && choices_copy(c, d),
        (Action::PlayStadium { card: x, choices: c }, Action::PlayStadium { card: y, choices: d }) => x == y
            && choices_copy(c, d),
        (
            Action::UseAbility { source: s, ability_index: i, choices: c },
            Action::UseAbility { source: t, ability_index: j, choices: d },
        ) => s == t && i == j && choices_copy(c, d),
        (Action::Retreat { target: s, discard: x }, Action::Retreat { target: t, discard: y }) => s == t && x@ == y@,
        (Action::Attack { attack_index: i, choices: c }, Action::Attack { attack_index: j, choices: d }) => i == j
            && choices_copy(c, d),
        (Action::EndTurn, Action::EndTurn) => true,
        (Action::Pass, Action::Pass) => true,
        _ => false,
    }
}

proof fn lemma_copy_key(a: Action, b: Action)
    requires
        action_copy(a, b),
    ensures
        spec_sort_key(a) == spec_sort_key(b),
{
}

fn copy_ids(v: &Vec<CardInstanceId>) -> (r: Vec<CardInstanceId>)
    ensures
        r@ == v@,
{
    let mut r: Vec<CardInstanceId> = Vec::new();
    let mut i: usize = 0;
    while i < v.len()
        invariant
            i <= v@.len(),
            r@ == v@.take(i as int),
        decreases v@.len() - i,
    {
        r.push(v[i]);
        proof {
            assert(v@.take(i + 1) =~= v@.take(i as int).push(v@[i as int]));
        }
        i = i + 1;
    }
    proof {
        assert(v@.take(i as int) =~= v@);
    }
    r
}

fn copy_slots(v: &Vec<SlotRef>) -> (r: Vec<SlotRef>)
    ensures
        r@ == v@,
{
    let mut r: Vec<SlotRef> = Vec::new();
    let mut i: usize = 0;
    while i < v.len()
        invariant
            i <= v@.len(),
            r@ == v@.take(i as int),
        decreases v@.len() - i,
    {
        r.push(v[i]);
        proof {
            assert(v@.take(i + 1) =~= v@.take(i as int).push(v@[i as int]));
        }
        i = i + 1;
    }
    proof {
        assert(v@.take(i as int) =~= v@);
    }
    r
}

fn copy_choices(c: &Choices) -> (r: Choices)
    ensures
        choices_copy(r, *c),
{
    Choices {
        selected_cards: copy_ids(&c.selected_cards),
        selected_slots: copy_slots(&c.selected_slots),
        selected_count: c.selected_count,
        mode: c.mode,
    }
}

/// A copy of `a`.
pub fn copy_action(a: &Action) -> (r: Action)
    ensures
        action_copy(r, *a),
{
    match a {
        Action::SetupChooseActive { card } => Action::SetupChooseActive { card: *card },
        Action::SetupBenchBasics { cards } => Action::SetupBenchBasics { cards: copy_ids(cards) },
        Action::MulliganDraw { draw } => Action::MulliganDraw { draw: *draw },
        Action::PlayBasicToBench { card } => Action::PlayBasicToBench { card: *card },
        Action::Evolve { card, target } => Action::Evolve { card: *card, target: *target },
        Action::AttachEnergy { card, target } => Action::AttachEnergy { card: *card, target: *target },
        Action::AttachTool { card, target } => Action::AttachTool { card: *card, target: *target },
        Action::PlayTrainer { card, choices } => Action::PlayTrainer { card: *card, choices: copy_choices(choices) },
        Action::PlayStadium { card, choices } => Action::PlayStadium { card: *card, choices: copy_choices(choices) },
        Action::UseAbility { source, ability_index, choices } => Action::UseAbility {
            source: *source,
            ability_index: *ability_index,
            choices: copy_choices(choices),
        },
        Action::Retreat { target, discard } => Action::Retreat { target: *target, discard: copy_ids(discard) },
        Action::Attack { attack_index, choices } => Action::Attack {
            attack_index: *attack_index,
            choices: copy_choices(choices),
        },
        Action::EndTurn => Action::EndTurn,
        Action::Pass => Action::Pass,
    }
}

/// `out` is `input` stably sorted by key: position `i` of `out` copies
/// position `perm[i]` of `input`, every position is used once, the keys do
/// not decrease, and actions with equal keys keep their order.
pub open spec fn stable_sorted(out: Seq<Action>, input: Seq<Action>, perm: Seq<int>) -> bool {
    &&& out.len() == input.len()
    &&& perm.len() == input.len()
    &&& forall|i: int| 0 <= i < perm.len() ==> 0 <= #[trigger] perm[i] < input.len()
    &&& forall|i: int, j: int| 0 <= i < j < perm.len() ==> perm[i] != perm[j]
    &&& forall|i: int| 0 <= i < out.len() ==> action_copy(#[trigger] out[i], input[perm[i]])
    &&& forall|i: int, j: int|
        0 <= i < j < out.len() ==> key_le(spec_sort_key(#[trigger] out[i]), spec_sort_key(#[trigger] out[j]))
    &&& forall|i: int, j: int|
        0 <= i < j < out.len() && spec_sort_key(#[trigger] out[i]) == spec_sort_key(#[trigger] out[j]) ==> perm[i]
            < perm[j]
}

/// Every action handed to `encode` has an index in the encoding, and the
/// action stored there is a copy of it.
pub proof fn lemma_encoding_covers(out: Seq<Action>, input: Seq<Action>, perm: Seq<int>, k: int)
    requires
        stable_sorted(out, input, perm),
        0 <= k < input.len(),
    ensures
        exists|i: int| 0 <= i < out.len() && perm[i] == k && action_copy(#[trigger] out[i], input[k]),
{
    broadcast use vstd::seq_lib::seq_to_set_is_finite;
    let n = input.len() as int;
    assert(perm.no_duplicates());
    perm.unique_seq_to_set();
    vstd::set_lib::lemma_int_range(0, n);
    assert(perm.to_set().subset_of(vstd::set_lib::set_int_range(0, n)));
    vstd::set_lib::lemma_subset_equality(perm.to_set(), vstd::set_lib::set_int_range(0, n));
    assert(vstd::set_lib::set_int_range(0, n).contains(k));
    assert(perm.to_set().contains(k));
    let i = choose|i: int| 0 <= i < perm.len() && perm[i] == k;
    assert(action_copy(out[i], input[perm[i]]));
}

fn key_less(a: SortKey, b: SortKey) -> (r: bool)
    ensures
        r == key_lt(a, b),
{
    a.0 < b.0 || (a.0 == b.0 && (a.1 < b.1 || (a.1 == b.1 && (a.2 < b.2 || (a.2 == b.2 && a.3 < b.3)))))
}

/// Index `i` names an action of the encoding and its mask marks it legal.
pub open spec fn index_legal(e: &EncodedActions, i: usize) -> bool {
    i < e.actions@.len() && i < e.mask@.len() && e.mask@[i as int]
}

impl ActionCodec {
    /// A codec with `max_action_space` indices.
    pub fn new(max_action_space: usize) -> (r: Self)
        ensures
            r.max() == max_action_space,
    {
        ActionCodec { max_action_space }
    }

    /// The number of indices.
    pub closed spec fn max(&self) -> usize {
        self.max_action_space
    }

    /// The legal actions stably sorted by `action_sort_key`, with a mask of
    /// `max` entries whose first `min(len, max)` are set.
    pub fn encode(&self, legal_actions: &[Action]) -> (r: EncodedActions)
        ensures
            exists|perm: Seq<int>| #[trigger] stable_sorted(r.actions@, legal_actions@, perm),
            r.mask@.len() == self.max(),
            forall|i: int| 0 <= i < r.mask@.len() ==> (#[trigger] r.mask@[i] <==> i < legal_actions@.len()),
    {
        let ghost input = legal_actions@;
        let mut sorted: Vec<Action> = Vec::new();
        let ghost mut perm: Seq<int> = Seq::empty();
        let mut k: usize = 0;
        while k < legal_actions.len()
            invariant
                k <= input.len(),
                input == legal_actions@,
                stable_sorted(sorted@, input.take(k as int), perm),
            decreases input.len() - k,
        {
            let x = copy_action(&legal_actions[k]);
            let kx = Self::action_sort_key(&x);
            proof {
                lemma_copy_key(x, input[k as int]);
            }
            let mut p: usize = 0;
            while p < sorted.len() && !key_less(kx, Self::action_sort_key(&sorted[p]))
                invariant
                    p <= sorted@.len(),
                    kx == spec_sort_key(x),
                    forall|q: int| 0 <= q < p ==> key_le(spec_sort_key(#[trigger] sorted@[q]), kx),
                decreases sorted@.len() - p,
            {
                p = p + 1;
            }
            let ghost old_sorted = sorted@;
            let ghost old_perm = perm;
            sorted.insert(p, x);
            proof {
                perm = old_perm.insert(p as int, k as int);
                assert(input.take(k + 1).drop_last() =~= input.take(k as int));
                assert forall|i: int| 0 <= i < perm.len() implies 0 <= #[trigger] perm[i] < input.take(k + 1).len() by {
                    if i < p {
                        assert(perm[i] == old_perm[i]);
                    } else if i > p {
                        assert(perm[i] == old_perm[i - 1]);
                    }
                }
                assert forall|i: int| 0 <= i < sorted@.len() implies action_copy(
                    #[trigger] sorted@[i],
                    input.take(k + 1)[perm[i]],
                ) by {
                    if i < p {
                        assert(sorted@[i] == old_sorted[i]);
                        assert(perm[i] == old_perm[i]);
                    } else if i > p {
                        assert(sorted@[i] == old_sorted[i - 1]);
                        assert(perm[i] == old_perm[i - 1]);
                    }
                }
                assert forall|i: int, j: int| 0 <= i < j < perm.len() implies perm[i] != perm[j] by {
                    if i < p && j < p {
                    } else if i < p && j == p {
                    } else if i < p && j > p {
                        assert(perm[j] == old_perm[j - 1]);
                    } else if i == p {
                        assert(perm[j] == old_perm[j - 1]);
                    } else {
                        assert(perm[i] == old_perm[i - 1]);
                        assert(perm[j] == old_perm[j - 1]);
                    }
                }
                assert forall|i: int, j: int|
                    0 <= i < j < sorted@.len() implies key_le(
                    spec_sort_key(#[trigger] sorted@[i]),
                    spec_sort_key(#[trigger] sorted@[j]),
                ) by {
                    if j < p {
                        assert(sorted@[i] == old_sorted[i] && sorted@[j] == old_sorted[j]);
                    } else if j == p {
                        assert(sorted@[i] == old_sorted[i]);
                    } else if i < p {
                        assert(sorted@[i] == old_sorted[i] && sorted@[j] == old_sorted[j - 1]);
                        assert(key_le(spec_sort_key(old_sorted[i]), spec_sort_key(old_sorted[j - 1])));
                    } else if i == p {
                        assert(sorted@[j] == old_sorted[j - 1]);
                        if p < old_sorted.len() {
                            assert(key_lt(kx, spec_sort_key(old_sorted[p as int])));
                            if j - 1 > p {
                                assert(key_le(spec_sort_key(old_sorted[p as int]), spec_sort_key(old_sorted[j - 1])));
                            }
                        }
                    } else {
                        assert(sorted@[i] == old_sorted[i - 1] && sorted@[j] == old_sorted[j - 1]);
                    }
                }
                assert forall|i: int, j: int|
                    0 <= i < j < sorted@.len() && spec_sort_key(#[trigger] sorted@[i]) == spec_sort_key(
                        #[trigger] sorted@[j],
                    ) implies perm[i] < perm[j] by {
                    if j < p {
                        assert(sorted@[i] == old_sorted[i] && sorted@[j] == old_sorted[j]);
                    } else if j == p {
                        assert(sorted@[i] == old_sorted[i]);
                        assert(perm[i] == old_perm[i]);
                    } else if i < p {
                        assert(sorted@[i] == old_sorted[i] && sorted@[j] == old_sorted[j - 1]);
                        assert(perm[i] == old_perm[i] && perm[j] == old_perm[j - 1]);
                    } else if i == p {
                        assert(sorted@[j] == old_sorted[j - 1]);
                        assert(key_lt(kx, spec_sort_key(old_sorted[p as int])));
                        if j - 1 > p {
                            assert(key_le(spec_sort_key(old_sorted[p as int]), spec_sort_key(old_sorted[j - 1])));
                        }
                        assert(false);
                    } else {
                        assert(sorted@[i] == old_sorted[i - 1] && sorted@[j] == old_sorted[j - 1]);
                        assert(perm[i] == old_perm[i - 1] && perm[j] == old_perm[j - 1]);
                    }
                }
            }
            k = k + 1;
        }
        proof {
            assert(input.take(k as int) =~= input);
            assert(stable_sorted(sorted@, input, perm));
        }
        let mut mask: Vec<bool> = Vec::new();
        let mut i: usize = 0;
        while i < self.max_action_space
            invariant
                i <= self.max_action_space,
                input == legal_actions@,
                stable_sorted(sorted@, input, perm),
                mask@.len() == i,
                forall|j: int| 0 <= j < i ==> (#[trigger] mask@[j] <==> j < input.len()),
            decreases self.max_action_space - i,
        {
            mask.push(i < legal_actions.len());
            i = i + 1;
        }
        let r = EncodedActions { actions: sorted, mask };
        proof {
            assert(stable_sorted(r.actions@, legal_actions@, perm));
        }
        r
    }

    /// A copy of the action at `action_index` when the mask marks that index
    /// legal; `None` otherwise (past the actions or the mask, or unmarked).
    pub fn decode(&self, encoded: &EncodedActions, action_index: usize) -> (r: Option<Action>)
        ensures
            !index_legal(encoded, action_index) ==> r is None,
            index_legal(encoded, action_index) ==> (r matches Some(a) && action_copy(
                a,
                encoded.actions@[action_index as int],
            )),
    {
        if action_index >= encoded.actions.len() || action_index >= encoded.mask.len() || !encoded.mask[action_index] {
            return None;
        }
        Some(copy_action(&encoded.actions[action_index]))
    }

    /// The canonical sort key of an action (see `spec_sort_key`).
    pub fn action_sort_key(action: &Action) -> (r: SortKey)
        ensures
            r == spec_sort_key(*action),
    {
        match action {
            Action::EndTurn => (0, 0, 0, 0),
            Action::Pass => (1, 0, 0, 0),
            Action::MulliganDraw { draw } => if *draw {
                (2, 0, 0, 0)
            } else {
                (3, 0, 0, 0)
            },
            Action::SetupChooseActive { card } => (4, card.0 as u64, 0, 0),
            Action::SetupBenchBasics { cards } => {
                let first: u64 = if cards.len() > 0 {
                    cards[0].0 as u64
                } else {
                    0
                };
                (5, first, cards.len() as u64, 0)
            },
            Action::PlayBasicToBench { card } => (6, card.0 as u64, 0, 0),
            Action::Evolve { card, target } => (7, card.0 as u64, Self::slot_ref_key(target), 0),
            Action::AttachEnergy { card, target } => (8, card.0 as u64, Self::slot_ref_key(target), 0),
            Action::AttachTool { card, target } => (9, card.0 as u64, Self::slot_ref_key(target), 0),
            Action::PlayTrainer { card, .. } => (10, card.0 as u64, 0, 0),
            Action::PlayStadium { card, .. } => (11, card.0 as u64, 0, 0),
            Action::UseAbility { source, ability_index, .. } => (12, Self::slot_ref_key(source), *ability_index as u64, 0),
            Action::Retreat { target, .. } => (13, Self::slot_ref_key(target), 0, 0),
            Action::Attack { attack_index, .. } => (14, *attack_index as u64, 0, 0),
        }
    }

    /// The key of a slot: 0 for the active spot, `1 + i` for bench slot `i`.
    pub fn slot_ref_key(slot: &SlotRef) -> (r: u64)
        ensures
            r == spec_slot_key(*slot),
    {
        match slot {
            SlotRef::Active => 0,
            SlotRef::Bench(i) => if (*i as u64) < u64::MAX {
                1 + *i as u64
            } else {
                0
            },
        }
    }
}

/// The text of a slot for dictionaries: `active` or `bench_i`.
pub open spec fn spec_format_slot_ref(slot: SlotRef) -> Seq<char> {
    match slot {
        SlotRef::Active => "active"@,
        SlotRef::Bench(i) => "bench_"@ + spec_decimal(i as nat),
    }
}

/// The text of a slot for dictionaries: `active` or `bench_i`.
pub fn format_slot_ref(slot: &SlotRef) -> (r: String)
    ensures
        r@ == spec_format_slot_ref(*slot),
{
    match slot {
        SlotRef::Active => {
            proof {
                reveal_strlit("active");
            }
            String::from_str("active")
        },
        SlotRef::Bench(i) => {
            let mut s = String::from_str("bench_");
            proof {
                reveal_strlit("bench_");
            }
            push_decimal(&mut s, *i as u64);
            s
        },
    }
}

/// A small text dictionary: entries in insertion order, each key once.
pub struct ActionDict {
    entries: Vec<(String, String)>,
}

/// The entries of a dictionary as text pairs.
pub open spec fn pairs_view(v: Seq<(String, String)>) -> Seq<(Seq<char>, Seq<char>)> {
    v.map_values(|e: (String, String)| (e.0@, e.1@))
}

/// The value of the first entry with key `key`.
pub open spec fn dict_get(entries: Seq<(Seq<char>, Seq<char>)>, key: Seq<char>) -> Option<Seq<char>>
    decreases entries.len(),
{
    if entries.len() == 0 {
        None
    } else if entries[0].0 == key {
        Some(entries[0].1)
    } else {
        dict_get(entries.drop_first(), key)
    }
}

impl View for ActionDict {
    type V = Seq<(Seq<char>, Seq<char>)>;

    closed spec fn view(&self) -> Seq<(Seq<char>, Seq<char>)> {
        pairs_view(self.entries@)
    }
}

proof fn lemma_dict_get(entries: Seq<(Seq<char>, Seq<char>)>, key: Seq<char>, i: int)
    requires
        0 <= i <= entries.len(),
        forall|j: int| 0 <= j < i ==> (#[trigger] entries[j]).0 != key,
    ensures
        i < entries.len() && entries[i].0 == key ==> dict_get(entries, key) == Some(entries[i].1),
        i == entries.len() ==> dict_get(entries, key) is None,
    decreases i,
{
    if i > 0 {
        assert(entries[0].0 != key);
        assert forall|j: int| 0 <= j < i - 1 implies (#[trigger] entries.drop_first()[j]).0 != key by {
            assert(entries.drop_first()[j] == entries[j + 1]);
        }
        lemma_dict_get(entries.drop_first(), key, i - 1);
    }
}

impl ActionDict {
    fn new() -> (r: Self)
        ensures
            r@ == Seq::<(Seq<char>, Seq<char>)>::empty(),
    {
        let r = ActionDict { entries: Vec::new() };
        proof {
            assert(r@ =~= Seq::<(Seq<char>, Seq<char>)>::empty());
        }
        r
    }

    fn insert(&mut self, key: &str, value: String)
        ensures
            final(self)@ == old(self)@.push((key@, value@)),
    {
        let k = String::from_str(key);
        self.entries.push((k, value));
        proof {
            assert(self@ =~= old(self)@.push((key@, value@)));
        }
    }

    /// The value under `key`, if any.
    pub fn get(&self, key: &str) -> (r: Option<&String>)
        ensures
            match r {
                Some(v) => dict_get(self@, key@) == Some(v@),
                None => dict_get(self@, key@) is None,
            },
    {
        let mut i: usize = 0;
        while i < self.entries.len()
            invariant
                i <= self.entries@.len(),
                forall|j: int| 0 <= j < i ==> (#[trigger] self@[j]).0 != key@,
            decreases self.entries@.len() - i,
        {
            let e = &self.entries[i];
            if crate::card::str_eq(e.0.as_str(), key) {
                proof {
                    lemma_dict_get(self@, key@, i as int);
                }
                return Some(&e.1);
            }
            i = i + 1;
        }
        proof {
            lemma_dict_get(self@, key@, i as int);
        }
        None
    }

    /// The number of entries.
    pub fn len(&self) -> (r: usize)
        ensures
            r == self@.len(),
    {
        self.entries.len()
    }

    /// The entries in insertion order.
    pub fn entries(&self) -> (r: &[(String, String)])
        ensures
            pairs_view(r@) == self@,
    {
        self.entries.as_slice()
    }
}

/// Decimal texts of the identifiers, separated by commas.
pub open spec fn spec_join_ids(ids: Seq<CardInstanceId>) -> Seq<char>
    decreases ids.len(),
{
    if ids.len() == 0 {
        Seq::empty()
    } else if ids.len() == 1 {
        spec_decimal(ids[0].0 as nat)
    } else {
        spec_join_ids(ids.drop_last()) + ","@ + spec_decimal(ids.last().0 as nat)
    }
}

/// The text of a boolean.
pub open spec fn bool_text(b: bool) -> Seq<char> {
    if b {
        "true"@
    } else {
        "false"@
    }
}

/// The dictionary of an action: its type, then its fields as text.
pub open spec fn spec_action_dict(a: Action) -> Seq<(Seq<char>, Seq<char>)> {
    match a {
        Action::EndTurn => seq![("type"@, "EndTurn"@)],
        Action::Pass => seq![("type"@, "Pass"@)],
        Action::MulliganDraw { draw } => seq![("type"@, "MulliganDraw"@), ("draw"@, bool_text(draw))],
        Action::SetupChooseActive { card } => seq![("type"@, "SetupChooseActive"@), ("card_id"@, spec_decimal(card.0 as nat))],
        Action::SetupBenchBasics { cards } => seq![
            ("type"@, "SetupBenchBasics"@),
            ("card_ids"@, "["@ + spec_join_ids(cards@) + "]"@),
        ],
        Action::PlayBasicToBench { card } => seq![("type"@, "PlayBasicToBench"@), ("card_id"@, spec_decimal(card.0 as nat))],
        Action::Evolve { card, target } => seq![
            ("type"@, "Evolve"@),
            ("card_id"@, spec_decimal(card.0 as nat)),
            ("target"@, spec_format_slot_ref(target)),
        ],
        Action::AttachEnergy { card, target } => seq![
            ("type"@, "AttachEnergy"@),
            ("card_id"@, spec_decimal(card.0 as nat)),
            ("target"@, spec_format_slot_ref(target)),
        ],
        Action::AttachTool { card, target } => seq![
            ("type"@, "AttachTool"@),
            ("card_id"@, spec_decimal(card.0 as nat)),
            ("target"@, spec_format_slot_ref(target)),
        ],
        Action::PlayTrainer { card, .. } => seq![("type"@, "PlayTrainer"@), ("card_id"@, spec_decimal(card.0 as nat))],
        Action::PlayStadium { card, .. } => seq![("type"@, "PlayStadium"@), ("card_id"@, spec_decimal(card.0 as nat))],
        Action::UseAbility { source, ability_index, .. } => seq![
            ("type"@, "UseAbility"@),
            ("source"@, spec_format_slot_ref(source)),
            ("ability_index"@, spec_decimal(ability_index as nat)),
        ],
        Action::Retreat { target, discard } => seq![
            ("type"@, "Retreat"@),
            ("target"@, spec_format_slot_ref(target)),
            ("discard_count"@, spec_decimal(discard@.len())),
        ],
        Action::Attack { attack_index, .. } => seq![("type"@, "Attack"@), ("attack_index"@, spec_decimal(attack_index as nat))],
    }
}

fn text(t: &str) -> (r: String)
    ensures
        r@ == t@,
{
    String::from_str(t)
}

fn decimal_text(n: u64) -> (r: String)
    ensures
        r@ == spec_decimal(n as nat),
{
    crate::text::decimal(n)
}

fn join_ids(ids: &Vec<CardInstanceId>) -> (r: String)
    ensures
        r@ == spec_join_ids(ids@),
{
    let mut s = String::new();
    let mut i: usize = 0;
    while i < ids.len()
        invariant
            i <= ids@.len(),
            s@ == spec_join_ids(ids@.take(i as int)),
        decreases ids@.len() - i,
    {
        proof {
            assert(ids@.take(i + 1).drop_last() =~= ids@.take(i as int));
            reveal_strlit(",");
        }
        if i > 0 {
            s.append(",");
        }
        push_decimal(&mut s, ids[i].0 as u64);
        proof {
            if i == 0 {
                assert(s@ =~= spec_join_ids(ids@.take(1)));
            } else {
                assert(s@ =~= spec_join_ids(ids@.take(i + 1)));
            }
        }
        i = i + 1;
    }
    proof {
        assert(ids@.take(i as int) =~= ids@);
    }
    s
}

impl ActionCodec {
    /// The dictionary of an action: its type, then its fields as text.
    pub fn action_to_dict(&self, action: &Action) -> (r: ActionDict)
        ensures
            r@ == spec_action_dict(*action),
    {
        proof {
            reveal_strlit("true");
            reveal_strlit("false");
        }
        let mut d = ActionDict::new();
        match action {
            Action::EndTurn => {
                d.insert("type", text("EndTurn"));
            },
            Action::Pass => {
                d.insert("type", text("Pass"));
            },
            Action::MulliganDraw { draw } => {
                d.insert("type", text("MulliganDraw"));
                d.insert("draw", if *draw { text("true") } else { text("false") });
            },
            Action::SetupChooseActive { card } => {
                d.insert("type", text("SetupChooseActive"));
                d.insert("card_id", decimal_text(card.0 as u64));
            },
            Action::SetupBenchBasics { cards } => {
                d.insert("type", text("SetupBenchBasics"));
                let mut s = text("[");
                let j = join_ids(cards);
                s.append(j.as_str());
                s.append("]");
                d.insert("card_ids", s);
            },
            Action::PlayBasicToBench { card } => {
                d.insert("type", text("PlayBasicToBench"));
                d.insert("card_id", decimal_text(card.0 as u64));
            },
            Action::Evolve { card, target } => {
                d.insert("type", text("Evolve"));
                d.insert("card_id", decimal_text(card.0 as u64));
                d.insert("target", format_slot_ref(target));
            },
            Action::AttachEnergy { card, target } => {
                d.insert("type", text("AttachEnergy"));
                d.insert("card_id", decimal_text(card.0 as u64));
                d.insert("target", format_slot_ref(target));
            },
            Action::AttachTool { card, target } => {
                d.insert("type", text("AttachTool"));
                d.insert("card_id", decimal_text(card.0 as u64));
                d.insert("target", format_slot_ref(target));
            },
            Action::PlayTrainer { card, .. } => {
                d.insert("type", text("PlayTrainer"));
                d.insert("card_id", decimal_text(card.0 as u64));
            },
            Action::PlayStadium { card, .. } => {
                d.insert("type", text("PlayStadium"));
                d.insert("card_id", decimal_text(card.0 as u64));
            },
            Action::UseAbility { source, ability_index, .. } => {
                d.insert("type", text("UseAbility"));
                d.insert("source", format_slot_ref(source));
                d.insert("ability_index", decimal_text(*ability_index as u64));
            },
            Action::Retreat { target, discard } => {
                d.insert("type", text("Retreat"));
                d.insert("target", format_slot_ref(target));
                d.insert("discard_count", decimal_text(discard.len() as u64));
            },
            Action::Attack { attack_index, .. } => {
                d.insert("type", text("Attack"));
                d.insert("attack_index", decimal_text(*attack_index as u64));
            },
        }
        proof {
            assert(d@ =~= spec_action_dict(*action));
        }
        d
    }
}

} // verus!
