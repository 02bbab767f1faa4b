//! Actions a player can take.

use vstd::prelude::*;

use crate::state::{CardInstanceId, PlayerId, SlotRef};
use crate::text::{push_decimal, push_str, spec_decimal};

verus! {

/// Action of a player.
#[derive(Debug, Clone)]
pub enum Action {
    SetupChooseActive { card: CardInstanceId },
    SetupBenchBasics { cards: Vec<CardInstanceId> },
    MulliganDraw { draw: bool },
    PlayBasicToBench { card: CardInstanceId },
    Evolve { card: CardInstanceId, target: SlotRef },
    AttachEnergy { card: CardInstanceId, target: SlotRef },
    AttachTool { card: CardInstanceId, target: SlotRef },
    PlayTrainer { card: CardInstanceId, choices: Choices },
    PlayStadium { card: CardInstanceId, choices: Choices },
    UseAbility { source: SlotRef, ability_index: u8, choices: Choices },
    Retreat { target: SlotRef, discard: Vec<CardInstanceId> },
    Attack { attack_index: u8, choices: Choices },
    EndTurn,
    Pass,
}

/// Choices that go with an action.
#[derive(Debug, Clone)]
pub struct Choices {
    pub selected_cards: Vec<CardInstanceId>,
    pub selected_slots: Vec<SlotRef>,
    pub selected_count: Option<usize>,
    pub mode: Option<u8>,
}

impl Default for Choices {
    fn default() -> (r: Self)
        ensures
            r.selected_cards@.len() == 0,
            r.selected_slots@.len() == 0,
            r.selected_count is None,
            r.mode is None,
    {
        Choices::new()
    }
}

impl Choices {
    pub fn new() -> (r: Self)
        ensures
            r.selected_cards@.len() == 0,
            r.selected_slots@.len() == 0,
            r.selected_count is None,
            r.mode is None,
    {
        Choices { selected_cards: Vec::new(), selected_slots: Vec::new(), selected_count: None, mode: None }
    }

    pub fn with_cards(self, cards: Vec<CardInstanceId>) -> (r: Self)
        ensures
            r == (Choices { selected_cards: cards, ..self }),
    {
        let mut c = self;
        c.selected_cards = cards;
        c
    }

    pub fn with_slots(self, slots: Vec<SlotRef>) -> (r: Self)
        ensures
            r == (Choices { selected_slots: slots, ..self }),
    {
        let mut c = self;
        c.selected_slots = slots;
        c
    }

    pub fn with_count(self, count: usize) -> (r: Self)
        ensures
            r == (Choices { selected_count: Some(count), ..self }),
    {
        let mut c = self;
        c.selected_count = Some(count);
        c
    }

    pub fn with_mode(self, mode: u8) -> (r: Self)
        ensures
            r == (Choices { mode: Some(mode), ..self }),
    {
        let mut c = self;
        c.mode = Some(mode);
        c
    }
}

/// An action as recorded in the game log.
#[derive(Debug, Clone)]
pub struct LoggedAction {
    pub turn: u16,
    pub player: PlayerId,
    pub action: Action,
    pub resulting_state_hash: u64,
}

impl LoggedAction {
    pub fn new(turn: u16, player: PlayerId, action: Action, state_hash: u64) -> (r: Self)
        ensures
            r == (LoggedAction { turn, player, action, resulting_state_hash: state_hash }),
    {
        LoggedAction { turn, player, action, resulting_state_hash: state_hash }
    }
}

/// Index of an attack of a Pokemon.
#[derive(Debug, Clone, Copy, PartialEq, Eq, Structural)]
pub struct AttackIndex(pub u8);

impl AttackIndex {
    pub fn new(index: u8) -> (r: Self)
        ensures
            r.0 == index,
    {
        AttackIndex(index)
    }
}

/// The debug text of a slot: `Active` or `Bench(i)`.
pub open spec fn slot_debug(s: SlotRef) -> Seq<char> {
    match s {
        SlotRef::Active => "Active"@,
        SlotRef::Bench(i) => "Bench("@ + spec_decimal(i as nat) + ")"@,
    }
}

/// The comma-separated debug texts of `ids` (`CardInstanceId(n)` each).
pub open spec fn ids_debug(ids: Seq<CardInstanceId>) -> Seq<char>
    decreases ids.len(),
{
    if ids.len() == 0 {
        Seq::empty()
    } else if ids.len() == 1 {
        "CardInstanceId("@ + spec_decimal(ids[0].0 as nat) + ")"@
    } else {
        ids_debug(ids.drop_last()) + ", "@ + "CardInstanceId("@ + spec_decimal(ids.last().0 as nat) + ")"@
    }
}

/// The comma-separated debug texts of `slots`.
pub open spec fn slots_debug(slots: Seq<SlotRef>) -> Seq<char>
    decreases slots.len(),
{
    if slots.len() == 0 {
        Seq::empty()
    } else if slots.len() == 1 {
        slot_debug(slots[0])
    } else {
        slots_debug(slots.drop_last()) + ", "@ + slot_debug(slots.last())
    }
}

/// The debug text of an optional number.
pub open spec fn opt_debug(o: Option<nat>) -> Seq<char> {
    match o {
        Some(n) => "Some("@ + spec_decimal(n) + ")"@,
        None => "None"@,
    }
}

/// The debug text of choices.
pub open spec fn choices_debug(c: Choices) -> Seq<char> {
    "Choices { selected_cards: ["@ + ids_debug(c.selected_cards@) + "], selected_slots: ["@ + slots_debug(
        c.selected_slots@,
    ) + "], selected_count: "@ + opt_debug(
        match c.selected_count {
            Some(n) => Some(n as nat),
            None => None,
        },
    ) + ", mode: "@ + opt_debug(
        match c.mode {
            Some(n) => Some(n as nat),
            None => None,
        },
    ) + " }"@
}

/// The text of a card instance: `CardInstance(n)`.
pub open spec fn card_text(c: CardInstanceId) -> Seq<char> {
    "CardInstance("@ + spec_decimal(c.0 as nat) + ")"@
}

/// The text of an action: its variant and its fields.
pub open spec fn spec_action_text(a: Action) -> Seq<char> {
    match a {
        Action::SetupChooseActive { card } => "SetupChooseActive("@ + card_text(card) + ")"@,
        Action::SetupBenchBasics { cards } => "SetupBenchBasics("@ + spec_decimal(cards@.len()) + " cards)"@,
        Action::MulliganDraw { draw } => "MulliganDraw(draw="@ + (if draw {
            "true"@
        } else {
            "false"@
        }) + ")"@,
        Action::PlayBasicToBench { card } => "PlayBasicToBench("@ + card_text(card) + ")"@,
        Action::Evolve { card, target } => "Evolve("@ + card_text(card) + ", "@ + slot_debug(target) + ")"@,
        Action::AttachEnergy { card, target } => "AttachEnergy("@ + card_text(card) + ", "@ + slot_debug(target) + ")"@,
        Action::AttachTool { card, target } => "AttachTool("@ + card_text(card) + ", "@ + slot_debug(target) + ")"@,
        Action::PlayTrainer { card, choices } => "PlayTrainer("@ + card_text(card) + ", "@ + choices_debug(choices)
            + ")"@,
        Action::PlayStadium { card, .. } => "PlayStadium("@ + card_text(card) + ")"@,
        Action::UseAbility { source, ability_index, choices } => "UseAbility("@ + slot_debug(source) + ", "@
            + spec_decimal(ability_index as nat) + ", "@ + choices_debug(choices) + ")"@,
        Action::Retreat { target, discard } => "Retreat("@ + slot_debug(target) + ", "@ + spec_decimal(discard@.len())
            + " cards)"@,
        Action::Attack { attack_index, choices } => "Attack("@ + spec_decimal(attack_index as nat) + ", "@
            + choices_debug(choices) + ")"@,
        Action::EndTurn => "EndTurn"@,
        Action::Pass => "Pass"@,
    }
}

fn push_slot(s: &mut String, t: SlotRef)
    ensures
        final(s)@ == old(s)@ + slot_debug(t),
{
    match t {
        SlotRef::Active => {
            push_str(s, "Active");
        },
        SlotRef::Bench(i) => {
            push_str(s, "Bench(");
            push_decimal(s, i as u64);
            push_str(s, ")");
        },
    }
    proof {
        assert(s@ =~= old(s)@ + slot_debug(t));
    }
}

fn push_card(s: &mut String, c: CardInstanceId)
    ensures
        final(s)@ == old(s)@ + card_text(c),
{
    push_str(s, "CardInstance(");
    push_decimal(s, c.0 as u64);
    push_str(s, ")");
    proof {
        assert(s@ =~= old(s)@ + card_text(c));
    }
}

fn push_opt(s: &mut String, o: Option<u64>)
    ensures
        final(s)@ == old(s)@ + opt_debug(
            match o {
                Some(n) => Some(n as nat),
                None => None,
            },
        ),
{
    match o {
        Some(n) => {
            push_str(s, "Some(");
            push_decimal(s, n);
            push_str(s, ")");
        },
        None => {
            push_str(s, "None");
        },
    }
    proof {
        assert(s@ =~= old(s)@ + opt_debug(
            match o {
                Some(n) => Some(n as nat),
                None => None,
            },
        ));
    }
}

fn push_choices(s: &mut String, c: &Choices)
    ensures
        final(s)@ == old(s)@ + choices_debug(*c),
{
    push_str(s, "Choices { selected_cards: [");
    let mut i: usize = 0;
    let ghost s0 = s@;
    while i < c.selected_cards.len()
        invariant
            i <= c.selected_cards@.len(),
            s@ == s0 + ids_debug(c.selected_cards@.take(i as int)),
        decreases c.selected_cards@.len() - i,
    {
        proof {
            assert(c.selected_cards@.take(i + 1).drop_last() =~= c.selected_cards@.take(i as int));
        }
        if i > 0 {
            push_str(s, ", ");
        }
        push_str(s, "CardInstanceId(");
        push_decimal(s, c.selected_cards[i].0 as u64);
        push_str(s, ")");
        proof {
            assert(s@ =~= s0 + ids_debug(c.selected_cards@.take(i + 1)));
        }
        i = i + 1;
    }
    proof {
        assert(c.selected_cards@.take(i as int) =~= c.selected_cards@);
    }
    push_str(s, "], selected_slots: [");
    let ghost s1 = s@;
    let mut j: usize = 0;
    while j < c.selected_slots.len()
        invariant
            j <= c.selected_slots@.len(),
            s@ == s1 + slots_debug(c.selected_slots@.take(j as int)),
        decreases c.selected_slots@.len() - j,
    {
        proof {
            assert(c.selected_slots@.take(j + 1).drop_last() =~= c.selected_slots@.take(j as int));
        }
        if j > 0 {
            push_str(s, ", ");
        }
        push_slot(s, c.selected_slots[j]);
        proof {
            assert(s@ =~= s1 + slots_debug(c.selected_slots@.take(j + 1)));
        }
        j = j + 1;
    }
    proof {
        assert(c.selected_slots@.take(j as int) =~= c.selected_slots@);
    }
    push_str(s, "], selected_count: ");
    push_opt(
        s,
        match c.selected_count {
            Some(n) => Some(n as u64),
            None => None,
        },
    );
    push_str(s, ", mode: ");
    push_opt(
        s,
        match c.mode {
            Some(n) => Some(n as u64),
            None => None,
        },
    );
    push_str(s, " }");
    proof {
        assert(s@ =~= old(s)@ + choices_debug(*c));
    }
}

impl Action {
    /// The text of the action: its variant and its fields.
    pub fn to_string(&self) -> (r: String)
        ensures
            r@ == spec_action_text(*self),
    {
        let mut s = String::new();
        match self {
            Action::SetupChooseActive { card } => {
                push_str(&mut s, "SetupChooseActive(");
                push_card(&mut s, *card);
                push_str(&mut s, ")");
            },
            Action::SetupBenchBasics { cards } => {
                push_str(&mut s, "SetupBenchBasics(");
                push_decimal(&mut s, cards.len() as u64);
                push_str(&mut s, " cards)");
            },
            Action::MulliganDraw { draw } => {
                push_str(&mut s, "MulliganDraw(draw=");
                if *draw {
                    push_str(&mut s, "true");
                } else {
                    push_str(&mut s, "false");
                }
                push_str(&mut s, ")");
            },
            Action::PlayBasicToBench { card } => {
                push_str(&mut s, "PlayBasicToBench(");
                push_card(&mut s, *card);
                push_str(&mut s, ")");
            },
            Action::Evolve { card, target } => {
                push_str(&mut s, "Evolve(");
                push_card(&mut s, *card);
                push_str(&mut s, ", ");
                push_slot(&mut s, *target);
                push_str(&mut s, ")");
            },
            Action::AttachEnergy { card, target } => {
                push_str(&mut s, "AttachEnergy(");
                push_card(&mut s, *card);
                push_str(&mut s, ", ");
                push_slot(&mut s, *target);
                push_str(&mut s, ")");
            },
            Action::AttachTool { card, target } => {
                push_str(&mut s, "AttachTool(");
                push_card(&mut s, *card);
                push_str(&mut s, ", ");
                push_slot(&mut s, *target);
                push_str(&mut s, ")");
            },
            Action::PlayTrainer { card, choices } => {
                push_str(&mut s, "PlayTrainer(");
                push_card(&mut s, *card);
                push_str(&mut s, ", ");
                push_choices(&mut s, choices);
                push_str(&mut s, ")");
            },
            Action::PlayStadium { card, .. } => {
                push_str(&mut s, "PlayStadium(");
                push_card(&mut s, *card);
                push_str(&mut s, ")");
            },
            Action::UseAbility { source, ability_index, choices } => {
                push_str(&mut s, "UseAbility(");
                push_slot(&mut s, *source);
                push_str(&mut s, ", ");
                push_decimal(&mut s, *ability_index as u64);
                push_str(&mut s, ", ");
                push_choices(&mut s, choices);
                push_str(&mut s, ")");
            },
            Action::Retreat { target, discard } => {
                push_str(&mut s, "Retreat(");
                push_slot(&mut s, *target);
                push_str(&mut s, ", ");
                push_decimal(&mut s, discard.len() as u64);
                push_str(&mut s, " cards)");
            },
            Action::Attack { attack_index, choices } => {
                push_str(&mut s, "Attack(");
                push_decimal(&mut s, *attack_index as u64);
                push_str(&mut s, ", ");
                push_choices(&mut s, choices);
                push_str(&mut s, ")");
            },
            Action::EndTurn => {
                push_str(&mut s, "EndTurn");
            },
            Action::Pass => {
                push_str(&mut s, "Pass");
            },
        }
        proof {
            assert(s@ =~= spec_action_text(*self));
        }
        s
    }
}

impl AttackIndex {
    /// The text of the index: `Attack` and the number.
    pub fn to_string(&self) -> (r: String)
        ensures
            r@ == "Attack"@ + spec_decimal(self.0 as nat),
    {
        let mut s = String::new();
        push_str(&mut s, "Attack");
        push_decimal(&mut s, self.0 as u64);
        s
    }
}

} // verus!
