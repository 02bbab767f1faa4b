//! Deck definitions: building, validating and expanding decks.

use vstd::prelude::*;
use vstd::string::StringExecFns;

use crate::card::{find_def, CardDef, CardDefId, CardRegistry, Stage};
use crate::text::{push_decimal, push_str, spec_decimal};

pub mod templates;

verus! {

/// A card definition in a deck with its number of copies.
#[derive(Debug, Clone)]
pub struct DeckCard {
    pub card_id: CardDefId,
    pub count: u8,
}

/// A deck: its name, identifier, cards and number of cards.
#[derive(Debug, Clone)]
pub struct Deck {
    pub name: String,
    pub deck_id: u32,
    pub cards: Vec<DeckCard>,
    pub total_cards: usize,
}

/// Sum of the copy counts of `cards`.
pub open spec fn sum_counts(cards: Seq<DeckCard>) -> nat
    decreases cards.len(),
{
    if cards.len() == 0 {
        0
    } else {
        sum_counts(cards.drop_last()) + cards.last().count as nat
    }
}

/// A card counted as energy (`energy`) or as a Basic Pokemon (otherwise).
pub open spec fn counted(d: CardDef, energy: bool) -> bool {
    if energy {
        counts_as_energy(d)
    } else {
        counts_as_basic(d)
    }
}

/// Sum of the copy counts of the entries of `cards` whose definition in
/// `defs` is counted as energy (`energy`) or as a Basic Pokemon.
pub open spec fn sum_counts_where(defs: Seq<CardDef>, cards: Seq<DeckCard>, energy: bool) -> nat
    decreases cards.len(),
{
    if cards.len() == 0 {
        0
    } else {
        let c = cards.last();
        sum_counts_where(defs, cards.drop_last(), energy) + match find_def(defs, c.card_id.0@) {
            Some(d) => if counted(d, energy) {
                c.count as nat
            } else {
                0
            },
            None => 0,
        }
    }
}

/// Index of the first entry of `cards` that `defs` does not define.
pub open spec fn first_unknown(defs: Seq<CardDef>, cards: Seq<DeckCard>) -> Option<int>
    decreases cards.len(),
{
    if cards.len() == 0 {
        None
    } else {
        match first_unknown(defs, cards.drop_last()) {
            Some(i) => Some(i),
            None => if find_def(defs, cards.last().card_id.0@) is None {
                Some(cards.len() - 1)
            } else {
                None
            },
        }
    }
}

/// A card that counts as energy in a deck.
pub open spec fn counts_as_energy(d: CardDef) -> bool {
    d.card_type == crate::card::CardType::BasicEnergy
}

/// A card that counts as a Basic Pokemon in a deck.
pub open spec fn counts_as_basic(d: CardDef) -> bool {
    d.spec_is_pokemon() && d.stage == Some(Stage::Basic)
}

/// Why a deck is not legal.
#[derive(Debug)]
pub enum DeckError {
    InvalidSize { expected: usize, actual: usize },
    UnknownCard(CardDefId),
    NoBasicPokemon,
    NoEnergy,
    UnsupportedCard(CardDefId),
}

/// The verdict on deck `d` against the definitions `defs`.
pub open spec fn spec_validate(d: Deck, defs: Seq<CardDef>) -> Result<(), DeckError> {
    if d.total_cards != 60 {
        Err(DeckError::InvalidSize { expected: 60, actual: d.total_cards })
    } else {
        match first_unknown(defs, d.cards@) {
            Some(i) => Err(DeckError::UnknownCard(d.cards@[i].card_id)),
            None => if sum_counts_where(defs, d.cards@, false) < 1 {
                Err(DeckError::NoBasicPokemon)
            } else if sum_counts_where(defs, d.cards@, true) < 1 {
                Err(DeckError::NoEnergy)
            } else {
                Ok(())
            },
        }
    }
}

/// The definition identifiers of `cards`, each repeated as many times as its
/// count, in order.
pub open spec fn spec_expand(cards: Seq<DeckCard>) -> Seq<CardDefId>
    decreases cards.len(),
{
    if cards.len() == 0 {
        Seq::empty()
    } else {
        spec_expand(cards.drop_last()) + Seq::new(cards.last().count as nat, |i: int| cards.last().card_id)
    }
}

/// The deck list as pairs of card identifier and count.
pub open spec fn deck_list(cards: Seq<DeckCard>) -> Seq<(Seq<char>, u8)> {
    cards.map_values(|c: DeckCard| (c.card_id.0@, c.count))
}

/// Expanding a deck list gives one identifier per counted card.
pub proof fn lemma_expand_len(cards: Seq<DeckCard>)
    ensures
        spec_expand(cards).len() == sum_counts(cards),
    decreases cards.len(),
{
    if cards.len() > 0 {
        lemma_expand_len(cards.drop_last());
    }
}

proof fn lemma_sum_where_le(defs: Seq<CardDef>, cards: Seq<DeckCard>, energy: bool)
    ensures
        sum_counts_where(defs, cards, energy) <= sum_counts(cards),
    decreases cards.len(),
{
    if cards.len() > 0 {
        lemma_sum_where_le(defs, cards.drop_last(), energy);
    }
}

proof fn lemma_sum_prefix(cards: Seq<DeckCard>, k: int)
    requires
        0 <= k <= cards.len(),
    ensures
        sum_counts(cards.take(k)) <= sum_counts(cards),
    decreases cards.len(),
{
    if k < cards.len() {
        assert(cards.drop_last().take(k) =~= cards.take(k));
        lemma_sum_prefix(cards.drop_last(), k);
    } else {
        assert(cards.take(k) =~= cards);
    }
}

impl Deck {
    /// The deck's card count matches its entries.
    pub open spec fn wf(&self) -> bool {
        self.total_cards == sum_counts(self.cards@)
    }

    /// An empty deck.
    pub fn new(name: String, deck_id: u32) -> (r: Self)
        ensures
            r.name@ == name@,
            r.deck_id == deck_id,
            r.cards@.len() == 0,
            r.total_cards == 0,
            r.wf(),
    {
        Deck { name, deck_id, cards: Vec::new(), total_cards: 0 }
    }

    /// Add `count` copies of a card.
    pub fn add_card(&mut self, card_id: CardDefId, count: u8)
        requires
            old(self).total_cards + count <= usize::MAX,
        ensures
            final(self).name@ == old(self).name@,
            final(self).deck_id == old(self).deck_id,
            final(self).cards@ == old(self).cards@.push(DeckCard { card_id, count }),
            final(self).total_cards == old(self).total_cards + count,
            old(self).wf() ==> final(self).wf(),
    {
        let ghost c0 = self.cards@;
        self.cards.push(DeckCard { card_id, count });
        self.total_cards = self.total_cards + count as usize;
        proof {
            assert(self.cards@.drop_last() =~= c0);
        }
    }

    /// Check the deck against the registry: 60 cards, every card known, at
    /// least one Basic Pokemon and one basic Energy.
    pub fn validate(&self, registry: &CardRegistry) -> (r: Result<(), DeckError>)
        requires
            sum_counts(self.cards@) <= usize::MAX,
        ensures
            r == spec_validate(*self, registry@),
    {
        if self.total_cards != 60 {
            return Err(DeckError::InvalidSize { expected: 60, actual: self.total_cards });
        }
        let ghost defs = registry@;
        let mut energy_count: usize = 0;
        let mut basic_pokemon_count: usize = 0;
        let mut i: usize = 0;
        while i < self.cards.len()
            invariant
                i <= self.cards@.len(),
                defs == registry@,
                self.total_cards == 60,
                sum_counts(self.cards@) <= usize::MAX,
                first_unknown(defs, self.cards@.take(i as int)) is None,
                basic_pokemon_count == sum_counts_where(defs, self.cards@.take(i as int), false),
                energy_count == sum_counts_where(defs, self.cards@.take(i as int), true),
            decreases self.cards@.len() - i,
        {
            let deck_card = &self.cards[i];
            proof {
                assert(self.cards@.take(i + 1).drop_last() =~= self.cards@.take(i as int));
                assert(self.cards@.take(i + 1).last() == *deck_card);
                lemma_sum_where_le(defs, self.cards@.take(i + 1), false);
                lemma_sum_where_le(defs, self.cards@.take(i + 1), true);
                lemma_sum_prefix(self.cards@, i + 1);
            }
            match registry.get(&deck_card.card_id) {
                None => {
                    proof {
                        lemma_first_unknown_at(defs, self.cards@, i as int);
                        assert(spec_validate(*self, registry@) == Err::<(), DeckError>(
                            DeckError::UnknownCard(self.cards@[i as int].card_id),
                        ));
                    }
                    return Err(DeckError::UnknownCard(deck_card.card_id.clone()));
                },
                Some(card_def) => {
                    if card_def.is_basic_energy() {
                        energy_count = energy_count + deck_card.count as usize;
                    }
                    if card_def.is_pokemon() && card_def.stage == Some(Stage::Basic) {
                        basic_pokemon_count = basic_pokemon_count + deck_card.count as usize;
                    }
                },
            }
            i = i + 1;
        }
        proof {
            assert(self.cards@.take(i as int) =~= self.cards@);
        }
        if basic_pokemon_count < 1 {
            return Err(DeckError::NoBasicPokemon);
        }
        if energy_count < 1 {
            return Err(DeckError::NoEnergy);
        }
        Ok(())
    }

    /// One definition identifier per card, in deck order.
    pub fn expand(&self) -> (r: Vec<CardDefId>)
        ensures
            r@ == spec_expand(self.cards@),
    {
        let mut cards: Vec<CardDefId> = Vec::new();
        let mut i: usize = 0;
        while i < self.cards.len()
            invariant
                i <= self.cards@.len(),
                cards@ == spec_expand(self.cards@.take(i as int)),
            decreases self.cards@.len() - i,
        {
            let deck_card = &self.cards[i];
            let ghost before = cards@;
            proof {
                assert(self.cards@.take(i + 1).drop_last() =~= self.cards@.take(i as int));
            }
            let mut k: u8 = 0;
            while k < deck_card.count
                invariant
                    k <= deck_card.count,
                    cards@ == before + Seq::new(k as nat, |j: int| deck_card.card_id),
                decreases deck_card.count - k,
            {
                cards.push(deck_card.card_id.clone());
                proof {
                    assert(before + Seq::new((k + 1) as nat, |j: int| deck_card.card_id) =~= (before + Seq::new(
                        k as nat,
                        |j: int| deck_card.card_id,
                    )).push(deck_card.card_id));
                }
                k = k + 1;
            }
            i = i + 1;
        }
        proof {
            assert(self.cards@.take(i as int) =~= self.cards@);
        }
        cards
    }

    /// A description of the deck: a header line, the card count, then one
    /// line per entry.
    pub fn describe(&self) -> (r: String)
        ensures
            r@ == spec_deck_text(self),
    {
        let mut s = String::new();
        push_str(&mut s, "Deck: ");
        s.append(self.name.as_str());
        push_str(&mut s, " (ID: ");
        push_decimal(&mut s, self.deck_id as u64);
        push_str(&mut s, ")\nTotal cards: ");
        push_decimal(&mut s, self.total_cards as u64);
        push_str(&mut s, "\n");
        let ghost head = s@;
        proof {
            assert(head =~= deck_header(self));
            assert(self.cards@.take(0) =~= Seq::<DeckCard>::empty());
        }
        let mut i: usize = 0;
        while i < self.cards.len()
            invariant
                i <= self.cards@.len(),
                s@ == head + entry_lines(self.cards@.take(i as int)),
            decreases self.cards@.len() - i,
        {
            let ghost before = s@;
            push_str(&mut s, "  ");
            s.append(self.cards[i].card_id.0.as_str());
            push_str(&mut s, " x");
            push_decimal(&mut s, self.cards[i].count as u64);
            push_str(&mut s, "\n");
            proof {
                let t = self.cards@.take(i + 1);
                assert(t.drop_last() =~= self.cards@.take(i as int));
                assert(s@ =~= before + entry_line(self.cards@[i as int]));
            }
            i = i + 1;
        }
        proof {
            assert(self.cards@.take(i as int) =~= self.cards@);
        }
        s
    }
}

/// The first two lines of a deck's description.
pub open spec fn deck_header(d: &Deck) -> Seq<char> {
    "Deck: "@ + d.name@ + " (ID: "@ + spec_decimal(d.deck_id as nat) + ")\nTotal cards: "@ + spec_decimal(
        d.total_cards as nat,
    ) + "\n"@
}

/// The description line of one entry: `  <card id> x<count>`.
pub open spec fn entry_line(c: DeckCard) -> Seq<char> {
    "  "@ + c.card_id.0@ + " x"@ + spec_decimal(c.count as nat) + "\n"@
}

/// The description lines of `cards`, in order.
pub open spec fn entry_lines(cards: Seq<DeckCard>) -> Seq<char>
    decreases cards.len(),
{
    if cards.len() == 0 {
        Seq::empty()
    } else {
        entry_lines(cards.drop_last()) + entry_line(cards.last())
    }
}

/// The description of a deck: `Deck: <name> (ID: <id>)`, `Total cards: <n>`,
/// then one line per entry.
pub open spec fn spec_deck_text(d: &Deck) -> Seq<char> {
    deck_header(d) + entry_lines(d.cards@)
}

proof fn lemma_first_unknown_at(defs: Seq<CardDef>, cards: Seq<DeckCard>, i: int)
    requires
        0 <= i < cards.len(),
        first_unknown(defs, cards.take(i)) is None,
        find_def(defs, cards[i].card_id.0@) is None,
    ensures
        first_unknown(defs, cards) == Some(i),
    decreases cards.len(),
{
    if i < cards.len() - 1 {
        assert(cards.drop_last().take(i) =~= cards.take(i));
        lemma_first_unknown_at(defs, cards.drop_last(), i);
    } else {
        assert(cards.drop_last() =~= cards.take(i));
    }
}

impl DeckError {
    /// The text of the error.
    pub open spec fn spec_message(&self) -> Seq<char> {
        match self {
            DeckError::InvalidSize { expected, actual } => "Invalid deck size: expected "@ + spec_decimal(
                *expected as nat,
            ) + ", got "@ + spec_decimal(*actual as nat),
            DeckError::UnknownCard(id) => "Unknown card: "@ + id.0@,
            DeckError::NoBasicPokemon => "Deck must contain at least one Basic Pokemon"@,
            DeckError::NoEnergy => "Deck must contain at least one Energy card"@,
            DeckError::UnsupportedCard(id) => "Unsupported card in training mode: "@ + id.0@,
        }
    }

    /// The text of the error.
    pub fn message(&self) -> (r: String)
        ensures
            r@ == self.spec_message(),
    {
        let mut s = String::new();
        match self {
            DeckError::InvalidSize { expected, actual } => {
                push_str(&mut s, "Invalid deck size: expected ");
                push_decimal(&mut s, *expected as u64);
                push_str(&mut s, ", got ");
                push_decimal(&mut s, *actual as u64);
            },
            DeckError::UnknownCard(id) => {
                push_str(&mut s, "Unknown card: ");
                s.append(id.0.as_str());
            },
            DeckError::NoBasicPokemon => {
                push_str(&mut s, "Deck must contain at least one Basic Pokemon");
            },
            DeckError::NoEnergy => {
                push_str(&mut s, "Deck must contain at least one Energy card");
            },
            DeckError::UnsupportedCard(id) => {
                push_str(&mut s, "Unsupported card in training mode: ");
                s.append(id.0.as_str());
            },
        }
        proof {
            assert(s@ =~= self.spec_message());
        }
        s
    }
}

/// Who goes first.
#[derive(Debug, Clone, Copy, PartialEq, Eq, Structural)]
pub enum StartingPlayer {
    Random,
    Player,
    Opponent,
}

/// Configuration of a match: both decks, both names, who starts.
#[derive(Debug, Clone)]
pub struct MatchConfig {
    pub player_deck: Deck,
    pub opponent_deck: Deck,
    pub player_name: String,
    pub opponent_name: String,
    pub starting_player: StartingPlayer,
}

impl Default for MatchConfig {
    /// The Miraidon deck against the Charizard Pidgeot deck, starting player
    /// drawn at random.
    fn default() -> (r: Self)
        ensures
            r.player_deck.name@ == "Miraidon"@,
            r.opponent_deck.name@ == "Charizard Pidgeot"@,
            r.player_name@ == "Player"@,
            r.opponent_name@ == "Opponent"@,
            r.starting_player == StartingPlayer::Random,
            r.player_deck.wf() && r.player_deck.total_cards == 60,
            r.opponent_deck.wf() && r.opponent_deck.total_cards == 60,
    {
        MatchConfig {
            player_deck: templates::miraidon_deck(),
            opponent_deck: templates::charizard_pidgeot_deck(),
            player_name: String::from_str("Player"),
            opponent_name: String::from_str("Opponent"),
            starting_player: StartingPlayer::Random,
        }
    }
}

} // verus!
