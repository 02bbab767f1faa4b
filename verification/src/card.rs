//! Card definitions, the card registry and the rules that read card data.

use vstd::prelude::*;
use vstd::string::StringExecFns;
use vstd::std_specs::iter::IteratorSpec;

pub mod presets;

verus! {

/// Identifier of a card definition: the set code and the index in the set,
/// joined by an underscore (for example `CSV1C_050`).
#[derive(Debug)]
pub struct CardDefId(pub String);

impl Clone for CardDefId {
    fn clone(&self) -> (r: Self)
        ensures
            r == *self,
    {
        CardDefId(self.0.clone())
    }
}

impl CardDefId {
    pub fn new(set_code: &str, index: &str) -> (r: Self)
        ensures
            r.0@ == set_code@ + seq!['_'] + index@,
    {
        let mut s = String::from_str(set_code);
        s.append("_");
        proof {
            reveal_strlit("_");
        }
        s.append(index);
        CardDefId(s)
    }

    /// The text of the identifier.
    pub fn as_str(&self) -> (r: &str)
        ensures
            r@ == self.0@,
    {
        self.0.as_str()
    }
}

/// Kind of a card.
#[derive(Debug, Clone, Copy, PartialEq, Eq, Structural)]
pub enum CardType {
    Pokemon,
    Item,
    Supporter,
    Stadium,
    Tool,
    BasicEnergy,
    SpecialEnergy,
}

pub open spec fn spec_card_type_name(t: CardType) -> Seq<char> {
    match t {
        CardType::Pokemon => "Pokemon"@,
        CardType::Item => "Item"@,
        CardType::Supporter => "Supporter"@,
        CardType::Stadium => "Stadium"@,
        CardType::Tool => "Tool"@,
        CardType::BasicEnergy => "Basic Energy"@,
        CardType::SpecialEnergy => "Special Energy"@,
    }
}

impl CardType {
    /// Human readable name of the card type.
    pub fn name(&self) -> (r: &'static str)
        ensures
            r@ == spec_card_type_name(*self),
    {
        match self {
            CardType::Pokemon => "Pokemon",
            CardType::Item => "Item",
            CardType::Supporter => "Supporter",
            CardType::Stadium => "Stadium",
            CardType::Tool => "Tool",
            CardType::BasicEnergy => "Basic Energy",
            CardType::SpecialEnergy => "Special Energy",
        }
    }
}

/// Energy type.
#[derive(Debug, Clone, Copy, PartialEq, Eq, Hash, Structural)]
pub enum EnergyType {
    Fire,
    Water,
    Grass,
    Lightning,
    Psychic,
    Fighting,
    Darkness,
    Metal,
    Dragon,
    Colorless,
}

/// The one-letter code of an energy type.
pub open spec fn spec_energy_char(e: EnergyType) -> char {
    match e {
        EnergyType::Fire => 'R',
        EnergyType::Water => 'W',
        EnergyType::Grass => 'G',
        EnergyType::Lightning => 'L',
        EnergyType::Psychic => 'P',
        EnergyType::Fighting => 'F',
        EnergyType::Darkness => 'D',
        EnergyType::Metal => 'M',
        EnergyType::Dragon => 'N',
        EnergyType::Colorless => 'C',
    }
}

/// The energy type whose code is `c`, read without regard to ASCII case.
pub open spec fn spec_energy_from_char(c: char) -> Option<EnergyType> {
    if c == 'R' || c == 'r' {
        Some(EnergyType::Fire)
    } else if c == 'W' || c == 'w' {
        Some(EnergyType::Water)
    } else if c == 'G' || c == 'g' {
        Some(EnergyType::Grass)
    } else if c == 'L' || c == 'l' {
        Some(EnergyType::Lightning)
    } else if c == 'P' || c == 'p' {
        Some(EnergyType::Psychic)
    } else if c == 'F' || c == 'f' {
        Some(EnergyType::Fighting)
    } else if c == 'D' || c == 'd' {
        Some(EnergyType::Darkness)
    } else if c == 'M' || c == 'm' {
        Some(EnergyType::Metal)
    } else if c == 'N' || c == 'n' {
        Some(EnergyType::Dragon)
    } else if c == 'C' || c == 'c' {
        Some(EnergyType::Colorless)
    } else {
        None
    }
}

impl EnergyType {
    pub fn from_char(c: char) -> (r: Option<Self>)
        ensures
            r == spec_energy_from_char(c),
    {
        match c {
            'R' | 'r' => Some(EnergyType::Fire),
            'W' | 'w' => Some(EnergyType::Water),
            'G' | 'g' => Some(EnergyType::Grass),
            'L' | 'l' => Some(EnergyType::Lightning),
            'P' | 'p' => Some(EnergyType::Psychic),
            'F' | 'f' => Some(EnergyType::Fighting),
            'D' | 'd' => Some(EnergyType::Darkness),
            'M' | 'm' => Some(EnergyType::Metal),
            'N' | 'n' => Some(EnergyType::Dragon),
            'C' | 'c' => Some(EnergyType::Colorless),
            _ => None,
        }
    }

    pub fn to_char(&self) -> (r: char)
        ensures
            r == spec_energy_char(*self),
    {
        match self {
            EnergyType::Fire => 'R',
            EnergyType::Water => 'W',
            EnergyType::Grass => 'G',
            EnergyType::Lightning => 'L',
            EnergyType::Psychic => 'P',
            EnergyType::Fighting => 'F',
            EnergyType::Darkness => 'D',
            EnergyType::Metal => 'M',
            EnergyType::Dragon => 'N',
            EnergyType::Colorless => 'C',
        }
    }
}

/// Reading back the code of an energy type gives the energy type.
pub proof fn lemma_energy_char_roundtrip(e: EnergyType)
    ensures
        spec_energy_from_char(spec_energy_char(e)) == Some(e),
{
}

/// Two energy types never share a code.
pub proof fn lemma_energy_char_injective(a: EnergyType, b: EnergyType)
    ensures
        spec_energy_char(a) == spec_energy_char(b) ==> a == b,
{
}

/// Pokemon stage.
#[derive(Debug, Clone, Copy, PartialEq, Eq, Structural)]
pub enum Stage {
    Basic,
    Stage1,
    Stage2,
}

/// Pokemon mechanic (ex, V, VSTAR, VMAX, Radiant).
#[derive(Debug, Clone, Copy, PartialEq, Eq, Structural)]
pub enum Mechanic {
    Plain,
    Ex,
    V,
    Vstar,
    Vmax,
    Radiant,
}

/// Weakness or resistance of a Pokemon.
#[derive(Debug, Clone, Copy, PartialEq, Eq, Structural)]
pub struct TypeMultiplier {
    pub energy_type: EnergyType,
    /// 2 for a weakness that doubles damage, -30 for a resistance.
    pub multiplier: i32,
}

/// Attack of a Pokemon.
#[derive(Debug)]
pub struct Attack {
    pub name: String,
    pub cost: Vec<EnergyType>,
    pub damage: u16,
    pub text: String,
    pub effect_id: Option<String>,
}

/// Ability of a Pokemon.
#[derive(Debug)]
pub struct Ability {
    pub name: String,
    pub text: String,
    pub effect_id: String,
}

/// Static card definition.
#[derive(Debug)]
pub struct CardDef {
    pub id: CardDefId,
    pub name: String,
    pub name_en: String,
    pub set_code: String,
    pub card_type: CardType,
    pub stage: Option<Stage>,
    pub hp: Option<u16>,
    pub energy_type: Option<EnergyType>,
    pub weakness: Option<TypeMultiplier>,
    pub resistance: Option<TypeMultiplier>,
    pub retreat_cost: Option<u8>,
    pub mechanic: Option<Mechanic>,
    pub attacks: Vec<Attack>,
    pub abilities: Vec<Ability>,
    pub provides_energy: Option<Vec<EnergyType>>,
    pub damage_modifier: Option<i32>,
    pub retreat_modifier: Option<i8>,
}

/// The mathematical value of an attack.
#[verifier::ext_equal]
pub struct AttackView {
    pub name: Seq<char>,
    pub cost: Seq<EnergyType>,
    pub damage: u16,
    pub text: Seq<char>,
    pub effect_id: Option<Seq<char>>,
}

/// The mathematical value of an ability.
#[verifier::ext_equal]
pub struct AbilityView {
    pub name: Seq<char>,
    pub text: Seq<char>,
    pub effect_id: Seq<char>,
}

/// The mathematical value of a card definition.
#[verifier::ext_equal]
pub struct CardDefView {
    pub id: Seq<char>,
    pub name: Seq<char>,
    pub name_en: Seq<char>,
    pub set_code: Seq<char>,
    pub card_type: CardType,
    pub stage: Option<Stage>,
    pub hp: Option<u16>,
    pub energy_type: Option<EnergyType>,
    pub weakness: Option<TypeMultiplier>,
    pub resistance: Option<TypeMultiplier>,
    pub retreat_cost: Option<u8>,
    pub mechanic: Option<Mechanic>,
    pub attacks: Seq<AttackView>,
    pub abilities: Seq<AbilityView>,
    pub provides_energy: Option<Seq<EnergyType>>,
    pub damage_modifier: Option<i32>,
    pub retreat_modifier: Option<i8>,
}

impl View for Attack {
    type V = AttackView;

    open spec fn view(&self) -> AttackView {
        AttackView {
            name: self.name@,
            cost: self.cost@,
            damage: self.damage,
            text: self.text@,
            effect_id: match self.effect_id {
                Some(e) => Some(e@),
                None => None,
            },
        }
    }
}

impl View for Ability {
    type V = AbilityView;

    open spec fn view(&self) -> AbilityView {
        AbilityView { name: self.name@, text: self.text@, effect_id: self.effect_id@ }
    }
}

impl View for CardDef {
    type V = CardDefView;

    open spec fn view(&self) -> CardDefView {
        CardDefView {
            id: self.id.0@,
            name: self.name@,
            name_en: self.name_en@,
            set_code: self.set_code@,
            card_type: self.card_type,
            stage: self.stage,
            hp: self.hp,
            energy_type: self.energy_type,
            weakness: self.weakness,
            resistance: self.resistance,
            retreat_cost: self.retreat_cost,
            mechanic: self.mechanic,
            attacks: self.attacks@.map_values(|a: Attack| a@),
            abilities: self.abilities@.map_values(|a: Ability| a@),
            provides_energy: match self.provides_energy {
                Some(p) => Some(p@),
                None => None,
            },
            damage_modifier: self.damage_modifier,
            retreat_modifier: self.retreat_modifier,
        }
    }
}

impl CardDef {
    pub open spec fn spec_is_pokemon(&self) -> bool {
        self.card_type == CardType::Pokemon
    }

    pub open spec fn spec_is_basic_pokemon(&self) -> bool {
        self.card_type == CardType::Pokemon && self.stage == Some(Stage::Basic)
    }

    pub open spec fn spec_is_energy(&self) -> bool {
        self.card_type == CardType::BasicEnergy || self.card_type == CardType::SpecialEnergy
    }

    pub open spec fn spec_is_trainer(&self) -> bool {
        self.card_type == CardType::Item || self.card_type == CardType::Supporter
            || self.card_type == CardType::Stadium || self.card_type == CardType::Tool
    }

    pub open spec fn spec_is_rule_box(&self) -> bool {
        self.mechanic == Some(Mechanic::Ex) || self.mechanic == Some(Mechanic::V)
            || self.mechanic == Some(Mechanic::Vstar)
    }

    /// `self` evolves from `other`: a Stage 1 from a Basic or a Stage 2 from a Stage 1.
    pub open spec fn spec_evolves_from(&self, other: &CardDef) -> bool {
        &&& self.card_type == CardType::Pokemon
        &&& other.card_type == CardType::Pokemon
        &&& ((self.stage == Some(Stage::Stage1) && other.stage == Some(Stage::Basic)) || (
        self.stage == Some(Stage::Stage2) && other.stage == Some(Stage::Stage1)))
    }

    pub fn is_pokemon(&self) -> (r: bool)
        ensures
            r == self.spec_is_pokemon(),
    {
        self.card_type == CardType::Pokemon
    }

    pub fn is_basic_energy(&self) -> (r: bool)
        ensures
            r == (self.card_type == CardType::BasicEnergy),
    {
        self.card_type == CardType::BasicEnergy
    }

    pub fn is_special_energy(&self) -> (r: bool)
        ensures
            r == (self.card_type == CardType::SpecialEnergy),
    {
        self.card_type == CardType::SpecialEnergy
    }

    pub fn is_trainer(&self) -> (r: bool)
        ensures
            r == self.spec_is_trainer(),
    {
        match self.card_type {
            CardType::Item | CardType::Supporter | CardType::Stadium | CardType::Tool => true,
            _ => false,
        }
    }

    pub fn is_ex(&self) -> (r: bool)
        ensures
            r == (self.mechanic == Some(Mechanic::Ex)),
    {
        match self.mechanic {
            Some(Mechanic::Ex) => true,
            _ => false,
        }
    }

    pub fn is_v(&self) -> (r: bool)
        ensures
            r == (self.mechanic == Some(Mechanic::V)),
    {
        match self.mechanic {
            Some(Mechanic::V) => true,
            _ => false,
        }
    }

    pub fn is_vstar(&self) -> (r: bool)
        ensures
            r == (self.mechanic == Some(Mechanic::Vstar)),
    {
        match self.mechanic {
            Some(Mechanic::Vstar) => true,
            _ => false,
        }
    }

    /// A Basic Pokemon (what a Nest Ball may fetch).
    pub fn is_basic_pokemon(&self) -> (r: bool)
        ensures
            r == self.spec_is_basic_pokemon(),
    {
        self.card_type == CardType::Pokemon && match self.stage {
            Some(Stage::Basic) => true,
            _ => false,
        }
    }

    pub fn can_be_searched_by_nest_ball(&self) -> (r: bool)
        ensures
            r == self.spec_is_basic_pokemon(),
    {
        self.is_basic_pokemon()
    }

    pub fn can_be_evolved_from(&self, other: &CardDef) -> (r: bool)
        ensures
            r == self.spec_evolves_from(other),
    {
        if !self.is_pokemon() || !other.is_pokemon() {
            return false;
        }
        match (self.stage, other.stage) {
            (Some(Stage::Stage1), Some(Stage::Basic)) => true,
            (Some(Stage::Stage2), Some(Stage::Stage1)) => true,
            _ => false,
        }
    }

    /// Whether the card carries an ability with the given effect identifier.
    pub fn has_ability_effect(&self, effect_id: &str) -> (r: bool)
        ensures
            r == (exists|i: int|
                0 <= i < self.abilities@.len() && #[trigger] self.abilities@[i].effect_id@
                    == effect_id@),
    {
        let mut i: usize = 0;
        while i < self.abilities.len()
            invariant
                i <= self.abilities@.len(),
                forall|j: int| 0 <= j < i ==> #[trigger] self.abilities@[j].effect_id@ != effect_id@,
            decreases self.abilities@.len() - i,
        {
            if str_eq(self.abilities[i].effect_id.as_str(), effect_id) {
                return true;
            }
            i = i + 1;
        }
        false
    }
}

/// Text equality of two strings.
pub fn str_eq(a: &str, b: &str) -> (r: bool)
    ensures
        r == (a@ == b@),
{
    let x = String::from_str(a);
    let y = String::from_str(b);
    x == y
}

/// The first definition in `defs` with identifier `key`.
pub open spec fn find_def(defs: Seq<CardDef>, key: Seq<char>) -> Option<CardDef>
    decreases defs.len(),
{
    if defs.len() == 0 {
        None
    } else if defs[0].id.0@ == key {
        Some(defs[0])
    } else {
        find_def(defs.drop_first(), key)
    }
}

/// `find_def` gives the entry at `i` when `i` is the first index with that key.
pub proof fn lemma_find_def_at(defs: Seq<CardDef>, key: Seq<char>, i: int)
    requires
        0 <= i < defs.len(),
        defs[i].id.0@ == key,
        forall|j: int| 0 <= j < i ==> #[trigger] defs[j].id.0@ != key,
    ensures
        find_def(defs, key) == Some(defs[i]),
    decreases i,
{
    if i > 0 {
        let rest = defs.drop_first();
        assert forall|j: int| 0 <= j < i - 1 implies #[trigger] rest[j].id.0@ != key by {
            assert(rest[j] == defs[j + 1]);
        }
        lemma_find_def_at(rest, key, i - 1);
    }
}

/// `find_def` gives nothing when no entry has the key.
pub proof fn lemma_find_def_none(defs: Seq<CardDef>, key: Seq<char>)
    requires
        forall|j: int| 0 <= j < defs.len() ==> #[trigger] defs[j].id.0@ != key,
    ensures
        find_def(defs, key) == None::<CardDef>,
    decreases defs.len(),
{
    if defs.len() > 0 {
        let rest = defs.drop_first();
        assert forall|j: int| 0 <= j < rest.len() implies #[trigger] rest[j].id.0@ != key by {
            assert(rest[j] == defs[j + 1]);
        }
        lemma_find_def_none(rest, key);
    }
}

/// Registry of card definitions, keyed by their identifier.
#[derive(Debug)]
pub struct CardRegistry {
    cards: Vec<CardDef>,
}

impl View for CardRegistry {
    type V = Seq<CardDef>;

    closed spec fn view(&self) -> Seq<CardDef> {
        self.cards@
    }
}

impl CardRegistry {
    /// The definition registered under `key`, if any.
    pub open spec fn spec_get(&self, key: Seq<char>) -> Option<CardDef> {
        find_def(self@, key)
    }

    pub fn new() -> (r: Self)
        ensures
            r@ == Seq::<CardDef>::empty(),
            forall|k: Seq<char>| r.spec_get(k) == None::<CardDef>,
    {
        CardRegistry { cards: Vec::new() }
    }

    /// A registry holding exactly `cards`, in this order.
    pub(crate) fn from_defs(cards: Vec<CardDef>) -> (r: Self)
        ensures
            r@ == cards@,
    {
        CardRegistry { cards }
    }

    fn find_index(&self, key: &str) -> (r: Option<usize>)
        ensures
            match r {
                Some(i) => i < self@.len() && self@[i as int].id.0@ == key@ && forall|j: int|
                    0 <= j < i ==> #[trigger] self@[j].id.0@ != key@,
                None => forall|j: int| 0 <= j < self@.len() ==> #[trigger] self@[j].id.0@ != key@,
            },
    {
        let mut i: usize = 0;
        while i < self.cards.len()
            invariant
                i <= self.cards@.len(),
                forall|j: int| 0 <= j < i ==> #[trigger] self.cards@[j].id.0@ != key@,
            decreases self.cards@.len() - i,
        {
            if str_eq(self.cards[i].id.0.as_str(), key) {
                return Some(i);
            }
            i = i + 1;
        }
        None
    }

    /// Register a definition. One already registered under the same identifier
    /// is replaced.
    pub fn register(&mut self, card: CardDef)
        ensures
            final(self).spec_get(card.id.0@) == Some(card),
            forall|k: Seq<char>|
                k != card.id.0@ ==> #[trigger] final(self).spec_get(k) == old(self).spec_get(k),
            old(self).spec_get(card.id.0@) is None ==> final(self)@ == old(self)@.push(card),
            old(self).spec_get(card.id.0@) is Some ==> final(self)@.len() == old(self)@.len(),
    {
        let ghost key = card.id.0@;
        let ghost old_defs = self@;
        match self.find_index(card.id.0.as_str()) {
            Some(i) => {
                self.cards.set(i, card);
                proof {
                    let new_defs = self@;
                    lemma_find_def_at(old_defs, key, i as int);
                    lemma_find_def_at(new_defs, key, i as int);
                    assert forall|k: Seq<char>| k != key implies #[trigger] find_def(new_defs, k)
                        == find_def(old_defs, k) by {
                        lemma_find_def_update(old_defs, i as int, card, k);
                    }
                }
            },
            None => {
                self.cards.push(card);
                proof {
                    let new_defs = self@;
                    lemma_find_def_none(old_defs, key);
                    assert forall|j: int| 0 <= j < old_defs.len() implies #[trigger] new_defs[j].id.0@
                        != key by {
                        assert(new_defs[j] == old_defs[j]);
                    }
                    lemma_find_def_at(new_defs, key, old_defs.len() as int);
                    assert forall|k: Seq<char>| k != key implies #[trigger] find_def(new_defs, k)
                        == find_def(old_defs, k) by {
                        lemma_find_def_push(old_defs, card, k);
                    }
                }
            },
        }
    }

    pub fn get(&self, id: &CardDefId) -> (r: Option<&CardDef>)
        ensures
            match r {
                Some(d) => self.spec_get(id.0@) == Some(*d),
                None => self.spec_get(id.0@) is None,
            },
    {
        self.get_by_key(id.0.as_str())
    }

    /// Look a definition up by the text of its identifier.
    pub fn get_by_key(&self, key: &str) -> (r: Option<&CardDef>)
        ensures
            match r {
                Some(d) => self.spec_get(key@) == Some(*d),
                None => self.spec_get(key@) is None,
            },
    {
        match self.find_index(key) {
            Some(i) => {
                proof {
                    lemma_find_def_at(self@, key@, i as int);
                }
                Some(&self.cards[i])
            },
            None => {
                proof {
                    lemma_find_def_none(self@, key@);
                }
                None
            },
        }
    }

    /// The registered definitions, in the order in which they were first registered.
    pub fn iter(&self) -> (r: std::slice::Iter<'_, CardDef>)
        ensures
            r.remaining() == self@.map_values(|d: CardDef| &d),
    {
        let r = self.cards.as_slice().iter();
        proof {
            assert(r.remaining() =~= self@.map_values(|d: CardDef| &d));
        }
        r
    }

    pub fn len(&self) -> (r: usize)
        ensures
            r == self@.len(),
    {
        self.cards.len()
    }

    pub fn is_empty(&self) -> (r: bool)
        ensures
            r == (self@.len() == 0),
    {
        self.cards.len() == 0
    }
}

proof fn lemma_find_def_update(defs: Seq<CardDef>, i: int, card: CardDef, k: Seq<char>)
    requires
        0 <= i < defs.len(),
        defs[i].id.0@ == card.id.0@,
        k != card.id.0@,
    ensures
        find_def(defs.update(i, card), k) == find_def(defs, k),
    decreases defs.len(),
{
    let nd = defs.update(i, card);
    if defs.len() > 0 {
        if i == 0 {
            assert(nd[0].id.0@ == defs[0].id.0@);
            assert(nd.drop_first() =~= defs.drop_first());
        } else {
            assert(nd[0] == defs[0]);
            assert(nd.drop_first() =~= defs.drop_first().update(i - 1, card));
            lemma_find_def_update(defs.drop_first(), i - 1, card, k);
        }
    }
}

proof fn lemma_find_def_push(defs: Seq<CardDef>, card: CardDef, k: Seq<char>)
    requires
        k != card.id.0@,
    ensures
        find_def(defs.push(card), k) == find_def(defs, k),
    decreases defs.len(),
{
    let nd = defs.push(card);
    if defs.len() > 0 {
        assert(nd[0] == defs[0]);
        assert(nd.drop_first() =~= defs.drop_first().push(card));
        lemma_find_def_push(defs.drop_first(), card, k);
    } else {
        assert(nd[0] == card);
        assert(nd.drop_first() =~= Seq::<CardDef>::empty());
        assert(find_def(nd.drop_first(), k) == None::<CardDef>);
    }
}

} // verus!
