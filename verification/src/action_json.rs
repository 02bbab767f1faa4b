//! Actions written as JSON objects, as sent by a client: `{"type": "Evolve",
//! "card_id": 12, "target": "bench_2"}` and the like.

use vstd::prelude::*;
use vstd::string::StrSliceExecFns;

use crate::action::{Action, Choices};
use crate::card::str_eq;
use crate::state::{CardInstanceId, SlotRef};
use serde_json::Value;
use std::collections::HashMap;

verus! {

// ── Values ──────────────────────────────────────────────────────────

/// A JSON value reduced to what the action parser reads.
#[derive(Debug)]
pub enum JsonField {
    Bool(bool),
    /// A number that is a whole number from 0 to `u64::MAX`.
    Unsigned(u64),
    Str(String),
    Array(Vec<JsonItem>),
    /// Anything else: null, an object, another number.
    Other,
}

/// An element of a JSON array, reduced to what the action parser reads.
#[derive(Debug)]
pub enum JsonItem {
    Unsigned(u64),
    Str(String),
    Other,
}

pub enum JsonFieldView {
    Bool(bool),
    Unsigned(u64),
    Str(Seq<char>),
    Array(Seq<JsonItemView>),
    Other,
}

pub enum JsonItemView {
    Unsigned(u64),
    Str(Seq<char>),
    Other,
}

impl View for JsonItem {
    type V = JsonItemView;

    open spec fn view(&self) -> JsonItemView {
        match self {
            JsonItem::Unsigned(n) => JsonItemView::Unsigned(*n),
            JsonItem::Str(s) => JsonItemView::Str(s@),
            JsonItem::Other => JsonItemView::Other,
        }
    }
}

pub open spec fn items_view(v: Seq<JsonItem>) -> Seq<JsonItemView> {
    v.map_values(|i: JsonItem| i@)
}

impl View for JsonField {
    type V = JsonFieldView;

    open spec fn view(&self) -> JsonFieldView {
        match self {
            JsonField::Bool(b) => JsonFieldView::Bool(*b),
            JsonField::Unsigned(n) => JsonFieldView::Unsigned(*n),
            JsonField::Str(s) => JsonFieldView::Str(s@),
            JsonField::Array(a) => JsonFieldView::Array(items_view(a@)),
            JsonField::Other => JsonFieldView::Other,
        }
    }
}

pub open spec fn fields_view(v: Seq<(String, JsonField)>) -> Seq<(Seq<char>, JsonFieldView)> {
    v.map_values(|e: (String, JsonField)| (e.0@, e.1@))
}

/// The map of entries, a later entry replacing an earlier one with its key.
pub open spec fn entries_map(v: Seq<(Seq<char>, JsonFieldView)>) -> Map<Seq<char>, JsonFieldView>
    decreases v.len(),
{
    if v.len() == 0 {
        Map::empty()
    } else {
        entries_map(v.drop_last()).insert(v.last().0, v.last().1)
    }
}

/// The object that the JSON text `json` denotes (a later duplicate key
/// replacing an earlier one), `None` if the text is not one JSON object.
pub uninterp spec fn spec_json_object(json: Seq<char>) -> Option<Map<Seq<char>, JsonFieldView>>;

/// Parses `json` with `serde_json::from_str` into a
/// `HashMap<String, serde_json::Value>` and reduces each value to a
/// `JsonField` (an array's elements to `JsonItem`s). The contract names the
/// object as a map; the order of the entries, which is the hash map's, is
/// left unsaid.
#[verifier::external_body]
fn json_object_fields(json: &str) -> (r: Option<Vec<(String, JsonField)>>)
    ensures
        match r {
            Some(v) => spec_json_object(json@) == Some(entries_map(fields_view(v@))),
            None => spec_json_object(json@) is None,
        },
{
    let map = serde_json::from_str::<HashMap<String, Value>>(json).ok()?;
    let item = |v: Value| match v {
        Value::Number(n) => n.as_u64().map_or(JsonItem::Other, JsonItem::Unsigned),
        Value::String(s) => JsonItem::Str(s),
        _ => JsonItem::Other,
    };
    Some(map.into_iter().map(|(k, v)| (k, match v {
        Value::Bool(b) => JsonField::Bool(b),
        Value::Number(n) => n.as_u64().map_or(JsonField::Other, JsonField::Unsigned),
        Value::String(s) => JsonField::Str(s),
        Value::Array(a) => JsonField::Array(a.into_iter().map(item).collect()),
        _ => JsonField::Other,
    })).collect())
}

// ── Text ────────────────────────────────────────────────────────────

/// The characters of `s`.
fn chars_of(s: &str) -> (r: Vec<char>)
    ensures
        r@ == s@,
{
    let n = s.unicode_len();
    let mut v: Vec<char> = Vec::new();
    let mut i: usize = 0;
    while i < n
        invariant
            n == s@.len(),
            i <= n,
            v@ == s@.subrange(0, i as int),
        decreases n - i,
    {
        v.push(s.get_char(i));
        i = i + 1;
        proof {
            assert(v@ =~= s@.subrange(0, i as int));
        }
    }
    proof {
        assert(v@ =~= s@);
    }
    v
}

pub open spec fn is_digit(c: char) -> bool {
    '0' <= c <= '9'
}

/// The value of a decimal digit.
pub open spec fn digit_of(c: char) -> int {
    c as int - '0' as int
}

/// The value of a string of decimal digits.
pub open spec fn digits_value(s: Seq<char>) -> int
    decreases s.len(),
{
    if s.len() == 0 {
        0
    } else {
        digits_value(s.drop_last()) * 10 + digit_of(s.last())
    }
}

pub open spec fn all_digits(d: Seq<char>) -> bool {
    forall|i: int| 0 <= i < d.len() ==> is_digit(#[trigger] d[i])
}

/// The value of at least one decimal digit and nothing else, if it fits.
pub open spec fn parse_digits(d: Seq<char>) -> Option<usize> {
    if d.len() > 0 && all_digits(d) && digits_value(d) <= usize::MAX {
        Some(digits_value(d) as usize)
    } else {
        None
    }
}

/// What `str::parse::<usize>` gives: an optional `+`, then at least one
/// decimal digit and nothing else, with a value that fits.
pub open spec fn spec_parse_usize(s: Seq<char>) -> Option<usize> {
    if s.len() > 0 && s[0] == '+' {
        parse_digits(s.drop_first())
    } else {
        parse_digits(s)
    }
}

proof fn lemma_digits_value_step(s: Seq<char>, i: int)
    requires
        0 <= i < s.len(),
    ensures
        digits_value(s.subrange(0, i + 1)) == digits_value(s.subrange(0, i)) * 10 + digit_of(s[i]),
{
    assert(s.subrange(0, i + 1).drop_last() =~= s.subrange(0, i));
}

proof fn lemma_digits_nonneg(t: Seq<char>)
    requires
        forall|k: int| 0 <= k < t.len() ==> is_digit(#[trigger] t[k]),
    ensures
        0 <= digits_value(t),
    decreases t.len(),
{
    if t.len() > 0 {
        lemma_digits_nonneg(t.drop_last());
    }
}

proof fn lemma_digits_value_grows(s: Seq<char>, i: int, j: int)
    requires
        0 <= i <= j <= s.len(),
        forall|k: int| 0 <= k < s.len() ==> is_digit(#[trigger] s[k]),
    ensures
        0 <= digits_value(s.subrange(0, i)) <= digits_value(s.subrange(0, j)),
    decreases j - i,
{
    if i < j {
        lemma_digits_value_grows(s, i, j - 1);
        lemma_digits_value_step(s, j - 1);
    } else {
        lemma_digits_nonneg(s.subrange(0, i));
    }
}

/// The number written by `v[from..]` (see `spec_parse_usize`).
fn parse_usize_from(v: &Vec<char>, from: usize) -> (r: Option<usize>)
    requires
        from <= v@.len(),
    ensures
        r == spec_parse_usize(v@.subrange(from as int, v@.len() as int)),
{
    let ghost s = v@.subrange(from as int, v@.len() as int);
    let mut start = from;
    if start < v.len() && v[start] == '+' {
        start = start + 1;
    }
    let ghost d = v@.subrange(start as int, v@.len() as int);
    proof {
        if s.len() > 0 && s[0] == '+' {
            assert(v@[from as int] == '+');
            assert(start == from + 1);
            assert(d =~= s.drop_first());
        } else {
            assert(start == from);
            assert(d =~= s);
        }
    }
    if start >= v.len() {
        assert(d.len() == 0);
        return None;
    }
    let mut value: usize = 0;
    let mut i: usize = start;
    while i < v.len()
        invariant
            from <= start <= i <= v@.len(),
            start < v@.len(),
            d == v@.subrange(start as int, v@.len() as int),
            s == v@.subrange(from as int, v@.len() as int),
            d == (if s.len() > 0 && s[0] == '+' { s.drop_first() } else { s }),
            forall|k: int| start <= k < i ==> is_digit(#[trigger] v@[k]),
            value == digits_value(d.subrange(0, i - start)),
            0 <= digits_value(d.subrange(0, i - start)),
        decreases v@.len() - i,
    {
        let c = v[i];
        if !('0' <= c && c <= '9') {
            proof {
                let k = i - start;
                assert(d[k] == v@[i as int]);
                assert(!is_digit(d[k]));
                assert(!all_digits(d));
            }
            return None;
        }
        proof {
            lemma_digits_value_step(d, i - start);
        }
        let digit = (c as u32 - '0' as u32) as usize;
        let next = match value.checked_mul(10) {
            Some(m) => m.checked_add(digit),
            None => None,
        };
        match next {
            Some(n) => {
                value = n;
            },
            None => {
                proof {
                    assert(digits_value(d.subrange(0, i - start + 1)) > usize::MAX);
                    if all_digits(d) {
                        lemma_digits_value_grows(d, i - start + 1, d.len() as int);
                        assert(d.subrange(0, d.len() as int) =~= d);
                        assert(digits_value(d) > usize::MAX);
                    }
                }
                return None;
            },
        }
        i = i + 1;
    }
    proof {
        assert(d.subrange(0, i - start) =~= d);
    }
    Some(value)
}


// ── Slots ───────────────────────────────────────────────────────────

/// The slot a client names: `active`, or `bench_` and an index; anything
/// else names the active spot.
pub open spec fn spec_parse_slot_ref(s: Seq<char>) -> SlotRef {
    if s == "active"@ {
        SlotRef::Active
    } else if s.len() >= 6 && s.subrange(0, 6) == "bench_"@ {
        match spec_parse_usize(s.subrange(6, s.len() as int)) {
            Some(i) => SlotRef::Bench(i),
            None => SlotRef::Active,
        }
    } else {
        SlotRef::Active
    }
}

/// The slot named by `s` (see `spec_parse_slot_ref`).
pub fn parse_slot_ref(s: &str) -> (r: SlotRef)
    ensures
        r == spec_parse_slot_ref(s@),
{
    if str_eq(s, "active") {
        return SlotRef::Active;
    }
    let v = chars_of(s);
    proof {
        reveal_strlit("bench_");
    }
    if v.len() >= 6 && v[0] == 'b' && v[1] == 'e' && v[2] == 'n' && v[3] == 'c' && v[4] == 'h' && v[5] == '_' {
        proof {
            assert(v@.subrange(0, 6) =~= "bench_"@);
        }
        match parse_usize_from(&v, 6) {
            Some(i) => SlotRef::Bench(i),
            None => SlotRef::Active,
        }
    } else {
        proof {
            if v@.len() >= 6 {
                assert(v@.subrange(0, 6)[0] == v@[0]);
                assert(v@.subrange(0, 6)[1] == v@[1]);
                assert(v@.subrange(0, 6)[2] == v@[2]);
                assert(v@.subrange(0, 6)[3] == v@[3]);
                assert(v@.subrange(0, 6)[4] == v@[4]);
                assert(v@.subrange(0, 6)[5] == v@[5]);
            }
        }
        SlotRef::Active
    }
}

// ── Quotes ──────────────────────────────────────────────────────────

pub open spec fn drop_leading_quotes(s: Seq<char>) -> Seq<char>
    decreases s.len(),
{
    if s.len() > 0 && s[0] == '"' {
        drop_leading_quotes(s.drop_first())
    } else {
        s
    }
}

pub open spec fn drop_trailing_quotes(s: Seq<char>) -> Seq<char>
    decreases s.len(),
{
    if s.len() > 0 && s.last() == '"' {
        drop_trailing_quotes(s.drop_last())
    } else {
        s
    }
}

/// `s` without its leading and trailing double quotes.
pub open spec fn trim_quotes(s: Seq<char>) -> Seq<char> {
    drop_trailing_quotes(drop_leading_quotes(s))
}

/// The bounds of `trim_quotes(v)` within `v`.
fn trim_quotes_bounds(v: &Vec<char>) -> (r: (usize, usize))
    ensures
        r.0 <= r.1 <= v@.len(),
        v@.subrange(r.0 as int, r.1 as int) == trim_quotes(v@),
{
    let n = v.len();
    let mut a: usize = 0;
    proof {
        assert(v@.subrange(0, n as int) =~= v@);
    }
    while a < n && v[a] == '"'
        invariant
            a <= n == v@.len(),
            drop_leading_quotes(v@) == drop_leading_quotes(v@.subrange(a as int, n as int)),
        decreases n - a,
    {
        proof {
            assert(v@.subrange(a as int, n as int).drop_first() =~= v@.subrange(a + 1, n as int));
        }
        a = a + 1;
    }
    proof {
        if a == n {
            assert(v@.subrange(a as int, n as int).len() == 0);
        }
    }
    let mut b: usize = n;
    while b > a && v[b - 1] == '"'
        invariant
            a <= b <= n == v@.len(),
            drop_leading_quotes(v@) == v@.subrange(a as int, n as int),
            trim_quotes(v@) == drop_trailing_quotes(v@.subrange(a as int, b as int)),
        decreases b - a,
    {
        proof {
            assert(v@.subrange(a as int, b as int).drop_last() =~= v@.subrange(a as int, b - 1));
        }
        b = b - 1;
    }
    (a, b)
}

/// Whether `v[a..b]` is `w`.
fn chars_eq(v: &Vec<char>, a: usize, b: usize, w: &Vec<char>) -> (r: bool)
    requires
        a <= b <= v@.len(),
    ensures
        r == (v@.subrange(a as int, b as int) == w@),
{
    if b - a != w.len() {
        return false;
    }
    let mut i: usize = 0;
    while i < w.len()
        invariant
            a <= b <= v@.len(),
            b - a == w@.len(),
            i <= w@.len(),
            forall|j: int| 0 <= j < i ==> v@[a + j] == #[trigger] w@[j],
        decreases w@.len() - i,
    {
        if v[a + i] != w[i] {
            proof {
                assert(v@.subrange(a as int, b as int)[i as int] != w@[i as int]);
            }
            return false;
        }
        i = i + 1;
    }
    proof {
        assert(v@.subrange(a as int, b as int) =~= w@);
    }
    true
}

// ── Fields ──────────────────────────────────────────────────────────

pub open spec fn get_field(m: Map<Seq<char>, JsonFieldView>, k: Seq<char>) -> Option<JsonFieldView> {
    if m.dom().contains(k) {
        Some(m[k])
    } else {
        None
    }
}

pub open spec fn get_str(m: Map<Seq<char>, JsonFieldView>, k: Seq<char>) -> Option<Seq<char>> {
    match get_field(m, k) {
        Some(JsonFieldView::Str(s)) => Some(s),
        _ => None,
    }
}

pub open spec fn get_u64(m: Map<Seq<char>, JsonFieldView>, k: Seq<char>) -> Option<u64> {
    match get_field(m, k) {
        Some(JsonFieldView::Unsigned(n)) => Some(n),
        _ => None,
    }
}

pub open spec fn get_bool(m: Map<Seq<char>, JsonFieldView>, k: Seq<char>) -> Option<bool> {
    match get_field(m, k) {
        Some(JsonFieldView::Bool(b)) => Some(b),
        _ => None,
    }
}

pub open spec fn get_array(m: Map<Seq<char>, JsonFieldView>, k: Seq<char>) -> Option<Seq<JsonItemView>> {
    match get_field(m, k) {
        Some(JsonFieldView::Array(a)) => Some(a),
        _ => None,
    }
}

proof fn lemma_entries_map_last(v: Seq<(Seq<char>, JsonFieldView)>, j: int, k: Seq<char>)
    requires
        0 <= j < v.len(),
        v[j].0 == k,
        forall|i: int| j < i < v.len() ==> (#[trigger] v[i]).0 != k,
    ensures
        get_field(entries_map(v), k) == Some(v[j].1),
    decreases v.len(),
{
    if j < v.len() - 1 {
        lemma_entries_map_last(v.drop_last(), j, k);
    }
}

proof fn lemma_entries_map_absent(v: Seq<(Seq<char>, JsonFieldView)>, k: Seq<char>)
    requires
        forall|i: int| 0 <= i < v.len() ==> (#[trigger] v[i]).0 != k,
    ensures
        get_field(entries_map(v), k) is None,
    decreases v.len(),
{
    if v.len() > 0 {
        lemma_entries_map_absent(v.drop_last(), k);
    }
}

/// The field named `key`: the last entry with that key.
fn field<'a>(fields: &'a Vec<(String, JsonField)>, key: &str) -> (r: Option<&'a JsonField>)
    ensures
        match r {
            Some(f) => get_field(entries_map(fields_view(fields@)), key@) == Some(f@),
            None => get_field(entries_map(fields_view(fields@)), key@) is None,
        },
{
    let ghost fv = fields_view(fields@);
    let mut i: usize = fields.len();
    while i > 0
        invariant
            i <= fields@.len(),
            fv == fields_view(fields@),
            forall|j: int| i <= j < fv.len() ==> (#[trigger] fv[j]).0 != key@,
        decreases i,
    {
        i = i - 1;
        if str_eq(fields[i].0.as_str(), key) {
            proof {
                lemma_entries_map_last(fv, i as int, key@);
            }
            return Some(&fields[i].1);
        }
    }
    proof {
        lemma_entries_map_absent(fv, key@);
    }
    None
}

fn field_str<'a>(fields: &'a Vec<(String, JsonField)>, key: &str) -> (r: Option<&'a str>)
    ensures
        match r {
            Some(s) => get_str(entries_map(fields_view(fields@)), key@) == Some(s@),
            None => get_str(entries_map(fields_view(fields@)), key@) is None,
        },
{
    match field(fields, key) {
        Some(JsonField::Str(s)) => Some(s.as_str()),
        _ => None,
    }
}

fn field_u64(fields: &Vec<(String, JsonField)>, key: &str) -> (r: Option<u64>)
    ensures
        r == get_u64(entries_map(fields_view(fields@)), key@),
{
    match field(fields, key) {
        Some(JsonField::Unsigned(n)) => Some(*n),
        _ => None,
    }
}

fn field_bool(fields: &Vec<(String, JsonField)>, key: &str) -> (r: Option<bool>)
    ensures
        r == get_bool(entries_map(fields_view(fields@)), key@),
{
    match field(fields, key) {
        Some(JsonField::Bool(b)) => Some(*b),
        _ => None,
    }
}

fn field_array<'a>(fields: &'a Vec<(String, JsonField)>, key: &str) -> (r: Option<&'a Vec<JsonItem>>)
    ensures
        match r {
            Some(a) => get_array(entries_map(fields_view(fields@)), key@) == Some(items_view(a@)),
            None => get_array(entries_map(fields_view(fields@)), key@) is None,
        },
{
    match field(fields, key) {
        Some(JsonField::Array(a)) => Some(a),
        _ => None,
    }
}

// ── Lists ───────────────────────────────────────────────────────────

/// The card identifiers among `items` (each number cut to 32 bits); other
/// elements are skipped.
pub open spec fn item_ids(items: Seq<JsonItemView>) -> Seq<CardInstanceId>
    decreases items.len(),
{
    if items.len() == 0 {
        Seq::empty()
    } else {
        let rest = item_ids(items.drop_last());
        match items.last() {
            JsonItemView::Unsigned(n) => rest.push(CardInstanceId(n as u32)),
            _ => rest,
        }
    }
}

/// The slots named by the strings among `items`; other elements are skipped.
pub open spec fn item_slots(items: Seq<JsonItemView>) -> Seq<SlotRef>
    decreases items.len(),
{
    if items.len() == 0 {
        Seq::empty()
    } else {
        let rest = item_slots(items.drop_last());
        match items.last() {
            JsonItemView::Str(s) => rest.push(spec_parse_slot_ref(s)),
            _ => rest,
        }
    }
}

fn ids_of_items(items: &Vec<JsonItem>) -> (r: Vec<CardInstanceId>)
    ensures
        r@ == item_ids(items_view(items@)),
{
    let mut r: Vec<CardInstanceId> = Vec::new();
    let mut i: usize = 0;
    while i < items.len()
        invariant
            i <= items@.len(),
            r@ == item_ids(items_view(items@.subrange(0, i as int))),
        decreases items@.len() - i,
    {
        proof {
            assert(items_view(items@.subrange(0, i + 1)).drop_last() =~= items_view(items@.subrange(0, i as int)));
        }
        match &items[i] {
            JsonItem::Unsigned(n) => {
                r.push(CardInstanceId(*n as u32));
            },
            _ => {},
        }
        i = i + 1;
    }
    proof {
        assert(items@.subrange(0, i as int) =~= items@);
    }
    r
}

fn slots_of_items(items: &Vec<JsonItem>) -> (r: Vec<SlotRef>)
    ensures
        r@ == item_slots(items_view(items@)),
{
    let mut r: Vec<SlotRef> = Vec::new();
    let mut i: usize = 0;
    while i < items.len()
        invariant
            i <= items@.len(),
            r@ == item_slots(items_view(items@.subrange(0, i as int))),
        decreases items@.len() - i,
    {
        proof {
            assert(items_view(items@.subrange(0, i + 1)).drop_last() =~= items_view(items@.subrange(0, i as int)));
        }
        match &items[i] {
            JsonItem::Str(s) => {
                r.push(parse_slot_ref(s.as_str()));
            },
            _ => {},
        }
        i = i + 1;
    }
    proof {
        assert(items@.subrange(0, i as int) =~= items@);
    }
    r
}


// ── Actions ─────────────────────────────────────────────────────────

pub type JsonObject = Map<Seq<char>, JsonFieldView>;

/// The choices of an object: `selected_cards`, `selected_slots`,
/// `selected_count` and `mode`, each where present with the right kind.
pub open spec fn choices_parsed(c: Choices, m: JsonObject) -> bool {
    &&& c.selected_cards@ == match get_array(m, "selected_cards"@) {
        Some(a) => item_ids(a),
        None => Seq::empty(),
    }
    &&& c.selected_slots@ == match get_array(m, "selected_slots"@) {
        Some(a) => item_slots(a),
        None => Seq::empty(),
    }
    &&& c.selected_count == match get_u64(m, "selected_count"@) {
        Some(n) => Some(n as usize),
        None => None,
    }
    &&& c.mode == match get_u64(m, "mode"@) {
        Some(n) => Some(n as u8),
        None => None,
    }
}

/// The choices read from the fields (see `choices_parsed`).
pub fn parse_choices(fields: &Vec<(String, JsonField)>) -> (r: Choices)
    ensures
        choices_parsed(r, entries_map(fields_view(fields@))),
{
    let mut choices = Choices::new();
    proof {
        assert(choices.selected_cards@ =~= Seq::<CardInstanceId>::empty());
        assert(choices.selected_slots@ =~= Seq::<SlotRef>::empty());
    }
    match field_array(fields, "selected_cards") {
        Some(a) => {
            choices.selected_cards = ids_of_items(a);
        },
        None => {},
    }
    match field_array(fields, "selected_slots") {
        Some(a) => {
            choices.selected_slots = slots_of_items(a);
        },
        None => {},
    }
    match field_u64(fields, "selected_count") {
        Some(n) => {
            choices.selected_count = Some(#[verifier::truncate] (n as usize));
        },
        None => {},
    }
    match field_u64(fields, "mode") {
        Some(n) => {
            choices.mode = Some(#[verifier::truncate] (n as u8));
        },
        None => {},
    }
    choices
}

/// The action type of an object: its `type` string, `Pass` without one.
pub open spec fn action_type(m: JsonObject) -> Seq<char> {
    match get_str(m, "type"@) {
        Some(t) => t,
        None => "Pass"@,
    }
}

/// The `card_id` of an object, cut to 32 bits.
pub open spec fn card_of(m: JsonObject) -> Option<CardInstanceId> {
    match get_u64(m, "card_id"@) {
        Some(n) => Some(CardInstanceId(n as u32)),
        None => None,
    }
}

/// The slot named by the string field `k` of an object.
pub open spec fn slot_of(m: JsonObject, k: Seq<char>) -> Option<SlotRef> {
    match get_str(m, k) {
        Some(s) => Some(spec_parse_slot_ref(s)),
        None => None,
    }
}

/// The object has the fields that its action type needs.
pub open spec fn fields_complete(m: JsonObject) -> bool {
    let t = action_type(m);
    if t == "EndTurn"@ || t == "Pass"@ || t == "MulliganDraw"@ || t == "Attack"@ {
        true
    } else if t == "SetupChooseActive"@ || t == "PlayBasicToBench"@ || t == "PlayTrainer"@ || t == "PlayStadium"@ {
        card_of(m) is Some
    } else if t == "SetupBenchBasics"@ {
        get_array(m, "card_ids"@) is Some
    } else if t == "Evolve"@ || t == "AttachEnergy"@ || t == "AttachTool"@ {
        card_of(m) is Some && slot_of(m, "target"@) is Some
    } else if t == "UseAbility"@ {
        slot_of(m, "source"@) is Some && get_u64(m, "ability_index"@) is Some
    } else if t == "Retreat"@ {
        slot_of(m, "target"@) is Some
    } else {
        false
    }
}

/// `a` is the action that a complete object describes.
pub open spec fn fields_action(a: Action, m: JsonObject) -> bool {
    let t = action_type(m);
    if t == "EndTurn"@ {
        a is EndTurn
    } else if t == "Pass"@ {
        a is Pass
    } else if t == "MulliganDraw"@ {
        a == Action::MulliganDraw {
            draw: match get_bool(m, "draw"@) {
                Some(b) => b,
                None => true,
            },
        }
    } else if t == "SetupChooseActive"@ {
        a == Action::SetupChooseActive { card: card_of(m)->0 }
    } else if t == "SetupBenchBasics"@ {
        a matches Action::SetupBenchBasics { cards } && cards@ == item_ids(get_array(m, "card_ids"@)->0)
    } else if t == "PlayBasicToBench"@ {
        a == Action::PlayBasicToBench { card: card_of(m)->0 }
    } else if t == "Evolve"@ {
        a == Action::Evolve { card: card_of(m)->0, target: slot_of(m, "target"@)->0 }
    } else if t == "AttachEnergy"@ {
        a == Action::AttachEnergy { card: card_of(m)->0, target: slot_of(m, "target"@)->0 }
    } else if t == "AttachTool"@ {
        a == Action::AttachTool { card: card_of(m)->0, target: slot_of(m, "target"@)->0 }
    } else if t == "PlayTrainer"@ {
        a matches Action::PlayTrainer { card, choices } && card == card_of(m)->0 && choices_parsed(choices, m)
    } else if t == "PlayStadium"@ {
        a matches Action::PlayStadium { card, choices } && card == card_of(m)->0 && choices_parsed(choices, m)
    } else if t == "UseAbility"@ {
        a matches Action::UseAbility { source, ability_index, choices } && source == slot_of(m, "source"@)->0
            && ability_index == get_u64(m, "ability_index"@)->0 as u8 && choices_parsed(choices, m)
    } else if t == "Retreat"@ {
        a matches Action::Retreat { target, discard } && target == slot_of(m, "target"@)->0 && discard@
            == match get_array(m, "discard"@) {
            Some(arr) => item_ids(arr),
            None => Seq::empty(),
        }
    } else {
        a matches Action::Attack { attack_index, choices } && attack_index == (match get_u64(m, "attack_index"@) {
            Some(n) => n,
            None => 0,
        }) as u8 && choices_parsed(choices, m)
    }
}

fn field_card(fields: &Vec<(String, JsonField)>) -> (r: Option<CardInstanceId>)
    ensures
        r == card_of(entries_map(fields_view(fields@))),
{
    match field_u64(fields, "card_id") {
        Some(n) => Some(CardInstanceId(n as u32)),
        None => None,
    }
}

fn field_slot(fields: &Vec<(String, JsonField)>, key: &str) -> (r: Option<SlotRef>)
    ensures
        r == slot_of(entries_map(fields_view(fields@)), key@),
{
    match field_str(fields, key) {
        Some(s) => Some(parse_slot_ref(s)),
        None => None,
    }
}

/// The action type names differ in length, first or last letter.
proof fn lemma_action_type_names()
    ensures
        "EndTurn"@.len() == 7 && "EndTurn"@[0] == 'E' && "EndTurn"@[6] == 'n',
        "Pass"@.len() == 4 && "Pass"@[0] == 'P' && "Pass"@[3] == 's',
        "MulliganDraw"@.len() == 12 && "MulliganDraw"@[0] == 'M' && "MulliganDraw"@[11] == 'w',
        "Attack"@.len() == 6 && "Attack"@[0] == 'A' && "Attack"@[5] == 'k',
        "SetupChooseActive"@.len() == 17 && "SetupChooseActive"@[0] == 'S' && "SetupChooseActive"@[16] == 'e',
        "PlayBasicToBench"@.len() == 16 && "PlayBasicToBench"@[0] == 'P' && "PlayBasicToBench"@[15] == 'h',
        "PlayTrainer"@.len() == 11 && "PlayTrainer"@[0] == 'P' && "PlayTrainer"@[10] == 'r',
        "PlayStadium"@.len() == 11 && "PlayStadium"@[0] == 'P' && "PlayStadium"@[10] == 'm',
        "SetupBenchBasics"@.len() == 16 && "SetupBenchBasics"@[0] == 'S' && "SetupBenchBasics"@[15] == 's',
        "Evolve"@.len() == 6 && "Evolve"@[0] == 'E' && "Evolve"@[5] == 'e',
        "AttachEnergy"@.len() == 12 && "AttachEnergy"@[0] == 'A' && "AttachEnergy"@[11] == 'y',
        "AttachTool"@.len() == 10 && "AttachTool"@[0] == 'A' && "AttachTool"@[9] == 'l',
        "UseAbility"@.len() == 10 && "UseAbility"@[0] == 'U' && "UseAbility"@[9] == 'y',
        "Retreat"@.len() == 7 && "Retreat"@[0] == 'R' && "Retreat"@[6] == 't',
{
    reveal_strlit("EndTurn");
    reveal_strlit("Pass");
    reveal_strlit("MulliganDraw");
    reveal_strlit("Attack");
    reveal_strlit("SetupChooseActive");
    reveal_strlit("PlayBasicToBench");
    reveal_strlit("PlayTrainer");
    reveal_strlit("PlayStadium");
    reveal_strlit("SetupBenchBasics");
    reveal_strlit("Evolve");
    reveal_strlit("AttachEnergy");
    reveal_strlit("AttachTool");
    reveal_strlit("UseAbility");
    reveal_strlit("Retreat");
}

/// The action that the fields of a JSON object describe, `None` when its
/// action type is unknown or a field that the type needs is missing.
pub fn action_from_fields(fields: &Vec<(String, JsonField)>) -> (r: Option<Action>)
    ensures
        r is Some <==> fields_complete(entries_map(fields_view(fields@))),
        r matches Some(a) ==> fields_action(a, entries_map(fields_view(fields@))),
{
    let t: &str = match field_str(fields, "type") {
        Some(t) => t,
        None => "Pass",
    };
    proof {
        lemma_action_type_names();
    }
    if str_eq(t, "EndTurn") {
        Some(Action::EndTurn)
    } else if str_eq(t, "Pass") {
        Some(Action::Pass)
    } else if str_eq(t, "MulliganDraw") {
        let draw = match field_bool(fields, "draw") {
            Some(b) => b,
            None => true,
        };
        Some(Action::MulliganDraw { draw })
    } else if str_eq(t, "SetupChooseActive") {
        match field_card(fields) {
            Some(card) => Some(Action::SetupChooseActive { card }),
            None => None,
        }
    } else if str_eq(t, "SetupBenchBasics") {
        match field_array(fields, "card_ids") {
            Some(a) => Some(Action::SetupBenchBasics { cards: ids_of_items(a) }),
            None => None,
        }
    } else if str_eq(t, "PlayBasicToBench") {
        match field_card(fields) {
            Some(card) => Some(Action::PlayBasicToBench { card }),
            None => None,
        }
    } else if str_eq(t, "Evolve") || str_eq(t, "AttachEnergy") || str_eq(t, "AttachTool") {
        match (field_card(fields), field_slot(fields, "target")) {
            (Some(card), Some(target)) => if str_eq(t, "Evolve") {
                Some(Action::Evolve { card, target })
            } else if str_eq(t, "AttachEnergy") {
                Some(Action::AttachEnergy { card, target })
            } else {
                Some(Action::AttachTool { card, target })
            },
            _ => None,
        }
    } else if str_eq(t, "PlayTrainer") {
        match field_card(fields) {
            Some(card) => Some(Action::PlayTrainer { card, choices: parse_choices(fields) }),
            None => None,
        }
    } else if str_eq(t, "PlayStadium") {
        match field_card(fields) {
            Some(card) => Some(Action::PlayStadium { card, choices: parse_choices(fields) }),
            None => None,
        }
    } else if str_eq(t, "UseAbility") {
        match (field_slot(fields, "source"), field_u64(fields, "ability_index")) {
            (Some(source), Some(ability_index)) => Some(
                Action::UseAbility { source, ability_index: #[verifier::truncate] (ability_index as u8), choices: parse_choices(fields) },
            ),
            _ => None,
        }
    } else if str_eq(t, "Retreat") {
        match field_slot(fields, "target") {
            Some(target) => {
                let discard = match field_array(fields, "discard") {
                    Some(a) => ids_of_items(a),
                    None => Vec::new(),
                };
                Some(Action::Retreat { target, discard })
            },
            None => None,
        }
    } else if str_eq(t, "Attack") {
        let attack_index = match field_u64(fields, "attack_index") {
            Some(n) => n,
            None => 0,
        };
        Some(Action::Attack { attack_index: #[verifier::truncate] (attack_index as u8), choices: parse_choices(fields) })
    } else {
        None
    }
}

/// What an unreadable text stands for: `EndTurn` when it is `EndTurn`
/// within double quotes or none, otherwise `Pass`.
pub open spec fn fallback_action(a: Action, json: Seq<char>) -> bool {
    if trim_quotes(json) == "EndTurn"@ {
        a is EndTurn
    } else {
        a is Pass
    }
}

/// The action that `json` describes: a JSON object whose fields are complete
/// gives its action; any other text gives `EndTurn` when it is `EndTurn`
/// (within double quotes or none) and `Pass` otherwise.
pub fn parse_action_json(json: &str) -> (r: Action)
    ensures
        match spec_json_object(json@) {
            Some(m) => if fields_complete(m) {
                fields_action(r, m)
            } else {
                fallback_action(r, json@)
            },
            None => fallback_action(r, json@),
        },
{
    match json_object_fields(json) {
        Some(fields) => match action_from_fields(&fields) {
            Some(a) => {
                return a;
            },
            None => {},
        },
        None => {},
    }
    let v = chars_of(json);
    let (a, b) = trim_quotes_bounds(&v);
    let end_turn = chars_of("EndTurn");
    if chars_eq(&v, a, b, &end_turn) {
        Action::EndTurn
    } else {
        Action::Pass
    }
}

} // verus!
