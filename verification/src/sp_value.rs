//! The values that travel through Redis, and a set of them by key.
//!
//! Every key holds one typed value. A value may be *unknown*: the key exists and its type is
//! fixed, but nothing has been written to it yet.

use crate::double::Double;
use crate::text::same;
use vstd::prelude::*;

verus! {

/// A value under a Redis key. Each typed variant is `None` while its value is unknown.
#[derive(Debug)]
pub enum SpValue {
    Bool(Option<bool>),
    Float64(Option<Double>),
    Int64(Option<i64>),
    Text(Option<String>),
    Array(Option<Vec<SpValue>>),
    /// Keys and values, in the order they were written.
    Table(Option<Vec<(SpValue, SpValue)>>),
    /// A value of a type the driver has no use for.
    Other,
}

/// What an [`SpValue`] says: text by its characters, arrays and tables by their elements.
pub enum SpView {
    Bool(Option<bool>),
    Float64(Option<Double>),
    Int64(Option<i64>),
    Text(Option<Seq<char>>),
    Array(Option<Seq<SpValue>>),
    Table(Option<Seq<(SpValue, SpValue)>>),
    Other,
}

impl View for SpValue {
    type V = SpView;

    open spec fn view(&self) -> SpView {
        match *self {
            SpValue::Bool(b) => SpView::Bool(b),
            SpValue::Float64(d) => SpView::Float64(d),
            SpValue::Int64(i) => SpView::Int64(i),
            SpValue::Text(Some(s)) => SpView::Text(Some(s@)),
            SpValue::Text(None) => SpView::Text(None),
            SpValue::Array(Some(v)) => SpView::Array(Some(v@)),
            SpValue::Array(None) => SpView::Array(None),
            SpValue::Table(Some(v)) => SpView::Table(Some(v@)),
            SpValue::Table(None) => SpView::Table(None),
            SpValue::Other => SpView::Other,
        }
    }
}

impl SpValue {
    /// A known text.
    pub fn text(s: &str) -> (r: SpValue)
        ensures
            r@ == SpView::Text(Some(s@)),
    {
        SpValue::Text(Some(s.to_owned()))
    }

    /// An array of known numbers.
    pub fn doubles(values: &Vec<Double>) -> (r: SpValue)
        ensures
            r@ matches SpView::Array(Some(elements)) && elements.len() == values@.len() && forall|
                i: int,
            |
                0 <= i < values@.len() ==> (#[trigger] elements[i])@ == SpView::Float64(
                    Some(values@[i]),
                ),
    {
        let mut elements: Vec<SpValue> = Vec::new();
        let mut i: usize = 0;
        while i < values.len()
            invariant
                i <= values.len(),
                elements.len() == i,
                forall|j: int|
                    0 <= j < i ==> (#[trigger] elements@[j])@ == SpView::Float64(Some(values@[j])),
            decreases values.len() - i,
        {
            elements.push(SpValue::Float64(Some(values[i])));
            i = i + 1;
        }
        SpValue::Array(Some(elements))
    }
}

/// What stands under `key` in a list of entries: the first entry with that key counts.
pub open spec fn entry(entries: Seq<(String, SpValue)>, key: Seq<char>) -> Option<SpView>
    decreases entries.len(),
{
    if entries.len() == 0 {
        None
    } else if entries[0].0@ == key {
        Some(entries[0].1@)
    } else {
        entry(entries.drop_first(), key)
    }
}

/// Values by key.
#[derive(Debug)]
pub struct State {
    entries: Vec<(String, SpValue)>,
}

impl View for State {
    type V = Map<Seq<char>, SpView>;

    closed spec fn view(&self) -> Map<Seq<char>, SpView> {
        Map::new(
            |key: Seq<char>| entry(self.entries@, key) is Some,
            |key: Seq<char>| entry(self.entries@, key)->0,
        )
    }
}

impl State {
    /// A state without keys.
    pub fn new() -> (r: State)
        ensures
            r@ == Map::<Seq<char>, SpView>::empty(),
    {
        let r = State { entries: Vec::new() };
        assert(r@ =~= Map::<Seq<char>, SpView>::empty());
        r
    }

    fn position(&self, key: &str) -> (r: usize)
        ensures
            r <= self.entries.len(),
            forall|j: int| 0 <= j < r ==> (#[trigger] self.entries@[j]).0@ != key@,
            r < self.entries.len() ==> self.entries@[r as int].0@ == key@,
    {
        let mut i: usize = 0;
        while i < self.entries.len()
            invariant
                i <= self.entries.len(),
                forall|j: int| 0 <= j < i ==> (#[trigger] self.entries@[j]).0@ != key@,
            decreases self.entries.len() - i,
        {
            if same(self.entries[i].0.as_str(), key) {
                return i;
            }
            i = i + 1;
        }
        i
    }

    /// Put `value` under `key`, whatever stood there.
    pub fn set(&mut self, key: &str, value: SpValue)
        ensures
            final(self)@ == old(self)@.insert(key@, value@),
    {
        let i = self.position(key);
        let before = Ghost(self.entries@);
        let view = Ghost(value@);
        if i < self.entries.len() {
            self.entries[i] = (key.to_owned(), value);
            proof {
                assert forall|k: Seq<char>|
                    #![trigger entry(self.entries@, k)]
                    entry(self.entries@, k) == (if k == key@ {
                        Some(view@)
                    } else {
                        entry(before@, k)
                    }) by {
                    lemma_entry_update(before@, self.entries@, i as int, key@, k);
                }
            }
        } else {
            self.entries.push((key.to_owned(), value));
            proof {
                assert forall|k: Seq<char>|
                    #![trigger entry(self.entries@, k)]
                    entry(self.entries@, k) == (if k == key@ {
                        Some(view@)
                    } else {
                        entry(before@, k)
                    }) by {
                    lemma_entry_push(before@, self.entries@.last(), k);
                    assert(before@.push(self.entries@.last()) =~= self.entries@);
                    lemma_entry_absent(before@, key@);
                }
            }
        }
        assert(self@ =~= old(self)@.insert(key@, view@));
    }

    /// The value under `key`.
    pub fn get(&self, key: &str) -> (r: Option<&SpValue>)
        ensures
            match r {
                Some(v) => self@.dom().contains(key@) && v@ == self@[key@],
                None => !self@.dom().contains(key@),
            },
    {
        let i = self.position(key);
        proof {
            if i < self.entries.len() {
                lemma_entry_at(self.entries@, i as int, key@);
            } else {
                lemma_entry_absent(self.entries@, key@);
            }
        }
        if i < self.entries.len() {
            Some(&self.entries[i].1)
        } else {
            None
        }
    }

    /// Whether `key` has a value.
    pub fn contains(&self, key: &str) -> (r: bool)
        ensures
            r == self@.dom().contains(key@),
    {
        self.get(key).is_some()
    }

    /// The entries, in the order their keys first came in.
    pub fn entries(&self) -> (r: &Vec<(String, SpValue)>)
        ensures
            forall|key: Seq<char>|
                #![trigger entry(r@, key)]
                self@.dom().contains(key) == (entry(r@, key) is Some) && (entry(r@, key) is Some
                    ==> entry(r@, key) == Some(self@[key])),
    {
        &self.entries
    }
}

proof fn lemma_entry_at(entries: Seq<(String, SpValue)>, i: int, key: Seq<char>)
    requires
        0 <= i < entries.len(),
        entries[i].0@ == key,
        forall|j: int| 0 <= j < i ==> (#[trigger] entries[j]).0@ != key,
    ensures
        entry(entries, key) == Some(entries[i].1@),
    decreases i,
{
    if i > 0 {
        let rest = entries.drop_first();
        assert(entries[0].0@ != key);
        assert forall|j: int| 0 <= j < i - 1 implies (#[trigger] rest[j]).0@ != key by {
            assert(rest[j] == entries[j + 1]);
        }
        lemma_entry_at(rest, i - 1, key);
    }
}

proof fn lemma_entry_absent(entries: Seq<(String, SpValue)>, key: Seq<char>)
    requires
        forall|j: int| 0 <= j < entries.len() ==> (#[trigger] entries[j]).0@ != key,
    ensures
        entry(entries, key) is None,
    decreases entries.len(),
{
    if entries.len() > 0 {
        let rest = entries.drop_first();
        assert(entries[0].0@ != key);
        assert forall|j: int| 0 <= j < rest.len() implies (#[trigger] rest[j]).0@ != key by {
            assert(rest[j] == entries[j + 1]);
        }
        lemma_entry_absent(rest, key);
    }
}

proof fn lemma_entry_push(entries: Seq<(String, SpValue)>, last: (String, SpValue), key: Seq<char>)
    ensures
        entry(entries.push(last), key) == (if entry(entries, key) is Some {
            entry(entries, key)
        } else if last.0@ == key {
            Some(last.1@)
        } else {
            None
        }),
    decreases entries.len(),
{
    if entries.len() == 0 {
        reveal_with_fuel(entry, 2);
        assert(entries.push(last)[0] == last);
        assert(entries.push(last).drop_first() =~= Seq::empty());
    } else {
        assert(entries.push(last).drop_first() =~= entries.drop_first().push(last));
        lemma_entry_push(entries.drop_first(), last, key);
    }
}

proof fn lemma_entry_update(
    before: Seq<(String, SpValue)>,
    after: Seq<(String, SpValue)>,
    i: int,
    key: Seq<char>,
    k: Seq<char>,
)
    requires
        0 <= i < before.len(),
        after.len() == before.len(),
        forall|j: int| 0 <= j < before.len() && j != i ==> after[j] == #[trigger] before[j],
        forall|j: int| 0 <= j < i ==> (#[trigger] before[j]).0@ != key,
        before[i].0@ == key,
        after[i].0@ == key,
    ensures
        entry(after, k) == (if k == key {
            Some(after[i].1@)
        } else {
            entry(before, k)
        }),
    decreases before.len(),
{
    if i == 0 {
        assert(after.drop_first() =~= before.drop_first());
    } else {
        let b = before.drop_first();
        let a = after.drop_first();
        assert(before[0].0@ != key);
        assert(after[0] == before[0]);
        assert forall|j: int| 0 <= j < b.len() && j != i - 1 implies a[j] == #[trigger] b[j] by {
            assert(b[j] == before[j + 1]);
        }
        assert forall|j: int| 0 <= j < i - 1 implies (#[trigger] b[j]).0@ != key by {
            assert(b[j] == before[j + 1]);
        }
        lemma_entry_update(b, a, i - 1, key, k);
    }
}

/// The flag under `key`, or `default` where there is none.
pub open spec fn bool_at(state: Map<Seq<char>, SpView>, key: Seq<char>, default: bool) -> bool {
    if state.dom().contains(key) {
        match state[key] {
            SpView::Bool(Some(b)) => b,
            _ => default,
        }
    } else {
        default
    }
}

/// The text under `key`, or `default` where there is none.
pub open spec fn text_at(
    state: Map<Seq<char>, SpView>,
    key: Seq<char>,
    default: Seq<char>,
) -> Seq<char> {
    if state.dom().contains(key) {
        match state[key] {
            SpView::Text(Some(s)) => s,
            _ => default,
        }
    } else {
        default
    }
}

/// The integer under `key`, or `default` where there is none.
pub open spec fn int_at(state: Map<Seq<char>, SpView>, key: Seq<char>, default: i64) -> i64 {
    if state.dom().contains(key) {
        match state[key] {
            SpView::Int64(Some(i)) => i,
            _ => default,
        }
    } else {
        default
    }
}

/// The number under `key`, or zero where there is none.
pub open spec fn double_at(state: Map<Seq<char>, SpView>, key: Seq<char>) -> Double {
    if state.dom().contains(key) {
        match state[key] {
            SpView::Float64(Some(d)) => d,
            _ => Double { bits: 0 },
        }
    } else {
        Double { bits: 0 }
    }
}

/// Read a bool from a state that may not contain the key.
///
/// A value that will not deserialize never reaches the state, so a malformed value in
/// Redis, hand-written or left over from an older build, reads as the default here instead
/// of taking the driver down.
pub fn state_bool_or(state: &State, key: &str, default: bool) -> (r: bool)
    ensures
        r == bool_at(state@, key@, default),
{
    match state.get(key) {
        Some(SpValue::Bool(Some(b))) => *b,
        _ => default,
    }
}

/// Read a string from a state that may not contain the key. See [`state_bool_or`].
pub fn state_string_or(state: &State, key: &str, default: &str) -> (r: String)
    ensures
        r@ == text_at(state@, key@, default@),
{
    match state.get(key) {
        Some(SpValue::Text(Some(s))) => s.clone(),
        _ => default.to_owned(),
    }
}

/// Read an integer from a state that may not contain the key. See [`state_bool_or`].
pub fn state_int_or(state: &State, key: &str, default: i64) -> (r: i64)
    ensures
        r == int_at(state@, key@, default),
{
    match state.get(key) {
        Some(SpValue::Int64(Some(i))) => *i,
        _ => default,
    }
}

/// Read a number from a state that may not contain the key; the default is zero. See
/// [`state_bool_or`].
pub fn state_double_or_zero(state: &State, key: &str) -> (r: Double)
    ensures
        r == double_at(state@, key@),
{
    match state.get(key) {
        Some(SpValue::Float64(Some(d))) => *d,
        _ => Double { bits: 0 },
    }
}

/// One value to be written under one key.
#[derive(Debug)]
pub struct Write {
    pub key: String,
    pub value: SpValue,
}

impl View for Write {
    type V = (Seq<char>, SpView);

    open spec fn view(&self) -> (Seq<char>, SpView) {
        (self.key@, self.value@)
    }
}

/// What a list of writes says.
pub open spec fn written(writes: Seq<Write>) -> Seq<(Seq<char>, SpView)> {
    writes.map_values(|w: Write| w@)
}

/// The key of `suffix` under the prefix that `owner` gives.
pub open spec fn key_of(owner: Seq<char>, suffix: Seq<char>) -> Seq<char> {
    owner + "_"@ + suffix
}

/// Spell the key of `suffix` under the prefix that `owner` gives.
pub fn key(owner: &str, suffix: &str) -> (r: String)
    ensures
        r@ == key_of(owner@, suffix@),
{
    crate::text::join3(owner, "_", suffix)
}

/// Keys under one prefix are equal only where their suffixes are.
pub proof fn keys_are_distinct(owner: Seq<char>, a: Seq<char>, b: Seq<char>)
    ensures
        key_of(owner, a) == key_of(owner, b) <==> a == b,
{
    let n = (owner + "_"@).len();
    assert(key_of(owner, a).skip(n as int) =~= a);
    assert(key_of(owner, b).skip(n as int) =~= b);
}

} // verus!
