//! A map from texts to values that keeps its keys in order.
use crate::text::{
    before, same, sorts_before, sorts_before_strict, sorts_before_total, sorts_before_transitive,
};
use vstd::prelude::*;

verus! {

// ------------------------------------------------------------------- models --

/// The value of the first entry under `key`.
pub open spec fn lookup<V>(entries: Seq<(Seq<char>, V)>, key: Seq<char>) -> Option<V>
    decreases entries.len(),
{
    if entries.len() == 0 {
        None
    } else if entries[0].0 == key {
        Some(entries[0].1)
    } else {
        lookup(entries.drop_first(), key)
    }
}

/// Whether the keys come in order and none comes twice.
pub open spec fn ordered<V>(entries: Seq<(Seq<char>, V)>) -> bool {
    forall|i: int, j: int|
        0 <= i < j < entries.len() ==> sorts_before(#[trigger] entries[i].0, #[trigger] entries[j].0)
}

/// The position of the first key that does not sort before `key`.
pub open spec fn place<V>(entries: Seq<(Seq<char>, V)>, key: Seq<char>) -> int
    decreases entries.len(),
{
    if entries.len() == 0 || !sorts_before(entries[0].0, key) {
        0
    } else {
        1 + place(entries.drop_first(), key)
    }
}

/// The entries once `key` stands for `value`.
pub open spec fn inserted<V>(entries: Seq<(Seq<char>, V)>, key: Seq<char>, value: V) -> Seq<
    (Seq<char>, V),
> {
    let at = place(entries, key);
    if at < entries.len() && entries[at].0 == key {
        entries.update(at, (key, value))
    } else {
        entries.insert(at, (key, value))
    }
}

// -------------------------------------------------------------------- laws --

proof fn place_bounds<V>(entries: Seq<(Seq<char>, V)>, key: Seq<char>)
    ensures
        0 <= place(entries, key) <= entries.len(),
        forall|i: int|
            0 <= i < place(entries, key) ==> sorts_before(#[trigger] entries[i].0, key),
        place(entries, key) < entries.len() ==> !sorts_before(
            entries[place(entries, key)].0,
            key,
        ),
    decreases entries.len(),
{
    if entries.len() > 0 && sorts_before(entries[0].0, key) {
        let rest = entries.drop_first();
        place_bounds(rest, key);
        assert forall|i: int| 0 <= i < place(entries, key) implies sorts_before(
            #[trigger] entries[i].0,
            key,
        ) by {
            if i > 0 {
                assert(rest[i - 1] == entries[i]);
            }
        }
        if place(entries, key) < entries.len() {
            assert(rest[place(rest, key)] == entries[place(entries, key)]);
        }
    }
}

proof fn lookup_at<V>(entries: Seq<(Seq<char>, V)>, key: Seq<char>, at: int)
    requires
        0 <= at < entries.len(),
        entries[at].0 == key,
        forall|i: int| 0 <= i < at ==> #[trigger] entries[i].0 != key,
    ensures
        lookup(entries, key) == Some(entries[at].1),
    decreases at,
{
    if at > 0 {
        assert(entries[0].0 != key);
        let rest = entries.drop_first();
        assert forall|i: int| 0 <= i < at - 1 implies #[trigger] rest[i].0 != key by {
            assert(entries[i + 1].0 != key);
        }
        lookup_at(rest, key, at - 1);
    }
}

/// An insertion keeps the keys in order, and what was inserted is what a look-up
/// of its key finds.
pub proof fn insertion_reads_back<V>(entries: Seq<(Seq<char>, V)>, key: Seq<char>, value: V)
    requires
        ordered(entries),
    ensures
        ordered(inserted(entries, key, value)),
        lookup(inserted(entries, key, value), key) == Some(value),
{
    let at = place(entries, key);
    let after = inserted(entries, key, value);
    place_bounds(entries, key);
    assert forall|i: int, j: int| 0 <= i < j < after.len() implies sorts_before(
        #[trigger] after[i].0,
        #[trigger] after[j].0,
    ) by {
        if at < entries.len() && entries[at].0 == key {
            assert(sorts_before(entries[i].0, entries[j].0));
        } else {
            if at < entries.len() {
                sorts_before_total(key, entries[at].0);
                assert(sorts_before(key, entries[at].0));
            }
            if j < at {
                assert(sorts_before(entries[i].0, entries[j].0));
            } else if j == at {
                assert(sorts_before(entries[i].0, key));
            } else {
                if i < at {
                    assert(sorts_before(entries[i].0, entries[j - 1].0));
                } else if i == at {
                    if j - 1 > at {
                        assert(sorts_before(entries[at].0, entries[j - 1].0));
                        sorts_before_transitive(key, entries[at].0, entries[j - 1].0);
                    }
                } else {
                    assert(sorts_before(entries[i - 1].0, entries[j - 1].0));
                }
            }
        }
    }
    assert forall|i: int| 0 <= i < at implies #[trigger] after[i].0 != key by {
        assert(sorts_before(entries[i].0, key));
        sorts_before_strict(entries[i].0, key);
    }
    lookup_at(after, key, at);
}

proof fn lookup_skip<V>(entries: Seq<(Seq<char>, V)>, key: Seq<char>, at: int)
    requires
        0 <= at < entries.len(),
        entries[at].0 != key,
    ensures
        lookup(entries, key) == lookup(entries.remove(at), key),
    decreases at,
{
    if at == 0 {
        assert(entries.remove(0) =~= entries.drop_first());
    } else if entries[0].0 != key {
        lookup_skip(entries.drop_first(), key, at - 1);
        assert(entries.remove(at).drop_first() =~= entries.drop_first().remove(at - 1));
    }
}

/// An insertion leaves what every other key stands for as it was.
pub proof fn insertion_keeps_others<V>(
    entries: Seq<(Seq<char>, V)>,
    key: Seq<char>,
    value: V,
    other: Seq<char>,
)
    requires
        other != key,
    ensures
        lookup(inserted(entries, key, value), other) == lookup(entries, other),
{
    let at = place(entries, key);
    let after = inserted(entries, key, value);
    place_bounds(entries, key);
    lookup_skip(after, other, at);
    if at < entries.len() && entries[at].0 == key {
        lookup_skip(entries, other, at);
        assert(after.remove(at) =~= entries.remove(at));
    } else {
        assert(after.remove(at) =~= entries);
    }
}

// --------------------------------------------------------------------- map --

/// A map from texts to values, in the order of the texts.
pub struct TextMap<V> {
    entries: Vec<(String, V)>,
}

pub open spec fn entry_views<V>(entries: Seq<(String, V)>) -> Seq<(Seq<char>, V)> {
    entries.map_values(|entry: (String, V)| (entry.0@, entry.1))
}

impl<V> TextMap<V> {
    pub closed spec fn view(&self) -> Seq<(Seq<char>, V)> {
        entry_views(self.entries@)
    }

    #[verifier::type_invariant]
    spec fn sorted(self) -> bool {
        ordered(entry_views(self.entries@))
    }

    /// A map without entries.
    pub fn new() -> (map: TextMap<V>)
        ensures
            map@ == Seq::<(Seq<char>, V)>::empty(),
    {
        let entries: Vec<(String, V)> = Vec::new();
        assert(entry_views(entries@) =~= Seq::<(Seq<char>, V)>::empty());
        TextMap { entries }
    }

    /// Makes `key` stand for `value`.
    pub fn insert(&mut self, key: String, value: V)
        ensures
            final(self)@ == inserted(old(self)@, key@, value),
    {
        proof {
            use_type_invariant(&*self);
        }
        let mut entries: Vec<(String, V)> = Vec::new();
        std::mem::swap(&mut entries, &mut self.entries);
        let ghost all = entry_views(entries@);
        assert(all == old(self)@);
        let mut at: usize = 0;
        assert(all.skip(0) =~= all);
        while at < entries.len() && before(entries[at].0.as_str(), key.as_str())
            invariant
                at <= entries@.len(),
                all == entry_views(entries@),
                place(all, key@) == at + place(all.skip(at as int), key@),
            decreases entries@.len() - at,
        {
            assert(all.skip(at as int)[0] == (entries@[at as int].0@, entries@[at as int].1));
            assert(all.skip(at as int).drop_first() =~= all.skip(at + 1));
            at = at + 1;
        }
        proof {
            if at < entries@.len() {
                assert(all.skip(at as int)[0] == (entries@[at as int].0@, entries@[at as int].1));
            }
            insertion_reads_back(all, key@, value);
        }
        let ghost wanted = inserted(all, key@, value);
        if at < entries.len() && same(entries[at].0.as_str(), key.as_str()) {
            entries.set(at, (key, value));
        } else {
            entries.insert(at, (key, value));
        }
        assert(entry_views(entries@) =~= wanted);
        self.entries = entries;
    }

    /// What `key` stands for.
    pub fn get(&self, key: &str) -> (value: Option<&V>)
        ensures
            match value {
                Some(value) => lookup(self@, key@) == Some(*value),
                None => lookup(self@, key@) is None,
            },
    {
        let ghost all = self@;
        let mut at: usize = 0;
        assert(all.skip(0) =~= all);
        while at < self.entries.len()
            invariant
                at <= self.entries@.len(),
                all == entry_views(self.entries@),
                lookup(all, key@) == lookup(all.skip(at as int), key@),
            decreases self.entries@.len() - at,
        {
            assert(all.skip(at as int)[0] == (
                self.entries@[at as int].0@,
                self.entries@[at as int].1,
            ));
            if same(self.entries[at].0.as_str(), key) {
                return Some(&self.entries[at].1);
            }
            assert(all.skip(at as int).drop_first() =~= all.skip(at + 1));
            at = at + 1;
        }
        None
    }

    /// How many keys the map has.
    pub fn len(&self) -> (length: usize)
        ensures
            length == self@.len(),
    {
        self.entries.len()
    }

    /// The key at a position of the map's order.
    pub fn key(&self, at: usize) -> (key: &String)
        requires
            at < self@.len(),
        ensures
            key@ == self@[at as int].0,
    {
        &self.entries[at].0
    }

    /// The value at a position of the map's order.
    pub fn value(&self, at: usize) -> (value: &V)
        requires
            at < self@.len(),
        ensures
            *value == self@[at as int].1,
    {
        &self.entries[at].1
    }
}

// ------------------------------------------------------------------- texts --

/// The text that `key` stands for.
pub open spec fn text_at(entries: Seq<(Seq<char>, String)>, key: Seq<char>) -> Option<Seq<char>> {
    match lookup(entries, key) {
        Some(text) => Some(text@),
        None => None,
    }
}

/// The text that `key` stands for, or an empty one.
pub open spec fn text_or(entries: Seq<(Seq<char>, String)>, key: Seq<char>) -> Seq<char> {
    match lookup(entries, key) {
        Some(text) => text@,
        None => Seq::empty(),
    }
}

/// The text that `key` stands for, or an empty one.
pub fn text_or_blank(map: &TextMap<String>, key: &str) -> (text: String)
    ensures
        text@ == text_or(map@, key@),
{
    match map.get(key) {
        Some(text) => text.clone(),
        None => String::new(),
    }
}

/// Whether `key` stands for exactly the text `wanted`.
pub fn stands_for(map: &TextMap<String>, key: &str, wanted: &str) -> (yes: bool)
    ensures
        yes == (text_at(map@, key@) == Some(wanted@)),
{
    match map.get(key) {
        Some(text) => same(text.as_str(), wanted),
        None => false,
    }
}

} // verus!
