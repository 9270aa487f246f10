//! A map from text.

use vstd::prelude::*;

use crate::text::{precedes, text_before, text_order_is_transitive, texts_are_ordered};

verus! {

/// Values by name. No name occurs twice.
#[derive(Debug)]
pub struct TextMap<V> {
    entries: Vec<(String, V)>,
}

spec fn distinct<V>(entries: Seq<(String, V)>) -> bool {
    forall|i: int, j: int|
        #![trigger entries[i], entries[j]]
        0 <= i < j < entries.len() ==> entries[i].0@ != entries[j].0@
}

spec fn map_of<V>(entries: Seq<(String, V)>) -> Map<Seq<char>, V>
    decreases entries.len(),
{
    if entries.len() == 0 {
        Map::empty()
    } else {
        map_of(entries.drop_last()).insert(entries.last().0@, entries.last().1)
    }
}

/// A map holds what its entries say, and nothing else.
proof fn map_holds_entries<V>(entries: Seq<(String, V)>)
    requires
        distinct(entries),
    ensures
        forall|i: int|
            #![trigger entries[i]]
            0 <= i < entries.len() ==> map_of(entries).contains_key(entries[i].0@) && map_of(
                entries,
            )[entries[i].0@] == entries[i].1,
        forall|key: Seq<char>| #[trigger]
            map_of(entries).contains_key(key) ==> exists|i: int|
                #![trigger entries[i]]
                0 <= i < entries.len() && entries[i].0@ == key,
    decreases entries.len(),
{
    if entries.len() > 0 {
        let rest = entries.drop_last();
        assert forall|i: int, j: int|
            #![trigger rest[i], rest[j]]
            0 <= i < j < rest.len() implies rest[i].0@ != rest[j].0@ by {
            assert(entries[i].0@ != entries[j].0@);
        }
        map_holds_entries(rest);
        assert forall|i: int|
            #![trigger entries[i]]
            0 <= i < entries.len() implies map_of(entries).contains_key(entries[i].0@) && map_of(
            entries,
        )[entries[i].0@] == entries[i].1 by {
            if i < entries.len() - 1 {
                assert(rest[i] == entries[i]);
                assert(entries[i].0@ != entries[entries.len() - 1].0@);
            }
        }
        assert forall|key: Seq<char>| #[trigger] map_of(entries).contains_key(key) implies exists|
            i: int,
        |
            #![trigger entries[i]]
            0 <= i < entries.len() && entries[i].0@ == key by {
            if key == entries.last().0@ {
                assert(entries[entries.len() - 1].0@ == key);
            } else {
                assert(map_of(rest).contains_key(key));
                let i = choose|i: int|
                    #![trigger rest[i]]
                    0 <= i < rest.len() && rest[i].0@ == key;
                assert(entries[i].0@ == key);
            }
        }
    }
}

impl<V> View for TextMap<V> {
    type V = Map<Seq<char>, V>;

    closed spec fn view(&self) -> Map<Seq<char>, V> {
        map_of(self.entries@)
    }
}

impl<V> TextMap<V> {
    #[verifier::type_invariant]
    spec fn wf(self) -> bool {
        distinct(self.entries@)
    }

    pub fn new() -> (r: Self)
        ensures
            r@ == Map::<Seq<char>, V>::empty(),
    {
        TextMap { entries: Vec::new() }
    }

    /// Where the name is, if it occurs.
    fn find(entries: &Vec<(String, V)>, key: &str) -> (found: Option<usize>)
        ensures
            match found {
                Some(index) => index < entries@.len() && entries@[index as int].0@ == key@,
                None => forall|i: int|
                    #![trigger entries@[i]]
                    0 <= i < entries@.len() ==> entries@[i].0@ != key@,
            },
    {
        let mut index: usize = 0;
        while index < entries.len()
            invariant
                index <= entries@.len(),
                forall|i: int|
                    #![trigger entries@[i]]
                    0 <= i < index ==> entries@[i].0@ != key@,
            decreases entries@.len() - index,
        {
            if crate::text::same_text(entries[index].0.as_str(), key) {
                return Some(index);
            }
            index += 1;
        }
        None
    }

    pub fn get(&self, key: &str) -> (value: Option<&V>)
        ensures
            match value {
                Some(value) => self@.contains_key(key@) && self@[key@] == *value,
                None => !self@.contains_key(key@),
            },
    {
        proof {
            use_type_invariant(self);
            map_holds_entries(self.entries@);
        }
        match Self::find(&self.entries, key) {
            Some(index) => Some(&self.entries[index].1),
            None => None,
        }
    }

    pub fn contains_key(&self, key: &str) -> (r: bool)
        ensures
            r == self@.contains_key(key@),
    {
        self.get(key).is_some()
    }

    /// Gives the name a value; the value that it had is dropped.
    pub fn insert(&mut self, key: String, value: V)
        ensures
            final(self)@ == old(self)@.insert(key@, value),
    {
        proof {
            use_type_invariant(&*self);
        }
        let mut entries: Vec<(String, V)> = Vec::new();
        std::mem::swap(&mut entries, &mut self.entries);
        let ghost before = entries@;
        proof {
            map_holds_entries(before);
        }
        match Self::find(&entries, key.as_str()) {
            Some(index) => {
                entries.set(index, (key, value));
                proof {
                    let after = entries@;
                    assert forall|i: int, j: int|
                        #![trigger after[i], after[j]]
                        0 <= i < j < after.len() implies after[i].0@ != after[j].0@ by {
                        assert(before[i].0@ != before[j].0@);
                    }
                    map_holds_entries(after);
                    assert(after[index as int] == (key, value));
                    assert forall|k: Seq<char>| map_of(after).contains_key(k) == map_of(
                        before,
                    ).insert(key@, value).contains_key(k) by {
                        if map_of(before).contains_key(k) {
                            let i = choose|i: int|
                                #![trigger before[i]]
                                0 <= i < before.len() && before[i].0@ == k;
                            assert(after[i].0@ == k);
                        }
                        if map_of(after).contains_key(k) {
                            let i = choose|i: int|
                                #![trigger after[i]]
                                0 <= i < after.len() && after[i].0@ == k;
                            assert(before[i].0@ == k);
                        }
                    }
                    assert forall|k: Seq<char>| map_of(after).contains_key(k) implies map_of(
                        after,
                    )[k] == map_of(before).insert(key@, value)[k] by {
                        let i = choose|i: int|
                            #![trigger after[i]]
                            0 <= i < after.len() && after[i].0@ == k;
                        assert(before[i].0@ == k);
                    }
                    assert(map_of(after) =~= map_of(before).insert(key@, value));
                }
            },
            None => {
                entries.push((key, value));
                proof {
                    let after = entries@;
                    assert(after.drop_last() =~= before);
                    assert forall|i: int, j: int|
                        #![trigger after[i], after[j]]
                        0 <= i < j < after.len() implies after[i].0@ != after[j].0@ by {
                        assert(before[i].0@ != key@);
                        if j < before.len() {
                            assert(before[i].0@ != before[j].0@);
                        }
                    }
                }
            },
        }
        self.entries = entries;
    }

    /// Takes the name out; the value that it had is handed back.
    pub fn remove(&mut self, key: &str) -> (removed: Option<V>)
        ensures
            removed == (if old(self)@.contains_key(key@) {
                Some(old(self)@[key@])
            } else {
                None
            }),
            final(self)@ == old(self)@.remove(key@),
    {
        proof {
            use_type_invariant(&*self);
        }
        let mut entries: Vec<(String, V)> = Vec::new();
        std::mem::swap(&mut entries, &mut self.entries);
        let ghost before = entries@;
        proof {
            map_holds_entries(before);
        }
        let removed = match Self::find(&entries, key) {
            Some(index) => {
                let entry = entries.remove(index);
                proof {
                    let after = entries@;
                    assert forall|i: int|
                        #![trigger after[i]]
                        0 <= i < after.len() implies after[i] == before[if i < index {
                        i
                    } else {
                        i + 1
                    }] by {}
                    assert forall|i: int, j: int|
                        #![trigger after[i], after[j]]
                        0 <= i < j < after.len() implies after[i].0@ != after[j].0@ by {
                        let from = if i < index {
                            i
                        } else {
                            i + 1
                        };
                        let to = if j < index {
                            j
                        } else {
                            j + 1
                        };
                        assert(before[from].0@ != before[to].0@);
                    }
                    map_holds_entries(after);
                    assert forall|k: Seq<char>| map_of(after).contains_key(k) == map_of(
                        before,
                    ).remove(key@).contains_key(k) by {
                        if map_of(before).contains_key(k) && k != key@ {
                            let i = choose|i: int|
                                #![trigger before[i]]
                                0 <= i < before.len() && before[i].0@ == k;
                            let at = if i < index {
                                i
                            } else {
                                i - 1
                            };
                            assert(after[at].0@ == k);
                        }
                        if map_of(after).contains_key(k) {
                            let i = choose|i: int|
                                #![trigger after[i]]
                                0 <= i < after.len() && after[i].0@ == k;
                            let from = if i < index {
                                i
                            } else {
                                i + 1
                            };
                            assert(before[from].0@ == k);
                            assert(before[from].0@ != before[index as int].0@);
                        }
                    }
                    assert forall|k: Seq<char>| map_of(after).contains_key(k) implies map_of(
                        after,
                    )[k] == map_of(before).remove(key@)[k] by {
                        let i = choose|i: int|
                            #![trigger after[i]]
                            0 <= i < after.len() && after[i].0@ == k;
                        let from = if i < index {
                            i
                        } else {
                            i + 1
                        };
                        assert(before[from].0@ == k);
                    }
                    assert(map_of(after) =~= map_of(before).remove(key@));
                }
                Some(entry.1)
            },
            None => {
                assert(map_of(before) =~= map_of(before).remove(key@));
                None
            },
        };
        self.entries = entries;
        removed
    }

    pub fn len(&self) -> (r: usize)
        ensures
            r == self@.len(),
            self@.dom().finite(),
    {
        proof {
            use_type_invariant(self);
            map_has_as_many(self.entries@);
        }
        self.entries.len()
    }

    /// The names, each once, from the first to the last.
    pub fn names(&self) -> (names: Vec<String>)
        ensures
            names@.len() == self@.len(),
            forall|i: int| 0 <= i < names@.len() ==> self@.contains_key(#[trigger] names@[i]@),
            forall|key: Seq<char>| #[trigger]
                self@.contains_key(key) ==> exists|i: int|
                    0 <= i < names@.len() && #[trigger] names@[i]@ == key,
            forall|i: int, j: int|
                0 <= i < j < names@.len() ==> #[trigger] names@[i]@ != #[trigger] names@[j]@,
            rising(names@),
    {
        proof {
            use_type_invariant(self);
            map_holds_entries(self.entries@);
            map_has_as_many(self.entries@);
        }
        let ghost entries = self.entries@;
        let mut names: Vec<String> = Vec::new();
        let mut index: usize = 0;
        while index < self.entries.len()
            invariant
                index <= self.entries@.len(),
                entries == self.entries@,
                distinct(entries),
                names@.len() == index,
                rising(names@),
                forall|i: int| 0 <= i < index ==> among(names@, (#[trigger] entries[i]).0@),
                forall|i: int| 0 <= i < index ==> named(entries, index as int, #[trigger] names@[i]@),
            decreases self.entries@.len() - index,
        {
            let ghost before = names@;
            let name = self.entries[index].0.clone();
            assert forall|i: int| 0 <= i < before.len() implies #[trigger] before[i]@ != name@ by {
                assert(named(entries, index as int, before[i]@));
                let k = choose|k: int|
                    #![trigger entries[k]]
                    0 <= k < index && entries[k].0@ == before[i]@;
                assert(entries[k].0@ != entries[index as int].0@);
            }
            let at = insert_in_order(&mut names, name);
            proof {
                let after = names@;
                assert(after[at as int]@ == entries[index as int].0@);
                assert forall|i: int| 0 <= i < index + 1 implies among(
                    after,
                    (#[trigger] entries[i]).0@,
                ) by {
                    if i < index {
                        assert(among(before, entries[i].0@));
                        let k = choose|k: int|
                            0 <= k < before.len() && #[trigger] before[k]@ == entries[i].0@;
                        let to = if k < at {
                            k
                        } else {
                            k + 1
                        };
                        assert(after[to]@ == entries[i].0@);
                    }
                }
                assert forall|i: int| 0 <= i < index + 1 implies named(
                    entries,
                    index + 1,
                    #[trigger] after[i]@,
                ) by {
                    if i == at {
                        assert(entries[index as int].0@ == after[i]@);
                    } else {
                        let from = if i < at {
                            i
                        } else {
                            i - 1
                        };
                        assert(named(entries, index as int, before[from]@));
                        let k = choose|k: int|
                            #![trigger entries[k]]
                            0 <= k < index && entries[k].0@ == before[from]@;
                        assert(entries[k].0@ == after[i]@);
                    }
                }
            }
            index += 1;
        }
        proof {
            assert forall|i: int| 0 <= i < names@.len() implies self@.contains_key(
                #[trigger] names@[i]@,
            ) by {
                assert(named(entries, index as int, names@[i]@));
                let k = choose|k: int|
                    #![trigger entries[k]]
                    0 <= k < index && entries[k].0@ == names@[i]@;
                assert(map_of(entries).contains_key(entries[k].0@));
            }
            assert forall|key: Seq<char>| #[trigger] self@.contains_key(key) implies exists|i: int|
                0 <= i < names@.len() && #[trigger] names@[i]@ == key by {
                let i = choose|i: int|
                    #![trigger entries[i]]
                    0 <= i < entries.len() && entries[i].0@ == key;
                assert(among(names@, entries[i].0@));
            }
            assert forall|i: int, j: int|
                0 <= i < j < names@.len() implies #[trigger] names@[i]@ != #[trigger] names@[j]@ by {
                texts_are_ordered(names@[i]@, names@[j]@);
            }
        }
        names
    }
}

/// Each text comes before those after it.
pub open spec fn rising(names: Seq<String>) -> bool {
    forall|i: int, j: int|
        0 <= i < j < names.len() ==> text_before(#[trigger] names[i]@, #[trigger] names[j]@)
}

spec fn among(names: Seq<String>, name: Seq<char>) -> bool {
    exists|i: int| 0 <= i < names.len() && #[trigger] names[i]@ == name
}

spec fn named<V>(entries: Seq<(String, V)>, count: int, name: Seq<char>) -> bool {
    exists|i: int|
        #![trigger entries[i]]
        0 <= i < count && entries[i].0@ == name
}

/// Puts a name that is not among the others where it belongs.
fn insert_in_order(names: &mut Vec<String>, name: String) -> (at: usize)
    requires
        rising(old(names)@),
        forall|i: int| 0 <= i < old(names)@.len() ==> #[trigger] old(names)@[i]@ != name@,
    ensures
        at <= old(names)@.len(),
        final(names)@ == old(names)@.insert(at as int, name),
        rising(final(names)@),
{
    let ghost before = names@;
    let mut at: usize = 0;
    while at < names.len() && precedes(names[at].as_str(), name.as_str())
        invariant
            names@ == before,
            at <= names@.len(),
            forall|i: int| 0 <= i < at ==> text_before(#[trigger] names@[i]@, name@),
        decreases names@.len() - at,
    {
        at += 1;
    }
    proof {
        let after = before.insert(at as int, name);
        if at < before.len() {
            texts_are_ordered(before[at as int]@, name@);
        }
        assert forall|i: int, j: int| 0 <= i < j < after.len() implies text_before(
            #[trigger] after[i]@,
            #[trigger] after[j]@,
        ) by {
            if j == at {
                assert(after[i] == before[i]);
            } else if i == at {
                assert(after[j] == before[j - 1]);
                if j - 1 > at {
                    assert(text_before(before[at as int]@, before[j - 1]@));
                    text_order_is_transitive(name@, before[at as int]@, before[j - 1]@);
                }
            } else {
                let from = if i < at {
                    i
                } else {
                    i - 1
                };
                let to = if j < at {
                    j
                } else {
                    j - 1
                };
                assert(after[i] == before[from]);
                assert(after[j] == before[to]);
                assert(text_before(before[from]@, before[to]@));
            }
        }
    }
    names.insert(at, name);
    at
}

proof fn map_has_as_many<V>(entries: Seq<(String, V)>)
    requires
        distinct(entries),
    ensures
        map_of(entries).dom().finite(),
        map_of(entries).len() == entries.len(),
    decreases entries.len(),
{
    if entries.len() > 0 {
        let rest = entries.drop_last();
        assert forall|i: int, j: int|
            #![trigger rest[i], rest[j]]
            0 <= i < j < rest.len() implies rest[i].0@ != rest[j].0@ by {
            assert(entries[i].0@ != entries[j].0@);
        }
        map_has_as_many(rest);
        map_holds_entries(rest);
        let key = entries.last().0@;
        if map_of(rest).contains_key(key) {
            let i = choose|i: int|
                #![trigger rest[i]]
                0 <= i < rest.len() && rest[i].0@ == key;
            assert(entries[i].0@ != entries[entries.len() - 1].0@);
        }
    }
}

} // verus!
