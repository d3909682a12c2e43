//! What earlier steps left for the parser of a module.

use vstd::prelude::*;

verus! {

/// A value of a module's parse meta: what was collected from the module's TypeScript
/// source, or something that only the host reads.
pub enum ParseMetaValue<T, O> {
    CollectedTypeScriptInfo(T),
    Other(O),
}

/// A module's parse meta: a map from names to values. No name stands in it twice.
pub struct ParseMeta<V> {
    entries: Vec<(String, V)>,
}

/// The name of the entry at `i` is `key`.
spec fn is_at<V>(entries: Seq<(String, V)>, key: Seq<char>, i: int) -> bool {
    0 <= i < entries.len() && entries[i].0@ == key
}

/// No two entries have one name.
spec fn names_differ<V>(entries: Seq<(String, V)>) -> bool {
    forall|i: int, j: int|
        0 <= i < j < entries.len() ==> (#[trigger] entries[i]).0@ != (#[trigger] entries[j]).0@
}

/// The map that entries stand for.
spec fn as_map<V>(entries: Seq<(String, V)>) -> Map<Seq<char>, V> {
    Map::new(
        |key: Seq<char>| exists|i: int| is_at(entries, key, i),
        |key: Seq<char>| entries[choose|i: int| is_at(entries, key, i)].1,
    )
}

/// What the map holds under the name of an entry is that entry's value.
proof fn as_map_at<V>(entries: Seq<(String, V)>, i: int)
    requires
        names_differ(entries),
        0 <= i < entries.len(),
    ensures
        as_map(entries).contains_key(entries[i].0@),
        as_map(entries)[entries[i].0@] == entries[i].1,
{
    let key = entries[i].0@;
    assert(is_at(entries, key, i));
    let j = choose|j: int| is_at(entries, key, j);
    assert(entries[j].0@ == entries[i].0@);
}

/// To add an entry under a new name is to insert it into the map.
proof fn as_map_push<V>(entries: Seq<(String, V)>, entry: (String, V))
    requires
        names_differ(entries),
        !as_map(entries).contains_key(entry.0@),
    ensures
        names_differ(entries.push(entry)),
        as_map(entries.push(entry)) == as_map(entries).insert(entry.0@, entry.1),
{
    let more = entries.push(entry);
    assert forall|i: int| 0 <= i < entries.len() implies (#[trigger] entries[i]).0@ != entry.0@ by {
        as_map_at(entries, i);
    }
    assert(names_differ(more));
    assert forall|key: Seq<char>|
        as_map(more).contains_key(key) == as_map(entries).insert(entry.0@, entry.1).contains_key(
            key,
        ) by {
        if as_map(more).contains_key(key) {
            let i = choose|i: int| is_at(more, key, i);
            if i < entries.len() {
                as_map_at(entries, i);
            }
        }
        if as_map(entries).contains_key(key) {
            let i = choose|i: int| is_at(entries, key, i);
            assert(is_at(more, key, i));
        }
        assert(is_at(more, entry.0@, entries.len() as int));
    }
    assert forall|key: Seq<char>| #[trigger] as_map(more).contains_key(key) implies as_map(more)[key]
        == as_map(entries).insert(entry.0@, entry.1)[key] by {
        let i = choose|i: int| is_at(more, key, i);
        as_map_at(more, i);
        if i < entries.len() {
            as_map_at(entries, i);
        }
    }
    assert(as_map(more) =~= as_map(entries).insert(entry.0@, entry.1));
}

/// To take an entry out is to remove its name from the map.
proof fn as_map_remove<V>(entries: Seq<(String, V)>, i: int)
    requires
        names_differ(entries),
        0 <= i < entries.len(),
    ensures
        names_differ(entries.remove(i)),
        as_map(entries.remove(i)) == as_map(entries).remove(entries[i].0@),
{
    let less = entries.remove(i);
    let removed = entries[i].0@;
    assert forall|a: int, b: int| 0 <= a < b < less.len() implies (#[trigger] less[a]).0@ != (
    #[trigger] less[b]).0@ by {
        let a2 = if a < i {
            a
        } else {
            a + 1
        };
        let b2 = if b < i {
            b
        } else {
            b + 1
        };
        assert(less[a] == entries[a2] && less[b] == entries[b2]);
    }
    assert forall|key: Seq<char>|
        as_map(less).contains_key(key) == as_map(entries).remove(removed).contains_key(key) by {
        if as_map(less).contains_key(key) {
            let a = choose|a: int| is_at(less, key, a);
            let a2 = if a < i {
                a
            } else {
                a + 1
            };
            assert(less[a] == entries[a2]);
            assert(is_at(entries, key, a2));
            assert(key != removed) by {
                if a2 < i {
                    assert(entries[a2].0@ != entries[i].0@);
                } else {
                    assert(entries[i].0@ != entries[a2].0@);
                }
            }
        }
        if as_map(entries).contains_key(key) && key != removed {
            let a = choose|a: int| is_at(entries, key, a);
            let a2 = if a < i {
                a
            } else {
                a - 1
            };
            assert(less[a2] == entries[a]);
            assert(is_at(less, key, a2));
        }
    }
    assert forall|key: Seq<char>| #[trigger] as_map(less).contains_key(key) implies as_map(less)[key]
        == as_map(entries).remove(removed)[key] by {
        let a = choose|a: int| is_at(less, key, a);
        as_map_at(less, a);
        let a2 = if a < i {
            a
        } else {
            a + 1
        };
        assert(less[a] == entries[a2]);
        as_map_at(entries, a2);
    }
    assert(as_map(less) =~= as_map(entries).remove(removed));
}

impl<V> View for ParseMeta<V> {
    type V = Map<Seq<char>, V>;

    closed spec fn view(&self) -> Map<Seq<char>, V> {
        as_map(self.entries@)
    }
}

impl<V> ParseMeta<V> {
    #[verifier::type_invariant]
    spec fn well_formed(self) -> bool {
        names_differ(self.entries@)
    }

    /// An empty parse meta.
    pub fn new() -> (r: Self)
        ensures
            r@ == Map::<Seq<char>, V>::empty(),
    {
        let r = ParseMeta { entries: Vec::new() };
        assert(r@ =~= Map::<Seq<char>, V>::empty()) by {
            assert forall|key: Seq<char>| !r@.contains_key(key) by {
                if r@.contains_key(key) {
                    let i = choose|i: int| is_at(r.entries@, key, i);
                    assert(false);
                }
            }
        }
        r
    }

    /// Where a name stands.
    fn position(&self, key: &String) -> (r: Option<usize>)
        ensures
            r matches Some(i) ==> is_at(self.entries@, key@, i as int),
            r is None ==> !self@.contains_key(key@),
    {
        let n: usize = self.entries.len();
        for i in 0..n
            invariant
                n == self.entries@.len(),
                forall|j: int| 0 <= j < i ==> (#[trigger] self.entries@[j]).0@ != key@,
        {
            if self.entries[i].0 == *key {
                return Some(i);
            }
        }
        proof {
            if self@.contains_key(key@) {
                let i = choose|i: int| is_at(self.entries@, key@, i);
                assert(self.entries@[i].0@ == key@);
            }
        }
        None
    }

    /// The value under a name.
    pub fn get(&self, key: &str) -> (r: Option<&V>)
        ensures
            r is Some <==> self@.contains_key(key@),
            r matches Some(value) ==> *value == self@[key@],
    {
        proof {
            use_type_invariant(self);
        }
        match self.position(&key.to_owned()) {
            Some(i) => {
                proof {
                    as_map_at(self.entries@, i as int);
                }
                Some(&self.entries[i].1)
            },
            None => None,
        }
    }

    /// Takes the value under a name out.
    pub fn remove(&mut self, key: &str) -> (r: Option<V>)
        ensures
            final(self)@ == old(self)@.remove(key@),
            r is Some <==> old(self)@.contains_key(key@),
            r matches Some(value) ==> value == old(self)@[key@],
    {
        proof {
            use_type_invariant(&*self);
        }
        match self.position(&key.to_owned()) {
            Some(i) => {
                let mut entries: Vec<(String, V)> = Vec::new();
                std::mem::swap(&mut entries, &mut self.entries);
                proof {
                    as_map_at(entries@, i as int);
                    as_map_remove(entries@, i as int);
                }
                let (_, value) = entries.remove(i);
                self.entries = entries;
                Some(value)
            },
            None => {
                assert(self@ =~= old(self)@.remove(key@));
                None
            },
        }
    }

    /// Puts a value under a name, in place of the one that was there.
    pub fn insert(&mut self, key: String, value: V)
        ensures
            final(self)@ == old(self)@.insert(key@, value),
    {
        self.remove(key.as_str());
        proof {
            use_type_invariant(&*self);
        }
        let mut entries: Vec<(String, V)> = Vec::new();
        std::mem::swap(&mut entries, &mut self.entries);
        proof {
            as_map_push(entries@, (key, value));
        }
        entries.push((key, value));
        self.entries = entries;
        assert(self@ =~= old(self)@.insert(key@, value));
    }
}

} // verus!
