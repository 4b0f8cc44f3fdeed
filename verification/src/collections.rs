//! A map and a set of strings, small enough to be searched in a vector.
use vstd::prelude::*;

use crate::text::same_text;
#[allow(unused_imports)]
use crate::text::views;

verus! {

/// What the entries map each key to; of two entries with one key the later counts.
spec fn entries_map(entries: Seq<(String, String)>) -> Map<Seq<char>, Seq<char>>
    decreases entries.len(),
{
    if entries.len() == 0 {
        Map::empty()
    } else {
        entries_map(entries.drop_last()).insert(entries.last().0@, entries.last().1@)
    }
}

/// No two entries have the same key.
spec fn distinct_keys(entries: Seq<(String, String)>) -> bool {
    forall|i: int, j: int|
        0 <= i < j < entries.len() ==> (#[trigger] entries[i]).0@ != (#[trigger] entries[j]).0@
}

proof fn entries_map_lookup(entries: Seq<(String, String)>)
    requires
        distinct_keys(entries),
    ensures
        forall|k: Seq<char>| #[trigger]
            entries_map(entries).contains_key(k) <==> exists|i: int|
                0 <= i < entries.len() && (#[trigger] entries[i]).0@ == k,
        forall|i: int|
            0 <= i < entries.len() ==> entries_map(entries)[(#[trigger] entries[i]).0@]
                == entries[i].1@,
    decreases entries.len(),
{
    if entries.len() > 0 {
        let front = entries.drop_last();
        entries_map_lookup(front);
        assert forall|k: Seq<char>| #[trigger] entries_map(entries).contains_key(k) implies exists|
            i: int,
        | 0 <= i < entries.len() && (#[trigger] entries[i]).0@ == k by {
            if k == entries.last().0@ {
                assert(entries[entries.len() - 1].0@ == k);
            } else {
                assert(entries_map(front).contains_key(k));
                let i = choose|i: int| 0 <= i < front.len() && (#[trigger] front[i]).0@ == k;
                assert(entries[i].0@ == k);
            }
        }
        assert forall|k: Seq<char>|
            (exists|i: int| 0 <= i < entries.len() && (#[trigger] entries[i]).0@ == k) implies
            #[trigger] entries_map(entries).contains_key(k) by {
            let i = choose|i: int| 0 <= i < entries.len() && (#[trigger] entries[i]).0@ == k;
            if i < front.len() {
                assert(front[i].0@ == k);
                assert(entries_map(front).contains_key(k));
            }
        }
        assert forall|i: int| 0 <= i < entries.len() implies entries_map(entries)[(
        #[trigger] entries[i]).0@] == entries[i].1@ by {
            if i < front.len() {
                assert(front[i] == entries[i]);
            }
        }
    }
}

/// A map from strings to strings.
#[derive(Debug)]
pub struct TextMap {
    entries: Vec<(String, String)>,
}

impl View for TextMap {
    type V = Map<Seq<char>, Seq<char>>;

    closed spec fn view(&self) -> Map<Seq<char>, Seq<char>> {
        entries_map(self.entries@)
    }
}

impl TextMap {
    #[verifier::type_invariant]
    closed spec fn keys_occur_once(&self) -> bool {
        distinct_keys(self.entries@)
    }

    /// The map without entries.
    pub fn new() -> (map: TextMap)
        ensures
            map@ == Map::<Seq<char>, Seq<char>>::empty(),
    {
        TextMap { entries: Vec::new() }
    }

    /// The position of the entry with this key.
    fn position(&self, key: &str) -> (at: Option<usize>)
        ensures
            match at {
                Some(i) => i < self.entries@.len() && self.entries@[i as int].0@ == key@,
                None => forall|i: int|
                    0 <= i < self.entries@.len() ==> (#[trigger] self.entries@[i]).0@ != key@,
            },
    {
        let mut i: usize = 0;
        while i < self.entries.len()
            invariant
                i <= self.entries@.len(),
                forall|j: int| 0 <= j < i ==> (#[trigger] self.entries@[j]).0@ != key@,
            decreases self.entries@.len() - i,
        {
            if same_text(self.entries[i].0.as_str(), key) {
                return Some(i);
            }
            i = i + 1;
        }
        None
    }

    /// The value of a key.
    pub fn get(&self, key: &str) -> (value: Option<&String>)
        ensures
            value is Some <==> self@.contains_key(key@),
            value matches Some(v) ==> v@ == self@[key@],
    {
        proof {
            use_type_invariant(self);
            entries_map_lookup(self.entries@);
        }
        match self.position(key) {
            Some(i) => {
                assert(self.entries@[i as int].0@ == key@);
                Some(&self.entries[i].1)
            },
            None => None,
        }
    }

    /// Sets the value of a key, in place of the one it had.
    pub fn insert(&mut self, key: &str, value: String)
        ensures
            final(self)@ == old(self)@.insert(key@, value@),
    {
        proof {
            use_type_invariant(&*self);
            entries_map_lookup(self.entries@);
        }
        let ghost before = self.entries@;
        let at = self.position(key);
        let mut entries: Vec<(String, String)> = Vec::new();
        std::mem::swap(&mut entries, &mut self.entries);
        match at {
            Some(i) => {
                entries.set(i, (key.to_owned(), value));
                proof {
                    let after = entries@;
                    assert forall|a: int, b: int| 0 <= a < b < after.len() implies (
                    #[trigger] after[a]).0@ != (#[trigger] after[b]).0@ by {
                        assert(before[a].0@ != before[b].0@);
                    }
                    entries_map_lookup(after);
                    assert forall|k: Seq<char>| #[trigger]
                        entries_map(after).contains_key(k) == entries_map(before).insert(
                            key@,
                            value@,
                        ).contains_key(k) by {
                        if entries_map(after).contains_key(k) {
                            let j = choose|j: int|
                                0 <= j < after.len() && (#[trigger] after[j]).0@ == k;
                            assert(before[j].0@ == k);
                        }
                        if entries_map(before).contains_key(k) {
                            let j = choose|j: int|
                                0 <= j < before.len() && (#[trigger] before[j]).0@ == k;
                            assert(after[j].0@ == k);
                        }
                        assert(after[i as int].0@ == key@);
                    }
                    assert forall|k: Seq<char>| #[trigger]
                        entries_map(after).contains_key(k) implies entries_map(after)[k]
                        == entries_map(before).insert(key@, value@)[k] by {
                        let j = choose|j: int|
                            0 <= j < after.len() && (#[trigger] after[j]).0@ == k;
                        assert(before[j].0@ == k);
                        if j != i {
                            assert(after[j] == before[j]);
                            assert(k != key@) by {
                                if j < i {
                                    assert(before[j].0@ != before[i as int].0@);
                                } else {
                                    assert(before[i as int].0@ != before[j].0@);
                                }
                            }
                        }
                    }
                    assert(entries_map(after) =~= entries_map(before).insert(key@, value@));
                }
            },
            None => {
                entries.push((key.to_owned(), value));
                assert(entries@.drop_last() == before);
            },
        }
        self.entries = entries;
    }
}

impl Clone for TextMap {
    fn clone(&self) -> (copy: TextMap)
        ensures
            copy@ == self@,
    {
        proof {
            use_type_invariant(self);
        }
        let mut entries: Vec<(String, String)> = Vec::new();
        let mut i: usize = 0;
        while i < self.entries.len()
            invariant
                i <= self.entries@.len(),
                entries@ == self.entries@.take(i as int),
            decreases self.entries@.len() - i,
        {
            entries.push((self.entries[i].0.clone(), self.entries[i].1.clone()));
            i = i + 1;
        }
        assert(entries@ == self.entries@);
        TextMap { entries }
    }
}

/// A set of strings.
#[derive(Debug)]
pub struct TextSet {
    names: Vec<String>,
}

impl View for TextSet {
    type V = Set<Seq<char>>;

    closed spec fn view(&self) -> Set<Seq<char>> {
        views(self.names@).to_set()
    }
}

impl TextSet {
    #[verifier::type_invariant]
    closed spec fn names_occur_once(&self) -> bool {
        views(self.names@).no_duplicates()
    }

    /// Whether the set holds a string.
    pub fn contains(&self, name: &str) -> (found: bool)
        ensures
            found == self@.contains(name@),
    {
        let mut i: usize = 0;
        while i < self.names.len()
            invariant
                i <= self.names@.len(),
                forall|j: int| 0 <= j < i ==> (#[trigger] views(self.names@)[j]) != name@,
            decreases self.names@.len() - i,
        {
            assert(views(self.names@)[i as int] == self.names@[i as int]@);
            if same_text(self.names[i].as_str(), name) {
                return true;
            }
            i = i + 1;
        }
        false
    }

    /// The set of the strings in a list.
    pub fn from_list(list: &Vec<String>) -> (set: TextSet)
        ensures
            set@ == views(list@).to_set(),
    {
        let mut set = TextSet { names: Vec::new() };
        let mut i: usize = 0;
        assert(set@ =~= views(list@.take(0)).to_set());
        while i < list.len()
            invariant
                i <= list@.len(),
                set@ == views(list@.take(i as int)).to_set(),
            decreases list@.len() - i,
        {
            let ghost part = views(list@.take(i as int));
            let ghost more = views(list@.take(i + 1));
            proof {
                use_type_invariant(&set);
                assert(more =~= part.push(list@[i as int]@));
                assert(more.to_set() =~= part.to_set().insert(list@[i as int]@)) by {
                    assert forall|x: Seq<char>| part.to_set().insert(list@[i as int]@).contains(x)
                        implies more.to_set().contains(x) by {
                        if x == list@[i as int]@ {
                            assert(more[i as int] == x);
                        } else {
                            let j = choose|j: int| 0 <= j < part.len() && part[j] == x;
                            assert(more[j] == x);
                        }
                    }
                }
            }
            if !set.contains(list[i].as_str()) {
                let mut names: Vec<String> = Vec::new();
                std::mem::swap(&mut names, &mut set.names);
                let ghost before = names@;
                names.push(list[i].clone());
                proof {
                    let after = views(names@);
                    assert(after =~= views(before).push(list@[i as int]@));
                    assert forall|x: Seq<char>| views(before).to_set().insert(
                        list@[i as int]@,
                    ).contains(x) implies after.to_set().contains(x) by {
                        if x == list@[i as int]@ {
                            assert(after[before.len() as int] == x);
                        } else {
                            let j = choose|j: int| 0 <= j < before.len() && views(before)[j] == x;
                            assert(after[j] == x);
                        }
                    }
                    assert(after.to_set() =~= views(before).to_set().insert(list@[i as int]@));
                }
                set = TextSet { names };
            } else {
                assert(part.to_set().insert(list@[i as int]@) =~= part.to_set());
            }
            i = i + 1;
        }
        assert(list@.take(list@.len() as int) == list@);
        set
    }
}

impl Clone for TextSet {
    fn clone(&self) -> (copy: TextSet)
        ensures
            copy@ == self@,
    {
        TextSet::from_list(&self.names)
    }
}

} // verus!
