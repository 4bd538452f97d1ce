use crate::text::str_eq;
use vstd::prelude::*;

verus! {

/// No two members have the same key.
pub open spec fn distinct_keys<V>(members: Seq<(Seq<char>, V)>) -> bool {
    forall|i: int, j: int| 0 <= i < j < members.len() ==> members[i].0 != members[j].0
}

/// The place of the first member with the key `key`.
pub open spec fn position<V>(members: Seq<(Seq<char>, V)>, key: Seq<char>) -> Option<int>
    decreases members.len(),
{
    if members.len() == 0 {
        None
    } else if members[0].0 == key {
        Some(0int)
    } else {
        match position(members.drop_first(), key) {
            Some(i) => Some(i + 1),
            None => None,
        }
    }
}

/// The value of the first member with the key `key`.
pub open spec fn lookup<V>(members: Seq<(Seq<char>, V)>, key: Seq<char>) -> Option<V> {
    match position(members, key) {
        Some(i) => Some(members[i].1),
        None => None,
    }
}

/// `members` with `key` set to `value`: in the place where the key stood, or
/// at the end where it is new.
pub open spec fn upsert<V>(members: Seq<(Seq<char>, V)>, key: Seq<char>, value: V) -> Seq<(Seq<char>, V)> {
    match position(members, key) {
        Some(i) => members.update(i, (key, value)),
        None => members.push((key, value)),
    }
}

/// `members` without the first member that has the key `key`.
pub open spec fn without<V>(members: Seq<(Seq<char>, V)>, key: Seq<char>) -> Seq<(Seq<char>, V)> {
    match position(members, key) {
        Some(i) => members.remove(i),
        None => members,
    }
}

/// `base` after each member of `extra` has been set in it, first to last.
pub open spec fn merged<V>(base: Seq<(Seq<char>, V)>, extra: Seq<(Seq<char>, V)>) -> Seq<(Seq<char>, V)>
    decreases extra.len(),
{
    if extra.len() == 0 {
        base
    } else {
        upsert(merged(base, extra.drop_last()), extra.last().0, extra.last().1)
    }
}

/// What `position` returns is the first place that holds the key, and it
/// returns `None` only where no place does.
pub proof fn lemma_position<V>(members: Seq<(Seq<char>, V)>, key: Seq<char>)
    ensures
        match position(members, key) {
            Some(i) => 0 <= i < members.len() && members[i].0 == key && forall|j: int|
                0 <= j < i ==> (#[trigger] members[j]).0 != key,
            None => forall|j: int| 0 <= j < members.len() ==> (#[trigger] members[j]).0 != key,
        },
    decreases members.len(),
{
    if members.len() != 0 && members[0].0 != key {
        let rest = members.drop_first();
        lemma_position(rest, key);
        assert(forall|j: int| 0 <= j < rest.len() ==> rest[j] == members[j + 1]);
        match position(rest, key) {
            Some(i) => {
                assert forall|j: int| 0 <= j < i + 1 implies (#[trigger] members[j]).0 != key by {
                    if j > 0 {
                        assert(rest[j - 1] == members[j]);
                    }
                }
            },
            None => {
                assert forall|j: int| 0 <= j < members.len() implies (#[trigger] members[j]).0
                    != key by {
                    if j > 0 {
                        assert(rest[j - 1] == members[j]);
                    }
                }
            },
        }
    }
}

/// A place that holds the key, with no earlier place that does, is the one
/// that `position` returns.
pub proof fn lemma_position_is<V>(members: Seq<(Seq<char>, V)>, key: Seq<char>, at: int)
    requires
        0 <= at < members.len(),
        members[at].0 == key,
        forall|j: int| 0 <= j < at ==> (#[trigger] members[j]).0 != key,
    ensures
        position(members, key) == Some(at),
{
    lemma_position(members, key);
    match position(members, key) {
        Some(i) => {
            if i < at {
                assert(members[i].0 != key);
            } else if at < i {
                assert(members[at].0 != key);
            }
        },
        None => {
            assert(members[at].0 != key);
        },
    }
}

/// Where no place holds the key, `position` returns `None`.
pub proof fn lemma_position_none<V>(members: Seq<(Seq<char>, V)>, key: Seq<char>)
    requires
        forall|j: int| 0 <= j < members.len() ==> (#[trigger] members[j]).0 != key,
    ensures
        position(members, key) is None,
{
    lemma_position(members, key);
    if let Some(i) = position(members, key) {
        assert(members[i].0 != key);
    }
}


/// After `key` was set to `value`, looking `key` up gives `value`, and
/// looking any other key up gives what it gave before.
pub proof fn lemma_lookup_upsert<V>(
    members: Seq<(Seq<char>, V)>,
    key: Seq<char>,
    value: V,
    other: Seq<char>,
)
    ensures
        lookup(upsert(members, key, value), other) == if other == key {
            Some(value)
        } else {
            lookup(members, other)
        },
{
    let after = upsert(members, key, value);
    lemma_position(members, key);
    lemma_position(members, other);
    match position(members, key) {
        Some(i) => {
            if other == key {
                lemma_position_is(after, key, i);
            } else {
                match position(members, other) {
                    Some(j) => {
                        lemma_position_is(after, other, j);
                    },
                    None => {
                        lemma_position_none(after, other);
                    },
                }
            }
        },
        None => {
            if other == key {
                lemma_position_is(after, key, members.len() as int);
            } else {
                match position(members, other) {
                    Some(j) => {
                        lemma_position_is(after, other, j);
                    },
                    None => {
                        lemma_position_none(after, other);
                    },
                }
            }
        },
    }
}

/// Setting a key keeps the keys distinct, and adds one member exactly when
/// the key is new.
pub proof fn lemma_upsert_shape<V>(members: Seq<(Seq<char>, V)>, key: Seq<char>, value: V)
    requires
        distinct_keys(members),
    ensures
        distinct_keys(upsert(members, key, value)),
        upsert(members, key, value).len() == if lookup(members, key) is Some {
            members.len()
        } else {
            members.len() + 1
        },
{
    lemma_position(members, key);
}

/// Where the keys are distinct, taking `key` out leaves no member with that
/// key, and leaves every other key with its value.
pub proof fn lemma_lookup_without<V>(members: Seq<(Seq<char>, V)>, key: Seq<char>, other: Seq<char>)
    requires
        distinct_keys(members),
    ensures
        lookup(without(members, key), other) == if other == key {
            None
        } else {
            lookup(members, other)
        },
{
    let after = without(members, key);
    lemma_position(members, key);
    lemma_position(members, other);
    match position(members, key) {
        Some(i) => {
            if other == key {
                assert forall|j: int| 0 <= j < after.len() implies (#[trigger] after[j]).0
                    != key by {
                    if j < i {
                        assert(after[j] == members[j]);
                    } else {
                        assert(after[j] == members[j + 1]);
                    }
                }
                lemma_position_none(after, key);
            } else {
                match position(members, other) {
                    Some(j) => {
                        let place = if j < i { j } else { j - 1 };
                        assert(after[place] == members[j]);
                        assert forall|k: int| 0 <= k < place implies (#[trigger] after[k]).0
                            != other by {
                            if k < i {
                                assert(after[k] == members[k]);
                            } else {
                                assert(after[k] == members[k + 1]);
                            }
                        }
                        lemma_position_is(after, other, place);
                    },
                    None => {
                        assert forall|k: int| 0 <= k < after.len() implies (#[trigger] after[k]).0
                            != other by {
                            if k < i {
                                assert(after[k] == members[k]);
                            } else {
                                assert(after[k] == members[k + 1]);
                            }
                        }
                        lemma_position_none(after, other);
                    },
                }
            }
        },
        None => {},
    }
}

/// Taking a key out keeps the keys distinct, and takes one member away
/// exactly when the key was there.
pub proof fn lemma_without_shape<V>(members: Seq<(Seq<char>, V)>, key: Seq<char>)
    requires
        distinct_keys(members),
    ensures
        distinct_keys(without(members, key)),
        without(members, key).len() == if lookup(members, key) is Some {
            members.len() - 1
        } else {
            members.len() as int
        },
{
    let after = without(members, key);
    lemma_position(members, key);
    match position(members, key) {
        Some(i) => {
            assert forall|a: int, b: int| 0 <= a < b < after.len() implies after[a].0
                != after[b].0 by {
                let x = if a < i { a } else { a + 1 };
                let y = if b < i { b } else { b + 1 };
                assert(after[a] == members[x]);
                assert(after[b] == members[y]);
            }
        },
        None => {},
    }
}

/// A table from names to values: the entries in the order in which their
/// names were added, no name twice.
pub struct NameMap<T> {
    entries: Vec<(String, T)>,
}

impl<T> NameMap<T> {
    /// The entries of this table, each name with its value.
    pub closed spec fn members(self) -> Seq<(Seq<char>, T)> {
        Seq::new(self.entries@.len(), |i: int| (self.entries@[i].0@, self.entries@[i].1))
    }

    #[verifier::type_invariant]
    spec fn names_differ(self) -> bool {
        forall|i: int, j: int|
            0 <= i < j < self.entries@.len() ==> self.entries@[i].0@ != self.entries@[j].0@
    }
}

impl<T> View for NameMap<T> {
    type V = Seq<(Seq<char>, T)>;

    open spec fn view(&self) -> Seq<(Seq<char>, T)> {
        self.members()
    }
}

impl<T> NameMap<T> {
    /// A table without entries.
    pub fn new() -> (table: NameMap<T>)
        ensures
            table@ == Seq::<(Seq<char>, T)>::empty(),
    {
        let table = NameMap { entries: Vec::new() };
        assert(table@ =~= Seq::<(Seq<char>, T)>::empty());
        table
    }

    /// The number of entries.
    pub fn len(&self) -> (n: usize)
        ensures
            n == self@.len(),
            distinct_keys(self@),
    {
        proof {
            use_type_invariant(self);
        }
        self.entries.len()
    }

    /// True for a table without entries.
    pub fn is_empty(&self) -> (empty: bool)
        ensures
            empty == (self@.len() == 0),
    {
        self.entries.len() == 0
    }

    fn find(&self, key: &str) -> (at: Option<usize>)
        ensures
            match at {
                Some(i) => position(self@, key@) == Some(i as int) && i < self@.len(),
                None => position(self@, key@) is None,
            },
            self@.len() == self.entries@.len(),
    {
        let mut i: usize = 0;
        while i < self.entries.len()
            invariant
                i <= self.entries@.len(),
                forall|j: int| 0 <= j < i ==> (#[trigger] self@[j]).0 != key@,
            decreases self.entries@.len() - i,
        {
            if str_eq(self.entries[i].0.as_str(), key) {
                proof {
                    lemma_position_is(self@, key@, i as int);
                }
                return Some(i);
            }
            i += 1;
        }
        proof {
            lemma_position_none(self@, key@);
        }
        None
    }

    /// True when the table has an entry with the name `key`.
    pub fn contains_key(&self, key: &str) -> (has: bool)
        ensures
            has == (lookup(self@, key@) is Some),
    {
        self.find(key).is_some()
    }

    /// The value of the entry with the name `key`.
    pub fn get(&self, key: &str) -> (value: Option<&T>)
        ensures
            value == match lookup(self@, key@) {
                Some(v) => Some(&v),
                None => None,
            },
    {
        match self.find(key) {
            Some(i) => Some(&self.entries[i].1),
            None => None,
        }
    }

    /// The name of the entry at place `i`.
    pub fn key_at(&self, i: usize) -> (key: &str)
        requires
            i < self@.len(),
        ensures
            key@ == self@[i as int].0,
    {
        self.entries[i].0.as_str()
    }

    /// The value of the entry at place `i`.
    pub fn value_at(&self, i: usize) -> (value: &T)
        requires
            i < self@.len(),
        ensures
            *value == self@[i as int].1,
    {
        &self.entries[i].1
    }

    /// Sets the entry `key` to `value`: in its place where the table has the
    /// name, at the end where it has not.
    pub fn insert(&mut self, key: String, value: T)
        ensures
            final(self)@ == upsert(old(self)@, key@, value),
    {
        proof {
            use_type_invariant(&*self);
            lemma_position(self@, key@);
        }
        let found = self.find(key.as_str());
        let mut taken = NameMap::new();
        core::mem::swap(self, &mut taken);
        let NameMap { entries } = taken;
        let mut entries = entries;
        assert(forall|j: int|
            0 <= j < entries@.len() ==> (#[trigger] old(self)@[j]).0 == entries@[j].0@);
        let ghost before = entries@;
        match found {
            Some(i) => {
                entries.set(i, (key, value));
            },
            None => {
                entries.push((key, value));
            },
        }
        assert forall|i: int, j: int| 0 <= i < j < entries@.len() implies entries@[i].0@
            != entries@[j].0@ by {
            if i < before.len() {
                assert(old(self)@[i].0 == before[i].0@);
            }
            if j < before.len() {
                assert(old(self)@[j].0 == before[j].0@);
            }
        }
        *self = NameMap { entries };
        assert(self@ =~= upsert(old(self)@, key@, value));
    }

    /// Takes the entry `key` out of the table and returns its value.
    pub fn remove(&mut self, key: &str) -> (removed: Option<T>)
        ensures
            final(self)@ == without(old(self)@, key@),
            removed == lookup(old(self)@, key@),
            distinct_keys(old(self)@),
    {
        proof {
            use_type_invariant(&*self);
        }
        let found = self.find(key);
        let mut taken = NameMap::new();
        core::mem::swap(self, &mut taken);
        let NameMap { entries } = taken;
        let mut entries = entries;
        let ghost before = entries@;
        let removed = match found {
            Some(i) => {
                let (_, value) = entries.remove(i);
                Some(value)
            },
            None => None,
        };
        assert forall|i: int, j: int| 0 <= i < j < entries@.len() implies entries@[i].0@
            != entries@[j].0@ by {
            match found {
                Some(at) => {
                    let a = if i < at { i } else { i + 1 };
                    let b = if j < at { j } else { j + 1 };
                    assert(entries@[i] == before[a] && entries@[j] == before[b]);
                },
                None => {
                    assert(entries@[i] == before[i] && entries@[j] == before[j]);
                },
            }
        }
        *self = NameMap { entries };
        assert(self@ =~= without(old(self)@, key@));
        removed
    }
}

} // verus!
