//! Name-keyed collections that remember insertion order.
//!
//! `NameSet` is an ordered set of names and `NameMap` an ordered map from
//! names to values. Both keep their names in an `indexmap::IndexSet`, which
//! finds the position of a name in constant time; the values of a `NameMap`
//! live in a vector beside it, at the position of their name.

use indexmap::IndexSet;
use vstd::prelude::*;

verus! {

/// `indexmap::IndexSet`, a set that keeps its items in the order of their
/// insertion. What it holds has the names `name_items` and `int_items`.
#[verifier::external_type_specification]
#[verifier::external_body]
#[verifier::reject_recursive_types(T)]
#[verifier::reject_recursive_types(S)]
pub struct ExIndexSet<T, S>(IndexSet<T, S>);

/// The names held by an `IndexSet<String>`, in the set's own order.
pub uninterp spec fn name_items(set: IndexSet<String>) -> Seq<Seq<char>>;

/// The integers held by an `IndexSet<u32>`, in the set's own order.
pub uninterp spec fn int_items(set: IndexSet<u32>) -> Seq<u32>;

/// `IndexSet::new`: the new set holds nothing.
#[verifier::external_body]
fn index_set_new() -> (set: IndexSet<String>)
    ensures
        name_items(set) == Seq::<Seq<char>>::empty(),
{
    IndexSet::new()
}

/// `IndexSet::insert_full`: a name that the set already holds stays where it
/// is, and the call returns its position and `false`; any other name is put
/// last, and the call returns that position and `true`.
#[verifier::external_body]
fn index_set_insert(set: &mut IndexSet<String>, name: String) -> (r: (usize, bool))
    ensures
        name_items(*old(set)).contains(name@) ==> {
            &&& name_items(*final(set)) == name_items(*old(set))
            &&& !r.1
            &&& r.0 < name_items(*old(set)).len()
            &&& name_items(*old(set))[r.0 as int] == name@
        },
        !name_items(*old(set)).contains(name@) ==> {
            &&& name_items(*final(set)) == name_items(*old(set)).push(name@)
            &&& r.1
            &&& r.0 == name_items(*old(set)).len()
        },
{
    set.insert_full(name)
}

/// `IndexSet::get_index_of`: the position of a name that the set holds, and
/// `None` for a name that it does not hold.
#[verifier::external_body]
fn index_set_index_of(set: &IndexSet<String>, name: &str) -> (r: Option<usize>)
    ensures
        match r {
            Some(i) => i < name_items(*set).len() && name_items(*set)[i as int] == name@,
            None => !name_items(*set).contains(name@),
        },
{
    set.get_index_of(name)
}

/// Indexing an `IndexSet` by position: the name at a position below the
/// set's length.
#[verifier::external_body]
fn index_set_at(set: &IndexSet<String>, i: usize) -> (name: &String)
    requires
        i < name_items(*set).len(),
    ensures
        name@ == name_items(*set)[i as int],
{
    &set[i]
}

/// `IndexSet::len`: the number of names in the set.
#[verifier::external_body]
fn index_set_len(set: &IndexSet<String>) -> (n: usize)
    ensures
        n == name_items(*set).len(),
{
    set.len()
}

/// `IndexSet::new`, for a set of integers: the new set holds nothing.
#[verifier::external_body]
fn int_set_new() -> (set: IndexSet<u32>)
    ensures
        int_items(set) == Seq::<u32>::empty(),
{
    IndexSet::new()
}

/// `IndexSet::insert`, for a set of integers: an integer that the set already
/// holds changes nothing and gives `false`; any other integer is put last and
/// gives `true`.
#[verifier::external_body]
fn int_set_insert(set: &mut IndexSet<u32>, value: u32) -> (fresh: bool)
    ensures
        fresh == !int_items(*old(set)).contains(value),
        !fresh ==> int_items(*final(set)) == int_items(*old(set)),
        fresh ==> int_items(*final(set)) == int_items(*old(set)).push(value),
{
    set.insert(value)
}

/// `IndexSet::iter`, for a set of integers: the integers in the set's order.
#[verifier::external_body]
fn int_set_to_vec(set: &IndexSet<u32>) -> (items: Vec<u32>)
    ensures
        items@ == int_items(*set),
{
    set.iter().copied().collect()
}

/// An ordered set of names: every name occurs once, at the position at which
/// it was first inserted.
#[derive(Debug)]
pub struct NameSet {
    names: IndexSet<String>,
}

impl View for NameSet {
    type V = Seq<Seq<char>>;

    closed spec fn view(&self) -> Seq<Seq<char>> {
        name_items(self.names)
    }
}

impl NameSet {
    /// No name occurs twice.
    pub open spec fn wf(&self) -> bool {
        self@.no_duplicates()
    }

    pub fn new() -> (r: NameSet)
        ensures
            r@ == Seq::<Seq<char>>::empty(),
            r.wf(),
    {
        NameSet { names: index_set_new() }
    }

    pub fn len(&self) -> (n: usize)
        ensures
            n == self@.len(),
    {
        index_set_len(&self.names)
    }

    /// Whether the set holds `name`.
    pub fn contains(&self, name: &str) -> (r: bool)
        ensures
            r == self@.contains(name@),
    {
        index_set_index_of(&self.names, name).is_some()
    }

    /// The position of `name` in the set.
    pub fn index_of(&self, name: &str) -> (r: Option<usize>)
        ensures
            match r {
                Some(i) => i < self@.len() && self@[i as int] == name@,
                None => !self@.contains(name@),
            },
    {
        index_set_index_of(&self.names, name)
    }

    /// The name at position `i`.
    pub fn get(&self, i: usize) -> (r: &String)
        requires
            i < self@.len(),
        ensures
            r@ == self@[i as int],
    {
        index_set_at(&self.names, i)
    }

    /// A set with the same names in the same order.
    pub fn copy(&self) -> (r: NameSet)
        requires
            self.wf(),
        ensures
            r.wf(),
            r@ == self@,
    {
        let mut r = NameSet::new();
        let n = self.len();
        let mut i: usize = 0;
        while i < n
            invariant
                self.wf(),
                r.wf(),
                n == self@.len(),
                i <= n,
                r@ == self@.subrange(0, i as int),
            decreases n - i,
        {
            proof {
                assert(!self@.subrange(0, i as int).contains(self@[i as int])) by {
                    if self@.subrange(0, i as int).contains(self@[i as int]) {
                        let j = choose|j: int|
                            0 <= j < i && self@.subrange(0, i as int)[j] == self@[i as int];
                        assert(self@[j] == self@[i as int]);
                    }
                }
                assert(self@.subrange(0, i as int).push(self@[i as int]) =~= self@.subrange(
                    0,
                    i + 1,
                ));
            }
            r.insert(self.get(i).clone());
            i += 1;
        }
        proof {
            assert(self@.subrange(0, n as int) =~= self@);
        }
        r
    }

    /// Puts `name` last unless the set holds it already; returns whether the
    /// name is new.
    pub fn insert(&mut self, name: String) -> (fresh: bool)
        requires
            old(self).wf(),
        ensures
            final(self).wf(),
            fresh == !old(self)@.contains(name@),
            fresh ==> final(self)@ == old(self)@.push(name@),
            !fresh ==> final(self)@ == old(self)@,
    {
        let r = index_set_insert(&mut self.names, name);
        r.1
    }
}

/// The position of `name` in a duplicate-free list of names.
pub open spec fn position_of(names: Seq<Seq<char>>, name: Seq<char>) -> Option<int> {
    if names.contains(name) {
        Some(choose|i: int| 0 <= i < names.len() && names[i] == name)
    } else {
        None
    }
}

/// `position_of` finds the one position at which a name stands.
pub proof fn lemma_position_of(names: Seq<Seq<char>>, i: int)
    requires
        names.no_duplicates(),
        0 <= i < names.len(),
    ensures
        position_of(names, names[i]) == Some(i),
{
    assert(names.contains(names[i]));
    let j = choose|j: int| 0 <= j < names.len() && names[j] == names[i];
    assert(j == i);
}

/// An ordered map from names to values: the entries stand in the order in
/// which their names were first inserted.
#[derive(Debug)]
pub struct NameMap<V> {
    names: NameSet,
    values: Vec<V>,
}

impl<V> NameMap<V> {
    /// The names of the entries, in order.
    pub closed spec fn keys(&self) -> Seq<Seq<char>> {
        self.names@
    }

    /// The values of the entries, in order.
    pub closed spec fn values(&self) -> Seq<V> {
        self.values@
    }

    /// Every name occurs once and has one value.
    pub open spec fn wf(&self) -> bool {
        &&& self.keys().no_duplicates()
        &&& self.keys().len() == self.values().len()
    }

    /// The position of the entry named `name`.
    pub open spec fn position(&self, name: Seq<char>) -> Option<int> {
        position_of(self.keys(), name)
    }

    /// Whether the map holds an entry named `name`.
    pub open spec fn contains_name(&self, name: Seq<char>) -> bool {
        self.keys().contains(name)
    }

    /// The value stored under `name`.
    pub open spec fn value_of(&self, name: Seq<char>) -> V
        recommends
            self.contains_name(name),
    {
        self.values()[self.position(name).unwrap()]
    }

    pub fn new() -> (r: NameMap<V>)
        ensures
            r.wf(),
            r.keys() == Seq::<Seq<char>>::empty(),
            r.values() == Seq::<V>::empty(),
    {
        NameMap { names: NameSet::new(), values: Vec::new() }
    }

    pub fn len(&self) -> (n: usize)
        ensures
            n == self.values().len(),
    {
        self.values.len()
    }

    /// The names and the values of the map, each in order.
    pub fn into_parts(self) -> (r: (NameSet, Vec<V>))
        ensures
            r.0@ == self.keys(),
            r.1@ == self.values(),
            self.wf() ==> r.0.wf(),
    {
        (self.names, self.values)
    }

    /// The map that gives every name the value at its position.
    pub fn from_parts(names: NameSet, values: Vec<V>) -> (r: NameMap<V>)
        requires
            names.wf(),
            names@.len() == values.len(),
        ensures
            r.wf(),
            r.keys() == names@,
            r.values() == values@,
    {
        NameMap { names, values }
    }

    pub fn contains_key(&self, name: &str) -> (r: bool)
        ensures
            r == self.contains_name(name@),
    {
        self.names.contains(name)
    }

    /// The position of the entry named `name`.
    pub fn index_of(&self, name: &str) -> (r: Option<usize>)
        requires
            self.wf(),
        ensures
            match r {
                Some(i) => self.position(name@) == Some(i as int) && i < self.keys().len()
                    && self.keys()[i as int] == name@,
                None => self.position(name@) is None && !self.contains_name(name@),
            },
    {
        let r = self.names.index_of(name);
        proof {
            if let Some(i) = r {
                lemma_position_of(self.keys(), i as int);
            }
        }
        r
    }

    /// The value stored under `name`.
    pub fn get(&self, name: &str) -> (r: Option<&V>)
        requires
            self.wf(),
        ensures
            match r {
                Some(v) => self.contains_name(name@) && *v == self.value_of(name@),
                None => !self.contains_name(name@),
            },
    {
        match self.index_of(name) {
            Some(i) => Some(&self.values[i]),
            None => None,
        }
    }

    /// The name of the entry at position `i`.
    pub fn key(&self, i: usize) -> (r: &String)
        requires
            i < self.keys().len(),
        ensures
            r@ == self.keys()[i as int],
    {
        self.names.get(i)
    }

    /// The value of the entry at position `i`.
    pub fn value(&self, i: usize) -> (r: &V)
        requires
            i < self.values().len(),
        ensures
            *r == self.values()[i as int],
    {
        &self.values[i]
    }

    /// The value of the entry at position `i`, for writing.
    pub fn value_mut(&mut self, i: usize) -> (r: &mut V)
        requires
            i < old(self).values().len(),
        ensures
            *r == old(self).values()[i as int],
            final(self).keys() == old(self).keys(),
            final(self).values() == old(self).values().update(i as int, *final(r)),
    {
        &mut self.values[i]
    }

    /// Stores `value` under `name`: in place of the old value where the map
    /// holds the name already, otherwise as a new last entry. Returns the
    /// position of the entry.
    pub fn insert(&mut self, name: String, value: V) -> (at: usize)
        requires
            old(self).wf(),
        ensures
            final(self).wf(),
            match old(self).position(name@) {
                Some(i) => {
                    &&& at == i
                    &&& final(self).keys() == old(self).keys()
                    &&& final(self).values() == old(self).values().update(i, value)
                },
                None => {
                    &&& at == old(self).keys().len()
                    &&& final(self).keys() == old(self).keys().push(name@)
                    &&& final(self).values() == old(self).values().push(value)
                },
            },
            final(self).contains_name(name@),
            final(self).value_of(name@) == value,
            forall|other: Seq<char>|
                other != name@ ==> {
                    &&& #[trigger] final(self).contains_name(other) == old(self).contains_name(other)
                    &&& old(self).contains_name(other) ==> final(self).value_of(other) == old(
                        self,
                    ).value_of(other)
                },
    {
        let ghost before = *self;
        let at = match self.names.index_of(name.as_str()) {
            Some(i) => {
                proof {
                    lemma_position_of(self.keys(), i as int);
                }
                self.values.set(i, value);
                i
            },
            None => {
                let at = self.values.len();
                self.names.insert(name);
                self.values.push(value);
                at
            },
        };
        proof {
            assert(self.keys()[at as int] == name@);
            lemma_position_of(self.keys(), at as int);
            assert forall|other: Seq<char>| other != name@ implies {
                &&& #[trigger] self.contains_name(other) == before.contains_name(other)
                &&& before.contains_name(other) ==> self.value_of(other) == before.value_of(other)
            } by {
                if before.contains_name(other) {
                    let j = choose|j: int| 0 <= j < before.keys().len() && before.keys()[j] == other;
                    lemma_position_of(before.keys(), j);
                    assert(self.keys()[j] == other);
                    lemma_position_of(self.keys(), j);
                } else if self.contains_name(other) {
                    let j = choose|j: int| 0 <= j < self.keys().len() && self.keys()[j] == other;
                    if j < before.keys().len() {
                        assert(before.keys()[j] == other);
                    }
                }
            }
        }
        at
    }
}

/// A set of integers in the order of their first insertion.
#[derive(Debug)]
pub struct IntSet {
    ints: IndexSet<u32>,
}

impl View for IntSet {
    type V = Seq<u32>;

    closed spec fn view(&self) -> Seq<u32> {
        int_items(self.ints)
    }
}

impl IntSet {
    pub fn new() -> (r: IntSet)
        ensures
            r@ == Seq::<u32>::empty(),
    {
        IntSet { ints: int_set_new() }
    }

    /// Puts `value` last unless the set holds it already; returns whether
    /// the value is new.
    pub fn insert(&mut self, value: u32) -> (fresh: bool)
        ensures
            fresh == !old(self)@.contains(value),
            fresh ==> final(self)@ == old(self)@.push(value),
            !fresh ==> final(self)@ == old(self)@,
    {
        int_set_insert(&mut self.ints, value)
    }

    /// The integers of the set, in order.
    pub fn to_vec(&self) -> (items: Vec<u32>)
        ensures
            items@ == self@,
    {
        int_set_to_vec(&self.ints)
    }
}

} // verus!
