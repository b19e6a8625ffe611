//! Collections with scopes: a stack of frames, of which the innermost takes
//! what is inserted and is searched first.

use crate::name_table::{NameMap, NameSet};
use vstd::prelude::*;

verus! {

/// Whether one of the frames holds `name`.
pub open spec fn in_frames(frames: Seq<NameSet>, name: Seq<char>) -> bool {
    exists|i: int| 0 <= i < frames.len() && (#[trigger] frames[i])@.contains(name)
}

/// A set of names with scopes.
#[derive(Debug)]
pub struct ScopedIndexSet {
    sets: Vec<NameSet>,
}

impl ScopedIndexSet {
    /// The frames, the outermost first.
    pub closed spec fn frames(&self) -> Seq<NameSet> {
        self.sets@
    }

    /// Every frame is well formed.
    pub open spec fn wf(&self) -> bool {
        forall|i: int| 0 <= i < self.frames().len() ==> (#[trigger] self.frames()[i]).wf()
    }

    pub fn new() -> (r: ScopedIndexSet)
        ensures
            r.wf(),
            r.frames().len() == 0,
    {
        ScopedIndexSet { sets: Vec::new() }
    }

    /// Opens a new innermost frame.
    pub fn enter_scope(&mut self)
        requires
            old(self).wf(),
        ensures
            final(self).wf(),
            final(self).frames().len() == old(self).frames().len() + 1,
            final(self).frames().drop_last() == old(self).frames(),
            final(self).frames().last()@ == Seq::<Seq<char>>::empty(),
    {
        self.sets.push(NameSet::new());
        proof {
            assert(self.frames().drop_last() =~= old(self).frames());
        }
    }

    /// Drops the innermost frame, if there is one.
    pub fn exit_scope(&mut self)
        requires
            old(self).wf(),
        ensures
            final(self).wf(),
            old(self).frames().len() > 0 ==> final(self).frames() == old(self).frames().drop_last(),
            old(self).frames().len() == 0 ==> final(self).frames() == old(self).frames(),
    {
        self.sets.pop();
    }

    /// Whether any frame holds `name`.
    pub fn contains(&self, name: &str) -> (r: bool)
        ensures
            r == in_frames(self.frames(), name@),
    {
        let mut i: usize = 0;
        while i < self.sets.len()
            invariant
                i <= self.sets.len(),
                forall|k: int| 0 <= k < i ==> !(#[trigger] self.frames()[k])@.contains(name@),
            decreases self.sets.len() - i,
        {
            if self.sets[i].contains(name) {
                return true;
            }
            i += 1;
        }
        false
    }

    /// Whether the innermost frame holds `name`.
    pub fn contains_top_scope(&self, name: &str) -> (r: bool)
        requires
            self.frames().len() > 0,
        ensures
            r == self.frames().last()@.contains(name@),
    {
        self.sets[self.sets.len() - 1].contains(name)
    }

    /// Inserts `name` into the innermost frame.
    pub fn insert(&mut self, name: String)
        requires
            old(self).wf(),
            old(self).frames().len() > 0,
        ensures
            final(self).wf(),
            final(self).frames().len() == old(self).frames().len(),
            final(self).frames().drop_last() == old(self).frames().drop_last(),
            final(self).frames().last()@ == if old(self).frames().last()@.contains(name@) {
                old(self).frames().last()@
            } else {
                old(self).frames().last()@.push(name@)
            },
    {
        let last = self.sets.len() - 1;
        self.sets[last].insert(name);
        proof {
            assert(self.frames().drop_last() =~= old(self).frames().drop_last());
        }
    }
}

/// The value that the innermost frame holding `name` gives it.
pub open spec fn lookup<V>(frames: Seq<NameMap<V>>, name: Seq<char>) -> Option<V>
    decreases frames.len(),
{
    if frames.len() == 0 {
        None
    } else if frames.last().contains_name(name) {
        Some(frames.last().value_of(name))
    } else {
        lookup(frames.drop_last(), name)
    }
}

/// A map from names to values with scopes.
#[derive(Debug)]
pub struct ScopedIndexMap<V> {
    maps: Vec<NameMap<V>>,
}

impl<V> ScopedIndexMap<V> {
    /// The frames, the outermost first.
    pub closed spec fn frames(&self) -> Seq<NameMap<V>> {
        self.maps@
    }

    /// Every frame is well formed.
    pub open spec fn wf(&self) -> bool {
        forall|i: int| 0 <= i < self.frames().len() ==> (#[trigger] self.frames()[i]).wf()
    }

    /// The value of `name` in the innermost frame that holds it.
    pub open spec fn spec_get(&self, name: Seq<char>) -> Option<V> {
        lookup(self.frames(), name)
    }

    pub fn new() -> (r: ScopedIndexMap<V>)
        ensures
            r.wf(),
            r.frames().len() == 0,
    {
        ScopedIndexMap { maps: Vec::new() }
    }

    /// Opens a new innermost frame.
    pub fn enter_scope(&mut self)
        requires
            old(self).wf(),
        ensures
            final(self).wf(),
            final(self).frames().len() == old(self).frames().len() + 1,
            final(self).frames().drop_last() == old(self).frames(),
            final(self).frames().last().keys() == Seq::<Seq<char>>::empty(),
            forall|name: Seq<char>| final(self).spec_get(name) == old(self).spec_get(name),
    {
        self.maps.push(NameMap::new());
        proof {
            assert(self.frames().drop_last() =~= old(self).frames());
        }
    }

    /// Makes `frame` the new innermost frame.
    pub fn enter_scope_with(&mut self, frame: NameMap<V>)
        requires
            old(self).wf(),
            frame.wf(),
        ensures
            final(self).wf(),
            final(self).frames() == old(self).frames().push(frame),
    {
        self.maps.push(frame);
    }

    /// Drops the innermost frame, if there is one.
    pub fn exit_scope(&mut self)
        requires
            old(self).wf(),
        ensures
            final(self).wf(),
            old(self).frames().len() > 0 ==> final(self).frames() == old(self).frames().drop_last(),
            old(self).frames().len() == 0 ==> final(self).frames() == old(self).frames(),
    {
        self.maps.pop();
    }

    /// Stores `value` under `name` in the innermost frame.
    pub fn insert(&mut self, name: String, value: V)
        requires
            old(self).wf(),
            old(self).frames().len() > 0,
        ensures
            final(self).wf(),
            final(self).frames().len() == old(self).frames().len(),
            final(self).frames().drop_last() == old(self).frames().drop_last(),
            final(self).spec_get(name@) == Some(value),
            forall|other: Seq<char>|
                other != name@ ==> final(self).spec_get(other) == old(self).spec_get(other),
    {
        let last = self.maps.len() - 1;
        self.maps[last].insert(name, value);
        proof {
            assert(self.frames().drop_last() =~= old(self).frames().drop_last());
        }
    }

    /// Opens a new innermost frame that holds `value` under `name`.
    pub fn bind(&mut self, name: String, value: V)
        requires
            old(self).wf(),
        ensures
            final(self).wf(),
            final(self).frames().len() == old(self).frames().len() + 1,
            final(self).frames().drop_last() == old(self).frames(),
            final(self).spec_get(name@) == Some(value),
            forall|other: Seq<char>|
                other != name@ ==> #[trigger] final(self).spec_get(other) == old(self).spec_get(other),
    {
        self.enter_scope();
        let ghost mid = *self;
        self.insert(name, value);
        proof {
            assert(self.frames().drop_last() == mid.frames().drop_last());
            assert forall|other: Seq<char>| other != name@ implies #[trigger] self.spec_get(other)
                == old(self).spec_get(other) by {
                assert(self.spec_get(other) == mid.spec_get(other));
                assert(mid.spec_get(other) == old(self).spec_get(other));
            }
        }
    }

    /// The value of `name` in the innermost frame that holds it.
    pub fn get(&self, name: &str) -> (r: Option<&V>)
        requires
            self.wf(),
        ensures
            match r {
                Some(v) => self.spec_get(name@) == Some(*v),
                None => self.spec_get(name@) is None,
            },
    {
        let mut i: usize = self.maps.len();
        proof {
            assert(self.frames().subrange(0, i as int) =~= self.frames());
        }
        while i > 0
            invariant
                self.wf(),
                i <= self.maps.len(),
                self.spec_get(name@) == lookup(self.frames().subrange(0, i as int), name@),
            decreases i,
        {
            let ghost cur = self.frames().subrange(0, i as int);
            proof {
                assert(cur.last() == self.frames()[i - 1]);
                assert(cur.drop_last() =~= self.frames().subrange(0, i - 1));
            }
            match self.maps[i - 1].get(name) {
                Some(v) => {
                    return Some(v);
                },
                None => {},
            }
            i -= 1;
        }
        proof {
            assert(self.frames().subrange(0, 0) =~= Seq::<NameMap<V>>::empty());
        }
        None
    }
}

/// The names of `have`, and behind them those of the first `n` names of
/// `names` that `have` lacks, in their order.
pub open spec fn with_names(have: Seq<Seq<char>>, names: Seq<Seq<char>>, n: int) -> Seq<Seq<char>>
    decreases n,
{
    if n <= 0 {
        have
    } else {
        let before = with_names(have, names, n - 1);
        if before.contains(names[n - 1]) {
            before
        } else {
            before.push(names[n - 1])
        }
    }
}

/// The names in sight in the frames, each once: the names of the outermost
/// frame first, in their order, then those that the next frame adds, and so
/// on.
pub open spec fn flat_names<V>(frames: Seq<NameMap<V>>) -> Seq<Seq<char>>
    decreases frames.len(),
{
    if frames.len() == 0 {
        Seq::empty()
    } else {
        with_names(
            flat_names(frames.drop_last()),
            frames.last().keys(),
            frames.last().keys().len() as int,
        )
    }
}

impl<V: Clone> ScopedIndexMap<V> {
    /// A map without scopes that holds, for every name in sight, a clone of
    /// the value that the innermost frame with the name gives it. The names
    /// stand in the order in which the frames bring them, the outermost
    /// frame first.
    pub fn to_index_map(&self) -> (r: NameMap<V>)
        requires
            self.wf(),
        ensures
            r.wf(),
            r.keys() == flat_names(self.frames()),
            forall|name: Seq<char>| #[trigger] r.contains_name(name) <==> self.spec_get(name) is Some,
            forall|name: Seq<char>|
                #[trigger] r.contains_name(name) ==> cloned(
                    self.spec_get(name).unwrap(),
                    r.value_of(name),
                ),
    {
        let mut out: NameMap<V> = NameMap::new();
        let mut f: usize = 0;
        proof {
            assert(self.frames().subrange(0, 0) =~= Seq::<NameMap<V>>::empty());
        }
        while f < self.maps.len()
            invariant
                self.wf(),
                out.wf(),
                f <= self.maps.len(),
                out.keys() == flat_names(self.frames().subrange(0, f as int)),
                forall|name: Seq<char>|
                    #[trigger] out.contains_name(name) <==> lookup(
                        self.frames().subrange(0, f as int),
                        name,
                    ) is Some,
                forall|name: Seq<char>|
                    #[trigger] out.contains_name(name) ==> cloned(
                        lookup(self.frames().subrange(0, f as int), name).unwrap(),
                        out.value_of(name),
                    ),
            decreases self.maps.len() - f,
        {
            let frame = &self.maps[f];
            let ghost below = self.frames().subrange(0, f as int);
            let ghost upto = self.frames().subrange(0, f + 1);
            proof {
                assert(upto.last() == *frame);
                assert(upto.drop_last() =~= below);
            }
            let mut i: usize = 0;
            while i < frame.len()
                invariant
                    frame.wf(),
                    out.wf(),
                    i <= frame.keys().len(),
                    out.keys() == with_names(flat_names(below), frame.keys(), i as int),
                    forall|name: Seq<char>|
                        #[trigger] out.contains_name(name) <==> (lookup(below, name) is Some
                            || frame.keys().subrange(0, i as int).contains(name)),
                    forall|name: Seq<char>|
                        #[trigger] out.contains_name(name) ==> cloned(
                            if frame.keys().subrange(0, i as int).contains(name) {
                                frame.value_of(name)
                            } else {
                                lookup(below, name).unwrap()
                            },
                            out.value_of(name),
                        ),
                decreases frame.keys().len() - i,
            {
                let ghost before = out;
                let ghost pre = frame.keys().subrange(0, i as int);
                let ghost cur = frame.keys().subrange(0, i + 1);
                let ghost key = frame.keys()[i as int];
                let value = frame.value(i).clone();
                out.insert(frame.key(i).clone(), value);
                proof {
                    crate::name_table::lemma_position_of(frame.keys(), i as int);
                    assert(cur =~= pre.push(key));
                    assert forall|name: Seq<char>| cur.contains(name) <==> (pre.contains(name)
                        || name == key) by {
                        if cur.contains(name) {
                            let j = choose|j: int| 0 <= j < cur.len() && cur[j] == name;
                            if j < i {
                                assert(pre[j] == name);
                            }
                        }
                        if pre.contains(name) {
                            let j = choose|j: int| 0 <= j < pre.len() && pre[j] == name;
                            assert(cur[j] == name);
                        }
                        assert(cur[i as int] == key);
                    }
                    assert(!pre.contains(key)) by {
                        if pre.contains(key) {
                            let j = choose|j: int| 0 <= j < pre.len() && pre[j] == key;
                            assert(frame.keys()[j] == key);
                        }
                    }
                    assert forall|name: Seq<char>| #[trigger] out.contains_name(name) implies cloned(
                        if cur.contains(name) {
                            frame.value_of(name)
                        } else {
                            lookup(below, name).unwrap()
                        },
                        out.value_of(name),
                    ) by {
                        if name != key {
                            assert(before.contains_name(name));
                        }
                    }
                }
                i += 1;
            }
            proof {
                assert(flat_names(upto) == with_names(
                    flat_names(upto.drop_last()),
                    upto.last().keys(),
                    upto.last().keys().len() as int,
                ));
                assert(frame.keys().subrange(0, frame.keys().len() as int) =~= frame.keys());
                assert forall|name: Seq<char>| lookup(upto, name) == if frame.contains_name(name) {
                    Some(frame.value_of(name))
                } else {
                    lookup(below, name)
                } by {}
            }
            f += 1;
        }
        proof {
            assert(self.frames().subrange(0, self.maps.len() as int) =~= self.frames());
        }
        out
    }
}

} // verus!
