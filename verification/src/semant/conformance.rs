//! Conformance between types and the least type that two types conform to,
//! both decided from the families of the classes.

use crate::ast::TypeID;
use crate::name_table::{lemma_position_of, NameMap};
use crate::semant::hierarchy::{
    descends, in_family, lemma_descends_antisymmetric, lemma_descends_self,
    lemma_descends_step, lemma_descends_trans, lemma_descends_unstep, lemma_tag_bounds, tree_ok,
};
use std::ops::Range;
use vstd::prelude::*;

verus! {

/// Whether type `a` conforms to type `b` inside class `current`. The type of
/// a missing expression conforms to every type. `SELF_TYPE` conforms to
/// itself, and nothing else conforms to it. Otherwise `a`, or `current` where
/// `a` is `SELF_TYPE`, conforms to `b` when both are classes and the tag of
/// the first lies in the family of the second.
pub open spec fn spec_conforms(
    a: Seq<char>,
    b: Seq<char>,
    current: Seq<char>,
    families: &NameMap<Range<u32>>,
) -> bool {
    if a == "_no_type"@ {
        true
    } else if b == "SELF_TYPE"@ {
        a == "SELF_TYPE"@
    } else {
        let a1 = if a == "SELF_TYPE"@ {
            current
        } else {
            a
        };
        &&& families.contains_name(b)
        &&& families.contains_name(a1)
        &&& in_family(families.value_of(b), families.value_of(a1).start)
    }
}

/// Whether type `a` conforms to type `b` inside class `current`.
pub fn conforms(a: &TypeID, b: &TypeID, current: &TypeID, families: &NameMap<Range<u32>>) -> (r:
    bool)
    requires
        families.wf(),
    ensures
        r == spec_conforms(a@, b@, current@, families),
{
    if a.is_no_type() {
        return true;
    }
    if b.is_self_type() {
        return a.is_self_type();
    }
    let family = match families.get(b.as_str()) {
        Some(family) => family,
        None => {
            return false;
        },
    };
    let a1 = if a.is_self_type() {
        current
    } else {
        a
    };
    let tag = match families.get(a1.as_str()) {
        Some(f) => f.start,
        None => {
            return false;
        },
    };
    family.start <= tag && tag < family.end
}

/// The walk up from class `a` to the first class that `b` conforms to, or
/// that conforms to `b`; `Object` where the walk finds none within `fuel`
/// steps.
pub open spec fn lub_walk(
    a: Seq<char>,
    b: Seq<char>,
    current: Seq<char>,
    parent_names: &NameMap<TypeID>,
    families: &NameMap<Range<u32>>,
    fuel: nat,
) -> Seq<char>
    decreases fuel,
{
    if spec_conforms(a, b, current, families) {
        b
    } else if spec_conforms(b, a, current, families) {
        a
    } else if fuel == 0 || !parent_names.contains_name(a) {
        "Object"@
    } else {
        lub_walk(
            parent_names.value_of(a)@,
            b,
            current,
            parent_names,
            families,
            (fuel - 1) as nat,
        )
    }
}

/// The least type that both `a` and `b` conform to inside class `current`:
/// `SELF_TYPE` for two `SELF_TYPE`s; otherwise, with `current` in the place of
/// `SELF_TYPE`, the second type where the first conforms to it, the first
/// where the second conforms to it, and else the same for the parent of the
/// first.
pub open spec fn spec_least_upper_bound(
    a: Seq<char>,
    b: Seq<char>,
    current: Seq<char>,
    parent_names: &NameMap<TypeID>,
    families: &NameMap<Range<u32>>,
) -> Seq<char> {
    if a == "SELF_TYPE"@ && b == "SELF_TYPE"@ {
        "SELF_TYPE"@
    } else {
        lub_walk(
            if a == "SELF_TYPE"@ {
                current
            } else {
                a
            },
            if b == "SELF_TYPE"@ {
                current
            } else {
                b
            },
            current,
            parent_names,
            families,
            families.keys().len(),
        )
    }
}

/// The least type that both `a` and `b` conform to inside class `current`.
pub fn least_upper_bound(
    a: &TypeID,
    b: &TypeID,
    current: &TypeID,
    parent_names: &NameMap<TypeID>,
    families: &NameMap<Range<u32>>,
) -> (r: TypeID)
    requires
        parent_names.wf(),
        families.wf(),
    ensures
        r@ == spec_least_upper_bound(a@, b@, current@, parent_names, families),
{
    if a.is_self_type() && b.is_self_type() {
        return TypeID::new_self_type();
    }
    let mut a1: &TypeID = if a.is_self_type() {
        current
    } else {
        a
    };
    let b1: &TypeID = if b.is_self_type() {
        current
    } else {
        b
    };
    let n = families.len();
    let mut fuel: usize = n;
    loop
        invariant
            parent_names.wf(),
            families.wf(),
            spec_least_upper_bound(a@, b@, current@, parent_names, families) == lub_walk(
                a1@,
                b1@,
                current@,
                parent_names,
                families,
                fuel as nat,
            ),
        decreases fuel,
    {
        if conforms(a1, b1, current, families) {
            return b1.clone();
        }
        if conforms(b1, a1, current, families) {
            return a1.clone();
        }
        if fuel == 0 {
            return TypeID::new_object();
        }
        match parent_names.get(a1.as_str()) {
            Some(p) => {
                a1 = p;
            },
            None => {
                return TypeID::new_object();
            },
        }
        fuel -= 1;
    }
}

/// For every class of `families`, the position of the parent that
/// `parent_names` gives it.
pub open spec fn parent_links(
    parent_names: &NameMap<TypeID>,
    families: &NameMap<Range<u32>>,
) -> Seq<Option<int>> {
    Seq::new(
        families.keys().len(),
        |i: int|
            if parent_names.contains_name(families.keys()[i]) {
                families.position(parent_names.value_of(families.keys()[i])@)
            } else {
                None
            },
    )
}

/// The two maps describe an inheritance tree under the root class, with the
/// tags and families of a depth-first walk; the two placeholder types are no
/// classes.
pub open spec fn maps_ok(parent_names: &NameMap<TypeID>, families: &NameMap<Range<u32>>) -> bool {
    &&& families.wf()
    &&& parent_names.wf()
    &&& families.contains_name("Object"@)
    &&& !families.contains_name("SELF_TYPE"@)
    &&& !families.contains_name("_no_type"@)
    &&& tree_ok(
        parent_links(parent_names, families),
        families.values(),
        families.position("Object"@).unwrap(),
    )
}

/// Between classes, to conform is to descend.
pub proof fn lemma_conforms_descends(
    a: Seq<char>,
    b: Seq<char>,
    current: Seq<char>,
    parent_names: &NameMap<TypeID>,
    families: &NameMap<Range<u32>>,
)
    requires
        maps_ok(parent_names, families),
        families.contains_name(a),
        families.contains_name(b),
    ensures
        spec_conforms(a, b, current, families) <==> descends(
            parent_links(parent_names, families),
            families.position(a).unwrap(),
            families.position(b).unwrap(),
        ),
{
    let parents = parent_links(parent_names, families);
    let pa = families.position(a).unwrap();
    let pb = families.position(b).unwrap();
    assert(descends(parents, pa, pb) <==> in_family(
        families.values()[pb],
        families.values()[pa].start,
    ));
}

/// Every class conforms to itself, and so does each placeholder type.
pub proof fn lemma_conforms_reflexive(
    a: Seq<char>,
    current: Seq<char>,
    parent_names: &NameMap<TypeID>,
    families: &NameMap<Range<u32>>,
)
    requires
        maps_ok(parent_names, families),
        families.contains_name(a) || a == "SELF_TYPE"@ || a == "_no_type"@,
    ensures
        spec_conforms(a, a, current, families),
{
    if families.contains_name(a) {
        let parents = parent_links(parent_names, families);
        let pa = families.position(a).unwrap();
        lemma_descends_self(parents, pa);
        lemma_conforms_descends(a, a, current, parent_names, families);
    }
}

/// Where `a` conforms to `b` and `b` to `c`, `a` conforms to `c`.
pub proof fn lemma_conforms_transitive(
    a: Seq<char>,
    b: Seq<char>,
    c: Seq<char>,
    current: Seq<char>,
    parent_names: &NameMap<TypeID>,
    families: &NameMap<Range<u32>>,
)
    requires
        maps_ok(parent_names, families),
        spec_conforms(a, b, current, families),
        spec_conforms(b, c, current, families),
    ensures
        spec_conforms(a, c, current, families),
{
    if a != "_no_type"@ && c != "SELF_TYPE"@ && b != "SELF_TYPE"@ {
        let a1 = if a == "SELF_TYPE"@ {
            current
        } else {
            a
        };
        let parents = parent_links(parent_names, families);
        let pa = families.position(a1).unwrap();
        let pb = families.position(b).unwrap();
        let pc = families.position(c).unwrap();
        assert(descends(parents, pa, pb) <==> in_family(
            families.values()[pb],
            families.values()[pa].start,
        ));
        assert(descends(parents, pb, pc) <==> in_family(
            families.values()[pc],
            families.values()[pb].start,
        ));
        lemma_descends_trans(parents, pa, pb, pc);
        assert(descends(parents, pa, pc) <==> in_family(
            families.values()[pc],
            families.values()[pa].start,
        ));
    }
}

/// Class `j` is the least class that classes `a` and `b` both descend from.
pub open spec fn is_join(parents: Seq<Option<int>>, a: int, b: int, j: int) -> bool {
    &&& 0 <= j < parents.len()
    &&& descends(parents, a, j)
    &&& descends(parents, b, j)
    &&& forall|c: int|
        0 <= c < parents.len() && descends(parents, a, c) && descends(parents, b, c) ==> descends(
            parents,
            j,
            c,
        )
}

/// The walk up from a class ends at the least class that both classes
/// descend from.
pub proof fn lemma_lub_walk(
    a: Seq<char>,
    b: Seq<char>,
    current: Seq<char>,
    parent_names: &NameMap<TypeID>,
    families: &NameMap<Range<u32>>,
    fuel: nat,
)
    requires
        maps_ok(parent_names, families),
        families.contains_name(a),
        families.contains_name(b),
        fuel >= families.value_of(a).start,
    ensures
        families.contains_name(lub_walk(a, b, current, parent_names, families, fuel)),
        is_join(
            parent_links(parent_names, families),
            families.position(a).unwrap(),
            families.position(b).unwrap(),
            families.position(lub_walk(a, b, current, parent_names, families, fuel)).unwrap(),
        ),
    decreases fuel,
{
    let parents = parent_links(parent_names, families);
    let fams = families.values();
    let root = families.position("Object"@).unwrap();
    let pa = families.position(a).unwrap();
    let pb = families.position(b).unwrap();
    lemma_conforms_descends(a, b, current, parent_names, families);
    lemma_conforms_descends(b, a, current, parent_names, families);
    lemma_descends_self(parents, pa);
    lemma_descends_self(parents, pb);
    if spec_conforms(a, b, current, families) {
    } else if spec_conforms(b, a, current, families) {
    } else {
        assert(descends(parents, pb, root));
        assert(pa != root);
        assert(descends(parents, pa, root));
        lemma_descends_unstep(parents, pa, root);
        let p = parents[pa].unwrap();
        let pn = parent_names.value_of(a)@;
        assert(families.position(pn) == Some(p));
        assert(families.contains_name(pn));
        lemma_descends_self(parents, p);
        lemma_descends_step(parents, pa, p);
        lemma_tag_bounds(parents, fams, root, pa);
        lemma_lub_walk(pn, b, current, parent_names, families, (fuel - 1) as nat);
        let j = families.position(
            lub_walk(pn, b, current, parent_names, families, (fuel - 1) as nat),
        ).unwrap();
        lemma_descends_trans(parents, pa, p, j);
        assert forall|c: int|
            0 <= c < parents.len() && descends(parents, pa, c) && descends(
                parents,
                pb,
                c,
            ) implies descends(parents, j, c) by {
            if c == pa {
                assert(false);
            }
            lemma_descends_unstep(parents, pa, c);
        }
    }
}

/// Two least classes above the same two classes are one class.
pub proof fn lemma_join_unique(
    parents: Seq<Option<int>>,
    families: Seq<Range<u32>>,
    root: int,
    a: int,
    b: int,
    j1: int,
    j2: int,
)
    requires
        tree_ok(parents, families, root),
        is_join(parents, a, b, j1),
        is_join(parents, b, a, j2),
    ensures
        j1 == j2,
{
    lemma_descends_antisymmetric(parents, families, root, j1, j2);
}

/// The least upper bound of a type with itself is the type.
pub proof fn lemma_lub_idempotent(
    a: Seq<char>,
    current: Seq<char>,
    parent_names: &NameMap<TypeID>,
    families: &NameMap<Range<u32>>,
)
    requires
        maps_ok(parent_names, families),
        families.contains_name(a) || a == "SELF_TYPE"@,
    ensures
        spec_least_upper_bound(a, a, current, parent_names, families) == a,
{
    if a != "SELF_TYPE"@ {
        lemma_conforms_reflexive(a, current, parent_names, families);
    }
}

/// The least upper bound of two classes does not depend on their order.
pub proof fn lemma_lub_commutative(
    a: Seq<char>,
    b: Seq<char>,
    current: Seq<char>,
    parent_names: &NameMap<TypeID>,
    families: &NameMap<Range<u32>>,
)
    requires
        maps_ok(parent_names, families),
        families.contains_name(current),
        families.contains_name(a) || a == "SELF_TYPE"@,
        families.contains_name(b) || b == "SELF_TYPE"@,
    ensures
        spec_least_upper_bound(a, b, current, parent_names, families) == spec_least_upper_bound(
            b,
            a,
            current,
            parent_names,
            families,
        ),
{
    if !(a == "SELF_TYPE"@ && b == "SELF_TYPE"@) {
        let a1 = if a == "SELF_TYPE"@ {
            current
        } else {
            a
        };
        let b1 = if b == "SELF_TYPE"@ {
            current
        } else {
            b
        };
        let parents = parent_links(parent_names, families);
        let n = families.keys().len();
        let pa = families.position(a1).unwrap();
        let pb = families.position(b1).unwrap();
        let root = families.position("Object"@).unwrap();
        lemma_tag_bounds(parents, families.values(), root, pa);
        lemma_tag_bounds(parents, families.values(), root, pb);
        lemma_lub_walk(a1, b1, current, parent_names, families, n);
        lemma_lub_walk(b1, a1, current, parent_names, families, n);
        let r1 = lub_walk(a1, b1, current, parent_names, families, n);
        let r2 = lub_walk(b1, a1, current, parent_names, families, n);
        lemma_join_unique(
            parents,
            families.values(),
            families.position("Object"@).unwrap(),
            pa,
            pb,
            families.position(r1).unwrap(),
            families.position(r2).unwrap(),
        );
    }
}

} // verus!
