//! What the first pass checks and lays out in a class, and the order in
//! which it takes the classes, stated as functions of the class table.

use crate::ast::{Attr, Class, Method, ObjectID, TypeID};
use crate::error::{ErrorKind, ErrorView};
use crate::name_table::{position_of, NameMap};
use crate::semant::build_inheritiance_tree::{families_in, first_some, parents_of};
use crate::semant::build_inheritiance_tree::type_names;
use crate::semant::first_pass::rules::{fault, fp_check, fp_out, known, Pools, Scope};
use vstd::prelude::*;

verus! {

/// The offset of the first attribute of the root class.
pub const ATTR_OFFSET_START: i16 = 3;

/// One slot of a dispatch table: the method, the class that implements it,
/// and the signature that an override must repeat.
pub struct SlotView {
    pub name: Seq<char>,
    pub owner: Seq<char>,
    pub ret: Seq<char>,
    pub formals: Seq<Seq<char>>,
}

/// The names of the methods of the slots.
pub open spec fn slot_names(slots: Seq<SlotView>) -> Seq<Seq<char>> {
    Seq::new(slots.len(), |i: int| slots[i].name)
}

/// The declared types of the formals of a method.
pub open spec fn formal_types(m: Method) -> Seq<Seq<char>> {
    Seq::new(m.formals.len() as nat, |k: int| m.formals[k].type_decl@)
}

/// The names of the first `i` attributes.
pub open spec fn attr_names(attrs: Seq<Attr>, i: int) -> Seq<Seq<char>> {
    Seq::new(i as nat, |k: int| attrs[k].name@)
}

/// What is wrong with the declaration of an attribute, given whether an
/// ancestor declares an attribute of its name, and the names of the
/// attributes before it in its own class.
pub open spec fn attr_fault(
    a: Attr,
    cx: Scope,
    inherited: bool,
    own: Seq<Seq<char>>,
) -> Option<ErrorView> {
    if a.name@ == "self"@ {
        Some(fault(ErrorKind::AttrNamedSelf, cx, a.line_no, seq![]))
    } else if own.contains(a.name@) {
        Some(fault(ErrorKind::AttrMultiplyDefined, cx, a.line_no, seq![a.name@]))
    } else if inherited {
        Some(fault(ErrorKind::AttrInherited, cx, a.line_no, seq![a.name@]))
    } else if !known(cx, a.type_decl@) && !crate::ast::is_system_name(a.type_decl@) && a.type_decl@
        != "SELF_TYPE"@ {
        Some(fault(ErrorKind::AttrTypeUndefined, cx, a.line_no, seq![a.type_decl@, a.name@]))
    } else {
        None
    }
}

/// Passes the attributes of a class from position `i` on, in order: the
/// offset must fit, then the declaration is checked, then the initializer.
pub open spec fn fp_attrs(
    attrs: Seq<Attr>,
    i: int,
    cx: Scope,
    inherited: Seq<Seq<char>>,
    base: int,
    p: Pools,
) -> Result<Pools, ErrorView>
    decreases attrs.len() - i,
{
    if 0 <= i < attrs.len() {
        if base + i > i16::MAX {
            Err(fault(ErrorKind::TooManyAttributes, cx, attrs[i].line_no, seq![attrs[i].name@]))
        } else {
            match attr_fault(
                attrs[i],
                cx,
                inherited.contains(attrs[i].name@),
                attr_names(attrs, i),
            ) {
                Some(x) => Err(x),
                None => match fp_check(attrs[i].init, cx, p) {
                    Err(x) => Err(x),
                    Ok(pools1) => fp_attrs(attrs, i + 1, cx, inherited, base, pools1),
                },
            }
        }
    } else {
        Ok(p)
    }
}

/// The first formal at which an override departs from the types of the
/// method that it overrides.
pub open spec fn first_changed_formal(m: Method, old: Seq<Seq<char>>, k: int) -> Option<int>
    decreases m.formals.len() - k,
{
    if 0 <= k < m.formals.len() && k < old.len() {
        if m.formals[k].type_decl@ != old[k] {
            Some(k)
        } else {
            first_changed_formal(m, old, k + 1)
        }
    } else {
        None
    }
}

/// What is wrong with a method of class `class` as an override of the
/// method in `slot`.
pub open spec fn override_fault(
    m: Method,
    name: Seq<char>,
    class: Seq<char>,
    file: Seq<char>,
    slot: SlotView,
) -> Option<ErrorView> {
    if slot.ret != m.return_type@ {
        Some(
            ErrorView {
                kind: ErrorKind::OverrideReturnType,
                file_name: file,
                line_no: m.line_no,
                names: seq![name, m.return_type@, slot.ret, class],
            },
        )
    } else if slot.formals.len() != m.formals.len() {
        Some(
            ErrorView {
                kind: ErrorKind::OverrideFormalCount,
                file_name: file,
                line_no: m.line_no,
                names: seq![name, class],
            },
        )
    } else {
        match first_changed_formal(m, slot.formals, 0) {
            Some(k) => Some(
                ErrorView {
                    kind: ErrorKind::OverrideFormalType,
                    file_name: file,
                    line_no: m.line_no,
                    names: seq![name, m.formals[k].type_decl@, slot.formals[k], class],
                },
            ),
            None => None,
        }
    }
}

/// Whether a formal before position `k` has the name `name`.
pub open spec fn formal_before(m: Method, k: int, name: Seq<char>) -> bool {
    exists|j: int| 0 <= j < k && j < m.formals.len() && (#[trigger] m.formals[j]).name@ == name
}

/// What is wrong with the formal at position `k`.
pub open spec fn formal_fault(m: Method, cx: Scope, k: int) -> Option<ErrorView> {
    let f = m.formals[k];
    if f.type_decl@ == "SELF_TYPE"@ {
        Some(fault(ErrorKind::FormalSelfType, cx, m.line_no, seq![f.name@]))
    } else if f.name@ == "self"@ {
        Some(fault(ErrorKind::FormalNamedSelf, cx, m.line_no, seq![]))
    } else if !known(cx, f.type_decl@) {
        Some(fault(ErrorKind::FormalTypeUndefined, cx, m.line_no, seq![f.type_decl@, f.name@]))
    } else if formal_before(m, k, f.name@) {
        Some(fault(ErrorKind::FormalMultiplyDefined, cx, m.line_no, seq![f.name@]))
    } else {
        None
    }
}

/// What is wrong with the formal at each position.
pub open spec fn formal_fault_at(m: Method, cx: Scope) -> spec_fn(int) -> Option<ErrorView> {
    |k: int| formal_fault(m, cx, k)
}

/// What is wrong with the declaration of a method, given the slots that its
/// class inherits: as an override, or for want of a slot; then in its
/// formals, in order; then in its return type.
pub open spec fn method_fault(m: Method, name: Seq<char>, cx: Scope, slots: Seq<SlotView>) -> Option<
    ErrorView,
> {
    let over = match position_of(slot_names(slots), name) {
        Some(s) => override_fault(m, name, cx.current, cx.file, slots[s]),
        None => if slots.len() > i16::MAX {
            Some(fault(ErrorKind::TooManyMethods, cx, m.line_no, seq![name]))
        } else {
            None
        },
    };
    match over {
        Some(x) => Some(x),
        None => match first_some(formal_fault_at(m, cx), 0, m.formals.len() as int) {
            Some(x) => Some(x),
            None => if m.return_type@ != "SELF_TYPE"@ && !known(cx, m.return_type@) {
                Some(
                    fault(
                        ErrorKind::ReturnTypeUndefined,
                        cx,
                        m.line_no,
                        seq![m.return_type@, name],
                    ),
                )
            } else {
                None
            },
        },
    }
}

/// The slots with the method `name` of class `owner` among them: in the
/// slot of the method that it overrides, or else in a new last slot.
pub open spec fn with_method(
    slots: Seq<SlotView>,
    name: Seq<char>,
    owner: Seq<char>,
    m: Method,
) -> Seq<SlotView> {
    let slot = SlotView { name, owner, ret: m.return_type@, formals: formal_types(m) };
    match position_of(slot_names(slots), name) {
        Some(s) => slots.update(s, slot),
        None => slots.push(slot),
    }
}

/// The slots of a class after its first `i` methods.
pub open spec fn slots_upto(
    names: Seq<Seq<char>>,
    ms: Seq<Method>,
    i: int,
    owner: Seq<char>,
    slots: Seq<SlotView>,
) -> Seq<SlotView>
    decreases i,
{
    if i <= 0 {
        slots
    } else {
        with_method(slots_upto(names, ms, i - 1, owner, slots), names[i - 1], owner, ms[i - 1])
    }
}

/// Passes the methods of a class from position `i` on, in order: the
/// declaration first, then the body.
pub open spec fn fp_methods(
    names: Seq<Seq<char>>,
    ms: Seq<Method>,
    i: int,
    cx: Scope,
    slots: Seq<SlotView>,
    p: Pools,
) -> Result<Pools, ErrorView>
    decreases ms.len() - i,
{
    if 0 <= i < ms.len() {
        match method_fault(ms[i], names[i], cx, slots_upto(names, ms, i, cx.current, slots)) {
            Some(x) => Err(x),
            None => match fp_check(ms[i].expr, cx, p) {
                Err(x) => Err(x),
                Ok(pools1) => fp_methods(names, ms, i + 1, cx, slots, pools1),
            },
        }
    } else {
        Ok(p)
    }
}

/// What the pass knows after some classes: the pools, and for every class
/// that it has passed the names of the attributes that the class holds, its
/// own and the inherited ones, the offset after its last attribute, and its
/// slots.
pub struct PassState {
    pub pools: Pools,
    pub visible: Seq<Seq<Seq<char>>>,
    pub next_offset: Seq<int>,
    pub slots: Seq<Seq<SlotView>>,
}

/// The state before the first class.
pub open spec fn initial_state(n: nat, p: Pools) -> PassState {
    PassState {
        pools: p,
        visible: Seq::new(n, |i: int| Seq::empty()),
        next_offset: Seq::new(n, |i: int| ATTR_OFFSET_START as int),
        slots: Seq::new(n, |i: int| Seq::empty()),
    }
}

/// The place of the expressions of class `c`.
pub open spec fn class_scope(t: &NameMap<Class>, c: int) -> Scope {
    Scope {
        names: t.keys(),
        families: families_in(t),
        current: t.keys()[c],
        current_family: t.values()[c].family,
        file: t.values()[c].file_name@,
    }
}

/// The attribute names that class `c` inherits.
pub open spec fn inherited_names(t: &NameMap<Class>, c: int, s: PassState) -> Seq<Seq<char>> {
    match parents_of(t)[c] {
        Some(p) => s.visible[p],
        None => Seq::empty(),
    }
}

/// The offset of the first attribute of class `c`.
pub open spec fn base_offset(t: &NameMap<Class>, c: int, s: PassState) -> int {
    match parents_of(t)[c] {
        Some(p) => s.next_offset[p],
        None => ATTR_OFFSET_START as int,
    }
}

/// The slots that class `c` inherits.
pub open spec fn inherited_slots(t: &NameMap<Class>, c: int, s: PassState) -> Seq<SlotView> {
    match parents_of(t)[c] {
        Some(p) => s.slots[p],
        None => Seq::empty(),
    }
}

/// The slots of class `c`: those it inherits, with its own methods.
pub open spec fn class_slots(t: &NameMap<Class>, c: int, s: PassState) -> Seq<SlotView> {
    let class = t.values()[c];
    slots_upto(
        class.methods.keys(),
        class.methods.values(),
        class.methods.values().len() as int,
        t.keys()[c],
        inherited_slots(t, c, s),
    )
}

/// Passes class `c`: its attributes, then its methods.
pub open spec fn fp_class(t: &NameMap<Class>, c: int, s: PassState) -> Result<PassState, ErrorView> {
    let class = t.values()[c];
    let cx = class_scope(t, c);
    match fp_attrs(class.attrs@, 0, cx, inherited_names(t, c, s), base_offset(t, c, s), s.pools) {
        Err(x) => Err(x),
        Ok(pools1) => match fp_methods(
            class.methods.keys(),
            class.methods.values(),
            0,
            cx,
            inherited_slots(t, c, s),
            pools1,
        ) {
            Err(x) => Err(x),
            Ok(pools2) => Ok(
                PassState {
                    pools: pools2,
                    visible: s.visible.update(
                        c,
                        inherited_names(t, c, s) + attr_names(class.attrs@, class.attrs.len() as int),
                    ),
                    next_offset: s.next_offset.update(c, base_offset(t, c, s) + class.attrs.len()),
                    slots: s.slots.update(c, class_slots(t, c, s)),
                },
            ),
        },
    }
}

/// The class with the tag `tag`.
pub open spec fn class_with_tag(t: &NameMap<Class>, tag: int) -> Option<int> {
    if exists|c: int| 0 <= c < t.values().len() && (#[trigger] t.values()[c]).family.start == tag {
        Some(choose|c: int| 0 <= c < t.values().len() && (#[trigger] t.values()[c]).family.start == tag)
    } else {
        None
    }
}

/// Passes the classes with the tags below `k`, in the order of their tags:
/// the order of the depth-first walk from the root class.
pub open spec fn fp_run(t: &NameMap<Class>, k: int, p: Pools) -> Result<PassState, ErrorView>
    decreases k,
{
    if k <= 0 {
        Ok(initial_state(t.values().len(), p))
    } else {
        match fp_run(t, k - 1, p) {
            Err(x) => Err(x),
            Ok(s) => match class_with_tag(t, k - 1) {
                Some(c) => fp_class(t, c, s),
                None => Ok(s),
            },
        }
    }
}

/// What a dispatch table holds for a method, beside its name: the class
/// that implements the method, and the types that an override must repeat.
#[derive(Debug)]
pub struct Slot {
    pub owner: TypeID,
    pub return_type: TypeID,
    pub formal_types: Vec<TypeID>,
}

impl Slot {
    /// The slot, for the method `name`.
    pub open spec fn view_as(&self, name: Seq<char>) -> SlotView {
        SlotView {
            name,
            owner: self.owner@,
            ret: self.return_type@,
            formals: type_names(self.formal_types@),
        }
    }

    /// The slot of the method `m` of class `owner`.
    pub fn of(owner: &TypeID, m: &Method) -> (r: Slot)
        ensures
            r.owner@ == owner@,
            r.return_type@ == m.return_type@,
            type_names(r.formal_types@) == formal_types(*m),
    {
        let mut types: Vec<TypeID> = Vec::new();
        let mut i: usize = 0;
        while i < m.formals.len()
            invariant
                i <= m.formals.len(),
                types.len() == i,
                forall|k: int| 0 <= k < i ==> (#[trigger] types[k])@ == m.formals[k].type_decl@,
            decreases m.formals.len() - i,
        {
            types.push(m.formals[i].type_decl.clone());
            i += 1;
        }
        proof {
            assert(type_names(types@) =~= formal_types(*m));
        }
        Slot { owner: owner.clone(), return_type: m.return_type.clone(), formal_types: types }
    }

    /// A slot that holds what this one holds.
    pub fn copy(&self) -> (r: Slot)
        ensures
            forall|name: Seq<char>| r.view_as(name) == self.view_as(name),
    {
        let mut formal_types: Vec<TypeID> = Vec::new();
        let mut i: usize = 0;
        while i < self.formal_types.len()
            invariant
                i <= self.formal_types.len(),
                formal_types.len() == i,
                forall|k: int| 0 <= k < i ==> (#[trigger] formal_types[k])@ == self.formal_types[k]@,
            decreases self.formal_types.len() - i,
        {
            formal_types.push(self.formal_types[i].clone());
            i += 1;
        }
        proof {
            assert(type_names(formal_types@) =~= type_names(self.formal_types@));
        }
        Slot { owner: self.owner.clone(), return_type: self.return_type.clone(), formal_types }
    }
}

/// The slots of a dispatch table under construction.
pub open spec fn slots_view(m: &NameMap<Slot>) -> Seq<SlotView> {
    Seq::new(m.values().len(), |i: int| m.values()[i].view_as(m.keys()[i]))
}

/// A table with the slots of `m`.
pub fn copy_slots(m: &NameMap<Slot>) -> (r: NameMap<Slot>)
    requires
        m.wf(),
    ensures
        r.wf(),
        r.keys() == m.keys(),
        slots_view(&r) == slots_view(m),
{
    let mut r: NameMap<Slot> = NameMap::new();
    let n = m.len();
    let mut i: usize = 0;
    while i < n
        invariant
            m.wf(),
            r.wf(),
            n == m.values().len(),
            i <= n,
            r.keys() == m.keys().subrange(0, i as int),
            r.values().len() == i,
            forall|k: int|
                0 <= k < i ==> (#[trigger] r.values()[k]).view_as(m.keys()[k]) == m.values()[k].view_as(
                    m.keys()[k],
                ),
        decreases n - i,
    {
        let ghost before = r;
        proof {
            let pre = m.keys().subrange(0, i as int);
            assert(!pre.contains(m.keys()[i as int])) by {
                if pre.contains(m.keys()[i as int]) {
                    let j = choose|j: int| 0 <= j < i && pre[j] == m.keys()[i as int];
                    assert(m.keys()[j] == m.keys()[i as int]);
                }
            }
            assert(pre.push(m.keys()[i as int]) =~= m.keys().subrange(0, i + 1));
        }
        r.insert(m.key(i).clone(), m.value(i).copy());
        proof {
            assert forall|k: int| 0 <= k < i + 1 implies (#[trigger] r.values()[k]).view_as(
                m.keys()[k],
            ) == m.values()[k].view_as(m.keys()[k]) by {
                if k < i {
                    assert(r.values()[k] == before.values()[k]);
                }
            }
        }
        i += 1;
    }
    proof {
        assert(m.keys().subrange(0, n as int) =~= m.keys());
        assert(slots_view(&r) =~= slots_view(m));
    }
    r
}

/// Attribute `out` is attribute `a` after the first pass: with its offset,
/// and with its initializer passed.
pub open spec fn attr_out(a: Attr, out: Attr, cx: Scope, offset: int, strs: Seq<Seq<char>>) -> bool {
    &&& out.line_no == a.line_no
    &&& out.name == a.name
    &&& out.type_decl == a.type_decl
    &&& out.self_offset == offset
    &&& fp_out(a.init, out.init, cx, strs)
    &&& a.init.wf() ==> out.init.wf()
}

/// Method `out` is method `m` after the first pass: with its body passed.
pub open spec fn method_out(m: Method, out: Method, cx: Scope, strs: Seq<Seq<char>>) -> bool {
    &&& out.line_no == m.line_no
    &&& out.formals == m.formals
    &&& out.return_type == m.return_type
    &&& fp_out(m.expr, out.expr, cx, strs)
    &&& m.expr.wf() ==> out.expr.wf()
}

/// The two tables of the class say what the slots say: the dispatch table
/// holds, slot by slot, the implementing class and the method, and every
/// method has the number of its slot.
pub open spec fn tables_match(out: Class, slots: Seq<SlotView>) -> bool {
    &&& out.dispatch_table.len() == slots.len()
    &&& forall|i: int|
        0 <= i < slots.len() ==> (#[trigger] out.dispatch_table[i]).0@ == slots[i].owner
            && out.dispatch_table[i].1@ == slots[i].name
    &&& out.method_name_to_pos.wf()
    &&& out.method_name_to_pos.keys() == slot_names(slots)
    &&& forall|i: int| 0 <= i < slots.len() ==> (#[trigger] out.method_name_to_pos.values()[i]) == i
}

/// What state `s` records of class `c` rests on what it records of the
/// parent of the class: the class holds the attributes of its parent and
/// its own, its offsets follow those of its parent, and its slots are those
/// of its parent with its own methods. The declarations of the class have
/// passed their checks.
pub open spec fn class_settled(t: &NameMap<Class>, c: int, s: PassState) -> bool {
    let class = t.values()[c];
    let cx = class_scope(t, c);
    &&& s.slots[c] == class_slots(t, c, s)
    &&& s.next_offset[c] == base_offset(t, c, s) + class.attrs.len()
    &&& s.visible[c] == inherited_names(t, c, s) + attr_names(class.attrs@, class.attrs.len() as int)
    &&& forall|i: int|
        0 <= i < class.attrs.len() ==> attr_fault(
            #[trigger] class.attrs[i],
            cx,
            inherited_names(t, c, s).contains(class.attrs[i].name@),
            attr_names(class.attrs@, i),
        ) is None
    &&& forall|i: int|
        0 <= i < class.methods.values().len() ==> method_fault(
            #[trigger] class.methods.values()[i],
            class.methods.keys()[i],
            cx,
            slots_upto(
                class.methods.keys(),
                class.methods.values(),
                i,
                t.keys()[c],
                inherited_slots(t, c, s),
            ),
        ) is None
}

/// Attributes that pass have no fault in their declarations.
pub proof fn lemma_attrs_clean(
    attrs: Seq<Attr>,
    i: int,
    cx: Scope,
    inherited: Seq<Seq<char>>,
    base: int,
    p: Pools,
)
    requires
        0 <= i,
        fp_attrs(attrs, i, cx, inherited, base, p) is Ok,
    ensures
        forall|k: int|
            i <= k < attrs.len() ==> attr_fault(
                #[trigger] attrs[k],
                cx,
                inherited.contains(attrs[k].name@),
                attr_names(attrs, k),
            ) is None,
    decreases attrs.len() - i,
{
    if i < attrs.len() {
        let pools1 = fp_check(attrs[i].init, cx, p)->Ok_0;
        lemma_attrs_clean(attrs, i + 1, cx, inherited, base, pools1);
    }
}

/// Methods that pass have no fault in their declarations.
pub proof fn lemma_methods_clean(
    names: Seq<Seq<char>>,
    ms: Seq<Method>,
    i: int,
    cx: Scope,
    slots: Seq<SlotView>,
    p: Pools,
)
    requires
        0 <= i,
        fp_methods(names, ms, i, cx, slots, p) is Ok,
    ensures
        forall|k: int|
            i <= k < ms.len() ==> method_fault(
                #[trigger] ms[k],
                names[k],
                cx,
                slots_upto(names, ms, k, cx.current, slots),
            ) is None,
    decreases ms.len() - i,
{
    if i < ms.len() {
        let pools1 = fp_check(ms[i].expr, cx, p)->Ok_0;
        lemma_methods_clean(names, ms, i + 1, cx, slots, pools1);
    }
}

/// Class `c` of table `out` is class `c` of table `t` after the first pass,
/// which ended in state `s`.
#[verifier::opaque]
pub open spec fn class_out(t: &NameMap<Class>, out: &NameMap<Class>, c: int, s: PassState) -> bool {
    let a = t.values()[c];
    let b = out.values()[c];
    let cx = class_scope(t, c);
    &&& class_settled(t, c, s)
    &&& b.file_name == a.file_name
    &&& b.file_no == a.file_no
    &&& b.basic == a.basic
    &&& b.line_no == a.line_no
    &&& b.parent_name == a.parent_name
    &&& b.family == a.family
    &&& b.child_names == a.child_names
    &&& b.attrs.len() == a.attrs.len()
    &&& forall|k: int|
        0 <= k < a.attrs.len() ==> attr_out(
            a.attrs[k],
            #[trigger] b.attrs[k],
            cx,
            base_offset(t, c, s) + k,
            s.pools.strs,
        )
    &&& b.methods.wf()
    &&& b.methods.keys() == a.methods.keys()
    &&& forall|k: int|
        0 <= k < a.methods.values().len() ==> method_out(
            a.methods.values()[k],
            #[trigger] b.methods.values()[k],
            cx,
            s.pools.strs,
        )
    &&& tables_match(b, s.slots[c])
}

/// Table `out` is table `t` after the first pass, which ended in state `s`.
pub open spec fn pass_out(t: &NameMap<Class>, out: &NameMap<Class>, s: PassState) -> bool {
    &&& out.wf()
    &&& out.keys() == t.keys()
    &&& forall|c: int| 0 <= c < t.values().len() ==> #[trigger] class_out(t, out, c, s)
}

/// A violation ends the pass: the classes after it change nothing.
pub proof fn lemma_run_stops(t: &NameMap<Class>, k: int, m: int, p: Pools)
    requires
        0 <= k <= m,
        fp_run(t, k, p) is Err,
    ensures
        fp_run(t, m, p) == fp_run(t, k, p),
    decreases m - k,
{
    if k < m {
        lemma_run_stops(t, k, m - 1, p);
    }
}

} // verus!
