//! The integer constants of a program as the runtime needs them.

use crate::ast::Class;
use crate::name_table::{IntSet, NameMap};
use crate::semant::first_pass::rules::text_len;
use vstd::prelude::*;

verus! {

/// The integers stand in rising order, each once.
pub open spec fn ascending(s: Seq<u32>) -> bool {
    forall|i: int, j: int| 0 <= i < j < s.len() ==> s[i] < s[j]
}

/// Whether `v` is the length of one of the texts.
pub open spec fn is_length_of(texts: Seq<Seq<char>>, v: u32) -> bool {
    exists|i: int| 0 <= i < texts.len() && text_len(#[trigger] texts[i]) == v
}

/// The texts of a list of strings.
pub open spec fn texts_of(v: Seq<String>) -> Seq<Seq<char>> {
    Seq::new(v.len(), |i: int| v[i]@)
}

/// Puts a list of integers in rising order.
pub fn sort_ascending(v: Vec<u32>) -> (out: Vec<u32>)
    ensures
        out@.to_multiset() == v@.to_multiset(),
        forall|i: int, j: int| 0 <= i < j < out.len() ==> out[i] <= out[j],
{
    broadcast use {
        vstd::seq_lib::to_multiset_build,
        vstd::seq_lib::to_multiset_remove,
        vstd::seq_lib::to_multiset_contains,
        vstd::seq_lib::to_multiset_len,
        vstd::multiset::group_multiset_axioms,
    };

    let mut rest = v;
    let mut out: Vec<u32> = Vec::new();
    assert(out@.to_multiset().add(rest@.to_multiset()) =~= v@.to_multiset());
    while rest.len() > 0
        invariant
            out@.to_multiset().add(rest@.to_multiset()) == v@.to_multiset(),
            forall|i: int, j: int| 0 <= i < j < out.len() ==> out[i] <= out[j],
            forall|i: int, j: int| 0 <= i < out.len() && 0 <= j < rest.len() ==> out[i] <= rest[j],
        decreases rest.len(),
    {
        let mut best: usize = 0;
        let mut k: usize = 1;
        while k < rest.len()
            invariant
                best < rest.len(),
                1 <= k <= rest.len(),
                forall|j: int| 0 <= j < k ==> rest[best as int] <= rest[j],
            decreases rest.len() - k,
        {
            if rest[k] < rest[best] {
                best = k;
            }
            k += 1;
        }
        let ghost rest0 = rest@;
        let ghost out0 = out@;
        let b = rest.remove(best);
        out.push(b);
        proof {
            broadcast use vstd::multiset::group_multiset_axioms;

            assert(rest0[best as int] == b);
            assert(rest0.contains(b));
            vstd::seq_lib::to_multiset_contains(rest0, b);
            vstd::seq_lib::to_multiset_remove(rest0, best as int);
            vstd::seq_lib::to_multiset_build(out0, b);
            assert(out@.to_multiset().add(rest@.to_multiset()) =~= out0.to_multiset().add(
                rest0.to_multiset(),
            ));
            assert forall|i: int, j: int| 0 <= i < out.len() && 0 <= j < rest.len() implies out[i]
                <= rest[j] by {
                let jj = if j < best {
                    j
                } else {
                    j + 1
                };
                assert(rest@[j] == rest0[jj]);
                if i < out0.len() {
                    assert(out@[i] == out0[i]);
                }
            }
            assert forall|i: int, j: int| 0 <= i < j < out.len() implies out[i] <= out[j] by {
                if j < out0.len() {
                    assert(out@[i] == out0[i] && out@[j] == out0[j]);
                } else {
                    assert(out@[i] == out0[i]);
                    assert(out@[j] == rest0[best as int]);
                }
            }
        }
    }
    proof {
        broadcast use vstd::multiset::group_multiset_axioms;

        assert(rest@ =~= Seq::<u32>::empty());
        assert(out@.to_multiset() =~= v@.to_multiset());
    }
    out
}

/// The integer constants that the generated code holds: those of the
/// program, the lengths of the names of the source files, and the lengths
/// of the names of the classes; in rising order, each once.
pub fn constant_integers(
    int_table: &IntSet,
    in_file_names: &Vec<String>,
    classes: &NameMap<Class>,
) -> (r: Vec<u32>)
    requires
        classes.wf(),
    ensures
        ascending(r@),
        forall|v: u32|
            r@.contains(v) <==> int_table@.contains(v) || is_length_of(texts_of(in_file_names@), v)
                || is_length_of(classes.keys(), v),
{
    let program = int_table.to_vec();
    let mut all = IntSet::new();
    let mut i: usize = 0;
    while i < program.len()
        invariant
            i <= program.len(),
            program@ == int_table@,
            all@.no_duplicates(),
            forall|v: u32| all@.contains(v) <==> program@.subrange(0, i as int).contains(v),
        decreases program.len() - i,
    {
        let ghost before = all@;
        all.insert(program[i]);
        proof {
            let x = program[i as int];
            assert(program@.subrange(0, i + 1) =~= program@.subrange(0, i as int).push(x));
            assert forall|v: u32| all@.contains(v) <==> program@.subrange(0, i + 1).contains(v) by {
                lemma_contains_push(before, all@, x, v);
                lemma_contains_push(
                    program@.subrange(0, i as int),
                    program@.subrange(0, i + 1),
                    x,
                    v,
                );
            }
        }
        i += 1;
    }
    proof {
        assert(program@.subrange(0, program.len() as int) =~= program@);
    }
    let ghost files = texts_of(in_file_names@);
    let mut f: usize = 0;
    while f < in_file_names.len()
        invariant
            f <= in_file_names.len(),
            files == texts_of(in_file_names@),
            all@.no_duplicates(),
            forall|v: u32|
                #![trigger all@.contains(v)]
                all@.contains(v) <==> int_table@.contains(v) || is_length_of(
                    files.subrange(0, f as int),
                    v,
                ),
        decreases in_file_names.len() - f,
    {
        let ghost before = all@;
        let len = in_file_names[f].as_str().len();
        all.insert(#[verifier::truncate] (len as u32));
        proof {
            let x = text_len(files[f as int]);
            assert forall|v: u32|
                all@.contains(v) <==> int_table@.contains(v) || is_length_of(
                    files.subrange(0, f + 1),
                    v,
                ) by {
                lemma_contains_push(before, all@, x, v);
                lemma_lengths_push(files, f as int, v);
            }
        }
        f += 1;
    }
    proof {
        assert(files.subrange(0, in_file_names.len() as int) =~= files);
    }
    proof {
        assert(classes.keys().subrange(0, 0) =~= Seq::<Seq<char>>::empty());
        assert forall|v: u32| !is_length_of(classes.keys().subrange(0, 0), v) by {}
    }
    let mut c: usize = 0;
    while c < classes.len()
        invariant
            classes.wf(),
            c <= classes.keys().len(),
            files == texts_of(in_file_names@),
            all@.no_duplicates(),
            forall|v: u32|
                #![trigger all@.contains(v)]
                all@.contains(v) <==> int_table@.contains(v) || is_length_of(files, v)
                    || is_length_of(classes.keys().subrange(0, c as int), v),
        decreases classes.keys().len() - c,
    {
        let ghost before = all@;
        let len = classes.key(c).as_str().len();
        let length: u32 = #[verifier::truncate] (len as u32);
        all.insert(length);
        proof {
            let x = text_len(classes.keys()[c as int]);
            assert(length == x);
            assert forall|v: u32|
                #![trigger all@.contains(v)]
                all@.contains(v) <==> int_table@.contains(v) || is_length_of(files, v)
                    || is_length_of(classes.keys().subrange(0, c + 1), v) by {
                lemma_contains_push(before, all@, x, v);
                lemma_lengths_push(classes.keys(), c as int, v);
                assert(before.contains(v) <==> int_table@.contains(v) || is_length_of(files, v)
                    || is_length_of(classes.keys().subrange(0, c as int), v));
            }
        }
        c += 1;
    }
    proof {
        assert(classes.keys().subrange(0, classes.keys().len() as int) =~= classes.keys());
    }
    let items = all.to_vec();
    let sorted = sort_ascending(items);
    proof {
        items@.lemma_multiset_has_no_duplicates();
        sorted@.lemma_multiset_has_no_duplicates_conv();
        assert forall|v: u32| sorted@.contains(v) <==> items@.contains(v) by {
            vstd::seq_lib::to_multiset_contains(sorted@, v);
            vstd::seq_lib::to_multiset_contains(items@, v);
        }
        assert forall|v: u32|
            sorted@.contains(v) <==> int_table@.contains(v) || is_length_of(
                texts_of(in_file_names@),
                v,
            ) || is_length_of(classes.keys(), v) by {
            assert(all@.contains(v) <==> items@.contains(v));
        }
    }
    sorted
}

/// What a list holds after an element has joined it, unless the list held
/// the element already.
proof fn lemma_contains_push(before: Seq<u32>, after: Seq<u32>, x: u32, v: u32)
    requires
        after == before || after == before.push(x),
        after == before ==> before.contains(x),
    ensures
        after.contains(v) <==> before.contains(v) || v == x,
{
    if after == before.push(x) {
        if after.contains(v) {
            let i = choose|i: int| 0 <= i < after.len() && after[i] == v;
            if i < before.len() {
                assert(before[i] == v);
            }
        }
        if before.contains(v) {
            let i = choose|i: int| 0 <= i < before.len() && before[i] == v;
            assert(after[i] == v);
        }
        assert(after[before.len() as int] == x);
    }
}

/// The lengths of the first `n + 1` texts are those of the first `n` and
/// that of the next.
proof fn lemma_lengths_push(texts: Seq<Seq<char>>, n: int, v: u32)
    requires
        0 <= n < texts.len(),
    ensures
        is_length_of(texts.subrange(0, n + 1), v) <==> is_length_of(texts.subrange(0, n), v)
            || v == text_len(texts[n]),
{
    let a = texts.subrange(0, n);
    let b = texts.subrange(0, n + 1);
    if is_length_of(b, v) {
        let i = choose|i: int| 0 <= i < b.len() && text_len(#[trigger] b[i]) == v;
        if i < n {
            assert(a[i] == b[i]);
        }
    }
    if is_length_of(a, v) {
        let i = choose|i: int| 0 <= i < a.len() && text_len(#[trigger] a[i]) == v;
        assert(b[i] == a[i]);
    }
    assert(b[n] == texts[n]);
}

} // verus!
