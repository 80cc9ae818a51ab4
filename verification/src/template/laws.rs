//! What holds of the collected description and of the binding data made from
//! it, whatever the items recorded.
use vstd::prelude::*;
use crate::template::py_gen::{
    add_struct_spec, context_model, context_supported, drain, has_free_string, kind_is, lemma_add_struct_sorted,
    returns_string,
    lemma_drain_step, lemma_lower_bound, lower_bound, merged, sorted_structs, ContextModel,
    PyContextModel,
};
use crate::template::py_types::{
    fn_abi, has_struct_named, lemma_methods_abi_raw_pub, lemma_struct_abi_raw, methods_abi, py_of, struct_abi,
    PyModel, StructAbiModel,
};
use crate::template::rust_types::{raw_struct_model, FnModel, StructModel, StructTypes, TyModel};
use crate::text::lemma_seq_lt_irreflexive;

verus! {

/// The recorded structures as a map from type name to structure.
pub open spec fn by_name(st: Seq<StructModel>) -> Map<Seq<char>, StructModel> {
    Map::new(
        |n: Seq<char>| exists|i: int| 0 <= i < st.len() && st[i].self_ty == n,
        |n: Seq<char>| st[choose|i: int| 0 <= i < st.len() && st[i].self_ty == n],
    )
}

/// In a sorted list no type name occurs twice.
proof fn lemma_sorted_unique(st: Seq<StructModel>, i: int, j: int)
    requires
        sorted_structs(st),
        0 <= i < st.len(),
        0 <= j < st.len(),
        st[i].self_ty == st[j].self_ty,
    ensures
        i == j,
{
    if i != j {
        lemma_seq_lt_irreflexive(st[i].self_ty);
        if i < j {
            assert(crate::text::seq_lt(st[i].self_ty, st[j].self_ty));
        } else {
            assert(crate::text::seq_lt(st[j].self_ty, st[i].self_ty));
        }
    }
}

/// In a sorted list the structure at `i` is the one its name maps to.
proof fn lemma_by_name_at(st: Seq<StructModel>, i: int)
    requires
        sorted_structs(st),
        0 <= i < st.len(),
    ensures
        by_name(st).contains_key(st[i].self_ty),
        by_name(st)[st[i].self_ty] == st[i],
{
    let n = st[i].self_ty;
    assert(by_name(st).dom().contains(n));
    let k = choose|k: int| 0 <= k < st.len() && st[k].self_ty == n;
    lemma_sorted_unique(st, i, k);
}

/// The structures after adding `s`, read by type name: the type of `s` maps
/// to `s` merged into the structure it had, or to `s` if it had none; every
/// other type name maps to what it did before.
pub open spec fn by_name_after_add(st: Seq<StructModel>, s: StructModel) -> Map<Seq<char>, StructModel> {
    let m = by_name(st);
    m.insert(
        s.self_ty,
        if m.contains_key(s.self_ty) {
            merged(m[s.self_ty], s)
        } else {
            s
        },
    )
}

/// Adding a structure to a description acts on its structures as a map from
/// type name to structure: the added type's entry becomes the added
/// structure, merged into the earlier one of that type if there was one, and
/// no other entry changes.
pub proof fn law_add_struct_by_name(st: Seq<StructModel>, s: StructModel)
    requires
        sorted_structs(st),
    ensures
        by_name(add_struct_spec(st, s)) == by_name_after_add(st, s),
{
    let r = add_struct_spec(st, s);
    let e = by_name_after_add(st, s);
    lemma_add_struct_sorted(st, s);
    lemma_lower_bound(st, s.self_ty);
    let p = lower_bound(st, s.self_ty);
    if p < st.len() && st[p].self_ty == s.self_ty {
        lemma_by_name_at(st, p);
        assert forall|n: Seq<char>| #[trigger] by_name(r).contains_key(n) <==> e.contains_key(n) by {
            if by_name(r).contains_key(n) {
                let i = choose|i: int| 0 <= i < r.len() && r[i].self_ty == n;
                assert(st[i].self_ty == n);
            }
            if e.contains_key(n) && n != s.self_ty {
                let i = choose|i: int| 0 <= i < st.len() && st[i].self_ty == n;
                assert(r[i].self_ty == n);
            }
            if n == s.self_ty {
                assert(r[p].self_ty == n);
            }
        }
        assert forall|n: Seq<char>| #[trigger] by_name(r).contains_key(n) implies by_name(r)[n] == e[n] by {
            let i = choose|i: int| 0 <= i < r.len() && r[i].self_ty == n;
            lemma_by_name_at(r, i);
            if i == p {
                assert(r[i] == merged(st[p], s));
            } else {
                assert(r[i] == st[i]);
                lemma_by_name_at(st, i);
                if n == s.self_ty {
                    lemma_sorted_unique(st, i, p);
                }
            }
        }
    } else {
        assert(!by_name(st).contains_key(s.self_ty)) by {
            if by_name(st).contains_key(s.self_ty) {
                let i = choose|i: int| 0 <= i < st.len() && st[i].self_ty == s.self_ty;
                lemma_seq_lt_irreflexive(s.self_ty);
                if i < p {
                    assert(crate::text::seq_lt(st[i].self_ty, s.self_ty));
                } else {
                    assert(!crate::text::seq_lt(st[i].self_ty, s.self_ty));
                    if i > p {
                        assert(crate::text::seq_lt(st[p].self_ty, st[i].self_ty));
                        assert(!crate::text::seq_lt(st[p].self_ty, s.self_ty));
                        crate::text::lemma_seq_lt_total(st[p].self_ty, s.self_ty);
                    }
                }
            }
        }
        assert forall|n: Seq<char>| #[trigger] by_name(r).contains_key(n) <==> e.contains_key(n) by {
            if by_name(r).contains_key(n) {
                let i = choose|i: int| 0 <= i < r.len() && r[i].self_ty == n;
                if i < p {
                    assert(st[i].self_ty == n);
                } else if i > p {
                    assert(st[i - 1].self_ty == n);
                }
            }
            if e.contains_key(n) && n != s.self_ty {
                let i = choose|i: int| 0 <= i < st.len() && st[i].self_ty == n;
                if i < p {
                    assert(r[i].self_ty == n);
                } else {
                    assert(r[i + 1].self_ty == n);
                }
            }
            if n == s.self_ty {
                assert(r[p].self_ty == n);
            }
        }
        assert forall|n: Seq<char>| #[trigger] by_name(r).contains_key(n) implies by_name(r)[n] == e[n] by {
            let i = choose|i: int| 0 <= i < r.len() && r[i].self_ty == n;
            lemma_by_name_at(r, i);
            if i < p {
                assert(r[i] == st[i]);
                lemma_by_name_at(st, i);
            } else if i > p {
                assert(r[i] == st[i - 1]);
                lemma_by_name_at(st, i - 1);
            } else {
                assert(r[i] == s);
            }
        }
    }
    assert(by_name(r) =~= e);
}

/// Every structure of the list comes out of draining it, with its type name
/// and kind.
proof fn lemma_drain_contains(st: Seq<StructModel>, i: int)
    requires
        0 <= i < st.len(),
    ensures
        exists|k: int|
            0 <= k < drain(st).len() && (#[trigger] drain(st)[k]).self_ty == st[i].self_ty && drain(st)[k].ty
                == st[i].ty,
    decreases crate::template::py_gen::methodful(st), st.len(),
{
    let rest = st.drop_last();
    let (a, st2) = struct_abi(st.last(), rest);
    lemma_drain_step(st);
    assert(drain(st) == seq![a] + drain(st2));
    if i == st.len() - 1 {
        assert(drain(st)[0] == a);
    } else {
        lemma_struct_abi_raw(st.last(), rest);
        assert(st2[i] == st2.subrange(0, rest.len() as int)[i]);
        assert(st2[i] == st[i]);
        lemma_drain_contains(st2, i);
        let k = choose|k: int|
            0 <= k < drain(st2).len() && (#[trigger] drain(st2)[k]).self_ty == st2[i].self_ty && drain(st2)[k].ty
                == st2[i].ty;
        assert(drain(st)[k + 1] == drain(st2)[k]);
    }
}

/// The binding data of the structures of one kind.
pub open spec fn of_kind(c: PyContextModel, k: StructTypes) -> Seq<StructAbiModel> {
    match k {
        StructTypes::Boxed => c.boxes,
        StructTypes::Json => c.jsons,
        StructTypes::RawPointer => c.pointers,
    }
}

/// Every structure recorded in a description is exported in its binding:
/// binding data with its type name is among the structures of its kind.
pub proof fn law_context_exports_structs(c: ContextModel, lib_name: Option<Seq<char>>, i: int)
    requires
        context_supported(c),
        0 <= i < c.structs.len(),
    ensures
        exists|a: StructAbiModel|
            #[trigger] of_kind(context_model(c, lib_name), c.structs[i].ty).contains(a) && a.self_ty
                == c.structs[i].self_ty,
{
    let st1 = methods_abi(c.funcs, c.structs).1;
    lemma_methods_abi_raw_pub(c.funcs, c.structs);
    assert(st1[i] == st1.subrange(0, c.structs.len() as int)[i]);
    lemma_drain_contains(st1, i);
    let d = drain(st1);
    let k = choose|k: int| 0 <= k < d.len() && (#[trigger] d[k]).self_ty == st1[i].self_ty && d[k].ty == st1[i].ty;
    let pred = kind_is(c.structs[i].ty);
    assert(pred(d[k]));
    d.lemma_filter_contains(pred, k);
    assert(d.filter(pred).contains(d[k]));
    assert(of_kind(context_model(c, lib_name), c.structs[i].ty) == d.filter(pred));
}

/// Converting functions yields binding data for each, in order, under its
/// symbol.
proof fn lemma_methods_abi_names(fs: Seq<FnModel>, st: Seq<StructModel>)
    ensures
        methods_abi(fs, st).0.len() == fs.len(),
        forall|j: int| 0 <= j < fs.len() ==> (#[trigger] methods_abi(fs, st).0[j]).extern_name == fs[j].extern_name,
    decreases fs.len(),
{
    if fs.len() > 0 {
        lemma_methods_abi_names(fs.drop_last(), st);
        let (abis, st1) = methods_abi(fs.drop_last(), st);
        let a = fn_abi(fs.last(), st1).0;
        assert(methods_abi(fs, st).0 == abis.push(a));
        assert forall|j: int| 0 <= j < fs.len() implies (#[trigger] methods_abi(fs, st).0[j]).extern_name
            == fs[j].extern_name by {
            if j < fs.len() - 1 {
                assert(methods_abi(fs, st).0[j] == abis[j]);
            }
        }
    }
}

/// Every function recorded in a description is exported in its binding, in
/// order, under its C symbol.
pub proof fn law_context_exports_funcs(c: ContextModel, lib_name: Option<Seq<char>>)
    ensures
        context_model(c, lib_name).abis.len() == c.funcs.len(),
        forall|j: int|
            0 <= j < c.funcs.len() ==> (#[trigger] context_model(c, lib_name).abis[j]).extern_name
                == c.funcs[j].extern_name,
{
    lemma_methods_abi_names(c.funcs, c.structs);
}


/// The type names that the pointers in `t` point to, in the order in which
/// converting `t` visits them: an option's inner type, a result's success
/// type before its error type.
pub open spec fn ptr_names(t: TyModel) -> Seq<Seq<char>>
    decreases t,
{
    match t {
        TyModel::Ptr(s) => seq![s],
        TyModel::Option(i) => ptr_names(*i),
        TyModel::Result(a, b) => ptr_names(*a) + ptr_names(*b),
        _ => Seq::empty(),
    }
}

/// The raw-pointer structures named `names`, in order.
pub open spec fn raw_structs(names: Seq<Seq<char>>) -> Seq<StructModel> {
    names.map_values(|n: Seq<char>| raw_struct_model(n))
}

/// The names of `names` that no structure of `st` has, each at its first
/// occurrence, in order.
pub open spec fn fresh_names(names: Seq<Seq<char>>, st: Seq<StructModel>) -> Seq<Seq<char>>
    decreases names.len(),
{
    if names.len() == 0 {
        Seq::empty()
    } else {
        let prev = fresh_names(names.drop_last(), st);
        if has_struct_named(st + raw_structs(prev), names.last()) {
            prev
        } else {
            prev.push(names.last())
        }
    }
}

proof fn lemma_raw_structs_add(a: Seq<Seq<char>>, b: Seq<Seq<char>>)
    ensures
        raw_structs(a + b) == raw_structs(a) + raw_structs(b),
{
    assert(raw_structs(a + b) =~= raw_structs(a) + raw_structs(b));
}

proof fn lemma_fresh_names_concat(x: Seq<Seq<char>>, y: Seq<Seq<char>>, st: Seq<StructModel>)
    ensures
        fresh_names(x + y, st) == fresh_names(x, st) + fresh_names(y, st + raw_structs(fresh_names(x, st))),
    decreases y.len(),
{
    let fx = fresh_names(x, st);
    let st1 = st + raw_structs(fx);
    if y.len() == 0 {
        assert(x + y =~= x);
        assert(fx + Seq::<Seq<char>>::empty() =~= fx);
    } else {
        let yd = y.drop_last();
        assert((x + y).drop_last() =~= x + yd);
        assert((x + y).last() == y.last());
        lemma_fresh_names_concat(x, yd, st);
        let fyd = fresh_names(yd, st1);
        lemma_raw_structs_add(fx, fyd);
        assert(st + raw_structs(fx + fyd) =~= st1 + raw_structs(fyd));
        assert((fx + fyd).push(y.last()) =~= fx + fyd.push(y.last()));
    }
}

proof fn lemma_fresh_names_new(names: Seq<Seq<char>>, st: Seq<StructModel>)
    ensures
        forall|i: int| 0 <= i < fresh_names(names, st).len() ==> !has_struct_named(st, #[trigger] fresh_names(names, st)[i]),
        forall|i: int, j: int|
            0 <= i < j < fresh_names(names, st).len() ==> #[trigger] fresh_names(names, st)[i] != #[trigger] fresh_names(names, st)[j],
    decreases names.len(),
{
    if names.len() > 0 {
        let prev = fresh_names(names.drop_last(), st);
        lemma_fresh_names_new(names.drop_last(), st);
        let n = names.last();
        let ext = st + raw_structs(prev);
        if !has_struct_named(ext, n) {
            assert forall|i: int| 0 <= i < st.len() implies st[i].self_ty != n by {
                assert(ext[i] == st[i]);
            }
            assert forall|i: int| 0 <= i < prev.len() implies prev[i] != n by {
                assert(ext[st.len() + i] == raw_struct_model(prev[i]));
            }
        }
    }
}

/// Converting a type only appends to the structure list: the old list stays
/// as it was, and after it comes one raw-pointer structure for each type name
/// that a pointer in the type points to and no structure had, in the order of
/// first occurrence (an option's inner type, a result's success type before
/// its error type). The appended names are new to the list and distinct.
pub proof fn law_py_of_appends(t: TyModel, st: Seq<StructModel>)
    ensures
        py_of(t, st).1 == st + raw_structs(fresh_names(ptr_names(t), st)),
        forall|i: int|
            0 <= i < fresh_names(ptr_names(t), st).len() ==> !has_struct_named(st, #[trigger] fresh_names(ptr_names(t), st)[i]),
        forall|i: int, j: int|
            0 <= i < j < fresh_names(ptr_names(t), st).len() ==> #[trigger] fresh_names(ptr_names(t), st)[i]
                != #[trigger] fresh_names(ptr_names(t), st)[j],
    decreases t,
{
    lemma_fresh_names_new(ptr_names(t), st);
    match t {
        TyModel::Ptr(s) => {
            let names = seq![s];
            let none = Seq::<Seq<char>>::empty();
            assert(names.drop_last() =~= none);
            assert(fresh_names(none, st) == none);
            assert(st + raw_structs(none) =~= st);
            assert(none.push(s) =~= seq![s]);
            assert(st + raw_structs(seq![s]) =~= st.push(raw_struct_model(s)));
        },
        TyModel::Option(i) => {
            law_py_of_appends(*i, st);
        },
        TyModel::Result(a, b) => {
            law_py_of_appends(*a, st);
            let fa = fresh_names(ptr_names(*a), st);
            let st1 = st + raw_structs(fa);
            law_py_of_appends(*b, st1);
            let fb = fresh_names(ptr_names(*b), st1);
            lemma_fresh_names_concat(ptr_names(*a), ptr_names(*b), st);
            lemma_raw_structs_add(fa, fb);
            assert(st + raw_structs(fa + fb) =~= st1 + raw_structs(fb));
        },
        _ => {
            assert(st + raw_structs(Seq::<Seq<char>>::empty()) =~= st);
        },
    }
}

/// The Rust float types.
pub open spec fn rust_float_name(n: Seq<char>) -> bool {
    n == "f32"@ || n == "f64"@
}

/// The Rust integer types, and `char`, which Python holds as an integer.
pub open spec fn rust_int_like_name(n: Seq<char>) -> bool {
    n == "i8"@ || n == "i16"@ || n == "i32"@ || n == "i64"@ || n == "i128"@ || n == "isize"@ || n == "u8"@
        || n == "u16"@ || n == "u32"@ || n == "u64"@ || n == "u128"@ || n == "usize"@ || n == "char"@
}

/// A Rust primitive becomes the Python primitive of its kind, whatever the
/// structure list: each float type becomes `float`, each integer type and
/// `char` becomes `int`, and `bool` stays `bool`; the hint and the declared
/// type are that name, and no structure is added.
pub proof fn law_py_of_primitive(n: Seq<char>, st: Seq<StructModel>)
    ensures
        rust_float_name(n) ==> py_of(TyModel::Primitive(n), st) == (PyModel::Primitive("float"@), st),
        rust_int_like_name(n) ==> py_of(TyModel::Primitive(n), st) == (PyModel::Primitive("int"@), st),
        n == "bool"@ ==> py_of(TyModel::Primitive(n), st) == (PyModel::Primitive("bool"@), st),
        rust_float_name(n) ==> py_of(TyModel::Primitive(n), st).0.hint() == "float"@
            && py_of(TyModel::Primitive(n), st).0.extern_name() == "float"@,
        rust_int_like_name(n) ==> py_of(TyModel::Primitive(n), st).0.hint() == "int"@
            && py_of(TyModel::Primitive(n), st).0.extern_name() == "int"@,
{
    reveal_strlit("i8");
    reveal_strlit("i16");
    reveal_strlit("i32");
    reveal_strlit("i64");
    reveal_strlit("i128");
    reveal_strlit("isize");
    reveal_strlit("u8");
    reveal_strlit("u16");
    reveal_strlit("u32");
    reveal_strlit("u64");
    reveal_strlit("u128");
    reveal_strlit("usize");
    reveal_strlit("char");
    reveal_strlit("f32");
    reveal_strlit("f64");
    reveal_strlit("bool");
    if rust_float_name(n) {
        assert(n[0] == 'f');
        assert(!rust_int_like_name(n));
        assert(n != "bool"@);
    }
    if n == "bool"@ {
        assert(n[0] == 'b');
        assert(!rust_int_like_name(n));
        assert(!rust_float_name(n));
    }
}

/// Adding a structure of a type the sorted list already has merges the two
/// descriptions in place: the list keeps its length and every other entry;
/// the merged entry keeps its name and kind, has every earlier method
/// followed by the new ones, and takes the new destructor if one is given,
/// else keeps the earlier one.
pub proof fn law_add_struct_merges(st: Seq<StructModel>, s: StructModel, i: int)
    requires
        sorted_structs(st),
        0 <= i < st.len(),
        st[i].self_ty == s.self_ty,
    ensures
        add_struct_spec(st, s).len() == st.len(),
        add_struct_spec(st, s)[i].self_ty == s.self_ty,
        add_struct_spec(st, s)[i].ty == st[i].ty,
        add_struct_spec(st, s)[i].methods == st[i].methods + s.methods,
        add_struct_spec(st, s)[i].methods.len() == st[i].methods.len() + s.methods.len(),
        add_struct_spec(st, s)[i].destructor == (if s.destructor is Some {
            s.destructor
        } else {
            st[i].destructor
        }),
        forall|j: int| 0 <= j < st.len() && j != i ==> #[trigger] add_struct_spec(st, s)[j] == st[j],
{
    let p = lower_bound(st, s.self_ty);
    lemma_lower_bound(st, s.self_ty);
    lemma_seq_lt_irreflexive(s.self_ty);
    if p < i {
        assert(crate::text::seq_lt(st[p].self_ty, st[i].self_ty));
    }
    assert(p == i);
}

/// A context in which some structure's method returns a string, and no
/// function named `free_string` is recorded, is one that `create_context`
/// refuses with `MISSING_FREE_STRING`: a returned string must be freeable.
pub proof fn law_method_string_needs_free_string(c: ContextModel, i: int, j: int)
    requires
        0 <= i < c.structs.len(),
        0 <= j < c.structs[i].methods.len(),
        c.structs[i].methods[j].output == Some(TyModel::String),
        forall|k: int| 0 <= k < c.free_funcs.len() ==> (#[trigger] c.free_funcs[k]).func.name != "free_string"@,
        forall|k: int| 0 <= k < c.funcs.len() ==> (#[trigger] c.funcs[k]).name != "free_string"@,
    ensures
        returns_string(c),
        !has_free_string(c),
{
}

/// Likewise for a free function that returns a string.
pub proof fn law_function_string_needs_free_string(c: ContextModel, i: int)
    requires
        0 <= i < c.funcs.len(),
        c.funcs[i].output == Some(TyModel::String),
        forall|k: int| 0 <= k < c.free_funcs.len() ==> (#[trigger] c.free_funcs[k]).func.name != "free_string"@,
        forall|k: int| 0 <= k < c.funcs.len() ==> (#[trigger] c.funcs[k]).name != "free_string"@,
    ensures
        returns_string(c),
        !has_free_string(c),
{
}

/// Adding a structure of a type the sorted list does not have inserts it
/// whole: the list grows by one, stays sorted, holds the new structure at
/// some position, and without it is the list it was.
pub proof fn law_add_struct_inserts(st: Seq<StructModel>, s: StructModel)
    requires
        sorted_structs(st),
        forall|i: int| 0 <= i < st.len() ==> (#[trigger] st[i]).self_ty != s.self_ty,
    ensures
        add_struct_spec(st, s).len() == st.len() + 1,
        sorted_structs(add_struct_spec(st, s)),
        exists|k: int|
            0 <= k <= st.len() && #[trigger] add_struct_spec(st, s)[k] == s && add_struct_spec(st, s).remove(k) == st,
{
    lemma_add_struct_sorted(st, s);
    lemma_lower_bound(st, s.self_ty);
    let p = lower_bound(st, s.self_ty);
    if p < st.len() {
        assert(st[p].self_ty != s.self_ty);
    }
    assert(add_struct_spec(st, s) == st.insert(p, s));
    assert(st.insert(p, s).remove(p) =~= st);
    assert(add_struct_spec(st, s)[p] == s);
}

/// A context with a structure passed as JSON, and no function named
/// `free_string`, is refused by `create_context`: JSON text handed to C must
/// be freeable.
pub proof fn law_json_struct_needs_free_string(c: ContextModel, i: int)
    requires
        0 <= i < c.structs.len(),
        c.structs[i].ty == StructTypes::Json,
        forall|k: int| 0 <= k < c.free_funcs.len() ==> (#[trigger] c.free_funcs[k]).func.name != "free_string"@,
        forall|k: int| 0 <= k < c.funcs.len() ==> (#[trigger] c.funcs[k]).name != "free_string"@,
    ensures
        returns_string(c),
        !has_free_string(c),
{
}

/// A context in which nothing returns a string and no structure is passed
/// as JSON needs no `free_string`: `create_context` does not refuse it.
pub proof fn law_no_string_no_refusal(c: ContextModel)
    requires
        forall|i: int| 0 <= i < c.funcs.len() ==> (#[trigger] c.funcs[i]).output != Some(TyModel::String),
        forall|i: int| 0 <= i < c.structs.len() ==> (#[trigger] c.structs[i]).ty != StructTypes::Json,
        forall|i: int, j: int|
            0 <= i < c.structs.len() && 0 <= j < c.structs[i].methods.len() ==> (#[trigger] c.structs[i].methods[j]).output
                != Some(TyModel::String),
    ensures
        !returns_string(c),
{
}

/// A string becomes Python's `str`, declared as `LibString`; a pointer to a
/// type becomes a pointer of that type's name. Neither touches the list
/// beyond what pointers add.
pub proof fn law_py_of_string_and_pointer(name: Seq<char>, st: Seq<StructModel>)
    ensures
        py_of(TyModel::String, st) == (PyModel::String, st),
        py_of(TyModel::String, st).0.hint() == "str"@,
        py_of(TyModel::String, st).0.extern_name() == "LibString"@,
        py_of(TyModel::Ptr(name), st).0 == PyModel::Pointer(name),
        py_of(TyModel::Ptr(name), st).0.hint() == name,
{
}

} // verus!
