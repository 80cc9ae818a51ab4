//! The collected description of an interface and the data that its Python
//! binding is rendered from.
use vstd::prelude::*;
use crate::template::error::{TResult, TemplateError};
use crate::template::py_types::{
    convert_functions, fn_abis_model, fn_supported, function_supported, lemma_methods_abi_raw_pub,
    lemma_struct_abi_raw, methods_abi, raw_extension, struct_abi, struct_supported, FnAbiModel, FunctionABI, StructAbiModel,
    StructureABI,
};
use crate::template::rust_types::{
    duplicate_structs, free_funcs_model, funcs_model, structs_model, FnModel, FreeFnModel,
    MetaType, RustFreeFunction, RustFunction, RustStructure, StructModel, StructTypes, TyModel,
};
use crate::text::{compare_str, concat, lemma_seq_lt_asymmetric, lemma_seq_lt_irreflexive,
    lemma_seq_lt_total, lemma_seq_lt_transitive, seq_lt, str_eq, StrOrder};
use crate::util::{camel_case, to_camel_case};

verus! {

/// The name of the package that renders bindings (the template package), from
/// which the default name of a generated binding class is derived.
pub const PACKAGE_NAME: &'static str = "foreignc_template";

/// The message of the error raised when strings are returned but nothing frees them.
pub const MISSING_FREE_STRING: &'static str = "Returned string without methods of deletion please add free_string a function or use foreignc_derive::generate_free_string to generate it";

/// Everything recorded about an exported interface.
#[derive(Debug, PartialEq)]
pub struct RustContext {
    pub structs: Vec<RustStructure>,
    pub funcs: Vec<RustFunction>,
    pub free_funcs: Vec<RustFreeFunction>,
}

/// The mathematical value of a `RustContext`.
pub struct ContextModel {
    pub structs: Seq<StructModel>,
    pub funcs: Seq<FnModel>,
    pub free_funcs: Seq<FreeFnModel>,
}

impl View for RustContext {
    type V = ContextModel;

    open spec fn view(&self) -> ContextModel {
        ContextModel {
            structs: structs_model(self.structs@),
            funcs: funcs_model(self.funcs@),
            free_funcs: free_funcs_model(self.free_funcs@),
        }
    }
}

/// The structures are ordered strictly by type name (so no name occurs twice).
pub open spec fn sorted_structs(st: Seq<StructModel>) -> bool {
    forall|i: int, j: int| 0 <= i < j < st.len() ==> seq_lt(st[i].self_ty, st[j].self_ty)
}

/// The number of structures, among those of a sorted list, whose type name
/// comes before `name`: the position where `name` belongs.
pub open spec fn lower_bound(st: Seq<StructModel>, name: Seq<char>) -> int
    decreases st.len(),
{
    if st.len() == 0 {
        0
    } else if seq_lt(st.last().self_ty, name) {
        st.len() as int
    } else {
        lower_bound(st.drop_last(), name)
    }
}

/// A structure `old` after a further description `s` of the same type was
/// added: the methods of `s` follow those of `old`, and the destructor of `s`
/// replaces that of `old` when `s` has one.
pub open spec fn merged(old: StructModel, s: StructModel) -> StructModel {
    StructModel {
        self_ty: old.self_ty,
        methods: old.methods + s.methods,
        destructor: if s.destructor is Some {
            s.destructor
        } else {
            old.destructor
        },
        ty: old.ty,
    }
}

/// A sorted structure list after adding `s`: merged into the structure of the
/// same type name if there is one, else inserted where its name belongs.
pub open spec fn add_struct_spec(st: Seq<StructModel>, s: StructModel) -> Seq<StructModel> {
    let p = lower_bound(st, s.self_ty);
    if p < st.len() && st[p].self_ty == s.self_ty {
        st.update(p, merged(st[p], s))
    } else {
        st.insert(p, s)
    }
}

/// A structure list after adding each of `others`, first to last.
pub open spec fn add_all(st: Seq<StructModel>, others: Seq<StructModel>) -> Seq<StructModel>
    decreases others.len(),
{
    if others.len() == 0 {
        st
    } else {
        add_struct_spec(add_all(st, others.drop_last()), others.last())
    }
}

/// In a sorted list, the structures before `lower_bound` come before `name`
/// and the others do not.
pub proof fn lemma_lower_bound(st: Seq<StructModel>, name: Seq<char>)
    requires
        sorted_structs(st),
    ensures
        0 <= lower_bound(st, name) <= st.len(),
        forall|j: int| 0 <= j < lower_bound(st, name) ==> seq_lt(#[trigger] st[j].self_ty, name),
        forall|j: int| lower_bound(st, name) <= j < st.len() ==> !seq_lt(#[trigger] st[j].self_ty, name),
    decreases st.len(),
{
    if st.len() > 0 {
        let p = lower_bound(st, name);
        if seq_lt(st.last().self_ty, name) {
            assert forall|j: int| 0 <= j < p implies seq_lt(#[trigger] st[j].self_ty, name) by {
                if j < st.len() - 1 {
                    lemma_seq_lt_transitive(st[j].self_ty, st.last().self_ty, name);
                }
            }
        } else {
            let d = st.drop_last();
            assert(sorted_structs(d));
            lemma_lower_bound(d, name);
            assert forall|j: int| 0 <= j < p implies seq_lt(#[trigger] st[j].self_ty, name) by {
                assert(st[j] == d[j]);
            }
            assert forall|j: int| p <= j < st.len() implies !seq_lt(#[trigger] st[j].self_ty, name) by {
                if j < st.len() - 1 {
                    assert(st[j] == d[j]);
                }
            }
        }
    }
}

/// A position with every name before it smaller than `name`, and no name from
/// it on smaller, is `lower_bound`.
proof fn lemma_lower_bound_unique(st: Seq<StructModel>, name: Seq<char>, p: int)
    requires
        sorted_structs(st),
        0 <= p <= st.len(),
        forall|j: int| 0 <= j < p ==> seq_lt(#[trigger] st[j].self_ty, name),
        forall|j: int| p <= j < st.len() ==> !seq_lt(#[trigger] st[j].self_ty, name),
    ensures
        lower_bound(st, name) == p,
{
    lemma_lower_bound(st, name);
    let q = lower_bound(st, name);
    if q < p {
        assert(seq_lt(st[q].self_ty, name));
    } else if p < q {
        assert(seq_lt(st[p].self_ty, name));
    }
}

/// Adding a structure keeps the list sorted.
pub proof fn lemma_add_struct_sorted(st: Seq<StructModel>, s: StructModel)
    requires
        sorted_structs(st),
    ensures
        sorted_structs(add_struct_spec(st, s)),
{
    lemma_lower_bound(st, s.self_ty);
    let p = lower_bound(st, s.self_ty);
    let r = add_struct_spec(st, s);
    if p < st.len() && st[p].self_ty == s.self_ty {
        assert forall|i: int, j: int| 0 <= i < j < r.len() implies seq_lt(r[i].self_ty, r[j].self_ty) by {
            assert(r[i].self_ty == st[i].self_ty);
            assert(r[j].self_ty == st[j].self_ty);
        }
    } else {
        assert forall|i: int, j: int| 0 <= i < j < r.len() implies seq_lt(r[i].self_ty, r[j].self_ty) by {
            if j < p {
                assert(r[i] == st[i] && r[j] == st[j]);
            } else if j == p {
                assert(r[i] == st[i]);
            } else if i < p {
                assert(r[i] == st[i] && r[j] == st[j - 1]);
                lemma_seq_lt_total(st[j - 1].self_ty, s.self_ty);
                if seq_lt(s.self_ty, st[j - 1].self_ty) {
                    lemma_seq_lt_transitive(st[i].self_ty, s.self_ty, st[j - 1].self_ty);
                }
            } else if i == p {
                assert(r[j] == st[j - 1]);
                lemma_seq_lt_total(st[j - 1].self_ty, s.self_ty);
                if j - 1 == p {
                } else {
                    assert(seq_lt(st[p].self_ty, st[j - 1].self_ty));
                    lemma_seq_lt_total(st[p].self_ty, s.self_ty);
                    if seq_lt(s.self_ty, st[p].self_ty) {
                        lemma_seq_lt_transitive(s.self_ty, st[p].self_ty, st[j - 1].self_ty);
                    }
                }
            } else {
                assert(r[i] == st[i - 1] && r[j] == st[j - 1]);
            }
        }
    }
}

/// Where a structure of type name `name` is, or belongs, in a sorted list.
fn find_struct(structs: &Vec<RustStructure>, name: &str) -> (r: Result<usize, usize>)
    requires
        sorted_structs(structs_model(structs@)),
    ensures
        match r {
            Ok(i) => i == lower_bound(structs_model(structs@), name@) && i < structs@.len()
                && structs@[i as int].self_ty@ == name@,
            Err(i) => i == lower_bound(structs_model(structs@), name@) && i <= structs@.len() && (i == structs@.len()
                || structs@[i as int].self_ty@ != name@),
        },
{
    let ghost st = structs_model(structs@);
    let mut lo: usize = 0;
    let mut hi: usize = structs.len();
    while lo < hi
        invariant
            st == structs_model(structs@),
            sorted_structs(st),
            0 <= lo <= hi <= st.len(),
            forall|j: int| 0 <= j < lo ==> seq_lt(#[trigger] st[j].self_ty, name@),
            forall|j: int| hi <= j < st.len() ==> seq_lt(name@, #[trigger] st[j].self_ty),
        decreases hi - lo,
    {
        let mid = lo + (hi - lo) / 2;
        assert(st[mid as int].self_ty == structs@[mid as int].self_ty@);
        match compare_str(structs[mid].self_ty.as_str(), name) {
            StrOrder::Less => {
                assert forall|j: int| 0 <= j < mid + 1 implies seq_lt(#[trigger] st[j].self_ty, name@) by {
                    if j < mid {
                        lemma_seq_lt_transitive(st[j].self_ty, st[mid as int].self_ty, name@);
                    }
                }
                lo = mid + 1;
            },
            StrOrder::Equal => {
                proof {
                    assert forall|j: int| mid <= j < st.len() implies !seq_lt(#[trigger] st[j].self_ty, name@) by {
                        if j == mid {
                            lemma_seq_lt_irreflexive(name@);
                        } else {
                            lemma_seq_lt_asymmetric(name@, st[j].self_ty);
                        }
                    }
                    assert forall|j: int| 0 <= j < mid implies seq_lt(#[trigger] st[j].self_ty, name@) by {
                    }
                    lemma_lower_bound_unique(st, name@, mid as int);
                }
                return Ok(mid);
            },
            StrOrder::Greater => {
                assert forall|j: int| mid <= j < st.len() implies seq_lt(name@, #[trigger] st[j].self_ty) by {
                    if j > mid {
                        lemma_seq_lt_transitive(name@, st[mid as int].self_ty, st[j].self_ty);
                    }
                }
                hi = mid;
            },
        }
    }
    proof {
        assert forall|j: int| lo <= j < st.len() implies !seq_lt(#[trigger] st[j].self_ty, name@) by {
            lemma_seq_lt_asymmetric(name@, st[j].self_ty);
        }
        lemma_lower_bound_unique(st, name@, lo as int);
        if lo < st.len() {
            assert(seq_lt(name@, st[lo as int].self_ty));
            if st[lo as int].self_ty == name@ {
                lemma_seq_lt_irreflexive(name@);
            }
        }
    }
    Err(lo)
}

impl RustContext {
    /// The recorded structures are ordered strictly by type name.
    pub open spec fn wf(&self) -> bool {
        sorted_structs(self@.structs)
    }

    /// An empty description.
    pub fn new() -> (r: RustContext)
        ensures
            r@.structs == Seq::<StructModel>::empty(),
            r@.funcs == Seq::<FnModel>::empty(),
            r@.free_funcs == Seq::<FreeFnModel>::empty(),
            r.wf(),
    {
        let r = RustContext { structs: Vec::new(), funcs: Vec::new(), free_funcs: Vec::new() };
        assert(r@.structs =~= Seq::<StructModel>::empty());
        assert(r@.funcs =~= Seq::<FnModel>::empty());
        assert(r@.free_funcs =~= Seq::<FreeFnModel>::empty());
        r
    }

    /// Adds the description of a structure: merged into the one of the same
    /// type if there is one (its methods appended, its destructor taken if it
    /// has one), else inserted in order of type name.
    pub fn add_struct(&mut self, s: RustStructure)
        requires
            old(self).wf(),
        ensures
            final(self).wf(),
            final(self)@.structs == add_struct_spec(old(self)@.structs, s@),
            final(self)@.funcs == old(self)@.funcs,
            final(self)@.free_funcs == old(self)@.free_funcs,
    {
        let ghost st = self@.structs;
        let mut s = s;
        let ghost sm = s@;
        proof {
            lemma_add_struct_sorted(st, sm);
        }
        match find_struct(&self.structs, s.self_ty.as_str()) {
            Ok(i) => {
                let mut cur = self.structs.remove(i);
                let ghost cm = cur@;
                assert(cm == st[i as int]);
                cur.methods.append(&mut s.methods);
                match s.destructor {
                    Some(d) => {
                        cur.destructor = Some(d);
                    },
                    None => {},
                }
                assert(cur@.methods =~= cm.methods + sm.methods);
                assert(cur@ == merged(cm, sm));
                let ghost removed = self.structs@;
                self.structs.insert(i, cur);
                assert(self.structs@ =~= old(self).structs@.update(i as int, cur));
                assert(self@.structs =~= st.update(i as int, merged(st[i as int], sm)));
            },
            Err(i) => {
                self.structs.insert(i, s);
                assert(self@.structs =~= st.insert(i as int, sm));
            },
        }
    }

    /// Adds everything recorded in `other`: its functions and free functions
    /// after those already here, and its structures one by one as
    /// `add_struct` does.
    pub fn append(&mut self, other: RustContext)
        requires
            old(self).wf(),
        ensures
            final(self).wf(),
            final(self)@.funcs == old(self)@.funcs + other@.funcs,
            final(self)@.free_funcs == old(self)@.free_funcs + other@.free_funcs,
            final(self)@.structs == add_all(old(self)@.structs, other@.structs),
    {
        let mut other = other;
        let ghost of = other@;
        let ghost me = self@;
        self.funcs.append(&mut other.funcs);
        self.free_funcs.append(&mut other.free_funcs);
        assert(self@.funcs =~= me.funcs + of.funcs);
        assert(self@.free_funcs =~= me.free_funcs + of.free_funcs);
        let mut k: usize = 0;
        assert(of.structs.take(0) =~= Seq::<StructModel>::empty());
        while k < other.structs.len()
            invariant
                self.wf(),
                0 <= k <= other.structs@.len(),
                of.structs == structs_model(other.structs@),
                self@.structs == add_all(me.structs, of.structs.take(k as int)),
                self@.funcs == me.funcs + of.funcs,
                self@.free_funcs == me.free_funcs + of.free_funcs,
            decreases other.structs@.len() - k,
        {
            let s = other.structs[k].duplicate();
            assert(of.structs.take(k + 1).drop_last() =~= of.structs.take(k as int));
            self.add_struct(s);
            k = k + 1;
        }
        assert(of.structs.take(k as int) =~= of.structs);
    }

    /// Adds one recorded item: a function or free function after those of its
    /// kind, a structure as `add_struct` does.
    pub fn add_meta(&mut self, m: MetaType)
        requires
            old(self).wf(),
        ensures
            final(self).wf(),
            match m {
                MetaType::FreeFunc(ff) => final(self)@.free_funcs == old(self)@.free_funcs.push(ff@)
                    && final(self)@.funcs == old(self)@.funcs && final(self)@.structs == old(self)@.structs,
                MetaType::Func(f) => final(self)@.funcs == old(self)@.funcs.push(f@)
                    && final(self)@.free_funcs == old(self)@.free_funcs && final(self)@.structs == old(self)@.structs,
                MetaType::Struct(s) => final(self)@.structs == add_struct_spec(old(self)@.structs, s@)
                    && final(self)@.funcs == old(self)@.funcs && final(self)@.free_funcs == old(self)@.free_funcs,
            },
    {
        let ghost me = self@;
        match m {
            MetaType::FreeFunc(ff) => {
                self.free_funcs.push(ff);
                assert(self@.free_funcs =~= me.free_funcs.push(ff@));
            },
            MetaType::Func(f) => {
                self.funcs.push(f);
                assert(self@.funcs =~= me.funcs.push(f@));
            },
            MetaType::Struct(s) => self.add_struct(s),
        }
    }
}

impl Default for RustContext {
    /// An empty description.
    fn default() -> (r: RustContext)
        ensures
            r@.structs == Seq::<StructModel>::empty(),
            r@.funcs == Seq::<FnModel>::empty(),
            r@.free_funcs == Seq::<FreeFnModel>::empty(),
    {
        RustContext::new()
    }
}

/// The number of structures that have methods.
pub open spec fn methodful(st: Seq<StructModel>) -> nat
    decreases st.len(),
{
    if st.len() == 0 {
        0
    } else {
        methodful(st.drop_last()) + if st.last().methods.len() > 0 {
            1nat
        } else {
            0nat
        }
    }
}

proof fn lemma_methodful_raw(st: Seq<StructModel>, st2: Seq<StructModel>)
    requires
        raw_extension(st, st2),
    ensures
        methodful(st2) == methodful(st),
    decreases st2.len(),
{
    if st2.len() == st.len() {
        assert(st2 =~= st2.subrange(0, st.len() as int));
    } else {
        let d = st2.drop_last();
        assert(d.subrange(0, st.len() as int) =~= st2.subrange(0, st.len() as int));
        assert forall|i: int| st.len() <= i < d.len() implies (#[trigger] d[i]).methods.len() == 0 by {
            assert(d[i] == st2[i]);
        }
        lemma_methodful_raw(st, d);
        assert(st2[st2.len() - 1].methods.len() == 0);
    }
}

/// Every structure of the list has supported method signatures.
pub open spec fn all_supported(st: Seq<StructModel>) -> bool {
    forall|i: int| 0 <= i < st.len() ==> struct_supported(#[trigger] st[i])
}

/// One step of draining the structure list: the last structure is taken off
/// and converted; this either leaves fewer structures with methods, or as many
/// and a shorter list.
pub proof fn lemma_drain_step(st: Seq<StructModel>)
    requires
        st.len() > 0,
    ensures
        ({
            let st2 = struct_abi(st.last(), st.drop_last()).1;
            &&& methodful(st2) < methodful(st) || (methodful(st2) == methodful(st) && st2.len() < st.len())
            &&& all_supported(st) ==> all_supported(st2)
        }),
{
    let rest = st.drop_last();
    let st2 = struct_abi(st.last(), rest).1;
    lemma_struct_abi_raw(st.last(), rest);
    lemma_methodful_raw(rest, st2);
    if st.last().methods.len() == 0 {
        assert(st.last().methods =~= Seq::<FnModel>::empty());
        assert(st2 == rest);
    }
    if all_supported(st) {
        assert forall|i: int| 0 <= i < st2.len() implies struct_supported(#[trigger] st2[i]) by {
            if i < rest.len() {
                assert(st2[i] == st2.subrange(0, rest.len() as int)[i]);
                assert(st2[i] == st[i]);
            } else {
                assert(st2[i].methods.len() == 0);
            }
        }
    }
}

/// The binding data of all structures in the list and of those their methods
/// add: the last structure is taken off and converted (which may append
/// raw-pointer structures), until none is left.
pub open spec fn drain(st: Seq<StructModel>) -> Seq<StructAbiModel>
    decreases methodful(st), st.len(),
{
    if st.len() == 0 {
        Seq::empty()
    } else {
        let (a, st2) = struct_abi(st.last(), st.drop_last());
        proof {
            lemma_drain_step(st);
        }
        seq![a] + drain(st2)
    }
}

/// Whether a structure's binding data is of the given kind.
pub open spec fn kind_is(k: StructTypes) -> spec_fn(StructAbiModel) -> bool {
    |s: StructAbiModel| s.ty == k
}

/// The data the Python binding is rendered from.
#[derive(Debug, PartialEq)]
pub struct PyContext {
    pub abis: Vec<FunctionABI>,
    pub boxes: Vec<StructureABI>,
    pub jsons: Vec<StructureABI>,
    pub pointers: Vec<StructureABI>,
    pub lib_name: String,
}

/// The mathematical value of a `PyContext`.
pub struct PyContextModel {
    pub abis: Seq<FnAbiModel>,
    pub boxes: Seq<StructAbiModel>,
    pub jsons: Seq<StructAbiModel>,
    pub pointers: Seq<StructAbiModel>,
    pub lib_name: Seq<char>,
}

/// The values of a sequence of structure binding data.
pub open spec fn struct_abis_model(v: Seq<StructureABI>) -> Seq<StructAbiModel> {
    v.map_values(|s: StructureABI| s@)
}

impl View for PyContext {
    type V = PyContextModel;

    open spec fn view(&self) -> PyContextModel {
        PyContextModel {
            abis: fn_abis_model(self.abis@),
            boxes: struct_abis_model(self.boxes@),
            jsons: struct_abis_model(self.jsons@),
            pointers: struct_abis_model(self.pointers@),
            lib_name: self.lib_name@,
        }
    }
}

/// Some function or structure method returns a string, or some structure
/// crosses the boundary as JSON text.
pub open spec fn returns_string(c: ContextModel) -> bool {
    ||| exists|i: int| 0 <= i < c.funcs.len() && c.funcs[i].output == Some(TyModel::String)
    ||| exists|i: int| 0 <= i < c.structs.len() && c.structs[i].ty == StructTypes::Json
    ||| exists|i: int, j: int|
        0 <= i < c.structs.len() && 0 <= j < c.structs[i].methods.len()
            && c.structs[i].methods[j].output == Some(TyModel::String)
}

/// A function named `free_string` is recorded, as a free function or an
/// ordinary one.
pub open spec fn has_free_string(c: ContextModel) -> bool {
    ||| exists|i: int| 0 <= i < c.free_funcs.len() && c.free_funcs[i].func.name == "free_string"@
    ||| exists|i: int| 0 <= i < c.funcs.len() && c.funcs[i].name == "free_string"@
}

/// Every signature of the description has a Python counterpart for its types.
pub open spec fn context_supported(c: ContextModel) -> bool {
    &&& forall|i: int| 0 <= i < c.funcs.len() ==> fn_supported(#[trigger] c.funcs[i])
    &&& all_supported(c.structs)
}

/// The name of the generated binding class when none is given.
pub open spec fn default_lib_name() -> Seq<char> {
    camel_case(PACKAGE_NAME@) + "Lib"@
}

/// The data the Python binding of a description is rendered from: the
/// functions' binding data (their pointer types adding raw-pointer structures
/// to a copy of the structure list), then the structures drained from that
/// list, split by kind in the order they were produced.
pub open spec fn context_model(c: ContextModel, lib_name: Option<Seq<char>>) -> PyContextModel {
    let (abis, st1) = methods_abi(c.funcs, c.structs);
    let added = drain(st1);
    PyContextModel {
        abis: abis,
        boxes: added.filter(kind_is(StructTypes::Boxed)),
        jsons: added.filter(kind_is(StructTypes::Json)),
        pointers: added.filter(kind_is(StructTypes::RawPointer)),
        lib_name: match lib_name {
            Some(n) => n,
            None => default_lib_name(),
        },
    }
}

/// Whether some function returns a string.
fn some_fn_returns_string(fs: &Vec<RustFunction>) -> (r: bool)
    ensures
        r == exists|i: int| 0 <= i < fs@.len() && fs@[i]@.output == Some(TyModel::String),
{
    let mut i: usize = 0;
    while i < fs.len()
        invariant
            0 <= i <= fs@.len(),
            forall|j: int| 0 <= j < i ==> fs@[j]@.output != Some(TyModel::String),
        decreases fs@.len() - i,
    {
        match &fs[i].output {
            Some(t) => {
                if t.is_string() {
                    return true;
                }
            },
            None => {},
        }
        i = i + 1;
    }
    false
}

/// Whether some function is named `free_string`.
fn some_fn_named_free_string(fs: &Vec<RustFunction>) -> (r: bool)
    ensures
        r == exists|i: int| 0 <= i < fs@.len() && fs@[i]@.name == "free_string"@,
{
    let mut i: usize = 0;
    while i < fs.len()
        invariant
            0 <= i <= fs@.len(),
            forall|j: int| 0 <= j < i ==> fs@[j]@.name != "free_string"@,
        decreases fs@.len() - i,
    {
        if str_eq(fs[i].name.as_str(), "free_string") {
            return true;
        }
        i = i + 1;
    }
    false
}

impl RustContext {
    /// Whether every signature of the description has a Python counterpart
    /// for its types (see `context_supported`).
    pub fn supported(&self) -> (r: bool)
        ensures
            r == context_supported(self@),
    {
        let mut i: usize = 0;
        while i < self.funcs.len()
            invariant
                0 <= i <= self.funcs@.len(),
                forall|j: int| 0 <= j < i ==> fn_supported(#[trigger] self@.funcs[j]),
            decreases self.funcs@.len() - i,
        {
            assert(self@.funcs[i as int] == self.funcs@[i as int]@);
            if !function_supported(&self.funcs[i]) {
                return false;
            }
            i = i + 1;
        }
        let mut k: usize = 0;
        while k < self.structs.len()
            invariant
                0 <= k <= self.structs@.len(),
                forall|j: int| 0 <= j < self@.funcs.len() ==> fn_supported(#[trigger] self@.funcs[j]),
                forall|j: int| 0 <= j < k ==> struct_supported(#[trigger] self@.structs[j]),
            decreases self.structs@.len() - k,
        {
            let ms = &self.structs[k].methods;
            assert(self@.structs[k as int] == self.structs@[k as int]@);
            let mut m: usize = 0;
            while m < ms.len()
                invariant
                    0 <= m <= ms@.len(),
                    k < self.structs@.len(),
                    *ms == self.structs@[k as int].methods,
                    forall|j: int| 0 <= j < m ==> fn_supported(#[trigger] self@.structs[k as int].methods[j]),
                decreases ms@.len() - m,
            {
                assert(self@.structs[k as int].methods[m as int] == ms@[m as int]@);
                if !function_supported(&ms[m]) {
                    assert(!struct_supported(self@.structs[k as int]));
                    return false;
                }
                m = m + 1;
            }
            k = k + 1;
        }
        true
    }

    /// Whether the description returns strings, by function, method or JSON structure.
    pub fn returns_string(&self) -> (r: bool)
        ensures
            r == returns_string(self@),
    {
        if some_fn_returns_string(&self.funcs) {
            proof {
                let i = choose|i: int| 0 <= i < self.funcs@.len() && self.funcs@[i]@.output == Some(TyModel::String);
                assert(self@.funcs[i] == self.funcs@[i]@);
            }
            return true;
        }
        let mut i: usize = 0;
        while i < self.structs.len()
            invariant
                0 <= i <= self.structs@.len(),
                !(exists|k: int| 0 <= k < self.funcs@.len() && self.funcs@[k]@.output == Some(TyModel::String)),
                forall|k: int| 0 <= k < i ==> self.structs@[k].ty != StructTypes::Json,
                forall|k: int, j: int| 0 <= k < i && 0 <= j < self.structs@[k].methods@.len()
                    ==> self.structs@[k].methods@[j]@.output != Some(TyModel::String),
            decreases self.structs@.len() - i,
        {
            if self.structs[i].ty == StructTypes::Json {
                assert(self@.structs[i as int].ty == StructTypes::Json);
                return true;
            }
            if some_fn_returns_string(&self.structs[i].methods) {
                proof {
                    let j = choose|j: int| 0 <= j < self.structs@[i as int].methods@.len()
                        && self.structs@[i as int].methods@[j]@.output == Some(TyModel::String);
                    assert(self@.structs[i as int].methods[j] == self.structs@[i as int].methods@[j]@);
                }
                return true;
            }
            i = i + 1;
        }
        proof {
            assert forall|k: int| 0 <= k < self@.funcs.len() implies self@.funcs[k].output != Some(TyModel::String) by {
                assert(self@.funcs[k] == self.funcs@[k]@);
            }
            assert forall|k: int| 0 <= k < self@.structs.len() implies self@.structs[k].ty != StructTypes::Json by {
                assert(self@.structs[k] == self.structs@[k]@);
            }
            assert forall|k: int, j: int| 0 <= k < self@.structs.len() && 0 <= j < self@.structs[k].methods.len()
                implies self@.structs[k].methods[j].output != Some(TyModel::String) by {
                assert(self@.structs[k] == self.structs@[k]@);
                assert(self@.structs[k].methods[j] == self.structs@[k].methods@[j]@);
            }
        }
        false
    }

    /// Whether a function named `free_string` is recorded.
    pub fn has_free_string(&self) -> (r: bool)
        ensures
            r == has_free_string(self@),
    {
        let mut i: usize = 0;
        while i < self.free_funcs.len()
            invariant
                0 <= i <= self.free_funcs@.len(),
                forall|k: int| 0 <= k < i ==> self.free_funcs@[k]@.func.name != "free_string"@,
            decreases self.free_funcs@.len() - i,
        {
            if str_eq(self.free_funcs[i].func.name.as_str(), "free_string") {
                assert(self@.free_funcs[i as int] == self.free_funcs@[i as int]@);
                return true;
            }
            i = i + 1;
        }
        let r = some_fn_named_free_string(&self.funcs);
        proof {
            assert forall|k: int| 0 <= k < self@.free_funcs.len() implies self@.free_funcs[k].func.name != "free_string"@ by {
                assert(self@.free_funcs[k] == self.free_funcs@[k]@);
            }
            if r {
                let k = choose|k: int| 0 <= k < self.funcs@.len() && self.funcs@[k]@.name == "free_string"@;
                assert(self@.funcs[k] == self.funcs@[k]@);
            } else {
                assert forall|k: int| 0 <= k < self@.funcs.len() implies self@.funcs[k].name != "free_string"@ by {
                    assert(self@.funcs[k] == self.funcs@[k]@);
                }
            }
        }
        r
    }

    /// The data the Python binding is rendered from, named `lib_name` or, by
    /// default, after this package. It is refused when strings are returned
    /// but no function `free_string` is recorded to free them.
    pub fn create_context(&self, lib_name: Option<String>) -> (r: TResult<PyContext>)
        requires
            !(returns_string(self@) && !has_free_string(self@)) ==> context_supported(self@),
        ensures
            match r {
                Ok(c) => !(returns_string(self@) && !has_free_string(self@)) && c@ == context_model(
                    self@,
                    match lib_name {
                        Some(n) => Some(n@),
                        None => None,
                    },
                ),
                Err(e) => returns_string(self@) && !has_free_string(self@) && (e
                    matches TemplateError::MessageErr(m) && m@ == MISSING_FREE_STRING@),
            },
    {
        if self.returns_string() {
            if !self.has_free_string() {
                return Err(TemplateError::MessageErr(MISSING_FREE_STRING.to_owned()));
            }
        }
        let mut structs = duplicate_structs(&self.structs);
        proof {
            assert forall|i: int| 0 <= i < self.funcs@.len() implies fn_supported(#[trigger] self.funcs@[i]@) by {
                assert(self@.funcs[i] == self.funcs@[i]@);
            }
        }
        let abis = convert_functions(&self.funcs, &mut structs);
        let ghost st1 = structs_model(structs@);
        proof {
            lemma_methods_abi_raw_pub(self@.funcs, self@.structs);
            assert forall|i: int| 0 <= i < st1.len() implies struct_supported(#[trigger] st1[i]) by {
                if i < self@.structs.len() {
                    assert(st1[i] == st1.subrange(0, self@.structs.len() as int)[i]);
                } else {
                    assert(st1[i].methods.len() == 0);
                }
            }
        }
        let ghost mut done: Seq<StructAbiModel> = Seq::empty();
        let mut boxes: Vec<StructureABI> = Vec::new();
        let mut jsons: Vec<StructureABI> = Vec::new();
        let mut pointers: Vec<StructureABI> = Vec::new();
        assert(done + drain(st1) =~= drain(st1));
        assert(struct_abis_model(boxes@) =~= done.filter(kind_is(StructTypes::Boxed)));
        assert(struct_abis_model(jsons@) =~= done.filter(kind_is(StructTypes::Json)));
        assert(struct_abis_model(pointers@) =~= done.filter(kind_is(StructTypes::RawPointer)));
        while structs.len() != 0
            invariant
                all_supported(structs_model(structs@)),
                done + drain(structs_model(structs@)) == drain(st1),
                struct_abis_model(boxes@) == done.filter(kind_is(StructTypes::Boxed)),
                struct_abis_model(jsons@) == done.filter(kind_is(StructTypes::Json)),
                struct_abis_model(pointers@) == done.filter(kind_is(StructTypes::RawPointer)),
            decreases methodful(structs_model(structs@)), structs@.len(),
        {
            let ghost cur = structs_model(structs@);
            proof {
                lemma_drain_step(cur);
            }
            let first = structs.pop().unwrap();
            assert(structs_model(structs@) =~= cur.drop_last());
            assert(first@ == cur.last());
            let converted = StructureABI::from_rust(first, &mut structs);
            let ghost a = converted@;
            assert(drain(cur) == seq![a] + drain(structs_model(structs@)));
            let ghost old_done = done;
            proof {
                done = done.push(a);
                assert(done + drain(structs_model(structs@)) =~= old_done + drain(cur));
                assert(done.drop_last() =~= old_done);
                reveal(Seq::filter);
            }
            match converted.ty {
                StructTypes::Boxed => {
                    let ghost b = boxes@;
                    boxes.push(converted);
                    assert(struct_abis_model(boxes@) =~= struct_abis_model(b).push(a));
                },
                StructTypes::Json => {
                    let ghost b = jsons@;
                    jsons.push(converted);
                    assert(struct_abis_model(jsons@) =~= struct_abis_model(b).push(a));
                },
                StructTypes::RawPointer => {
                    let ghost b = pointers@;
                    pointers.push(converted);
                    assert(struct_abis_model(pointers@) =~= struct_abis_model(b).push(a));
                },
            }
        }
        assert(done =~= drain(st1));
        let final_name = match lib_name {
            Some(name) => name,
            None => {
                let camel = to_camel_case(PACKAGE_NAME.to_owned());
                concat(camel.as_str(), "Lib")
            },
        };
        Ok(PyContext { abis, boxes, jsons, pointers, lib_name: final_name })
    }
}

} // verus!
