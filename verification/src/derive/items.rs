//! What the attribute and derive macros record and generate for each item.
use vstd::prelude::*;
use crate::derive::error::{syn_err, DResult, DeriveError};
use crate::derive::generate::{
    convert_item_fn, extern_error, extern_inputs, extern_output, is_extern_of, method_fn_name,
    inputs_convertible, ptr_convertible, ptr_text, receiver_as_this, sig_convertible, sig_convertible_check,
    to_extern_item_fn, ExternCall,
    ExternFn, NO_SELF_TYPE_NAME,
};
use crate::derive::syn_model::{SynFnArg, SynSignature, SynType};
use crate::derive::template::{
    inputs_recordable, rust_func_of, rust_inputs, rust_type_of, rust_type_recordable, sig_recordable,
    sig_recordable_check, to_rust_func,
};
use crate::template::rust_types::{
    FnModel, Function, FreeFunction, RustArgument, RustFreeFunction, RustFunction,
    RustStructure, RustTypes, StructModel, StructTypes, Structure, TyModel,
};
use crate::text::concat;
use crate::util::{snake_case, to_snake_case};

verus! {

/// Reported when `Boxed` is derived for something other than a struct or enum.
pub const BOXED_TARGET: &'static str = "Cannot derive for that";

/// Reported when `Json` is derived for something other than a struct or enum,
/// and when `with_abi` is put on something other than a function or an impl block.
pub const ABI_TARGET: &'static str = "Can only implement extern on impl of fn block";

/// The first token of the item `with_abi` is put on.
#[derive(Debug, Clone, Copy, PartialEq, Eq, Structural)]
pub enum ItemStart {
    /// `pub`.
    Pub,
    /// `crate`.
    Crate,
    /// `fn`.
    Fn,
    /// `impl`.
    Impl,
    /// Any other token, or none.
    Other,
}

/// What the item `with_abi` is put on is read as.
#[derive(Debug, Clone, Copy, PartialEq, Eq, Structural)]
pub enum ItemKind {
    /// A function.
    ItemFn,
    /// An impl block.
    ItemImpl,
    /// Neither.
    Neither,
}

/// How an item is read from its first token: a function when it starts with
/// `pub`, `crate` or `fn`, an impl block when it starts with `impl`, and
/// neither otherwise.
pub fn item_kind(start: ItemStart) -> (r: ItemKind)
    ensures
        r == (match start {
            ItemStart::Pub | ItemStart::Crate | ItemStart::Fn => ItemKind::ItemFn,
            ItemStart::Impl => ItemKind::ItemImpl,
            ItemStart::Other => ItemKind::Neither,
        }),
{
    match start {
        ItemStart::Pub | ItemStart::Crate | ItemStart::Fn => ItemKind::ItemFn,
        ItemStart::Impl => ItemKind::ItemImpl,
        ItemStart::Other => ItemKind::Neither,
    }
}

/// The item a derive macro is applied to.
#[derive(Debug, PartialEq)]
pub enum DeriveItem {
    Struct(String),
    Enum(String),
    Other,
}

/// The name of the struct or enum a derive is applied to, or the given error.
pub fn derive_target(item: &DeriveItem, msg: &str) -> (r: DResult<String>)
    ensures
        match *item {
            DeriveItem::Struct(n) => r matches Ok(x) && x@ == n@,
            DeriveItem::Enum(n) => r matches Ok(x) && x@ == n@,
            DeriveItem::Other => r matches Err(e) && syn_err(e, msg@),
        },
{
    match item {
        DeriveItem::Struct(n) => Ok(n.clone()),
        DeriveItem::Enum(n) => Ok(n.clone()),
        DeriveItem::Other => Err(DeriveError::syn(msg)),
    }
}

/// The name of the C function that frees a boxed value of type `name`.
pub open spec fn free_fn_name(name: Seq<char>) -> Seq<char> {
    snake_case("free_"@ + name)
}

/// What deriving `Boxed` for a type records: the C function that frees a
/// boxed value (named `free_{snake case of the name}`, taking the pointer
/// `ptr`), and the structure, boxed, with that function as destructor.
#[derive(Debug, PartialEq)]
pub struct BoxedRecords {
    pub free_name: String,
    pub free: RustFreeFunction,
    pub structure: RustStructure,
}

/// Whether `r` is what deriving `Boxed` for the type `name` records.
pub open spec fn boxed_records_of(name: Seq<char>, r: BoxedRecords) -> bool {
    &&& r.free_name@ == free_fn_name(name)
    &&& r.free.ty@ == TyModel::Ptr(name)
    &&& r.free.func@ == (FnModel {
        name: free_fn_name(name),
        extern_name: free_fn_name(name),
        inputs: seq![
            crate::template::rust_types::ArgModel {
                name: "ptr"@,
                ty: TyModel::Ptr(free_fn_name(name)),
            },
        ],
        output: None,
    })
    &&& r.structure@ == (StructModel {
        self_ty: name,
        methods: Seq::empty(),
        destructor: Some(free_fn_name(name)),
        ty: StructTypes::Boxed,
    })
}

/// What deriving `Boxed` for the type `name` records.
pub fn boxed_records(name: &str) -> (r: BoxedRecords)
    ensures
        boxed_records_of(name@, r),
{
    let tt_name = to_snake_case(concat("free_", name));
    let mut inputs: Vec<RustArgument> = Vec::new();
    inputs.push(RustArgument { name: "ptr".to_owned(), ty: RustTypes::Ptr(tt_name.clone()) });
    let free = FreeFunction {
        ty: RustTypes::Ptr(name.to_owned()),
        func: Function {
            name: tt_name.clone(),
            extern_name: tt_name.clone(),
            inputs,
            output: None,
        },
    };
    let structure = Structure {
        self_ty: name.to_owned(),
        methods: Vec::new(),
        destructor: Some(tt_name.clone()),
        ty: StructTypes::Boxed,
    };
    let r = BoxedRecords { free_name: tt_name, free, structure };
    assert(r.free.func@.inputs =~= seq![
        crate::template::rust_types::ArgModel { name: "ptr"@, ty: TyModel::Ptr(free_fn_name(name@)) },
    ]);
    assert(r.structure@.methods =~= Seq::<FnModel>::empty());
    r
}

/// What deriving `Json` for the type `name` records: the structure, passed as
/// JSON text, freed by `free_string`.
pub open spec fn json_structure(name: Seq<char>) -> StructModel {
    StructModel {
        self_ty: name,
        methods: Seq::empty(),
        destructor: Some("free_string"@),
        ty: StructTypes::Json,
    }
}

/// What deriving `Json` for the type `name` records.
pub fn json_record(name: &str) -> (r: RustStructure)
    ensures
        r@ == json_structure(name@),
{
    let r = Structure {
        self_ty: name.to_owned(),
        methods: Vec::new(),
        destructor: Some("free_string".to_owned()),
        ty: StructTypes::Json,
    };
    assert(r@.methods =~= Seq::<FnModel>::empty());
    r
}

/// What generating the memory-freeing functions records: `free_string`,
/// which frees a string passed as `ptr`.
pub fn free_string_record() -> (r: RustFreeFunction)
    ensures
        r@.ty == TyModel::String,
        r@.func == (FnModel {
            name: "free_string"@,
            extern_name: "free_string"@,
            inputs: seq![crate::template::rust_types::ArgModel { name: "ptr"@, ty: TyModel::String }],
            output: None,
        }),
{
    let mut inputs: Vec<RustArgument> = Vec::new();
    inputs.push(RustArgument { name: "ptr".to_owned(), ty: RustTypes::String });
    let r = FreeFunction {
        ty: RustTypes::String,
        func: Function {
            name: "free_string".to_owned(),
            extern_name: "free_string".to_owned(),
            inputs,
            output: None,
        },
    };
    assert(r@.func.inputs =~= seq![
        crate::template::rust_types::ArgModel { name: "ptr"@, ty: TyModel::String },
    ]);
    r
}

/// What `with_abi` produces for a free function: its record, when recording
/// is asked for, and its C-callable wrapper, named `{name}_ffi`.
#[derive(Debug, PartialEq)]
pub struct FnRecords {
    pub record: Option<RustFunction>,
    pub wrapper: ExternFn,
}

/// Whether what `with_abi` produces for a free function can be computed: its
/// record when recording is asked for, and its wrapper unless recording was
/// asked for and refused.
pub open spec fn item_ready(sig: SynSignature, record: bool) -> bool {
    &&& record ==> sig_recordable(sig)
    &&& (!record || rust_func_of(sig, None) is Ok) ==> sig_convertible(sig)
}

/// The error of exporting a free function: that of recording it, when
/// recording is asked for, else that of making its wrapper.
pub open spec fn fn_error(sig: SynSignature, record: bool) -> Option<Seq<char>> {
    if record && rust_func_of(sig, None) is Err {
        Some(rust_func_of(sig, None)->Err_0)
    } else {
        extern_error(sig)
    }
}

/// Whether what `with_abi` produces for a free function can be computed (see
/// `item_ready`).
pub fn convert_item_ready(item: &SynSignature, record: bool) -> (r: bool)
    ensures
        r == item_ready(*item, record),
{
    if record {
        if !sig_recordable_check(item) {
            return false;
        }
        match to_rust_func(item, None) {
            Err(_) => {
                return true;
            },
            Ok(_) => {},
        }
    }
    sig_convertible_check(item)
}

/// Whether `r` is what `with_abi` produces for the free function `item`:
/// on success, the record (made only when `record` asks for it) and the
/// wrapper `{name}_ffi` that calls the function under that name; otherwise
/// the error `fn_error` names.
pub open spec fn fn_records_result(item: SynSignature, record: bool, r: DResult<FnRecords>) -> bool {
    match r {
        Ok(x) => {
            &&& fn_error(item, record) is None
            &&& match x.record {
                Some(f) => record && rust_func_of(item, None) == Ok::<FnModel, Seq<char>>(f@),
                None => !record,
            }
            &&& x.wrapper.ident@ == item.ident@ + "_ffi"@
            &&& (x.wrapper.call matches ExternCall::Local { ident } && ident@ == item.ident@ + "_ffi"@)
            &&& extern_output(item.output) == Ok::<Seq<char>, Seq<char>>(x.wrapper.output@)
            &&& (extern_inputs(item.inputs@) matches Ok(args) && x.wrapper.inputs@.len() == args.len()
                && forall|i: int| 0 <= i < args.len() ==> (#[trigger] x.wrapper.inputs@[i]).pat
                == args[i].0 && x.wrapper.inputs@[i].ty@ == args[i].1)
        },
        Err(e) => fn_error(item, record) matches Some(m) && syn_err(e, m),
    }
}

/// What `with_abi` produces for the free function `item`; the record is made
/// only when `record` asks for it.
pub fn convert_item(item: SynSignature, record: bool) -> (r: DResult<FnRecords>)
    requires
        item_ready(item, record),
    ensures
        fn_records_result(item, record, r),
{
    let rec = if record {
        match to_rust_func(&item, None) {
            Ok(f) => Some(f),
            Err(e) => {
                return Err(e);
            },
        }
    } else {
        None
    };
    let mut wrapper = match to_extern_item_fn(item, None) {
        Ok(w) => w,
        Err(e) => {
            return Err(e);
        },
    };
    wrapper.ident = concat(wrapper.ident.as_str(), "_ffi");
    Ok(FnRecords { record: rec, wrapper })
}

/// The type a parameter is recorded and converted by: the implemented type
/// for a receiver, the written type otherwise.
pub open spec fn param_type(a: SynFnArg, self_ty: SynType) -> SynType {
    match a {
        SynFnArg::Receiver { .. } => self_ty,
        SynFnArg::Typed { ty, .. } => ty,
    }
}

/// The first parameter, in order, whose type cannot be recorded, by its error.
pub open spec fn rust_first_err(inputs: Seq<SynFnArg>, self_ty: SynType) -> Option<Seq<char>>
    decreases inputs.len(),
{
    if inputs.len() == 0 {
        None
    } else {
        match rust_first_err(inputs.drop_last(), self_ty) {
            Some(e) => Some(e),
            None => match rust_type_of(param_type(inputs.last(), self_ty)) {
                Err(e) => Some(e),
                Ok(_) => None,
            },
        }
    }
}

/// The first parameter, in order, whose type has no C-side form, by its error.
pub open spec fn ptr_first_err(inputs: Seq<SynFnArg>, self_ty: SynType) -> Option<Seq<char>>
    decreases inputs.len(),
{
    if inputs.len() == 0 {
        None
    } else {
        match ptr_first_err(inputs.drop_last(), self_ty) {
            Some(e) => Some(e),
            None => match ptr_text(param_type(inputs.last(), self_ty)) {
                Err(e) => Some(e),
                Ok(_) => None,
            },
        }
    }
}

/// The first failure in recording method `m` of `self_ty`: its parameter
/// types, then its return type.
pub open spec fn method_rust_error(self_ty: SynType, m: SynSignature) -> Option<Seq<char>> {
    if rust_first_err(m.inputs@, self_ty) is Some {
        rust_first_err(m.inputs@, self_ty)
    } else if m.output matches Some(t) && rust_type_of(t) is Err {
        Some(rust_type_of(m.output->0)->Err_0)
    } else {
        None
    }
}

/// The first failure in converting method `m` of `self_ty`: its parameter
/// types, then its return type.
pub open spec fn method_ptr_error(self_ty: SynType, m: SynSignature) -> Option<Seq<char>> {
    if ptr_first_err(m.inputs@, self_ty) is Some {
        ptr_first_err(m.inputs@, self_ty)
    } else if m.output matches Some(t) && ptr_text(t) is Err {
        Some(ptr_text(m.output->0)->Err_0)
    } else {
        None
    }
}

/// The error of exporting method `m` of `self_ty`, if any: the type is not a
/// path; else, when recording is asked for, the first failure in recording
/// it; else the first failure in converting it.
pub open spec fn method_error(self_ty: SynType, m: SynSignature, record: bool) -> Option<Seq<char>> {
    if !(self_ty is Path) {
        Some(NO_SELF_TYPE_NAME@)
    } else if record && method_rust_error(self_ty, m) is Some {
        method_rust_error(self_ty, m)
    } else {
        method_ptr_error(self_ty, m)
    }
}

/// Whether the parameter types of a method can be recorded in order up to
/// the first one refused.
pub open spec fn params_recordable(inputs: Seq<SynFnArg>, self_ty: SynType) -> bool
    decreases inputs.len(),
{
    if inputs.len() == 0 {
        true
    } else {
        params_recordable(inputs.drop_last(), self_ty) && (rust_first_err(inputs.drop_last(), self_ty) is None
            ==> rust_type_recordable(param_type(inputs.last(), self_ty)))
    }
}

/// Whether the parameter types of a method can be converted in order up to
/// the first one refused.
pub open spec fn params_convertible(inputs: Seq<SynFnArg>, self_ty: SynType) -> bool
    decreases inputs.len(),
{
    if inputs.len() == 0 {
        true
    } else {
        params_convertible(inputs.drop_last(), self_ty) && (ptr_first_err(inputs.drop_last(), self_ty) is None
            ==> ptr_convertible(param_type(inputs.last(), self_ty)))
    }
}

/// Whether what `with_abi` produces for method `m` of `self_ty` can be
/// computed: its record up to the first failure when recording is asked for,
/// and its wrapper up to the first failure unless recording failed first.
pub open spec fn method_ready(self_ty: SynType, m: SynSignature, record: bool) -> bool {
    self_ty is Path ==> {
        &&& record ==> params_recordable(m.inputs@, self_ty) && (rust_first_err(m.inputs@, self_ty) is None ==> (
        m.output matches Some(t) ==> rust_type_recordable(t)))
        &&& (!record || method_rust_error(self_ty, m) is None) ==> params_convertible(m.inputs@, self_ty) && (
        ptr_first_err(m.inputs@, self_ty) is None ==> (m.output matches Some(t) ==> ptr_convertible(t)))
    }
}

/// Whether what `with_abi` produces for the methods of an impl block can be
/// computed: each method reached before the first failure is ready.
#[verifier::opaque]
pub open spec fn impls_ready(self_ty: SynType, methods: Seq<SynSignature>, record: bool) -> bool {
    forall|i: int|
        0 <= i < methods.len() && (forall|j: int| 0 <= j < i ==> method_error(self_ty, #[trigger] methods[j], record) is None)
            ==> method_ready(self_ty, #[trigger] methods[i], record)
}

/// `sig` is method `m` of `self_ty` as a free function (see `convert_item_fn`).
pub open spec fn free_form(sig: SynSignature, m: SynSignature, self_ty: SynType) -> bool {
    &&& self_ty is Path
    &&& sig.ident@ == method_fn_name(m.ident@, self_ty->first@)
    &&& sig.inputs@.len() == m.inputs@.len()
    &&& forall|i: int| 0 <= i < sig.inputs@.len() ==> receiver_as_this(#[trigger] sig.inputs@[i], m.inputs@[i], self_ty)
    &&& sig.output == m.output
}

proof fn lemma_free_form_rust(si: Seq<SynFnArg>, mi: Seq<SynFnArg>, self_ty: SynType)
    requires
        si.len() == mi.len(),
        forall|i: int| 0 <= i < si.len() ==> receiver_as_this(#[trigger] si[i], mi[i], self_ty),
    ensures
        match rust_inputs(si) {
            Err(e) => rust_first_err(mi, self_ty) == Some(e),
            Ok(_) => rust_first_err(mi, self_ty) is None,
        },
    decreases si.len(),
{
    if si.len() > 0 {
        let sd = si.drop_last();
        let md = mi.drop_last();
        assert forall|i: int| 0 <= i < sd.len() implies receiver_as_this(#[trigger] sd[i], md[i], self_ty) by {
            assert(sd[i] == si[i] && md[i] == mi[i]);
        }
        lemma_free_form_rust(sd, md, self_ty);
        assert(receiver_as_this(si[si.len() - 1], mi[mi.len() - 1], self_ty));
    }
}

proof fn lemma_free_form_ptr(si: Seq<SynFnArg>, mi: Seq<SynFnArg>, self_ty: SynType)
    requires
        si.len() == mi.len(),
        forall|i: int| 0 <= i < si.len() ==> receiver_as_this(#[trigger] si[i], mi[i], self_ty),
    ensures
        match extern_inputs(si) {
            Err(e) => ptr_first_err(mi, self_ty) == Some(e),
            Ok(_) => ptr_first_err(mi, self_ty) is None,
        },
    decreases si.len(),
{
    if si.len() > 0 {
        let sd = si.drop_last();
        let md = mi.drop_last();
        assert forall|i: int| 0 <= i < sd.len() implies receiver_as_this(#[trigger] sd[i], md[i], self_ty) by {
            assert(sd[i] == si[i] && md[i] == mi[i]);
        }
        lemma_free_form_ptr(sd, md, self_ty);
        assert(receiver_as_this(si[si.len() - 1], mi[mi.len() - 1], self_ty));
    }
}

/// The parameters of the free form of a method can be recorded, or
/// converted, up to the first failure exactly when those of the method can.
proof fn lemma_free_form_reach(si: Seq<SynFnArg>, mi: Seq<SynFnArg>, self_ty: SynType)
    requires
        si.len() == mi.len(),
        forall|i: int| 0 <= i < si.len() ==> receiver_as_this(#[trigger] si[i], mi[i], self_ty),
    ensures
        inputs_recordable(si) == params_recordable(mi, self_ty),
        inputs_convertible(si) == params_convertible(mi, self_ty),
    decreases si.len(),
{
    if si.len() > 0 {
        let sd = si.drop_last();
        let md = mi.drop_last();
        assert forall|i: int| 0 <= i < sd.len() implies receiver_as_this(#[trigger] sd[i], md[i], self_ty) by {
            assert(sd[i] == si[i] && md[i] == mi[i]);
        }
        lemma_free_form_reach(sd, md, self_ty);
        lemma_free_form_rust(sd, md, self_ty);
        lemma_free_form_ptr(sd, md, self_ty);
        assert(receiver_as_this(si[si.len() - 1], mi[mi.len() - 1], self_ty));
    }
}

/// What `with_abi` produces for an impl block: the structure recorded for
/// the type (named after the type's first path segment, with one recorded
/// method per method), when recording is asked for; each method as a free
/// function; and the C-callable wrapper of each.
#[derive(Debug, PartialEq)]
pub struct ImplRecords {
    pub structure: Option<RustStructure>,
    pub free_fns: Vec<SynSignature>,
    pub wrappers: Vec<ExternFn>,
}

/// A method reached before any failure in an impl block that is ready is ready.
proof fn lemma_impls_ready_at(self_ty: SynType, methods: Seq<SynSignature>, record: bool, i: int)
    requires
        impls_ready(self_ty, methods, record),
        0 <= i < methods.len(),
        forall|j: int| 0 <= j < i ==> method_error(self_ty, #[trigger] methods[j], record) is None,
    ensures
        method_ready(self_ty, methods[i], record),
{
    reveal(impls_ready);
}

/// An impl block whose methods are ready up to a first failure is ready.
proof fn lemma_impls_ready_stop(self_ty: SynType, methods: Seq<SynSignature>, record: bool, i: int)
    requires
        0 <= i <= methods.len(),
        forall|j: int| 0 <= j < i ==> method_error(self_ty, #[trigger] methods[j], record) is None,
        forall|j: int| 0 <= j < i ==> method_ready(self_ty, #[trigger] methods[j], record),
        i < methods.len() ==> method_error(self_ty, methods[i], record) is Some,
        i < methods.len() ==> method_ready(self_ty, methods[i], record),
    ensures
        impls_ready(self_ty, methods, record),
{
    reveal(impls_ready);
    assert forall|k: int|
        0 <= k < methods.len() && (forall|j: int| 0 <= j < k ==> method_error(self_ty, #[trigger] methods[j], record) is None)
            implies method_ready(self_ty, #[trigger] methods[k], record) by {
        if k > i {
            assert(method_error(self_ty, methods[i], record) is None);
        }
    }
}

/// The free form of method `mi`, ready as the method is, can be recorded and
/// converted as far as the conversion goes.
proof fn lemma_free_form_ready(item: SynSignature, mi: SynSignature, self_ty: SynType, record: bool)
    requires
        free_form(item, mi, self_ty),
        method_ready(self_ty, mi, record),
    ensures
        record ==> sig_recordable(item),
        (rust_func_of(item, None) is Ok) == (method_rust_error(self_ty, mi) is None),
        (extern_error(item) is None) == (method_ptr_error(self_ty, mi) is None),
        (!record || rust_func_of(item, None) is Ok) ==> sig_convertible(item),
{
    lemma_free_form_reach(item.inputs@, mi.inputs@, self_ty);
    lemma_free_form_rust(item.inputs@, mi.inputs@, self_ty);
    lemma_free_form_ptr(item.inputs@, mi.inputs@, self_ty);
}

/// Whether what `with_abi` produces for the methods of an impl block can be
/// computed (see `impls_ready`).
pub fn convert_impls_ready(self_ty: &SynType, methods: &Vec<SynSignature>, record: bool) -> (r: bool)
    ensures
        r == impls_ready(*self_ty, methods@, record),
{
    let mut i: usize = 0;
    while i < methods.len()
        invariant
            0 <= i <= methods@.len(),
            forall|j: int| 0 <= j < i ==> method_error(*self_ty, #[trigger] methods@[j], record) is None,
            forall|j: int| 0 <= j < i ==> method_ready(*self_ty, #[trigger] methods@[j], record),
        decreases methods@.len() - i,
    {
        let ghost mi = methods@[i as int];
        let item = match convert_item_fn(self_ty, methods[i].duplicate()) {
            Ok(s) => s,
            Err(_) => {
                assert(method_error(*self_ty, mi, record) is Some);
                assert(method_ready(*self_ty, mi, record));
                proof {
                    lemma_impls_ready_stop(*self_ty, methods@, record, i as int);
                }
                return true;
            },
        };
        proof {
            lemma_free_form_reach(item.inputs@, mi.inputs@, *self_ty);
            lemma_free_form_rust(item.inputs@, mi.inputs@, *self_ty);
            lemma_free_form_ptr(item.inputs@, mi.inputs@, *self_ty);
        }
        if record {
            if !sig_recordable_check(&item) {
                assert(!method_ready(*self_ty, mi, record));
                proof {
                    if impls_ready(*self_ty, methods@, record) {
                        lemma_impls_ready_at(*self_ty, methods@, record, i as int);
                    }
                }
                return false;
            }
            match to_rust_func(&item, None) {
                Err(_) => {
                    assert(method_error(*self_ty, mi, record) is Some);
                    assert(method_ready(*self_ty, mi, record));
                    proof {
                        lemma_impls_ready_stop(*self_ty, methods@, record, i as int);
                    }
                    return true;
                },
                Ok(_) => {},
            }
        }
        if !sig_convertible_check(&item) {
            assert(!method_ready(*self_ty, mi, record));
            proof {
                if impls_ready(*self_ty, methods@, record) {
                    lemma_impls_ready_at(*self_ty, methods@, record, i as int);
                }
            }
            return false;
        }
        match to_extern_item_fn(item, None) {
            Err(_) => {
                assert(method_error(*self_ty, mi, record) is Some);
                assert(method_ready(*self_ty, mi, record));
                proof {
                    lemma_impls_ready_stop(*self_ty, methods@, record, i as int);
                }
                return true;
            },
            Ok(_) => {},
        }
        assert(method_error(*self_ty, mi, record) is None);
        assert(method_ready(*self_ty, mi, record));
        i = i + 1;
    }
    proof {
        lemma_impls_ready_stop(*self_ty, methods@, record, i as int);
    }
    true
}

/// What `with_abi` produces for one method `m` of `self_ty`: the method as a
/// free function, its record when `record` asks for it, and its wrapper.
fn convert_method(self_ty: &SynType, m: &SynSignature, record: bool) -> (r: DResult<
    (SynSignature, Option<RustFunction>, ExternFn),
>)
    requires
        method_ready(*self_ty, *m, record),
    ensures
        match r {
            Ok((free, rec, w)) => {
                &&& method_error(*self_ty, *m, record) is None
                &&& free_form(free, *m, *self_ty)
                &&& is_extern_of(w, free, Some((*self_ty, m.ident@)))
                &&& match rec {
                    Some(f) => record && rust_func_of(free, Some(m.ident@)) == Ok::<FnModel, Seq<char>>(f@),
                    None => !record,
                }
            },
            Err(e) => method_error(*self_ty, *m, record) matches Some(msg) && syn_err(e, msg),
        },
{
    let method_name = m.ident.clone();
    let item = match convert_item_fn(self_ty, m.duplicate()) {
        Ok(s) => s,
        Err(e) => {
            return Err(e);
        },
    };
    let free = item.duplicate();
    proof {
        lemma_free_form_ready(item, *m, *self_ty, record);
        lemma_free_form_rust(item.inputs@, m.inputs@, *self_ty);
        lemma_free_form_ptr(item.inputs@, m.inputs@, *self_ty);
    }
    let rec = if record {
        match to_rust_func(&item, Some((self_ty, &method_name))) {
            Ok(f) => Some(f),
            Err(e) => {
                return Err(e);
            },
        }
    } else {
        None
    };
    let w = match to_extern_item_fn(item, Some((self_ty, &method_name))) {
        Ok(w) => w,
        Err(e) => {
            return Err(e);
        },
    };
    Ok((free, rec, w))
}

/// Whether `r` is what `with_abi` produces for the methods `methods` of an
/// impl block for `self_ty`: on success, each method as a free function and
/// its wrapper, and the structure (recorded only when `record` asks for it);
/// otherwise the error of the first method that cannot be exported.
pub open spec fn impl_records_result(
    self_ty: SynType,
    methods: Seq<SynSignature>,
    record: bool,
    r: DResult<ImplRecords>,
) -> bool {
    match r {
        Ok(x) => {
            &&& forall|i: int| 0 <= i < methods.len() ==> method_error(self_ty, #[trigger] methods[i], record) is None
            &&& x.free_fns@.len() == methods.len()
            &&& x.wrappers@.len() == methods.len()
            &&& forall|i: int| 0 <= i < methods.len() ==> {
                &&& free_form(#[trigger] x.free_fns@[i], methods[i], self_ty)
                &&& is_extern_of(x.wrappers@[i], x.free_fns@[i], Some((self_ty, methods[i].ident@)))
            }
            &&& match x.structure {
                None => !record,
                Some(st) => {
                    &&& record
                    &&& st@.self_ty == (if self_ty is Path {
                        self_ty->first@
                    } else {
                        Seq::<char>::empty()
                    })
                    &&& st@.destructor is None
                    &&& st@.ty == StructTypes::RawPointer
                    &&& st@.methods.len() == methods.len()
                    &&& forall|i: int| 0 <= i < methods.len() ==> rust_func_of(
                        #[trigger] x.free_fns@[i],
                        Some(methods[i].ident@),
                    ) == Ok::<FnModel, Seq<char>>(st@.methods[i])
                },
            }
        },
        Err(e) => exists|i: int|
            #![trigger methods[i]]
            0 <= i < methods.len() && (forall|j: int| 0 <= j < i ==> method_error(self_ty, #[trigger] methods[j], record) is None)
                && (method_error(self_ty, methods[i], record) matches Some(m) && syn_err(e, m)),
    }
}

/// What `with_abi` produces for the methods `methods` of an impl block for
/// `self_ty`; the structure is recorded only when `record` asks for it. It
/// stops at the first method that cannot be exported.
pub fn convert_impls(self_ty: &SynType, methods: Vec<SynSignature>, record: bool) -> (r: DResult<ImplRecords>)
    requires
        impls_ready(*self_ty, methods@, record),
    ensures
        impl_records_result(*self_ty, methods@, record, r),
{
    let self_name = match self_ty {
        SynType::Path { first, .. } => first.clone(),
        _ => String::new(),
    };
    let mut records: Vec<RustFunction> = Vec::new();
    let mut free_fns: Vec<SynSignature> = Vec::new();
    let mut wrappers: Vec<ExternFn> = Vec::new();
    let mut i: usize = 0;
    while i < methods.len()
        invariant
            0 <= i <= methods@.len(),
            impls_ready(*self_ty, methods@, record),
            forall|j: int| 0 <= j < i ==> method_error(*self_ty, #[trigger] methods@[j], record) is None,
            record ==> records@.len() == i,
            free_fns@.len() == i,
            wrappers@.len() == i,
            forall|j: int| 0 <= j < i ==> {
                &&& free_form(#[trigger] free_fns@[j], methods@[j], *self_ty)
                &&& is_extern_of(wrappers@[j], free_fns@[j], Some((*self_ty, methods@[j].ident@)))
            },
            record ==> forall|j: int| 0 <= j < i ==> rust_func_of(
                #[trigger] free_fns@[j],
                Some(methods@[j].ident@),
            ) == Ok::<FnModel, Seq<char>>(records@[j]@),
        decreases methods@.len() - i,
    {
        proof {
            lemma_impls_ready_at(*self_ty, methods@, record, i as int);
        }
        let (free, rec, w) = match convert_method(self_ty, &methods[i], record) {
            Ok(x) => x,
            Err(e) => {
                return Err(e);
            },
        };
        match rec {
            Some(f) => {
                records.push(f);
            },
            None => {},
        }
        free_fns.push(free);
        wrappers.push(w);
        i = i + 1;
    }
    let structure = if record {
        let st = Structure {
            self_ty: self_name,
            methods: records,
            destructor: None,
            ty: StructTypes::RawPointer,
        };
        assert(st@.self_ty == (if *self_ty is Path {
            self_ty->first@
        } else {
            Seq::<char>::empty()
        }));
        Some(st)
    } else {
        None
    };
    Ok(ImplRecords { structure, free_fns, wrappers })
}

} // verus!
