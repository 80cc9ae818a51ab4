//! Python-side types and the per-function and per-structure data that the
//! binding template is rendered from.
use vstd::prelude::*;
use crate::template::rust_types::{
    args_model, funcs_model, opt_str_model, raw_struct_model, structs_model, ArgModel,
    FnModel, RustArgument, RustFunction, RustStructure, RustTypes, StructModel, StructTypes,
    Structure, TyModel,
};
use crate::text::{concat, replace, replace_all, str_eq};

verus! {

/// A type as the Python binding sees it.
#[derive(Debug, PartialEq)]
pub enum PythonTypes {
    Pointer(String),
    Primitive(String),
    Option(Box<PythonTypes>),
    Result(Box<PythonTypes>, Box<PythonTypes>),
    String,
}

/// The mathematical value of a `PythonTypes`.
pub enum PyModel {
    Pointer(Seq<char>),
    Primitive(Seq<char>),
    Option(Box<PyModel>),
    Result(Box<PyModel>, Box<PyModel>),
    String,
}

impl View for PythonTypes {
    type V = PyModel;

    open spec fn view(&self) -> PyModel
        decreases self,
    {
        match self {
            PythonTypes::Pointer(s) => PyModel::Pointer(s@),
            PythonTypes::Primitive(s) => PyModel::Primitive(s@),
            PythonTypes::Option(s) => PyModel::Option(Box::new((**s)@)),
            PythonTypes::Result(a, b) => PyModel::Result(Box::new((**a)@), Box::new((**b)@)),
            PythonTypes::String => PyModel::String,
        }
    }
}

/// The Python name of a Rust primitive type, if it has one: the integer types
/// and `char` become `int`, the float types `float`, and `bool` stays `bool`.
pub open spec fn py_primitive(n: Seq<char>) -> Option<Seq<char>> {
    if n == "i8"@ || n == "i16"@ || n == "i32"@ || n == "i64"@ || n == "i128"@ || n == "isize"@
        || n == "u8"@ || n == "u16"@ || n == "u32"@ || n == "u64"@ || n == "u128"@
        || n == "usize"@ || n == "char"@ {
        Some("int"@)
    } else if n == "f32"@ || n == "f64"@ {
        Some("float"@)
    } else if n == "bool"@ {
        Some("bool"@)
    } else {
        None
    }
}

/// Whether every primitive named in a type has a Python name.
pub open spec fn py_supported(t: TyModel) -> bool
    decreases t,
{
    match t {
        TyModel::Ptr(_) => true,
        TyModel::Option(s) => py_supported(*s),
        TyModel::Result(a, b) => py_supported(*a) && py_supported(*b),
        TyModel::Primitive(n) => py_primitive(n) is Some,
        TyModel::String => true,
    }
}

/// Whether some structure in `st` has the type name `name`.
pub open spec fn has_struct_named(st: Seq<StructModel>, name: Seq<char>) -> bool {
    exists|i: int| 0 <= i < st.len() && st[i].self_ty == name
}

/// The Python type of a Rust type, and the structure list after it: every
/// pointer to a type that no structure describes yet adds a raw-pointer
/// structure of that name at the end.
pub open spec fn py_of(t: TyModel, st: Seq<StructModel>) -> (PyModel, Seq<StructModel>)
    decreases t,
{
    match t {
        TyModel::Ptr(s) => (
            PyModel::Pointer(s),
            if has_struct_named(st, s) {
                st
            } else {
                st.push(raw_struct_model(s))
            },
        ),
        TyModel::Option(i) => {
            let (p, st1) = py_of(*i, st);
            (PyModel::Option(Box::new(p)), st1)
        },
        TyModel::Result(a, b) => {
            let (pa, st1) = py_of(*a, st);
            let (pb, st2) = py_of(*b, st1);
            (PyModel::Result(Box::new(pa), Box::new(pb)), st2)
        },
        TyModel::Primitive(n) => (PyModel::Primitive(py_primitive(n).unwrap()), st),
        TyModel::String => (PyModel::String, st),
    }
}

impl PyModel {
    /// The type hint written in the signature of the Python wrapper.
    pub open spec fn hint(self) -> Seq<char>
        decreases self,
    {
        match self {
            PyModel::String => "str"@,
            PyModel::Pointer(s) => s,
            PyModel::Primitive(p) => p,
            PyModel::Option(s) => "Option["@ + s.hint() + "]"@,
            PyModel::Result(a, b) => "Result["@ + a.hint() + ", "@ + b.hint() + "]"@,
        }
    }

    /// The type used when declaring the C function to the Python side.
    pub open spec fn extern_name(self) -> Seq<char>
        decreases self,
    {
        match self {
            PyModel::String => "LibString"@,
            PyModel::Pointer(s) => s,
            PyModel::Primitive(p) => p,
            PyModel::Option(s) => "Option["@ + s.extern_name() + "]"@,
            PyModel::Result(a, b) => "Result["@ + a.extern_name() + ", "@ + b.extern_name() + "]"@,
        }
    }
}

/// Whether some structure in `structs` has the type name `name`.
fn has_struct(structs: &Vec<RustStructure>, name: &str) -> (r: bool)
    ensures
        r == has_struct_named(structs_model(structs@), name@),
{
    let mut i: usize = 0;
    while i < structs.len()
        invariant
            0 <= i <= structs@.len(),
            forall|j: int| 0 <= j < i ==> structs@[j].self_ty@ != name@,
        decreases structs@.len() - i,
    {
        if str_eq(structs[i].self_ty.as_str(), name) {
            assert(structs_model(structs@)[i as int].self_ty == name@);
            return true;
        }
        i = i + 1;
    }
    false
}

/// The Python name of a Rust primitive type.
fn primitive_name(n: &str) -> (r: String)
    requires
        py_primitive(n@) is Some,
    ensures
        r@ == py_primitive(n@).unwrap(),
{
    if str_eq(n, "i8") || str_eq(n, "i16") || str_eq(n, "i32") || str_eq(n, "i64") || str_eq(
        n,
        "i128",
    ) || str_eq(n, "isize") || str_eq(n, "u8") || str_eq(n, "u16") || str_eq(n, "u32") || str_eq(
        n,
        "u64",
    ) || str_eq(n, "u128") || str_eq(n, "usize") || str_eq(n, "char") {
        "int".to_owned()
    } else if str_eq(n, "f32") || str_eq(n, "f64") {
        "float".to_owned()
    } else {
        "bool".to_owned()
    }
}

impl PythonTypes {
    /// The Python type of a Rust type. A pointer to a type that no structure
    /// in `structs` describes yet adds a raw-pointer structure for it.
    pub fn from_rust(ty: &RustTypes, structs: &mut Vec<RustStructure>) -> (r: PythonTypes)
        requires
            py_supported(ty@),
        ensures
            (r@, structs_model(final(structs)@)) == py_of(ty@, structs_model(old(structs)@)),
        decreases ty,
    {
        match ty {
            RustTypes::Ptr(s) => {
                if !has_struct(structs, s.as_str()) {
                    let st = Structure {
                        self_ty: s.clone(),
                        methods: Vec::new(),
                        destructor: None,
                        ty: StructTypes::RawPointer,
                    };
                    assert(st@.methods =~= Seq::<FnModel>::empty());
                    let ghost before = structs@;
                    structs.push(st);
                    assert(structs_model(structs@) =~= structs_model(before).push(
                        raw_struct_model(s@),
                    ));
                }
                PythonTypes::Pointer(s.clone())
            },
            RustTypes::Option(s) => PythonTypes::Option(Box::new(PythonTypes::from_rust(s, structs))),
            RustTypes::Result(ok, err) => {
                let a = PythonTypes::from_rust(ok, structs);
                let b = PythonTypes::from_rust(err, structs);
                PythonTypes::Result(Box::new(a), Box::new(b))
            },
            RustTypes::Primitive(s) => PythonTypes::Primitive(primitive_name(s.as_str())),
            RustTypes::String => PythonTypes::String,
        }
    }

    /// The type hint written in the signature of the Python wrapper.
    pub fn get_hint(&self) -> (r: String)
        ensures
            r@ == self@.hint(),
        decreases self,
    {
        match self {
            PythonTypes::String => "str".to_owned(),
            PythonTypes::Pointer(s) => s.clone(),
            PythonTypes::Primitive(p) => p.clone(),
            PythonTypes::Option(s) => {
                let h = s.get_hint();
                let mut r = concat("Option[", h.as_str());
                r.append("]");
                r
            },
            PythonTypes::Result(a, b) => {
                let ha = a.get_hint();
                let hb = b.get_hint();
                let mut r = concat("Result[", ha.as_str());
                r.append(", ");
                r.append(hb.as_str());
                r.append("]");
                r
            },
        }
    }

    /// The type used when declaring the C function to the Python side.
    pub fn get_extern(&self) -> (r: String)
        ensures
            r@ == self@.extern_name(),
        decreases self,
    {
        match self {
            PythonTypes::String => "LibString".to_owned(),
            PythonTypes::Pointer(s) => s.clone(),
            PythonTypes::Primitive(p) => p.clone(),
            PythonTypes::Option(s) => {
                let h = s.get_extern();
                let mut r = concat("Option[", h.as_str());
                r.append("]");
                r
            },
            PythonTypes::Result(a, b) => {
                let ha = a.get_extern();
                let hb = b.get_extern();
                let mut r = concat("Result[", ha.as_str());
                r.append(", ");
                r.append(hb.as_str());
                r.append("]");
                r
            },
        }
    }
}

/// The values of a sequence of Python types.
pub open spec fn py_models(v: Seq<PythonTypes>) -> Seq<PyModel> {
    v.map_values(|p: PythonTypes| p@)
}

/// Whether every type in a function's signature has a Python counterpart.
pub open spec fn fn_supported(f: FnModel) -> bool {
    &&& forall|i: int| 0 <= i < f.inputs.len() ==> py_supported(#[trigger] f.inputs[i].ty)
    &&& f.output matches Some(t) ==> py_supported(t)
}

/// Whether every primitive named in a type has a Python name (see
/// `py_supported`).
pub fn type_supported(t: &RustTypes) -> (r: bool)
    ensures
        r == py_supported(t@),
    decreases t,
{
    match t {
        RustTypes::Ptr(_) => true,
        RustTypes::Option(s) => type_supported(s),
        RustTypes::Result(a, b) => type_supported(a) && type_supported(b),
        RustTypes::Primitive(n) => {
            let x = n.as_str();
            str_eq(x, "i8") || str_eq(x, "i16") || str_eq(x, "i32") || str_eq(x, "i64") || str_eq(x, "i128")
                || str_eq(x, "isize") || str_eq(x, "u8") || str_eq(x, "u16") || str_eq(x, "u32") || str_eq(
                x,
                "u64",
            ) || str_eq(x, "u128") || str_eq(x, "usize") || str_eq(x, "char") || str_eq(x, "f32") || str_eq(
                x,
                "f64",
            ) || str_eq(x, "bool")
        },
        RustTypes::String => true,
    }
}

/// Whether every type in a function's signature has a Python counterpart
/// (see `fn_supported`).
pub fn function_supported(f: &RustFunction) -> (r: bool)
    ensures
        r == fn_supported(f@),
{
    let mut i: usize = 0;
    while i < f.inputs.len()
        invariant
            0 <= i <= f.inputs@.len(),
            forall|j: int| 0 <= j < i ==> py_supported(#[trigger] f@.inputs[j].ty),
        decreases f.inputs@.len() - i,
    {
        assert(f@.inputs[i as int] == f.inputs@[i as int]@);
        if !type_supported(&f.inputs[i].ty) {
            assert(!py_supported(f@.inputs[i as int].ty));
            return false;
        }
        i = i + 1;
    }
    match &f.output {
        Some(t) => type_supported(t),
        None => true,
    }
}

/// The Python types of the arguments, converted from first to last, and the
/// structure list after them.
pub open spec fn inputs_py(args: Seq<ArgModel>, st: Seq<StructModel>) -> (Seq<PyModel>, Seq<StructModel>)
    decreases args.len(),
{
    if args.len() == 0 {
        (Seq::empty(), st)
    } else {
        let (ps, st1) = inputs_py(args.drop_last(), st);
        let (p, st2) = py_of(args.last().ty, st1);
        (ps.push(p), st2)
    }
}

/// Converting the argument types yields one Python type per argument.
proof fn lemma_inputs_py_len(args: Seq<ArgModel>, st: Seq<StructModel>)
    ensures
        inputs_py(args, st).0.len() == args.len(),
    decreases args.len(),
{
    if args.len() > 0 {
        lemma_inputs_py_len(args.drop_last(), st);
    }
}

/// The Python type of an optional return type, and the structure list after it.
pub open spec fn output_py(t: Option<TyModel>, st: Seq<StructModel>) -> (Option<PyModel>, Seq<StructModel>) {
    match t {
        Some(t) => {
            let (p, st1) = py_of(t, st);
            (Some(p), st1)
        },
        None => (None, st),
    }
}

/// The hint of an optional Python type.
pub open spec fn opt_hint(p: Option<PyModel>) -> Option<Seq<char>> {
    match p {
        Some(p) => Some(p.hint()),
        None => None,
    }
}

/// The declaration type of an optional Python type.
pub open spec fn opt_extern(p: Option<PyModel>) -> Option<Seq<char>> {
    match p {
        Some(p) => Some(p.extern_name()),
        None => None,
    }
}

/// The parameters of the Python wrapper: `name: hint` for every argument but
/// the receiver `this`, in order.
pub open spec fn sig_inputs(args: Seq<ArgModel>, ps: Seq<PyModel>) -> Seq<Seq<char>>
    decreases args.len(),
{
    if args.len() == 0 {
        Seq::empty()
    } else {
        let rest = sig_inputs(args.drop_last(), ps.drop_last());
        if args.last().name == "this"@ {
            rest
        } else {
            rest.push(args.last().name + ": "@ + ps.last().hint())
        }
    }
}

/// The mathematical value of a `FunctionABI`.
pub struct FnAbiModel {
    pub extern_name: Seq<char>,
    pub extern_inputs: Seq<Seq<char>>,
    pub extern_output: Option<Seq<char>>,
    pub arg_list: Seq<Seq<char>>,
    pub is_method: bool,
    pub sig_name: Seq<char>,
    pub sig_inputs: Seq<Seq<char>>,
    pub sig_output: Option<Seq<char>>,
}

/// The binding data of a function, and the structure list after converting
/// its argument types (first to last) and then its return type.
pub open spec fn fn_abi(f: FnModel, st: Seq<StructModel>) -> (FnAbiModel, Seq<StructModel>) {
    let (ps, st1) = inputs_py(f.inputs, st);
    let (po, st2) = output_py(f.output, st1);
    (
        FnAbiModel {
            extern_name: f.extern_name,
            extern_inputs: ps.map_values(|p: PyModel| p.extern_name()),
            extern_output: opt_extern(po),
            arg_list: f.inputs.map_values(|a: ArgModel| replace_all(a.name, "this"@, "self"@)),
            is_method: exists|i: int| 0 <= i < f.inputs.len() && f.inputs[i].name == "this"@,
            sig_name: f.name,
            sig_inputs: sig_inputs(f.inputs, ps),
            sig_output: opt_hint(po),
        },
        st2,
    )
}

/// What the binding template needs of one exported function.
#[derive(Debug, PartialEq)]
pub struct FunctionABI {
    pub extern_name: String,
    pub extern_inputs: Vec<String>,
    pub extern_output: Option<String>,
    pub arg_list: Vec<String>,
    pub is_method: bool,
    pub sig_name: String,
    pub sig_inputs: Vec<String>,
    pub sig_output: Option<String>,
}

/// The character sequences of a sequence of strings.
pub open spec fn strs_model(v: Seq<String>) -> Seq<Seq<char>> {
    v.map_values(|s: String| s@)
}

impl View for FunctionABI {
    type V = FnAbiModel;

    open spec fn view(&self) -> FnAbiModel {
        FnAbiModel {
            extern_name: self.extern_name@,
            extern_inputs: strs_model(self.extern_inputs@),
            extern_output: opt_str_model(self.extern_output),
            arg_list: strs_model(self.arg_list@),
            is_method: self.is_method,
            sig_name: self.sig_name@,
            sig_inputs: strs_model(self.sig_inputs@),
            sig_output: opt_str_model(self.sig_output),
        }
    }
}

/// The Python types of the arguments, converted from first to last.
fn convert_inputs(args: &Vec<RustArgument>, structs: &mut Vec<RustStructure>) -> (r: Vec<PythonTypes>)
    requires
        forall|i: int| 0 <= i < args@.len() ==> py_supported(#[trigger] args@[i].ty@),
    ensures
        (py_models(r@), structs_model(final(structs)@)) == inputs_py(
            args_model(args@),
            structs_model(old(structs)@),
        ),
{
    let ghost st0 = structs_model(structs@);
    let mut r: Vec<PythonTypes> = Vec::new();
    let mut i: usize = 0;
    assert(args_model(args@).take(0) =~= Seq::<ArgModel>::empty());
    assert(py_models(r@) =~= Seq::<PyModel>::empty());
    while i < args.len()
        invariant
            0 <= i <= args@.len(),
            forall|i: int| 0 <= i < args@.len() ==> py_supported(#[trigger] args@[i].ty@),
            (py_models(r@), structs_model(structs@)) == inputs_py(
                args_model(args@).take(i as int),
                st0,
            ),
        decreases args@.len() - i,
    {
        let ghost before = r@;
        let p = PythonTypes::from_rust(&args[i].ty, structs);
        r.push(p);
        assert(args_model(args@).take(i + 1).drop_last() =~= args_model(args@).take(i as int));
        assert(py_models(r@) =~= py_models(before).push(p@));
        i = i + 1;
    }
    assert(args_model(args@).take(args@.len() as int) =~= args_model(args@));
    r
}

/// The declaration types of a sequence of Python types.
fn externs_of(ps: &Vec<PythonTypes>) -> (r: Vec<String>)
    ensures
        strs_model(r@) == py_models(ps@).map_values(|p: PyModel| p.extern_name()),
{
    let mut r: Vec<String> = Vec::new();
    let mut i: usize = 0;
    while i < ps.len()
        invariant
            0 <= i <= ps@.len(),
            r@.len() == i,
            forall|j: int| 0 <= j < i ==> r@[j]@ == ps@[j]@.extern_name(),
        decreases ps@.len() - i,
    {
        r.push(ps[i].get_extern());
        i = i + 1;
    }
    assert(strs_model(r@) =~= py_models(ps@).map_values(|p: PyModel| p.extern_name()));
    r
}

/// The argument names as the Python wrapper passes them on (`this` becomes `self`).
fn arg_names(args: &Vec<RustArgument>) -> (r: Vec<String>)
    ensures
        strs_model(r@) == args_model(args@).map_values(
            |a: ArgModel| replace_all(a.name, "this"@, "self"@),
        ),
{
    let mut r: Vec<String> = Vec::new();
    let mut i: usize = 0;
    proof {
        reveal_strlit("this");
    }
    while i < args.len()
        invariant
            0 <= i <= args@.len(),
            r@.len() == i,
            "this"@.len() > 0,
            forall|j: int|
                0 <= j < i ==> r@[j]@ == replace_all(args@[j].name@, "this"@, "self"@),
        decreases args@.len() - i,
    {
        r.push(replace(args[i].name.as_str(), "this", "self"));
        i = i + 1;
    }
    assert(strs_model(r@) =~= args_model(args@).map_values(
        |a: ArgModel| replace_all(a.name, "this"@, "self"@),
    ));
    r
}

/// Whether some argument is the receiver `this`.
fn has_receiver(args: &Vec<RustArgument>) -> (r: bool)
    ensures
        r == exists|i: int| 0 <= i < args@.len() && args_model(args@)[i].name == "this"@,
{
    let mut i: usize = 0;
    while i < args.len()
        invariant
            0 <= i <= args@.len(),
            forall|j: int| 0 <= j < i ==> args@[j].name@ != "this"@,
        decreases args@.len() - i,
    {
        if str_eq(args[i].name.as_str(), "this") {
            assert(args_model(args@)[i as int].name == "this"@);
            return true;
        }
        i = i + 1;
    }
    false
}

/// The parameters of the Python wrapper.
fn signature_inputs(args: &Vec<RustArgument>, ps: &Vec<PythonTypes>) -> (r: Vec<String>)
    requires
        args@.len() == ps@.len(),
    ensures
        strs_model(r@) == sig_inputs(args_model(args@), py_models(ps@)),
{
    let mut r: Vec<String> = Vec::new();
    let mut i: usize = 0;
    assert(strs_model(r@) =~= Seq::<Seq<char>>::empty());
    while i < args.len()
        invariant
            0 <= i <= args@.len(),
            args@.len() == ps@.len(),
            strs_model(r@) == sig_inputs(
                args_model(args@).take(i as int),
                py_models(ps@).take(i as int),
            ),
        decreases args@.len() - i,
    {
        let ghost before = r@;
        assert(args_model(args@).take(i + 1).drop_last() =~= args_model(args@).take(i as int));
        assert(py_models(ps@).take(i + 1).drop_last() =~= py_models(ps@).take(i as int));
        if !str_eq(args[i].name.as_str(), "this") {
            let mut s = concat(args[i].name.as_str(), ": ");
            let h = ps[i].get_hint();
            s.append(h.as_str());
            r.push(s);
            assert(strs_model(r@) =~= strs_model(before).push(s@));
        }
        i = i + 1;
    }
    assert(args_model(args@).take(args@.len() as int) =~= args_model(args@));
    assert(py_models(ps@).take(ps@.len() as int) =~= py_models(ps@));
    r
}

impl FunctionABI {
    /// The binding data of an exported function. Pointers in its signature to
    /// types that no structure in `structs` describes add raw-pointer
    /// structures for them.
    pub fn from_rust(func: &RustFunction, structs: &mut Vec<RustStructure>) -> (r: FunctionABI)
        requires
            fn_supported(func@),
        ensures
            (r@, structs_model(final(structs)@)) == fn_abi(func@, structs_model(old(structs)@)),
    {
        let f = func;
        proof {
            assert forall|i: int| 0 <= i < f.inputs@.len() implies py_supported(
                #[trigger] f.inputs@[i].ty@,
            ) by {
                assert(f@.inputs[i] == f.inputs@[i]@);
                assert(py_supported(f@.inputs[i].ty));
            }
            lemma_inputs_py_len(args_model(f.inputs@), structs_model(structs@));
        }
        let py_input = convert_inputs(&f.inputs, structs);
        let py_output: Option<PythonTypes> = match &f.output {
            Some(t) => Some(PythonTypes::from_rust(t, structs)),
            None => None,
        };
        let extern_output = match &py_output {
            Some(p) => Some(p.get_extern()),
            None => None,
        };
        let sig_output = match &py_output {
            Some(p) => Some(p.get_hint()),
            None => None,
        };
        let ghost ps = py_models(py_input@);
        assert(ps.len() == f.inputs@.len());
        let r = FunctionABI {
            extern_name: f.extern_name.clone(),
            extern_inputs: externs_of(&py_input),
            extern_output,
            arg_list: arg_names(&f.inputs),
            is_method: has_receiver(&f.inputs),
            sig_name: f.name.clone(),
            sig_inputs: signature_inputs(&f.inputs, &py_input),
            sig_output,
        };
        r
    }
}

/// The binding data of a sequence of functions, converted from first to last,
/// and the structure list after them.
pub open spec fn methods_abi(fs: Seq<FnModel>, st: Seq<StructModel>) -> (Seq<FnAbiModel>, Seq<StructModel>)
    decreases fs.len(),
{
    if fs.len() == 0 {
        (Seq::empty(), st)
    } else {
        let (abis, st1) = methods_abi(fs.drop_last(), st);
        let (a, st2) = fn_abi(fs.last(), st1);
        (abis.push(a), st2)
    }
}

/// The mathematical value of a `StructureABI`.
pub struct StructAbiModel {
    pub self_ty: Seq<char>,
    pub methods: Seq<FnAbiModel>,
    pub destructor: Option<Seq<char>>,
    pub ty: StructTypes,
}

/// The binding data of a structure, and the structure list after converting
/// its methods.
pub open spec fn struct_abi(s: StructModel, st: Seq<StructModel>) -> (StructAbiModel, Seq<StructModel>) {
    let (ms, st1) = methods_abi(s.methods, st);
    (StructAbiModel { self_ty: s.self_ty, methods: ms, destructor: s.destructor, ty: s.ty }, st1)
}

/// Whether every method of a structure has a Python counterpart for its types.
pub open spec fn struct_supported(s: StructModel) -> bool {
    forall|i: int| 0 <= i < s.methods.len() ==> fn_supported(#[trigger] s.methods[i])
}

/// What the binding template needs of one exported structure.
#[derive(Debug, PartialEq)]
pub struct StructureABI {
    pub self_ty: String,
    pub methods: Vec<FunctionABI>,
    pub destructor: Option<String>,
    pub ty: StructTypes,
}

/// The values of a sequence of function binding data.
pub open spec fn fn_abis_model(v: Seq<FunctionABI>) -> Seq<FnAbiModel> {
    v.map_values(|f: FunctionABI| f@)
}

impl View for StructureABI {
    type V = StructAbiModel;

    open spec fn view(&self) -> StructAbiModel {
        StructAbiModel {
            self_ty: self.self_ty@,
            methods: fn_abis_model(self.methods@),
            destructor: opt_str_model(self.destructor),
            ty: self.ty,
        }
    }
}

/// The binding data of a sequence of functions, converted from first to last.
pub fn convert_functions(fs: &Vec<RustFunction>, structs: &mut Vec<RustStructure>) -> (r: Vec<FunctionABI>)
    requires
        forall|i: int| 0 <= i < fs@.len() ==> fn_supported(#[trigger] fs@[i]@),
    ensures
        (fn_abis_model(r@), structs_model(final(structs)@)) == methods_abi(
            funcs_model(fs@),
            structs_model(old(structs)@),
        ),
{
    let ghost st0 = structs_model(structs@);
    let mut r: Vec<FunctionABI> = Vec::new();
    let mut i: usize = 0;
    assert(funcs_model(fs@).take(0) =~= Seq::<FnModel>::empty());
    assert(fn_abis_model(r@) =~= Seq::<FnAbiModel>::empty());
    while i < fs.len()
        invariant
            0 <= i <= fs@.len(),
            forall|i: int| 0 <= i < fs@.len() ==> fn_supported(#[trigger] fs@[i]@),
            (fn_abis_model(r@), structs_model(structs@)) == methods_abi(
                funcs_model(fs@).take(i as int),
                st0,
            ),
        decreases fs@.len() - i,
    {
        let ghost before = r@;
        let a = FunctionABI::from_rust(&fs[i], structs);
        r.push(a);
        assert(funcs_model(fs@).take(i + 1).drop_last() =~= funcs_model(fs@).take(i as int));
        assert(fn_abis_model(r@) =~= fn_abis_model(before).push(a@));
        i = i + 1;
    }
    assert(funcs_model(fs@).take(fs@.len() as int) =~= funcs_model(fs@));
    r
}

impl StructureABI {
    /// The binding data of an exported structure. Pointers in the signatures
    /// of its methods to types that no structure in `structs` describes add
    /// raw-pointer structures for them.
    pub fn from_rust(s: RustStructure, structs: &mut Vec<RustStructure>) -> (r: StructureABI)
        requires
            struct_supported(s@),
        ensures
            (r@, structs_model(final(structs)@)) == struct_abi(s@, structs_model(old(structs)@)),
    {
        proof {
            assert forall|i: int| 0 <= i < s.methods@.len() implies fn_supported(
                #[trigger] s.methods@[i]@,
            ) by {
                assert(s@.methods[i] == s.methods@[i]@);
            }
        }
        let methods = convert_functions(&s.methods, structs);
        StructureABI { self_ty: s.self_ty, methods, destructor: s.destructor, ty: s.ty }
    }
}

/// `st2` is `st` followed by structures without methods.
pub open spec fn raw_extension(st: Seq<StructModel>, st2: Seq<StructModel>) -> bool {
    &&& st.len() <= st2.len()
    &&& st2.subrange(0, st.len() as int) == st
    &&& forall|i: int| st.len() <= i < st2.len() ==> (#[trigger] st2[i]).methods.len() == 0
}

proof fn lemma_raw_extension_trans(a: Seq<StructModel>, b: Seq<StructModel>, c: Seq<StructModel>)
    requires
        raw_extension(a, b),
        raw_extension(b, c),
    ensures
        raw_extension(a, c),
{
    assert(c.subrange(0, a.len() as int) =~= b.subrange(0, a.len() as int));
    assert forall|i: int| a.len() <= i < c.len() implies (#[trigger] c[i]).methods.len() == 0 by {
        if i < b.len() {
            assert(c[i] == c.subrange(0, b.len() as int)[i]);
        }
    }
}

proof fn lemma_py_of_raw(t: TyModel, st: Seq<StructModel>)
    ensures
        raw_extension(st, py_of(t, st).1),
    decreases t,
{
    assert(st.subrange(0, st.len() as int) =~= st);
    match t {
        TyModel::Ptr(s) => {
            if !has_struct_named(st, s) {
                assert(st.push(raw_struct_model(s)).subrange(0, st.len() as int) =~= st);
            }
        },
        TyModel::Option(i) => {
            lemma_py_of_raw(*i, st);
        },
        TyModel::Result(a, b) => {
            lemma_py_of_raw(*a, st);
            lemma_py_of_raw(*b, py_of(*a, st).1);
            lemma_raw_extension_trans(st, py_of(*a, st).1, py_of(*b, py_of(*a, st).1).1);
        },
        _ => {},
    }
}

proof fn lemma_inputs_py_raw(args: Seq<ArgModel>, st: Seq<StructModel>)
    ensures
        raw_extension(st, inputs_py(args, st).1),
    decreases args.len(),
{
    if args.len() == 0 {
        assert(st.subrange(0, st.len() as int) =~= st);
    } else {
        lemma_inputs_py_raw(args.drop_last(), st);
        let st1 = inputs_py(args.drop_last(), st).1;
        lemma_py_of_raw(args.last().ty, st1);
        lemma_raw_extension_trans(st, st1, py_of(args.last().ty, st1).1);
    }
}

proof fn lemma_fn_abi_raw(f: FnModel, st: Seq<StructModel>)
    ensures
        raw_extension(st, fn_abi(f, st).1),
{
    lemma_inputs_py_raw(f.inputs, st);
    let st1 = inputs_py(f.inputs, st).1;
    match f.output {
        Some(t) => {
            lemma_py_of_raw(t, st1);
            lemma_raw_extension_trans(st, st1, py_of(t, st1).1);
        },
        None => {},
    }
}

proof fn lemma_methods_abi_raw(fs: Seq<FnModel>, st: Seq<StructModel>)
    ensures
        raw_extension(st, methods_abi(fs, st).1),
    decreases fs.len(),
{
    if fs.len() == 0 {
        assert(st.subrange(0, st.len() as int) =~= st);
    } else {
        lemma_methods_abi_raw(fs.drop_last(), st);
        let st1 = methods_abi(fs.drop_last(), st).1;
        lemma_fn_abi_raw(fs.last(), st1);
        lemma_raw_extension_trans(st, st1, fn_abi(fs.last(), st1).1);
    }
}

/// Converting functions only appends structures without methods to the list.
pub proof fn lemma_methods_abi_raw_pub(fs: Seq<FnModel>, st: Seq<StructModel>)
    ensures
        raw_extension(st, methods_abi(fs, st).1),
{
    lemma_methods_abi_raw(fs, st);
}

/// Converting a structure only appends structures without methods to the list.
pub proof fn lemma_struct_abi_raw(s: StructModel, st: Seq<StructModel>)
    ensures
        raw_extension(st, struct_abi(s, st).1),
{
    lemma_methods_abi_raw(s.methods, st);
}

/// Every type name a pointer in `t` points to names a structure of `st`.
pub open spec fn ptr_names_present(t: TyModel, st: Seq<StructModel>) -> bool
    decreases t,
{
    match t {
        TyModel::Ptr(s) => has_struct_named(st, s),
        TyModel::Option(i) => ptr_names_present(*i, st),
        TyModel::Result(a, b) => ptr_names_present(*a, st) && ptr_names_present(*b, st),
        _ => true,
    }
}

proof fn lemma_present_extends(t: TyModel, st: Seq<StructModel>, st2: Seq<StructModel>)
    requires
        ptr_names_present(t, st),
        raw_extension(st, st2),
    ensures
        ptr_names_present(t, st2),
    decreases t,
{
    match t {
        TyModel::Ptr(s) => {
            let i = choose|i: int| 0 <= i < st.len() && st[i].self_ty == s;
            assert(st2[i] == st2.subrange(0, st.len() as int)[i]);
        },
        TyModel::Option(i) => lemma_present_extends(*i, st, st2),
        TyModel::Result(a, b) => {
            lemma_present_extends(*a, st, st2);
            lemma_present_extends(*b, st, st2);
        },
        _ => {},
    }
}

proof fn lemma_present_after(t: TyModel, st: Seq<StructModel>)
    ensures
        ptr_names_present(t, py_of(t, st).1),
    decreases t,
{
    match t {
        TyModel::Ptr(s) => {
            if !has_struct_named(st, s) {
                let st1 = st.push(raw_struct_model(s));
                assert(st1[st.len() as int].self_ty == s);
            }
        },
        TyModel::Option(i) => lemma_present_after(*i, st),
        TyModel::Result(a, b) => {
            let st1 = py_of(*a, st).1;
            lemma_present_after(*a, st);
            lemma_present_after(*b, st1);
            lemma_py_of_raw(*b, st1);
            lemma_present_extends(*a, st1, py_of(*b, st1).1);
        },
        _ => {},
    }
}

proof fn lemma_present_unchanged(t: TyModel, st: Seq<StructModel>)
    requires
        ptr_names_present(t, st),
    ensures
        py_of(t, st).1 == st,
    decreases t,
{
    match t {
        TyModel::Option(i) => lemma_present_unchanged(*i, st),
        TyModel::Result(a, b) => {
            lemma_present_unchanged(*a, st);
            lemma_present_unchanged(*b, st);
        },
        _ => {},
    }
}

proof fn lemma_py_of_value(t: TyModel, st: Seq<StructModel>, st2: Seq<StructModel>)
    ensures
        py_of(t, st).0 == py_of(t, st2).0,
    decreases t,
{
    match t {
        TyModel::Option(i) => lemma_py_of_value(*i, st, st2),
        TyModel::Result(a, b) => {
            lemma_py_of_value(*a, st, st2);
            lemma_py_of_value(*b, py_of(*a, st).1, py_of(*a, st2).1);
        },
        _ => {},
    }
}

/// Converting a type a second time, with the structure list the first
/// conversion left, gives the same Python type and adds no structure.
pub proof fn law_py_of_idempotent(t: TyModel, st: Seq<StructModel>)
    ensures
        py_of(t, py_of(t, st).1) == py_of(t, st),
{
    let st1 = py_of(t, st).1;
    lemma_present_after(t, st);
    lemma_present_unchanged(t, st1);
    lemma_py_of_value(t, st, st1);
}

} // verus!
