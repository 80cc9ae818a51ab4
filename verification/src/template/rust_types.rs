//! The description of exported Rust functions, structures and types.
use vstd::prelude::*;
use vstd::std_specs::convert::FromSpecImpl;
use crate::text::concat;

verus! {

/// A Rust type as it crosses the C boundary.
#[derive(Debug, PartialEq)]
pub enum RustTypes {
    /// A pointer to a value of the named type.
    Ptr(String),
    /// An optional value (a nullable pointer).
    Option(Box<RustTypes>),
    /// A result with its success and error types.
    Result(Box<RustTypes>, Box<RustTypes>),
    /// A primitive type, by name (`u32`, `bool`, ...).
    Primitive(String),
    /// A string (a C string on the other side).
    String,
}

/// The mathematical value of a `RustTypes`: names as character sequences.
pub enum TyModel {
    Ptr(Seq<char>),
    Option(Box<TyModel>),
    Result(Box<TyModel>, Box<TyModel>),
    Primitive(Seq<char>),
    String,
}

impl TyModel {
    /// The Rust spelling of the type.
    pub open spec fn text(self) -> Seq<char>
        decreases self,
    {
        match self {
            TyModel::Ptr(s) => "*mut "@ + s,
            TyModel::Option(s) => "Option<"@ + s.text() + ">"@,
            TyModel::Result(ok, err) => "Result<"@ + ok.text() + ", "@ + err.text() + ">"@,
            TyModel::Primitive(s) => s,
            TyModel::String => "String"@,
        }
    }
}

impl View for RustTypes {
    type V = TyModel;

    open spec fn view(&self) -> TyModel
        decreases self,
    {
        match self {
            RustTypes::Ptr(s) => TyModel::Ptr(s@),
            RustTypes::Option(s) => TyModel::Option(Box::new((**s)@)),
            RustTypes::Result(ok, err) => TyModel::Result(Box::new((**ok)@), Box::new((**err)@)),
            RustTypes::Primitive(s) => TyModel::Primitive(s@),
            RustTypes::String => TyModel::String,
        }
    }
}

impl RustTypes {

    /// The Rust spelling of the type (`*mut T`, `Option<T>`, `Result<T, E>`, ...).
    pub fn to_string(&self) -> (r: String)
        ensures
            r@ == self@.text(),
        decreases self,
    {
        match self {
            RustTypes::Ptr(s) => concat("*mut ", s.as_str()),
            RustTypes::Option(s) => {
                let inner = s.to_string();
                let mut r = concat("Option<", inner.as_str());
                r.append(">");
                r
            },
            RustTypes::Result(ok, err) => {
                let a = ok.to_string();
                let b = err.to_string();
                let mut r = concat("Result<", a.as_str());
                r.append(", ");
                r.append(b.as_str());
                r.append(">");
                r
            },
            RustTypes::Primitive(s) => s.clone(),
            RustTypes::String => "String".to_owned(),
        }
    }

    /// Whether the type is a string.
    pub fn is_string(&self) -> (r: bool)
        ensures
            r == (self@ is String),
    {
        match self {
            RustTypes::String => true,
            _ => false,
        }
    }

    /// A copy of the type.
    pub fn duplicate(&self) -> (r: RustTypes)
        ensures
            r@ == self@,
        decreases self,
    {
        match self {
            RustTypes::Ptr(s) => RustTypes::Ptr(s.clone()),
            RustTypes::Option(s) => RustTypes::Option(Box::new(s.duplicate())),
            RustTypes::Result(ok, err) => RustTypes::Result(
                Box::new(ok.duplicate()),
                Box::new(err.duplicate()),
            ),
            RustTypes::Primitive(s) => RustTypes::Primitive(s.clone()),
            RustTypes::String => RustTypes::String,
        }
    }
}

impl Default for RustTypes {
    /// An untyped pointer, `*mut c_void`.
    fn default() -> (r: RustTypes)
        ensures
            r@ == TyModel::Ptr("c_void"@),
    {
        RustTypes::Ptr("c_void".to_owned())
    }
}

/// A named argument of an exported function.
#[derive(Debug, PartialEq)]
pub struct RustArgument {
    pub name: String,
    pub ty: RustTypes,
}

/// The mathematical value of a `RustArgument`.
pub struct ArgModel {
    pub name: Seq<char>,
    pub ty: TyModel,
}

impl View for RustArgument {
    type V = ArgModel;

    open spec fn view(&self) -> ArgModel {
        ArgModel { name: self.name@, ty: self.ty@ }
    }
}

impl RustArgument {
    /// A copy of the argument.
    pub fn duplicate(&self) -> (r: RustArgument)
        ensures
            r@ == self@,
    {
        RustArgument { name: self.name.clone(), ty: self.ty.duplicate() }
    }
}

/// An exported function: its Rust name, its symbol on the C side, its
/// arguments and its return type (none for `()`).
#[derive(Debug, PartialEq)]
pub struct Function<Arg, Ty> {
    pub name: String,
    pub extern_name: String,
    pub inputs: Vec<Arg>,
    pub output: Option<Ty>,
}

/// An exported function over Rust types.
pub type RustFunction = Function<RustArgument, RustTypes>;

/// The mathematical value of a `RustFunction`.
pub struct FnModel {
    pub name: Seq<char>,
    pub extern_name: Seq<char>,
    pub inputs: Seq<ArgModel>,
    pub output: Option<TyModel>,
}

/// The value of an optional type.
pub open spec fn opt_ty_model(t: Option<RustTypes>) -> Option<TyModel> {
    match t {
        Some(t) => Some(t@),
        None => None,
    }
}

/// The value of an optional string.
pub open spec fn opt_str_model(s: Option<String>) -> Option<Seq<char>> {
    match s {
        Some(s) => Some(s@),
        None => None,
    }
}

impl View for Function<RustArgument, RustTypes> {
    type V = FnModel;

    open spec fn view(&self) -> FnModel {
        FnModel {
            name: self.name@,
            extern_name: self.extern_name@,
            inputs: self.inputs@.map_values(|a: RustArgument| a@),
            output: opt_ty_model(self.output),
        }
    }
}

/// A copy of a sequence of arguments.
pub fn duplicate_args(v: &Vec<RustArgument>) -> (r: Vec<RustArgument>)
    ensures
        r@.map_values(|a: RustArgument| a@) == v@.map_values(|a: RustArgument| a@),
{
    let mut r: Vec<RustArgument> = Vec::new();
    let mut i: usize = 0;
    while i < v.len()
        invariant
            0 <= i <= v@.len(),
            r@.len() == i,
            forall|j: int| 0 <= j < i ==> r@[j]@ == v@[j]@,
        decreases v@.len() - i,
    {
        r.push(v[i].duplicate());
        i = i + 1;
    }
    assert(r@.map_values(|a: RustArgument| a@) =~= v@.map_values(|a: RustArgument| a@));
    r
}

/// A copy of an optional type.
pub fn duplicate_opt_type(t: &Option<RustTypes>) -> (r: Option<RustTypes>)
    ensures
        opt_ty_model(r) == opt_ty_model(*t),
{
    match t {
        Some(t) => Some(t.duplicate()),
        None => None,
    }
}

/// A copy of an optional string.
pub fn duplicate_opt_string(s: &Option<String>) -> (r: Option<String>)
    ensures
        opt_str_model(r) == opt_str_model(*s),
{
    match s {
        Some(s) => Some(s.clone()),
        None => None,
    }
}

impl Function<RustArgument, RustTypes> {
    /// A copy of the function description.
    pub fn duplicate(&self) -> (r: RustFunction)
        ensures
            r@ == self@,
    {
        Function {
            name: self.name.clone(),
            extern_name: self.extern_name.clone(),
            inputs: duplicate_args(&self.inputs),
            output: duplicate_opt_type(&self.output),
        }
    }
}

/// A copy of a sequence of function descriptions.
pub fn duplicate_funcs(v: &Vec<RustFunction>) -> (r: Vec<RustFunction>)
    ensures
        r@.map_values(|f: RustFunction| f@) == v@.map_values(|f: RustFunction| f@),
{
    let mut r: Vec<RustFunction> = Vec::new();
    let mut i: usize = 0;
    while i < v.len()
        invariant
            0 <= i <= v@.len(),
            r@.len() == i,
            forall|j: int| 0 <= j < i ==> r@[j]@ == v@[j]@,
        decreases v@.len() - i,
    {
        r.push(v[i].duplicate());
        i = i + 1;
    }
    assert(r@.map_values(|f: RustFunction| f@) =~= v@.map_values(|f: RustFunction| f@));
    r
}

/// How values of an exported structure cross the C boundary.
#[derive(Debug, Clone, Copy, PartialEq, Eq, Structural)]
pub enum StructTypes {
    /// Boxed on the heap and handed over as an owning pointer.
    Boxed,
    /// Serialised to a JSON string.
    Json,
    /// A pointer to a type that nothing else describes.
    RawPointer,
}

impl Default for StructTypes {
    /// A structure that nothing else describes is handed over as a raw pointer.
    fn default() -> (r: StructTypes)
        ensures
            r == StructTypes::RawPointer,
    {
        StructTypes::RawPointer
    }
}

/// An exported structure: its type name, its methods, the C function that frees
/// it (if any) and how it crosses the boundary.
#[derive(Debug, PartialEq)]
pub struct Structure<Func> {
    pub self_ty: String,
    pub methods: Vec<Func>,
    pub destructor: Option<String>,
    pub ty: StructTypes,
}

/// An exported structure over Rust types.
pub type RustStructure = Structure<RustFunction>;

/// The mathematical value of a `RustStructure`.
pub struct StructModel {
    pub self_ty: Seq<char>,
    pub methods: Seq<FnModel>,
    pub destructor: Option<Seq<char>>,
    pub ty: StructTypes,
}

impl View for Structure<RustFunction> {
    type V = StructModel;

    open spec fn view(&self) -> StructModel {
        StructModel {
            self_ty: self.self_ty@,
            methods: self.methods@.map_values(|f: RustFunction| f@),
            destructor: opt_str_model(self.destructor),
            ty: self.ty,
        }
    }
}

impl Structure<RustFunction> {
    /// A copy of the structure description.
    pub fn duplicate(&self) -> (r: RustStructure)
        ensures
            r@ == self@,
    {
        Structure {
            self_ty: self.self_ty.clone(),
            methods: duplicate_funcs(&self.methods),
            destructor: duplicate_opt_string(&self.destructor),
            ty: self.ty,
        }
    }
}

/// The values of a sequence of arguments.
pub open spec fn args_model(v: Seq<RustArgument>) -> Seq<ArgModel> {
    v.map_values(|a: RustArgument| a@)
}

/// The values of a sequence of functions.
pub open spec fn funcs_model(v: Seq<RustFunction>) -> Seq<FnModel> {
    v.map_values(|f: RustFunction| f@)
}

/// The values of a sequence of structures.
pub open spec fn structs_model(v: Seq<RustStructure>) -> Seq<StructModel> {
    v.map_values(|s: RustStructure| s@)
}

/// The value of a structure that is known only as the target of a pointer.
pub open spec fn raw_struct_model(name: Seq<char>) -> StructModel {
    StructModel {
        self_ty: name,
        methods: Seq::empty(),
        destructor: None,
        ty: StructTypes::RawPointer,
    }
}

/// A copy of a sequence of structure descriptions.
pub fn duplicate_structs(v: &Vec<RustStructure>) -> (r: Vec<RustStructure>)
    ensures
        r@.map_values(|s: RustStructure| s@) == v@.map_values(|s: RustStructure| s@),
{
    let mut r: Vec<RustStructure> = Vec::new();
    let mut i: usize = 0;
    while i < v.len()
        invariant
            0 <= i <= v@.len(),
            r@.len() == i,
            forall|j: int| 0 <= j < i ==> r@[j]@ == v@[j]@,
        decreases v@.len() - i,
    {
        r.push(v[i].duplicate());
        i = i + 1;
    }
    assert(r@.map_values(|s: RustStructure| s@) =~= v@.map_values(|s: RustStructure| s@));
    r
}

/// A function that frees memory of the given type on the C side.
#[derive(Debug, PartialEq)]
pub struct FreeFunction {
    pub ty: RustTypes,
    pub func: RustFunction,
}

/// A free function over Rust types.
pub type RustFreeFunction = FreeFunction;

/// The mathematical value of a `FreeFunction`.
pub struct FreeFnModel {
    pub ty: TyModel,
    pub func: FnModel,
}

impl View for FreeFunction {
    type V = FreeFnModel;

    open spec fn view(&self) -> FreeFnModel {
        FreeFnModel { ty: self.ty@, func: self.func@ }
    }
}

/// The values of a sequence of free functions.
pub open spec fn free_funcs_model(v: Seq<RustFreeFunction>) -> Seq<FreeFnModel> {
    v.map_values(|f: RustFreeFunction| f@)
}

/// One recorded item of an exported interface.
#[derive(Debug, PartialEq)]
pub enum MetaType {
    Func(RustFunction),
    Struct(RustStructure),
    FreeFunc(RustFreeFunction),
}

impl From<RustFunction> for MetaType {
    fn from(s: RustFunction) -> MetaType {
        MetaType::Func(s)
    }
}

impl FromSpecImpl<RustFunction> for MetaType {
    open spec fn obeys_from_spec() -> bool {
        true
    }

    open spec fn from_spec(s: RustFunction) -> MetaType {
        MetaType::Func(s)
    }
}

impl From<RustStructure> for MetaType {
    fn from(s: RustStructure) -> MetaType {
        MetaType::Struct(s)
    }
}

impl FromSpecImpl<RustStructure> for MetaType {
    open spec fn obeys_from_spec() -> bool {
        true
    }

    open spec fn from_spec(s: RustStructure) -> MetaType {
        MetaType::Struct(s)
    }
}

impl From<RustFreeFunction> for MetaType {
    fn from(s: RustFreeFunction) -> MetaType {
        MetaType::FreeFunc(s)
    }
}

impl FromSpecImpl<RustFreeFunction> for MetaType {
    open spec fn obeys_from_spec() -> bool {
        true
    }

    open spec fn from_spec(s: RustFreeFunction) -> MetaType {
        MetaType::FreeFunc(s)
    }
}

} // verus!
