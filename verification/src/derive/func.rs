//! A compact record of exported functions and implementations.
use vstd::prelude::*;

verus! {

/// How an argument or return value crosses the C boundary.
#[derive(Debug, PartialEq)]
pub enum Arg {
    Ptr(String),
    Option(Box<Arg>),
    Result(Box<Arg>),
    Pimitive(String),
    String,
    JSON(String),
}

/// The mathematical value of an `Arg`: names as character sequences.
pub enum ArgModel {
    Ptr(Seq<char>),
    Option(Box<ArgModel>),
    Result(Box<ArgModel>),
    Pimitive(Seq<char>),
    String,
    JSON(Seq<char>),
}

impl View for Arg {
    type V = ArgModel;

    open spec fn view(&self) -> ArgModel
        decreases self,
    {
        match self {
            Arg::Ptr(s) => ArgModel::Ptr(s@),
            Arg::Option(a) => ArgModel::Option(Box::new((**a)@)),
            Arg::Result(a) => ArgModel::Result(Box::new((**a)@)),
            Arg::Pimitive(s) => ArgModel::Pimitive(s@),
            Arg::String => ArgModel::String,
            Arg::JSON(s) => ArgModel::JSON(s@),
        }
    }
}

/// The mathematical value of a `Function`.
pub struct FuncModel {
    pub name: Seq<char>,
    pub extern_name: Seq<char>,
    pub inputs: Seq<(Seq<char>, ArgModel)>,
    pub output: Option<ArgModel>,
}

/// The values of named arguments.
pub open spec fn named_args_model(v: Seq<(String, Arg)>) -> Seq<(Seq<char>, ArgModel)> {
    v.map_values(|p: (String, Arg)| (p.0@, p.1@))
}

impl View for Function {
    type V = FuncModel;

    open spec fn view(&self) -> FuncModel {
        FuncModel {
            name: self.name@,
            extern_name: self.extern_name@,
            inputs: named_args_model(self.inputs@),
            output: match self.output {
                Some(a) => Some(a@),
                None => None,
            },
        }
    }
}

/// An exported function: its Rust name, its C symbol, its named arguments and
/// its return value.
#[derive(Debug, PartialEq)]
pub struct Function {
    pub name: String,
    pub extern_name: String,
    pub inputs: Vec<(String, Arg)>,
    pub output: Option<Arg>,
}

impl Default for Function {
    /// A function with empty names, no arguments and no return value.
    fn default() -> (r: Function)
        ensures
            r.name@ == Seq::<char>::empty(),
            r.extern_name@ == Seq::<char>::empty(),
            r.inputs@ == Seq::<(String, Arg)>::empty(),
            r.output is None,
    {
        Function { name: String::new(), extern_name: String::new(), inputs: Vec::new(), output: None }
    }
}

/// The exported methods of one type.
#[derive(Debug, PartialEq)]
pub struct Implement {
    pub self_ty: String,
    pub methods: Vec<Function>,
}

impl Default for Implement {
    /// No type name and no methods.
    fn default() -> (r: Implement)
        ensures
            r.self_ty@ == Seq::<char>::empty(),
            r.methods@ == Seq::<Function>::empty(),
    {
        Implement { self_ty: String::new(), methods: Vec::new() }
    }
}

/// Everything exported: free functions and implementations.
#[derive(Debug, PartialEq)]
pub struct ABI {
    pub methods: Vec<Function>,
    pub implements: Vec<Implement>,
}

impl Default for ABI {
    /// Nothing exported.
    fn default() -> (r: ABI)
        ensures
            r.methods@ == Seq::<Function>::empty(),
            r.implements@ == Seq::<Implement>::empty(),
    {
        ABI { methods: Vec::new(), implements: Vec::new() }
    }
}

} // verus!
