//! Rust types with integer widths, vectors and objects spelled out.
use vstd::prelude::*;
use crate::base::output_file::{Argument, Function};
use crate::text::concat;

verus! {

/// A Rust type.
#[derive(Debug, PartialEq)]
pub enum RustTypes {
    /// A signed integer type, by name.
    ISize(String),
    /// An unsigned integer type, by name.
    USize(String),
    Boolean,
    /// A string type, by name.
    String(String),
    /// A vector; its element types are listed (joined by commas when written).
    Vector(Vec<Box<RustTypes>>),
    Result(Box<RustTypes>, Box<RustTypes>),
    Option(Box<RustTypes>),
    /// A plain object type, by name.
    PrimitiveObject(String),
    /// A generic object type, by name.
    GenericObject(String),
}

/// The Rust spelling of a type.
pub open spec fn type_text(t: RustTypes) -> Seq<char>
    decreases t, 0nat,
{
    match t {
        RustTypes::Boolean => "bool"@,
        RustTypes::ISize(s) => s@,
        RustTypes::USize(s) => s@,
        RustTypes::PrimitiveObject(s) => s@,
        RustTypes::GenericObject(s) => s@,
        RustTypes::String(s) => s@,
        RustTypes::Vector(inner) => "Vec<"@ + list_text(inner, inner@.len()) + ">"@,
        RustTypes::Result(l, r) => "Result<"@ + type_text(*l) + ", "@ + type_text(*r) + ">"@,
        RustTypes::Option(s) => "Option<"@ + type_text(*s) + ">"@,
    }
}

/// The spellings of the first `k` types of a list, joined by `, `.
pub open spec fn list_text(v: Vec<Box<RustTypes>>, k: nat) -> Seq<char>
    decreases v, k,
{
    if k == 0 || k > v@.len() {
        Seq::empty()
    } else if k == 1 {
        proof {
            assert(decreases_to!(v => v@));
            assert(decreases_to!(v@ => v@[0]));
        }
        type_text(*v@[0])
    } else {
        proof {
            assert(decreases_to!(v => v@));
            assert(decreases_to!(v@ => v@[k - 1]));
        }
        list_text(v, (k - 1) as nat) + ", "@ + type_text(*v@[k - 1])
    }
}

impl RustTypes {
    /// The Rust spelling of the type (`Vec<A, B>`, `Result<T, E>`, `Option<T>`, ...).
    pub fn to_string(&self) -> (r: String)
        ensures
            r@ == type_text(*self),
        decreases self,
    {
        match self {
            RustTypes::Boolean => "bool".to_owned(),
            RustTypes::ISize(s) => s.clone(),
            RustTypes::USize(s) => s.clone(),
            RustTypes::PrimitiveObject(s) => s.clone(),
            RustTypes::GenericObject(s) => s.clone(),
            RustTypes::String(s) => s.clone(),
            RustTypes::Vector(inner) => {
                let mut joined = String::new();
                let mut i: usize = 0;
                while i < inner.len()
                    invariant
                        0 <= i <= inner@.len(),
                        joined@ == list_text(*inner, i as nat),
                        *self == RustTypes::Vector(*inner),
                    decreases inner@.len() - i,
                {
                    proof {
                        let v = *inner;
                        assert(*self == RustTypes::Vector(v));
                        assert(decreases_to!(*self => (*self)->Vector_0));
                        assert(decreases_to!(v => v@));
                        assert(decreases_to!(v@ => v@[i as int]));
                    }
                    let t = inner[i].to_string();
                    if i > 0 {
                        joined.append(", ");
                    }
                    joined.append(t.as_str());
                    i = i + 1;
                }
                let mut r = concat("Vec<", joined.as_str());
                r.append(">");
                r
            },
            RustTypes::Result(l, r) => {
                let a = l.to_string();
                let b = r.to_string();
                let mut s = concat("Result<", a.as_str());
                s.append(", ");
                s.append(b.as_str());
                s.append(">");
                s
            },
            RustTypes::Option(s) => {
                let a = s.to_string();
                let mut r = concat("Option<", a.as_str());
                r.append(">");
                r
            },
        }
    }
}

/// A named argument.
#[derive(Debug, PartialEq)]
pub struct RustArgument {
    name: String,
    ty: RustTypes,
}

impl RustArgument {
    /// An argument of the given name and type.
    pub fn new(name: String, ty: RustTypes) -> (r: RustArgument)
        ensures
            r.name() == name@,
            r.ty() == ty,
    {
        RustArgument { name, ty }
    }

    /// The name.
    pub closed spec fn name(&self) -> Seq<char> {
        self.name@
    }

    /// The type.
    pub closed spec fn ty(&self) -> RustTypes {
        self.ty
    }
}

impl Argument<RustTypes> for RustArgument {
    fn get_name(&self) -> (r: &str)
        ensures
            r@ == self.name(),
    {
        self.name.as_str()
    }

    fn get_type(&self) -> (r: &RustTypes)
        ensures
            *r == self.ty(),
    {
        &self.ty
    }
}

/// A named function with its arguments.
#[derive(Debug, PartialEq)]
pub struct RustFunction {
    name: String,
    args: Vec<RustArgument>,
}

impl RustFunction {
    /// A function of the given name and arguments.
    pub fn new(name: String, args: Vec<RustArgument>) -> (r: RustFunction)
        ensures
            r.name() == name@,
            r.args() == args@,
    {
        RustFunction { name, args }
    }

    /// The name.
    pub closed spec fn name(&self) -> Seq<char> {
        self.name@
    }

    /// The arguments.
    pub closed spec fn args(&self) -> Seq<RustArgument> {
        self.args@
    }
}

impl Function<RustArgument, RustTypes> for RustFunction {
    fn get_name(&self) -> (r: &str)
        ensures
            r@ == self.name(),
    {
        self.name.as_str()
    }

    fn get_args(&self) -> (r: &Vec<RustArgument>)
        ensures
            r@ == self.args(),
    {
        &self.args
    }
}

} // verus!
