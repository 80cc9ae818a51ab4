//! The parts of parsed Rust syntax that the generators read: types, argument
//! patterns and function signatures. Token text is kept as the token stream
//! prints it.
use vstd::prelude::*;

verus! {

/// A type as written in a signature. Each variant keeps the text of the
/// whole type.
#[derive(Debug, PartialEq)]
pub enum SynType {
    /// `&T` or `&mut T`.
    Reference { mutable: bool, elem: Box<SynType>, text: String },
    /// A path type: the identifier and generic arguments of its first segment.
    Path { first: String, args: PathArgs, text: String },
    /// A raw pointer type, `*const T` or `*mut T`.
    Ptr { mutable: bool, elem: Box<SynType>, text: String },
    /// Any other type.
    Other { text: String },
}

/// The generic arguments of a path segment.
#[derive(Debug, PartialEq)]
pub enum PathArgs {
    /// No arguments.
    Empty,
    /// `<...>` arguments.
    AngleBracketed(Box<GenericArgs>),
    /// `(...)` arguments, as in `Fn(A) -> B`.
    Parenthesized,
}

/// A list of generic arguments, first to last.
#[derive(Debug, PartialEq)]
pub enum GenericArgs {
    Nil,
    Cons(GenericArg, Box<GenericArgs>),
}

impl GenericArgs {
    /// The number of arguments.
    pub open spec fn len(self) -> nat
        decreases self,
    {
        match self {
            GenericArgs::Nil => 0,
            GenericArgs::Cons(_, rest) => 1 + rest.len(),
        }
    }

    /// The number of arguments.
    pub fn count(&self) -> (r: usize)
        requires
            self.len() <= usize::MAX,
        ensures
            r == self.len(),
        decreases self,
    {
        match self {
            GenericArgs::Nil => 0,
            GenericArgs::Cons(_, rest) => 1 + rest.count(),
        }
    }

    /// A copy of the list.
    pub fn duplicate(&self) -> (r: GenericArgs)
        ensures
            r == *self,
        decreases self,
    {
        match self {
            GenericArgs::Nil => GenericArgs::Nil,
            GenericArgs::Cons(a, rest) => GenericArgs::Cons(
                match a {
                    GenericArg::Type(t) => GenericArg::Type(t.duplicate()),
                    GenericArg::Other(s) => GenericArg::Other(s.clone()),
                },
                Box::new(rest.duplicate()),
            ),
        }
    }
}

/// One generic argument.
#[derive(Debug, PartialEq)]
pub enum GenericArg {
    /// A type argument.
    Type(SynType),
    /// A lifetime, constant, binding or constraint, by its text.
    Other(String),
}

/// The pattern that binds an argument.
#[derive(Debug, PartialEq)]
pub enum SynPat {
    /// A plain binding `name` or `mut name`.
    Ident { name: String, mutable: bool },
    /// Any other pattern, by its text.
    Other(String),
}

/// One parameter of a function signature.
#[derive(Debug, PartialEq)]
pub enum SynFnArg {
    /// `self`, `&self` or `&mut self`.
    Receiver { reference: bool, mutable: bool },
    /// `pattern: Type`.
    Typed { pat: SynPat, ty: SynType },
}

/// A function signature: name, parameters and return type (none for `()`).
#[derive(Debug, PartialEq)]
pub struct SynSignature {
    pub ident: String,
    pub inputs: Vec<SynFnArg>,
    pub output: Option<SynType>,
}

impl SynType {
    /// The text of the type.
    pub open spec fn printed(self) -> Seq<char> {
        match self {
            SynType::Reference { text, .. } => text@,
            SynType::Path { text, .. } => text@,
            SynType::Ptr { text, .. } => text@,
            SynType::Other { text } => text@,
        }
    }

    /// The text of the type.
    pub fn text(&self) -> (r: &String)
        ensures
            r@ == self.printed(),
    {
        match self {
            SynType::Reference { text, .. } => text,
            SynType::Path { text, .. } => text,
            SynType::Ptr { text, .. } => text,
            SynType::Other { text } => text,
        }
    }

    /// A copy of the type.
    pub fn duplicate(&self) -> (r: SynType)
        ensures
            r == *self,
        decreases self,
    {
        match self {
            SynType::Reference { mutable, elem, text } => SynType::Reference {
                mutable: *mutable,
                elem: Box::new(elem.duplicate()),
                text: text.clone(),
            },
            SynType::Path { first, args, text } => SynType::Path {
                first: first.clone(),
                args: match args {
                    PathArgs::Empty => PathArgs::Empty,
                    PathArgs::AngleBracketed(v) => PathArgs::AngleBracketed(Box::new(v.duplicate())),
                    PathArgs::Parenthesized => PathArgs::Parenthesized,
                },
                text: text.clone(),
            },
            SynType::Ptr { mutable, elem, text } => SynType::Ptr {
                mutable: *mutable,
                elem: Box::new(elem.duplicate()),
                text: text.clone(),
            },
            SynType::Other { text } => SynType::Other { text: text.clone() },
        }
    }
}

impl SynSignature {
    /// A copy of the signature.
    pub fn duplicate(&self) -> (r: SynSignature)
        ensures
            r.ident@ == self.ident@,
            r.inputs@ == self.inputs@,
            r.output == self.output,
    {
        let mut inputs: Vec<SynFnArg> = Vec::new();
        let mut i: usize = 0;
        while i < self.inputs.len()
            invariant
                0 <= i <= self.inputs@.len(),
                inputs@ == self.inputs@.take(i as int),
            decreases self.inputs@.len() - i,
        {
            inputs.push(self.inputs[i].duplicate());
            i = i + 1;
            assert(inputs@ =~= self.inputs@.take(i as int));
        }
        assert(self.inputs@.take(self.inputs@.len() as int) =~= self.inputs@);
        SynSignature {
            ident: self.ident.clone(),
            inputs,
            output: match &self.output {
                Some(t) => Some(t.duplicate()),
                None => None,
            },
        }
    }
}

impl SynPat {
    /// A copy of the pattern.
    pub fn duplicate(&self) -> (r: SynPat)
        ensures
            r == *self,
    {
        match self {
            SynPat::Ident { name, mutable } => SynPat::Ident { name: name.clone(), mutable: *mutable },
            SynPat::Other(s) => SynPat::Other(s.clone()),
        }
    }
}

impl SynFnArg {
    /// A copy of the parameter.
    pub fn duplicate(&self) -> (r: SynFnArg)
        ensures
            r == *self,
    {
        match self {
            SynFnArg::Receiver { reference, mutable } => SynFnArg::Receiver {
                reference: *reference,
                mutable: *mutable,
            },
            SynFnArg::Typed { pat, ty } => SynFnArg::Typed { pat: pat.duplicate(), ty: ty.duplicate() },
        }
    }
}

} // verus!
