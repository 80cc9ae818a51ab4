//! Reading types, patterns and function signatures from their token text
//! with syn, one syntax node at a time, into the library's model of them.
use vstd::prelude::*;
use quote::ToTokens;
use crate::derive::error::{syn_err, DResult, DeriveError};
use crate::derive::syn_model::{GenericArg, GenericArgs, PathArgs, SynFnArg, SynPat, SynSignature, SynType};

verus! {

/// The texts of a list of strings.
pub open spec fn texts(v: Seq<String>) -> Seq<Seq<char>> {
    v.map_values(|s: String| s@)
}

/// One parameter of a signature as syn reads it: a receiver, or a pattern
/// and a type, each by its text.
pub enum FnArgParts {
    Receiver { reference: bool, mutable: bool },
    Typed { pat: String, ty: String },
}

/// The value of `FnArgParts`.
pub enum FnArgPartsM {
    Receiver { reference: bool, mutable: bool },
    Typed { pat: Seq<char>, ty: Seq<char> },
}

impl View for FnArgParts {
    type V = FnArgPartsM;

    open spec fn view(&self) -> FnArgPartsM {
        match self {
            FnArgParts::Receiver { reference, mutable } => FnArgPartsM::Receiver {
                reference: *reference,
                mutable: *mutable,
            },
            FnArgParts::Typed { pat, ty } => FnArgPartsM::Typed { pat: pat@, ty: ty@ },
        }
    }
}

/// What syn reads from the text of one function parameter.
pub uninterp spec fn fn_arg_of(text: Seq<char>) -> Result<FnArgPartsM, Seq<char>>;

/// Calls `syn::parse_str::<syn::FnArg>`: a receiver by whether it is a
/// reference and whether it is `mut`, a typed parameter by the printed text
/// of its pattern and of its type, an error by the text it displays. The
/// result is named by `fn_arg_of`, a function of the text alone.
#[verifier::external_body]
fn read_fn_arg(text: &str) -> (r: Result<FnArgParts, String>)
    ensures
        match r {
            Ok(p) => fn_arg_of(text@) == Ok::<FnArgPartsM, Seq<char>>(p@),
            Err(m) => fn_arg_of(text@) == Err::<FnArgPartsM, Seq<char>>(m@),
        },
{
    match syn::parse_str::<syn::FnArg>(text) {
        Ok(syn::FnArg::Receiver(r)) => Ok(
            FnArgParts::Receiver { reference: r.reference.is_some(), mutable: r.mutability.is_some() },
        ),
        Ok(syn::FnArg::Typed(t)) => Ok(
            FnArgParts::Typed { pat: t.pat.to_token_stream().to_string(), ty: t.ty.to_token_stream().to_string() },
        ),
        Err(e) => Err(e.to_string()),
    }
}

/// A pattern as syn reads it: an identifier pattern with its flags, or any
/// other pattern; each with its printed text.
pub enum PatParts {
    Ident { name: String, mutable: bool, by_ref: bool, subpat: bool, text: String },
    Other(String),
}

/// The value of `PatParts`.
pub enum PatPartsM {
    Ident { name: Seq<char>, mutable: bool, by_ref: bool, subpat: bool, text: Seq<char> },
    Other(Seq<char>),
}

impl View for PatParts {
    type V = PatPartsM;

    open spec fn view(&self) -> PatPartsM {
        match self {
            PatParts::Ident { name, mutable, by_ref, subpat, text } => PatPartsM::Ident {
                name: name@,
                mutable: *mutable,
                by_ref: *by_ref,
                subpat: *subpat,
                text: text@,
            },
            PatParts::Other(t) => PatPartsM::Other(t@),
        }
    }
}

/// What syn reads from the text of a pattern.
pub uninterp spec fn pat_of(text: Seq<char>) -> Result<PatPartsM, Seq<char>>;

/// Calls `syn::parse_str::<syn::Pat>`: an identifier pattern by its name and
/// whether it has `mut`, `ref` and a subpattern, any other pattern by its
/// printed text, an error by the text it displays. The result is named by
/// `pat_of`, a function of the text alone.
#[verifier::external_body]
fn read_pat(text: &str) -> (r: Result<PatParts, String>)
    ensures
        match r {
            Ok(p) => pat_of(text@) == Ok::<PatPartsM, Seq<char>>(p@),
            Err(m) => pat_of(text@) == Err::<PatPartsM, Seq<char>>(m@),
        },
{
    match syn::parse_str::<syn::Pat>(text) {
        Ok(syn::Pat::Ident(p)) => Ok(PatParts::Ident {
            name: p.ident.to_string(),
            mutable: p.mutability.is_some(),
            by_ref: p.by_ref.is_some(),
            subpat: p.subpat.is_some(),
            text: p.to_token_stream().to_string(),
        }),
        Ok(p) => Ok(PatParts::Other(p.to_token_stream().to_string())),
        Err(e) => Err(e.to_string()),
    }
}

/// A type as syn reads it, one node deep, with its printed text: a
/// reference or a raw pointer with the text of the type it points to; a path
/// with the text of its first segment; or any other type.
pub enum TypeParts {
    Reference { mutable: bool, elem: String, text: String },
    Path { segment: Option<String>, text: String },
    Ptr { mutable: bool, elem: String, text: String },
    Other(String),
}

/// The value of `TypeParts`.
pub enum TypePartsM {
    Reference { mutable: bool, elem: Seq<char>, text: Seq<char> },
    Path { segment: Option<Seq<char>>, text: Seq<char> },
    Ptr { mutable: bool, elem: Seq<char>, text: Seq<char> },
    Other(Seq<char>),
}

impl View for TypeParts {
    type V = TypePartsM;

    open spec fn view(&self) -> TypePartsM {
        match self {
            TypeParts::Reference { mutable, elem, text } => TypePartsM::Reference {
                mutable: *mutable,
                elem: elem@,
                text: text@,
            },
            TypeParts::Path { segment, text } => TypePartsM::Path {
                segment: match segment {
                    Some(s) => Some(s@),
                    None => None,
                },
                text: text@,
            },
            TypeParts::Ptr { mutable, elem, text } => TypePartsM::Ptr { mutable: *mutable, elem: elem@, text: text@ },
            TypeParts::Other(t) => TypePartsM::Other(t@),
        }
    }
}

/// What syn reads from the text of a type, one node deep.
pub uninterp spec fn type_parts_of(text: Seq<char>) -> Result<TypePartsM, Seq<char>>;

/// Calls `syn::parse_str::<syn::Type>`: a reference or a raw pointer by
/// whether it is `mut` and the printed text of the type it points to, a path
/// by the printed text of its first segment, each with its own printed text;
/// an error by the text it displays. The result is named by `type_parts_of`,
/// a function of the text alone.
#[verifier::external_body]
fn read_type(text: &str) -> (r: Result<TypeParts, String>)
    ensures
        match r {
            Ok(p) => type_parts_of(text@) == Ok::<TypePartsM, Seq<char>>(p@),
            Err(m) => type_parts_of(text@) == Err::<TypePartsM, Seq<char>>(m@),
        },
{
    let t = match syn::parse_str::<syn::Type>(text) {
        Ok(t) => t,
        Err(e) => return Err(e.to_string()),
    };
    let text = t.to_token_stream().to_string();
    Ok(match t {
        syn::Type::Reference(r) => TypeParts::Reference { mutable: r.mutability.is_some(), elem: r.elem.to_token_stream().to_string(), text },
        syn::Type::Path(p) => TypeParts::Path { segment: p.path.segments.first().map(|s| s.to_token_stream().to_string()), text },
        syn::Type::Ptr(p) => TypeParts::Ptr { mutable: p.mutability.is_some(), elem: p.elem.to_token_stream().to_string(), text },
        _ => TypeParts::Other(text),
    })
}

/// The generic arguments of a path segment as syn reads them: none, angle
/// brackets by their printed text, or parentheses.
pub enum SegmentArgs {
    Empty,
    Angle(String),
    Parenthesized,
}

/// The value of `SegmentArgs`.
pub enum SegmentArgsM {
    Empty,
    Angle(Seq<char>),
    Parenthesized,
}

impl View for SegmentArgs {
    type V = SegmentArgsM;

    open spec fn view(&self) -> SegmentArgsM {
        match self {
            SegmentArgs::Empty => SegmentArgsM::Empty,
            SegmentArgs::Angle(t) => SegmentArgsM::Angle(t@),
            SegmentArgs::Parenthesized => SegmentArgsM::Parenthesized,
        }
    }
}

/// What syn reads from the text of a path segment: its identifier and its
/// generic arguments.
pub uninterp spec fn segment_of(text: Seq<char>) -> Result<(Seq<char>, SegmentArgsM), Seq<char>>;

/// Calls `syn::parse_str::<syn::PathSegment>`: the identifier, and the
/// arguments (angle-bracketed ones by their printed text); an error by the
/// text it displays. The result is named by `segment_of`, a function of the
/// text alone.
#[verifier::external_body]
fn read_segment(text: &str) -> (r: Result<(String, SegmentArgs), String>)
    ensures
        match r {
            Ok((i, a)) => segment_of(text@) == Ok::<(Seq<char>, SegmentArgsM), Seq<char>>((i@, a@)),
            Err(m) => segment_of(text@) == Err::<(Seq<char>, SegmentArgsM), Seq<char>>(m@),
        },
{
    match syn::parse_str::<syn::PathSegment>(text) {
        Ok(s) => Ok((s.ident.to_string(), match s.arguments {
            syn::PathArguments::None => SegmentArgs::Empty,
            syn::PathArguments::AngleBracketed(a) => SegmentArgs::Angle(a.to_token_stream().to_string()),
            syn::PathArguments::Parenthesized(_) => SegmentArgs::Parenthesized,
        })),
        Err(e) => Err(e.to_string()),
    }
}

/// One generic argument as syn reads it, by its printed text: a type, or
/// anything else.
pub enum GenericParts {
    Type(String),
    Other(String),
}

/// The value of `GenericParts`.
pub enum GenericPartsM {
    Type(Seq<char>),
    Other(Seq<char>),
}

impl View for GenericParts {
    type V = GenericPartsM;

    open spec fn view(&self) -> GenericPartsM {
        match self {
            GenericParts::Type(t) => GenericPartsM::Type(t@),
            GenericParts::Other(t) => GenericPartsM::Other(t@),
        }
    }
}

/// The values of a list of `GenericParts`.
pub open spec fn generic_parts_model(v: Seq<GenericParts>) -> Seq<GenericPartsM> {
    v.map_values(|g: GenericParts| g@)
}

/// What syn reads from the text of angle-bracketed generic arguments.
pub uninterp spec fn generic_parts_of(text: Seq<char>) -> Result<Seq<GenericPartsM>, Seq<char>>;

/// Calls `syn::parse_str::<syn::AngleBracketedGenericArguments>`: each
/// argument, in order, a type or not, by its printed text; an error by the
/// text it displays. The result is named by `generic_parts_of`, a function
/// of the text alone.
#[verifier::external_body]
fn read_generic_args(text: &str) -> (r: Result<Vec<GenericParts>, String>)
    ensures
        match r {
            Ok(v) => generic_parts_of(text@) == Ok::<Seq<GenericPartsM>, Seq<char>>(generic_parts_model(v@)),
            Err(m) => generic_parts_of(text@) == Err::<Seq<GenericPartsM>, Seq<char>>(m@),
        },
{
    match syn::parse_str::<syn::AngleBracketedGenericArguments>(text) {
        Ok(a) => Ok(a.args.iter().map(|g| match g {
            syn::GenericArgument::Type(t) => GenericParts::Type(t.to_token_stream().to_string()),
            other => GenericParts::Other(other.to_token_stream().to_string()),
        }).collect()),
        Err(e) => Err(e.to_string()),
    }
}

/// A function signature as syn reads it: its name, the printed text of each
/// parameter, and that of the return type, if one is written.
pub struct SigParts {
    pub ident: String,
    pub inputs: Vec<String>,
    pub output: Option<String>,
}

/// The value of `SigParts`.
pub struct SigPartsM {
    pub ident: Seq<char>,
    pub inputs: Seq<Seq<char>>,
    pub output: Option<Seq<char>>,
}

impl View for SigParts {
    type V = SigPartsM;

    open spec fn view(&self) -> SigPartsM {
        SigPartsM {
            ident: self.ident@,
            inputs: texts(self.inputs@),
            output: match self.output {
                Some(t) => Some(t@),
                None => None,
            },
        }
    }
}

/// What syn reads from the text of a function signature.
pub uninterp spec fn signature_of(text: Seq<char>) -> Result<SigPartsM, Seq<char>>;

/// Calls `syn::parse_str::<syn::Signature>`: the name, the printed text of
/// each parameter in order, and that of the return type; an error by the
/// text it displays. The result is named by `signature_of`, a function of
/// the text alone.
#[verifier::external_body]
fn read_signature(text: &str) -> (r: Result<SigParts, String>)
    ensures
        match r {
            Ok(p) => signature_of(text@) == Ok::<SigPartsM, Seq<char>>(p@),
            Err(m) => signature_of(text@) == Err::<SigPartsM, Seq<char>>(m@),
        },
{
    match syn::parse_str::<syn::Signature>(text) {
        Ok(s) => Ok(SigParts {
            ident: s.ident.to_string(),
            inputs: s.inputs.iter().map(|a| a.to_token_stream().to_string()).collect(),
            output: match s.output {
                syn::ReturnType::Default => None,
                syn::ReturnType::Type(_, t) => Some(t.to_token_stream().to_string()),
            },
        }),
        Err(e) => Err(e.to_string()),
    }
}


/// How deep the reader follows types nested in types. A type nested deeper
/// is kept whole, by its text, as `SynType::Other`.
pub const NESTING_LIMIT: u64 = 0xffff_ffff_ffff_ffff;

/// The first error met reading the type with text `text`, following nested
/// types `fuel` levels deep: reading the node, its first path segment, its
/// generic arguments, then the nested types in order.
pub open spec fn type_err(text: Seq<char>, fuel: nat) -> Option<Seq<char>>
    decreases fuel, 0nat,
{
    if fuel == 0 {
        None
    } else {
        match type_parts_of(text) {
            Err(m) => Some(m),
            Ok(TypePartsM::Reference { elem, .. }) => type_err(elem, (fuel - 1) as nat),
            Ok(TypePartsM::Ptr { elem, .. }) => type_err(elem, (fuel - 1) as nat),
            Ok(TypePartsM::Path { segment: Some(seg), .. }) => match segment_of(seg) {
                Err(m) => Some(m),
                Ok((_, SegmentArgsM::Angle(at))) => match generic_parts_of(at) {
                    Err(m) => Some(m),
                    Ok(parts) => args_err(parts, (fuel - 1) as nat),
                },
                Ok(_) => None,
            },
            Ok(_) => None,
        }
    }
}

/// The first error met reading the generic arguments `parts`, in order.
pub open spec fn args_err(parts: Seq<GenericPartsM>, fuel: nat) -> Option<Seq<char>>
    decreases fuel, parts.len() + 1,
{
    if parts.len() == 0 {
        None
    } else {
        let head = match parts[0] {
            GenericPartsM::Type(t) => type_err(t, fuel),
            GenericPartsM::Other(_) => None,
        };
        if head is Some {
            head
        } else {
            args_err(parts.drop_first(), fuel)
        }
    }
}

/// `t` is the type read from the text `text`, nested types followed `fuel`
/// levels deep: each node as syn reads it, with its printed text; a path by
/// the identifier and arguments of its first segment; a path without
/// segments, like any other type, by its text alone.
pub open spec fn type_is(text: Seq<char>, fuel: nat, t: SynType) -> bool
    decreases fuel, 0nat,
{
    if fuel == 0 {
        t matches SynType::Other { text: x } && x@ == text
    } else {
        match type_parts_of(text) {
            Err(_) => false,
            Ok(TypePartsM::Reference { mutable, elem, text: tx }) => t matches SynType::Reference {
                mutable: m,
                elem: e,
                text: x,
            } && m == mutable && x@ == tx && type_is(elem, (fuel - 1) as nat, *e),
            Ok(TypePartsM::Ptr { mutable, elem, text: tx }) => t matches SynType::Ptr { mutable: m, elem: e, text: x }
                && m == mutable && x@ == tx && type_is(elem, (fuel - 1) as nat, *e),
            Ok(TypePartsM::Path { segment: None, text: tx }) => t matches SynType::Other { text: x } && x@ == tx,
            Ok(TypePartsM::Path { segment: Some(seg), text: tx }) => match segment_of(seg) {
                Err(_) => false,
                Ok((id, SegmentArgsM::Empty)) => t matches SynType::Path { first, args: PathArgs::Empty, text: x }
                    && first@ == id && x@ == tx,
                Ok((id, SegmentArgsM::Parenthesized)) => t matches SynType::Path {
                    first,
                    args: PathArgs::Parenthesized,
                    text: x,
                } && first@ == id && x@ == tx,
                Ok((id, SegmentArgsM::Angle(at))) => match generic_parts_of(at) {
                    Err(_) => false,
                    Ok(parts) => t matches SynType::Path { first, args: PathArgs::AngleBracketed(list), text: x }
                        && first@ == id && x@ == tx && args_are(parts, (fuel - 1) as nat, *list),
                },
            },
            Ok(TypePartsM::Other(tx)) => t matches SynType::Other { text: x } && x@ == tx,
        }
    }
}

/// `a` is the list of generic arguments read from `parts`, in order: a type
/// argument as `type_is` reads it, any other by its text.
pub open spec fn args_are(parts: Seq<GenericPartsM>, fuel: nat, a: GenericArgs) -> bool
    decreases fuel, parts.len() + 1,
{
    if parts.len() == 0 {
        a is Nil
    } else {
        a matches GenericArgs::Cons(h, rest) && (match parts[0] {
            GenericPartsM::Type(t) => h matches GenericArg::Type(ht) && type_is(t, fuel, ht),
            GenericPartsM::Other(x) => h matches GenericArg::Other(s) && s@ == x,
        }) && args_are(parts.drop_first(), fuel, *rest)
    }
}

/// Reads the type with text `text`, following nested types `fuel` levels
/// deep.
pub fn read_type_model(text: &str, fuel: u64) -> (r: DResult<SynType>)
    ensures
        match r {
            Ok(t) => type_err(text@, fuel as nat) is None && type_is(text@, fuel as nat, t),
            Err(e) => type_err(text@, fuel as nat) matches Some(m) && syn_err(e, m),
        },
    decreases fuel, 0nat,
{
    if fuel == 0 {
        return Ok(SynType::Other { text: text.to_owned() });
    }
    match read_type(text) {
        Err(m) => Err(DeriveError::SynErr(m)),
        Ok(TypeParts::Reference { mutable, elem, text }) => match read_type_model(elem.as_str(), fuel - 1) {
            Ok(e) => Ok(SynType::Reference { mutable, elem: Box::new(e), text }),
            Err(e) => Err(e),
        },
        Ok(TypeParts::Ptr { mutable, elem, text }) => match read_type_model(elem.as_str(), fuel - 1) {
            Ok(e) => Ok(SynType::Ptr { mutable, elem: Box::new(e), text }),
            Err(e) => Err(e),
        },
        Ok(TypeParts::Path { segment: None, text }) => Ok(SynType::Other { text }),
        Ok(TypeParts::Path { segment: Some(seg), text }) => match read_segment(seg.as_str()) {
            Err(m) => Err(DeriveError::SynErr(m)),
            Ok((first, SegmentArgs::Empty)) => Ok(SynType::Path { first, args: PathArgs::Empty, text }),
            Ok((first, SegmentArgs::Parenthesized)) => Ok(SynType::Path { first, args: PathArgs::Parenthesized, text }),
            Ok((first, SegmentArgs::Angle(at))) => match read_generic_args(at.as_str()) {
                Err(m) => Err(DeriveError::SynErr(m)),
                Ok(parts) => {
                    proof {
                        assert(generic_parts_model(parts@).subrange(0, parts@.len() as int) =~= generic_parts_model(parts@));
                    }
                    match read_args_model(&parts, 0, fuel - 1) {
                        Ok(list) => Ok(SynType::Path { first, args: PathArgs::AngleBracketed(Box::new(list)), text }),
                        Err(e) => Err(e),
                    }
                },
            },
        },
        Ok(TypeParts::Other(text)) => Ok(SynType::Other { text }),
    }
}

/// Reads the generic arguments `parts` from the `i`-th on.
fn read_args_model(parts: &Vec<GenericParts>, i: usize, fuel: u64) -> (r: DResult<GenericArgs>)
    requires
        i <= parts@.len(),
    ensures
        match r {
            Ok(a) => args_err(generic_parts_model(parts@).subrange(i as int, parts@.len() as int), fuel as nat) is None
                && args_are(generic_parts_model(parts@).subrange(i as int, parts@.len() as int), fuel as nat, a),
            Err(e) => args_err(generic_parts_model(parts@).subrange(i as int, parts@.len() as int), fuel as nat) matches Some(m)
                && syn_err(e, m),
        },
    decreases fuel, parts@.len() - i + 1,
{
    let ghost rest = generic_parts_model(parts@).subrange(i as int, parts@.len() as int);
    if i == parts.len() {
        return Ok(GenericArgs::Nil);
    }
    proof {
        assert(rest[0] == parts@[i as int]@);
        assert(rest.drop_first() =~= generic_parts_model(parts@).subrange(i + 1, parts@.len() as int));
    }
    let head = match &parts[i] {
        GenericParts::Type(t) => match read_type_model(t.as_str(), fuel) {
            Ok(ht) => GenericArg::Type(ht),
            Err(e) => {
                return Err(e);
            },
        },
        GenericParts::Other(x) => GenericArg::Other(x.clone()),
    };
    match read_args_model(parts, i + 1, fuel) {
        Ok(tail) => Ok(GenericArgs::Cons(head, Box::new(tail))),
        Err(e) => Err(e),
    }
}

/// `p` is the pattern read from the text `text`: a plain identifier
/// pattern (no `ref`, no subpattern) by its name and whether it is `mut`,
/// any other pattern by its printed text.
pub open spec fn pat_is(text: Seq<char>, p: SynPat) -> bool {
    match pat_of(text) {
        Err(_) => false,
        Ok(PatPartsM::Ident { name, mutable, by_ref, subpat, text: tx }) => if !by_ref && !subpat {
            p matches SynPat::Ident { name: n, mutable: m } && n@ == name && m == mutable
        } else {
            p matches SynPat::Other(x) && x@ == tx
        },
        Ok(PatPartsM::Other(tx)) => p matches SynPat::Other(x) && x@ == tx,
    }
}

/// Reads the pattern with text `text`.
fn read_pat_model(text: &str) -> (r: DResult<SynPat>)
    ensures
        match r {
            Ok(p) => pat_of(text@) is Ok && pat_is(text@, p),
            Err(e) => pat_of(text@) matches Err(m) && syn_err(e, m),
        },
{
    match read_pat(text) {
        Err(m) => Err(DeriveError::SynErr(m)),
        Ok(PatParts::Ident { name, mutable, by_ref, subpat, text }) => if !by_ref && !subpat {
            Ok(SynPat::Ident { name, mutable })
        } else {
            Ok(SynPat::Other(text))
        },
        Ok(PatParts::Other(text)) => Ok(SynPat::Other(text)),
    }
}

/// The first error met reading the parameter with text `text`: reading the
/// parameter, then its pattern, then its type.
pub open spec fn arg_err(text: Seq<char>, fuel: nat) -> Option<Seq<char>> {
    match fn_arg_of(text) {
        Err(m) => Some(m),
        Ok(FnArgPartsM::Receiver { .. }) => None,
        Ok(FnArgPartsM::Typed { pat, ty }) => match pat_of(pat) {
            Err(m) => Some(m),
            Ok(_) => type_err(ty, fuel),
        },
    }
}

/// `a` is the parameter read from the text `text`.
pub open spec fn arg_is(text: Seq<char>, fuel: nat, a: SynFnArg) -> bool {
    match fn_arg_of(text) {
        Err(_) => false,
        Ok(FnArgPartsM::Receiver { reference, mutable }) => a matches SynFnArg::Receiver {
            reference: r,
            mutable: m,
        } && r == reference && m == mutable,
        Ok(FnArgPartsM::Typed { pat, ty }) => a matches SynFnArg::Typed { pat: p, ty: t } && pat_is(pat, p)
            && type_is(ty, fuel, t),
    }
}

/// Reads the parameter with text `text`.
fn read_arg_model(text: &str, fuel: u64) -> (r: DResult<SynFnArg>)
    ensures
        match r {
            Ok(a) => arg_err(text@, fuel as nat) is None && arg_is(text@, fuel as nat, a),
            Err(e) => arg_err(text@, fuel as nat) matches Some(m) && syn_err(e, m),
        },
{
    match read_fn_arg(text) {
        Err(m) => Err(DeriveError::SynErr(m)),
        Ok(FnArgParts::Receiver { reference, mutable }) => Ok(SynFnArg::Receiver { reference, mutable }),
        Ok(FnArgParts::Typed { pat, ty }) => {
            let p = match read_pat_model(pat.as_str()) {
                Ok(p) => p,
                Err(e) => {
                    return Err(e);
                },
            };
            match read_type_model(ty.as_str(), fuel) {
                Ok(t) => Ok(SynFnArg::Typed { pat: p, ty: t }),
                Err(e) => Err(e),
            }
        },
    }
}

/// The first error met reading the parameters with texts `args`, in order.
pub open spec fn inputs_err(args: Seq<Seq<char>>, fuel: nat) -> Option<Seq<char>>
    decreases args.len(),
{
    if args.len() == 0 {
        None
    } else {
        match inputs_err(args.drop_last(), fuel) {
            Some(m) => Some(m),
            None => arg_err(args.last(), fuel),
        }
    }
}

proof fn lemma_inputs_err_prefix(args: Seq<Seq<char>>, fuel: nat, i: int)
    requires
        0 <= i <= args.len(),
        inputs_err(args.take(i), fuel) is Some,
    ensures
        inputs_err(args, fuel) == inputs_err(args.take(i), fuel),
    decreases args.len(),
{
    if i < args.len() {
        assert(args.drop_last().take(i) =~= args.take(i));
        lemma_inputs_err_prefix(args.drop_last(), fuel, i);
    } else {
        assert(args.take(i) =~= args);
    }
}

/// The first error met reading the signature with text `text`: reading the
/// signature, then its parameters in order, then its return type.
pub open spec fn sig_err(text: Seq<char>, fuel: nat) -> Option<Seq<char>> {
    match signature_of(text) {
        Err(m) => Some(m),
        Ok(p) => match inputs_err(p.inputs, fuel) {
            Some(m) => Some(m),
            None => match p.output {
                None => None,
                Some(t) => type_err(t, fuel),
            },
        },
    }
}

/// `s` is the signature read from the text `text`: its name, each parameter
/// as `arg_is` reads it, and its return type, none where none is written.
pub open spec fn sig_is(text: Seq<char>, fuel: nat, s: SynSignature) -> bool {
    match signature_of(text) {
        Err(_) => false,
        Ok(p) => {
            &&& s.ident@ == p.ident
            &&& s.inputs@.len() == p.inputs.len()
            &&& forall|i: int| 0 <= i < p.inputs.len() ==> arg_is(p.inputs[i], fuel, #[trigger] s.inputs@[i])
            &&& match p.output {
                None => s.output is None,
                Some(t) => s.output matches Some(o) && type_is(t, fuel, o),
            }
        },
    }
}

/// Reads the signature with text `text`, following nested types `fuel`
/// levels deep.
pub fn read_signature_model(text: &str, fuel: u64) -> (r: DResult<SynSignature>)
    ensures
        match r {
            Ok(s) => sig_err(text@, fuel as nat) is None && sig_is(text@, fuel as nat, s),
            Err(e) => sig_err(text@, fuel as nat) matches Some(m) && syn_err(e, m),
        },
{
    let parts = match read_signature(text) {
        Ok(p) => p,
        Err(m) => {
            return Err(DeriveError::SynErr(m));
        },
    };
    let ghost args = texts(parts.inputs@);
    let mut inputs: Vec<SynFnArg> = Vec::new();
    let mut i: usize = 0;
    while i < parts.inputs.len()
        invariant
            0 <= i <= parts.inputs@.len(),
            args == texts(parts.inputs@),
            signature_of(text@) == Ok::<SigPartsM, Seq<char>>(parts@),
            inputs_err(args.take(i as int), fuel as nat) is None,
            inputs@.len() == i,
            forall|j: int| 0 <= j < i ==> arg_is(args[j], fuel as nat, #[trigger] inputs@[j]),
        decreases parts.inputs@.len() - i,
    {
        proof {
            assert(args.take(i + 1).drop_last() =~= args.take(i as int));
            assert(args.take(i + 1).last() == parts.inputs@[i as int]@);
        }
        let a = match read_arg_model(parts.inputs[i].as_str(), fuel) {
            Ok(a) => a,
            Err(e) => {
                proof {
                    lemma_inputs_err_prefix(args, fuel as nat, i + 1);
                }
                return Err(e);
            },
        };
        inputs.push(a);
        i = i + 1;
    }
    proof {
        assert(args.take(i as int) =~= args);
    }
    let output = match &parts.output {
        None => None,
        Some(t) => match read_type_model(t.as_str(), fuel) {
            Ok(o) => Some(o),
            Err(e) => {
                return Err(e);
            },
        },
    };
    Ok(SynSignature { ident: parts.ident, inputs, output })
}

/// The first error met reading the signatures with texts `sigs`, in order.
pub open spec fn sigs_err(sigs: Seq<Seq<char>>, fuel: nat) -> Option<Seq<char>>
    decreases sigs.len(),
{
    if sigs.len() == 0 {
        None
    } else {
        match sigs_err(sigs.drop_last(), fuel) {
            Some(m) => Some(m),
            None => sig_err(sigs.last(), fuel),
        }
    }
}

proof fn lemma_sigs_err_prefix(sigs: Seq<Seq<char>>, fuel: nat, i: int)
    requires
        0 <= i <= sigs.len(),
        sigs_err(sigs.take(i), fuel) is Some,
    ensures
        sigs_err(sigs, fuel) == sigs_err(sigs.take(i), fuel),
    decreases sigs.len(),
{
    if i < sigs.len() {
        assert(sigs.drop_last().take(i) =~= sigs.take(i));
        lemma_sigs_err_prefix(sigs.drop_last(), fuel, i);
    } else {
        assert(sigs.take(i) =~= sigs);
    }
}

/// `v` are the signatures read from the texts `sigs`, in order.
pub open spec fn sigs_are(sigs: Seq<Seq<char>>, fuel: nat, v: Seq<SynSignature>) -> bool {
    &&& v.len() == sigs.len()
    &&& forall|i: int| 0 <= i < sigs.len() ==> sig_is(sigs[i], fuel, #[trigger] v[i])
}

/// Reads the signatures with texts `sigs`, in order, stopping at the first
/// error.
pub fn read_signatures(sigs: &Vec<String>, fuel: u64) -> (r: DResult<Vec<SynSignature>>)
    ensures
        match r {
            Ok(v) => sigs_err(texts(sigs@), fuel as nat) is None && sigs_are(texts(sigs@), fuel as nat, v@),
            Err(e) => sigs_err(texts(sigs@), fuel as nat) matches Some(m) && syn_err(e, m),
        },
{
    let ghost all = texts(sigs@);
    let mut v: Vec<SynSignature> = Vec::new();
    let mut i: usize = 0;
    while i < sigs.len()
        invariant
            0 <= i <= sigs@.len(),
            all == texts(sigs@),
            sigs_err(all.take(i as int), fuel as nat) is None,
            v@.len() == i,
            forall|j: int| 0 <= j < i ==> sig_is(all[j], fuel as nat, #[trigger] v@[j]),
        decreases sigs@.len() - i,
    {
        proof {
            assert(all.take(i + 1).drop_last() =~= all.take(i as int));
            assert(all.take(i + 1).last() == sigs@[i as int]@);
        }
        let s = match read_signature_model(sigs[i].as_str(), fuel) {
            Ok(s) => s,
            Err(e) => {
                proof {
                    lemma_sigs_err_prefix(all, fuel as nat, i + 1);
                }
                return Err(e);
            },
        };
        v.push(s);
        i = i + 1;
    }
    proof {
        assert(all.take(i as int) =~= all);
    }
    Ok(v)
}

} // verus!
