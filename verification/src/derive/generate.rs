//! Rewriting Rust signatures into C-callable wrappers.
use vstd::prelude::*;
use crate::derive::error::{syn_err, DResult, DeriveError};
use crate::derive::syn_model::{GenericArg, GenericArgs, PathArgs, SynFnArg, SynPat, SynSignature, SynType};
use crate::text::{concat, str_eq};
use crate::util::{snake_case, to_snake_case};

verus! {

/// Reported for a `Result` whose arguments are not two types.
pub const RESULT_LIFETIME: &'static str = "Result should not have lifetime";

/// Reported for an `Option` whose argument is not a type.
pub const OPTION_LIFETIME: &'static str = "Option should not have lifetime";

/// Reported for a `Result` or `Option` without `<...>` arguments.
pub const EXPECTED_GENERICS: &'static str = "Expected generic arguments after Result or Option";

/// Reported for a receiver in a free function.
pub const SELF_IN_ITEM_FN: &'static str = "Cannot have self in item fn";

/// Reported when the implemented type is not a path.
pub const NO_SELF_TYPE_NAME: &'static str = "Failed to get self type name";

/// Whether a type name is one of Rust's primitive scalar types.
pub open spec fn is_primitive_name(n: Seq<char>) -> bool {
    n == "i8"@ || n == "i16"@ || n == "i32"@ || n == "i64"@ || n == "i128"@ || n == "isize"@
        || n == "u8"@ || n == "u16"@ || n == "u32"@ || n == "u64"@ || n == "u128"@ || n
        == "usize"@ || n == "f32"@ || n == "f64"@ || n == "bool"@ || n == "char"@
}

/// Whether a type name is one of Rust's primitive scalar types.
pub fn primitive_name(n: &str) -> (r: bool)
    ensures
        r == is_primitive_name(n@),
{
    str_eq(n, "i8") || str_eq(n, "i16") || str_eq(n, "i32") || str_eq(n, "i64") || str_eq(n, "i128")
        || str_eq(n, "isize") || str_eq(n, "u8") || str_eq(n, "u16") || str_eq(n, "u32")
        || str_eq(n, "u64") || str_eq(n, "u128") || str_eq(n, "usize") || str_eq(n, "f32")
        || str_eq(n, "f64") || str_eq(n, "bool") || str_eq(n, "char")
}

/// Whether the pointer conversion reads only generic arguments that are
/// there, up to its first error: an `Option<...>` has a first argument, and a
/// second one when the first is not a type (its error is reported at the
/// second); the second argument of a `Result` is read only when the first
/// converts.
pub open spec fn ptr_convertible(t: SynType) -> bool
    decreases t,
{
    match t {
        SynType::Reference { elem, .. } => ptr_convertible(*elem),
        SynType::Path { first, args, .. } => {
            if first@ == "Result"@ {
                match args {
                    PathArgs::AngleBracketed(a) => match *a {
                        GenericArgs::Cons(a0, rest) => match *rest {
                            GenericArgs::Cons(a1, rest2) => (*rest2 is Nil) ==> match a0 {
                                GenericArg::Type(t0) => ptr_convertible(t0) && (ptr_text(t0) is Ok ==> match a1 {
                                    GenericArg::Type(t1) => ptr_convertible(t1),
                                    _ => true,
                                }),
                                _ => true,
                            },
                            _ => true,
                        },
                        _ => true,
                    },
                    _ => true,
                }
            } else if first@ == "Option"@ {
                match args {
                    PathArgs::AngleBracketed(a) => match *a {
                        GenericArgs::Cons(a0, rest) => match a0 {
                            GenericArg::Type(t0) => ptr_convertible(t0),
                            _ => *rest is Cons,
                        },
                        GenericArgs::Nil => false,
                    },
                    _ => true,
                }
            } else {
                true
            }
        },
        _ => true,
    }
}

/// The C-side type of a Rust type, as text: references are looked through,
/// `Result<T, E>` becomes `*mut CResult<*mut T', *mut E'>`, `Option<T>`
/// becomes `*mut T'`, primitives stay, strings become `*mut
/// std::os::raw::c_char`, raw pointers stay, and any other type `X...`
/// becomes `*mut X` (the first path segment). Errors carry their message.
pub open spec fn ptr_text(t: SynType) -> Result<Seq<char>, Seq<char>>
    decreases t,
{
    match t {
        SynType::Reference { elem, .. } => ptr_text(*elem),
        SynType::Path { first, args, text } => {
            if first@ == "Result"@ {
                match args {
                    PathArgs::AngleBracketed(a) => {
                        if a.len() != 2 {
                            Err(RESULT_LIFETIME@)
                        } else {
                            match *a {
                                GenericArgs::Cons(a0, rest) => match *rest {
                                    GenericArgs::Cons(a1, _) => match a0 {
                                        GenericArg::Type(t0) => match ptr_text(t0) {
                                            Ok(s0) => match a1 {
                                                GenericArg::Type(t1) => match ptr_text(t1) {
                                                    Ok(s1) => Ok("*mut CResult<*mut "@ + s0 + ", *mut "@
                                                        + s1 + ">"@),
                                                    Err(e) => Err(e),
                                                },
                                                _ => Err(RESULT_LIFETIME@),
                                            },
                                            Err(e) => Err(e),
                                        },
                                        _ => Err(RESULT_LIFETIME@),
                                    },
                                    _ => Err(RESULT_LIFETIME@),
                                },
                                _ => Err(RESULT_LIFETIME@),
                            }
                        }
                    },
                    _ => Err(EXPECTED_GENERICS@),
                }
            } else if first@ == "Option"@ {
                match args {
                    PathArgs::AngleBracketed(a) => match *a {
                        GenericArgs::Cons(GenericArg::Type(t0), _) => match ptr_text(t0) {
                            Ok(s) => Ok("*mut "@ + s),
                            Err(e) => Err(e),
                        },
                        _ => Err(OPTION_LIFETIME@),
                    },
                    _ => Err(EXPECTED_GENERICS@),
                }
            } else if is_primitive_name(first@) {
                Ok(text@)
            } else if first@ == "String"@ || first@ == "str"@ {
                Ok("*mut std::os::raw::c_char"@)
            } else {
                Ok("*mut "@ + first@)
            }
        },
        SynType::Ptr { text, .. } => Ok(text@),
        SynType::Other { text } => Ok("*mut "@ + text@),
    }
}

/// A generation result of text agrees with a specified result.
pub open spec fn text_result(r: DResult<String>, s: Result<Seq<char>, Seq<char>>) -> bool {
    match r {
        Ok(x) => s == Ok::<Seq<char>, Seq<char>>(x@),
        Err(e) => s is Err && syn_err(e, s->Err_0),
    }
}

/// The C-side type of a Rust type, as text (see `ptr_text`).
pub fn convert_to_ptr(ty: &SynType) -> (r: DResult<String>)
    requires
        ptr_convertible(*ty),
    ensures
        text_result(r, ptr_text(*ty)),
    decreases ty,
{
    match ty {
        SynType::Reference { elem, .. } => convert_to_ptr(elem),
        SynType::Path { first, args, text } => {
            if str_eq(first.as_str(), "Result") {
                match args {
                    PathArgs::AngleBracketed(a) => {
                        match &**a {
                            GenericArgs::Cons(a0, rest) => match &**rest {
                                GenericArgs::Cons(a1, rest2) => {
                                    match &**rest2 {
                                        GenericArgs::Nil => {},
                                        GenericArgs::Cons(_, _) => {
                                            assert(rest.len() == 1 + rest2.len());
                                            assert(a.len() == 1 + rest.len());
                                            return Err(DeriveError::syn(RESULT_LIFETIME));
                                        },
                                    }
                                    assert(rest2.len() == 0);
                                    assert(rest.len() == 1);
                                    assert(a.len() == 2);
                                    let s0 = match a0 {
                                        GenericArg::Type(t0) => match convert_to_ptr(t0) {
                                            Ok(x) => x,
                                            Err(e) => {
                                                return Err(e);
                                            },
                                        },
                                        _ => {
                                            return Err(DeriveError::syn(RESULT_LIFETIME));
                                        },
                                    };
                                    let s1 = match a1 {
                                        GenericArg::Type(t1) => match convert_to_ptr(t1) {
                                            Ok(x) => x,
                                            Err(e) => {
                                                return Err(e);
                                            },
                                        },
                                        _ => {
                                            return Err(DeriveError::syn(RESULT_LIFETIME));
                                        },
                                    };
                                    let mut r = concat("*mut CResult<*mut ", s0.as_str());
                                    r.append(", *mut ");
                                    r.append(s1.as_str());
                                    r.append(">");
                                    Ok(r)
                                },
                                GenericArgs::Nil => Err(DeriveError::syn(RESULT_LIFETIME)),
                            },
                            GenericArgs::Nil => Err(DeriveError::syn(RESULT_LIFETIME)),
                        }
                    },
                    _ => Err(DeriveError::syn(EXPECTED_GENERICS)),
                }
            } else if str_eq(first.as_str(), "Option") {
                match args {
                    PathArgs::AngleBracketed(a) => match &**a {
                        GenericArgs::Cons(GenericArg::Type(t0), _) => {
                            match convert_to_ptr(t0) {
                                Ok(inner) => Ok(concat("*mut ", inner.as_str())),
                                Err(e) => Err(e),
                            }
                        },
                        _ => Err(DeriveError::syn(OPTION_LIFETIME)),
                    },
                    _ => Err(DeriveError::syn(EXPECTED_GENERICS)),
                }
            } else if primitive_name(first.as_str()) {
                Ok(text.clone())
            } else if str_eq(first.as_str(), "String") || str_eq(first.as_str(), "str") {
                Ok("*mut std::os::raw::c_char".to_owned())
            } else {
                Ok(concat("*mut ", first.as_str()))
            }
        },
        SynType::Ptr { text, .. } => Ok(text.clone()),
        SynType::Other { text } => Ok(concat("*mut ", text.as_str())),
    }
}

/// The text of a reference type without lifetime to a type of the given text.
pub open spec fn reference_text(mutable: bool, elem: Seq<char>) -> Seq<char> {
    if mutable {
        "& mut "@ + elem
    } else {
        "& "@ + elem
    }
}

/// `t` is the reference type `&T` or `&mut T` to `elem`, without lifetime.
pub open spec fn is_reference_to(t: SynType, mutable: bool, elem: SynType) -> bool {
    t matches SynType::Reference { mutable: m, elem: e, text } && m == mutable && *e == elem && text@
        == reference_text(mutable, elem.printed())
}

/// The reference type `&T` or `&mut T` to `elem`, without lifetime.
fn reference_to(mutable: bool, elem: SynType) -> (r: SynType)
    ensures
        is_reference_to(r, mutable, elem),
{
    let text = if mutable {
        concat("& mut ", elem.text().as_str())
    } else {
        concat("& ", elem.text().as_str())
    };
    SynType::Reference { mutable, elem: Box::new(elem), text }
}

/// `out` is the parameter `inp` of a method of `self_ty` with the receiver
/// made an ordinary parameter: `self` becomes `this: Self`, `&self` becomes
/// `this: &Self` and `&mut self` becomes `mut this: &mut Self`; other
/// parameters stay as they are.
pub open spec fn receiver_as_this(out: SynFnArg, inp: SynFnArg, self_ty: SynType) -> bool {
    match inp {
        SynFnArg::Receiver { reference, mutable } => out matches SynFnArg::Typed {
            pat: SynPat::Ident { name, mutable: m },
            ty,
        } && name@ == "this"@ && m == mutable && (if reference {
            is_reference_to(ty, mutable, self_ty)
        } else {
            ty == self_ty
        }),
        _ => out == inp,
    }
}

/// The name of the free function that wraps method `method` of a type whose
/// path starts with `ty_name`: the snake case of the two names run together.
pub open spec fn method_fn_name(method: Seq<char>, ty_name: Seq<char>) -> Seq<char> {
    snake_case(method + ty_name)
}

/// `out` holds the parameters `inp`, first to last, each with a receiver made
/// an ordinary parameter (see `receiver_as_this`).
pub open spec fn receivers_as_this(out: Seq<SynFnArg>, inp: Seq<SynFnArg>, self_ty: SynType) -> bool {
    out.len() == inp.len() && forall|i: int|
        0 <= i < out.len() ==> receiver_as_this(#[trigger] out[i], inp[i], self_ty)
}

/// The parameters of a method of `self_ty`, with the receiver made an
/// ordinary parameter named `this`.
pub fn receiver_params(self_ty: &SynType, inputs: &Vec<SynFnArg>) -> (r: Vec<SynFnArg>)
    ensures
        receivers_as_this(r@, inputs@, *self_ty),
{
    let mut out: Vec<SynFnArg> = Vec::new();
    let mut i: usize = 0;
    while i < inputs.len()
        invariant
            0 <= i <= inputs@.len(),
            out@.len() == i,
            forall|j: int| 0 <= j < i ==> receiver_as_this(#[trigger] out@[j], inputs@[j], *self_ty),
        decreases inputs@.len() - i,
    {
        let p = match &inputs[i] {
            SynFnArg::Receiver { reference, mutable } => {
                let ty = if *reference {
                    reference_to(*mutable, self_ty.duplicate())
                } else {
                    self_ty.duplicate()
                };
                SynFnArg::Typed { pat: SynPat::Ident { name: "this".to_owned(), mutable: *mutable }, ty }
            },
            other => other.duplicate(),
        };
        out.push(p);
        i = i + 1;
    }
    out
}

/// Turns a method of `self_ty` into a free function: the receiver becomes a
/// parameter named `this`, and the function is named after the method and
/// the type (`new` of `BoxedStruct` becomes `new_boxed_struct`). Refused when
/// the type is not a path.
pub fn convert_item_fn(self_ty: &SynType, item_fn: SynSignature) -> (r: DResult<SynSignature>)
    ensures
        match r {
            Ok(sig) => (*self_ty is Path) && sig.ident@ == method_fn_name(item_fn.ident@, self_ty->first@)
                && receivers_as_this(sig.inputs@, item_fn.inputs@, *self_ty) && sig.output
                == item_fn.output,
            Err(e) => !(*self_ty is Path) && syn_err(e, NO_SELF_TYPE_NAME@),
        },
{
    let inputs = receiver_params(self_ty, &item_fn.inputs);
    let ident = match self_ty {
        SynType::Path { first, .. } => {
            let joined = concat(item_fn.ident.as_str(), first.as_str());
            to_snake_case(joined)
        },
        _ => {
            return Err(DeriveError::syn(NO_SELF_TYPE_NAME));
        },
    };
    Ok(SynSignature { ident, inputs, output: item_fn.output })
}

/// A parameter of a C-callable wrapper: its pattern and the text of its C-side type.
#[derive(Debug, PartialEq)]
pub struct ExternArg {
    pub pat: SynPat,
    pub ty: String,
}

/// What the body of a C-callable wrapper calls.
#[derive(Debug, PartialEq)]
pub enum ExternCall {
    /// `caller::method(...)`.
    Method { caller: SynType, method: String },
    /// The original function, kept inside the wrapper under the given name.
    Local { ident: String },
}

/// A C-callable wrapper: its name, its parameters, the text of its return
/// type and what its body calls. The body converts each parameter from its C
/// form, calls, and converts the result (or the error) into a `CResult`.
#[derive(Debug, PartialEq)]
pub struct ExternFn {
    pub ident: String,
    pub inputs: Vec<ExternArg>,
    pub output: String,
    pub call: ExternCall,
}

/// A pattern without `mut`.
pub open spec fn unmut(p: SynPat) -> SynPat {
    match p {
        SynPat::Ident { name, .. } => SynPat::Ident { name, mutable: false },
        other => other,
    }
}

/// The parameters of the wrapper, first to last: a receiver is refused; each
/// other parameter keeps its pattern (without `mut`) and takes the C-side
/// form of its type.
pub open spec fn extern_inputs(inputs: Seq<SynFnArg>) -> Result<Seq<(SynPat, Seq<char>)>, Seq<char>>
    decreases inputs.len(),
{
    if inputs.len() == 0 {
        Ok(Seq::empty())
    } else {
        match extern_inputs(inputs.drop_last()) {
            Err(e) => Err(e),
            Ok(args) => match inputs.last() {
                SynFnArg::Receiver { .. } => Err(SELF_IN_ITEM_FN@),
                SynFnArg::Typed { pat, ty } => match ptr_text(ty) {
                    Err(e) => Err(e),
                    Ok(s) => Ok(args.push((unmut(pat), s))),
                },
            },
        }
    }
}

/// The return type of the wrapper: a pointer to a `CResult` of the C-side
/// form of the return type (of `()` when there is none), with a C string as
/// the error.
pub open spec fn extern_output(output: Option<SynType>) -> Result<Seq<char>, Seq<char>> {
    match output {
        Some(t) => match ptr_text(t) {
            Ok(s) => Ok("*mut foreignc::CResult<"@ + s + ", std::os::raw::c_char>"@),
            Err(e) => Err(e),
        },
        None => Ok("*mut foreignc::CResult<(), std::os::raw::c_char>"@),
    }
}

/// Whether the parameters can be converted in order up to the first one
/// refused: each parameter reached has a type whose conversion can be
/// computed.
pub open spec fn inputs_convertible(inputs: Seq<SynFnArg>) -> bool
    decreases inputs.len(),
{
    if inputs.len() == 0 {
        true
    } else {
        inputs_convertible(inputs.drop_last()) && (extern_inputs(inputs.drop_last()) is Ok ==> match inputs.last() {
            SynFnArg::Typed { ty, .. } => ptr_convertible(ty),
            _ => true,
        })
    }
}

/// Whether the wrapper of a signature can be computed: its parameters up to
/// the first refused, and its return type when every parameter converts.
pub open spec fn sig_convertible(sig: SynSignature) -> bool {
    &&& inputs_convertible(sig.inputs@)
    &&& extern_inputs(sig.inputs@) is Ok ==> (sig.output matches Some(t) ==> ptr_convertible(t))
}

/// The parameters up to a point are convertible when all are.
pub proof fn lemma_inputs_convertible_prefix(inputs: Seq<SynFnArg>, k: int)
    requires
        0 <= k <= inputs.len(),
        inputs_convertible(inputs),
    ensures
        inputs_convertible(inputs.take(k)),
    decreases inputs.len(),
{
    if k == inputs.len() {
        assert(inputs.take(k) =~= inputs);
    } else {
        let d = inputs.drop_last();
        assert(d.take(k) =~= inputs.take(k));
        lemma_inputs_convertible_prefix(d, k);
    }
}

/// Once a convertible prefix is refused, nothing after it is read.
pub proof fn lemma_inputs_convertible_after_err(inputs: Seq<SynFnArg>, k: int)
    requires
        0 <= k <= inputs.len(),
        inputs_convertible(inputs.take(k)),
        extern_inputs(inputs.take(k)) is Err,
    ensures
        inputs_convertible(inputs),
        extern_inputs(inputs) is Err,
    decreases inputs.len() - k,
{
    if k < inputs.len() {
        assert(inputs.take(k + 1).drop_last() =~= inputs.take(k));
        lemma_inputs_convertible_after_err(inputs, k + 1);
    } else {
        assert(inputs.take(k) =~= inputs);
    }
}

/// Whether the C-side form of a type can be computed (see `ptr_convertible`).
pub fn ptr_convertible_check(t: &SynType) -> (r: bool)
    ensures
        r == ptr_convertible(*t),
    decreases t,
{
    match t {
        SynType::Reference { elem, .. } => ptr_convertible_check(elem),
        SynType::Path { first, args, .. } => {
            if str_eq(first.as_str(), "Result") {
                match args {
                    PathArgs::AngleBracketed(a) => match &**a {
                        GenericArgs::Cons(a0, rest) => match &**rest {
                            GenericArgs::Cons(a1, rest2) => match &**rest2 {
                                GenericArgs::Cons(_, _) => true,
                                GenericArgs::Nil => match a0 {
                                    GenericArg::Type(t0) => {
                                        if !ptr_convertible_check(t0) {
                                            false
                                        } else {
                                            match convert_to_ptr(t0) {
                                                Ok(_) => match a1 {
                                                    GenericArg::Type(t1) => ptr_convertible_check(t1),
                                                    GenericArg::Other(_) => true,
                                                },
                                                Err(_) => true,
                                            }
                                        }
                                    },
                                    GenericArg::Other(_) => true,
                                },
                            },
                            GenericArgs::Nil => true,
                        },
                        GenericArgs::Nil => true,
                    },
                    _ => true,
                }
            } else if str_eq(first.as_str(), "Option") {
                match args {
                    PathArgs::AngleBracketed(a) => match &**a {
                        GenericArgs::Cons(GenericArg::Type(t0), _) => ptr_convertible_check(t0),
                        GenericArgs::Cons(GenericArg::Other(_), rest) => match &**rest {
                            GenericArgs::Cons(_, _) => true,
                            GenericArgs::Nil => false,
                        },
                        GenericArgs::Nil => false,
                    },
                    _ => true,
                }
            } else {
                true
            }
        },
        _ => true,
    }
}

/// Whether the wrapper of a signature can be computed (see `sig_convertible`).
pub fn sig_convertible_check(sig: &SynSignature) -> (r: bool)
    ensures
        r == sig_convertible(*sig),
{
    let ghost all = sig.inputs@;
    let mut i: usize = 0;
    assert(all.take(0) =~= Seq::<SynFnArg>::empty());
    while i < sig.inputs.len()
        invariant
            0 <= i <= all.len(),
            all == sig.inputs@,
            inputs_convertible(all.take(i as int)),
            extern_inputs(all.take(i as int)) is Ok,
        decreases all.len() - i,
    {
        assert(all.take(i + 1).drop_last() =~= all.take(i as int));
        assert(all.take(i + 1).last() == all[i as int]);
        match &sig.inputs[i] {
            SynFnArg::Receiver { .. } => {
                proof {
                    lemma_inputs_convertible_after_err(all, i + 1);
                }
                return true;
            },
            SynFnArg::Typed { ty, .. } => {
                if !ptr_convertible_check(ty) {
                    proof {
                        if inputs_convertible(all) {
                            lemma_inputs_convertible_prefix(all, i + 1);
                        }
                    }
                    return false;
                }
                match convert_to_ptr(ty) {
                    Err(_) => {
                        proof {
                            lemma_inputs_convertible_after_err(all, i + 1);
                        }
                        return true;
                    },
                    Ok(_) => {},
                }
            },
        }
        i = i + 1;
    }
    assert(all.take(all.len() as int) =~= all);
    match &sig.output {
        Some(t) => ptr_convertible_check(t),
        None => true,
    }
}

/// The wrapper `r` is the C-callable wrapper of `item`: same name, parameters
/// and return type as `extern_inputs` and `extern_output` give, calling
/// `caller::method` for a method and the original function (kept as
/// `{name}_ffi`) otherwise.
pub open spec fn is_extern_of(r: ExternFn, item: SynSignature, implm: Option<(SynType, Seq<char>)>) -> bool {
    &&& r.ident@ == item.ident@
    &&& extern_inputs(item.inputs@) matches Ok(args) && r.inputs@.len() == args.len() && forall|i: int|
        0 <= i < args.len() ==> (#[trigger] r.inputs@[i]).pat == args[i].0 && r.inputs@[i].ty@ == args[i].1
    &&& extern_output(item.output) == Ok::<Seq<char>, Seq<char>>(r.output@)
    &&& match implm {
        Some((caller, m)) => r.call matches ExternCall::Method { caller: c, method } && c == caller
            && method@ == m,
        None => r.call matches ExternCall::Local { ident } && ident@ == item.ident@ + "_ffi"@,
    }
}

/// The error of making the wrapper: that of the parameters, else that of the
/// return type.
pub open spec fn extern_error(item: SynSignature) -> Option<Seq<char>> {
    match extern_inputs(item.inputs@) {
        Err(e) => Some(e),
        Ok(_) => match extern_output(item.output) {
            Err(e) => Some(e),
            Ok(_) => None,
        },
    }
}

/// Once a prefix of the parameters is refused, so is every longer prefix.
proof fn lemma_extern_inputs_err(inputs: Seq<SynFnArg>, k: int)
    requires
        0 <= k <= inputs.len(),
        extern_inputs(inputs.take(k)) is Err,
    ensures
        extern_inputs(inputs) == extern_inputs(inputs.take(k)),
    decreases inputs.len() - k,
{
    if k < inputs.len() {
        assert(inputs.take(k + 1).drop_last() =~= inputs.take(k));
        lemma_extern_inputs_err(inputs, k + 1);
    } else {
        assert(inputs.take(k) =~= inputs);
    }
}

/// The C-callable wrapper of a function, or of a method of `implm`'s type.
pub fn to_extern_item_fn(item: SynSignature, implm: Option<(&SynType, &String)>) -> (r: DResult<ExternFn>)
    requires
        sig_convertible(item),
    ensures
        match r {
            Ok(f) => extern_error(item) is None && is_extern_of(f, item, match implm {
                Some((c, m)) => Some((*c, m@)),
                None => None,
            }),
            Err(e) => extern_error(item) matches Some(m) && syn_err(e, m),
        },
{
    let mut inputs: Vec<ExternArg> = Vec::new();
    let mut i: usize = 0;
    assert(item.inputs@.take(0) =~= Seq::<SynFnArg>::empty());
    while i < item.inputs.len()
        invariant
            0 <= i <= item.inputs@.len(),
            sig_convertible(item),
            extern_inputs(item.inputs@.take(i as int)) matches Ok(args) && inputs@.len() == args.len()
                && forall|j: int| 0 <= j < args.len() ==> (#[trigger] inputs@[j]).pat == args[j].0
                && inputs@[j].ty@ == args[j].1,
        decreases item.inputs@.len() - i,
    {
        assert(item.inputs@.take(i + 1).drop_last() =~= item.inputs@.take(i as int));
        assert(item.inputs@.take(i + 1).last() == item.inputs@[i as int]);
        proof {
            lemma_inputs_convertible_prefix(item.inputs@, i + 1);
        }
        match &item.inputs[i] {
            SynFnArg::Receiver { .. } => {
                proof {
                    lemma_extern_inputs_err(item.inputs@, i as int + 1);
                }
                return Err(DeriveError::syn(SELF_IN_ITEM_FN));
            },
            SynFnArg::Typed { pat, ty } => {
                let p = match pat {
                    SynPat::Ident { name, .. } => SynPat::Ident { name: name.clone(), mutable: false },
                    SynPat::Other(t) => SynPat::Other(t.clone()),
                };
                match convert_to_ptr(ty) {
                    Ok(t) => {
                        inputs.push(ExternArg { pat: p, ty: t });
                    },
                    Err(e) => {
                        proof {
                            lemma_extern_inputs_err(item.inputs@, i as int + 1);
                        }
                        return Err(e);
                    },
                }
            },
        }
        i = i + 1;
    }
    assert(item.inputs@.take(item.inputs@.len() as int) =~= item.inputs@);
    let output = match &item.output {
        Some(t) => match convert_to_ptr(t) {
            Ok(s) => {
                let mut o = concat("*mut foreignc::CResult<", s.as_str());
                o.append(", std::os::raw::c_char>");
                o
            },
            Err(e) => {
                return Err(e);
            },
        },
        None => "*mut foreignc::CResult<(), std::os::raw::c_char>".to_owned(),
    };
    let call = match implm {
        Some((caller, method_name)) => ExternCall::Method {
            caller: caller.duplicate(),
            method: method_name.clone(),
        },
        None => ExternCall::Local { ident: concat(item.ident.as_str(), "_ffi") },
    };
    Ok(ExternFn { ident: item.ident, inputs, output, call })
}

} // verus!
