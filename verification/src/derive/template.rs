//! Recording exported signatures as descriptions for the binding generator.
use vstd::prelude::*;
use crate::derive::error::{syn_err, DResult, DeriveError};
use crate::derive::generate::{is_primitive_name, primitive_name, SELF_IN_ITEM_FN};
use crate::derive::syn_model::{GenericArg, GenericArgs, PathArgs, SynFnArg, SynPat, SynSignature, SynType};
use crate::template::rust_types::{
    args_model, ArgModel, FnModel, Function, RustArgument, RustFunction, RustTypes,
    TyModel,
};
use crate::text::str_eq;

verus! {

/// Reported for an `Option` whose argument is not a type.
pub const OPTION_NOT_TYPE: &'static str = "Result or option should not have lifetime";

/// Reported for an `Option` without `<...>` arguments.
pub const OPTION_NO_GENERICS: &'static str = "Expected generic arguments after Result or Option";

/// Whether the description of a type can be recorded: no `Result` is reached
/// (recording a `Result` is not supported), and every `Option<...>` has a
/// first argument.
pub open spec fn rust_type_recordable(t: SynType) -> bool
    decreases t,
{
    match t {
        SynType::Reference { elem, .. } => rust_type_recordable(*elem),
        SynType::Path { first, args, .. } => {
            if first@ == "Result"@ {
                false
            } else if first@ == "Option"@ {
                match args {
                    PathArgs::AngleBracketed(a) => match *a {
                        GenericArgs::Cons(a0, _) => match a0 {
                            GenericArg::Type(t0) => rust_type_recordable(t0),
                            _ => true,
                        },
                        GenericArgs::Nil => false,
                    },
                    _ => true,
                }
            } else {
                true
            }
        },
        _ => true,
    }
}

/// The recorded description of a type: references are looked through,
/// `Option<T>` is recorded as an option, primitives by name, `String` and
/// `str` as strings, raw pointers by their text, other path types as pointers
/// to their first segment, and anything else as `c_void`.
pub open spec fn rust_type_of(t: SynType) -> Result<TyModel, Seq<char>>
    decreases t,
{
    match t {
        SynType::Reference { elem, .. } => rust_type_of(*elem),
        SynType::Path { first, args, .. } => {
            if first@ == "Option"@ {
                match args {
                    PathArgs::AngleBracketed(a) => match *a {
                        GenericArgs::Cons(GenericArg::Type(t0), _) => match rust_type_of(t0) {
                            Ok(m) => Ok(TyModel::Option(Box::new(m))),
                            Err(e) => Err(e),
                        },
                        _ => Err(OPTION_NOT_TYPE@),
                    },
                    _ => Err(OPTION_NO_GENERICS@),
                }
            } else if is_primitive_name(first@) {
                Ok(TyModel::Primitive(first@))
            } else if first@ == "String"@ || first@ == "str"@ {
                Ok(TyModel::String)
            } else {
                Ok(TyModel::Ptr(first@))
            }
        },
        SynType::Ptr { text, .. } => Ok(TyModel::Ptr(text@)),
        SynType::Other { .. } => Ok(TyModel::Ptr("c_void"@)),
    }
}

/// A generation result of a type description agrees with a specified result.
pub open spec fn ty_result(r: DResult<RustTypes>, s: Result<TyModel, Seq<char>>) -> bool {
    match r {
        Ok(x) => s == Ok::<TyModel, Seq<char>>(x@),
        Err(e) => s is Err && syn_err(e, s->Err_0),
    }
}

/// The recorded description of a type (see `rust_type_of`).
pub fn convert_to_rust_type(ty: &SynType) -> (r: DResult<RustTypes>)
    requires
        rust_type_recordable(*ty),
    ensures
        ty_result(r, rust_type_of(*ty)),
    decreases ty,
{
    match ty {
        SynType::Reference { elem, .. } => convert_to_rust_type(elem),
        SynType::Path { first, args, .. } => {
            if str_eq(first.as_str(), "Option") {
                match args {
                    PathArgs::AngleBracketed(a) => match &**a {
                        GenericArgs::Cons(GenericArg::Type(t0), _) => match convert_to_rust_type(t0) {
                            Ok(m) => Ok(RustTypes::Option(Box::new(m))),
                            Err(e) => Err(e),
                        },
                        _ => Err(DeriveError::syn(OPTION_NOT_TYPE)),
                    },
                    _ => Err(DeriveError::syn(OPTION_NO_GENERICS)),
                }
            } else if primitive_name(first.as_str()) {
                Ok(RustTypes::Primitive(first.clone()))
            } else if str_eq(first.as_str(), "String") || str_eq(first.as_str(), "str") {
                Ok(RustTypes::String)
            } else {
                Ok(RustTypes::Ptr(first.clone()))
            }
        },
        SynType::Ptr { text, .. } => Ok(RustTypes::Ptr(text.clone())),
        SynType::Other { .. } => Ok(RustTypes::Ptr("c_void".to_owned())),
    }
}

/// Whether the parameters can be recorded in order up to the first one
/// refused: each parameter reached has a type whose record can be made.
pub open spec fn inputs_recordable(inputs: Seq<SynFnArg>) -> bool
    decreases inputs.len(),
{
    if inputs.len() == 0 {
        true
    } else {
        inputs_recordable(inputs.drop_last()) && (rust_inputs(inputs.drop_last()) is Ok ==> match inputs.last() {
            SynFnArg::Typed { ty, .. } => rust_type_recordable(ty),
            _ => true,
        })
    }
}

/// Whether the record of a signature can be made: its parameters up to the
/// first refused, and its return type when every parameter is recorded.
pub open spec fn sig_recordable(sig: SynSignature) -> bool {
    &&& inputs_recordable(sig.inputs@)
    &&& rust_inputs(sig.inputs@) is Ok ==> (sig.output matches Some(t) ==> rust_type_recordable(t))
}

/// The parameters up to a point are recordable when all are.
pub proof fn lemma_inputs_recordable_prefix(inputs: Seq<SynFnArg>, k: int)
    requires
        0 <= k <= inputs.len(),
        inputs_recordable(inputs),
    ensures
        inputs_recordable(inputs.take(k)),
    decreases inputs.len(),
{
    if k == inputs.len() {
        assert(inputs.take(k) =~= inputs);
    } else {
        let d = inputs.drop_last();
        assert(d.take(k) =~= inputs.take(k));
        lemma_inputs_recordable_prefix(d, k);
    }
}

/// Once a recordable prefix is refused, nothing after it is read.
pub proof fn lemma_inputs_recordable_after_err(inputs: Seq<SynFnArg>, k: int)
    requires
        0 <= k <= inputs.len(),
        inputs_recordable(inputs.take(k)),
        rust_inputs(inputs.take(k)) is Err,
    ensures
        inputs_recordable(inputs),
        rust_inputs(inputs) is Err,
    decreases inputs.len() - k,
{
    if k < inputs.len() {
        assert(inputs.take(k + 1).drop_last() =~= inputs.take(k));
        lemma_inputs_recordable_after_err(inputs, k + 1);
    } else {
        assert(inputs.take(k) =~= inputs);
    }
}

/// Whether the record of a type can be made (see `rust_type_recordable`).
pub fn rust_type_recordable_check(t: &SynType) -> (r: bool)
    ensures
        r == rust_type_recordable(*t),
    decreases t,
{
    match t {
        SynType::Reference { elem, .. } => rust_type_recordable_check(elem),
        SynType::Path { first, args, .. } => {
            if str_eq(first.as_str(), "Result") {
                false
            } else if str_eq(first.as_str(), "Option") {
                match args {
                    PathArgs::AngleBracketed(a) => match &**a {
                        GenericArgs::Cons(GenericArg::Type(t0), _) => rust_type_recordable_check(t0),
                        GenericArgs::Cons(GenericArg::Other(_), _) => true,
                        GenericArgs::Nil => false,
                    },
                    _ => true,
                }
            } else {
                true
            }
        },
        _ => true,
    }
}

/// Whether the record of a signature can be made (see `sig_recordable`).
pub fn sig_recordable_check(sig: &SynSignature) -> (r: bool)
    ensures
        r == sig_recordable(*sig),
{
    let ghost all = sig.inputs@;
    let mut i: usize = 0;
    assert(all.take(0) =~= Seq::<SynFnArg>::empty());
    while i < sig.inputs.len()
        invariant
            0 <= i <= all.len(),
            all == sig.inputs@,
            inputs_recordable(all.take(i as int)),
            rust_inputs(all.take(i as int)) is Ok,
        decreases all.len() - i,
    {
        assert(all.take(i + 1).drop_last() =~= all.take(i as int));
        assert(all.take(i + 1).last() == all[i as int]);
        match &sig.inputs[i] {
            SynFnArg::Receiver { .. } => {
                proof {
                    lemma_inputs_recordable_after_err(all, i + 1);
                }
                return true;
            },
            SynFnArg::Typed { ty, .. } => {
                if !rust_type_recordable_check(ty) {
                    proof {
                        if inputs_recordable(all) {
                            lemma_inputs_recordable_prefix(all, i + 1);
                        }
                    }
                    return false;
                }
                match convert_to_rust_type(ty) {
                    Err(_) => {
                        proof {
                            lemma_inputs_recordable_after_err(all, i + 1);
                        }
                        return true;
                    },
                    Ok(_) => {},
                }
            },
        }
        i = i + 1;
    }
    assert(all.take(all.len() as int) =~= all);
    match &sig.output {
        Some(t) => rust_type_recordable_check(t),
        None => true,
    }
}

/// The recorded arguments of a parameter list, first to last: a receiver is
/// refused, a parameter bound by a plain name is recorded under that name, and
/// one bound by another pattern is checked but not recorded.
pub open spec fn rust_inputs(inputs: Seq<SynFnArg>) -> Result<Seq<ArgModel>, Seq<char>>
    decreases inputs.len(),
{
    if inputs.len() == 0 {
        Ok(Seq::empty())
    } else {
        match rust_inputs(inputs.drop_last()) {
            Err(e) => Err(e),
            Ok(args) => match inputs.last() {
                SynFnArg::Receiver { .. } => Err(SELF_IN_ITEM_FN@),
                SynFnArg::Typed { pat, ty } => match rust_type_of(ty) {
                    Err(e) => Err(e),
                    Ok(m) => match pat {
                        SynPat::Ident { name, .. } => Ok(args.push(ArgModel { name: name@, ty: m })),
                        SynPat::Other(_) => Ok(args),
                    },
                },
            },
        }
    }
}

/// The recorded description of a function signature. For a method (`method`
/// is its Rust name) the signature's name is the C symbol; otherwise the
/// signature's name is both.
pub open spec fn rust_func_of(sig: SynSignature, method: Option<Seq<char>>) -> Result<FnModel, Seq<char>> {
    match rust_inputs(sig.inputs@) {
        Err(e) => Err(e),
        Ok(args) => {
            let (name, extern_name) = match method {
                Some(m) => (m, sig.ident@),
                None => (sig.ident@, sig.ident@),
            };
            match sig.output {
                Some(t) => match rust_type_of(t) {
                    Err(e) => Err(e),
                    Ok(m) => Ok(FnModel { name, extern_name, inputs: args, output: Some(m) }),
                },
                None => Ok(FnModel { name, extern_name, inputs: args, output: None }),
            }
        },
    }
}

/// The recorded description of a function signature (see `rust_func_of`).
pub fn to_rust_func(item: &SynSignature, implm: Option<(&SynType, &String)>) -> (r: DResult<RustFunction>)
    requires
        sig_recordable(*item),
    ensures
        match r {
            Ok(f) => rust_func_of(*item, match implm {
                Some((_, m)) => Some(m@),
                None => None,
            }) == Ok::<FnModel, Seq<char>>(f@),
            Err(e) => {
                let s = rust_func_of(*item, match implm {
                    Some((_, m)) => Some(m@),
                    None => None,
                });
                s is Err && syn_err(e, s->Err_0)
            },
        },
{
    let mut inputs: Vec<RustArgument> = Vec::new();
    let mut i: usize = 0;
    assert(item.inputs@.take(0) =~= Seq::<SynFnArg>::empty());
    assert(args_model(inputs@) =~= Seq::<ArgModel>::empty());
    while i < item.inputs.len()
        invariant
            0 <= i <= item.inputs@.len(),
            sig_recordable(*item),
            rust_inputs(item.inputs@.take(i as int)) == Ok::<Seq<ArgModel>, Seq<char>>(args_model(inputs@)),
        decreases item.inputs@.len() - i,
    {
        assert(item.inputs@.take(i + 1).drop_last() =~= item.inputs@.take(i as int));
        assert(item.inputs@.take(i + 1).last() == item.inputs@[i as int]);
        proof {
            lemma_inputs_recordable_prefix(item.inputs@, i + 1);
        }
        match &item.inputs[i] {
            SynFnArg::Receiver { .. } => {
                proof {
                    lemma_rust_inputs_err(item.inputs@, i as int + 1);
                }
                return Err(DeriveError::syn(SELF_IN_ITEM_FN));
            },
            SynFnArg::Typed { pat, ty } => {
                let tty = match convert_to_rust_type(ty) {
                    Ok(t) => t,
                    Err(e) => {
                        proof {
                            lemma_rust_inputs_err(item.inputs@, i as int + 1);
                        }
                        return Err(e);
                    },
                };
                match pat {
                    SynPat::Ident { name, .. } => {
                        let ghost before = inputs@;
                        inputs.push(RustArgument { name: name.clone(), ty: tty });
                        assert(args_model(inputs@) =~= args_model(before).push(
                            ArgModel { name: name@, ty: tty@ },
                        ));
                    },
                    SynPat::Other(_) => {},
                }
            },
        }
        i = i + 1;
    }
    assert(item.inputs@.take(item.inputs@.len() as int) =~= item.inputs@);
    let (name, extern_name) = match implm {
        Some((_, method_name)) => (method_name.clone(), item.ident.clone()),
        None => (item.ident.clone(), item.ident.clone()),
    };
    let output = match &item.output {
        Some(t) => match convert_to_rust_type(t) {
            Ok(m) => Some(m),
            Err(e) => {
                return Err(e);
            },
        },
        None => None,
    };
    Ok(Function { name, extern_name, inputs, output })
}

/// Once a prefix of the parameters is refused, so is every longer prefix.
proof fn lemma_rust_inputs_err(inputs: Seq<SynFnArg>, k: int)
    requires
        0 <= k <= inputs.len(),
        rust_inputs(inputs.take(k)) is Err,
    ensures
        rust_inputs(inputs) == rust_inputs(inputs.take(k)),
    decreases inputs.len() - k,
{
    if k < inputs.len() {
        assert(inputs.take(k + 1).drop_last() =~= inputs.take(k));
        lemma_rust_inputs_err(inputs, k + 1);
    } else {
        assert(inputs.take(k) =~= inputs);
    }
}

} // verus!
