//! Rewriting signatures into C-callable wrappers while recording each one as
//! a `Function` of `Arg`s.
use vstd::prelude::*;
use crate::derive::error::{syn_err, DResult, DeriveError};
use crate::derive::func::{named_args_model, Arg, ArgModel, Function};
use crate::derive::generate::{
    is_primitive_name, primitive_name, receiver_params, receivers_as_this, unmut, EXPECTED_GENERICS,
    SELF_IN_ITEM_FN,
};
use crate::derive::syn_model::{GenericArg, GenericArgs, PathArgs, SynFnArg, SynPat, SynSignature, SynType};
use crate::derive::template::OPTION_NOT_TYPE;
use crate::text::{concat, ends_with, has_suffix, str_eq};

verus! {

/// Reported when the implemented type of a method is not a path.
pub const NO_IMPL_PATH: &'static str = "Failed";

/// The path of C's `char` type.
pub const C_CHAR: &'static str = "std::os::raw::c_char";

/// The path of C's `void` type.
pub const C_VOID: &'static str = "std::ffi::c_void";

/// How a chosen type crosses the boundary.
#[derive(Debug, Clone, Copy, PartialEq, Eq, Structural)]
pub enum Types {
    /// As JSON text.
    JSON,
}

/// A type carried across the boundary in another form: its name, the C-side
/// type it takes, and how it is converted.
#[derive(Debug, PartialEq)]
pub struct TypeCast {
    pub ty0: String,
    pub ty1: SynType,
    pub ty: Types,
}

/// The casts as (name, C-side type) pairs.
pub open spec fn casts_model(casts: Seq<TypeCast>) -> Seq<(Seq<char>, SynType)> {
    casts.map_values(|c: TypeCast| (c.ty0@, c.ty1))
}

/// The C-side type of the first cast for the named type, if there is one.
pub open spec fn find_cast(casts: Seq<(Seq<char>, SynType)>, name: Seq<char>) -> Option<SynType>
    decreases casts.len(),
{
    if casts.len() == 0 {
        None
    } else if casts[0].0 == name {
        Some(casts[0].1)
    } else {
        find_cast(casts.drop_first(), name)
    }
}

/// The C-side type of the first cast for the named type, if there is one.
fn lookup_cast(casts: &Vec<TypeCast>, name: &str) -> (r: Option<SynType>)
    ensures
        r == find_cast(casts_model(casts@), name@),
{
    let ghost all = casts_model(casts@);
    let mut i: usize = 0;
    assert(all.skip(0) =~= all);
    while i < casts.len()
        invariant
            0 <= i <= casts@.len(),
            all == casts_model(casts@),
            find_cast(all, name@) == find_cast(all.skip(i as int), name@),
        decreases casts@.len() - i,
    {
        assert(all.skip(i as int)[0] == (casts@[i as int].ty0@, casts@[i as int].ty1));
        if str_eq(casts[i].ty0.as_str(), name) {
            return Some(casts[i].ty1.duplicate());
        }
        assert(all.skip(i as int).drop_first() =~= all.skip(i + 1));
        i = i + 1;
    }
    assert(all.skip(i as int) =~= Seq::<(Seq<char>, SynType)>::empty());
    None
}

/// The C-side type chosen for a type.
pub enum PtrOut {
    /// The given type itself.
    Keep(SynType),
    /// `*const std::os::raw::c_char`.
    ConstCChar,
    /// `*mut std::ffi::c_void`.
    MutCVoid,
    /// A mutable pointer to the given type.
    MutPtrTo(SynType),
}

/// `t` is the path type of the given text, from `std`, without arguments.
pub open spec fn is_std_path(t: SynType, text: Seq<char>) -> bool {
    t matches SynType::Path { first, args, text: x } && first@ == "std"@ && (args is Empty) && x@ == text
}

/// `t` is the mutable pointer type to `elem`.
pub open spec fn is_mut_ptr_to(t: SynType, elem: SynType) -> bool {
    t matches SynType::Ptr { mutable: m, elem: e, text } && m && *e == elem && text@ == "*mut "@
        + elem.printed()
}

/// `t` is the C-side type `o` describes.
pub open spec fn realizes(t: SynType, o: PtrOut) -> bool {
    match o {
        PtrOut::Keep(k) => t == k,
        PtrOut::ConstCChar => t matches SynType::Ptr { mutable: m, elem, text } && !m && is_std_path(
            *elem,
            C_CHAR@,
        ) && text@ == "*const "@ + C_CHAR@,
        PtrOut::MutCVoid => t matches SynType::Ptr { mutable: m, elem, text } && m && is_std_path(
            *elem,
            C_VOID@,
        ) && text@ == "*mut "@ + C_VOID@,
        PtrOut::MutPtrTo(e) => is_mut_ptr_to(t, e),
    }
}

/// Whether the conversion reads only generic arguments that are there: every
/// `Result<...>` and `Option<...>` has a first argument.
pub open spec fn gen_convertible(t: SynType) -> bool
    decreases t,
{
    match t {
        SynType::Reference { elem, .. } => gen_convertible(*elem),
        SynType::Path { first, args, .. } => {
            if first@ == "Result"@ || first@ == "Option"@ {
                match args {
                    PathArgs::AngleBracketed(a) => match *a {
                        GenericArgs::Cons(a0, _) => match a0 {
                            GenericArg::Type(t0) => gen_convertible(t0),
                            _ => true,
                        },
                        GenericArgs::Nil => false,
                    },
                    _ => true,
                }
            } else {
                true
            }
        },
        _ => true,
    }
}

/// The C-side type of a type and how it crosses: references are looked
/// through; `Result<T, ...>` and `Option<T>` take the C-side type of `T` and
/// wrap its record; a type with a cast takes the cast's type and crosses as
/// JSON; a type whose name ends in `String` or `str` becomes a C string; a
/// primitive stays; another path type becomes `*mut c_void`; a raw pointer
/// stays; any other type becomes a mutable pointer to it.
pub open spec fn gen_ptr(t: SynType, casts: Seq<(Seq<char>, SynType)>) -> Result<(PtrOut, ArgModel), Seq<char>>
    decreases t,
{
    match t {
        SynType::Reference { elem, .. } => gen_ptr(*elem, casts),
        SynType::Path { first, args, .. } => {
            if first@ == "Result"@ || first@ == "Option"@ {
                match args {
                    PathArgs::AngleBracketed(a) => match *a {
                        GenericArgs::Cons(GenericArg::Type(t0), _) => match gen_ptr(t0, casts) {
                            Ok((o, m)) => Ok(
                                (
                                    o,
                                    if first@ == "Result"@ {
                                        ArgModel::Result(Box::new(m))
                                    } else {
                                        ArgModel::Option(Box::new(m))
                                    },
                                ),
                            ),
                            Err(e) => Err(e),
                        },
                        _ => Err(OPTION_NOT_TYPE@),
                    },
                    _ => Err(EXPECTED_GENERICS@),
                }
            } else {
                match find_cast(casts, first@) {
                    Some(ty1) => Ok((PtrOut::Keep(ty1), ArgModel::JSON(first@))),
                    None => {
                        if has_suffix(first@, "String"@) || has_suffix(first@, "str"@) {
                            Ok((PtrOut::ConstCChar, ArgModel::String))
                        } else if is_primitive_name(first@) {
                            Ok((PtrOut::Keep(t), ArgModel::Pimitive(first@)))
                        } else {
                            Ok((PtrOut::MutCVoid, ArgModel::Ptr(first@)))
                        }
                    },
                }
            }
        },
        SynType::Ptr { .. } => Ok((PtrOut::Keep(t), ArgModel::Ptr("Raw"@))),
        SynType::Other { .. } => Ok((PtrOut::MutPtrTo(t), ArgModel::Ptr("Unknown"@))),
    }
}

/// The path type of the given text, from `std`, without arguments.
fn std_path(text: &str) -> (r: SynType)
    ensures
        is_std_path(r, text@),
{
    SynType::Path { first: "std".to_owned(), args: PathArgs::Empty, text: text.to_owned() }
}

/// The mutable pointer type to `elem`.
fn mut_ptr_to(elem: SynType) -> (r: SynType)
    ensures
        is_mut_ptr_to(r, elem),
{
    let text = concat("*mut ", elem.text().as_str());
    SynType::Ptr { mutable: true, elem: Box::new(elem), text }
}

/// The C-side type of a type and its record (see `gen_ptr`).
pub fn convert_to_ptr(ty: &SynType, casts: &Vec<TypeCast>) -> (r: DResult<(SynType, Arg)>)
    requires
        gen_convertible(*ty),
    ensures
        match r {
            Ok((t, a)) => gen_ptr(*ty, casts_model(casts@)) matches Ok((o, m)) && realizes(t, o) && a@
                == m,
            Err(e) => gen_ptr(*ty, casts_model(casts@)) matches Err(msg) && syn_err(e, msg),
        },
    decreases ty,
{
    match ty {
        SynType::Reference { elem, .. } => convert_to_ptr(elem, casts),
        SynType::Path { first, args, .. } => {
            let is_result = str_eq(first.as_str(), "Result");
            if is_result || str_eq(first.as_str(), "Option") {
                match args {
                    PathArgs::AngleBracketed(a) => match &**a {
                        GenericArgs::Cons(GenericArg::Type(t0), _) => match convert_to_ptr(t0, casts) {
                            Ok((t, inner)) => {
                                let arg = if is_result {
                                    Arg::Result(Box::new(inner))
                                } else {
                                    Arg::Option(Box::new(inner))
                                };
                                Ok((t, arg))
                            },
                            Err(e) => Err(e),
                        },
                        _ => Err(DeriveError::syn(OPTION_NOT_TYPE)),
                    },
                    _ => Err(DeriveError::syn(EXPECTED_GENERICS)),
                }
            } else {
                match lookup_cast(casts, first.as_str()) {
                    Some(t1) => Ok((t1, Arg::JSON(first.clone()))),
                    None => {
                        if ends_with(first.as_str(), "String") || ends_with(first.as_str(), "str") {
                            let t = SynType::Ptr {
                                mutable: false,
                                elem: Box::new(std_path(C_CHAR)),
                                text: concat("*const ", C_CHAR),
                            };
                            Ok((t, Arg::String))
                        } else if primitive_name(first.as_str()) {
                            Ok((ty.duplicate(), Arg::Pimitive(first.clone())))
                        } else {
                            let t = SynType::Ptr {
                                mutable: true,
                                elem: Box::new(std_path(C_VOID)),
                                text: concat("*mut ", C_VOID),
                            };
                            Ok((t, Arg::Ptr(first.clone())))
                        }
                    },
                }
            }
        },
        SynType::Ptr { .. } => Ok((ty.duplicate(), Arg::Ptr("Raw".to_owned()))),
        SynType::Other { .. } => Ok((mut_ptr_to(ty.duplicate()), Arg::Ptr("Unknown".to_owned()))),
    }
}

/// What the wrapper makes of one parameter: its pattern without `mut`, its
/// C-side type, and its record when the pattern is a plain name. A receiver
/// is refused.
pub open spec fn gen_input(a: SynFnArg, casts: Seq<(Seq<char>, SynType)>) -> Result<
    (SynPat, PtrOut, Option<(Seq<char>, ArgModel)>),
    Seq<char>,
> {
    match a {
        SynFnArg::Receiver { .. } => Err(SELF_IN_ITEM_FN@),
        SynFnArg::Typed { pat, ty } => match gen_ptr(ty, casts) {
            Err(e) => Err(e),
            Ok((o, m)) => Ok(
                (
                    unmut(pat),
                    o,
                    match pat {
                        SynPat::Ident { name, .. } => Some((name@, m)),
                        _ => None,
                    },
                ),
            ),
        },
    }
}

/// What the wrapper makes of the parameters, first to last, up to the first
/// one refused.
pub open spec fn gen_inputs(inputs: Seq<SynFnArg>, casts: Seq<(Seq<char>, SynType)>) -> Result<
    Seq<(SynPat, PtrOut, Option<(Seq<char>, ArgModel)>)>,
    Seq<char>,
>
    decreases inputs.len(),
{
    if inputs.len() == 0 {
        Ok(Seq::empty())
    } else {
        match gen_inputs(inputs.drop_last(), casts) {
            Err(e) => Err(e),
            Ok(done) => match gen_input(inputs.last(), casts) {
                Err(e) => Err(e),
                Ok(x) => Ok(done.push(x)),
            },
        }
    }
}

/// The records of the parameters bound to a plain name, in order.
pub open spec fn recorded(entries: Seq<(SynPat, PtrOut, Option<(Seq<char>, ArgModel)>)>) -> Seq<
    (Seq<char>, ArgModel),
>
    decreases entries.len(),
{
    if entries.len() == 0 {
        Seq::empty()
    } else {
        let rest = recorded(entries.drop_last());
        match entries.last().2 {
            Some(x) => rest.push(x),
            None => rest,
        }
    }
}

/// The name of the wrapper: `{name}_ffi`, or `{name}_{Type}_ffi` for a
/// method of a path type; refused for a method of another type.
pub open spec fn wrapper_name(ident: Seq<char>, implm: Option<SynType>) -> Result<Seq<char>, Seq<char>> {
    match implm {
        None => Ok(ident + "_ffi"@),
        Some(t) => match t {
            SynType::Path { first, .. } => Ok(ident + "_"@ + first@ + "_ffi"@),
            _ => Err(NO_IMPL_PATH@),
        },
    }
}

/// The error of making the wrapper: that of the first refused parameter,
/// else that of the return type, else that of the wrapper's name.
pub open spec fn gen_error(item: SynSignature, casts: Seq<(Seq<char>, SynType)>, implm: Option<SynType>) -> Option<
    Seq<char>,
> {
    match gen_inputs(item.inputs@, casts) {
        Err(e) => Some(e),
        Ok(_) => match item.output {
            Some(t) => match gen_ptr(t, casts) {
                Err(e) => Some(e),
                Ok(_) => match wrapper_name(item.ident@, implm) {
                    Err(e) => Some(e),
                    Ok(_) => None,
                },
            },
            None => match wrapper_name(item.ident@, implm) {
                Err(e) => Some(e),
                Ok(_) => None,
            },
        },
    }
}

/// `t` is the return type of the wrapper for the C-side type `o`: a constant
/// pointer is made mutable.
pub open spec fn realizes_output(t: SynType, o: PtrOut) -> bool {
    match o {
        PtrOut::Keep(k) => match k {
            SynType::Ptr { mutable: false, elem, .. } => is_mut_ptr_to(t, *elem),
            _ => t == k,
        },
        PtrOut::ConstCChar => t matches SynType::Ptr { elem, .. } && is_std_path(*elem, C_CHAR@)
            && is_mut_ptr_to(t, *elem),
        _ => realizes(t, o),
    }
}

/// Whether the parameters can be converted in order up to the first one
/// refused: each parameter reached has a type whose conversion can be
/// computed.
pub open spec fn gen_inputs_convertible(inputs: Seq<SynFnArg>, casts: Seq<(Seq<char>, SynType)>) -> bool
    decreases inputs.len(),
{
    if inputs.len() == 0 {
        true
    } else {
        gen_inputs_convertible(inputs.drop_last(), casts) && (gen_inputs(inputs.drop_last(), casts) is Ok
            ==> match inputs.last() {
            SynFnArg::Typed { ty, .. } => gen_convertible(ty),
            _ => true,
        })
    }
}

/// Whether the wrapper of a signature can be computed: its parameters up to
/// the first refused, and its return type when every parameter converts.
pub open spec fn gen_sig_convertible(sig: SynSignature, casts: Seq<(Seq<char>, SynType)>) -> bool {
    &&& gen_inputs_convertible(sig.inputs@, casts)
    &&& gen_inputs(sig.inputs@, casts) is Ok ==> (sig.output matches Some(t) ==> gen_convertible(t))
}

/// The parameters up to a point are convertible when all are.
proof fn lemma_gen_prefix(inputs: Seq<SynFnArg>, casts: Seq<(Seq<char>, SynType)>, k: int)
    requires
        0 <= k <= inputs.len(),
        gen_inputs_convertible(inputs, casts),
    ensures
        gen_inputs_convertible(inputs.take(k), casts),
    decreases inputs.len(),
{
    if k == inputs.len() {
        assert(inputs.take(k) =~= inputs);
    } else {
        let d = inputs.drop_last();
        assert(d.take(k) =~= inputs.take(k));
        lemma_gen_prefix(d, casts, k);
    }
}

/// Once a convertible prefix is refused, nothing after it is read.
proof fn lemma_gen_after_err(inputs: Seq<SynFnArg>, casts: Seq<(Seq<char>, SynType)>, k: int)
    requires
        0 <= k <= inputs.len(),
        gen_inputs_convertible(inputs.take(k), casts),
        gen_inputs(inputs.take(k), casts) is Err,
    ensures
        gen_inputs_convertible(inputs, casts),
        gen_inputs(inputs, casts) is Err,
    decreases inputs.len() - k,
{
    if k < inputs.len() {
        assert(inputs.take(k + 1).drop_last() =~= inputs.take(k));
        lemma_gen_after_err(inputs, casts, k + 1);
    } else {
        assert(inputs.take(k) =~= inputs);
    }
}

/// Whether the conversion of a type can be computed (see `gen_convertible`).
pub fn gen_convertible_check(t: &SynType) -> (r: bool)
    ensures
        r == gen_convertible(*t),
    decreases t,
{
    match t {
        SynType::Reference { elem, .. } => gen_convertible_check(elem),
        SynType::Path { first, args, .. } => {
            if str_eq(first.as_str(), "Result") || str_eq(first.as_str(), "Option") {
                match args {
                    PathArgs::AngleBracketed(a) => match &**a {
                        GenericArgs::Cons(GenericArg::Type(t0), _) => gen_convertible_check(t0),
                        GenericArgs::Cons(GenericArg::Other(_), _) => true,
                        GenericArgs::Nil => false,
                    },
                    _ => true,
                }
            } else {
                true
            }
        },
        _ => true,
    }
}

/// Whether the wrapper of a signature can be computed (see
/// `gen_sig_convertible`).
pub fn gen_sig_convertible_check(sig: &SynSignature, casts: &Vec<TypeCast>) -> (r: bool)
    ensures
        r == gen_sig_convertible(*sig, casts_model(casts@)),
{
    let ghost all = sig.inputs@;
    let ghost cm = casts_model(casts@);
    let mut i: usize = 0;
    assert(all.take(0) =~= Seq::<SynFnArg>::empty());
    while i < sig.inputs.len()
        invariant
            0 <= i <= all.len(),
            all == sig.inputs@,
            cm == casts_model(casts@),
            gen_inputs_convertible(all.take(i as int), cm),
            gen_inputs(all.take(i as int), cm) is Ok,
        decreases all.len() - i,
    {
        assert(all.take(i + 1).drop_last() =~= all.take(i as int));
        assert(all.take(i + 1).last() == all[i as int]);
        match &sig.inputs[i] {
            SynFnArg::Receiver { .. } => {
                proof {
                    lemma_gen_after_err(all, cm, i + 1);
                }
                return true;
            },
            SynFnArg::Typed { ty, .. } => {
                if !gen_convertible_check(ty) {
                    proof {
                        if gen_inputs_convertible(all, cm) {
                            lemma_gen_prefix(all, cm, i + 1);
                        }
                    }
                    return false;
                }
                match convert_to_ptr(ty, casts) {
                    Err(_) => {
                        proof {
                            lemma_gen_after_err(all, cm, i + 1);
                        }
                        return true;
                    },
                    Ok(_) => {},
                }
            },
        }
        i = i + 1;
    }
    assert(all.take(all.len() as int) =~= all);
    match &sig.output {
        Some(t) => gen_convertible_check(t),
        None => true,
    }
}

/// `w` is the wrapper of `item` and its record: the wrapper is named by
/// `wrapper_name`, takes each parameter with its pattern and C-side type, and
/// returns the C-side type of the return value; the record names the item
/// and the wrapper and holds the records of the parameters and of the return
/// value.
pub open spec fn is_wrapper_of(
    w: (SynSignature, Function),
    item: SynSignature,
    casts: Seq<(Seq<char>, SynType)>,
    implm: Option<SynType>,
) -> bool {
    &&& gen_inputs(item.inputs@, casts) matches Ok(entries)
    &&& wrapper_name(item.ident@, implm) matches Ok(name)
    &&& w.0.ident@ == name
    &&& w.0.inputs@.len() == entries.len()
    &&& forall|i: int|
        0 <= i < entries.len() ==> (#[trigger] w.0.inputs@[i] matches SynFnArg::Typed { pat, ty } && pat
            == entries[i].0 && realizes(ty, entries[i].1))
    &&& match item.output {
        None => w.0.output is None && w.1@.output is None,
        Some(t) => gen_ptr(t, casts) matches Ok((o, m)) && (w.0.output matches Some(t2) && realizes_output(
            t2,
            o,
        )) && w.1@.output == Some(m),
    }
    &&& w.1@.name == item.ident@
    &&& w.1@.extern_name == name
    &&& w.1@.inputs == recorded(entries)
}

/// The type referred to, if any.
pub open spec fn owned_type(t: Option<&SynType>) -> Option<SynType> {
    match t {
        Some(x) => Some(*x),
        None => None,
    }
}

/// Once a prefix of the parameters is refused, so is every longer prefix.
proof fn lemma_gen_inputs_err(inputs: Seq<SynFnArg>, casts: Seq<(Seq<char>, SynType)>, k: int)
    requires
        0 <= k <= inputs.len(),
        gen_inputs(inputs.take(k), casts) is Err,
    ensures
        gen_inputs(inputs, casts) == gen_inputs(inputs.take(k), casts),
    decreases inputs.len() - k,
{
    if k < inputs.len() {
        assert(inputs.take(k + 1).drop_last() =~= inputs.take(k));
        lemma_gen_inputs_err(inputs, casts, k + 1);
    } else {
        assert(inputs.take(k) =~= inputs);
    }
}

/// The C-callable wrapper of a function, or of a method of `implm`'s type,
/// with its record.
pub fn to_extern_item_fn(item: SynSignature, casts: &Vec<TypeCast>, implm: Option<&SynType>) -> (r: DResult<
    (SynSignature, Function),
>)
    requires
        gen_sig_convertible(item, casts_model(casts@)),
    ensures
        match r {
            Ok(w) => gen_error(item, casts_model(casts@), owned_type(implm)) is None && is_wrapper_of(
                w,
                item,
                casts_model(casts@),
                owned_type(implm),
            ),
            Err(e) => gen_error(item, casts_model(casts@), owned_type(implm)) matches Some(m) && syn_err(e, m),
        },
{
    let ghost cm = casts_model(casts@);
    let mut inputs: Vec<SynFnArg> = Vec::new();
    let mut records: Vec<(String, Arg)> = Vec::new();
    let mut i: usize = 0;
    assert(item.inputs@.take(0) =~= Seq::<SynFnArg>::empty());
    while i < item.inputs.len()
        invariant
            0 <= i <= item.inputs@.len(),
            cm == casts_model(casts@),
            gen_sig_convertible(item, casts_model(casts@)),
            gen_inputs(item.inputs@.take(i as int), cm) matches Ok(entries) && inputs@.len() == entries.len()
                && (forall|j: int|
                0 <= j < entries.len() ==> (#[trigger] inputs@[j] matches SynFnArg::Typed { pat, ty } && pat
                    == entries[j].0 && realizes(ty, entries[j].1))) && named_args_model(records@)
                == recorded(entries),
        decreases item.inputs@.len() - i,
    {
        assert(item.inputs@.take(i + 1).drop_last() =~= item.inputs@.take(i as int));
        assert(item.inputs@.take(i + 1).last() == item.inputs@[i as int]);
        proof {
            lemma_gen_prefix(item.inputs@, cm, i + 1);
        }
        let ghost entries = gen_inputs(item.inputs@.take(i as int), cm)->Ok_0;
        let ghost old_inputs = inputs@;
        let ghost old_records = records@;
        match &item.inputs[i] {
            SynFnArg::Receiver { .. } => {
                proof {
                    lemma_gen_inputs_err(item.inputs@, cm, i as int + 1);
                }
                return Err(DeriveError::syn(SELF_IN_ITEM_FN));
            },
            SynFnArg::Typed { pat, ty } => {
                let p = match pat {
                    SynPat::Ident { name, .. } => SynPat::Ident { name: name.clone(), mutable: false },
                    SynPat::Other(t) => SynPat::Other(t.clone()),
                };
                match convert_to_ptr(ty, casts) {
                    Ok((t, a)) => {
                        let ghost am = a@;
                        match pat {
                            SynPat::Ident { name, .. } => {
                                records.push((name.clone(), a));
                                assert(named_args_model(records@) =~= named_args_model(old_records).push(
                                    (name@, am),
                                ));
                            },
                            SynPat::Other(_) => {},
                        }
                        inputs.push(SynFnArg::Typed { pat: p, ty: t });
                        proof {
                            let x = gen_input(item.inputs@[i as int], cm)->Ok_0;
                            let next = entries.push(x);
                            assert(next.drop_last() =~= entries);
                            assert(gen_inputs(item.inputs@.take(i + 1), cm) == Ok::<
                                Seq<(SynPat, PtrOut, Option<(Seq<char>, ArgModel)>)>,
                                Seq<char>,
                            >(next));
                            assert(recorded(next) == match x.2 {
                                Some(y) => recorded(entries).push(y),
                                None => recorded(entries),
                            });
                            assert forall|j: int| 0 <= j < next.len() implies (#[trigger] inputs@[j]
                                matches SynFnArg::Typed { pat, ty } && pat == next[j].0 && realizes(
                                ty,
                                next[j].1,
                            )) by {
                                if j < entries.len() {
                                    assert(inputs@[j] == old_inputs[j]);
                                }
                            }
                        }
                    },
                    Err(e) => {
                        proof {
                            lemma_gen_inputs_err(item.inputs@, cm, i as int + 1);
                        }
                        return Err(e);
                    },
                }
            },
        }
        i = i + 1;
    }
    assert(item.inputs@.take(item.inputs@.len() as int) =~= item.inputs@);
    let (output, out_arg) = match &item.output {
        Some(t) => match convert_to_ptr(t, casts) {
            Ok((nt, a)) => {
                let made_mut = match nt {
                    SynType::Ptr { mutable: false, elem, .. } => mut_ptr_to(*elem),
                    other => other,
                };
                (Some(made_mut), Some(a))
            },
            Err(e) => {
                return Err(e);
            },
        },
        None => (None, None),
    };
    let func_name = match implm {
        Some(SynType::Path { first, .. }) => {
            let mut s = concat(item.ident.as_str(), "_");
            s.append(first.as_str());
            s.append("_ffi");
            s
        },
        Some(_) => {
            return Err(DeriveError::syn(NO_IMPL_PATH));
        },
        None => concat(item.ident.as_str(), "_ffi"),
    };
    let f = Function {
        name: item.ident.clone(),
        extern_name: func_name.clone(),
        inputs: records,
        output: out_arg,
    };
    Ok((SynSignature { ident: func_name, inputs, output }, f))
}

/// Turns a method of `self_ty` into a free function of the same name: the
/// receiver becomes a parameter named `this`.
pub fn convert_item_fn(self_ty: &SynType, item_fn: SynSignature) -> (r: SynSignature)
    ensures
        r.ident@ == item_fn.ident@,
        receivers_as_this(r.inputs@, item_fn.inputs@, *self_ty),
        r.output == item_fn.output,
{
    let inputs = receiver_params(self_ty, &item_fn.inputs);
    SynSignature { ident: item_fn.ident, inputs, output: item_fn.output }
}

} // verus!
