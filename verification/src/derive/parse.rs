//! Reading the items the macros are put on from their token text, with syn,
//! and what the macros record for them.
use vstd::prelude::*;
use quote::ToTokens;
use crate::derive::error::{syn_err, DResult, DeriveError};
use crate::derive::items::{
    boxed_records, boxed_records_of, convert_impls, convert_impls_ready, convert_item, convert_item_ready,
    derive_target, fn_records_result, impl_records_result, impls_ready, item_kind, item_ready, json_record,
    json_structure, BoxedRecords, DeriveItem, FnRecords, ImplRecords, ItemKind, ItemStart, ABI_TARGET,
    BOXED_TARGET,
};
use crate::derive::reader::{
    read_signature_model, read_signatures, read_type_model, sig_err, sig_is, sigs_are, sigs_err, texts, type_err,
    type_is, NESTING_LIMIT,
};
use crate::derive::syn_model::{SynSignature, SynType};
use crate::template::rust_types::{opt_str_model, RustStructure};
use crate::text::str_eq;

verus! {

/// The value of a `DeriveItem`: a struct or an enum by its name, or neither.
pub enum DeriveItemModel {
    Struct(Seq<char>),
    Enum(Seq<char>),
    Other,
}

impl View for DeriveItem {
    type V = DeriveItemModel;

    open spec fn view(&self) -> DeriveItemModel {
        match self {
            DeriveItem::Struct(n) => DeriveItemModel::Struct(n@),
            DeriveItem::Enum(n) => DeriveItemModel::Enum(n@),
            DeriveItem::Other => DeriveItemModel::Other,
        }
    }
}

/// What syn reads from the token text of the item a derive is applied to:
/// a struct or an enum by its name, any other item, or the message of the
/// parse error.
pub uninterp spec fn derive_input_of(text: Seq<char>) -> Result<DeriveItemModel, Seq<char>>;

/// Calls `syn::parse_str::<syn::Item>` on the token text of a derive input.
/// A struct or an enum is kept by its identifier, any other item as
/// `Other`, and an error by the text it displays. What syn reads is named by
/// `derive_input_of`, a function of the text alone.
#[verifier::external_body]
fn parse_derive_input(text: &str) -> (r: Result<DeriveItem, String>)
    ensures
        match r {
            Ok(d) => derive_input_of(text@) == Ok::<DeriveItemModel, Seq<char>>(d@),
            Err(m) => derive_input_of(text@) == Err::<DeriveItemModel, Seq<char>>(m@),
        },
{
    match syn::parse_str::<syn::Item>(text) {
        Ok(syn::Item::Struct(s)) => Ok(DeriveItem::Struct(s.ident.to_string())),
        Ok(syn::Item::Enum(e)) => Ok(DeriveItem::Enum(e.ident.to_string())),
        Ok(_) => Ok(DeriveItem::Other),
        Err(e) => Err(e.to_string()),
    }
}

/// The name of the struct or enum a derive reads from `item`, or the error:
/// that of the parse, or `msg` for any other item.
pub fn derive_name(item: Result<DeriveItem, String>, msg: &str) -> (r: DResult<String>)
    ensures
        match item {
            Err(m) => r matches Err(e) && syn_err(e, m@),
            Ok(DeriveItem::Struct(n)) => r matches Ok(x) && x@ == n@,
            Ok(DeriveItem::Enum(n)) => r matches Ok(x) && x@ == n@,
            Ok(DeriveItem::Other) => r matches Err(e) && syn_err(e, msg@),
        },
{
    match item {
        Err(m) => Err(DeriveError::SynErr(m)),
        Ok(d) => derive_target(&d, msg),
    }
}

/// What `#[derive(Boxed)]` records for the item with token text `text`: the
/// function that frees a boxed value and the boxed structure, for a struct
/// or an enum; the parse error, or `BOXED_TARGET` for any other item.
pub fn derive_boxed_records(text: &str) -> (r: DResult<BoxedRecords>)
    ensures
        match derive_input_of(text@) {
            Err(m) => r matches Err(e) && syn_err(e, m),
            Ok(DeriveItemModel::Struct(n)) => r matches Ok(b) && boxed_records_of(n, b),
            Ok(DeriveItemModel::Enum(n)) => r matches Ok(b) && boxed_records_of(n, b),
            Ok(DeriveItemModel::Other) => r matches Err(e) && syn_err(e, BOXED_TARGET@),
        },
{
    let name = match derive_name(parse_derive_input(text), BOXED_TARGET) {
        Ok(n) => n,
        Err(e) => {
            return Err(e);
        },
    };
    Ok(boxed_records(name.as_str()))
}

/// What `#[derive(Json)]` records for the item with token text `text`: the
/// structure passed as JSON text, for a struct or an enum; the parse error,
/// or `ABI_TARGET` for any other item.
pub fn derive_json_record(text: &str) -> (r: DResult<RustStructure>)
    ensures
        match derive_input_of(text@) {
            Err(m) => r matches Err(e) && syn_err(e, m),
            Ok(DeriveItemModel::Struct(n)) => r matches Ok(s) && s@ == json_structure(n),
            Ok(DeriveItemModel::Enum(n)) => r matches Ok(s) && s@ == json_structure(n),
            Ok(DeriveItemModel::Other) => r matches Err(e) && syn_err(e, ABI_TARGET@),
        },
{
    let name = match derive_name(parse_derive_input(text), ABI_TARGET) {
        Ok(n) => n,
        Err(e) => {
            return Err(e);
        },
    };
    Ok(json_record(name.as_str()))
}

/// What lexing the token text of the item `with_abi` is put on gives: the
/// identifier that is its first token, if the first token is one, or the
/// message of the lexing error.
pub uninterp spec fn first_ident_of(text: Seq<char>) -> Result<Option<Seq<char>>, Seq<char>>;

/// Lexes `text` with `proc_macro2`'s `TokenStream::from_str` and gives the
/// first token where it is an identifier (keywords such as `pub` are
/// identifiers to the lexer); an error by the text it displays. The result
/// is named by `first_ident_of`, a function of the text alone.
#[verifier::external_body]
fn lex_first_ident(text: &str) -> (r: Result<Option<String>, String>)
    ensures
        match r {
            Ok(i) => first_ident_of(text@) == Ok::<Option<Seq<char>>, Seq<char>>(opt_str_model(i)),
            Err(m) => first_ident_of(text@) == Err::<Option<Seq<char>>, Seq<char>>(m@),
        },
{
    match text.parse::<proc_macro2::TokenStream>() {
        Ok(ts) => Ok(match ts.into_iter().next() {
            Some(proc_macro2::TokenTree::Ident(i)) => Some(i.to_string()),
            _ => None,
        }),
        Err(e) => Err(e.to_string()),
    }
}

/// How the item `with_abi` is put on starts, by its first identifier.
pub open spec fn start_of(first: Option<Seq<char>>) -> ItemStart {
    match first {
        Some(i) => if i == "pub"@ {
            ItemStart::Pub
        } else if i == "crate"@ {
            ItemStart::Crate
        } else if i == "fn"@ {
            ItemStart::Fn
        } else if i == "impl"@ {
            ItemStart::Impl
        } else {
            ItemStart::Other
        },
        None => ItemStart::Other,
    }
}

/// How the item `with_abi` is put on starts.
fn item_start(first: &Option<String>) -> (r: ItemStart)
    ensures
        r == start_of(opt_str_model(*first)),
{
    match first {
        None => ItemStart::Other,
        Some(i) => if str_eq(i.as_str(), "pub") {
            ItemStart::Pub
        } else if str_eq(i.as_str(), "crate") {
            ItemStart::Crate
        } else if str_eq(i.as_str(), "fn") {
            ItemStart::Fn
        } else if str_eq(i.as_str(), "impl") {
            ItemStart::Impl
        } else {
            ItemStart::Other
        },
    }
}

/// What an item starting with `start` is read as (see `item_kind`).
pub open spec fn kind_of(start: ItemStart) -> ItemKind {
    match start {
        ItemStart::Pub | ItemStart::Crate | ItemStart::Fn => ItemKind::ItemFn,
        ItemStart::Impl => ItemKind::ItemImpl,
        ItemStart::Other => ItemKind::Neither,
    }
}

/// What syn reads from the token text of a function item: the printed text
/// of its signature.
pub uninterp spec fn item_fn_sig_of(text: Seq<char>) -> Result<Seq<char>, Seq<char>>;

/// Calls `syn::parse_str::<syn::ItemFn>` and gives the printed text of the
/// function's signature; an error by the text it displays. The result is
/// named by `item_fn_sig_of`, a function of the text alone.
#[verifier::external_body]
fn read_item_fn(text: &str) -> (r: Result<String, String>)
    ensures
        match r {
            Ok(s) => item_fn_sig_of(text@) == Ok::<Seq<char>, Seq<char>>(s@),
            Err(m) => item_fn_sig_of(text@) == Err::<Seq<char>, Seq<char>>(m@),
        },
{
    match syn::parse_str::<syn::ItemFn>(text) {
        Ok(f) => Ok(f.sig.to_token_stream().to_string()),
        Err(e) => Err(e.to_string()),
    }
}

/// An impl block as syn reads it: the printed text of the implemented type,
/// and of each member, the printed text of its signature if it is a method.
pub struct ImplParts {
    pub self_ty: String,
    pub members: Vec<Option<String>>,
}

/// The value of `ImplParts`.
pub struct ImplPartsM {
    pub self_ty: Seq<char>,
    pub members: Seq<Option<Seq<char>>>,
}

impl View for ImplParts {
    type V = ImplPartsM;

    open spec fn view(&self) -> ImplPartsM {
        ImplPartsM {
            self_ty: self.self_ty@,
            members: self.members@.map_values(|m: Option<String>| opt_str_model(m)),
        }
    }
}

/// What syn reads from the token text of an impl block.
pub uninterp spec fn item_impl_of(text: Seq<char>) -> Result<ImplPartsM, Seq<char>>;

/// Calls `syn::parse_str::<syn::ItemImpl>`: the printed text of the
/// implemented type and, for each member in order, that of its signature if
/// it is a method (`ImplItem::Method`); an error by the text it displays. The
/// result is named by `item_impl_of`, a function of the text alone.
#[verifier::external_body]
fn read_item_impl(text: &str) -> (r: Result<ImplParts, String>)
    ensures
        match r {
            Ok(p) => item_impl_of(text@) == Ok::<ImplPartsM, Seq<char>>(p@),
            Err(m) => item_impl_of(text@) == Err::<ImplPartsM, Seq<char>>(m@),
        },
{
    match syn::parse_str::<syn::ItemImpl>(text) {
        Ok(i) => Ok(ImplParts {
            self_ty: i.self_ty.to_token_stream().to_string(),
            members: i.items.iter().map(|m| match m {
                syn::ImplItem::Method(f) => Some(f.sig.to_token_stream().to_string()),
                _ => None,
            }).collect(),
        }),
        Err(e) => Err(e.to_string()),
    }
}

/// The signature texts of the methods among the members of an impl block,
/// in order.
pub open spec fn method_texts(members: Seq<Option<Seq<char>>>) -> Seq<Seq<char>>
    decreases members.len(),
{
    if members.len() == 0 {
        Seq::empty()
    } else {
        let prev = method_texts(members.drop_last());
        match members.last() {
            Some(t) => prev.push(t),
            None => prev,
        }
    }
}

/// The signature texts of the methods among `members`, in order.
fn methods_of(members: &Vec<Option<String>>) -> (r: Vec<String>)
    ensures
        texts(r@) == method_texts(members@.map_values(|m: Option<String>| opt_str_model(m))),
{
    let ghost all = members@.map_values(|m: Option<String>| opt_str_model(m));
    let mut r: Vec<String> = Vec::new();
    let mut i: usize = 0;
    while i < members.len()
        invariant
            0 <= i <= members@.len(),
            all == members@.map_values(|m: Option<String>| opt_str_model(m)),
            texts(r@) == method_texts(all.take(i as int)),
        decreases members@.len() - i,
    {
        proof {
            assert(all.take(i + 1).drop_last() =~= all.take(i as int));
        }
        match &members[i] {
            Some(t) => {
                r.push(t.clone());
                assert(texts(r@) =~= method_texts(all.take(i as int)).push(t@));
            },
            None => {},
        }
        i = i + 1;
    }
    proof {
        assert(all.take(i as int) =~= all);
    }
    r
}

/// What `with_abi` computes for an item, once read: for a function, what
/// exporting it gives; for an impl block, what exporting its methods gives.
/// Each is `None` where the library cannot compute it (see `item_ready` and
/// `impls_ready`).
#[derive(Debug, PartialEq)]
pub enum AbiRecords {
    Fn(Option<DResult<FnRecords>>),
    Impl(Option<DResult<ImplRecords>>),
}

/// Whether `r` is what exporting the function `sig` gives.
pub open spec fn fn_outcome(sig: SynSignature, record: bool, r: Option<DResult<FnRecords>>) -> bool {
    if item_ready(sig, record) {
        r matches Some(x) && fn_records_result(sig, record, x)
    } else {
        r is None
    }
}

/// Whether `r` is what exporting the methods `methods` of `self_ty` gives.
pub open spec fn impl_outcome(
    self_ty: SynType,
    methods: Seq<SynSignature>,
    record: bool,
    r: Option<DResult<ImplRecords>>,
) -> bool {
    if impls_ready(self_ty, methods, record) {
        r matches Some(x) && impl_records_result(self_ty, methods, record, x)
    } else {
        r is None
    }
}

/// Whether `r` is what `with_abi` computes for the item with token text
/// `text`. A lexing error is reported as such. An item that starts with
/// neither `pub`, `crate`, `fn` nor `impl` is refused with `ABI_TARGET`.
/// Otherwise it is read as a function or an impl block; the first error of
/// reading is reported, and else the result is what exporting the function,
/// or the methods of the impl block, gives.
pub open spec fn abi_result(text: Seq<char>, record: bool, r: DResult<AbiRecords>) -> bool {
    let n = NESTING_LIMIT as nat;
    match first_ident_of(text) {
        Err(m) => r matches Err(DeriveError::LexErr(x)) && x@ == m,
        Ok(first) => match kind_of(start_of(first)) {
            ItemKind::Neither => r matches Err(e) && syn_err(e, ABI_TARGET@),
            ItemKind::ItemFn => match item_fn_sig_of(text) {
                Err(m) => r matches Err(e) && syn_err(e, m),
                Ok(st) => match sig_err(st, n) {
                    Some(m) => r matches Err(e) && syn_err(e, m),
                    None => r matches Ok(AbiRecords::Fn(out)) && exists|sig: SynSignature|
                        #[trigger] sig_is(st, n, sig) && fn_outcome(sig, record, out),
                },
            },
            ItemKind::ItemImpl => match item_impl_of(text) {
                Err(m) => r matches Err(e) && syn_err(e, m),
                Ok(p) => match type_err(p.self_ty, n) {
                    Some(m) => r matches Err(e) && syn_err(e, m),
                    None => match sigs_err(method_texts(p.members), n) {
                        Some(m) => r matches Err(e) && syn_err(e, m),
                        None => r matches Ok(AbiRecords::Impl(out)) && exists|t: SynType, ms: Seq<SynSignature>|
                            #[trigger] type_is(p.self_ty, n, t) && #[trigger] sigs_are(method_texts(p.members), n, ms)
                                && impl_outcome(t, ms, record, out),
                    },
                },
            },
        },
    }
}

/// What `#[with_abi]` computes for the item with token text `text`: the
/// item is read as a function or an impl block, and exported; the record is
/// made only when `record` asks for it.
pub fn with_abi_records(text: &str, record: bool) -> (r: DResult<AbiRecords>)
    ensures
        abi_result(text@, record, r),
{
    let first = match lex_first_ident(text) {
        Ok(f) => f,
        Err(m) => {
            return Err(DeriveError::LexErr(m));
        },
    };
    match item_kind(item_start(&first)) {
        ItemKind::Neither => Err(DeriveError::syn(ABI_TARGET)),
        ItemKind::ItemFn => {
            let st = match read_item_fn(text) {
                Ok(s) => s,
                Err(m) => {
                    return Err(DeriveError::SynErr(m));
                },
            };
            let sig = match read_signature_model(st.as_str(), NESTING_LIMIT) {
                Ok(s) => s,
                Err(e) => {
                    return Err(e);
                },
            };
            let ghost g = sig;
            let out = if convert_item_ready(&sig, record) {
                Some(convert_item(sig, record))
            } else {
                None
            };
            assert(sig_is(st@, NESTING_LIMIT as nat, g) && fn_outcome(g, record, out));
            Ok(AbiRecords::Fn(out))
        },
        ItemKind::ItemImpl => {
            let parts = match read_item_impl(text) {
                Ok(p) => p,
                Err(m) => {
                    return Err(DeriveError::SynErr(m));
                },
            };
            let self_ty = match read_type_model(parts.self_ty.as_str(), NESTING_LIMIT) {
                Ok(t) => t,
                Err(e) => {
                    return Err(e);
                },
            };
            let sigs = methods_of(&parts.members);
            let methods = match read_signatures(&sigs, NESTING_LIMIT) {
                Ok(v) => v,
                Err(e) => {
                    return Err(e);
                },
            };
            let ghost ms = methods@;
            let out = if convert_impls_ready(&self_ty, &methods, record) {
                Some(convert_impls(&self_ty, methods, record))
            } else {
                None
            };
            assert(type_is(parts@.self_ty, NESTING_LIMIT as nat, self_ty) && sigs_are(
                method_texts(parts@.members),
                NESTING_LIMIT as nat,
                ms,
            ) && impl_outcome(self_ty, ms, record, out));
            Ok(AbiRecords::Impl(out))
        },
    }
}

} // verus!
