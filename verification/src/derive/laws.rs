//! What holds of the C-side and recorded types the attribute macro computes,
//! whatever the type.
use vstd::prelude::*;
use crate::derive::generate::ptr_text;
use crate::derive::syn_model::{GenericArg, GenericArgs, PathArgs, SynType};
use crate::derive::template::rust_type_of;
use crate::template::rust_types::TyModel;

verus! {

/// The names of Rust's primitive scalar types.
pub open spec fn rust_scalar_name(n: Seq<char>) -> bool {
    n == "i8"@ || n == "i16"@ || n == "i32"@ || n == "i64"@ || n == "i128"@ || n == "isize"@ || n == "u8"@
        || n == "u16"@ || n == "u32"@ || n == "u64"@ || n == "u128"@ || n == "usize"@ || n == "f32"@
        || n == "f64"@ || n == "bool"@ || n == "char"@
}

/// A scalar name is none of the names the conversions treat specially:
/// `Result`, `Option`, `String` and `str`.
pub proof fn lemma_scalar_not_special(n: Seq<char>)
    requires
        rust_scalar_name(n),
    ensures
        n != "Result"@,
        n != "Option"@,
        n != "String"@,
        n != "str"@,
{
    reveal_strlit("i8");
    reveal_strlit("i16");
    reveal_strlit("i32");
    reveal_strlit("i64");
    reveal_strlit("i128");
    reveal_strlit("isize");
    reveal_strlit("u8");
    reveal_strlit("u16");
    reveal_strlit("u32");
    reveal_strlit("u64");
    reveal_strlit("u128");
    reveal_strlit("usize");
    reveal_strlit("f32");
    reveal_strlit("f64");
    reveal_strlit("bool");
    reveal_strlit("char");
    reveal_strlit("Result");
    reveal_strlit("Option");
    reveal_strlit("String");
    reveal_strlit("str");
    assert(n[0] == 'i' || n[0] == 'u' || n[0] == 'f' || n[0] == 'b' || n[0] == 'c');
}

/// A primitive scalar type crosses the C boundary by value: its C-side type
/// is the type itself, as written, and it is recorded as that primitive,
/// whatever generic arguments follow its name.
pub proof fn law_scalar_by_value(first: String, args: PathArgs, text: String)
    requires
        rust_scalar_name(first@),
    ensures
        ptr_text(SynType::Path { first, args, text }) == Ok::<Seq<char>, Seq<char>>(text@),
        rust_type_of(SynType::Path { first, args, text }) == Ok::<TyModel, Seq<char>>(TyModel::Primitive(first@)),
{
    lemma_scalar_not_special(first@);
}

/// A string type, `String` or `str`, crosses the boundary as a C string
/// and is recorded as a string.
pub proof fn law_string_by_c_char(first: String, args: PathArgs, text: String)
    requires
        first@ == "String"@ || first@ == "str"@,
    ensures
        ptr_text(SynType::Path { first, args, text }) == Ok::<Seq<char>, Seq<char>>("*mut std::os::raw::c_char"@),
        rust_type_of(SynType::Path { first, args, text }) == Ok::<TyModel, Seq<char>>(TyModel::String),
{
    reveal_strlit("String");
    reveal_strlit("str");
    reveal_strlit("Result");
    reveal_strlit("Option");
    reveal_strlit("i8");
    reveal_strlit("i16");
    reveal_strlit("i32");
    reveal_strlit("i64");
    reveal_strlit("i128");
    reveal_strlit("isize");
    reveal_strlit("u8");
    reveal_strlit("u16");
    reveal_strlit("u32");
    reveal_strlit("u64");
    reveal_strlit("u128");
    reveal_strlit("usize");
    reveal_strlit("f32");
    reveal_strlit("f64");
    reveal_strlit("bool");
    reveal_strlit("char");
    let n = first@;
    assert(n[0] == 'S' || n[0] == 's');
}

/// Any other path type, named neither as a scalar nor `Result`, `Option`,
/// `String` or `str`, is an object handed over by a mutable pointer to its
/// first path segment, and is recorded as a pointer to that type.
pub proof fn law_object_by_pointer(first: String, args: PathArgs, text: String)
    requires
        !rust_scalar_name(first@),
        first@ != "Result"@,
        first@ != "Option"@,
        first@ != "String"@,
        first@ != "str"@,
    ensures
        ptr_text(SynType::Path { first, args, text }) == Ok::<Seq<char>, Seq<char>>("*mut "@ + first@),
        rust_type_of(SynType::Path { first, args, text }) == Ok::<TyModel, Seq<char>>(TyModel::Ptr(first@)),
{
}

/// A reference is looked through: `&T` and `&mut T` cross the boundary and
/// are recorded as `T` is.
pub proof fn law_reference_looked_through(mutable: bool, elem: SynType, text: String)
    ensures
        ptr_text(SynType::Reference { mutable, elem: Box::new(elem), text }) == ptr_text(elem),
        rust_type_of(SynType::Reference { mutable, elem: Box::new(elem), text }) == rust_type_of(elem),
{
}

/// `Option<T>` crosses the boundary as a pointer to what `T` crosses as, and
/// is recorded as an option of the record of `T`.
pub proof fn law_option_by_pointer(first: String, t0: SynType, rest: GenericArgs, text: String)
    requires
        first@ == "Option"@,
        ptr_text(t0) is Ok,
        rust_type_of(t0) is Ok,
    ensures
        ptr_text(
            SynType::Path {
                first,
                args: PathArgs::AngleBracketed(Box::new(GenericArgs::Cons(GenericArg::Type(t0), Box::new(rest)))),
                text,
            },
        ) == Ok::<Seq<char>, Seq<char>>("*mut "@ + ptr_text(t0)->Ok_0),
        rust_type_of(
            SynType::Path {
                first,
                args: PathArgs::AngleBracketed(Box::new(GenericArgs::Cons(GenericArg::Type(t0), Box::new(rest)))),
                text,
            },
        ) == Ok::<TyModel, Seq<char>>(TyModel::Option(Box::new(rust_type_of(t0)->Ok_0))),
{
    reveal_strlit("Result");
    reveal_strlit("Option");
    assert(first@[0] == 'O');
}

} // verus!
