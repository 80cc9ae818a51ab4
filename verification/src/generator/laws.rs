//! What holds of the C-side types and records the older generator computes,
//! whatever the type.
use vstd::prelude::*;
use crate::derive::func::ArgModel;
use crate::derive::laws::{lemma_scalar_not_special, rust_scalar_name};
use crate::derive::syn_model::{GenericArg, GenericArgs, PathArgs, SynType};
use crate::generator::generate::{find_cast, gen_ptr, PtrOut};
use crate::text::has_suffix;

verus! {

/// `Result<T, ..>` and `Option<T>` take the C-side type of `T`, and are
/// recorded as a result, or an option, of the record of `T`.
pub proof fn law_gen_wrapper_types(
    first: String,
    t0: SynType,
    rest: GenericArgs,
    text: String,
    casts: Seq<(Seq<char>, SynType)>,
)
    requires
        gen_ptr(t0, casts) is Ok,
    ensures
        first@ == "Result"@ ==> gen_ptr(
            SynType::Path {
                first,
                args: PathArgs::AngleBracketed(Box::new(GenericArgs::Cons(GenericArg::Type(t0), Box::new(rest)))),
                text,
            },
            casts,
        ) == Ok::<(PtrOut, ArgModel), Seq<char>>(
            (gen_ptr(t0, casts)->Ok_0.0, ArgModel::Result(Box::new(gen_ptr(t0, casts)->Ok_0.1))),
        ),
        first@ == "Option"@ ==> gen_ptr(
            SynType::Path {
                first,
                args: PathArgs::AngleBracketed(Box::new(GenericArgs::Cons(GenericArg::Type(t0), Box::new(rest)))),
                text,
            },
            casts,
        ) == Ok::<(PtrOut, ArgModel), Seq<char>>(
            (gen_ptr(t0, casts)->Ok_0.0, ArgModel::Option(Box::new(gen_ptr(t0, casts)->Ok_0.1))),
        ),
{
    reveal_strlit("Result");
    reveal_strlit("Option");
    if first@ == "Option"@ {
        assert(first@[0] == 'O');
        assert(first@ != "Result"@);
    }
}

/// A primitive scalar type that is not carried as JSON stays as it is and is
/// recorded as that primitive.
pub proof fn law_gen_scalar(first: String, args: PathArgs, text: String, casts: Seq<(Seq<char>, SynType)>)
    requires
        rust_scalar_name(first@),
        find_cast(casts, first@) is None,
    ensures
        gen_ptr(SynType::Path { first, args, text }, casts) == Ok::<(PtrOut, ArgModel), Seq<char>>(
            (PtrOut::Keep(SynType::Path { first, args, text }), ArgModel::Pimitive(first@)),
        ),
{
    lemma_scalar_not_special(first@);
    reveal_strlit("String");
    reveal_strlit("str");
    reveal_strlit("i8");
    reveal_strlit("i16");
    reveal_strlit("i32");
    reveal_strlit("i64");
    reveal_strlit("i128");
    reveal_strlit("isize");
    reveal_strlit("u8");
    reveal_strlit("u16");
    reveal_strlit("u32");
    reveal_strlit("u64");
    reveal_strlit("u128");
    reveal_strlit("usize");
    reveal_strlit("f32");
    reveal_strlit("f64");
    reveal_strlit("bool");
    reveal_strlit("char");
    let n = first@;
    assert(!has_suffix(n, "str"@)) by {
        if has_suffix(n, "str"@) {
            let sub = n.subrange(n.len() - 3, n.len() as int);
            assert(sub == "str"@);
            assert(sub[2] == 'r');
            assert(sub[0] == 's');
            assert(n[n.len() - 1] == sub[2]);
            assert(n[n.len() - 3] == sub[0]);
            if n == "char"@ {
                assert(n[1] == 'h');
            } else if n == "i8"@ {
                assert(n.len() == 2 && n[1] == '8');
            } else if n == "i16"@ {
                assert(n.len() == 3 && n[2] == '6');
            } else if n == "i32"@ {
                assert(n.len() == 3 && n[2] == '2');
            } else if n == "i64"@ {
                assert(n.len() == 3 && n[2] == '4');
            } else if n == "i128"@ {
                assert(n.len() == 4 && n[3] == '8');
            } else if n == "isize"@ {
                assert(n.len() == 5 && n[4] == 'e');
            } else if n == "u8"@ {
                assert(n.len() == 2 && n[1] == '8');
            } else if n == "u16"@ {
                assert(n.len() == 3 && n[2] == '6');
            } else if n == "u32"@ {
                assert(n.len() == 3 && n[2] == '2');
            } else if n == "u64"@ {
                assert(n.len() == 3 && n[2] == '4');
            } else if n == "u128"@ {
                assert(n.len() == 4 && n[3] == '8');
            } else if n == "usize"@ {
                assert(n.len() == 5 && n[4] == 'e');
            } else if n == "f32"@ {
                assert(n.len() == 3 && n[2] == '2');
            } else if n == "f64"@ {
                assert(n.len() == 3 && n[2] == '4');
            } else if n == "bool"@ {
                assert(n.len() == 4 && n[3] == 'l');
            }
        }
    }
    assert(!has_suffix(n, "String"@)) by {
        if has_suffix(n, "String"@) {
            assert(n.len() <= 5);
            assert("String"@.len() == 6);
        }
    }
}

/// A type chosen to be carried as JSON keeps the type it is cast to and is
/// recorded as JSON of its name.
pub proof fn law_gen_json_cast(first: String, args: PathArgs, text: String, casts: Seq<(Seq<char>, SynType)>)
    requires
        first@ != "Result"@,
        first@ != "Option"@,
        find_cast(casts, first@) is Some,
    ensures
        gen_ptr(SynType::Path { first, args, text }, casts) == Ok::<(PtrOut, ArgModel), Seq<char>>(
            (PtrOut::Keep(find_cast(casts, first@)->Some_0), ArgModel::JSON(first@)),
        ),
{
}

/// A type whose name ends in `String` or `str`, not carried as JSON, is
/// handed over as a C string and recorded as a string.
pub proof fn law_gen_string(first: String, args: PathArgs, text: String, casts: Seq<(Seq<char>, SynType)>)
    requires
        first@ != "Result"@,
        first@ != "Option"@,
        find_cast(casts, first@) is None,
        has_suffix(first@, "String"@) || has_suffix(first@, "str"@),
    ensures
        gen_ptr(SynType::Path { first, args, text }, casts) == Ok::<(PtrOut, ArgModel), Seq<char>>(
            (PtrOut::ConstCChar, ArgModel::String),
        ),
{
}

/// Any other path type, not carried as JSON, is handed over as `*mut
/// c_void` and recorded as a pointer to its type name.
pub proof fn law_gen_object(first: String, args: PathArgs, text: String, casts: Seq<(Seq<char>, SynType)>)
    requires
        first@ != "Result"@,
        first@ != "Option"@,
        !rust_scalar_name(first@),
        find_cast(casts, first@) is None,
        !has_suffix(first@, "String"@),
        !has_suffix(first@, "str"@),
    ensures
        gen_ptr(SynType::Path { first, args, text }, casts) == Ok::<(PtrOut, ArgModel), Seq<char>>(
            (PtrOut::MutCVoid, ArgModel::Ptr(first@)),
        ),
{
}

} // verus!
