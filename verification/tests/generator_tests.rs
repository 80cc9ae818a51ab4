use foreignc::derive::error::DeriveError;
use foreignc::derive::func::{Arg, Function, ABI};
use foreignc::derive::syn_model::{GenericArg, GenericArgs, PathArgs, SynFnArg, SynPat, SynSignature, SynType};
use foreignc::generator::generate::{convert_item_fn, convert_to_ptr, to_extern_item_fn, TypeCast, Types, NO_IMPL_PATH};

fn path(name: &str) -> SynType {
    SynType::Path { first: name.to_owned(), args: PathArgs::Empty, text: name.to_owned() }
}

fn option_of(t: SynType) -> SynType {
    SynType::Path {
        first: "Option".to_owned(),
        args: PathArgs::AngleBracketed(Box::new(GenericArgs::Cons(GenericArg::Type(t), Box::new(GenericArgs::Nil)))),
        text: "Option < _ >".to_owned(),
    }
}

fn std_path(text: &str) -> SynType {
    SynType::Path { first: "std".to_owned(), args: PathArgs::Empty, text: text.to_owned() }
}

fn ptr(mutable: bool, elem: SynType, text: &str) -> SynType {
    SynType::Ptr { mutable, elem: Box::new(elem), text: text.to_owned() }
}

fn typed(name: &str, mutable: bool, ty: SynType) -> SynFnArg {
    SynFnArg::Typed { pat: SynPat::Ident { name: name.to_owned(), mutable }, ty }
}

fn json_cast() -> Vec<TypeCast> {
    vec![TypeCast {
        ty0: "JsonStruct".to_owned(),
        ty1: ptr(true, std_path("std::os::raw::c_char"), "*mut std::os::raw::c_char"),
        ty: Types::JSON,
    }]
}

fn conv(t: SynType, casts: &Vec<TypeCast>) -> (SynType, Arg) {
    match convert_to_ptr(&t, casts) {
        Ok(r) => r,
        Err(_) => panic!("expected a conversion"),
    }
}

#[test]
fn generator_c_side_types() {
    let casts = json_cast();
    assert_eq!((path("u32"), Arg::Pimitive("u32".to_owned())), conv(path("u32"), &casts));
    assert_eq!(
        (ptr(false, std_path("std::os::raw::c_char"), "*const std::os::raw::c_char"), Arg::String),
        conv(path("MyString"), &casts)
    );
    assert_eq!(
        (ptr(false, std_path("std::os::raw::c_char"), "*const std::os::raw::c_char"), Arg::String),
        conv(path("str"), &casts)
    );
    assert_eq!(
        (ptr(true, std_path("std::ffi::c_void"), "*mut std::ffi::c_void"), Arg::Ptr("Vec".to_owned())),
        conv(path("Vec"), &casts)
    );
    assert_eq!(
        (ptr(true, std_path("std::os::raw::c_char"), "*mut std::os::raw::c_char"), Arg::JSON("JsonStruct".to_owned())),
        conv(path("JsonStruct"), &casts)
    );
    assert_eq!(
        (path("u8"), Arg::Option(Box::new(Arg::Pimitive("u8".to_owned())))),
        conv(option_of(path("u8")), &casts)
    );
    let other = SynType::Other { text: "[u8]".to_owned() };
    assert_eq!(
        (ptr(true, other.clone_shape(), "*mut [u8]"), Arg::Ptr("Unknown".to_owned())),
        conv(other, &casts)
    );
    let raw = ptr(false, path("u8"), "* const u8");
    assert_eq!((ptr(false, path("u8"), "* const u8"), Arg::Ptr("Raw".to_owned())), conv(raw, &casts));
}

trait CloneShape {
    fn clone_shape(&self) -> SynType;
}

impl CloneShape for SynType {
    fn clone_shape(&self) -> SynType {
        self.duplicate()
    }
}

#[test]
fn generator_conversion_errors() {
    let casts: Vec<TypeCast> = Vec::new();
    match convert_to_ptr(&path("Result"), &casts) {
        Err(DeriveError::SynErr(m)) => assert_eq!("Expected generic arguments after Result or Option", m),
        _ => panic!("expected an error"),
    }
    let lifetime = SynType::Path {
        first: "Option".to_owned(),
        args: PathArgs::AngleBracketed(Box::new(GenericArgs::Cons(
            GenericArg::Other("'a".to_owned()),
            Box::new(GenericArgs::Nil),
        ))),
        text: "Option < 'a >".to_owned(),
    };
    match convert_to_ptr(&lifetime, &casts) {
        Err(DeriveError::SynErr(m)) => assert_eq!("Result or option should not have lifetime", m),
        _ => panic!("expected an error"),
    }
}

#[test]
fn generator_wrapper_of_method() {
    let casts: Vec<TypeCast> = Vec::new();
    let sig = SynSignature {
        ident: "get".to_owned(),
        inputs: vec![typed("this", true, ptr(false, path("Foo"), "* const Foo")), typed("n", false, path("u32"))],
        output: Some(ptr(false, path("u8"), "* const u8")),
    };
    let foo = path("Foo");
    let (w, f) = match to_extern_item_fn(sig, &casts, Some(&foo)) {
        Ok(r) => r,
        Err(_) => panic!("expected a wrapper"),
    };
    assert_eq!("get_Foo_ffi", w.ident);
    assert_eq!(typed("this", false, ptr(false, path("Foo"), "* const Foo")), w.inputs[0]);
    assert_eq!(typed("n", false, path("u32")), w.inputs[1]);
    assert_eq!(Some(ptr(true, path("u8"), "*mut u8")), w.output);
    assert_eq!("get", f.name);
    assert_eq!("get_Foo_ffi", f.extern_name);
    assert_eq!(
        vec![("this".to_owned(), Arg::Ptr("Raw".to_owned())), ("n".to_owned(), Arg::Pimitive("u32".to_owned()))],
        f.inputs
    );
    assert_eq!(Some(Arg::Ptr("Raw".to_owned())), f.output);
}

#[test]
fn generator_wrapper_of_function() {
    let casts: Vec<TypeCast> = Vec::new();
    let sig = SynSignature { ident: "hello".to_owned(), inputs: Vec::new(), output: Some(path("String")) };
    let (w, f) = match to_extern_item_fn(sig, &casts, None) {
        Ok(r) => r,
        Err(_) => panic!("expected a wrapper"),
    };
    assert_eq!("hello_ffi", w.ident);
    assert_eq!(Some(ptr(true, std_path("std::os::raw::c_char"), "*mut std::os::raw::c_char")), w.output);
    assert_eq!(Some(Arg::String), f.output);
    assert!(f.inputs.is_empty());
}

#[test]
fn generator_wrapper_errors() {
    let casts: Vec<TypeCast> = Vec::new();
    let with_self = SynSignature {
        ident: "get".to_owned(),
        inputs: vec![SynFnArg::Receiver { reference: true, mutable: false }],
        output: None,
    };
    match to_extern_item_fn(with_self, &casts, None) {
        Err(DeriveError::SynErr(m)) => assert_eq!("Cannot have self in item fn", m),
        _ => panic!("expected an error"),
    }
    let plain = SynSignature { ident: "len".to_owned(), inputs: Vec::new(), output: None };
    let other = SynType::Other { text: "[u8]".to_owned() };
    match to_extern_item_fn(plain, &casts, Some(&other)) {
        Err(DeriveError::SynErr(m)) => assert_eq!(NO_IMPL_PATH, m),
        _ => panic!("expected an error"),
    }
}

#[test]
fn generator_method_keeps_name() {
    let ty = path("Foo");
    let sig = SynSignature {
        ident: "get".to_owned(),
        inputs: vec![SynFnArg::Receiver { reference: false, mutable: true }],
        output: None,
    };
    let f = convert_item_fn(&ty, sig);
    assert_eq!("get", f.ident);
    assert_eq!(typed("this", true, path("Foo")), f.inputs[0]);
}

#[test]
fn function_records_default_empty() {
    let f = Function::default();
    assert!(f.name.is_empty() && f.inputs.is_empty() && f.output.is_none());
    let a = ABI::default();
    assert!(a.methods.is_empty() && a.implements.is_empty());
}
