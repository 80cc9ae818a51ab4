use foreignc::derive::error::DeriveError;
use foreignc::derive::generate::ExternCall;
use foreignc::derive::items::{ABI_TARGET, BOXED_TARGET};
use foreignc::derive::parse::{derive_boxed_records, derive_json_record, with_abi_records, AbiRecords};
use foreignc::derive::reader::{read_signature_model, read_type_model, NESTING_LIMIT};
use foreignc::derive::syn_model::{GenericArg, GenericArgs, PathArgs, SynFnArg, SynPat, SynType};
use foreignc::template::rust_types::{RustTypes, StructTypes};

fn syn_message(e: DeriveError) -> String {
    match e {
        DeriveError::SynErr(m) => m,
        other => panic!("expected a syntax error, got {:?}", other),
    }
}

#[test]
fn derive_boxed_reads_struct() {
    let b = derive_boxed_records("pub struct BoxedStruct { acc: u32 }").unwrap();
    assert_eq!("free_boxed_struct", b.free_name);
    assert_eq!("BoxedStruct", b.structure.self_ty);
    assert_eq!(Some("free_boxed_struct".to_owned()), b.structure.destructor);
    assert_eq!(StructTypes::Boxed, b.structure.ty);
    assert_eq!(RustTypes::Ptr("BoxedStruct".to_owned()), b.free.ty);
}

#[test]
fn derive_boxed_reads_enum() {
    let b = derive_boxed_records("enum Colour { Red, Green }").unwrap();
    assert_eq!("Colour", b.structure.self_ty);
    assert_eq!("free_colour", b.free_name);
}

#[test]
fn derive_boxed_refuses_other_items() {
    assert_eq!(BOXED_TARGET, syn_message(derive_boxed_records("fn f() {}").unwrap_err()));
}

#[test]
fn derive_boxed_reports_parse_error() {
    let m = syn_message(derive_boxed_records("struct").unwrap_err());
    assert!(!m.is_empty());
    assert_ne!(BOXED_TARGET, m);
}

#[test]
fn derive_json_reads_struct() {
    let s = derive_json_record("#[derive(Serialize, Deserialize)] pub struct JsonStruct { pub val: u32 }").unwrap();
    assert_eq!("JsonStruct", s.self_ty);
    assert_eq!(Some("free_string".to_owned()), s.destructor);
    assert_eq!(StructTypes::Json, s.ty);
    assert!(s.methods.is_empty());
}

#[test]
fn derive_json_refuses_other_items() {
    assert_eq!(ABI_TARGET, syn_message(derive_json_record("const X: u8 = 1;").unwrap_err()));
}

#[test]
fn reads_nested_type() {
    let t = read_type_model("&mut Vec<Option<u8>>", NESTING_LIMIT).unwrap();
    let u8_ty = SynType::Path { first: "u8".to_owned(), args: PathArgs::Empty, text: "u8".to_owned() };
    let option = SynType::Path {
        first: "Option".to_owned(),
        args: PathArgs::AngleBracketed(Box::new(GenericArgs::Cons(GenericArg::Type(u8_ty), Box::new(GenericArgs::Nil)))),
        text: "Option < u8 >".to_owned(),
    };
    let vec = SynType::Path {
        first: "Vec".to_owned(),
        args: PathArgs::AngleBracketed(Box::new(GenericArgs::Cons(GenericArg::Type(option), Box::new(GenericArgs::Nil)))),
        text: "Vec < Option < u8 > >".to_owned(),
    };
    let expected = SynType::Reference { mutable: true, elem: Box::new(vec), text: "& mut Vec < Option < u8 > >".to_owned() };
    assert_eq!(expected, t);
}

#[test]
fn reads_lifetime_argument_as_other() {
    match read_type_model("Option<'a>", NESTING_LIMIT).unwrap() {
        SynType::Path { first, args: PathArgs::AngleBracketed(list), .. } => {
            assert_eq!("Option", first);
            assert_eq!(GenericArgs::Cons(GenericArg::Other("'a".to_owned()), Box::new(GenericArgs::Nil)), *list);
        }
        other => panic!("expected a path, got {:?}", other),
    }
}

#[test]
fn nesting_limit_keeps_type_whole() {
    assert_eq!(SynType::Other { text: "&u8".to_owned() }, read_type_model("&u8", 0).unwrap());
}

#[test]
fn reads_signature() {
    let s = read_signature_model("fn get(&mut self, mut x: u8) -> bool", NESTING_LIMIT).unwrap();
    assert_eq!("get", s.ident);
    assert_eq!(SynFnArg::Receiver { reference: true, mutable: true }, s.inputs[0]);
    match &s.inputs[1] {
        SynFnArg::Typed { pat, ty } => {
            assert_eq!(&SynPat::Ident { name: "x".to_owned(), mutable: true }, pat);
            assert_eq!("u8", ty.text().as_str());
        }
        other => panic!("expected a typed parameter, got {:?}", other),
    }
    assert_eq!("bool", s.output.unwrap().text().as_str());
}

#[test]
fn reads_tuple_pattern_as_other() {
    let s = read_signature_model("fn f((a, b): (u8, u8))", NESTING_LIMIT).unwrap();
    match &s.inputs[0] {
        SynFnArg::Typed { pat: SynPat::Other(text), ty: SynType::Other { .. } } => assert_eq!("(a , b)", text),
        other => panic!("expected a tuple pattern, got {:?}", other),
    }
    assert!(s.output.is_none());
}

#[test]
fn with_abi_exports_function() {
    match with_abi_records("pub fn add(a: i32, b: i32) -> i32 { a + b }", true).unwrap() {
        AbiRecords::Fn(Some(Ok(r))) => {
            assert_eq!("add_ffi", r.wrapper.ident);
            assert_eq!(ExternCall::Local { ident: "add_ffi".to_owned() }, r.wrapper.call);
            assert_eq!(2, r.wrapper.inputs.len());
            let f = r.record.unwrap();
            assert_eq!("add", f.name);
            assert_eq!(2, f.inputs.len());
        }
        other => panic!("expected the records of a function, got {:?}", other),
    }
}

#[test]
fn with_abi_without_record() {
    match with_abi_records("fn add(a: i32) -> i32 { a }", false).unwrap() {
        AbiRecords::Fn(Some(Ok(r))) => assert!(r.record.is_none()),
        other => panic!("expected the records of a function, got {:?}", other),
    }
}

#[test]
fn with_abi_exports_impl_methods() {
    let text = "impl Counter { pub fn new() -> Counter { Counter { n: 0 } } pub fn get(&self) -> u32 { self.n } const Z: u32 = 0; }";
    match with_abi_records(text, true).unwrap() {
        AbiRecords::Impl(Some(Ok(r))) => {
            assert_eq!(2, r.wrappers.len());
            assert_eq!(2, r.free_fns.len());
            let st = r.structure.unwrap();
            assert_eq!("Counter", st.self_ty);
            assert_eq!(StructTypes::RawPointer, st.ty);
            assert_eq!(2, st.methods.len());
            assert_eq!("get_counter", r.wrappers[1].ident);
            assert_eq!("*mut Counter", r.wrappers[1].inputs[0].ty);
        }
        other => panic!("expected the records of an impl block, got {:?}", other),
    }
}

#[test]
fn with_abi_refuses_struct() {
    assert_eq!(ABI_TARGET, syn_message(with_abi_records("struct X;", false).unwrap_err()));
}

#[test]
fn with_abi_reports_parse_error() {
    let m = syn_message(with_abi_records("pub struct X;", false).unwrap_err());
    assert_ne!(ABI_TARGET, m);
}

#[test]
fn with_abi_reports_lex_error() {
    match with_abi_records("fn \"open", false) {
        Err(DeriveError::LexErr(m)) => assert!(!m.is_empty()),
        other => panic!("expected a lexing error, got {:?}", other),
    }
}
