use foreignc::derive::error::DeriveError;
use foreignc::derive::generate::{
    convert_item_fn, convert_to_ptr, to_extern_item_fn, ExternCall, EXPECTED_GENERICS, NO_SELF_TYPE_NAME,
    OPTION_LIFETIME, RESULT_LIFETIME, SELF_IN_ITEM_FN,
};
use foreignc::derive::generics::GenericGenerator;
use foreignc::derive::generate::{ptr_convertible_check, sig_convertible_check};
use foreignc::derive::items::{
    boxed_records, convert_impls, convert_impls_ready, convert_item, convert_item_ready, derive_target, free_string_record, item_kind, json_record,
    DeriveItem, ItemKind, ItemStart, BOXED_TARGET,
};
use foreignc::derive::syn_model::{GenericArg, GenericArgs, PathArgs, SynFnArg, SynPat, SynSignature, SynType};
use foreignc::derive::template::{convert_to_rust_type, to_rust_func, OPTION_NOT_TYPE};
use foreignc::template::rust_types::{RustTypes, StructTypes};

fn path(name: &str) -> SynType {
    SynType::Path { first: name.to_owned(), args: PathArgs::Empty, text: name.to_owned() }
}

fn generic(name: &str, args: Vec<SynType>, text: &str) -> SynType {
    let mut list = GenericArgs::Nil;
    for a in args.into_iter().rev() {
        list = GenericArgs::Cons(GenericArg::Type(a), Box::new(list));
    }
    SynType::Path { first: name.to_owned(), args: PathArgs::AngleBracketed(Box::new(list)), text: text.to_owned() }
}

fn reference(mutable: bool, elem: SynType, text: &str) -> SynType {
    SynType::Reference { mutable, elem: Box::new(elem), text: text.to_owned() }
}

fn typed(name: &str, mutable: bool, ty: SynType) -> SynFnArg {
    SynFnArg::Typed { pat: SynPat::Ident { name: name.to_owned(), mutable }, ty }
}

fn syn_message(e: DeriveError) -> String {
    match e {
        DeriveError::SynErr(m) => m,
        _ => panic!("expected a syntax error"),
    }
}

#[test]
fn c_side_types() {
    let ok = |t: SynType| match convert_to_ptr(&t) {
        Ok(s) => s,
        Err(_) => panic!("expected a C-side type"),
    };
    assert_eq!("u32", ok(path("u32")));
    assert_eq!("*mut std::os::raw::c_char", ok(reference(false, path("str"), "& str")));
    assert_eq!("*mut BoxedStruct", ok(path("BoxedStruct")));
    assert_eq!("*mut u32", ok(generic("Option", vec![path("u32")], "Option < u32 >")));
    assert_eq!(
        "*mut CResult<*mut u32, *mut *mut std::os::raw::c_char>",
        ok(generic("Result", vec![path("u32"), path("String")], "Result < u32 , String >"))
    );
    assert_eq!("*mut [u8]", ok(SynType::Other { text: "[u8]".to_owned() }));
    let raw = SynType::Ptr { mutable: false, elem: Box::new(path("u8")), text: "* const u8".to_owned() };
    assert_eq!("* const u8", ok(raw));
}

#[test]
fn c_side_type_errors() {
    let err = |t: SynType| match convert_to_ptr(&t) {
        Ok(_) => panic!("expected an error"),
        Err(e) => syn_message(e),
    };
    assert_eq!(EXPECTED_GENERICS, err(path("Option")));
    assert_eq!(RESULT_LIFETIME, err(generic("Result", vec![path("u32")], "Result < u32 >")));
    let lifetime = SynType::Path {
        first: "Option".to_owned(),
        args: PathArgs::AngleBracketed(Box::new(GenericArgs::Cons(
            GenericArg::Other("'a".to_owned()),
            Box::new(GenericArgs::Cons(GenericArg::Type(path("u32")), Box::new(GenericArgs::Nil))),
        ))),
        text: "Option < 'a , u32 >".to_owned(),
    };
    assert_eq!(OPTION_LIFETIME, err(lifetime));
}

#[test]
fn wrapper_of_free_function() {
    let sig = SynSignature {
        ident: "add".to_owned(),
        inputs: vec![typed("a", true, path("u32")), typed("b", false, reference(false, path("str"), "& str"))],
        output: Some(generic("Option", vec![path("u32")], "Option < u32 >")),
    };
    let w = match to_extern_item_fn(sig, None) {
        Ok(w) => w,
        Err(_) => panic!("expected a wrapper"),
    };
    assert_eq!("add", w.ident);
    assert_eq!(2, w.inputs.len());
    assert_eq!(SynPat::Ident { name: "a".to_owned(), mutable: false }, w.inputs[0].pat);
    assert_eq!("u32", w.inputs[0].ty);
    assert_eq!("*mut std::os::raw::c_char", w.inputs[1].ty);
    assert_eq!("*mut foreignc::CResult<*mut u32, std::os::raw::c_char>", w.output);
    assert_eq!(ExternCall::Local { ident: "add_ffi".to_owned() }, w.call);
}

#[test]
fn wrapper_without_return_type() {
    let sig = SynSignature { ident: "noop".to_owned(), inputs: Vec::new(), output: None };
    let method = "noop".to_owned();
    let ty = path("Thing");
    let w = match to_extern_item_fn(sig, Some((&ty, &method))) {
        Ok(w) => w,
        Err(_) => panic!("expected a wrapper"),
    };
    assert_eq!("*mut foreignc::CResult<(), std::os::raw::c_char>", w.output);
    assert_eq!(ExternCall::Method { caller: path("Thing"), method: "noop".to_owned() }, w.call);
}

#[test]
fn wrapper_refuses_receiver() {
    let sig = SynSignature {
        ident: "get".to_owned(),
        inputs: vec![SynFnArg::Receiver { reference: true, mutable: false }],
        output: None,
    };
    match to_extern_item_fn(sig, None) {
        Err(e) => assert_eq!(SELF_IN_ITEM_FN, syn_message(e)),
        Ok(_) => panic!("expected an error"),
    }
}

#[test]
fn method_as_free_function() {
    let ty = path("BoxedStruct");
    let sig = SynSignature {
        ident: "inc".to_owned(),
        inputs: vec![SynFnArg::Receiver { reference: true, mutable: true }, typed("n", false, path("u32"))],
        output: None,
    };
    let f = match convert_item_fn(&ty, sig) {
        Ok(f) => f,
        Err(_) => panic!("expected a function"),
    };
    assert_eq!("inc_boxed_struct", f.ident);
    assert_eq!(typed("this", true, reference(true, path("BoxedStruct"), "& mut BoxedStruct")), f.inputs[0]);
    assert_eq!(typed("n", false, path("u32")), f.inputs[1]);
    let by_value = SynSignature {
        ident: "get".to_owned(),
        inputs: vec![SynFnArg::Receiver { reference: false, mutable: false }],
        output: Some(path("u32")),
    };
    match convert_item_fn(&ty, by_value) {
        Ok(g) => {
            assert_eq!("get_boxed_struct", g.ident);
            assert_eq!(typed("this", false, path("BoxedStruct")), g.inputs[0]);
            assert_eq!(Some(path("u32")), g.output);
        },
        Err(_) => panic!("expected a function"),
    }
    let other = SynType::Other { text: "[u8]".to_owned() };
    let sig2 = SynSignature { ident: "len".to_owned(), inputs: Vec::new(), output: None };
    match convert_item_fn(&other, sig2) {
        Err(e) => assert_eq!(NO_SELF_TYPE_NAME, syn_message(e)),
        Ok(_) => panic!("expected an error"),
    }
}

#[test]
fn recorded_types() {
    let rec = |t: SynType| match convert_to_rust_type(&t) {
        Ok(r) => r,
        Err(_) => panic!("expected a record"),
    };
    assert_eq!(RustTypes::Primitive("u32".to_owned()), rec(path("u32")));
    assert_eq!(RustTypes::String, rec(reference(false, path("str"), "& str")));
    assert_eq!(RustTypes::Ptr("Foo".to_owned()), rec(path("Foo")));
    assert_eq!(RustTypes::Option(Box::new(RustTypes::String)), rec(generic("Option", vec![path("String")], "Option < String >")));
    assert_eq!(RustTypes::Ptr("c_void".to_owned()), rec(SynType::Other { text: "[u8]".to_owned() }));
    match convert_to_rust_type(&path("Option")) {
        Err(e) => assert_eq!("Expected generic arguments after Result or Option", syn_message(e)),
        Ok(_) => panic!("expected an error"),
    }
    let _ = OPTION_NOT_TYPE;
}

#[test]
fn recorded_function() {
    let sig = SynSignature {
        ident: "add".to_owned(),
        inputs: vec![typed("a", false, path("i32")), typed("b", false, path("i32"))],
        output: Some(path("i32")),
    };
    let f = match to_rust_func(&sig, None) {
        Ok(f) => f,
        Err(_) => panic!("expected a record"),
    };
    assert_eq!("add", f.name);
    assert_eq!("add", f.extern_name);
    assert_eq!(2, f.inputs.len());
    assert_eq!("b", f.inputs[1].name);
    assert_eq!(Some(RustTypes::Primitive("i32".to_owned())), f.output);
    let method = "get".to_owned();
    let ty = path("Counter");
    let sig2 = SynSignature { ident: "get_counter".to_owned(), inputs: Vec::new(), output: None };
    let g = match to_rust_func(&sig2, Some((&ty, &method))) {
        Ok(g) => g,
        Err(_) => panic!("expected a record"),
    };
    assert_eq!("get", g.name);
    assert_eq!("get_counter", g.extern_name);
}

#[test]
fn exported_free_function() {
    let sig = SynSignature { ident: "return_number".to_owned(), inputs: Vec::new(), output: Some(path("u32")) };
    let r = match convert_item(sig, true) {
        Ok(r) => r,
        Err(_) => panic!("expected records"),
    };
    match &r.record {
        Some(f) => assert_eq!("return_number", f.name),
        None => panic!("recording was asked for"),
    }
    assert_eq!("return_number_ffi", r.wrapper.ident);
    assert_eq!("*mut foreignc::CResult<u32, std::os::raw::c_char>", r.wrapper.output);
}

#[test]
fn exported_impl_block() {
    let ty = path("BoxedStruct");
    let methods = vec![
        SynSignature { ident: "new".to_owned(), inputs: Vec::new(), output: Some(path("BoxedStruct")) },
        SynSignature {
            ident: "get".to_owned(),
            inputs: vec![SynFnArg::Receiver { reference: true, mutable: false }],
            output: Some(path("u32")),
        },
    ];
    assert!(convert_impls_ready(&ty, &methods, true));
    let r = match convert_impls(&ty, methods, true) {
        Ok(r) => r,
        Err(_) => panic!("expected records"),
    };
    let st = match &r.structure {
        Some(st) => st,
        None => panic!("recording was asked for"),
    };
    assert_eq!("BoxedStruct", st.self_ty);
    assert_eq!(StructTypes::RawPointer, st.ty);
    assert_eq!(2, st.methods.len());
    assert_eq!("new", st.methods[0].name);
    assert_eq!("new_boxed_struct", st.methods[0].extern_name);
    assert_eq!("get_boxed_struct", r.free_fns[1].ident);
    assert_eq!("get_boxed_struct", r.wrappers[1].ident);
    assert_eq!("*mut BoxedStruct", r.wrappers[1].inputs[0].ty);
    assert_eq!(ExternCall::Method { caller: path("BoxedStruct"), method: "get".to_owned() }, r.wrappers[1].call);
}

#[test]
fn derive_records() {
    let b = boxed_records("BoxedStruct");
    assert_eq!("free_boxed_struct", b.free_name);
    assert_eq!("free_boxed_struct", b.free.func.name);
    assert_eq!(RustTypes::Ptr("BoxedStruct".to_owned()), b.free.ty);
    assert_eq!(Some("free_boxed_struct".to_owned()), b.structure.destructor);
    assert_eq!(StructTypes::Boxed, b.structure.ty);
    let j = json_record("JsonStruct");
    assert_eq!(Some("free_string".to_owned()), j.destructor);
    assert_eq!(StructTypes::Json, j.ty);
    let f = free_string_record();
    assert_eq!("free_string", f.func.name);
    assert_eq!(RustTypes::String, f.func.inputs[0].ty);
}

#[test]
fn derive_target_names() {
    match derive_target(&DeriveItem::Struct("A".to_owned()), BOXED_TARGET) {
        Ok(n) => assert_eq!("A", n),
        Err(_) => panic!("a struct is a target"),
    }
    match derive_target(&DeriveItem::Other, BOXED_TARGET) {
        Err(e) => assert_eq!(BOXED_TARGET, syn_message(e)),
        Ok(_) => panic!("expected an error"),
    }
}

#[test]
fn item_kinds() {
    assert_eq!(ItemKind::ItemFn, item_kind(ItemStart::Pub));
    assert_eq!(ItemKind::ItemFn, item_kind(ItemStart::Fn));
    assert_eq!(ItemKind::ItemImpl, item_kind(ItemStart::Impl));
    assert_eq!(ItemKind::Neither, item_kind(ItemStart::Other));
}

#[test]
fn generic_names_in_turn() {
    let mut g = GenericGenerator::new();
    assert_eq!('A', g.get_generic());
    assert_eq!('B', g.get_generic());
    assert_eq!(vec!['A', 'B'], g.generics);
    for _ in 0..24 {
        g.get_generic();
    }
    assert_eq!('Z', g.generics[25]);
}

#[test]
fn derive_error_messages() {
    assert_eq!("m", DeriveError::syn("m").message());
    assert_eq!("l", DeriveError::LexErr("l".to_owned()).message());
}

#[test]
fn result_function_exported_without_record() {
    let sig = SynSignature {
        ident: "return_ok_number".to_owned(),
        inputs: Vec::new(),
        output: Some(generic("Result", vec![path("u32"), reference(false, path("str"), "& str")], "Result < u32 , & str >")),
    };
    assert!(convert_item_ready(&sig, false));
    assert!(!convert_item_ready(&sig, true));
    let r = match convert_item(sig, false) {
        Ok(r) => r,
        Err(_) => panic!("expected a wrapper"),
    };
    assert!(r.record.is_none());
    assert_eq!("return_ok_number_ffi", r.wrapper.ident);
    assert_eq!(
        "*mut foreignc::CResult<*mut CResult<*mut u32, *mut *mut std::os::raw::c_char>, std::os::raw::c_char>",
        r.wrapper.output
    );
}

#[test]
fn result_method_exported_without_record() {
    let ty = path("Counter");
    let methods = vec![SynSignature {
        ident: "check".to_owned(),
        inputs: vec![SynFnArg::Receiver { reference: true, mutable: false }],
        output: Some(generic("Result", vec![path("u32"), path("String")], "Result < u32 , String >")),
    }];
    assert!(convert_impls_ready(&ty, &methods, false));
    assert!(!convert_impls_ready(&ty, &methods, true));
    let r = match convert_impls(&ty, methods, false) {
        Ok(r) => r,
        Err(_) => panic!("expected wrappers"),
    };
    assert!(r.structure.is_none());
    assert_eq!("check_counter", r.wrappers[0].ident);
}

#[test]
fn readiness_stops_at_first_error() {
    let bad_option = path("Option");
    let never_read = generic("Option", Vec::new(), "Option < >");
    assert!(!ptr_convertible_check(&never_read));
    let sig = SynSignature {
        ident: "f".to_owned(),
        inputs: vec![typed("a", false, bad_option), typed("b", false, never_read)],
        output: None,
    };
    assert!(sig_convertible_check(&sig));
    match to_extern_item_fn(sig, None) {
        Err(e) => assert_eq!(EXPECTED_GENERICS, syn_message(e)),
        Ok(_) => panic!("expected an error"),
    }
    let res = generic("Result", vec![path("Option"), generic("Option", Vec::new(), "Option < >")], "Result < Option , Option < > >");
    assert!(ptr_convertible_check(&res));
}
