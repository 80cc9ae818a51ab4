use foreignc::template::error::TemplateError;
use foreignc::template::py_gen::{RustContext, MISSING_FREE_STRING};
use foreignc::template::py_types::{FunctionABI, PythonTypes, StructureABI};
use foreignc::template::rust_types::{
    FreeFunction, Function, MetaType, RustArgument, RustFunction, RustStructure, RustTypes,
    StructTypes, Structure,
};

fn arg(name: &str, ty: RustTypes) -> RustArgument {
    RustArgument { name: name.to_owned(), ty }
}

fn func(name: &str, extern_name: &str, inputs: Vec<RustArgument>, output: Option<RustTypes>) -> RustFunction {
    Function { name: name.to_owned(), extern_name: extern_name.to_owned(), inputs, output }
}

fn structure(name: &str, methods: Vec<RustFunction>, destructor: Option<&str>, ty: StructTypes) -> RustStructure {
    Structure { self_ty: name.to_owned(), methods, destructor: destructor.map(|d| d.to_owned()), ty }
}

fn fixture() -> RustContext {
    RustContext {
        funcs: vec![
            func(
                "ASomeFunc",
                "AExternName",
                vec![arg("a", RustTypes::Option(Box::new(RustTypes::String))), arg("b", RustTypes::Primitive("bool".to_owned()))],
                Some(RustTypes::Primitive("u32".to_owned())),
            ),
            func(
                "BSomeFunc",
                "BExternName",
                vec![arg("a", RustTypes::String), arg("b", RustTypes::Primitive("bool".to_owned()))],
                Some(RustTypes::Primitive("u32".to_owned())),
            ),
        ],
        free_funcs: Vec::new(),
        structs: Vec::new(),
    }
}

#[test]
fn build_context_of_two_functions() {
    let ctx = match fixture().create_context(None) {
        Ok(c) => c,
        Err(_) => panic!("no string is returned"),
    };
    assert_eq!("ForeigncTemplateLib", ctx.lib_name);
    assert_eq!(2, ctx.abis.len());
    let a = &ctx.abis[0];
    assert_eq!("AExternName", a.extern_name);
    assert_eq!(vec!["Option[LibString]".to_owned(), "bool".to_owned()], a.extern_inputs);
    assert_eq!(Some("int".to_owned()), a.extern_output);
    assert_eq!(vec!["a".to_owned(), "b".to_owned()], a.arg_list);
    assert!(!a.is_method);
    assert_eq!("ASomeFunc", a.sig_name);
    assert_eq!(vec!["a: Option[str]".to_owned(), "b: bool".to_owned()], a.sig_inputs);
    assert_eq!(Some("int".to_owned()), a.sig_output);
    assert_eq!("BExternName", ctx.abis[1].extern_name);
    assert_eq!(vec!["LibString".to_owned(), "bool".to_owned()], ctx.abis[1].extern_inputs);
    assert!(ctx.boxes.is_empty());
    assert!(ctx.jsons.is_empty());
    assert!(ctx.pointers.is_empty());
}

#[test]
fn context_takes_given_lib_name() {
    let ctx = match fixture().create_context(Some("MyLib".to_owned())) {
        Ok(c) => c,
        Err(_) => panic!("no string is returned"),
    };
    assert_eq!("MyLib", ctx.lib_name);
}

#[test]
fn returned_string_needs_free_string() {
    let mut c = fixture();
    c.funcs.push(func("greet", "greet_ffi", Vec::new(), Some(RustTypes::String)));
    match c.create_context(None) {
        Err(TemplateError::MessageErr(m)) => assert_eq!(MISSING_FREE_STRING, m),
        _ => panic!("expected the missing free_string error"),
    }
    c.free_funcs.push(FreeFunction {
        ty: RustTypes::String,
        func: func("free_string", "free_string", vec![arg("ptr", RustTypes::String)], None),
    });
    assert!(c.create_context(None).is_ok());
}

#[test]
fn json_structure_needs_free_string() {
    let mut c = RustContext::new();
    c.add_struct(structure("JsonStruct", Vec::new(), Some("free_string"), StructTypes::Json));
    assert!(c.create_context(None).is_err());
    c.funcs.push(func("free_string", "free_string", vec![arg("ptr", RustTypes::String)], None));
    let ctx = match c.create_context(None) {
        Ok(ctx) => ctx,
        Err(_) => panic!("free_string is recorded"),
    };
    assert_eq!(1, ctx.jsons.len());
    assert_eq!("JsonStruct", ctx.jsons[0].self_ty);
}

#[test]
fn unknown_pointer_becomes_raw_structure() {
    let mut c = RustContext::new();
    c.funcs.push(func("make", "make_ffi", Vec::new(), Some(RustTypes::Ptr("Foo".to_owned()))));
    let ctx = match c.create_context(None) {
        Ok(ctx) => ctx,
        Err(_) => panic!("nothing refused"),
    };
    assert_eq!(1, ctx.pointers.len());
    assert_eq!("Foo", ctx.pointers[0].self_ty);
    assert!(ctx.pointers[0].methods.is_empty());
    assert_eq!(None, ctx.pointers[0].destructor);
    assert_eq!(StructTypes::RawPointer, ctx.pointers[0].ty);
    assert_eq!(Some("Foo".to_owned()), ctx.abis[0].extern_output);
}

#[test]
fn boxed_structure_methods_are_converted() {
    let mut c = RustContext::new();
    c.add_struct(structure(
        "Counter",
        vec![func(
            "get",
            "get_counter",
            vec![arg("this", RustTypes::Ptr("Counter".to_owned()))],
            Some(RustTypes::Primitive("u32".to_owned())),
        )],
        Some("free_counter"),
        StructTypes::Boxed,
    ));
    let ctx = match c.create_context(None) {
        Ok(ctx) => ctx,
        Err(_) => panic!("nothing refused"),
    };
    assert_eq!(1, ctx.boxes.len());
    let b: &StructureABI = &ctx.boxes[0];
    assert_eq!("Counter", b.self_ty);
    assert_eq!(Some("free_counter".to_owned()), b.destructor);
    let m: &FunctionABI = &b.methods[0];
    assert!(m.is_method);
    assert_eq!(vec!["self".to_owned()], m.arg_list);
    assert!(m.sig_inputs.is_empty());
    assert_eq!(vec!["Counter".to_owned()], m.extern_inputs);
    // The structure is taken off the list before its methods are converted,
    // so its own pointer type is met again as a raw pointer.
    assert_eq!(1, ctx.pointers.len());
    assert_eq!("Counter", ctx.pointers[0].self_ty);
}

#[test]
fn add_struct_keeps_order_and_merges() {
    let mut c = RustContext::new();
    c.add_struct(structure("B", Vec::new(), None, StructTypes::Boxed));
    c.add_struct(structure("A", Vec::new(), Some("free_a"), StructTypes::Boxed));
    c.add_struct(structure("C", Vec::new(), None, StructTypes::Boxed));
    c.add_struct(structure("B", vec![func("get", "get_b", Vec::new(), None)], Some("free_b"), StructTypes::Json));
    let names: Vec<&str> = c.structs.iter().map(|s| s.self_ty.as_str()).collect();
    assert_eq!(vec!["A", "B", "C"], names);
    assert_eq!(1, c.structs[1].methods.len());
    assert_eq!(Some("free_b".to_owned()), c.structs[1].destructor);
    assert_eq!(StructTypes::Boxed, c.structs[1].ty);
    c.add_struct(structure("B", Vec::new(), None, StructTypes::Boxed));
    assert_eq!(Some("free_b".to_owned()), c.structs[1].destructor);
    assert_eq!(3, c.structs.len());
}

#[test]
fn append_and_add_meta() {
    let mut c = RustContext::new();
    c.add_meta(MetaType::Func(func("f", "f_ffi", Vec::new(), None)));
    c.add_meta(MetaType::Struct(structure("S", Vec::new(), None, StructTypes::Boxed)));
    let mut other = RustContext::new();
    other.add_meta(MetaType::Func(func("g", "g_ffi", Vec::new(), None)));
    other.add_meta(MetaType::Struct(structure("R", Vec::new(), None, StructTypes::Boxed)));
    c.append(other);
    let funcs: Vec<&str> = c.funcs.iter().map(|f| f.name.as_str()).collect();
    assert_eq!(vec!["f", "g"], funcs);
    let names: Vec<&str> = c.structs.iter().map(|s| s.self_ty.as_str()).collect();
    assert_eq!(vec!["R", "S"], names);
}

#[test]
fn python_types_hints() {
    let mut structs: Vec<RustStructure> = Vec::new();
    let t = RustTypes::Result(Box::new(RustTypes::Primitive("f64".to_owned())), Box::new(RustTypes::String));
    let p = PythonTypes::from_rust(&t, &mut structs);
    assert_eq!("Result[float, str]", p.get_hint());
    assert_eq!("Result[float, LibString]", p.get_extern());
    assert!(structs.is_empty());
    let q = PythonTypes::from_rust(&RustTypes::Ptr("Foo".to_owned()), &mut structs);
    assert_eq!("Foo", q.get_hint());
    assert_eq!(1, structs.len());
    let _ = PythonTypes::from_rust(&RustTypes::Ptr("Foo".to_owned()), &mut structs);
    assert_eq!(1, structs.len());
}

#[test]
fn rust_type_spelling() {
    let t = RustTypes::Option(Box::new(RustTypes::Result(
        Box::new(RustTypes::Ptr("Foo".to_owned())),
        Box::new(RustTypes::String),
    )));
    assert_eq!("Option<Result<*mut Foo, String>>", t.to_string());
    assert_eq!("u8", RustTypes::Primitive("u8".to_owned()).to_string());
}

#[test]
fn template_error_messages() {
    assert_eq!("boom", TemplateError::IoErr("boom".to_owned()).message());
    assert_eq!(MISSING_FREE_STRING, TemplateError::MessageErr(MISSING_FREE_STRING.to_owned()).message());
}

#[test]
fn supported_and_refused_before_conversion() {
    let mut c = RustContext::new();
    assert!(c.supported());
    c.funcs.push(func("f", "f_ffi", vec![arg("a", RustTypes::Primitive("i9".to_owned()))], Some(RustTypes::String)));
    assert!(!c.supported());
    match c.create_context(None) {
        Err(TemplateError::MessageErr(m)) => assert_eq!(MISSING_FREE_STRING, m),
        _ => panic!("expected the missing free_string error"),
    }
}

#[test]
fn second_conversion_adds_nothing() {
    let mut structs: Vec<RustStructure> = Vec::new();
    let t = RustTypes::Result(Box::new(RustTypes::Ptr("A".to_owned())), Box::new(RustTypes::Ptr("B".to_owned())));
    let first = PythonTypes::from_rust(&t, &mut structs);
    assert_eq!(2, structs.len());
    let second = PythonTypes::from_rust(&t, &mut structs);
    assert_eq!(2, structs.len());
    assert_eq!(first.get_hint(), second.get_hint());
}

#[test]
fn converting_type_appends_new_pointer_structs_in_order() {
    let mut structs = vec![structure("A", Vec::new(), Some("free_a"), StructTypes::Boxed)];
    let t = RustTypes::Result(
        Box::new(RustTypes::Ptr("C".to_owned())),
        Box::new(RustTypes::Option(Box::new(RustTypes::Result(
            Box::new(RustTypes::Ptr("A".to_owned())),
            Box::new(RustTypes::Ptr("B".to_owned())),
        )))),
    );
    let t2 = RustTypes::Result(Box::new(RustTypes::Ptr("B".to_owned())), Box::new(RustTypes::Ptr("C".to_owned())));
    let _ = PythonTypes::from_rust(&t, &mut structs);
    let _ = PythonTypes::from_rust(&t2, &mut structs);
    assert_eq!(3, structs.len());
    assert_eq!(structure("A", Vec::new(), Some("free_a"), StructTypes::Boxed), structs[0]);
    assert_eq!(structure("C", Vec::new(), None, StructTypes::RawPointer), structs[1]);
    assert_eq!(structure("B", Vec::new(), None, StructTypes::RawPointer), structs[2]);
}
