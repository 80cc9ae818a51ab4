use foreignc::base::output_file::{Argument, Function};
use foreignc::base::rust_types::{RustArgument, RustFunction, RustTypes};

#[test]
fn base_type_spelling() {
    let v = RustTypes::Vector(vec![
        Box::new(RustTypes::USize("u8".to_owned())),
        Box::new(RustTypes::Option(Box::new(RustTypes::Boolean))),
    ]);
    assert_eq!("Vec<u8, Option<bool>>", v.to_string());
    assert_eq!("Vec<>", RustTypes::Vector(Vec::new()).to_string());
    let r = RustTypes::Result(
        Box::new(RustTypes::String("String".to_owned())),
        Box::new(RustTypes::ISize("i32".to_owned())),
    );
    assert_eq!("Result<String, i32>", r.to_string());
}

#[test]
fn base_function_getters() {
    let a = RustArgument::new("x".to_owned(), RustTypes::Boolean);
    assert_eq!("x", a.get_name());
    assert_eq!(&RustTypes::Boolean, a.get_type());
    let f = RustFunction::new("f".to_owned(), vec![a]);
    assert_eq!("f", f.get_name());
    assert_eq!(1, f.get_args().len());
}
