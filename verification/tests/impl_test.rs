use foreignc::suite::test_lib::{free_boxed_struct, get_boxed_struct, inc_boxed_struct, new_boxed_struct};

#[test]
fn boxed_struct_test() {
    let mut s = new_boxed_struct();
    assert_eq!(0, get_boxed_struct(&s));
    inc_boxed_struct(&mut s);
    assert_eq!(1, get_boxed_struct(&s));
    free_boxed_struct(s);
}
