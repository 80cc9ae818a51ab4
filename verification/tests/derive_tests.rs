use foreignc::ffi::ffi_util::{CResult, CStringBuf};
use foreignc::suite::derive_lib::{
    free_boxed_struct, free_coption, free_cresult, free_string, get_boxed_struct, inc_boxed_struct,
    new_boxed_struct, number_argument_ffi, return_err_str_ffi, return_none_number_ffi,
    return_number_ffi, return_ok_number_ffi, return_some_number_ffi, return_string_ffi,
    str_argument_ffi,
};

fn assert_cstr(expected: &str, actual: &CStringBuf) {
    assert_eq!(expected.as_bytes(), actual.as_bytes());
}

#[test]
fn return_string_test() {
    let ptr = return_string_ffi();
    assert!(!ptr.is_err);
    let CResult { is_err: _, value } = *ptr;
    let msg = match value {
        Ok(m) => m,
        Err(_) => panic!("expected a string"),
    };
    assert_cstr("Hello World!", &msg);
    free_string(msg);
}

#[test]
fn return_number_test() {
    let ptr = return_number_ffi();
    assert!(!ptr.is_err);
    match &ptr.value {
        Ok(v) => assert_eq!(12345, *v),
        Err(_) => panic!("expected a number"),
    }
    free_cresult(ptr);
}

#[test]
fn return_some_number_test() {
    let ptr = return_some_number_ffi();
    assert!(!ptr.is_err);
    let CResult { is_err: _, value } = *ptr;
    let opt = match value {
        Ok(o) => o,
        Err(_) => panic!("expected an option"),
    };
    assert!(opt.is_some());
    match &opt {
        Some(b) => assert_eq!(12345, **b),
        None => panic!("expected a number"),
    }
    free_coption(opt);
}

#[test]
fn return_none_number_test() {
    let ptr = return_none_number_ffi();
    assert!(!ptr.is_err);
    let CResult { is_err: _, value } = *ptr;
    let opt = match value {
        Ok(o) => o,
        Err(_) => panic!("expected an option"),
    };
    assert!(opt.is_none());
    free_coption(opt);
}

#[test]
fn return_ok_number_test() {
    let ptr = return_ok_number_ffi();
    assert!(!ptr.is_err);
    let CResult { is_err: _, value } = *ptr;
    let res = match value {
        Ok(r) => r,
        Err(_) => panic!("expected a result"),
    };
    assert!(!res.is_err);
    match &res.value {
        Ok(v) => assert_eq!(12345, *v),
        Err(_) => panic!("expected a number"),
    }
    free_cresult(res);
}

#[test]
fn return_err_str_test() {
    let ptr = return_err_str_ffi();
    assert!(!ptr.is_err);
    let CResult { is_err: _, value } = *ptr;
    let res = match value {
        Ok(r) => r,
        Err(_) => panic!("expected a result"),
    };
    assert!(res.is_err);
    let CResult { is_err: _, value } = *res;
    let msg = match value {
        Ok(_) => panic!("expected an error"),
        Err(m) => m,
    };
    assert_cstr("Hello World!", &msg);
    free_string(msg);
}

#[test]
fn number_argument_test() {
    let ptr = number_argument_ffi(12345);
    assert!(!ptr.is_err);
    free_cresult(ptr);
}

#[test]
fn str_argument_test() {
    let msg = match CStringBuf::from_bytes("Hello World!".as_bytes()) {
        Ok(m) => m,
        Err(_) => panic!("no NUL byte in the greeting"),
    };
    let ptr = str_argument_ffi(msg);
    assert!(!ptr.is_err);
    free_cresult(ptr);
}

#[test]
fn json_struct_test() {
    let ptr = new_boxed_struct();
    assert!(!ptr.is_err);
    let CResult { is_err: _, value } = *ptr;
    let mut boxed = match value {
        Ok(b) => b,
        Err(_) => panic!("expected a boxed struct"),
    };

    let get0 = get_boxed_struct(Some(&boxed));
    assert!(!get0.is_err);
    match &get0.value {
        Ok(v) => assert_eq!(0, *v),
        Err(_) => panic!("expected a count"),
    }

    let inc0 = inc_boxed_struct(Some(&mut boxed));
    assert!(!inc0.is_err);

    let get1 = get_boxed_struct(Some(&boxed));
    assert!(!get1.is_err);
    match &get1.value {
        Ok(v) => assert_eq!(1, *v),
        Err(_) => panic!("expected a count"),
    }

    free_boxed_struct(boxed);
    free_cresult(get0);
    free_cresult(get1);
    free_cresult(inc0);
}
