use foreignc::ffi::error::{FFiError, FFiResultWrap};
use foreignc::ffi::ffi_util::{CResult, CStringBuf, FromFFi, IntoFFi};
use foreignc::suite::derive_lib::{
    get_boxed_struct, inc_boxed_struct, str_argument_ffi, str_argument_ffi_checked, JsonStruct, NULL_POINTER,
};

#[test]
fn string_round_trip() {
    let c = match <String as IntoFFi<CStringBuf>>::into_ffi("Hello World!".to_owned()) {
        Ok(c) => c,
        Err(_) => panic!("no NUL character"),
    };
    assert_eq!("Hello World!".as_bytes(), c.as_bytes());
    match <String as FromFFi<CStringBuf>>::from_ffi(c) {
        Ok(s) => assert_eq!("Hello World!", s),
        Err(_) => panic!("valid UTF-8"),
    }
}

#[test]
fn str_round_trip() {
    let c = match <&str as IntoFFi<CStringBuf>>::into_ffi("héllo") {
        Ok(c) => c,
        Err(_) => panic!("no NUL character"),
    };
    match <&str as FromFFi<&CStringBuf>>::from_ffi(&c) {
        Ok(s) => assert_eq!("héllo", s),
        Err(_) => panic!("valid UTF-8"),
    }
}

#[test]
fn string_with_nul_is_refused() {
    match <String as IntoFFi<CStringBuf>>::into_ffi("ab\0c".to_owned()) {
        Err(e) => assert_eq!("nul byte found in provided data at position: 2", e.content),
        Ok(_) => panic!("a NUL character cannot be handed over"),
    }
    match CStringBuf::from_bytes(&[0u8]) {
        Err(e) => assert_eq!("nul byte found in provided data at position: 0", e.content),
        Ok(_) => panic!("a zero byte cannot be held"),
    }
}

#[test]
fn invalid_utf8_is_refused() {
    let c = match CStringBuf::from_bytes(&[0xffu8, 0x41]) {
        Ok(c) => c,
        Err(_) => panic!("no zero byte"),
    };
    match <String as FromFFi<CStringBuf>>::from_ffi(c) {
        Err(e) => assert_eq!("invalid utf-8 sequence of 1 bytes from index 0", e.content),
        Ok(_) => panic!("not UTF-8"),
    }
}

#[test]
fn numbers_round_trip() {
    let p = match <i64 as IntoFFi<i64>>::into_ffi(-7) {
        Ok(p) => p,
        Err(_) => panic!("numbers always cross"),
    };
    match <i64 as FromFFi<i64>>::from_ffi(p) {
        Ok(v) => assert_eq!(-7, v),
        Err(_) => panic!("numbers always cross"),
    }
    match <bool as IntoFFi<bool>>::into_ffi(true) {
        Ok(b) => assert!(b),
        Err(_) => panic!("booleans always cross"),
    }
}

#[test]
fn option_round_trip() {
    let p = match <Option<u32> as IntoFFi<Option<Box<u32>>>>::into_ffi(Some(5)) {
        Ok(p) => p,
        Err(_) => panic!("numbers always cross"),
    };
    assert_eq!(Some(Box::new(5u32)), p);
    match <Option<u32> as FromFFi<Option<Box<u32>>>>::from_ffi(p) {
        Ok(v) => assert_eq!(Some(5), v),
        Err(_) => panic!("numbers always cross"),
    }
    match <Option<u32> as FromFFi<Option<Box<u32>>>>::from_ffi(None) {
        Ok(v) => assert_eq!(None, v),
        Err(_) => panic!("null is None"),
    }
}

#[test]
fn result_becomes_cresult() {
    let ok: Result<u32, &str> = Ok(3);
    match <Result<u32, &str> as IntoFFi<Box<CResult<u32, CStringBuf>>>>::into_ffi(ok) {
        Ok(r) => {
            assert!(!r.is_err);
            assert_eq!(Ok(3), r.value);
        },
        Err(_) => panic!("numbers always cross"),
    }
    let err: Result<u32, &str> = Err("bad");
    match <Result<u32, &str> as IntoFFi<Box<CResult<u32, CStringBuf>>>>::into_ffi(err) {
        Ok(r) => {
            assert!(r.is_err);
            match &r.value {
                Err(c) => assert_eq!("bad".as_bytes(), c.as_bytes()),
                Ok(_) => panic!("expected the error"),
            }
        },
        Err(_) => panic!("the message has no NUL"),
    }
}

#[test]
fn wrapped_error_becomes_c_string() {
    let w: FFiResultWrap<u32> = FFiResultWrap(Err(FFiError::from_message("oops")));
    let r = w.into();
    assert!(r.is_err);
    match &r.value {
        Err(c) => assert_eq!("oops".as_bytes(), c.as_bytes()),
        Ok(_) => panic!("expected the error"),
    }
    let e = FFiError::from("text".to_owned());
    assert_eq!("text", e.content);
}

#[test]
fn null_pointer_is_reported() {
    let r = get_boxed_struct(None);
    assert!(r.is_err);
    match &r.value {
        Err(c) => assert_eq!(NULL_POINTER.as_bytes(), c.as_bytes()),
        Ok(_) => panic!("expected the error"),
    }
    let r2 = inc_boxed_struct(None);
    assert!(r2.is_err);
}

#[test]
fn json_struct_counts() {
    let s = JsonStruct::new();
    let s = s.inc();
    let s = s.inc();
    assert_eq!(2, s.get());
    assert_eq!(7, JsonStruct::with_count(7).get());
}

#[test]
fn str_argument_reports_invalid_utf8() {
    let bad = match CStringBuf::from_bytes(&[0xffu8]) {
        Ok(c) => c,
        Err(_) => panic!("no zero byte"),
    };
    let r = match str_argument_ffi_checked(bad) {
        Some(r) => r,
        None => panic!("the error text has no NUL"),
    };
    assert!(r.is_err);
    match &r.value {
        Err(c) => assert_eq!("invalid utf-8 sequence of 1 bytes from index 0".as_bytes(), c.as_bytes()),
        Ok(_) => panic!("expected the error"),
    }
    let good = match CStringBuf::from_bytes("Hello World!".as_bytes()) {
        Ok(c) => c,
        Err(_) => panic!("no zero byte"),
    };
    match str_argument_ffi_checked(good) {
        Some(r) => assert!(!r.is_err),
        None => panic!("valid UTF-8"),
    }
    let bad2 = match CStringBuf::from_bytes(&[0xc3u8]) {
        Ok(c) => c,
        Err(_) => panic!("no zero byte"),
    };
    assert!(str_argument_ffi(bad2).is_err);
}
