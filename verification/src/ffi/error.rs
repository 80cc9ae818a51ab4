//! Errors raised while a value crosses the C boundary.
use vstd::prelude::*;
use vstd::std_specs::convert::FromSpecImpl;
use vstd::utf8::encode_utf8;
use crate::ffi::ffi_util::{CResult, CStringBuf, IntoFFi};

verus! {

/// Why a value could not cross the C boundary (a null pointer, a string
/// with a NUL byte or invalid UTF-8, ...), as a message.
#[derive(Debug, PartialEq)]
pub struct FFiError {
    pub content: String,
}

/// The result of moving a value across the C boundary.
pub type FFiResult<T> = Result<T, FFiError>;

impl From<String> for FFiError {
    fn from(v: String) -> FFiError {
        FFiError { content: v }
    }
}

impl FromSpecImpl<String> for FFiError {
    open spec fn obeys_from_spec() -> bool {
        true
    }

    open spec fn from_spec(v: String) -> FFiError {
        FFiError { content: v }
    }
}

impl FFiError {
    /// An error with the given message.
    pub fn from_message(msg: &str) -> (r: FFiError)
        ensures
            r.content@ == msg@,
    {
        FFiError { content: msg.to_owned() }
    }
}

/// The result of a call made from C, before it is handed back as a `CResult`.
pub struct FFiResultWrap<T>(pub FFiResult<T>);

impl<T> From<FFiResult<T>> for FFiResultWrap<T> {
    fn from(v: FFiResult<T>) -> Self {
        FFiResultWrap(v)
    }
}

impl<T> FromSpecImpl<FFiResult<T>> for FFiResultWrap<T> {
    open spec fn obeys_from_spec() -> bool {
        true
    }

    open spec fn from_spec(v: FFiResult<T>) -> FFiResultWrap<T> {
        FFiResultWrap(v)
    }
}

impl<T> FFiResultWrap<T> {
    /// The error, if any, can be handed to C as a string: its message has no NUL byte.
    pub open spec fn handable(&self) -> bool {
        self.0 matches Err(e) ==> !encode_utf8(e.content@).contains(0u8)
    }

    /// Hands the result to C: a success as a `CResult` holding the value, an
    /// error as a `CResult` flagged as an error holding its message as a C string.
    pub fn into(self) -> (r: Box<CResult<T, CStringBuf>>)
        requires
            self.handable(),
        ensures
            match self.0 {
                Ok(v) => !r.is_err && r.value == Ok::<T, CStringBuf>(v),
                Err(e) => r.is_err && (r.value matches Err(c) && c@ == encode_utf8(e.content@)),
            },
    {
        match self.0 {
            Ok(v) => Box::new(CResult { is_err: false, value: Ok(v) }),
            Err(e) => {
                let ghost msg = e.content@;
                match <String as IntoFFi<CStringBuf>>::into_ffi(e.content) {
                    Ok(c) => Box::new(CResult { is_err: true, value: Err(c) }),
                    Err(_) => {
                        assert(false);
                        Box::new(CResult { is_err: true, value: Err(CStringBuf::empty()) })
                    },
                }
            },
        }
    }
}

} // verus!
