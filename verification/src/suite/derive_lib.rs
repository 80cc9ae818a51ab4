//! Functions and types exported with `with_abi`, with their wrappers.
use vstd::prelude::*;
use vstd::utf8::{decode_utf8, encode_utf8, valid_utf8};
use crate::ffi::error::{FFiError, FFiResult, FFiResultWrap};
use crate::ffi::ffi_util::{utf8_error_text, CResult, CStringBuf, FromFFi, IntoFFi};
use crate::text::chars_of;

verus! {

/// A fixed greeting.
pub fn return_string() -> (r: &'static str)
    ensures
        r@ == "Hello World!"@,
{
    "Hello World!"
}

/// A fixed number.
pub fn return_number() -> (r: u32)
    ensures
        r == 12345,
{
    12345
}

/// A fixed number, present.
pub fn return_some_number() -> (r: Option<u32>)
    ensures
        r == Some(12345u32),
{
    Some(12345)
}

/// No number.
pub fn return_none_number() -> (r: Option<u32>)
    ensures
        r is None,
{
    None
}

/// A fixed number, as a success.
pub fn return_ok_number() -> (r: Result<u32, &'static str>)
    ensures
        r == Ok::<u32, &'static str>(12345u32),
{
    Ok(12345)
}

/// A fixed greeting, as an error.
pub fn return_err_str() -> (r: Result<u32, &'static str>)
    ensures
        r matches Err(s) && s@ == "Hello World!"@,
{
    Err("Hello World!")
}

/// Accepts only the number 12345.
pub fn number_argument(v: u32)
    requires
        v == 12345,
{
}

/// Accepts only the greeting `Hello World!`.
pub fn str_argument(v: String)
    requires
        v@ == "Hello World!"@,
{
}

/// Frees a C string handed out.
pub fn free_string(ptr: CStringBuf) {
}

/// Frees an optional value handed out.
pub fn free_coption<T>(ptr: Option<Box<T>>) {
}

/// Frees a result handed out.
pub fn free_cresult<T, E>(ptr: Box<CResult<T, E>>) {
}

/// The wrapper of `return_string`: the greeting as a C string.
pub fn return_string_ffi() -> (r: Box<CResult<CStringBuf, CStringBuf>>)
    ensures
        !r.is_err,
        r.value matches Ok(c) && c@ == encode_utf8("Hello World!"@),
{
    proof {
        reveal_strlit("Hello World!");
        crate::ffi::laws::lemma_encode_utf8_nul("Hello World!"@);
        assert(!"Hello World!"@.contains('\0')) by {
            if "Hello World!"@.contains('\0') {
                let k = choose|k: int| 0 <= k < "Hello World!"@.len() && "Hello World!"@[k] == '\0';
            }
        }
    }
    let v = <&str as IntoFFi<CStringBuf>>::into_ffi(return_string());
    FFiResultWrap::from(v).into()
}

/// The wrapper of `return_number`.
pub fn return_number_ffi() -> (r: Box<CResult<u32, CStringBuf>>)
    ensures
        !r.is_err,
        r.value == Ok::<u32, CStringBuf>(12345u32),
{
    let v = <u32 as IntoFFi<u32>>::into_ffi(return_number());
    FFiResultWrap::from(v).into()
}

/// The wrapper of `return_some_number`: a pointer to the number.
pub fn return_some_number_ffi() -> (r: Box<CResult<Option<Box<u32>>, CStringBuf>>)
    ensures
        !r.is_err,
        r.value matches Ok(Some(b)) && *b == 12345u32,
{
    let v = <Option<u32> as IntoFFi<Option<Box<u32>>>>::into_ffi(return_some_number());
    FFiResultWrap::from(v).into()
}

/// The wrapper of `return_none_number`: a null pointer.
pub fn return_none_number_ffi() -> (r: Box<CResult<Option<Box<u32>>, CStringBuf>>)
    ensures
        !r.is_err,
        r.value matches Ok(p) && p is None,
{
    let v = <Option<u32> as IntoFFi<Option<Box<u32>>>>::into_ffi(return_none_number());
    FFiResultWrap::from(v).into()
}

/// The wrapper of `return_ok_number`: a pointer to a successful `CResult` of the number.
pub fn return_ok_number_ffi() -> (r: Box<CResult<Box<CResult<u32, CStringBuf>>, CStringBuf>>)
    ensures
        !r.is_err,
        r.value matches Ok(inner) && !inner.is_err && inner.value == Ok::<u32, CStringBuf>(12345u32),
{
    let v = <Result<u32, &str> as IntoFFi<Box<CResult<u32, CStringBuf>>>>::into_ffi(return_ok_number());
    FFiResultWrap::from(v).into()
}

/// The wrapper of `return_err_str`: a pointer to a failed `CResult` of the greeting.
pub fn return_err_str_ffi() -> (r: Box<CResult<Box<CResult<u32, CStringBuf>>, CStringBuf>>)
    ensures
        !r.is_err,
        r.value matches Ok(inner) && inner.is_err && (inner.value matches Err(c) && c@ == encode_utf8(
            "Hello World!"@,
        )),
{
    proof {
        reveal_strlit("Hello World!");
        crate::ffi::laws::lemma_encode_utf8_nul("Hello World!"@);
        assert(!"Hello World!"@.contains('\0')) by {
            if "Hello World!"@.contains('\0') {
                let k = choose|k: int| 0 <= k < "Hello World!"@.len() && "Hello World!"@[k] == '\0';
            }
        }
    }
    let v = <Result<u32, &str> as IntoFFi<Box<CResult<u32, CStringBuf>>>>::into_ffi(return_err_str());
    FFiResultWrap::from(v).into()
}

/// The wrapper of `number_argument`.
pub fn number_argument_ffi(v: u32) -> (r: Box<CResult<(), CStringBuf>>)
    requires
        v == 12345,
    ensures
        !r.is_err,
{
    let a = match <u32 as FromFFi<u32>>::from_ffi(v) {
        Ok(a) => a,
        Err(e) => {
            return FFiResultWrap::from(Err(e)).into();
        },
    };
    number_argument(a);
    let v = <() as IntoFFi<()>>::into_ffi(());
    FFiResultWrap::from(v).into()
}

/// The wrapper of `str_argument`. Bytes that are not UTF-8 are reported as an
/// error with the text `std::str::from_utf8` gives them, which must have no
/// NUL character to be handed to C; UTF-8 bytes must encode the greeting.
pub fn str_argument_ffi(v: CStringBuf) -> (r: Box<CResult<(), CStringBuf>>)
    requires
        valid_utf8(v@) ==> decode_utf8(v@) == "Hello World!"@,
        !valid_utf8(v@) ==> !encode_utf8(utf8_error_text(v@)).contains(0u8),
    ensures
        valid_utf8(v@) ==> !r.is_err,
        !valid_utf8(v@) ==> r.is_err && (r.value matches Err(c) && c@ == encode_utf8(utf8_error_text(v@))),
{
    let a = match <String as FromFFi<CStringBuf>>::from_ffi(v) {
        Ok(a) => a,
        Err(e) => {
            return FFiResultWrap::from(Err(e)).into();
        },
    };
    str_argument(a);
    let v = <() as IntoFFi<()>>::into_ffi(());
    FFiResultWrap::from(v).into()
}

/// Whether a string has a NUL character.
fn has_nul(s: &str) -> (r: bool)
    ensures
        r == s@.contains('\0'),
{
    let cs = chars_of(s);
    let mut i: usize = 0;
    while i < cs.len()
        invariant
            cs@ == s@,
            0 <= i <= cs@.len(),
            forall|j: int| 0 <= j < i ==> cs@[j] != '\0',
        decreases cs@.len() - i,
    {
        if cs[i] == '\0' {
            assert(s@[i as int] == '\0');
            return true;
        }
        i = i + 1;
    }
    false
}

/// The wrapper of `str_argument` for any C string of the greeting or not
/// UTF-8: `None` when the bytes are not UTF-8 and the text of that error has
/// a NUL character, which could not be handed to C.
pub fn str_argument_ffi_checked(v: CStringBuf) -> (r: Option<Box<CResult<(), CStringBuf>>>)
    requires
        valid_utf8(v@) ==> decode_utf8(v@) == "Hello World!"@,
    ensures
        r is None <==> (!valid_utf8(v@) && encode_utf8(utf8_error_text(v@)).contains(0u8)),
        r matches Some(b) ==> (valid_utf8(v@) ==> !b.is_err),
        r matches Some(b) ==> (!valid_utf8(v@) ==> b.is_err && (b.value matches Err(c) && c@ == encode_utf8(
            utf8_error_text(v@),
        ))),
{
    let handable = match v.to_str() {
        Ok(_) => true,
        Err(e) => {
            proof {
                crate::ffi::laws::lemma_encode_utf8_nul(e.content@);
            }
            !has_nul(e.content.as_str())
        },
    };
    if handable {
        Some(str_argument_ffi(v))
    } else {
        None
    }
}

/// The message of the error for a null pointer to a boxed value.
pub const NULL_POINTER: &'static str = "Recieved null pointer to #name";

/// A counter handed to C boxed.
#[derive(Debug, PartialEq)]
pub struct BoxedStruct {
    acc: u32,
}

impl View for BoxedStruct {
    type V = u32;

    closed spec fn view(&self) -> u32 {
        self.acc
    }
}

impl BoxedStruct {
    /// A counter at zero.
    pub fn new() -> (r: BoxedStruct)
        ensures
            r@ == 0,
    {
        BoxedStruct { acc: 0 }
    }

    /// Counts one up.
    pub fn inc(&mut self)
        requires
            old(self)@ < u32::MAX,
        ensures
            final(self)@ == old(self)@ + 1,
    {
        self.acc = self.acc + 1;
    }

    /// The count.
    pub fn get(&self) -> (r: u32)
        ensures
            r == self@,
    {
        self.acc
    }
}

impl IntoFFi<Box<BoxedStruct>> for BoxedStruct {
    /// Boxing never fails.
    open spec fn into_ffi_error(v: BoxedStruct) -> Option<Seq<char>> {
        None
    }

    /// The value is handed over in a box.
    open spec fn into_ffi_rel(v: BoxedStruct, out: Box<BoxedStruct>) -> bool {
        *out == v
    }

    fn into_ffi(v: BoxedStruct) -> (r: FFiResult<Box<BoxedStruct>>) {
        Ok(Box::new(v))
    }
}

impl<'a> FromFFi<Option<&'a BoxedStruct>> for &'a BoxedStruct {
    /// A null pointer is refused.
    open spec fn from_ffi_error(p: Option<&'a BoxedStruct>) -> Option<Seq<char>> {
        match p {
            Some(_) => None,
            None => Some(NULL_POINTER@),
        }
    }

    /// The value pointed to.
    open spec fn from_ffi_rel(p: Option<&'a BoxedStruct>, v: &'a BoxedStruct) -> bool {
        p == Some(v)
    }

    fn from_ffi(p: Option<&'a BoxedStruct>) -> (r: FFiResult<&'a BoxedStruct>) {
        match p {
            Some(v) => Ok(v),
            None => Err(FFiError::from_message(NULL_POINTER)),
        }
    }
}

/// The message of the null-pointer error has no NUL character.
proof fn lemma_null_pointer_handable()
    ensures
        !encode_utf8(NULL_POINTER@).contains(0u8),
{
    reveal_strlit("Recieved null pointer to #name");
    crate::ffi::laws::lemma_encode_utf8_nul(NULL_POINTER@);
    if NULL_POINTER@.contains('\0') {
        let k = choose|k: int| 0 <= k < NULL_POINTER@.len() && NULL_POINTER@[k] == '\0';
    }
}

/// The wrapper of `BoxedStruct::new`: the counter, boxed.
pub fn new_boxed_struct() -> (r: Box<CResult<Box<BoxedStruct>, CStringBuf>>)
    ensures
        !r.is_err,
        r.value matches Ok(b) && b@ == 0,
{
    let v = <BoxedStruct as IntoFFi<Box<BoxedStruct>>>::into_ffi(BoxedStruct::new());
    FFiResultWrap::from(v).into()
}

/// The wrapper of `BoxedStruct::get`: the count, or an error for a null pointer.
pub fn get_boxed_struct(this: Option<&BoxedStruct>) -> (r: Box<CResult<u32, CStringBuf>>)
    ensures
        match this {
            Some(b) => !r.is_err && r.value == Ok::<u32, CStringBuf>(b@),
            None => r.is_err && (r.value matches Err(c) && c@ == encode_utf8(NULL_POINTER@)),
        },
{
    proof {
        lemma_null_pointer_handable();
    }
    let b = match <&BoxedStruct as FromFFi<Option<&BoxedStruct>>>::from_ffi(this) {
        Ok(b) => b,
        Err(e) => {
            return FFiResultWrap::from(Err(e)).into();
        },
    };
    let v = <u32 as IntoFFi<u32>>::into_ffi(b.get());
    FFiResultWrap::from(v).into()
}

/// The wrapper of `BoxedStruct::inc`: counts up, or reports a null pointer.
pub fn inc_boxed_struct(this: Option<&mut BoxedStruct>) -> (r: Box<CResult<(), CStringBuf>>)
    requires
        this matches Some(b) ==> b@ < u32::MAX,
    ensures
        match this {
            Some(b) => !r.is_err && final(b)@ == b@ + 1,
            None => r.is_err && (r.value matches Err(c) && c@ == encode_utf8(NULL_POINTER@)),
        },
{
    proof {
        lemma_null_pointer_handable();
    }
    match this {
        Some(b) => {
            b.inc();
            let v = <() as IntoFFi<()>>::into_ffi(());
            FFiResultWrap::from(v).into()
        },
        None => {
            let e: FFiResult<()> = Err(FFiError::from_message(NULL_POINTER));
            FFiResultWrap::from(e).into()
        },
    }
}

/// Frees a boxed counter.
pub fn free_boxed_struct(ptr: Box<BoxedStruct>) {
}

/// A counter handed to C as JSON text.
#[derive(Debug, PartialEq)]
pub struct JsonStruct {
    acc: u32,
}

impl View for JsonStruct {
    type V = u32;

    closed spec fn view(&self) -> u32 {
        self.acc
    }
}

impl JsonStruct {
    /// A counter at zero.
    pub fn new() -> (r: JsonStruct)
        ensures
            r@ == 0,
    {
        JsonStruct { acc: 0 }
    }

    /// The counter, one up.
    pub fn inc(self) -> (r: JsonStruct)
        requires
            self@ < u32::MAX,
        ensures
            r@ == self@ + 1,
    {
        let mut s = self;
        s.acc = s.acc + 1;
        s
    }

    /// The count.
    pub fn get(self) -> (r: u32)
        ensures
            r == self@,
    {
        self.acc
    }

    /// A counter at the given count.
    pub fn with_count(acc: u32) -> (r: JsonStruct)
        ensures
            r@ == acc,
    {
        JsonStruct { acc }
    }
}

} // verus!
