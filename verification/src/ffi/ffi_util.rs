//! The conversion traits, the C-side forms of values, and the conversions of
//! primitives, strings, options and results.
use vstd::prelude::*;
use vstd::string::StringSliceAdditionalSpecFns;
use vstd::utf8::{decode_utf8, encode_utf8, valid_utf8};
use crate::ffi::error::{FFiError, FFiResult};
use crate::template::derived_input::{decimal, decimal_string};
use crate::text::concat;

verus! {

/// The position of the first zero byte, if there is one.
pub open spec fn first_nul(bytes: Seq<u8>) -> int
    decreases bytes.len(),
{
    if bytes.len() == 0 {
        0
    } else if bytes[0] == 0 {
        0
    } else {
        1 + first_nul(bytes.drop_first())
    }
}

/// The message of a C string refused for a zero byte, as `CString::new`
/// reports it: the position of the first zero byte.
pub open spec fn nul_error_text(bytes: Seq<u8>) -> Seq<char> {
    "nul byte found in provided data at position: "@ + decimal(first_nul(bytes) as nat)
}

/// The text of the error `std::str::from_utf8` reports for bytes that are
/// not UTF-8.
pub uninterp spec fn utf8_error_text(bytes: Seq<u8>) -> Seq<char>;

/// Calls `std::str::from_utf8`, which accepts exactly the valid UTF-8 byte
/// strings and gives the string slice over the same bytes; an error becomes
/// the text it displays (named by `utf8_error_text`).
#[verifier::external_body]
fn str_from_utf8(bytes: &[u8]) -> (r: Result<&str, String>)
    ensures
        match r {
            Ok(s) => valid_utf8(bytes@) && s.spec_bytes() == bytes@,
            Err(m) => !valid_utf8(bytes@) && m@ == utf8_error_text(bytes@),
        },
{
    match std::str::from_utf8(bytes) {
        Ok(s) => Ok(s),
        Err(e) => Err(format!("{}", e)),
    }
}

/// A C string: its bytes without the terminating NUL, none of them zero.
#[derive(Debug, PartialEq)]
pub struct CStringBuf {
    bytes: Vec<u8>,
}

impl View for CStringBuf {
    type V = Seq<u8>;

    closed spec fn view(&self) -> Seq<u8> {
        self.bytes@
    }
}

impl CStringBuf {
    /// No byte is zero.
    pub closed spec fn wf(&self) -> bool {
        !self.bytes@.contains(0u8)
    }

    /// The empty C string.
    pub fn empty() -> (r: CStringBuf)
        ensures
            r@ == Seq::<u8>::empty(),
            r.wf(),
    {
        CStringBuf { bytes: Vec::new() }
    }

    /// A C string with the given bytes, unless one of them is zero.
    pub fn from_bytes(bytes: &[u8]) -> (r: FFiResult<CStringBuf>)
        ensures
            match r {
                Ok(c) => !bytes@.contains(0u8) && c@ == bytes@ && c.wf(),
                Err(e) => bytes@.contains(0u8) && e.content@ == nul_error_text(bytes@),
            },
    {
        let mut v: Vec<u8> = Vec::new();
        let mut i: usize = 0;
        assert(bytes@.skip(0) =~= bytes@);
        while i < bytes.len()
            invariant
                0 <= i <= bytes@.len(),
                v@ == bytes@.take(i as int),
            decreases bytes@.len() - i,
        {
            v.push(bytes[i]);
            i = i + 1;
            assert(v@ =~= bytes@.take(i as int));
        }
        assert(bytes@.take(bytes@.len() as int) =~= bytes@);
        let mut k: usize = 0;
        while k < v.len()
            invariant
                v@ == bytes@,
                0 <= k <= v@.len(),
                forall|j: int| 0 <= j < k ==> v@[j] != 0u8,
                first_nul(bytes@) == k + first_nul(bytes@.skip(k as int)),
            decreases v@.len() - k,
        {
            assert(bytes@.skip(k as int)[0] == v@[k as int]);
            if v[k] == 0 {
                assert(bytes@.contains(0u8)) by {
                    assert(bytes@[k as int] == 0u8);
                }
                let pos = decimal_string(k as u64);
                return Err(FFiError {
                    content: concat("nul byte found in provided data at position: ", pos.as_str()),
                });
            }
            assert(bytes@.skip(k as int).drop_first() =~= bytes@.skip(k + 1));
            k = k + 1;
        }
        assert(!bytes@.contains(0u8));
        Ok(CStringBuf { bytes: v })
    }

    /// The bytes, without the terminating NUL.
    pub fn as_bytes(&self) -> (r: &[u8])
        ensures
            r@ == self@,
    {
        self.bytes.as_slice()
    }

    /// The string the bytes encode, if they are UTF-8.
    pub fn to_str(&self) -> (r: FFiResult<&str>)
        ensures
            match r {
                Ok(s) => valid_utf8(self@) && s@ == decode_utf8(self@),
                Err(e) => !valid_utf8(self@) && e.content@ == utf8_error_text(self@),
            },
    {
        match str_from_utf8(self.bytes.as_slice()) {
            Ok(s) => {
                proof {
                    vstd::utf8::encode_utf8_decode_utf8(s@);
                }
                Ok(s)
            },
            Err(m) => Err(FFiError { content: m }),
        }
    }
}

/// A result handed to C: whether it is an error, and the value or error.
#[derive(Debug, PartialEq)]
pub struct CResult<T, E> {
    pub is_err: bool,
    pub value: Result<T, E>,
}

/// A Rust value that can be handed to C in the form `PtrOut`.
pub trait IntoFFi<PtrOut>: Sized {
    /// Why `v` cannot be handed over, if it cannot.
    spec fn into_ffi_error(v: Self) -> Option<Seq<char>>;

    /// `out` is a C-side form of `v`.
    spec fn into_ffi_rel(v: Self, out: PtrOut) -> bool;

    /// The C-side form of `v`.
    fn into_ffi(v: Self) -> (r: FFiResult<PtrOut>)
        ensures
            match r {
                Ok(o) => Self::into_ffi_error(v) is None && Self::into_ffi_rel(v, o),
                Err(e) => Self::into_ffi_error(v) == Some(e.content@),
            },
    ;
}

/// A Rust value that can be taken from C in the form `PtrIn`.
pub trait FromFFi<PtrIn>: Sized {
    /// Why `p` cannot be taken over, if it cannot.
    spec fn from_ffi_error(p: PtrIn) -> Option<Seq<char>>;

    /// `v` is a Rust value of the C-side form `p`.
    spec fn from_ffi_rel(p: PtrIn, v: Self) -> bool;

    /// The Rust value of the C-side form `p`.
    fn from_ffi(p: PtrIn) -> (r: FFiResult<Self>)
        ensures
            match r {
                Ok(v) => Self::from_ffi_error(p) is None && Self::from_ffi_rel(p, v),
                Err(e) => Self::from_ffi_error(p) == Some(e.content@),
            },
    ;
}

impl IntoFFi<bool> for bool {
    open spec fn into_ffi_error(v: bool) -> Option<Seq<char>> {
        None
    }

    open spec fn into_ffi_rel(v: bool, out: bool) -> bool {
        out == v
    }

    fn into_ffi(v: bool) -> (r: FFiResult<bool>) {
        Ok(v)
    }
}

impl FromFFi<bool> for bool {
    open spec fn from_ffi_error(p: bool) -> Option<Seq<char>> {
        None
    }

    open spec fn from_ffi_rel(p: bool, v: bool) -> bool {
        v == p
    }

    fn from_ffi(p: bool) -> (r: FFiResult<bool>) {
        Ok(p)
    }
}

impl IntoFFi<()> for () {
    open spec fn into_ffi_error(v: ()) -> Option<Seq<char>> {
        None
    }

    open spec fn into_ffi_rel(v: (), out: ()) -> bool {
        out == v
    }

    fn into_ffi(v: ()) -> (r: FFiResult<()>) {
        Ok(v)
    }
}

impl FromFFi<()> for () {
    open spec fn from_ffi_error(p: ()) -> Option<Seq<char>> {
        None
    }

    open spec fn from_ffi_rel(p: (), v: ()) -> bool {
        v == p
    }

    fn from_ffi(p: ()) -> (r: FFiResult<()>) {
        Ok(p)
    }
}

impl IntoFFi<i8> for i8 {
    open spec fn into_ffi_error(v: i8) -> Option<Seq<char>> {
        None
    }

    open spec fn into_ffi_rel(v: i8, out: i8) -> bool {
        out == v
    }

    fn into_ffi(v: i8) -> (r: FFiResult<i8>) {
        Ok(v)
    }
}

impl FromFFi<i8> for i8 {
    open spec fn from_ffi_error(p: i8) -> Option<Seq<char>> {
        None
    }

    open spec fn from_ffi_rel(p: i8, v: i8) -> bool {
        v == p
    }

    fn from_ffi(p: i8) -> (r: FFiResult<i8>) {
        Ok(p)
    }
}

impl IntoFFi<u8> for u8 {
    open spec fn into_ffi_error(v: u8) -> Option<Seq<char>> {
        None
    }

    open spec fn into_ffi_rel(v: u8, out: u8) -> bool {
        out == v
    }

    fn into_ffi(v: u8) -> (r: FFiResult<u8>) {
        Ok(v)
    }
}

impl FromFFi<u8> for u8 {
    open spec fn from_ffi_error(p: u8) -> Option<Seq<char>> {
        None
    }

    open spec fn from_ffi_rel(p: u8, v: u8) -> bool {
        v == p
    }

    fn from_ffi(p: u8) -> (r: FFiResult<u8>) {
        Ok(p)
    }
}

impl IntoFFi<i16> for i16 {
    open spec fn into_ffi_error(v: i16) -> Option<Seq<char>> {
        None
    }

    open spec fn into_ffi_rel(v: i16, out: i16) -> bool {
        out == v
    }

    fn into_ffi(v: i16) -> (r: FFiResult<i16>) {
        Ok(v)
    }
}

impl FromFFi<i16> for i16 {
    open spec fn from_ffi_error(p: i16) -> Option<Seq<char>> {
        None
    }

    open spec fn from_ffi_rel(p: i16, v: i16) -> bool {
        v == p
    }

    fn from_ffi(p: i16) -> (r: FFiResult<i16>) {
        Ok(p)
    }
}

impl IntoFFi<u16> for u16 {
    open spec fn into_ffi_error(v: u16) -> Option<Seq<char>> {
        None
    }

    open spec fn into_ffi_rel(v: u16, out: u16) -> bool {
        out == v
    }

    fn into_ffi(v: u16) -> (r: FFiResult<u16>) {
        Ok(v)
    }
}

impl FromFFi<u16> for u16 {
    open spec fn from_ffi_error(p: u16) -> Option<Seq<char>> {
        None
    }

    open spec fn from_ffi_rel(p: u16, v: u16) -> bool {
        v == p
    }

    fn from_ffi(p: u16) -> (r: FFiResult<u16>) {
        Ok(p)
    }
}

impl IntoFFi<i32> for i32 {
    open spec fn into_ffi_error(v: i32) -> Option<Seq<char>> {
        None
    }

    open spec fn into_ffi_rel(v: i32, out: i32) -> bool {
        out == v
    }

    fn into_ffi(v: i32) -> (r: FFiResult<i32>) {
        Ok(v)
    }
}

impl FromFFi<i32> for i32 {
    open spec fn from_ffi_error(p: i32) -> Option<Seq<char>> {
        None
    }

    open spec fn from_ffi_rel(p: i32, v: i32) -> bool {
        v == p
    }

    fn from_ffi(p: i32) -> (r: FFiResult<i32>) {
        Ok(p)
    }
}

impl IntoFFi<u32> for u32 {
    open spec fn into_ffi_error(v: u32) -> Option<Seq<char>> {
        None
    }

    open spec fn into_ffi_rel(v: u32, out: u32) -> bool {
        out == v
    }

    fn into_ffi(v: u32) -> (r: FFiResult<u32>) {
        Ok(v)
    }
}

impl FromFFi<u32> for u32 {
    open spec fn from_ffi_error(p: u32) -> Option<Seq<char>> {
        None
    }

    open spec fn from_ffi_rel(p: u32, v: u32) -> bool {
        v == p
    }

    fn from_ffi(p: u32) -> (r: FFiResult<u32>) {
        Ok(p)
    }
}

impl IntoFFi<i64> for i64 {
    open spec fn into_ffi_error(v: i64) -> Option<Seq<char>> {
        None
    }

    open spec fn into_ffi_rel(v: i64, out: i64) -> bool {
        out == v
    }

    fn into_ffi(v: i64) -> (r: FFiResult<i64>) {
        Ok(v)
    }
}

impl FromFFi<i64> for i64 {
    open spec fn from_ffi_error(p: i64) -> Option<Seq<char>> {
        None
    }

    open spec fn from_ffi_rel(p: i64, v: i64) -> bool {
        v == p
    }

    fn from_ffi(p: i64) -> (r: FFiResult<i64>) {
        Ok(p)
    }
}

impl IntoFFi<u64> for u64 {
    open spec fn into_ffi_error(v: u64) -> Option<Seq<char>> {
        None
    }

    open spec fn into_ffi_rel(v: u64, out: u64) -> bool {
        out == v
    }

    fn into_ffi(v: u64) -> (r: FFiResult<u64>) {
        Ok(v)
    }
}

impl FromFFi<u64> for u64 {
    open spec fn from_ffi_error(p: u64) -> Option<Seq<char>> {
        None
    }

    open spec fn from_ffi_rel(p: u64, v: u64) -> bool {
        v == p
    }

    fn from_ffi(p: u64) -> (r: FFiResult<u64>) {
        Ok(p)
    }
}

impl IntoFFi<CStringBuf> for String {
    /// A string with a NUL character cannot be a C string.
    open spec fn into_ffi_error(v: String) -> Option<Seq<char>> {
        if encode_utf8(v@).contains(0u8) {
            Some(nul_error_text(encode_utf8(v@)))
        } else {
            None
        }
    }

    /// The C string holds the UTF-8 bytes of the string.
    open spec fn into_ffi_rel(v: String, out: CStringBuf) -> bool {
        out@ == encode_utf8(v@) && out.wf()
    }

    fn into_ffi(v: String) -> (r: FFiResult<CStringBuf>) {
        CStringBuf::from_bytes(v.as_str().as_bytes())
    }
}

impl<'a> IntoFFi<CStringBuf> for &'a str {
    /// A string with a NUL character cannot be a C string.
    open spec fn into_ffi_error(v: &'a str) -> Option<Seq<char>> {
        if encode_utf8(v@).contains(0u8) {
            Some(nul_error_text(encode_utf8(v@)))
        } else {
            None
        }
    }

    /// The C string holds the UTF-8 bytes of the string.
    open spec fn into_ffi_rel(v: &'a str, out: CStringBuf) -> bool {
        out@ == encode_utf8(v@) && out.wf()
    }

    fn into_ffi(v: &'a str) -> (r: FFiResult<CStringBuf>) {
        <String as IntoFFi<CStringBuf>>::into_ffi(v.to_owned())
    }
}

impl FromFFi<CStringBuf> for String {
    /// Bytes that are not UTF-8 are not a string.
    open spec fn from_ffi_error(p: CStringBuf) -> Option<Seq<char>> {
        if valid_utf8(p@) {
            None
        } else {
            Some(utf8_error_text(p@))
        }
    }

    /// The string the bytes encode.
    open spec fn from_ffi_rel(p: CStringBuf, v: String) -> bool {
        v@ == decode_utf8(p@)
    }

    fn from_ffi(p: CStringBuf) -> (r: FFiResult<String>) {
        match p.to_str() {
            Ok(s) => Ok(s.to_owned()),
            Err(e) => Err(e),
        }
    }
}

impl<'a> FromFFi<&'a CStringBuf> for &'a str {
    /// Bytes that are not UTF-8 are not a string.
    open spec fn from_ffi_error(p: &'a CStringBuf) -> Option<Seq<char>> {
        if valid_utf8(p@) {
            None
        } else {
            Some(utf8_error_text(p@))
        }
    }

    /// The string the bytes encode.
    open spec fn from_ffi_rel(p: &'a CStringBuf, v: &'a str) -> bool {
        v@ == decode_utf8(p@)
    }

    fn from_ffi(p: &'a CStringBuf) -> (r: FFiResult<&'a str>) {
        p.to_str()
    }
}

impl<T: IntoFFi<U>, U> IntoFFi<Option<Box<U>>> for Option<T> {
    /// Nothing fails for `None`; `Some(x)` fails as `x` does.
    open spec fn into_ffi_error(v: Option<T>) -> Option<Seq<char>> {
        match v {
            Some(x) => T::into_ffi_error(x),
            None => None,
        }
    }

    /// `None` becomes a null pointer, `Some(x)` a pointer to the C-side form of `x`.
    open spec fn into_ffi_rel(v: Option<T>, out: Option<Box<U>>) -> bool {
        match (v, out) {
            (None, None) => true,
            (Some(x), Some(b)) => T::into_ffi_rel(x, *b),
            _ => false,
        }
    }

    fn into_ffi(v: Option<T>) -> (r: FFiResult<Option<Box<U>>>) {
        match v {
            Some(x) => match T::into_ffi(x) {
                Ok(u) => Ok(Some(Box::new(u))),
                Err(e) => Err(e),
            },
            None => Ok(None),
        }
    }
}

impl<T: FromFFi<U>, U> FromFFi<Option<Box<U>>> for Option<T> {
    /// A null pointer never fails; a pointer fails as its target does.
    open spec fn from_ffi_error(p: Option<Box<U>>) -> Option<Seq<char>> {
        match p {
            Some(b) => T::from_ffi_error(*b),
            None => None,
        }
    }

    /// A null pointer is `None`, a pointer `Some` of the value of its target.
    open spec fn from_ffi_rel(p: Option<Box<U>>, v: Option<T>) -> bool {
        match (p, v) {
            (None, None) => true,
            (Some(b), Some(x)) => T::from_ffi_rel(*b, x),
            _ => false,
        }
    }

    fn from_ffi(p: Option<Box<U>>) -> (r: FFiResult<Option<T>>) {
        match p {
            Some(b) => match T::from_ffi(*b) {
                Ok(x) => Ok(Some(x)),
                Err(e) => Err(e),
            },
            None => Ok(None),
        }
    }
}

impl<T: IntoFFi<U>, E: IntoFFi<V>, U, V> IntoFFi<Box<CResult<U, V>>> for Result<T, E> {
    /// A result fails as the value or error it holds does.
    open spec fn into_ffi_error(v: Result<T, E>) -> Option<Seq<char>> {
        match v {
            Ok(x) => T::into_ffi_error(x),
            Err(y) => E::into_ffi_error(y),
        }
    }

    /// A pointer to a `CResult` flagged as the result is, holding the C-side
    /// form of its value or error.
    open spec fn into_ffi_rel(v: Result<T, E>, out: Box<CResult<U, V>>) -> bool {
        &&& out.is_err == (v is Err)
        &&& match (v, out.value) {
            (Ok(x), Ok(u)) => T::into_ffi_rel(x, u),
            (Err(y), Err(w)) => E::into_ffi_rel(y, w),
            _ => false,
        }
    }

    fn into_ffi(v: Result<T, E>) -> (r: FFiResult<Box<CResult<U, V>>>) {
        match v {
            Ok(x) => match T::into_ffi(x) {
                Ok(u) => Ok(Box::new(CResult { is_err: false, value: Ok(u) })),
                Err(e) => Err(e),
            },
            Err(y) => match E::into_ffi(y) {
                Ok(w) => Ok(Box::new(CResult { is_err: true, value: Err(w) })),
                Err(e) => Err(e),
            },
        }
    }
}

} // verus!
