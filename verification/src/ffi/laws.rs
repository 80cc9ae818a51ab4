//! What holds of every conversion across the C boundary.
use vstd::prelude::*;
use vstd::utf8::{encode_scalar, encode_utf8, is_scalar};
use crate::ffi::ffi_util::{CStringBuf, FromFFi, IntoFFi};

verus! {

/// The UTF-8 encoding of a scalar has a zero byte exactly when the scalar is zero.
proof fn lemma_encode_scalar_nul(c: u32)
    requires
        is_scalar(c),
    ensures
        encode_scalar(c).contains(0u8) <==> c == 0,
{
    let e = encode_scalar(c);
    if c <= 0x7F {
        assert(c <= 0x7F ==> (((c & 0x7F) as u8) == 0u8 <==> c == 0)) by (bit_vector);
        assert(e[0] == ((c & 0x7F) as u8));
        if e.contains(0u8) {
            let k = choose|k: int| 0 <= k < e.len() && e[k] == 0u8;
            assert(k == 0);
        }
    } else {
        assert(0x80 | (c & 0x3F) as u8 != 0u8) by (bit_vector);
        assert(0x80 | ((c >> 6) & 0x3F) as u8 != 0u8) by (bit_vector);
        assert(0x80 | ((c >> 12) & 0x3F) as u8 != 0u8) by (bit_vector);
        assert(0xC0 | ((c >> 6) & 0x1F) as u8 != 0u8) by (bit_vector);
        assert(0xE0 | ((c >> 12) & 0x0F) as u8 != 0u8) by (bit_vector);
        assert(0xF0 | ((c >> 18) & 0x7) as u8 != 0u8) by (bit_vector);
        assert forall|k: int| 0 <= k < e.len() implies e[k] != 0u8 by {}
    }
}

/// The UTF-8 encoding of a string has a zero byte exactly when the string
/// has a NUL character.
pub proof fn lemma_encode_utf8_nul(s: Seq<char>)
    ensures
        encode_utf8(s).contains(0u8) <==> s.contains('\0'),
    decreases s.len(),
{
    if s.len() == 0 {
        assert(!encode_utf8(s).contains(0u8));
    } else {
        let head = encode_scalar(s[0] as u32);
        let tail = encode_utf8(s.drop_first());
        vstd::utf8::char_is_scalar(s[0]);
        lemma_encode_scalar_nul(s[0] as u32);
        lemma_encode_utf8_nul(s.drop_first());
        vstd::utf8::char_u32_cast(s[0], s[0] as u32);
        assert(encode_utf8(s) == head + tail);
        if (head + tail).contains(0u8) {
            let k = choose|k: int| 0 <= k < (head + tail).len() && (head + tail)[k] == 0u8;
            if k < head.len() {
                assert(head[k] == 0u8);
                assert(s[0] == '\0');
            } else {
                assert(tail[k - head.len()] == 0u8);
                let j = choose|j: int| 0 <= j < s.drop_first().len() && s.drop_first()[j] == '\0';
                assert(s[j + 1] == '\0');
            }
        }
        if s.contains('\0') {
            let j = choose|j: int| 0 <= j < s.len() && s[j] == '\0';
            if j == 0 {
                let k = choose|k: int| 0 <= k < head.len() && head[k] == 0u8;
                assert((head + tail)[k] == 0u8);
            } else {
                assert(s.drop_first()[j - 1] == '\0');
                let k = choose|k: int| 0 <= k < tail.len() && tail[k] == 0u8;
                assert((head + tail)[head.len() + k] == 0u8);
            }
        }
    }
}

/// A string can be handed to C exactly when it has no NUL character.
pub proof fn law_string_handed_over_iff_no_nul(s: String)
    ensures
        <String as IntoFFi<CStringBuf>>::into_ffi_error(s) is None <==> !s@.contains('\0'),
{
    lemma_encode_utf8_nul(s@);
}

/// A string handed to C and taken back is the same string, and taking it
/// back cannot fail.
pub proof fn law_string_round_trip(s: String, c: CStringBuf, t: String)
    requires
        <String as IntoFFi<CStringBuf>>::into_ffi_rel(s, c),
    ensures
        <String as FromFFi<CStringBuf>>::from_ffi_error(c) is None,
        <String as FromFFi<CStringBuf>>::from_ffi_rel(c, t) ==> t@ == s@,
{
    vstd::utf8::encode_utf8_valid_utf8(s@);
    vstd::utf8::encode_utf8_decode_utf8(s@);
}

/// A string slice handed to C and taken back as a string slice is the same
/// string, and taking it back cannot fail.
pub proof fn law_str_round_trip<'a>(s: &'a str, c: &'a CStringBuf, t: &'a str)
    requires
        <&'a str as IntoFFi<CStringBuf>>::into_ffi_rel(s, *c),
    ensures
        <&'a str as FromFFi<&'a CStringBuf>>::from_ffi_error(c) is None,
        <&'a str as FromFFi<&'a CStringBuf>>::from_ffi_rel(c, t) ==> t@ == s@,
{
    vstd::utf8::encode_utf8_valid_utf8(s@);
    vstd::utf8::encode_utf8_decode_utf8(s@);
}

/// A C string taken into Rust and handed back holds the same bytes.
pub proof fn law_cstring_round_trip(c: CStringBuf, s: String, d: CStringBuf)
    requires
        c.wf(),
        <String as FromFFi<CStringBuf>>::from_ffi_rel(c, s),
        <String as FromFFi<CStringBuf>>::from_ffi_error(c) is None,
        <String as IntoFFi<CStringBuf>>::into_ffi_rel(s, d),
    ensures
        d@ == c@,
{
    vstd::utf8::decode_utf8_encode_utf8(c@);
}

/// A number handed to C and taken back is the same number.
pub proof fn law_u32_round_trip(v: u32, p: u32, w: u32)
    requires
        <u32 as IntoFFi<u32>>::into_ffi_rel(v, p),
        <u32 as FromFFi<u32>>::from_ffi_rel(p, w),
    ensures
        w == v,
{
}

/// If every value of `T` handed to C and taken back is equivalent to itself
/// (under `eqv`) and can always be taken back, then the same holds of
/// `Option<T>`: `None` comes back as `None`, `Some(x)` as `Some` of a value
/// equivalent to `x`.
pub proof fn law_option_round_trip<T, U>(
    eqv: spec_fn(T, T) -> bool,
    x: Option<T>,
    p: Option<Box<U>>,
    y: Option<T>,
)
    where
        T: IntoFFi<U> + FromFFi<U>,
    requires
        forall|a: T, u: U, b: T| #[trigger] T::into_ffi_rel(a, u) && #[trigger] T::from_ffi_rel(u, b) ==> eqv(a, b),
        forall|a: T, u: U| #[trigger] T::into_ffi_rel(a, u) ==> T::from_ffi_error(u) is None,
        <Option<T> as IntoFFi<Option<Box<U>>>>::into_ffi_rel(x, p),
    ensures
        <Option<T> as FromFFi<Option<Box<U>>>>::from_ffi_error(p) is None,
        <Option<T> as FromFFi<Option<Box<U>>>>::from_ffi_rel(p, y) ==> match (x, y) {
            (None, None) => true,
            (Some(a), Some(b)) => eqv(a, b),
            _ => false,
        },
{
}

} // verus!
