//! Naming of the files in which exported items are recorded.
use vstd::prelude::*;
use crate::template::rust_types::MetaType;
use crate::text::{concat, push_char};

verus! {

/// The decimal digit of a number below ten.
pub open spec fn digit(d: nat) -> char {
    if d == 0 { '0' }
    else if d == 1 { '1' }
    else if d == 2 { '2' }
    else if d == 3 { '3' }
    else if d == 4 { '4' }
    else if d == 5 { '5' }
    else if d == 6 { '6' }
    else if d == 7 { '7' }
    else if d == 8 { '8' }
    else { '9' }
}

/// The decimal representation of a number, without leading zeros.
pub open spec fn decimal(n: nat) -> Seq<char>
    decreases n,
{
    if n < 10 {
        seq![digit(n)]
    } else {
        decimal(n / 10).push(digit(n % 10))
    }
}

fn digit_char(d: u64) -> (c: char)
    requires
        d < 10,
    ensures
        c == digit(d as nat),
{
    if d == 0 { '0' }
    else if d == 1 { '1' }
    else if d == 2 { '2' }
    else if d == 3 { '3' }
    else if d == 4 { '4' }
    else if d == 5 { '5' }
    else if d == 6 { '6' }
    else if d == 7 { '7' }
    else if d == 8 { '8' }
    else { '9' }
}

/// The decimal representation of a number, as `u64::to_string` writes it.
pub fn decimal_string(n: u64) -> (r: String)
    ensures
        r@ == decimal(n as nat),
{
    // digits from the least significant on
    let mut digits: Vec<char> = Vec::new();
    let mut m: u64 = n;
    let ghost mut tail: Seq<char> = Seq::empty();
    loop
        invariant_except_break
            decimal(n as nat) == decimal(m as nat) + tail,
            digits@.reverse() == tail,
        ensures
            decimal(n as nat) == tail,
            digits@.reverse() == tail,
        decreases m,
    {
        if m < 10 {
            digits.push(digit_char(m));
            proof {
                assert(digits@.reverse() =~= seq![digit(m as nat)] + tail);
                assert(decimal(m as nat) =~= seq![digit(m as nat)]);
                tail = seq![digit(m as nat)] + tail;
            }
            break;
        }
        let d = m % 10;
        let ghost old_tail = tail;
        digits.push(digit_char(d));
        proof {
            assert(decimal(m as nat) == decimal((m / 10) as nat).push(digit((m % 10) as nat)));
            assert(decimal(m as nat) + old_tail =~= decimal((m / 10) as nat) + (seq![digit(d as nat)] + old_tail));
            tail = seq![digit(d as nat)] + old_tail;
            assert(digits@.reverse() =~= tail);
        }
        m = m / 10;
    }
    let mut r = String::new();
    let mut i = digits.len();
    while i > 0
        invariant
            0 <= i <= digits@.len(),
            digits@.reverse() == tail,
            r@ == tail.take(digits@.len() - i),
        decreases i,
    {
        i = i - 1;
        let ghost before = r@;
        push_char(&mut r, digits[i]);
        assert(tail[digits@.len() - 1 - i] == digits@[i as int]);
        assert(r@ =~= tail.take(digits@.len() - i));
    }
    assert(tail.take(digits@.len() as int) =~= tail);
    r
}

/// The name under which an item is recorded: the C symbol of a function or
/// free function, the type name of a structure.
pub open spec fn meta_name(m: MetaType) -> Seq<char> {
    match m {
        MetaType::FreeFunc(ff) => ff.func.extern_name@,
        MetaType::Func(f) => f.extern_name@,
        MetaType::Struct(s) => s.self_ty@,
    }
}

/// The name under which an item is recorded.
pub fn meta_file_stem(m: &MetaType) -> (r: String)
    ensures
        r@ == meta_name(*m),
{
    match m {
        MetaType::FreeFunc(ff) => ff.func.extern_name.clone(),
        MetaType::Func(f) => f.extern_name.clone(),
        MetaType::Struct(s) => s.self_ty.clone(),
    }
}

/// The file name of a recorded item: its name followed by the decimal hash of
/// its recorded text.
pub fn record_file_name(name: String, hash: u64) -> (r: String)
    ensures
        r@ == name@ + decimal(hash as nat),
{
    let h = decimal_string(hash);
    concat(name.as_str(), h.as_str())
}

} // verus!
