//! Case conversion of identifiers.
use vstd::prelude::*;
use crate::text::{chars_of, push_char};

verus! {

/// Whether `char::is_uppercase` holds of a character (the Unicode Uppercase property).
pub uninterp spec fn char_upper(c: char) -> bool;

/// Whether `char::is_lowercase` holds of a character (the Unicode Lowercase property).
pub uninterp spec fn char_lower(c: char) -> bool;

/// Whether `char::is_alphabetic` holds of a character (the Unicode Alphabetic property).
pub uninterp spec fn char_alphabetic(c: char) -> bool;

/// Whether `char::is_numeric` holds of a character (Unicode general categories Nd, Nl, No).
pub uninterp spec fn char_numeric(c: char) -> bool;

/// Whether `char::is_whitespace` holds of a character (the Unicode White_Space property).
pub uninterp spec fn char_whitespace(c: char) -> bool;

/// The first character that `char::to_lowercase` yields for a character.
pub uninterp spec fn char_lower_first(c: char) -> char;

/// The first character that `char::to_uppercase` yields for a character.
pub uninterp spec fn char_upper_first(c: char) -> char;

/// The lowercase form of an ASCII character, as `to_ascii_lowercase` gives it.
pub open spec fn ascii_lower(c: char) -> char {
    if 'A' <= c <= 'Z' {
        ((c as u32) + 32) as char
    } else {
        c
    }
}

/// The uppercase form of an ASCII character, as `to_ascii_uppercase` gives it.
pub open spec fn ascii_upper(c: char) -> char {
    if 'a' <= c <= 'z' {
        ((c as u32) - 32) as char
    } else {
        c
    }
}

/// Calls `char::is_uppercase`; its result is named by `char_upper`. The
/// Unicode Uppercase property it reports holds, among ASCII characters, of
/// exactly `A` to `Z`.
#[verifier::external_body]
fn is_uppercase(c: char) -> (r: bool)
    ensures
        r == char_upper(c),
        c <= '\x7f' ==> (r <==> 'A' <= c <= 'Z'),
{
    c.is_uppercase()
}

/// Calls `char::is_lowercase`; its result is named by `char_lower`. The
/// Unicode Lowercase property it reports holds, among ASCII characters, of
/// exactly `a` to `z`.
#[verifier::external_body]
fn is_lowercase(c: char) -> (r: bool)
    ensures
        r == char_lower(c),
        c <= '\x7f' ==> (r <==> 'a' <= c <= 'z'),
{
    c.is_lowercase()
}

/// Calls `char::is_alphabetic`; its result is named by `char_alphabetic`.
/// The Unicode Alphabetic property it reports holds, among ASCII characters,
/// of exactly the letters.
#[verifier::external_body]
fn is_alphabetic(c: char) -> (r: bool)
    ensures
        r == char_alphabetic(c),
        c <= '\x7f' ==> (r <==> ('A' <= c <= 'Z' || 'a' <= c <= 'z')),
{
    c.is_alphabetic()
}

/// Calls `char::is_numeric`; its result is named by `char_numeric`. The
/// numeric general categories it reports hold, among ASCII characters, of
/// exactly the digits.
#[verifier::external_body]
fn is_numeric(c: char) -> (r: bool)
    ensures
        r == char_numeric(c),
        c <= '\x7f' ==> (r <==> '0' <= c <= '9'),
{
    c.is_numeric()
}

/// Calls `char::is_whitespace`; its result is named by `char_whitespace`.
/// The Unicode White_Space property it reports holds, among ASCII
/// characters, of exactly the space and U+0009 to U+000D.
#[verifier::external_body]
fn is_whitespace(c: char) -> (r: bool)
    ensures
        r == char_whitespace(c),
        c <= '\x7f' ==> (r <==> (c == ' ' || '\t' <= c <= '\r')),
{
    c.is_whitespace()
}

/// Calls `char::to_lowercase` and takes the first character it yields; the
/// documentation of `to_lowercase` promises at least one (the character itself
/// when it has no lowercase mapping). The result is named by `char_lower_first`.
/// An ASCII character maps to its ASCII lowercase form.
#[verifier::external_body]
fn lowercase_first(c: char) -> (r: char)
    ensures
        r == char_lower_first(c),
        c <= '\x7f' ==> r == ascii_lower(c),
{
    c.to_lowercase().next().unwrap()
}

/// Calls `char::to_uppercase` and takes the first character it yields; the
/// documentation of `to_uppercase` promises at least one. The result is named
/// by `char_upper_first`.
/// An ASCII character maps to its ASCII uppercase form.
#[verifier::external_body]
fn uppercase_first(c: char) -> (r: char)
    ensures
        r == char_upper_first(c),
        c <= '\x7f' ==> r == ascii_upper(c),
{
    c.to_uppercase().next().unwrap()
}

/// What the case conversions read of a character: the answers of `char`'s
/// classification methods and the first characters of its case mappings.
#[derive(Debug, Clone, Copy, PartialEq, Eq, Structural)]
pub struct CharFacts {
    pub upper: bool,
    pub lower: bool,
    pub alphabetic: bool,
    pub numeric: bool,
    pub whitespace: bool,
    pub lower_first: char,
    pub upper_first: char,
}

/// The facts of a character, as `char`'s methods give them.
pub open spec fn facts_of(c: char) -> CharFacts {
    CharFacts {
        upper: char_upper(c),
        lower: char_lower(c),
        alphabetic: char_alphabetic(c),
        numeric: char_numeric(c),
        whitespace: char_whitespace(c),
        lower_first: char_lower_first(c),
        upper_first: char_upper_first(c),
    }
}

/// The facts of an ASCII character.
pub open spec fn ascii_facts(c: char) -> CharFacts {
    CharFacts {
        upper: 'A' <= c <= 'Z',
        lower: 'a' <= c <= 'z',
        alphabetic: 'A' <= c <= 'Z' || 'a' <= c <= 'z',
        numeric: '0' <= c <= '9',
        whitespace: c == ' ' || '\t' <= c <= '\r',
        lower_first: ascii_lower(c),
        upper_first: ascii_upper(c),
    }
}

/// Every character of `s` is ASCII.
pub open spec fn is_ascii_seq(s: Seq<char>) -> bool {
    forall|i: int| 0 <= i < s.len() ==> s[i] <= '\x7f'
}

/// The facts of a character, asked of `char`'s methods.
pub fn char_facts(c: char) -> (r: CharFacts)
    ensures
        r == facts_of(c),
        c <= '\x7f' ==> r == ascii_facts(c),
{
    CharFacts {
        upper: is_uppercase(c),
        lower: is_lowercase(c),
        alphabetic: is_alphabetic(c),
        numeric: is_numeric(c),
        whitespace: is_whitespace(c),
        lower_first: lowercase_first(c),
        upper_first: uppercase_first(c),
    }
}

/// What the snake-case conversion writes for a character with facts `f`,
/// given whether an underscore is due before an uppercase letter: the
/// underscore if it is due and the character is uppercase, then the first
/// character of its lowercase form.
pub open spec fn snake_emit(f: CharFacts, require_space: bool) -> Seq<char> {
    if f.upper && require_space {
        seq!['_', f.lower_first]
    } else {
        seq![f.lower_first]
    }
}

/// Whether an underscore is due before the next uppercase letter, after a
/// character with facts `f`: yes after a lowercase letter, no after a
/// character that is neither alphabetic nor numeric, unchanged otherwise.
pub open spec fn snake_next(f: CharFacts, require_space: bool) -> bool {
    if f.lower {
        true
    } else if !f.alphabetic && !f.numeric {
        false
    } else {
        require_space
    }
}

/// One step of the snake-case conversion: writes what a character with facts
/// `f` gives and returns whether an underscore is due next.
pub fn snake_step(f: CharFacts, require_space: bool, out: &mut String) -> (next: bool)
    ensures
        final(out)@ == old(out)@ + snake_emit(f, require_space),
        next == snake_next(f, require_space),
{
    if f.upper && require_space {
        push_char(out, '_');
    }
    push_char(out, f.lower_first);
    if f.lower {
        true
    } else if !f.alphabetic && !f.numeric {
        false
    } else {
        require_space
    }
}

/// Output and state of the snake-case conversion after reading `s`.
pub open spec fn snake_state(s: Seq<char>) -> (Seq<char>, bool)
    decreases s.len(),
{
    if s.len() == 0 {
        (Seq::empty(), false)
    } else {
        let (out, req) = snake_state(s.drop_last());
        (out + snake_emit(facts_of(s.last()), req), snake_next(facts_of(s.last()), req))
    }
}

/// The snake-case form of `s`: each character lowercased, with an underscore
/// before an uppercase letter that follows a lowercase letter within a word.
pub open spec fn snake_case(s: Seq<char>) -> Seq<char> {
    snake_state(s).0
}

/// Output and state of the snake-case conversion of an ASCII string after
/// reading `s`.
pub open spec fn snake_state_ascii(s: Seq<char>) -> (Seq<char>, bool)
    decreases s.len(),
{
    if s.len() == 0 {
        (Seq::empty(), false)
    } else {
        let (out, req) = snake_state_ascii(s.drop_last());
        (out + snake_emit(ascii_facts(s.last()), req), snake_next(ascii_facts(s.last()), req))
    }
}

/// The snake-case form of an ASCII string.
pub open spec fn snake_case_ascii(s: Seq<char>) -> Seq<char> {
    snake_state_ascii(s).0
}

/// Where the facts of every character are those of ASCII, the conversion is
/// the ASCII one.
proof fn lemma_snake_ascii(s: Seq<char>)
    requires
        forall|i: int| 0 <= i < s.len() ==> facts_of(#[trigger] s[i]) == ascii_facts(s[i]),
    ensures
        snake_state(s) == snake_state_ascii(s),
    decreases s.len(),
{
    if s.len() > 0 {
        let d = s.drop_last();
        assert forall|i: int| 0 <= i < d.len() implies facts_of(#[trigger] d[i]) == ascii_facts(d[i]) by {
            assert(d[i] == s[i]);
        }
        lemma_snake_ascii(d);
        assert(facts_of(s[s.len() - 1]) == ascii_facts(s[s.len() - 1]));
    }
}

/// Converts an identifier to snake case (`HelloWorld` becomes `hello_world`).
pub fn to_snake_case(s: String) -> (r: String)
    ensures
        r@ == snake_case(s@),
        is_ascii_seq(s@) ==> r@ == snake_case_ascii(s@),
{
    let cs = chars_of(s.as_str());
    let mut ss = String::new();
    let mut require_space = false;
    let mut i: usize = 0;
    while i < cs.len()
        invariant
            0 <= i <= cs@.len(),
            cs@ == s@,
            (ss@, require_space) == snake_state(cs@.take(i as int)),
            forall|j: int| 0 <= j < i && cs@[j] <= '\x7f' ==> facts_of(#[trigger] cs@[j]) == ascii_facts(cs@[j]),
        decreases cs@.len() - i,
    {
        let c = cs[i];
        assert(cs@.take(i + 1).drop_last() == cs@.take(i as int));
        require_space = snake_step(char_facts(c), require_space, &mut ss);
        i = i + 1;
    }
    assert(cs@.take(cs@.len() as int) == cs@);
    proof {
        if is_ascii_seq(s@) {
            assert forall|j: int| 0 <= j < cs@.len() implies facts_of(#[trigger] cs@[j]) == ascii_facts(cs@[j]) by {
                assert(cs@[j] <= '\x7f');
            }
            lemma_snake_ascii(cs@);
        }
    }
    ss
}

/// What the camel-case conversion writes for character `c` with facts `f`,
/// given whether the next letter is to be uppercased, and whether that is
/// due after it: a separator (whitespace or `_`) writes nothing and makes it
/// due; otherwise the character is written, as the first character of its
/// uppercase form if that was due.
pub open spec fn camel_emit(c: char, f: CharFacts, require_upper: bool) -> (Seq<char>, bool) {
    if f.whitespace || c == '_' {
        (Seq::empty(), true)
    } else if require_upper {
        (seq![f.upper_first], false)
    } else {
        (seq![c], false)
    }
}

/// One step of the camel-case conversion: writes what character `c` with
/// facts `f` gives and returns whether the next letter is to be uppercased.
pub fn camel_step(c: char, f: CharFacts, require_upper: bool, out: &mut String) -> (next: bool)
    ensures
        final(out)@ == old(out)@ + camel_emit(c, f, require_upper).0,
        next == camel_emit(c, f, require_upper).1,
{
    if f.whitespace || c == '_' {
        assert(old(out)@ + Seq::<char>::empty() =~= old(out)@);
        true
    } else if require_upper {
        push_char(out, f.upper_first);
        false
    } else {
        push_char(out, c);
        false
    }
}

/// Output and state of the camel-case conversion after reading `s`.
pub open spec fn camel_state(s: Seq<char>) -> (Seq<char>, bool)
    decreases s.len(),
{
    if s.len() == 0 {
        (Seq::empty(), true)
    } else {
        let (out, req) = camel_state(s.drop_last());
        let (e, next) = camel_emit(s.last(), facts_of(s.last()), req);
        (out + e, next)
    }
}

/// The camel-case form of `s`: separators (whitespace and `_`) dropped, and
/// the first character after a separator (or at the start) uppercased.
pub open spec fn camel_case(s: Seq<char>) -> Seq<char> {
    camel_state(s).0
}

/// Output and state of the camel-case conversion of an ASCII string after
/// reading `s`.
pub open spec fn camel_state_ascii(s: Seq<char>) -> (Seq<char>, bool)
    decreases s.len(),
{
    if s.len() == 0 {
        (Seq::empty(), true)
    } else {
        let (out, req) = camel_state_ascii(s.drop_last());
        let (e, next) = camel_emit(s.last(), ascii_facts(s.last()), req);
        (out + e, next)
    }
}

/// The camel-case form of an ASCII string.
pub open spec fn camel_case_ascii(s: Seq<char>) -> Seq<char> {
    camel_state_ascii(s).0
}

/// Where the facts of every character are those of ASCII, the conversion is
/// the ASCII one.
proof fn lemma_camel_ascii(s: Seq<char>)
    requires
        forall|i: int| 0 <= i < s.len() ==> facts_of(#[trigger] s[i]) == ascii_facts(s[i]),
    ensures
        camel_state(s) == camel_state_ascii(s),
    decreases s.len(),
{
    if s.len() > 0 {
        let d = s.drop_last();
        assert forall|i: int| 0 <= i < d.len() implies facts_of(#[trigger] d[i]) == ascii_facts(d[i]) by {
            assert(d[i] == s[i]);
        }
        lemma_camel_ascii(d);
        assert(facts_of(s[s.len() - 1]) == ascii_facts(s[s.len() - 1]));
    }
}

/// Converts an identifier to camel case (`hello_world` becomes `HelloWorld`).
pub fn to_camel_case(s: String) -> (r: String)
    ensures
        r@ == camel_case(s@),
        is_ascii_seq(s@) ==> r@ == camel_case_ascii(s@),
{
    let cs = chars_of(s.as_str());
    let mut ss = String::new();
    let mut require_upper = true;
    let mut i: usize = 0;
    while i < cs.len()
        invariant
            0 <= i <= cs@.len(),
            cs@ == s@,
            (ss@, require_upper) == camel_state(cs@.take(i as int)),
            forall|j: int| 0 <= j < i && cs@[j] <= '\x7f' ==> facts_of(#[trigger] cs@[j]) == ascii_facts(cs@[j]),
        decreases cs@.len() - i,
    {
        let c = cs[i];
        assert(cs@.take(i + 1).drop_last() == cs@.take(i as int));
        require_upper = camel_step(c, char_facts(c), require_upper, &mut ss);
        i = i + 1;
    }
    assert(cs@.take(cs@.len() as int) == cs@);
    proof {
        if is_ascii_seq(s@) {
            assert forall|j: int| 0 <= j < cs@.len() implies facts_of(#[trigger] cs@[j]) == ascii_facts(cs@[j]) by {
                assert(cs@[j] <= '\x7f');
            }
            lemma_camel_ascii(cs@);
        }
    }
    ss
}

/// The camel-case form of an ASCII string is ASCII.
proof fn lemma_camel_ascii_chars(s: Seq<char>)
    requires
        is_ascii_seq(s),
    ensures
        is_ascii_seq(camel_case_ascii(s)),
    decreases s.len(),
{
    if s.len() > 0 {
        let d = s.drop_last();
        assert forall|i: int| 0 <= i < d.len() implies d[i] <= '\x7f' by {
            assert(d[i] == s[i]);
        }
        lemma_camel_ascii_chars(d);
        let c = s.last();
        assert(c <= '\x7f');
        let o = camel_case_ascii(s);
        let od = camel_case_ascii(d);
        assert forall|i: int| 0 <= i < o.len() implies o[i] <= '\x7f' by {
            if i < od.len() {
                assert(o[i] == od[i]);
            }
        }
    }
}

/// The snake-case form of an ASCII string is ASCII.
proof fn lemma_snake_ascii_chars(s: Seq<char>)
    requires
        is_ascii_seq(s),
    ensures
        is_ascii_seq(snake_case_ascii(s)),
    decreases s.len(),
{
    if s.len() > 0 {
        let d = s.drop_last();
        assert forall|i: int| 0 <= i < d.len() implies d[i] <= '\x7f' by {
            assert(d[i] == s[i]);
        }
        lemma_snake_ascii_chars(d);
        let c = s.last();
        assert(c <= '\x7f');
        let o = snake_case_ascii(s);
        let od = snake_case_ascii(d);
        assert forall|i: int| 0 <= i < o.len() implies o[i] <= '\x7f' by {
            if i < od.len() {
                assert(o[i] == od[i]);
            }
        }
    }
}

/// `s` is lowercase ASCII words of at least two letters joined by single
/// underscores (`hello_world`).
pub open spec fn lower_words(s: Seq<char>) -> bool {
    &&& s.len() >= 2
    &&& forall|i: int| 0 <= i < s.len() ==> ('a' <= #[trigger] s[i] <= 'z' || s[i] == '_')
    &&& s[0] != '_'
    &&& s[1] != '_'
    &&& forall|i: int| 0 <= i < s.len() && #[trigger] s[i] == '_' ==> i + 2 < s.len() && s[i + 1] != '_' && s[i + 2] != '_'
}

/// The two conversions after `n` characters of lowercase words: the
/// camel-case form, read back into snake case, gives those characters (an
/// underscore just read is held back until the next letter).
proof fn lemma_snake_of_camel_prefix(s: Seq<char>, n: int)
    requires
        lower_words(s),
        0 <= n <= s.len(),
    ensures
        ({
            let (co, cr) = camel_state_ascii(s.take(n));
            let (so, sr) = snake_state_ascii(co);
            &&& cr == (n == 0 || s[n - 1] == '_')
            &&& so == (if n > 0 && s[n - 1] == '_' { s.take(n - 1) } else { s.take(n) })
            &&& sr == (n >= 2)
        }),
    decreases n,
{
    if n > 0 {
        lemma_snake_of_camel_prefix(s, n - 1);
        let p = s.take(n - 1);
        assert(s.take(n).drop_last() =~= p);
        let c = s[n - 1];
        let (co, cr) = camel_state_ascii(p);
        let (so, sr) = snake_state_ascii(co);
        if c == '_' {
            assert(camel_state_ascii(s.take(n)).0 =~= co);
            if n >= 2 {
                assert(s[n - 2] != '_') by {
                    if s[n - 2] == '_' {
                        assert(s[(n - 2) + 1] != '_');
                    }
                }
            }
        } else {
            assert('a' <= c <= 'z');
            if cr {
                let u = ascii_upper(c);
                assert('A' <= u <= 'Z');
                assert(ascii_lower(u) == c);
                let co2 = camel_state_ascii(s.take(n)).0;
                assert(co2 =~= co.push(u));
                assert(co2.drop_last() =~= co);
                if n >= 2 {
                    assert(s[n - 2] == '_');
                    assert(s.take(n) =~= s.take(n - 2) + seq!['_', c]);
                } else {
                    assert(s.take(n) =~= seq![c]);
                }
            } else {
                let co2 = camel_state_ascii(s.take(n)).0;
                assert(co2 =~= co.push(c));
                assert(co2.drop_last() =~= co);
                assert(ascii_lower(c) == c);
                assert(s.take(n) =~= s.take(n - 1).push(c));
                if n == 1 {
                    assert(false);
                }
            }
        }
    }
}

/// Lowercase words joined by underscores come back unchanged from camel case
/// through snake case: `hello_world` becomes `HelloWorld` and then
/// `hello_world` again.
pub proof fn law_snake_of_camel(s: Seq<char>)
    requires
        lower_words(s),
    ensures
        is_ascii_seq(s),
        is_ascii_seq(camel_case_ascii(s)),
        snake_case_ascii(camel_case_ascii(s)) == s,
{
    assert forall|i: int| 0 <= i < s.len() implies s[i] <= '\x7f' by {
        assert('a' <= s[i] <= 'z' || s[i] == '_');
    }
    lemma_snake_of_camel_prefix(s, s.len() as int);
    assert(s.take(s.len() as int) =~= s);
    assert(s[s.len() - 1] != '_') by {
        if s[s.len() - 1] == '_' {
            assert(s[s.len() - 1] == '_');
        }
    }
    lemma_camel_ascii_chars(s);
}

/// `s` is ASCII words, each an uppercase letter followed by at least one
/// lowercase letter, written together (`HelloWorld`).
pub open spec fn upper_words(s: Seq<char>) -> bool {
    &&& s.len() >= 2
    &&& forall|i: int| 0 <= i < s.len() ==> ('a' <= #[trigger] s[i] <= 'z' || 'A' <= s[i] <= 'Z')
    &&& 'A' <= s[0] <= 'Z'
    &&& forall|i: int| 0 <= i < s.len() && 'A' <= #[trigger] s[i] <= 'Z' ==> i + 1 < s.len() && 'a' <= s[i + 1] <= 'z'
}

/// The two conversions after `n` characters of capitalized words: the
/// snake-case form, read back into camel case, gives those characters.
proof fn lemma_camel_of_snake_prefix(s: Seq<char>, n: int)
    requires
        upper_words(s),
        0 <= n <= s.len(),
    ensures
        ({
            let (so, sr) = snake_state_ascii(s.take(n));
            let (co, cr) = camel_state_ascii(so);
            &&& sr == (n >= 2)
            &&& co == s.take(n)
            &&& cr == (n == 0)
        }),
    decreases n,
{
    if n > 0 {
        lemma_camel_of_snake_prefix(s, n - 1);
        let p = s.take(n - 1);
        assert(s.take(n).drop_last() =~= p);
        assert(s.take(n) =~= p.push(s[n - 1]));
        let c = s[n - 1];
        let (so, sr) = snake_state_ascii(p);
        let so2 = snake_state_ascii(s.take(n)).0;
        if 'A' <= c <= 'Z' {
            let l = ascii_lower(c);
            assert('a' <= l <= 'z');
            assert(ascii_upper(l) == c);
            if n == 1 {
                assert(!sr);
                assert(snake_emit(ascii_facts(c), sr) == seq![l]);
                assert(so2 =~= so.push(l));
                assert(so2.drop_last() =~= so);
                assert(camel_state_ascii(so) == (Seq::<char>::empty(), true));
                assert(camel_state_ascii(so2).0 =~= seq![c]);
                assert(s.take(n) =~= seq![c]);
            } else {
                assert(n - 1 >= 2) by {
                    if n - 1 == 1 {
                        assert('a' <= s[0int + 1] <= 'z');
                    }
                }
                assert(sr);
                assert(snake_emit(ascii_facts(c), sr) == seq!['_', l]);
                assert(so2 =~= so.push('_').push(l));
                assert(so2.drop_last() =~= so.push('_'));
                assert(so.push('_').drop_last() =~= so);
                let (co, cr) = camel_state_ascii(so);
                assert(camel_state_ascii(so.push('_')) == (co, true));
                assert(camel_state_ascii(so2).0 =~= co.push(c));
            }
        } else {
            assert('a' <= c <= 'z');
            assert(ascii_lower(c) == c);
            assert(snake_emit(ascii_facts(c), sr) == seq![c]);
            assert(so2 =~= so.push(c));
            assert(so2.drop_last() =~= so);
            assert(n - 1 >= 1) by {
                if n - 1 == 0 {
                    assert('A' <= s[0] <= 'Z');
                }
            }
            let (co, cr) = camel_state_ascii(so);
            assert(!cr);
            assert(camel_state_ascii(so2).0 =~= co.push(c));
        }
    }
}

/// Capitalized words come back unchanged from snake case through camel case:
/// `HelloWorld` becomes `hello_world` and then `HelloWorld` again.
pub proof fn law_camel_of_snake(s: Seq<char>)
    requires
        upper_words(s),
    ensures
        is_ascii_seq(s),
        is_ascii_seq(snake_case_ascii(s)),
        camel_case_ascii(snake_case_ascii(s)) == s,
{
    assert forall|i: int| 0 <= i < s.len() implies s[i] <= '\x7f' by {
        assert('a' <= s[i] <= 'z' || 'A' <= s[i] <= 'Z');
    }
    lemma_camel_of_snake_prefix(s, s.len() as int);
    assert(s.take(s.len() as int) =~= s);
    lemma_snake_ascii_chars(s);
}

} // verus!
