//! Fresh single-letter names for generic parameters.
use vstd::prelude::*;

verus! {

/// The `k`-th uppercase ASCII letter (`A` for 0).
pub open spec fn letter(k: int) -> char {
    ((65 + k) as u8) as char
}

/// Hands out the generic parameter names `A`, `B`, ... `Z` in turn and
/// remembers those handed out.
#[derive(Debug)]
pub struct GenericGenerator {
    alphabete: Vec<char>,
    i: usize,
    pub generics: Vec<char>,
}

impl GenericGenerator {
    /// The alphabet is `A` to `Z`, `i` names have been handed out, and
    /// `generics` holds them in order.
    pub closed spec fn wf(&self) -> bool {
        &&& self.alphabete@.len() == 26
        &&& forall|k: int| 0 <= k < 26 ==> self.alphabete@[k] == letter(k)
        &&& self.i <= 26
        &&& self.generics@ == self.alphabete@.take(self.i as int)
    }

    /// The number of names handed out.
    pub closed spec fn handed_out(&self) -> nat {
        self.i as nat
    }

    /// The names handed out, in order (the contents of `generics`).
    pub closed spec fn names(&self) -> Seq<char> {
        self.generics@
    }

    /// A generator that has handed out nothing.
    pub fn new() -> (r: GenericGenerator)
        ensures
            r.wf(),
            r.handed_out() == 0,
            r.names() == Seq::<char>::empty(),
    {
        let mut alphabete: Vec<char> = Vec::new();
        let mut b: u8 = 65;
        while b <= 90
            invariant
                65 <= b <= 91,
                alphabete@.len() == b - 65,
                forall|k: int| 0 <= k < alphabete@.len() ==> alphabete@[k] == letter(k),
            decreases 91 - b,
        {
            alphabete.push(b as char);
            assert(letter((b - 65) as int) == b as char);
            b = b + 1;
        }
        let r = GenericGenerator { alphabete, i: 0, generics: Vec::new() };
        assert(r.alphabete@.take(0) =~= Seq::<char>::empty());
        r
    }

    /// The next name, which is also remembered in `generics`. All 26 names
    /// must not have been handed out yet.
    pub fn get_generic(&mut self) -> (c: char)
        requires
            old(self).wf(),
            old(self).handed_out() < 26,
        ensures
            final(self).wf(),
            final(self).handed_out() == old(self).handed_out() + 1,
            c == letter(old(self).handed_out() as int),
            final(self).names() == old(self).names().push(c),
    {
        let c = self.alphabete[self.i];
        self.generics.push(c);
        self.i = self.i + 1;
        assert(self.alphabete@.take(self.i as int) =~= old(self).alphabete@.take(old(self).i as int).push(c));
        c
    }
}

/// The names a generator has handed out are distinct: no generic parameter
/// name is handed out twice.
pub proof fn law_generic_names_distinct(g: GenericGenerator)
    requires
        g.wf(),
    ensures
        g.names().len() == g.handed_out(),
        forall|i: int, j: int| 0 <= i < j < g.names().len() ==> g.names()[i] != g.names()[j],
{
    assert forall|i: int, j: int| 0 <= i < j < g.names().len() implies g.names()[i] != g.names()[j] by {
        assert(g.names()[i] == letter(i));
        assert(g.names()[j] == letter(j));
        assert(letter(i) as int == 65 + i);
        assert(letter(j) as int == 65 + j);
    }
}

} // verus!
