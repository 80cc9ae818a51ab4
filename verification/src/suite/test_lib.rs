//! A boxed counter exported with plain C wrappers that return values directly.
use vstd::prelude::*;

verus! {

/// A counter handed to C boxed.
#[derive(Debug, PartialEq)]
pub struct BoxedStruct {
    acc: u32,
}

impl View for BoxedStruct {
    type V = u32;

    closed spec fn view(&self) -> u32 {
        self.acc
    }
}

impl BoxedStruct {
    /// A counter at zero.
    pub fn new() -> (r: BoxedStruct)
        ensures
            r@ == 0,
    {
        BoxedStruct { acc: 0 }
    }

    /// Counts one up.
    pub fn inc(&mut self)
        requires
            old(self)@ < u32::MAX,
        ensures
            final(self)@ == old(self)@ + 1,
    {
        self.acc = self.acc + 1;
    }

    /// The count.
    pub fn get(&self) -> (r: u32)
        ensures
            r == self@,
    {
        self.acc
    }
}

/// A new counter, boxed for C.
pub fn new_boxed_struct() -> (r: Box<BoxedStruct>)
    ensures
        r@ == 0,
{
    Box::new(BoxedStruct::new())
}

/// Counts a boxed counter up.
pub fn inc_boxed_struct(this: &mut BoxedStruct)
    requires
        old(this)@ < u32::MAX,
    ensures
        final(this)@ == old(this)@ + 1,
{
    this.inc()
}

/// The count of a boxed counter.
pub fn get_boxed_struct(this: &BoxedStruct) -> (r: u32)
    ensures
        r == this@,
{
    this.get()
}

/// Frees a boxed counter.
pub fn free_boxed_struct(ptr: Box<BoxedStruct>) {
}

} // verus!
