//! What an output file needs of the items it describes.
use vstd::prelude::*;

verus! {

/// A named, typed argument.
pub trait Argument<Ty> {
    fn get_name(&self) -> &str;

    fn get_type(&self) -> &Ty;
}

/// A named function with its arguments.
pub trait Function<Arg, Ty> {
    fn get_name(&self) -> &str;

    fn get_args(&self) -> &Vec<Arg>;
}

} // verus!
