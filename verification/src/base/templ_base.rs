//! The interface a binding generator works against.
use vstd::prelude::*;

verus! {

/// A named, typed argument.
pub trait IArgument<Ty> {
    fn get_name(&self) -> &str;

    fn get_type(&self) -> &Ty;
}

/// A function: its Rust name, its C symbol, its arguments and its return type.
pub trait IFunction<Arg, Ty> {
    fn get_name(&self) -> &str;

    fn get_ffi_name(&self) -> &str;

    fn get_args(&self) -> &Vec<Arg>;

    fn get_return(&self) -> Option<&Ty>;
}

/// A structure: its type name and its methods.
pub trait IStructure<Func, Arg, Ty> {
    fn get_name(&self) -> &str;

    fn get_methods(&self) -> &Vec<Func>;
}

/// Writes the binding of an interface into a directory, given by its path.
pub trait IGenerator<Struct, Func, Arg, Ty> {
    fn write_to(&self, dir: &str);
}

} // verus!
