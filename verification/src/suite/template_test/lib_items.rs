//! The exported types and functions of the interface.
use vstd::prelude::*;

verus! {

/// A named value handed to C boxed.
#[derive(Debug, PartialEq)]
pub struct BoxedStruct {
    pub name: String,
    pub value: String,
}

/// A named value handed to C as JSON text.
#[derive(Debug, PartialEq)]
pub struct JsonStruct {
    pub name: String,
    pub value: String,
}

/// A type nothing describes, handed to C as a raw pointer.
#[derive(Debug, PartialEq)]
pub struct UnknownStruct {}

impl JsonStruct {
    /// `Hello` / `World!`.
    pub fn new() -> (r: JsonStruct)
        ensures
            r.name@ == "Hello"@,
            r.value@ == "World!"@,
    {
        JsonStruct { name: "Hello".to_owned(), value: "World!".to_owned() }
    }
}

impl BoxedStruct {
    /// `Boxed` / `World!`.
    pub fn new() -> (r: BoxedStruct)
        ensures
            r.name@ == "Boxed"@,
            r.value@ == "World!"@,
    {
        BoxedStruct { name: "Boxed".to_owned(), value: "World!".to_owned() }
    }
}

/// A new value of a type nothing describes, boxed.
pub fn get_unknown() -> (r: Box<UnknownStruct>)
    ensures
        *r == (UnknownStruct {}),
{
    Box::new(UnknownStruct {})
}

/// A fixed string.
pub fn get_string() -> (r: &'static str)
    ensures
        r@ == "ABCDEFGHIJKLM"@,
{
    "ABCDEFGHIJKLM"
}

/// A fixed number, present.
pub fn get_some() -> (r: Option<u64>)
    ensures
        r == Some(12345u64),
{
    Some(12345)
}

/// No number.
pub fn get_none() -> (r: Option<u64>)
    ensures
        r is None,
{
    None
}

/// A fixed string, as a success.
pub fn get_ok() -> (r: Result<&'static str, &'static str>)
    ensures
        r matches Ok(s) && s@ == "This is ok"@,
{
    Ok("This is ok")
}

/// A fixed string, as an error.
pub fn get_err() -> (r: Result<&'static str, &'static str>)
    ensures
        r matches Err(s) && s@ == "This is bad"@,
{
    Err("This is bad")
}

/// A greeting three options deep.
pub fn get_nested() -> (r: Option<Option<Option<&'static str>>>)
    ensures
        r matches Some(Some(Some(s))) && s@ == "Hello World!"@,
{
    Some(Some(Some("Hello World!")))
}

/// A greeting inside options and a success.
pub fn get_nested_combined() -> (r: Option<Option<Result<Option<&'static str>, &'static str>>>)
    ensures
        r matches Some(Some(Ok(Some(s)))) && s@ == "Hello World!"@,
{
    Some(Some(Ok(Some("Hello World!"))))
}

} // verus!
