//! Errors of the interface description and generation.
use vstd::prelude::*;

verus! {

/// What went wrong while recording or generating an interface. The variants
/// that stem from the file system, the environment, JSON or the template
/// engine carry the message of the underlying error.
#[derive(Debug, Clone, PartialEq)]
pub enum TemplateError {
    IoErr(String),
    VarErr(String),
    SerdeErr(String),
    TeraErr(String),
    MessageErr(String),
}

impl TemplateError {
    /// The message the error displays.
    pub open spec fn spec_message(self) -> Seq<char> {
        match self {
            TemplateError::IoErr(m) => m@,
            TemplateError::VarErr(m) => m@,
            TemplateError::SerdeErr(m) => m@,
            TemplateError::TeraErr(m) => m@,
            TemplateError::MessageErr(m) => m@,
        }
    }

    /// The message the error displays.
    pub fn message(&self) -> (r: String)
        ensures
            r@ == self.spec_message(),
    {
        match self {
            TemplateError::IoErr(m) => m.clone(),
            TemplateError::VarErr(m) => m.clone(),
            TemplateError::SerdeErr(m) => m.clone(),
            TemplateError::TeraErr(m) => m.clone(),
            TemplateError::MessageErr(m) => m.clone(),
        }
    }
}

/// The result of recording or generating an interface.
pub type TResult<T> = Result<T, TemplateError>;

} // verus!
