//! Errors raised while generating code.
use vstd::prelude::*;
use crate::template::error::TemplateError;

verus! {

/// What went wrong while generating code: a syntax error (with its message),
/// a token stream that failed to lex, or a failure to record the item.
#[derive(Debug, PartialEq)]
pub enum DeriveError {
    SynErr(String),
    LexErr(String),
    TemplateErr(TemplateError),
}

/// The result of a generation step.
pub type DResult<T> = Result<T, DeriveError>;

/// The error is a syntax error with message `m`.
pub open spec fn syn_err(e: DeriveError, m: Seq<char>) -> bool {
    e matches DeriveError::SynErr(x) && x@ == m
}

impl DeriveError {
    /// A syntax error with the given message.
    pub fn syn(msg: &str) -> (r: DeriveError)
        ensures
            syn_err(r, msg@),
    {
        DeriveError::SynErr(msg.to_owned())
    }

    /// The message the error reports at compile time.
    pub fn message(&self) -> (r: String)
        ensures
            r@ == match *self {
                DeriveError::SynErr(m) => m@,
                DeriveError::LexErr(m) => m@,
                DeriveError::TemplateErr(e) => e.spec_message(),
            },
    {
        match self {
            DeriveError::SynErr(m) => m.clone(),
            DeriveError::LexErr(m) => m.clone(),
            DeriveError::TemplateErr(e) => e.message(),
        }
    }
}

impl From<TemplateError> for DeriveError {
    fn from(e: TemplateError) -> DeriveError {
        DeriveError::TemplateErr(e)
    }
}

impl vstd::std_specs::convert::FromSpecImpl<TemplateError> for DeriveError {
    open spec fn obeys_from_spec() -> bool {
        true
    }

    open spec fn from_spec(e: TemplateError) -> DeriveError {
        DeriveError::TemplateErr(e)
    }
}

} // verus!
