//! The ways a statement can be rejected.

use vstd::prelude::*;

verus! {

/// Why a statement was rejected; parsing stops at the first one.
#[derive(Clone, Copy, Debug, PartialEq, Eq, Structural)]
pub enum ObjError {
    /// The statement has too few or too many arguments.
    WrongNumberOfArguments,
    /// An argument does not have the expected form.
    WrongTypeOfArguments,
    /// The keyword is not one of the format's statements.
    UnexpectedStatement,
    /// The keyword is a statement of the format that is not interpreted.
    UnsupportedStatement,
    /// A number could not be read from an argument.
    ParseError,
}

impl ObjError {
    /// A message that describes the error.
    pub fn message(&self) -> &'static str {
        match self {
            ObjError::WrongNumberOfArguments => "wrong number of arguments",
            ObjError::WrongTypeOfArguments => "wrong type of arguments",
            ObjError::UnexpectedStatement => "received unknown statement",
            ObjError::UnsupportedStatement => "statement is not supported",
            ObjError::ParseError => "cannot parse a number",
        }
    }
}

} // verus!
