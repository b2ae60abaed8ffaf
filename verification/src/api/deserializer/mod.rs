pub mod users;

use vstd::prelude::*;

verus! {

/// Why a request body could not be turned into a value.
#[derive(Debug, Clone)]
pub struct ParseError {
    pub kind: ParseErrorKind,
}

/// The kinds of parse errors.
#[derive(Debug, Clone)]
pub enum ParseErrorKind {
    /// The body is missing or is not the expected JSON.
    WrongData,
    /// The body was read but is not acceptable; the text says why.
    NotValid(String),
}

impl ParseError {
    /// An error of kind `kind`.
    pub fn new(kind: ParseErrorKind) -> (err: ParseError)
        ensures
            err.kind == kind,
    {
        ParseError { kind }
    }

    /// The description of an error of kind `kind`.
    pub open spec fn spec_description(kind: ParseErrorKind) -> Seq<char> {
        match kind {
            ParseErrorKind::WrongData => "failed to parse data"@,
            ParseErrorKind::NotValid(message) => message@,
        }
    }

    /// A one-line description: a fixed text for unreadable data, the error's
    /// own message otherwise.
    pub fn description(&self) -> (text: &str)
        ensures
            text@ == Self::spec_description(self.kind),
    {
        match &self.kind {
            ParseErrorKind::WrongData => "failed to parse data",
            ParseErrorKind::NotValid(err_msg) => err_msg.as_str(),
        }
    }
}

} // verus!
