use crate::api::deserializer::{ParseError, ParseErrorKind};
use vstd::prelude::*;

verus! {

/// The body of a request that creates a user by name.
#[derive(Debug, Clone)]
pub struct PostUser {
    pub name: String,
    pub password: String,
}

impl PostUser {
    /// Turns what reading a request body gave into a user: `parsed` is `Err`
    /// when the body could not be read or was not the expected JSON, `Ok(None)`
    /// when there was no body, and `Ok(Some(body))` otherwise. Only a body
    /// that was read is accepted.
    pub fn parse_and_validate(parsed: Result<Option<PostUser>, ()>) -> (res: Result<
        PostUser,
        ParseError,
    >)
        ensures
            match parsed {
                Ok(Some(body)) => res == Ok::<PostUser, ParseError>(body),
                _ => res matches Err(err) && err.kind is WrongData,
            },
    {
        match parsed {
            Ok(Some(body)) => Ok(body),
            Ok(None) => Err(ParseError::new(ParseErrorKind::WrongData)),
            Err(_) => Err(ParseError::new(ParseErrorKind::WrongData)),
        }
    }
}

} // verus!
