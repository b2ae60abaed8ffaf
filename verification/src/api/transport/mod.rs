pub mod users;
pub mod validation;

use crate::api::transport::users::{post_user_error_codes, PostUser, MIN_PASSWORD_LENGTH};
use crate::api::transport::validation::{
    field_error_codes, field_error_names, is_email, nested_error_fields,
};
use crate::api::utils::{get_validation_message, validation_message};
use vstd::prelude::*;

verus! {

/// 200 OK.
pub const STATUS_OK: u16 = 200;

/// 400 Bad Request.
pub const STATUS_BAD_REQUEST: u16 = 400;

/// 401 Unauthorized.
pub const STATUS_UNAUTHORIZED: u16 = 401;

/// 404 Not Found.
pub const STATUS_NOT_FOUND: u16 = 404;

/// 500 Internal Server Error.
pub const STATUS_INTERNAL_SERVER_ERROR: u16 = 500;

/// The canonical reason phrase of an HTTP status code, as iron's
/// `Status::canonical_reason` gives it (`None` for unregistered codes).
pub uninterp spec fn status_reason(code: u16) -> Option<Seq<char>>;

/// `iron::status::Status::from_u16(code).canonical_reason()`. The whole
/// table is left to the name `status_reason`; the two phrases this library
/// answers with are stated, as the crate's source lists them.
#[verifier::external_body]
fn canonical_reason(code: u16) -> (reason: Option<&'static str>)
    ensures
        reason is Some ==> status_reason(code) == Some(reason->0@),
        reason is None ==> status_reason(code) is None,
        code == 401 ==> (reason is Some && reason->0@ == "Unauthorized"@),
        code == 500 ==> (reason is Some && reason->0@ == "Internal Server Error"@),
{
    iron::status::Status::from_u16(code).canonical_reason()
}

} // verus!

verus! {

/// A JSON value built elsewhere and carried into a response unchanged.
#[verifier::external_type_specification]
#[verifier::external_body]
pub struct ExJsonValue(serde_json::Value);

/// `Clone` of `serde_json::Value` (derived there); nothing is claimed of the copy.
pub assume_specification[ <serde_json::Value as Clone>::clone ](value: &serde_json::Value) -> serde_json::Value;

/// The `data` member of a response body.
#[derive(Debug, Clone)]
pub enum ResponseData {
    /// The fields that failed validation, each once, with the message
    /// explaining its rule; rendered as a JSON object.
    Fields(Vec<(String, &'static str)>),
    /// Any other JSON payload.
    Value(serde_json::Value),
}

/// The JSON body of a response together with its HTTP status. Members that
/// are `None` are left out of the JSON document.
#[derive(Debug, Clone)]
pub struct ResponseBody {
    /// The HTTP status code; not part of the JSON document.
    pub resp_status: u16,
    /// A short name of the error, when the response reports one.
    pub error: Option<&'static str>,
    /// The payload.
    pub data: Option<ResponseData>,
    /// A code that tells internal failures apart.
    pub internal_code: Option<u8>,
}

/// What went wrong while serving a request.
#[derive(Debug, Clone)]
pub struct RequestError {
    pub kind: RequestErrorKind,
}

/// The kinds of request errors.
#[derive(Debug, Clone)]
pub enum RequestErrorKind {
    /// The body is missing or is not the expected JSON.
    WrongData,
    /// The body was read but some fields broke their rules.
    NotValid(Box<validator::ValidationErrors>),
    /// The caller is not authenticated.
    Unauthorized,
    /// A failure inside the service.
    InternalError(RequestInternalErrorKind),
}

/// The internal failures.
#[derive(Debug, Clone, Copy, PartialEq, Eq, Structural)]
pub enum RequestInternalErrorKind {
    /// The session store could not give a value.
    SessionsStore,
}

impl RequestInternalErrorKind {
    /// The number that stands for this failure in a response.
    pub open spec fn spec_code(self) -> u8 {
        match self {
            RequestInternalErrorKind::SessionsStore => 0,
        }
    }

    /// The number that stands for this failure in a response
    /// (its position among the variants).
    pub fn code(&self) -> (code: u8)
        ensures
            code == self.spec_code(),
    {
        match self {
            RequestInternalErrorKind::SessionsStore => 0,
        }
    }
}

/// The field names of a list of field messages.
pub open spec fn field_names_of(fields: Seq<(String, &'static str)>) -> Seq<Seq<char>> {
    fields.map_values(|entry: (String, &'static str)| entry.0@)
}

/// `fields` lists every field that holds field-level errors in `errors`,
/// each once, with the message of that field.
pub open spec fn lists_invalid_fields(
    fields: Seq<(String, &'static str)>,
    errors: validator::ValidationErrors,
) -> bool {
    &&& field_names_of(fields).to_set() == field_error_codes(errors).dom()
    &&& field_names_of(fields).no_duplicates()
    &&& forall|i: int|
        0 <= i < fields.len() ==> (#[trigger] fields[i]).1@ == validation_message(fields[i].0@)
}

/// `error` holds exactly the text `text`.
pub open spec fn error_is(error: Option<&'static str>, text: Seq<char>) -> bool {
    error is Some && error->0@ == text
}

/// `body` is the response that reports an error of kind `kind`.
pub open spec fn reports(body: ResponseBody, kind: RequestErrorKind) -> bool {
    match kind {
        RequestErrorKind::WrongData => {
            &&& body.resp_status == STATUS_BAD_REQUEST
            &&& error_is(body.error, "wrong_data"@)
            &&& body.data is None
            &&& body.internal_code is None
        },
        RequestErrorKind::NotValid(errors) => {
            &&& body.resp_status == STATUS_BAD_REQUEST
            &&& error_is(body.error, "validation_failed"@)
            &&& body.data matches Some(ResponseData::Fields(fields)) && lists_invalid_fields(
                fields@,
                *errors,
            )
            &&& body.internal_code is None
        },
        RequestErrorKind::Unauthorized => {
            &&& body.resp_status == STATUS_UNAUTHORIZED
            &&& error_is(body.error, "Unauthorized"@)
            &&& body.data is None
            &&& body.internal_code is None
        },
        RequestErrorKind::InternalError(internal) => {
            &&& body.resp_status == STATUS_INTERNAL_SERVER_ERROR
            &&& error_is(body.error, "Internal Server Error"@)
            &&& body.data is None
            &&& body.internal_code == Some(internal.spec_code())
        },
    }
}

impl ResponseBody {
    /// A successful response with status `resp_status` that carries `data`.
    pub fn with_data(resp_status: u16, data: serde_json::Value) -> (body: ResponseBody)
        ensures
            body.resp_status == resp_status,
            body.error is None,
            body.data == Some(ResponseData::Value(data)),
            body.internal_code is None,
    {
        ResponseBody { resp_status, error: None, data: Some(ResponseData::Value(data)), internal_code: None }
    }

    /// The response that reports `err`: 400 with "wrong_data" for an
    /// unreadable body, 400 with "validation_failed" and the message of each
    /// invalid field for a body that broke its rules, 401 for an
    /// unauthenticated caller and 500 with the failure's code for an internal
    /// failure.
    pub fn with_error(err: RequestError) -> (body: ResponseBody)
        ensures
            reports(body, err.kind),
    {
        match err.kind {
            RequestErrorKind::WrongData => {
                ResponseBody {
                    resp_status: STATUS_BAD_REQUEST,
                    error: Some("wrong_data"),
                    data: None,
                    internal_code: None,
                }
            },
            RequestErrorKind::NotValid(e) => {
                let ghost errors = *e;
                let names = field_error_names(*e);
                let ghost name_views = names@.map_values(|name: &'static str| name@);
                let mut not_valid_fields: Vec<(String, &'static str)> = Vec::new();
                let mut i: usize = 0;
                while i < names.len()
                    invariant
                        i <= names@.len(),
                        not_valid_fields@.len() == i,
                        name_views == names@.map_values(|name: &'static str| name@),
                        forall|j: int|
                            0 <= j < i ==> (#[trigger] not_valid_fields@[j]).0@ == names@[j]@
                                && not_valid_fields@[j].1@ == validation_message(names@[j]@),
                    decreases names@.len() - i,
                {
                    let f = names[i];
                    not_valid_fields.push((f.to_owned(), get_validation_message(f)));
                    i = i + 1;
                }
                assert(field_names_of(not_valid_fields@) =~= name_views);
                ResponseBody {
                    resp_status: STATUS_BAD_REQUEST,
                    error: Some("validation_failed"),
                    data: Some(ResponseData::Fields(not_valid_fields)),
                    internal_code: None,
                }
            },
            RequestErrorKind::Unauthorized => {
                ResponseBody {
                    resp_status: STATUS_UNAUTHORIZED,
                    error: canonical_reason(STATUS_UNAUTHORIZED),
                    data: None,
                    internal_code: None,
                }
            },
            RequestErrorKind::InternalError(e) => {
                ResponseBody {
                    resp_status: STATUS_INTERNAL_SERVER_ERROR,
                    error: canonical_reason(STATUS_INTERNAL_SERVER_ERROR),
                    data: None,
                    internal_code: Some(e.code()),
                }
            },
        }
    }
}

impl RequestError {
    /// An error of kind `kind`.
    pub fn new(kind: RequestErrorKind) -> (err: RequestError)
        ensures
            err.kind == kind,
    {
        RequestError { kind }
    }

    /// The description of an error of kind `kind`.
    pub open spec fn spec_description(kind: RequestErrorKind) -> Seq<char> {
        match kind {
            RequestErrorKind::WrongData => "Parsing failed"@,
            RequestErrorKind::NotValid(_) => "Validation failed"@,
            RequestErrorKind::Unauthorized => "Unauthorized"@,
            RequestErrorKind::InternalError(_) => "Internal error"@,
        }
    }

    /// A one-line description of the error.
    pub fn description(&self) -> (text: &'static str)
        ensures
            text@ == Self::spec_description(self.kind),
    {
        match self.kind {
            RequestErrorKind::WrongData => "Parsing failed",
            RequestErrorKind::NotValid(_) => "Validation failed",
            RequestErrorKind::Unauthorized => "Unauthorized",
            RequestErrorKind::InternalError(_) => "Internal error",
        }
    }
}

/// Turns what reading a request body gave into the body the handler works on:
/// `parsed` is `Err` when the body could not be read or was not the expected
/// JSON, `Ok(None)` when there was no body, and `Ok(Some(body))` otherwise.
/// A body is accepted when it passes validation.
pub fn parse_body(parsed: Result<Option<PostUser>, ()>) -> (res: Result<PostUser, RequestError>)
    ensures
        match parsed {
            Ok(Some(body)) => if body.is_valid() {
                res == Ok::<PostUser, RequestError>(body)
            } else {
                &&& res matches Err(err)
                &&& err.kind matches RequestErrorKind::NotValid(errors)
                &&& field_error_codes(*errors) == post_user_error_codes(body.email@, body.password@)
                &&& nested_error_fields(*errors).is_empty()
            },
            _ => res matches Err(err) && err.kind is WrongData,
        },
{
    match parsed {
        Ok(Some(body)) => match body.validate() {
            Ok(_) => Ok(body),
            Err(err) => Err(RequestError::new(RequestErrorKind::NotValid(Box::new(err)))),
        },
        Ok(None) => Err(RequestError::new(RequestErrorKind::WrongData)),
        Err(_) => Err(RequestError::new(RequestErrorKind::WrongData)),
    }
}

/// Every error is answered with a failure status (client error for bad
/// requests, server error for internal failures) and an error text.
pub proof fn law_errors_answered_as_failures(body: ResponseBody, kind: RequestErrorKind)
    requires
        reports(body, kind),
    ensures
        400 <= body.resp_status < 600,
        body.error is Some,
        (body.resp_status >= 500) == (kind is InternalError),
{
}

/// A user body that breaks its rules is answered with 400 and one message for
/// each broken rule's field: "email" exactly when the e-mail is not an
/// address, "password" exactly when the password is shorter than
/// `MIN_PASSWORD_LENGTH` characters; each message is the field's validation
/// message.
pub proof fn law_rejected_user_answer(user: PostUser, errors: validator::ValidationErrors, body: ResponseBody)
    requires
        field_error_codes(errors) == post_user_error_codes(user.email@, user.password@),
        reports(body, RequestErrorKind::NotValid(Box::new(errors))),
    ensures
        body.resp_status == STATUS_BAD_REQUEST,
        body.data matches Some(ResponseData::Fields(fields)) && {
            &&& field_names_of(fields@).to_set().contains("email"@) == !is_email(user.email@)
            &&& field_names_of(fields@).to_set().contains("password"@) == (user.password@.len()
                < MIN_PASSWORD_LENGTH)
            &&& forall|name: Seq<char>|
                #[trigger] field_names_of(fields@).to_set().contains(name) ==> name == "email"@ || name
                    == "password"@
            &&& forall|i: int|
                0 <= i < fields@.len() ==> (#[trigger] fields@[i]).1@ == validation_message(
                    fields@[i].0@,
                )
        },
{
    reveal_strlit("email");
    reveal_strlit("password");
    assert("password"@.len() != "email"@.len());
}

} // verus!
