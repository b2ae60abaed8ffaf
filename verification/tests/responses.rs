use web_api::api::deserializer::users::PostUser as NamedUser;
use web_api::api::deserializer::{ParseError, ParseErrorKind};
use web_api::api::transport::users::PostUser;
use web_api::api::transport::{
    parse_body, RequestError, RequestErrorKind, RequestInternalErrorKind, ResponseBody,
    ResponseData, STATUS_BAD_REQUEST, STATUS_INTERNAL_SERVER_ERROR, STATUS_OK,
    STATUS_UNAUTHORIZED,
};
use web_api::api::utils::get_validation_message;

fn user(email: &str, password: &str) -> PostUser {
    PostUser { email: email.to_string(), password: password.to_string() }
}

fn sorted_fields(body: &ResponseBody) -> Vec<(String, &'static str)> {
    match &body.data {
        Some(ResponseData::Fields(fields)) => {
            let mut fields = fields.clone();
            fields.sort();
            fields
        }
        _ => panic!("expected field messages"),
    }
}

#[test]
fn validation_messages() {
    assert_eq!(get_validation_message("email"), "must be email address");
    assert_eq!(get_validation_message("password"), "must have at least 7 characters");
    assert_eq!(get_validation_message("name"), "Validation failed");
    assert_eq!(get_validation_message(""), "Validation failed");
    assert_eq!(get_validation_message("Email"), "Validation failed");
}

#[test]
fn wrong_data_response() {
    let body = ResponseBody::with_error(RequestError::new(RequestErrorKind::WrongData));
    assert_eq!(body.resp_status, STATUS_BAD_REQUEST);
    assert_eq!(body.error, Some("wrong_data"));
    assert!(body.data.is_none());
    assert_eq!(body.internal_code, None);
}

#[test]
fn unauthorized_response() {
    let body = ResponseBody::with_error(RequestError::new(RequestErrorKind::Unauthorized));
    assert_eq!(body.resp_status, STATUS_UNAUTHORIZED);
    assert_eq!(body.error, Some("Unauthorized"));
    assert!(body.data.is_none());
    assert_eq!(body.internal_code, None);
}

#[test]
fn internal_error_response() {
    let body = ResponseBody::with_error(RequestError::new(RequestErrorKind::InternalError(
        RequestInternalErrorKind::SessionsStore,
    )));
    assert_eq!(body.resp_status, STATUS_INTERNAL_SERVER_ERROR);
    assert_eq!(body.error, Some("Internal Server Error"));
    assert!(body.data.is_none());
    assert_eq!(body.internal_code, Some(0));
}

#[test]
fn not_valid_response_lists_each_bad_field() {
    let errors = user("nobody", "short").validate().unwrap_err();
    let body = ResponseBody::with_error(RequestError::new(RequestErrorKind::NotValid(Box::new(errors))));
    assert_eq!(body.resp_status, STATUS_BAD_REQUEST);
    assert_eq!(body.error, Some("validation_failed"));
    assert_eq!(body.internal_code, None);
    assert_eq!(
        sorted_fields(&body),
        vec![
            ("email".to_string(), "must be email address"),
            ("password".to_string(), "must have at least 7 characters"),
        ]
    );
}

#[test]
fn not_valid_response_for_one_field() {
    let errors = user("someone@example.com", "short").validate().unwrap_err();
    let body = ResponseBody::with_error(RequestError::new(RequestErrorKind::NotValid(Box::new(errors))));
    assert_eq!(
        sorted_fields(&body),
        vec![("password".to_string(), "must have at least 7 characters")]
    );
}

#[test]
fn with_data_response() {
    let body = ResponseBody::with_data(STATUS_OK, serde_json::Value::Bool(true));
    assert_eq!(body.resp_status, STATUS_OK);
    assert_eq!(body.error, None);
    assert_eq!(body.internal_code, None);
    match body.data {
        Some(ResponseData::Value(v)) => assert_eq!(v, serde_json::Value::Bool(true)),
        _ => panic!("expected the payload"),
    }
}

#[test]
fn validate_accepts_good_user() {
    assert!(user("someone@example.com", "1234567").validate().is_ok());
    assert!(user("someone@example.com", "long enough password").validate().is_ok());
}

#[test]
fn validate_counts_characters() {
    // seven characters, more than seven bytes
    assert!(user("someone@example.com", "ééééééé").validate().is_ok());
    assert!(user("someone@example.com", "ééééé").validate().is_err());
}

#[test]
fn validate_rejects_bad_email() {
    let errors = user("not an address", "1234567").validate().unwrap_err();
    let fields = errors.field_errors();
    assert_eq!(fields.len(), 1);
    assert_eq!(fields["email"][0].code, "email");
}

#[test]
fn validate_rejects_short_password() {
    let errors = user("someone@example.com", "123456").validate().unwrap_err();
    let fields = errors.field_errors();
    assert_eq!(fields.len(), 1);
    assert_eq!(fields["password"][0].code, "length");
}

#[test]
fn parse_body_accepts_valid_body() {
    let res = parse_body(Ok(Some(user("someone@example.com", "1234567"))));
    let body = res.unwrap();
    assert_eq!(body.email, "someone@example.com");
    assert_eq!(body.password, "1234567");
}

#[test]
fn parse_body_rejects_missing_or_broken_body() {
    assert!(matches!(parse_body(Ok(None)).unwrap_err().kind, RequestErrorKind::WrongData));
    assert!(matches!(parse_body(Err(())).unwrap_err().kind, RequestErrorKind::WrongData));
}

#[test]
fn parse_body_rejects_invalid_body() {
    match parse_body(Ok(Some(user("x", "1")))).unwrap_err().kind {
        RequestErrorKind::NotValid(errors) => assert_eq!(errors.field_errors().len(), 2),
        _ => panic!("expected a validation error"),
    }
}

#[test]
fn request_error_descriptions() {
    assert_eq!(RequestError::new(RequestErrorKind::WrongData).description(), "Parsing failed");
    let errors = user("x", "1").validate().unwrap_err();
    assert_eq!(
        RequestError::new(RequestErrorKind::NotValid(Box::new(errors))).description(),
        "Validation failed"
    );
    assert_eq!(RequestError::new(RequestErrorKind::Unauthorized).description(), "Unauthorized");
    assert_eq!(
        RequestError::new(RequestErrorKind::InternalError(RequestInternalErrorKind::SessionsStore))
            .description(),
        "Internal error"
    );
}

#[test]
fn parse_error_descriptions() {
    assert_eq!(ParseError::new(ParseErrorKind::WrongData).description(), "failed to parse data");
    assert_eq!(
        ParseError::new(ParseErrorKind::NotValid("name is empty".to_string())).description(),
        "name is empty"
    );
}

#[test]
fn parse_and_validate_outcomes() {
    let named = NamedUser { name: "ann".to_string(), password: "pw".to_string() };
    let body = NamedUser::parse_and_validate(Ok(Some(named))).unwrap();
    assert_eq!(body.name, "ann");
    assert!(matches!(NamedUser::parse_and_validate(Ok(None)).unwrap_err().kind, ParseErrorKind::WrongData));
    assert!(matches!(NamedUser::parse_and_validate(Err(())).unwrap_err().kind, ParseErrorKind::WrongData));
}
