use validator::ValidationError;
use validator::ValidationErrors;
use vstd::prelude::*;

verus! {

/// The error collection of the `validator` crate: a map from a field name to
/// the errors found for that field (or to the errors of a nested struct).
#[verifier::external_type_specification]
#[verifier::external_body]
pub struct ExValidationErrors(ValidationErrors);

/// `Clone` of `validator::ValidationErrors` (derived there); nothing is
/// claimed of the copy.
pub assume_specification[ <ValidationErrors as Clone>::clone ](errors: &ValidationErrors) -> ValidationErrors;

/// Field names, each with the codes of the errors recorded for it.
pub type FieldCodes = Map<Seq<char>, Seq<Seq<char>>>;

/// What a `ValidationErrors` holds at field level: each field name with the
/// codes of the errors recorded for it, in the order they were added.
pub uninterp spec fn field_error_codes(errors: ValidationErrors) -> FieldCodes;

/// The field names under which a `ValidationErrors` holds nested (struct or
/// list) errors rather than field-level ones.
pub uninterp spec fn nested_error_fields(errors: ValidationErrors) -> Set<Seq<char>>;

/// The codes recorded so far for `field` (none when the field has no entry).
pub open spec fn codes_of(errors: ValidationErrors, field: Seq<char>) -> Seq<Seq<char>> {
    if field_error_codes(errors).contains_key(field) {
        field_error_codes(errors)[field]
    } else {
        Seq::empty()
    }
}

/// Whether the validator considers `value` an e-mail address
/// (`validator::validate_email`).
pub uninterp spec fn is_email(value: Seq<char>) -> bool;

/// `validator::ValidationErrors::new`: an empty error collection.
#[verifier::external_body]
pub fn new_validation_errors() -> (errors: ValidationErrors)
    ensures
        field_error_codes(errors) == FieldCodes::empty(),
        nested_error_fields(errors) == Set::<Seq<char>>::empty(),
{
    ValidationErrors::new()
}

/// `validator::ValidationErrors::add`, given `validator::ValidationError::new(code)`:
/// appends an error with code `code` to the field-level errors of `field`.
/// The crate panics when `field` already holds nested errors, hence the
/// precondition.
#[verifier::external_body]
pub fn add_field_error(errors: &mut ValidationErrors, field: &'static str, code: &'static str)
    requires
        !nested_error_fields(*old(errors)).contains(field@),
    ensures
        field_error_codes(*final(errors)) == field_error_codes(*old(errors)).insert(
            field@,
            codes_of(*old(errors), field@).push(code@),
        ),
        nested_error_fields(*final(errors)) == nested_error_fields(*old(errors)),
{
    errors.add(field, ValidationError::new(code))
}

/// `validator::ValidationErrors::is_empty`: true when no field has an entry.
#[verifier::external_body]
pub fn validation_errors_empty(errors: &ValidationErrors) -> (empty: bool)
    ensures
        empty == (field_error_codes(*errors).dom().is_empty() && nested_error_fields(
            *errors,
        ).is_empty()),
{
    errors.is_empty()
}

/// `validator::ValidationErrors::field_errors`, keeping the field names: every
/// field that holds field-level errors, once each, in the order the hash map
/// is walked (which is left open).
#[verifier::external_body]
pub fn field_error_names(errors: ValidationErrors) -> (names: Vec<&'static str>)
    ensures
        names@.map_values(|name: &'static str| name@).to_set() == field_error_codes(errors).dom(),
        names@.map_values(|name: &'static str| name@).no_duplicates(),
{
    errors.field_errors().into_iter().map(|(name, _)| name).collect()
}

/// `validator::validate_email`. The crate rejects any value without an `@`
/// outright; what it accepts beyond that is left to the name `is_email`.
#[verifier::external_body]
pub fn validate_email(value: &str) -> (valid: bool)
    ensures
        valid == is_email(value@),
        !value@.contains('@') ==> !valid,
{
    validator::validate_email(value)
}

/// `validator::validate_length` with only a lower bound: the value is valid
/// when it has at least `min` characters.
#[verifier::external_body]
pub fn validate_min_length(value: &str, min: u64) -> (valid: bool)
    ensures
        valid == (value@.len() >= min),
{
    validator::validate_length(validator::Validator::Length { min: Some(min), max: None, equal: None }, value)
}

} // verus!
