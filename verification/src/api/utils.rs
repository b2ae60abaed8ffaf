use vstd::prelude::*;

verus! {

/// Whether two string slices hold the same characters.
pub fn str_eq(a: &str, b: &str) -> (res: bool)
    ensures
        res == (a@ == b@),
{
    let a_owned = a.to_owned();
    let b_owned = b.to_owned();
    a_owned == b_owned
}

/// The message shown for a field whose value failed validation.
pub open spec fn validation_message(field_name: Seq<char>) -> Seq<char> {
    if field_name == "email"@ {
        "must be email address"@
    } else if field_name == "password"@ {
        "must have at least 7 characters"@
    } else {
        "Validation failed"@
    }
}

/// Returns the message explaining why the field `field_name` was rejected.
pub fn get_validation_message(field_name: &str) -> (message: &'static str)
    ensures
        message@ == validation_message(field_name@),
{
    if str_eq(field_name, "email") {
        "must be email address"
    } else if str_eq(field_name, "password") {
        "must have at least 7 characters"
    } else {
        "Validation failed"
    }
}

} // verus!
