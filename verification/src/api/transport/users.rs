use crate::api::transport::validation::{
    add_field_error, field_error_codes, is_email, nested_error_fields, new_validation_errors,
    validate_email, validate_min_length, validation_errors_empty, FieldCodes,
};
use vstd::prelude::*;

verus! {

/// The body of a request that creates a user.
#[derive(Debug, Clone)]
pub struct PostUser {
    /// Must be an e-mail address.
    pub email: String,
    /// Must have at least `MIN_PASSWORD_LENGTH` characters.
    pub password: String,
}

/// The fewest characters a password may have.
pub const MIN_PASSWORD_LENGTH: u64 = 7;

/// The field-level errors that validating a user with this e-mail and
/// password records: code "email" under "email" when the e-mail is not an
/// address, code "length" under "password" when the password is too short.
pub open spec fn post_user_error_codes(email: Seq<char>, password: Seq<char>) -> FieldCodes {
    let with_email = if is_email(email) {
        FieldCodes::empty()
    } else {
        FieldCodes::empty().insert("email"@, seq!["email"@])
    };
    if password.len() >= MIN_PASSWORD_LENGTH {
        with_email
    } else {
        with_email.insert("password"@, seq!["length"@])
    }
}

impl PostUser {
    /// Whether both fields satisfy their rules.
    pub open spec fn is_valid(self) -> bool {
        is_email(self.email@) && self.password@.len() >= MIN_PASSWORD_LENGTH
    }

    /// Checks the fields: `Ok` when every rule holds, otherwise the errors of
    /// each field that broke its rule.
    pub fn validate(&self) -> (res: Result<(), validator::ValidationErrors>)
        ensures
            res is Ok <==> self.is_valid(),
            res is Ok <==> (is_email(self.email@) && self.password@.len() >= 7),
            res matches Err(errors) ==> {
                &&& field_error_codes(errors).contains_key("email"@) == !is_email(self.email@)
                &&& field_error_codes(errors).contains_key("password"@) == (self.password@.len() < 7)
                &&& forall|field: Seq<char>|
                    #[trigger] field_error_codes(errors).contains_key(field) ==> field == "email"@
                        || field == "password"@
                &&& !field_error_codes(errors).dom().is_empty()
            },
            res matches Err(errors) ==> {
                &&& field_error_codes(errors) == post_user_error_codes(self.email@, self.password@)
                &&& nested_error_fields(errors).is_empty()
            },
    {
        proof {
            reveal_strlit("email");
            reveal_strlit("password");
            assert("password"@.len() != "email"@.len());
        }
        let ghost email_codes = if is_email(self.email@) {
            FieldCodes::empty()
        } else {
            FieldCodes::empty().insert("email"@, seq!["email"@])
        };
        let mut errors = new_validation_errors();
        let email_valid = validate_email(self.email.as_str());
        if !email_valid {
            add_field_error(&mut errors, "email", "email");
            assert(Seq::<Seq<char>>::empty().push("email"@) =~= seq!["email"@]);
        }
        assert(field_error_codes(errors) =~= email_codes);
        let password_valid = validate_min_length(self.password.as_str(), MIN_PASSWORD_LENGTH);
        if !password_valid {
            add_field_error(&mut errors, "password", "length");
            assert(!email_codes.contains_key("password"@));
            assert(Seq::<Seq<char>>::empty().push("length"@) =~= seq!["length"@]);
        }
        assert(field_error_codes(errors) =~= post_user_error_codes(self.email@, self.password@));
        if validation_errors_empty(&errors) {
            assert(!post_user_error_codes(self.email@, self.password@).contains_key("email"@));
            assert(!post_user_error_codes(self.email@, self.password@).contains_key("password"@));
            Ok(())
        } else {
            Err(errors)
        }
    }
}

} // verus!
