//! The registration path: validate the form fields, hash the password,
//! insert the record.

use vstd::prelude::*;

use crate::authentication::UserId;
use crate::authentication::compute_password_hash;
use crate::domain::NewUser;
use crate::domain::UserPassword;
use crate::domain::UserUsername;
use crate::domain::valid_password;
use crate::domain::valid_username;
use crate::error::ChainedError;
use crate::hashing::hash_output_for;
use crate::hashing::password_within_hash_bound;
use crate::secret::SecretString;
use crate::store::CredentialStore;
use crate::store::insert_user;
use crate::text::empty_or_whitespace;
use crate::text::grapheme_count_of;

verus! {

/// Representation of a user's credentials with form data.
pub struct RegisterFormData {
    pub username: String,
    pub password: SecretString,
}

/// Representation of a registration error.
#[derive(Debug)]
pub enum RegisterError {
    ValidationError(String),
    UnexpectedError(ChainedError),
}

impl RegisterError {
    /// The user-visible message of the error.
    pub fn message(&self) -> (r: String)
        ensures
            self matches RegisterError::ValidationError(m) ==> r@ == "Validation error: "@ + m@,
            self matches RegisterError::UnexpectedError(cause) ==> r@ == cause.message@,
    {
        match self {
            RegisterError::ValidationError(m) => {
                let mut s = String::from_str("Validation error: ");
                s.append(m.as_str());
                s
            },
            RegisterError::UnexpectedError(cause) => cause.message.clone(),
        }
    }

    /// The status code the error answers with: a client fault for a
    /// validation error, a server fault otherwise.
    pub fn status_code(&self) -> (r: u16)
        ensures
            self is ValidationError ==> r == 400,
            self is UnexpectedError ==> r == 500,
    {
        match self {
            RegisterError::ValidationError(_) => 400,
            RegisterError::UnexpectedError(_) => 500,
        }
    }
}

/// Relies on uuid's `Uuid::new_v4`: a freshly drawn random identifier, of
/// which nothing is promised.
#[verifier::external_body]
fn generate_user_id() -> UserId {
    UserId(uuid::Uuid::new_v4().as_u128())
}

impl NewUser {
    /// Builds a new user from the registration form: the fields are
    /// validated, a fresh identifier is drawn and the password is hashed.
    pub fn try_from(form: RegisterFormData) -> (r: Result<NewUser, String>)
        ensures
            r matches Ok(new_user) ==> new_user.username@ == form.username@ && hash_output_for(
                form.password@,
                new_user.password_hash@,
            ),
            !valid_username(form.username@) ==> r is Err,
            valid_username(form.username@) && !valid_password(form.password@) ==> r is Err,
            valid_username(form.username@) && valid_password(form.password@)
                && password_within_hash_bound(form.password@) ==> r is Ok,
            empty_or_whitespace(form.username@) ==> (r matches Err(m) && m@
                == "username cannot be empty."@),
            !empty_or_whitespace(form.username@) && grapheme_count_of(form.username@) > 256 ==> (
            r matches Err(m) && m@ == "username cannot be longer than 256 characters."@),
            valid_username(form.username@) && empty_or_whitespace(form.password@) ==> (
            r matches Err(m) && m@ == "password cannot be empty."@),
            valid_username(form.username@) && !empty_or_whitespace(form.password@)
                && grapheme_count_of(form.password@) < 8 ==> (r matches Err(m) && m@
                == "password must be at least 8 characters long."@),
            valid_username(form.username@) && !empty_or_whitespace(form.password@)
                && grapheme_count_of(form.password@) > 256 ==> (r matches Err(m) && m@
                == "password cannot be longer than 256 characters."@),
    {
        let user_id = generate_user_id();
        let username = match UserUsername::parse(form.username) {
            Ok(username) => username,
            Err(m) => {
                return Err(m);
            },
        };
        let password = match UserPassword::parse(form.password.expose_secret().to_owned()) {
            Ok(password) => password,
            Err(m) => {
                return Err(m);
            },
        };
        let password_hash = match compute_password_hash(
            SecretString::new(password.as_ref().to_owned()),
        ) {
            Ok(password_hash) => password_hash,
            Err(_) => {
                return Err("Failed to hash password".to_owned());
            },
        };

        Ok(NewUser { user_id, username, password_hash })
    }
}

/// How a registration attempt that reached the store ends.
#[derive(Debug)]
pub enum RegisterOutcome {
    /// The record was inserted; the new identity is returned.
    Registered(UserId),
    /// The store refused the record: the username is probably already
    /// taken.
    UsernameTaken,
}

/// Registers a new user.
///
/// Invalid form fields are rejected before the store is touched; on valid
/// fields within the hashing length bound an outcome is owed; a uniqueness
/// conflict is surfaced as an outcome, not an error, so the caller can
/// answer with a notice.
pub fn register(store: &mut CredentialStore, form: RegisterFormData) -> (r: Result<
    RegisterOutcome,
    RegisterError,
>)
    requires
        old(store).wf(),
    ensures
        final(store).wf(),
        final(store).spec_decoy() == old(store).spec_decoy(),
        r is Err ==> *final(store) == *old(store),
        (r matches Err(e) && e is ValidationError) == !(valid_username(form.username@)
            && valid_password(form.password@)),
        empty_or_whitespace(form.username@) ==> (r matches Err(RegisterError::ValidationError(m))
            && m@ == "username cannot be empty."@),
        !empty_or_whitespace(form.username@) && grapheme_count_of(form.username@) > 256 ==> (
        r matches Err(RegisterError::ValidationError(m)) && m@
            == "username cannot be longer than 256 characters."@),
        valid_username(form.username@) && empty_or_whitespace(form.password@) ==> (r matches Err(
            RegisterError::ValidationError(m),
        ) && m@ == "password cannot be empty."@),
        valid_username(form.username@) && !empty_or_whitespace(form.password@)
            && grapheme_count_of(form.password@) < 8 ==> (r matches Err(
            RegisterError::ValidationError(m),
        ) && m@ == "password must be at least 8 characters long."@),
        valid_username(form.username@) && !empty_or_whitespace(form.password@)
            && grapheme_count_of(form.password@) > 256 ==> (r matches Err(
            RegisterError::ValidationError(m),
        ) && m@ == "password cannot be longer than 256 characters."@),
        valid_username(form.username@) && valid_password(form.password@)
            && password_within_hash_bound(form.password@) ==> r is Ok,
        valid_username(form.username@) && valid_password(form.password@)
            && password_within_hash_bound(form.password@) && old(store).contains_username(
            form.username@,
        ) ==> (r matches Ok(RegisterOutcome::UsernameTaken)),
        r matches Ok(outcome) ==> (outcome is UsernameTaken ==> *final(store) == *old(store)),
        r matches Ok(RegisterOutcome::UsernameTaken) ==> old(store).spec_records().len() > 0,
        r matches Ok(RegisterOutcome::Registered(user_id)) ==> {
            &&& !old(store).contains_username(form.username@)
            &&& final(store).spec_records().len() == old(store).spec_records().len() + 1
            &&& final(store).spec_records().drop_last() == old(store).spec_records()
            &&& final(store).spec_records().last().user_id == user_id
            &&& final(store).spec_records().last().username@ == form.username@
            &&& hash_output_for(
                form.password@,
                final(store).spec_records().last().password_hash@,
            )
        },
{
    let username = match UserUsername::parse(form.username) {
        Ok(username) => username,
        Err(m) => {
            return Err(RegisterError::ValidationError(m));
        },
    };
    let password = match UserPassword::parse(form.password.expose_secret().to_owned()) {
        Ok(password) => password,
        Err(m) => {
            return Err(RegisterError::ValidationError(m));
        },
    };
    let password_hash = match compute_password_hash(
        SecretString::new(password.as_ref().to_owned()),
    ) {
        Ok(password_hash) => password_hash,
        Err(e) => {
            return Err(RegisterError::UnexpectedError(e));
        },
    };
    let new_user = NewUser { user_id: generate_user_id(), username, password_hash };

    match insert_user(store, &new_user) {
        Ok(()) => Ok(RegisterOutcome::Registered(new_user.user_id)),
        Err(_) => Ok(RegisterOutcome::UsernameTaken),
    }
}

} // verus!
