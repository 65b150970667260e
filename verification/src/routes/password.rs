//! The password rotation path: re-validate the current password, then
//! rewrite the stored credential.

use vstd::prelude::*;

use crate::authentication::AuthError;
use crate::authentication::Credentials;
use crate::authentication::UserId;
use crate::authentication::credential_check_fault;
use crate::authentication::update_password;
use crate::authentication::valid_credentials_for;
use crate::authentication::validate_credentials;
use crate::error::ChainedError;
use crate::hashing::hash_output_for;
use crate::hashing::password_within_hash_bound;
use crate::secret::SecretString;
use crate::store::CredentialStore;
use crate::store::get_username;
use crate::text::str_eq;

verus! {

/// Representation of a user's password and new passwords with form data.
pub struct PasswordFormData {
    pub current_password: SecretString,
    pub new_password: SecretString,
    pub new_password_check: SecretString,
}

/// How a password change fails.
#[derive(Debug)]
pub enum PasswordChangeError {
    /// The two new passwords differ; the store was never touched.
    NewPasswordMismatch,
    /// The current password did not validate; nothing was rewritten. A
    /// precise notice is fine on this path, since the caller is already
    /// logged in and learns nothing new about other accounts.
    CurrentPasswordIncorrect,
    /// An infrastructure fault, propagated as a server fault.
    UnexpectedError(ChainedError),
}

impl PasswordChangeError {
    /// The user-visible notice for the failure.
    pub fn message(&self) -> (r: String)
        ensures
            self is NewPasswordMismatch ==> r@
                == "You entered two different new passwords, the field values must match."@,
            self is CurrentPasswordIncorrect ==> r@ == "The current password is incorrect."@,
            self matches PasswordChangeError::UnexpectedError(cause) ==> r@ == cause.message@,
    {
        match self {
            PasswordChangeError::NewPasswordMismatch => {
                "You entered two different new passwords, the field values must match.".to_owned()
            },
            PasswordChangeError::CurrentPasswordIncorrect => {
                "The current password is incorrect.".to_owned()
            },
            PasswordChangeError::UnexpectedError(cause) => cause.message.clone(),
        }
    }
}

/// Changes the password of an already-authenticated identity.
///
/// A new/confirm mismatch is rejected before any store access; a wrong
/// current password rejects without mutating the stored digest; with the
/// correct current password and a new password within the hashing length
/// bound, success is owed: the single record is rewritten with a digest of
/// the new password and every other record is left untouched.
pub fn change_password(store: &mut CredentialStore, user_id: UserId, form: PasswordFormData) -> (r:
    Result<(), PasswordChangeError>)
    requires
        old(store).wf(),
    ensures
        final(store).wf(),
        final(store).spec_decoy() == old(store).spec_decoy(),
        r is Err ==> *final(store) == *old(store),
        form.new_password@ != form.new_password_check@ ==> r matches Err(
            PasswordChangeError::NewPasswordMismatch,
        ),
        form.new_password@ == form.new_password_check@ && !old(store).contains_user_id(user_id)
            ==> (r matches Err(e) && e is UnexpectedError),
        form.new_password@ == form.new_password_check@ && old(store).contains_user_id(user_id)
            ==> {
            &&& !valid_credentials_for(
                *old(store),
                old(store).spec_username_of(user_id),
                form.current_password@,
            ) && !credential_check_fault(
                *old(store),
                old(store).spec_username_of(user_id),
                form.current_password@,
            ) ==> (r matches Err(PasswordChangeError::CurrentPasswordIncorrect))
            &&& credential_check_fault(
                *old(store),
                old(store).spec_username_of(user_id),
                form.current_password@,
            ) ==> (r matches Err(e) && e is UnexpectedError)
            &&& valid_credentials_for(
                *old(store),
                old(store).spec_username_of(user_id),
                form.current_password@,
            ) ==> (r is Ok || (r matches Err(e) && e is UnexpectedError))
            &&& valid_credentials_for(
                *old(store),
                old(store).spec_username_of(user_id),
                form.current_password@,
            ) && password_within_hash_bound(form.new_password@) ==> r is Ok
        },
        r is Ok ==> {
            &&& final(store).contains_user_id(user_id)
            &&& hash_output_for(form.new_password@, final(store).spec_hash_of(user_id))
            &&& final(store).spec_records().len() == old(store).spec_records().len()
            &&& forall|i: int|
                0 <= i < old(store).spec_records().len() ==> {
                    &&& #[trigger] final(store).spec_records()[i].user_id
                        == old(store).spec_records()[i].user_id
                    &&& final(store).spec_records()[i].username@
                        == old(store).spec_records()[i].username@
                    &&& old(store).spec_records()[i].user_id != user_id
                        ==> final(store).spec_records()[i].password_hash@
                        == old(store).spec_records()[i].password_hash@
                }
        },
{
    // Check that the two new passwords match — before any store access.
    if !str_eq(form.new_password.expose_secret(), form.new_password_check.expose_secret()) {
        return Err(PasswordChangeError::NewPasswordMismatch);
    }

    // Resolve the current username for the identity (read-only).
    let username = match get_username(store, user_id) {
        Ok(username) => username,
        Err(e) => {
            return Err(PasswordChangeError::UnexpectedError(e));
        },
    };

    proof {
        // The resolved username names a live record, so the decoy path of
        // the validator is out of reach here.
        old(store).lemma_lookup_by_username_of(user_id);
    }

    // Re-check the current password; here presence is confirmed, not
    // identity.
    let credentials = Credentials { username, password: form.current_password };
    match validate_credentials(store, credentials) {
        Ok(_) => {},
        Err(AuthError::InvalidCredentials(_)) => {
            return Err(PasswordChangeError::CurrentPasswordIncorrect);
        },
        Err(AuthError::UnexpectedError(cause)) => {
            return Err(PasswordChangeError::UnexpectedError(cause));
        },
    }

    // Hash the new password and rewrite the single record.
    match update_password(store, user_id, form.new_password) {
        Ok(()) => Ok(()),
        Err(e) => Err(PasswordChangeError::UnexpectedError(e)),
    }
}

/// After a successful change — which leaves the identity's record holding a
/// hasher-produced digest of the new password — the new password validates
/// for that identity's username.
pub proof fn lemma_new_password_validates(
    store: CredentialStore,
    user_id: UserId,
    new_password: Seq<char>,
)
    requires
        store.wf(),
        store.contains_user_id(user_id),
        hash_output_for(new_password, store.spec_hash_of(user_id)),
    ensures
        valid_credentials_for(store, store.spec_username_of(user_id), new_password),
        !credential_check_fault(store, store.spec_username_of(user_id), new_password),
{
    store.lemma_lookup_by_username_of(user_id);
}

} // verus!
