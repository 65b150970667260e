//! The login path: validate the credentials, then renew the session
//! identifier, then attach the identity.

use vstd::prelude::*;

use crate::authentication::AuthError;
use crate::authentication::Credentials;
use crate::authentication::credential_check_fault;
use crate::authentication::decoy_check_fault;
use crate::authentication::valid_credentials_for;
use crate::authentication::validate_credentials;
use crate::error::ChainedError;
use crate::session_state::SessionStore;
use crate::session_state::TypedSession;
use crate::session_state::sessions_agree_on;
use crate::store::CredentialStore;

verus! {

/// Representation of a user credentials with form data.
pub struct LoginFormData {
    pub username: String,
    pub password: crate::secret::SecretString,
}

/// Representation of a login error.
#[derive(Debug)]
pub enum LoginError {
    AuthError(ChainedError),
    UnexpectedError(ChainedError),
}

impl LoginError {
    /// The user-visible message of the error: generic for an authentication
    /// failure, never disclosing which field was wrong.
    pub fn message(&self) -> (r: String)
        ensures
            self is AuthError ==> r@ == "Authentication failed."@,
            self is UnexpectedError ==> r@ == "Something went wrong."@,
    {
        match self {
            LoginError::AuthError(_) => "Authentication failed.".to_owned(),
            LoginError::UnexpectedError(_) => "Something went wrong.".to_owned(),
        }
    }

    /// The status code a login failure answers with: a redirect, so the
    /// notice is carried to the login page.
    pub fn status_code(&self) -> (r: u16)
        ensures
            r == 303,
    {
        303
    }
}

/// Whether a login result failed as an authentication failure.
pub open spec fn is_login_auth_err(r: Result<(), LoginError>) -> bool {
    r matches Err(e) && e is AuthError
}

/// Whether a login result failed as an infrastructure fault.
pub open spec fn is_login_unexpected_err(r: Result<(), LoginError>) -> bool {
    r matches Err(e) && e is UnexpectedError
}

/// Logs the user in.
///
/// On success the session identifier is renewed first — so an identifier
/// seen before authentication is dead afterwards — and only then is the
/// identity attached to the (fresh) session. On any failure the session
/// state is left untouched.
pub fn login(
    store: &CredentialStore,
    sessions: &mut SessionStore,
    session: &mut TypedSession,
    form: LoginFormData,
) -> (r: Result<(), LoginError>)
    requires
        store.wf(),
        old(sessions).wf(),
        old(sessions).spec_next_id() < u64::MAX - 1,
    ensures
        final(sessions).wf(),
        (r is Ok) == valid_credentials_for(*store, form.username@, form.password@),
        is_login_unexpected_err(r) == (credential_check_fault(*store, form.username@, form.password@)
            || decoy_check_fault(*store, form.username@, form.password@)),
        is_login_auth_err(r) == (!valid_credentials_for(*store, form.username@, form.password@)
            && !credential_check_fault(*store, form.username@, form.password@)
            && !decoy_check_fault(*store, form.username@, form.password@)),
        r is Ok ==> {
            &&& final(session).spec_id() != old(session).spec_id()
            &&& !old(sessions).contains_session(final(session).spec_id())
            &&& !final(sessions).contains_session(old(session).spec_id())
            &&& (store.spec_lookup(form.username@) matches Some(found) && final(
                sessions
            ).spec_user_of(final(session).spec_id()) == Some(found.0))
            &&& forall|id: u64|
                id != old(session).spec_id() && id != final(session).spec_id()
                    ==> #[trigger] sessions_agree_on(*old(sessions), *final(sessions), id)
        },
        r is Err ==> *final(sessions) == *old(sessions) && *final(session) == *old(session),
        old(sessions).spec_next_id() <= final(sessions).spec_next_id() <= old(
            sessions
        ).spec_next_id() + 2,
{
    let credentials = Credentials { username: form.username, password: form.password };

    match validate_credentials(store, credentials) {
        Ok(user_id) => {
            let ghost pre_sessions = *sessions;
            let ghost pre_id = session.spec_id();

            // Avoid session fixation attacks: rotate the identifier before
            // the session is elevated.
            session.renew(sessions);
            let ghost mid_sessions = *sessions;

            match session.insert_user_id(sessions, user_id) {
                Ok(()) => {
                    proof {
                        assert(sessions_agree_on(mid_sessions, *sessions, pre_id));
                        assert forall|id: u64|
                            id != pre_id && id != session.spec_id()
                                implies #[trigger] sessions_agree_on(
                            pre_sessions,
                            *sessions,
                            id,
                        ) by {
                            assert(sessions_agree_on(pre_sessions, mid_sessions, id));
                            assert(sessions_agree_on(mid_sessions, *sessions, id));
                        }
                    }
                    Ok(())
                },
                Err(_) => Err(
                    LoginError::UnexpectedError(
                        ChainedError::new("Failed to store the identity in the session".to_owned()),
                    ),
                ),
            }
        },
        Err(e) => {
            match e {
                AuthError::InvalidCredentials(cause) => Err(LoginError::AuthError(cause)),
                AuthError::UnexpectedError(cause) => Err(LoginError::UnexpectedError(cause)),
            }
        },
    }
}

} // verus!
