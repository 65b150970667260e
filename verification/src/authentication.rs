//! Credential validation, password hashing and the authentication gate.

use vstd::prelude::*;

use crate::error::ChainedError;
use crate::session_state::SessionStore;
use crate::session_state::TypedSession;
use crate::store::CredentialStore;
use crate::hashing::ARGON2_M_COST;
use crate::hashing::ARGON2_P_COST;
use crate::hashing::ARGON2_T_COST;
use crate::hashing::HashCheckOutcome;
use crate::hashing::argon2_check;
use crate::hashing::argon2_verify_code;
use crate::hashing::argon2_hash;
use crate::hashing::hash_output_for;
use crate::hashing::lemma_fixed_params_prefix;
use crate::hashing::password_within_hash_bound;
use crate::hashing::phc_mismatch;
use crate::hashing::phc_unusable;
use crate::hashing::phc_verifies;
use crate::secret::SecretString;

verus! {

/// Representation of an authentication error.
///
/// A client fault (bad username or bad password, never told apart) is
/// `InvalidCredentials`; an infrastructure fault (unreachable store,
/// malformed stored digest) is `UnexpectedError`. Callers must distinguish
/// the two, so the validator never collapses one into the other.
#[derive(Debug)]
pub enum AuthError {
    InvalidCredentials(ChainedError),
    UnexpectedError(ChainedError),
}

impl AuthError {
    /// The user-visible message of the error: generic for a client fault,
    /// never disclosing which field failed.
    pub fn message(&self) -> (r: String)
        ensures
            self is InvalidCredentials ==> r@ == "Invalid credentials."@,
            self matches AuthError::UnexpectedError(cause) ==> r@ == cause.message@,
    {
        match self {
            AuthError::InvalidCredentials(_) => "Invalid credentials.".to_owned(),
            AuthError::UnexpectedError(cause) => cause.message.clone(),
        }
    }
}

/// Whether a result failed with `AuthError::InvalidCredentials`.
pub open spec fn is_invalid_credentials_err<T>(r: Result<T, AuthError>) -> bool {
    r matches Err(e) && e is InvalidCredentials
}

/// Whether a result failed with `AuthError::UnexpectedError`.
pub open spec fn is_unexpected_err<T>(r: Result<T, AuthError>) -> bool {
    r matches Err(e) && e is UnexpectedError
}

/// Representation of an user credentials.
pub struct Credentials {
    pub username: String,
    pub password: SecretString,
}

/// Representation of a user id.
#[derive(Clone, Copy, Debug, PartialEq, Eq, Structural)]
pub struct UserId(pub u128);

/// Computes a PHC-format password digest with Argon2id under the fixed cost
/// parameters and a fresh random salt.
///
/// A returned digest always re-verifies the hashed password and encodes the
/// fixed algorithm, version and costs; success is owed whenever the
/// password stays within the machine bound on its length.
pub fn compute_password_hash(password: SecretString) -> (r: Result<SecretString, ChainedError>)
    ensures
        r matches Ok(phc) ==> hash_output_for(password@, phc@),
        r matches Ok(phc) ==> (phc@.len() > 31 && phc@.subrange(0, 31)
            == "$argon2id$v=19$m=15000,t=2,p=1$"@),
        password_within_hash_bound(password@) ==> r is Ok,
        r matches Err(e) ==> e.message@ == "Failed to hash password"@,
{
    proof {
        lemma_fixed_params_prefix();
    }
    match argon2_hash(password.expose_secret(), ARGON2_M_COST, ARGON2_T_COST, ARGON2_P_COST) {
        Option::Some(phc) => Ok(SecretString::new(phc)),
        Option::None => Err(ChainedError::new("Failed to hash password".to_owned())),
    }
}

/// Verifies a candidate password against an expected PHC-format digest.
///
/// Success comes exactly when the candidate reproduces the digest; a
/// mismatch is a client fault, a digest that cannot be checked at all is an
/// infrastructure fault.
pub fn verify_password_hash(
    password_candidate: &SecretString,
    expected_password_hash: &SecretString,
) -> (r: Result<(), AuthError>)
    ensures
        (r is Ok) == phc_verifies(password_candidate@, expected_password_hash@),
        is_invalid_credentials_err(r) == phc_mismatch(password_candidate@, expected_password_hash@),
        is_unexpected_err(r) == phc_unusable(password_candidate@, expected_password_hash@),
{
    match argon2_check(password_candidate.expose_secret(), expected_password_hash.expose_secret()) {
        HashCheckOutcome::Verified => Ok(()),
        HashCheckOutcome::Mismatch => Err(
            AuthError::InvalidCredentials(ChainedError::new("Invalid password".to_owned())),
        ),
        HashCheckOutcome::Malformed => Err(
            AuthError::UnexpectedError(
                ChainedError::new("Failed to parse hash in PHC string format".to_owned()),
            ),
        ),
    }
}

/// The credentials name a stored record whose digest the password
/// reproduces.
pub open spec fn valid_credentials_for(
    store: CredentialStore,
    username: Seq<char>,
    password: Seq<char>,
) -> bool {
    store.spec_lookup(username) matches Some(found) && phc_verifies(password, found.1)
}

/// The credentials name a stored record whose digest cannot be checked at
/// all: an infrastructure fault, never collapsed into a client fault.
pub open spec fn credential_check_fault(
    store: CredentialStore,
    username: Seq<char>,
    password: Seq<char>,
) -> bool {
    store.spec_lookup(username) matches Some(found) && phc_unusable(password, found.1)
}

/// The username is unknown and checking the candidate against the decoy
/// digest itself fails: with a well-formed store this takes a candidate
/// beyond the hashing length bound, which the algorithm refuses whatever
/// the digest.
pub open spec fn decoy_check_fault(
    store: CredentialStore,
    username: Seq<char>,
    password: Seq<char>,
) -> bool {
    store.spec_lookup(username) is None && phc_unusable(password, store.spec_decoy())
}

/// Validates credentials against the store.
///
/// An unknown username is not short-circuited: the validator substitutes the
/// store's fixed, precomputed valid-format decoy digest and pays the same
/// verification cost before deciding, so the unknown-user determination is
/// made strictly after verification. Unknown username and wrong password
/// both end in `InvalidCredentials`; only a checking fault — a stored
/// digest that cannot be processed, or a candidate so long the algorithm
/// refuses to check it at all — is `UnexpectedError`.
pub fn validate_credentials(store: &CredentialStore, credentials: Credentials) -> (r: Result<
    UserId,
    AuthError,
>)
    requires
        store.wf(),
    ensures
        (r is Ok) == valid_credentials_for(*store, credentials.username@, credentials.password@),
        r matches Ok(user_id) ==> (store.spec_lookup(credentials.username@) matches Some(found)
            && user_id == found.0),
        is_unexpected_err(r) == (credential_check_fault(
            *store,
            credentials.username@,
            credentials.password@,
        ) || decoy_check_fault(*store, credentials.username@, credentials.password@)),
        is_invalid_credentials_err(r) == (!valid_credentials_for(
            *store,
            credentials.username@,
            credentials.password@,
        ) && !credential_check_fault(*store, credentials.username@, credentials.password@)
            && !decoy_check_fault(*store, credentials.username@, credentials.password@)),
        password_within_hash_bound(credentials.password@) ==> !decoy_check_fault(
            *store,
            credentials.username@,
            credentials.password@,
        ),
{
    let mut user_id: Option<UserId> = None;
    let mut expected_password_hash = store.decoy();

    match store.lookup(credentials.username.as_str()) {
        Option::Some((stored_user_id, stored_password_hash)) => {
            user_id = Some(stored_user_id);
            expected_password_hash = stored_password_hash;
        },
        Option::None => {},
    }

    match verify_password_hash(&credentials.password, &expected_password_hash) {
        Ok(()) => {},
        Err(e) => {
            return Err(e);
        },
    }

    match user_id {
        Option::Some(found_user_id) => Ok(found_user_id),
        Option::None => Err(
            AuthError::InvalidCredentials(ChainedError::new("Unknown username".to_owned())),
        ),
    }
}

/// Updates the password stored for an already-authenticated identity: the
/// new password is hashed, then the single record is rewritten; success is
/// owed for any password within the machine bound on its length. A failure
/// between hashing and writing leaves the old digest intact.
pub fn update_password(store: &mut CredentialStore, user_id: UserId, password: SecretString) -> (r:
    Result<(), ChainedError>)
    requires
        old(store).wf(),
        old(store).contains_user_id(user_id),
    ensures
        final(store).wf(),
        final(store).spec_decoy() == old(store).spec_decoy(),
        password_within_hash_bound(password@) ==> r is Ok,
        r is Err ==> *final(store) == *old(store),
        r is Ok ==> {
            &&& final(store).contains_user_id(user_id)
            &&& hash_output_for(password@, final(store).spec_hash_of(user_id))
            &&& final(store).spec_records().len() == old(store).spec_records().len()
            &&& forall|i: int|
                0 <= i < old(store).spec_records().len() ==> {
                    &&& #[trigger] final(store).spec_records()[i].user_id
                        == old(store).spec_records()[i].user_id
                    &&& final(store).spec_records()[i].username@
                        == old(store).spec_records()[i].username@
                    &&& old(store).spec_records()[i].user_id != user_id
                        ==> final(store).spec_records()[i].password_hash@
                        == old(store).spec_records()[i].password_hash@
                }
        },
{
    let password_hash = match compute_password_hash(password) {
        Ok(password_hash) => password_hash,
        Err(e) => {
            return Err(e);
        },
    };
    store.update_password_hash(user_id, password_hash);
    Ok(())
}

/// For any registered record whose digest the password hasher produced,
/// validation with the matching password is owed the stored identity: it is
/// neither a client fault nor an infrastructure fault.
pub proof fn lemma_validate_registered_ok(
    store: CredentialStore,
    username: Seq<char>,
    password: Seq<char>,
)
    requires
        store.wf(),
        store.spec_lookup(username) matches Some(found) && hash_output_for(password, found.1),
    ensures
        valid_credentials_for(store, username, password),
        !credential_check_fault(store, username, password),
{
}

/// An unknown username ends in `InvalidCredentials`: there is no record to
/// validate and no fault to report, for any password within the hashing
/// length bound (one the algorithm could check at all).
pub proof fn lemma_validate_unknown_username(
    store: CredentialStore,
    username: Seq<char>,
    password: Seq<char>,
)
    requires
        store.wf(),
        !store.contains_username(username),
        password_within_hash_bound(password),
    ensures
        !valid_credentials_for(store, username, password),
        !credential_check_fault(store, username, password),
        !decoy_check_fault(store, username, password),
{
}

/// A wrong password against a hasher-produced digest also ends in
/// `InvalidCredentials` — the same answer as an unknown username, so the
/// two are indistinguishable to the caller.
pub proof fn lemma_validate_wrong_password(
    store: CredentialStore,
    username: Seq<char>,
    actual_password: Seq<char>,
    candidate: Seq<char>,
)
    requires
        store.wf(),
        store.spec_lookup(username) matches Some(found) && hash_output_for(
            actual_password,
            found.1,
        ),
        store.spec_lookup(username) matches Some(found) && argon2_verify_code(candidate, found.1)
            != 0,
        password_within_hash_bound(candidate),
    ensures
        !valid_credentials_for(store, username, candidate),
        !credential_check_fault(store, username, candidate),
        !decoy_check_fault(store, username, candidate),
{
}

/// How the authentication gate refuses a request.
#[derive(Debug)]
pub enum AuthGateError {
    /// No identity is attached to the session: short-circuit with a redirect
    /// to the login entry point, carried as an error so generic error layers
    /// cannot override it.
    LoginRedirect,
    /// The session state could not be read at all: a server fault, never
    /// silently treated as anonymous.
    ServerFault(ChainedError),
}

/// The per-request gate: forwards the request with its authenticated
/// identity attached, or refuses it with a redirect to the login page.
pub fn reject_anonymous_users(sessions: &SessionStore, session: &TypedSession) -> (r: Result<
    UserId,
    AuthGateError,
>)
    requires
        sessions.wf(),
    ensures
        sessions.spec_user_of(session.spec_id()) matches Some(user_id) ==> r == Result::<
            UserId,
            AuthGateError,
        >::Ok(user_id),
        sessions.spec_user_of(session.spec_id()) is None ==> (r matches Err(e)
            && e is LoginRedirect),
{
    match session.get_user_id(sessions) {
        Ok(Some(user_id)) => Ok(user_id),
        Ok(None) => Err(AuthGateError::LoginRedirect),
        Err(_) => Err(
            AuthGateError::ServerFault(
                ChainedError::new("Failed to read the session state".to_owned()),
            ),
        ),
    }
}

} // verus!
