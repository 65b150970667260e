use tessera::authentication::reject_anonymous_users;
use tessera::authentication::AuthGateError;
use tessera::authentication::UserId;
use tessera::routes::login::login;
use tessera::routes::login::LoginError;
use tessera::routes::login::LoginFormData;
use tessera::routes::register::register;
use tessera::routes::register::RegisterFormData;
use tessera::routes::register::RegisterOutcome;
use tessera::secret::SecretString;
use tessera::session_state::SessionStore;
use tessera::session_state::TypedSession;
use tessera::store::insert_user;
use tessera::store::CredentialStore;
use tessera::domain::NewUser;
use tessera::domain::UserUsername;

fn register_user(store: &mut CredentialStore, username: &str, password: &str) -> UserId {
    let form = RegisterFormData {
        username: username.to_string(),
        password: SecretString::new(password.to_string()),
    };
    match register(store, form).unwrap() {
        RegisterOutcome::Registered(user_id) => user_id,
        RegisterOutcome::UsernameTaken => panic!("the username was unexpectedly taken"),
    }
}

fn login_form(username: &str, password: &str) -> LoginFormData {
    LoginFormData {
        username: username.to_string(),
        password: SecretString::new(password.to_string()),
    }
}

// Logging in twice for the same account yields two different session
// identifiers: the identifier is renewed on every login.
#[test]
fn logging_in_twice_yields_two_different_session_identifiers() {
    let mut store = CredentialStore::new().unwrap();
    register_user(&mut store, "alice", "Secret123");

    let mut sessions = SessionStore::new();
    let mut session = sessions.start_session();
    let anonymous_id = session.session_id();

    login(&store, &mut sessions, &mut session, login_form("alice", "Secret123")).unwrap();
    let first_login_id = session.session_id();
    assert_ne!(first_login_id, anonymous_id);

    login(&store, &mut sessions, &mut session, login_form("alice", "Secret123")).unwrap();
    let second_login_id = session.session_id();
    assert_ne!(second_login_id, first_login_id);
}

// Once a session is logged out, replaying its old cookie finds nothing:
// no stored identity, and anonymous handling at the middleware.
#[test]
fn logout_clears_session_state() {
    let mut store = CredentialStore::new().unwrap();
    register_user(&mut store, "alice", "Secret123");

    let mut sessions = SessionStore::new();
    let mut session = sessions.start_session();
    login(&store, &mut sessions, &mut session, login_form("alice", "Secret123")).unwrap();
    let cookie = session.session_id();

    session.log_out(&mut sessions);

    let derived = TypedSession::from_cookie(cookie);
    assert_eq!(derived.get_user_id(&sessions).unwrap(), None);
    assert!(matches!(
        reject_anonymous_users(&sessions, &derived),
        Err(AuthGateError::LoginRedirect)
    ));
}

// An authenticated session passes the middleware and carries its identity.
#[test]
fn gate_forwards_authenticated_identity() {
    let mut store = CredentialStore::new().unwrap();
    let alice_id = register_user(&mut store, "alice", "Secret123");

    let mut sessions = SessionStore::new();
    let mut session = sessions.start_session();
    login(&store, &mut sessions, &mut session, login_form("alice", "Secret123")).unwrap();

    let forwarded = reject_anonymous_users(&sessions, &session).unwrap();
    assert_eq!(forwarded, alice_id);
}

// An anonymous session is turned away toward the login page.
#[test]
fn gate_redirects_anonymous_session() {
    let mut sessions = SessionStore::new();
    let session = sessions.start_session();

    assert!(matches!(
        reject_anonymous_users(&sessions, &session),
        Err(AuthGateError::LoginRedirect)
    ));
}

// A failed login attaches no identity and keeps the session identifier.
#[test]
fn failed_login_does_not_authenticate_session() {
    let mut store = CredentialStore::new().unwrap();
    register_user(&mut store, "alice", "Secret123");

    let mut sessions = SessionStore::new();
    let mut session = sessions.start_session();
    let anonymous_id = session.session_id();

    let outcome = login(&store, &mut sessions, &mut session, login_form("alice", "wrong"));
    assert!(matches!(outcome, Err(LoginError::AuthError(_))));
    assert_eq!(session.session_id(), anonymous_id);
    assert_eq!(session.get_user_id(&sessions).unwrap(), None);
}

// Renewal rotates the identifier but keeps the stored identity.
#[test]
fn renew_preserves_session_state() {
    let mut sessions = SessionStore::new();
    let mut session = sessions.start_session();
    session.insert_user_id(&mut sessions, UserId(42)).unwrap();

    let before = session.session_id();
    session.renew(&mut sessions);
    assert_ne!(session.session_id(), before);
    assert_eq!(session.get_user_id(&sessions).unwrap(), Some(UserId(42)));

    let stale = TypedSession::from_cookie(before);
    assert_eq!(stale.get_user_id(&sessions).unwrap(), None);
}

// A checking fault on the stored digest surfaces as the unexpected login
// error, never as a failed authentication.
#[test]
fn login_with_malformed_stored_hash_is_unexpected() {
    let mut store = CredentialStore::new().unwrap();
    let broken = NewUser {
        user_id: UserId(8),
        username: UserUsername::parse("heidi".to_string()).unwrap(),
        password_hash: SecretString::new("not-a-phc-digest".to_string()),
    };
    insert_user(&mut store, &broken).unwrap();

    let mut sessions = SessionStore::new();
    let mut session = sessions.start_session();
    let outcome = login(&store, &mut sessions, &mut session, login_form("heidi", "whatever1"));
    assert!(matches!(outcome, Err(LoginError::UnexpectedError(_))));
}
