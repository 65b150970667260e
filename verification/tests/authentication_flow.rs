use tessera::authentication::validate_credentials;
use tessera::authentication::compute_password_hash;
use tessera::authentication::verify_password_hash;
use tessera::authentication::AuthError;
use tessera::authentication::Credentials;
use tessera::authentication::UserId;
use tessera::domain::NewUser;
use tessera::domain::UserUsername;
use tessera::routes::register::register;
use tessera::routes::register::RegisterError;
use tessera::routes::register::RegisterFormData;
use tessera::routes::register::RegisterOutcome;
use tessera::secret::SecretString;
use tessera::store::get_username;
use tessera::store::insert_user;
use tessera::store::CredentialInsertError;
use tessera::store::CredentialStore;

fn register_user(store: &mut CredentialStore, username: &str, password: &str) -> UserId {
    let form = RegisterFormData {
        username: username.to_string(),
        password: SecretString::new(password.to_string()),
    };
    match register(store, form).unwrap() {
        RegisterOutcome::Registered(user_id) => user_id,
        RegisterOutcome::UsernameTaken => panic!("the username was unexpectedly taken"),
    }
}

fn credentials(username: &str, password: &str) -> Credentials {
    Credentials {
        username: username.to_string(),
        password: SecretString::new(password.to_string()),
    }
}

// Correct credentials return the identity that registration handed out.
#[test]
fn registered_user_validates_with_correct_credentials() {
    let mut store = CredentialStore::new().unwrap();
    let alice_id = register_user(&mut store, "alice", "Secret123");

    let validated = validate_credentials(&store, credentials("alice", "Secret123")).unwrap();
    assert_eq!(validated, alice_id);
}

// A wrong password is a client fault with the generic variant.
#[test]
fn wrong_password_is_rejected_as_invalid_credentials() {
    let mut store = CredentialStore::new().unwrap();
    register_user(&mut store, "alice", "Secret123");

    let outcome = validate_credentials(&store, credentials("alice", "wrong"));
    assert!(matches!(outcome, Err(AuthError::InvalidCredentials(_))));
}

// An unknown username gets the same generic variant as a wrong password;
// bob was never registered.
#[test]
fn unknown_username_is_rejected_as_invalid_credentials() {
    let mut store = CredentialStore::new().unwrap();
    register_user(&mut store, "alice", "Secret123");

    let outcome = validate_credentials(&store, credentials("bob", "anything"));
    assert!(matches!(outcome, Err(AuthError::InvalidCredentials(_))));
}

// A freshly derived digest verifies the password it was derived from.
#[test]
fn hash_then_verify_succeeds() {
    let digest = compute_password_hash(SecretString::new("hunter42pass".to_string())).unwrap();
    let outcome = verify_password_hash(&SecretString::new("hunter42pass".to_string()), &digest);
    assert!(outcome.is_ok());
}

// A digest of another password does not verify.
#[test]
fn verify_against_other_hash_fails() {
    let digest = compute_password_hash(SecretString::new("hunter42pass".to_string())).unwrap();
    let outcome = verify_password_hash(&SecretString::new("other-password".to_string()), &digest);
    assert!(matches!(outcome, Err(AuthError::InvalidCredentials(_))));
}

// A stored digest that is not PHC-format is an infrastructure fault, never
// collapsed into `InvalidCredentials`.
#[test]
fn malformed_stored_hash_is_an_unexpected_error() {
    let mut store = CredentialStore::new().unwrap();
    let new_user = NewUser {
        user_id: UserId(7),
        username: UserUsername::parse("carol".to_string()).unwrap(),
        password_hash: SecretString::new("not-a-phc-digest".to_string()),
    };
    insert_user(&mut store, &new_user).unwrap();

    let outcome = validate_credentials(&store, credentials("carol", "whatever1"));
    assert!(matches!(outcome, Err(AuthError::UnexpectedError(_))));
}

// The store's uniqueness constraint surfaces as the taken outcome, and the
// first registration keeps validating.
#[test]
fn duplicate_username_registration_is_refused() {
    let mut store = CredentialStore::new().unwrap();
    let alice_id = register_user(&mut store, "alice", "Secret123");

    let form = RegisterFormData {
        username: "alice".to_string(),
        password: SecretString::new("AnotherPass1".to_string()),
    };
    let outcome = register(&mut store, form).unwrap();
    assert!(matches!(outcome, RegisterOutcome::UsernameTaken));

    let validated = validate_credentials(&store, credentials("alice", "Secret123")).unwrap();
    assert_eq!(validated, alice_id);
}

// Malformed form input is rejected as a 400-class validation error before
// the store is touched.
#[test]
fn invalid_registration_input_is_a_validation_error() {
    let mut store = CredentialStore::new().unwrap();
    let form = RegisterFormData {
        username: "".to_string(),
        password: SecretString::new("Secret123".to_string()),
    };
    let outcome = register(&mut store, form);
    match outcome {
        Err(e) => {
            assert_eq!(e.status_code(), 400);
            assert_eq!(e.message(), "Validation error: username cannot be empty.");
        }
        Ok(_) => panic!("an empty username must not register"),
    }
}

// A short password is refused with its specific validation message.
#[test]
fn short_password_registration_is_a_validation_error() {
    let mut store = CredentialStore::new().unwrap();
    let form = RegisterFormData {
        username: "dave".to_string(),
        password: SecretString::new("short".to_string()),
    };
    match register(&mut store, form) {
        Err(RegisterError::ValidationError(m)) => {
            assert_eq!(m, "password must be at least 8 characters long.");
        }
        _ => panic!("a short password must not register"),
    }
}

// The client-fault message never says which field failed.
#[test]
fn auth_error_message_is_generic() {
    let mut store = CredentialStore::new().unwrap();
    register_user(&mut store, "alice", "Secret123");

    let outcome = validate_credentials(&store, credentials("alice", "wrong"));
    let message = outcome.unwrap_err().message();
    assert_eq!(message, "Invalid credentials.");
}

// User ids are unique too: reusing one is refused even under a fresh
// username, and the store keeps its first record.
#[test]
fn duplicate_user_id_insert_is_refused() {
    let mut store = CredentialStore::new().unwrap();
    let first = NewUser {
        user_id: UserId(1),
        username: UserUsername::parse("frank".to_string()).unwrap(),
        password_hash: SecretString::new("unused-digest".to_string()),
    };
    insert_user(&mut store, &first).unwrap();

    let second = NewUser {
        user_id: UserId(1),
        username: UserUsername::parse("grace".to_string()).unwrap(),
        password_hash: SecretString::new("unused-digest".to_string()),
    };
    assert!(matches!(
        insert_user(&mut store, &second),
        Err(CredentialInsertError::UniquenessViolation)
    ));
    assert_eq!(get_username(&store, UserId(1)).unwrap(), "frank");
}

// Asking for the username of an identity the store does not hold is an
// error with its exact message.
#[test]
fn get_username_fails_for_unknown_identity() {
    let store = CredentialStore::new().unwrap();
    let e = get_username(&store, UserId(99)).unwrap_err();
    assert_eq!(e.message, "Failed to retrieve the username");
}
