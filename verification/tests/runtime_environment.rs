use tessera::authentication::verify_password_hash;
use tessera::configuration::RuntimeEnvironment;
use tessera::domain::NewUser;
use tessera::routes::register::RegisterFormData;
use tessera::secret::SecretString;

// The conversion is case-insensitive: uppercase input still names the
// development environment.
#[test]
fn development_parses_case_insensitively() {
    let env = RuntimeEnvironment::try_from("DEVELOPMENT".to_string()).unwrap();
    assert!(matches!(env, RuntimeEnvironment::Development));
}

#[test]
fn production_parses() {
    let env = RuntimeEnvironment::try_from("production".to_string()).unwrap();
    assert!(matches!(env, RuntimeEnvironment::Production));
}

// An unsupported name is refused, lowercased, with the exact message.
#[test]
fn unsupported_environment_is_rejected() {
    let m = RuntimeEnvironment::try_from("Staging".to_string()).unwrap_err();
    assert_eq!(
        m,
        "`staging` is not a supported environment. Use either `development` or `production`."
    );
}

#[test]
fn as_str_names_the_environment() {
    assert_eq!(RuntimeEnvironment::Development.as_str(), "development");
    assert_eq!(RuntimeEnvironment::Production.as_str(), "production");
}

// The form-to-new-user conversion hashes the password: what is stored is
// PHC digest material that re-verifies the submitted password, never the
// password itself.
#[test]
fn new_user_try_from_hashes_the_password() {
    let form = RegisterFormData {
        username: "erin".to_string(),
        password: SecretString::new("Secret123".to_string()),
    };
    let new_user = NewUser::try_from(form).unwrap();
    assert_eq!(new_user.username.as_ref(), "erin");
    assert_ne!(new_user.password_hash.expose_secret(), "Secret123");
    assert!(new_user.password_hash.expose_secret().starts_with("$argon2id$v=19$m=15000,t=2,p=1$"));

    let check = verify_password_hash(
        &SecretString::new("Secret123".to_string()),
        &new_user.password_hash,
    );
    assert!(check.is_ok());
}
