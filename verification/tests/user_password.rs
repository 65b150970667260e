use tessera::domain::UserPassword;

// Must return `Err` if the input is using only whitespace.
#[test]
fn user_password_returns_err_when_filled_with_whitespace() {
    let name = " ".to_string();
    assert!(UserPassword::parse(name).is_err());
}

// Must return `Err` if the input is empty.
#[test]
fn user_password_returns_err_when_empty() {
    let name = "".to_string();
    assert!(UserPassword::parse(name).is_err());
}

// Must return `Ok` if the input is not smaller than 8 characters.
#[test]
fn user_password_returns_ok_when_not_too_short() {
    let name = "a".repeat(8);
    assert!(UserPassword::parse(name).is_ok());
}

// Must return `Err` if the input is smaller than 8 characters.
#[test]
fn user_password_returns_err_when_too_short() {
    let name = "a".repeat(7);
    assert!(UserPassword::parse(name).is_err());
}

// Must return `Ok` if the input is not bigger than 256 characters.
#[test]
fn user_password_returns_ok_when_not_too_long() {
    let name = "a".repeat(256);
    assert!(UserPassword::parse(name).is_ok());
}

// Must return `Err` if the input is bigger than 256 characters.
#[test]
fn user_password_returns_err_when_too_long() {
    let name = "a".repeat(257);
    assert!(UserPassword::parse(name).is_err());
}

// Must return `Ok` if the input is valid.
#[test]
fn user_password_returns_ok_when_valid() {
    let name = "fake_password".to_string();
    assert!(UserPassword::parse(name).is_ok());
}
