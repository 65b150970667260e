use tessera::domain::UserUsername;

// Must return `Err` if the input is using only whitespace.
#[test]
fn user_username_returns_err_when_filled_with_whitespace() {
    let name = " ".to_string();
    assert!(UserUsername::parse(name).is_err());
}

// Must return `Err` if the input is empty.
#[test]
fn user_username_returns_err_when_empty() {
    let name = "".to_string();
    assert!(UserUsername::parse(name).is_err());
}

// Must return `Ok` if the input is not bigger than 256 characters.
#[test]
fn user_username_returns_ok_when_not_too_long() {
    let name = "a".repeat(256);
    assert!(UserUsername::parse(name).is_ok());
}

// Must return `Err` if the input is bigger than 256 characters.
#[test]
fn user_username_returns_err_when_too_long() {
    let name = "a".repeat(257);
    assert!(UserUsername::parse(name).is_err());
}

// Must return `Ok` if the input is valid.
#[test]
fn user_username_returns_ok_when_valid() {
    let name = "username".to_string();
    assert!(UserUsername::parse(name).is_ok());
}

// Unicode whitespace beyond ASCII (an em space) still counts as blank.
#[test]
fn user_username_returns_err_when_unicode_whitespace() {
    let name = "\u{2003}\u{2003}".to_string();
    assert!(UserUsername::parse(name).is_err());
}
