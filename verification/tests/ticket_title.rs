use tessera::domain::TicketTitle;

// Must return `Err` if the input is using only whitespace.
#[test]
fn whitespace_only_title_is_rejected() {
    let name = " ".to_string();
    assert!(TicketTitle::parse(name).is_err());
}

// Must return `Err` if the input is empty.
#[test]
fn ticket_title_empty_string_is_rejected() {
    let name = "".to_string();
    assert!(TicketTitle::parse(name).is_err());
}

// Must return `Ok` if the input is not bigger than 256 characters.
#[test]
fn a_256_grapheme_long_title_is_valid() {
    let name = "a".repeat(256);
    assert!(TicketTitle::parse(name).is_ok());
}

// Must return `Err` if the input is bigger than 256 characters.
#[test]
fn a_title_longer_than_256_graphemes_is_rejected() {
    let name = "a".repeat(257);
    assert!(TicketTitle::parse(name).is_err());
}

// Must return `Ok` if the input is valid.
#[test]
fn a_valid_title_is_parsed_successfully() {
    let name = "Issue with ...".to_string();
    assert!(TicketTitle::parse(name).is_ok());
}

// 256 combining-accent clusters are 512 chars but 256 graphemes: the length
// rule counts grapheme clusters, not chars or bytes.
#[test]
fn a_title_of_256_combining_graphemes_is_valid() {
    let name = "e\u{301}".repeat(256);
    assert_eq!(name.chars().count(), 512);
    assert!(TicketTitle::parse(name).is_ok());
}

#[test]
fn a_title_of_257_combining_graphemes_is_rejected() {
    let name = "e\u{301}".repeat(257);
    assert!(TicketTitle::parse(name).is_err());
}
