use tessera::domain::TicketDescription;

// Must return `Err` if the input is empty.
#[test]
fn ticket_description_returns_err_when_empty() {
    let name = "".to_string();
    assert!(TicketDescription::parse(name).is_err());
}

// Must return `Err` if the input is using only whitespace.
#[test]
fn ticket_description_returns_err_when_filled_with_whitespace() {
    let name = " ".to_string();
    assert!(TicketDescription::parse(name).is_err());
}

// Must return `Ok` if the input is valid.
#[test]
fn ticket_description_returns_ok_when_valid() {
    let name = "After doing ...".to_string();
    assert!(TicketDescription::parse(name).is_ok());
}

// Must return `Err` if the input is using only whitespace.
#[test]
fn whitespace_only_description_is_rejected() {
    let name = " ".to_string();
    assert!(TicketDescription::parse(name).is_err());
}

// Must return `Err` if the input is empty.
#[test]
fn ticket_description_empty_string_is_rejected() {
    let name = "".to_string();
    assert!(TicketDescription::parse(name).is_err());
}

// Must return `Ok` if the input is valid.
#[test]
fn a_valid_description_is_parsed_successfully() {
    let name = "After doing ...".to_string();
    assert!(TicketDescription::parse(name).is_ok());
}
