use tessera::error::error_chain_fmt;
use tessera::error::ChainedError;
use tessera::routes::login::LoginError;
use tessera::routes::register::RegisterError;
use tessera::routes::tickets::NewTicketFormData;
use tessera::routes::tickets::TicketError;
use tessera::domain::NewTicket;

// The full-chain formatting prints the message, a blank line, then every
// cause on its own `Caused by:` line.
#[test]
fn error_chain_fmt_formats_the_whole_chain() {
    let root = ChainedError::new("connection refused".to_string());
    let middle = ChainedError::with_source("query failed".to_string(), root);
    let top = ChainedError::with_source("Something went wrong.".to_string(), middle);

    let formatted = error_chain_fmt(&top);
    assert_eq!(
        formatted,
        "Something went wrong.\n\nCaused by:\n\tquery failed\nCaused by:\n\tconnection refused\n"
    );
}

// A single error formats with no cause lines.
#[test]
fn error_chain_fmt_without_causes() {
    let top = ChainedError::new("Something went wrong.".to_string());
    assert_eq!(error_chain_fmt(&top), "Something went wrong.\n\n");
}

// Login failures always answer with a redirect and a generic notice.
#[test]
fn login_error_is_a_generic_redirect() {
    let e = LoginError::AuthError(ChainedError::new("Invalid credentials.".to_string()));
    assert_eq!(e.status_code(), 303);
    assert_eq!(e.message(), "Authentication failed.");

    let e = LoginError::UnexpectedError(ChainedError::new("pool timed out".to_string()));
    assert_eq!(e.status_code(), 303);
    assert_eq!(e.message(), "Something went wrong.");
}

// Registration failures split into client fault and server fault.
#[test]
fn register_error_status_codes() {
    let validation = RegisterError::ValidationError("username cannot be empty.".to_string());
    assert_eq!(validation.status_code(), 400);

    let unexpected = RegisterError::UnexpectedError(ChainedError::new("down".to_string()));
    assert_eq!(unexpected.status_code(), 500);
}

// Ticket failures split the same way.
#[test]
fn ticket_error_status_codes() {
    let validation = TicketError::ValidationError("x".to_string());
    assert_eq!(validation.status_code(), 400);
    assert_eq!(validation.message(), "Validation error: x");

    let unexpected = TicketError::UnexpectedError(ChainedError::new("down".to_string()));
    assert_eq!(unexpected.status_code(), 500);
}

// A well-formed ticket form converts, field for field.
#[test]
fn new_ticket_try_from_accepts_valid_form() {
    let form = NewTicketFormData {
        title: "Issue with ...".to_string(),
        description: "After doing ...".to_string(),
        priority: "high".to_string(),
    };
    let ticket = NewTicket::try_from(form).unwrap();
    assert_eq!(ticket.title.as_ref(), "Issue with ...");
    assert_eq!(ticket.description.as_ref(), "After doing ...");
    assert_eq!(ticket.priority, "high");
}

// A blank title is refused with its exact message.
#[test]
fn new_ticket_try_from_rejects_blank_title() {
    let form = NewTicketFormData {
        title: " ".to_string(),
        description: "After doing ...".to_string(),
        priority: "low".to_string(),
    };
    let m = NewTicket::try_from(form).unwrap_err();
    assert_eq!(m, "` ` is not a valid title.");
}

// A blank description is refused with its exact message.
#[test]
fn new_ticket_try_from_rejects_blank_description() {
    let form = NewTicketFormData {
        title: "Issue with ...".to_string(),
        description: "".to_string(),
        priority: "low".to_string(),
    };
    let m = NewTicket::try_from(form).unwrap_err();
    assert_eq!(m, "ticket description cannot be empty.");
}
