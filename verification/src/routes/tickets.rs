//! Validation for the ticket endpoints; the ticket table itself is another
//! subsystem's, consumed as-is.

use vstd::prelude::*;

use crate::domain::NewTicket;
use crate::domain::TicketDescription;
use crate::domain::TicketTitle;
use crate::domain::valid_description;
use crate::domain::valid_title;
use crate::error::ChainedError;

verus! {

/// Representation of a new ticket created with form data.
pub struct NewTicketFormData {
    pub title: String,
    pub description: String,
    pub priority: String,
}

/// Representation of a new ticket error.
#[derive(Debug)]
pub enum TicketError {
    ValidationError(String),
    UnexpectedError(ChainedError),
}

impl TicketError {
    /// The user-visible message of the error.
    pub fn message(&self) -> (r: String)
        ensures
            self matches TicketError::ValidationError(m) ==> r@ == "Validation error: "@ + m@,
            self matches TicketError::UnexpectedError(cause) ==> r@ == cause.message@,
    {
        match self {
            TicketError::ValidationError(m) => {
                let mut s = String::from_str("Validation error: ");
                s.append(m.as_str());
                s
            },
            TicketError::UnexpectedError(cause) => cause.message.clone(),
        }
    }

    /// The status code the error answers with: a client fault for a
    /// validation error, a server fault otherwise.
    pub fn status_code(&self) -> (r: u16)
        ensures
            self is ValidationError ==> r == 400,
            self is UnexpectedError ==> r == 500,
    {
        match self {
            TicketError::ValidationError(_) => 400,
            TicketError::UnexpectedError(_) => 500,
        }
    }
}

impl NewTicket {
    /// Builds a new ticket from the form, validating title and description.
    pub fn try_from(form: NewTicketFormData) -> (r: Result<NewTicket, String>)
        ensures
            (r is Ok) == (valid_title(form.title@) && valid_description(form.description@)),
            r matches Ok(ticket) ==> ticket.title@ == form.title@ && ticket.description@
                == form.description@ && ticket.priority@ == form.priority@,
            !valid_title(form.title@) ==> (r matches Err(m) && m@ == "`"@ + form.title@
                + "` is not a valid title."@),
            valid_title(form.title@) && !valid_description(form.description@) ==> (r matches Err(m)
                && m@ == "ticket description cannot be empty."@),
    {
        let title = match TicketTitle::parse(form.title) {
            Ok(title) => title,
            Err(m) => {
                return Err(m);
            },
        };
        let description = match TicketDescription::parse(form.description) {
            Ok(description) => description,
            Err(m) => {
                return Err(m);
            },
        };

        Ok(NewTicket { title, description, priority: form.priority })
    }
}

} // verus!
