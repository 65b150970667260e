//! Validated domain values: ticket fields and user fields.
//!
//! Each `parse` accepts exactly the inputs its contract states and hands back
//! a value whose view is the accepted string.

use vstd::prelude::*;

use crate::authentication::UserId;
use crate::secret::SecretString;
use crate::text::empty_or_whitespace;
use crate::text::grapheme_count;
use crate::text::grapheme_count_of;
use crate::text::is_empty_or_whitespace;

verus! {

/// A valid ticket title: not blank, at most 256 graphemes.
pub open spec fn valid_title(s: Seq<char>) -> bool {
    !empty_or_whitespace(s) && grapheme_count_of(s) <= 256
}

/// A valid ticket description: not blank.
pub open spec fn valid_description(s: Seq<char>) -> bool {
    !empty_or_whitespace(s)
}

/// A valid username: not blank, at most 256 graphemes.
pub open spec fn valid_username(s: Seq<char>) -> bool {
    !empty_or_whitespace(s) && grapheme_count_of(s) <= 256
}

/// A valid password: not blank, between 8 and 256 graphemes.
pub open spec fn valid_password(s: Seq<char>) -> bool {
    !empty_or_whitespace(s) && 8 <= grapheme_count_of(s) <= 256
}

/// Representation of a ticket's title.
#[derive(Debug)]
pub struct TicketTitle(String);

impl View for TicketTitle {
    type V = Seq<char>;

    closed spec fn view(&self) -> Seq<char> {
        self.0@
    }
}

impl TicketTitle {
    /// Returns a valid title: not blank, at most 256 graphemes.
    pub fn parse(s: String) -> (r: Result<TicketTitle, String>)
        ensures
            (r is Ok) == valid_title(s@),
            r matches Ok(title) ==> title@ == s@,
            r matches Err(m) ==> m@ == "`"@ + s@ + "` is not a valid title."@,
    {
        let is_blank = is_empty_or_whitespace(s.as_str());
        let is_too_long = grapheme_count(s.as_str()) > 256;

        if is_blank || is_too_long {
            let mut m = String::from_str("`");
            m.append(s.as_str());
            m.append("` is not a valid title.");
            Err(m)
        } else {
            Ok(TicketTitle(s))
        }
    }

    /// Extracts the title as a string slice.
    pub fn as_ref(&self) -> (r: &str)
        ensures
            r@ == self@,
    {
        self.0.as_str()
    }
}

/// Representation of a ticket's description.
#[derive(Debug)]
pub struct TicketDescription(String);

impl View for TicketDescription {
    type V = Seq<char>;

    closed spec fn view(&self) -> Seq<char> {
        self.0@
    }
}

impl TicketDescription {
    /// Returns a valid ticket description: not blank.
    pub fn parse(s: String) -> (r: Result<TicketDescription, String>)
        ensures
            (r is Ok) == valid_description(s@),
            r matches Ok(description) ==> description@ == s@,
            r matches Err(m) ==> m@ == "ticket description cannot be empty."@,
    {
        if is_empty_or_whitespace(s.as_str()) {
            Err("ticket description cannot be empty.".to_owned())
        } else {
            Ok(TicketDescription(s))
        }
    }

    /// Extracts the description as a string slice.
    pub fn as_ref(&self) -> (r: &str)
        ensures
            r@ == self@,
    {
        self.0.as_str()
    }
}

/// Representation of a new ticket.
#[derive(Debug)]
pub struct NewTicket {
    pub title: TicketTitle,
    pub description: TicketDescription,
    pub priority: String,
}

/// Representation of a stored ticket, as the ticket table keeps it; the
/// creation instant is a Unix timestamp in seconds.
#[derive(Debug, PartialEq)]
pub struct ValidTicket {
    pub id: i32,
    pub title: String,
    pub description: String,
    pub created_at: i64,
    pub created_by: String,
    pub is_open: bool,
}

/// Representation of a user's username.
#[derive(Debug)]
pub struct UserUsername(String);

impl View for UserUsername {
    type V = Seq<char>;

    closed spec fn view(&self) -> Seq<char> {
        self.0@
    }
}

impl UserUsername {
    /// Returns a valid username: not blank, at most 256 graphemes.
    pub fn parse(s: String) -> (r: Result<UserUsername, String>)
        ensures
            (r is Ok) == valid_username(s@),
            r matches Ok(username) ==> username@ == s@,
            empty_or_whitespace(s@) ==> (r matches Err(m) && m@ == "username cannot be empty."@),
            !empty_or_whitespace(s@) && grapheme_count_of(s@) > 256 ==> (r matches Err(m) && m@
                == "username cannot be longer than 256 characters."@),
    {
        if is_empty_or_whitespace(s.as_str()) {
            Err("username cannot be empty.".to_owned())
        } else if grapheme_count(s.as_str()) > 256 {
            Err("username cannot be longer than 256 characters.".to_owned())
        } else {
            Ok(UserUsername(s))
        }
    }

    /// Extracts the username as a string slice.
    pub fn as_ref(&self) -> (r: &str)
        ensures
            r@ == self@,
    {
        self.0.as_str()
    }
}

/// Representation of a user's password. The raw value is secret material.
pub struct UserPassword(SecretString);

impl View for UserPassword {
    type V = Seq<char>;

    closed spec fn view(&self) -> Seq<char> {
        self.0@
    }
}

impl UserPassword {
    /// Returns a valid password: not blank, between 8 and 256 graphemes.
    pub fn parse(s: String) -> (r: Result<UserPassword, String>)
        ensures
            (r is Ok) == valid_password(s@),
            r matches Ok(password) ==> password@ == s@,
            empty_or_whitespace(s@) ==> (r matches Err(m) && m@ == "password cannot be empty."@),
            !empty_or_whitespace(s@) && grapheme_count_of(s@) < 8 ==> (r matches Err(m) && m@
                == "password must be at least 8 characters long."@),
            !empty_or_whitespace(s@) && grapheme_count_of(s@) > 256 ==> (r matches Err(m) && m@
                == "password cannot be longer than 256 characters."@),
    {
        if is_empty_or_whitespace(s.as_str()) {
            Err("password cannot be empty.".to_owned())
        } else if grapheme_count(s.as_str()) < 8 {
            Err("password must be at least 8 characters long.".to_owned())
        } else if grapheme_count(s.as_str()) > 256 {
            Err("password cannot be longer than 256 characters.".to_owned())
        } else {
            Ok(UserPassword(SecretString::new(s)))
        }
    }

    /// Extracts the password as a string slice; the result is secret
    /// material.
    pub fn as_ref(&self) -> (r: &str)
        ensures
            r@ == self@,
    {
        self.0.expose_secret()
    }
}

/// Representation of a new user.
pub struct NewUser {
    pub user_id: UserId,
    pub username: UserUsername,
    pub password_hash: SecretString,
}

} // verus!
