pub mod login;
pub mod password;
pub mod register;
pub mod tickets;
