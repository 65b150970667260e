pub mod authentication;
pub mod configuration;
pub mod domain;
pub mod error;
pub mod hashing;
pub mod routes;
pub mod secret;
pub mod session_state;
pub mod store;
pub mod text;
