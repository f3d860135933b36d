//! Account lookup and credential-based login for a small account service.
//!
//! The crate holds the rules of the service: how a login request is checked,
//! how an account is found and projected, and which reply each outcome gets.
//! Transport and storage stay with the caller.

pub mod config;
pub mod handlers;
pub mod models;
pub mod services;
pub mod utils;
