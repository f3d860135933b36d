//! The working parts: the check of a secret, the account store and the login.

pub mod auth_service;
pub mod credential;
pub mod user_repository;

pub use auth_service::AuthService;
pub use user_repository::UserRepository;
