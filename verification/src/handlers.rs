//! What each request is answered with.
//!
//! Every handler comes in two parts. The part that ends in `_reply` takes
//! what a store or the login service returned and decides the reply. The
//! part with the plain name asks the store in memory and hands its answer
//! to the first.

pub mod auth_handler;
pub mod general_handler;
pub mod user_handler;

pub use auth_handler::{login, login_reply, profile, profile_reply};
pub use general_handler::{health_check, hello};
pub use user_handler::{get_user_by_id, get_users, user_reply, users_reply};
