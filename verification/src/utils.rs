//! What every part of the service uses: the kinds of failure, and texts as
//! mathematical values.

pub mod error;
pub mod text;

pub use error::{AppError, AppResult};
