//! The data that the service reads and the shapes that it answers with.

pub mod decimal;
pub mod dto;
pub mod entities;
pub mod reply;

pub use decimal::Decimal;
pub use dto::{ApiResponse, LoginRequest, LoginResponse, UserResponse};
pub use entities::{Account, Timestamp};
pub use reply::{ErrorBody, HttpReply, ReplyBody};
