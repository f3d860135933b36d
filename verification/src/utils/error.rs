//! The kinds of failure, and the reply that each one is rendered as.

use crate::models::reply::{
    ErrorBody, ErrorBodyModel, HttpReply, HttpReplyModel, ReplyBody, ReplyBodyModel,
    STATUS_BAD_REQUEST, STATUS_INTERNAL_SERVER_ERROR, STATUS_NOT_FOUND, STATUS_UNAUTHORIZED,
};
use vstd::prelude::*;

verus! {

/// What a client is told when the store failed. The cause stays with the
/// service.
pub const DATABASE_FAILURE: &'static str = "เกิดข้อผิดพลาดในระบบฐานข้อมูล";

/// What a client is told when the service failed in any other way.
pub const INTERNAL_FAILURE: &'static str = "เกิดข้อผิดพลาดในระบบ";

/// The tag of a failed authentication.
pub const AUTHENTICATION_ERROR: &'static str = "authentication_error";

/// The tag of a malformed request.
pub const VALIDATION_ERROR: &'static str = "validation_error";

/// The tag of a lookup that found nothing.
pub const NOT_FOUND: &'static str = "not_found";

/// The tag of a failure of the store.
pub const DATABASE_ERROR: &'static str = "database_error";

/// The tag of every other failure.
pub const INTERNAL_ERROR: &'static str = "internal_error";

/// The kinds of failure. `DatabaseError` and `InternalError` carry the cause
/// for the service's own records; the other texts are meant for the client.
#[derive(Debug, PartialEq, Eq)]
pub enum AppError {
    /// The store could not be reached or could not answer.
    DatabaseError(String),
    /// The credentials belong to an account, but the secret is not its own.
    AuthenticationError(String),
    /// The request is malformed.
    ValidationError(String),
    /// No account matches.
    NotFound(String),
    /// The service failed.
    InternalError(String),
    /// A stored secret hash is not a hash.
    HashError,
}

/// What the service returns where it may fail.
pub type AppResult<T> = Result<T, AppError>;

/// What an [`AppError`] holds, as mathematical values.
pub enum AppErrorModel {
    DatabaseError(Seq<char>),
    AuthenticationError(Seq<char>),
    ValidationError(Seq<char>),
    NotFound(Seq<char>),
    InternalError(Seq<char>),
    HashError,
}

impl AppErrorModel {
    /// The status code that tells the client of the failure.
    pub open spec fn status(self) -> u16 {
        match self {
            AppErrorModel::AuthenticationError(_) => STATUS_UNAUTHORIZED,
            AppErrorModel::ValidationError(_) => STATUS_BAD_REQUEST,
            AppErrorModel::NotFound(_) => STATUS_NOT_FOUND,
            AppErrorModel::DatabaseError(_) => STATUS_INTERNAL_SERVER_ERROR,
            AppErrorModel::InternalError(_) => STATUS_INTERNAL_SERVER_ERROR,
            AppErrorModel::HashError => STATUS_INTERNAL_SERVER_ERROR,
        }
    }

    /// The message that the client reads: the failure's own text where the
    /// client caused it, a fixed text that gives nothing away where the
    /// service did.
    pub open spec fn public_message(self) -> Seq<char> {
        match self {
            AppErrorModel::AuthenticationError(message) => message,
            AppErrorModel::ValidationError(message) => message,
            AppErrorModel::NotFound(message) => message,
            AppErrorModel::DatabaseError(_) => DATABASE_FAILURE@,
            AppErrorModel::InternalError(_) => INTERNAL_FAILURE@,
            AppErrorModel::HashError => INTERNAL_FAILURE@,
        }
    }

    /// The tag that names the kind of failure on the wire.
    pub open spec fn error_type(self) -> Seq<char> {
        match self {
            AppErrorModel::AuthenticationError(_) => AUTHENTICATION_ERROR@,
            AppErrorModel::ValidationError(_) => VALIDATION_ERROR@,
            AppErrorModel::NotFound(_) => NOT_FOUND@,
            AppErrorModel::DatabaseError(_) => DATABASE_ERROR@,
            AppErrorModel::InternalError(_) => INTERNAL_ERROR@,
            AppErrorModel::HashError => INTERNAL_ERROR@,
        }
    }

    /// The reply that the failure is rendered as.
    pub open spec fn response(self) -> HttpReplyModel {
        HttpReplyModel {
            status: self.status(),
            body: ReplyBodyModel::Error(
                ErrorBodyModel {
                    success: false,
                    message: self.public_message(),
                    error_type: self.error_type(),
                },
            ),
        }
    }
}

impl View for AppError {
    type V = AppErrorModel;

    open spec fn view(&self) -> AppErrorModel {
        match self {
            AppError::DatabaseError(cause) => AppErrorModel::DatabaseError(cause@),
            AppError::AuthenticationError(message) => AppErrorModel::AuthenticationError(
                message@,
            ),
            AppError::ValidationError(message) => AppErrorModel::ValidationError(message@),
            AppError::NotFound(message) => AppErrorModel::NotFound(message@),
            AppError::InternalError(cause) => AppErrorModel::InternalError(cause@),
            AppError::HashError => AppErrorModel::HashError,
        }
    }
}

impl AppError {
    /// Renders the failure for the client: the status code of its kind, and
    /// a body with the message and the tag of its kind. What went wrong
    /// inside the service is not passed on.
    pub fn error_response(&self) -> (r: HttpReply)
        ensures
            r@ == self@.response(),
    {
        let (status, message, error_type) = match self {
            AppError::AuthenticationError(message) => (
                STATUS_UNAUTHORIZED,
                message.clone(),
                AUTHENTICATION_ERROR.to_owned(),
            ),
            AppError::ValidationError(message) => (
                STATUS_BAD_REQUEST,
                message.clone(),
                VALIDATION_ERROR.to_owned(),
            ),
            AppError::NotFound(message) => (
                STATUS_NOT_FOUND,
                message.clone(),
                NOT_FOUND.to_owned(),
            ),
            AppError::DatabaseError(_) => (
                STATUS_INTERNAL_SERVER_ERROR,
                DATABASE_FAILURE.to_owned(),
                DATABASE_ERROR.to_owned(),
            ),
            AppError::InternalError(_) => (
                STATUS_INTERNAL_SERVER_ERROR,
                INTERNAL_FAILURE.to_owned(),
                INTERNAL_ERROR.to_owned(),
            ),
            AppError::HashError => (
                STATUS_INTERNAL_SERVER_ERROR,
                INTERNAL_FAILURE.to_owned(),
                INTERNAL_ERROR.to_owned(),
            ),
        };
        HttpReply { status, body: ReplyBody::Error(ErrorBody { success: false, message, error_type }) }
    }
}

} // verus!
