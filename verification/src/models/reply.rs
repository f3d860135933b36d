//! Replies as the service hands them to the transport: a status code and a
//! body that the transport writes out as JSON.

use super::dto::{
    user_models, ApiResponse, LoginResponse, LoginResponseModel, UserResponse, UserResponseModel,
};
use crate::utils::text::optional_text;
use vstd::prelude::*;

verus! {

/// The request was served.
pub const STATUS_OK: u16 = 200;

/// The request was malformed.
pub const STATUS_BAD_REQUEST: u16 = 400;

/// The credentials were not accepted.
pub const STATUS_UNAUTHORIZED: u16 = 401;

/// Nothing matches what the request names.
pub const STATUS_NOT_FOUND: u16 = 404;

/// The service failed.
pub const STATUS_INTERNAL_SERVER_ERROR: u16 = 500;

/// The body of a reply to a failure: always unsuccessful, with a message for
/// the client and the kind of failure as a tag.
#[derive(Debug, PartialEq, Eq)]
pub struct ErrorBody {
    pub success: bool,
    pub message: String,
    pub error_type: String,
}

/// What an [`ErrorBody`] holds, as mathematical values.
pub struct ErrorBodyModel {
    pub success: bool,
    pub message: Seq<char>,
    pub error_type: Seq<char>,
}

impl View for ErrorBody {
    type V = ErrorBodyModel;

    open spec fn view(&self) -> ErrorBodyModel {
        ErrorBodyModel {
            success: self.success,
            message: self.message@,
            error_type: self.error_type@,
        }
    }
}

/// What an [`ApiResponse`] holds, with the data as the mathematical value `D`.
pub struct ApiResponseModel<D> {
    pub success: bool,
    pub data: Option<D>,
    pub message: Option<Seq<char>>,
}

impl<D> ApiResponseModel<D> {
    /// A successful envelope around `data`, with `message`.
    pub open spec fn success_with_message(data: D, message: Seq<char>) -> ApiResponseModel<D> {
        ApiResponseModel { success: true, data: Some(data), message: Some(message) }
    }

    /// A failed envelope: no data, only `message`.
    pub open spec fn error(message: Seq<char>) -> ApiResponseModel<D> {
        ApiResponseModel { success: false, data: None, message: Some(message) }
    }
}

/// Every body that the service answers with.
#[derive(Debug, PartialEq, Eq)]
pub enum ReplyBody {
    /// The outcome of a login.
    Login(LoginResponse),
    /// One account's public face in an envelope.
    User(ApiResponse<UserResponse>),
    /// A list of public faces in an envelope.
    Users(ApiResponse<Vec<UserResponse>>),
    /// A line of text in an envelope.
    Text(ApiResponse<String>),
    /// An envelope without data.
    Empty(ApiResponse<()>),
    /// The body for a failure.
    Error(ErrorBody),
}

/// What a [`ReplyBody`] holds, as mathematical values.
pub enum ReplyBodyModel {
    Login(LoginResponseModel),
    User(ApiResponseModel<UserResponseModel>),
    Users(ApiResponseModel<Seq<UserResponseModel>>),
    Text(ApiResponseModel<Seq<char>>),
    Empty(ApiResponseModel<()>),
    Error(ErrorBodyModel),
}

impl View for ReplyBody {
    type V = ReplyBodyModel;

    open spec fn view(&self) -> ReplyBodyModel {
        match self {
            ReplyBody::Login(outcome) => ReplyBodyModel::Login(outcome@),
            ReplyBody::User(envelope) => ReplyBodyModel::User(
                ApiResponseModel {
                    success: envelope.success,
                    data: match envelope.data {
                        Some(user) => Some(user@),
                        None => None,
                    },
                    message: optional_text(envelope.message),
                },
            ),
            ReplyBody::Users(envelope) => ReplyBodyModel::Users(
                ApiResponseModel {
                    success: envelope.success,
                    data: match envelope.data {
                        Some(users) => Some(user_models(users@)),
                        None => None,
                    },
                    message: optional_text(envelope.message),
                },
            ),
            ReplyBody::Text(envelope) => ReplyBodyModel::Text(
                ApiResponseModel {
                    success: envelope.success,
                    data: match envelope.data {
                        Some(text) => Some(text@),
                        None => None,
                    },
                    message: optional_text(envelope.message),
                },
            ),
            ReplyBody::Empty(envelope) => ReplyBodyModel::Empty(
                ApiResponseModel {
                    success: envelope.success,
                    data: envelope.data,
                    message: optional_text(envelope.message),
                },
            ),
            ReplyBody::Error(body) => ReplyBodyModel::Error(body@),
        }
    }
}

/// A reply: the status code and the body.
#[derive(Debug, PartialEq, Eq)]
pub struct HttpReply {
    pub status: u16,
    pub body: ReplyBody,
}

/// What an [`HttpReply`] holds, as mathematical values.
pub struct HttpReplyModel {
    pub status: u16,
    pub body: ReplyBodyModel,
}

impl View for HttpReply {
    type V = HttpReplyModel;

    open spec fn view(&self) -> HttpReplyModel {
        HttpReplyModel { status: self.status, body: self.body@ }
    }
}

} // verus!
