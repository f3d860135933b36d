//! Replies that tell a client that the service is there.

use crate::models::dto::ApiResponse;
use crate::models::reply::{
    ApiResponseModel, HttpReply, HttpReplyModel, ReplyBody, ReplyBodyModel, STATUS_OK,
};
use vstd::prelude::*;

verus! {

/// What the health check reports.
pub const API_RUNNING: &'static str = "API is running";

/// The message of the health check.
pub const SERVER_HEALTHY: &'static str = "เซิร์ฟเวอร์ทำงานปกติ";

/// The greeting.
pub const GREETING: &'static str = "Hello from Kiro Game Store API!";

/// The message of the greeting.
pub const WELCOME: &'static str = "ยินดีต้อนรับสู่ Kiro Game Store API";

/// The reply that carries a line of text and a message.
pub open spec fn text_reply(text: Seq<char>, message: Seq<char>) -> HttpReplyModel {
    HttpReplyModel {
        status: STATUS_OK,
        body: ReplyBodyModel::Text(ApiResponseModel::success_with_message(text, message)),
    }
}

/// Reports that the service runs.
pub fn health_check() -> (r: HttpReply)
    ensures
        r@ == text_reply(API_RUNNING@, SERVER_HEALTHY@),
{
    HttpReply {
        status: STATUS_OK,
        body: ReplyBody::Text(
            ApiResponse::success_with_message(API_RUNNING.to_owned(), SERVER_HEALTHY.to_owned()),
        ),
    }
}

/// Greets the client.
pub fn hello() -> (r: HttpReply)
    ensures
        r@ == text_reply(GREETING@, WELCOME@),
{
    HttpReply {
        status: STATUS_OK,
        body: ReplyBody::Text(
            ApiResponse::success_with_message(GREETING.to_owned(), WELCOME.to_owned()),
        ),
    }
}

} // verus!
