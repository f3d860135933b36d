//! Replies to requests for accounts.

use crate::models::dto::{user_models, ApiResponse, UserResponse, UserResponseModel};
use crate::models::entities::Account;
use crate::models::reply::{
    ApiResponseModel, HttpReply, HttpReplyModel, ReplyBody, ReplyBodyModel, STATUS_NOT_FOUND,
    STATUS_OK,
};
use crate::services::user_repository::{found_by_id, listed_users, UserRepository};
use crate::utils::error::AppResult;
use vstd::prelude::*;

verus! {

/// The message beside accounts that were fetched.
pub const USERS_FETCHED: &'static str = "ดึงข้อมูลผู้ใช้งานสำเร็จ";

/// The message for an account that does not exist.
pub const USER_NOT_FOUND: &'static str = "ไม่พบข้อมูลผู้ใช้งาน";

/// The reply that carries a listing of users.
pub open spec fn listing_reply(users: Seq<UserResponseModel>) -> HttpReplyModel {
    HttpReplyModel {
        status: STATUS_OK,
        body: ReplyBodyModel::Users(
            ApiResponseModel::success_with_message(users, USERS_FETCHED@),
        ),
    }
}

/// The reply to a request for one account: the account's public face with
/// `message` where there is one, and else a failed envelope that says that
/// the user was not found, with the status for that.
pub open spec fn account_reply(user: Option<UserResponseModel>, message: Seq<char>) -> HttpReplyModel {
    match user {
        Some(user) => HttpReplyModel {
            status: STATUS_OK,
            body: ReplyBodyModel::User(ApiResponseModel::success_with_message(user, message)),
        },
        None => HttpReplyModel {
            status: STATUS_NOT_FOUND,
            body: ReplyBodyModel::Empty(ApiResponseModel::error(USER_NOT_FOUND@)),
        },
    }
}

/// The reply to a request for one account, decided from the account's public
/// face, if there is an account.
pub fn found_reply(user: Option<UserResponse>, message: &str) -> (r: HttpReply)
    ensures
        r@ == account_reply(
            match user {
                Some(user) => Some(user@),
                None => None,
            },
            message@,
        ),
{
    match user {
        Some(user) => HttpReply {
            status: STATUS_OK,
            body: ReplyBody::User(ApiResponse::success_with_message(user, message.to_owned())),
        },
        None => HttpReply {
            status: STATUS_NOT_FOUND,
            body: ReplyBody::Empty(ApiResponse::error(USER_NOT_FOUND.to_owned())),
        },
    }
}

/// The reply to the request for the listing of users, decided from what the
/// store returned: the listing in a successful envelope, or the store's
/// failure as a failure is rendered.
pub fn users_reply(result: AppResult<Vec<UserResponse>>) -> (r: HttpReply)
    ensures
        match result {
            Ok(users) => r@ == listing_reply(user_models(users@)),
            Err(error) => r@ == error@.response(),
        },
{
    match result {
        Ok(users) => HttpReply {
            status: STATUS_OK,
            body: ReplyBody::Users(
                ApiResponse::success_with_message(users, USERS_FETCHED.to_owned()),
            ),
        },
        Err(error) => error.error_response(),
    }
}

/// The reply to the request for one account by id, decided from what the
/// store returned: the account's public face in a successful envelope; where
/// there is no account, a failed envelope with the status for that; or the
/// store's failure as a failure is rendered.
pub fn user_reply(result: AppResult<Option<Account>>) -> (r: HttpReply)
    ensures
        match result {
            Ok(Some(account)) => r@ == account_reply(
                Some(account@.projection()),
                USERS_FETCHED@,
            ),
            Ok(None) => r@ == account_reply(None, USERS_FETCHED@),
            Err(error) => r@ == error@.response(),
        },
{
    match result {
        Ok(Some(account)) => found_reply(Some(account.to_user_response()), USERS_FETCHED),
        Ok(None) => found_reply(None, USERS_FETCHED),
        Err(error) => error.error_response(),
    }
}

/// Answers the request for the listing of users from the store.
pub fn get_users(user_repository: &UserRepository) -> (r: HttpReply)
    ensures
        r@ == listing_reply(listed_users(user_repository@)),
{
    users_reply(user_repository.find_all_users())
}

/// Answers the request for the account with the id `user_id` from the store.
pub fn get_user_by_id(user_repository: &UserRepository, user_id: &str) -> (r: HttpReply)
    ensures
        r@ == account_reply(
            match found_by_id(user_repository@, user_id@) {
                Some(account) => Some(account.projection()),
                None => None,
            },
            USERS_FETCHED@,
        ),
{
    user_reply(user_repository.find_by_id(user_id))
}

} // verus!
