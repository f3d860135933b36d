//! Replies to logins and to requests for a profile.

use crate::handlers::user_handler::{account_reply, found_reply};
use crate::models::dto::{LoginRequest, UserResponse};
use crate::models::reply::{HttpReply, HttpReplyModel, ReplyBody, ReplyBodyModel};
use crate::services::auth_service::{login_verdict, AuthService, LoginVerdict, LoginVerdictModel};
use crate::services::user_repository::found_by_id;
use crate::utils::error::{AppErrorModel, AppResult};
use vstd::prelude::*;

verus! {

/// The message beside a profile that was fetched.
pub const PROFILE_FETCHED: &'static str = "ดึงข้อมูลโปรไฟล์สำเร็จ";

/// The reply to a login that ended in `verdict`: the outcome as the body,
/// under the status code of the verdict.
pub open spec fn verdict_reply(verdict: LoginVerdictModel) -> HttpReplyModel {
    HttpReplyModel { status: verdict.status(), body: ReplyBodyModel::Login(verdict.response()) }
}

/// The reply to a login, whatever it came to.
pub open spec fn login_reply_model(result: Result<LoginVerdictModel, AppErrorModel>) -> HttpReplyModel {
    match result {
        Ok(verdict) => verdict_reply(verdict),
        Err(error) => error.response(),
    }
}

/// The reply to a login, decided from how the login ended. A login that was
/// granted is served. One that was not is answered with the failed outcome
/// as the body, under the status code of its kind: an invalid request as a
/// bad request, an unknown account as not found, a wrong secret as
/// unauthorised. An error is rendered as every failure is.
pub fn login_reply(result: AppResult<LoginVerdict>) -> (r: HttpReply)
    ensures
        match result {
            Ok(verdict) => r@ == verdict_reply(verdict@),
            Err(error) => r@ == error@.response(),
        },
{
    match result {
        Ok(verdict) => {
            let status = verdict.status();
            HttpReply { status, body: ReplyBody::Login(verdict.into_response()) }
        },
        Err(error) => error.error_response(),
    }
}

/// The reply to the request for a profile, decided from what the service
/// returned: the profile in a successful envelope; where there is no
/// account, a failed envelope with the status for that; or the failure as a
/// failure is rendered.
pub fn profile_reply(result: AppResult<Option<UserResponse>>) -> (r: HttpReply)
    ensures
        match result {
            Ok(Some(user)) => r@ == account_reply(Some(user@), PROFILE_FETCHED@),
            Ok(None) => r@ == account_reply(None, PROFILE_FETCHED@),
            Err(error) => r@ == error@.response(),
        },
{
    match result {
        Ok(user) => found_reply(user, PROFILE_FETCHED),
        Err(error) => error.error_response(),
    }
}

/// Answers a login from the service.
pub fn login(auth_service: &AuthService, login_request: &LoginRequest) -> (r: HttpReply)
    ensures
        r@ == login_reply_model(
            login_verdict(auth_service@, login_request.identifier@, login_request.password@),
        ),
{
    login_reply(auth_service.decide(login_request))
}

/// Answers the request for the profile of the account with the id `user_id`
/// from the service.
pub fn profile(auth_service: &AuthService, user_id: &str) -> (r: HttpReply)
    ensures
        r@ == account_reply(
            match found_by_id(auth_service@, user_id@) {
                Some(account) => Some(account.projection()),
                None => None,
            },
            PROFILE_FETCHED@,
        ),
{
    profile_reply(auth_service.get_user_profile(user_id))
}

} // verus!
