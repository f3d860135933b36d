//! Login: a request is checked, its identifier is resolved to an account, and
//! the secret is checked against the account's hash. The first step that
//! fails ends the login, each with a verdict of its own.
//!
//! [`screen`] and [`judge`] are the steps around the lookup, for a caller
//! that asks a store of its own between them; [`AuthService`] runs all three
//! against the store it holds.

use crate::models::dto::{
    validation_error, LoginRequest, LoginResponse, LoginResponseModel, UserResponse,
    UserResponseModel,
};
use crate::models::entities::{found_model, Account, AccountModel};
use crate::models::reply::{
    STATUS_BAD_REQUEST, STATUS_NOT_FOUND, STATUS_OK, STATUS_UNAUTHORIZED,
};
use crate::services::credential::{bcrypt_verify, verify};
use crate::services::user_repository::{
    found_by_id, found_by_identifier, project_found, UserRepository,
};
use crate::utils::error::{AppErrorModel, AppResult};
use vstd::prelude::*;

verus! {

/// The message of a login whose identifier no account has.
pub const ACCOUNT_NOT_FOUND: &'static str = "account not found";

/// The message of a login with a secret that is not the account's own.
pub const INVALID_CREDENTIALS: &'static str = "invalid credentials";

/// The message of a login that succeeded.
pub const LOGIN_SUCCEEDED: &'static str = "login succeeded";

/// How a login ended.
#[derive(Debug, PartialEq, Eq)]
pub enum LoginVerdict {
    /// The secret is the account's own: the account's public face.
    Granted(UserResponse),
    /// The request was turned away unseen, for the reason given.
    Invalid(String),
    /// No account has the identifier.
    UnknownAccount,
    /// The account exists; the secret is not its own.
    WrongSecret,
}

/// What a [`LoginVerdict`] holds, as mathematical values.
pub enum LoginVerdictModel {
    Granted(UserResponseModel),
    Invalid(Seq<char>),
    UnknownAccount,
    WrongSecret,
}

impl LoginVerdictModel {
    /// The outcome that the client reads.
    pub open spec fn response(self) -> LoginResponseModel {
        match self {
            LoginVerdictModel::Granted(user) => LoginResponseModel::granted(user, LOGIN_SUCCEEDED@),
            LoginVerdictModel::Invalid(message) => LoginResponseModel::refused(message),
            LoginVerdictModel::UnknownAccount => LoginResponseModel::refused(ACCOUNT_NOT_FOUND@),
            LoginVerdictModel::WrongSecret => LoginResponseModel::refused(INVALID_CREDENTIALS@),
        }
    }

    /// The status code that goes with the outcome: a login that was granted
    /// is served; one that was not is answered as the failure of its kind is,
    /// a wrong secret as a failed authentication.
    pub open spec fn status(self) -> u16 {
        match self {
            LoginVerdictModel::Granted(_) => STATUS_OK,
            LoginVerdictModel::Invalid(_) => STATUS_BAD_REQUEST,
            LoginVerdictModel::UnknownAccount => STATUS_NOT_FOUND,
            LoginVerdictModel::WrongSecret => STATUS_UNAUTHORIZED,
        }
    }
}

impl View for LoginVerdict {
    type V = LoginVerdictModel;

    open spec fn view(&self) -> LoginVerdictModel {
        match self {
            LoginVerdict::Granted(user) => LoginVerdictModel::Granted(user@),
            LoginVerdict::Invalid(message) => LoginVerdictModel::Invalid(message@),
            LoginVerdict::UnknownAccount => LoginVerdictModel::UnknownAccount,
            LoginVerdict::WrongSecret => LoginVerdictModel::WrongSecret,
        }
    }
}

impl LoginVerdict {
    /// The outcome that the client reads: success with the account's public
    /// face, or failure with the message of its kind.
    pub fn into_response(self) -> (r: LoginResponse)
        ensures
            r@ == self@.response(),
            r@.well_formed(),
    {
        match self {
            LoginVerdict::Granted(user) => LoginResponse::granted(user, LOGIN_SUCCEEDED),
            LoginVerdict::Invalid(message) => LoginResponse {
                success: false,
                user: None,
                message: Some(message),
            },
            LoginVerdict::UnknownAccount => LoginResponse::refused(ACCOUNT_NOT_FOUND),
            LoginVerdict::WrongSecret => LoginResponse::refused(INVALID_CREDENTIALS),
        }
    }

    /// The status code that goes with the outcome.
    pub fn status(&self) -> (r: u16)
        ensures
            r == self@.status(),
    {
        match self {
            LoginVerdict::Granted(_) => STATUS_OK,
            LoginVerdict::Invalid(_) => STATUS_BAD_REQUEST,
            LoginVerdict::UnknownAccount => STATUS_NOT_FOUND,
            LoginVerdict::WrongSecret => STATUS_UNAUTHORIZED,
        }
    }
}

/// The verdict on a request before any account is looked up: it is invalid,
/// or there is none yet.
pub open spec fn screened(identifier: Seq<char>, password: Seq<char>) -> Option<
    LoginVerdictModel,
> {
    match validation_error(identifier, password) {
        Some(message) => Some(LoginVerdictModel::Invalid(message)),
        None => None,
    }
}

/// The verdict on an account's secret, once the secret has been checked.
pub open spec fn settled(account: AccountModel, matches: bool) -> LoginVerdictModel {
    if matches {
        LoginVerdictModel::Granted(account.projection())
    } else {
        LoginVerdictModel::WrongSecret
    }
}

/// The verdict on a password, given what the lookup of the identifier found.
pub open spec fn judged(found: Option<AccountModel>, password: Seq<char>) -> Result<
    LoginVerdictModel,
    AppErrorModel,
> {
    match found {
        None => Ok(LoginVerdictModel::UnknownAccount),
        Some(account) => match bcrypt_verify(password, account.password_hash) {
            Some(matches) => Ok(settled(account, matches)),
            None => Err(AppErrorModel::HashError),
        },
    }
}

/// How the login with `identifier` and `password` ends against a store with
/// the given rows.
pub open spec fn login_verdict(
    rows: Seq<AccountModel>,
    identifier: Seq<char>,
    password: Seq<char>,
) -> Result<LoginVerdictModel, AppErrorModel> {
    match screened(identifier, password) {
        Some(verdict) => Ok(verdict),
        None => judged(found_by_identifier(rows, identifier), password),
    }
}

/// Whether `result` is `wanted`, value for value.
pub open spec fn is_verdict(
    result: AppResult<LoginVerdict>,
    wanted: Result<LoginVerdictModel, AppErrorModel>,
) -> bool {
    match wanted {
        Ok(verdict) => result matches Ok(reached) && reached@ == verdict,
        Err(error) => result matches Err(raised) && raised@ == error,
    }
}

/// Whether `result` is the outcome of `wanted`, value for value.
pub open spec fn is_outcome(
    result: AppResult<LoginResponse>,
    wanted: Result<LoginVerdictModel, AppErrorModel>,
) -> bool {
    match wanted {
        Ok(verdict) => result matches Ok(outcome) && outcome@ == verdict.response(),
        Err(error) => result matches Err(raised) && raised@ == error,
    }
}

/// The first step of a login: checks the request. An invalid request has its
/// verdict here, and no store is asked; for a valid one the identifier is to
/// be looked up next.
pub fn screen(request: &LoginRequest) -> (r: Option<LoginVerdict>)
    ensures
        match screened(request.identifier@, request.password@) {
            Some(verdict) => r matches Some(reached) && reached@ == verdict,
            None => r is None,
        },
{
    match request.validate() {
        Ok(()) => None,
        Err(message) => Some(LoginVerdict::Invalid(message)),
    }
}

/// The verdict on an account whose secret has been checked: granted, with
/// the account's public face, where the secret matched, and a wrong secret
/// where it did not.
pub fn settle(account: &Account, matches: bool) -> (r: LoginVerdict)
    ensures
        r@ == settled(account@, matches),
{
    if matches {
        LoginVerdict::Granted(account.to_user_response())
    } else {
        LoginVerdict::WrongSecret
    }
}

/// The last step of a login: the verdict on the request's password, given
/// what the lookup of its identifier found. No account is an unknown account.
/// An account whose stored hash cannot be read is a hash error.
pub fn judge(request: &LoginRequest, found: Option<Account>) -> (r: AppResult<LoginVerdict>)
    ensures
        is_verdict(r, judged(found_model(found), request.password@)),
{
    match found {
        None => Ok(LoginVerdict::UnknownAccount),
        Some(account) => {
            match verify(request.password.as_str(), account.password_hash.as_str()) {
                Ok(matches) => Ok(settle(&account, matches)),
                Err(error) => Err(error),
            }
        },
    }
}

/// The login service over an account store.
#[derive(Debug, PartialEq, Eq)]
pub struct AuthService {
    user_repository: UserRepository,
}

impl View for AuthService {
    type V = Seq<AccountModel>;

    closed spec fn view(&self) -> Seq<AccountModel> {
        self.user_repository@
    }
}

impl AuthService {
    /// A service over the given store.
    pub fn new(user_repository: UserRepository) -> (r: Self)
        ensures
            r@ == user_repository@,
    {
        AuthService { user_repository }
    }

    /// Runs a login through its steps and returns how it ended.
    pub fn decide(&self, login_request: &LoginRequest) -> (r: AppResult<LoginVerdict>)
        ensures
            is_verdict(
                r,
                login_verdict(self@, login_request.identifier@, login_request.password@),
            ),
    {
        match screen(login_request) {
            Some(verdict) => Ok(verdict),
            None => match self.user_repository.find_by_identifier(
                login_request.identifier.as_str(),
            ) {
                Ok(found) => judge(login_request, found),
                Err(error) => Err(error),
            },
        }
    }

    /// Logs in: an invalid request, an unknown identifier and a wrong secret
    /// each end in a failed outcome with a message of their own; the right
    /// secret ends in success with the account's public face. Nothing is
    /// changed or kept: the same request against the same store ends the
    /// same way. Only a stored hash that cannot be read is an error.
    pub fn login(&self, login_request: &LoginRequest) -> (r: AppResult<LoginResponse>)
        ensures
            is_outcome(
                r,
                login_verdict(self@, login_request.identifier@, login_request.password@),
            ),
            r matches Ok(outcome) ==> outcome@.well_formed(),
    {
        match self.decide(login_request) {
            Ok(verdict) => Ok(verdict.into_response()),
            Err(error) => Err(error),
        }
    }

    /// The public face of the account with the id `user_id`, or nothing
    /// where no account has it: that is no error.
    pub fn get_user_profile(&self, user_id: &str) -> (r: AppResult<Option<UserResponse>>)
        ensures
            r matches Ok(profile) && match found_by_id(self@, user_id@) {
                Some(account) => profile matches Some(user) && user@ == account.projection(),
                None => profile is None,
            },
    {
        match self.user_repository.find_by_id(user_id) {
            Ok(found) => Ok(project_found(found)),
            Err(error) => Err(error),
        }
    }
}

/// A login is repeatable: two results of `login` for one request against
/// one store hold the same values.
pub proof fn login_is_repeatable(
    rows: Seq<AccountModel>,
    identifier: Seq<char>,
    password: Seq<char>,
    first: AppResult<LoginResponse>,
    second: AppResult<LoginResponse>,
)
    requires
        is_outcome(first, login_verdict(rows, identifier, password)),
        is_outcome(second, login_verdict(rows, identifier, password)),
    ensures
        first is Ok <==> second is Ok,
        first matches Ok(outcome) ==> second matches Ok(again) && again@ == outcome@,
        first matches Err(error) ==> second matches Err(again) && again@ == error@,
{
}

/// An invalid request ends the same way against every store: the store has
/// no part in the verdict.
pub proof fn invalid_request_ends_before_the_store(
    rows: Seq<AccountModel>,
    others: Seq<AccountModel>,
    identifier: Seq<char>,
    password: Seq<char>,
)
    requires
        validation_error(identifier, password) is Some,
    ensures
        login_verdict(rows, identifier, password) == login_verdict(others, identifier, password),
        login_verdict(rows, identifier, password) == Ok::<LoginVerdictModel, AppErrorModel>(
            LoginVerdictModel::Invalid(validation_error(identifier, password)->Some_0),
        ),
{
}

/// The outcome of a login carries an account exactly when it succeeded, and
/// it succeeded exactly when the login was granted.
pub proof fn outcome_carries_account_iff_granted(verdict: LoginVerdictModel)
    ensures
        verdict.response().well_formed(),
        verdict.response().success <==> verdict is Granted,
        verdict.response().success <==> verdict.status() == STATUS_OK,
{
}

} // verus!
