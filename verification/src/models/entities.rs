//! The account as the store keeps it.

use super::decimal::{Decimal, DecimalModel};
use super::dto::{UserResponse, UserResponseModel};
use crate::utils::text::optional_text;
use vstd::prelude::*;

verus! {

/// A point in time: whole seconds since the Unix epoch, and the nanoseconds
/// past that second. Two points compare by seconds, then by nanoseconds.
#[derive(Clone, Copy, Debug, PartialEq, Eq, Structural)]
pub struct Timestamp {
    pub seconds: i64,
    pub nanos: u32,
}

impl Timestamp {
    /// Whether `self` is later than `other`.
    pub open spec fn after(self, other: Timestamp) -> bool {
        self.seconds > other.seconds || (self.seconds == other.seconds && self.nanos
            > other.nanos)
    }

    /// Whether `self` is later than `other`.
    pub fn is_after(&self, other: &Timestamp) -> (r: bool)
        ensures
            r == self.after(*other),
    {
        self.seconds > other.seconds || (self.seconds == other.seconds && self.nanos
            > other.nanos)
    }
}

/// The identity record of one user, secret hash included.
#[derive(Debug, PartialEq, Eq)]
pub struct Account {
    pub id: String,
    pub username: String,
    pub email: String,
    pub password_hash: String,
    pub profile_image: Option<String>,
    pub role: String,
    pub wallet_balance: Decimal,
    pub created_at: Timestamp,
    pub updated_at: Timestamp,
}

/// What an [`Account`] holds, as mathematical values.
pub struct AccountModel {
    pub id: Seq<char>,
    pub username: Seq<char>,
    pub email: Seq<char>,
    pub password_hash: Seq<char>,
    pub profile_image: Option<Seq<char>>,
    pub role: Seq<char>,
    pub wallet_balance: DecimalModel,
    pub created_at: Timestamp,
    pub updated_at: Timestamp,
}

impl AccountModel {
    /// The public face of the account, given the text of its balance: the
    /// fields that may leave the service, and no other.
    pub open spec fn projection_with(self, wallet_balance: Seq<char>) -> UserResponseModel {
        UserResponseModel {
            id: self.id,
            username: self.username,
            email: self.email,
            role: self.role,
            wallet_balance,
            created_at: self.created_at,
        }
    }

    /// The public face of the account, its balance written out as text.
    pub open spec fn projection(self) -> UserResponseModel {
        self.projection_with(self.wallet_balance.text())
    }
}

impl View for Account {
    type V = AccountModel;

    open spec fn view(&self) -> AccountModel {
        AccountModel {
            id: self.id@,
            username: self.username@,
            email: self.email@,
            password_hash: self.password_hash@,
            profile_image: optional_text(self.profile_image),
            role: self.role@,
            wallet_balance: self.wallet_balance@,
            created_at: self.created_at,
            updated_at: self.updated_at,
        }
    }
}

/// The mathematical values of a list of accounts, in order.
pub open spec fn account_models(accounts: Seq<Account>) -> Seq<AccountModel> {
    accounts.map_values(|account: Account| account@)
}

/// The mathematical value of an account that may be missing.
pub open spec fn found_model(found: Option<Account>) -> Option<AccountModel> {
    match found {
        Some(account) => Some(account@),
        None => None,
    }
}

impl Clone for Account {
    fn clone(&self) -> (r: Self)
        ensures
            r@ == self@,
    {
        Account {
            id: self.id.clone(),
            username: self.username.clone(),
            email: self.email.clone(),
            password_hash: self.password_hash.clone(),
            profile_image: match &self.profile_image {
                Some(image) => Some(image.clone()),
                None => None,
            },
            role: self.role.clone(),
            wallet_balance: self.wallet_balance.clone(),
            created_at: self.created_at,
            updated_at: self.updated_at,
        }
    }
}

impl Account {
    /// The public face of the account around a balance text that the caller
    /// hands in. The secret hash, the profile image and the time of the last
    /// update stay behind.
    pub fn to_user_response_with(&self, wallet_balance: String) -> (r: UserResponse)
        ensures
            r@ == self@.projection_with(wallet_balance@),
    {
        UserResponse {
            id: self.id.clone(),
            username: self.username.clone(),
            email: self.email.clone(),
            role: self.role.clone(),
            wallet_balance,
            created_at: self.created_at,
        }
    }

    /// The public face of the account: identity, role, the balance as the text
    /// that keeps every digit, and the time of creation.
    pub fn to_user_response(&self) -> (r: UserResponse)
        ensures
            r@ == self@.projection(),
    {
        self.to_user_response_with(self.wallet_balance.to_text())
    }
}

/// The public face of an account does not depend on its secret hash, nor on
/// anything else that the projection leaves out: two accounts that agree on
/// identity, role, balance and time of creation have the same projection.
pub proof fn projection_leaves_secret_out(a: AccountModel, b: AccountModel)
    requires
        a.id == b.id,
        a.username == b.username,
        a.email == b.email,
        a.role == b.role,
        a.wallet_balance == b.wallet_balance,
        a.created_at == b.created_at,
    ensures
        a.projection() == b.projection(),
{
}

} // verus!
