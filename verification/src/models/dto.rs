//! Shapes that cross the wire: the reply envelope, the login request and the
//! replies to it.

use super::entities::Timestamp;
use crate::utils::text::optional_text;
use vstd::prelude::*;

verus! {

/// The public face of an account. It has no field for the secret hash.
#[derive(Debug, PartialEq, Eq)]
pub struct UserResponse {
    pub id: String,
    pub username: String,
    pub email: String,
    pub role: String,
    pub wallet_balance: String,
    pub created_at: Timestamp,
}

/// What a [`UserResponse`] holds, as mathematical values.
pub struct UserResponseModel {
    pub id: Seq<char>,
    pub username: Seq<char>,
    pub email: Seq<char>,
    pub role: Seq<char>,
    pub wallet_balance: Seq<char>,
    pub created_at: Timestamp,
}

impl View for UserResponse {
    type V = UserResponseModel;

    open spec fn view(&self) -> UserResponseModel {
        UserResponseModel {
            id: self.id@,
            username: self.username@,
            email: self.email@,
            role: self.role@,
            wallet_balance: self.wallet_balance@,
            created_at: self.created_at,
        }
    }
}

impl Clone for UserResponse {
    fn clone(&self) -> (r: Self)
        ensures
            r@ == self@,
    {
        UserResponse {
            id: self.id.clone(),
            username: self.username.clone(),
            email: self.email.clone(),
            role: self.role.clone(),
            wallet_balance: self.wallet_balance.clone(),
            created_at: self.created_at,
        }
    }
}

/// The mathematical values of a list of public faces, in order.
pub open spec fn user_models(users: Seq<UserResponse>) -> Seq<UserResponseModel> {
    users.map_values(|user: UserResponse| user@)
}

/// The uniform wrapper around every reply: a success flag, the data if there
/// is any, and a message if there is one.
#[derive(Debug, PartialEq, Eq)]
pub struct ApiResponse<T> {
    pub success: bool,
    pub data: Option<T>,
    pub message: Option<String>,
}

impl<T> ApiResponse<T> {
    /// A successful reply that carries `data` and no message.
    pub fn success(data: T) -> (r: Self)
        ensures
            r.success,
            r.data == Some(data),
            r.message is None,
    {
        Self { success: true, data: Some(data), message: None }
    }

    /// A successful reply that carries `data` and `message`.
    pub fn success_with_message(data: T, message: String) -> (r: Self)
        ensures
            r.success,
            r.data == Some(data),
            r.message == Some(message),
    {
        Self { success: true, data: Some(data), message: Some(message) }
    }

    /// A failed reply: no data, only `message`.
    pub fn error(message: String) -> (r: Self)
        ensures
            !r.success,
            r.data is None,
            r.message == Some(message),
    {
        Self { success: false, data: None, message: Some(message) }
    }
}

/// What a login ends in: whether it succeeded, the account's public face if it
/// did, and a message. The account is there exactly when the login succeeded.
#[derive(Debug, PartialEq, Eq)]
pub struct LoginResponse {
    pub success: bool,
    pub user: Option<UserResponse>,
    pub message: Option<String>,
}

/// What a [`LoginResponse`] holds, as mathematical values.
pub struct LoginResponseModel {
    pub success: bool,
    pub user: Option<UserResponseModel>,
    pub message: Option<Seq<char>>,
}

impl LoginResponseModel {
    /// The account is present exactly when the login succeeded.
    pub open spec fn well_formed(self) -> bool {
        self.success <==> self.user is Some
    }

    /// A successful login of the account with the public face `user`.
    pub open spec fn granted(user: UserResponseModel, message: Seq<char>) -> LoginResponseModel {
        LoginResponseModel { success: true, user: Some(user), message: Some(message) }
    }

    /// A login that failed for the reason that `message` gives.
    pub open spec fn refused(message: Seq<char>) -> LoginResponseModel {
        LoginResponseModel { success: false, user: None, message: Some(message) }
    }
}

impl View for LoginResponse {
    type V = LoginResponseModel;

    open spec fn view(&self) -> LoginResponseModel {
        LoginResponseModel {
            success: self.success,
            user: match self.user {
                Some(user) => Some(user@),
                None => None,
            },
            message: optional_text(self.message),
        }
    }
}

impl Clone for LoginResponse {
    fn clone(&self) -> (r: Self)
        ensures
            r@ == self@,
    {
        LoginResponse {
            success: self.success,
            user: match &self.user {
                Some(user) => Some(user.clone()),
                None => None,
            },
            message: match &self.message {
                Some(message) => Some(message.clone()),
                None => None,
            },
        }
    }
}

impl LoginResponse {
    /// A successful login of the account with the public face `user`.
    pub fn granted(user: UserResponse, message: &str) -> (r: Self)
        ensures
            r@ == LoginResponseModel::granted(user@, message@),
    {
        LoginResponse { success: true, user: Some(user), message: Some(message.to_owned()) }
    }

    /// A login that failed for the reason that `message` gives.
    pub fn refused(message: &str) -> (r: Self)
        ensures
            r@ == LoginResponseModel::refused(message@),
    {
        LoginResponse { success: false, user: None, message: Some(message.to_owned()) }
    }
}

/// The message for a request without a user name or email address.
pub const IDENTIFIER_REQUIRED: &'static str = "กรุณากรอกชื่อผู้ใช้งานหรืออีเมล";

/// The message for a request without a password.
pub const PASSWORD_REQUIRED: &'static str = "กรุณากรอกรหัสผ่าน";

/// The message for a request whose password is too short.
pub const PASSWORD_TOO_SHORT: &'static str = "รหัสผ่านต้องมีความยาวอย่างน้อย 6 ตัวอักษร";

/// The least number of characters in a password.
pub const MIN_PASSWORD_CHARS: usize = 6;

/// Whether `c` is white space: a character with the Unicode property
/// White_Space.
pub open spec fn is_whitespace(c: char) -> bool {
    let n = c as u32;
    ||| 0x09 <= n <= 0x0D
    ||| n == 0x20
    ||| n == 0x85
    ||| n == 0xA0
    ||| n == 0x1680
    ||| 0x2000 <= n <= 0x200A
    ||| n == 0x2028
    ||| n == 0x2029
    ||| n == 0x202F
    ||| n == 0x205F
    ||| n == 0x3000
}

/// Whether `text` holds nothing but white space, so that nothing is left of
/// it once white space is trimmed from both ends.
pub open spec fn is_blank(text: Seq<char>) -> bool {
    forall|i: int| 0 <= i < text.len() ==> is_whitespace(#[trigger] text[i])
}

/// Why a login with this identifier and password is turned away unseen, if it
/// is: the identifier is blank, or else the password is blank, or else the
/// password has fewer than [`MIN_PASSWORD_CHARS`] characters.
pub open spec fn validation_error(identifier: Seq<char>, password: Seq<char>) -> Option<
    Seq<char>,
> {
    if is_blank(identifier) {
        Some(IDENTIFIER_REQUIRED@)
    } else if is_blank(password) {
        Some(PASSWORD_REQUIRED@)
    } else if password.len() < MIN_PASSWORD_CHARS {
        Some(PASSWORD_TOO_SHORT@)
    } else {
        None
    }
}

/// Whether `c` is white space.
pub fn char_is_whitespace(c: char) -> (r: bool)
    ensures
        r == is_whitespace(c),
{
    let n: u32 = c as u32;
    (0x09 <= n && n <= 0x0D) || n == 0x20 || n == 0x85 || n == 0xA0 || n == 0x1680 || (0x2000
        <= n && n <= 0x200A) || n == 0x2028 || n == 0x2029 || n == 0x202F || n == 0x205F || n
        == 0x3000
}

/// Whether `text` holds nothing but white space.
pub fn text_is_blank(text: &str) -> (r: bool)
    ensures
        r == is_blank(text@),
{
    let mut blank = true;
    for c in chars: text.chars()
        invariant
            chars.seq() == text@,
            blank == is_blank(text@.take(chars.index())),
    {
        proof {
            let seen = text@.take(chars.index());
            let next = text@.take(chars.index() + 1);
            assert(next == seen.push(c));
            assert(is_blank(next) == (is_blank(seen) && is_whitespace(c))) by {
                if is_blank(next) {
                    assert(forall|i: int| 0 <= i < seen.len() ==> seen[i] == next[i]);
                    assert(next[seen.len() as int] == c);
                }
            }
        }
        blank = blank && char_is_whitespace(c);
    }
    assert(text@.take(text@.len() as int) == text@);
    blank
}

/// What a client sends to log in: a user name or email address, and the
/// password.
#[derive(Debug, PartialEq, Eq)]
pub struct LoginRequest {
    pub identifier: String,
    pub password: String,
}

impl LoginRequest {
    /// What `validate` finds wrong with the request, if anything.
    pub open spec fn validation(&self) -> Option<Seq<char>> {
        validation_error(self.identifier@, self.password@)
    }

    /// Checks the request before anything is looked up: the identifier and
    /// the password must hold more than white space, and the password at
    /// least [`MIN_PASSWORD_CHARS`] characters. The error is the message for
    /// the first rule that the request breaks.
    pub fn validate(&self) -> (r: Result<(), String>)
        ensures
            r is Ok <==> self.validation() is None,
            r matches Err(message) ==> self.validation() == Some(message@),
    {
        if text_is_blank(self.identifier.as_str()) {
            return Err(IDENTIFIER_REQUIRED.to_owned());
        }
        if text_is_blank(self.password.as_str()) {
            return Err(PASSWORD_REQUIRED.to_owned());
        }
        if self.password.as_str().unicode_len() < MIN_PASSWORD_CHARS {
            return Err(PASSWORD_TOO_SHORT.to_owned());
        }
        Ok(())
    }
}

} // verus!
