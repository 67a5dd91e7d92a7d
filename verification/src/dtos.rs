//! The forms and answers of the user endpoints, with the limits their fields
//! are held to.
use vstd::prelude::*;

use validator::ValidateEmail;

use crate::text::str_chars;
use crate::user::UserInfo;

verus! {

/// Whether `validator` accepts a text as an e-mail address.
pub uninterp spec fn validator_email_ok(s: Seq<char>) -> bool;

/// Calls `validate_email` of `validator`'s `ValidateEmail`; the contract names
/// its answer, which depends on the text alone. As its source shows, an empty
/// text and a text without `@` are refused.
#[verifier::external_body]
fn email_valid(s: &str) -> (b: bool)
    ensures
        b == validator_email_ok(s@),
        (s@.len() == 0 || !s@.contains('@')) ==> !b,
{
    s.validate_email()
}

/// The number of characters of a text.
fn char_count(s: &str) -> (n: usize)
    ensures
        n == s@.len(),
{
    str_chars(s).len()
}

/// The user details a client is shown.
#[derive(Debug, Clone)]
pub struct UserDetailResponse {
    pub id: i64,
    pub username: String,
    pub profile: UserProfile,
    pub roles: Vec<String>,
    pub current_role: Option<String>,
}

/// The profile part of the user details.
#[derive(Debug, Clone)]
pub struct UserProfile {
    pub avatar: Option<String>,
    pub nick_name: Option<String>,
    pub email: String,
    pub gender: Option<String>,
    pub address: Option<String>,
}

impl UserDetailResponse {
    /// The details of a user: its id, name, avatar, nick name and e-mail
    /// address; no gender, address, roles or current role yet.
    pub fn from_user_info(user: UserInfo) -> (r: Self)
        ensures
            r.id == user.id,
            r.username == user.username,
            r.profile.avatar == user.avatar,
            r.profile.nick_name == user.nick_name,
            r.profile.email == user.email,
            r.profile.gender is None,
            r.profile.address is None,
            r.roles@.len() == 0,
            r.current_role is None,
    {
        UserDetailResponse {
            id: user.id,
            username: user.username,
            profile: UserProfile {
                avatar: user.avatar,
                nick_name: user.nick_name,
                email: user.email,
                gender: None,
                address: None,
            },
            roles: Vec::new(),
            current_role: None,
        }
    }
}

/// An error answer: a code and a message.
#[derive(Debug, Clone)]
pub struct ErrorResponse {
    pub code: u32,
    pub message: String,
}

/// A request for a page of users, filtered by keyword and status.
#[derive(Debug, Clone)]
pub struct UserListRequest {
    pub page: i32,
    pub page_size: i32,
    pub keyword: Option<String>,
    pub status: Option<String>,
}

/// The page asked for when none is given.
pub fn default_page() -> (r: i32)
    ensures
        r == 1,
{
    1
}

/// The page size asked for when none is given.
pub fn default_page_size() -> (r: i32)
    ensures
        r == 20,
{
    20
}

impl UserListRequest {
    /// A request with the defaults for the missing page and page size.
    pub fn with_defaults(
        page: Option<i32>,
        page_size: Option<i32>,
        keyword: Option<String>,
        status: Option<String>,
    ) -> (r: Self)
        ensures
            r.page == (match page {
                Some(p) => p,
                None => 1,
            }),
            r.page_size == (match page_size {
                Some(p) => p,
                None => 20,
            }),
            r.keyword == keyword,
            r.status == status,
    {
        let page = match page {
            Some(p) => p,
            None => default_page(),
        };
        let page_size = match page_size {
            Some(p) => p,
            None => default_page_size(),
        };
        UserListRequest { page, page_size, keyword, status }
    }
}

/// A page of users.
#[derive(Debug, Clone)]
pub struct UserListResponse {
    pub list: Vec<UserListItem>,
    pub total: i64,
    pub page: i32,
    pub page_size: i32,
}

/// A user as a list shows it.
#[derive(Debug, Clone)]
pub struct UserListItem {
    pub id: i64,
    pub username: String,
    pub email: String,
    pub nick_name: Option<String>,
    pub avatar: Option<String>,
    pub status: String,
    pub created_at: String,
    pub updated_at: String,
}

/// A form to create a user.
#[derive(Debug, Clone)]
pub struct CreateUserRequest {
    pub username: String,
    pub email: String,
    pub password: String,
    pub nick_name: Option<String>,
    pub avatar: Option<String>,
}

/// Whether a text's length in characters lies within the bounds.
pub open spec fn length_within(s: Seq<char>, min: nat, max: nat) -> bool {
    min <= s.len() <= max
}

/// The fields of a creation form that break their limits, in order: user
/// name of 3 to 50 characters, a valid e-mail address, password of 6 to 100
/// characters.
pub open spec fn create_user_invalid_fields(r: CreateUserRequest) -> Seq<Seq<char>> {
    (if length_within(r.username@, 3, 50) { Seq::empty() } else { seq!["username"@] }) + (
    if validator_email_ok(r.email@) {
        Seq::empty()
    } else {
        seq!["email"@]
    }) + (if length_within(r.password@, 6, 100) { Seq::empty() } else { seq!["password"@] })
}

/// Appends a field name to a list.
fn push_field(v: &mut Vec<String>, name: &str)
    ensures
        final(v).deep_view() == old(v).deep_view().push(name@),
{
    let ghost v0 = v.deep_view();
    v.push(String::from_str(name));
    proof {
        assert(v.deep_view() =~= v0.push(name@));
    }
}

impl CreateUserRequest {
    /// The fields that break their limits, in order; the form is valid when
    /// there are none.
    pub fn validate(&self) -> (r: Result<(), Vec<String>>)
        ensures
            match r {
                Ok(()) => create_user_invalid_fields(*self).len() == 0,
                Err(v) => v.deep_view() == create_user_invalid_fields(*self) && v@.len() > 0,
            },
    {
        let mut bad: Vec<String> = Vec::new();
        let n = char_count(self.username.as_str());
        if !(3 <= n && n <= 50) {
            push_field(&mut bad, "username");
        }
        if !email_valid(self.email.as_str()) {
            push_field(&mut bad, "email");
        }
        let m = char_count(self.password.as_str());
        if !(6 <= m && m <= 100) {
            push_field(&mut bad, "password");
        }
        proof {
            assert(bad.deep_view() =~= create_user_invalid_fields(*self));
        }
        if bad.len() == 0 {
            Ok(())
        } else {
            Err(bad)
        }
    }
}

/// A form to change a user; each field is changed only where given.
#[derive(Debug, Clone)]
pub struct UpdateUserRequest {
    pub username: Option<String>,
    pub email: Option<String>,
    pub nick_name: Option<String>,
    pub avatar: Option<String>,
    pub status: Option<String>,
}

impl UpdateUserRequest {
    /// Whether the form is valid: an e-mail address, where given, must be a
    /// valid one.
    pub fn validate(&self) -> (r: bool)
        ensures
            r == (match self.email {
                Some(e) => validator_email_ok(e@),
                None => true,
            }),
    {
        match &self.email {
            Some(e) => email_valid(e.as_str()),
            None => true,
        }
    }
}

/// A form to change one's password.
#[derive(Debug, Clone)]
pub struct ChangePasswordRequest {
    pub old_password: String,
    pub new_password: String,
}

impl ChangePasswordRequest {
    /// Whether both passwords have 6 to 100 characters.
    pub fn validate(&self) -> (r: bool)
        ensures
            r == (length_within(self.old_password@, 6, 100) && length_within(
                self.new_password@,
                6,
                100,
            )),
    {
        let a = char_count(self.old_password.as_str());
        let b = char_count(self.new_password.as_str());
        6 <= a && a <= 100 && 6 <= b && b <= 100
    }
}

/// A node of the permission tree.
#[derive(Debug)]
pub struct PermissionNode {
    pub id: i64,
    pub name: String,
    pub key: String,
    pub children: Vec<PermissionNode>,
}

} // verus!
