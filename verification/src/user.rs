//! Users: the user entity and its business rules, the view shown to clients,
//! status codes, third-party provider links, and the profiles that OAuth
//! providers report.
use vstd::prelude::*;

use chrono::Utc;

use crate::shared::DomainError;
use crate::text::{contains_chars, contains_seq, str_chars, str_eq, byte_len};

verus! {

#[verifier::external_type_specification]
#[verifier::external_body]
pub struct ExJsonValue(serde_json::Value);

/// An instant in UTC: whole seconds since the Unix epoch and the nanoseconds
/// past them.
#[derive(Debug, Clone, Copy, PartialEq, Eq, Structural)]
pub struct UtcTime {
    pub secs: i64,
    pub nanos: u32,
}

/// Calls `Utc::now` and takes its seconds and nanoseconds; nothing is claimed
/// of the instant, which the clock decides.
#[verifier::external_body]
pub(crate) fn utc_now() -> UtcTime {
    let now = Utc::now();
    UtcTime { secs: now.timestamp(), nanos: now.timestamp_subsec_nanos() }
}

/// A user of the application.
#[derive(Debug, Clone)]
pub struct User {
    pub id: Option<i64>,
    pub user_id: i64,
    pub username: String,
    pub password_hash: String,
    pub email: String,
    pub nick_name: Option<String>,
    pub avatar: Option<String>,
    pub github_name: Option<String>,
    pub status: String,
    pub created_at: UtcTime,
    pub updated_at: UtcTime,
}

/// Why a new user is refused, if it is: a user name under three bytes, an
/// e-mail address without `@`, or an empty password hash, checked in that
/// order.
pub open spec fn new_user_refusal(username: Seq<char>, password_hash: Seq<char>, email: Seq<char>) -> Option<Seq<char>> {
    if username.len() == 0 || byte_len(username) < 3 {
        Some("用户名长度至少 3 个字符"@)
    } else if email.len() == 0 || !contains_seq(email, seq!['@']) {
        Some("邮箱格式无效"@)
    } else if password_hash.len() == 0 {
        Some("密码哈希不能为空"@)
    } else {
        None
    }
}

impl User {
    /// A new active user without id, created now; refused as
    /// `new_user_refusal` says.
    pub fn new(
        username: String,
        password_hash: String,
        email: String,
        nick_name: Option<String>,
        avatar: Option<String>,
    ) -> (r: Result<Self, DomainError>)
        ensures
            match new_user_refusal(username@, password_hash@, email@) {
                Some(m) => r matches Err(DomainError::ValidationError { message }) && message@ == m,
                None => r matches Ok(u) && {
                    &&& u.id is None
                    &&& u.user_id == 0
                    &&& u.username == username
                    &&& u.password_hash == password_hash
                    &&& u.email == email
                    &&& u.nick_name == nick_name
                    &&& u.avatar == avatar
                    &&& u.github_name is None
                    &&& u.status@ == "active"@
                    &&& u.created_at == u.updated_at
                },
            },
    {
        if username.as_str().is_empty() || username.as_str().len() < 3 {
            return Err(DomainError::ValidationError { message: String::from_str("用户名长度至少 3 个字符") });
        }
        let mut at: Vec<char> = Vec::new();
        at.push('@');
        proof {
            assert(at@ =~= seq!['@']);
        }
        if email.as_str().is_empty() || !contains_chars(str_chars(email.as_str()).as_slice(), at.as_slice()) {
            return Err(DomainError::ValidationError { message: String::from_str("邮箱格式无效") });
        }
        if password_hash.as_str().is_empty() {
            return Err(DomainError::ValidationError { message: String::from_str("密码哈希不能为空") });
        }
        let now = utc_now();
        Ok(User {
            id: None,
            user_id: 0,
            username,
            password_hash,
            email,
            nick_name,
            avatar,
            github_name: None,
            status: String::from_str("active"),
            created_at: now,
            updated_at: now,
        })
    }

    /// Sets the nick name and the avatar, and stamps the update time.
    pub fn update_profile(&mut self, nick_name: Option<String>, avatar: Option<String>)
        ensures
            final(self).nick_name == nick_name,
            final(self).avatar == avatar,
            final(self).id == old(self).id,
            final(self).user_id == old(self).user_id,
            final(self).username == old(self).username,
            final(self).password_hash == old(self).password_hash,
            final(self).email == old(self).email,
            final(self).github_name == old(self).github_name,
            final(self).status == old(self).status,
            final(self).created_at == old(self).created_at,
    {
        self.nick_name = nick_name;
        self.avatar = avatar;
        self.updated_at = utc_now();
    }

    /// Whether the user's status is `active`.
    pub fn is_available(&self) -> (b: bool)
        ensures
            b == (self.status@ == "active"@),
    {
        str_eq(self.status.as_str(), "active")
    }
}

/// What clients are shown of a user.
#[derive(Debug, Clone)]
pub struct UserInfo {
    pub id: i64,
    pub user_id: i64,
    pub username: String,
    pub email: String,
    pub nick_name: Option<String>,
    pub avatar: Option<String>,
    pub status: String,
}

/// What clients are shown of a user: its fields but the password hash, the
/// GitHub name and the times, with 0 for a missing id.
pub open spec fn user_info_of(user: User) -> UserInfo {
    UserInfo {
        id: match user.id {
            Some(i) => i,
            None => 0,
        },
        user_id: user.user_id,
        username: user.username,
        email: user.email,
        nick_name: user.nick_name,
        avatar: user.avatar,
        status: user.status,
    }
}

impl From<User> for UserInfo {
    fn from(user: User) -> (r: Self) {
        let id = match user.id {
            Some(i) => i,
            None => 0,
        };
        UserInfo {
            id,
            user_id: user.user_id,
            username: user.username,
            email: user.email,
            nick_name: user.nick_name,
            avatar: user.avatar,
            status: user.status,
        }
    }
}

impl vstd::std_specs::convert::FromSpecImpl<User> for UserInfo {
    open spec fn obeys_from_spec() -> bool {
        true
    }

    open spec fn from_spec(user: User) -> UserInfo {
        user_info_of(user)
    }
}

/// The status of a user account.
#[derive(Debug, Clone, Copy, PartialEq, Eq, Structural)]
pub enum UserStatus {
    Active,
    Inactive,
    Banned,
}

/// The status a stored number stands for: 1 active, -1 banned, anything else
/// inactive.
pub open spec fn status_of_code(code: i8) -> UserStatus {
    if code == 1 {
        UserStatus::Active
    } else if code == -1 {
        UserStatus::Banned
    } else {
        UserStatus::Inactive
    }
}

/// The number a status is stored as.
pub open spec fn code_of_status(s: UserStatus) -> i8 {
    match s {
        UserStatus::Active => 1i8,
        UserStatus::Inactive => 0i8,
        UserStatus::Banned => -1i8,
    }
}

/// The status text a stored number stands for.
pub open spec fn label_of_code(code: i8) -> Seq<char> {
    if code == 1 {
        "active"@
    } else if code == -1 {
        "banned"@
    } else {
        "inactive"@
    }
}

/// The number a status text is stored as: `active` 1, `banned` -1, any other
/// text 0.
pub open spec fn code_of_label(label: Seq<char>) -> i8 {
    if label == "active"@ {
        1i8
    } else if label == "banned"@ {
        -1i8
    } else {
        0i8
    }
}

impl UserStatus {
    /// The status a stored number stands for.
    pub fn from_code(status: i8) -> (r: Self)
        ensures
            r == status_of_code(status),
    {
        if status == 1 {
            UserStatus::Active
        } else if status == -1 {
            UserStatus::Banned
        } else {
            UserStatus::Inactive
        }
    }

    /// The number the status is stored as.
    pub fn to_code(&self) -> (r: i8)
        ensures
            r == code_of_status(*self),
    {
        match self {
            UserStatus::Active => 1,
            UserStatus::Inactive => 0,
            UserStatus::Banned => -1,
        }
    }
}

impl From<i8> for UserStatus {
    /// The status a stored number stands for.
    fn from(status: i8) -> (r: Self) {
        UserStatus::from_code(status)
    }
}

impl vstd::std_specs::convert::FromSpecImpl<i8> for UserStatus {
    open spec fn obeys_from_spec() -> bool {
        true
    }

    open spec fn from_spec(status: i8) -> UserStatus {
        status_of_code(status)
    }
}

impl From<UserStatus> for i8 {
    /// The number a status is stored as.
    fn from(status: UserStatus) -> (r: Self) {
        status.to_code()
    }
}

impl vstd::std_specs::convert::FromSpecImpl<UserStatus> for i8 {
    open spec fn obeys_from_spec() -> bool {
        true
    }

    open spec fn from_spec(status: UserStatus) -> i8 {
        code_of_status(status)
    }
}

/// The status text for a stored number.
pub fn status_label(code: i8) -> (r: String)
    ensures
        r@ == label_of_code(code),
{
    if code == 1 {
        String::from_str("active")
    } else if code == -1 {
        String::from_str("banned")
    } else {
        String::from_str("inactive")
    }
}

/// The stored number for a status text.
pub fn status_code(label: &str) -> (r: i8)
    ensures
        r == code_of_label(label@),
{
    if str_eq(label, "active") {
        1
    } else if str_eq(label, "banned") {
        -1
    } else {
        0
    }
}

/// A status survives being stored and read back.
pub proof fn lemma_status_code_round_trip(s: UserStatus)
    ensures
        status_of_code(code_of_status(s)) == s,
        code_of_label(label_of_code(code_of_status(s))) == code_of_status(s),
{
    reveal_strlit("active");
    reveal_strlit("banned");
    reveal_strlit("inactive");
    assert("active"@[0] != "banned"@[0]);
    assert("active"@ != "banned"@);
    assert("inactive"@ != "banned"@ && "inactive"@ != "active"@) by {
        assert("inactive"@.len() == 8);
    }
}

/// A link between a user and an account with a third-party provider.
#[derive(Debug, Clone)]
pub struct UserProvider {
    pub id: Option<i64>,
    pub user_id: i64,
    pub provider: String,
    pub provider_user_id: String,
    pub provider_email: Option<String>,
    pub provider_raw: Option<serde_json::Value>,
    pub refresh_token_encrypted: Option<String>,
    pub scope: Option<String>,
    pub token_expires_at: Option<UtcTime>,
    pub last_synced_at: Option<UtcTime>,
    pub created_at: UtcTime,
    pub updated_at: UtcTime,
}

impl UserProvider {
    /// A new link, synchronised, created and updated now, without id, tokens
    /// or scope.
    pub fn new(
        user_id: i64,
        provider: String,
        provider_user_id: String,
        provider_email: Option<String>,
        provider_raw: Option<serde_json::Value>,
    ) -> (r: Self)
        ensures
            r.id is None,
            r.user_id == user_id,
            r.provider == provider,
            r.provider_user_id == provider_user_id,
            r.provider_email == provider_email,
            r.provider_raw == provider_raw,
            r.refresh_token_encrypted is None,
            r.scope is None,
            r.token_expires_at is None,
            r.last_synced_at == Some(r.created_at),
            r.updated_at == r.created_at,
    {
        let now = utc_now();
        UserProvider {
            id: None,
            user_id,
            provider,
            provider_user_id,
            provider_email,
            provider_raw,
            refresh_token_encrypted: None,
            scope: None,
            token_expires_at: None,
            last_synced_at: Some(now),
            created_at: now,
            updated_at: now,
        }
    }
}

/// A GitHub account as GitHub's user API reports it.
#[derive(Debug, Clone)]
pub struct GitHubUser {
    pub id: u64,
    pub login: String,
    pub name: Option<String>,
    pub email: Option<String>,
    pub avatar_url: Option<String>,
}

/// A Google account as Google's user-info API reports it.
#[derive(Debug, Clone)]
pub struct GoogleUser {
    pub id: String,
    pub email: String,
    pub verified_email: bool,
    pub name: Option<String>,
    pub given_name: Option<String>,
    pub family_name: Option<String>,
    pub picture: Option<String>,
    pub locale: Option<String>,
}

} // verus!
