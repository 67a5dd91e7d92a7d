//! Signing in: the checks on a login form, its captcha and the stored user,
//! the answer to a successful sign-in, and the errors that token handling
//! reports.
//!
//! The user store, the token store and the token signer are reached by the
//! caller; the functions here decide on what they returned. A sign-in runs
//! through typed stages (`begin_login`, `LoginAwaitingUser`,
//! `LoginAwaitingRevocation`, `TokenIssue`, `TokenToStore`, `TokenStorage`),
//! each reached only from the one before, so the captcha is used up before
//! the user is looked up, nothing follows a refusal, and earlier tokens are
//! revoked before the new one is signed and stored.
use vstd::prelude::*;

use crate::captcha::{captcha_matches, InMemoryCaptchaRepository};
use crate::passwords::{bcrypt_verify_outcome, BcryptPasswordService, PasswordService};
use crate::shared::{domain_error_text, DomainError};
use crate::text::{signed_decimal, str_chars};
use crate::token::{Claims, exp_to_time, chrono_timestamp_valid, remaining_seconds, LoginResponse};
use crate::user::{user_info_of, User, UserInfo, UtcTime};

verus! {

/// A login form.
#[derive(Debug, Clone)]
pub struct LoginRequest {
    pub email: String,
    pub password: String,
    pub captcha: String,
    pub captcha_session_id: String,
}

/// The length limits of a login form, counted in characters: e-mail address
/// and password between 1 and 50, captcha exactly 4.
pub open spec fn login_request_valid(r: LoginRequest) -> bool {
    &&& 1 <= r.email@.len() <= 50
    &&& 1 <= r.password@.len() <= 50
    &&& r.captcha@.len() == 4
}

/// Which fields of a login form break their length limits.
#[derive(Debug, Clone, Copy, PartialEq, Eq, Structural)]
pub struct LoginFormFaults {
    pub email: bool,
    pub password: bool,
    pub captcha: bool,
}

/// The fields of `r` that break their length limits.
pub open spec fn login_form_faults(r: LoginRequest) -> LoginFormFaults {
    LoginFormFaults {
        email: !(1 <= r.email@.len() <= 50),
        password: !(1 <= r.password@.len() <= 50),
        captcha: r.captcha@.len() != 4,
    }
}

/// The number of characters of a text.
fn char_count(s: &str) -> (n: usize)
    ensures
        n == s@.len(),
{
    str_chars(s).len()
}

impl LoginRequest {
    /// Checks the length limits; a refused form gives the fields that break
    /// them.
    pub fn validate(&self) -> (r: Result<(), LoginFormFaults>)
        ensures
            r is Ok <==> login_request_valid(*self),
            r matches Err(f) ==> f == login_form_faults(*self),
    {
        let email_ok = {
            let n = char_count(self.email.as_str());
            1 <= n && n <= 50
        };
        let password_ok = {
            let n = char_count(self.password.as_str());
            1 <= n && n <= 50
        };
        let captcha_ok = char_count(self.captcha.as_str()) == 4;
        if email_ok && password_ok && captcha_ok {
            Ok(())
        } else {
            Err(LoginFormFaults { email: !email_ok, password: !password_ok, captcha: !captcha_ok })
        }
    }
}

/// The error a refused login form is answered with: `输入验证失败: ` and the
/// form validator's account of the broken limits.
pub fn login_form_refusal(details: &str) -> (e: DomainError)
    ensures
        e matches DomainError::ValidationError { message } && message@ == "输入验证失败: "@ + details@,
{
    DomainError::ValidationError { message: String::from_str("输入验证失败: ").concat(details) }
}

/// Checks the captcha of a login form and forgets it, whether it matched or
/// not: a captcha that does not match is refused with `验证码错误`.
pub fn check_login_captcha(
    captchas: &mut InMemoryCaptchaRepository,
    session_id: &str,
    input: &str,
) -> (r: Result<(), DomainError>)
    ensures
        final(captchas)@ == old(captchas)@.remove(session_id@),
        r is Ok <==> captcha_matches(old(captchas)@, session_id@, input@),
        r matches Err(e) ==> e matches DomainError::ValidationError { message } && message@
            == "验证码错误"@,
{
    let ok = captchas.validate(session_id, input);
    captchas.remove(session_id);
    if ok {
        Ok(())
    } else {
        Err(DomainError::ValidationError { message: String::from_str("验证码错误") })
    }
}

/// What checking the user that a login form's e-mail address found gives: a
/// missing user is not found, a password that does not match the stored hash
/// is refused with `邮箱或密码错误`, a user that is not active breaks the rule
/// `用户账户不可用`, and a user without id is an internal error; otherwise the
/// user and its id.
pub open spec fn is_login_user_check(
    user: Option<User>,
    password: Seq<char>,
    r: Result<(User, i64), DomainError>,
) -> bool {
    match user {
        None => r matches Err(DomainError::NotFound { resource }) && resource@ == "用户"@,
        Some(u) => match bcrypt_verify_outcome(vstd::utf8::encode_utf8(password), u.password_hash@) {
            None => r matches Err(DomainError::InternalError { message })
                && "Password verification failed: "@.is_prefix_of(message@),
            Some(false) => r matches Err(DomainError::ValidationError { message }) && message@
                == "邮箱或密码错误"@,
            Some(true) => if u.status@ != "active"@ {
                r matches Err(DomainError::BusinessRuleViolation { rule }) && rule@
                    == "用户账户不可用"@
            } else {
                match u.id {
                    None => r matches Err(DomainError::InternalError { message }) && message@
                        == "用户 ID 缺失"@,
                    Some(id) => r == Ok::<(User, i64), DomainError>((u, id)),
                }
            },
        },
    }
}

/// Checks the user that the login form's e-mail address found, as
/// `is_login_user_check` says.
pub fn check_login_user(
    passwords: &BcryptPasswordService,
    user: Option<User>,
    password: &str,
) -> (r: Result<(User, i64), DomainError>)
    ensures
        is_login_user_check(user, password@, r),
{
    let u = match user {
        Some(u) => u,
        None => {
            return Err(DomainError::NotFound { resource: String::from_str("用户") });
        },
    };
    let is_valid = passwords.verify_password(password, u.password_hash.as_str())?;
    if !is_valid {
        return Err(DomainError::ValidationError { message: String::from_str("邮箱或密码错误") });
    }
    if !u.is_available() {
        return Err(
            DomainError::BusinessRuleViolation { rule: String::from_str("用户账户不可用") },
        );
    }
    match u.id {
        Some(id) => Ok((u, id)),
        None => Err(DomainError::InternalError { message: String::from_str("用户 ID 缺失") }),
    }
}

/// What clients are shown of a user looked up by id; a missing user is not
/// found.
pub fn found_user_info(user: Option<User>) -> (r: Result<UserInfo, DomainError>)
    ensures
        match user {
            None => r matches Err(DomainError::NotFound { resource }) && resource@ == "用户"@,
            Some(u) => r == Ok::<UserInfo, DomainError>(user_info_of(u)),
        },
{
    match user {
        Some(u) => Ok(UserInfo::from(u)),
        None => Err(DomainError::NotFound { resource: String::from_str("用户") }),
    }
}

/// The user looked up by id after an OAuth sign-in; a missing user is not
/// found.
pub fn found_user(user: Option<User>) -> (r: Result<User, DomainError>)
    ensures
        match user {
            None => r matches Err(DomainError::NotFound { resource }) && resource@ == "用户"@,
            Some(u) => r == Ok::<User, DomainError>(u),
        },
{
    match user {
        Some(u) => Ok(u),
        None => Err(DomainError::NotFound { resource: String::from_str("用户") }),
    }
}

/// When a stored token expires and how many seconds it has left at
/// `now_secs`, none once it has passed; an internal error when chrono cannot
/// represent the expiry time.
pub fn token_expiry(exp: usize, now_secs: i64) -> (r: Result<(UtcTime, i64), DomainError>)
    requires
        i64::MIN <= (exp as i64) - now_secs <= i64::MAX,
    ensures
        chrono_timestamp_valid(exp as i64) ==> r == Ok::<(UtcTime, i64), DomainError>((
            UtcTime { secs: exp as i64, nanos: 0 },
            if (exp as i64) - now_secs > 0 { ((exp as i64) - now_secs) as i64 } else { 0 },
        )),
        !chrono_timestamp_valid(exp as i64) ==> (r matches Err(DomainError::InternalError { .. })),
{
    let t = exp_to_time(exp)?;
    let left = remaining_seconds(t.secs, now_secs);
    Ok((t, left))
}

/// The answer to a successful sign-in: the token, of type `Bearer`, the
/// seconds it has left, and what clients are shown of the user.
pub fn login_response(access_token: String, expires_in: i64, user: User) -> (r: LoginResponse)
    ensures
        r.access_token == access_token,
        r.token_type@ == "Bearer"@,
        r.expires_in == expires_in,
        r.user == user_info_of(user),
{
    LoginResponse {
        access_token,
        token_type: String::from_str("Bearer"),
        expires_in,
        user: UserInfo::from(user),
    }
}

/// The step of token handling at which an error came.
#[derive(Debug, Clone, Copy, PartialEq, Eq, Structural)]
pub enum TokenFailure {
    /// Checking a token a client presented.
    Validate,
    /// Signing a new token.
    Generate,
    /// Reading back a new token's claims before storing it.
    ReadBack,
    /// Storing a new token.
    Store,
    /// Revoking a token at logout.
    Revoke,
}

/// The error reported for an error at a step of token handling.
pub fn token_error(stage: TokenFailure, cause: &DomainError) -> (r: DomainError)
    ensures
        stage is Validate ==> (r matches DomainError::ValidationError { message } && message@ == "令牌验证失败: "@ + domain_error_text(*cause)),
        stage is Generate ==> (r matches DomainError::InternalError { message } && message@ == "令牌生成失败: "@ + domain_error_text(*cause)),
        stage is ReadBack ==> (r matches DomainError::InternalError { message } && message@ == "令牌验证失败: "@ + domain_error_text(*cause)),
        stage is Store ==> (r matches DomainError::InternalError { message } && message@ == "保存令牌失败: "@ + domain_error_text(*cause)),
        stage is Revoke ==> (r matches DomainError::InternalError { message } && message@ == "注销令牌失败: "@ + domain_error_text(*cause)),
{
    let text = cause.to_string();
    match stage {
        TokenFailure::Validate => DomainError::ValidationError {
            message: String::from_str("令牌验证失败: ").concat(text.as_str()),
        },
        TokenFailure::Generate => DomainError::InternalError {
            message: String::from_str("令牌生成失败: ").concat(text.as_str()),
        },
        TokenFailure::ReadBack => DomainError::InternalError {
            message: String::from_str("令牌验证失败: ").concat(text.as_str()),
        },
        TokenFailure::Store => DomainError::InternalError {
            message: String::from_str("保存令牌失败: ").concat(text.as_str()),
        },
        TokenFailure::Revoke => DomainError::InternalError {
            message: String::from_str("注销令牌失败: ").concat(text.as_str()),
        },
    }
}

/// Why a sign-in did not get past its form and captcha.
pub enum LoginStartRefusal {
    /// The form breaks these length limits; its captcha was not looked at.
    Form(LoginFormFaults),
    /// The captcha did not match.
    Captcha(DomainError),
}

/// A sign-in whose form and captcha were accepted, and whose captcha is used
/// up; it waits for the user that the form's e-mail address finds.
pub struct LoginAwaitingUser {
    form: LoginRequest,
}

/// A sign-in whose user and password were accepted; it waits for the user's
/// earlier tokens to be revoked.
pub struct LoginAwaitingRevocation {
    user: User,
    user_id: i64,
}

/// A sign-in that may be given a token for its user: it waits for the token
/// to be signed.
pub struct TokenIssue {
    user: User,
    user_id: i64,
}

/// A signed token that waits for its claims to be read back.
pub struct TokenToStore {
    user: User,
    user_id: i64,
    token: String,
}

/// A signed token whose expiry time is known; it waits to be stored.
pub struct TokenStorage {
    user: User,
    user_id: i64,
    token: String,
    expires_at: UtcTime,
}

/// Starts a sign-in: checks the form's limits, then checks its captcha and
/// forgets it, whether it matched or not. A refused form leaves the captchas
/// as they were.
pub fn begin_login(request: LoginRequest, captchas: &mut InMemoryCaptchaRepository) -> (r: Result<
    LoginAwaitingUser,
    LoginStartRefusal,
>)
    ensures
        !login_request_valid(request) ==> final(captchas)@ == old(captchas)@ && (r matches Err(
            LoginStartRefusal::Form(f),
        ) && f == login_form_faults(request)),
        login_request_valid(request) ==> final(captchas)@ == old(captchas)@.remove(
            request.captcha_session_id@,
        ) && (r is Ok <==> captcha_matches(
            old(captchas)@,
            request.captcha_session_id@,
            request.captcha@,
        )),
        login_request_valid(request) && !captcha_matches(
            old(captchas)@,
            request.captcha_session_id@,
            request.captcha@,
        ) ==> r matches Err(LoginStartRefusal::Captcha(_)),
        r matches Ok(w) ==> w.form() == request,
        r matches Err(LoginStartRefusal::Captcha(e)) ==> e matches DomainError::ValidationError {
            message,
        } && message@ == "验证码错误"@,
{
    match request.validate() {
        Err(f) => Err(LoginStartRefusal::Form(f)),
        Ok(()) => match check_login_captcha(
            captchas,
            request.captcha_session_id.as_str(),
            request.captcha.as_str(),
        ) {
            Err(e) => Err(LoginStartRefusal::Captcha(e)),
            Ok(()) => Ok(LoginAwaitingUser { form: request }),
        },
    }
}

impl LoginAwaitingUser {
    /// The accepted form.
    pub closed spec fn form(self) -> LoginRequest {
        self.form
    }

    /// The e-mail address to look the user up by.
    pub fn email(&self) -> (r: &str)
        ensures
            r@ == self.form().email@,
    {
        self.form.email.as_str()
    }

    /// Checks the user found, as `is_login_user_check` says for the form's
    /// password.
    pub fn user_found(self, passwords: &BcryptPasswordService, user: Option<User>) -> (r: Result<
        LoginAwaitingRevocation,
        DomainError,
    >)
        ensures
            r matches Ok(s) ==> is_login_user_check(
                user,
                self.form().password@,
                Ok((s.account(), s.account_id())),
            ),
            r matches Err(e) ==> is_login_user_check(user, self.form().password@, Err(e)),
    {
        match check_login_user(passwords, user, self.form.password.as_str()) {
            Ok((u, id)) => Ok(LoginAwaitingRevocation { user: u, user_id: id }),
            Err(e) => Err(e),
        }
    }
}

impl LoginAwaitingRevocation {
    /// The accepted user.
    pub closed spec fn account(self) -> User {
        self.user
    }

    /// The accepted user's id.
    pub closed spec fn account_id(self) -> i64 {
        self.user_id
    }

    /// The id of the user whose tokens are to be revoked.
    pub fn user_id(&self) -> (r: i64)
        ensures
            r == self.account_id(),
    {
        self.user_id
    }

    /// Goes on once the user's earlier tokens are revoked; an error from
    /// revoking them ends the sign-in with that error.
    pub fn tokens_revoked(self, revoked: Result<(), DomainError>) -> (r: Result<TokenIssue, DomainError>)
        ensures
            revoked matches Err(e) ==> r == Err::<TokenIssue, DomainError>(e),
            revoked is Ok ==> (r matches Ok(t) && t.account() == self.account() && t.account_id()
                == self.account_id()),
    {
        match revoked {
            Err(e) => Err(e),
            Ok(()) => Ok(TokenIssue { user: self.user, user_id: self.user_id }),
        }
    }
}

impl TokenIssue {
    /// The user the token is for.
    pub closed spec fn account(self) -> User {
        self.user
    }

    /// The id the token is for.
    pub closed spec fn account_id(self) -> i64 {
        self.user_id
    }

    /// A token for the user that an OAuth sign-in created or found, looked
    /// up again by its id; a missing user is not found.
    pub fn after_oauth(user: Option<User>, user_id: i64) -> (r: Result<TokenIssue, DomainError>)
        ensures
            match user {
                None => r matches Err(DomainError::NotFound { resource }) && resource@ == "用户"@,
                Some(u) => r matches Ok(t) && t.account() == u && t.account_id() == user_id,
            },
    {
        match found_user(user) {
            Ok(u) => Ok(TokenIssue { user: u, user_id }),
            Err(e) => Err(e),
        }
    }

    /// The id to sign the token for.
    pub fn user_id(&self) -> (r: i64)
        ensures
            r == self.account_id(),
    {
        self.user_id
    }

    /// The user whose name, e-mail address and nick name the token carries.
    pub fn user(&self) -> (r: &User)
        ensures
            *r == self.account(),
    {
        &self.user
    }

    /// Goes on with the signed token; an error from signing is reported as a
    /// failed token generation.
    pub fn token_generated(self, generated: Result<String, DomainError>) -> (r: Result<
        TokenToStore,
        DomainError,
    >)
        ensures
            generated matches Err(e) ==> (r matches Err(DomainError::InternalError { message })
                && message@ == "令牌生成失败: "@ + domain_error_text(e)),
            generated matches Ok(t) ==> (r matches Ok(s) && s.account() == self.account()
                && s.account_id() == self.account_id() && s.issued_token() == t),
    {
        match generated {
            Err(e) => Err(token_error(TokenFailure::Generate, &e)),
            Ok(t) => Ok(TokenToStore { user: self.user, user_id: self.user_id, token: t }),
        }
    }
}

impl TokenToStore {
    /// The user the token is for.
    pub closed spec fn account(self) -> User {
        self.user
    }

    /// The id the token is for.
    pub closed spec fn account_id(self) -> i64 {
        self.user_id
    }

    /// The signed token.
    pub closed spec fn issued_token(self) -> String {
        self.token
    }

    /// The token whose claims are to be read back.
    pub fn token(&self) -> (r: &str)
        ensures
            r@ == self.issued_token()@,
    {
        self.token.as_str()
    }

    /// Goes on with the token's claims as read back: the expiry time is the
    /// instant of `exp`. An error from reading them is reported as a failed
    /// token check, and an expiry that chrono cannot represent as in
    /// `exp_to_time`.
    pub fn claims_read(self, claims: Result<Claims, DomainError>) -> (r: Result<
        TokenStorage,
        DomainError,
    >)
        ensures
            claims matches Err(e) ==> (r matches Err(DomainError::InternalError { message })
                && message@ == "令牌验证失败: "@ + domain_error_text(e)),
            claims matches Ok(c) ==> if chrono_timestamp_valid(c.exp as i64) {
                r matches Ok(s) && s.account() == self.account() && s.account_id()
                    == self.account_id() && s.issued_token() == self.issued_token() && s.expiry()
                    == (UtcTime { secs: c.exp as i64, nanos: 0 })
            } else {
                r matches Err(DomainError::InternalError { message }) && message@
                    == "无法解析过期时间戳: "@ + signed_decimal((c.exp as i64) as int)
            },
    {
        match claims {
            Err(e) => Err(token_error(TokenFailure::ReadBack, &e)),
            Ok(c) => match exp_to_time(c.exp) {
                Err(e) => Err(e),
                Ok(t) => Ok(
                    TokenStorage {
                        user: self.user,
                        user_id: self.user_id,
                        token: self.token,
                        expires_at: t,
                    },
                ),
            },
        }
    }
}

impl TokenStorage {
    /// A token is stored with an expiry time that chrono represents.
    #[verifier::type_invariant]
    closed spec fn expiry_representable(self) -> bool {
        chrono_timestamp_valid(self.expires_at.secs)
    }

    /// The user the token is for.
    pub closed spec fn account(self) -> User {
        self.user
    }

    /// The id the token is for.
    pub closed spec fn account_id(self) -> i64 {
        self.user_id
    }

    /// The signed token.
    pub closed spec fn issued_token(self) -> String {
        self.token
    }

    /// When the token expires.
    pub closed spec fn expiry(self) -> UtcTime {
        self.expires_at
    }

    /// The id to store the token under.
    pub fn user_id(&self) -> (r: i64)
        ensures
            r == self.account_id(),
    {
        self.user_id
    }

    /// The token to store.
    pub fn token(&self) -> (r: &str)
        ensures
            r@ == self.issued_token()@,
    {
        self.token.as_str()
    }

    /// The expiry time to store the token with.
    pub fn expires_at(&self) -> (r: UtcTime)
        ensures
            r == self.expiry(),
    {
        self.expires_at
    }

    /// Ends the sign-in once the token is stored: the answer carries the
    /// token and the seconds it has left at `now_secs`. An error from storing
    /// it is reported as a failed save.
    pub fn stored(self, result: Result<(), DomainError>, now_secs: i64) -> (r: Result<
        LoginResponse,
        DomainError,
    >)
        requires
            chrono_timestamp_valid(now_secs),
        ensures
            result matches Err(e) ==> (r matches Err(DomainError::InternalError { message })
                && message@ == "保存令牌失败: "@ + domain_error_text(e)),
            result is Ok ==> (r matches Ok(resp) && resp.access_token == self.issued_token()
                && resp.token_type@ == "Bearer"@ && resp.expires_in == (if self.expiry().secs
                - now_secs > 0 {
                self.expiry().secs - now_secs
            } else {
                0
            }) && resp.user == user_info_of(self.account())),
    {
        proof {
            use_type_invariant(&self);
        }
        match result {
            Err(e) => Err(token_error(TokenFailure::Store, &e)),
            Ok(()) => {
                let left = remaining_seconds(self.expires_at.secs, now_secs);
                Ok(login_response(self.token, left, self.user))
            },
        }
    }
}

} // verus!
