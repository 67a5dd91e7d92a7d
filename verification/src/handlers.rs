//! The answers of the authentication endpoints: the status a failed login is
//! sent with, the captcha image as a data URL, what an OAuth callback asks
//! for and how its failures are answered, and the answers to a failed OAuth
//! start and a failed logout.
use vstd::prelude::*;

use base64::Engine;

use crate::response::ApiResponse;
use crate::shared::DomainError;
use crate::text::{contains_seq, str_contains};

verus! {

/// The query of a request to start a GitHub sign-in.
#[derive(Debug, Clone)]
pub struct GitHubOAuthStartQuery {
    pub is_extension: Option<bool>,
    pub extension_id: Option<String>,
}

/// The query of a request to start a Google sign-in; it carries nothing.
#[derive(Debug, Clone)]
pub struct GoogleOAuthStartQuery {}

/// A captcha for the client: its image as a data URL, and its session.
#[derive(Debug, Clone)]
pub struct CaptchaResponse {
    pub image_base64: String,
    pub session_id: String,
}

/// The query with which an OAuth provider sends the browser back.
#[derive(Debug, Clone)]
pub struct OAuthCallbackQuery {
    pub code: Option<String>,
    pub error: Option<String>,
}

/// The HTTP status a failed login is sent with: 400 for a refused form or a
/// broken business rule, 404 for a missing user, 401 for failed
/// authentication, 500 for an internal error.
pub open spec fn login_failure_status_of(e: DomainError) -> u16 {
    match e {
        DomainError::ValidationError { .. } => 400,
        DomainError::NotFound { .. } => 404,
        DomainError::BusinessRuleViolation { .. } => 400,
        DomainError::AuthenticationError { .. } => 401,
        DomainError::InternalError { .. } => 500,
    }
}

/// The HTTP status a failed login is sent with.
pub fn login_failure_status(e: &DomainError) -> (r: u16)
    ensures
        r == login_failure_status_of(*e),
{
    match e {
        DomainError::ValidationError { .. } => 400,
        DomainError::NotFound { .. } => 404,
        DomainError::BusinessRuleViolation { .. } => 400,
        DomainError::AuthenticationError { .. } => 401,
        DomainError::InternalError { .. } => 500,
    }
}

/// The character of the standard base64 alphabet for a six-bit value:
/// `A`-`Z`, `a`-`z`, `0`-`9`, `+` and `/`.
pub open spec fn base64_digit(v: int) -> char {
    if v < 26 {
        (65 + v) as char
    } else if v < 52 {
        (97 + v - 26) as char
    } else if v < 62 {
        (48 + v - 52) as char
    } else if v == 62 {
        '+'
    } else {
        '/'
    }
}

/// The standard base64 text of some bytes (RFC 4648, section 4): each group
/// of three bytes is four digits of six bits; a last group of one or two
/// bytes is padded with zero bits and `=` to four characters.
pub open spec fn base64_standard_of(data: Seq<u8>) -> Seq<char>
    decreases data.len(),
{
    if data.len() == 0 {
        Seq::empty()
    } else {
        let x = data[0] as int;
        let y = if data.len() > 1 { data[1] as int } else { 0 };
        let z = if data.len() > 2 { data[2] as int } else { 0 };
        let d0 = base64_digit(x / 4);
        let d1 = base64_digit((x % 4) * 16 + y / 16);
        let d2 = base64_digit((y % 16) * 4 + z / 64);
        let d3 = base64_digit(z % 64);
        if data.len() == 1 {
            seq![d0, d1, '=', '=']
        } else if data.len() == 2 {
            seq![d0, d1, d2, '=']
        } else {
            seq![d0, d1, d2, d3] + base64_standard_of(data.skip(3))
        }
    }
}

/// Calls `encode` of `base64`'s standard engine, which writes the standard
/// alphabet with padding, as `base64_standard_of` says.
#[verifier::external_body]
fn base64_standard(data: &[u8]) -> (r: String)
    ensures
        r@ == base64_standard_of(data@),
{
    base64::engine::general_purpose::STANDARD.encode(data)
}

/// The captcha answer: the PNG image as a base64 data URL, and the session.
pub fn captcha_response(image_data: &[u8], session_id: String) -> (r: CaptchaResponse)
    ensures
        r.image_base64@ == "data:image/png;base64,"@ + base64_standard_of(image_data@),
        r.session_id == session_id,
{
    let encoded = base64_standard(image_data);
    CaptchaResponse {
        image_base64: String::from_str("data:image/png;base64,").concat(encoded.as_str()),
        session_id,
    }
}

/// The OAuth providers.
#[derive(Debug, Clone, Copy, PartialEq, Eq, Structural)]
pub enum OAuthProvider {
    GitHub,
    Google,
}

/// The setup guide shown when GitHub sign-in is not configured.
pub open spec fn github_setup_guide() -> Seq<char> {
    "GitHub OAuth 未正确配置。请按以下步骤设置：\n\n1. 访问 https://github.com/settings/developers\n2. 点击 \"New OAuth App\"\n3. 填写应用信息：\n   - Application name: TiHC Development\n   - Homepage URL: http://localhost:5173\n   - Authorization callback URL: http://127.0.0.1:8080/auth/oauth/github/callback\n4. 创建后，将 Client ID 和 Client Secret 更新到 _config.toml 文件中的 [github_oauth] 部分\n5. 重启服务器\n\n当前配置使用的是演示用的无效凭据。"@
}

/// The setup guide shown when Google sign-in is not configured.
pub open spec fn google_setup_guide() -> Seq<char> {
    "Google OAuth 未正确配置。请按以下步骤设置：\n\n1. 访问 https://console.cloud.google.com/\n2. 创建新项目或选择现有项目\n3. 启用 Google+ API\n4. 创建 OAuth 2.0 客户端 ID：\n   - 应用类型：Web 应用\n   - 授权的重定向 URI: http://127.0.0.1:8080/auth/oauth/google/callback\n5. 将 Client ID 和 Client Secret 更新到 _config.toml 文件中的 [google_oauth] 部分\n6. 重启服务器\n\n当前配置使用的是演示用的无效凭据。"@
}

/// The answer to a failed OAuth start: when the error says the provider is
/// not configured, or names the demo client id, code 400 with the setup
/// guide; otherwise code 503 with the error.
pub fn oauth_start_failure(provider: OAuthProvider, error: &str) -> (r: ApiResponse<()>)
    ensures
        r.data is None,
        (contains_seq(
            error@,
            match provider {
                OAuthProvider::GitHub => "GitHub OAuth not configured"@,
                OAuthProvider::Google => "Google OAuth not configured"@,
            },
        ) || contains_seq(error@, "demo_client_id"@)) ==> r.code == 400 && r.message@ == (
        match provider {
            OAuthProvider::GitHub => github_setup_guide(),
            OAuthProvider::Google => google_setup_guide(),
        }),
        !(contains_seq(
            error@,
            match provider {
                OAuthProvider::GitHub => "GitHub OAuth not configured"@,
                OAuthProvider::Google => "Google OAuth not configured"@,
            },
        ) || contains_seq(error@, "demo_client_id"@)) ==> r.code == 503 && r.message@
            == "OAuth configuration error: "@ + error@,
{
    let not_configured = match provider {
        OAuthProvider::GitHub => str_contains(error, "GitHub OAuth not configured"),
        OAuthProvider::Google => str_contains(error, "Google OAuth not configured"),
    };
    if not_configured || str_contains(error, "demo_client_id") {
        let guide = match provider {
            OAuthProvider::GitHub => String::from_str(
                "GitHub OAuth 未正确配置。请按以下步骤设置：\n\n1. 访问 https://github.com/settings/developers\n2. 点击 \"New OAuth App\"\n3. 填写应用信息：\n   - Application name: TiHC Development\n   - Homepage URL: http://localhost:5173\n   - Authorization callback URL: http://127.0.0.1:8080/auth/oauth/github/callback\n4. 创建后，将 Client ID 和 Client Secret 更新到 _config.toml 文件中的 [github_oauth] 部分\n5. 重启服务器\n\n当前配置使用的是演示用的无效凭据。",
            ),
            OAuthProvider::Google => String::from_str(
                "Google OAuth 未正确配置。请按以下步骤设置：\n\n1. 访问 https://console.cloud.google.com/\n2. 创建新项目或选择现有项目\n3. 启用 Google+ API\n4. 创建 OAuth 2.0 客户端 ID：\n   - 应用类型：Web 应用\n   - 授权的重定向 URI: http://127.0.0.1:8080/auth/oauth/google/callback\n5. 将 Client ID 和 Client Secret 更新到 _config.toml 文件中的 [google_oauth] 部分\n6. 重启服务器\n\n当前配置使用的是演示用的无效凭据。",
            ),
        };
        ApiResponse::<()>::error(400, guide)
    } else {
        ApiResponse::<()>::error(
            503,
            String::from_str("OAuth configuration error: ").concat(error),
        )
    }
}

/// What an OAuth callback asks for: the authorization code to exchange, or
/// an answer that turns it away.
#[derive(Debug)]
pub enum OAuthCallbackStep {
    /// Exchange this code for an access token.
    Exchange { code: String },
    /// Answer with this error.
    Reject { response: ApiResponse<()> },
}

/// What an OAuth callback asks for: an error the provider reported is
/// answered with code 400 and `OAuth error: ` and the error; a missing code
/// with 400 and `Missing authorization code`; otherwise the code is
/// exchanged.
pub fn oauth_callback_step(query: OAuthCallbackQuery) -> (r: OAuthCallbackStep)
    ensures
        match query.error {
            Some(e) => r matches OAuthCallbackStep::Reject { response } && response.code == 400
                && response.message@ == "OAuth error: "@ + e@ && response.data is None,
            None => match query.code {
                None => r matches OAuthCallbackStep::Reject { response } && response.code == 400
                    && response.message@ == "Missing authorization code"@ && response.data is None,
                Some(c) => r matches OAuthCallbackStep::Exchange { code } && code == c,
            },
        },
{
    match query.error {
        Some(e) => {
            return OAuthCallbackStep::Reject {
                response: ApiResponse::<()>::error(
                    400,
                    String::from_str("OAuth error: ").concat(e.as_str()),
                ),
            };
        },
        None => {},
    }
    match query.code {
        Some(code) => OAuthCallbackStep::Exchange { code },
        None => OAuthCallbackStep::Reject {
            response: ApiResponse::<()>::error(400, String::from_str("Missing authorization code")),
        },
    }
}

/// The step of an OAuth callback that failed after the code was accepted.
#[derive(Debug, Clone, Copy, PartialEq, Eq, Structural)]
pub enum OAuthCallbackFailure {
    /// Exchanging the code for an access token.
    TokenExchange,
    /// Fetching the user's profile from the provider.
    UserInfo,
}

/// The answer to a failure after the code was accepted: code 500, with the
/// step's words and the error's text.
pub fn oauth_callback_failure(stage: OAuthCallbackFailure, error: &str) -> (r: ApiResponse<()>)
    ensures
        r.code == 500,
        r.data is None,
        r.message@ == (match stage {
            OAuthCallbackFailure::TokenExchange => "Failed to get access token: "@,
            OAuthCallbackFailure::UserInfo => "Failed to get user info: "@,
        }) + error@,
{
    match stage {
        OAuthCallbackFailure::TokenExchange => ApiResponse::<()>::error(
            500,
            String::from_str("Failed to get access token: ").concat(error),
        ),
        OAuthCallbackFailure::UserInfo => ApiResponse::<()>::error(
            500,
            String::from_str("Failed to get user info: ").concat(error),
        ),
    }
}

/// The answer to a logout whose token could not be revoked: code 500.
pub fn logout_failure() -> (r: ApiResponse<()>)
    ensures
        r.code == 500,
        r.message@ == "注销失败，请稍后重试"@,
        r.data is None,
{
    ApiResponse::<()>::error(500, String::from_str("注销失败，请稍后重试"))
}

} // verus!
