//! The start of an OAuth sign-in with GitHub or Google: the checks on the
//! configured client, the redirect address, and the authorization URL that
//! the `oauth2` crate builds.
use vstd::prelude::*;

use std::sync::Arc;

use oauth2::basic::BasicClient;
use oauth2::{AuthUrl, ClientId, CsrfToken, RedirectUrl, Scope};

use crate::config::{GitHubOAuthConfig, GoogleOAuthConfig};
use crate::text::{contains_seq, has_prefix, str_contains, str_eq, str_starts_with};

verus! {

/// The authorization URL that `oauth2`'s basic client builds for an
/// authorization endpoint, a client id, a redirect address, scopes and a
/// state.
pub uninterp spec fn oauth_authorize_url_of(
    auth_endpoint: Seq<char>,
    client_id: Seq<char>,
    redirect_uri: Seq<char>,
    scopes: Seq<Seq<char>>,
    state: Seq<char>,
) -> Seq<char>;

/// Whether `url::Url::parse` accepts a text, as `oauth2`'s `AuthUrl::new`
/// and `RedirectUrl::new` ask it to.
pub uninterp spec fn url_parses(s: Seq<char>) -> bool;

/// Builds an authorization request with `oauth2`'s `BasicClient` for the
/// given state and returns its URL and state. The contract names the URL,
/// which the endpoint, the client id, the redirect address, the scopes and
/// the state decide; the state comes back as given. The client secret and
/// token endpoint play no part in this URL and are not set. The call fails
/// exactly when one of the two addresses does not parse (`AuthUrl::new` and
/// `RedirectUrl::new` are the only steps that can fail), with the parser's
/// message, whose text is not stated.
#[verifier::external_body]
fn oauth_authorize_url(
    auth_endpoint: &str,
    client_id: &str,
    redirect_uri: &str,
    scopes: &Vec<String>,
    state: &str,
) -> (r: Result<(String, String), String>)
    ensures
        r matches Ok(p) ==> p.0@ == oauth_authorize_url_of(
            auth_endpoint@,
            client_id@,
            redirect_uri@,
            scopes.deep_view(),
            p.1@,
        ) && p.1@ == state@,
        (r is Ok) == (url_parses(auth_endpoint@) && url_parses(redirect_uri@)),
{
    let auth = AuthUrl::new(auth_endpoint.to_string()).map_err(|e| e.to_string())?;
    let redirect = RedirectUrl::new(redirect_uri.to_string()).map_err(|e| e.to_string())?;
    let client = BasicClient::new(ClientId::new(client_id.to_string())).set_auth_uri(auth)
        .set_redirect_uri(redirect);
    let token = CsrfToken::new(state.to_string());
    let (url, csrf) = client.authorize_url(|| token).add_scopes(
        scopes.iter().cloned().map(Scope::new),
    ).url();
    Ok((url.to_string(), csrf.secret().clone()))
}

/// Builds an authorization request as `oauth_authorize_url` does, with a
/// random state from `CsrfToken::new_random`. The state is not claimed; the
/// URL is the named one for the state that came back. It fails exactly when
/// one of the two addresses does not parse.
#[verifier::external_body]
fn oauth_authorize_url_random_state(
    auth_endpoint: &str,
    client_id: &str,
    redirect_uri: &str,
    scopes: &Vec<String>,
) -> (r: Result<(String, String), String>)
    ensures
        r matches Ok(p) ==> p.0@ == oauth_authorize_url_of(
            auth_endpoint@,
            client_id@,
            redirect_uri@,
            scopes.deep_view(),
            p.1@,
        ),
        (r is Ok) == (url_parses(auth_endpoint@) && url_parses(redirect_uri@)),
{
    let auth = AuthUrl::new(auth_endpoint.to_string()).map_err(|e| e.to_string())?;
    let redirect = RedirectUrl::new(redirect_uri.to_string()).map_err(|e| e.to_string())?;
    let client = BasicClient::new(ClientId::new(client_id.to_string())).set_auth_uri(auth)
        .set_redirect_uri(redirect);
    let (url, csrf) = client.authorize_url(CsrfToken::new_random).add_scopes(
        scopes.iter().cloned().map(Scope::new),
    ).url();
    Ok((url.to_string(), csrf.secret().clone()))
}

/// GitHub's authorization endpoint.
pub open spec fn github_authorize_endpoint() -> Seq<char> {
    "https://github.com/login/oauth/authorize"@
}

/// Google's authorization endpoint.
pub open spec fn google_authorize_endpoint() -> Seq<char> {
    "https://accounts.google.com/o/oauth2/v2/auth"@
}

/// The scopes asked of GitHub.
pub open spec fn github_scopes() -> Seq<Seq<char>> {
    seq!["user:email"@]
}

/// The scopes asked of Google.
pub open spec fn google_scopes() -> Seq<Seq<char>> {
    seq!["openid"@, "email"@, "profile"@]
}

/// Whether a client id is a placeholder rather than a real one: it starts
/// with `demo_`, is one of the two sample ids, or holds `your_` or `YOUR_`.
pub open spec fn placeholder_client_id(id: Seq<char>, sample: Seq<char>, sample_upper: Seq<char>) -> bool {
    ||| has_prefix(id, "demo_"@)
    ||| id == sample
    ||| id == sample_upper
    ||| contains_seq(id, "your_"@)
    ||| contains_seq(id, "YOUR_"@)
}

fn is_placeholder_client_id(id: &str, sample: &str, sample_upper: &str) -> (b: bool)
    ensures
        b == placeholder_client_id(id@, sample@, sample_upper@),
{
    str_starts_with(id, "demo_") || str_eq(id, sample) || str_eq(id, sample_upper) || str_contains(
        id,
        "your_",
    ) || str_contains(id, "YOUR_")
}

/// The address GitHub sends the browser back to: the configured one, or for
/// the browser extension the extension's `chromiumapp.org` address.
pub open spec fn github_redirect(config_redirect: Seq<char>, is_extension: bool, extension_id: Seq<char>) -> Seq<char> {
    if is_extension {
        "https://"@ + extension_id + ".chromiumapp.org/"@
    } else {
        config_redirect
    }
}

/// The start of a GitHub sign-in: where to send the browser, and the state
/// to expect back.
#[derive(Debug, Clone)]
pub struct GitHubOAuthStartResponse {
    pub authorize_url: String,
    pub state: String,
}

/// The start of a Google sign-in: where to send the browser, and the state
/// to expect back.
#[derive(Debug, Clone)]
pub struct GoogleOAuthStartResponse {
    pub authorize_url: String,
    pub state: String,
}

/// Starts OAuth sign-ins with the client settings that the configuration
/// service holds.
pub struct OAuthService<C> {
    config_service: Arc<C>,
}

fn scope_list1(a: &str) -> (v: Vec<String>)
    ensures
        v.deep_view() == seq![a@],
{
    let mut v: Vec<String> = Vec::new();
    v.push(String::from_str(a));
    proof {
        assert(v.deep_view() =~= seq![a@]);
    }
    v
}

fn scope_list3(a: &str, b: &str, c: &str) -> (v: Vec<String>)
    ensures
        v.deep_view() == seq![a@, b@, c@],
{
    let mut v: Vec<String> = Vec::new();
    v.push(String::from_str(a));
    v.push(String::from_str(b));
    v.push(String::from_str(c));
    proof {
        assert(v.deep_view() =~= seq![a@, b@, c@]);
    }
    v
}

impl<C> OAuthService<C> {
    /// A service over the given configuration service.
    pub fn new(config_service: Arc<C>) -> (r: Self)
        ensures
            r.config_service() == config_service,
    {
        OAuthService { config_service }
    }

    /// The configuration service.
    pub closed spec fn config_service(&self) -> Arc<C> {
        self.config_service
    }

    /// The GitHub authorization URL for the configured client, which the
    /// configuration service gave as `config`. Refused when GitHub is not
    /// configured, when the client id is a placeholder, and when the browser
    /// extension asks without its id; otherwise the URL is the one `oauth2`
    /// builds for scope `user:email` and the redirect address, with the
    /// custom state where one is given.
    pub fn generate_github_auth_url(
        &self,
        config: Option<GitHubOAuthConfig>,
        custom_state: Option<String>,
        is_extension: bool,
        extension_id: Option<String>,
    ) -> (r: Result<GitHubOAuthStartResponse, String>)
        ensures
            match config {
                None => r matches Err(m) && m@ == "GitHub OAuth not configured"@,
                Some(c) => if placeholder_client_id(
                    c.client_id@,
                    "your_github_client_id"@,
                    "YOUR_GITHUB_CLIENT_ID_HERE"@,
                ) {
                    r matches Err(m) && m@
                        == "GitHub OAuth not properly configured. Please set real client_id and client_secret in _config.toml"@
                } else if is_extension && extension_id is None {
                    r matches Err(m) && m@ == "extension_id required for extension OAuth"@
                } else {
                    &&& (url_parses(github_authorize_endpoint()) && url_parses(
                        github_redirect(
                            c.redirect_uri@,
                            is_extension,
                            match extension_id {
                                Some(e) => e@,
                                None => Seq::empty(),
                            },
                        ),
                    ) <==> r is Ok)
                    &&& (r matches Ok(resp) ==> {
                        &&& resp.authorize_url@ == oauth_authorize_url_of(
                            github_authorize_endpoint(),
                            c.client_id@,
                            github_redirect(
                                c.redirect_uri@,
                                is_extension,
                                match extension_id {
                                    Some(e) => e@,
                                    None => Seq::empty(),
                                },
                            ),
                            github_scopes(),
                            resp.state@,
                        )
                        &&& custom_state matches Some(s) ==> resp.state@ == s@
                    })
                },
            },
    {
        let config = match config {
            Some(c) => c,
            None => {
                return Err(String::from_str("GitHub OAuth not configured"));
            },
        };
        if is_placeholder_client_id(
            config.client_id.as_str(),
            "your_github_client_id",
            "YOUR_GITHUB_CLIENT_ID_HERE",
        ) {
            return Err(
                String::from_str(
                    "GitHub OAuth not properly configured. Please set real client_id and client_secret in _config.toml",
                ),
            );
        }
        let redirect_uri = if is_extension {
            match &extension_id {
                Some(ext_id) => String::from_str("https://").concat(ext_id.as_str()).concat(
                    ".chromiumapp.org/",
                ),
                None => {
                    return Err(String::from_str("extension_id required for extension OAuth"));
                },
            }
        } else {
            config.redirect_uri.clone()
        };
        let scopes = scope_list1("user:email");
        let endpoint = "https://github.com/login/oauth/authorize";
        proof {
            assert(endpoint@ == github_authorize_endpoint());
        }
        let built = match custom_state {
            Some(s) => oauth_authorize_url(
                endpoint,
                config.client_id.as_str(),
                redirect_uri.as_str(),
                &scopes,
                s.as_str(),
            ),
            None => oauth_authorize_url_random_state(
                endpoint,
                config.client_id.as_str(),
                redirect_uri.as_str(),
                &scopes,
            ),
        };
        match built {
            Ok(p) => Ok(GitHubOAuthStartResponse { authorize_url: p.0, state: p.1 }),
            Err(m) => Err(m),
        }
    }

    /// The Google authorization URL for the configured client, which the
    /// configuration service gave as `config`. Refused when Google is not
    /// configured and when the client id is a placeholder; otherwise the URL
    /// is the one `oauth2` builds for scopes `openid`, `email` and `profile`
    /// and the configured redirect address, with the custom state where one
    /// is given.
    pub fn generate_google_auth_url(
        &self,
        config: Option<GoogleOAuthConfig>,
        custom_state: Option<String>,
    ) -> (r: Result<GoogleOAuthStartResponse, String>)
        ensures
            match config {
                None => r matches Err(m) && m@ == "Google OAuth not configured"@,
                Some(c) => if placeholder_client_id(
                    c.client_id@,
                    "your_google_client_id"@,
                    "YOUR_GOOGLE_CLIENT_ID_HERE"@,
                ) {
                    r matches Err(m) && m@
                        == "Google OAuth not properly configured. Please set real client_id and client_secret in _config.toml"@
                } else {
                    &&& (url_parses(google_authorize_endpoint()) && url_parses(c.redirect_uri@) <==> r is Ok)
                    &&& (r matches Ok(resp) ==> {
                        &&& resp.authorize_url@ == oauth_authorize_url_of(
                            google_authorize_endpoint(),
                            c.client_id@,
                            c.redirect_uri@,
                            google_scopes(),
                            resp.state@,
                        )
                        &&& custom_state matches Some(s) ==> resp.state@ == s@
                    })
                },
            },
    {
        let config = match config {
            Some(c) => c,
            None => {
                return Err(String::from_str("Google OAuth not configured"));
            },
        };
        if is_placeholder_client_id(
            config.client_id.as_str(),
            "your_google_client_id",
            "YOUR_GOOGLE_CLIENT_ID_HERE",
        ) {
            return Err(
                String::from_str(
                    "Google OAuth not properly configured. Please set real client_id and client_secret in _config.toml",
                ),
            );
        }
        let scopes = scope_list3("openid", "email", "profile");
        let endpoint = "https://accounts.google.com/o/oauth2/v2/auth";
        proof {
            assert(endpoint@ == google_authorize_endpoint());
        }
        let built = match custom_state {
            Some(s) => oauth_authorize_url(
                endpoint,
                config.client_id.as_str(),
                config.redirect_uri.as_str(),
                &scopes,
                s.as_str(),
            ),
            None => oauth_authorize_url_random_state(
                endpoint,
                config.client_id.as_str(),
                config.redirect_uri.as_str(),
                &scopes,
            ),
        };
        match built {
            Ok(p) => Ok(GoogleOAuthStartResponse { authorize_url: p.0, state: p.1 }),
            Err(m) => Err(m),
        }
    }
}

} // verus!
