//! Domain events: what happened to a user, and the interfaces of the parts
//! that publish and handle events and of the services around them.
use vstd::prelude::*;

use crate::config::{GitHubOAuthConfig, GoogleOAuthConfig, JwtConfig};
use crate::shared::DomainError;
use crate::text::{i64_decimal, signed_decimal, string_from_chars};
use crate::token::Claims;
use crate::user::UtcTime;

verus! {

/// An event of the domain.
pub trait DomainEvent {
    /// The event's name.
    fn event_name(&self) -> &'static str;

    /// When it happened.
    fn occurred_at(&self) -> UtcTime;

    /// The id of the aggregate it concerns.
    fn aggregate_id(&self) -> String;
}

/// How a user signed in.
#[derive(Debug, Clone, Copy, PartialEq, Eq, Structural)]
pub enum LoginMethod {
    Password,
    GitHubOAuth,
}

/// Something that happened to a user.
#[derive(Debug, Clone)]
pub enum UserEvent {
    /// The user registered.
    UserRegistered { user_id: i64, username: String, email: String, occurred_at: UtcTime },
    /// The user signed in.
    UserLoggedIn {
        user_id: i64,
        username: String,
        login_method: LoginMethod,
        occurred_at: UtcTime,
    },
    /// The user's profile changed.
    UserProfileUpdated { user_id: i64, username: String, occurred_at: UtcTime },
    /// A GitHub account was linked to the user.
    GitHubAccountLinked {
        user_id: i64,
        github_id: u64,
        github_login: String,
        occurred_at: UtcTime,
    },
}

/// The name of a user event: its variant's name.
pub open spec fn user_event_name(e: UserEvent) -> Seq<char> {
    match e {
        UserEvent::UserRegistered { .. } => "UserRegistered"@,
        UserEvent::UserLoggedIn { .. } => "UserLoggedIn"@,
        UserEvent::UserProfileUpdated { .. } => "UserProfileUpdated"@,
        UserEvent::GitHubAccountLinked { .. } => "GitHubAccountLinked"@,
    }
}

/// The user a user event concerns.
pub open spec fn user_event_user(e: UserEvent) -> i64 {
    match e {
        UserEvent::UserRegistered { user_id, .. } => user_id,
        UserEvent::UserLoggedIn { user_id, .. } => user_id,
        UserEvent::UserProfileUpdated { user_id, .. } => user_id,
        UserEvent::GitHubAccountLinked { user_id, .. } => user_id,
    }
}

/// When a user event happened.
pub open spec fn user_event_time(e: UserEvent) -> UtcTime {
    match e {
        UserEvent::UserRegistered { occurred_at, .. } => occurred_at,
        UserEvent::UserLoggedIn { occurred_at, .. } => occurred_at,
        UserEvent::UserProfileUpdated { occurred_at, .. } => occurred_at,
        UserEvent::GitHubAccountLinked { occurred_at, .. } => occurred_at,
    }
}

impl DomainEvent for UserEvent {
    /// The variant's name.
    fn event_name(&self) -> (r: &'static str)
        ensures
            r@ == user_event_name(*self),
    {
        match self {
            UserEvent::UserRegistered { .. } => "UserRegistered",
            UserEvent::UserLoggedIn { .. } => "UserLoggedIn",
            UserEvent::UserProfileUpdated { .. } => "UserProfileUpdated",
            UserEvent::GitHubAccountLinked { .. } => "GitHubAccountLinked",
        }
    }

    /// When the event happened.
    fn occurred_at(&self) -> (r: UtcTime)
        ensures
            r == user_event_time(*self),
    {
        match self {
            UserEvent::UserRegistered { occurred_at, .. } => *occurred_at,
            UserEvent::UserLoggedIn { occurred_at, .. } => *occurred_at,
            UserEvent::UserProfileUpdated { occurred_at, .. } => *occurred_at,
            UserEvent::GitHubAccountLinked { occurred_at, .. } => *occurred_at,
        }
    }

    /// The user's id in decimal.
    fn aggregate_id(&self) -> (r: String)
        ensures
            r@ == signed_decimal(user_event_user(*self) as int),
    {
        let id = match self {
            UserEvent::UserRegistered { user_id, .. } => *user_id,
            UserEvent::UserLoggedIn { user_id, .. } => *user_id,
            UserEvent::UserProfileUpdated { user_id, .. } => *user_id,
            UserEvent::GitHubAccountLinked { user_id, .. } => *user_id,
        };
        string_from_chars(i64_decimal(id).as_slice())
    }
}

/// Handles events of one kind; implemented by the application's handlers.
pub trait DomainEventHandler<T: DomainEvent> {
    /// Handles an event.
    fn handle(&self, event: &T) -> Result<(), DomainError>;
}

/// A service of the application layer.
pub trait ApplicationService {
    /// The service's name.
    fn service_name(&self) -> String;
}

/// Signs and checks access tokens; implemented where the signing library
/// and the token format live.
pub trait JwtService {
    /// A signed token for the user.
    fn generate_token(
        &self,
        user_id: i64,
        username: String,
        email: String,
        nick_name: Option<String>,
    ) -> Result<String, DomainError>;

    /// The claims of a token whose signature and expiry check.
    fn validate_token(&self, token: &str) -> Result<Claims, DomainError>;
}

/// Where the OAuth clients' and token signing settings are read from.
pub trait ConfigRepository {
    /// The GitHub client settings, if GitHub sign-in is configured.
    fn get_github_oauth_config(&self) -> Result<Option<GitHubOAuthConfig>, String>;

    /// The Google client settings, if Google sign-in is configured.
    fn get_google_oauth_config(&self) -> Result<Option<GoogleOAuthConfig>, String>;

    /// The token signing settings.
    fn get_jwt_config(&self) -> Result<JwtConfig, String>;
}

} // verus!
