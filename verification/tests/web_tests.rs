use tihc::chat::{
    chat_reply_id, latest_user_message, stream_request_ok, stream_session_id, AiChatChunk,
    ChatReplyBuilder, IncomingMessage, StreamChatQuery,
};
use tihc::config::{GitHubOAuthConfig, GoogleOAuthConfig};
use tihc::handlers::{
    captcha_response, login_failure_status, logout_failure, oauth_callback_failure,
    oauth_callback_step, oauth_start_failure, OAuthCallbackFailure, OAuthCallbackQuery,
    OAuthCallbackStep, OAuthProvider,
};
use tihc::middleware::{
    admit_request, bearer_token, claims_user_id, needs_token, query_token, request_token,
    AuthRejection,
};
use tihc::multiplexer::{detect_protocol, Multiplexer, ProtocolKind};
use tihc::oauth::OAuthService;
use tihc::shared::DomainError;
use tihc::static_files::{asset_path, static_reply, StaticReply};
use tihc::token::Claims;
use std::sync::Arc;

#[test]
fn bearer_tokens() {
    assert_eq!(bearer_token("Bearer abc.def"), Some("abc.def".to_string()));
    assert_eq!(bearer_token("Bearer "), Some(String::new()));
    assert_eq!(bearer_token("Basic xyz"), None);
    assert_eq!(bearer_token("bearer abc"), None);
}

#[test]
fn query_tokens() {
    assert_eq!(query_token("a=1&token=xyz&b=2"), Some("xyz".to_string()));
    assert_eq!(query_token("token=a%20b"), Some("a b".to_string()));
    assert_eq!(query_token("token=&token=second"), Some("second".to_string()));
    assert_eq!(query_token("tokenx=1&token"), None);
    assert_eq!(query_token("token=%FF&token=ok"), Some("ok".to_string()));
    assert_eq!(query_token("t=a=b&token=c=d"), Some("c=d".to_string()));
    assert_eq!(query_token(""), None);
}

#[test]
fn request_tokens_prefer_the_header() {
    assert_eq!(request_token(Some("Bearer h"), Some("token=q")), Some("h".to_string()));
    assert_eq!(request_token(Some("Basic h"), Some("token=q")), Some("q".to_string()));
    assert_eq!(request_token(None, Some("token=q")), Some("q".to_string()));
    assert_eq!(request_token(None, None), None);
}

#[test]
fn request_admission() {
    assert!(!needs_token("OPTIONS"));
    assert!(needs_token("GET"));
    assert_eq!(admit_request::<()>(false, Ok(true)), Err(AuthRejection::InvalidToken));
    assert_eq!(admit_request::<()>(true, Ok(true)), Ok(()));
    assert_eq!(admit_request::<()>(true, Ok(false)), Err(AuthRejection::RevokedToken));
    assert_eq!(admit_request::<()>(true, Err(())), Err(AuthRejection::RevokedToken));
    assert_eq!(AuthRejection::MissingToken.message(), "Missing or invalid authorization token");
    assert_eq!(AuthRejection::InvalidToken.message(), "Invalid or expired token");
    assert_eq!(AuthRejection::RevokedToken.message(), "Token revoked or expired");
    assert_eq!(AuthRejection::RevokedToken.status(), 401);
}

#[test]
fn claims_subjects() {
    let mut c = Claims {
        sub: "42".to_string(),
        username: "u".to_string(),
        email: "e".to_string(),
        nick_name: None,
        exp: 0,
        iat: 0,
        jti: "j".to_string(),
    };
    assert_eq!(claims_user_id(&c), 42);
    c.sub = "abc".to_string();
    assert_eq!(claims_user_id(&c), 0);
}

fn github_config(client_id: &str) -> GitHubOAuthConfig {
    GitHubOAuthConfig {
        client_id: client_id.to_string(),
        client_secret: "secret".to_string(),
        redirect_uri: "http://127.0.0.1:8080/auth/oauth/github/callback".to_string(),
    }
}

#[test]
fn github_start_checks() {
    let svc = OAuthService::new(Arc::new(()));
    assert_eq!(
        svc.generate_github_auth_url(None, None, false, None).unwrap_err(),
        "GitHub OAuth not configured"
    );
    for id in ["demo_client_id", "your_github_client_id", "YOUR_GITHUB_CLIENT_ID_HERE", "my_your_id"] {
        assert_eq!(
            svc.generate_github_auth_url(Some(github_config(id)), None, false, None).unwrap_err(),
            "GitHub OAuth not properly configured. Please set real client_id and client_secret in _config.toml"
        );
    }
    assert_eq!(
        svc.generate_github_auth_url(Some(github_config("Iv1.real")), None, true, None).unwrap_err(),
        "extension_id required for extension OAuth"
    );
}

#[test]
fn github_start_url() {
    let svc = OAuthService::new(Arc::new(()));
    let r = svc
        .generate_github_auth_url(Some(github_config("Iv1.real")), Some("st4te".to_string()), false, None)
        .unwrap();
    assert_eq!(r.state, "st4te");
    assert!(r.authorize_url.starts_with("https://github.com/login/oauth/authorize?"));
    assert!(r.authorize_url.contains("client_id=Iv1.real"));
    assert!(r.authorize_url.contains("state=st4te"));
    assert!(r.authorize_url.contains("scope=user%3Aemail"));
    assert!(r.authorize_url.contains("redirect_uri=http%3A%2F%2F127.0.0.1%3A8080%2Fauth%2Foauth%2Fgithub%2Fcallback"));

    let ext = svc
        .generate_github_auth_url(Some(github_config("Iv1.real")), None, true, Some("abcdef".to_string()))
        .unwrap();
    assert!(!ext.state.is_empty());
    assert!(ext.authorize_url.contains("redirect_uri=https%3A%2F%2Fabcdef.chromiumapp.org%2F"));
}

#[test]
fn google_start() {
    let svc = OAuthService::new(Arc::new(()));
    assert_eq!(svc.generate_google_auth_url(None, None).unwrap_err(), "Google OAuth not configured");
    let cfg = GoogleOAuthConfig {
        client_id: "123.apps.googleusercontent.com".to_string(),
        client_secret: "s".to_string(),
        redirect_uri: "http://localhost/cb".to_string(),
    };
    let r = svc.generate_google_auth_url(Some(cfg), Some("xyz".to_string())).unwrap();
    assert_eq!(r.state, "xyz");
    assert!(r.authorize_url.starts_with("https://accounts.google.com/o/oauth2/v2/auth?"));
    assert!(r.authorize_url.contains("scope=openid+email+profile"));
    let placeholder = GoogleOAuthConfig {
        client_id: "YOUR_GOOGLE_CLIENT_ID_HERE".to_string(),
        client_secret: "s".to_string(),
        redirect_uri: "http://localhost/cb".to_string(),
    };
    assert!(svc.generate_google_auth_url(Some(placeholder), None).unwrap_err().contains("not properly configured"));
}

#[test]
fn handler_answers() {
    assert_eq!(login_failure_status(&DomainError::ValidationError { message: String::new() }), 400);
    assert_eq!(login_failure_status(&DomainError::NotFound { resource: String::new() }), 404);
    assert_eq!(login_failure_status(&DomainError::AuthenticationError { message: String::new() }), 401);
    assert_eq!(login_failure_status(&DomainError::InternalError { message: String::new() }), 500);

    let c = captcha_response(b"hi", "sess".to_string());
    assert_eq!(c.image_base64, "data:image/png;base64,aGk=");
    assert_eq!(c.session_id, "sess");

    let guide = oauth_start_failure(OAuthProvider::GitHub, "GitHub OAuth not configured");
    assert_eq!(guide.code, 400);
    assert!(guide.message.starts_with("GitHub OAuth 未正确配置"));
    let other = oauth_start_failure(OAuthProvider::GitHub, "GitHub OAuth not properly configured.");
    assert_eq!(other.code, 503);
    assert_eq!(other.message, "OAuth configuration error: GitHub OAuth not properly configured.");
    let g = oauth_start_failure(OAuthProvider::Google, "uses demo_client_id");
    assert_eq!(g.code, 400);
    assert!(g.message.starts_with("Google OAuth 未正确配置"));

    match oauth_callback_step(OAuthCallbackQuery { code: Some("c".into()), error: Some("denied".into()) }) {
        OAuthCallbackStep::Reject { response } => {
            assert_eq!(response.code, 400);
            assert_eq!(response.message, "OAuth error: denied");
        }
        other => panic!("unexpected {:?}", other),
    }
    match oauth_callback_step(OAuthCallbackQuery { code: None, error: None }) {
        OAuthCallbackStep::Reject { response } => assert_eq!(response.message, "Missing authorization code"),
        other => panic!("unexpected {:?}", other),
    }
    match oauth_callback_step(OAuthCallbackQuery { code: Some("c0de".into()), error: None }) {
        OAuthCallbackStep::Exchange { code } => assert_eq!(code, "c0de"),
        other => panic!("unexpected {:?}", other),
    }
    let f = oauth_callback_failure(OAuthCallbackFailure::UserInfo, "timeout");
    assert_eq!(f.code, 500);
    assert_eq!(f.message, "Failed to get user info: timeout");
    assert_eq!(logout_failure().message, "注销失败，请稍后重试");
}

#[test]
fn static_paths() {
    assert_eq!(asset_path("/"), "index.html");
    assert_eq!(asset_path(""), "index.html");
    assert_eq!(asset_path("//assets/app.js"), "assets/app.js");
    match static_reply("/assets/app.js", true, true) {
        StaticReply::File { path, content_type } => {
            assert_eq!(path, "assets/app.js");
            assert!(content_type.contains("javascript"));
        }
        other => panic!("unexpected {:?}", other),
    }
    match static_reply("/LICENSE", true, true) {
        StaticReply::File { content_type, .. } => assert_eq!(content_type, "application/octet-stream"),
        other => panic!("unexpected {:?}", other),
    }
    assert!(matches!(static_reply("/missing", false, true), StaticReply::Index));
    assert!(matches!(static_reply("/missing", false, false), StaticReply::NotFound));
}

fn chunk(session: Option<&str>, chat: Option<&str>, text: &str, finished: bool) -> AiChatChunk {
    AiChatChunk {
        session_id: session.map(|s| s.to_string()),
        chat_id: chat.map(|s| s.to_string()),
        text: text.to_string(),
        finished,
    }
}

#[test]
fn chat_reply_is_put_together() {
    let mut b = ChatReplyBuilder::new("s0".to_string());
    assert!(!b.absorb(chunk(None, Some("c1"), "Hel", false)));
    assert!(!b.absorb(chunk(Some("s1"), None, "lo", false)));
    assert!(b.absorb(chunk(None, None, "!", true)));
    let r = b.finish();
    assert_eq!(r.text, "Hello!");
    assert_eq!(r.chat_id.as_deref(), Some("c1"));
    assert_eq!(r.session_id, "s1");
    assert!(r.finished);
    assert!(r.error.is_none());

    let empty = ChatReplyBuilder::new("s9".to_string()).finish();
    assert_eq!(empty.session_id, "s9");
    assert_eq!(empty.text, "");
}

#[test]
fn chat_checks_and_texts() {
    assert!(stream_request_ok(&StreamChatQuery { messages: " hi ".into(), user_id: Some(1) }));
    assert!(!stream_request_ok(&StreamChatQuery { messages: "  ".into(), user_id: Some(1) }));
    assert!(!stream_request_ok(&StreamChatQuery { messages: "hi".into(), user_id: None }));

    let msgs = vec![
        IncomingMessage { role: "user".into(), content: " first ".into() },
        IncomingMessage { role: "USER".into(), content: "  latest  ".into() },
        IncomingMessage { role: "assistant".into(), content: "reply".into() },
    ];
    assert_eq!(latest_user_message(&msgs), "latest");
    assert_eq!(latest_user_message(&vec![]), "你好");
    let none = vec![IncomingMessage { role: "system".into(), content: "x".into() }];
    assert_eq!(latest_user_message(&none), "你好");

    assert_eq!(stream_session_id(1700000000), "stream_session_1700000000");
    assert_eq!(chat_reply_id(-5), "chat_-5");
}

#[test]
fn multiplexer_routes_by_protocol() {
    assert_eq!(detect_protocol(b"GET / HTTP/1.1"), ProtocolKind::Http);
    assert_eq!(detect_protocol(b"RMCP-SSE..."), ProtocolKind::RmcpSse);
    assert_eq!(detect_protocol(b"RMCP-STREAM"), ProtocolKind::RmcpStreamableHttp);
    assert_eq!(detect_protocol(b"\x00\x01"), ProtocolKind::CustomBinary);

    let mut m: Multiplexer<&str> = Multiplexer::new();
    assert!(m.dispatch(b"GET /").is_none());
    m.register_handler(ProtocolKind::Http, "http-a");
    m.register_handler(ProtocolKind::RmcpSse, "sse");
    m.register_handler(ProtocolKind::Http, "http-b");
    assert_eq!(m.dispatch(b"POST /x"), Some(&"http-b"));
    assert_eq!(m.handler_for(ProtocolKind::RmcpSse), Some(&"sse"));
    assert_eq!(m.handler_for(ProtocolKind::CustomBinary), None);
}

#[test]
fn percent_decoding_of_tokens() {
    assert_eq!(query_token("token=a+b%2"), Some("a+b%2".to_string()));
    assert_eq!(query_token("token=%4%41%zz"), Some("%4A%zz".to_string()));
    assert_eq!(query_token("token=%E4%BD%A0x"), Some("你x".to_string()));
    assert_eq!(query_token("token=%e4%bd%a0"), Some("你".to_string()));
}

#[test]
fn captcha_images_in_base64() {
    assert_eq!(captcha_response(b"Man", "s".to_string()).image_base64, "data:image/png;base64,TWFu");
    assert_eq!(captcha_response(b"hello", "s".to_string()).image_base64, "data:image/png;base64,aGVsbG8=");
    assert_eq!(captcha_response(&[0xff, 0xfe, 0x3e, 0x00], "s".to_string()).image_base64, "data:image/png;base64,//4+AA==");
    assert_eq!(captcha_response(b"", "s".to_string()).image_base64, "data:image/png;base64,");
}
