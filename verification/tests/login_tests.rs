use tihc::captcha::InMemoryCaptchaRepository;
use tihc::login::{
    begin_login, check_login_captcha, check_login_user, found_user, found_user_info,
    login_form_refusal, login_response, token_error, token_expiry, LoginFormFaults, LoginRequest,
    LoginStartRefusal, TokenFailure, TokenIssue,
};
use tihc::passwords::{BcryptPasswordService, PasswordService};
use tihc::shared::{AuthErrorMapper, DomainError};
use tihc::token::Claims;
use tihc::user::User;

fn request(email: &str, password: &str, captcha: &str) -> LoginRequest {
    LoginRequest {
        email: email.to_string(),
        password: password.to_string(),
        captcha: captcha.to_string(),
        captcha_session_id: "s1".to_string(),
    }
}

fn user_with_password(svc: &BcryptPasswordService, password: &str) -> User {
    let mut u = User::new(
        "carol".to_string(),
        svc.hash_password(password).unwrap(),
        "carol@example.com".to_string(),
        Some("Carol".to_string()),
        None,
    )
    .unwrap();
    u.id = Some(21);
    u
}

#[test]
fn login_form_limits() {
    assert!(request("a@b.c", "pw", "abcd").validate().is_ok());
    assert!(request("a@b.c", "pw", "验证码四").validate().is_ok());
    assert_eq!(
        request("", "pw", "abcd").validate(),
        Err(LoginFormFaults { email: true, password: false, captcha: false })
    );
    assert_eq!(
        request("", "", "abc").validate(),
        Err(LoginFormFaults { email: true, password: true, captcha: true })
    );
    assert!(request("a@b.c", "pw", "abc").validate().is_err());
    assert!(request("a@b.c", &"p".repeat(51), "abcd").validate().is_err());
    assert!(request("a@b.c", &"p".repeat(50), "abcd").validate().is_ok());
}

#[test]
fn login_form_refusal_message() {
    match login_form_refusal("ValidationErrors({})") {
        DomainError::ValidationError { message } => assert_eq!(message, "输入验证失败: ValidationErrors({})"),
        other => panic!("unexpected {:?}", other),
    }
}

fn claims_expiring(exp: usize) -> Claims {
    Claims {
        sub: "21".to_string(),
        username: "carol".to_string(),
        email: "carol@example.com".to_string(),
        nick_name: None,
        exp,
        iat: 0,
        jti: "j".to_string(),
    }
}

#[test]
fn sign_in_steps_in_order() {
    let svc = BcryptPasswordService::new();
    let mut repo = InMemoryCaptchaRepository::new();
    repo.save_at("s1", "abcd", 100);
    let waiting = match begin_login(request("carol@example.com", "right", "ABCD"), &mut repo) {
        Ok(w) => w,
        Err(_) => panic!("refused"),
    };
    assert!(!repo.validate("s1", "abcd"));
    assert_eq!(waiting.email(), "carol@example.com");
    let revoking = match waiting.user_found(&svc, Some(user_with_password(&svc, "right"))) {
        Ok(r) => r,
        Err(e) => panic!("unexpected {:?}", e),
    };
    assert_eq!(revoking.user_id(), 21);
    let issue = match revoking.tokens_revoked(Ok(())) {
        Ok(i) => i,
        Err(e) => panic!("unexpected {:?}", e),
    };
    assert_eq!(issue.user_id(), 21);
    assert_eq!(issue.user().username, "carol");
    let to_store = match issue.token_generated(Ok("tok".to_string())) {
        Ok(t) => t,
        Err(e) => panic!("unexpected {:?}", e),
    };
    assert_eq!(to_store.token(), "tok");
    let storage = match to_store.claims_read(Ok(claims_expiring(1_700_000_100))) {
        Ok(s) => s,
        Err(e) => panic!("unexpected {:?}", e),
    };
    assert_eq!(storage.user_id(), 21);
    assert_eq!(storage.token(), "tok");
    assert_eq!(storage.expires_at().secs, 1_700_000_100);
    let answer = storage.stored(Ok(()), 1_700_000_000).unwrap();
    assert_eq!(answer.access_token, "tok");
    assert_eq!(answer.token_type, "Bearer");
    assert_eq!(answer.expires_in, 100);
    assert_eq!(answer.user.username, "carol");
}

#[test]
fn sign_in_refusals() {
    let svc = BcryptPasswordService::new();
    let mut repo = InMemoryCaptchaRepository::new();
    repo.save_at("s1", "abcd", 100);
    match begin_login(request("", "right", "abcd"), &mut repo) {
        Err(LoginStartRefusal::Form(f)) => assert!(f.email && !f.password && !f.captcha),
        _ => panic!("form accepted"),
    }
    assert!(repo.validate("s1", "abcd"));
    match begin_login(request("carol@example.com", "right", "wxyz"), &mut repo) {
        Err(LoginStartRefusal::Captcha(DomainError::ValidationError { message })) => assert_eq!(message, "验证码错误"),
        _ => panic!("captcha accepted"),
    }
    assert!(!repo.validate("s1", "abcd"));

    repo.save_at("s1", "abcd", 100);
    let waiting = match begin_login(request("carol@example.com", "wrong", "abcd"), &mut repo) {
        Ok(w) => w,
        Err(_) => panic!("refused"),
    };
    match waiting.user_found(&svc, Some(user_with_password(&svc, "right"))) {
        Err(DomainError::ValidationError { message }) => assert_eq!(message, "邮箱或密码错误"),
        _ => panic!("password accepted"),
    }

    let down = DomainError::InternalError { message: "db down".to_string() };
    let revoking = {
        repo.save_at("s1", "abcd", 100);
        let w = match begin_login(request("carol@example.com", "right", "abcd"), &mut repo) {
            Ok(w) => w,
            Err(_) => panic!("refused"),
        };
        match w.user_found(&svc, Some(user_with_password(&svc, "right"))) {
            Ok(r) => r,
            Err(e) => panic!("unexpected {:?}", e),
        }
    };
    match revoking.tokens_revoked(Err(down.clone())) {
        Err(DomainError::InternalError { message }) => assert_eq!(message, "db down"),
        _ => panic!("revocation failure passed over"),
    }

    match TokenIssue::after_oauth(None, 5) {
        Err(DomainError::NotFound { resource }) => assert_eq!(resource, "用户"),
        _ => panic!("missing user accepted"),
    }
    let issue = match TokenIssue::after_oauth(Some(user_with_password(&svc, "x")), 21) {
        Ok(i) => i,
        Err(e) => panic!("unexpected {:?}", e),
    };
    match issue.token_generated(Err(down.clone())) {
        Err(DomainError::InternalError { message }) => assert_eq!(message, "令牌生成失败: 内部错误: db down"),
        _ => panic!("signing failure passed over"),
    }
    let to_store = |u: User| match TokenIssue::after_oauth(Some(u), 21) {
        Ok(i) => match i.token_generated(Ok("tok".to_string())) {
            Ok(t) => t,
            Err(e) => panic!("unexpected {:?}", e),
        },
        Err(e) => panic!("unexpected {:?}", e),
    };
    match to_store(user_with_password(&svc, "x")).claims_read(Err(down.clone())) {
        Err(DomainError::InternalError { message }) => assert_eq!(message, "令牌验证失败: 内部错误: db down"),
        _ => panic!("read-back failure passed over"),
    }
    match to_store(user_with_password(&svc, "x")).claims_read(Ok(claims_expiring(9_000_000_000_000))) {
        Err(DomainError::InternalError { message }) => assert_eq!(message, "无法解析过期时间戳: 9000000000000"),
        _ => panic!("unrepresentable expiry accepted"),
    }
    let storage = match to_store(user_with_password(&svc, "x")).claims_read(Ok(claims_expiring(1_700_000_000))) {
        Ok(s) => s,
        Err(e) => panic!("unexpected {:?}", e),
    };
    match storage.stored(Err(down), 1_700_000_100) {
        Err(DomainError::InternalError { message }) => assert_eq!(message, "保存令牌失败: 内部错误: db down"),
        _ => panic!("store failure passed over"),
    }
    let storage = match to_store(user_with_password(&svc, "x")).claims_read(Ok(claims_expiring(1_700_000_000))) {
        Ok(s) => s,
        Err(e) => panic!("unexpected {:?}", e),
    };
    assert_eq!(storage.stored(Ok(()), 1_700_000_100).unwrap().expires_in, 0);
}

#[test]
fn captcha_is_checked_and_forgotten() {
    let mut repo = InMemoryCaptchaRepository::new();
    repo.save_at("s1", "AbCd", 100);
    assert!(check_login_captcha(&mut repo, "s1", "abcd").is_ok());
    assert!(!repo.validate("s1", "abcd"));

    repo.save_at("s2", "wxyz", 100);
    match check_login_captcha(&mut repo, "s2", "nope") {
        Err(DomainError::ValidationError { message }) => assert_eq!(message, "验证码错误"),
        other => panic!("unexpected {:?}", other),
    }
    assert!(!repo.validate("s2", "wxyz"));
}

#[test]
fn login_user_checks() {
    let svc = BcryptPasswordService::new();
    match check_login_user(&svc, None, "pw") {
        Err(DomainError::NotFound { resource }) => assert_eq!(resource, "用户"),
        other => panic!("unexpected {:?}", other),
    }
    let u = user_with_password(&svc, "right");
    match check_login_user(&svc, Some(u.clone()), "wrong") {
        Err(DomainError::ValidationError { message }) => assert_eq!(message, "邮箱或密码错误"),
        other => panic!("unexpected {:?}", other),
    }
    let mut banned = u.clone();
    banned.status = "banned".to_string();
    match check_login_user(&svc, Some(banned), "right") {
        Err(DomainError::BusinessRuleViolation { rule }) => assert_eq!(rule, "用户账户不可用"),
        other => panic!("unexpected {:?}", other),
    }
    let mut no_id = u.clone();
    no_id.id = None;
    match check_login_user(&svc, Some(no_id), "right") {
        Err(DomainError::InternalError { message }) => assert_eq!(message, "用户 ID 缺失"),
        other => panic!("unexpected {:?}", other),
    }
    let (ok, id) = check_login_user(&svc, Some(u), "right").unwrap();
    assert_eq!(id, 21);
    assert_eq!(ok.username, "carol");
}

#[test]
fn login_answer() {
    let svc = BcryptPasswordService::new();
    let u = user_with_password(&svc, "pw");
    let r = login_response("tok".to_string(), 3600, u);
    assert_eq!(r.access_token, "tok");
    assert_eq!(r.token_type, "Bearer");
    assert_eq!(r.expires_in, 3600);
    assert_eq!(r.user.id, 21);
    assert_eq!(r.user.username, "carol");
    assert_eq!(r.user.nick_name.as_deref(), Some("Carol"));
}

#[test]
fn looked_up_users() {
    assert!(matches!(found_user(None), Err(DomainError::NotFound { .. })));
    assert!(matches!(found_user_info(None), Err(DomainError::NotFound { .. })));
    let mut u = User::new("dave".into(), "h".into(), "d@x.io".into(), None, None).unwrap();
    u.id = None;
    let info = found_user_info(Some(u)).unwrap();
    assert_eq!(info.id, 0);
    assert_eq!(info.status, "active");
}

#[test]
fn token_expiry_seconds() {
    let (t, left) = token_expiry(1_700_000_100, 1_700_000_000).unwrap();
    assert_eq!(t.secs, 1_700_000_100);
    assert_eq!(t.nanos, 0);
    assert_eq!(left, 100);
    let (_, none_left) = token_expiry(1_700_000_000, 1_700_000_100).unwrap();
    assert_eq!(none_left, 0);
}

#[test]
fn token_errors() {
    let cause = DomainError::InternalError { message: "x".to_string() };
    match token_error(TokenFailure::Validate, &cause) {
        DomainError::ValidationError { message } => assert_eq!(message, "令牌验证失败: 内部错误: x"),
        other => panic!("unexpected {:?}", other),
    }
    match token_error(TokenFailure::Store, &cause) {
        DomainError::InternalError { message } => assert_eq!(message, "保存令牌失败: 内部错误: x"),
        other => panic!("unexpected {:?}", other),
    }
    match token_error(TokenFailure::Revoke, &cause) {
        DomainError::InternalError { message } => assert_eq!(message, "注销令牌失败: 内部错误: x"),
        other => panic!("unexpected {:?}", other),
    }
}

#[test]
fn error_mapping() {
    let e = DomainError::NotFound { resource: "用户".to_string() };
    assert_eq!(AuthErrorMapper::map_error_code(&e), 10001);
    assert_eq!(AuthErrorMapper::get_user_message(&e), "用户不存在");
    let i = DomainError::InternalError { message: "db down".to_string() };
    assert_eq!(AuthErrorMapper::map_error_code(&i), 10000);
    assert_eq!(AuthErrorMapper::get_user_message(&i), "系统内部错误");
    let v = DomainError::ValidationError { message: "bad".to_string() };
    assert_eq!(AuthErrorMapper::map_error_code(&v), 10003);
    assert_eq!(v.to_string(), "验证失败: bad");
}
