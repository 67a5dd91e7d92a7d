use tihc::accounts::{
    apply_password_change, github_new_account, github_provider_link, google_base_username,
    google_new_account, google_provider_link, next_github_match_step, next_google_match_step,
    prepare_new_user, sync_github_user_info, sync_google_user_info, username_candidate,
    next_username_step, AccountLookup, AccountMatchStep, UsernameStep,
};
use tihc::passwords::{BcryptPasswordService, PasswordService};
use tihc::shared::DomainError;
use tihc::user::{GitHubUser, GoogleUser, User};

fn octocat(email: Option<&str>, name: Option<&str>) -> GitHubUser {
    GitHubUser {
        id: 583231,
        login: "octocat".to_string(),
        name: name.map(|s| s.to_string()),
        email: email.map(|s| s.to_string()),
        avatar_url: Some("https://avatars.example/octocat.png".to_string()),
    }
}

fn google_user(name: Option<&str>, picture: Option<&str>) -> GoogleUser {
    GoogleUser {
        id: "g-42".to_string(),
        email: "ada.lovelace@example.com".to_string(),
        verified_email: true,
        name: name.map(|s| s.to_string()),
        given_name: None,
        family_name: None,
        picture: picture.map(|s| s.to_string()),
        locale: None,
    }
}

fn stored_user() -> User {
    let mut u = User::new(
        "alice".to_string(),
        "hash".to_string(),
        "alice@example.com".to_string(),
        None,
        None,
    )
    .unwrap();
    u.id = Some(7);
    u
}

fn lookup(step: &AccountMatchStep) -> (AccountLookup, String) {
    match step {
        AccountMatchStep::Lookup { kind, query } => (*kind, query.clone()),
        other => panic!("expected a lookup, got {:?}", other),
    }
}

#[test]
fn github_matching_asks_in_order() {
    let u = octocat(Some("octo@example.com"), Some("The Octocat"));
    assert_eq!(
        lookup(&next_github_match_step(&u, &[])),
        (AccountLookup::ByProvider, "583231".to_string())
    );
    assert_eq!(
        lookup(&next_github_match_step(&u, &[None])),
        (AccountLookup::ByEmail, "octo@example.com".to_string())
    );
    assert_eq!(
        lookup(&next_github_match_step(&u, &[None, None])),
        (AccountLookup::ByGithubName, "The Octocat".to_string())
    );
    assert_eq!(
        lookup(&next_github_match_step(&u, &[None, None, None])),
        (AccountLookup::ByUsername, "The Octocat".to_string())
    );
    assert!(matches!(
        next_github_match_step(&u, &[None, None, None, None]),
        AccountMatchStep::CreateNew
    ));
}

#[test]
fn github_link_found_first_is_only_synced() {
    let u = octocat(None, None);
    assert!(matches!(
        next_github_match_step(&u, &[Some(9)]),
        AccountMatchStep::SyncLinked { user_id: 9 }
    ));
}

#[test]
fn github_match_by_email_links_then_syncs() {
    let u = octocat(Some("octo@example.com"), None);
    assert!(matches!(
        next_github_match_step(&u, &[None, Some(12)]),
        AccountMatchStep::LinkAndSync { user_id: 12 }
    ));
}

#[test]
fn github_without_email_or_name_creates_after_provider_lookup() {
    let u = octocat(None, None);
    assert!(matches!(next_github_match_step(&u, &[None]), AccountMatchStep::CreateNew));
}

#[test]
fn google_matching_asks_in_order() {
    let g = google_user(Some("Ada"), None);
    assert_eq!(
        lookup(&next_google_match_step(&g, &[])),
        (AccountLookup::ByProvider, "g-42".to_string())
    );
    assert_eq!(
        lookup(&next_google_match_step(&g, &[None])),
        (AccountLookup::ByEmail, "ada.lovelace@example.com".to_string())
    );
    assert!(matches!(
        next_google_match_step(&g, &[None, None, None, Some(3)]),
        AccountMatchStep::LinkAndSync { user_id: 3 }
    ));
    let nameless = google_user(None, None);
    assert!(matches!(next_google_match_step(&nameless, &[None, None]), AccountMatchStep::CreateNew));
}

#[test]
fn username_candidates() {
    assert_eq!(username_candidate("octocat", 0).unwrap(), "octocat");
    assert_eq!(username_candidate("octocat", 1).unwrap(), "github_octocat");
    assert_eq!(username_candidate("octocat", 2).unwrap(), "github_octocat_1");
    assert_eq!(username_candidate("octocat", 1000).unwrap(), "github_octocat_999");
    match username_candidate("octocat", 1001) {
        Err(DomainError::InternalError { message }) => assert_eq!(message, "无法生成唯一用户名"),
        other => panic!("unexpected {:?}", other),
    }
}

#[test]
fn google_base_usernames() {
    assert_eq!(google_base_username("ada.lovelace@example.com"), "ada.lovelace");
    assert_eq!(google_base_username("no-at-sign"), "no-at-sign");
    assert_eq!(google_base_username("@example.com"), "");
    assert_eq!(google_base_username("a@b@c"), "a");
}

#[test]
fn new_accounts_from_profiles() {
    let a = github_new_account(&octocat(None, Some("Octo")));
    assert_eq!(a.base_username, "octocat");
    assert_eq!(a.email, "octocat@github.local");
    assert_eq!(a.nick_name.as_deref(), Some("Octo"));
    assert_eq!(a.avatar.as_deref(), Some("https://avatars.example/octocat.png"));

    let b = github_new_account(&octocat(Some("o@x.io"), None));
    assert_eq!(b.email, "o@x.io");

    let g = google_new_account(&google_user(Some("Ada"), Some("pic")));
    assert_eq!(g.base_username, "ada.lovelace");
    assert_eq!(g.email, "ada.lovelace@example.com");
    assert_eq!(g.avatar.as_deref(), Some("pic"));
}

#[test]
fn github_sync_copies_profile() {
    let mut u = stored_user();
    let gh = octocat(None, Some("The Octocat"));
    assert!(sync_github_user_info(&mut u, &gh));
    assert_eq!(u.github_name.as_deref(), Some("The Octocat"));
    assert_eq!(u.nick_name.as_deref(), Some("The Octocat"));
    assert_eq!(u.avatar.as_deref(), Some("https://avatars.example/octocat.png"));
    assert!(!sync_github_user_info(&mut u, &gh));
}

#[test]
fn github_sync_keeps_existing_nick_name() {
    let mut u = stored_user();
    u.nick_name = Some("Al".to_string());
    let gh = octocat(None, Some("The Octocat"));
    sync_github_user_info(&mut u, &gh);
    assert_eq!(u.nick_name.as_deref(), Some("Al"));
}

#[test]
fn google_sync_fills_only_missing_fields() {
    let mut u = stored_user();
    u.avatar = Some("mine.png".to_string());
    let g = google_user(Some("Ada"), Some("pic.png"));
    assert!(sync_google_user_info(&mut u, &g));
    assert_eq!(u.nick_name.as_deref(), Some("Ada"));
    assert_eq!(u.avatar.as_deref(), Some("mine.png"));
    assert!(!sync_google_user_info(&mut u, &g));
}

#[test]
fn provider_links() {
    let l = github_provider_link(5, &octocat(Some("o@x.io"), None), serde_json::Value::Null);
    assert_eq!(l.user_id, 5);
    assert_eq!(l.provider, "github");
    assert_eq!(l.provider_user_id, "583231");
    assert_eq!(l.provider_email.as_deref(), Some("o@x.io"));
    assert!(l.id.is_none());

    let g = google_provider_link(6, &google_user(None, None), serde_json::Value::Bool(true));
    assert_eq!(g.provider, "google");
    assert_eq!(g.provider_user_id, "g-42");
    assert_eq!(g.provider_email.as_deref(), Some("ada.lovelace@example.com"));
}

#[test]
fn new_user_refused_when_taken() {
    let svc = BcryptPasswordService::new();
    match prepare_new_user(&svc, "bob".into(), "secret", "b@x.io".into(), None, true, true) {
        Err(DomainError::ValidationError { message }) => assert_eq!(message, "用户名已存在"),
        other => panic!("unexpected {:?}", other),
    }
    match prepare_new_user(&svc, "bob".into(), "secret", "b@x.io".into(), None, false, true) {
        Err(DomainError::ValidationError { message }) => assert_eq!(message, "邮箱已存在"),
        other => panic!("unexpected {:?}", other),
    }
}

#[test]
fn new_user_has_verifiable_hash() {
    let svc = BcryptPasswordService::new();
    let u = prepare_new_user(&svc, "bobby".into(), "secret", "b@x.io".into(), Some("B".into()), false, false)
        .unwrap();
    assert_eq!(u.username, "bobby");
    assert_eq!(u.status, "active");
    assert_ne!(u.password_hash, "secret");
    assert_eq!(svc.verify_password("secret", &u.password_hash).unwrap(), true);
    assert_eq!(svc.verify_password("other", &u.password_hash).unwrap(), false);
}

#[test]
fn new_user_rules_still_apply() {
    let svc = BcryptPasswordService::new();
    match prepare_new_user(&svc, "bo".into(), "secret", "b@x.io".into(), None, false, false) {
        Err(DomainError::ValidationError { message }) => assert_eq!(message, "用户名长度至少 3 个字符"),
        other => panic!("unexpected {:?}", other),
    }
}

#[test]
fn password_change_flow() {
    let svc = BcryptPasswordService::new();
    match apply_password_change(&svc, None, "a", "b") {
        Err(DomainError::NotFound { resource }) => assert_eq!(resource, "用户"),
        other => panic!("unexpected {:?}", other),
    }
    let mut u = stored_user();
    u.password_hash = svc.hash_password("old-pass").unwrap();
    match apply_password_change(&svc, Some(u.clone()), "wrong", "new-pass") {
        Err(DomainError::ValidationError { message }) => assert_eq!(message, "原密码错误"),
        other => panic!("unexpected {:?}", other),
    }
    let changed = apply_password_change(&svc, Some(u.clone()), "old-pass", "new-pass").unwrap();
    assert_eq!(changed.username, u.username);
    assert!(svc.verify_password("new-pass", &changed.password_hash).unwrap());
    match apply_password_change(&svc, Some(stored_user()), "x", "y") {
        Err(DomainError::InternalError { message }) => {
            assert!(message.starts_with("Password verification failed: "))
        }
        other => panic!("unexpected {:?}", other),
    }
}

#[test]
fn first_free_user_name_is_used() {
    match next_username_step("octocat", &[]) {
        Ok(UsernameStep::Ask(c)) => assert_eq!(c, "octocat"),
        _ => panic!("expected a question"),
    }
    match next_username_step("octocat", &[true, true]) {
        Ok(UsernameStep::Ask(c)) => assert_eq!(c, "github_octocat_1"),
        _ => panic!("expected a question"),
    }
    match next_username_step("octocat", &[true, false]) {
        Ok(UsernameStep::Use(c)) => assert_eq!(c, "github_octocat"),
        _ => panic!("expected a name"),
    }
    match next_username_step("octocat", &[false, false, false]) {
        Ok(UsernameStep::Use(c)) => assert_eq!(c, "octocat"),
        _ => panic!("expected a name"),
    }
    let all_taken = vec![true; 1001];
    match next_username_step("octocat", &all_taken) {
        Err(DomainError::InternalError { message }) => assert_eq!(message, "无法生成唯一用户名"),
        _ => panic!("expected exhaustion"),
    }
    let mut last_free = vec![true; 1000];
    last_free.push(false);
    match next_username_step("octocat", &last_free) {
        Ok(UsernameStep::Use(c)) => assert_eq!(c, "github_octocat_999"),
        _ => panic!("expected a name"),
    }
}
