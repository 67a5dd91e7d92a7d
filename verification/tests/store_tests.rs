use tihc::captcha::InMemoryCaptchaRepository;
use tihc::config::{AppConfig, DatabaseSettings};
use tihc::ddl_checker::{check_statement_targets, precheck_sql_with_collation, rename_column_warnings, StatementKind, StatementTarget};
use tihc::ddl_precheck::{DDLStatement, LossyStatus};
use tihc::ddl_precheck_service::{
    DDLAnalysisService, DDLPrecheckApplicationService, DDLPrecheckApplicationServiceImpl,
    DDLPrecheckRequest, ExternalAnalysisResult, PrecheckPlan,
};
use tihc::dtos::{
    default_page, default_page_size, ChangePasswordRequest, CreateUserRequest, UpdateUserRequest,
    UserDetailResponse, UserListRequest,
};
use tihc::events::{DomainEvent, LoginMethod, UserEvent};
use tihc::response::ApiResponse;
use tihc::shared::DomainError;
use tihc::token::{hash_token, remaining_seconds, Claims, JwtClaims, Session};
use tihc::user::{status_code, status_label, User, UserInfo, UserStatus, UtcTime};
use tihc::user_store::{
    build_user_page_query, provider_row_for_update, store_error, stored_user_values,
    token_row_active, user_from_record, user_row_for_update, UserRecord,
};

#[test]
fn records_become_users() {
    let t = UtcTime { secs: 10, nanos: 0 };
    let rec = UserRecord {
        id: 3,
        user_id: 3,
        username: "erin".into(),
        password_hash: "h".into(),
        email: "e@x.io".into(),
        nick_name: None,
        avatar: None,
        github_name: Some("Erin".into()),
        status: -1,
        created_at: t,
        updated_at: t,
    };
    let u = user_from_record(rec);
    assert_eq!(u.id, Some(3));
    assert_eq!(u.status, "banned");
    assert_eq!(u.github_name.as_deref(), Some("Erin"));
    assert_eq!(stored_user_values(&u), (Some(3), -1));
    assert_eq!(user_row_for_update(&u).unwrap(), 3);

    let fresh = User::new("frank".into(), "h".into(), "f@x.io".into(), None, None).unwrap();
    assert_eq!(stored_user_values(&fresh), (None, 1));
    match user_row_for_update(&fresh) {
        Err(DomainError::ValidationError { message }) => assert_eq!(message, "用户 ID 不能为空"),
        other => panic!("unexpected {:?}", other),
    }
    assert!(provider_row_for_update(None).is_err());
    assert_eq!(provider_row_for_update(Some(8)).unwrap(), 8);
}

#[test]
fn status_codes_round_trip() {
    assert_eq!(status_label(1), "active");
    assert_eq!(status_label(0), "inactive");
    assert_eq!(status_label(5), "inactive");
    assert_eq!(status_code("banned"), -1);
    assert_eq!(status_code("whatever"), 0);
    for s in [UserStatus::Active, UserStatus::Inactive, UserStatus::Banned] {
        assert_eq!(UserStatus::from_code(s.to_code()), s);
        assert_eq!(UserStatus::from(i8::from(s)), s);
    }
    assert_eq!(UserStatus::from(-1i8), UserStatus::Banned);
    assert_eq!(i8::from(UserStatus::Active), 1);
}

#[test]
fn user_page_statements() {
    let q = build_user_page_query(3, 20, true, Some("banned"));
    assert_eq!(q.offset, 40);
    assert_eq!(q.limit, 20);
    assert!(q.binds_keyword);
    assert_eq!(
        q.sql,
        "SELECT id, user_id, username, password_hash, email, nick_name, avatar, github_name, status, created_at, updated_at FROM tihc_users WHERE 1=1 AND status = -1 AND (username LIKE CONCAT('%', ?, '%') OR email LIKE CONCAT('%', ?, '%') OR nick_name LIKE CONCAT('%', ?, '%')) ORDER BY created_at DESC LIMIT ? OFFSET ?"
    );
    let plain = build_user_page_query(1, 10, false, None);
    assert_eq!(plain.offset, 0);
    assert_eq!(plain.count_sql, "SELECT COUNT(*) FROM tihc_users WHERE 1=1");
}

#[test]
fn token_rows_and_errors() {
    assert!(token_row_active(0, 100, 50));
    assert!(!token_row_active(1, 100, 50));
    assert!(!token_row_active(0, 50, 50));
    match store_error("Failed to store token", "boom") {
        DomainError::InternalError { message } => assert_eq!(message, "Failed to store token: boom"),
        other => panic!("unexpected {:?}", other),
    }
}

#[test]
fn token_digests() {
    assert_eq!(
        hash_token("abc"),
        "ba7816bf8f01cfea414140de5dae2223b00361a396177a9cb410ff61f20015ad"
    );
    assert_eq!(
        hash_token(""),
        "e3b0c44298fc1c149afbf4c8996fb92427ae41e4649b934ca495991b7852b855"
    );
    assert_eq!(remaining_seconds(100, 40), 60);
    assert_eq!(remaining_seconds(40, 100), 0);
}

#[test]
fn claims_and_sessions_round_trip() {
    let s = Session {
        user_id: -17,
        username: "u".into(),
        email: "e".into(),
        nick_name: Some("n".into()),
        exp: 2000,
        iat: 1000,
        jti: "j".into(),
    };
    let c = Claims::from_session(s.clone());
    assert_eq!(c.sub, "-17");
    assert_eq!(c.exp, 2000);
    let back = Session::from_claims(c);
    assert_eq!(back.user_id, -17);
    assert_eq!(back.exp, 2000);
    assert_eq!(back.iat, 1000);

    let jc = JwtClaims::for_user(9, "u".into(), "e".into(), None, 1000, 2);
    assert_eq!(jc.exp, 1000 + 7200);
    let claims = jc.into_claims("id-1".into());
    assert_eq!(claims.sub, "9");
    assert_eq!(claims.iat, 0);
}

#[test]
fn configuration_defaults_and_urls() {
    assert!(AppConfig::from_database_settings(None).is_err());
    let cfg = AppConfig::from_database_settings(Some(DatabaseSettings {
        host: Some("db.local".into()),
        port: None,
        username: None,
        password: Some("pw".into()),
        name: None,
        max_connections: Some(5),
        use_tls: Some(true),
    }))
    .unwrap();
    assert_eq!(cfg.to_database_url(), "mysql://root:pw@db.local:3306/tihc?ssl-mode=REQUIRED");
    assert_eq!(cfg.to_admin_database_url(), "mysql://root:pw@db.local:3306?ssl-mode=REQUIRED");
    assert_eq!(
        cfg.create_database_sql(),
        "CREATE DATABASE IF NOT EXISTS `tihc` CHARACTER SET utf8mb4 COLLATE utf8mb4_general_ci;"
    );
    assert_eq!(cfg.server.port, 8080);
    assert_eq!(cfg.jwt.expiry_hours, 24);
    assert_eq!(cfg.database.max_connections, Some(5));
}

#[test]
fn captcha_store_expires() {
    let mut repo = InMemoryCaptchaRepository::new();
    repo.save_at("a", "XyZw", 1000);
    repo.save_at("b", "qqqq", 1200);
    assert!(repo.validate("a", "xyzw"));
    assert!(!repo.validate("a", "xyz"));
    assert!(!repo.validate("c", "xyzw"));
    repo.retain_fresh(1350, 300);
    assert!(!repo.validate("a", "xyzw"));
    assert!(repo.validate("b", "QQQQ"));
    repo.save_at("b", "new!", 1400);
    assert!(!repo.validate("b", "qqqq"));
    assert!(repo.validate("b", "NEW!"));
    repo.remove("b");
    assert!(!repo.validate("b", "new!"));
}

#[test]
fn rename_column_is_flagged() {
    let w = rename_column_warnings("ALTER TABLE db.t RENAME COLUMN a TO b;");
    assert_eq!(w.len(), 2);
    assert_eq!(w[0], "Detected unsupported RENAME COLUMN syntax in TiHC DDL Precheck.");
    assert_eq!(w[1], "Recommended: ALTER TABLE db.t CHANGE a b <column_type>; ");
    assert!(rename_column_warnings("ALTER TABLE db.t ADD COLUMN c INT;").is_empty());
}

#[test]
fn checker_scripts() {
    let ok = precheck_sql_with_collation(
        "CREATE DATABASE d; CREATE TABLE d.t (a INT); ALTER TABLE d.t MODIFY a BIGINT;",
        true,
    );
    assert_eq!(ok.lossy_status, tihc::lossy_ddl::LossyStatus::Unknown);
    assert_eq!(ok.warnings, vec!["ℹ️ TiDB engine not available".to_string()]);
    assert!(ok.error.is_none());

    let missing = precheck_sql_with_collation("CREATE TABLE d.t (a INT); ALTER TABLE d.t MODIFY a BIGINT;", true);
    assert_eq!(missing.error.as_deref(), Some("Missing CREATE DATABASE statement"));

    let other_db = precheck_sql_with_collation(
        "CREATE DATABASE d; CREATE TABLE e.t (a INT); ALTER TABLE d.t MODIFY a BIGINT;",
        true,
    );
    assert_eq!(other_db.error.as_deref(), Some("CREATE TABLE must use database 'd', found: Some(\"e\")"));

    let unparsable = precheck_sql_with_collation("CREATE GARBAGE ???", true);
    assert!(unparsable.error.is_some());
    assert!(unparsable.warnings[0].starts_with("SQL parsing failed: "));

    let targets = vec![StatementTarget { kind: StatementKind::CreateDatabase, name_parts: vec![Some("d".into())] }];
    assert_eq!(check_statement_targets(&targets).as_deref(), Some("Missing CREATE TABLE statement"));
}

struct FixedEngine(&'static str);

impl DDLAnalysisService for FixedEngine {
    fn analyze_ddl(&self, _sql: &str, _collation_enabled: bool) -> Result<ExternalAnalysisResult, DomainError> {
        Ok(ExternalAnalysisResult { lossy_status: self.0.to_string(), warnings: vec![], error: None })
    }
}

#[test]
fn precheck_service_flow() {
    let svc = DDLPrecheckApplicationServiceImpl::new(FixedEngine("Lossy"));
    let r = svc
        .precheck_ddl(DDLPrecheckRequest { sql: "ALTER TABLE t MODIFY c INT".into(), collation_enabled: true })
        .unwrap();
    assert_eq!(r.lossy_status, "Lossy");
    assert_eq!(r.risk_level, "High");
    assert_eq!(r.issues, vec!["Operation may cause data loss or schema changes".to_string()]);
    assert_eq!(
        r.analysis_details.as_deref(),
        Some("DDL statement: ALTER TABLE t MODIFY c INT (collation_enabled: true)")
    );

    let non_ddl = svc
        .precheck_ddl(DDLPrecheckRequest { sql: "SELECT 1".into(), collation_enabled: false })
        .unwrap();
    assert_eq!(non_ddl.lossy_status, "Unknown");
    assert_eq!(non_ddl.risk_level, "Safe");
    assert_eq!(non_ddl.issues, vec!["Not a DDL statement".to_string()]);

    assert!(svc.precheck_ddl(DDLPrecheckRequest { sql: "".into(), collation_enabled: true }).is_err());

    let plan = DDLPrecheckApplicationServiceImpl::<FixedEngine>::plan_precheck(&DDLPrecheckRequest {
        sql: "  create table x (a int) ".into(),
        collation_enabled: true,
    })
    .unwrap();
    match plan {
        PrecheckPlan::Analyze(st) => assert_eq!(st.sql, "create table x (a int)"),
        PrecheckPlan::Respond(_) => panic!("expected analysis"),
    }
    let unknown = DDLPrecheckApplicationServiceImpl::<FixedEngine>::complete_precheck(
        DDLStatement::new("CREATE TABLE t (a INT)".into(), true).unwrap(),
        ExternalAnalysisResult { lossy_status: "Weird".into(), warnings: vec!["w".into()], error: None },
    );
    assert_eq!(unknown.lossy_status, "Unknown");
    assert_eq!(unknown.issues, vec!["w".to_string()]);
    let reported_unknown = DDLPrecheckApplicationServiceImpl::<FixedEngine>::complete_precheck(
        DDLStatement::new("CREATE TABLE t (a INT)".into(), true).unwrap(),
        ExternalAnalysisResult { lossy_status: "Unknown".into(), warnings: vec!["w".into()], error: None },
    );
    assert_eq!(
        reported_unknown.issues,
        vec!["w".to_string(), "Unable to determine operation safety".to_string()]
    );
}

#[test]
fn dto_limits() {
    assert_eq!(default_page(), 1);
    assert_eq!(default_page_size(), 20);
    let r = UserListRequest::with_defaults(None, Some(50), None, None);
    assert_eq!((r.page, r.page_size), (1, 50));

    let good = CreateUserRequest {
        username: "grace".into(),
        email: "grace@example.com".into(),
        password: "secret1".into(),
        nick_name: None,
        avatar: None,
    };
    assert!(good.validate().is_ok());
    let bad = CreateUserRequest {
        username: "gr".into(),
        email: "not-an-email".into(),
        password: "123".into(),
        nick_name: None,
        avatar: None,
    };
    assert_eq!(
        bad.validate().unwrap_err(),
        vec!["username".to_string(), "email".to_string(), "password".to_string()]
    );
    assert!(UpdateUserRequest { username: None, email: None, nick_name: None, avatar: None, status: None }.validate());
    assert!(!UpdateUserRequest { username: None, email: Some("x".into()), nick_name: None, avatar: None, status: None }.validate());
    assert!(ChangePasswordRequest { old_password: "123456".into(), new_password: "abcdef".into() }.validate());
    assert!(!ChangePasswordRequest { old_password: "12345".into(), new_password: "abcdef".into() }.validate());

    let info = UserInfo {
        id: 4,
        user_id: 4,
        username: "h".into(),
        email: "h@x.io".into(),
        nick_name: Some("H".into()),
        avatar: None,
        status: "active".into(),
    };
    let d = UserDetailResponse::from_user_info(info);
    assert_eq!(d.id, 4);
    assert_eq!(d.profile.email, "h@x.io");
    assert!(d.roles.is_empty());
    assert!(d.current_role.is_none());
}

#[test]
fn user_events() {
    let t = UtcTime { secs: 5, nanos: 6 };
    let e = UserEvent::UserLoggedIn { user_id: 12, username: "u".into(), login_method: LoginMethod::GitHubOAuth, occurred_at: t };
    assert_eq!(e.event_name(), "UserLoggedIn");
    assert_eq!(e.aggregate_id(), "12");
    assert_eq!(e.occurred_at(), t);
    let l = UserEvent::GitHubAccountLinked { user_id: -3, github_id: 1, github_login: "g".into(), occurred_at: t };
    assert_eq!(l.event_name(), "GitHubAccountLinked");
    assert_eq!(l.aggregate_id(), "-3");
}

#[test]
fn api_envelopes() {
    let ok = ApiResponse::success(5u8);
    assert_eq!(ok.code, 200);
    assert_eq!(ok.message, "OK");
    assert_eq!(ok.http_status(), 200);
    let err = ApiResponse::<()>::error(404, "gone".into());
    assert_eq!(err.http_status(), 400);
    let internal = ApiResponse::<()>::error(10000, "x".into());
    assert_eq!(internal.http_status(), 500);
    assert!(ApiResponse::<()>::success_without_data().data.is_none());
}
