use tihc::ddl_precheck::{
    DDLAnalysisResult, DDLPrecheckDomainService, DDLStatement, DDLValidationError, LossyStatus,
    RiskLevel,
};

#[test]
fn test_ddl_statement_creation() {
    let stmt = DDLStatement::new("CREATE TABLE test (id INT)".to_string(), true).unwrap();
    assert_eq!(stmt.sql, "CREATE TABLE test (id INT)");
    assert!(stmt.collation_enabled);

    assert!(matches!(
        DDLStatement::new("".to_string(), true),
        Err(DDLValidationError::EmptySQL)
    ));

    let large_sql = "A".repeat(1_000_001);
    assert!(matches!(
        DDLStatement::new(large_sql, true),
        Err(DDLValidationError::SQLTooLarge)
    ));
}

#[test]
fn test_ddl_statement_detection() {
    let create_stmt = DDLStatement::new("CREATE TABLE test (id INT)".to_string(), true).unwrap();
    assert!(create_stmt.is_ddl());

    let select_stmt = DDLStatement::new("SELECT * FROM test".to_string(), true).unwrap();
    assert!(!select_stmt.is_ddl());
}

#[test]
fn test_risk_assessment() {
    let drop_stmt = DDLStatement::new("DROP TABLE test".to_string(), true).unwrap();
    assert!(drop_stmt.is_potentially_risky());

    let create_stmt = DDLStatement::new("CREATE TABLE test (id INT)".to_string(), true).unwrap();
    assert!(!create_stmt.is_potentially_risky());
}

#[test]
fn test_analysis_result_recommendations() {
    let stmt = DDLStatement::new("DROP TABLE test".to_string(), true).unwrap();
    let result = DDLAnalysisResult::new(
        stmt,
        LossyStatus::Lossy,
        RiskLevel::High,
        vec!["DROP operation detected".to_string()],
        None,
    );

    assert!(!result.recommendations.is_empty());
    assert!(result.is_high_risk());
    assert!(!result.has_error());
}

#[test]
fn test_domain_service_validation() {
    let result = DDLPrecheckDomainService::validate_ddl_statement("CREATE TABLE test (id INT)", true);
    assert!(result.is_ok());

    let empty_result = DDLPrecheckDomainService::validate_ddl_statement("", true);
    assert!(empty_result.is_err());
}

#[test]
fn test_risk_level_assessment() {
    let stmt = DDLStatement::new("CREATE TABLE test (id INT)".to_string(), true).unwrap();

    let safe_risk = DDLPrecheckDomainService::assess_risk_level(&stmt, &LossyStatus::Safe);
    assert_eq!(safe_risk, RiskLevel::Safe);

    let lossy_risk = DDLPrecheckDomainService::assess_risk_level(&stmt, &LossyStatus::Lossy);
    assert_eq!(lossy_risk, RiskLevel::High);

    let unknown_risk = DDLPrecheckDomainService::assess_risk_level(&stmt, &LossyStatus::Unknown);
    assert_eq!(unknown_risk, RiskLevel::High);
}

#[test]
fn whitespace_only_sql_is_empty() {
    assert!(matches!(
        DDLStatement::new("   \n\t".to_string(), false),
        Err(DDLValidationError::EmptySQL)
    ));
}

#[test]
fn validation_error_texts() {
    assert_eq!(DDLValidationError::EmptySQL.to_string(), "SQL statement cannot be empty");
    assert_eq!(
        DDLValidationError::SQLTooLarge.to_string(),
        "SQL statement is too large (max 1MB)"
    );
}

#[test]
fn status_and_level_texts() {
    assert_eq!(LossyStatus::Safe.to_string(), "Safe");
    assert_eq!(LossyStatus::Lossy.to_string(), "Lossy");
    assert_eq!(LossyStatus::Unknown.to_string(), "Unknown");
    assert_eq!(RiskLevel::Safe.to_string(), "Safe");
    assert_eq!(RiskLevel::High.to_string(), "High");
}

#[test]
fn safe_but_risky_statement_is_high_risk() {
    let stmt = DDLStatement::new("alter table t drop column c".to_string(), true).unwrap();
    assert!(stmt.is_ddl());
    assert_eq!(
        DDLPrecheckDomainService::assess_risk_level(&stmt, &LossyStatus::Safe),
        RiskLevel::High
    );
}

#[test]
fn safe_result_without_issues_has_no_recommendations() {
    let stmt = DDLStatement::new("CREATE TABLE t (id INT)".to_string(), true).unwrap();
    let result = DDLAnalysisResult::new(stmt, LossyStatus::Safe, RiskLevel::Safe, vec![], None);
    assert!(result.recommendations.is_empty());
    assert!(!result.is_high_risk());
    assert!(!result.has_error());

    let stmt = DDLStatement::new("DROP TABLE t".to_string(), true).unwrap();
    let lossy = DDLAnalysisResult::new(
        stmt,
        LossyStatus::Lossy,
        RiskLevel::High,
        vec!["DROP operation detected".to_string()],
        None,
    );
    assert_eq!(lossy.recommendations.len(), 2);
    assert_eq!(
        lossy.recommendations[1],
        "Consider backing up affected data before executing DROP operations."
    );
}
