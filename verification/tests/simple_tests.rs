use tihc::lossy_ddl::{
    precheck_sql_with_collation, precheck_with_engine_status, result_of_tidb_run, validate_sql, AnalysisResult, DDLAnalysisHandler,
    DDLError, LossyStatus, RiskLevel,
};

fn print_analysis_result(result: &AnalysisResult) {
    println!("Analysis result:");
    println!("  risk_level: {:?}", result.risk_level);
    println!("  lossy_status: {:?}", result.lossy_status);
    if let Some(ref error) = result.error {
        println!("  error: {}", error);
    } else {
        println!("  error: None");
    }
    println!("  warnings: {:?}", result.warnings);
    if result.error.is_some() {
        println!("  Error detected in analysis");
    } else if result.lossy_status == LossyStatus::Unknown {
        println!("  Unknown lossy status, further investigation needed");
    } else if result.lossy_status == LossyStatus::Lossy {
        println!("  LOSSY operation detected");
        println!("  Risk level: {:?}", result.risk_level);
    } else {
        println!("  SAFE operation detected");
    }
}

fn test_sql_validation_logic() {
    let handler = DDLAnalysisHandler::new();
    let valid_sql = "CREATE DATABASE inventory;
CREATE TABLE inventory.products (col VARCHAR(64));
ALTER TABLE inventory.products MODIFY col VARCHAR(1024);";
    let result = handler.analyze_sql(valid_sql, true);
    print_analysis_result(&result);

    let invalid_sql = "CREATE DATABASE inventory;
CREATE TABLE products (col VARCHAR(64));
ALTER TABLE products MODIFY col VARCHAR(1024);";
    let result2 = handler.analyze_sql(invalid_sql, true);
    print_analysis_result(&result2);
}

#[test]
fn test_sql_validation_complete_statements_required() {
    test_sql_validation_logic();

    let handler = DDLAnalysisHandler::new();

    let complete_sql = "CREATE DATABASE testdb;
CREATE TABLE testdb.users (id INT PRIMARY KEY, status INT);
ALTER TABLE testdb.users MODIFY COLUMN status VARCHAR(100);";
    let result = handler.analyze_sql(complete_sql, true);
    print_analysis_result(&result);

    let missing_db_sql = "CREATE TABLE testdb.orders (id INT PRIMARY KEY, status INT);
ALTER TABLE testdb.orders MODIFY COLUMN status VARCHAR(100);";
    let result2 = handler.analyze_sql(missing_db_sql, true);
    print_analysis_result(&result2);

    let inconsistent_db_sql = "CREATE DATABASE db1;
CREATE TABLE db2.products (id INT PRIMARY KEY, name VARCHAR(50));
ALTER TABLE db2.products MODIFY COLUMN name VARCHAR(100);";
    let result3 = handler.analyze_sql(inconsistent_db_sql, true);
    print_analysis_result(&result3);

    assert!(!result.warnings.is_empty() || result.error.is_none());
}

#[test]
fn empty_sql_is_refused() {
    let r = precheck_sql_with_collation("   ", true);
    assert_eq!(r.lossy_status, LossyStatus::Unknown);
    assert_eq!(r.risk_level, RiskLevel::High);
    assert!(r.warnings.is_empty());
    assert_eq!(r.error.as_deref(), Some("Invalid input: SQL statement cannot be empty"));
}

#[test]
fn null_byte_is_refused() {
    assert!(matches!(validate_sql("SELECT 1\0"), Err(DDLError::InvalidInput(_))));
    let r = precheck_sql_with_collation("CREATE TABLE t (a INT)\0", false);
    assert_eq!(r.error.as_deref(), Some("Invalid input: SQL contains null bytes"));
}

#[test]
fn without_engine_the_status_is_unknown() {
    let r = precheck_sql_with_collation("CREATE TABLE t (a INT)", true);
    assert_eq!(r.lossy_status, LossyStatus::Unknown);
    assert_eq!(r.risk_level, RiskLevel::High);
    assert_eq!(r.warnings, vec!["ℹ️ TiDB engine not available".to_string()]);
    assert!(r.error.is_none());
}

#[test]
fn engine_status_codes() {
    let safe = result_of_tidb_run(0, None);
    assert_eq!(safe.lossy_status, LossyStatus::Safe);
    assert_eq!(safe.risk_level, RiskLevel::Safe);
    assert_eq!(safe.warnings, vec!["✅ Safe operation".to_string()]);

    let lossy = result_of_tidb_run(1, None);
    assert_eq!(lossy.lossy_status, LossyStatus::Lossy);
    assert_eq!(lossy.risk_level, RiskLevel::High);

    let failed = result_of_tidb_run(-1, Some("boom".to_string()));
    assert_eq!(failed.lossy_status, LossyStatus::Unknown);
    assert_eq!(failed.error.as_deref(), Some("TiDB engine error: boom"));

    let odd = result_of_tidb_run(7, None);
    assert_eq!(odd.error.as_deref(), Some("TiDB engine error: Unknown status code: 7"));
}

#[test]
fn engine_answers_reach_the_result() {
    let lossy = precheck_with_engine_status("ALTER TABLE t MODIFY c INT", 1, None);
    assert_eq!(lossy.lossy_status, LossyStatus::Lossy);
    assert_eq!(lossy.risk_level, RiskLevel::High);
    assert_eq!(lossy.warnings, vec!["⚠️ Lossy operation detected".to_string()]);
    let safe = precheck_with_engine_status("ALTER TABLE t ADD c INT", 0, None);
    assert_eq!(safe.lossy_status, LossyStatus::Safe);
    assert_eq!(safe.risk_level, RiskLevel::Safe);
    let failed = precheck_with_engine_status("ALTER TABLE t ADD c INT", -1, Some("boom".to_string()));
    assert_eq!(failed.lossy_status, LossyStatus::Unknown);
    assert_eq!(failed.error.as_deref(), Some("TiDB engine error: boom"));
    let refused = precheck_with_engine_status("   ", 0, None);
    assert_eq!(refused.lossy_status, LossyStatus::Unknown);
    assert_eq!(refused.error.as_deref(), Some("Invalid input: SQL statement cannot be empty"));
}
