//! Lossy DDL detection: the analysis result model, input validation, and the
//! reading of the schema tracker's verdict.
use vstd::prelude::*;

use crate::text::{contains_chars, contains_seq, str_chars, trim, trim_chars};

verus! {

/// Whether a DDL operation loses data.
#[derive(Debug, Clone, Copy, PartialEq, Eq, Structural)]
pub enum LossyStatus {
    /// Confirmed safe: no data is lost.
    Safe,
    /// Confirmed lossy: data will be lost.
    Lossy,
    /// Not determined: needs manual review.
    Unknown,
}

/// The description of a lossy status.
pub open spec fn lossy_description(s: LossyStatus) -> Seq<char> {
    match s {
        LossyStatus::Safe => "Safe - No data loss"@,
        LossyStatus::Lossy => "Lossy - Will cause data loss"@,
        LossyStatus::Unknown => "Unknown - Manual review required"@,
    }
}

/// The emoji of a lossy status.
pub open spec fn lossy_emoji(s: LossyStatus) -> Seq<char> {
    match s {
        LossyStatus::Safe => "✅"@,
        LossyStatus::Lossy => "⚠️"@,
        LossyStatus::Unknown => "❓"@,
    }
}

/// A lossy or unknown status is risky.
pub open spec fn status_is_risky(s: LossyStatus) -> bool {
    s is Lossy || s is Unknown
}

impl LossyStatus {
    /// A human-readable description.
    pub fn description(&self) -> (r: &'static str)
        ensures
            r@ == lossy_description(*self),
    {
        match self {
            LossyStatus::Safe => "Safe - No data loss",
            LossyStatus::Lossy => "Lossy - Will cause data loss",
            LossyStatus::Unknown => "Unknown - Manual review required",
        }
    }

    /// An emoji for the status.
    pub fn emoji(&self) -> (r: &'static str)
        ensures
            r@ == lossy_emoji(*self),
    {
        match self {
            LossyStatus::Safe => "✅",
            LossyStatus::Lossy => "⚠️",
            LossyStatus::Unknown => "❓",
        }
    }

    /// Whether the status is lossy or unknown.
    pub fn is_risky(&self) -> (b: bool)
        ensures
            b == status_is_risky(*self),
    {
        match self {
            LossyStatus::Lossy | LossyStatus::Unknown => true,
            LossyStatus::Safe => false,
        }
    }

    /// The display text: the emoji, a space and the description.
    pub fn to_string(&self) -> (r: String)
        ensures
            r@ == lossy_emoji(*self) + " "@ + lossy_description(*self),
    {
        String::from_str(self.emoji()).concat(" ").concat(self.description())
    }
}

impl Default for LossyStatus {
    fn default() -> (r: Self)
        ensures
            r == LossyStatus::Unknown,
    {
        LossyStatus::Unknown
    }
}

/// Risk level of a DDL operation, ordered from safe to high.
#[derive(Debug, Clone, Copy, PartialEq, Eq, PartialOrd, Ord, Structural)]
pub enum RiskLevel {
    /// Confirmed: no risk of losing data.
    Safe,
    /// Data will be lost, or the analysis could not be completed.
    High,
}

/// The description of a risk level.
pub open spec fn risk_description(r: RiskLevel) -> Seq<char> {
    match r {
        RiskLevel::Safe => "Safe - Confirmed no stats loss risk"@,
        RiskLevel::High => "High - Will cause stats loss or requires manual review"@,
    }
}

/// The emoji of a risk level.
pub open spec fn risk_emoji(r: RiskLevel) -> Seq<char> {
    match r {
        RiskLevel::Safe => "✅"@,
        RiskLevel::High => "🔴"@,
    }
}

impl RiskLevel {
    /// A human-readable description.
    pub fn description(&self) -> (r: &'static str)
        ensures
            r@ == risk_description(*self),
    {
        match self {
            RiskLevel::Safe => "Safe - Confirmed no stats loss risk",
            RiskLevel::High => "High - Will cause stats loss or requires manual review",
        }
    }

    /// An emoji for display.
    pub fn emoji(&self) -> (r: &'static str)
        ensures
            r@ == risk_emoji(*self),
    {
        match self {
            RiskLevel::Safe => "✅",
            RiskLevel::High => "🔴",
        }
    }

    /// The display text: the emoji, a space and the description.
    pub fn to_string(&self) -> (r: String)
        ensures
            r@ == risk_emoji(*self) + " "@ + risk_description(*self),
    {
        String::from_str(self.emoji()).concat(" ").concat(self.description())
    }
}

impl Default for RiskLevel {
    fn default() -> (r: Self)
        ensures
            r == RiskLevel::High,
    {
        RiskLevel::High
    }
}

/// The outcome of analysing a DDL script.
#[derive(Debug, Clone)]
pub struct AnalysisResult {
    pub lossy_status: LossyStatus,
    pub risk_level: RiskLevel,
    pub warnings: Vec<String>,
    pub error: Option<String>,
}

/// A failure during DDL analysis.
#[derive(Debug, Clone)]
pub enum DDLError {
    InvalidInput(String),
    ParseError(String),
    TiDBError(String),
    ConfigError(String),
}

/// The display text of an analysis failure.
pub open spec fn ddl_error_text(e: DDLError) -> Seq<char> {
    match e {
        DDLError::InvalidInput(m) => "Invalid input: "@ + m@,
        DDLError::ParseError(m) => "Failed to parse SQL: "@ + m@,
        DDLError::TiDBError(m) => "TiDB engine error: "@ + m@,
        DDLError::ConfigError(m) => "Configuration error: "@ + m@,
    }
}

impl DDLError {
    /// The display text of the failure.
    pub fn to_string(&self) -> (r: String)
        ensures
            r@ == ddl_error_text(*self),
    {
        match self {
            DDLError::InvalidInput(m) => String::from_str("Invalid input: ").concat(m.as_str()),
            DDLError::ParseError(m) => String::from_str("Failed to parse SQL: ").concat(m.as_str()),
            DDLError::TiDBError(m) => String::from_str("TiDB engine error: ").concat(m.as_str()),
            DDLError::ConfigError(m) => String::from_str("Configuration error: ").concat(
                m.as_str(),
            ),
        }
    }
}

/// The risk level that a status calls for: high exactly when it is risky.
pub open spec fn risk_of_status(s: LossyStatus) -> RiskLevel {
    if status_is_risky(s) { RiskLevel::High } else { RiskLevel::Safe }
}

/// A result is consistent: its risk is high exactly when its status is
/// risky, and an error comes only with an unknown status.
pub open spec fn consistent(r: AnalysisResult) -> bool {
    &&& r.risk_level == risk_of_status(r.lossy_status)
    &&& r.error is Some ==> r.lossy_status == LossyStatus::Unknown
}

/// The result for a failed analysis: unknown, high risk, no warnings, and the
/// failure's text as error.
pub fn create_error_result_from_error(error: DDLError) -> (r: AnalysisResult)
    ensures
        r.lossy_status == LossyStatus::Unknown,
        r.risk_level == RiskLevel::High,
        r.warnings@.len() == 0,
        r.error matches Some(m) && m@ == ddl_error_text(error),
        consistent(r),
{
    AnalysisResult {
        lossy_status: LossyStatus::Unknown,
        risk_level: RiskLevel::High,
        warnings: Vec::new(),
        error: Some(error.to_string()),
    }
}

/// The result for a completed analysis: the status, the risk it calls for,
/// the message as the one warning, and no error.
pub fn create_success_result(lossy_status: LossyStatus, message: &str) -> (r: AnalysisResult)
    ensures
        r.lossy_status == lossy_status,
        r.risk_level == risk_of_status(lossy_status),
        r.warnings.deep_view() == seq![message@],
        r.error is None,
        consistent(r),
{
    let mut warnings: Vec<String> = Vec::new();
    warnings.push(String::from_str(message));
    proof {
        assert(warnings.deep_view() =~= seq![message@]);
    }
    AnalysisResult {
        lossy_status,
        risk_level: if lossy_status.is_risky() { RiskLevel::High } else { RiskLevel::Safe },
        warnings,
        error: None,
    }
}

/// Why SQL input is refused before analysis, if it is.
pub open spec fn input_refusal(sql: Seq<char>) -> Option<Seq<char>> {
    if trim(sql).len() == 0 {
        Some("SQL statement cannot be empty"@)
    } else if contains_seq(sql, seq!['\0']) {
        Some("SQL contains null bytes"@)
    } else {
        None
    }
}

/// Refuses SQL that is only white space or holds a NUL character.
pub fn validate_sql(sql: &str) -> (r: Result<(), DDLError>)
    ensures
        match input_refusal(sql@) {
            Some(m) => r matches Err(DDLError::InvalidInput(x)) && x@ == m,
            None => r is Ok,
        },
{
    let chars = str_chars(sql);
    let trimmed = trim_chars(chars.as_slice());
    if trimmed.len() == 0 {
        return Err(DDLError::InvalidInput(String::from_str("SQL statement cannot be empty")));
    }
    let mut nul: Vec<char> = Vec::new();
    nul.push('\0');
    proof {
        assert(nul@ =~= seq!['\0']);
    }
    if contains_chars(chars.as_slice(), nul.as_slice()) {
        return Err(DDLError::InvalidInput(String::from_str("SQL contains null bytes")));
    }
    Ok(())
}

/// The result for refused input: unknown, high risk, and the refusal as error.
pub open spec fn is_refusal_result(r: AnalysisResult, reason: Seq<char>) -> bool {
    &&& r.lossy_status == LossyStatus::Unknown
    &&& r.risk_level == RiskLevel::High
    &&& r.warnings@.len() == 0
    &&& r.error matches Some(m) && m@ == "Invalid input: "@ + reason
}

/// Analyses SQL without the schema tracker: refused input gives an error
/// result; other input is reported unknown, since the engine is not there.
pub fn precheck_sql_with_collation(sql: &str, collation_enabled: bool) -> (r: AnalysisResult)
    ensures
        consistent(r),
        match input_refusal(sql@) {
            Some(reason) => is_refusal_result(r, reason),
            None => r.lossy_status == LossyStatus::Unknown && r.risk_level == RiskLevel::High
                && r.warnings.deep_view() == seq!["ℹ️ TiDB engine not available"@] && r.error is None,
        },
{
    if let Err(error) = validate_sql(sql) {
        return create_error_result_from_error(error);
    }
    create_success_result(LossyStatus::Unknown, "ℹ️ TiDB engine not available")
}

/// What the schema tracker's status code means: 0 safe, 1 lossy, -1 a failure
/// with the tracker's message (or a generic one when it gave none), anything
/// else an unknown code.
pub fn tidb_status_result(status: i32, error_msg: Option<String>) -> (r: Result<
    AnalysisResult,
    DDLError,
>)
    ensures
        status == 0 ==> (r matches Ok(a) && a.lossy_status == LossyStatus::Safe
            && a.risk_level == RiskLevel::Safe && a.warnings.deep_view() == seq![
            "✅ Safe operation"@,
        ] && a.error is None),
        status == 1 ==> (r matches Ok(a) && a.lossy_status == LossyStatus::Lossy
            && a.risk_level == RiskLevel::High && a.warnings.deep_view() == seq![
            "⚠️ Lossy operation detected"@,
        ] && a.error is None),
        status == -1 ==> (r matches Err(DDLError::TiDBError(m)) && m@ == match error_msg {
            Some(e) => e@,
            None => "Unknown TiDB error"@,
        }),
        status != 0 && status != 1 && status != -1 ==> (r matches Err(DDLError::TiDBError(m)) && m@
            == "Unknown status code: "@ + crate::text::signed_decimal(status as int)),
{
    if status == 0 {
        Ok(create_success_result(LossyStatus::Safe, "✅ Safe operation"))
    } else if status == 1 {
        Ok(create_success_result(LossyStatus::Lossy, "⚠️ Lossy operation detected"))
    } else if status == -1 {
        match error_msg {
            Some(e) => Err(DDLError::TiDBError(e)),
            None => Err(DDLError::TiDBError(String::from_str("Unknown TiDB error"))),
        }
    } else {
        let mut m: Vec<char> = Vec::new();
        crate::text::push_str_chars(&mut m, "Unknown status code: ");
        let d = crate::text::i64_decimal(status as i64);
        crate::text::push_chars(&mut m, d.as_slice());
        Err(DDLError::TiDBError(crate::text::string_from_chars(m.as_slice())))
    }
}

/// An analysis result as plain values: status, risk, warnings and error.
pub open spec fn outcome_view(r: AnalysisResult) -> (LossyStatus, RiskLevel, Seq<Seq<char>>, Option<Seq<char>>) {
    (r.lossy_status, r.risk_level, r.warnings.deep_view(), r.error.deep_view())
}

/// What a run of the schema tracker that ended with `status` (and, on
/// failure, the tracker's message) comes to: 0 safe, 1 lossy, each with its
/// one warning; -1 unknown with the tracker's message, or a generic one, as
/// error; any other code unknown with the code in the error.
pub open spec fn tidb_run_outcome(status: i32, error_msg: Option<Seq<char>>) -> (LossyStatus, RiskLevel, Seq<Seq<char>>, Option<Seq<char>>) {
    if status == 0 {
        (LossyStatus::Safe, RiskLevel::Safe, seq!["✅ Safe operation"@], None)
    } else if status == 1 {
        (LossyStatus::Lossy, RiskLevel::High, seq!["⚠️ Lossy operation detected"@], None)
    } else if status == -1 {
        (LossyStatus::Unknown, RiskLevel::High, Seq::empty(), Some("TiDB engine error: "@ + match error_msg {
            Some(m) => m,
            None => "Unknown TiDB error"@,
        }))
    } else {
        (LossyStatus::Unknown, RiskLevel::High, Seq::empty(), Some(
            "TiDB engine error: "@ + "Unknown status code: "@ + crate::text::signed_decimal(status as int),
        ))
    }
}

/// The result of a run of the schema tracker: its verdict, or the error result
/// of its failure.
pub fn result_of_tidb_run(status: i32, error_msg: Option<String>) -> (r: AnalysisResult)
    ensures
        consistent(r),
        outcome_view(r) == tidb_run_outcome(status, error_msg.deep_view()),
{
    let ghost m = error_msg.deep_view();
    match tidb_status_result(status, error_msg) {
        Ok(a) => a,
        Err(e) => {
            let r = create_error_result_from_error(e);
            proof {
                assert(r.warnings.deep_view() =~= Seq::<Seq<char>>::empty());
            }
            r
        },
    }
}

/// Analyses SQL with the schema tracker's answer for it: refused input gives
/// an error result before the tracker is consulted; other input gives what
/// the tracker's run ending with `status` (and, on failure, its message) comes
/// to.
pub fn precheck_with_engine_status(sql: &str, status: i32, error_msg: Option<String>) -> (r:
    AnalysisResult)
    ensures
        consistent(r),
        match input_refusal(sql@) {
            Some(reason) => is_refusal_result(r, reason),
            None => outcome_view(r) == tidb_run_outcome(status, error_msg.deep_view()),
        },
{
    if let Err(error) = validate_sql(sql) {
        return create_error_result_from_error(error);
    }
    result_of_tidb_run(status, error_msg)
}

/// The lossy DDL detection plugin.
#[derive(Debug, Default)]
pub struct LossyDDLPlugin {
    pub name: String,
    pub description: String,
}

impl LossyDDLPlugin {
    /// The plugin named `lossy_ddl`.
    pub fn new() -> (r: Self)
        ensures
            r.name@ == "lossy_ddl"@,
            r.description@ == "Lossy DDL detection plugin"@,
    {
        LossyDDLPlugin {
            name: String::from_str("lossy_ddl"),
            description: String::from_str("Lossy DDL detection plugin"),
        }
    }

    /// The plugin's name.
    pub fn name(&self) -> (r: &str)
        ensures
            r@ == self.name@,
    {
        self.name.as_str()
    }

    /// The plugin's description.
    pub fn description(&self) -> (r: &str)
        ensures
            r@ == self.description@,
    {
        self.description.as_str()
    }

    /// The one topic the plugin answers: `ddl_precheck`.
    pub fn topics(&self) -> (r: Vec<String>)
        ensures
            r.deep_view() == seq!["ddl_precheck"@],
    {
        let mut v: Vec<String> = Vec::new();
        v.push(String::from_str("ddl_precheck"));
        proof {
            assert(v.deep_view() =~= seq!["ddl_precheck"@]);
        }
        v
    }
}

/// A handle through which callers ask for DDL analyses.
#[derive(Debug, Default)]
pub struct DDLAnalysisHandler;

impl DDLAnalysisHandler {
    /// A new handler.
    pub fn new() -> (r: Self) {
        DDLAnalysisHandler
    }

    /// Analyses SQL as `precheck_sql_with_collation` does.
    pub fn analyze_sql(&self, sql: &str, collation_enabled: bool) -> (r: AnalysisResult)
        ensures
            consistent(r),
            match input_refusal(sql@) {
                Some(reason) => is_refusal_result(r, reason),
                None => r.lossy_status == LossyStatus::Unknown && r.risk_level == RiskLevel::High
                    && r.warnings.deep_view() == seq!["ℹ️ TiDB engine not available"@]
                    && r.error is None,
            },
    {
        precheck_sql_with_collation(sql, collation_enabled)
    }
}

} // verus!
