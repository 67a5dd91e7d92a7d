//! DDL pre-check domain model: the statement value object, its risk
//! classification, the analysis aggregate with its recommendations, and the
//! domain service that ties them together.
use vstd::prelude::*;

use crate::text::{
    contains_chars, contains_seq, has_prefix, str_chars, to_uppercase, trim, trim_chars,
    unicode_upper, string_from_chars, byte_len, ascii_upper, is_ascii_text, occurs_at,
};

verus! {

/// Risk level of a DDL statement.
#[derive(Debug, Clone, Copy, PartialEq, Eq, Structural)]
pub enum RiskLevel {
    /// Safe operation.
    Safe,
    /// High-risk operation.
    High,
}

impl RiskLevel {
    /// The display text: `Safe` or `High`.
    pub fn to_string(&self) -> (r: String)
        ensures
            r@ == risk_level_text(*self),
    {
        match self {
            RiskLevel::Safe => String::from_str("Safe"),
            RiskLevel::High => String::from_str("High"),
        }
    }
}

/// The display text of a risk level.
pub open spec fn risk_level_text(r: RiskLevel) -> Seq<char> {
    match r {
        RiskLevel::Safe => "Safe"@,
        RiskLevel::High => "High"@,
    }
}

/// Whether an operation loses data.
#[derive(Debug, Clone, Copy, PartialEq, Eq, Structural)]
pub enum LossyStatus {
    /// No risk of data loss.
    Safe,
    /// The operation may lose data.
    Lossy,
    /// Not known; needs further checking.
    Unknown,
}

impl LossyStatus {
    /// The display text: `Safe`, `Lossy` or `Unknown`.
    pub fn to_string(&self) -> (r: String)
        ensures
            r@ == lossy_status_text(*self),
    {
        match self {
            LossyStatus::Safe => String::from_str("Safe"),
            LossyStatus::Lossy => String::from_str("Lossy"),
            LossyStatus::Unknown => String::from_str("Unknown"),
        }
    }
}

/// The display text of a lossy status.
pub open spec fn lossy_status_text(s: LossyStatus) -> Seq<char> {
    match s {
        LossyStatus::Safe => "Safe"@,
        LossyStatus::Lossy => "Lossy"@,
        LossyStatus::Unknown => "Unknown"@,
    }
}

/// Why a DDL statement was refused.
#[derive(Debug, Clone, PartialEq, Eq)]
pub enum DDLValidationError {
    EmptySQL,
    SQLTooLarge,
    InvalidSyntax(String),
    UnsupportedOperation(String),
}

/// The display text of a validation error.
pub open spec fn validation_error_text(e: DDLValidationError) -> Seq<char> {
    match e {
        DDLValidationError::EmptySQL => "SQL statement cannot be empty"@,
        DDLValidationError::SQLTooLarge => "SQL statement is too large (max 1MB)"@,
        DDLValidationError::InvalidSyntax(msg) => "Invalid SQL syntax: "@ + msg@,
        DDLValidationError::UnsupportedOperation(op) => "Unsupported operation: "@ + op@,
    }
}

impl DDLValidationError {
    /// The display text of the error.
    pub fn to_string(&self) -> (r: String)
        ensures
            r@ == validation_error_text(*self),
    {
        match self {
            DDLValidationError::EmptySQL => String::from_str("SQL statement cannot be empty"),
            DDLValidationError::SQLTooLarge => String::from_str(
                "SQL statement is too large (max 1MB)",
            ),
            DDLValidationError::InvalidSyntax(msg) => {
                String::from_str("Invalid SQL syntax: ").concat(msg.as_str())
            },
            DDLValidationError::UnsupportedOperation(op) => {
                String::from_str("Unsupported operation: ").concat(op.as_str())
            },
        }
    }
}

/// The largest SQL text, in UTF-8 bytes, that a statement may have.
pub const MAX_SQL_BYTES: usize = 1000000;

/// A DDL statement value object: trimmed SQL text and the collation switch.
#[derive(Debug, Clone)]
pub struct DDLStatement {
    pub sql: String,
    pub collation_enabled: bool,
}

/// Whether SQL text makes a statement, and if not, why.
pub open spec fn statement_outcome(sql: Seq<char>) -> Result<(), DDLValidationError> {
    if trim(sql).len() == 0 {
        Err(DDLValidationError::EmptySQL)
    } else if byte_len(sql) > MAX_SQL_BYTES {
        Err(DDLValidationError::SQLTooLarge)
    } else {
        Ok(())
    }
}

/// Whether the upper-cased text begins with a DDL keyword.
pub open spec fn starts_with_ddl_keyword(u: Seq<char>) -> bool {
    ||| has_prefix(u, "CREATE"@)
    ||| has_prefix(u, "ALTER"@)
    ||| has_prefix(u, "DROP"@)
    ||| has_prefix(u, "TRUNCATE"@)
    ||| has_prefix(u, "RENAME"@)
}

/// Whether the upper-cased text holds a keyword of a risky operation.
pub open spec fn holds_risky_keyword(u: Seq<char>) -> bool {
    ||| contains_seq(u, "DROP"@)
    ||| contains_seq(u, "TRUNCATE"@)
    ||| (contains_seq(u, "ALTER"@) && contains_seq(u, "DROP COLUMN"@))
}

/// Whether the text begins with one of the DDL keywords.
pub fn has_ddl_keyword_prefix(upper: &str) -> (b: bool)
    ensures
        b == starts_with_ddl_keyword(upper@),
{
    let u = str_chars(upper);
    let u = u.as_slice();
    starts_with_chars(u, str_chars("CREATE").as_slice())
        || starts_with_chars(u, str_chars("ALTER").as_slice())
        || starts_with_chars(u, str_chars("DROP").as_slice())
        || starts_with_chars(u, str_chars("TRUNCATE").as_slice())
        || starts_with_chars(u, str_chars("RENAME").as_slice())
}

/// Whether the text holds a keyword of a risky operation.
pub fn has_risky_keyword(upper: &str) -> (b: bool)
    ensures
        b == holds_risky_keyword(upper@),
{
    let u = str_chars(upper);
    let u = u.as_slice();
    contains_chars(u, str_chars("DROP").as_slice())
        || contains_chars(u, str_chars("TRUNCATE").as_slice())
        || (contains_chars(u, str_chars("ALTER").as_slice())
            && contains_chars(u, str_chars("DROP COLUMN").as_slice()))
}

use crate::text::starts_with_chars;

impl DDLStatement {
    /// Builds a statement from SQL text: refused when the text is only white
    /// space, or longer than 1,000,000 UTF-8 bytes; kept trimmed otherwise.
    pub fn new(sql: String, collation_enabled: bool) -> (r: Result<Self, DDLValidationError>)
        ensures
            trim(sql@).len() == 0 <==> r == Err::<Self, _>(DDLValidationError::EmptySQL),
            trim(sql@).len() > 0 && byte_len(sql@) > MAX_SQL_BYTES
                <==> r == Err::<Self, _>(DDLValidationError::SQLTooLarge),
            r is Ok <==> trim(sql@).len() > 0 && byte_len(sql@) <= MAX_SQL_BYTES,
            r matches Ok(st) ==> st.sql@ == trim(sql@) && st.collation_enabled == collation_enabled,
    {
        let chars = str_chars(sql.as_str());
        let trimmed = trim_chars(chars.as_slice());
        if trimmed.len() == 0 {
            return Err(DDLValidationError::EmptySQL);
        }
        if sql.as_str().len() > MAX_SQL_BYTES {
            return Err(DDLValidationError::SQLTooLarge);
        }
        Ok(DDLStatement { sql: string_from_chars(trimmed.as_slice()), collation_enabled })
    }

    /// Whether the upper-cased SQL begins with CREATE, ALTER, DROP, TRUNCATE or
    /// RENAME.
    pub fn is_ddl(&self) -> (b: bool)
        ensures
            b == starts_with_ddl_keyword(unicode_upper(self.sql@)),
            is_ascii_text(self.sql@) ==> b == starts_with_ddl_keyword(ascii_upper(self.sql@)),
    {
        let upper = to_uppercase(self.sql.as_str());
        has_ddl_keyword_prefix(upper.as_str())
    }

    /// Whether the upper-cased SQL holds DROP or TRUNCATE, or both ALTER and
    /// DROP COLUMN.
    pub fn is_potentially_risky(&self) -> (b: bool)
        ensures
            b == holds_risky_keyword(unicode_upper(self.sql@)),
            is_ascii_text(self.sql@) ==> b == holds_risky_keyword(ascii_upper(self.sql@)),
    {
        let upper = to_uppercase(self.sql.as_str());
        has_risky_keyword(upper.as_str())
    }
}


/// Some issue in the list mentions `word`.
pub open spec fn some_issue_mentions(issues: Seq<Seq<char>>, word: Seq<char>) -> bool {
    exists|i: int| 0 <= i < issues.len() && contains_seq(#[trigger] issues[i], word)
}

/// The advice that goes with a lossy status and the issues found.
pub open spec fn recommendations_for(status: LossyStatus, issues: Seq<Seq<char>>) -> Seq<Seq<char>> {
    match status {
        LossyStatus::Lossy => seq![
            "Ensure no data is lost due to truncation, and run ANALYZE TABLE immediately after DDL to avoid statistics loss impacting SQL performance."@,
        ] + if some_issue_mentions(issues, "DROP"@) {
            seq!["Consider backing up affected data before executing DROP operations."@]
        } else {
            Seq::empty()
        },
        LossyStatus::Safe => if some_issue_mentions(issues, "performance"@) {
            seq!["Consider executing during low-traffic periods for better performance."@]
        } else {
            Seq::empty()
        },
        LossyStatus::Unknown => seq![
            "Please check your SQL syntax based on the provided hints."@,
            "Review the SQL statement for potential syntax errors or unsupported operations."@,
        ],
    }
}

/// Whether some issue mentions `word`.
fn any_issue_mentions(issues: &[String], word: &str) -> (b: bool)
    ensures
        b == some_issue_mentions(issues.deep_view(), word@),
{
    let w = str_chars(word);
    let mut i: usize = 0;
    while i < issues.len()
        invariant
            i <= issues@.len(),
            w@ == word@,
            forall|k: int| 0 <= k < i ==> !contains_seq(#[trigger] issues.deep_view()[k], word@),
        decreases issues.len() - i,
    {
        let c = str_chars(issues[i].as_str());
        if contains_chars(c.as_slice(), w.as_slice()) {
            assert(issues.deep_view()[i as int] == issues@[i as int]@);
            return true;
        }
        assert(issues.deep_view()[i as int] == issues@[i as int]@);
        i = i + 1;
    }
    false
}

/// The analysis aggregate root of one DDL statement.
#[derive(Debug, Clone)]
pub struct DDLAnalysisResult {
    pub statement: DDLStatement,
    pub lossy_status: LossyStatus,
    pub risk_level: RiskLevel,
    pub issues: Vec<String>,
    pub recommendations: Vec<String>,
    pub error: Option<String>,
}

impl DDLAnalysisResult {
    /// Builds the result, with the recommendations that the status and the
    /// issues call for.
    pub fn new(
        statement: DDLStatement,
        lossy_status: LossyStatus,
        risk_level: RiskLevel,
        issues: Vec<String>,
        error: Option<String>,
    ) -> (r: Self)
        ensures
            r.statement == statement,
            r.lossy_status == lossy_status,
            r.risk_level == risk_level,
            r.issues == issues,
            r.error == error,
            r.recommendations.deep_view() == recommendations_for(lossy_status, issues.deep_view()),
    {
        let recommendations = Self::generate_recommendations(&lossy_status, issues.as_slice());
        DDLAnalysisResult { statement, lossy_status, risk_level, issues, recommendations, error }
    }

    /// The advice for a status and the issues found.
    pub fn generate_recommendations(lossy_status: &LossyStatus, issues: &[String]) -> (r: Vec<String>)
        ensures
            r.deep_view() == recommendations_for(*lossy_status, issues.deep_view()),
    {
        let mut recommendations: Vec<String> = Vec::new();
        match lossy_status {
            LossyStatus::Lossy => {
                recommendations.push(String::from_str(
                    "Ensure no data is lost due to truncation, and run ANALYZE TABLE immediately after DDL to avoid statistics loss impacting SQL performance.",
                ));
                if any_issue_mentions(issues, "DROP") {
                    recommendations.push(String::from_str(
                        "Consider backing up affected data before executing DROP operations.",
                    ));
                }
            },
            LossyStatus::Safe => {
                if any_issue_mentions(issues, "performance") {
                    recommendations.push(String::from_str(
                        "Consider executing during low-traffic periods for better performance.",
                    ));
                }
            },
            LossyStatus::Unknown => {
                recommendations.push(String::from_str(
                    "Please check your SQL syntax based on the provided hints.",
                ));
                recommendations.push(String::from_str(
                    "Review the SQL statement for potential syntax errors or unsupported operations.",
                ));
            },
        }
        proof {
            assert(recommendations.deep_view() =~= recommendations_for(
                *lossy_status,
                issues.deep_view(),
            ));
        }
        recommendations
    }

    /// Whether the analysis carries an error.
    pub fn has_error(&self) -> (b: bool)
        ensures
            b == self.error.is_some(),
    {
        self.error.is_some()
    }

    /// Whether the risk level is high.
    pub fn is_high_risk(&self) -> (b: bool)
        ensures
            b == (self.risk_level == RiskLevel::High),
    {
        self.risk_level == RiskLevel::High
    }
}

/// The risk level that a statement with a given lossy status carries.
pub open spec fn risk_for(potentially_risky: bool, status: LossyStatus) -> RiskLevel {
    match status {
        LossyStatus::Lossy => RiskLevel::High,
        LossyStatus::Safe => if potentially_risky { RiskLevel::High } else { RiskLevel::Safe },
        LossyStatus::Unknown => RiskLevel::High,
    }
}

/// Domain service of the DDL pre-check.
pub struct DDLPrecheckDomainService;

impl DDLPrecheckDomainService {
    /// Validates SQL text into a statement, as `DDLStatement::new` does.
    pub fn validate_ddl_statement(sql: &str, collation_enabled: bool) -> (r: Result<
        DDLStatement,
        DDLValidationError,
    >)
        ensures
            trim(sql@).len() == 0 <==> r == Err::<DDLStatement, _>(DDLValidationError::EmptySQL),
            trim(sql@).len() > 0 && byte_len(sql@) > MAX_SQL_BYTES <==> r == Err::<
                DDLStatement,
                _,
            >(DDLValidationError::SQLTooLarge),
            r is Ok <==> trim(sql@).len() > 0 && byte_len(sql@) <= MAX_SQL_BYTES,
            r matches Ok(st) ==> st.sql@ == trim(sql@) && st.collation_enabled == collation_enabled,
    {
        DDLStatement::new(String::from_str(sql), collation_enabled)
    }

    /// A lossy or unknown status is high risk; a safe status is high risk only
    /// when the statement holds a risky keyword.
    pub fn assess_risk_level(statement: &DDLStatement, lossy_status: &LossyStatus) -> (r: RiskLevel)
        ensures
            r == risk_for(holds_risky_keyword(unicode_upper(statement.sql@)), *lossy_status),
            is_ascii_text(statement.sql@) ==> r == risk_for(
                holds_risky_keyword(ascii_upper(statement.sql@)),
                *lossy_status,
            ),
    {
        match lossy_status {
            LossyStatus::Lossy => RiskLevel::High,
            LossyStatus::Safe => {
                if statement.is_potentially_risky() {
                    RiskLevel::High
                } else {
                    RiskLevel::Safe
                }
            },
            LossyStatus::Unknown => RiskLevel::High,
        }
    }
}

/// Only a safe status can be judged safe: whatever the statement, a lossy or an
/// unknown status gives a high risk level.
pub proof fn lemma_only_safe_status_is_low_risk(statement: DDLStatement, status: LossyStatus)
    ensures
        risk_for(holds_risky_keyword(unicode_upper(statement.sql@)), status) == RiskLevel::Safe
            ==> status == LossyStatus::Safe,
{
}

/// Every status but a safe one comes with advice.
pub proof fn lemma_unsafe_status_has_recommendations(status: LossyStatus, issues: Seq<Seq<char>>)
    ensures
        status != LossyStatus::Safe ==> recommendations_for(status, issues).len() >= 1,
{
}

/// A statement is DDL when its upper-cased text begins with any of CREATE,
/// ALTER, DROP, TRUNCATE or RENAME; a text that begins with DROP is moreover
/// potentially risky.
pub proof fn lemma_ddl_keywords_make_ddl(u: Seq<char>)
    ensures
        has_prefix(u, "CREATE"@) ==> starts_with_ddl_keyword(u),
        has_prefix(u, "ALTER"@) ==> starts_with_ddl_keyword(u),
        has_prefix(u, "DROP"@) ==> starts_with_ddl_keyword(u) && holds_risky_keyword(u),
        has_prefix(u, "TRUNCATE"@) ==> starts_with_ddl_keyword(u) && holds_risky_keyword(u),
        has_prefix(u, "RENAME"@) ==> starts_with_ddl_keyword(u),
{
    if has_prefix(u, "DROP"@) {
        assert(occurs_at(u, "DROP"@, 0));
    }
    if has_prefix(u, "TRUNCATE"@) {
        assert(occurs_at(u, "TRUNCATE"@, 0));
    }
}

/// Wherever DROP or TRUNCATE occurs in the upper-cased text, or ALTER together
/// with DROP COLUMN, the statement is potentially risky, and no lossy status
/// makes it safe: even a safe status gives a high risk level.
pub proof fn lemma_dropping_statements_are_high_risk(u: Seq<char>, status: LossyStatus)
    ensures
        contains_seq(u, "DROP"@) ==> holds_risky_keyword(u) && risk_for(holds_risky_keyword(u), status)
            == RiskLevel::High,
        contains_seq(u, "TRUNCATE"@) ==> holds_risky_keyword(u) && risk_for(holds_risky_keyword(u), status)
            == RiskLevel::High,
        contains_seq(u, "ALTER"@) && contains_seq(u, "DROP COLUMN"@) ==> holds_risky_keyword(u)
            && risk_for(holds_risky_keyword(u), status) == RiskLevel::High,
{
}

} // verus!
