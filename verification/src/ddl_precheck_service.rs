//! Application service of the DDL pre-check: validates a request, decides
//! whether the external analysis is needed, and turns its outcome into the
//! response.
use vstd::prelude::*;

use crate::ddl_precheck::{
    holds_risky_keyword, lossy_status_text, recommendations_for, risk_for, risk_level_text,
    starts_with_ddl_keyword, statement_outcome, validation_error_text, DDLAnalysisResult, DDLPrecheckDomainService,
    DDLStatement, LossyStatus,
};
use crate::shared::DomainError;
use crate::text::{
    bool_text, bool_to_string, push_str_chars, str_chars, str_eq, string_from_chars,
    take_at_most, trim, unicode_upper,
};

verus! {

/// A request to pre-check a DDL statement.
#[derive(Debug)]
pub struct DDLPrecheckRequest {
    pub sql: String,
    pub collation_enabled: bool,
}

/// The collation switch of a request that does not set it: on.
pub fn default_collation_enabled() -> (b: bool)
    ensures
        b,
{
    true
}

/// The answer to a pre-check request.
#[derive(Debug, Clone)]
pub struct DDLPrecheckResponse {
    pub lossy_status: String,
    pub risk_level: String,
    pub issues: Vec<String>,
    pub recommendations: Vec<String>,
    pub error: Option<String>,
    pub analysis_details: Option<String>,
}

/// What an external analysis engine reports of a statement.
#[derive(Debug, Clone)]
pub struct ExternalAnalysisResult {
    pub lossy_status: String,
    pub warnings: Vec<String>,
    pub error: Option<String>,
}

/// The details line of a response: the first 100 characters of the SQL and the
/// collation switch.
pub open spec fn analysis_details_text(sql: Seq<char>, collation_enabled: bool) -> Seq<char> {
    "DDL statement: "@ + take_at_most(sql, 100) + " (collation_enabled: "@ + bool_text(
        collation_enabled,
    ) + ")"@
}

impl DDLPrecheckResponse {
    /// The response for an analysis result: statuses as text, issues,
    /// recommendations and error as they are, and a details line.
    pub fn from_analysis_result(result: DDLAnalysisResult) -> (r: Self)
        ensures
            r.lossy_status@ == lossy_status_text(result.lossy_status),
            r.risk_level@ == risk_level_text(result.risk_level),
            r.issues == result.issues,
            r.recommendations == result.recommendations,
            r.error == result.error,
            r.analysis_details matches Some(d) && d@ == analysis_details_text(
                result.statement.sql@,
                result.statement.collation_enabled,
            ),
    {
        let sql = str_chars(result.statement.sql.as_str());
        let mut d: Vec<char> = Vec::new();
        push_str_chars(&mut d, "DDL statement: ");
        let mut i: usize = 0;
        let n: usize = if sql.len() < 100 { sql.len() } else { 100 };
        while i < n
            invariant
                i <= n <= sql@.len(),
                n as int == (if sql@.len() < 100 { sql@.len() as int } else { 100 }),
                d@ == "DDL statement: "@ + sql@.take(i as int),
            decreases n - i,
        {
            d.push(sql[i]);
            proof {
                assert(sql@.take(i + 1) =~= sql@.take(i as int).push(sql@[i as int]));
            }
            i = i + 1;
        }
        proof {
            if sql@.len() <= 100 {
                assert(sql@.take(n as int) =~= sql@);
            }
        }
        push_str_chars(&mut d, " (collation_enabled: ");
        let b = bool_to_string(result.statement.collation_enabled);
        push_str_chars(&mut d, b.as_str());
        push_str_chars(&mut d, ")");
        proof {
            assert(d@ =~= analysis_details_text(
                result.statement.sql@,
                result.statement.collation_enabled,
            ));
        }
        DDLPrecheckResponse {
            lossy_status: result.lossy_status.to_string(),
            risk_level: result.risk_level.to_string(),
            issues: result.issues,
            recommendations: result.recommendations,
            error: result.error,
            analysis_details: Some(string_from_chars(d.as_slice())),
        }
    }
}

/// The lossy status that an engine's status text stands for: `Safe`, `Lossy`,
/// and anything else unknown.
pub open spec fn lossy_status_of_text(t: Seq<char>) -> LossyStatus {
    if t == "Safe"@ {
        LossyStatus::Safe
    } else if t == "Lossy"@ {
        LossyStatus::Lossy
    } else {
        LossyStatus::Unknown
    }
}

/// The issues of an external analysis: its warnings, then a generic issue for
/// a lossy status without warnings or for an unknown status.
pub open spec fn issues_of(lossy_status: Seq<char>, warnings: Seq<Seq<char>>) -> Seq<Seq<char>> {
    if lossy_status == "Lossy"@ && warnings.len() == 0 {
        seq!["Operation may cause data loss or schema changes"@]
    } else if lossy_status == "Unknown"@ {
        warnings.push("Unable to determine operation safety"@)
    } else {
        warnings
    }
}

/// What the service does after validating a request.
pub enum PrecheckPlan {
    /// Answer at once, without analysis.
    Respond(DDLPrecheckResponse),
    /// Analyse the statement with the external engine.
    Analyze(DDLStatement),
}

/// The answer to a statement that is not DDL.
pub open spec fn is_non_ddl_response(r: DDLPrecheckResponse) -> bool {
    &&& r.lossy_status@ == "Unknown"@
    &&& r.risk_level@ == "Safe"@
    &&& r.issues.deep_view() == seq!["Not a DDL statement"@]
    &&& r.recommendations.deep_view() == seq![
        "Please provide a valid DDL statement (CREATE, ALTER, DROP, etc.)"@,
    ]
    &&& r.error is None
    &&& r.analysis_details matches Some(d) && d@ == "Statement is not a DDL operation"@
}

/// The response built from the engine's analysis `a` of the (trimmed)
/// statement `sql`: the status converted, the risk the statement and the
/// status call for, the issues extracted, the recommendations that follow,
/// the engine's error, and the details line naming the statement.
pub open spec fn analysed_response_is(
    resp: DDLPrecheckResponse,
    sql: Seq<char>,
    collation_enabled: bool,
    a: ExternalAnalysisResult,
) -> bool {
    &&& resp.lossy_status@ == lossy_status_text(lossy_status_of_text(a.lossy_status@))
    &&& resp.risk_level@ == risk_level_text(
        risk_for(holds_risky_keyword(unicode_upper(sql)), lossy_status_of_text(a.lossy_status@)),
    )
    &&& resp.issues.deep_view() == issues_of(a.lossy_status@, a.warnings.deep_view())
    &&& resp.recommendations.deep_view() == recommendations_for(
        lossy_status_of_text(a.lossy_status@),
        issues_of(a.lossy_status@, a.warnings.deep_view()),
    )
    &&& resp.error == a.error
    &&& resp.analysis_details == Some(resp.analysis_details->0)
    &&& resp.analysis_details->0@ == analysis_details_text(sql, collation_enabled)
}

/// The engine that analyses DDL statements; implemented by the part that
/// reaches it.
pub trait DDLAnalysisService {
    /// Whether `r` is an answer this engine gives when asked about the
    /// statement `sql` with the collation switch. An engine states its
    /// answers by overriding this; one that does not allows any answer.
    open spec fn answers(&self, sql: Seq<char>, collation_enabled: bool, r: Result<ExternalAnalysisResult, DomainError>) -> bool {
        true
    }

    /// The engine's analysis of a statement.
    fn analyze_ddl(&self, sql: &str, collation_enabled: bool) -> (r: Result<ExternalAnalysisResult, DomainError>)
        ensures
            self.answers(sql@, collation_enabled, r),
    ;
}

/// The DDL pre-check use case.
pub trait DDLPrecheckApplicationService {
    /// Pre-checks the statement of a request.
    fn precheck_ddl(&self, request: DDLPrecheckRequest) -> Result<DDLPrecheckResponse, DomainError>;
}

/// The DDL pre-check application service; `S` is the analysis engine it asks.
pub struct DDLPrecheckApplicationServiceImpl<S> {
    pub analysis_service: S,
}

impl<S> DDLPrecheckApplicationServiceImpl<S> {
    /// A service that asks the given analysis engine.
    pub fn new(analysis_service: S) -> (r: Self)
        ensures
            r.analysis_service == analysis_service,
    {
        DDLPrecheckApplicationServiceImpl { analysis_service }
    }

    /// The domain lossy status for an engine's status text.
    pub fn convert_lossy_status(plugin_status: &str) -> (r: LossyStatus)
        ensures
            r == lossy_status_of_text(plugin_status@),
    {
        if str_eq(plugin_status, "Safe") {
            LossyStatus::Safe
        } else if str_eq(plugin_status, "Lossy") {
            LossyStatus::Lossy
        } else {
            LossyStatus::Unknown
        }
    }

    /// The issues that an external analysis reports.
    pub fn extract_issues_from_analysis_result(analysis_result: &ExternalAnalysisResult) -> (r: Vec<
        String,
    >)
        ensures
            r.deep_view() == issues_of(
                analysis_result.lossy_status@,
                analysis_result.warnings.deep_view(),
            ),
    {
        let mut issues = analysis_result.warnings.clone();
        proof {
            assert(issues.deep_view() =~= analysis_result.warnings.deep_view());
        }
        if str_eq(analysis_result.lossy_status.as_str(), "Lossy") {
            if issues.len() == 0 {
                issues.push(String::from_str("Operation may cause data loss or schema changes"));
            }
        } else if str_eq(analysis_result.lossy_status.as_str(), "Unknown") {
            issues.push(String::from_str("Unable to determine operation safety"));
        }
        proof {
            reveal_strlit("Lossy");
            reveal_strlit("Unknown");
            assert("Lossy"@.len() == 5 && "Unknown"@.len() == 7);
            assert(issues.deep_view() =~= issues_of(
                analysis_result.lossy_status@,
                analysis_result.warnings.deep_view(),
            ));
        }
        issues
    }

    /// Validates the request: a refused statement gives a validation error
    /// with the refusal's text; a statement that is not DDL is answered at
    /// once; a DDL statement goes to the analysis engine.
    pub fn plan_precheck(request: &DDLPrecheckRequest) -> (r: Result<PrecheckPlan, DomainError>)
        ensures
            match statement_outcome(request.sql@) {
                Err(e) => r matches Err(DomainError::ValidationError { message }) && message@
                    == validation_error_text(e),
                Ok(_) => r is Ok,
            },
            r matches Ok(PrecheckPlan::Respond(resp)) ==> !starts_with_ddl_keyword(
                unicode_upper(trim(request.sql@)),
            ) && is_non_ddl_response(resp),
            r matches Ok(PrecheckPlan::Analyze(st)) ==> starts_with_ddl_keyword(
                unicode_upper(trim(request.sql@)),
            ) && st.sql@ == trim(request.sql@) && st.collation_enabled
                == request.collation_enabled,
    {
        let statement = match DDLPrecheckDomainService::validate_ddl_statement(
            request.sql.as_str(),
            request.collation_enabled,
        ) {
            Ok(st) => st,
            Err(e) => {
                return Err(DomainError::ValidationError { message: e.to_string() });
            },
        };
        if !statement.is_ddl() {
            let mut issues: Vec<String> = Vec::new();
            issues.push(String::from_str("Not a DDL statement"));
            let mut recommendations: Vec<String> = Vec::new();
            recommendations.push(String::from_str(
                "Please provide a valid DDL statement (CREATE, ALTER, DROP, etc.)",
            ));
            let resp = DDLPrecheckResponse {
                lossy_status: String::from_str("Unknown"),
                risk_level: String::from_str("Safe"),
                issues,
                recommendations,
                error: None,
                analysis_details: Some(String::from_str("Statement is not a DDL operation")),
            };
            proof {
                assert(resp.issues.deep_view() =~= seq!["Not a DDL statement"@]);
                assert(resp.recommendations.deep_view() =~= seq![
                    "Please provide a valid DDL statement (CREATE, ALTER, DROP, etc.)"@,
                ]);
            }
            return Ok(PrecheckPlan::Respond(resp));
        }
        Ok(PrecheckPlan::Analyze(statement))
    }

    /// Builds the response from the engine's analysis of a DDL statement: the
    /// status converted, the risk assessed, the issues extracted and the
    /// recommendations that follow.
    pub fn complete_precheck(statement: DDLStatement, analysis_result: ExternalAnalysisResult) -> (r:
        DDLPrecheckResponse)
        ensures
            r.lossy_status@ == lossy_status_text(
                lossy_status_of_text(analysis_result.lossy_status@),
            ),
            r.risk_level@ == risk_level_text(
                risk_for(
                    holds_risky_keyword(unicode_upper(statement.sql@)),
                    lossy_status_of_text(analysis_result.lossy_status@),
                ),
            ),
            r.issues.deep_view() == issues_of(
                analysis_result.lossy_status@,
                analysis_result.warnings.deep_view(),
            ),
            r.recommendations.deep_view() == recommendations_for(
                lossy_status_of_text(analysis_result.lossy_status@),
                issues_of(analysis_result.lossy_status@, analysis_result.warnings.deep_view()),
            ),
            r.error == analysis_result.error,
            r.analysis_details matches Some(d) && d@ == analysis_details_text(
                statement.sql@,
                statement.collation_enabled,
            ),
    {
        let lossy_status = Self::convert_lossy_status(analysis_result.lossy_status.as_str());
        let risk_level = DDLPrecheckDomainService::assess_risk_level(&statement, &lossy_status);
        let issues = Self::extract_issues_from_analysis_result(&analysis_result);
        let error = analysis_result.error;
        let result = DDLAnalysisResult::new(statement, lossy_status, risk_level, issues, error);
        DDLPrecheckResponse::from_analysis_result(result)
    }
}

impl<S: DDLAnalysisService> DDLPrecheckApplicationService for DDLPrecheckApplicationServiceImpl<S> {
    /// Validates the request, answers a statement that is not DDL at once,
    /// and otherwise asks the engine, passes its error on, and builds the
    /// response from its analysis as `complete_precheck` does.
    fn precheck_ddl(&self, request: DDLPrecheckRequest) -> (r: Result<DDLPrecheckResponse, DomainError>)
        ensures
            statement_outcome(request.sql@) matches Err(e) ==> (r matches Err(DomainError::ValidationError { message })
                && message@ == validation_error_text(e)),
            (statement_outcome(request.sql@) is Ok && !starts_with_ddl_keyword(unicode_upper(trim(request.sql@))))
                ==> (r matches Ok(resp) && is_non_ddl_response(resp)),
            (statement_outcome(request.sql@) is Ok && starts_with_ddl_keyword(unicode_upper(trim(request.sql@))))
                ==> match r {
                Err(e) => self.analysis_service.answers(request.sql@, request.collation_enabled, Err(e)),
                Ok(resp) => exists|a: ExternalAnalysisResult|
                    #[trigger] self.analysis_service.answers(request.sql@, request.collation_enabled, Ok(a))
                        && analysed_response_is(resp, trim(request.sql@), request.collation_enabled, a),
            },
    {
        match Self::plan_precheck(&request)? {
            PrecheckPlan::Respond(resp) => Ok(resp),
            PrecheckPlan::Analyze(statement) => {
                let analysis = self.analysis_service.analyze_ddl(request.sql.as_str(), request.collation_enabled)?;
                let ghost a = analysis;
                let resp = Self::complete_precheck(statement, analysis);
                proof {
                    assert(analysed_response_is(resp, trim(request.sql@), request.collation_enabled, a));
                }
                Ok(resp)
            },
        }
    }
}

/// Reading back the text of a status gives the status: the engine's text and
/// the domain's text agree.
pub proof fn lemma_status_text_round_trip(s: LossyStatus)
    ensures
        lossy_status_of_text(lossy_status_text(s)) == s,
{
    reveal_strlit("Safe");
    reveal_strlit("Lossy");
    reveal_strlit("Unknown");
    assert("Safe"@.len() == 4 && "Lossy"@.len() == 5 && "Unknown"@.len() == 7);
    assert("Safe"@ != "Lossy"@);
    assert("Unknown"@ != "Lossy"@);
    assert("Unknown"@ != "Safe"@);
}

/// The engine's warnings are kept, in order, at the head of the issues.
pub proof fn lemma_warnings_kept(lossy_status: Seq<char>, warnings: Seq<Seq<char>>)
    ensures
        warnings.is_prefix_of(issues_of(lossy_status, warnings)),
{
}

} // verus!
