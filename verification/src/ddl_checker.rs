//! DDL script checking ahead of the schema tracker: unsupported RENAME COLUMN
//! syntax is reported with a rewrite, and the script must create a database,
//! create a table in it and alter that table.
use vstd::prelude::*;

use regex::Regex;
use sqlparser::dialect::MySqlDialect;
use sqlparser::parser::Parser;
use sqlparser::ast::{ObjectName, Statement};

use crate::lossy_ddl::{
    consistent, create_error_result_from_error, create_success_result,
    input_refusal, validate_sql, AnalysisResult, LossyStatus, RiskLevel,
};
use crate::text::{
    char_vecs_view, split_chars, split_on, str_chars, string_from_chars, to_lowercase, trim,
    trim_chars, unicode_lower, push_str_chars, push_chars, extend_strings, is_white_space,
    lemma_trim_idempotent, lemma_trim_leading_white_space,
};

verus! {

/// The groups that the regular expression `pattern` captures at its first
/// match in `text`: `None` when it does not match (or does not compile); group
/// 0 is the whole match, and an unmatched group is `None`.
pub uninterp spec fn regex_capture_groups(pattern: Seq<char>, text: Seq<char>) -> Option<
    Seq<Option<Seq<char>>>,
>;

/// Calls `Regex::new` and `Regex::captures`; the contract names the capture
/// groups, which depend on the pattern and the text alone.
#[verifier::external_body]
fn regex_captures(pattern: &str, text: &str) -> (r: Option<Vec<Option<String>>>)
    ensures
        r.deep_view() == regex_capture_groups(pattern@, text@),
{
    let caps = Regex::new(pattern).ok()?.captures(text)?;
    Some(caps.iter().map(|m| m.map(|m| m.as_str().to_string())).collect())
}

/// The text `format!("{:?}", v)` gives for an optional string.
pub uninterp spec fn option_debug_text(v: Option<Seq<char>>) -> Seq<char>;

/// Formats an optional string with `Debug`; the contract names the text, which
/// depends on the value alone.
#[verifier::external_body]
fn debug_option_string(v: &Option<String>) -> (r: String)
    ensures
        r@ == option_debug_text(v.deep_view()),
{
    format!("{:?}", v)
}

/// The kind of a parsed statement, as far as the check reads it.
#[derive(Debug, Clone, Copy, PartialEq, Eq, Structural)]
pub enum StatementKind {
    CreateDatabase,
    CreateTable,
    AlterTable,
    Other,
}

/// A parsed statement: its kind and the parts of the name it creates or
/// alters, each the identifier's text or `None` for a part that is not a plain
/// identifier.
#[derive(Debug, Clone)]
pub struct StatementTarget {
    pub kind: StatementKind,
    pub name_parts: Vec<Option<String>>,
}

/// What a parsed statement is, as plain values.
pub struct TargetView {
    pub kind: StatementKind,
    pub name_parts: Seq<Option<Seq<char>>>,
}

impl View for StatementTarget {
    type V = TargetView;

    open spec fn view(&self) -> TargetView {
        TargetView { kind: self.kind, name_parts: self.name_parts.deep_view() }
    }
}

/// The statements that `Parser::parse_sql` finds in `sql` with the MySQL
/// dialect, each reduced to its kind and target name, or the parser's error
/// text.
pub uninterp spec fn mysql_statement_targets(sql: Seq<char>) -> Result<Seq<TargetView>, Seq<char>>;

/// The views of a list of parsed statements.
pub open spec fn targets_view(v: Seq<StatementTarget>) -> Seq<TargetView> {
    v.map_values(|t: StatementTarget| t@)
}

/// Parses SQL with `sqlparser`'s MySQL dialect and reduces each statement to
/// its kind and target name; the contract names the result, which depends on
/// the text alone.
#[verifier::external_body]
fn parse_statement_targets(sql: &str) -> (r: Result<Vec<StatementTarget>, String>)
    ensures
        match r {
            Ok(v) => mysql_statement_targets(sql@) == Ok::<_, Seq<char>>(targets_view(v@)),
            Err(e) => mysql_statement_targets(sql@) == Err::<Seq<TargetView>, _>(e@),
        },
{
    let parts = |n: &ObjectName| n.0.iter().map(|p| p.as_ident().map(|i| i.value.clone())).collect();
    let stmts = Parser::parse_sql(&MySqlDialect {}, sql).map_err(|e| e.to_string())?;
    Ok(stmts.iter().map(|s| match s {
        Statement::CreateDatabase { db_name, .. } => StatementTarget { kind: StatementKind::CreateDatabase, name_parts: parts(db_name) },
        Statement::CreateTable(t) => StatementTarget { kind: StatementKind::CreateTable, name_parts: parts(&t.name) },
        Statement::AlterTable(t) => StatementTarget { kind: StatementKind::AlterTable, name_parts: parts(&t.name) },
        _ => StatementTarget { kind: StatementKind::Other, name_parts: Vec::new() },
    }).collect())
}

/// The pattern that spots RENAME COLUMN in lower-cased text.
pub const RENAME_COLUMN_LOWER: &'static str = "^alter\\s+table\\s+([\\w.]+)\\s+rename\\s+column\\s+([\\w`]+)\\s+to\\s+([\\w`]+)";

/// The pattern that takes table and column names from the original text.
pub const RENAME_COLUMN_ANY_CASE: &'static str = "(?i)^ALTER\\s+TABLE\\s+([\\w.]+)\\s+RENAME\\s+COLUMN\\s+([\\w`]+)\\s+TO\\s+([\\w`]+)";

/// The text of capture group `i`, or nothing when it did not take part.
pub open spec fn group_text(caps: Seq<Option<Seq<char>>>, i: int) -> Seq<char> {
    if 0 <= i < caps.len() && caps[i] is Some {
        caps[i]->0
    } else {
        Seq::empty()
    }
}

/// The warnings for one statement of the script: RENAME COLUMN is not
/// supported, and the CHANGE clause that does the same.
pub open spec fn line_warnings(line: Seq<char>) -> Seq<Seq<char>> {
    let t = trim(line);
    if regex_capture_groups(RENAME_COLUMN_LOWER@, unicode_lower(t)) is Some {
        match regex_capture_groups(RENAME_COLUMN_ANY_CASE@, t) {
            Some(caps) => seq![
                "Detected unsupported RENAME COLUMN syntax in TiHC DDL Precheck."@,
                "Recommended: ALTER TABLE "@ + group_text(caps, 1) + " CHANGE "@ + group_text(caps, 2)
                    + " "@ + group_text(caps, 3) + " <column_type>; "@,
            ],
            None => Seq::empty(),
        }
    } else {
        Seq::empty()
    }
}

/// The warnings of all statements, in order.
pub open spec fn rename_warnings(lines: Seq<Seq<char>>) -> Seq<Seq<char>>
    decreases lines.len(),
{
    if lines.len() == 0 {
        Seq::empty()
    } else {
        rename_warnings(lines.drop_last()) + line_warnings(lines.last())
    }
}

/// The text of capture group `i`.
fn capture_text(caps: &Vec<Option<String>>, i: usize) -> (r: Vec<char>)
    ensures
        r@ == group_text(caps.deep_view(), i as int),
{
    if i < caps.len() {
        match &caps[i] {
            Some(s) => str_chars(s.as_str()),
            None => Vec::new(),
        }
    } else {
        Vec::new()
    }
}

/// The warnings for one statement of the script.
fn warnings_for_line(line: &[char]) -> (r: Vec<String>)
    ensures
        r.deep_view() == line_warnings(line@),
{
    let t = trim_chars(line);
    let ts = string_from_chars(t.as_slice());
    let lower = to_lowercase(ts.as_str());
    let mut r: Vec<String> = Vec::new();
    if regex_captures(RENAME_COLUMN_LOWER, lower.as_str()).is_some() {
        if let Some(caps) = regex_captures(RENAME_COLUMN_ANY_CASE, ts.as_str()) {
            let mut w: Vec<char> = Vec::new();
            push_str_chars(&mut w, "Recommended: ALTER TABLE ");
            push_chars(&mut w, capture_text(&caps, 1).as_slice());
            push_str_chars(&mut w, " CHANGE ");
            push_chars(&mut w, capture_text(&caps, 2).as_slice());
            push_str_chars(&mut w, " ");
            push_chars(&mut w, capture_text(&caps, 3).as_slice());
            push_str_chars(&mut w, " <column_type>; ");
            r.push(String::from_str("Detected unsupported RENAME COLUMN syntax in TiHC DDL Precheck."));
            r.push(string_from_chars(w.as_slice()));
        }
    }
    proof {
        assert(r.deep_view() =~= line_warnings(line@));
    }
    r
}

/// The warnings for RENAME COLUMN in every statement of the script.
pub fn rename_column_warnings(sql: &str) -> (r: Vec<String>)
    ensures
        r.deep_view() == rename_warnings(split_on(sql@, ';')),
{
    let chars = str_chars(sql);
    let lines = split_chars(chars.as_slice(), ';');
    let ghost lv = char_vecs_view(lines@);
    let mut r: Vec<String> = Vec::new();
    let mut i: usize = 0;
    while i < lines.len()
        invariant
            i <= lines@.len(),
            lv == char_vecs_view(lines@),
            r.deep_view() == rename_warnings(lv.take(i as int)),
        decreases lines.len() - i,
    {
        let w = warnings_for_line(lines[i].as_slice());
        extend_strings(&mut r, &w);
        proof {
            assert(lv.take(i + 1).drop_last() =~= lv.take(i as int));
            assert(lv.take(i + 1).last() == lines@[i as int]@);
        }
        i = i + 1;
    }
    proof {
        assert(lv.take(lines@.len() as int) =~= lv);
    }
    r
}


/// What a scan of the statements has found so far.
pub struct ScriptScan {
    pub has_create_db: bool,
    pub has_create_table: bool,
    pub has_alter_table: bool,
    pub create_db_name: Option<Seq<char>>,
    pub create_table_db: Option<Seq<char>>,
    pub alter_table_db: Option<Seq<char>>,
}

/// Nothing found yet.
pub open spec fn empty_scan() -> ScriptScan {
    ScriptScan {
        has_create_db: false,
        has_create_table: false,
        has_alter_table: false,
        create_db_name: None,
        create_table_db: None,
        alter_table_db: None,
    }
}

/// A table name needs its database in front.
pub open spec fn prefix_required_text() -> Seq<char> {
    "Table name must include database prefix (e.g., 'database.table')"@
}

/// The database part of the name is not a plain identifier.
pub open spec fn invalid_db_format_text() -> Seq<char> {
    "Invalid database name format"@
}

/// The scan after one more statement, or why the script is refused.
pub open spec fn scan_step(st: ScriptScan, t: TargetView) -> Result<ScriptScan, Seq<char>> {
    match t.kind {
        StatementKind::CreateDatabase => Ok(
            ScriptScan {
                has_create_db: true,
                create_db_name: if t.name_parts.len() > 0 && t.name_parts[0] is Some {
                    t.name_parts[0]
                } else {
                    st.create_db_name
                },
                ..st
            },
        ),
        StatementKind::CreateTable => if t.name_parts.len() < 2 {
            Err(prefix_required_text())
        } else if t.name_parts[0] is Some {
            Ok(ScriptScan { has_create_table: true, create_table_db: t.name_parts[0], ..st })
        } else {
            Err(invalid_db_format_text())
        },
        StatementKind::AlterTable => if t.name_parts.len() < 2 {
            Err(prefix_required_text())
        } else if t.name_parts[0] is Some {
            Ok(ScriptScan { has_alter_table: true, alter_table_db: t.name_parts[0], ..st })
        } else {
            Err(invalid_db_format_text())
        },
        StatementKind::Other => Ok(st),
    }
}

/// The scan of all statements, in order; the first refusal stops it.
pub open spec fn scan_all(ts: Seq<TargetView>) -> Result<ScriptScan, Seq<char>>
    decreases ts.len(),
{
    if ts.len() == 0 {
        Ok(empty_scan())
    } else {
        match scan_all(ts.drop_last()) {
            Err(m) => Err(m),
            Ok(st) => scan_step(st, ts.last()),
        }
    }
}

/// What is wrong with a parsed script, if anything: it must have statements,
/// create a database with a name, create a table and alter a table, both in
/// that database.
pub open spec fn script_problem(ts: Seq<TargetView>) -> Option<Seq<char>> {
    if ts.len() == 0 {
        Some("No valid statements found"@)
    } else {
        match scan_all(ts) {
            Err(m) => Some(m),
            Ok(st) => if !st.has_create_db {
                Some("Missing CREATE DATABASE statement"@)
            } else if !st.has_create_table {
                Some("Missing CREATE TABLE statement"@)
            } else if !st.has_alter_table {
                Some("Missing ALTER TABLE statement"@)
            } else if st.create_db_name is None {
                Some("CREATE DATABASE statement must specify database name"@)
            } else if st.create_table_db != st.create_db_name {
                Some(
                    "CREATE TABLE must use database '"@ + st.create_db_name->0 + "', found: "@
                        + option_debug_text(st.create_table_db),
                )
            } else if st.alter_table_db != st.create_db_name {
                Some(
                    "ALTER TABLE must use database '"@ + st.create_db_name->0 + "', found: "@
                        + option_debug_text(st.alter_table_db),
                )
            } else {
                None
            }
        }
    }
}

proof fn lemma_scan_refusal_sticks(ts: Seq<TargetView>, i: int)
    requires
        0 <= i <= ts.len(),
        scan_all(ts.take(i)) is Err,
    ensures
        scan_all(ts) == scan_all(ts.take(i)),
    decreases ts.len() - i,
{
    if i == ts.len() {
        assert(ts.take(i) =~= ts);
    } else {
        assert(ts.take(i + 1).drop_last() =~= ts.take(i));
        lemma_scan_refusal_sticks(ts, i + 1);
    }
}

/// A copy of an optional string.
fn clone_option_string(v: &Option<String>) -> (r: Option<String>)
    ensures
        r.deep_view() == v.deep_view(),
{
    match v {
        Some(s) => Some(s.clone()),
        None => None,
    }
}

/// Whether an optional string holds exactly the text `t`.
fn option_holds(v: &Option<String>, t: &String) -> (b: bool)
    ensures
        b == (v.deep_view() == Some(t@)),
{
    match v {
        Some(s) => *s == *t,
        None => false,
    }
}

/// Checks the parsed statements of a script; `None` when it passes, else the
/// problem's text.
pub fn check_statement_targets(targets: &Vec<StatementTarget>) -> (r: Option<String>)
    ensures
        r.deep_view() == script_problem(targets_view(targets@)),
{
    let ghost tv = targets_view(targets@);
    if targets.len() == 0 {
        return Some(String::from_str("No valid statements found"));
    }
    let mut has_create_db = false;
    let mut has_create_table = false;
    let mut has_alter_table = false;
    let mut create_db_name: Option<String> = None;
    let mut create_table_db: Option<String> = None;
    let mut alter_table_db: Option<String> = None;
    let mut i: usize = 0;
    while i < targets.len()
        invariant
            i <= targets@.len(),
            tv == targets_view(targets@),
            scan_all(tv.take(i as int)) == Ok::<_, Seq<char>>(
                ScriptScan {
                    has_create_db,
                    has_create_table,
                    has_alter_table,
                    create_db_name: create_db_name.deep_view(),
                    create_table_db: create_table_db.deep_view(),
                    alter_table_db: alter_table_db.deep_view(),
                },
            ),
        decreases targets.len() - i,
    {
        let t = &targets[i];
        let ghost st = ScriptScan {
            has_create_db,
            has_create_table,
            has_alter_table,
            create_db_name: create_db_name.deep_view(),
            create_table_db: create_table_db.deep_view(),
            alter_table_db: alter_table_db.deep_view(),
        };
        proof {
            assert(tv.take(i + 1).drop_last() =~= tv.take(i as int));
            assert(tv.take(i + 1).last() == t@);
        }
        match t.kind {
            StatementKind::CreateDatabase => {
                has_create_db = true;
                if t.name_parts.len() > 0 {
                    if let Some(v) = &t.name_parts[0] {
                        create_db_name = Some(v.clone());
                    }
                }
            },
            StatementKind::CreateTable => {
                if t.name_parts.len() < 2 {
                    proof {
                        lemma_scan_refusal_sticks(tv, i + 1);
                    }
                    return Some(String::from_str(
                        "Table name must include database prefix (e.g., 'database.table')",
                    ));
                }
                match &t.name_parts[0] {
                    Some(v) => {
                        has_create_table = true;
                        create_table_db = Some(v.clone());
                    },
                    None => {
                        proof {
                            lemma_scan_refusal_sticks(tv, i + 1);
                        }
                        return Some(String::from_str("Invalid database name format"));
                    },
                }
            },
            StatementKind::AlterTable => {
                if t.name_parts.len() < 2 {
                    proof {
                        lemma_scan_refusal_sticks(tv, i + 1);
                    }
                    return Some(String::from_str(
                        "Table name must include database prefix (e.g., 'database.table')",
                    ));
                }
                match &t.name_parts[0] {
                    Some(v) => {
                        has_alter_table = true;
                        alter_table_db = Some(v.clone());
                    },
                    None => {
                        proof {
                            lemma_scan_refusal_sticks(tv, i + 1);
                        }
                        return Some(String::from_str("Invalid database name format"));
                    },
                }
            },
            StatementKind::Other => {},
        }
        i = i + 1;
    }
    proof {
        assert(tv.take(targets@.len() as int) =~= tv);
    }
    if !has_create_db {
        return Some(String::from_str("Missing CREATE DATABASE statement"));
    }
    if !has_create_table {
        return Some(String::from_str("Missing CREATE TABLE statement"));
    }
    if !has_alter_table {
        return Some(String::from_str("Missing ALTER TABLE statement"));
    }
    let expected_db = match &create_db_name {
        Some(db) => db.clone(),
        None => {
            return Some(String::from_str("CREATE DATABASE statement must specify database name"));
        },
    };
    if !option_holds(&create_table_db, &expected_db) {
        let found = debug_option_string(&create_table_db);
        let m = String::from_str("CREATE TABLE must use database '").concat(
            expected_db.as_str(),
        ).concat("', found: ").concat(found.as_str());
        return Some(m);
    }
    if !option_holds(&alter_table_db, &expected_db) {
        let found = debug_option_string(&alter_table_db);
        let m = String::from_str("ALTER TABLE must use database '").concat(
            expected_db.as_str(),
        ).concat("', found: ").concat(found.as_str());
        return Some(m);
    }
    None
}


/// An analysis result as plain values.
pub struct CheckOutcome {
    pub lossy_status: LossyStatus,
    pub risk_level: RiskLevel,
    pub warnings: Seq<Seq<char>>,
    pub error: Option<Seq<char>>,
}

/// The plain values of an analysis result.
pub open spec fn outcome_of(r: AnalysisResult) -> CheckOutcome {
    CheckOutcome {
        lossy_status: r.lossy_status,
        risk_level: r.risk_level,
        warnings: r.warnings.deep_view(),
        error: r.error.deep_view(),
    }
}

/// An unknown, high-risk outcome.
pub open spec fn unknown_outcome(warnings: Seq<Seq<char>>, error: Option<Seq<char>>) -> CheckOutcome {
    CheckOutcome {
        lossy_status: LossyStatus::Unknown,
        risk_level: RiskLevel::High,
        warnings,
        error,
    }
}

/// What the check makes of a script: refused input; RENAME COLUMN warnings;
/// the parser's error; a problem with the statements; or, when all is well,
/// the note that the schema tracker is not available.
pub open spec fn checker_outcome(sql: Seq<char>) -> CheckOutcome {
    match input_refusal(sql) {
        Some(reason) => unknown_outcome(Seq::empty(), Some("Invalid input: "@ + reason)),
        None => {
            let w = rename_warnings(split_on(sql, ';'));
            if w.len() > 0 {
                unknown_outcome(w, None)
            } else {
                match mysql_statement_targets(trim(sql)) {
                    Err(e) => unknown_outcome(seq!["SQL parsing failed: "@ + e], Some(e)),
                    Ok(ts) => match script_problem(ts) {
                        Some(m) => unknown_outcome(seq![m], Some(m)),
                        None => unknown_outcome(seq!["ℹ️ TiDB engine not available"@], None),
                    },
                }
            }
        },
    }
}

/// A result with the given texts as one warning and as the error.
fn unknown_with(warning: String, error: Option<String>) -> (r: AnalysisResult)
    ensures
        outcome_of(r) == unknown_outcome(seq![warning@], error.deep_view()),
{
    let mut warnings: Vec<String> = Vec::new();
    warnings.push(warning);
    let r = AnalysisResult {
        lossy_status: LossyStatus::Unknown,
        risk_level: RiskLevel::High,
        warnings,
        error,
    };
    proof {
        assert(r.warnings.deep_view() =~= seq![warning@]);
    }
    r
}

/// Checks a DDL script before analysis; see `checker_outcome`.
pub fn precheck_sql_with_collation(sql: &str, collation_enabled: bool) -> (r: AnalysisResult)
    ensures
        outcome_of(r) == checker_outcome(sql@),
        consistent(r),
{
    if let Err(error) = validate_sql(sql) {
        let r = create_error_result_from_error(error);
        proof {
            assert(r.warnings.deep_view() =~= Seq::<Seq<char>>::empty());
        }
        return r;
    }
    let warnings = rename_column_warnings(sql);
    if warnings.len() > 0 {
        return AnalysisResult {
            lossy_status: LossyStatus::Unknown,
            risk_level: RiskLevel::High,
            warnings,
            error: None,
        };
    }
    let chars = str_chars(sql);
    let trimmed = string_from_chars(trim_chars(chars.as_slice()).as_slice());
    let targets = match parse_statement_targets(trimmed.as_str()) {
        Ok(ts) => ts,
        Err(e) => {
            let w = String::from_str("SQL parsing failed: ").concat(e.as_str());
            return unknown_with(w, Some(e));
        },
    };
    match check_statement_targets(&targets) {
        Some(m) => {
            let m2 = m.clone();
            return unknown_with(m, Some(m2));
        },
        None => {},
    }
    let r = create_success_result(LossyStatus::Unknown, "ℹ️ TiDB engine not available");
    r
}

/// The lossy DDL checking plugin; it answers on the `/ddl/precheck` route.
#[derive(Debug, Default)]
pub struct LossyDDLPlugin {
    pub name: String,
    pub description: String,
}

/// A result of the check is consistent: high risk exactly when the status is
/// risky, and an error only with an unknown status.
pub proof fn lemma_checker_outcome_consistent(sql: Seq<char>)
    ensures
        checker_outcome(sql).risk_level == crate::lossy_ddl::risk_of_status(
            checker_outcome(sql).lossy_status,
        ),
        checker_outcome(sql).error is Some ==> checker_outcome(sql).lossy_status
            == LossyStatus::Unknown,
{
}

/// White space around a statement does not change its warnings: a statement
/// is judged by its trimmed text, so one that follows `;` and a space or a
/// line break is recognised as it would be on its own.
pub proof fn lemma_statement_warnings_ignore_white_space(line: Seq<char>, c: char)
    ensures
        line_warnings(line) == line_warnings(trim(line)),
        is_white_space(c) ==> line_warnings(seq![c] + line) == line_warnings(line),
{
    lemma_trim_idempotent(line);
    if is_white_space(c) {
        lemma_trim_leading_white_space(c, line);
    }
}

proof fn lemma_scan_keeps_last_alter(ts: Seq<TargetView>, i: int, e: Seq<char>)
    requires
        0 <= i < ts.len(),
        ts[i].kind == StatementKind::AlterTable,
        ts[i].name_parts.len() >= 2,
        ts[i].name_parts[0] == Some(e),
        forall|j: int| i < j < ts.len() ==> #[trigger] ts[j].kind != StatementKind::AlterTable,
    ensures
        scan_all(ts) matches Ok(st) ==> st.alter_table_db == Some(e),
    decreases ts.len(),
{
    if ts.len() - 1 > i {
        lemma_scan_keeps_last_alter(ts.drop_last(), i, e);
        assert(ts.last().kind != StatementKind::AlterTable);
    }
}

proof fn lemma_scan_names_only(ts: Seq<TargetView>, d: Seq<char>)
    requires
        forall|j: int|
            0 <= j < ts.len() && #[trigger] ts[j].kind == StatementKind::CreateDatabase
                ==> ts[j].name_parts.len() > 0 && ts[j].name_parts[0] == Some(d),
    ensures
        scan_all(ts) matches Ok(st) ==> st.create_db_name is None || st.create_db_name == Some(d),
    decreases ts.len(),
{
    if ts.len() > 0 {
        lemma_scan_names_only(ts.drop_last(), d);
        assert(ts.last() == ts[ts.len() - 1]);
    }
}

/// A script whose databases are all created as `d` and whose last ALTER TABLE
/// names another database `e` is refused, whatever else it holds; a script
/// that passes alters a table in the database it creates.
pub proof fn lemma_alter_table_in_another_database_refused(
    ts: Seq<TargetView>,
    i: int,
    d: Seq<char>,
    e: Seq<char>,
)
    requires
        0 <= i < ts.len(),
        ts[i].kind == StatementKind::AlterTable,
        ts[i].name_parts.len() >= 2,
        ts[i].name_parts[0] == Some(e),
        forall|j: int| i < j < ts.len() ==> #[trigger] ts[j].kind != StatementKind::AlterTable,
        forall|j: int|
            0 <= j < ts.len() && #[trigger] ts[j].kind == StatementKind::CreateDatabase
                ==> ts[j].name_parts.len() > 0 && ts[j].name_parts[0] == Some(d),
    ensures
        e != d ==> script_problem(ts) is Some,
        script_problem(ts) is None ==> e == d,
{
    lemma_scan_keeps_last_alter(ts, i, e);
    lemma_scan_names_only(ts, d);
}

} // verus!
