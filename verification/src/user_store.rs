//! What the user and token stores keep, and the rules they apply: the stored
//! form of a user, the statement that lists users a page at a time, and when
//! a stored token counts as active.
use vstd::prelude::*;

use crate::shared::DomainError;
use crate::text::{push_str_chars, signed_decimal, string_from_chars, push_chars, i64_decimal};
use crate::user::{code_of_label, label_of_code, status_code, status_label, User, UtcTime};

verus! {

/// A user as the store keeps it: the status as a number.
#[derive(Debug, Clone)]
pub struct UserRecord {
    pub id: i64,
    pub user_id: i64,
    pub username: String,
    pub password_hash: String,
    pub email: String,
    pub nick_name: Option<String>,
    pub avatar: Option<String>,
    pub github_name: Option<String>,
    pub status: i8,
    pub created_at: UtcTime,
    pub updated_at: UtcTime,
}

/// The user a stored record holds: the record's id, and the status text its
/// number stands for.
pub fn user_from_record(record: UserRecord) -> (u: User)
    ensures
        u.id == Some(record.id),
        u.user_id == record.user_id,
        u.username == record.username,
        u.password_hash == record.password_hash,
        u.email == record.email,
        u.nick_name == record.nick_name,
        u.avatar == record.avatar,
        u.github_name == record.github_name,
        u.status@ == label_of_code(record.status),
        u.created_at == record.created_at,
        u.updated_at == record.updated_at,
{
    User {
        id: Some(record.id),
        user_id: record.user_id,
        username: record.username,
        password_hash: record.password_hash,
        email: record.email,
        nick_name: record.nick_name,
        avatar: record.avatar,
        github_name: record.github_name,
        status: status_label(record.status),
        created_at: record.created_at,
        updated_at: record.updated_at,
    }
}

/// The values a user is inserted or updated with: the account number to
/// store (none for a new user without one, which then takes its row id), and
/// the status as a number.
pub fn stored_user_values(user: &User) -> (r: (Option<i64>, i8))
    ensures
        r.0 == (if user.user_id == 0 { None } else { Some(user.user_id) }),
        r.1 == code_of_label(user.status@),
{
    let provided = if user.user_id == 0 { None } else { Some(user.user_id) };
    (provided, status_code(user.status.as_str()))
}

/// The row a user is updated in: its id; a user without id cannot be
/// updated.
pub fn user_row_for_update(user: &User) -> (r: Result<i64, DomainError>)
    ensures
        match user.id {
            Some(id) => r == Ok::<i64, DomainError>(id),
            None => r matches Err(DomainError::ValidationError { message }) && message@
                == "用户 ID 不能为空"@,
        },
{
    match user.id {
        Some(id) => Ok(id),
        None => Err(DomainError::ValidationError { message: String::from_str("用户 ID 不能为空") }),
    }
}

/// The row a provider link is updated in: its id; a link without id cannot
/// be updated.
pub fn provider_row_for_update(id: Option<i64>) -> (r: Result<i64, DomainError>)
    ensures
        match id {
            Some(i) => r == Ok::<i64, DomainError>(i),
            None => r matches Err(DomainError::ValidationError { message }) && message@
                == "用户提供商 ID 不能为空"@,
        },
{
    match id {
        Some(i) => Ok(i),
        None => Err(
            DomainError::ValidationError { message: String::from_str("用户提供商 ID 不能为空") },
        ),
    }
}

/// The error a failed store operation is reported as: an internal error
/// with the context and the store's message.
pub fn store_error(context: &str, detail: &str) -> (r: DomainError)
    ensures
        r matches DomainError::InternalError { message } && message@ == context@ + ": "@ + detail@,
{
    DomainError::InternalError {
        message: String::from_str(context).concat(": ").concat(detail),
    }
}

/// The statements that list users a page at a time and count them, and the
/// values they are run with.
#[derive(Debug, Clone)]
pub struct UserPageQuery {
    /// The listing statement.
    pub sql: String,
    /// The counting statement.
    pub count_sql: String,
    /// Whether the keyword is bound, three times, before the paging values.
    pub binds_keyword: bool,
    /// The page size bound for `LIMIT`.
    pub limit: i32,
    /// The number of rows skipped, bound for `OFFSET`.
    pub offset: i32,
}

/// The columns a user is read with.
pub open spec fn user_columns() -> Seq<char> {
    "SELECT id, user_id, username, password_hash, email, nick_name, avatar, github_name, status, created_at, updated_at FROM tihc_users WHERE 1=1"@
}

/// The filter on the status number, where a status is asked for.
pub open spec fn status_clause(status: Option<Seq<char>>) -> Seq<char> {
    match status {
        Some(s) => " AND status = "@ + signed_decimal(code_of_label(s) as int),
        None => Seq::empty(),
    }
}

/// The filter on a keyword in the user name, e-mail address or nick name.
pub open spec fn keyword_clause(has_keyword: bool) -> Seq<char> {
    if has_keyword {
        " AND (username LIKE CONCAT('%', ?, '%') OR email LIKE CONCAT('%', ?, '%') OR nick_name LIKE CONCAT('%', ?, '%'))"@
    } else {
        Seq::empty()
    }
}

/// The statements for page `page` of `page_size` users, newest first,
/// filtered by status and keyword where they are given; the rows of the
/// earlier pages are skipped.
pub fn build_user_page_query(
    page: i32,
    page_size: i32,
    has_keyword: bool,
    status: Option<&str>,
) -> (r: UserPageQuery)
    requires
        i32::MIN < page,
        i32::MIN <= (page - 1) * page_size <= i32::MAX,
    ensures
        r.offset == (page - 1) * page_size,
        r.limit == page_size,
        r.binds_keyword == has_keyword,
        r.sql@ == user_columns() + status_clause(
            match status {
                Some(s) => Some(s@),
                None => None,
            },
        ) + keyword_clause(has_keyword) + " ORDER BY created_at DESC LIMIT ? OFFSET ?"@,
        r.count_sql@ == "SELECT COUNT(*) FROM tihc_users WHERE 1=1"@ + status_clause(
            match status {
                Some(s) => Some(s@),
                None => None,
            },
        ) + keyword_clause(has_keyword),
{
    let offset = (page - 1) * page_size;
    let mut q: Vec<char> = Vec::new();
    let mut c: Vec<char> = Vec::new();
    push_str_chars(
        &mut q,
        "SELECT id, user_id, username, password_hash, email, nick_name, avatar, github_name, status, created_at, updated_at FROM tihc_users WHERE 1=1",
    );
    push_str_chars(&mut c, "SELECT COUNT(*) FROM tihc_users WHERE 1=1");
    let ghost sv: Option<Seq<char>> = match status {
        Some(s) => Some(s@),
        None => None,
    };
    match status {
        Some(s) => {
            let n = status_code(s);
            let digits = i64_decimal(n as i64);
            push_str_chars(&mut q, " AND status = ");
            push_chars(&mut q, digits.as_slice());
            push_str_chars(&mut c, " AND status = ");
            push_chars(&mut c, digits.as_slice());
        },
        None => {},
    }
    proof {
        assert(q@ =~= user_columns() + status_clause(sv));
        assert(c@ =~= "SELECT COUNT(*) FROM tihc_users WHERE 1=1"@ + status_clause(sv));
    }
    if has_keyword {
        let k = " AND (username LIKE CONCAT('%', ?, '%') OR email LIKE CONCAT('%', ?, '%') OR nick_name LIKE CONCAT('%', ?, '%'))";
        push_str_chars(&mut q, k);
        push_str_chars(&mut c, k);
    }
    proof {
        assert(q@ =~= user_columns() + status_clause(sv) + keyword_clause(has_keyword));
        assert(c@ =~= "SELECT COUNT(*) FROM tihc_users WHERE 1=1"@ + status_clause(sv)
            + keyword_clause(has_keyword));
    }
    push_str_chars(&mut q, " ORDER BY created_at DESC LIMIT ? OFFSET ?");
    UserPageQuery {
        sql: string_from_chars(q.as_slice()),
        count_sql: string_from_chars(c.as_slice()),
        binds_keyword: has_keyword,
        limit: page_size,
        offset,
    }
}

/// Whether a stored token is active at `now_secs`: it is not revoked and
/// expires later.
pub fn token_row_active(revoked: i8, expires_at_secs: i64, now_secs: i64) -> (b: bool)
    ensures
        b == (revoked == 0 && expires_at_secs > now_secs),
{
    revoked == 0 && expires_at_secs > now_secs
}

} // verus!
