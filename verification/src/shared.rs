//! Errors shared by the domain services, and their mapping to the error codes
//! and messages that the authentication API answers with.
use vstd::prelude::*;

verus! {

/// A domain error.
#[derive(Debug, Clone, PartialEq, Eq)]
pub enum DomainError {
    NotFound { resource: String },
    ValidationError { message: String },
    BusinessRuleViolation { rule: String },
    InternalError { message: String },
    AuthenticationError { message: String },
}

/// The display text of a domain error.
pub open spec fn domain_error_text(e: DomainError) -> Seq<char> {
    match e {
        DomainError::NotFound { resource } => "资源未找到: "@ + resource@,
        DomainError::ValidationError { message } => "验证失败: "@ + message@,
        DomainError::BusinessRuleViolation { rule } => "业务规则违反: "@ + rule@,
        DomainError::InternalError { message } => "内部错误: "@ + message@,
        DomainError::AuthenticationError { message } => "认证失败: "@ + message@,
    }
}

impl DomainError {
    /// The display text of the error.
    pub fn to_string(&self) -> (r: String)
        ensures
            r@ == domain_error_text(*self),
    {
        match self {
            DomainError::NotFound { resource } => String::from_str("资源未找到: ").concat(
                resource.as_str(),
            ),
            DomainError::ValidationError { message } => String::from_str("验证失败: ").concat(
                message.as_str(),
            ),
            DomainError::BusinessRuleViolation { rule } => String::from_str(
                "业务规则违反: ",
            ).concat(rule.as_str()),
            DomainError::InternalError { message } => String::from_str("内部错误: ").concat(
                message.as_str(),
            ),
            DomainError::AuthenticationError { message } => String::from_str(
                "认证失败: ",
            ).concat(message.as_str()),
        }
    }
}

/// The application error code of a domain error.
pub open spec fn error_code(e: DomainError) -> u32 {
    match e {
        DomainError::ValidationError { .. } => 10003,
        DomainError::NotFound { .. } => 10001,
        DomainError::BusinessRuleViolation { .. } => 10002,
        DomainError::InternalError { .. } => 10000,
        DomainError::AuthenticationError { .. } => 10005,
    }
}

/// The message shown to the user for a domain error.
pub open spec fn user_message(e: DomainError) -> Seq<char> {
    match e {
        DomainError::ValidationError { message } => message@,
        DomainError::NotFound { resource } => resource@ + "不存在"@,
        DomainError::BusinessRuleViolation { rule } => "业务规则违反: "@ + rule@,
        DomainError::InternalError { .. } => "系统内部错误"@,
        DomainError::AuthenticationError { message } => message@,
    }
}

/// Maps domain errors to the codes and messages of the authentication API.
pub struct AuthErrorMapper;

impl AuthErrorMapper {
    /// The error code: 10003 validation, 10001 not found, 10002 business rule,
    /// 10000 internal, 10005 authentication.
    pub fn map_error_code(error: &DomainError) -> (r: u32)
        ensures
            r == error_code(*error),
    {
        match error {
            DomainError::ValidationError { .. } => 10003,
            DomainError::NotFound { .. } => 10001,
            DomainError::BusinessRuleViolation { .. } => 10002,
            DomainError::InternalError { .. } => 10000,
            DomainError::AuthenticationError { .. } => 10005,
        }
    }

    /// The message for the user; internal details are not shown.
    pub fn get_user_message(error: &DomainError) -> (r: String)
        ensures
            r@ == user_message(*error),
    {
        match error {
            DomainError::ValidationError { message } => message.clone(),
            DomainError::NotFound { resource } => resource.clone().concat("不存在"),
            DomainError::BusinessRuleViolation { rule } => String::from_str("业务规则违反: ").concat(
                rule.as_str(),
            ),
            DomainError::InternalError { .. } => String::from_str("系统内部错误"),
            DomainError::AuthenticationError { message } => message.clone(),
        }
    }
}

/// Errors of different kinds get different codes.
pub proof fn lemma_error_codes_tell_kinds_apart(a: DomainError, b: DomainError)
    requires
        error_code(a) == error_code(b),
    ensures
        (a is NotFound) == (b is NotFound),
        (a is ValidationError) == (b is ValidationError),
        (a is BusinessRuleViolation) == (b is BusinessRuleViolation),
        (a is InternalError) == (b is InternalError),
        (a is AuthenticationError) == (b is AuthenticationError),
{
}

} // verus!
