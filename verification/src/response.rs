//! The uniform envelope of API answers and the HTTP status each one is sent
//! with.
use vstd::prelude::*;

verus! {

/// An API answer: an application code, a message and optional data.
#[derive(Debug)]
pub struct ApiResponse<T> {
    pub code: u32,
    pub message: String,
    pub data: Option<T>,
}

/// The HTTP status of an answer with the given code: 200 for 200, 400 for
/// codes from 400 to 499, 500 for all others.
pub open spec fn http_status_of(code: u32) -> u16 {
    if code == 200 {
        200
    } else if 400 <= code && code < 500 {
        400
    } else {
        500
    }
}

impl<T> ApiResponse<T> {
    /// A successful answer with data: code 200, message `OK`.
    pub fn success(data: T) -> (r: Self)
        ensures
            r.code == 200,
            r.message@ == "OK"@,
            r.data == Some(data),
    {
        ApiResponse { code: 200, message: String::from_str("OK"), data: Some(data) }
    }

    /// A successful answer without data.
    pub fn success_without_data() -> (r: ApiResponse<()>)
        ensures
            r.code == 200,
            r.message@ == "OK"@,
            r.data is None,
    {
        ApiResponse { code: 200, message: String::from_str("OK"), data: None }
    }

    /// An error answer with the given code and message, without data.
    pub fn error(code: u32, message: String) -> (r: ApiResponse<()>)
        ensures
            r.code == code,
            r.message == message,
            r.data is None,
    {
        ApiResponse { code, message, data: None }
    }

    /// The HTTP status the answer is sent with.
    pub fn http_status(&self) -> (r: u16)
        ensures
            r == http_status_of(self.code),
    {
        if self.code == 200 {
            200
        } else if self.code >= 400 && self.code < 500 {
            400
        } else {
            500
        }
    }
}

/// A successful answer is always sent with status 200, and an error code is
/// never sent as a success.
pub proof fn lemma_only_code_200_is_ok(code: u32)
    ensures
        http_status_of(code) == 200 <==> code == 200,
{
}

} // verus!
