//! Access tokens: the claims a token carries and the session they describe,
//! expiry arithmetic, and the digest under which tokens are stored.
use vstd::prelude::*;

use sha2::{Digest, Sha256};
use chrono::{DateTime, Utc};

use crate::shared::DomainError;
use crate::text::{
    i64_decimal, parse_i64, parse_i64_spec, push_chars, push_str_chars, signed_decimal, str_chars,
    string_from_chars,
};
use crate::user::{UserInfo, UtcTime};

verus! {

/// The claims of an issued token.
#[derive(Debug, Clone)]
pub struct Claims {
    pub sub: String,
    pub username: String,
    pub email: String,
    pub nick_name: Option<String>,
    pub exp: usize,
    pub iat: usize,
    pub jti: String,
}

/// A login session.
#[derive(Debug, Clone)]
pub struct Session {
    pub user_id: i64,
    pub username: String,
    pub email: String,
    pub nick_name: Option<String>,
    pub exp: i64,
    pub iat: i64,
    pub jti: String,
}

/// The answer to a successful login.
#[derive(Debug)]
pub struct LoginResponse {
    pub access_token: String,
    pub token_type: String,
    pub expires_in: i64,
    pub user: UserInfo,
}

/// The user id that a subject text stands for: its number, or 0 when it is
/// not one.
pub open spec fn user_id_of_subject(sub: Seq<char>) -> i64 {
    match parse_i64_spec(sub) {
        Some(v) => v,
        None => 0,
    }
}

impl Claims {
    /// The claims of a session: the user id in decimal as subject, the times
    /// cast to `usize`, the rest as it is.
    pub fn from_session(session: Session) -> (r: Self)
        ensures
            r.sub@ == signed_decimal(session.user_id as int),
            r.username == session.username,
            r.email == session.email,
            r.nick_name == session.nick_name,
            r.exp == session.exp as usize,
            r.iat == session.iat as usize,
            r.jti == session.jti,
    {
        let sub = string_from_chars(i64_decimal(session.user_id).as_slice());
        Claims {
            sub,
            username: session.username,
            email: session.email,
            nick_name: session.nick_name,
            exp: session.exp as usize,
            iat: session.iat as usize,
            jti: session.jti,
        }
    }
}

impl Session {
    /// The session of some claims: the subject read as the user id (0 when it
    /// is not a number), the times cast to `i64`, the rest as it is.
    pub fn from_claims(claims: Claims) -> (r: Self)
        ensures
            r.user_id == user_id_of_subject(claims.sub@),
            r.username == claims.username,
            r.email == claims.email,
            r.nick_name == claims.nick_name,
            r.exp == claims.exp as i64,
            r.iat == claims.iat as i64,
            r.jti == claims.jti,
    {
        let user_id = match parse_i64(str_chars(claims.sub.as_str()).as_slice()) {
            Some(v) => v,
            None => 0,
        };
        Session {
            user_id,
            username: claims.username,
            email: claims.email,
            nick_name: claims.nick_name,
            exp: claims.exp as i64,
            iat: claims.iat as i64,
            jti: claims.jti,
        }
    }
}

/// The session some claims stand for, as `Session::from_claims` gives it.
pub open spec fn session_of_claims(c: Claims) -> Session {
    Session {
        user_id: user_id_of_subject(c.sub@),
        username: c.username,
        email: c.email,
        nick_name: c.nick_name,
        exp: c.exp as i64,
        iat: c.iat as i64,
        jti: c.jti,
    }
}

impl From<Claims> for Session {
    /// The session of some claims, as `Session::from_claims` gives it.
    fn from(claims: Claims) -> (r: Self) {
        Session::from_claims(claims)
    }
}

impl vstd::std_specs::convert::FromSpecImpl<Claims> for Session {
    open spec fn obeys_from_spec() -> bool {
        true
    }

    open spec fn from_spec(claims: Claims) -> Session {
        session_of_claims(claims)
    }
}

/// A session turned into claims by `Claims::from_session` and back by
/// `Session::from` (or `Session::from_claims`) is the session it was, when
/// its times are not negative and fit `usize`: `c` is any value that
/// `from_session`'s contract allows for `s`.
pub proof fn lemma_session_from_claims_from_session(s: Session, c: Claims)
    requires
        0 <= s.exp <= usize::MAX,
        0 <= s.iat <= usize::MAX,
        c.sub@ == signed_decimal(s.user_id as int),
        c.username == s.username,
        c.email == s.email,
        c.nick_name == s.nick_name,
        c.exp == s.exp as usize,
        c.iat == s.iat as usize,
        c.jti == s.jti,
    ensures
        session_of_claims(c) == s,
{
    crate::text::lemma_parse_signed_decimal(s.user_id);
}

/// A session survives being turned into claims and back, when its times are
/// not negative and fit `usize`.
pub proof fn lemma_session_claims_round_trip(s: Session)
    requires
        0 <= s.exp <= usize::MAX,
        0 <= s.iat <= usize::MAX,
    ensures
        user_id_of_subject(signed_decimal(s.user_id as int)) == s.user_id,
        (s.exp as usize) as i64 == s.exp,
        (s.iat as usize) as i64 == s.iat,
{
    crate::text::lemma_parse_signed_decimal(s.user_id);
}

/// The claims that a token is signed over.
#[derive(Debug, Clone)]
pub struct JwtClaims {
    pub sub: i64,
    pub username: String,
    pub email: String,
    pub nick_name: Option<String>,
    pub exp: usize,
}

/// The expiry time of a token issued at `now_secs` that lives `expiry_hours`
/// hours, as `usize`.
pub open spec fn expiry_of(now_secs: u64, expiry_hours: i64) -> usize {
    (now_secs + (expiry_hours as u64) * 3600) as usize
}

impl JwtClaims {
    /// The claims for a user, expiring `expiry_hours` hours after
    /// `now_secs`; the hours are taken as `u64`, as `as` does, and the sum
    /// must not overflow.
    pub fn for_user(
        user_id: i64,
        username: String,
        email: String,
        nick_name: Option<String>,
        now_secs: u64,
        expiry_hours: i64,
    ) -> (r: Self)
        requires
            (expiry_hours as u64) * 3600 + now_secs <= u64::MAX,
        ensures
            r.sub == user_id,
            r.username == username,
            r.email == email,
            r.nick_name == nick_name,
            r.exp == expiry_of(now_secs, expiry_hours),
    {
        let hours = expiry_hours as u64;
        let exp = (now_secs + hours * 3600) as usize;
        JwtClaims { sub: user_id, username, email, nick_name, exp }
    }

    /// The claims that a verified token gives: the subject in decimal, no
    /// issue time, and the given token id.
    pub fn into_claims(self, jti: String) -> (r: Claims)
        ensures
            r.sub@ == signed_decimal(self.sub as int),
            r.username == self.username,
            r.email == self.email,
            r.nick_name == self.nick_name,
            r.exp == self.exp,
            r.iat == 0,
            r.jti == jti,
    {
        Claims {
            sub: string_from_chars(i64_decimal(self.sub).as_slice()),
            username: self.username,
            email: self.email,
            nick_name: self.nick_name,
            exp: self.exp,
            iat: 0,
            jti,
        }
    }
}

/// The token service that signs and checks tokens with the secret its
/// configuration repository holds.
pub struct JsonWebTokenService<R> {
    pub config_repository: R,
}

impl<R> JsonWebTokenService<R> {
    /// A service over the given configuration repository.
    pub fn new(config_repository: R) -> (r: Self)
        ensures
            r.config_repository == config_repository,
    {
        JsonWebTokenService { config_repository }
    }
}

/// The seconds left until `expires_at`, and none when it has passed.
pub fn remaining_seconds(expires_at: i64, now: i64) -> (r: i64)
    requires
        i64::MIN <= expires_at - now <= i64::MAX,
    ensures
        r == (if expires_at - now > 0 { expires_at - now } else { 0 }),
{
    let d = expires_at - now;
    if d > 0 { d } else { 0 }
}

/// Whether chrono can represent the instant `secs` seconds after the epoch:
/// its dates run from January 1, 262144 BCE to December 31, 262142 CE, that
/// is, from -8334601228800 to 8210266876799 seconds.
pub open spec fn chrono_timestamp_valid(secs: i64) -> bool {
    -8334601228800 <= secs <= 8210266876799
}

/// Calls `DateTime::<Utc>::from_timestamp(secs, 0)`. As chrono's source
/// shows, it gives an instant exactly when the day lies between its first and
/// last representable dates, and the instant has those seconds and no
/// nanoseconds.
#[verifier::external_body]
fn utc_from_timestamp(secs: i64) -> (r: Option<UtcTime>)
    ensures
        r is Some <==> chrono_timestamp_valid(secs),
        r matches Some(t) ==> t.secs == secs && t.nanos == 0,
{
    DateTime::<Utc>::from_timestamp(secs, 0).map(|d| UtcTime { secs: d.timestamp(), nanos: 0 })
}

/// The instant of a token's expiry time; an internal error when chrono cannot
/// represent it.
pub fn exp_to_time(exp: usize) -> (r: Result<UtcTime, DomainError>)
    ensures
        chrono_timestamp_valid(exp as i64) ==> r == Ok::<_, DomainError>(
            UtcTime { secs: exp as i64, nanos: 0 },
        ),
        !chrono_timestamp_valid(exp as i64) ==> (r matches Err(DomainError::InternalError { message })
            && message@ == "无法解析过期时间戳: "@ + signed_decimal((exp as i64) as int)),
{
    let secs = exp as i64;
    match utc_from_timestamp(secs) {
        Some(t) => Ok(t),
        None => {
            let mut m: Vec<char> = Vec::new();
            push_str_chars(&mut m, "无法解析过期时间戳: ");
            push_chars(&mut m, i64_decimal(secs).as_slice());
            Err(DomainError::InternalError { message: string_from_chars(m.as_slice()) })
        },
    }
}

/// The SHA-256 digest of some bytes.
pub uninterp spec fn sha256_of(data: Seq<u8>) -> Seq<u8>;

/// Calls `Sha256::digest`; the contract names the digest, which depends on the
/// bytes alone and is 32 bytes long.
#[verifier::external_body]
fn sha256_digest(data: &[u8]) -> (r: Vec<u8>)
    ensures
        r@ == sha256_of(data@),
        r@.len() == 32,
{
    Sha256::digest(data).to_vec()
}

/// The lower-case hexadecimal digit for `d`, which is below sixteen.
pub open spec fn hex_digit(d: int) -> char {
    if d < 10 {
        crate::text::digit_char(d)
    } else if d == 10 {
        'a'
    } else if d == 11 {
        'b'
    } else if d == 12 {
        'c'
    } else if d == 13 {
        'd'
    } else if d == 14 {
        'e'
    } else {
        'f'
    }
}

/// Bytes in lower-case hexadecimal, two digits each, as `{:x}` writes a
/// digest.
pub open spec fn hex_lower(bytes: Seq<u8>) -> Seq<char>
    decreases bytes.len(),
{
    if bytes.len() == 0 {
        Seq::empty()
    } else {
        hex_lower(bytes.drop_last()) + seq![
            hex_digit(bytes.last() as int / 16),
            hex_digit(bytes.last() as int % 16),
        ]
    }
}

fn hex_digit_exec(d: u8) -> (c: char)
    requires
        d < 16,
    ensures
        c == hex_digit(d as int),
{
    if d == 0 { '0' } else if d == 1 { '1' } else if d == 2 { '2' } else if d == 3 { '3' }
    else if d == 4 { '4' } else if d == 5 { '5' } else if d == 6 { '6' } else if d == 7 { '7' }
    else if d == 8 { '8' } else if d == 9 { '9' } else if d == 10 { 'a' } else if d == 11 { 'b' }
    else if d == 12 { 'c' } else if d == 13 { 'd' } else if d == 14 { 'e' } else { 'f' }
}

/// The digest under which a token is stored: the SHA-256 of its UTF-8 bytes,
/// in lower-case hexadecimal.
pub fn hash_token(token: &str) -> (r: String)
    ensures
        r@ == hex_lower(sha256_of(vstd::utf8::encode_utf8(token@))),
        r@.len() == 64,
{
    let digest = sha256_digest(token.as_bytes());
    let mut v: Vec<char> = Vec::new();
    let mut i: usize = 0;
    while i < digest.len()
        invariant
            i <= digest@.len(),
            v@ == hex_lower(digest@.take(i as int)),
            v@.len() == 2 * i,
            digest@.len() == 32,
        decreases digest.len() - i,
    {
        let b = digest[i];
        v.push(hex_digit_exec(b / 16));
        v.push(hex_digit_exec(b % 16));
        proof {
            assert(digest@.take(i + 1).drop_last() =~= digest@.take(i as int));
            assert(v@ =~= hex_lower(digest@.take(i + 1)));
        }
        i = i + 1;
    }
    proof {
        assert(digest@.take(digest@.len() as int) =~= digest@);
    }
    string_from_chars(v.as_slice())
}

} // verus!
