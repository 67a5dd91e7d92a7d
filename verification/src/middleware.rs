//! Authentication of API requests: where a request carries its access token,
//! and how a request without a usable token is turned away.
use vstd::prelude::*;

use crate::text::{
    parse_i64, slice_chars, split_chars, split_on, str_chars, str_eq, str_starts_with, string_from_chars,
    has_prefix,
};
use crate::token::{user_id_of_subject, Claims};

verus! {

/// The value of an ASCII hexadecimal digit of either case.
pub open spec fn hex_digit_value(b: u8) -> Option<int> {
    if 48 <= b <= 57 {
        Some(b - 48)
    } else if 65 <= b <= 70 {
        Some(b - 55)
    } else if 97 <= b <= 102 {
        Some(b - 87)
    } else {
        None
    }
}

/// Percent-decoding of bytes: `%` and two hexadecimal digits stand for the
/// byte they spell; every other byte, a `%` without two digits after it
/// among them, stands for itself (`+` too).
pub open spec fn percent_decoded(b: Seq<u8>) -> Seq<u8>
    decreases b.len(),
{
    if b.len() == 0 {
        Seq::empty()
    } else if b[0] == 37 && b.len() >= 3 && hex_digit_value(b[1]) is Some && hex_digit_value(
        b[2],
    ) is Some {
        seq![(hex_digit_value(b[1]).unwrap() * 16 + hex_digit_value(b[2]).unwrap()) as u8]
            + percent_decoded(b.skip(3))
    } else {
        seq![b[0]] + percent_decoded(b.skip(1))
    }
}

/// What `urlencoding::decode` gives for a text: its percent-decoded UTF-8
/// bytes read as UTF-8, or `None` where they are not UTF-8.
pub open spec fn url_decode_of(s: Seq<char>) -> Option<Seq<char>> {
    let d = percent_decoded(vstd::utf8::encode_utf8(s));
    if vstd::utf8::valid_utf8(d) {
        Some(vstd::utf8::decode_utf8(d))
    } else {
        None
    }
}

/// Calls `urlencoding::decode`. As its source shows, it percent-decodes the
/// text's bytes as `url_decode_of` says and fails where the result is not
/// UTF-8.
#[verifier::external_body]
fn url_decode(s: &str) -> (r: Option<String>)
    ensures
        r matches Some(d) ==> url_decode_of(s@) == Some(d@),
        r is None ==> url_decode_of(s@) is None,
{
    urlencoding::decode(s).ok().map(|d| d.into_owned())
}

/// The parts of `s` before and after its first `c`, if it has one.
pub open spec fn split_once(s: Seq<char>, c: char) -> Option<(Seq<char>, Seq<char>)>
    decreases s.len(),
{
    if s.len() == 0 {
        None
    } else if s[0] == c {
        Some((Seq::empty(), s.drop_first()))
    } else {
        match split_once(s.drop_first(), c) {
            Some(p) => Some((seq![s[0]] + p.0, p.1)),
            None => None,
        }
    }
}

proof fn lemma_split_once_at(s: Seq<char>, c: char, k: int)
    requires
        0 <= k < s.len(),
        s[k] == c,
        forall|i: int| 0 <= i < k ==> s[i] != c,
    ensures
        split_once(s, c) == Some((s.take(k), s.skip(k + 1))),
    decreases k,
{
    if k > 0 {
        lemma_split_once_at(s.drop_first(), c, k - 1);
        assert(seq![s[0]] + s.drop_first().take(k - 1) =~= s.take(k));
        assert(s.drop_first().skip(k) =~= s.skip(k + 1));
    } else {
        assert(s.take(0) =~= Seq::<char>::empty());
        assert(s.skip(1) =~= s.drop_first());
    }
}

proof fn lemma_split_once_none(s: Seq<char>, c: char)
    requires
        forall|i: int| 0 <= i < s.len() ==> s[i] != c,
    ensures
        split_once(s, c) is None,
    decreases s.len(),
{
    if s.len() > 0 {
        lemma_split_once_none(s.drop_first(), c);
    }
}

/// The token a query pair `key=value` carries: the decoded value when the
/// key is `token` and the value decodes to a non-empty text.
pub open spec fn token_in_pair(pair: Seq<char>) -> Option<Seq<char>> {
    match split_once(pair, '=') {
        Some(kv) => if kv.0 == "token"@ {
            match url_decode_of(kv.1) {
                Some(d) => if d.len() > 0 {
                    Some(d)
                } else {
                    None
                },
                None => None,
            }
        } else {
            None
        },
        None => None,
    }
}

/// The token of the first pair among `pairs` that carries one.
pub open spec fn first_token(pairs: Seq<Seq<char>>) -> Option<Seq<char>>
    decreases pairs.len(),
{
    if pairs.len() == 0 {
        None
    } else {
        match token_in_pair(pairs[0]) {
            Some(t) => Some(t),
            None => first_token(pairs.drop_first()),
        }
    }
}

/// The token a query string carries: that of its first `&`-separated pair
/// that carries one.
pub open spec fn query_token_of(query: Seq<char>) -> Option<Seq<char>> {
    first_token(split_on(query, '&'))
}

/// The token an `Authorization` header carries: what follows `Bearer `.
pub open spec fn bearer_token_of(header: Seq<char>) -> Option<Seq<char>> {
    if has_prefix(header, "Bearer "@) {
        Some(header.skip(7))
    } else {
        None
    }
}

/// The token of a request: from its `Authorization` header, or else from its
/// query string.
pub open spec fn request_token_of(authorization: Option<Seq<char>>, query: Option<Seq<char>>) -> Option<Seq<char>> {
    match authorization {
        Some(h) => match bearer_token_of(h) {
            Some(t) => Some(t),
            None => match query {
                Some(q) => query_token_of(q),
                None => None,
            },
        },
        None => match query {
            Some(q) => query_token_of(q),
            None => None,
        },
    }
}

/// The token a query pair carries.
fn pair_token(pair: &[char]) -> (r: Option<String>)
    ensures
        match r {
            Some(t) => token_in_pair(pair@) == Some(t@),
            None => token_in_pair(pair@) is None,
        },
{
    let mut k: usize = 0;
    while k < pair.len() && pair[k] != '='
        invariant
            k <= pair@.len(),
            forall|i: int| 0 <= i < k ==> pair@[i] != '=',
        decreases pair.len() - k,
    {
        k = k + 1;
    }
    if k == pair.len() {
        proof {
            lemma_split_once_none(pair@, '=');
        }
        return None;
    }
    proof {
        lemma_split_once_at(pair@, '=', k as int);
    }
    let key = string_from_chars(slice_chars(pair, 0, k).as_slice());
    let value = string_from_chars(slice_chars(pair, k + 1, pair.len()).as_slice());
    proof {
        assert(key@ =~= pair@.take(k as int));
        assert(value@ =~= pair@.skip(k + 1));
    }
    if !str_eq(key.as_str(), "token") {
        return None;
    }
    match url_decode(value.as_str()) {
        Some(d) => {
            if d.as_str().is_empty() {
                None
            } else {
                Some(d)
            }
        },
        None => None,
    }
}

/// The token a query string carries, from its first `&`-separated pair of
/// the form `token=...` whose value decodes to a non-empty text.
pub fn query_token(query: &str) -> (r: Option<String>)
    ensures
        match r {
            Some(t) => query_token_of(query@) == Some(t@),
            None => query_token_of(query@) is None,
        },
{
    let chars = str_chars(query);
    let pairs = split_chars(chars.as_slice(), '&');
    let ghost all = split_on(query@, '&');
    proof {
        assert(all.skip(0) =~= all);
        assert(chars@ == query@);
    }
    let mut i: usize = 0;
    while i < pairs.len()
        invariant
            i <= pairs@.len(),
            all == split_on(query@, '&'),
            all.len() == pairs@.len(),
            forall|k: int| 0 <= k < pairs@.len() ==> #[trigger] pairs@[k]@ == all[k],
            first_token(all) == first_token(all.skip(i as int)),
        decreases pairs.len() - i,
    {
        proof {
            assert(pairs@[i as int]@ == all[i as int]);
            assert(all.skip(i as int).drop_first() =~= all.skip(i + 1));
            assert(all.skip(i as int)[0] == all[i as int]);
            assert(all.skip(i as int).len() > 0);
        }
        match pair_token(pairs[i].as_slice()) {
            Some(t) => {
                proof {
                    assert(token_in_pair(all.skip(i as int)[0]) == Some(t@));
                    assert(first_token(all.skip(i as int)) == Some(t@));
                }
                return Some(t);
            },
            None => {},
        }
        i = i + 1;
    }
    proof {
        assert(all.skip(i as int) =~= Seq::<Seq<char>>::empty());
    }
    None
}

/// The token an `Authorization` header carries: what follows `Bearer `.
pub fn bearer_token(header: &str) -> (r: Option<String>)
    ensures
        match r {
            Some(t) => bearer_token_of(header@) == Some(t@),
            None => bearer_token_of(header@) is None,
        },
{
    if str_starts_with(header, "Bearer ") {
        let chars = str_chars(header);
        proof {
            reveal_strlit("Bearer ");
            assert("Bearer "@.len() == 7);
        }
        let t = string_from_chars(slice_chars(chars.as_slice(), 7, chars.len()).as_slice());
        proof {
            assert(t@ =~= header@.skip(7));
        }
        Some(t)
    } else {
        None
    }
}

/// The token of a request: from its `Authorization` header where that is a
/// bearer token, or else from its query string.
pub fn request_token(authorization: Option<&str>, query: Option<&str>) -> (r: Option<String>)
    ensures
        match r {
            Some(t) => request_token_of(
                match authorization {
                    Some(h) => Some(h@),
                    None => None,
                },
                match query {
                    Some(q) => Some(q@),
                    None => None,
                },
            ) == Some(t@),
            None => request_token_of(
                match authorization {
                    Some(h) => Some(h@),
                    None => None,
                },
                match query {
                    Some(q) => Some(q@),
                    None => None,
                },
            ) is None,
        },
{
    match authorization {
        Some(h) => match bearer_token(h) {
            Some(t) => {
                return Some(t);
            },
            None => {},
        },
        None => {},
    }
    match query {
        Some(q) => query_token(q),
        None => None,
    }
}

/// Whether a request must carry a token: all but `OPTIONS` requests do.
pub fn needs_token(method: &str) -> (b: bool)
    ensures
        b == (method@ != "OPTIONS"@),
{
    !str_eq(method, "OPTIONS")
}

/// Why a request was turned away with status 401.
#[derive(Debug, Clone, Copy, PartialEq, Eq, Structural)]
pub enum AuthRejection {
    /// The request carries no token.
    MissingToken,
    /// The token does not check.
    InvalidToken,
    /// The token checks but is not active in the token store.
    RevokedToken,
}

impl AuthRejection {
    /// The text the request is turned away with.
    pub fn message(&self) -> (r: String)
        ensures
            r@ == (match *self {
                AuthRejection::MissingToken => "Missing or invalid authorization token"@,
                AuthRejection::InvalidToken => "Invalid or expired token"@,
                AuthRejection::RevokedToken => "Token revoked or expired"@,
            }),
    {
        match self {
            AuthRejection::MissingToken => String::from_str("Missing or invalid authorization token"),
            AuthRejection::InvalidToken => String::from_str("Invalid or expired token"),
            AuthRejection::RevokedToken => String::from_str("Token revoked or expired"),
        }
    }

    /// The HTTP status: 401.
    pub fn status(&self) -> (r: u16)
        ensures
            r == 401,
    {
        401
    }
}

/// The user id a token's claims name: the subject as a number, 0 when it is
/// not one.
pub fn claims_user_id(claims: &Claims) -> (r: i64)
    ensures
        r == user_id_of_subject(claims.sub@),
{
    match parse_i64(str_chars(claims.sub.as_str()).as_slice()) {
        Some(v) => v,
        None => 0,
    }
}

/// Whether a request passes once its token was checked and the token store
/// asked: it passes only when the token checked and the store answered that
/// it is active.
pub fn admit_request<E>(checked: bool, active: Result<bool, E>) -> (r: Result<(), AuthRejection>)
    ensures
        !checked ==> r == Err::<(), AuthRejection>(AuthRejection::InvalidToken),
        checked ==> (r is Ok <==> active == Ok::<bool, E>(true)),
        checked && !(active == Ok::<bool, E>(true)) ==> r == Err::<(), AuthRejection>(AuthRejection::RevokedToken),
{
    if !checked {
        return Err(AuthRejection::InvalidToken);
    }
    match active {
        Ok(true) => Ok(()),
        _ => Err(AuthRejection::RevokedToken),
    }
}

} // verus!
