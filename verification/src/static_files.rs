//! Serving the bundled front end: which embedded file a request path names,
//! the fallback to the single-page entry, and the content type of a file.
use vstd::prelude::*;

use crate::text::{str_chars, string_from_chars};

verus! {

/// The embedded front-end files.
pub struct StaticFiles;

/// The media type that `mime_guess` gives first for a path, or
/// `application/octet-stream` where it knows none.
pub uninterp spec fn mime_guess_of(path: Seq<char>) -> Seq<char>;

/// Calls `mime_guess::from_path(..).first_or_octet_stream()`; the contract
/// names the type, which depends on the path alone. As its source shows, a
/// path without `.` has no extension and gets `application/octet-stream`.
#[verifier::external_body]
fn guess_mime(path: &str) -> (r: String)
    ensures
        r@ == mime_guess_of(path@),
        !path@.contains('.') ==> r@ == "application/octet-stream"@,
{
    mime_guess::from_path(path).first_or_octet_stream().to_string()
}

/// The embedded file a request path names: the path without its leading
/// slashes, and `index.html` where nothing is left.
pub open spec fn asset_path_of(path: Seq<char>) -> Seq<char> {
    let k = leading_slashes(path);
    if k == path.len() {
        "index.html"@
    } else {
        path.skip(k as int)
    }
}

/// The number of `/` at the start of `s`.
pub open spec fn leading_slashes(s: Seq<char>) -> nat
    decreases s.len(),
{
    if s.len() > 0 && s[0] == '/' {
        1 + leading_slashes(s.drop_first())
    } else {
        0
    }
}

proof fn lemma_leading_slashes(s: Seq<char>, k: int)
    requires
        0 <= k <= s.len(),
        forall|i: int| 0 <= i < k ==> s[i] == '/',
        k == s.len() || s[k] != '/',
    ensures
        leading_slashes(s) == k,
    decreases k,
{
    if k > 0 {
        lemma_leading_slashes(s.drop_first(), k - 1);
    }
}

/// The embedded file a request path names.
pub fn asset_path(path: &str) -> (r: String)
    ensures
        r@ == asset_path_of(path@),
{
    let chars = str_chars(path);
    let mut k: usize = 0;
    while k < chars.len() && chars[k] == '/'
        invariant
            k <= chars@.len(),
            chars@ == path@,
            forall|i: int| 0 <= i < k ==> chars@[i] == '/',
        decreases chars.len() - k,
    {
        k = k + 1;
    }
    proof {
        lemma_leading_slashes(path@, k as int);
    }
    if k == chars.len() {
        return String::from_str("index.html");
    }
    let mut rest: Vec<char> = Vec::new();
    let mut i: usize = k;
    while i < chars.len()
        invariant
            k <= i <= chars@.len(),
            rest@ == chars@.subrange(k as int, i as int),
        decreases chars.len() - i,
    {
        rest.push(chars[i]);
        proof {
            assert(chars@.subrange(k as int, i + 1) =~= chars@.subrange(k as int, i as int).push(
                chars@[i as int],
            ));
        }
        i = i + 1;
    }
    proof {
        assert(chars@.subrange(k as int, chars@.len() as int) =~= path@.skip(k as int));
    }
    string_from_chars(rest.as_slice())
}

/// How a request for a front-end file is answered.
#[derive(Debug, Clone)]
pub enum StaticReply {
    /// The file itself, with its content type.
    File { path: String, content_type: String },
    /// The single-page entry `index.html`, as `text/html`.
    Index,
    /// Status 404 with `404 Not Found`.
    NotFound,
}

/// How a request for `path` is answered, once it is known whether the file
/// it names and `index.html` are embedded: the file with the type that
/// `mime_guess` gives, else the entry page, else 404.
pub fn static_reply(path: &str, file_exists: bool, index_exists: bool) -> (r: StaticReply)
    ensures
        file_exists ==> (r matches StaticReply::File { path: p, content_type } && p@ == asset_path_of(path@)
            && content_type@ == mime_guess_of(asset_path_of(path@))),
        !file_exists && index_exists ==> r is Index,
        !file_exists && !index_exists ==> r is NotFound,
{
    if file_exists {
        let p = asset_path(path);
        let content_type = guess_mime(p.as_str());
        StaticReply::File { path: p, content_type }
    } else if index_exists {
        StaticReply::Index
    } else {
        StaticReply::NotFound
    }
}

} // verus!
