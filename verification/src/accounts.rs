//! Accounts: which stored user an OAuth profile belongs to, the user names
//! tried for a new account, the profile data copied from the provider, new
//! accounts and password changes.
//!
//! Finding a user takes lookups in the user store. The matching is written as
//! a step function: given the answers to the lookups made so far, it says
//! which lookup to make next, or how the matching ends. The caller makes the
//! lookups and hands back what each found.
use vstd::prelude::*;

use crate::passwords::{bcrypt_verify_outcome, BcryptPasswordService, PasswordService};
use crate::shared::DomainError;
use crate::text::{decimal, str_chars, str_eq, string_from_chars, u64_decimal};
use crate::user::{new_user_refusal, GitHubUser, GoogleUser, User, UserProvider};

verus! {

/// Which users a lookup searches.
#[derive(Debug, Clone, Copy, PartialEq, Eq, Structural)]
pub enum AccountLookup {
    /// The user linked to the provider account with this id.
    ByProvider,
    /// The user with this e-mail address.
    ByEmail,
    /// The user whose recorded GitHub display name is this.
    ByGithubName,
    /// The user with this user name.
    ByUsername,
}

/// What to do next while matching an OAuth profile with a stored user.
#[derive(Debug, Clone)]
pub enum AccountMatchStep {
    /// Look up a user as `kind` says, with `query`, and hand back its id.
    Lookup { kind: AccountLookup, query: String },
    /// The provider account is linked to this user already: bring the user's
    /// profile up to date.
    SyncLinked { user_id: i64 },
    /// The profile matches this user: link the provider account to it, then
    /// bring its profile up to date.
    LinkAndSync { user_id: i64 },
    /// No user matches: create one.
    CreateNew,
}

/// The lookups by a display name: first the recorded GitHub name, then the
/// user name.
pub open spec fn name_lookups(name: Option<String>) -> Seq<(AccountLookup, Seq<char>)> {
    match name {
        Some(n) => seq![(AccountLookup::ByGithubName, n@), (AccountLookup::ByUsername, n@)],
        None => Seq::empty(),
    }
}

/// The lookups for a GitHub profile, in order: the link by GitHub id, the
/// e-mail address where GitHub reports one, and the display name where there
/// is one.
pub open spec fn github_lookups(u: GitHubUser) -> Seq<(AccountLookup, Seq<char>)> {
    seq![(AccountLookup::ByProvider, decimal(u.id as nat))] + email_lookups(u.email) + name_lookups(
        u.name,
    )
}

/// The lookup by an e-mail address, where there is one.
pub open spec fn email_lookups(email: Option<String>) -> Seq<(AccountLookup, Seq<char>)> {
    match email {
        Some(e) => seq![(AccountLookup::ByEmail, e@)],
        None => Seq::empty(),
    }
}

/// The lookups for a Google profile, in order: the link by Google id, the
/// e-mail address, and the display name where there is one.
pub open spec fn google_lookups(u: GoogleUser) -> Seq<(AccountLookup, Seq<char>)> {
    seq![(AccountLookup::ByProvider, u.id@), (AccountLookup::ByEmail, u.email@)] + name_lookups(
        u.name,
    )
}

/// Among the first `n` answers, the first that found a user: its position
/// and the user's id.
pub open spec fn first_found(answers: Seq<Option<i64>>, n: int) -> Option<(int, i64)>
    decreases n,
{
    if n <= 0 {
        None
    } else {
        match first_found(answers, n - 1) {
            Some(p) => Some(p),
            None => match answers[n - 1] {
                Some(id) => Some((n - 1, id)),
                None => None,
            },
        }
    }
}

/// The step after the lookups `lookups` were answered, in order, by
/// `answers` (the id of the user found, or `None` where none was found or it
/// had no id): the first answer that found a user decides, the link by
/// provider account being the first lookup; while none did, the next lookup
/// follows; when all were made in vain, a new user is created. Answers beyond
/// the lookups are not read.
pub open spec fn is_match_step(
    r: AccountMatchStep,
    lookups: Seq<(AccountLookup, Seq<char>)>,
    answers: Seq<Option<i64>>,
) -> bool {
    let n = if answers.len() < lookups.len() { answers.len() as int } else { lookups.len() as int };
    match first_found(answers, n) {
        Some((k, id)) => if k == 0 {
            r == AccountMatchStep::SyncLinked { user_id: id }
        } else {
            r == AccountMatchStep::LinkAndSync { user_id: id }
        },
        None => if answers.len() < lookups.len() {
            r matches AccountMatchStep::Lookup { kind, query } && kind == lookups[answers.len() as int].0
                && query@ == lookups[answers.len() as int].1
        } else {
            r is CreateNew
        },
    }
}

/// The plain view of a list of lookups.
pub open spec fn lookups_view(v: Seq<(AccountLookup, String)>) -> Seq<(AccountLookup, Seq<char>)> {
    v.map_values(|p: (AccountLookup, String)| (p.0, p.1@))
}

fn match_step(lookups: &Vec<(AccountLookup, String)>, answers: &[Option<i64>]) -> (r:
    AccountMatchStep)
    ensures
        is_match_step(r, lookups_view(lookups@), answers@),
{
    let ghost lv = lookups_view(lookups@);
    let n: usize = if answers.len() < lookups.len() {
        answers.len()
    } else {
        lookups.len()
    };
    let mut i: usize = 0;
    while i < n
        invariant
            i <= n,
            n <= answers@.len(),
            n <= lookups@.len(),
            n == (if answers@.len() < lv.len() { answers@.len() } else { lv.len() }),
            lv == lookups_view(lookups@),
            first_found(answers@, i as int) is None,
        decreases n - i,
    {
        match answers[i] {
            Some(id) => {
                proof {
                    assert(first_found(answers@, i + 1) == Some((i as int, id)));
                    lemma_first_found_stays(answers@, i + 1, n as int);
                }
                if i == 0 {
                    return AccountMatchStep::SyncLinked { user_id: id };
                } else {
                    return AccountMatchStep::LinkAndSync { user_id: id };
                }
            },
            None => {},
        }
        i = i + 1;
    }
    if answers.len() < lookups.len() {
        let k = answers.len();
        let kind = lookups[k].0;
        let query = lookups[k].1.clone();
        proof {
            assert(lv[k as int] == (lookups@[k as int].0, lookups@[k as int].1@));
        }
        AccountMatchStep::Lookup { kind, query }
    } else {
        AccountMatchStep::CreateNew
    }
}

/// Once an answer among the first `m` found a user, the first such answer
/// stays the first among more answers.
proof fn lemma_first_found_stays(answers: Seq<Option<i64>>, m: int, n: int)
    requires
        first_found(answers, m) is Some,
        0 <= m <= n,
    ensures
        first_found(answers, n) == first_found(answers, m),
    decreases n - m,
{
    if n > m {
        lemma_first_found_stays(answers, m, n - 1);
    }
}

/// The GitHub id as decimal text.
fn github_id_text(id: u64) -> (r: String)
    ensures
        r@ == decimal(id as nat),
{
    let digits = u64_decimal(id);
    string_from_chars(digits.as_slice())
}

fn push_name_lookups(v: &mut Vec<(AccountLookup, String)>, name: &Option<String>)
    ensures
        lookups_view(final(v)@) == lookups_view(old(v)@) + name_lookups(*name),
{
    let ghost v0 = v@;
    match name {
        Some(n) => {
            v.push((AccountLookup::ByGithubName, n.clone()));
            v.push((AccountLookup::ByUsername, n.clone()));
            proof {
                assert(lookups_view(v@) =~= lookups_view(v0) + name_lookups(*name));
            }
        },
        None => {
            proof {
                assert(lookups_view(v@) =~= lookups_view(v0) + name_lookups(*name));
            }
        },
    }
}

/// The next step in matching a GitHub profile with a stored user, after the
/// lookups of `github_lookups` were answered by `answers`.
pub fn next_github_match_step(github_user: &GitHubUser, answers: &[Option<i64>]) -> (r:
    AccountMatchStep)
    ensures
        is_match_step(r, github_lookups(*github_user), answers@),
{
    let mut lookups: Vec<(AccountLookup, String)> = Vec::new();
    lookups.push((AccountLookup::ByProvider, github_id_text(github_user.id)));
    match &github_user.email {
        Some(e) => {
            lookups.push((AccountLookup::ByEmail, e.clone()));
        },
        None => {},
    }
    let ghost before_names = lookups@;
    push_name_lookups(&mut lookups, &github_user.name);
    proof {
        assert(lookups_view(before_names) =~= seq![
            (AccountLookup::ByProvider, decimal(github_user.id as nat)),
        ] + email_lookups(github_user.email));
        assert(lookups_view(lookups@) =~= github_lookups(*github_user));
    }
    match_step(&lookups, answers)
}

/// The next step in matching a Google profile with a stored user, after the
/// lookups of `google_lookups` were answered by `answers`.
pub fn next_google_match_step(google_user: &GoogleUser, answers: &[Option<i64>]) -> (r:
    AccountMatchStep)
    ensures
        is_match_step(r, google_lookups(*google_user), answers@),
{
    let mut lookups: Vec<(AccountLookup, String)> = Vec::new();
    lookups.push((AccountLookup::ByProvider, google_user.id.clone()));
    lookups.push((AccountLookup::ByEmail, google_user.email.clone()));
    let ghost before_names = lookups@;
    push_name_lookups(&mut lookups, &google_user.name);
    proof {
        assert(lookups_view(before_names) =~= seq![
            (AccountLookup::ByProvider, google_user.id@),
            (AccountLookup::ByEmail, google_user.email@),
        ]);
        assert(lookups_view(lookups@) =~= google_lookups(*google_user));
    }
    match_step(&lookups, answers)
}

/// The number of numbered user names tried after the plain and the
/// prefixed one.
pub const USERNAME_SUFFIX_LIMIT: u32 = 999;

/// The user name tried at `attempt` for a new account built on `base`: the
/// base itself, then `github_` and the base, then `github_`, the base, `_` and
/// a number from 1 up to the limit; `None` once they are used up.
pub open spec fn username_candidate_spec(base: Seq<char>, attempt: nat) -> Option<Seq<char>> {
    if attempt == 0 {
        Some(base)
    } else if attempt == 1 {
        Some("github_"@ + base)
    } else if attempt <= USERNAME_SUFFIX_LIMIT + 1 {
        Some("github_"@ + base + "_"@ + decimal((attempt - 1) as nat))
    } else {
        None
    }
}

/// The user name to try at `attempt` (counting from 0) for a new account
/// built on `base`; an internal error once every candidate was taken.
pub fn username_candidate(base: &str, attempt: u32) -> (r: Result<String, DomainError>)
    ensures
        match username_candidate_spec(base@, attempt as nat) {
            Some(c) => r matches Ok(s) && s@ == c,
            None => r matches Err(DomainError::InternalError { message }) && message@
                == "无法生成唯一用户名"@,
        },
{
    if attempt == 0 {
        Ok(String::from_str(base))
    } else if attempt == 1 {
        Ok(String::from_str("github_").concat(base))
    } else if attempt <= USERNAME_SUFFIX_LIMIT + 1 {
        let digits = u64_decimal((attempt - 1) as u64);
        let number = string_from_chars(digits.as_slice());
        Ok(String::from_str("github_").concat(base).concat("_").concat(number.as_str()))
    } else {
        Err(DomainError::InternalError { message: String::from_str("无法生成唯一用户名") })
    }
}

/// The next step of choosing a new account's user name.
pub enum UsernameStep {
    /// Ask the user store whether this candidate is taken.
    Ask(String),
    /// Use this candidate.
    Use(String),
}

/// The step after the user store said, for the candidates of
/// `username_candidate` in order, whether each is taken (`taken`): the first
/// candidate that is free is used; while every candidate asked about is
/// taken, the next is asked about; once all of them are taken, an internal
/// error. Answers beyond the last candidate are not read.
pub fn next_username_step(base: &str, taken: &[bool]) -> (r: Result<UsernameStep, DomainError>)
    ensures
        r matches Ok(UsernameStep::Use(s)) ==> exists|k: int|
            0 <= k < taken@.len() && k <= USERNAME_SUFFIX_LIMIT + 1 && !taken@[k] && (forall|j: int|
                0 <= j < k ==> taken@[j]) && #[trigger] username_candidate_spec(base@, k as nat)
                == Some(s@),
        r matches Ok(UsernameStep::Ask(s)) ==> taken@.len() <= USERNAME_SUFFIX_LIMIT + 1 && (forall|
            j: int,
        | 0 <= j < taken@.len() ==> taken@[j]) && username_candidate_spec(
            base@,
            taken@.len() as nat,
        ) == Some(s@),
        r matches Err(e) ==> taken@.len() > USERNAME_SUFFIX_LIMIT + 1 && (forall|j: int|
            0 <= j <= USERNAME_SUFFIX_LIMIT + 1 ==> taken@[j]) && (e matches DomainError::InternalError {
            message,
        } && message@ == "无法生成唯一用户名"@),
{
    let limit: usize = (USERNAME_SUFFIX_LIMIT + 1) as usize;
    let mut i: usize = 0;
    while i < taken.len() && i <= limit
        invariant
            i <= taken@.len(),
            i <= limit + 1,
            limit == USERNAME_SUFFIX_LIMIT + 1,
            forall|j: int| 0 <= j < i ==> taken@[j],
        decreases taken@.len() - i,
    {
        if !taken[i] {
            let c = username_candidate(base, i as u32);
            match c {
                Ok(s) => {
                    let ghost k: int = i as int;
                    assert(username_candidate_spec(base@, k as nat) == Some(s@));
                    return Ok(UsernameStep::Use(s));
                },
                Err(e) => {
                    return Err(e);
                },
            }
        }
        i = i + 1;
    }
    if taken.len() <= limit {
        match username_candidate(base, taken.len() as u32) {
            Ok(s) => Ok(UsernameStep::Ask(s)),
            Err(e) => Err(e),
        }
    } else {
        Err(DomainError::InternalError { message: String::from_str("无法生成唯一用户名") })
    }
}

/// The text before the first `@` of an e-mail address, or all of it where it
/// has none; a Google account's new user name is built on it.
pub fn google_base_username(email: &str) -> (r: String)
    ensures
        r@.len() <= email@.len(),
        r@ == email@.take(r@.len() as int),
        !r@.contains('@'),
        r@.len() == email@.len() || email@[r@.len() as int] == '@',
{
    let chars = str_chars(email);
    let mut i: usize = 0;
    while i < chars.len() && chars[i] != '@'
        invariant
            i <= chars@.len(),
            chars@ == email@,
            forall|k: int| 0 <= k < i ==> chars@[k] != '@',
        decreases chars.len() - i,
    {
        i = i + 1;
    }
    let mut prefix: Vec<char> = Vec::new();
    let mut j: usize = 0;
    while j < i
        invariant
            j <= i <= chars@.len(),
            prefix@ == chars@.take(j as int),
        decreases i - j,
    {
        prefix.push(chars[j]);
        proof {
            assert(chars@.take(j + 1) =~= chars@.take(j as int).push(chars@[j as int]));
        }
        j = j + 1;
    }
    let r = string_from_chars(prefix.as_slice());
    proof {
        assert(!r@.contains('@')) by {
            assert forall|k: int| 0 <= k < r@.len() implies r@[k] != '@' by {
                assert(r@[k] == chars@[k]);
            }
        }
    }
    r
}

/// A copy of an optional text.
fn copy_opt(o: &Option<String>) -> (r: Option<String>)
    ensures
        r == *o,
{
    match o {
        Some(s) => Some(s.clone()),
        None => None,
    }
}

/// The texts of an optional string.
pub open spec fn opt_view(o: Option<String>) -> Option<Seq<char>> {
    match o {
        Some(s) => Some(s@),
        None => None,
    }
}

/// Whether two optional texts are equal.
fn opt_text_eq(a: &Option<String>, b: &Option<String>) -> (r: bool)
    ensures
        r == (opt_view(*a) == opt_view(*b)),
{
    match (a, b) {
        (Some(x), Some(y)) => str_eq(x.as_str(), y.as_str()),
        (None, None) => true,
        _ => false,
    }
}

/// What a new account for an OAuth profile is made of.
#[derive(Debug, Clone)]
pub struct NewAccount {
    /// The user name that the candidates are built on.
    pub base_username: String,
    pub email: String,
    pub nick_name: Option<String>,
    pub avatar: Option<String>,
}

/// A new account for a GitHub profile: built on the login, with the reported
/// e-mail address or else `login@github.local`, the display name as nick name
/// and the GitHub avatar.
pub fn github_new_account(github_user: &GitHubUser) -> (r: NewAccount)
    ensures
        r.base_username@ == github_user.login@,
        r.email@ == (match github_user.email {
            Some(e) => e@,
            None => github_user.login@ + "@github.local"@,
        }),
        r.nick_name == github_user.name,
        r.avatar == github_user.avatar_url,
{
    let email = match &github_user.email {
        Some(e) => e.clone(),
        None => github_user.login.clone().concat("@github.local"),
    };
    NewAccount {
        base_username: github_user.login.clone(),
        email,
        nick_name: copy_opt(&github_user.name),
        avatar: copy_opt(&github_user.avatar_url),
    }
}

/// A new account for a Google profile: built on the part of the e-mail
/// address before `@`, with that address, the display name as nick name and
/// the Google picture as avatar.
pub fn google_new_account(google_user: &GoogleUser) -> (r: NewAccount)
    ensures
        r.base_username@.len() <= google_user.email@.len(),
        r.base_username@ == google_user.email@.take(r.base_username@.len() as int),
        !r.base_username@.contains('@'),
        r.base_username@.len() == google_user.email@.len() || google_user.email@[r.base_username@.len() as int] == '@',
        r.email@ == google_user.email@,
        r.nick_name == google_user.name,
        r.avatar == google_user.picture,
{
    NewAccount {
        base_username: google_base_username(google_user.email.as_str()),
        email: google_user.email.clone(),
        nick_name: copy_opt(&google_user.name),
        avatar: copy_opt(&google_user.picture),
    }
}

/// The fields of a user that a profile update leaves alone.
pub open spec fn same_identity(a: User, b: User) -> bool {
    &&& a.id == b.id
    &&& a.user_id == b.user_id
    &&& a.username == b.username
    &&& a.password_hash == b.password_hash
    &&& a.email == b.email
    &&& a.status == b.status
    &&& a.created_at == b.created_at
}

/// Brings a linked user up to date with its GitHub profile: the GitHub
/// display name is always copied, the display name becomes the nick name
/// where the user has none, and a GitHub avatar replaces a different one.
/// Says whether anything changed, so that the user is saved.
pub fn sync_github_user_info(user: &mut User, github_user: &GitHubUser) -> (updated: bool)
    ensures
        same_identity(*final(user), *old(user)),
        final(user).updated_at == old(user).updated_at,
        final(user).github_name == github_user.name,
        final(user).nick_name == (if old(user).nick_name is None && github_user.name is Some {
            github_user.name
        } else {
            old(user).nick_name
        }),
        final(user).avatar == (if github_user.avatar_url is Some {
            github_user.avatar_url
        } else {
            old(user).avatar
        }),
        updated == (opt_view(old(user).github_name) != opt_view(github_user.name) || (old(
            user,
        ).nick_name is None && github_user.name is Some) || (github_user.avatar_url is Some
            && opt_view(old(user).avatar) != opt_view(github_user.avatar_url))),
{
    let mut updated = false;
    if !opt_text_eq(&user.github_name, &github_user.name) {
        user.github_name = copy_opt(&github_user.name);
        updated = true;
    } else {
        user.github_name = copy_opt(&github_user.name);
    }
    if user.nick_name.is_none() {
        match &github_user.name {
            Some(n) => {
                user.nick_name = Some(n.clone());
                updated = true;
            },
            None => {},
        }
    }
    match &github_user.avatar_url {
        Some(a) => {
            let current = copy_opt(&user.avatar);
            let incoming = Some(a.clone());
            if !opt_text_eq(&current, &incoming) {
                updated = true;
            }
            user.avatar = incoming;
        },
        None => {},
    }
    updated
}

/// Brings a linked user up to date with its Google profile: the display
/// name becomes the nick name where the user has none, and the picture the
/// avatar where the user has none. Says whether anything changed, so that the
/// user is saved.
pub fn sync_google_user_info(user: &mut User, google_user: &GoogleUser) -> (updated: bool)
    ensures
        same_identity(*final(user), *old(user)),
        final(user).github_name == old(user).github_name,
        final(user).nick_name == (if old(user).nick_name is None && google_user.name is Some {
            google_user.name
        } else {
            old(user).nick_name
        }),
        final(user).avatar == (if old(user).avatar is None && google_user.picture is Some {
            google_user.picture
        } else {
            old(user).avatar
        }),
        updated == ((old(user).nick_name is None && google_user.name is Some) || (old(
            user,
        ).avatar is None && google_user.picture is Some)),
        !updated ==> final(user).updated_at == old(user).updated_at,
{
    let mut updated = false;
    if user.nick_name.is_none() && google_user.name.is_some() {
        let avatar = copy_opt(&user.avatar);
        user.update_profile(copy_opt(&google_user.name), avatar);
        updated = true;
    }
    if user.avatar.is_none() && google_user.picture.is_some() {
        let nick = copy_opt(&user.nick_name);
        user.update_profile(nick, copy_opt(&google_user.picture));
        updated = true;
    }
    updated
}

/// The link between a user and a GitHub account: provider `github`, the
/// GitHub id as decimal text, the reported e-mail address and the raw profile.
pub fn github_provider_link(user_id: i64, github_user: &GitHubUser, provider_raw: serde_json::Value) -> (r: UserProvider)
    ensures
        r.id is None,
        r.user_id == user_id,
        r.provider@ == "github"@,
        r.provider_user_id@ == decimal(github_user.id as nat),
        r.provider_email == github_user.email,
        r.provider_raw == Some(provider_raw),
        r.last_synced_at == Some(r.created_at),
{
    UserProvider::new(
        user_id,
        String::from_str("github"),
        github_id_text(github_user.id),
        copy_opt(&github_user.email),
        Some(provider_raw),
    )
}

/// The link between a user and a Google account: provider `google`, the
/// Google id, the e-mail address and the raw profile.
pub fn google_provider_link(user_id: i64, google_user: &GoogleUser, provider_raw: serde_json::Value) -> (r: UserProvider)
    ensures
        r.id is None,
        r.user_id == user_id,
        r.provider@ == "google"@,
        r.provider_user_id@ == google_user.id@,
        r.provider_email == Some(google_user.email),
        r.provider_raw == Some(provider_raw),
        r.last_synced_at == Some(r.created_at),
{
    UserProvider::new(
        user_id,
        String::from_str("google"),
        google_user.id.clone(),
        Some(google_user.email.clone()),
        Some(provider_raw),
    )
}

/// A new user with a hashed password, for the sign-up form or an OAuth
/// profile, once the store has said whether the user name and the e-mail
/// address are taken: a taken user name is refused first, then a taken
/// address; then the password is hashed and the user built as `User::new`
/// builds it, without avatar.
pub fn prepare_new_user(
    passwords: &BcryptPasswordService,
    username: String,
    password: &str,
    email: String,
    nick_name: Option<String>,
    username_taken: bool,
    email_taken: bool,
) -> (r: Result<User, DomainError>)
    ensures
        match r {
            Ok(u) => {
                &&& !username_taken && !email_taken
                &&& new_user_refusal(username@, u.password_hash@, email@) is None
                &&& bcrypt_verify_outcome(vstd::utf8::encode_utf8(password@), u.password_hash@)
                    == Some(true)
                &&& u.id is None
                &&& u.username == username
                &&& u.email == email
                &&& u.nick_name == nick_name
                &&& u.avatar is None
                &&& u.github_name is None
                &&& u.status@ == "active"@
            },
            Err(e) => if username_taken {
                e matches DomainError::ValidationError { message } && message@ == "用户名已存在"@
            } else if email_taken {
                e matches DomainError::ValidationError { message } && message@ == "邮箱已存在"@
            } else {
                ||| (e matches DomainError::InternalError { message }
                    && "Password hashing failed: "@.is_prefix_of(message@))
                ||| (e matches DomainError::ValidationError { message } && exists|h: Seq<char>|
                    #[trigger] new_user_refusal(username@, h, email@) == Some(message@))
            },
        },
{
    if username_taken {
        return Err(DomainError::ValidationError { message: String::from_str("用户名已存在") });
    }
    if email_taken {
        return Err(DomainError::ValidationError { message: String::from_str("邮箱已存在") });
    }
    let password_hash = passwords.hash_password(password)?;
    let ghost h = password_hash@;
    let r = User::new(username, password_hash, email, nick_name, None);
    proof {
        if r is Err {
            assert(new_user_refusal(username@, h, email@) is Some);
        }
    }
    r
}

/// A user's password changed, once the user was looked up by id: a missing
/// user is not found; the old password must match the stored hash as bcrypt
/// says, else the change is refused; then the new password is hashed into
/// the user, whose other fields stay.
pub fn apply_password_change(
    passwords: &BcryptPasswordService,
    user: Option<User>,
    old_password: &str,
    new_password: &str,
) -> (r: Result<User, DomainError>)
    ensures
        match user {
            None => r matches Err(DomainError::NotFound { resource }) && resource@ == "用户"@,
            Some(u) => match bcrypt_verify_outcome(vstd::utf8::encode_utf8(old_password@), u.password_hash@) {
                None => r matches Err(DomainError::InternalError { message })
                    && "Password verification failed: "@.is_prefix_of(message@),
                Some(false) => r matches Err(DomainError::ValidationError { message }) && message@
                    == "原密码错误"@,
                Some(true) => match r {
                    Ok(v) => {
                        &&& bcrypt_verify_outcome(vstd::utf8::encode_utf8(new_password@), v.password_hash@) == Some(true)
                        &&& v == (User { password_hash: v.password_hash, ..u })
                    },
                    Err(e) => e matches DomainError::InternalError { message }
                        && "Password hashing failed: "@.is_prefix_of(message@),
                },
            },
        },
{
    let mut u = match user {
        Some(u) => u,
        None => {
            return Err(DomainError::NotFound { resource: String::from_str("用户") });
        },
    };
    let matches = passwords.verify_password(old_password, u.password_hash.as_str())?;
    if !matches {
        return Err(DomainError::ValidationError { message: String::from_str("原密码错误") });
    }
    let new_hash = passwords.hash_password(new_password)?;
    u.password_hash = new_hash;
    Ok(u)
}

/// The user names tried for a new account are all different, so each
/// attempt asks about a name not asked about before.
pub proof fn lemma_username_candidates_distinct(base: Seq<char>, a: nat, b: nat)
    requires
        a != b,
        a <= USERNAME_SUFFIX_LIMIT + 1,
        b <= USERNAME_SUFFIX_LIMIT + 1,
    ensures
        username_candidate_spec(base, a) is Some,
        username_candidate_spec(base, b) is Some,
        username_candidate_spec(base, a) != username_candidate_spec(base, b),
{
    reveal_strlit("github_");
    reveal_strlit("_");
    assert("github_"@.len() == 7);
    assert("_"@.len() == 1);
    if a >= 2 && b >= 2 {
        let p = "github_"@ + base + "_"@;
        let da = decimal((a - 1) as nat);
        let db = decimal((b - 1) as nat);
        crate::text::lemma_decimal_digits((a - 1) as nat);
        crate::text::lemma_decimal_digits((b - 1) as nat);
        if p + da == p + db {
            assert((p + da).skip(p.len() as int) =~= da);
            assert((p + db).skip(p.len() as int) =~= db);
            assert(da == db);
        }
    } else if a >= 2 || b >= 2 {
        let k = if a >= 2 { a } else { b };
        crate::text::lemma_decimal_digits((k - 1) as nat);
    }
}

} // verus!
