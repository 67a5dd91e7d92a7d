//! In-memory captcha store: captcha texts by session, checked without regard
//! to case, and dropped once they are older than the expiry.
use vstd::prelude::*;

use std::time::{SystemTime, UNIX_EPOCH};

use crate::text::{str_eq, to_lowercase, unicode_lower};

verus! {

/// A stored captcha: its text and when it was created, in seconds since the
/// Unix epoch.
#[derive(Debug, Clone, Default)]
pub struct StoredCaptchaInfo {
    pub text: String,
    pub created_at: u64,
}

/// A captcha stored for a session.
#[derive(Debug, Clone)]
pub struct CaptchaEntry {
    pub session_id: String,
    pub info: StoredCaptchaInfo,
}

/// Storage of captcha texts by session.
pub trait CaptchaRepository {
    /// Stores the text for the session, dropping captchas older than the expiry.
    fn save(&self, session_id: &str, text: &str, expiry_seconds: u64);

    /// Whether the input matches the session's captcha.
    fn validate(&self, session_id: &str, input: &str) -> bool;

    /// Forgets the session's captcha.
    fn remove(&self, session_id: &str);
}

/// Captchas kept in memory, one per session.
pub struct InMemoryCaptchaRepository {
    captchas: Vec<CaptchaEntry>,
}

/// The sessions of the entries are distinct.
pub open spec fn distinct_sessions(e: Seq<CaptchaEntry>) -> bool {
    forall|i: int, j: int|
        0 <= i < e.len() && 0 <= j < e.len() && i != j ==> #[trigger] e[i].session_id@
            != #[trigger] e[j].session_id@
}

/// The entries as a map from session to text and creation time.
pub open spec fn entries_map(e: Seq<CaptchaEntry>) -> Map<Seq<char>, (Seq<char>, u64)> {
    Map::new(
        |k: Seq<char>| exists|i: int| 0 <= i < e.len() && e[i].session_id@ == k,
        |k: Seq<char>|
            {
                let i = choose|i: int| 0 <= i < e.len() && e[i].session_id@ == k;
                (e[i].info.text@, e[i].info.created_at)
            },
    )
}

/// How long ago, by the clock reading `now`, a captcha made at `created_at`
/// was made; the difference wraps as `u64::wrapping_sub` does.
pub open spec fn captcha_age(now: u64, created_at: u64) -> u64 {
    now.wrapping_sub(created_at)
}

/// The captchas that are at most `expiry` seconds old at `now`.
pub open spec fn fresh_only(m: Map<Seq<char>, (Seq<char>, u64)>, now: u64, expiry: u64) -> Map<
    Seq<char>,
    (Seq<char>, u64),
> {
    m.restrict(m.dom().filter(|k: Seq<char>| captcha_age(now, m[k].1) <= expiry))
}

/// Whether the input matches a stored text, ignoring case.
pub open spec fn captcha_matches(m: Map<Seq<char>, (Seq<char>, u64)>, session: Seq<char>, input: Seq<char>) -> bool {
    m.contains_key(session) && unicode_lower(m[session].0) == unicode_lower(input)
}

proof fn lemma_map_at(e: Seq<CaptchaEntry>, i: int)
    requires
        distinct_sessions(e),
        0 <= i < e.len(),
    ensures
        entries_map(e).contains_key(e[i].session_id@),
        entries_map(e)[e[i].session_id@] == (e[i].info.text@, e[i].info.created_at),
{
    let k = e[i].session_id@;
    assert(exists|j: int| 0 <= j < e.len() && e[j].session_id@ == k);
    let j = choose|j: int| 0 <= j < e.len() && e[j].session_id@ == k;
    assert(j == i);
}

/// Calls `SystemTime::now` and takes the whole seconds since the Unix epoch;
/// nothing is claimed of the reading.
#[verifier::external_body]
fn unix_now_secs() -> u64 {
    SystemTime::now().duration_since(UNIX_EPOCH).unwrap().as_secs()
}

impl View for InMemoryCaptchaRepository {
    type V = Map<Seq<char>, (Seq<char>, u64)>;

    closed spec fn view(&self) -> Self::V {
        entries_map(self.captchas@)
    }
}

impl InMemoryCaptchaRepository {
    #[verifier::type_invariant]
    spec fn well_formed(self) -> bool {
        distinct_sessions(self.captchas@)
    }

    /// An empty store.
    pub fn new() -> (r: Self)
        ensures
            r@ == Map::<Seq<char>, (Seq<char>, u64)>::empty(),
    {
        let r = InMemoryCaptchaRepository { captchas: Vec::new() };
        assert(r@ =~= Map::<Seq<char>, (Seq<char>, u64)>::empty());
        r
    }

    /// The position of the session's entry, if it has one.
    fn find(&self, session_id: &str) -> (r: Option<usize>)
        ensures
            r matches Some(i) ==> i < self.captchas@.len() && self.captchas@[i as int].session_id@
                == session_id@,
            r is None ==> forall|i: int|
                0 <= i < self.captchas@.len() ==> self.captchas@[i].session_id@ != session_id@,
    {
        let mut i: usize = 0;
        while i < self.captchas.len()
            invariant
                i <= self.captchas@.len(),
                forall|k: int| 0 <= k < i ==> self.captchas@[k].session_id@ != session_id@,
            decreases self.captchas.len() - i,
        {
            if str_eq(self.captchas[i].session_id.as_str(), session_id) {
                return Some(i);
            }
            i = i + 1;
        }
        None
    }

    /// Stores the text for the session as created at `now`, replacing what it
    /// had.
    pub fn save_at(&mut self, session_id: &str, text: &str, now: u64)
        ensures
            final(self)@ == old(self)@.insert(session_id@, (text@, now)),
    {
        proof {
            use_type_invariant(&*self);
        }
        let ghost old_e = self.captchas@;
        let entry = CaptchaEntry {
            session_id: String::from_str(session_id),
            info: StoredCaptchaInfo { text: String::from_str(text), created_at: now },
        };
        let mut v: Vec<CaptchaEntry> = Vec::new();
        std::mem::swap(&mut v, &mut self.captchas);
        let found = find_in(&v, session_id);
        let ghost new_entry = entry;
        match found {
            Some(i) => {
                v.set(i, entry);
            },
            None => {
                v.push(entry);
            },
        }
        proof {
            let idx: int = match found {
                Some(i) => i as int,
                None => old_e.len() as int,
            };
            assert(0 <= idx < v@.len());
            assert(v@[idx] == new_entry);
            assert(forall|a: int| 0 <= a < v@.len() && a != idx ==> a < old_e.len() && v@[a] == old_e[a]);
            assert(distinct_sessions(v@)) by {
                assert forall|a: int, b: int|
                    0 <= a < v@.len() && 0 <= b < v@.len() && a != b implies #[trigger] v@[a].session_id@
                    != #[trigger] v@[b].session_id@ by {
                    if a != idx && b != idx {
                        assert(old_e[a].session_id@ != old_e[b].session_id@);
                    }
                }
            }
            let m = entries_map(v@);
            let m2 = entries_map(old_e).insert(session_id@, (text@, now));
            assert forall|k: Seq<char>| m.contains_key(k) <==> m2.contains_key(k) by {
                if m.contains_key(k) && k != session_id@ {
                    let i = choose|i: int| 0 <= i < v@.len() && v@[i].session_id@ == k;
                    assert(i != idx);
                    assert(old_e[i].session_id@ == k);
                }
                if m2.contains_key(k) {
                    if k == session_id@ {
                        assert(v@[idx].session_id@ == k);
                    } else {
                        let i = choose|i: int| 0 <= i < old_e.len() && old_e[i].session_id@ == k;
                        assert(i != idx);
                        assert(v@[i].session_id@ == k);
                    }
                }
            }
            assert forall|k: Seq<char>| m.contains_key(k) implies m[k] == m2[k] by {
                let i = choose|i: int| 0 <= i < v@.len() && v@[i].session_id@ == k;
                lemma_map_at(v@, i);
                if k != session_id@ {
                    assert(i != idx);
                    lemma_map_at(old_e, i);
                }
            }
            assert(m =~= m2);
        }
        self.captchas = v;
    }

    /// Keeps the captchas that are at most `expiry` seconds old by the clock
    /// reading `now`.
    pub fn retain_fresh(&mut self, now: u64, expiry_seconds: u64)
        ensures
            final(self)@ == fresh_only(old(self)@, now, expiry_seconds),
    {
        proof {
            use_type_invariant(&*self);
        }
        let mut v: Vec<CaptchaEntry> = Vec::new();
        std::mem::swap(&mut v, &mut self.captchas);
        let ghost old_e = v@;
        let ghost p = |e: CaptchaEntry| captcha_age(now, e.info.created_at) <= expiry_seconds;
        let mut w: Vec<CaptchaEntry> = Vec::new();
        let ghost mut idx: Seq<int> = Seq::empty();
        for e in it: v
            invariant
                it.seq() == old_e,
                forall|x: CaptchaEntry| #[trigger] p(x) == (captcha_age(now, x.info.created_at) <= expiry_seconds),
                filtered_from(old_e, w@, idx, it.index() as int, p),
        {
            let keep = now.wrapping_sub(e.info.created_at) <= expiry_seconds;
            proof {
                assert(e == old_e[it.index() as int]);
                lemma_filtered_step(old_e, w@, idx, it.index() as int, p, keep);
            }
            if keep {
                proof {
                    idx = idx.push(it.index() as int);
                }
                w.push(e);
            }
        }
        proof {
            lemma_filtered_map(old_e, w@, idx, p);
            let m = entries_map(w@);
            let f = fresh_only(entries_map(old_e), now, expiry_seconds);
            assert forall|k: Seq<char>| m.contains_key(k) <==> f.contains_key(k) by {
                if f.contains_key(k) {
                    let j = choose|j: int| 0 <= j < old_e.len() && old_e[j].session_id@ == k;
                    lemma_map_at(old_e, j);
                    assert(p(old_e[j]));
                }
                if m.contains_key(k) {
                    let j = choose|j: int| 0 <= j < old_e.len() && old_e[j].session_id@ == k && p(old_e[j]);
                    lemma_map_at(old_e, j);
                }
            }
            assert(m =~= f);
        }
        self.captchas = w;
    }

    /// Forgets the session's captcha.
    pub fn remove(&mut self, session_id: &str)
        ensures
            final(self)@ == old(self)@.remove(session_id@),
    {
        proof {
            use_type_invariant(&*self);
        }
        let mut v: Vec<CaptchaEntry> = Vec::new();
        std::mem::swap(&mut v, &mut self.captchas);
        let ghost old_e = v@;
        let ghost sid = session_id@;
        let ghost p = |e: CaptchaEntry| e.session_id@ != sid;
        let mut w: Vec<CaptchaEntry> = Vec::new();
        let ghost mut idx: Seq<int> = Seq::empty();
        for e in it: v
            invariant
                it.seq() == old_e,
                sid == session_id@,
                forall|x: CaptchaEntry| #[trigger] p(x) == (x.session_id@ != sid),
                filtered_from(old_e, w@, idx, it.index() as int, p),
        {
            let keep = !str_eq(e.session_id.as_str(), session_id);
            proof {
                assert(e == old_e[it.index() as int]);
                lemma_filtered_step(old_e, w@, idx, it.index() as int, p, keep);
            }
            if keep {
                proof {
                    idx = idx.push(it.index() as int);
                }
                w.push(e);
            }
        }
        proof {
            lemma_filtered_map(old_e, w@, idx, p);
            let m = entries_map(w@);
            let f = entries_map(old_e).remove(sid);
            assert forall|k: Seq<char>| m.contains_key(k) <==> f.contains_key(k) by {
                if f.contains_key(k) {
                    let j = choose|j: int| 0 <= j < old_e.len() && old_e[j].session_id@ == k;
                    assert(p(old_e[j]));
                }
            }
            assert(m =~= f);
        }
        self.captchas = w;
    }

    /// Whether the input matches the session's captcha text, ignoring case as
    /// `str::to_lowercase` does.
    pub fn validate(&self, session_id: &str, input: &str) -> (b: bool)
        ensures
            b == captcha_matches(self@, session_id@, input@),
    {
        proof {
            use_type_invariant(self);
        }
        match find_in(&self.captchas, session_id) {
            Some(i) => {
                proof {
                    lemma_map_at(self.captchas@, i as int);
                }
                let a = to_lowercase(self.captchas[i].info.text.as_str());
                let b = to_lowercase(input);
                a == b
            },
            None => false,
        }
    }

    /// Stores the text for the session and then drops the captchas older than
    /// the expiry; the clock is read once for the creation time and once for
    /// the clean-up.
    pub fn save(&mut self, session_id: &str, text: &str, expiry_seconds: u64)
        ensures
            exists|created: u64, now: u64|
                final(self)@ == #[trigger] fresh_only(
                    old(self)@.insert(session_id@, (text@, created)),
                    now,
                    expiry_seconds,
                ),
    {
        let created = unix_now_secs();
        self.save_at(session_id, text, created);
        self.cleanup_expired(expiry_seconds);
    }

    /// Drops the captchas older than the expiry by the clock's current reading.
    pub fn cleanup_expired(&mut self, expiry_seconds: u64)
        ensures
            exists|now: u64| final(self)@ == #[trigger] fresh_only(old(self)@, now, expiry_seconds),
    {
        let now = unix_now_secs();
        self.retain_fresh(now, expiry_seconds);
    }
}

/// `w` is the entries of `old` that satisfy `p`, in order; `idx` gives where
/// each came from.
pub open spec fn filtered_from(
    old: Seq<CaptchaEntry>,
    w: Seq<CaptchaEntry>,
    idx: Seq<int>,
    upto: int,
    p: spec_fn(CaptchaEntry) -> bool,
) -> bool {
    &&& idx.len() == w.len()
    &&& forall|a: int| 0 <= a < w.len() ==> 0 <= #[trigger] idx[a] < upto && w[a] == old[idx[a]] && p(w[a])
    &&& forall|a: int, b: int| 0 <= a < b < w.len() ==> #[trigger] idx[a] < #[trigger] idx[b]
    &&& forall|j: int| 0 <= j < upto && #[trigger] p(old[j]) ==> exists|a: int| 0 <= a < w.len() && idx[a] == j
}

proof fn lemma_filtered_map(
    old: Seq<CaptchaEntry>,
    w: Seq<CaptchaEntry>,
    idx: Seq<int>,
    p: spec_fn(CaptchaEntry) -> bool,
)
    requires
        distinct_sessions(old),
        filtered_from(old, w, idx, old.len() as int, p),
    ensures
        distinct_sessions(w),
        forall|k: Seq<char>| #[trigger] entries_map(w).contains_key(k) <==> (exists|j: int| 0 <= j < old.len() && old[j].session_id@ == k && p(old[j])),
        forall|k: Seq<char>| #[trigger] entries_map(w).contains_key(k) ==> entries_map(w)[k] == entries_map(old)[k],
{
    assert forall|a: int, b: int| 0 <= a < w.len() && 0 <= b < w.len() && a != b implies #[trigger] w[a].session_id@ != #[trigger] w[b].session_id@ by {
        if a < b {
            assert(idx[a] < idx[b]);
        } else {
            assert(idx[b] < idx[a]);
        }
    }
    assert forall|k: Seq<char>| #[trigger] entries_map(w).contains_key(k) <==> (exists|j: int| 0 <= j < old.len() && old[j].session_id@ == k && p(old[j])) by {
        if entries_map(w).contains_key(k) {
            let a = choose|a: int| 0 <= a < w.len() && w[a].session_id@ == k;
            assert(old[idx[a]].session_id@ == k && p(old[idx[a]]));
        }
        if exists|j: int| 0 <= j < old.len() && old[j].session_id@ == k && p(old[j]) {
            let j = choose|j: int| 0 <= j < old.len() && old[j].session_id@ == k && p(old[j]);
            let a = choose|a: int| 0 <= a < w.len() && idx[a] == j;
            assert(w[a].session_id@ == k);
        }
    }
    assert forall|k: Seq<char>| #[trigger] entries_map(w).contains_key(k) implies entries_map(w)[k] == entries_map(old)[k] by {
        let a = choose|a: int| 0 <= a < w.len() && w[a].session_id@ == k;
        lemma_map_at(w, a);
        lemma_map_at(old, idx[a]);
    }
}

proof fn lemma_filtered_step(
    old: Seq<CaptchaEntry>,
    w: Seq<CaptchaEntry>,
    idx: Seq<int>,
    i: int,
    p: spec_fn(CaptchaEntry) -> bool,
    keep: bool,
)
    requires
        0 <= i < old.len(),
        filtered_from(old, w, idx, i, p),
        keep == p(old[i]),
    ensures
        keep ==> filtered_from(old, w.push(old[i]), idx.push(i), i + 1, p),
        !keep ==> filtered_from(old, w, idx, i + 1, p),
{
    if keep {
        let w2 = w.push(old[i]);
        let idx2 = idx.push(i);
        assert forall|j: int| 0 <= j < i + 1 && #[trigger] p(old[j]) implies exists|a: int| 0 <= a < w2.len() && idx2[a] == j by {
            if j < i {
                let a = choose|a: int| 0 <= a < w.len() && idx[a] == j;
                assert(idx2[a] == j);
            } else {
                assert(idx2[w.len() as int] == j);
            }
        }
    }
}

/// The position of the session's entry in `v`, if it has one.
fn find_in(v: &Vec<CaptchaEntry>, session_id: &str) -> (r: Option<usize>)
    ensures
        r matches Some(i) ==> i < v@.len() && v@[i as int].session_id@ == session_id@,
        r is None ==> forall|i: int| 0 <= i < v@.len() ==> v@[i].session_id@ != session_id@,
{
    let mut i: usize = 0;
    while i < v.len()
        invariant
            i <= v@.len(),
            forall|k: int| 0 <= k < i ==> v@[k].session_id@ != session_id@,
        decreases v.len() - i,
    {
        if str_eq(v[i].session_id.as_str(), session_id) {
            return Some(i);
        }
        i = i + 1;
    }
    None
}

/// A stored captcha is accepted for its own text, and stays stored through a
/// clean-up at the clock reading it was stored with.
pub proof fn lemma_stored_captcha_matches(
    m: Map<Seq<char>, (Seq<char>, u64)>,
    session: Seq<char>,
    text: Seq<char>,
    now: u64,
    expiry: u64,
)
    ensures
        captcha_matches(m.insert(session, (text, now)), session, text),
        captcha_matches(fresh_only(m.insert(session, (text, now)), now, expiry), session, text),
{
    let m2 = m.insert(session, (text, now));
    assert(captcha_age(now, now) == 0) by (bit_vector);
    assert(m2.dom().filter(|k: Seq<char>| captcha_age(now, m2[k].1) <= expiry).contains(session));
}

/// A removed captcha is accepted for no input.
pub proof fn lemma_removed_captcha_rejected(
    m: Map<Seq<char>, (Seq<char>, u64)>,
    session: Seq<char>,
    input: Seq<char>,
)
    ensures
        !captcha_matches(m.remove(session), session, input),
{
}

/// After `save(session, text, expiry)`, which stored the text at the clock
/// reading `created` and then dropped the captchas older than `expiry` at
/// the reading `now`, `validate(session, input)` holds exactly for the
/// inputs that equal the text without regard to case, as long as the
/// clean-up did not find it too old; after `remove(session)` it holds for
/// no input.
pub proof fn lemma_validate_after_save(
    m: Map<Seq<char>, (Seq<char>, u64)>,
    session: Seq<char>,
    text: Seq<char>,
    created: u64,
    now: u64,
    expiry: u64,
    input: Seq<char>,
)
    requires
        captcha_age(now, created) <= expiry,
    ensures
        captcha_matches(fresh_only(m.insert(session, (text, created)), now, expiry), session, input)
            == (unicode_lower(text) == unicode_lower(input)),
        !captcha_matches(
            fresh_only(m.insert(session, (text, created)), now, expiry).remove(session),
            session,
            input,
        ),
{
    let m2 = m.insert(session, (text, created));
    assert(m2.dom().filter(|k: Seq<char>| captcha_age(now, m2[k].1) <= expiry).contains(session));
}

} // verus!
