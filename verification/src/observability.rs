//! The observability data sources: how each kind is reached (address,
//! headers, paths), how a connection test is reported, and the registry of
//! sources by name that queries are routed through.
use vstd::prelude::*;

use crate::text::{push_str_chars, str_chars, str_eq, string_from_chars};

verus! {

/// How to reach a data source.
#[derive(Debug, Clone)]
pub enum DataSourceConfig {
    /// A Grafana-proxied Prometheus, reached with a Grafana session cookie.
    Prometheus { base_url: String, cookie: String },
    /// The Clinic service, reached with an API key or a cookie and CSRF token.
    Clinic {
        base_url: String,
        apikey: Option<String>,
        cookie: Option<String>,
        csrf_token: Option<String>,
    },
}

/// The outcome of a connection test.
#[derive(Debug, Clone)]
pub struct ConnectionTestResult {
    pub success: bool,
    pub message: String,
}

/// The headers a data source is asked with, as name and value.
pub open spec fn source_headers_of(config: DataSourceConfig) -> Seq<(Seq<char>, Seq<char>)> {
    match config {
        DataSourceConfig::Prometheus { cookie, .. } => seq![("Cookie"@, "grafana_session="@ + cookie@)],
        DataSourceConfig::Clinic { apikey, cookie, csrf_token, .. } => match apikey {
            Some(k) => seq![("Authorization"@, "Bearer "@ + k@)],
            None => match (cookie, csrf_token) {
                (Some(c), Some(t)) => seq![("Cookie"@, c@), ("X-CSRF-Token"@, t@)],
                _ => Seq::empty(),
            },
        },
    }
}

/// The plain view of a list of headers.
pub open spec fn headers_view(h: Seq<(String, String)>) -> Seq<(Seq<char>, Seq<char>)> {
    h.map_values(|p: (String, String)| (p.0@, p.1@))
}

/// The headers a data source is asked with: the Grafana session cookie for
/// Prometheus; for Clinic the API key as bearer token, or else the cookie
/// and CSRF token when both are given, or else none.
pub fn source_headers(config: &DataSourceConfig) -> (r: Vec<(String, String)>)
    ensures
        headers_view(r@) == source_headers_of(*config),
{
    let mut h: Vec<(String, String)> = Vec::new();
    match config {
        DataSourceConfig::Prometheus { cookie, .. } => {
            h.push((String::from_str("Cookie"), String::from_str("grafana_session=").concat(cookie.as_str())));
        },
        DataSourceConfig::Clinic { apikey, cookie, csrf_token, .. } => match apikey {
            Some(k) => {
                h.push((String::from_str("Authorization"), String::from_str("Bearer ").concat(k.as_str())));
            },
            None => match (cookie, csrf_token) {
                (Some(c), Some(t)) => {
                    h.push((String::from_str("Cookie"), c.clone()));
                    h.push((String::from_str("X-CSRF-Token"), t.clone()));
                },
                _ => {},
            },
        },
    }
    proof {
        assert(headers_view(h@) =~= source_headers_of(*config));
    }
    h
}

/// The address a data source is reached at.
pub fn source_base_url(config: &DataSourceConfig) -> (r: String)
    ensures
        r@ == (match *config {
            DataSourceConfig::Prometheus { base_url, .. } => base_url@,
            DataSourceConfig::Clinic { base_url, .. } => base_url@,
        }),
{
    match config {
        DataSourceConfig::Prometheus { base_url, .. } => base_url.clone(),
        DataSourceConfig::Clinic { base_url, .. } => base_url.clone(),
    }
}

/// The path a data source's health is checked at.
pub fn health_path(config: &DataSourceConfig) -> (r: &'static str)
    ensures
        r@ == (match *config {
            DataSourceConfig::Prometheus { .. } => "api/datasources/proxy/1/api/v1/status/config"@,
            DataSourceConfig::Clinic { .. } => "clinic/api/v1/dashboard/clusters2?limit=1"@,
        }),
{
    match config {
        DataSourceConfig::Prometheus { .. } => "api/datasources/proxy/1/api/v1/status/config",
        DataSourceConfig::Clinic { .. } => "clinic/api/v1/dashboard/clusters2?limit=1",
    }
}

/// `s` without the `c` characters at its end.
pub open spec fn trim_end_char(s: Seq<char>, c: char) -> Seq<char>
    decreases s.len(),
{
    if s.len() > 0 && s.last() == c {
        trim_end_char(s.drop_last(), c)
    } else {
        s
    }
}

/// `s` without the `c` characters at its start.
pub open spec fn trim_start_char(s: Seq<char>, c: char) -> Seq<char>
    decreases s.len(),
{
    if s.len() > 0 && s[0] == c {
        trim_start_char(s.drop_first(), c)
    } else {
        s
    }
}

/// The address of a request: the base without trailing slashes, a slash,
/// and the path without leading slashes.
pub open spec fn request_url_of(base_url: Seq<char>, path: Seq<char>) -> Seq<char> {
    trim_end_char(base_url, '/') + "/"@ + trim_start_char(path, '/')
}

proof fn lemma_trim_end_char(s: Seq<char>, c: char, k: int)
    requires
        0 <= k <= s.len(),
        forall|i: int| k <= i < s.len() ==> s[i] == c,
        k == 0 || s[k - 1] != c,
    ensures
        trim_end_char(s, c) == s.take(k),
    decreases s.len() - k,
{
    if s.len() > k {
        assert(s.drop_last().len() == s.len() - 1);
        lemma_trim_end_char(s.drop_last(), c, k);
        assert(s.drop_last().take(k) =~= s.take(k));
    } else {
        assert(s.take(k) =~= s);
    }
}

proof fn lemma_trim_start_char(s: Seq<char>, c: char, k: int)
    requires
        0 <= k <= s.len(),
        forall|i: int| 0 <= i < k ==> s[i] == c,
        k == s.len() || s[k] != c,
    ensures
        trim_start_char(s, c) == s.skip(k),
    decreases k,
{
    if k > 0 {
        lemma_trim_start_char(s.drop_first(), c, k - 1);
        assert(s.drop_first().skip(k - 1) =~= s.skip(k));
    } else {
        assert(s.skip(0) =~= s);
    }
}

/// The address of a request to `path` on the data source at `base_url`.
pub fn request_url(base_url: &str, path: &str) -> (r: String)
    ensures
        r@ == request_url_of(base_url@, path@),
{
    let b = str_chars(base_url);
    let p = str_chars(path);
    let mut end: usize = b.len();
    while end > 0 && b[end - 1] == '/'
        invariant
            end <= b@.len(),
            b@ == base_url@,
            forall|i: int| end <= i < b@.len() ==> b@[i] == '/',
        decreases end,
    {
        end = end - 1;
    }
    let mut start: usize = 0;
    while start < p.len() && p[start] == '/'
        invariant
            start <= p@.len(),
            p@ == path@,
            forall|i: int| 0 <= i < start ==> p@[i] == '/',
        decreases p.len() - start,
    {
        start = start + 1;
    }
    proof {
        lemma_trim_end_char(base_url@, '/', end as int);
        lemma_trim_start_char(path@, '/', start as int);
    }
    let mut v: Vec<char> = Vec::new();
    let mut i: usize = 0;
    while i < end
        invariant
            i <= end <= b@.len(),
            v@ == b@.take(i as int),
        decreases end - i,
    {
        v.push(b[i]);
        proof {
            assert(b@.take(i + 1) =~= b@.take(i as int).push(b@[i as int]));
        }
        i = i + 1;
    }
    push_str_chars(&mut v, "/");
    let ghost head = v@;
    let mut j: usize = start;
    while j < p.len()
        invariant
            start <= j <= p@.len(),
            v@ == head + p@.subrange(start as int, j as int),
        decreases p.len() - j,
    {
        v.push(p[j]);
        proof {
            assert(p@.subrange(start as int, j + 1) =~= p@.subrange(start as int, j as int).push(
                p@[j as int],
            ));
        }
        j = j + 1;
    }
    proof {
        assert(p@.subrange(start as int, p@.len() as int) =~= path@.skip(start as int));
        assert(v@ =~= request_url_of(base_url@, path@));
    }
    string_from_chars(v.as_slice())
}

/// How a health check is reported: success, or failure with the error.
pub fn health_result(outcome: Result<(), String>) -> (r: ConnectionTestResult)
    ensures
        match outcome {
            Ok(()) => r.success && r.message@ == "Connection successful"@,
            Err(e) => !r.success && r.message@ == "Connection failed: "@ + e@,
        },
{
    match outcome {
        Ok(()) => ConnectionTestResult { success: true, message: String::from_str("Connection successful") },
        Err(e) => ConnectionTestResult {
            success: false,
            message: String::from_str("Connection failed: ").concat(e.as_str()),
        },
    }
}

/// How a connection test that could not run is reported.
pub fn failed_connection_test(error: &str) -> (r: ConnectionTestResult)
    ensures
        !r.success,
        r.message@ == "Connection test failed: "@ + error@,
{
    ConnectionTestResult {
        success: false,
        message: String::from_str("Connection test failed: ").concat(error),
    }
}

/// The kinds of data a data manager is asked for.
#[derive(Debug, Clone, Copy, PartialEq, Eq, Structural)]
pub enum DataKind {
    Metrics,
    Logs,
    SystemTable,
    Config,
    ProcessArgs,
    K8sResource,
    K8sSubsystem,
}

/// The name of the data source that serves a kind of data.
pub open spec fn source_name_of(kind: DataKind) -> Seq<char> {
    match kind {
        DataKind::Metrics => "prometheus"@,
        DataKind::Logs => "logs"@,
        DataKind::SystemTable => "clinic"@,
        DataKind::Config => "config"@,
        DataKind::ProcessArgs => "process"@,
        DataKind::K8sResource => "k8s"@,
        DataKind::K8sSubsystem => "k8s_subsystem"@,
    }
}

/// The name of the data source that serves a kind of data.
pub fn source_name(kind: DataKind) -> (r: &'static str)
    ensures
        r@ == source_name_of(kind),
{
    match kind {
        DataKind::Metrics => "prometheus",
        DataKind::Logs => "logs",
        DataKind::SystemTable => "clinic",
        DataKind::Config => "config",
        DataKind::ProcessArgs => "process",
        DataKind::K8sResource => "k8s",
        DataKind::K8sSubsystem => "k8s_subsystem",
    }
}

/// The data sources of a manager, by name; `S` is a data source.
pub struct DataSourceRegistry<S> {
    sources: Vec<(String, S)>,
}

/// No name is held twice.
pub open spec fn distinct_names<S>(v: Seq<(String, S)>) -> bool {
    forall|i: int, j: int| 0 <= i < v.len() && 0 <= j < v.len() && i != j ==> #[trigger] v[i].0@ != #[trigger] v[j].0@
}

/// The sources as a map from name to source.
pub open spec fn source_map<S>(v: Seq<(String, S)>) -> Map<Seq<char>, S> {
    Map::new(
        |k: Seq<char>| exists|i: int| 0 <= i < v.len() && v[i].0@ == k,
        |k: Seq<char>| v[choose|i: int| 0 <= i < v.len() && v[i].0@ == k].1,
    )
}

impl<S> View for DataSourceRegistry<S> {
    type V = Map<Seq<char>, S>;

    closed spec fn view(&self) -> Map<Seq<char>, S> {
        source_map(self.sources@)
    }
}

impl<S> DataSourceRegistry<S> {
    #[verifier::type_invariant]
    spec fn well_formed(self) -> bool {
        distinct_names(self.sources@)
    }

    /// A registry without sources.
    pub fn new() -> (r: Self)
        ensures
            r@ == Map::<Seq<char>, S>::empty(),
    {
        let r = DataSourceRegistry { sources: Vec::new() };
        proof {
            assert(r@ =~= Map::<Seq<char>, S>::empty());
        }
        r
    }

    fn position(&self, name: &str) -> (r: Option<usize>)
        ensures
            match r {
                Some(i) => i < self.sources@.len() && self.sources@[i as int].0@ == name@,
                None => forall|i: int| 0 <= i < self.sources@.len() ==> self.sources@[i].0@ != name@,
            },
    {
        let mut i: usize = 0;
        while i < self.sources.len()
            invariant
                i <= self.sources@.len(),
                forall|k: int| 0 <= k < i ==> self.sources@[k].0@ != name@,
            decreases self.sources.len() - i,
        {
            if str_eq(self.sources[i].0.as_str(), name) {
                return Some(i);
            }
            i = i + 1;
        }
        None
    }

    /// Adds a source under a name, in place of any source it had.
    pub fn add_data_source(&mut self, name: String, source: S)
        ensures
            final(self)@ == old(self)@.insert(name@, source),
    {
        proof {
            use_type_invariant(&*self);
        }
        let ghost old_v = self.sources@;
        let ghost key = name@;
        match self.position(name.as_str()) {
            Some(i) => {
                let mut v = Vec::new();
                std::mem::swap(&mut v, &mut self.sources);
                v.set(i, (name, source));
                proof {
                    assert(distinct_names(v@)) by {
                        assert forall|a: int, b: int| 0 <= a < v@.len() && 0 <= b < v@.len() && a != b implies #[trigger] v@[a].0@ != #[trigger] v@[b].0@ by {
                            assert(old_v[a].0@ == v@[a].0@ || a == i);
                            assert(old_v[b].0@ == v@[b].0@ || b == i);
                        }
                    }
                    assert(source_map(v@) =~= source_map(old_v).insert(key, source)) by {
                        assert forall|k: Seq<char>| #[trigger] source_map(v@).dom().contains(k) == source_map(old_v).insert(key, source).dom().contains(k) by {
                            if source_map(old_v).dom().contains(k) {
                                let j = choose|j: int| 0 <= j < old_v.len() && old_v[j].0@ == k;
                                assert(v@[j].0@ == k);
                            }
                            if source_map(v@).dom().contains(k) {
                                let j = choose|j: int| 0 <= j < v@.len() && v@[j].0@ == k;
                                assert(j == i || old_v[j].0@ == k);
                            }
                        }
                        assert forall|k: Seq<char>| source_map(v@).dom().contains(k) implies #[trigger] source_map(v@)[k] == source_map(old_v).insert(key, source)[k] by {
                            let j = choose|j: int| 0 <= j < v@.len() && v@[j].0@ == k;
                            if k == key {
                                assert(j == i);
                            } else {
                                assert(old_v[j].0@ == k);
                                let j2 = choose|j2: int| 0 <= j2 < old_v.len() && old_v[j2].0@ == k;
                                assert(j2 == j);
                            }
                        }
                    }
                }
                self.sources = v;
            },
            None => {
                let mut v = Vec::new();
                std::mem::swap(&mut v, &mut self.sources);
                v.push((name, source));
                proof {
                    assert(v@ == old_v.push((v@[old_v.len() as int].0, source)));
                    assert(source_map(v@) =~= source_map(old_v).insert(key, source)) by {
                        assert forall|k: Seq<char>| #[trigger] source_map(v@).dom().contains(k) == source_map(old_v).insert(key, source).dom().contains(k) by {
                            if source_map(old_v).dom().contains(k) {
                                let j = choose|j: int| 0 <= j < old_v.len() && old_v[j].0@ == k;
                                assert(v@[j].0@ == k);
                            }
                            if k == key {
                                assert(v@[old_v.len() as int].0@ == k);
                            }
                        }
                        assert forall|k: Seq<char>| source_map(v@).dom().contains(k) implies #[trigger] source_map(v@)[k] == source_map(old_v).insert(key, source)[k] by {
                            let j = choose|j: int| 0 <= j < v@.len() && v@[j].0@ == k;
                            if k == key {
                                assert(j == old_v.len());
                            } else {
                                let j2 = choose|j2: int| 0 <= j2 < old_v.len() && old_v[j2].0@ == k;
                                assert(v@[j2].0@ == k);
                                assert(j2 == j);
                            }
                        }
                    }
                }
                self.sources = v;
            },
        }
    }

    /// The source of a name, if there is one.
    pub fn get_data_source(&self, name: &str) -> (r: Option<&S>)
        ensures
            match r {
                Some(s) => self@.dom().contains(name@) && *s == self@[name@],
                None => !self@.dom().contains(name@),
            },
    {
        proof {
            use_type_invariant(self);
        }
        match self.position(name) {
            Some(i) => {
                proof {
                    let j = choose|j: int| 0 <= j < self.sources@.len() && self.sources@[j].0@ == name@;
                    assert(j == i);
                }
                Some(&self.sources[i].1)
            },
            None => None,
        }
    }

    /// The names of the sources, in the order they were first added.
    pub fn names(&self) -> (r: Vec<String>)
        ensures
            forall|k: Seq<char>| self@.dom().contains(k) <==> exists|i: int| 0 <= i < r@.len() && r@[i]@ == k,
    {
        let mut r: Vec<String> = Vec::new();
        let mut i: usize = 0;
        while i < self.sources.len()
            invariant
                i <= self.sources@.len(),
                r@.len() == i,
                forall|k: int| 0 <= k < i ==> r@[k]@ == self.sources@[k].0@,
            decreases self.sources.len() - i,
        {
            r.push(self.sources[i].0.clone());
            i = i + 1;
        }
        proof {
            assert forall|k: Seq<char>| self@.dom().contains(k) implies exists|i: int| 0 <= i < r@.len() && r@[i]@ == k by {
                let j = choose|j: int| 0 <= j < self.sources@.len() && self.sources@[j].0@ == k;
                assert(r@[j]@ == k);
            }
            assert forall|k: Seq<char>| (exists|i: int| 0 <= i < r@.len() && r@[i]@ == k) implies self@.dom().contains(k) by {
                let j = choose|j: int| 0 <= j < r@.len() && r@[j]@ == k;
                assert(self.sources@[j].0@ == k);
            }
        }
        r
    }
}

/// The error of a query to a name that has no source.
pub fn source_not_found(name: &str) -> (r: String)
    ensures
        r@ == "Data source '"@ + name@ + "' not found"@,
{
    String::from_str("Data source '").concat(name).concat("' not found")
}

/// A source added under a name is the one a query to that name reaches, and
/// adding it leaves the other names' sources alone.
pub proof fn lemma_added_source_is_found<S>(
    before: Map<Seq<char>, S>,
    name: Seq<char>,
    other: Seq<char>,
    source: S,
)
    requires
        other != name,
    ensures
        before.insert(name, source).dom().contains(name),
        before.insert(name, source)[name] == source,
        before.insert(name, source).dom().contains(other) == before.dom().contains(other),
        before.dom().contains(other) ==> before.insert(name, source)[other] == before[other],
{
}

} // verus!
