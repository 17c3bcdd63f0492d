use vstd::prelude::*;

use crate::cache::{copy_bytes, Cache};
use crate::config::{ConnectionType, FileConfig, HttpConfig, HttpMethod, StepType};

verus! {

/// The kinds of failure a pipeline run can end with.
#[derive(Clone, Copy, Debug, PartialEq, Eq, Structural)]
pub enum StepError {
    ConfigError,
    IoError,
    NetworkError,
    DatabaseError,
    ProcessError,
    CacheMissError,
    NotImplementedError,
}

/// The implementation that handles one (direction, medium) pair.
#[derive(Clone, Copy, Debug, PartialEq, Eq, Structural)]
pub enum Connector {
    ReadFile,
    ReadHttp,
    ReadDatabase,
    WriteFile,
    WriteHttp,
    WriteDatabase,
    Run,
}

/// The outside work a step asks for, with everything needed to perform it.
pub enum Request {
    ReadFile { location: String },
    ReadHttp { url: String, method: HttpMethod, headers: Vec<(String, String)> },
    ReadDatabase { connection: String, query: String },
    WriteFile { location: String, data: Vec<u8> },
    WriteHttp { url: String, method: HttpMethod, headers: Vec<(String, String)>, data: Vec<u8> },
    Run { program: String, env: Vec<(String, String)> },
}

/// What came back from performing a request.
pub enum Outcome {
    /// The contents of the file, or `None` when it could not be read.
    FileRead(Option<Vec<u8>>),
    /// Whether the file was written.
    FileWritten(bool),
    /// The status and body of the response, or `None` on a transport failure.
    HttpReceived(Option<(u16, Vec<u8>)>),
    /// The status of the response, or `None` on a transport failure.
    HttpSent(Option<u16>),
    /// The first column of each row as text bytes, or `None` when connecting
    /// or querying failed.
    DatabaseRows(Option<Vec<Vec<u8>>>),
    /// The exit code (`None` when ended by a signal) and the captured
    /// standard output, or `None` when the program could not be started.
    ProcessExited(Option<(Option<i32>, Vec<u8>)>),
}

/// The fixed key under which each step leaves its output.
pub open spec fn shared_key() -> Seq<char> {
    seq!['_']
}

pub fn shared_key_string() -> (r: String)
    ensures
        r@ == shared_key(),
{
    proof {
        reveal_strlit("_");
    }
    let r = "_".to_owned();
    assert(r@ =~= shared_key());
    r
}

pub open spec fn connector_spec(kind: StepType) -> Connector {
    match kind {
        StepType::Read(ConnectionType::File(_)) => Connector::ReadFile,
        StepType::Read(ConnectionType::Http(_)) => Connector::ReadHttp,
        StepType::Read(ConnectionType::Postgresql(_)) => Connector::ReadDatabase,
        StepType::Write(ConnectionType::File(_)) => Connector::WriteFile,
        StepType::Write(ConnectionType::Http(_)) => Connector::WriteHttp,
        StepType::Write(ConnectionType::Postgresql(_)) => Connector::WriteDatabase,
        StepType::Run(_) => Connector::Run,
    }
}

/// Selects the connector matching a step's direction and medium.
pub fn connector_of(kind: &StepType) -> (r: Connector)
    ensures
        r == connector_spec(*kind),
{
    match kind {
        StepType::Read(ConnectionType::File(_)) => Connector::ReadFile,
        StepType::Read(ConnectionType::Http(_)) => Connector::ReadHttp,
        StepType::Read(ConnectionType::Postgresql(_)) => Connector::ReadDatabase,
        StepType::Write(ConnectionType::File(_)) => Connector::WriteFile,
        StepType::Write(ConnectionType::Http(_)) => Connector::WriteHttp,
        StepType::Write(ConnectionType::Postgresql(_)) => Connector::WriteDatabase,
        StepType::Run(_) => Connector::Run,
    }
}

/// The method a request is issued with: the configured one, else GET for a
/// read and POST for a write.
pub open spec fn method_spec(configured: Option<HttpMethod>, write: bool) -> HttpMethod {
    match configured {
        Some(m) => m,
        None => if write {
            HttpMethod::Post
        } else {
            HttpMethod::Get
        },
    }
}

pub fn request_method(configured: Option<HttpMethod>, write: bool) -> (r: HttpMethod)
    ensures
        r == method_spec(configured, write),
{
    match configured {
        Some(m) => m,
        None => if write {
            HttpMethod::Post
        } else {
            HttpMethod::Get
        },
    }
}

/// The pairs of an optional list, none when it is absent.
pub open spec fn pairs_spec(p: Option<Vec<(String, String)>>) -> Seq<(String, String)> {
    match p {
        Some(v) => v@,
        None => Seq::empty(),
    }
}

/// Copies an optional list of name/value pairs; an absent one gives no pairs.
pub fn copy_pairs(p: &Option<Vec<(String, String)>>) -> (r: Vec<(String, String)>)
    ensures
        r@ == pairs_spec(*p),
{
    let mut r: Vec<(String, String)> = Vec::new();
    match p {
        Some(v) => {
            let mut i: usize = 0;
            while i < v.len()
                invariant
                    i <= v@.len(),
                    r@ == v@.subrange(0, i as int),
                decreases v@.len() - i,
            {
                let k = v[i].0.clone();
                let x = v[i].1.clone();
                r.push((k, x));
                i = i + 1;
                assert(r@ =~= v@.subrange(0, i as int));
            }
            assert(r@ =~= v@);
        },
        None => {},
    }
    r
}

/// Whether `r` is the request that `kind` asks for, given what the cache
/// holds; an error where the step cannot start.
pub open spec fn plan_spec(
    kind: StepType,
    env: Option<Vec<(String, String)>>,
    cache: Map<Seq<char>, Seq<u8>>,
    r: Result<Request, StepError>,
) -> bool {
    match kind {
        StepType::Read(ConnectionType::File(fc)) => r matches Ok(Request::ReadFile { location })
            && location == fc.location,
        StepType::Read(ConnectionType::Http(hc)) => r matches Ok(
            Request::ReadHttp { url, method, headers },
        ) && url == hc.url && method == method_spec(hc.method, false) && headers@ == pairs_spec(
            hc.headers,
        ),
        StepType::Read(ConnectionType::Postgresql(pc)) => r matches Ok(
            Request::ReadDatabase { connection, query },
        ) && connection == pc.connection && query == pc.query,
        StepType::Write(ConnectionType::File(fc)) => if cache.contains_key(shared_key()) {
            r matches Ok(Request::WriteFile { location, data }) && location == fc.location
                && data@ == cache[shared_key()]
        } else {
            r == Err::<Request, StepError>(StepError::CacheMissError)
        },
        StepType::Write(ConnectionType::Http(hc)) => if cache.contains_key(shared_key()) {
            r matches Ok(Request::WriteHttp { url, method, headers, data }) && url == hc.url
                && method == method_spec(hc.method, true) && headers@ == pairs_spec(hc.headers)
                && data@ == cache[shared_key()]
        } else {
            r == Err::<Request, StepError>(StepError::CacheMissError)
        },
        StepType::Write(ConnectionType::Postgresql(_)) => r == Err::<Request, StepError>(
            StepError::NotImplementedError,
        ),
        StepType::Run(program) => r matches Ok(Request::Run { program: p, env: e }) && p == program
            && e@ == pairs_spec(env),
    }
}

fn http_request(hc: &HttpConfig, write: bool, cache: &Cache) -> (r: Result<Request, StepError>)
    requires
        cache.wf(),
    ensures
        plan_spec(
            if write {
                StepType::Write(ConnectionType::Http(*hc))
            } else {
                StepType::Read(ConnectionType::Http(*hc))
            },
            None,
            cache@,
            r,
        ),
{
    let url = hc.url.clone();
    let method = request_method(hc.method, write);
    let headers = copy_pairs(&hc.headers);
    if write {
        match cache.get(&shared_key_string()) {
            Some(data) => Ok(Request::WriteHttp { url, method, headers, data }),
            None => Err(StepError::CacheMissError),
        }
    } else {
        Ok(Request::ReadHttp { url, method, headers })
    }
}

/// The request a step of kind `kind`, with environment overrides `env`, makes
/// against the cache; the error where it cannot start: a write with nothing
/// in the cache under the shared key, or a database write.
pub fn plan(kind: &StepType, env: &Option<Vec<(String, String)>>, cache: &Cache) -> (r: Result<
    Request,
    StepError,
>)
    requires
        cache.wf(),
    ensures
        plan_spec(*kind, *env, cache@, r),
{
    match kind {
        StepType::Read(ConnectionType::File(fc)) => Ok(
            Request::ReadFile { location: fc.location.clone() },
        ),
        StepType::Read(ConnectionType::Http(hc)) => http_request(hc, false, cache),
        StepType::Read(ConnectionType::Postgresql(pc)) => Ok(
            Request::ReadDatabase { connection: pc.connection.clone(), query: pc.query.clone() },
        ),
        StepType::Write(ConnectionType::File(fc)) => match cache.get(&shared_key_string()) {
            Some(data) => Ok(Request::WriteFile { location: fc.location.clone(), data }),
            None => Err(StepError::CacheMissError),
        },
        StepType::Write(ConnectionType::Http(hc)) => http_request(hc, true, cache),
        StepType::Write(ConnectionType::Postgresql(_)) => Err(StepError::NotImplementedError),
        StepType::Run(program) => Ok(Request::Run { program: program.clone(), env: copy_pairs(env) }),
    }
}

/// A status in the success class 2xx.
pub open spec fn status_ok(status: u16) -> bool {
    200 <= status < 300
}

/// What a step yields from the outcome of its request: the payload to store
/// under the shared key (none for a write), or the error it ends with.
pub open spec fn outcome_spec(o: Outcome) -> Result<Option<Seq<u8>>, StepError> {
    match o {
        Outcome::FileRead(Some(d)) => Ok(Some(d@)),
        Outcome::FileRead(None) => Err(StepError::IoError),
        Outcome::FileWritten(w) => if w {
            Ok(None)
        } else {
            Err(StepError::IoError)
        },
        Outcome::HttpReceived(Some((status, body))) => if status_ok(status) {
            Ok(Some(body@))
        } else {
            Err(StepError::NetworkError)
        },
        Outcome::HttpReceived(None) => Err(StepError::NetworkError),
        Outcome::HttpSent(Some(status)) => if status_ok(status) {
            Ok(None)
        } else {
            Err(StepError::NetworkError)
        },
        Outcome::HttpSent(None) => Err(StepError::NetworkError),
        Outcome::DatabaseRows(Some(rows)) => if rows@.len() > 0 {
            Ok(Some(rows@[0]@))
        } else {
            Err(StepError::DatabaseError)
        },
        Outcome::DatabaseRows(None) => Err(StepError::DatabaseError),
        Outcome::ProcessExited(Some((code, out))) => if code == Some(0i32) {
            Ok(Some(out@))
        } else {
            Err(StepError::ProcessError)
        },
        Outcome::ProcessExited(None) => Err(StepError::ProcessError),
    }
}

/// The cache after a step yielded `res`: a payload goes under the shared key;
/// a write's success or any failure leaves the cache as it was.
pub open spec fn cache_after(
    cache: Map<Seq<char>, Seq<u8>>,
    res: Result<Option<Seq<u8>>, StepError>,
) -> Map<Seq<char>, Seq<u8>> {
    match res {
        Ok(Some(v)) => cache.insert(shared_key(), v),
        _ => cache,
    }
}

/// A write step, to a file or over HTTP, that finds nothing under the shared
/// key fails with a cache miss and hands out no request, so nothing is
/// written anywhere.
pub proof fn lemma_write_without_read_misses(
    conn: ConnectionType,
    env: Option<Vec<(String, String)>>,
    cache: Map<Seq<char>, Seq<u8>>,
    r: Result<Request, StepError>,
)
    requires
        !(conn is Postgresql),
        !cache.contains_key(shared_key()),
        plan_spec(StepType::Write(conn), env, cache, r),
    ensures
        r == Err::<Request, StepError>(StepError::CacheMissError),
{
}

/// Copying a file through the cache keeps it byte for byte: after a read step
/// yields the contents of the source, a file write step asks to write exactly
/// those bytes to its destination.
pub proof fn lemma_file_copy_round_trip(
    cache: Map<Seq<char>, Seq<u8>>,
    contents: Vec<u8>,
    dest: FileConfig,
    env: Option<Vec<(String, String)>>,
    r: Result<Request, StepError>,
)
    requires
        plan_spec(
            StepType::Write(ConnectionType::File(dest)),
            env,
            cache_after(cache, outcome_spec(Outcome::FileRead(Some(contents)))),
            r,
        ),
    ensures
        r matches Ok(Request::WriteFile { location, data }) && location == dest.location && data@
            == contents@,
{
}

/// An HTTP response outside the 2xx class fails the step with a network
/// error and leaves the cache as it was.
pub proof fn lemma_http_error_status_keeps_cache(
    status: u16,
    body: Vec<u8>,
    cache: Map<Seq<char>, Seq<u8>>,
)
    requires
        !status_ok(status),
    ensures
        outcome_spec(Outcome::HttpReceived(Some((status, body)))) == Err::<Option<Seq<u8>>, StepError>(StepError::NetworkError),
        cache_after(cache, outcome_spec(Outcome::HttpReceived(Some((status, body))))) == cache,
{
}

/// A program that does not exit with code zero fails the step with a process
/// error and leaves the cache as it was; one that does leaves its standard
/// output under the shared key.
pub proof fn lemma_process_exit(
    code: Option<i32>,
    stdout: Vec<u8>,
    cache: Map<Seq<char>, Seq<u8>>,
)
    ensures
        code != Some(0i32) ==> outcome_spec(Outcome::ProcessExited(Some((code, stdout))))
            == Err::<Option<Seq<u8>>, StepError>(StepError::ProcessError),
        code != Some(0i32) ==> cache_after(cache, outcome_spec(Outcome::ProcessExited(Some((code, stdout))))) == cache,
        code == Some(0i32) ==> cache_after(cache, outcome_spec(Outcome::ProcessExited(Some((code, stdout)))))[shared_key()] == stdout@,
{
}

/// Whether an outcome is of the shape that a request of connector `c` yields.
pub open spec fn outcome_fits(c: Connector, o: Outcome) -> bool {
    match c {
        Connector::ReadFile => o is FileRead,
        Connector::WriteFile => o is FileWritten,
        Connector::ReadHttp => o is HttpReceived,
        Connector::WriteHttp => o is HttpSent,
        Connector::ReadDatabase => o is DatabaseRows,
        Connector::Run => o is ProcessExited,
        Connector::WriteDatabase => false,
    }
}

pub fn fits(c: Connector, o: &Outcome) -> (r: bool)
    ensures
        r == outcome_fits(c, *o),
{
    match (c, o) {
        (Connector::ReadFile, Outcome::FileRead(_)) => true,
        (Connector::WriteFile, Outcome::FileWritten(_)) => true,
        (Connector::ReadHttp, Outcome::HttpReceived(_)) => true,
        (Connector::WriteHttp, Outcome::HttpSent(_)) => true,
        (Connector::ReadDatabase, Outcome::DatabaseRows(_)) => true,
        (Connector::Run, Outcome::ProcessExited(_)) => true,
        _ => false,
    }
}

/// Judges the outcome of a request: success, with the payload to store if the
/// step produces one, or the kind of failure.
pub fn judge(outcome: Outcome) -> (r: Result<Option<Vec<u8>>, StepError>)
    ensures
        match (r, outcome_spec(outcome)) {
            (Ok(Some(v)), Ok(Some(s))) => v@ == s,
            (Ok(None), Ok(None)) => true,
            (Err(e), Err(f)) => e == f,
            _ => false,
        },
{
    match outcome {
        Outcome::FileRead(Some(d)) => Ok(Some(d)),
        Outcome::FileRead(None) => Err(StepError::IoError),
        Outcome::FileWritten(w) => if w {
            Ok(None)
        } else {
            Err(StepError::IoError)
        },
        Outcome::HttpReceived(Some((status, body))) => if 200 <= status && status < 300 {
            Ok(Some(body))
        } else {
            Err(StepError::NetworkError)
        },
        Outcome::HttpReceived(None) => Err(StepError::NetworkError),
        Outcome::HttpSent(Some(status)) => if 200 <= status && status < 300 {
            Ok(None)
        } else {
            Err(StepError::NetworkError)
        },
        Outcome::HttpSent(None) => Err(StepError::NetworkError),
        Outcome::DatabaseRows(Some(rows)) => {
            if rows.len() > 0 {
                let mut rows = rows;
                Ok(Some(rows.swap_remove(0)))
            } else {
                Err(StepError::DatabaseError)
            }
        },
        Outcome::DatabaseRows(None) => Err(StepError::DatabaseError),
        Outcome::ProcessExited(Some((code, out))) => match code {
            Some(c) => if c == 0 {
                Ok(Some(out))
            } else {
                Err(StepError::ProcessError)
            },
            None => Err(StepError::ProcessError),
        },
        Outcome::ProcessExited(None) => Err(StepError::ProcessError),
    }
}

} // verus!
