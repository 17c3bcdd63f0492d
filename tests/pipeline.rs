use dash::cache::Cache;
use dash::config::{ConnectionType, FileConfig, HttpConfig, HttpMethod, PostgresqlConfig, Step, StepType};
use dash::connector::{connector_of, judge, plan, Connector, Outcome, Request, StepError};
use dash::dispatch::{Dispatcher, RunState};
use dash::template::resolve_config_text;

fn key() -> String {
    "_".to_string()
}

fn step(kind: StepType) -> Step {
    Step { name: None, env: None, kind }
}

fn read_file(location: &str) -> Step {
    step(StepType::Read(ConnectionType::File(FileConfig { location: location.to_string() })))
}

fn write_file(location: &str) -> Step {
    step(StepType::Write(ConnectionType::File(FileConfig { location: location.to_string() })))
}

fn http(url: &str, method: Option<HttpMethod>) -> HttpConfig {
    HttpConfig {
        url: url.to_string(),
        method,
        headers: Some(vec![("Accept".to_string(), "text/plain".to_string())]),
    }
}

fn database(query: &str) -> PostgresqlConfig {
    PostgresqlConfig { connection: "host=localhost user=postgres".to_string(), query: query.to_string() }
}

fn run_step(program: &str) -> Step {
    step(StepType::Run(program.to_string()))
}

fn started(steps: Vec<Step>) -> Dispatcher {
    let mut d = Dispatcher::new(steps);
    d.start();
    d
}

#[test]
fn cache_starts_empty_and_keeps_last_put() {
    let mut c = Cache::new();
    assert_eq!(c.get(&key()), None);
    c.put(key(), b"one".to_vec());
    c.put("other".to_string(), b"x".to_vec());
    c.put(key(), b"two".to_vec());
    assert_eq!(c.get(&key()), Some(b"two".to_vec()));
    assert_eq!(c.get(&"other".to_string()), Some(b"x".to_vec()));
    assert_eq!(c.get(&"generic".to_string()), None);
}

#[test]
fn connector_selection_follows_kind_and_medium() {
    assert_eq!(connector_of(&read_file("a").kind), Connector::ReadFile);
    assert_eq!(connector_of(&StepType::Read(ConnectionType::Http(http("u", None)))), Connector::ReadHttp);
    assert_eq!(connector_of(&StepType::Read(ConnectionType::Postgresql(database("q")))), Connector::ReadDatabase);
    assert_eq!(connector_of(&write_file("a").kind), Connector::WriteFile);
    assert_eq!(connector_of(&StepType::Write(ConnectionType::Http(http("u", None)))), Connector::WriteHttp);
    assert_eq!(connector_of(&StepType::Write(ConnectionType::Postgresql(database("q")))), Connector::WriteDatabase);
    assert_eq!(connector_of(&run_step("ls").kind), Connector::Run);
}

#[test]
fn steps_are_visited_in_order_once_each() {
    let mut d = started(vec![read_file("a"), read_file("b"), read_file("c")]);
    let mut seen: Vec<String> = Vec::new();
    let mut index: usize = 0;
    while d.is_running() {
        assert_eq!(d.state(), RunState::Running(index));
        match d.advance() {
            Some(Request::ReadFile { location }) => seen.push(location),
            _ => panic!("expected a file read"),
        }
        assert!(d.advance().is_none());
        d.complete(Outcome::FileRead(Some(vec![index as u8])));
        index += 1;
    }
    assert_eq!(seen, vec!["a".to_string(), "b".to_string(), "c".to_string()]);
    assert_eq!(d.state(), RunState::Done);
    assert_eq!(d.cache().get(&key()), Some(vec![2u8]));
}

#[test]
fn failed_step_stops_the_run() {
    let mut d = started(vec![read_file("a"), read_file("missing"), read_file("c")]);
    assert!(d.advance().is_some());
    d.complete(Outcome::FileRead(Some(b"a".to_vec())));
    assert!(d.advance().is_some());
    d.complete(Outcome::FileRead(None));
    assert_eq!(d.state(), RunState::Failed(StepError::IoError, 1));
    assert!(!d.is_running());
    assert!(d.advance().is_none());
    assert_eq!(d.cache().get(&key()), Some(b"a".to_vec()));
}

#[test]
fn empty_run_is_done_at_once() {
    let d = started(Vec::new());
    assert_eq!(d.state(), RunState::Done);
}

#[test]
fn idle_run_hands_out_nothing() {
    let mut d = Dispatcher::new(vec![read_file("a")]);
    assert_eq!(d.state(), RunState::Idle);
    assert!(d.advance().is_none());
    assert_eq!(d.state(), RunState::Idle);
}

#[test]
fn file_copy_writes_the_bytes_read() {
    let mut d = started(vec![read_file("a.txt"), write_file("b.txt")]);
    let content = vec![0u8, 1, 2, 255, b'\n'];
    assert!(matches!(d.advance(), Some(Request::ReadFile { location }) if location == "a.txt"));
    d.complete(Outcome::FileRead(Some(content.clone())));
    match d.advance() {
        Some(Request::WriteFile { location, data }) => {
            assert_eq!(location, "b.txt");
            assert_eq!(data, content);
        }
        _ => panic!("expected a file write"),
    }
    d.complete(Outcome::FileWritten(true));
    assert_eq!(d.state(), RunState::Done);
}

#[test]
fn write_without_read_is_a_cache_miss() {
    let mut d = started(vec![write_file("out.txt")]);
    assert!(d.advance().is_none());
    assert_eq!(d.state(), RunState::Failed(StepError::CacheMissError, 0));
    let mut h = started(vec![step(StepType::Write(ConnectionType::Http(http("http://x/", None))))]);
    assert!(h.advance().is_none());
    assert_eq!(h.state(), RunState::Failed(StepError::CacheMissError, 0));
}

#[test]
fn http_500_is_a_network_error_and_leaves_cache_unset() {
    let mut d = started(vec![step(StepType::Read(ConnectionType::Http(http("http://x/fail", None))))]);
    match d.advance() {
        Some(Request::ReadHttp { url, method, headers }) => {
            assert_eq!(url, "http://x/fail");
            assert_eq!(method, HttpMethod::Get);
            assert_eq!(headers, vec![("Accept".to_string(), "text/plain".to_string())]);
        }
        _ => panic!("expected an http read"),
    }
    d.complete(Outcome::HttpReceived(Some((500, b"oops".to_vec()))));
    assert_eq!(d.state(), RunState::Failed(StepError::NetworkError, 0));
    assert_eq!(d.cache().get(&key()), None);
}

#[test]
fn http_read_success_stores_the_body() {
    let mut d = started(vec![step(StepType::Read(ConnectionType::Http(http("http://x/", Some(HttpMethod::Put)))))]);
    assert!(matches!(d.advance(), Some(Request::ReadHttp { method: HttpMethod::Put, .. })));
    d.complete(Outcome::HttpReceived(Some((200, b"body".to_vec()))));
    assert_eq!(d.state(), RunState::Done);
    assert_eq!(d.cache().get(&key()), Some(b"body".to_vec()));
}

#[test]
fn http_transport_failure_is_a_network_error() {
    assert_eq!(judge(Outcome::HttpReceived(None)), Err(StepError::NetworkError));
    assert_eq!(judge(Outcome::HttpReceived(Some((199, Vec::new())))), Err(StepError::NetworkError));
    assert_eq!(judge(Outcome::HttpReceived(Some((299, b"k".to_vec())))), Ok(Some(b"k".to_vec())));
    assert_eq!(judge(Outcome::HttpReceived(Some((300, Vec::new())))), Err(StepError::NetworkError));
    assert_eq!(judge(Outcome::HttpSent(Some(204))), Ok(None));
    assert_eq!(judge(Outcome::HttpSent(Some(404))), Err(StepError::NetworkError));
    assert_eq!(judge(Outcome::HttpSent(None)), Err(StepError::NetworkError));
}

#[test]
fn http_write_sends_the_cached_payload() {
    let mut d = started(vec![run_step("gen"), step(StepType::Write(ConnectionType::Http(http("http://x/in", None))))]);
    assert!(d.advance().is_some());
    d.complete(Outcome::ProcessExited(Some((Some(0), b"payload".to_vec()))));
    match d.advance() {
        Some(Request::WriteHttp { url, method, headers, data }) => {
            assert_eq!(url, "http://x/in");
            assert_eq!(method, HttpMethod::Post);
            assert_eq!(headers.len(), 1);
            assert_eq!(data, b"payload".to_vec());
        }
        _ => panic!("expected an http write"),
    }
    d.complete(Outcome::HttpSent(Some(503)));
    assert_eq!(d.state(), RunState::Failed(StepError::NetworkError, 1));
}

#[test]
fn process_exit_one_is_a_process_error() {
    let mut d = started(vec![run_step("false")]);
    assert!(matches!(d.advance(), Some(Request::Run { program, .. }) if program == "false"));
    d.complete(Outcome::ProcessExited(Some((Some(1), Vec::new()))));
    assert_eq!(d.state(), RunState::Failed(StepError::ProcessError, 0));
    assert_eq!(d.cache().get(&key()), None);
}

#[test]
fn process_exit_zero_stores_standard_output() {
    let mut d = started(vec![run_step("echo-hello")]);
    assert!(d.advance().is_some());
    d.complete(Outcome::ProcessExited(Some((Some(0), b"hello".to_vec()))));
    assert_eq!(d.state(), RunState::Done);
    assert_eq!(d.cache().get(&key()), Some(b"hello".to_vec()));
}

#[test]
fn process_not_started_or_killed_is_a_process_error() {
    assert_eq!(judge(Outcome::ProcessExited(None)), Err(StepError::ProcessError));
    assert_eq!(judge(Outcome::ProcessExited(Some((None, b"x".to_vec())))), Err(StepError::ProcessError));
}

#[test]
fn run_step_receives_its_env_overrides() {
    let mut s = run_step("tool");
    s.env = Some(vec![("MODE".to_string(), "fast".to_string())]);
    let mut d = started(vec![s]);
    match d.advance() {
        Some(Request::Run { program, env }) => {
            assert_eq!(program, "tool");
            assert_eq!(env, vec![("MODE".to_string(), "fast".to_string())]);
        }
        _ => panic!("expected a run"),
    }
}

#[test]
fn read_transform_write_end_to_end() {
    let mut d = started(vec![read_file("in.json"), run_step("transform.sh"), write_file("out.json")]);
    assert!(matches!(d.advance(), Some(Request::ReadFile { location }) if location == "in.json"));
    d.complete(Outcome::FileRead(Some(b"{\"a\": 1}".to_vec())));
    assert_eq!(d.cache().get(&key()), Some(b"{\"a\": 1}".to_vec()));
    assert!(matches!(d.advance(), Some(Request::Run { program, .. }) if program == "transform.sh"));
    d.complete(Outcome::ProcessExited(Some((Some(0), b"{\"a\": 2}".to_vec()))));
    match d.advance() {
        Some(Request::WriteFile { location, data }) => {
            assert_eq!(location, "out.json");
            assert_eq!(data, b"{\"a\": 2}".to_vec());
        }
        _ => panic!("expected a file write"),
    }
    d.complete(Outcome::FileWritten(true));
    assert_eq!(d.state(), RunState::Done);
}

#[test]
fn database_read_stores_first_value() {
    let mut d = started(vec![step(StepType::Read(ConnectionType::Postgresql(database("SELECT 'x'"))))]);
    match d.advance() {
        Some(Request::ReadDatabase { connection, query }) => {
            assert_eq!(connection, "host=localhost user=postgres");
            assert_eq!(query, "SELECT 'x'");
        }
        _ => panic!("expected a database read"),
    }
    d.complete(Outcome::DatabaseRows(Some(vec![b"x".to_vec(), b"y".to_vec()])));
    assert_eq!(d.state(), RunState::Done);
    assert_eq!(d.cache().get(&key()), Some(b"x".to_vec()));
}

#[test]
fn unreachable_database_is_a_database_error() {
    let mut d = started(vec![step(StepType::Read(ConnectionType::Postgresql(database("SELECT 'x'"))))]);
    assert!(d.advance().is_some());
    d.complete(Outcome::DatabaseRows(None));
    assert_eq!(d.state(), RunState::Failed(StepError::DatabaseError, 0));
    assert_eq!(d.cache().get(&key()), None);
    assert_eq!(judge(Outcome::DatabaseRows(Some(Vec::new()))), Err(StepError::DatabaseError));
}

#[test]
fn database_write_is_not_implemented() {
    let mut d = started(vec![run_step("gen"), step(StepType::Write(ConnectionType::Postgresql(database("q"))))]);
    assert!(d.advance().is_some());
    d.complete(Outcome::ProcessExited(Some((Some(0), b"v".to_vec()))));
    assert!(d.advance().is_none());
    assert_eq!(d.state(), RunState::Failed(StepError::NotImplementedError, 1));
}

#[test]
fn file_write_failure_is_an_io_error() {
    assert_eq!(judge(Outcome::FileWritten(false)), Err(StepError::IoError));
    let cache = Cache::new();
    assert!(matches!(plan(&write_file("x").kind, &None, &cache), Err(StepError::CacheMissError)));
}

#[test]
fn config_placeholders_resolve_against_variables() {
    let text = "steps:\n  - run: ${{ env.TOOL }}\n".to_string();
    let vars = vec![("TOOL".to_string(), "transform.sh".to_string())];
    assert_eq!(resolve_config_text(&text, &vars), Ok("steps:\n  - run: transform.sh".to_string()));
}

#[test]
fn config_without_placeholders_is_unchanged() {
    let text = "steps: []".to_string();
    assert_eq!(resolve_config_text(&text, &Vec::new()), Ok(text.clone()));
}

#[test]
fn config_with_broken_template_is_a_config_error() {
    let text = "a: ${{ env. }}\n".to_string();
    assert_eq!(resolve_config_text(&text, &Vec::new()), Err(StepError::ConfigError));
}

#[test]
fn only_a_fitting_outcome_is_accepted() {
    let mut d = started(vec![read_file("a")]);
    assert!(!d.is_awaiting());
    assert!(!d.accepts(&Outcome::FileRead(None)));
    assert!(d.advance().is_some());
    assert!(d.is_awaiting());
    assert!(d.accepts(&Outcome::FileRead(None)));
    assert!(!d.accepts(&Outcome::FileWritten(true)));
    assert!(!d.accepts(&Outcome::ProcessExited(None)));
    d.complete(Outcome::FileRead(Some(Vec::new())));
    assert!(!d.is_awaiting());
    assert_eq!(d.cache().get(&key()), Some(Vec::new()));
}
