use vstd::prelude::*;

verus! {

/// A whole pipeline: global variables and the ordered list of steps.
pub struct Config {
    pub env: Vec<(String, String)>,
    pub steps: Vec<Step>,
}

/// One unit of work: a read, a write or a run, with an optional name and
/// optional environment overrides handed to the process of a run step.
pub struct Step {
    pub name: Option<String>,
    pub env: Option<Vec<(String, String)>>,
    pub kind: StepType,
}

pub enum StepType {
    Read(ConnectionType),
    Write(ConnectionType),
    Run(String),
}

/// The medium a read or write step talks to.
pub enum ConnectionType {
    File(FileConfig),
    Http(HttpConfig),
    Postgresql(PostgresqlConfig),
}

pub struct FileConfig {
    pub location: String,
}

pub struct PostgresqlConfig {
    pub connection: String,
    pub query: String,
}

pub struct HttpConfig {
    pub url: String,
    pub method: Option<HttpMethod>,
    pub headers: Option<Vec<(String, String)>>,
}

#[derive(Clone, Copy, Debug, PartialEq, Eq, Structural)]
pub enum HttpMethod {
    Get,
    Post,
    Put,
    Patch,
    Delete,
}

} // verus!
