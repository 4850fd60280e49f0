use vstd::prelude::*;

verus! {

/// Defaults of the poll interval, in milliseconds, and of the attempt count.
pub const PENDING_POLL_DEFAULT_MS: u64 = 500;
pub const PENDING_POLL_DEFAULT_COUNT: u64 = 5;

/// The account a service runs as. An empty password means "no password";
/// it is still passed to the tool explicitly.
#[derive(Debug)]
pub struct Account {
    pub user: String,
    pub password: String,
}

/// Optional service settings, given for all services or for one.
#[derive(Debug)]
pub struct OtherConfig {
    /// Space-delimited names of the services this one depends on.
    pub deps: Option<String>,
    /// Whether to start the service once it is configured.
    pub start_on_create: Option<bool>,
    pub account: Option<Account>,
}

/// One service to install and configure.
#[derive(Debug)]
pub struct Service {
    pub name: String,
    pub path: String,
    pub startup_dir: Option<String>,
    pub args: Option<String>,
    pub description: Option<String>,
    pub other: Option<OtherConfig>,
}

/// The whole configuration of a run.
#[derive(Debug)]
pub struct FileConfig {
    pub nssm_path: String,
    pub pending_stop_poll_ms: Option<u64>,
    pub pending_stop_poll_count: Option<u64>,
    pub pending_start_poll_ms: Option<u64>,
    pub pending_start_poll_count: Option<u64>,
    pub global: Option<OtherConfig>,
    pub services: Vec<Service>,
}

pub open spec fn value_or(v: Option<u64>, default: u64) -> u64 {
    match v {
        Some(x) => x,
        None => default,
    }
}

fn unwrap_or(v: Option<u64>, default: u64) -> (r: u64)
    ensures
        r == value_or(v, default),
{
    match v {
        Some(x) => x,
        None => default,
    }
}

impl FileConfig {
    pub open spec fn stop_poll_ms(&self) -> u64 {
        value_or(self.pending_stop_poll_ms, PENDING_POLL_DEFAULT_MS)
    }

    pub open spec fn stop_poll_count(&self) -> u64 {
        value_or(self.pending_stop_poll_count, PENDING_POLL_DEFAULT_COUNT)
    }

    pub open spec fn start_poll_ms(&self) -> u64 {
        value_or(self.pending_start_poll_ms, PENDING_POLL_DEFAULT_MS)
    }

    pub open spec fn start_poll_count(&self) -> u64 {
        value_or(self.pending_start_poll_count, PENDING_POLL_DEFAULT_COUNT)
    }

    /// Interval between status queries while waiting for a stop.
    pub fn stop_interval(&self) -> (r: u64)
        ensures
            r == self.stop_poll_ms(),
    {
        unwrap_or(self.pending_stop_poll_ms, PENDING_POLL_DEFAULT_MS)
    }

    /// Attempts made while waiting for a stop.
    pub fn stop_count(&self) -> (r: u64)
        ensures
            r == self.stop_poll_count(),
    {
        unwrap_or(self.pending_stop_poll_count, PENDING_POLL_DEFAULT_COUNT)
    }

    /// Interval between status queries while waiting for a start.
    pub fn start_interval(&self) -> (r: u64)
        ensures
            r == self.start_poll_ms(),
    {
        unwrap_or(self.pending_start_poll_ms, PENDING_POLL_DEFAULT_MS)
    }

    /// Attempts made while waiting for a start.
    pub fn start_count(&self) -> (r: u64)
        ensures
            r == self.start_poll_count(),
    {
        unwrap_or(self.pending_start_poll_count, PENDING_POLL_DEFAULT_COUNT)
    }
}

} // verus!
