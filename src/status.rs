use vstd::prelude::*;
use vstd::string::StringExecFns;
use crate::error::ErrorKind;

verus! {

/// Lifecycle state of a service as reported by the service-control tool.
///
/// `NotPresent` is never reported by the tool: it stands for a service whose
/// status could not be read.
#[derive(Clone, Copy, Debug, PartialEq, Eq, Structural)]
pub enum ServiceState {
    NotPresent,
    ContinuePending,
    PausePending,
    Paused,
    Running,
    StartPending,
    StopPending,
    Stopped,
}

/// The state that a status token names, if any.
pub open spec fn state_of_token(t: Seq<char>) -> Option<ServiceState> {
    if t == "SERVICE_CONTINUE_PENDING"@ {
        Some(ServiceState::ContinuePending)
    } else if t == "SERVICE_PAUSE_PENDING"@ {
        Some(ServiceState::PausePending)
    } else if t == "SERVICE_PAUSED"@ {
        Some(ServiceState::Paused)
    } else if t == "SERVICE_RUNNING"@ {
        Some(ServiceState::Running)
    } else if t == "SERVICE_START_PENDING"@ {
        Some(ServiceState::StartPending)
    } else if t == "SERVICE_STOP_PENDING"@ {
        Some(ServiceState::StopPending)
    } else if t == "SERVICE_STOPPED"@ {
        Some(ServiceState::Stopped)
    } else {
        None
    }
}

/// The message of a token that names no state.
pub open spec fn unknown_status_text(t: Seq<char>) -> Seq<char> {
    "Unable to obtain valid state from status string '"@ + t + "'"@
}

fn same_text(a: &str, b: &str) -> (r: bool)
    ensures
        r == (a@ == b@),
{
    String::from_str(a) == String::from_str(b)
}

/// Maps a status token of the tool to the state it names.
pub fn state_from_str(status: &str) -> (r: Result<ServiceState, ErrorKind>)
    ensures
        match state_of_token(status@) {
            Some(s) => r == Ok::<ServiceState, ErrorKind>(s),
            None => r is Err && r->Err_0.text() == unknown_status_text(status@),
        },
{
    if same_text(status, "SERVICE_CONTINUE_PENDING") {
        Ok(ServiceState::ContinuePending)
    } else if same_text(status, "SERVICE_PAUSE_PENDING") {
        Ok(ServiceState::PausePending)
    } else if same_text(status, "SERVICE_PAUSED") {
        Ok(ServiceState::Paused)
    } else if same_text(status, "SERVICE_RUNNING") {
        Ok(ServiceState::Running)
    } else if same_text(status, "SERVICE_START_PENDING") {
        Ok(ServiceState::StartPending)
    } else if same_text(status, "SERVICE_STOP_PENDING") {
        Ok(ServiceState::StopPending)
    } else if same_text(status, "SERVICE_STOPPED") {
        Ok(ServiceState::Stopped)
    } else {
        let mut m = String::from_str("Unable to obtain valid state from status string '");
        m.append(status);
        m.append("'");
        Err(ErrorKind::Msg(m))
    }
}

} // verus!
