//! Reconciles background services against a service-control tool.
//!
//! The library decides; the caller performs. Each service is driven by a
//! state machine that asks for one external action at a time (run a tool
//! command, resolve a path, sleep) and is told what came of it.

pub mod command;
pub mod convergence;
pub mod config;
pub mod driver;
pub mod error;
pub mod merge;
pub mod poll;
pub mod reconcile;
pub mod status;

pub use command::{
    CommandError, command_line, decimal_text, failure_cause, remove_zeros,
    run_nssm_status_cmd_extract_status,
};
pub use config::{Account, FileConfig, OtherConfig, Service};
pub use driver::{Batch, BatchStep, nssm_exec};
pub use error::{ErrorKind, print_recursive_err, print_recursive_warning};
pub use merge::merge_other_conf;
pub use poll::{PollAction, Poller};
pub use reconcile::{
    Action, Event, Outcome, Phase, Step, advance, begin, chain_service_msg, run_nssm_set_cmd_if_some,
};
pub use status::{ServiceState, state_from_str};
