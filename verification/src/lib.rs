//! Watch-and-act core of a terminal dashboard for cluster workloads.
//!
//! The crate holds everything the dashboard decides: how a stream of watch
//! events becomes a keyed snapshot, how a pod's container statuses become a
//! readiness, state and restart summary, how keys move the selection and
//! turn into queued commands, and how those commands become backend
//! requests. Drawing, key capture and the backend connection live with the
//! caller, which feeds events in and carries requests out.
use vstd::prelude::*;

pub mod app;
pub mod client;
pub mod input;
pub mod k8s;
pub mod text;

verus! {

/// Command line options of the dashboard.
pub struct Args {
    /// Namespace to watch; the backend's current namespace when absent.
    pub namespace: Option<String>,
    /// How many times the verbosity flag was given.
    pub verbose: u8,
}

impl Clone for Args {
    fn clone(&self) -> (args: Self)
        ensures
            args == *self,
    {
        let namespace = match &self.namespace {
            Some(name) => Some(name.clone()),
            None => None,
        };
        Args { namespace, verbose: self.verbose }
    }
}

/// How much the log is to hold.
#[derive(Clone, Copy, Debug, PartialEq, Eq, Structural)]
pub enum LogLevel {
    Warn,
    Info,
    Debug,
    Trace,
}

/// The log level for a verbosity: warnings without the flag, one level
/// more for each time it is given, up to everything.
pub fn log_level(verbose: u8) -> (level: LogLevel)
    ensures
        level == match verbose {
            0 => LogLevel::Warn,
            1 => LogLevel::Info,
            2 => LogLevel::Debug,
            _ => LogLevel::Trace,
        },
{
    match verbose {
        0 => LogLevel::Warn,
        1 => LogLevel::Info,
        2 => LogLevel::Debug,
        _ => LogLevel::Trace,
    }
}

} // verus!
