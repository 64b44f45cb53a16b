use crate::manager::ManagerSnapshot;
use crate::session::{LabeledError, NMConnection};
use crate::value::ReportValue;
use vstd::prelude::*;

verus! {

/// The plugin that reports the state of the network.
#[derive(Debug, Clone, Copy, PartialEq, Eq)]
pub struct NuNNMPlugin;

/// The command that reports the full status of the network.
#[derive(Debug, Clone, Copy, PartialEq, Eq)]
pub struct Status;

impl NuNNMPlugin {
    /// The commands that the plugin offers.
    pub fn commands(&self) -> (r: Vec<Status>)
        ensures
            r@ == seq![Status],
    {
        vec![Status]
    }
}

impl Status {
    pub fn name(&self) -> (r: &'static str)
        ensures
            r@ == "nnm status"@,
    {
        "nnm status"
    }

    pub fn description(&self) -> (r: &'static str)
        ensures
            r@ == "Network Status"@,
    {
        "Network Status"
    }

    /// One pass: the full report where the session with the message bus
    /// was opened, else the failure to open it, which is the only failure
    /// that a pass surfaces. `opened` is what the attempt to reach the
    /// manager yielded: what was read from it, or the message of what went
    /// wrong.
    pub fn run(&self, opened: Result<ManagerSnapshot, String>) -> (r: Result<
        ReportValue,
        LabeledError,
    >)
        ensures
            match opened {
                Ok(manager) => r is Ok && r->Ok_0@ == manager@.report() && r->Ok_0@.wf(),
                Err(message) => r is Err && r->Err_0.msg@ == message@,
            },
    {
        match ManagerSnapshot::new_ext(opened) {
            Ok(manager) => manager.status(),
            Err(failure) => Err(failure),
        }
    }
}

} // verus!
