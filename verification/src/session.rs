use crate::compose::ToValue;
use crate::manager::ManagerSnapshot;
use crate::value::{Report, ReportValue};
use vstd::prelude::*;

verus! {

/// The one failure that a pass surfaces: a message for the caller.
#[derive(Debug, Clone, PartialEq, Eq)]
pub struct LabeledError {
    pub msg: String,
}

impl LabeledError {
    /// A failure with the message `msg`.
    pub fn new(msg: String) -> (e: LabeledError)
        ensures
            e.msg@ == msg@,
    {
        LabeledError { msg }
    }
}

/// Turning a cause of failure into the failure that a pass surfaces.
pub trait ToLabeledError: Sized {
    /// The message that describes the cause.
    spec fn message(self) -> Seq<char>;

    /// The failure that carries the message of the cause.
    fn to_labeled_error(self) -> (e: LabeledError)
        ensures
            e.msg@ == self.message(),
    ;
}

impl ToLabeledError for String {
    open spec fn message(self) -> Seq<char> {
        self@
    }

    fn to_labeled_error(self) -> (e: LabeledError) {
        LabeledError::new(self)
    }
}

/// Turning the outcome of a step that may fail into one whose failure is
/// labeled.
pub trait ToLabeledResult<T, E: ToLabeledError>: Sized {
    /// The outcome as it is.
    spec fn outcome(self) -> Result<T, E>;

    /// The same success, or the failure labeled with the message of its
    /// cause.
    fn to_labeled(self) -> (r: Result<T, LabeledError>)
        ensures
            match self.outcome() {
                Ok(val) => r == Ok::<T, LabeledError>(val),
                Err(cause) => r is Err && r->Err_0.msg@ == cause.message(),
            },
    ;
}

impl<T, E: ToLabeledError> ToLabeledResult<T, E> for Result<T, E> {
    open spec fn outcome(self) -> Result<T, E> {
        self
    }

    fn to_labeled(self) -> (r: Result<T, LabeledError>) {
        match self {
            Ok(val) => Ok(val),
            Err(cause) => Err(cause.to_labeled_error()),
        }
    }
}

/// The manager of the service as one pass sees it.
pub trait NMConnection: Sized {
    /// The report of a pass over this manager.
    spec fn status_report(&self) -> Report;

    /// The manager that a session was opened to, or the labeled failure of
    /// opening it, given what the attempt yielded: the manager, or the
    /// message of what went wrong.
    fn new_ext(opened: Result<Self, String>) -> (r: Result<Self, LabeledError>)
        ensures
            match opened {
                Ok(manager) => r == Ok::<Self, LabeledError>(manager),
                Err(message) => r is Err && r->Err_0.msg@ == message@,
            },
    ;

    /// The full report of the pass. Once the session is open a report is
    /// always produced, whatever could not be read.
    fn status(&self) -> (r: Result<ReportValue, LabeledError>)
        ensures
            r is Ok,
            r->Ok_0@ == self.status_report(),
            r->Ok_0@.wf(),
    ;
}

impl NMConnection for ManagerSnapshot {
    open spec fn status_report(&self) -> Report {
        self@.report()
    }

    fn new_ext(opened: Result<Self, String>) -> (r: Result<Self, LabeledError>) {
        opened.to_labeled()
    }

    fn status(&self) -> (r: Result<ReportValue, LabeledError>) {
        Ok(self.to_value())
    }
}

} // verus!
