//! Error reports as the command line shows them: a message and details.

use vstd::prelude::*;

verus! {

/// An error report: a headline message and the details below it.
#[derive(Debug)]
pub struct Report {
    pub msg: String,
    pub details: String,
}

impl Report {
    /// An error report with the given message and details.
    pub fn error(msg: String, details: String) -> (r: Report)
        ensures
            r.msg@ == msg@,
            r.details@ == details@,
    {
        Report { msg, details }
    }

    /// A copy of the report.
    pub fn duplicate(&self) -> (r: Report)
        ensures
            r.msg@ == self.msg@,
            r.details@ == self.details@,
    {
        Report { msg: self.msg.clone(), details: self.details.clone() }
    }
}

/// An error raised by a part of the tooling outside this library (the base
/// environment, the HAP build), carried together with the report it gives.
#[derive(Debug)]
pub struct UpstreamError {
    /// The error's own message (its `Display` text).
    pub message: String,
    /// The report it gives.
    pub report: Report,
}

impl UpstreamError {
    /// The report the error gives.
    pub fn report(&self) -> (r: Report)
        ensures
            r.msg@ == self.report.msg@,
            r.details@ == self.report.details@,
    {
        self.report.duplicate()
    }
}

} // verus!
