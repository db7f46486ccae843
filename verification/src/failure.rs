//! Why a run stopped.

use crate::outcome::ProcessOutcome;
use vstd::prelude::*;

verus! {

/// The kinds of failure that a run distinguishes when it reports.
#[derive(Clone, Copy, Debug, PartialEq, Eq, Structural)]
pub enum Category {
    /// The machine is not set up for the run.
    Environment,
    /// The plan asks for what the harness does not do.
    Usage,
    /// A process ended otherwise than expected.
    Outcome,
    /// A file or a response is not what it should be.
    Artifact,
    /// Something did not happen in time.
    Liveness,
}

/// The first thing that went wrong in a run, with what was observed.
#[derive(Debug, PartialEq, Eq)]
pub enum Failure {
    /// An action could not be carried out at all: an executable or a
    /// directory is missing, or a process could not be started.
    Environment,
    /// A step names an absolute path, needs a remembered body where none was
    /// remembered, starts a second server, or was answered with an event of
    /// another kind.
    Usage,
    /// The process should have ended with exit code 0.
    ShouldSucceed(ProcessOutcome),
    /// The process should have ended with another exit code than 0.
    ShouldFail(ProcessOutcome),
    /// The file should be there.
    FileMissing,
    /// The file should not be there.
    FilePresent,
    /// The file does not hold the text, or is not the body that was served.
    ContentMismatch,
    /// A single request got no response.
    Unreachable,
    /// The response's status, which should have been 200.
    Status(u16),
    /// The response's content type, which should have been another.
    ContentType(Option<String>),
    /// The response's body, which should have been another.
    Body(Vec<u8>),
    /// The server gave no response until the time was up.
    NeverCameUp,
    /// The server answered, but the body was still the remembered one when
    /// the time was up.
    Unchanged,
}

impl Failure {
    pub open spec fn category_spec(self) -> Category {
        match self {
            Failure::Environment => Category::Environment,
            Failure::Usage => Category::Usage,
            Failure::ShouldSucceed(_) | Failure::ShouldFail(_) => Category::Outcome,
            Failure::FileMissing
            | Failure::FilePresent
            | Failure::ContentMismatch
            | Failure::Unreachable
            | Failure::Status(_)
            | Failure::ContentType(_)
            | Failure::Body(_) => Category::Artifact,
            Failure::NeverCameUp | Failure::Unchanged => Category::Liveness,
        }
    }

    pub open spec fn summary_spec(self) -> &'static str {
        match self {
            Failure::Environment => "the action could not be carried out",
            Failure::Usage => "the plan cannot be run as written",
            Failure::ShouldSucceed(_) => "the process failed but should have succeeded",
            Failure::ShouldFail(_) => "the process succeeded but should have failed",
            Failure::FileMissing => "the file is missing",
            Failure::FilePresent => "the file is there but should not be",
            Failure::ContentMismatch => "the file does not hold what it should",
            Failure::Unreachable => "the server gave no response",
            Failure::Status(_) => "the server responded with an error status",
            Failure::ContentType(_) => "the response has the wrong content type",
            Failure::Body(_) => "the response has the wrong body",
            Failure::NeverCameUp => "the server never came up",
            Failure::Unchanged => "the value did not change in time",
        }
    }

    /// The kind of this failure.
    pub fn category(&self) -> (category: Category)
        ensures
            category == self.category_spec(),
    {
        match self {
            Failure::Environment => Category::Environment,
            Failure::Usage => Category::Usage,
            Failure::ShouldSucceed(_) => Category::Outcome,
            Failure::ShouldFail(_) => Category::Outcome,
            Failure::FileMissing => Category::Artifact,
            Failure::FilePresent => Category::Artifact,
            Failure::ContentMismatch => Category::Artifact,
            Failure::Unreachable => Category::Artifact,
            Failure::Status(_) => Category::Artifact,
            Failure::ContentType(_) => Category::Artifact,
            Failure::Body(_) => Category::Artifact,
            Failure::NeverCameUp => Category::Liveness,
            Failure::Unchanged => Category::Liveness,
        }
    }

    /// One line that says what failed.
    pub fn summary(&self) -> (text: &'static str)
        ensures
            text == self.summary_spec(),
    {
        match self {
            Failure::Environment => "the action could not be carried out",
            Failure::Usage => "the plan cannot be run as written",
            Failure::ShouldSucceed(_) => "the process failed but should have succeeded",
            Failure::ShouldFail(_) => "the process succeeded but should have failed",
            Failure::FileMissing => "the file is missing",
            Failure::FilePresent => "the file is there but should not be",
            Failure::ContentMismatch => "the file does not hold what it should",
            Failure::Unreachable => "the server gave no response",
            Failure::Status(_) => "the server responded with an error status",
            Failure::ContentType(_) => "the response has the wrong content type",
            Failure::Body(_) => "the response has the wrong body",
            Failure::NeverCameUp => "the server never came up",
            Failure::Unchanged => "the value did not change in time",
        }
    }
}

} // verus!
