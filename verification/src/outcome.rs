//! How a process ended, and whether that is what was expected.

use crate::failure::Failure;
use vstd::prelude::*;

verus! {

/// What a step expects of the process it runs.
#[derive(Clone, Copy, Debug, PartialEq, Eq, Structural)]
pub enum Expect {
    /// Exit code 0.
    Success,
    /// Any other end.
    Failure,
}

/// A finished process: its exit code, if it ended with one, and all that it
/// wrote.
#[derive(Debug, PartialEq, Eq)]
pub struct ProcessOutcome {
    pub code: Option<i32>,
    pub stdout: Vec<u8>,
    pub stderr: Vec<u8>,
}

impl ProcessOutcome {
    /// A process succeeded if it ended with exit code 0.
    pub open spec fn succeeded_spec(self) -> bool {
        self.code == Some(0i32)
    }

    /// The outcome is what `expect` asks for.
    pub open spec fn meets_spec(self, expect: Expect) -> bool {
        match expect {
            Expect::Success => self.succeeded_spec(),
            Expect::Failure => !self.succeeded_spec(),
        }
    }

    /// The failure that an outcome which does not meet `expect` stands for.
    pub open spec fn shortfall(self, expect: Expect) -> Failure {
        match expect {
            Expect::Success => Failure::ShouldSucceed(self),
            Expect::Failure => Failure::ShouldFail(self),
        }
    }

    pub fn succeeded(&self) -> (succeeded: bool)
        ensures
            succeeded == self.succeeded_spec(),
    {
        match self.code {
            Some(code) => code == 0,
            None => false,
        }
    }

    /// `Ok` if the process ended with exit code 0; else the failure, which
    /// keeps the outcome for the diagnosis.
    pub fn assert_success(self) -> (checked: Result<(), Failure>)
        ensures
            checked == if self.succeeded_spec() {
                Ok::<(), Failure>(())
            } else {
                Err(Failure::ShouldSucceed(self))
            },
    {
        if self.succeeded() {
            Ok(())
        } else {
            Err(Failure::ShouldSucceed(self))
        }
    }

    /// `Ok` if the process did not end with exit code 0; else the failure,
    /// which keeps the outcome for the diagnosis.
    pub fn assert_failure(self) -> (checked: Result<(), Failure>)
        ensures
            checked == if self.succeeded_spec() {
                Err::<(), Failure>(Failure::ShouldFail(self))
            } else {
                Ok(())
            },
    {
        if self.succeeded() {
            Err(Failure::ShouldFail(self))
        } else {
            Ok(())
        }
    }

    /// `Ok` if the outcome is what `expect` asks for; else the failure.
    pub fn meets(self, expect: Expect) -> (checked: Result<(), Failure>)
        ensures
            checked == if self.meets_spec(expect) {
                Ok::<(), Failure>(())
            } else {
                Err(self.shortfall(expect))
            },
    {
        match expect {
            Expect::Success => self.assert_success(),
            Expect::Failure => self.assert_failure(),
        }
    }
}

} // verus!
