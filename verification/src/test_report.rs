//! What a run of a program's test functions decides: what to announce before
//! and after each test, how failures are counted, and how the run ends.
//! Compiling and executing a test, and printing, are the caller's part.

use vstd::prelude::*;
use vstd::string::*;
use crate::text::{decimal_string, decimal_text};

verus! {

/// How one test function ended.
#[derive(Clone, Copy, Debug, PartialEq, Eq, Structural)]
pub enum TestOutcome {
    /// The test compiled and its circuit was satisfied.
    Passed,
    /// The test did not compile. The compiler has reported why.
    FailedToCompile,
    /// The test compiled and its circuit was not satisfied.
    FailedToExecute,
}

/// The colour of a word on the console.
#[derive(Clone, Copy, Debug, PartialEq, Eq, Structural)]
pub enum NoticeColor {
    Green,
    Red,
}

/// The word to print when a test has ended.
#[derive(Clone, Copy, Debug, PartialEq, Eq, Structural)]
pub enum TestNotice {
    /// `ok`, in green.
    Passed,
    /// `failed`, in red.
    Failed,
    /// Nothing: the failure has been reported already.
    Silent,
}

impl TestNotice {
    /// The notice that an outcome calls for.
    pub open spec fn of(outcome: TestOutcome) -> TestNotice {
        match outcome {
            TestOutcome::Passed => TestNotice::Passed,
            TestOutcome::FailedToCompile => TestNotice::Silent,
            TestOutcome::FailedToExecute => TestNotice::Failed,
        }
    }

    /// The word and its colour, if the notice prints anything.
    pub open spec fn spec_word(self) -> Option<(NoticeColor, Seq<char>)> {
        match self {
            TestNotice::Passed => Some((NoticeColor::Green, "ok"@)),
            TestNotice::Failed => Some((NoticeColor::Red, "failed"@)),
            TestNotice::Silent => None,
        }
    }

    /// The word and its colour, if the notice prints anything.
    pub fn word(self) -> (word: Option<(NoticeColor, &'static str)>)
        ensures
            match word {
                Some((color, text)) => self.spec_word() == Some((color, text@)),
                None => self.spec_word() is None,
            },
    {
        match self {
            TestNotice::Passed => Some((NoticeColor::Green, "ok")),
            TestNotice::Failed => Some((NoticeColor::Red, "failed")),
            TestNotice::Silent => None,
        }
    }
}

/// The line that announces how many test functions will run.
pub open spec fn running_text(count: nat) -> Seq<char> {
    "Running "@ + decimal_text(count) + " test functions..."@
}

/// The line that announces one test.
pub open spec fn testing_text(test_name: Seq<char>) -> Seq<char> {
    "Testing "@ + test_name + "..."@
}

/// The error of a test that does not compile.
pub open spec fn compile_failure_text(test_name: Seq<char>) -> Seq<char> {
    "Test '"@ + test_name + "' failed to compile"@
}

/// The error of a run in which `failing` tests failed.
pub open spec fn failure_text(failing: nat) -> Seq<char> {
    decimal_text(failing) + " test"@ + (if failing == 1 {
        ""@
    } else {
        "s"@
    }) + " failed"@
}

/// The line that announces one test.
pub fn testing_message(test_name: &str) -> (line: String)
    ensures
        line@ == testing_text(test_name@),
{
    let mut line = String::from_str("Testing ");
    line.append(test_name);
    line.append("...");
    line
}

/// The error of a test that does not compile.
pub fn compile_failure_message(test_name: &str) -> (message: String)
    ensures
        message@ == compile_failure_text(test_name@),
{
    let mut message = String::from_str("Test '");
    message.append(test_name);
    message.append("' failed to compile");
    message
}

/// The tally of a run of test functions.
pub struct TestReport {
    total: usize,
    finished: usize,
    failing: usize,
}

impl TestReport {
    #[verifier::type_invariant]
    spec fn well_formed(self) -> bool {
        self.failing <= self.finished <= self.total
    }

    /// How many test functions the run holds.
    pub closed spec fn spec_total(self) -> nat {
        self.total as nat
    }

    /// How many of them have ended.
    pub closed spec fn spec_finished(self) -> nat {
        self.finished as nat
    }

    /// How many of those failed.
    pub closed spec fn spec_failing(self) -> nat {
        self.failing as nat
    }

    /// The tally of a run of `total` test functions, none of which has ended.
    pub fn new(total: usize) -> (report: TestReport)
        ensures
            report.spec_total() == total,
            report.spec_finished() == 0,
            report.spec_failing() == 0,
    {
        TestReport { total, finished: 0, failing: 0 }
    }

    /// How many test functions the run holds.
    pub fn total(&self) -> (n: usize)
        ensures
            n == self.spec_total(),
    {
        self.total
    }

    /// How many test functions have not ended yet.
    pub fn remaining(&self) -> (n: usize)
        ensures
            n == self.spec_total() - self.spec_finished(),
    {
        proof {
            use_type_invariant(self);
        }
        self.total - self.finished
    }

    /// How many test functions failed so far: no more than have ended, and
    /// no more have ended than the run holds.
    pub fn failing(&self) -> (n: usize)
        ensures
            n == self.spec_failing(),
            self.spec_failing() <= self.spec_finished() <= self.spec_total(),
    {
        proof {
            use_type_invariant(self);
        }
        self.failing
    }

    /// The line that announces the run.
    pub fn running_message(&self) -> (line: String)
        ensures
            line@ == running_text(self.spec_total()),
    {
        let mut line = String::from_str("Running ");
        line.append(decimal_string(self.total as u64).as_str());
        line.append(" test functions...");
        line
    }

    /// Takes in how one more test ended and says what to print for it. A
    /// test that did not pass counts as failed.
    pub fn record(&mut self, outcome: TestOutcome) -> (notice: TestNotice)
        requires
            old(self).spec_finished() < old(self).spec_total(),
        ensures
            notice == TestNotice::of(outcome),
            final(self).spec_total() == old(self).spec_total(),
            final(self).spec_finished() == old(self).spec_finished() + 1,
            final(self).spec_failing() == old(self).spec_failing() + (if outcome
                == TestOutcome::Passed {
                0nat
            } else {
                1nat
            }),
    {
        proof {
            use_type_invariant(&*self);
        }
        self.finished = self.finished + 1;
        match outcome {
            TestOutcome::Passed => TestNotice::Passed,
            TestOutcome::FailedToCompile => {
                self.failing = self.failing + 1;
                TestNotice::Silent
            },
            TestOutcome::FailedToExecute => {
                self.failing = self.failing + 1;
                TestNotice::Failed
            },
        }
    }

    /// How the run ends: well if no test failed, and else with the error that
    /// counts the failures.
    pub fn finish(&self) -> (result: Result<(), String>)
        ensures
            result is Ok <==> self.spec_failing() == 0,
            result matches Err(message) ==> message@ == failure_text(self.spec_failing()),
    {
        if self.failing == 0 {
            Ok(())
        } else {
            let plural = if self.failing == 1 {
                ""
            } else {
                "s"
            };
            let mut message = decimal_string(self.failing as u64);
            message.append(" test");
            message.append(plural);
            message.append(" failed");
            Err(message)
        }
    }
}

/// The line that ends a run in which every test passed.
pub open spec fn all_passed_text() -> Seq<char> {
    "All tests passed"@
}

/// The line that ends a run in which every test passed, in green.
pub fn all_passed_message() -> (word: (NoticeColor, &'static str))
    ensures
        word.0 == NoticeColor::Green,
        word.1@ == all_passed_text(),
{
    (NoticeColor::Green, "All tests passed")
}

} // verus!
