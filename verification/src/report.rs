//! What is done about a verdict, and what is printed.

use crate::decimal::{push_signed_decimal, signed_decimal};
use crate::outcome::{Variant, Verdict};
use vstd::prelude::*;
use vstd::string::StringExecFns;

verus! {

/// The progress mark printed for a case that is dropped.
pub const PROGRESS_MARK: &'static str = ".";

/// What opens the report of a crash on the baseline alone.
pub const BASELINE_CRASH_HEADING: &'static str = "ICE: ";

/// What opens the report of a crash on the candidate alone.
pub const CANDIDATE_CRASH_HEADING: &'static str = "Only +stage1 ICEs: ";

/// What opens the report of a crash on both builds.
pub const BOTH_CRASH_HEADING: &'static str = "BOTH ICE: ";

/// What opens the report of an unreadable exit code, before the code.
pub const UNEXPECTED_EXIT_HEADING: &'static str = "unexpected exit code ";

/// What separates an unreadable exit code from the path.
pub const UNEXPECTED_EXIT_JOINT: &'static str = ": ";

/// The side effects that a verdict calls for.
#[derive(Clone, Copy, Debug, PartialEq, Eq, Structural)]
pub struct Disposition {
    /// Print the report line of the case.
    pub report: bool,
    /// Print the progress mark.
    pub progress: bool,
    /// Leave the staged file where it is; otherwise delete it.
    pub keep_file: bool,
    /// Stop the whole harness once the rest is done.
    pub halt: bool,
}

/// The policy: a case without a crash is dropped with a progress mark; a
/// crash on one side is reported and the hunt goes on; a crash on both sides,
/// or an unreadable exit code, is reported and stops the hunt. Only a dropped
/// case loses its file.
pub open spec fn disposition_of(verdict: Verdict) -> Disposition {
    match verdict {
        Verdict::Uninteresting => Disposition {
            report: false,
            progress: true,
            keep_file: false,
            halt: false,
        },
        Verdict::OneSidedCrash(_) => Disposition {
            report: true,
            progress: false,
            keep_file: true,
            halt: false,
        },
        Verdict::BothCrashed => Disposition {
            report: true,
            progress: false,
            keep_file: true,
            halt: true,
        },
        Verdict::UnexpectedExit(_) => Disposition {
            report: true,
            progress: false,
            keep_file: true,
            halt: true,
        },
    }
}

/// What a harness that has already stopped does about anything: nothing.
pub open spec fn silent_stop() -> Disposition {
    Disposition { report: false, progress: false, keep_file: true, halt: true }
}

/// The report line of a verdict on the case staged at `path`, without a line
/// end. A dropped case has none.
pub open spec fn report_text(verdict: Verdict, path: Seq<char>) -> Option<Seq<char>> {
    match verdict {
        Verdict::Uninteresting => None,
        Verdict::OneSidedCrash(Variant::Baseline) => Some(BASELINE_CRASH_HEADING@ + path),
        Verdict::OneSidedCrash(Variant::Candidate) => Some(CANDIDATE_CRASH_HEADING@ + path),
        Verdict::BothCrashed => Some(BOTH_CRASH_HEADING@ + path),
        Verdict::UnexpectedExit(code) => Some(
            UNEXPECTED_EXIT_HEADING@ + signed_decimal(code as int) + UNEXPECTED_EXIT_JOINT@ + path,
        ),
    }
}

impl Verdict {
    /// The side effects that this verdict calls for.
    pub fn disposition(&self) -> (disposition: Disposition)
        ensures
            disposition == disposition_of(*self),
            disposition.halt == self.is_fatal(),
            disposition.progress == (*self == Verdict::Uninteresting),
            disposition.keep_file == (*self != Verdict::Uninteresting),
            disposition.report == disposition.keep_file,
    {
        match self {
            Verdict::Uninteresting => Disposition {
                report: false,
                progress: true,
                keep_file: false,
                halt: false,
            },
            Verdict::OneSidedCrash(_) => Disposition {
                report: true,
                progress: false,
                keep_file: true,
                halt: false,
            },
            Verdict::BothCrashed => Disposition {
                report: true,
                progress: false,
                keep_file: true,
                halt: true,
            },
            Verdict::UnexpectedExit(_) => Disposition {
                report: true,
                progress: false,
                keep_file: true,
                halt: true,
            },
        }
    }

    /// The report line of this verdict on the case staged at `path`.
    pub fn report_line(&self, path: &str) -> (line: Option<String>)
        ensures
            line is Some <==> disposition_of(*self).report,
            match line {
                Some(line) => report_text(*self, path@) == Some(line@),
                None => report_text(*self, path@) is None,
            },
    {
        match self {
            Verdict::Uninteresting => None,
            Verdict::OneSidedCrash(Variant::Baseline) => {
                let mut line: String = String::from_str(BASELINE_CRASH_HEADING);
                line.append(path);
                Some(line)
            },
            Verdict::OneSidedCrash(Variant::Candidate) => {
                let mut line: String = String::from_str(CANDIDATE_CRASH_HEADING);
                line.append(path);
                Some(line)
            },
            Verdict::BothCrashed => {
                let mut line: String = String::from_str(BOTH_CRASH_HEADING);
                line.append(path);
                Some(line)
            },
            Verdict::UnexpectedExit(code) => {
                let mut line: String = String::from_str(UNEXPECTED_EXIT_HEADING);
                push_signed_decimal(&mut line, *code);
                line.append(UNEXPECTED_EXIT_JOINT);
                line.append(path);
                Some(line)
            },
        }
    }
}

} // verus!
