//! Outcomes of a single compiler run and the verdict on a pair of them.

use vstd::prelude::*;

verus! {

/// Exit code with which a compiler reports that it crashed.
pub const CRASH_EXIT: i32 = 101;

/// Exit code of a compilation that succeeded.
pub const CLEAN_EXIT: i32 = 0;

/// Exit code of a compilation that failed with ordinary diagnostics.
pub const DIAGNOSTIC_EXIT: i32 = 1;

/// One of the two compiler builds under comparison.
#[derive(Clone, Copy, Debug, PartialEq, Eq, Structural)]
pub enum Variant {
    Baseline,
    Candidate,
}

/// What one compiler run did, as far as its termination status tells.
#[derive(Clone, Copy, Debug, PartialEq, Eq, Structural)]
pub enum Outcome {
    /// The compiler crashed.
    Crashed,
    /// The compiler accepted the input, rejected it with diagnostics, or was
    /// killed by a signal.
    NotCrashed,
    /// The compiler exited with a code this harness has no reading for.
    Unexpected(i32),
}

/// The decision on one test case.
#[derive(Clone, Copy, Debug, PartialEq, Eq, Structural)]
pub enum Verdict {
    /// Neither build crashed.
    Uninteresting,
    /// Exactly the named build crashed.
    OneSidedCrash(Variant),
    /// Both builds crashed.
    BothCrashed,
    /// A build exited with the given unreadable code.
    UnexpectedExit(i32),
}

/// The reading of a termination status: `None` stands for a process that
/// ended without an exit code.
pub open spec fn outcome_of(status: Option<i32>) -> Outcome {
    match status {
        None => Outcome::NotCrashed,
        Some(code) => if code == CRASH_EXIT {
            Outcome::Crashed
        } else if code == CLEAN_EXIT || code == DIAGNOSTIC_EXIT {
            Outcome::NotCrashed
        } else {
            Outcome::Unexpected(code)
        },
    }
}

/// The verdict table. An unreadable exit code on either side outranks
/// everything else; where both sides are unreadable the baseline's code is
/// the one reported.
pub open spec fn verdict_of(baseline: Outcome, candidate: Outcome) -> Verdict {
    match (baseline, candidate) {
        (Outcome::Unexpected(code), _) => Verdict::UnexpectedExit(code),
        (_, Outcome::Unexpected(code)) => Verdict::UnexpectedExit(code),
        (Outcome::Crashed, Outcome::Crashed) => Verdict::BothCrashed,
        (Outcome::Crashed, Outcome::NotCrashed) => Verdict::OneSidedCrash(Variant::Baseline),
        (Outcome::NotCrashed, Outcome::Crashed) => Verdict::OneSidedCrash(Variant::Candidate),
        (Outcome::NotCrashed, Outcome::NotCrashed) => Verdict::Uninteresting,
    }
}

impl Outcome {
    /// Reads a termination status.
    pub fn from_exit_status(status: Option<i32>) -> (outcome: Outcome)
        ensures
            outcome == outcome_of(status),
    {
        match status {
            None => Outcome::NotCrashed,
            Some(code) => {
                if code == CRASH_EXIT {
                    Outcome::Crashed
                } else if code == CLEAN_EXIT || code == DIAGNOSTIC_EXIT {
                    Outcome::NotCrashed
                } else {
                    Outcome::Unexpected(code)
                }
            },
        }
    }
}

impl Verdict {
    /// A verdict after which the whole harness stops.
    pub open spec fn is_fatal(self) -> bool {
        self is BothCrashed || self is UnexpectedExit
    }

    /// Whether the whole harness stops on this verdict.
    pub fn fatal(&self) -> (fatal: bool)
        ensures
            fatal == self.is_fatal(),
    {
        match self {
            Verdict::BothCrashed => true,
            Verdict::UnexpectedExit(_) => true,
            _ => false,
        }
    }
}

/// Decides on a test case from the outcomes of its two compiler runs.
pub fn classify(baseline: Outcome, candidate: Outcome) -> (verdict: Verdict)
    ensures
        verdict == verdict_of(baseline, candidate),
{
    match baseline {
        Outcome::Unexpected(code) => Verdict::UnexpectedExit(code),
        Outcome::Crashed => match candidate {
            Outcome::Unexpected(code) => Verdict::UnexpectedExit(code),
            Outcome::Crashed => Verdict::BothCrashed,
            Outcome::NotCrashed => Verdict::OneSidedCrash(Variant::Baseline),
        },
        Outcome::NotCrashed => match candidate {
            Outcome::Unexpected(code) => Verdict::UnexpectedExit(code),
            Outcome::Crashed => Verdict::OneSidedCrash(Variant::Candidate),
            Outcome::NotCrashed => Verdict::Uninteresting,
        },
    }
}

/// Every pair of outcomes has exactly one verdict, and each verdict stands
/// for one region of the table: no crash, a crash on the baseline alone, a
/// crash on the candidate alone, a crash on both, or an unreadable exit code
/// on at least one side.
pub proof fn lemma_verdict_table(baseline: Outcome, candidate: Outcome)
    ensures
        verdict_of(baseline, candidate) == Verdict::Uninteresting <==> baseline
            == Outcome::NotCrashed && candidate == Outcome::NotCrashed,
        verdict_of(baseline, candidate) == Verdict::OneSidedCrash(Variant::Baseline) <==> baseline
            == Outcome::Crashed && candidate == Outcome::NotCrashed,
        verdict_of(baseline, candidate) == Verdict::OneSidedCrash(Variant::Candidate) <==> baseline
            == Outcome::NotCrashed && candidate == Outcome::Crashed,
        verdict_of(baseline, candidate) == Verdict::BothCrashed <==> baseline == Outcome::Crashed
            && candidate == Outcome::Crashed,
        verdict_of(baseline, candidate) is UnexpectedExit <==> baseline is Unexpected
            || candidate is Unexpected,
        verdict_of(baseline, candidate) is Uninteresting || verdict_of(
            baseline,
            candidate,
        ) is OneSidedCrash || verdict_of(baseline, candidate) is BothCrashed || verdict_of(
            baseline,
            candidate,
        ) is UnexpectedExit,
{
}

/// The order in which the two builds are looked at does not matter to
/// whether a case is dropped, reported or fatal: swapping the outcomes swaps
/// only the side that a one-sided crash is blamed on.
pub proof fn lemma_verdict_symmetry(baseline: Outcome, candidate: Outcome)
    ensures
        verdict_of(baseline, candidate) is Uninteresting <==> verdict_of(
            candidate,
            baseline,
        ) is Uninteresting,
        verdict_of(baseline, candidate) is BothCrashed <==> verdict_of(
            candidate,
            baseline,
        ) is BothCrashed,
        verdict_of(baseline, candidate) is UnexpectedExit <==> verdict_of(
            candidate,
            baseline,
        ) is UnexpectedExit,
        verdict_of(baseline, candidate) == Verdict::OneSidedCrash(Variant::Baseline)
            <==> verdict_of(candidate, baseline) == Verdict::OneSidedCrash(Variant::Candidate),
{
}

} // verus!
