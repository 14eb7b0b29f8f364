//! The worker's loop as a state machine, and the pool's shared halt.
//!
//! A worker alternates between work on the outside (writing a file, running
//! a compiler, printing) and decisions. The decisions are `step`: from what
//! the worker is waiting for and what happened, to what it waits for next and
//! what is to be done. The caller carries out each command and feeds back
//! the resulting event.
//!
//! All workers of a pool share one `Supervisor`. Every verdict passes through
//! it before anything is printed, so that after a fatal verdict nothing is
//! printed any more, by any worker.

use crate::outcome::{classify, outcome_of, verdict_of, Outcome, Variant, Verdict};
use crate::report::{disposition_of, silent_stop, Disposition};
use vstd::prelude::*;

verus! {

/// What a worker is waiting for.
#[derive(Clone, Copy, Debug, PartialEq, Eq, Structural)]
pub enum Phase {
    /// For a fresh case to be staged.
    Staging,
    /// For the baseline build to end.
    Baseline,
    /// For the candidate build to end; holds what the baseline build did.
    Candidate(Outcome),
    /// For the side effects of a verdict that is not fatal to be done.
    Concluding,
    /// For nothing: the worker has stopped.
    Halted,
}

/// What happened on the outside.
#[derive(Clone, Copy, Debug, PartialEq, Eq, Structural)]
pub enum Event {
    /// The last command was carried out.
    Done,
    /// The compiler that the last command started ended with this status;
    /// `None` where it ended without an exit code.
    Exited(Option<i32>),
    /// The last command could not be carried out.
    Failed,
}

/// What the caller is to do next.
#[derive(Clone, Copy, Debug, PartialEq, Eq, Structural)]
pub enum Command {
    /// Generate a case, render it and write it to its file.
    Stage,
    /// Run the given build on the staged file.
    Compile(Variant),
    /// Hand the verdict to the supervisor and do what it says.
    Conclude(Verdict),
    /// Stop without another word.
    Stop,
}

/// The worker's transition function.
///
/// A case is staged, compiled by the baseline and then by the candidate, and
/// concluded. An unreadable exit code of the baseline concludes the case at
/// once, without a look at the candidate. A fatal verdict, a failure on the
/// outside and an event that the phase has no use for all leave the worker
/// halted, and a halted worker stays halted.
pub open spec fn step_of(phase: Phase, event: Event) -> (Phase, Command) {
    match (phase, event) {
        (Phase::Staging, Event::Done) => (Phase::Baseline, Command::Compile(Variant::Baseline)),
        (Phase::Baseline, Event::Exited(status)) => match outcome_of(status) {
            Outcome::Unexpected(code) => (
                Phase::Halted,
                Command::Conclude(Verdict::UnexpectedExit(code)),
            ),
            outcome => (Phase::Candidate(outcome), Command::Compile(Variant::Candidate)),
        },
        (Phase::Candidate(baseline), Event::Exited(status)) => {
            let verdict = verdict_of(baseline, outcome_of(status));
            if verdict.is_fatal() {
                (Phase::Halted, Command::Conclude(verdict))
            } else {
                (Phase::Concluding, Command::Conclude(verdict))
            }
        },
        (Phase::Concluding, Event::Done) => (Phase::Staging, Command::Stage),
        _ => (Phase::Halted, Command::Stop),
    }
}

/// The commands that a worker in `phase` gives in answer to `events`, one
/// for each event.
pub open spec fn commands_of(phase: Phase, events: Seq<Event>) -> Seq<Command>
    decreases events.len(),
{
    if events.len() == 0 {
        Seq::empty()
    } else {
        let (next, command) = step_of(phase, events.first());
        seq![command] + commands_of(next, events.drop_first())
    }
}

/// Whether a command ends the worker: a fatal verdict or a plain stop.
pub open spec fn is_final(command: Command) -> bool {
    match command {
        Command::Conclude(verdict) => verdict.is_fatal(),
        Command::Stop => true,
        _ => false,
    }
}

/// The phase and the command that a worker starts with.
pub fn start() -> (first: (Phase, Command))
    ensures
        first == (Phase::Staging, Command::Stage),
{
    (Phase::Staging, Command::Stage)
}

/// One transition of a worker.
pub fn step(phase: Phase, event: Event) -> (next: (Phase, Command))
    ensures
        next == step_of(phase, event),
        next.0 is Halted <==> is_final(next.1),
{
    match phase {
        Phase::Staging => match event {
            Event::Done => (Phase::Baseline, Command::Compile(Variant::Baseline)),
            _ => (Phase::Halted, Command::Stop),
        },
        Phase::Baseline => match event {
            Event::Exited(status) => match Outcome::from_exit_status(status) {
                Outcome::Unexpected(code) => (
                    Phase::Halted,
                    Command::Conclude(Verdict::UnexpectedExit(code)),
                ),
                outcome => (Phase::Candidate(outcome), Command::Compile(Variant::Candidate)),
            },
            _ => (Phase::Halted, Command::Stop),
        },
        Phase::Candidate(baseline) => match event {
            Event::Exited(status) => {
                let verdict = classify(baseline, Outcome::from_exit_status(status));
                if verdict.fatal() {
                    (Phase::Halted, Command::Conclude(verdict))
                } else {
                    (Phase::Concluding, Command::Conclude(verdict))
                }
            },
            _ => (Phase::Halted, Command::Stop),
        },
        Phase::Concluding => match event {
            Event::Done => (Phase::Staging, Command::Stage),
            _ => (Phase::Halted, Command::Stop),
        },
        Phase::Halted => (Phase::Halted, Command::Stop),
    }
}

/// The halt that all workers of a pool share.
#[derive(Debug)]
pub struct Supervisor {
    halted: bool,
}

impl Supervisor {
    /// Whether a fatal verdict has come in.
    pub closed spec fn is_halted(self) -> bool {
        self.halted
    }

    /// A supervisor of a pool that is running.
    pub fn new() -> (supervisor: Supervisor)
        ensures
            !supervisor.is_halted(),
    {
        Supervisor { halted: false }
    }

    /// Whether a fatal verdict has come in.
    pub fn halted(&self) -> (halted: bool)
        ensures
            halted == self.is_halted(),
    {
        self.halted
    }

    /// Takes a worker's verdict and says what is to be done about it. Before
    /// the halt that is what the policy says, and a fatal verdict brings the
    /// halt; after the halt it is nothing at all.
    pub fn conclude(&mut self, verdict: Verdict) -> (disposition: Disposition)
        ensures
            final(self).is_halted() == (old(self).is_halted() || verdict.is_fatal()),
            disposition == if old(self).is_halted() {
                silent_stop()
            } else {
                disposition_of(verdict)
            },
            disposition.halt == final(self).is_halted(),
    {
        if self.halted {
            Disposition { report: false, progress: false, keep_file: true, halt: true }
        } else {
            let disposition = verdict.disposition();
            if disposition.halt {
                self.halted = true;
            }
            disposition
        }
    }
}

/// What a supervisor answers to the verdicts that reach it one after
/// another, where `halted` says whether it had halted before the first.
pub open spec fn answers_of(halted: bool, verdicts: Seq<Verdict>) -> Seq<Disposition>
    decreases verdicts.len(),
{
    if verdicts.len() == 0 {
        Seq::empty()
    } else {
        let answer = if halted {
            silent_stop()
        } else {
            disposition_of(verdicts.first())
        };
        seq![answer] + answers_of(halted || verdicts.first().is_fatal(), verdicts.drop_first())
    }
}

/// A worker answers every event with one command.
pub proof fn lemma_one_command_per_event(phase: Phase, events: Seq<Event>)
    ensures
        commands_of(phase, events).len() == events.len(),
    decreases events.len(),
{
    if events.len() > 0 {
        lemma_one_command_per_event(step_of(phase, events.first()).0, events.drop_first());
    }
}

/// A halted worker answers every event with a stop.
pub proof fn lemma_halted_worker_stays_halted(events: Seq<Event>, i: int)
    requires
        0 <= i < events.len(),
    ensures
        commands_of(Phase::Halted, events)[i] == Command::Stop,
    decreases events.len(),
{
    lemma_one_command_per_event(Phase::Halted, events.drop_first());
    if i > 0 {
        lemma_halted_worker_stays_halted(events.drop_first(), i - 1);
    }
}

/// Once a worker has given a fatal verdict or a stop, whatever happens next
/// it gives nothing but stops: no further case is staged, compiled or
/// concluded.
pub proof fn lemma_worker_stops_for_good(phase: Phase, events: Seq<Event>, i: int, j: int)
    requires
        0 <= i < j < events.len(),
        is_final(commands_of(phase, events)[i]),
    ensures
        commands_of(phase, events)[j] == Command::Stop,
    decreases events.len(),
{
    let next = step_of(phase, events.first()).0;
    lemma_one_command_per_event(next, events.drop_first());
    if i == 0 {
        lemma_halted_worker_stays_halted(events.drop_first(), j - 1);
    } else {
        lemma_worker_stops_for_good(next, events.drop_first(), i - 1, j - 1);
    }
}

/// A worker's verdict on a case is the table's verdict on the two exit
/// statuses. Where the baseline's exit code is unreadable the verdict falls
/// before the candidate is run, and is the same whatever the candidate would
/// have done.
pub proof fn lemma_worker_follows_table(baseline: Option<i32>, candidate: Option<i32>)
    ensures
        ({
            let verdict = verdict_of(outcome_of(baseline), outcome_of(candidate));
            let commands = commands_of(
                Phase::Staging,
                seq![Event::Done, Event::Exited(baseline), Event::Exited(candidate)],
            );
            &&& commands.len() == 3
            &&& commands[0] == Command::Compile(Variant::Baseline)
            &&& if outcome_of(baseline) is Unexpected {
                commands[1] == Command::Conclude(verdict) && commands[2] == Command::Stop
            } else {
                commands[1] == Command::Compile(Variant::Candidate) && commands[2]
                    == Command::Conclude(verdict)
            }
        }),
{
    let events = seq![Event::Done, Event::Exited(baseline), Event::Exited(candidate)];
    let rest = events.drop_first();
    let last = rest.drop_first();
    let after_staging = step_of(Phase::Staging, Event::Done).0;
    let after_baseline = step_of(after_staging, Event::Exited(baseline)).0;
    let after_candidate = step_of(after_baseline, Event::Exited(candidate)).0;
    assert(commands_of(after_candidate, last.drop_first()) =~= Seq::<Command>::empty());
    assert(commands_of(after_baseline, last) =~= seq![
        step_of(after_baseline, Event::Exited(candidate)).1,
    ]);
    assert(commands_of(after_staging, rest) =~= seq![
        step_of(after_staging, Event::Exited(baseline)).1,
        step_of(after_baseline, Event::Exited(candidate)).1,
    ]);
}

/// A supervisor answers every verdict with one disposition.
pub proof fn lemma_one_answer_per_verdict(halted: bool, verdicts: Seq<Verdict>)
    ensures
        answers_of(halted, verdicts).len() == verdicts.len(),
    decreases verdicts.len(),
{
    if verdicts.len() > 0 {
        lemma_one_answer_per_verdict(
            halted || verdicts.first().is_fatal(),
            verdicts.drop_first(),
        );
    }
}

/// A supervisor that has halted answers every verdict with silence.
pub proof fn lemma_halted_supervisor_is_silent(verdicts: Seq<Verdict>, i: int)
    requires
        0 <= i < verdicts.len(),
    ensures
        answers_of(true, verdicts)[i] == silent_stop(),
    decreases verdicts.len(),
{
    lemma_one_answer_per_verdict(true, verdicts.drop_first());
    if i > 0 {
        lemma_halted_supervisor_is_silent(verdicts.drop_first(), i - 1);
    }
}

/// Once a fatal verdict has reached the supervisor, every later verdict,
/// from whichever worker, is answered with silence: no progress mark and no
/// report is printed any more.
pub proof fn lemma_silence_after_fatal_verdict(
    halted: bool,
    verdicts: Seq<Verdict>,
    i: int,
    j: int,
)
    requires
        0 <= i < j < verdicts.len(),
        verdicts[i].is_fatal(),
    ensures
        answers_of(halted, verdicts)[j] == silent_stop(),
        !answers_of(halted, verdicts)[j].progress,
        !answers_of(halted, verdicts)[j].report,
    decreases verdicts.len(),
{
    let next = halted || verdicts.first().is_fatal();
    lemma_one_answer_per_verdict(next, verdicts.drop_first());
    if i == 0 {
        lemma_halted_supervisor_is_silent(verdicts.drop_first(), j - 1);
    } else {
        lemma_silence_after_fatal_verdict(next, verdicts.drop_first(), i - 1, j - 1);
    }
}

} // verus!
