//! The loop that follows a running program: what to do next, given what
//! was seen last.
use crate::run::POLL_SLEEP_MILLIS;
use crate::text::{push_text, string_of};
use vstd::prelude::*;

verus! {

/// Bytes asked of the log channel in one read.
pub const READ_CAPACITY: usize = 1024;

/// How a run ended.
#[derive(Debug, Clone, Copy, PartialEq, Eq, Structural)]
pub enum Outcome {
    /// The program came to its end.
    Passed,
    /// The program ended in the hard fault handler.
    Crash,
    /// The deadline passed before the program ended.
    Timeout,
    /// The log stream could not be decoded any further.
    DecodeFailed,
    /// The probe or the target failed an operation.
    Failed,
}

impl Outcome {
    /// Whether the run counts as passed.
    pub open spec fn passed(self) -> bool {
        self == Outcome::Passed
    }

    /// Whether the run counts as passed.
    pub fn is_ok(&self) -> (ok: bool)
        ensures
            ok == self.passed(),
    {
        match self {
            Outcome::Passed => true,
            _ => false,
        }
    }
}

/// What is reported of a run that did not pass; nothing of one that did.
/// A run that failed on the probe is reported by the probe's own error.
pub open spec fn failure_text(outcome: Outcome) -> Option<Seq<char>> {
    match outcome {
        Outcome::Passed => None,
        Outcome::Crash => Some("Firmware crashed"@),
        Outcome::Timeout => Some("Deadline exceeded"@),
        Outcome::DecodeFailed => Some("failed to decode defmt data"@),
        Outcome::Failed => None,
    }
}

/// What is reported of a run that did not pass.
pub fn failure_message(outcome: Outcome) -> (message: Option<&'static str>)
    ensures
        match message {
            Some(m) => failure_text(outcome) == Some(m@),
            None => failure_text(outcome) is None,
        },
{
    match outcome {
        Outcome::Passed => None,
        Outcome::Crash => Some("Firmware crashed"),
        Outcome::Timeout => Some("Deadline exceeded"),
        Outcome::DecodeFailed => Some("failed to decode defmt data"),
        Outcome::Failed => None,
    }
}

/// The line under which a failed run goes into the log.
pub fn run_failed_line(message: &str) -> (line: String)
    ensures
        line@ == "Run failed: "@ + message@,
{
    let mut out: Vec<char> = Vec::new();
    push_text(&mut out, "Run failed: ");
    push_text(&mut out, message);
    string_of(&out)
}

/// The warning that goes with an action: a forced dump is announced by the
/// note that the deadline is exceeded.
pub fn action_warning(action: RunAction) -> (warning: Option<&'static str>)
    ensures
        match warning {
            Some(w) => action == (RunAction::Dump { force: true }) && w@ == "Deadline exceeded!"@,
            None => action != (RunAction::Dump { force: true }),
        },
{
    match action {
        RunAction::Dump { force: true } => Some("Deadline exceeded!"),
        _ => None,
    }
}

/// Where the loop stands: what it waits to be told.
#[derive(Debug, Clone, Copy, PartialEq, Eq, Structural)]
pub enum RunState {
    /// Whether the deadline has passed.
    AwaitDeadline { was_halted: bool },
    /// How many bytes the read of the log channel brought.
    AwaitRead { was_halted: bool },
    /// That the sleep is over.
    AwaitSlept { was_halted: bool },
    /// How decoding went.
    AwaitDecoded { was_halted: bool },
    /// Whether the core is halted.
    AwaitHalted { was_halted: bool },
    /// What the dump of the target's state found.
    AwaitDump { forced: bool },
    /// Nothing: the run is over.
    Terminal { outcome: Outcome },
}

/// What was seen on the target or the clock.
#[derive(Debug, Clone, Copy, PartialEq, Eq, Structural)]
pub enum RunEvent {
    Deadline { passed: bool },
    Read { bytes: usize },
    Slept,
    Decoded { fatal: bool },
    Halted { halted: bool },
    Dumped { hard_fault: bool },
    /// The action that was asked for could not be done.
    Failed,
}

/// What to do next. Each action but `Finish` is answered by one event, or by
/// `Failed`.
#[derive(Debug, Clone, Copy, PartialEq, Eq, Structural)]
pub enum RunAction {
    /// Compare the clock with the deadline; answer `Deadline`.
    CheckDeadline,
    /// Read up to `capacity` bytes from up channel 0; answer `Read`.
    ReadLog { capacity: usize },
    /// Sleep; answer `Slept`.
    Sleep { millis: u64 },
    /// Decode the bytes that were read and emit their records; answer
    /// `Decoded`.
    Decode,
    /// Ask the core whether it is halted; answer `Halted`.
    SampleHalted,
    /// Dump the target's state, with a traceback in any case where `force`
    /// is set; answer `Dumped`.
    Dump { force: bool },
    /// Stop: the run has ended as given.
    Finish { outcome: Outcome },
}

/// The state in which every run starts.
pub open spec fn initial_state() -> RunState {
    RunState::AwaitDeadline { was_halted: false }
}

/// The action that a state waits for an answer to.
pub open spec fn pending_action(state: RunState) -> RunAction {
    match state {
        RunState::AwaitDeadline { .. } => RunAction::CheckDeadline,
        RunState::AwaitRead { .. } => RunAction::ReadLog { capacity: READ_CAPACITY },
        RunState::AwaitSlept { .. } => RunAction::Sleep { millis: POLL_SLEEP_MILLIS },
        RunState::AwaitDecoded { .. } => RunAction::Decode,
        RunState::AwaitHalted { .. } => RunAction::SampleHalted,
        RunState::AwaitDump { forced } => RunAction::Dump { force: forced },
        RunState::Terminal { outcome } => RunAction::Finish { outcome },
    }
}

/// How a dump ends a run: a forced dump ends it with `Timeout`, any other
/// with `Crash` after a hard fault and with `Ok` else.
pub open spec fn verdict(forced: bool, hard_fault: bool) -> Outcome {
    if forced {
        Outcome::Timeout
    } else if hard_fault {
        Outcome::Crash
    } else {
        Outcome::Passed
    }
}

/// How the loop goes on. A deadline that has passed ends the polling with a
/// forced dump. Otherwise the log is read; an empty read is followed by a
/// sleep, any other by decoding, and decoding that cannot go on ends the
/// run. Then the core is sampled: the program counts as ended only when the
/// core is found halted twice in a row, and the dump that follows tells a
/// crash from a clean end. A failed action ends the run. An event that the
/// state does not wait for changes nothing, and the pending action is asked
/// again.
pub open spec fn run_step(state: RunState, event: RunEvent) -> (RunState, RunAction) {
    match (state, event) {
        (RunState::Terminal { outcome }, _) => (state, RunAction::Finish { outcome }),
        (_, RunEvent::Failed) => (
            RunState::Terminal { outcome: Outcome::Failed },
            RunAction::Finish { outcome: Outcome::Failed },
        ),
        (RunState::AwaitDeadline { was_halted }, RunEvent::Deadline { passed }) => if passed {
            (RunState::AwaitDump { forced: true }, RunAction::Dump { force: true })
        } else {
            (RunState::AwaitRead { was_halted }, RunAction::ReadLog { capacity: READ_CAPACITY })
        },
        (RunState::AwaitRead { was_halted }, RunEvent::Read { bytes }) => if bytes == 0 {
            (RunState::AwaitSlept { was_halted }, RunAction::Sleep { millis: POLL_SLEEP_MILLIS })
        } else {
            (RunState::AwaitDecoded { was_halted }, RunAction::Decode)
        },
        (RunState::AwaitSlept { was_halted }, RunEvent::Slept) => (
            RunState::AwaitHalted { was_halted },
            RunAction::SampleHalted,
        ),
        (RunState::AwaitDecoded { was_halted }, RunEvent::Decoded { fatal }) => if fatal {
            (
                RunState::Terminal { outcome: Outcome::DecodeFailed },
                RunAction::Finish { outcome: Outcome::DecodeFailed },
            )
        } else {
            (RunState::AwaitHalted { was_halted }, RunAction::SampleHalted)
        },
        (RunState::AwaitHalted { was_halted }, RunEvent::Halted { halted }) => if halted
            && was_halted {
            (RunState::AwaitDump { forced: false }, RunAction::Dump { force: false })
        } else {
            (RunState::AwaitDeadline { was_halted: halted }, RunAction::CheckDeadline)
        },
        (RunState::AwaitDump { forced }, RunEvent::Dumped { hard_fault }) => (
            RunState::Terminal { outcome: verdict(forced, hard_fault) },
            RunAction::Finish { outcome: verdict(forced, hard_fault) },
        ),
        _ => (state, pending_action(state)),
    }
}

impl RunState {
    /// The state in which every run starts.
    pub fn start() -> (state: RunState)
        ensures
            state == initial_state(),
    {
        RunState::AwaitDeadline { was_halted: false }
    }

    /// The action that the state waits for an answer to.
    pub fn pending(&self) -> (action: RunAction)
        ensures
            action == pending_action(*self),
    {
        match *self {
            RunState::AwaitDeadline { .. } => RunAction::CheckDeadline,
            RunState::AwaitRead { .. } => RunAction::ReadLog { capacity: READ_CAPACITY },
            RunState::AwaitSlept { .. } => RunAction::Sleep { millis: POLL_SLEEP_MILLIS },
            RunState::AwaitDecoded { .. } => RunAction::Decode,
            RunState::AwaitHalted { .. } => RunAction::SampleHalted,
            RunState::AwaitDump { forced } => RunAction::Dump { force: forced },
            RunState::Terminal { outcome } => RunAction::Finish { outcome },
        }
    }

    /// Takes an event: moves to the next state and says what to do.
    pub fn step(&mut self, event: RunEvent) -> (action: RunAction)
        ensures
            (*final(self), action) == run_step(*old(self), event),
    {
        let state = *self;
        let (next, action) = match (state, event) {
            (RunState::Terminal { outcome }, _) => (state, RunAction::Finish { outcome }),
            (_, RunEvent::Failed) => (
                RunState::Terminal { outcome: Outcome::Failed },
                RunAction::Finish { outcome: Outcome::Failed },
            ),
            (RunState::AwaitDeadline { was_halted }, RunEvent::Deadline { passed }) => {
                if passed {
                    (RunState::AwaitDump { forced: true }, RunAction::Dump { force: true })
                } else {
                    (
                        RunState::AwaitRead { was_halted },
                        RunAction::ReadLog { capacity: READ_CAPACITY },
                    )
                }
            },
            (RunState::AwaitRead { was_halted }, RunEvent::Read { bytes }) => {
                if bytes == 0 {
                    (
                        RunState::AwaitSlept { was_halted },
                        RunAction::Sleep { millis: POLL_SLEEP_MILLIS },
                    )
                } else {
                    (RunState::AwaitDecoded { was_halted }, RunAction::Decode)
                }
            },
            (RunState::AwaitSlept { was_halted }, RunEvent::Slept) => (
                RunState::AwaitHalted { was_halted },
                RunAction::SampleHalted,
            ),
            (RunState::AwaitDecoded { was_halted }, RunEvent::Decoded { fatal }) => {
                if fatal {
                    (
                        RunState::Terminal { outcome: Outcome::DecodeFailed },
                        RunAction::Finish { outcome: Outcome::DecodeFailed },
                    )
                } else {
                    (RunState::AwaitHalted { was_halted }, RunAction::SampleHalted)
                }
            },
            (RunState::AwaitHalted { was_halted }, RunEvent::Halted { halted }) => {
                if halted && was_halted {
                    (RunState::AwaitDump { forced: false }, RunAction::Dump { force: false })
                } else {
                    (RunState::AwaitDeadline { was_halted: halted }, RunAction::CheckDeadline)
                }
            },
            (RunState::AwaitDump { forced }, RunEvent::Dumped { hard_fault }) => {
                let outcome = if forced {
                    Outcome::Timeout
                } else if hard_fault {
                    Outcome::Crash
                } else {
                    Outcome::Passed
                };
                (RunState::Terminal { outcome }, RunAction::Finish { outcome })
            },
            _ => (state, state.pending()),
        };
        *self = next;
        action
    }
}

/// The state after a sequence of events, from `state` on.
pub open spec fn run_after(state: RunState, events: Seq<RunEvent>) -> RunState
    decreases events.len(),
{
    if events.len() == 0 {
        state
    } else {
        run_step(run_after(state, events.drop_last()), events.last()).0
    }
}

/// The samples of the halted state that the loop took among the events, in
/// order: the answers that came while it waited for one.
pub open spec fn samples(state: RunState, events: Seq<RunEvent>) -> Seq<bool>
    decreases events.len(),
{
    if events.len() == 0 {
        Seq::empty()
    } else {
        let before = run_after(state, events.drop_last());
        let earlier = samples(state, events.drop_last());
        match (before, events.last()) {
            (RunState::AwaitHalted { .. }, RunEvent::Halted { halted }) => earlier.push(halted),
            _ => earlier,
        }
    }
}

/// The last two samples both found the core halted.
pub open spec fn halted_twice(taken: Seq<bool>) -> bool {
    taken.len() >= 2 && taken[taken.len() - 1] && taken[taken.len() - 2]
}

/// The run ended by the program's own end: cleanly or in a crash.
pub open spec fn ended_by_program(state: RunState) -> bool {
    state == (RunState::Terminal { outcome: Outcome::Passed }) || state == (RunState::Terminal {
        outcome: Outcome::Crash,
    })
}

/// What holds of a state that a run has reached: while the loop polls it
/// remembers the last sample, and it has left polling for the final dump,
/// or ended by the program's own end, only after two samples in a row
/// found the core halted.
pub open spec fn reached_soundly(state: RunState, taken: Seq<bool>) -> bool {
    let last = taken.len() > 0 && taken.last();
    match state {
        RunState::AwaitDeadline { was_halted } => was_halted == last,
        RunState::AwaitRead { was_halted } => was_halted == last,
        RunState::AwaitSlept { was_halted } => was_halted == last,
        RunState::AwaitDecoded { was_halted } => was_halted == last,
        RunState::AwaitHalted { was_halted } => was_halted == last,
        RunState::AwaitDump { forced } => forced || halted_twice(taken),
        RunState::Terminal { outcome } => ended_by_program(state) ==> halted_twice(taken),
    }
}

/// A run ends normally only after the core was found halted twice in a row:
/// whatever the events, a run that has ended cleanly or in a crash has taken
/// at least two samples of the halted state, and the last two found the
/// core halted.
pub proof fn lemma_two_halts_end_a_run(events: Seq<RunEvent>)
    ensures
        reached_soundly(run_after(initial_state(), events), samples(initial_state(), events)),
        ended_by_program(run_after(initial_state(), events)) ==> halted_twice(
            samples(initial_state(), events),
        ),
    decreases events.len(),
{
    if events.len() > 0 {
        lemma_two_halts_end_a_run(events.drop_last());
    }
}

/// A run ends with `Timeout` only through a forced dump, and a dump is
/// forced only by a deadline that has passed; a deadline that is found
/// passed always forces the dump.
pub proof fn lemma_timeout_is_the_deadline(state: RunState, event: RunEvent)
    ensures
        run_step(state, event).0 == (RunState::AwaitDump { forced: true }) && state
            != (RunState::AwaitDump { forced: true }) ==> state is AwaitDeadline && event
            == (RunEvent::Deadline { passed: true }),
        run_step(state, event).0 == (RunState::Terminal { outcome: Outcome::Timeout }) && state
            != (RunState::Terminal { outcome: Outcome::Timeout }) ==> state == (
        RunState::AwaitDump { forced: true }) && event is Dumped,
        state is AwaitDeadline && event == (RunEvent::Deadline { passed: true }) ==> run_step(
            state,
            event,
        ) == (RunState::AwaitDump { forced: true }, RunAction::Dump { force: true }),
{
}

/// A run that has ended stays ended.
pub proof fn lemma_terminal_is_final(outcome: Outcome, event: RunEvent)
    ensures
        run_step(RunState::Terminal { outcome }, event) == (
            RunState::Terminal { outcome },
            RunAction::Finish { outcome },
        ),
{
}

} // verus!
