//! The readers of a child's output as state machines: each step takes what
//! the last action came to and says what to do next.

use crate::error::{SmError, SmResult};
use crate::model::{chunk_bytes, fill_chunk, StdioSendBuf};
use crate::output::{appended, lemma_appended_ends_with, OUTPUT_CAP};
use crate::status::{status_of_exit, ServiceStatus};
use vstd::prelude::*;
use vstd::string::*;

verus! {

/// Most bytes that one read takes from a pipe, and so the most that one chunk holds.
pub const STDIO_SEND_BUF_SIZE: usize = 512;

/// The text that ends the output of a killed service.
pub open spec fn kill_marker() -> Seq<u8> {
    "\n\n<Process was killed>\n".spec_bytes()
}

/// The chunk that ends the output of a killed service.
pub fn kill_marker_chunk() -> (chunk: StdioSendBuf)
    ensures
        chunk_bytes(chunk) == kill_marker(),
{
    let text = "\n\n<Process was killed>\n";
    proof {
        reveal_strlit("\n\n<Process was killed>\n");
        assert(text@.len() == 23);
        assert(is_ascii(text));
        is_ascii_spec_bytes(text);
    }
    fill_chunk(text.as_bytes())
}

/// What a look at the termination signal found.
#[derive(Debug, Clone, Copy, PartialEq, Eq)]
pub enum SignalPoll {
    /// Nothing was sent.
    Empty,
    /// Termination was requested.
    Requested,
    /// The sending side is gone.
    Disconnected,
}

/// How one read from a pipe ended.
#[derive(Debug, PartialEq, Eq)]
pub enum ReadOutcome {
    /// The read took this many bytes, possibly none.
    Data(usize),
    /// A signal interrupted the read.
    Interrupted,
    /// The read failed; holds the system's description.
    Failed(String),
}

/// What a look at the child found.
#[derive(Debug, PartialEq, Eq)]
pub enum ExitProbe {
    /// The child has not ended.
    StillRunning,
    /// The child has ended, with this exit code if it had one.
    Exited(Option<i32>),
    /// The look failed; holds the system's description.
    Failed(String),
}

/// How the attempt to end the child went.
#[derive(Debug, PartialEq, Eq)]
pub enum KillOutcome {
    /// The child was ended.
    Killed,
    /// The child had ended before.
    AlreadyGone,
    /// The attempt failed; holds the system's description.
    Failed(String),
}

/// What the caller reports back to a reader after it did what the reader asked.
#[derive(Debug, PartialEq, Eq)]
pub enum ReaderEvent {
    /// The reader starts; says which pipes of the child could be taken.
    Started { stdout: bool, stderr: bool },
    /// The termination signal was looked at.
    Signal(SignalPoll),
    /// The pipe was read.
    Read(ReadOutcome),
    /// A chunk was handed to the output channel, or could not be.
    Sent(bool),
    /// The child was looked at.
    Probed(ExitProbe),
    /// The run state was written, or its lock was found poisoned.
    StatusWritten(bool),
    /// The standard-error reader was told to stop, as far as that was possible.
    StderrStopped,
    /// The child was told to end.
    Kill(KillOutcome),
    /// An error was put on record.
    Logged,
}

/// What a reader asks its caller to do next.
#[derive(Debug, PartialEq, Eq)]
pub enum ReaderAction {
    /// Look at the termination signal without waiting.
    PollSignal,
    /// Read at most `STDIO_SEND_BUF_SIZE` bytes from the pipe.
    ReadPipe,
    /// Hand the bytes just read to the output channel as one chunk.
    ForwardChunk,
    /// Look whether the child has ended, without waiting.
    ProbeExit,
    /// Write this run state.
    WriteStatus(ServiceStatus),
    /// Tell the standard-error reader to stop.
    StopStderr,
    /// End the child.
    KillChild,
    /// Hand the kill marker to the output channel as one chunk.
    SendMarker,
    /// Put this error on record and go on.
    Log(SmError),
    /// Stop with this result.
    Finish(SmResult),
}

/// Where the reader of a child's standard output stands.
#[derive(Debug, Clone, Copy, PartialEq, Eq, Structural)]
pub enum ReaderState {
    /// Not started.
    Idle,
    /// Waits for a look at the termination signal.
    AwaitSignal,
    /// Waits for a read.
    AwaitRead,
    /// Waits for a chunk to be handed over.
    AwaitSent,
    /// Waits for a look at the child.
    AwaitProbe,
    /// Waits for the run state of a child that ended by itself to be written.
    AwaitExitWritten,
    /// Waits for the standard-error reader to be told to stop.
    AwaitStderrStopped,
    /// Waits for the child to be ended.
    AwaitKill,
    /// Waits for `Killed` to be written.
    AwaitKilledWritten,
    /// Waits for the kill marker to be handed over.
    AwaitMarkerSent,
    /// Stopped.
    Done,
}

/// Where the reader of a child's standard error stands.
#[derive(Debug, Clone, Copy, PartialEq, Eq, Structural)]
pub enum StderrState {
    /// Waits for a look at its stop signal.
    AwaitSignal,
    /// Waits for a read.
    AwaitRead,
    /// Waits for a chunk to be handed over.
    AwaitSent,
    /// Waits for an error to be put on record.
    AwaitLogged,
    /// Stopped.
    Done,
}

/// The error of a reader that was told something it did not ask for.
pub open spec fn out_of_turn() -> SmError {
    SmError::Bug("Reader was handed an event out of turn")
}

/// The step of the standard-output reader: the state it moves to and what it
/// asks for, given the state it is in and what came back.
pub open spec fn reader_step(state: ReaderState, event: ReaderEvent) -> (
    ReaderState,
    ReaderAction,
) {
    match (state, event) {
        (ReaderState::Idle, ReaderEvent::Started { stdout, stderr }) => if !stdout {
            (
                ReaderState::Done,
                ReaderAction::Finish(Err(SmError::Bug("Stdout of child could not be taken"))),
            )
        } else if !stderr {
            (
                ReaderState::Done,
                ReaderAction::Finish(Err(SmError::Bug("Stderr of child could not be taken"))),
            )
        } else {
            (ReaderState::AwaitSignal, ReaderAction::PollSignal)
        },
        (ReaderState::AwaitSignal, ReaderEvent::Signal(poll)) => match poll {
            SignalPoll::Empty => (ReaderState::AwaitRead, ReaderAction::ReadPipe),
            _ => (ReaderState::AwaitStderrStopped, ReaderAction::StopStderr),
        },
        (ReaderState::AwaitRead, ReaderEvent::Read(outcome)) => match outcome {
            ReadOutcome::Data(n) => if n == 0 {
                (ReaderState::AwaitProbe, ReaderAction::ProbeExit)
            } else {
                (ReaderState::AwaitSent, ReaderAction::ForwardChunk)
            },
            ReadOutcome::Interrupted => (ReaderState::AwaitProbe, ReaderAction::ProbeExit),
            ReadOutcome::Failed(description) => (
                ReaderState::Done,
                ReaderAction::Finish(Err(SmError::Io(description))),
            ),
        },
        (ReaderState::AwaitSent, ReaderEvent::Sent(delivered)) => if delivered {
            (ReaderState::AwaitProbe, ReaderAction::ProbeExit)
        } else {
            (
                ReaderState::Done,
                ReaderAction::Finish(Err(SmError::Bug("Failed to send stdout to main thread"))),
            )
        },
        (ReaderState::AwaitProbe, ReaderEvent::Probed(probe)) => match probe {
            ExitProbe::StillRunning => (ReaderState::AwaitSignal, ReaderAction::PollSignal),
            ExitProbe::Exited(code) => (
                ReaderState::AwaitExitWritten,
                ReaderAction::WriteStatus(status_of_exit(code)),
            ),
            ExitProbe::Failed(description) => (
                ReaderState::Done,
                ReaderAction::Finish(Err(SmError::Io(description))),
            ),
        },
        (ReaderState::AwaitExitWritten, ReaderEvent::StatusWritten(written)) => if written {
            (ReaderState::Done, ReaderAction::Finish(Ok(())))
        } else {
            (ReaderState::Done, ReaderAction::Finish(Err(SmError::MutexPoisoned)))
        },
        (ReaderState::AwaitStderrStopped, ReaderEvent::StderrStopped) => (
            ReaderState::AwaitKill,
            ReaderAction::KillChild,
        ),
        (ReaderState::AwaitKill, ReaderEvent::Kill(outcome)) => match outcome {
            KillOutcome::Failed(description) => (
                ReaderState::Done,
                ReaderAction::Finish(Err(SmError::Io(description))),
            ),
            _ => (
                ReaderState::AwaitKilledWritten,
                ReaderAction::WriteStatus(ServiceStatus::Killed),
            ),
        },
        (ReaderState::AwaitKilledWritten, ReaderEvent::StatusWritten(written)) => if written {
            (ReaderState::AwaitMarkerSent, ReaderAction::SendMarker)
        } else {
            (ReaderState::Done, ReaderAction::Finish(Err(SmError::MutexPoisoned)))
        },
        (ReaderState::AwaitMarkerSent, ReaderEvent::Sent(delivered)) => if delivered {
            (ReaderState::Done, ReaderAction::Finish(Ok(())))
        } else {
            (
                ReaderState::Done,
                ReaderAction::Finish(Err(SmError::Bug("Failed to send stdout to main thread"))),
            )
        },
        _ => (ReaderState::Done, ReaderAction::Finish(Err(out_of_turn()))),
    }
}

/// The step of the standard-error reader.
pub open spec fn stderr_step(state: StderrState, event: ReaderEvent) -> (
    StderrState,
    ReaderAction,
) {
    match (state, event) {
        (StderrState::AwaitSignal, ReaderEvent::Signal(poll)) => match poll {
            SignalPoll::Empty => (StderrState::AwaitRead, ReaderAction::ReadPipe),
            _ => (StderrState::Done, ReaderAction::Finish(Ok(()))),
        },
        (StderrState::AwaitRead, ReaderEvent::Read(outcome)) => match outcome {
            ReadOutcome::Data(n) => if n == 0 {
                (StderrState::AwaitSignal, ReaderAction::PollSignal)
            } else {
                (StderrState::AwaitSent, ReaderAction::ForwardChunk)
            },
            ReadOutcome::Interrupted => (StderrState::AwaitSignal, ReaderAction::PollSignal),
            ReadOutcome::Failed(description) => (
                StderrState::Done,
                ReaderAction::Finish(Err(SmError::Io(description))),
            ),
        },
        (StderrState::AwaitSent, ReaderEvent::Sent(delivered)) => if delivered {
            (StderrState::AwaitSignal, ReaderAction::PollSignal)
        } else {
            (
                StderrState::AwaitLogged,
                ReaderAction::Log(SmError::Bug("Failed to send stderr to main thread")),
            )
        },
        (StderrState::AwaitLogged, ReaderEvent::Logged) => (
            StderrState::AwaitSignal,
            ReaderAction::PollSignal,
        ),
        _ => (StderrState::Done, ReaderAction::Finish(Err(out_of_turn()))),
    }
}

/// One step of the reader of a child's standard output. The caller starts
/// with `ReaderState::Idle` and `ReaderEvent::Started`, does what the action
/// says, and comes back with the state returned and the event that tells how
/// it went, until the action is `Finish`.
pub fn child_process_thread(state: ReaderState, event: ReaderEvent) -> (next: (
    ReaderState,
    ReaderAction,
))
    ensures
        next == reader_step(state, event),
{
    match (state, event) {
        (ReaderState::Idle, ReaderEvent::Started { stdout, stderr }) => {
            if !stdout {
                (
                    ReaderState::Done,
                    ReaderAction::Finish(Err(SmError::Bug("Stdout of child could not be taken"))),
                )
            } else if !stderr {
                (
                    ReaderState::Done,
                    ReaderAction::Finish(Err(SmError::Bug("Stderr of child could not be taken"))),
                )
            } else {
                (ReaderState::AwaitSignal, ReaderAction::PollSignal)
            }
        },
        (ReaderState::AwaitSignal, ReaderEvent::Signal(poll)) => match poll {
            SignalPoll::Empty => (ReaderState::AwaitRead, ReaderAction::ReadPipe),
            _ => (ReaderState::AwaitStderrStopped, ReaderAction::StopStderr),
        },
        (ReaderState::AwaitRead, ReaderEvent::Read(outcome)) => match outcome {
            ReadOutcome::Data(n) => {
                if n == 0 {
                    (ReaderState::AwaitProbe, ReaderAction::ProbeExit)
                } else {
                    (ReaderState::AwaitSent, ReaderAction::ForwardChunk)
                }
            },
            ReadOutcome::Interrupted => (ReaderState::AwaitProbe, ReaderAction::ProbeExit),
            ReadOutcome::Failed(description) => (
                ReaderState::Done,
                ReaderAction::Finish(Err(SmError::Io(description))),
            ),
        },
        (ReaderState::AwaitSent, ReaderEvent::Sent(delivered)) => {
            if delivered {
                (ReaderState::AwaitProbe, ReaderAction::ProbeExit)
            } else {
                (
                    ReaderState::Done,
                    ReaderAction::Finish(
                        Err(SmError::Bug("Failed to send stdout to main thread")),
                    ),
                )
            }
        },
        (ReaderState::AwaitProbe, ReaderEvent::Probed(probe)) => match probe {
            ExitProbe::StillRunning => (ReaderState::AwaitSignal, ReaderAction::PollSignal),
            ExitProbe::Exited(code) => (
                ReaderState::AwaitExitWritten,
                ReaderAction::WriteStatus(ServiceStatus::from_exit_code(code)),
            ),
            ExitProbe::Failed(description) => (
                ReaderState::Done,
                ReaderAction::Finish(Err(SmError::Io(description))),
            ),
        },
        (ReaderState::AwaitExitWritten, ReaderEvent::StatusWritten(written)) => {
            if written {
                (ReaderState::Done, ReaderAction::Finish(Ok(())))
            } else {
                (ReaderState::Done, ReaderAction::Finish(Err(SmError::MutexPoisoned)))
            }
        },
        (ReaderState::AwaitStderrStopped, ReaderEvent::StderrStopped) => (
            ReaderState::AwaitKill,
            ReaderAction::KillChild,
        ),
        (ReaderState::AwaitKill, ReaderEvent::Kill(outcome)) => match outcome {
            KillOutcome::Failed(description) => (
                ReaderState::Done,
                ReaderAction::Finish(Err(SmError::Io(description))),
            ),
            _ => (
                ReaderState::AwaitKilledWritten,
                ReaderAction::WriteStatus(ServiceStatus::Killed),
            ),
        },
        (ReaderState::AwaitKilledWritten, ReaderEvent::StatusWritten(written)) => {
            if written {
                (ReaderState::AwaitMarkerSent, ReaderAction::SendMarker)
            } else {
                (ReaderState::Done, ReaderAction::Finish(Err(SmError::MutexPoisoned)))
            }
        },
        (ReaderState::AwaitMarkerSent, ReaderEvent::Sent(delivered)) => {
            if delivered {
                (ReaderState::Done, ReaderAction::Finish(Ok(())))
            } else {
                (
                    ReaderState::Done,
                    ReaderAction::Finish(
                        Err(SmError::Bug("Failed to send stdout to main thread")),
                    ),
                )
            }
        },
        _ => (
            ReaderState::Done,
            ReaderAction::Finish(Err(SmError::Bug("Reader was handed an event out of turn"))),
        ),
    }
}

/// One step of the reader of a child's standard error. The caller starts
/// with `StderrState::AwaitSignal` and a look at the stop signal.
pub fn child_process_stderr_thread(state: StderrState, event: ReaderEvent) -> (next: (
    StderrState,
    ReaderAction,
))
    ensures
        next == stderr_step(state, event),
{
    match (state, event) {
        (StderrState::AwaitSignal, ReaderEvent::Signal(poll)) => match poll {
            SignalPoll::Empty => (StderrState::AwaitRead, ReaderAction::ReadPipe),
            _ => (StderrState::Done, ReaderAction::Finish(Ok(()))),
        },
        (StderrState::AwaitRead, ReaderEvent::Read(outcome)) => match outcome {
            ReadOutcome::Data(n) => {
                if n == 0 {
                    (StderrState::AwaitSignal, ReaderAction::PollSignal)
                } else {
                    (StderrState::AwaitSent, ReaderAction::ForwardChunk)
                }
            },
            ReadOutcome::Interrupted => (StderrState::AwaitSignal, ReaderAction::PollSignal),
            ReadOutcome::Failed(description) => (
                StderrState::Done,
                ReaderAction::Finish(Err(SmError::Io(description))),
            ),
        },
        (StderrState::AwaitSent, ReaderEvent::Sent(delivered)) => {
            if delivered {
                (StderrState::AwaitSignal, ReaderAction::PollSignal)
            } else {
                (
                    StderrState::AwaitLogged,
                    ReaderAction::Log(SmError::Bug("Failed to send stderr to main thread")),
                )
            }
        },
        (StderrState::AwaitLogged, ReaderEvent::Logged) => (
            StderrState::AwaitSignal,
            ReaderAction::PollSignal,
        ),
        _ => (
            StderrState::Done,
            ReaderAction::Finish(Err(SmError::Bug("Reader was handed an event out of turn"))),
        ),
    }
}

/// The actions that the standard-output reader asks for, in order, when it
/// stands in `state` and `events` come back one by one.
pub open spec fn reader_run(state: ReaderState, events: Seq<ReaderEvent>) -> Seq<ReaderAction>
    decreases events.len(),
{
    if events.len() == 0 {
        Seq::empty()
    } else {
        let (next, action) = reader_step(state, events[0]);
        seq![action] + reader_run(next, events.skip(1))
    }
}

/// The run states that `actions` ask to be written, in order.
pub open spec fn status_writes(actions: Seq<ReaderAction>) -> Seq<ServiceStatus>
    decreases actions.len(),
{
    if actions.len() == 0 {
        Seq::empty()
    } else {
        match actions[0] {
            ReaderAction::WriteStatus(status) => seq![status] + status_writes(actions.skip(1)),
            _ => status_writes(actions.skip(1)),
        }
    }
}

/// How often `actions` ask for the kill marker to be sent.
pub open spec fn marker_sends(actions: Seq<ReaderAction>) -> nat
    decreases actions.len(),
{
    if actions.len() == 0 {
        0
    } else if actions[0] is SendMarker {
        1 + marker_sends(actions.skip(1))
    } else {
        marker_sends(actions.skip(1))
    }
}

/// The reader has not asked for a run state to be written yet and may still do so.
pub open spec fn before_write(state: ReaderState) -> bool {
    match state {
        ReaderState::Idle
        | ReaderState::AwaitSignal
        | ReaderState::AwaitRead
        | ReaderState::AwaitSent
        | ReaderState::AwaitProbe
        | ReaderState::AwaitStderrStopped
        | ReaderState::AwaitKill => true,
        _ => false,
    }
}

proof fn lemma_first_action(action: ReaderAction, rest: Seq<ReaderAction>)
    ensures
        (seq![action] + rest).len() > 0,
        (seq![action] + rest)[0] == action,
        (seq![action] + rest).skip(1) == rest,
{
    assert((seq![action] + rest).skip(1) =~= rest);
}

/// Whatever comes back, a reader asks at most once for a run state to be
/// written, and then for a terminal one; it asks at most once for the kill
/// marker, and only after it asked for `Killed` to be written.
pub proof fn lemma_reader_run(state: ReaderState, events: Seq<ReaderEvent>)
    ensures
        status_writes(reader_run(state, events)).len() <= 1,
        !before_write(state) ==> status_writes(reader_run(state, events)).len() == 0,
        forall|i: int|
            0 <= i < status_writes(reader_run(state, events)).len() ==> (#[trigger] status_writes(
                reader_run(state, events),
            )[i]).is_terminal(),
        marker_sends(reader_run(state, events)) <= 1,
        !before_write(state) && state != ReaderState::AwaitKilledWritten ==> marker_sends(
            reader_run(state, events),
        ) == 0,
        before_write(state) && marker_sends(reader_run(state, events)) == 1 ==> status_writes(
            reader_run(state, events),
        ) == seq![ServiceStatus::Killed],
    decreases events.len(),
{
    if events.len() > 0 {
        let (next, action) = reader_step(state, events[0]);
        let rest = reader_run(next, events.skip(1));
        lemma_reader_run(next, events.skip(1));
        lemma_first_action(action, rest);
        let run = reader_run(state, events);
        assert(run == seq![action] + rest);
        match action {
            ReaderAction::WriteStatus(status) => {
                assert(status_writes(run) == seq![status] + status_writes(rest));
                assert(status_writes(rest).len() == 0);
                assert(status_writes(run) =~= seq![status]);
                assert(marker_sends(run) == marker_sends(rest));
            },
            ReaderAction::SendMarker => {
                assert(status_writes(run) == status_writes(rest));
                assert(marker_sends(run) == 1 + marker_sends(rest));
            },
            _ => {
                assert(status_writes(run) == status_writes(rest));
                assert(marker_sends(run) == marker_sends(rest));
            },
        }
    }
}

/// From its start a reader asks at most once for a run state to be written,
/// and then for a terminal one: a run has at most one terminal state.
pub proof fn lemma_one_terminal_status(events: Seq<ReaderEvent>)
    ensures
        status_writes(reader_run(ReaderState::Idle, events)).len() <= 1,
        forall|i: int|
            0 <= i < status_writes(reader_run(ReaderState::Idle, events)).len()
                ==> (#[trigger] status_writes(reader_run(ReaderState::Idle, events))[i]).is_terminal(),
{
    lemma_reader_run(ReaderState::Idle, events);
}

/// From its start a reader asks at most once for the kill marker, and where
/// it does, `Killed` is the one run state that it asked to be written.
pub proof fn lemma_marker_once(events: Seq<ReaderEvent>)
    ensures
        marker_sends(reader_run(ReaderState::Idle, events)) <= 1,
        marker_sends(reader_run(ReaderState::Idle, events)) == 1 ==> status_writes(
            reader_run(ReaderState::Idle, events),
        ) == seq![ServiceStatus::Killed],
{
    lemma_reader_run(ReaderState::Idle, events);
}

/// A reader that finds termination requested, or the signal's sender gone,
/// stops the standard-error reader, ends the child, has `Killed` written,
/// sends the kill marker once and stops without an error, where the child
/// could be ended or had ended before and the two writes went through.
pub proof fn lemma_termination_branch(poll: SignalPoll, outcome: KillOutcome)
    requires
        poll != SignalPoll::Empty,
        !(outcome is Failed),
    ensures
        reader_run(
            ReaderState::AwaitSignal,
            seq![
                ReaderEvent::Signal(poll),
                ReaderEvent::StderrStopped,
                ReaderEvent::Kill(outcome),
                ReaderEvent::StatusWritten(true),
                ReaderEvent::Sent(true),
            ],
        ) == seq![
            ReaderAction::StopStderr,
            ReaderAction::KillChild,
            ReaderAction::WriteStatus(ServiceStatus::Killed),
            ReaderAction::SendMarker,
            ReaderAction::Finish(Ok(())),
        ],
{
    let e0 = ReaderEvent::Signal(poll);
    let e1 = ReaderEvent::StderrStopped;
    let e2 = ReaderEvent::Kill(outcome);
    let e3 = ReaderEvent::StatusWritten(true);
    let e4 = ReaderEvent::Sent(true);
    let ev0 = seq![e0, e1, e2, e3, e4];
    let ev1 = seq![e1, e2, e3, e4];
    let ev2 = seq![e2, e3, e4];
    let ev3 = seq![e3, e4];
    let ev4 = seq![e4];
    assert(ev0.skip(1) =~= ev1);
    assert(ev1.skip(1) =~= ev2);
    assert(ev2.skip(1) =~= ev3);
    assert(ev3.skip(1) =~= ev4);
    assert(ev4.skip(1) =~= Seq::<ReaderEvent>::empty());
    assert(reader_run(ReaderState::Done, Seq::<ReaderEvent>::empty()) =~= Seq::<ReaderAction>::empty());
    assert(reader_run(ReaderState::AwaitMarkerSent, ev4) =~= seq![ReaderAction::Finish(Ok(()))]);
    assert(reader_run(ReaderState::AwaitKilledWritten, ev3) =~= seq![
        ReaderAction::SendMarker,
        ReaderAction::Finish(Ok(())),
    ]);
    assert(reader_run(ReaderState::AwaitKill, ev2) =~= seq![
        ReaderAction::WriteStatus(ServiceStatus::Killed),
        ReaderAction::SendMarker,
        ReaderAction::Finish(Ok(())),
    ]);
    assert(reader_run(ReaderState::AwaitStderrStopped, ev1) =~= seq![
        ReaderAction::KillChild,
        ReaderAction::WriteStatus(ServiceStatus::Killed),
        ReaderAction::SendMarker,
        ReaderAction::Finish(Ok(())),
    ]);
    assert(reader_run(ReaderState::AwaitSignal, ev0) =~= seq![
        ReaderAction::StopStderr,
        ReaderAction::KillChild,
        ReaderAction::WriteStatus(ServiceStatus::Killed),
        ReaderAction::SendMarker,
        ReaderAction::Finish(Ok(())),
    ]);
}

/// The reader is about to end the child or has done so.
pub open spec fn in_kill_branch(state: ReaderState) -> bool {
    match state {
        ReaderState::AwaitStderrStopped
        | ReaderState::AwaitKill
        | ReaderState::AwaitKilledWritten
        | ReaderState::AwaitMarkerSent => true,
        _ => false,
    }
}

/// No look at the termination signal in `events` found a request or the
/// sender gone.
pub open spec fn never_requested(events: Seq<ReaderEvent>) -> bool {
    forall|j: int|
        0 <= j < events.len() ==> (#[trigger] events[j] matches ReaderEvent::Signal(poll)
            ==> poll == SignalPoll::Empty)
}

/// A reader never stops the standard-error reader, ends the child or sends
/// the kill marker unless it found termination requested or the signal's
/// sender gone: a child that ends by itself is not killed, and `Killed` is
/// then written only for a child that ended without an exit code.
pub proof fn lemma_no_kill_without_request(state: ReaderState, events: Seq<ReaderEvent>)
    requires
        !in_kill_branch(state),
        never_requested(events),
    ensures
        reader_run(state, events).len() == events.len(),
        forall|k: int|
            0 <= k < events.len() ==> {
                let action = #[trigger] reader_run(state, events)[k];
                &&& action !is StopStderr
                &&& action !is KillChild
                &&& action !is SendMarker
                &&& action == ReaderAction::WriteStatus(ServiceStatus::Killed) ==> events[k]
                    == ReaderEvent::Probed(ExitProbe::Exited(None))
            },
    decreases events.len(),
{
    if events.len() > 0 {
        let (next, action) = reader_step(state, events[0]);
        let rest = events.skip(1);
        assert(events[0] matches ReaderEvent::Signal(poll) ==> poll == SignalPoll::Empty);
        assert forall|j: int| 0 <= j < rest.len() implies (#[trigger] rest[j] matches ReaderEvent::Signal(
            poll,
        ) ==> poll == SignalPoll::Empty) by {
            assert(rest[j] == events[j + 1]);
        }
        lemma_no_kill_without_request(next, rest);
        lemma_first_action(action, reader_run(next, rest));
        let run = reader_run(state, events);
        assert forall|k: int| 0 <= k < events.len() implies {
            let action = #[trigger] run[k];
            &&& action !is StopStderr
            &&& action !is KillChild
            &&& action !is SendMarker
            &&& action == ReaderAction::WriteStatus(ServiceStatus::Killed) ==> events[k]
                == ReaderEvent::Probed(ExitProbe::Exited(None))
        } by {
            if k > 0 {
                assert(run[k] == reader_run(next, rest)[k - 1]);
                assert(rest[k - 1] == events[k]);
            }
        }
    }
}

/// Where a child is found to have ended by itself, the run state asked to be
/// written goes by its exit code.
pub proof fn lemma_exit_status(code: Option<i32>)
    ensures
        reader_step(ReaderState::AwaitProbe, ReaderEvent::Probed(ExitProbe::Exited(code)))
            == (ReaderState::AwaitExitWritten, ReaderAction::WriteStatus(status_of_exit(code))),
{
}

/// An output that has room for the kill marker ends with it once the
/// marker's chunk is drained.
pub proof fn lemma_marker_ends_output(buffer: Seq<u8>)
    requires
        buffer.len() + kill_marker().len() <= OUTPUT_CAP,
    ensures
        appended(buffer, kill_marker()) == buffer + kill_marker(),
        appended(buffer, kill_marker()).skip(buffer.len() as int) == kill_marker(),
{
    lemma_appended_ends_with(buffer, kill_marker());
}

/// The reader of standard error never asks for a run state to be written,
/// for the child to be ended or for the kill marker: the reader of standard
/// output alone writes the terminal state of a run.
pub proof fn lemma_stderr_reader_only_forwards(state: StderrState, event: ReaderEvent)
    ensures
        ({
            let action = stderr_step(state, event).1;
            ||| action is PollSignal
            ||| action is ReadPipe
            ||| action is ForwardChunk
            ||| action is Log
            ||| action is Finish
        }),
{
}

} // verus!
