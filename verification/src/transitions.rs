//! What each operation of the supervisor does to its state, as functions on
//! views, and what holds of every sequence of operations.

use crate::command::{Command, CommandView, Key, SpawnRequestView, StdioMode};
use crate::config::Service as ServiceConfig;
use crate::error::SmError;
use crate::model::{AppView, ServiceView};
use crate::output::{appended, chunk_views, drained};
use crate::status::{changes, kept_or_stepped, lemma_changes_are_run_history, run_history, ServiceStatus};
use std::sync::mpsc::Sender;
use vstd::prelude::*;

verus! {

/// Whether `service` is the entry made of one entry of the configuration:
/// not started, with nothing captured, in `current_dir` where the entry
/// names no directory, with no variables where it names none.
pub open spec fn configured(
    service: ServiceView,
    name: String,
    entry: ServiceConfig,
    current_dir: Seq<char>,
) -> bool {
    &&& service.command == entry.command@
    &&& service.name == name@
    &&& service.workdir == match entry.workdir {
        Some(dir) => dir@,
        None => current_dir,
    }
    &&& service.env == match entry.env {
        Some(env) => env@,
        None => Map::empty(),
    }
    &&& service.status == ServiceStatus::NotStarted
    &&& service.output == Seq::<u8>::empty()
}

/// Whether every entry names its working directory.
pub open spec fn all_have_workdir(config: Seq<(String, ServiceConfig)>) -> bool {
    forall|i: int| 0 <= i < config.len() ==> (#[trigger] config[i]).1.workdir.is_some()
}

/// The service that a request to start or to kill is about: the one shown
/// in full, else the highlighted row; none where that is no service.
pub open spec fn target(v: AppView) -> Option<usize> {
    let chosen = match v.selected {
        Some(index) => Some(index),
        None => v.row,
    };
    match chosen {
        Some(index) => if index < v.services.len() {
            Some(index)
        } else {
            None
        },
        None => None,
    }
}

/// The row that is highlighted after a step down from `row` in a table of
/// `len` rows: the next one, the first one after the last.
pub open spec fn row_below(row: Option<usize>, len: nat) -> usize {
    match row {
        Some(i) => if i + 1 >= len {
            0
        } else {
            (i + 1) as usize
        },
        None => 0,
    }
}

/// The row that is highlighted after a step up from `row` in a table of
/// `len` rows: the one before, the last one before the first.
pub open spec fn row_above(row: Option<usize>, len: nat) -> usize {
    match row {
        Some(i) => if i == 0 {
            if len == 0 {
                0
            } else {
                (len - 1) as usize
            }
        } else {
            (i - 1) as usize
        },
        None => 0,
    }
}

/// Whether `index` names a service that is not running.
pub open spec fn startable(v: AppView, index: usize) -> bool {
    index < v.services.len() && v.services[index as int].status != ServiceStatus::Running
}

/// The state after the start of service `index` was asked for: its output is
/// dropped, unless it is running or there is no such service.
pub open spec fn after_start_request(v: AppView, index: usize) -> AppView {
    if startable(v, index) {
        AppView {
            services: v.services.update(
                index as int,
                ServiceView { output: Seq::empty(), ..v.services[index as int] },
            ),
            ..v
        }
    } else {
        v
    }
}

/// The child to spawn for service `index`: a shell that runs the command, in
/// the service's directory, with its variables, every standard stream piped.
pub open spec fn spawn_request(service: ServiceView, index: usize) -> SpawnRequestView {
    SpawnRequestView {
        index,
        program: "sh"@,
        args: seq!["-c"@, service.command],
        workdir: service.workdir,
        env: service.env,
        stdin: StdioMode::Piped,
        stdout: StdioMode::Piped,
        stderr: StdioMode::Piped,
    }
}

/// The state after the child of service `index` was spawned: the service
/// runs and `terminate` is its termination signal. Nothing changes where the
/// service runs already or does not exist.
pub open spec fn after_spawn(v: AppView, index: usize, terminate: Sender<()>) -> AppView {
    if startable(v, index) {
        AppView {
            services: v.services.update(
                index as int,
                ServiceView { status: ServiceStatus::Running, ..v.services[index as int] },
            ),
            terminates: v.terminates.insert(index, terminate),
            ..v
        }
    } else {
        v
    }
}

/// Whether `status` may be recorded as the end of the run of service `index`.
pub open spec fn finishable(v: AppView, index: usize, status: ServiceStatus) -> bool {
    &&& index < v.services.len()
    &&& v.services[index as int].status == ServiceStatus::Running
    &&& status.is_terminal()
}

/// The state after the run of service `index` ended with `status`.
pub open spec fn after_finish(v: AppView, index: usize, status: ServiceStatus) -> AppView {
    if finishable(v, index, status) {
        AppView {
            services: v.services.update(
                index as int,
                ServiceView { status, ..v.services[index as int] },
            ),
            ..v
        }
    } else {
        v
    }
}

/// The state after `bytes` arrived as one chunk for service `index`.
pub open spec fn after_chunk(v: AppView, index: usize, bytes: Seq<u8>) -> AppView {
    if index < v.services.len() {
        AppView {
            services: v.services.update(
                index as int,
                ServiceView {
                    output: appended(v.services[index as int].output, bytes),
                    ..v.services[index as int]
                },
            ),
            ..v
        }
    } else {
        v
    }
}

/// The chunks that arrived for service `i`; none where `pending` is too short.
pub open spec fn arrived(pending: Seq<Seq<Seq<u8>>>, i: int) -> Seq<Seq<u8>> {
    if 0 <= i < pending.len() {
        pending[i]
    } else {
        Seq::empty()
    }
}

/// The state after the chunks in `pending` were drained, those at place `i`
/// into the output of service `i`.
pub open spec fn after_drain(v: AppView, pending: Seq<Seq<Seq<u8>>>) -> AppView {
    AppView {
        services: Seq::new(
            v.services.len(),
            |i: int|
                ServiceView {
                    output: drained(v.services[i].output, arrived(pending, i)),
                    ..v.services[i]
                },
        ),
        ..v
    }
}

/// The chunks as byte sequences.
pub open spec fn pending_views(pending: Seq<Vec<Vec<u8>>>) -> Seq<Seq<Seq<u8>>> {
    pending.map_values(|chunks: Vec<Vec<u8>>| chunk_views(chunks@))
}

/// What a request to kill service `index` comes to: whether its termination
/// signal is to be sent. Nothing is sent where the service does not run or
/// there is no such service; a running service without a registered signal
/// is an error.
pub open spec fn kill_decision_at(v: AppView, index: usize) -> Result<bool, SmError> {
    if index >= v.services.len() || v.services[index as int].status != ServiceStatus::Running {
        Ok(false)
    } else if !v.terminates.contains_key(index) {
        Err(SmError::Bug("Child termination channel not found"))
    } else {
        Ok(true)
    }
}

/// What a request to kill the service aimed at comes to: the service whose
/// signal is to be sent, if any.
pub open spec fn kill_decision(v: AppView) -> Result<Option<usize>, SmError> {
    match target(v) {
        None => Ok(None),
        Some(index) => match kill_decision_at(v, index) {
            Ok(send) => Ok(
                if send {
                    Some(index)
                } else {
                    None
                },
            ),
            Err(e) => Err(e),
        },
    }
}

/// Whether `sent` is what a request to kill gives where it comes to
/// `decision`: the decision itself, but for a signal that could not be sent,
/// which is an error.
pub open spec fn sent_as_decided(sent: Result<bool, SmError>, decision: Result<bool, SmError>) -> bool {
    match decision {
        Ok(send) => {
            ||| sent == Ok::<bool, SmError>(send)
            ||| send && sent == Err::<bool, SmError>(
                SmError::Bug("Failed to send termination signal to child process"),
            )
        },
        Err(e) => sent == Err::<bool, SmError>(e),
    }
}

/// Whether service `index` runs and has a termination signal registered.
pub open spec fn to_terminate(v: AppView, index: int) -> bool {
    &&& 0 <= index < v.services.len()
    &&& v.services[index].status == ServiceStatus::Running
    &&& v.terminates.contains_key(index as usize)
}

/// The state after `key` was pressed.
pub open spec fn after_key(v: AppView, key: Key) -> AppView {
    match key {
        Key::Char(c) => if c == 'q' {
            AppView { selected: None, ..v }
        } else if c == 'r' {
            match target(v) {
                Some(index) => after_start_request(v, index),
                None => v,
            }
        } else {
            v
        },
        Key::Down => match v.selected {
            Some(_) => AppView { scroll_pos: scrolled_down(v.scroll_pos), ..v },
            None => AppView { row: Some(row_below(v.row, v.services.len())), ..v },
        },
        Key::Up => match v.selected {
            Some(_) => AppView { scroll_pos: scrolled_up(v.scroll_pos), ..v },
            None => AppView { row: Some(row_above(v.row, v.services.len())), ..v },
        },
        Key::Enter => after_select(v),
        Key::Esc => AppView { selected: None, ..v },
        Key::Other => v,
    }
}

/// What `key` comes to in state `v`: what is done, or what the caller has to do.
pub open spec fn key_command(v: AppView, key: Key) -> Result<CommandView, SmError> {
    match key {
        Key::Char(c) => if c == 'q' {
            if v.selected.is_none() {
                Ok(CommandView::Quit)
            } else {
                Ok(CommandView::Continue)
            }
        } else if c == 'r' {
            match target(v) {
                Some(index) => if startable(v, index) {
                    Ok(CommandView::Spawn(spawn_request(v.services[index as int], index)))
                } else {
                    Ok(CommandView::Continue)
                },
                None => Ok(CommandView::Continue),
            }
        } else if c == 'k' {
            match kill_decision(v) {
                Ok(Some(index)) => Ok(CommandView::Terminated(index)),
                Ok(None) => Ok(CommandView::Continue),
                Err(e) => Err(e),
            }
        } else {
            Ok(CommandView::Continue)
        },
        _ => Ok(CommandView::Continue),
    }
}

/// The scroll position one line further up; it stays at the largest number.
pub open spec fn scrolled_up(pos: Option<usize>) -> Option<usize> {
    match pos {
        Some(p) => Some(if p < usize::MAX {
            (p + 1) as usize
        } else {
            p
        }),
        None => None,
    }
}

/// The scroll position one line further down; it stays at 0.
pub open spec fn scrolled_down(pos: Option<usize>) -> Option<usize> {
    match pos {
        Some(p) => Some(if p > 0 {
            (p - 1) as usize
        } else {
            p
        }),
        None => None,
    }
}

/// The state after the highlighted row was opened: it is shown in full,
/// where the table was shown and a row was highlighted.
pub open spec fn after_select(v: AppView) -> AppView {
    if v.selected.is_none() && v.row.is_some() {
        AppView { selected: v.row, ..v }
    } else {
        v
    }
}

/// The state after the supervisor looked at the run state of the service
/// aimed at and found `seen`: the run of a service that it held to be running
/// has ended if `seen` is terminal.
pub open spec fn after_look(v: AppView, seen: ServiceStatus) -> AppView {
    match target(v) {
        Some(index) => after_finish(v, index, seen),
        None => v,
    }
}

/// A service after a look at the run state that its readers share: its run
/// has ended where the look saw a terminal state and the service was held to
/// be running; a look that failed changes nothing.
pub open spec fn looked_at(service: ServiceView, seen: Result<ServiceStatus, SmError>) -> ServiceView {
    match seen {
        Ok(status) => if service.status == ServiceStatus::Running && status.is_terminal() {
            ServiceView { status, ..service }
        } else {
            service
        },
        Err(_) => service,
    }
}

/// The state after a look at the run state of every service, where the look
/// at service `i` came to `seen[i]`.
pub open spec fn after_looks(v: AppView, seen: Seq<Result<ServiceStatus, SmError>>) -> AppView {
    AppView {
        services: Seq::new(
            v.services.len(),
            |i: int|
                if i < seen.len() {
                    looked_at(v.services[i], seen[i])
                } else {
                    v.services[i]
                },
        ),
        ..v
    }
}

/// Whether `after` is `before` but for runs that have ended: a service that
/// ran may be in a terminal state, and nothing else differs.
pub open spec fn runs_ended(before: AppView, after: AppView) -> bool {
    &&& after.services.len() == before.services.len()
    &&& after.row == before.row
    &&& after.selected == before.selected
    &&& after.scroll_pos == before.scroll_pos
    &&& after.terminates == before.terminates
    &&& forall|i: int|
        0 <= i < before.services.len() ==> {
            ||| #[trigger] after.services[i] == before.services[i]
            ||| before.services[i].status == ServiceStatus::Running
                && after.services[i].status.is_terminal() && after.services[i] == (ServiceView {
                status: after.services[i].status,
                ..before.services[i]
            })
        }
}

/// Whether `outcome` is what handling a key gives where the key comes to
/// `decision`: the decision itself, but for a termination request that could
/// not be sent, which is an error.
pub open spec fn carried_out(
    outcome: Result<Command, SmError>,
    decision: Result<CommandView, SmError>,
) -> bool {
    match decision {
        Ok(view) => {
            ||| outcome matches Ok(command) && command@ == view
            ||| view is Terminated && outcome == Err::<Command, SmError>(
                SmError::Bug("Failed to send termination signal to child process"),
            )
        },
        Err(e) => outcome == Err::<Command, SmError>(e),
    }
}

/// Whether handling `key` looks at the run state of the service aimed at first.
pub open spec fn looks_first(key: Key) -> bool {
    key == Key::Char('r') || key == Key::Char('k')
}

/// One thing that changes the supervisor's state.
pub enum Transition {
    /// A key was pressed.
    Key(Key),
    /// The start of a service was asked for.
    StartRequest(usize),
    /// The child of a service was spawned, with this termination signal.
    Spawned(usize, Sender<()>),
    /// The reader of a service wrote this terminal state.
    Finished(usize, ServiceStatus),
    /// One chunk arrived for a service.
    Chunk(usize, Seq<u8>),
    /// Chunks were drained.
    Drained(Seq<Seq<Seq<u8>>>),
}

/// The state after one transition.
pub open spec fn apply(v: AppView, transition: Transition) -> AppView {
    match transition {
        Transition::Key(key) => after_key(v, key),
        Transition::StartRequest(index) => after_start_request(v, index),
        Transition::Spawned(index, terminate) => after_spawn(v, index, terminate),
        Transition::Finished(index, status) => after_finish(v, index, status),
        Transition::Chunk(index, bytes) => after_chunk(v, index, bytes),
        Transition::Drained(pending) => after_drain(v, pending),
    }
}

/// The state after the transitions, one after the other.
pub open spec fn reach(v: AppView, transitions: Seq<Transition>) -> AppView
    decreases transitions.len(),
{
    if transitions.len() == 0 {
        v
    } else {
        apply(reach(v, transitions.drop_last()), transitions.last())
    }
}

/// The run state of service `i` at the start and after each transition.
pub open spec fn status_trace(v: AppView, transitions: Seq<Transition>, i: int) -> Seq<
    ServiceStatus,
> {
    Seq::new(
        transitions.len() + 1,
        |k: int| reach(v, transitions.take(k)).services[i].status,
    )
}

/// A transition leaves the number of services as it is, and each service in
/// the run state it was in or one legal step on. Only the report of a spawn
/// makes a service run, and only the end of its run, as its reader wrote
/// it, takes a running service out of `Running`.
pub proof fn lemma_transition_is_gradual(v: AppView, transition: Transition, i: int)
    requires
        0 <= i < v.services.len(),
    ensures
        apply(v, transition).services.len() == v.services.len(),
        kept_or_stepped(v.services[i].status, apply(v, transition).services[i].status),
        apply(v, transition).services[i].status != v.services[i].status ==> {
            ||| transition matches Transition::Spawned(index, _) && index == i && apply(
                v,
                transition,
            ).services[i].status == ServiceStatus::Running
            ||| transition matches Transition::Finished(index, status) && index == i && apply(
                v,
                transition,
            ).services[i].status == status && v.services[i].status == ServiceStatus::Running
        },
{
}

/// A start asked for a running service changes nothing: no child is to be
/// spawned, and the termination signals registered stay as they are. The
/// report of a spawn for a running service changes nothing either.
pub proof fn lemma_start_of_running_is_noop(v: AppView, index: usize, terminate: Sender<()>)
    requires
        index < v.services.len(),
        v.services[index as int].status == ServiceStatus::Running,
    ensures
        !startable(v, index),
        after_start_request(v, index) == v,
        after_spawn(v, index, terminate) == v,
        target(v) == Some(index) ==> after_key(v, Key::Char('r')) == v && key_command(
            v,
            Key::Char('r'),
        ) == Ok::<CommandView, SmError>(CommandView::Continue),
{
}

/// A request to kill a service that does not run changes nothing and sends
/// nothing.
pub proof fn lemma_kill_of_stopped_is_noop(v: AppView, index: usize)
    requires
        index < v.services.len() ==> v.services[index as int].status != ServiceStatus::Running,
    ensures
        kill_decision_at(v, index) == Ok::<bool, SmError>(false),
        forall|sent: Result<bool, SmError>|
            sent_as_decided(sent, kill_decision_at(v, index)) ==> sent == Ok::<bool, SmError>(
                false,
            ),
        target(v) == Some(index) ==> {
            &&& kill_decision(v) == Ok::<Option<usize>, SmError>(None)
            &&& after_key(v, Key::Char('k')) == v
            &&& key_command(v, Key::Char('k')) == Ok::<CommandView, SmError>(CommandView::Continue)
        },
{
}

proof fn lemma_reach_len(v: AppView, transitions: Seq<Transition>)
    ensures
        reach(v, transitions).services.len() == v.services.len(),
    decreases transitions.len(),
{
    if transitions.len() > 0 {
        lemma_reach_len(v, transitions.drop_last());
        let before = reach(v, transitions.drop_last());
        if before.services.len() > 0 {
            lemma_transition_is_gradual(before, transitions.last(), 0);
        } else {
            assert(apply(before, transitions.last()).services.len() == 0);
        }
    }
}

/// Whatever happens to the supervisor, a service that has not been started
/// shows to an observer `NotStarted`, then for each run `Running` followed
/// by one terminal state: `Running` never follows `Running`.
pub proof fn lemma_run_history(v: AppView, transitions: Seq<Transition>, i: int)
    requires
        0 <= i < v.services.len(),
        v.services[i].status == ServiceStatus::NotStarted,
    ensures
        run_history(changes(status_trace(v, transitions, i))),
{
    let trace = status_trace(v, transitions, i);
    assert(transitions.take(0) =~= Seq::<Transition>::empty());
    assert(trace[0] == ServiceStatus::NotStarted);
    assert forall|k: int| 0 <= k < trace.len() - 1 implies kept_or_stepped(
        #[trigger] trace[k],
        trace[k + 1],
    ) by {
        let before = reach(v, transitions.take(k));
        lemma_reach_len(v, transitions.take(k));
        assert(transitions.take(k + 1).drop_last() =~= transitions.take(k));
        assert(transitions.take(k + 1).last() == transitions[k]);
        lemma_transition_is_gradual(before, transitions[k], i);
    }
    lemma_changes_are_run_history(trace);
}

/// A look at the run state of the service aimed at leaves every service in
/// the state it was in, or ends the run of one that ran.
pub proof fn lemma_look_ends_runs(v: AppView, seen: ServiceStatus)
    ensures
        runs_ended(v, after_look(v, seen)),
{
}

/// Where runs have ended and nothing else has changed, every service is in
/// the run state it was in or one legal step on.
pub proof fn lemma_runs_ended_is_gradual(before: AppView, after: AppView, i: int)
    requires
        runs_ended(before, after),
        0 <= i < before.services.len(),
    ensures
        kept_or_stepped(before.services[i].status, after.services[i].status),
{
    assert(after.services[i] == before.services[i] || (before.services[i].status
        == ServiceStatus::Running && after.services[i].status.is_terminal()));
}

/// A look at the run state of every service ends runs and changes nothing else.
pub proof fn lemma_looks_end_runs(v: AppView, seen: Seq<Result<ServiceStatus, SmError>>)
    ensures
        runs_ended(v, after_looks(v, seen)),
{
}

} // verus!
