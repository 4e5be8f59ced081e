//! The operations of the supervisor: what the user's keys, the spawning of
//! children and the readers' reports do to the registry.

use crate::command::{Command, Key, SpawnRequest, StdioMode};
use crate::config::{Config, Service as ServiceConfig};
use crate::error::{SmError, SmResult};
use crate::model::{
    chunk_bytes, make_chunk, service_views, App, AppState, AppView, Service, ServiceView,
    StdIoStream, StdioSendBuf, TableState,
};
use crate::output::{chunk_views, drained, OutputBuffer};
use crate::reader::STDIO_SEND_BUF_SIZE;
use crate::status::ServiceStatus;
use crate::sync::{channel, duration_nanos, elapsed, load, new_mutex, now, send, store, try_recv};
use crate::transitions::{
    after_chunk, after_drain, after_finish, after_key, after_look, after_looks, after_select,
    after_spawn, looked_at,
    after_start_request, all_have_workdir, arrived, carried_out, configured,
    finishable, key_command, kill_decision, kill_decision_at, looks_first, pending_views,
    row_above, row_below, sent_as_decided,
    runs_ended, scrolled_down, scrolled_up, spawn_request, startable, target, to_terminate,
};
use std::collections::HashMap;
use std::sync::mpsc::{Receiver, Sender};
use std::sync::Arc;
use std::time::Duration;
use vstd::prelude::*;
use vstd::slice::slice_subrange;
use vstd::string::*;

verus! {

broadcast use vstd::std_specs::hash::group_hash_axioms;

fn entry_service(name: &String, entry: &ServiceConfig, current_dir: &String) -> (service: Service)
    ensures
        configured(service@, *name, *entry, current_dir@),
{
    let workdir = match &entry.workdir {
        Some(dir) => dir.clone(),
        None => current_dir.clone(),
    };
    let env = match &entry.env {
        Some(env) => env.clone(),
        None => HashMap::new(),
    };
    let (send, recv) = channel();
    Service {
        command: entry.command.clone(),
        name: name.clone(),
        workdir,
        env,
        status: Arc::new(new_mutex(ServiceStatus::NotStarted)),
        observed: ServiceStatus::NotStarted,
        output: OutputBuffer::new(),
        stdout: StdIoStream { recv, send },
    }
}

fn missing_workdir(config: &Config) -> (missing: bool)
    ensures
        missing == !all_have_workdir(config@),
{
    let mut i: usize = 0;
    while i < config.len()
        invariant
            i <= config.len(),
            forall|j: int| 0 <= j < i ==> (#[trigger] config@[j]).1.workdir.is_some(),
        decreases config.len() - i,
    {
        if config[i].1.workdir.is_none() {
            return true;
        }
        i = i + 1;
    }
    false
}

impl App {
    /// The supervisor's state for the services of `config`, in its order:
    /// none started, nothing captured, the table shown with no row
    /// highlighted. A service without a working directory gets
    /// `current_dir`; where that is an error and some service needs it, the
    /// error's description comes back as an `Io` error.
    pub fn new(config: Config, current_dir: Result<String, String>) -> (made: Result<App, SmError>)
        ensures
            made.is_ok() <==> (current_dir.is_ok() || all_have_workdir(config@)),
            made matches Ok(app) ==> {
                &&& app@.services.len() == config@.len()
                &&& forall|i: int|
                    0 <= i < config@.len() ==> configured(
                        #[trigger] app@.services[i],
                        config@[i].0,
                        config@[i].1,
                        match current_dir {
                            Ok(dir) => dir@,
                            Err(_) => Seq::empty(),
                        },
                    )
                &&& app@.row.is_none()
                &&& app@.selected.is_none()
                &&& app@.scroll_pos.is_none()
                &&& app@.terminates == Map::<usize, Sender<()>>::empty()
            },
            made matches Err(e) ==> current_dir matches Err(description) && e == SmError::Io(
                description,
            ),
    {
        let fallback = match current_dir {
            Ok(dir) => dir,
            Err(description) => {
                if missing_workdir(&config) {
                    return Err(SmError::Io(description));
                }
                String::new()
            },
        };
        let mut services: Vec<Service> = Vec::new();
        let mut i: usize = 0;
        while i < config.len()
            invariant
                i <= config.len(),
                services@.len() == i,
                forall|j: int|
                    0 <= j < i ==> configured(
                        #[trigger] service_views(services@)[j],
                        config@[j].0,
                        config@[j].1,
                        fallback@,
                    ),
            decreases config.len() - i,
        {
            let service = entry_service(&config[i].0, &config[i].1, &fallback);
            let ghost before = services@;
            services.push(service);
            i = i + 1;
            proof {
                assert forall|j: int| 0 <= j < i implies configured(
                    #[trigger] service_views(services@)[j],
                    config@[j].0,
                    config@[j].1,
                    fallback@,
                ) by {
                    if j < i - 1 {
                        assert(services@[j] == before[j]);
                        assert(service_views(before)[j] == before[j]@);
                    }
                }
            }
        }
        let app = App {
            table: AppState { table_state: TableState::new(), services },
            selected: None,
            scroll_pos: None,
            thread_terminates: HashMap::new(),
        };
        proof {
            assert forall|j: int| 0 <= j < config@.len() implies configured(
                #[trigger] app@.services[j],
                config@[j].0,
                config@[j].1,
                match current_dir {
                    Ok(dir) => dir@,
                    Err(_) => Seq::empty(),
                },
            ) by {
                if current_dir.is_err() {
                    assert(config@[j].1.workdir.is_some());
                }
            }
        }
        Ok(app)
    }

    /// Whether the table is shown, and no service in full.
    pub fn is_table(&self) -> (table: bool)
        ensures
            table == self@.selected.is_none(),
    {
        self.selected.is_none()
    }

    /// The run state of service `index`.
    pub fn status(&self, index: usize) -> (status: Option<ServiceStatus>)
        ensures
            status == if index < self@.services.len() {
                Some(self@.services[index as int].status)
            } else {
                None
            },
    {
        if index < self.table.services.len() {
            Some(self.table.services[index].observed)
        } else {
            None
        }
    }

    /// The service that a request to start or to kill is about.
    pub fn target(&self) -> (index: Option<usize>)
        ensures
            index == target(self@),
    {
        let chosen = match self.selected {
            Some(index) => Some(index),
            None => self.table.table_state.selected(),
        };
        match chosen {
            Some(index) => if index < self.table.services.len() {
                Some(index)
            } else {
                None
            },
            None => None,
        }
    }

    /// Shows the highlighted service in full, where the table is shown and a
    /// row is highlighted.
    pub fn select_service(&mut self)
        ensures
            final(self)@ == after_select(old(self)@),
    {
        if self.is_table() {
            if let Some(selected) = self.table.table_state.selected() {
                self.selected = Some(selected);
            }
        }
    }

    /// Goes back to the table.
    pub fn leave_service(&mut self)
        ensures
            final(self)@ == (AppView { selected: None, ..old(self)@ }),
    {
        self.selected = None;
    }

    /// Highlights the next row; the first one after the last, or where none
    /// was highlighted.
    pub fn next(&mut self)
        ensures
            final(self)@ == (AppView {
                row: Some(row_below(old(self)@.row, old(self)@.services.len())),
                ..old(self)@
            }),
    {
        let len = self.table.services.len();
        let i: usize = match self.table.table_state.selected() {
            Some(i) => if len == 0 || i >= len - 1 {
                0
            } else {
                i + 1
            },
            None => 0,
        };
        self.table.table_state.select(Some(i));
    }

    /// Highlights the row before; the last one before the first, the first
    /// one where none was highlighted.
    pub fn previous(&mut self)
        ensures
            final(self)@ == (AppView {
                row: Some(row_above(old(self)@.row, old(self)@.services.len())),
                ..old(self)@
            }),
    {
        let len = self.table.services.len();
        let i: usize = match self.table.table_state.selected() {
            Some(i) => if i == 0 {
                if len == 0 {
                    0
                } else {
                    len - 1
                }
            } else {
                i - 1
            },
            None => 0,
        };
        self.table.table_state.select(Some(i));
    }

    /// Moves the scroll position up by one line.
    pub fn scroll_up(&mut self)
        ensures
            final(self)@ == (AppView { scroll_pos: scrolled_up(old(self)@.scroll_pos), ..old(self)@ }),
    {
        self.scroll_pos = match self.scroll_pos {
            Some(pos) => Some(if pos < usize::MAX {
                pos + 1
            } else {
                pos
            }),
            None => None,
        };
    }

    /// Moves the scroll position down by one line.
    pub fn scroll_down(&mut self)
        ensures
            final(self)@ == (AppView {
                scroll_pos: scrolled_down(old(self)@.scroll_pos),
                ..old(self)@
            }),
    {
        self.scroll_pos = match self.scroll_pos {
            Some(pos) => Some(if pos > 0 {
                pos - 1
            } else {
                pos
            }),
            None => None,
        };
    }

    /// Asks for the start of service `index`. Where the service runs, or
    /// there is none, nothing happens and nothing is to be spawned.
    /// Otherwise the service's output is dropped and the child to spawn
    /// comes back; the caller spawns it and reports with `spawn_succeeded`
    /// or `spawn_failed`.
    pub fn start_service(&mut self, index: usize) -> (request: Option<SpawnRequest>)
        ensures
            final(self)@ == after_start_request(old(self)@, index),
            request.is_some() == startable(old(self)@, index),
            request matches Some(r) ==> r@ == spawn_request(old(self)@.services[index as int], index),
            !startable(old(self)@, index) ==> request.is_none() && final(self)@ == old(self)@,
    {
        if index >= self.table.services.len() {
            return None;
        }
        if self.table.services[index].observed == ServiceStatus::Running {
            return None;
        }
        self.table.services[index].output.clear();
        let service = &self.table.services[index];
        let mut args: Vec<String> = Vec::new();
        args.push(String::from_str("-c"));
        args.push(service.command.clone());
        let request = SpawnRequest {
            index,
            program: String::from_str("sh"),
            args,
            workdir: service.workdir.clone(),
            env: service.env.clone(),
            stdin: StdioMode::Piped,
            stdout: StdioMode::Piped,
            stderr: StdioMode::Piped,
        };
        proof {
            assert(self@.services =~= old(self)@.services.update(
                index as int,
                ServiceView { output: Seq::empty(), ..old(self)@.services[index as int] },
            ));
            assert(request@.args =~= seq!["-c"@, service.command@]);
        }
        Some(request)
    }

    /// Asks for the start of the service aimed at, if there is one, after a
    /// look at its run state. A poisoned lock is an error and changes nothing.
    pub fn run_service(&mut self) -> (request: Result<Option<SpawnRequest>, SmError>)
        ensures
            request matches Err(e) ==> e == SmError::MutexPoisoned && final(self)@ == old(self)@
                && target(old(self)@).is_some(),
            request matches Ok(spawn) ==> exists|seen: ServiceStatus|
                {
                    let looked = #[trigger] after_look(old(self)@, seen);
                    &&& final(self)@ == after_key(looked, Key::Char('r'))
                    &&& carried_out(
                        Ok(
                            match spawn {
                                Some(r) => Command::Spawn(r),
                                None => Command::Continue,
                            },
                        ),
                        key_command(looked, Key::Char('r')),
                    )
                },
    {
        match self.target() {
            Some(index) => {
                match self.sync_status(index) {
                    Err(e) => {
                        return Err(e);
                    },
                    Ok(seen) => {
                        assert(seen matches Some(status) && after_look(old(self)@, status)
                            == self@);
                    },
                }
                Ok(self.start_service(index))
            },
            None => {
                assert(after_look(old(self)@, ServiceStatus::NotStarted) == old(self)@);
                Ok(None)
            },
        }
    }

    /// Records that the child of service `index` was spawned: writes
    /// `Running` to the run state that the readers share, makes a new
    /// termination signal, registers its sender for the service and hands
    /// back its receiver, for the reader. Where the service runs already, or
    /// there is none, nothing changes and there is no receiver. A poisoned
    /// lock is an error and changes nothing.
    pub fn spawn_succeeded(&mut self, index: usize) -> (signal: Result<Option<Receiver<()>>, SmError>)
        ensures
            signal matches Err(e) ==> e == SmError::MutexPoisoned && final(self)@ == old(self)@
                && startable(old(self)@, index),
            signal matches Ok(None) ==> !startable(old(self)@, index) && final(self)@ == old(
                self,
            )@,
            signal matches Ok(Some(_)) ==> startable(old(self)@, index) && exists|
                terminate: Sender<()>,
            |
                final(self)@ == #[trigger] after_spawn(old(self)@, index, terminate),
    {
        if index >= self.table.services.len() {
            return Ok(None);
        }
        if self.table.services[index].observed == ServiceStatus::Running {
            return Ok(None);
        }
        if !store(&*self.table.services[index].status, ServiceStatus::Running) {
            return Err(SmError::MutexPoisoned);
        }
        self.table.services[index].observed = ServiceStatus::Running;
        let (terminate, signal) = channel();
        let ghost registered = terminate;
        self.thread_terminates.insert(index, terminate);
        proof {
            assert(self@.services =~= old(self)@.services.update(
                index as int,
                ServiceView {
                    status: ServiceStatus::Running,
                    ..old(self)@.services[index as int]
                },
            ));
            assert(self@ == after_spawn(old(self)@, index, registered));
        }
        Ok(Some(signal))
    }

    /// The chunk that shows the description of a failed spawn in the
    /// service's output. A description too long for one chunk gives the
    /// `Io` error of a write that could not take all bytes.
    pub fn failure_chunk(description: &str) -> (made: Result<StdioSendBuf, SmError>)
        ensures
            made.is_ok() <==> description.spec_bytes().len() <= STDIO_SEND_BUF_SIZE,
            made matches Ok(chunk) ==> chunk.1 == description.spec_bytes().len() && chunk_bytes(
                chunk,
            ) == description.spec_bytes(),
            made matches Err(e) ==> e matches SmError::Io(text) && text@
                == "failed to write whole buffer"@,
    {
        match make_chunk(description.as_bytes()) {
            Some(chunk) => Ok(chunk),
            None => Err(SmError::Io(String::from_str("failed to write whole buffer"))),
        }
    }

    /// Reports that the child of service `index` could not be spawned: sends
    /// the system's description into the service's output channel, as one
    /// chunk, and gives the error to return. The supervisor's state stays
    /// as it is.
    pub fn spawn_failed(&self, index: usize, description: String) -> (error: SmError)
        ensures
            vstd::utf8::encode_utf8(description@).len() > STDIO_SEND_BUF_SIZE ==> (error matches SmError::Io(
                text,
            ) && text@ == "failed to write whole buffer"@),
            vstd::utf8::encode_utf8(description@).len() <= STDIO_SEND_BUF_SIZE ==> (error
                == SmError::FailedToStartChild(description) || (error == SmError::FailedToSendStdio
                && index < self@.services.len())),
    {
        let chunk = match Self::failure_chunk(description.as_str()) {
            Ok(chunk) => chunk,
            Err(e) => {
                return e;
            },
        };
        if index < self.table.services.len() {
            if !send(&self.table.services[index].stdout.send, chunk) {
                return SmError::FailedToSendStdio;
            }
        }
        SmError::FailedToStartChild(description)
    }

    /// Decides a request to kill the service aimed at: the service whose
    /// termination signal is to be sent; nothing where no running service
    /// is aimed at; an error where a running service has no signal
    /// registered.
    pub fn kill_target(&self) -> (decision: Result<Option<usize>, SmError>)
        ensures
            decision == kill_decision(self@),
            decision matches Ok(Some(index)) ==> self@.terminates.contains_key(index),
    {
        match self.target() {
            None => Ok(None),
            Some(index) => {
                if self.table.services[index].observed != ServiceStatus::Running {
                    Ok(None)
                } else if !self.thread_terminates.contains_key(&index) {
                    Err(SmError::Bug("Child termination channel not found"))
                } else {
                    Ok(Some(index))
                }
            },
        }
    }

    /// Asks service `index` to end, after a look at its run state: sends on
    /// its termination signal where it runs, and says whether it sent. It
    /// sends nothing where the service does not run or there is no such
    /// service, and it does not wait for the service to end. A poisoned
    /// lock, a running service without a signal and a signal that cannot be
    /// sent are errors.
    pub fn kill(&mut self, index: usize) -> (sent: Result<bool, SmError>)
        ensures
            sent == Err::<bool, SmError>(SmError::MutexPoisoned) ==> final(self)@ == old(self)@
                && index < old(self)@.services.len(),
            sent != Err::<bool, SmError>(SmError::MutexPoisoned) ==> exists|seen: ServiceStatus|
                {
                    let looked = #[trigger] after_finish(old(self)@, index, seen);
                    &&& final(self)@ == looked
                    &&& sent_as_decided(sent, kill_decision_at(looked, index))
                },
    {
        match self.sync_status(index) {
            Err(e) => {
                return Err(e);
            },
            Ok(Some(status)) => {
                assert(self@ == after_finish(old(self)@, index, status));
            },
            Ok(None) => {
                assert(self@ == after_finish(old(self)@, index, ServiceStatus::NotStarted));
            },
        }
        if index >= self.table.services.len() {
            return Ok(false);
        }
        if self.table.services[index].observed != ServiceStatus::Running {
            return Ok(false);
        }
        match self.thread_terminates.get(&index) {
            None => Err(SmError::Bug("Child termination channel not found")),
            Some(terminate) => {
                if send(terminate, ()) {
                    Ok(true)
                } else {
                    Err(SmError::Bug("Failed to send termination signal to child process"))
                }
            },
        }
    }

    /// Asks the service aimed at to end, as `kill` does, and says which
    /// service a termination request was sent to, if any.
    pub fn kill_service(&mut self) -> (sent: Result<Option<usize>, SmError>)
        ensures
            sent == Err::<Option<usize>, SmError>(SmError::MutexPoisoned) ==> final(self)@ == old(
                self,
            )@ && target(old(self)@).is_some(),
            sent != Err::<Option<usize>, SmError>(SmError::MutexPoisoned) ==> exists|
                seen: ServiceStatus,
            |
                {
                    let looked = #[trigger] after_look(old(self)@, seen);
                    &&& final(self)@ == looked
                    &&& carried_out(
                        match sent {
                            Ok(Some(index)) => Ok(Command::Terminated(index)),
                            Ok(None) => Ok(Command::Continue),
                            Err(e) => Err(e),
                        },
                        key_command(looked, Key::Char('k')),
                    )
                },
    {
        match self.target() {
            Some(index) => {
                let sent = self.kill(index);
                proof {
                    if sent != Err::<bool, SmError>(SmError::MutexPoisoned) {
                        let seen = choose|seen: ServiceStatus|
                            self@ == after_finish(old(self)@, index, seen) && sent_as_decided(
                                sent,
                                kill_decision_at(after_finish(old(self)@, index, seen), index),
                            );
                        assert(after_look(old(self)@, seen) == self@);
                    }
                }
                match sent {
                    Ok(true) => Ok(Some(index)),
                    Ok(false) => Ok(None),
                    Err(e) => Err(e),
                }
            },
            None => {
                assert(after_look(old(self)@, ServiceStatus::NotStarted) == old(self)@);
                Ok(None)
            },
        }
    }

    /// The services whose termination signal is to be sent before the
    /// supervisor ends: those that run and have one registered, in order.
    pub fn shutdown_targets(&self) -> (indices: Vec<usize>)
        ensures
            forall|k: int| 0 <= k < indices@.len() ==> to_terminate(self@, #[trigger] indices@[k] as int),
            forall|j: int, k: int| 0 <= j < k < indices@.len() ==> indices@[j] < indices@[k],
            forall|i: int| to_terminate(self@, i) ==> indices@.contains(i as usize),
    {
        let mut indices: Vec<usize> = Vec::new();
        let mut i: usize = 0;
        while i < self.table.services.len()
            invariant
                i <= self.table.services.len(),
                forall|k: int|
                    0 <= k < indices@.len() ==> to_terminate(self@, #[trigger] indices@[k] as int)
                        && indices@[k] < i,
                forall|j: int, k: int| 0 <= j < k < indices@.len() ==> indices@[j] < indices@[k],
                forall|n: int| 0 <= n < i && to_terminate(self@, n) ==> indices@.contains(n as usize),
            decreases self.table.services.len() - i,
        {
            if self.table.services[i].observed == ServiceStatus::Running
                && self.thread_terminates.contains_key(&i) {
                let ghost before = indices@;
                indices.push(i);
                proof {
                    assert(indices@[before.len() as int] == i);
                    assert forall|n: int| 0 <= n < i + 1 && to_terminate(self@, n) implies indices@.contains(
                        n as usize,
                    ) by {
                        if n < i {
                            let k = choose|k: int| 0 <= k < before.len() && before[k] == n as usize;
                            assert(indices@[k] == n as usize);
                        }
                    }
                }
            }
            i = i + 1;
        }
        indices
    }

    /// Sends a termination request to every service that runs and has a
    /// signal registered, in the order of the table, and lists each of these
    /// services with the answer whether its request was taken. It does not
    /// wait for the services to end, and a request that cannot be sent is
    /// passed over.
    pub fn shutdown(&self) -> (asked: Vec<(usize, bool)>)
        ensures
            forall|k: int| 0 <= k < asked@.len() ==> to_terminate(self@, (#[trigger] asked@[k]).0 as int),
            forall|j: int, k: int| 0 <= j < k < asked@.len() ==> asked@[j].0 < asked@[k].0,
            forall|i: int|
                to_terminate(self@, i) ==> exists|k: int|
                    0 <= k < asked@.len() && (#[trigger] asked@[k]).0 == i,
    {
        let targets = self.shutdown_targets();
        let len = self.table.services.len();
        let mut asked: Vec<(usize, bool)> = Vec::new();
        let mut k: usize = 0;
        while k < targets.len()
            invariant
                k <= targets.len(),
                asked@.len() == k,
                forall|j: int| 0 <= j < k ==> (#[trigger] asked@[j]).0 == targets@[j],
            decreases targets.len() - k,
        {
            let index = targets[k];
            let taken = match self.thread_terminates.get(&index) {
                Some(terminate) => send(terminate, ()),
                None => false,
            };
            asked.push((index, taken));
            k = k + 1;
        }
        proof {
            assert forall|i: int| to_terminate(self@, i) implies exists|k: int|
                0 <= k < asked@.len() && (#[trigger] asked@[k]).0 == i by {
                assert(i < len);
                assert(targets@.contains(i as usize));
                let at = choose|at: int| 0 <= at < targets@.len() && targets@[at] == i as usize;
                assert(asked@[at].0 == targets@[at]);
                assert(0 <= at < asked@.len() && asked@[at].0 == i);
            }
        }
        asked
    }

    /// Records the terminal state that the reader of service `index` wrote.
    /// Nothing changes, and the answer is `false`, where the service does
    /// not run, `status` is not terminal, or there is no such service.
    pub fn finish_run(&mut self, index: usize, status: ServiceStatus) -> (recorded: bool)
        ensures
            recorded == finishable(old(self)@, index, status),
            final(self)@ == after_finish(old(self)@, index, status),
    {
        if index >= self.table.services.len() {
            return false;
        }
        if self.table.services[index].observed != ServiceStatus::Running || !status.terminal() {
            return false;
        }
        self.table.services[index].observed = status;
        proof {
            assert(self@.services =~= old(self)@.services.update(
                index as int,
                ServiceView { status, ..old(self)@.services[index as int] },
            ));
        }
        true
    }

    /// Looks at the run state that the readers of service `index` share,
    /// records the end of the service's run, if the service was held to be
    /// running and the state seen is terminal, and says what it saw. A
    /// poisoned lock is an error and changes nothing. Where there is no such
    /// service nothing is seen and nothing changes.
    pub fn sync_status(&mut self, index: usize) -> (seen: Result<Option<ServiceStatus>, SmError>)
        ensures
            seen matches Err(e) ==> e == SmError::MutexPoisoned && final(self)@ == old(self)@
                && index < old(self)@.services.len(),
            seen matches Ok(Some(status)) ==> index < old(self)@.services.len() && final(self)@
                == after_finish(old(self)@, index, status),
            seen matches Ok(None) ==> index >= old(self)@.services.len() && final(self)@ == old(
                self,
            )@,
    {
        if index >= self.table.services.len() {
            return Ok(None);
        }
        match load(&*self.table.services[index].status) {
            None => Err(SmError::MutexPoisoned),
            Some(status) => {
                self.finish_run(index, status);
                Ok(Some(status))
            },
        }
    }

    /// Looks at the run state of every service, as `sync_status` does, and
    /// says for each service what it saw. A service whose lock is poisoned
    /// is left as it is and has the error in its place.
    pub fn sync_statuses(&mut self) -> (seen: Vec<Result<ServiceStatus, SmError>>)
        ensures
            seen@.len() == old(self)@.services.len(),
            forall|i: int|
                0 <= i < seen@.len() ==> (#[trigger] seen@[i] matches Err(e) ==> e
                    == SmError::MutexPoisoned),
            final(self)@ == after_looks(old(self)@, seen@),
            runs_ended(old(self)@, final(self)@),
    {
        let mut seen: Vec<Result<ServiceStatus, SmError>> = Vec::new();
        let len = self.table.services.len();
        let mut i: usize = 0;
        while i < len
            invariant
                i <= len,
                len == self@.services.len(),
                seen@.len() == i,
                self@.services.len() == old(self)@.services.len(),
                self@.row == old(self)@.row,
                self@.selected == old(self)@.selected,
                self@.scroll_pos == old(self)@.scroll_pos,
                self@.terminates == old(self)@.terminates,
                forall|j: int|
                    0 <= j < i ==> (#[trigger] seen@[j] matches Err(e) ==> e
                        == SmError::MutexPoisoned),
                forall|j: int|
                    0 <= j < i ==> #[trigger] self@.services[j] == looked_at(
                        old(self)@.services[j],
                        seen@[j],
                    ),
                forall|j: int|
                    i <= j < self@.services.len() ==> #[trigger] self@.services[j] == old(
                        self,
                    )@.services[j],
            decreases len - i,
        {
            let ghost before = seen@;
            let looked = match self.sync_status(i) {
                Ok(Some(status)) => Ok(status),
                Ok(None) => Err(SmError::MutexPoisoned),
                Err(e) => Err(e),
            };
            seen.push(looked);
            i = i + 1;
            proof {
                assert forall|j: int| 0 <= j < i - 1 implies seen@[j] == before[j] by {}
            }
        }
        proof {
            let after = after_looks(old(self)@, seen@);
            assert(self@.services =~= after.services);
        }
        seen
    }

    /// Appends one chunk to the output of service `index`; does nothing where
    /// there is no such service.
    pub fn receive(&mut self, index: usize, chunk: &StdioSendBuf)
        ensures
            final(self)@ == after_chunk(old(self)@, index, chunk_bytes(*chunk)),
    {
        if index >= self.table.services.len() {
            return ;
        }
        let count = if chunk.1 <= STDIO_SEND_BUF_SIZE {
            chunk.1
        } else {
            STDIO_SEND_BUF_SIZE
        };
        let bytes = slice_subrange(chunk.0.as_slice(), 0, count);
        proof {
            assert(bytes@ =~= chunk_bytes(*chunk));
        }
        self.table.services[index].output.append(bytes);
        proof {
            assert(self@.services =~= after_chunk(
                old(self)@,
                index,
                chunk_bytes(*chunk),
            ).services);
        }
    }

    /// Drains chunks: those at place `i` of `pending` go to the output of
    /// service `i`, in their order. Places beyond the last service are left
    /// out.
    pub fn drain(&mut self, pending: &Vec<Vec<Vec<u8>>>)
        ensures
            final(self)@ == after_drain(old(self)@, pending_views(pending@)),
    {
        let mut i: usize = 0;
        while i < self.table.services.len() && i < pending.len()
            invariant
                i <= self.table.services.len(),
                i <= pending.len(),
                self@.services.len() == old(self)@.services.len(),
                self@.row == old(self)@.row,
                self@.selected == old(self)@.selected,
                self@.scroll_pos == old(self)@.scroll_pos,
                self@.terminates == old(self)@.terminates,
                forall|j: int|
                    0 <= j < i ==> #[trigger] self@.services[j] == (ServiceView {
                        output: drained(
                            old(self)@.services[j].output,
                            arrived(pending_views(pending@), j),
                        ),
                        ..old(self)@.services[j]
                    }),
                forall|j: int|
                    i <= j < self@.services.len() ==> #[trigger] self@.services[j] == old(
                        self,
                    )@.services[j],
            decreases pending.len() - i,
        {
            let ghost prev = self@;
            self.table.services[i].output.append_all(&pending[i]);
            i = i + 1;
            proof {
                assert(arrived(pending_views(pending@), i - 1) == chunk_views(pending@[i - 1]@));
                assert(self@.services =~= prev.services.update(
                    i - 1,
                    ServiceView {
                        output: drained(
                            prev.services[i - 1].output,
                            chunk_views(pending@[i - 1]@),
                        ),
                        ..prev.services[i - 1]
                    },
                ));
            }
        }
        proof {
            let after = after_drain(old(self)@, pending_views(pending@));
            assert forall|j: int| 0 <= j < self@.services.len() implies self@.services[j]
                == after.services[j] by {
                if j >= i {
                    assert(arrived(pending_views(pending@), j) =~= Seq::<Seq<u8>>::empty());
                }
            }
            assert(self@.services =~= after.services);
        }
    }

    /// Pulls the chunks that wait in the output channel of each service and
    /// drains them into the service's output. For each service it stops
    /// when nothing waits, or after the chunk with which more time than
    /// `duration` has passed since it turned to the service; what waits
    /// then is left for the next call.
    pub fn recv_stdouts(&mut self, duration: Duration)
        ensures
            exists|pending: Seq<Seq<Seq<u8>>>|
                final(self)@ == #[trigger] after_drain(old(self)@, pending),
    {
        let budget = duration_nanos(&duration);
        let ghost mut pending: Seq<Seq<Seq<u8>>> = Seq::empty();
        let len = self.table.services.len();
        let mut i: usize = 0;
        while i < len
            invariant
                i <= len,
                len == self@.services.len(),
                pending.len() == i,
                self@.services.len() == old(self)@.services.len(),
                self@.row == old(self)@.row,
                self@.selected == old(self)@.selected,
                self@.scroll_pos == old(self)@.scroll_pos,
                self@.terminates == old(self)@.terminates,
                forall|j: int|
                    0 <= j < i ==> #[trigger] self@.services[j] == (ServiceView {
                        output: drained(old(self)@.services[j].output, pending[j]),
                        ..old(self)@.services[j]
                    }),
                forall|j: int|
                    i <= j < self@.services.len() ==> #[trigger] self@.services[j] == old(
                        self,
                    )@.services[j],
            decreases len - i,
        {
            let start = now();
            let ghost mut got: Seq<Seq<u8>> = Seq::empty();
            let ghost entry = self@;
            // The count only shows that the loop ends; it does not run out.
            let mut rounds: usize = usize::MAX;
            while rounds > 0
                invariant
                    i < len,
                    len == self@.services.len(),
                    self@.services.len() == entry.services.len(),
                    self@.row == entry.row,
                    self@.selected == entry.selected,
                    self@.scroll_pos == entry.scroll_pos,
                    self@.terminates == entry.terminates,
                    self@.services[i as int] == (ServiceView {
                        output: drained(entry.services[i as int].output, got),
                        ..entry.services[i as int]
                    }),
                    forall|j: int|
                        0 <= j < self@.services.len() && j != i ==> #[trigger] self@.services[j]
                            == entry.services[j],
                decreases rounds,
            {
                rounds = rounds - 1;
                let chunk = match try_recv(&self.table.services[i].stdout.recv) {
                    Some(chunk) => chunk,
                    None => {
                        break ;
                    },
                };
                self.receive(i, &chunk);
                proof {
                    let longer = got.push(chunk_bytes(chunk));
                    assert(longer.drop_last() =~= got);
                    got = longer;
                }
                if duration_nanos(&elapsed(&start)) > budget {
                    break ;
                }
            }
            proof {
                pending = pending.push(got);
            }
            i = i + 1;
        }
        proof {
            let after = after_drain(old(self)@, pending);
            assert(self@.services =~= after.services);
            assert(self@ == after);
        }
    }
}

/// Handles one key: `q` leaves the full view, or, from the table, asks every
/// running service to end and tells the caller to leave the main loop; `r`
/// asks for the start of the service aimed at, `k` for its end,
/// both after a look at its run state; the arrows scroll the full view or
/// move the highlight in the table; enter opens the highlighted service;
/// escape goes back to the table. A poisoned lock is an error and changes
/// nothing.
pub fn run_app(app: &mut App, key: Key) -> (outcome: Result<Command, SmError>)
    ensures
        !looks_first(key) ==> final(app)@ == after_key(old(app)@, key) && carried_out(
            outcome,
            key_command(old(app)@, key),
        ),
        looks_first(key) ==> {
            ||| outcome == Err::<Command, SmError>(SmError::MutexPoisoned) && final(app)@ == old(
                app,
            )@ && target(old(app)@).is_some()
            ||| exists|seen: ServiceStatus|
                {
                    let looked = #[trigger] after_look(old(app)@, seen);
                    &&& final(app)@ == after_key(looked, key)
                    &&& carried_out(outcome, key_command(looked, key))
                }
        },
{
    match key {
        Key::Char(c) => {
            if c == 'q' {
                match app.selected {
                    Some(_) => {
                        app.leave_service();
                        Ok(Command::Continue)
                    },
                    None => {
                        app.shutdown();
                        Ok(Command::Quit)
                    },
                }
            } else if c == 'r' {
                match app.run_service() {
                    Ok(Some(request)) => Ok(Command::Spawn(request)),
                    Ok(None) => Ok(Command::Continue),
                    Err(e) => Err(e),
                }
            } else if c == 'k' {
                match app.kill_service() {
                    Ok(Some(index)) => Ok(Command::Terminated(index)),
                    Ok(None) => Ok(Command::Continue),
                    Err(e) => Err(e),
                }
            } else {
                Ok(Command::Continue)
            }
        },
        Key::Down => {
            match app.selected {
                Some(_) => app.scroll_down(),
                None => app.next(),
            }
            Ok(Command::Continue)
        },
        Key::Up => {
            match app.selected {
                Some(_) => app.scroll_up(),
                None => app.previous(),
            }
            Ok(Command::Continue)
        },
        Key::Enter => {
            app.select_service();
            Ok(Command::Continue)
        },
        Key::Esc => {
            app.leave_service();
            Ok(Command::Continue)
        },
        Key::Other => Ok(Command::Continue),
    }
}

} // verus!
