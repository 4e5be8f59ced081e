//! The supervisor's state and the views of it that the contracts speak of.

use crate::output::OutputBuffer;
use crate::reader::STDIO_SEND_BUF_SIZE;
use crate::status::ServiceStatus;
use std::collections::HashMap;
use std::sync::mpsc::{Receiver, Sender};
use std::sync::{Arc, Mutex};
use vstd::prelude::*;

verus! {

/// Which row of the service table is highlighted.
#[derive(Debug, Clone, Copy, PartialEq, Eq, Structural)]
pub struct TableState {
    selected: Option<usize>,
}

impl TableState {
    /// The highlighted row.
    pub closed spec fn row(self) -> Option<usize> {
        self.selected
    }

    /// A table with no row highlighted.
    pub fn new() -> (state: TableState)
        ensures
            state.row().is_none(),
    {
        TableState { selected: None }
    }

    /// The highlighted row.
    pub fn selected(&self) -> (index: Option<usize>)
        ensures
            index == self.row(),
    {
        self.selected
    }

    /// Highlights `index`, or nothing.
    pub fn select(&mut self, index: Option<usize>)
        ensures
            final(self).row() == index,
    {
        self.selected = index;
    }
}

/// One chunk of output on its way to the supervisor: a buffer and the
/// number of bytes in it that count, from the start.
pub type StdioSendBuf = ([u8; STDIO_SEND_BUF_SIZE], usize);

/// The bytes that a chunk holds: as many of its buffer as its count says,
/// all of them where the count is too large.
pub open spec fn chunk_bytes(chunk: StdioSendBuf) -> Seq<u8> {
    if chunk.1 <= STDIO_SEND_BUF_SIZE {
        chunk.0@.take(chunk.1 as int)
    } else {
        chunk.0@
    }
}

/// The chunk that holds `bytes`.
pub(crate) fn fill_chunk(bytes: &[u8]) -> (chunk: StdioSendBuf)
    requires
        bytes@.len() <= STDIO_SEND_BUF_SIZE,
    ensures
        chunk.1 == bytes@.len(),
        chunk_bytes(chunk) == bytes@,
{
    let mut buffer: [u8; STDIO_SEND_BUF_SIZE] = [0;STDIO_SEND_BUF_SIZE];
    let mut i: usize = 0;
    while i < bytes.len()
        invariant
            i <= bytes.len(),
            bytes.len() <= STDIO_SEND_BUF_SIZE,
            buffer@.len() == STDIO_SEND_BUF_SIZE,
            buffer@.take(i as int) == bytes@.take(i as int),
        decreases bytes.len() - i,
    {
        buffer[i] = bytes[i];
        i = i + 1;
        proof {
            assert(buffer@.take(i as int) =~= bytes@.take(i as int));
        }
    }
    proof {
        assert(bytes@.take(i as int) =~= bytes@);
    }
    (buffer, bytes.len())
}

/// The chunk that holds `bytes`; `None` where they are too many for one chunk.
pub fn make_chunk(bytes: &[u8]) -> (made: Option<StdioSendBuf>)
    ensures
        made.is_some() <==> bytes@.len() <= STDIO_SEND_BUF_SIZE,
        made matches Some(chunk) ==> chunk.1 == bytes@.len() && chunk_bytes(chunk) == bytes@,
{
    if bytes.len() > STDIO_SEND_BUF_SIZE {
        None
    } else {
        Some(fill_chunk(bytes))
    }
}

/// The output channel of one service: its readers send chunks, the
/// supervisor receives them.
#[derive(Debug)]
pub struct StdIoStream {
    pub recv: Receiver<StdioSendBuf>,
    pub send: Sender<StdioSendBuf>,
}

/// One supervised service.
#[derive(Debug)]
pub struct Service {
    /// The command line, handed to a shell.
    pub command: String,
    pub name: String,
    /// The directory in which the command runs.
    pub workdir: String,
    /// Variables set on top of the supervisor's environment.
    pub env: HashMap<String, String>,
    /// The cell that holds the run state; the service's readers share it.
    pub status: Arc<Mutex<ServiceStatus>>,
    /// The run state as the supervisor last saw it.
    pub observed: ServiceStatus,
    /// What the service has written, as far as it was drained.
    pub output: OutputBuffer,
    pub stdout: StdIoStream,
}

/// A service as the contracts see it: what the supervisor itself holds of
/// it. `status` is the run state as last seen.
pub struct ServiceView {
    pub command: Seq<char>,
    pub name: Seq<char>,
    pub workdir: Seq<char>,
    pub env: Map<String, String>,
    /// The cell that the readers share; what it holds is not part of the view.
    pub cell: Arc<Mutex<ServiceStatus>>,
    pub status: ServiceStatus,
    pub output: Seq<u8>,
    /// The two ends of the output channel; what waits in it is not part of the view.
    pub stdout: StdIoStream,
}

impl View for Service {
    type V = ServiceView;

    open spec fn view(&self) -> ServiceView {
        ServiceView {
            command: self.command@,
            name: self.name@,
            workdir: self.workdir@,
            env: self.env@,
            cell: self.status,
            status: self.observed,
            output: self.output@,
            stdout: self.stdout,
        }
    }
}

/// The service table.
#[derive(Debug)]
pub struct AppState {
    pub table_state: TableState,
    pub services: Vec<Service>,
}

/// The supervisor's state: the services, what the user looks at, and the
/// termination signal registered for each service that was started.
#[derive(Debug)]
pub struct App {
    pub table: AppState,
    /// The service shown in full, if any; the table is shown otherwise.
    pub selected: Option<usize>,
    pub scroll_pos: Option<usize>,
    pub thread_terminates: HashMap<usize, Sender<()>>,
}

/// The supervisor's state as the contracts see it.
pub struct AppView {
    pub services: Seq<ServiceView>,
    /// The highlighted row of the table.
    pub row: Option<usize>,
    pub selected: Option<usize>,
    pub scroll_pos: Option<usize>,
    pub terminates: Map<usize, Sender<()>>,
}

/// The views of the services, in order.
pub open spec fn service_views(services: Seq<Service>) -> Seq<ServiceView> {
    services.map_values(|s: Service| s@)
}

impl View for App {
    type V = AppView;

    open spec fn view(&self) -> AppView {
        AppView {
            services: service_views(self.table.services@),
            row: self.table.table_state.row(),
            selected: self.selected,
            scroll_pos: self.scroll_pos,
            terminates: self.thread_terminates@,
        }
    }
}

} // verus!
