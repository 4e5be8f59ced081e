//! The keys that the supervisor handles and what it asks of its caller.

use std::collections::HashMap;
use vstd::prelude::*;

verus! {

/// How a standard stream of a child is connected.
#[derive(Debug, Clone, Copy, PartialEq, Eq, Structural)]
pub enum StdioMode {
    /// Through a pipe that the supervisor holds.
    Piped,
    /// To the supervisor's own stream.
    Inherited,
}

/// The child process to spawn for a service.
#[derive(Debug)]
pub struct SpawnRequest {
    /// The service that the child runs for.
    pub index: usize,
    pub program: String,
    pub args: Vec<String>,
    pub workdir: String,
    /// Variables set on top of the supervisor's environment.
    pub env: HashMap<String, String>,
    pub stdin: StdioMode,
    pub stdout: StdioMode,
    pub stderr: StdioMode,
}

/// A spawn request as the contracts see it.
pub struct SpawnRequestView {
    pub index: usize,
    pub program: Seq<char>,
    pub args: Seq<Seq<char>>,
    pub workdir: Seq<char>,
    pub env: Map<String, String>,
    pub stdin: StdioMode,
    pub stdout: StdioMode,
    pub stderr: StdioMode,
}

impl View for SpawnRequest {
    type V = SpawnRequestView;

    open spec fn view(&self) -> SpawnRequestView {
        SpawnRequestView {
            index: self.index,
            program: self.program@,
            args: self.args@.map_values(|a: String| a@),
            workdir: self.workdir@,
            env: self.env@,
            stdin: self.stdin,
            stdout: self.stdout,
            stderr: self.stderr,
        }
    }
}

/// A key that the user pressed.
#[derive(Debug, Clone, Copy, PartialEq, Eq, Structural)]
pub enum Key {
    Char(char),
    Down,
    Up,
    Enter,
    Esc,
    Other,
}

/// What came of a key: what was done, or what the caller has to do.
#[derive(Debug)]
pub enum Command {
    /// Nothing is left to do.
    Continue,
    /// Every running service was asked to end; the caller has to leave the
    /// main loop.
    Quit,
    /// The caller has to spawn this child and report how it went.
    Spawn(SpawnRequest),
    /// A termination request was sent on the signal registered for this service.
    Terminated(usize),
}

/// What a key comes to, as the contracts see it.
pub enum CommandView {
    Continue,
    Quit,
    Spawn(SpawnRequestView),
    Terminated(usize),
}

impl View for Command {
    type V = CommandView;

    open spec fn view(&self) -> CommandView {
        match self {
            Command::Continue => CommandView::Continue,
            Command::Quit => CommandView::Quit,
            Command::Spawn(request) => CommandView::Spawn(request@),
            Command::Terminated(index) => CommandView::Terminated(*index),
        }
    }
}

} // verus!
