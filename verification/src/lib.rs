//! The core of a supervisor for a fixed set of services, each a shell
//! command that is started and killed on request while its output is
//! captured.
//!
//! The library holds what the supervisor's control thread decides and keeps:
//! the registry of services with their run states and captured output, the
//! handling of the user's keys, and what the screen shows. The two reader
//! threads of a running service are state machines here; their caller owns
//! the child process and its pipes and does what each step asks for.

pub mod command;
pub mod config;
pub mod controller;
pub mod error;
pub mod model;
pub mod output;
pub mod reader;
pub mod status;
pub mod sync;
pub mod text;
pub mod transitions;
pub mod view;
