//! The services as the configuration names them.

use std::collections::HashMap;
use vstd::prelude::*;

verus! {

/// One service as the configuration describes it.
#[derive(Debug)]
pub struct Service {
    /// The command line, handed to a shell.
    pub command: String,
    /// The directory to run in; the supervisor's own where there is none.
    pub workdir: Option<String>,
    /// Variables set on top of the supervisor's environment.
    pub env: Option<HashMap<String, String>>,
}

/// The services by name, in the order in which the table shows them.
pub type Config = Vec<(String, Service)>;

} // verus!
