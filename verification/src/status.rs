//! The run state of a service and the order in which run states follow one
//! another.

use crate::text::{decimal, decimal_text};
use vstd::prelude::*;
use vstd::string::*;

verus! {

/// Run state of one service.
#[derive(Debug, Copy, Clone, PartialEq, Eq, Structural)]
pub enum ServiceStatus {
    NotStarted,
    Running,
    Exited,
    Failed(i32),
    Killed,
}

/// The state in which a child that ended with `code` leaves its service;
/// `None` stands for a child that a signal ended.
pub open spec fn status_of_exit(code: Option<i32>) -> ServiceStatus {
    match code {
        Some(c) => if c == 0 {
            ServiceStatus::Exited
        } else {
            ServiceStatus::Failed(c)
        },
        None => ServiceStatus::Killed,
    }
}

/// One change of run state that a service may make: a start from any state
/// but `Running`, or the end of a run.
pub open spec fn legal_step(from: ServiceStatus, to: ServiceStatus) -> bool {
    ||| from != ServiceStatus::Running && to == ServiceStatus::Running
    ||| from == ServiceStatus::Running && to.is_terminal()
}

/// Two consecutive observations of one service's run state: nothing
/// happened in between, or one legal step.
pub open spec fn kept_or_stepped(from: ServiceStatus, to: ServiceStatus) -> bool {
    from == to || legal_step(from, to)
}

/// `history` starts at `NotStarted` and every state follows the one before
/// it by a legal step.
pub open spec fn stepwise(history: Seq<ServiceStatus>) -> bool {
    &&& history.len() > 0
    &&& history[0] == ServiceStatus::NotStarted
    &&& forall|i: int| 0 <= i < history.len() - 1 ==> legal_step(#[trigger] history[i], history[i + 1])
}

/// `history` is `NotStarted`, then for each run `Running` followed by one
/// terminal state; the last run may still be going.
pub open spec fn run_history(history: Seq<ServiceStatus>) -> bool {
    &&& history.len() > 0
    &&& history[0] == ServiceStatus::NotStarted
    &&& forall|i: int|
        1 <= i < history.len() ==> if i % 2 == 1 {
            #[trigger] history[i] == ServiceStatus::Running
        } else {
            history[i].is_terminal()
        }
}

impl ServiceStatus {
    /// A run has ended in this state.
    pub open spec fn is_terminal(self) -> bool {
        self is Exited || self is Failed || self is Killed
    }

    /// How the state reads in the service table.
    pub open spec fn label(self) -> Seq<char> {
        match self {
            ServiceStatus::NotStarted => "not started"@,
            ServiceStatus::Running => "running"@,
            ServiceStatus::Exited => "exited (0)"@,
            ServiceStatus::Failed(code) => "failed ("@ + decimal(code as int) + ")"@,
            ServiceStatus::Killed => "killed"@,
        }
    }

    /// Whether a run has ended in this state.
    pub fn terminal(&self) -> (r: bool)
        ensures
            r == self.is_terminal(),
    {
        match self {
            ServiceStatus::Exited | ServiceStatus::Failed(_) | ServiceStatus::Killed => true,
            _ => false,
        }
    }

    /// The state in which a child that ended with `code` leaves its service:
    /// `Exited` for code 0, `Failed` with any other code, `Killed` where a
    /// signal ended the child and there is no code.
    pub fn from_exit_code(code: Option<i32>) -> (status: ServiceStatus)
        ensures
            status == status_of_exit(code),
            code == Some(0i32) ==> status == ServiceStatus::Exited,
            forall|c: i32| code == Some(c) && c != 0 ==> status == ServiceStatus::Failed(c),
            code.is_none() ==> status == ServiceStatus::Killed,
            status.is_terminal(),
    {
        match code {
            Some(c) => if c == 0 {
                ServiceStatus::Exited
            } else {
                ServiceStatus::Failed(c)
            },
            None => ServiceStatus::Killed,
        }
    }

    /// The state as text for the service table.
    pub fn to_string(&self) -> (text: String)
        ensures
            text@ == self.label(),
    {
        match self {
            ServiceStatus::NotStarted => String::from_str("not started"),
            ServiceStatus::Running => String::from_str("running"),
            ServiceStatus::Exited => String::from_str("exited (0)"),
            ServiceStatus::Failed(code) => {
                let number = decimal_text(*code);
                String::from_str("failed (").concat(number.as_str()).concat(")")
            },
            ServiceStatus::Killed => String::from_str("killed"),
        }
    }
}

/// A service that starts at `NotStarted` and changes state by legal steps
/// only shows `NotStarted`, then `Running` and a terminal state in turn:
/// `Running` never follows `Running`, and each run has one terminal state.
pub proof fn lemma_stepwise_is_run_history(history: Seq<ServiceStatus>)
    requires
        stepwise(history),
    ensures
        run_history(history),
    decreases history.len(),
{
    if history.len() > 1 {
        let shorter = history.drop_last();
        assert forall|i: int| 0 <= i < shorter.len() - 1 implies legal_step(
            #[trigger] shorter[i],
            shorter[i + 1],
        ) by {
            assert(legal_step(history[i], history[i + 1]));
        }
        lemma_stepwise_is_run_history(shorter);
        let last = history.len() - 1;
        assert(legal_step(history[last - 1], history[last]));
        assert(history[last - 1] == shorter[last - 1]);
        assert forall|i: int| 1 <= i < history.len() implies if i % 2 == 1 {
            #[trigger] history[i] == ServiceStatus::Running
        } else {
            history[i].is_terminal()
        } by {
            if i < last {
                assert(history[i] == shorter[i]);
            }
        }
    }
}

/// In a run history no two neighbours are both `Running`.
pub proof fn lemma_never_running_twice(history: Seq<ServiceStatus>, i: int)
    requires
        run_history(history),
        0 <= i < history.len() - 1,
    ensures
        !(history[i] == ServiceStatus::Running && history[i + 1] == ServiceStatus::Running),
{
    if i % 2 == 1 {
        assert(history[i + 1].is_terminal());
    } else if i > 0 {
        assert(history[i].is_terminal());
    }
}

/// Every state of `trace` is the one before it or follows it by a legal step.
pub open spec fn gradual(trace: Seq<ServiceStatus>) -> bool {
    forall|i: int| 0 <= i < trace.len() - 1 ==> kept_or_stepped(#[trigger] trace[i], trace[i + 1])
}

/// `trace` without the states that repeat the one before them: the changes
/// of run state that an observer sees.
pub open spec fn changes(trace: Seq<ServiceStatus>) -> Seq<ServiceStatus>
    decreases trace.len(),
{
    if trace.len() <= 1 {
        trace
    } else {
        let seen = changes(trace.drop_last());
        if trace.last() == seen.last() {
            seen
        } else {
            seen.push(trace.last())
        }
    }
}

proof fn lemma_changes_stepwise(trace: Seq<ServiceStatus>)
    requires
        trace.len() > 0,
        trace[0] == ServiceStatus::NotStarted,
        gradual(trace),
    ensures
        changes(trace).len() > 0,
        changes(trace).last() == trace.last(),
        stepwise(changes(trace)),
    decreases trace.len(),
{
    if trace.len() > 1 {
        let shorter = trace.drop_last();
        assert forall|i: int| 0 <= i < shorter.len() - 1 implies kept_or_stepped(
            #[trigger] shorter[i],
            shorter[i + 1],
        ) by {
            assert(kept_or_stepped(trace[i], trace[i + 1]));
        }
        lemma_changes_stepwise(shorter);
        let seen = changes(shorter);
        let last = trace.len() - 1;
        assert(kept_or_stepped(trace[last - 1], trace[last]));
        assert(shorter.last() == trace[last - 1]);
        if trace.last() != seen.last() {
            let grown = seen.push(trace.last());
            assert forall|i: int| 0 <= i < grown.len() - 1 implies legal_step(
                #[trigger] grown[i],
                grown[i + 1],
            ) by {
                if i < seen.len() - 1 {
                    assert(legal_step(seen[i], seen[i + 1]));
                }
            }
        }
    }
}

/// A service that starts at `NotStarted` and at every observation is found
/// in the state it was in or one legal step on shows, to an observer of its
/// changes, `NotStarted`, then `Running` and a terminal state in turn.
pub proof fn lemma_changes_are_run_history(trace: Seq<ServiceStatus>)
    requires
        trace.len() > 0,
        trace[0] == ServiceStatus::NotStarted,
        gradual(trace),
    ensures
        run_history(changes(trace)),
{
    lemma_changes_stepwise(trace);
    lemma_stepwise_is_run_history(changes(trace));
}

} // verus!
