//! What a session asks its driver to do, and what the driver reports back.
//!
//! A session never performs outside work itself. It hands out one `Action`
//! at a time; the driver carries it out and answers with the `Event` that
//! tells how it went.

use crate::error::Error;
use crate::records::TaskDescription;
use crate::text::texts;
use vstd::prelude::*;

verus! {

/// One piece of outside work, or the end of the command.
#[derive(Debug, PartialEq, Eq)]
pub enum Action {
    /// Ask the remote service to describe one task of one cluster.
    DescribeTask { cluster: String, task: String },
    /// Start one tunnel process with these arguments.
    Spawn { arguments: Vec<String> },
    /// Block until the operator interrupts.
    AwaitInterrupt,
    /// Wait for the attached process to exit or for an interrupt, whichever
    /// comes first. With `remind`, first tell the operator how to detach.
    AwaitExit { remind: bool },
    /// Ask the tunnel process that was started as number `child` (from 0) to
    /// terminate, and wait until that has settled.
    Terminate { child: usize },
    /// Nothing is left to do: the command ends with this result.
    Finish(Result<(), Error>),
}

/// How the last action went.
#[derive(Debug)]
pub enum Event {
    /// The remote service answered with these tasks.
    Described(Vec<TaskDescription>),
    /// The remote call failed.
    RemoteFailed,
    /// The tunnel process is running.
    Spawned,
    /// The tunnel process could not be started.
    SpawnFailed,
    /// The operator interrupted.
    Interrupted,
    /// The attached process has exited on its own.
    ChildExited,
    /// The tunnel process is gone; one that had already exited counts too.
    Terminated,
    /// Terminating the tunnel process failed.
    TerminateFailed,
}

pub enum ActionView {
    DescribeTask { cluster: Seq<char>, task: Seq<char> },
    Spawn { arguments: Seq<Seq<char>> },
    AwaitInterrupt,
    AwaitExit { remind: bool },
    Terminate { child: nat },
    Finish(Result<(), Error>),
}

impl View for Action {
    type V = ActionView;

    open spec fn view(&self) -> ActionView {
        match self {
            Action::DescribeTask { cluster, task } => ActionView::DescribeTask {
                cluster: cluster@,
                task: task@,
            },
            Action::Spawn { arguments } => ActionView::Spawn { arguments: texts(arguments@) },
            Action::AwaitInterrupt => ActionView::AwaitInterrupt,
            Action::AwaitExit { remind } => ActionView::AwaitExit { remind: *remind },
            Action::Terminate { child } => ActionView::Terminate { child: *child as nat },
            Action::Finish(result) => ActionView::Finish(*result),
        }
    }
}

} // verus!
