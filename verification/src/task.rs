//! The `task` command.

use crate::action::{Action, ActionView};
use crate::attach::{Exec, ExecView};
use crate::forward::{ForwardView, PortForward};
use crate::paginate::PaginationState;
use crate::text::texts;
use vstd::prelude::*;

verus! {

/// What to show of one task.
#[derive(Debug)]
pub enum GetOp {
    /// Its containers.
    Containers,
}

/// The arguments of `task get`.
#[derive(Debug)]
pub struct GetArgs {
    pub task: String,
    pub op: GetOp,
}

/// The arguments of `task port-forward`.
#[derive(Debug)]
pub struct PortForwardArgs {
    pub task: String,
    /// The port mappings, each written `local:remote`.
    pub port: Vec<String>,
}

/// The arguments of `task exec`.
#[derive(Debug)]
pub struct ExecArgs {
    pub task: String,
    pub container: String,
}

/// What to do with the tasks of a cluster.
#[derive(Debug)]
pub enum Operation {
    List,
    Get(GetArgs),
    PortForward(PortForwardArgs),
    Exec(ExecArgs),
}

/// The arguments of the `task` command.
#[derive(Debug)]
pub struct Args {
    pub operation: Operation,
    pub cluster: String,
}

/// A `task` command that has begun.
#[derive(Debug)]
pub enum Run {
    /// A listing of the cluster's tasks with nothing fetched yet. The
    /// cluster's name is the state that goes from page to page.
    Listing(PaginationState<String>),
    /// The containers of one task are to be shown once the task is described.
    Inspecting(Action),
    /// A port-forwarding session and its first action.
    Forwarding(PortForward, Action),
    /// An interactive session and its first action.
    Attaching(Exec, Action),
}

impl Args {
    /// Begins the command: picks the work that the operation calls for and
    /// takes its first step. Nothing outside has happened yet.
    pub fn run(self) -> (run: Run)
        ensures
            match self.operation {
                Operation::List => run matches Run::Listing(listing) && listing
                    == PaginationState::Start(self.cluster),
                Operation::Get(args) => run matches Run::Inspecting(action) && action@ == (
                ActionView::DescribeTask { cluster: self.cluster@, task: args.task@ }),
                Operation::PortForward(args) => run matches Run::Forwarding(session, action) && (
                    session@,
                    action@,
                ) == ForwardView::start(self.cluster@, args.task@, texts(args.port@))
                    && session@.wf(),
                Operation::Exec(args) => run matches Run::Attaching(session, action) && (
                    session@,
                    action@,
                ) == ExecView::start(self.cluster@, args.task@, args.container@),
            },
    {
        match self.operation {
            Operation::List => Run::Listing(PaginationState::Start(self.cluster)),
            Operation::Get(args) => Run::Inspecting(
                Action::DescribeTask { cluster: self.cluster, task: args.task },
            ),
            Operation::PortForward(args) => {
                let (session, action) = PortForward::start(self.cluster, args.task, args.port);
                Run::Forwarding(session, action)
            },
            Operation::Exec(args) => {
                let (session, action) = Exec::start(self.cluster, args.task, args.container);
                Run::Attaching(session, action)
            },
        }
    }
}

} // verus!
