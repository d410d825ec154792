//! The interactive session: one process attached to the operator's
//! terminal, which only its own exit ends.
//!
//! An interrupt while the process is attached is swallowed on purpose. The
//! remote end of the session can only be left from inside it; killing the
//! local process would leave the remote session behind. So the operator is
//! reminded how to detach, and the session goes on waiting.

use crate::action::{Action, ActionView, Event};
use crate::error::Error;
use crate::inspect::{resolve_target, resolved_target, ContainerFilter, FilterView};
use crate::session::{exec_arguments, exec_command};
use vstd::prelude::*;

verus! {

/// Where an interactive session stands.
#[derive(Clone, Copy, Debug, PartialEq, Eq, Structural)]
pub enum ExecPhase {
    /// The task is being described.
    Resolving,
    /// The process is being started.
    Spawning,
    /// The process is attached to the terminal.
    Attached,
    /// The command has ended.
    Done,
}

/// The mathematical state of an interactive session.
pub struct ExecView {
    pub phase: ExecPhase,
    pub cluster: Seq<char>,
    pub task: Seq<char>,
    /// The name of the container to attach to.
    pub container: Seq<char>,
}

impl ExecView {
    /// Ends the command.
    pub open spec fn finish(self, outcome: Result<(), Error>) -> (ExecView, ActionView) {
        (ExecView { phase: ExecPhase::Done, ..self }, ActionView::Finish(outcome))
    }

    /// The session's first state and action.
    pub open spec fn start(cluster: Seq<char>, task: Seq<char>, container: Seq<char>) -> (
        ExecView,
        ActionView,
    ) {
        (
            ExecView { phase: ExecPhase::Resolving, cluster, task, container },
            ActionView::DescribeTask { cluster, task },
        )
    }

    /// The state and action that follow an event; `None` where the session
    /// is not waiting for such an event.
    pub open spec fn next(self, event: Event) -> Option<(ExecView, ActionView)> {
        match (self.phase, event) {
            (ExecPhase::Resolving, Event::Described(tasks)) => Some(
                match resolved_target(
                    self.cluster,
                    self.task,
                    tasks@,
                    FilterView::Named(self.container),
                ) {
                    Ok(target) => (
                        ExecView { phase: ExecPhase::Spawning, ..self },
                        ActionView::Spawn { arguments: exec_arguments(target) },
                    ),
                    Err(e) => self.finish(Err(e)),
                },
            ),
            (ExecPhase::Resolving, Event::RemoteFailed) => Some(
                self.finish(Err(Error::RemoteCallFailed)),
            ),
            (ExecPhase::Spawning, Event::Spawned) => Some(
                (
                    ExecView { phase: ExecPhase::Attached, ..self },
                    ActionView::AwaitExit { remind: false },
                ),
            ),
            (ExecPhase::Spawning, Event::SpawnFailed) => Some(
                self.finish(Err(Error::SubprocessSpawnFailed)),
            ),
            (ExecPhase::Attached, Event::Interrupted) => Some(
                (self, ActionView::AwaitExit { remind: true }),
            ),
            (ExecPhase::Attached, Event::ChildExited) => Some(self.finish(Ok(()))),
            _ => None,
        }
    }
}

/// An interactive session.
#[derive(Debug)]
pub struct Exec {
    phase: ExecPhase,
    cluster: String,
    task: String,
    container: String,
}

impl View for Exec {
    type V = ExecView;

    closed spec fn view(&self) -> ExecView {
        ExecView {
            phase: self.phase,
            cluster: self.cluster@,
            task: self.task@,
            container: self.container@,
        }
    }
}

impl Exec {
    fn at(self, phase: ExecPhase) -> (moved: Exec)
        ensures
            moved@ == (ExecView { phase, ..self@ }),
    {
        Exec { phase, cluster: self.cluster, task: self.task, container: self.container }
    }

    fn finish(self, outcome: Result<(), Error>) -> (r: (Exec, Action))
        ensures
            (r.0@, r.1@) == self@.finish(outcome),
    {
        (self.at(ExecPhase::Done), Action::Finish(outcome))
    }

    /// Begins a session attached to the container named `container` of `task`
    /// in `cluster`.
    pub fn start(cluster: String, task: String, container: String) -> (r: (Exec, Action))
        ensures
            (r.0@, r.1@) == ExecView::start(cluster@, task@, container@),
    {
        let action = Action::DescribeTask { cluster: cluster.clone(), task: task.clone() };
        (Exec { phase: ExecPhase::Resolving, cluster, task, container }, action)
    }

    /// Where the session stands.
    pub fn phase(&self) -> (phase: ExecPhase)
        ensures
            phase == self@.phase,
    {
        self.phase
    }

    /// Takes the driver's report on the last action and says what to do next.
    /// An event that the session is not waiting for is refused with `None`.
    pub fn step(self, event: Event) -> (r: Option<(Exec, Action)>)
        ensures
            match r {
                Some((state, action)) => self@.next(event) == Some((state@, action@)),
                None => self@.next(event) is None,
            },
    {
        match (self.phase, event) {
            (ExecPhase::Resolving, Event::Described(tasks)) => {
                let filter = ContainerFilter::Named(self.container.clone());
                match resolve_target(self.cluster.as_str(), self.task.as_str(), &tasks, &filter) {
                    Ok(target) => {
                        let arguments = exec_command(target.as_str());
                        Some((self.at(ExecPhase::Spawning), Action::Spawn { arguments }))
                    },
                    Err(e) => Some(self.finish(Err(e))),
                }
            },
            (ExecPhase::Resolving, Event::RemoteFailed) => Some(
                self.finish(Err(Error::RemoteCallFailed)),
            ),
            (ExecPhase::Spawning, Event::Spawned) => Some(
                (self.at(ExecPhase::Attached), Action::AwaitExit { remind: false }),
            ),
            (ExecPhase::Spawning, Event::SpawnFailed) => Some(
                self.finish(Err(Error::SubprocessSpawnFailed)),
            ),
            (ExecPhase::Attached, Event::Interrupted) => Some(
                (self, Action::AwaitExit { remind: true }),
            ),
            (ExecPhase::Attached, Event::ChildExited) => Some(self.finish(Ok(()))),
            _ => None,
        }
    }
}

/// An interrupt while the process is attached changes nothing: the session
/// stays attached and goes on waiting, after a reminder of how to detach.
pub proof fn lemma_interrupt_is_swallowed(s: ExecView)
    requires
        s.phase == ExecPhase::Attached,
    ensures
        s.next(Event::Interrupted) == Some((s, ActionView::AwaitExit { remind: true })),
{
}

/// Once the process is attached, only its own exit ends the command, and the
/// command then ends well.
pub proof fn lemma_only_exit_ends(s: ExecView, event: Event)
    requires
        s.phase == ExecPhase::Attached,
    ensures
        s.next(event) matches Some((t, action)) ==> (t.phase == ExecPhase::Done <==> event
            is ChildExited),
        s.next(event) matches Some((t, action)) ==> (action is Finish <==> event is ChildExited),
        s.next(Event::ChildExited) == Some(
            (ExecView { phase: ExecPhase::Done, ..s }, ActionView::Finish(Ok(()))),
        ),
{
}

/// An interactive session never asks for a process to be terminated and
/// never waits for an interrupt alone. It starts a process only once, right
/// after the container is resolved, and nothing it is told changes what the
/// operator asked for.
pub proof fn lemma_never_terminates(s: ExecView, event: Event)
    ensures
        s.next(event) matches Some((t, action)) ==> {
            &&& !(action is Terminate)
            &&& !(action is AwaitInterrupt)
            &&& action is Spawn ==> s.phase == ExecPhase::Resolving && t.phase
                == ExecPhase::Spawning
            &&& (action is Finish <==> t.phase == ExecPhase::Done)
            &&& t.cluster == s.cluster && t.task == s.task && t.container == s.container
        },
        s.phase == ExecPhase::Done ==> s.next(event) is None,
{
}

} // verus!
