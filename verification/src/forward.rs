//! The port-forwarding session: one tunnel process per port mapping, all of
//! them terminated before the command ends.
//!
//! The session goes from resolving the task's first running container,
//! through starting the tunnel processes one by one and waiting for the
//! operator's interrupt, to terminating every process it started. A failure
//! on the way takes the same path out: whatever was started is terminated
//! first, and the command then ends with the first failure it met.

use crate::action::{Action, ActionView, Event};
use crate::error::{ArgumentFault, Error};
use crate::inspect::{resolve_target, resolved_target, ContainerFilter, FilterView};
use crate::session::{forward_arguments, forward_command, mapping_parts, PortMapping};
use crate::text::texts;
use vstd::prelude::*;

verus! {

/// Where a port-forwarding session stands.
#[derive(Clone, Copy, Debug, PartialEq, Eq, Structural)]
pub enum Phase {
    /// The task is being described.
    Resolving,
    /// A tunnel process is being started.
    Spawning,
    /// All tunnel processes run; the session waits for an interrupt.
    Running,
    /// A tunnel process is being terminated.
    ShuttingDown,
    /// The command has ended.
    Done,
}

/// The mathematical state of a port-forwarding session.
pub struct ForwardView {
    pub phase: Phase,
    pub cluster: Seq<char>,
    pub task: Seq<char>,
    /// The port mappings as the operator wrote them.
    pub ports: Seq<Seq<char>>,
    /// The session target; empty until the container is resolved.
    pub target: Seq<char>,
    /// How many tunnel processes have been started.
    pub spawned: nat,
    /// For how many of them termination has settled.
    pub settled: nat,
    /// What the command ends with: the first failure met, if any.
    pub outcome: Result<(), Error>,
}

impl ForwardView {
    /// The states that a session can be in.
    pub open spec fn wf(self) -> bool {
        &&& self.settled <= self.spawned <= self.ports.len()
        &&& match self.phase {
            Phase::Resolving => self.ports.len() > 0 && self.spawned == 0 && self.outcome is Ok,
            Phase::Spawning => self.spawned < self.ports.len() && self.settled == 0
                && self.outcome is Ok && mapping_parts(self.ports[self.spawned as int]) is Some,
            Phase::Running => self.spawned == self.ports.len() && self.spawned > 0 && self.settled
                == 0 && self.outcome is Ok,
            Phase::ShuttingDown => self.settled < self.spawned,
            Phase::Done => self.settled == self.spawned,
        }
    }

    /// Terminates the next process that is still there, or ends the command
    /// where none is left.
    pub open spec fn wind_down(self) -> (ForwardView, ActionView) {
        if self.settled < self.spawned {
            (
                ForwardView { phase: Phase::ShuttingDown, ..self },
                ActionView::Terminate { child: self.settled },
            )
        } else {
            (ForwardView { phase: Phase::Done, ..self }, ActionView::Finish(self.outcome))
        }
    }

    /// Records a failure, unless one is recorded already, and winds down.
    pub open spec fn fail(self, e: Error) -> (ForwardView, ActionView) {
        ForwardView {
            outcome: if self.outcome is Ok {
                Err(e)
            } else {
                self.outcome
            },
            ..self
        }.wind_down()
    }

    /// Starts the tunnel process of the next mapping; waits for the interrupt
    /// where every mapping has its process; fails where the next mapping
    /// cannot be read.
    pub open spec fn spawn_next(self) -> (ForwardView, ActionView) {
        if self.spawned >= self.ports.len() {
            (ForwardView { phase: Phase::Running, ..self }, ActionView::AwaitInterrupt)
        } else {
            match mapping_parts(self.ports[self.spawned as int]) {
                Some((local, remote)) => (
                    ForwardView { phase: Phase::Spawning, ..self },
                    ActionView::Spawn { arguments: forward_arguments(self.target, local, remote) },
                ),
                None => self.fail(Error::InvalidArgument(ArgumentFault::MalformedPort)),
            }
        }
    }

    /// The session's first state and action. Without a port mapping nothing
    /// is asked of the remote service.
    pub open spec fn start(cluster: Seq<char>, task: Seq<char>, ports: Seq<Seq<char>>) -> (
        ForwardView,
        ActionView,
    ) {
        let first = ForwardView {
            phase: Phase::Resolving,
            cluster,
            task,
            ports,
            target: Seq::empty(),
            spawned: 0,
            settled: 0,
            outcome: Ok(()),
        };
        if ports.len() == 0 {
            first.fail(Error::InvalidArgument(ArgumentFault::NoPortSpecified))
        } else {
            (first, ActionView::DescribeTask { cluster, task })
        }
    }

    /// The state and action that follow an event; `None` where the session
    /// is not waiting for such an event.
    pub open spec fn next(self, event: Event) -> Option<(ForwardView, ActionView)> {
        match (self.phase, event) {
            (Phase::Resolving, Event::Described(tasks)) => Some(
                match resolved_target(self.cluster, self.task, tasks@, FilterView::FirstRunning) {
                    Ok(target) => ForwardView { target, ..self }.spawn_next(),
                    Err(e) => self.fail(e),
                },
            ),
            (Phase::Resolving, Event::RemoteFailed) => Some(self.fail(Error::RemoteCallFailed)),
            (Phase::Spawning, Event::Spawned) => Some(
                ForwardView { spawned: self.spawned + 1, ..self }.spawn_next(),
            ),
            (Phase::Spawning, Event::SpawnFailed) => Some(self.fail(Error::SubprocessSpawnFailed)),
            (Phase::Running, Event::Interrupted) => Some(self.wind_down()),
            (Phase::ShuttingDown, Event::Terminated) => Some(
                ForwardView { settled: self.settled + 1, ..self }.wind_down(),
            ),
            (Phase::ShuttingDown, Event::TerminateFailed) => Some(
                ForwardView { settled: self.settled + 1, ..self }.fail(Error::SubprocessWaitFailed),
            ),
            _ => None,
        }
    }
}

#[derive(Debug)]
struct Parts {
    cluster: String,
    task: String,
    ports: Vec<String>,
    target: String,
    spawned: usize,
    settled: usize,
    outcome: Result<(), Error>,
}

impl Parts {
    spec fn model(self, phase: Phase) -> ForwardView {
        ForwardView {
            phase,
            cluster: self.cluster@,
            task: self.task@,
            ports: texts(self.ports@),
            target: self.target@,
            spawned: self.spawned as nat,
            settled: self.settled as nat,
            outcome: self.outcome,
        }
    }

    spec fn counted(self) -> bool {
        self.settled <= self.spawned <= self.ports@.len()
    }
}

/// A port-forwarding session.
#[derive(Debug)]
pub struct PortForward {
    phase: Phase,
    parts: Parts,
}

impl View for PortForward {
    type V = ForwardView;

    closed spec fn view(&self) -> ForwardView {
        self.parts.model(self.phase)
    }
}

fn wind_down(parts: Parts, Ghost(phase): Ghost<Phase>) -> (r: (PortForward, Action))
    requires
        parts.counted(),
    ensures
        (r.0@, r.1@) == parts.model(phase).wind_down(),
{
    if parts.settled < parts.spawned {
        let child = parts.settled;
        (PortForward { phase: Phase::ShuttingDown, parts }, Action::Terminate { child })
    } else {
        let outcome = parts.outcome;
        (PortForward { phase: Phase::Done, parts }, Action::Finish(outcome))
    }
}

fn fail(parts: Parts, e: Error, Ghost(phase): Ghost<Phase>) -> (r: (PortForward, Action))
    requires
        parts.counted(),
    ensures
        (r.0@, r.1@) == parts.model(phase).fail(e),
{
    let outcome = match parts.outcome {
        Ok(_) => Err(e),
        Err(first) => Err(first),
    };
    wind_down(
        Parts {
            cluster: parts.cluster,
            task: parts.task,
            ports: parts.ports,
            target: parts.target,
            spawned: parts.spawned,
            settled: parts.settled,
            outcome,
        },
        Ghost(phase),
    )
}

fn spawn_next(parts: Parts, Ghost(phase): Ghost<Phase>) -> (r: (PortForward, Action))
    requires
        parts.counted(),
        parts.settled == 0,
        parts.outcome is Ok,
        parts.ports@.len() > 0,
    ensures
        (r.0@, r.1@) == parts.model(phase).spawn_next(),
{
    if parts.spawned >= parts.ports.len() {
        (PortForward { phase: Phase::Running, parts }, Action::AwaitInterrupt)
    } else {
        match PortMapping::parse(parts.ports[parts.spawned].as_str()) {
            Ok(mapping) => {
                let arguments = forward_command(parts.target.as_str(), &mapping);
                (PortForward { phase: Phase::Spawning, parts }, Action::Spawn { arguments })
            },
            Err(_) => fail(
                parts,
                Error::InvalidArgument(ArgumentFault::MalformedPort),
                Ghost(phase),
            ),
        }
    }
}

impl PortForward {
    #[verifier::type_invariant]
    spec fn inv(self) -> bool {
        self.parts.model(self.phase).wf()
    }

    /// Begins a session that forwards `ports` to the first running container
    /// of `task` in `cluster`.
    pub fn start(cluster: String, task: String, ports: Vec<String>) -> (r: (PortForward, Action))
        ensures
            (r.0@, r.1@) == ForwardView::start(cluster@, task@, texts(ports@)),
            r.0@.wf(),
    {
        let no_ports = ports.len() == 0;
        let action = Action::DescribeTask { cluster: cluster.clone(), task: task.clone() };
        let parts = Parts {
            cluster,
            task,
            ports,
            target: String::new(),
            spawned: 0,
            settled: 0,
            outcome: Ok(()),
        };
        if no_ports {
            fail(
                parts,
                Error::InvalidArgument(ArgumentFault::NoPortSpecified),
                Ghost(Phase::Resolving),
            )
        } else {
            (PortForward { phase: Phase::Resolving, parts }, action)
        }
    }

    /// Where the session stands.
    pub fn phase(&self) -> (phase: Phase)
        ensures
            phase == self@.phase,
    {
        self.phase
    }

    /// The session target; empty until the container is resolved.
    pub fn target(&self) -> (target: &str)
        ensures
            target@ == self@.target,
    {
        self.parts.target.as_str()
    }

    /// How many tunnel processes have been started.
    pub fn spawned(&self) -> (n: usize)
        ensures
            n == self@.spawned,
    {
        self.parts.spawned
    }

    /// For how many tunnel processes termination has settled.
    pub fn settled(&self) -> (n: usize)
        ensures
            n == self@.settled,
    {
        self.parts.settled
    }

    /// Takes the driver's report on the last action and says what to do next.
    /// An event that the session is not waiting for is refused with `None`.
    pub fn step(self, event: Event) -> (r: Option<(PortForward, Action)>)
        ensures
            match r {
                Some((state, action)) => self@.next(event) == Some((state@, action@)),
                None => self@.next(event) is None,
            },
            self@.wf(),
            r matches Some((state, _)) ==> state@.wf(),
    {
        proof {
            use_type_invariant(&self);
        }
        let phase = self.phase;
        let parts = self.parts;
        match (phase, event) {
            (Phase::Resolving, Event::Described(tasks)) => {
                let filter = ContainerFilter::FirstRunning;
                match resolve_target(parts.cluster.as_str(), parts.task.as_str(), &tasks, &filter) {
                    Ok(target) => Some(
                        spawn_next(
                            Parts {
                                cluster: parts.cluster,
                                task: parts.task,
                                ports: parts.ports,
                                target,
                                spawned: parts.spawned,
                                settled: parts.settled,
                                outcome: parts.outcome,
                            },
                            Ghost(phase),
                        ),
                    ),
                    Err(e) => Some(fail(parts, e, Ghost(phase))),
                }
            },
            (Phase::Resolving, Event::RemoteFailed) => Some(
                fail(parts, Error::RemoteCallFailed, Ghost(phase)),
            ),
            (Phase::Spawning, Event::Spawned) => {
                let total = parts.ports.len();
                assert(parts.spawned < total);
                Some(
                    spawn_next(
                        Parts {
                            cluster: parts.cluster,
                            task: parts.task,
                            ports: parts.ports,
                            target: parts.target,
                            spawned: parts.spawned + 1,
                            settled: parts.settled,
                            outcome: parts.outcome,
                        },
                        Ghost(phase),
                    ),
                )
            },
            (Phase::Spawning, Event::SpawnFailed) => Some(
                fail(parts, Error::SubprocessSpawnFailed, Ghost(phase)),
            ),
            (Phase::Running, Event::Interrupted) => Some(wind_down(parts, Ghost(phase))),
            (Phase::ShuttingDown, Event::Terminated) => Some(
                wind_down(
                    Parts {
                        cluster: parts.cluster,
                        task: parts.task,
                        ports: parts.ports,
                        target: parts.target,
                        spawned: parts.spawned,
                        settled: parts.settled + 1,
                        outcome: parts.outcome,
                    },
                    Ghost(phase),
                ),
            ),
            (Phase::ShuttingDown, Event::TerminateFailed) => Some(
                fail(
                    Parts {
                        cluster: parts.cluster,
                        task: parts.task,
                        ports: parts.ports,
                        target: parts.target,
                        spawned: parts.spawned,
                        settled: parts.settled + 1,
                        outcome: parts.outcome,
                    },
                    Error::SubprocessWaitFailed,
                    Ghost(phase),
                ),
            ),
            _ => None,
        }
    }
}

/// An upper bound on the number of events that a session can still take.
pub open spec fn events_left(s: ForwardView) -> nat {
    match s.phase {
        Phase::Resolving => 2 * s.ports.len() + 4,
        Phase::Spawning => (2 * s.ports.len() + 3 - s.spawned) as nat,
        Phase::Running => s.ports.len() + 2,
        Phase::ShuttingDown => (s.spawned + 1 - s.settled) as nat,
        Phase::Done => 0,
    }
}

/// A session begins in a state that it can be in.
pub proof fn lemma_start_wf(cluster: Seq<char>, task: Seq<char>, ports: Seq<Seq<char>>)
    ensures
        ForwardView::start(cluster, task, ports).0.wf(),
{
}

/// Every step leads from a state that a session can be in to another one.
pub proof fn lemma_next_wf(s: ForwardView, event: Event)
    requires
        s.wf(),
    ensures
        s.next(event) matches Some((t, _)) ==> t.wf(),
{
}

/// Without a port mapping the command fails at once with an invalid
/// argument: nothing is asked of the remote service and no process is
/// started.
pub proof fn lemma_no_ports(cluster: Seq<char>, task: Seq<char>)
    ensures
        ForwardView::start(cluster, task, Seq::empty()).1 == ActionView::Finish(
            Err(Error::InvalidArgument(ArgumentFault::NoPortSpecified)),
        ),
        ForwardView::start(cluster, task, Seq::empty()).0.phase == Phase::Done,
        ForwardView::start(cluster, task, Seq::empty()).0.spawned == 0,
{
}

/// With at least one port mapping the command begins by asking for the
/// task's description.
pub proof fn lemma_some_ports(cluster: Seq<char>, task: Seq<char>, ports: Seq<Seq<char>>)
    requires
        ports.len() > 0,
    ensures
        ForwardView::start(cluster, task, ports).1 == (ActionView::DescribeTask { cluster, task }),
        ForwardView::start(cluster, task, ports).0.phase == Phase::Resolving,
{
}

/// The command ends only when every process that was started has been
/// terminated, and it ends with the first failure that was met, if any.
/// Ending is the only way into `Done`.
pub proof fn lemma_finish_after_all_terminated(s: ForwardView, event: Event)
    requires
        s.wf(),
    ensures
        s.next(event) matches Some((t, action)) ==> ((action is Finish) <==> t.phase
            == Phase::Done),
        s.next(event) matches Some((t, ActionView::Finish(outcome))) ==> t.settled == t.spawned
            && outcome == t.outcome,
{
}

/// Each process is started for one mapping, the next in the operator's
/// order, with the arguments of that mapping alone and the session's
/// target. The target does not change from one process to the next.
pub proof fn lemma_one_process_per_mapping(s: ForwardView, event: Event)
    requires
        s.wf(),
    ensures
        s.next(event) matches Some((t, ActionView::Spawn { arguments })) ==> {
            &&& t.phase == Phase::Spawning
            &&& t.spawned < t.ports.len()
            &&& mapping_parts(t.ports[t.spawned as int]) matches Some((local, remote))
                && arguments == forward_arguments(t.target, local, remote)
            &&& arguments[3] == t.target
            &&& s.phase == Phase::Spawning ==> t.target == s.target && t.spawned == s.spawned + 1
            &&& s.phase == Phase::Resolving ==> t.spawned == 0
        },
        s.next(event) matches Some((t, ActionView::AwaitInterrupt)) ==> t.phase == Phase::Running
            && t.spawned == t.ports.len(),
{
}

/// An interrupt while the processes run begins the shutdown with the first
/// process. Each report on a termination, failed or not, moves on to the
/// next process until none is left.
pub proof fn lemma_interrupt_terminates_all(s: ForwardView, event: Event)
    requires
        s.wf(),
    ensures
        s.phase == Phase::Running ==> s.next(Event::Interrupted) == Some(
            (
                ForwardView { phase: Phase::ShuttingDown, ..s },
                ActionView::Terminate { child: 0 },
            ),
        ),
        s.phase == Phase::ShuttingDown && (event is Terminated || event is TerminateFailed) ==> (
        s.next(event) matches Some((t, action)) && t.settled == s.settled + 1 && (if t.settled
            < t.spawned {
            action == (ActionView::Terminate { child: t.settled })
        } else {
            action is Finish
        })),
        s.next(event) matches Some((t, ActionView::Terminate { child })) ==> child == t.settled
            && child < t.spawned && t.phase == Phase::ShuttingDown,
{
}

/// What the operator asked for never changes, no process is forgotten, and
/// the target stays once the container is resolved.
pub proof fn lemma_next_keeps(s: ForwardView, event: Event)
    requires
        s.wf(),
    ensures
        s.next(event) matches Some((t, _)) ==> {
            &&& t.cluster == s.cluster
            &&& t.task == s.task
            &&& t.ports == s.ports
            &&& s.spawned <= t.spawned <= s.spawned + 1
            &&& s.settled <= t.settled <= s.settled + 1
            &&& s.phase != Phase::Resolving ==> t.target == s.target
            &&& s.outcome is Err ==> t.outcome == s.outcome
        },
{
}

/// Every step brings the end nearer, so a session takes only finitely many
/// events; and once the command has ended it takes none.
pub proof fn lemma_progress(s: ForwardView, event: Event)
    requires
        s.wf(),
    ensures
        s.next(event) matches Some((t, _)) ==> events_left(t) < events_left(s),
        s.phase == Phase::Done ==> s.next(event) is None,
{
}

} // verus!
