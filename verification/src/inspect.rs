//! Looking into one task: its containers, and the one a session attaches to.

use crate::error::Error;
use crate::records::{
    ContainerDescription, ContainerRecord, ContainerView, TaskDescription, TaskRecord, TaskView,
};
use crate::session::{session_target, target_text};
use vstd::prelude::*;
use vstd::string::*;

verus! {

/// Which container of a task a session attaches to.
#[derive(Debug)]
pub enum ContainerFilter {
    /// The first container that has not exited.
    FirstRunning,
    /// The first container with exactly this name.
    Named(String),
}

pub enum FilterView {
    FirstRunning,
    Named(Seq<char>),
}

impl View for ContainerFilter {
    type V = FilterView;

    open spec fn view(&self) -> FilterView {
        match self {
            ContainerFilter::FirstRunning => FilterView::FirstRunning,
            ContainerFilter::Named(name) => FilterView::Named(name@),
        }
    }
}

impl FilterView {
    /// Whether the filter accepts this container. A container that has an
    /// exit code is never running, whatever its name.
    pub open spec fn admits(self, c: ContainerView) -> bool {
        match self {
            FilterView::FirstRunning => c.running(),
            FilterView::Named(name) => c.name == name,
        }
    }

    /// The failure reported where the filter accepts no container.
    pub open spec fn miss(self) -> Error {
        match self {
            FilterView::FirstRunning => Error::NoRunningContainer,
            FilterView::Named(_) => Error::ContainerNotFound,
        }
    }
}

/// The first container in order that the filter accepts.
pub open spec fn first_admitted(containers: Seq<ContainerView>, filter: FilterView) -> Option<
    ContainerView,
>
    decreases containers.len(),
{
    if containers.len() == 0 {
        None
    } else if filter.admits(containers[0]) {
        Some(containers[0])
    } else {
        first_admitted(containers.drop_first(), filter)
    }
}

/// The container that a session on the described task attaches to. Only the
/// first task of the answer counts.
pub open spec fn resolved(tasks: Seq<TaskDescription>, filter: FilterView) -> Result<
    ContainerView,
    Error,
> {
    if tasks.len() == 0 {
        Err(Error::NotFound)
    } else {
        match first_admitted(tasks[0].container_records(), filter) {
            Some(c) => Ok(c),
            None => Err(filter.miss()),
        }
    }
}

/// The session target on the described task, for the container that the
/// filter picks.
pub open spec fn resolved_target(
    cluster: Seq<char>,
    task: Seq<char>,
    tasks: Seq<TaskDescription>,
    filter: FilterView,
) -> Result<Seq<char>, Error> {
    match resolved(tasks, filter) {
        Ok(c) => match c.runtime_id {
            Some(id) => Ok(target_text(cluster, task, id)),
            None => Err(Error::MissingRuntimeId),
        },
        Err(e) => Err(e),
    }
}

/// Where no container before `k` is accepted, the first accepted one is the
/// first accepted one from `k` on.
pub proof fn lemma_first_admitted_skip(containers: Seq<ContainerView>, filter: FilterView, k: int)
    requires
        0 <= k <= containers.len(),
        forall|j: int| 0 <= j < k ==> !filter.admits(#[trigger] containers[j]),
    ensures
        first_admitted(containers, filter) == first_admitted(
            containers.subrange(k, containers.len() as int),
            filter,
        ),
    decreases k,
{
    if k == 0 {
        assert(containers.subrange(0, containers.len() as int) =~= containers);
    } else {
        let rest = containers.drop_first();
        assert(!filter.admits(containers[0]));
        assert forall|j: int| 0 <= j < k - 1 implies !filter.admits(#[trigger] rest[j]) by {
            assert(rest[j] == containers[j + 1]);
        }
        lemma_first_admitted_skip(rest, filter, k - 1);
        assert(rest.subrange(k - 1, rest.len() as int) =~= containers.subrange(
            k,
            containers.len() as int,
        ));
    }
}

/// A task with its containers, as shown to the operator.
#[derive(Debug, PartialEq, Eq)]
pub struct TaskSnapshot {
    pub task: TaskRecord,
    pub containers: Vec<ContainerRecord>,
}

/// The records that a list of containers stands for.
pub open spec fn container_views(records: Seq<ContainerRecord>) -> Seq<ContainerView> {
    Seq::new(records.len(), |i: int| records[i]@)
}

/// The first task of a describe answer with all its containers in order;
/// `NotFound` where the answer holds no task.
pub fn get_containers(tasks: &Vec<TaskDescription>) -> (r: Result<TaskSnapshot, Error>)
    ensures
        match r {
            Ok(snapshot) => tasks@.len() > 0 && snapshot.task@ == tasks@[0].record()
                && container_views(snapshot.containers@) == tasks@[0].container_records(),
            Err(e) => tasks@.len() == 0 && e == Error::NotFound,
        },
{
    if tasks.len() == 0 {
        return Err(Error::NotFound);
    }
    let described = &tasks[0];
    let mut containers: Vec<ContainerRecord> = Vec::new();
    let mut i: usize = 0;
    while i < described.containers.len()
        invariant
            i <= described.containers@.len(),
            containers@.len() == i,
            forall|j: int| 0 <= j < i ==> containers@[j]@ == described.containers@[j].record(),
        decreases described.containers@.len() - i,
    {
        containers.push(ContainerRecord::from_description(&described.containers[i]));
        i += 1;
    }
    assert(container_views(containers@) =~= described.container_records());
    Ok(TaskSnapshot { task: TaskRecord::from_description(described), containers })
}

impl ContainerFilter {
    /// Whether the filter accepts the described container.
    pub fn admits(&self, d: &ContainerDescription) -> (b: bool)
        ensures
            b == self@.admits(d.record()),
    {
        match self {
            ContainerFilter::FirstRunning => d.exit_code.is_none(),
            ContainerFilter::Named(name) => match &d.name {
                Some(n) => *n == *name,
                None => {
                    assert(name@.len() == 0 ==> name@ =~= Seq::<char>::empty());
                    name.as_str().is_empty()
                },
            },
        }
    }

    /// The failure reported where the filter accepts no container.
    pub fn miss(&self) -> (e: Error)
        ensures
            e == self@.miss(),
    {
        match self {
            ContainerFilter::FirstRunning => Error::NoRunningContainer,
            ContainerFilter::Named(_) => Error::ContainerNotFound,
        }
    }
}

/// Picks the container of the described task that a session attaches to:
/// the first one, in the order of the answer, that the filter accepts.
pub fn resolve_running_container(tasks: &Vec<TaskDescription>, filter: &ContainerFilter) -> (r:
    Result<ContainerRecord, Error>)
    ensures
        match r {
            Ok(c) => resolved(tasks@, filter@) == Ok::<ContainerView, Error>(c@),
            Err(e) => resolved(tasks@, filter@) == Err::<ContainerView, Error>(e),
        },
{
    if tasks.len() == 0 {
        return Err(Error::NotFound);
    }
    let described = &tasks[0];
    let ghost all = described.container_records();
    let mut i: usize = 0;
    while i < described.containers.len()
        invariant
            i <= described.containers@.len(),
            tasks@.len() > 0,
            *described == tasks@[0],
            all == described.container_records(),
            forall|j: int| 0 <= j < i ==> !filter@.admits(#[trigger] all[j]),
        decreases described.containers@.len() - i,
    {
        assert(all[i as int] == described.containers@[i as int].record());
        if filter.admits(&described.containers[i]) {
            proof {
                lemma_first_admitted_skip(all, filter@, i as int);
                let rest = all.subrange(i as int, all.len() as int);
                assert(rest.len() > 0 && rest[0] == all[i as int]);
            }
            return Ok(ContainerRecord::from_description(&described.containers[i]));
        }
        i += 1;
    }
    proof {
        lemma_first_admitted_skip(all, filter@, i as int);
    }
    Err(filter.miss())
}

/// Composes the session target for the container that the filter picks in
/// the described task. The container must carry a runtime id.
pub fn resolve_target(
    cluster: &str,
    task: &str,
    tasks: &Vec<TaskDescription>,
    filter: &ContainerFilter,
) -> (r: Result<String, Error>)
    ensures
        match r {
            Ok(target) => resolved_target(cluster@, task@, tasks@, filter@) == Ok::<
                Seq<char>,
                Error,
            >(target@),
            Err(e) => resolved_target(cluster@, task@, tasks@, filter@) == Err::<Seq<char>, Error>(
                e,
            ),
        },
{
    match resolve_running_container(tasks, filter) {
        Ok(c) => match &c.runtime_id {
            Some(id) => Ok(session_target(cluster, task, id.as_str())),
            None => Err(Error::MissingRuntimeId),
        },
        Err(e) => Err(e),
    }
}

/// The container that is picked is accepted by the filter and no container
/// before it is; none is picked exactly where the filter accepts none.
pub proof fn lemma_first_admitted(containers: Seq<ContainerView>, filter: FilterView)
    ensures
        match first_admitted(containers, filter) {
            Some(c) => exists|i: int|
                {
                    &&& 0 <= i < containers.len()
                    &&& containers[i] == c
                    &&& filter.admits(c)
                    &&& forall|j: int| 0 <= j < i ==> !filter.admits(#[trigger] containers[j])
                },
            None => forall|j: int|
                0 <= j < containers.len() ==> !filter.admits(#[trigger] containers[j]),
        },
    decreases containers.len(),
{
    if containers.len() > 0 && !filter.admits(containers[0]) {
        let rest = containers.drop_first();
        lemma_first_admitted(rest, filter);
        match first_admitted(rest, filter) {
            Some(c) => {
                let i = choose|i: int|
                    {
                        &&& 0 <= i < rest.len()
                        &&& rest[i] == c
                        &&& filter.admits(c)
                        &&& forall|j: int| 0 <= j < i ==> !filter.admits(#[trigger] rest[j])
                    };
                assert(containers[i + 1] == c);
                assert forall|j: int| 0 <= j < i + 1 implies !filter.admits(
                    #[trigger] containers[j],
                ) by {
                    if j > 0 {
                        assert(containers[j] == rest[j - 1]);
                    }
                }
            },
            None => {
                assert forall|j: int| 0 <= j < containers.len() implies !filter.admits(
                    #[trigger] containers[j],
                ) by {
                    if j > 0 {
                        assert(containers[j] == rest[j - 1]);
                    }
                }
            },
        }
    }
}

/// Where every container of the task has an exit code, looking for the
/// first running one fails with `NoRunningContainer`.
pub proof fn lemma_none_running(tasks: Seq<TaskDescription>)
    requires
        tasks.len() > 0,
        forall|i: int|
            0 <= i < tasks[0].container_records().len() ==> (
            #[trigger] tasks[0].container_records()[i]).exit_code is Some,
    ensures
        resolved(tasks, FilterView::FirstRunning) == Err::<ContainerView, Error>(
            Error::NoRunningContainer,
        ),
{
    let containers = tasks[0].container_records();
    lemma_first_admitted(containers, FilterView::FirstRunning);
}

/// Where exactly one container of the task has no exit code, looking for
/// the first running one finds that container, wherever it stands.
pub proof fn lemma_only_running(tasks: Seq<TaskDescription>, at: int)
    requires
        tasks.len() > 0,
        0 <= at < tasks[0].container_records().len(),
        forall|i: int|
            0 <= i < tasks[0].container_records().len() ==> ((
            #[trigger] tasks[0].container_records()[i]).exit_code is None <==> i == at),
    ensures
        resolved(tasks, FilterView::FirstRunning) == Ok::<ContainerView, Error>(
            tasks[0].container_records()[at],
        ),
{
    let containers = tasks[0].container_records();
    lemma_first_admitted(containers, FilterView::FirstRunning);
    assert(FilterView::FirstRunning.admits(containers[at]));
}

/// An answer without any task is `NotFound`, whatever the filter.
pub proof fn lemma_no_task(filter: FilterView)
    ensures
        resolved(Seq::<TaskDescription>::empty(), filter) == Err::<ContainerView, Error>(
            Error::NotFound,
        ),
{
}

} // verus!
