//! What the remote service describes, and the records shown for it.
//!
//! A description holds the fields as they came, any of them possibly absent.
//! A record holds what is displayed: an absent text is shown as empty text.

use crate::decimal::{decimal, decimal_string};
use crate::text::{final_segment, last_segment, texts};
use vstd::prelude::*;
use vstd::string::*;

verus! {

/// A cluster as the remote service describes it.
#[derive(Debug)]
pub struct ClusterDescription {
    pub cluster_arn: Option<String>,
    pub cluster_name: Option<String>,
}

/// A container as the remote service describes it.
#[derive(Debug)]
pub struct ContainerDescription {
    pub name: Option<String>,
    pub runtime_id: Option<String>,
    pub image: Option<String>,
    pub exit_code: Option<i32>,
}

/// A task as the remote service describes it, with its containers in order.
#[derive(Debug)]
pub struct TaskDescription {
    pub task_arn: Option<String>,
    pub group: Option<String>,
    pub availability_zone: Option<String>,
    pub cpu: Option<String>,
    pub memory: Option<String>,
    pub containers: Vec<ContainerDescription>,
}

/// A cluster, identified by its ARN.
#[derive(Debug, PartialEq, Eq)]
pub struct ClusterRecord {
    pub arn: String,
    pub name: String,
}

/// A task, identified by the last segment of its ARN.
#[derive(Debug, PartialEq, Eq)]
pub struct TaskRecord {
    pub id: String,
    pub group: String,
    pub availability_zone: String,
    pub cpu: String,
    pub memory: String,
}

/// A container of a task. It is still running while it has no exit code.
#[derive(Debug, PartialEq, Eq)]
pub struct ContainerRecord {
    pub name: String,
    pub runtime_id: Option<String>,
    pub image: String,
    pub exit_code: Option<i32>,
}

pub struct ClusterView {
    pub arn: Seq<char>,
    pub name: Seq<char>,
}

pub struct TaskView {
    pub id: Seq<char>,
    pub group: Seq<char>,
    pub availability_zone: Seq<char>,
    pub cpu: Seq<char>,
    pub memory: Seq<char>,
}

pub struct ContainerView {
    pub name: Seq<char>,
    pub runtime_id: Option<Seq<char>>,
    pub image: Seq<char>,
    pub exit_code: Option<i32>,
}

/// The text of a field, empty where the field is absent.
pub open spec fn shown(field: Option<String>) -> Seq<char> {
    match field {
        Some(s) => s@,
        None => Seq::empty(),
    }
}

/// The text of a field where it is present.
pub open spec fn present(field: Option<String>) -> Option<Seq<char>> {
    match field {
        Some(s) => Some(s@),
        None => None,
    }
}

/// The id of the task with this ARN: what follows the ARN's last `/`.
pub open spec fn task_id_text(arn: Seq<char>) -> Seq<char> {
    final_segment(arn, '/')
}

impl View for ClusterRecord {
    type V = ClusterView;

    open spec fn view(&self) -> ClusterView {
        ClusterView { arn: self.arn@, name: self.name@ }
    }
}

impl View for TaskRecord {
    type V = TaskView;

    open spec fn view(&self) -> TaskView {
        TaskView {
            id: self.id@,
            group: self.group@,
            availability_zone: self.availability_zone@,
            cpu: self.cpu@,
            memory: self.memory@,
        }
    }
}

impl View for ContainerRecord {
    type V = ContainerView;

    open spec fn view(&self) -> ContainerView {
        ContainerView {
            name: self.name@,
            runtime_id: present(self.runtime_id),
            image: self.image@,
            exit_code: self.exit_code,
        }
    }
}

impl ClusterDescription {
    /// The record of this cluster.
    pub open spec fn record(self) -> ClusterView {
        ClusterView { arn: shown(self.cluster_arn), name: shown(self.cluster_name) }
    }
}

impl ContainerDescription {
    /// The record of this container.
    pub open spec fn record(self) -> ContainerView {
        ContainerView {
            name: shown(self.name),
            runtime_id: present(self.runtime_id),
            image: shown(self.image),
            exit_code: self.exit_code,
        }
    }
}

impl TaskDescription {
    /// The record of the described task.
    pub open spec fn record(self) -> TaskView {
        TaskView {
            id: task_id_text(shown(self.task_arn)),
            group: shown(self.group),
            availability_zone: shown(self.availability_zone),
            cpu: shown(self.cpu),
            memory: shown(self.memory),
        }
    }

    /// The records of the containers, in order.
    pub open spec fn container_records(self) -> Seq<ContainerView> {
        Seq::new(self.containers@.len(), |i: int| self.containers@[i].record())
    }
}

impl ClusterView {
    /// The cells shown for a cluster: ARN, name.
    pub open spec fn row(self) -> Seq<Seq<char>> {
        seq![self.arn, self.name]
    }
}

impl TaskView {
    /// The cells shown for a task: id, group, availability zone, cpu, memory.
    pub open spec fn row(self) -> Seq<Seq<char>> {
        seq![self.id, self.group, self.availability_zone, self.cpu, self.memory]
    }
}

impl ContainerView {
    /// Whether the container has not exited.
    pub open spec fn running(self) -> bool {
        self.exit_code is None
    }

    /// The cells shown for a container: name, runtime id, image, exit code.
    /// A missing runtime id and a missing exit code are shown as empty text.
    pub open spec fn row(self) -> Seq<Seq<char>> {
        seq![
            self.name,
            match self.runtime_id {
                Some(id) => id,
                None => Seq::empty(),
            },
            self.image,
            match self.exit_code {
                Some(code) => decimal(code as int),
                None => Seq::empty(),
            },
        ]
    }
}

/// The column titles of a cluster listing.
pub open spec fn cluster_titles() -> Seq<Seq<char>> {
    seq!["Arn"@, "Name"@]
}

/// The column titles of a task listing.
pub open spec fn task_titles() -> Seq<Seq<char>> {
    seq!["Task Id"@, "Group"@, "AZ"@, "Cpu"@, "Memory"@]
}

/// The column titles of a container listing.
pub open spec fn container_titles() -> Seq<Seq<char>> {
    seq!["Name"@, "ID"@, "Image"@, "Exit Code"@]
}

/// A copy of the field's text, empty where the field is absent.
pub fn text_or_empty(field: &Option<String>) -> (text: String)
    ensures
        text@ == shown(*field),
{
    match field {
        Some(s) => s.clone(),
        None => String::new(),
    }
}

/// A copy of the field.
pub fn text_if_present(field: &Option<String>) -> (copy: Option<String>)
    ensures
        present(copy) == present(*field),
{
    match field {
        Some(s) => Some(s.clone()),
        None => None,
    }
}

/// The id of the task with this ARN.
pub fn task_id(arn: &str) -> (id: String)
    ensures
        id@ == task_id_text(arn@),
{
    last_segment(arn, '/')
}

impl ClusterRecord {
    /// The record of a described cluster.
    pub fn from_description(d: &ClusterDescription) -> (r: ClusterRecord)
        ensures
            r@ == d.record(),
    {
        ClusterRecord { arn: text_or_empty(&d.cluster_arn), name: text_or_empty(&d.cluster_name) }
    }

    /// The cells shown for this cluster.
    pub fn row(&self) -> (cells: Vec<String>)
        ensures
            texts(cells@) == self@.row(),
    {
        let mut cells: Vec<String> = Vec::new();
        cells.push(self.arn.clone());
        cells.push(self.name.clone());
        assert(texts(cells@) =~= self@.row());
        cells
    }
}

impl TaskRecord {
    /// The record of a described task.
    pub fn from_description(d: &TaskDescription) -> (r: TaskRecord)
        ensures
            r@ == d.record(),
    {
        let arn = text_or_empty(&d.task_arn);
        TaskRecord {
            id: task_id(arn.as_str()),
            group: text_or_empty(&d.group),
            availability_zone: text_or_empty(&d.availability_zone),
            cpu: text_or_empty(&d.cpu),
            memory: text_or_empty(&d.memory),
        }
    }

    /// The cells shown for a task.
    pub fn row(&self) -> (cells: Vec<String>)
        ensures
            texts(cells@) == self@.row(),
    {
        let mut cells: Vec<String> = Vec::new();
        cells.push(self.id.clone());
        cells.push(self.group.clone());
        cells.push(self.availability_zone.clone());
        cells.push(self.cpu.clone());
        cells.push(self.memory.clone());
        assert(texts(cells@) =~= self@.row());
        cells
    }
}

impl ContainerRecord {
    /// The record of a described container.
    pub fn from_description(d: &ContainerDescription) -> (r: ContainerRecord)
        ensures
            r@ == d.record(),
    {
        ContainerRecord {
            name: text_or_empty(&d.name),
            runtime_id: text_if_present(&d.runtime_id),
            image: text_or_empty(&d.image),
            exit_code: d.exit_code,
        }
    }

    /// Whether the container has not exited.
    pub fn is_running(&self) -> (b: bool)
        ensures
            b == self@.running(),
    {
        self.exit_code.is_none()
    }

    /// The cells shown for this container.
    pub fn row(&self) -> (cells: Vec<String>)
        ensures
            texts(cells@) == self@.row(),
    {
        let mut cells: Vec<String> = Vec::new();
        cells.push(self.name.clone());
        cells.push(text_or_empty(&self.runtime_id));
        cells.push(self.image.clone());
        let code = match self.exit_code {
            Some(code) => decimal_string(code),
            None => String::new(),
        };
        cells.push(code);
        assert(texts(cells@) =~= self@.row());
        cells
    }
}

} // verus!
