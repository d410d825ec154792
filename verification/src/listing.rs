//! Listings: the records of the pages fetched so far, in the order in which
//! they arrived, and the tables shown for them.

use crate::records::{
    cluster_titles, container_titles, task_titles, ClusterDescription, ClusterRecord, ClusterView,
    ContainerRecord, ContainerView, TaskDescription, TaskRecord, TaskView,
};
use crate::table::{render, row_texts, table_text};
use crate::text::texts;
use vstd::prelude::*;
use vstd::string::*;

verus! {

/// The records that a list of clusters stands for.
pub open spec fn cluster_views(records: Seq<ClusterRecord>) -> Seq<ClusterView> {
    Seq::new(records.len(), |i: int| records[i]@)
}

/// The records that a list of tasks stands for.
pub open spec fn task_views(records: Seq<TaskRecord>) -> Seq<TaskView> {
    Seq::new(records.len(), |i: int| records[i]@)
}

/// The records of one page of described clusters, in the page's order.
pub open spec fn described_clusters(page: Seq<ClusterDescription>) -> Seq<ClusterView> {
    Seq::new(page.len(), |i: int| page[i].record())
}

/// The records of one page of described tasks, in the page's order.
pub open spec fn described_tasks(page: Seq<TaskDescription>) -> Seq<TaskView> {
    Seq::new(page.len(), |i: int| page[i].record())
}

/// The rows shown for a list of clusters.
pub open spec fn cluster_rows(records: Seq<ClusterView>) -> Seq<Seq<Seq<char>>> {
    Seq::new(records.len(), |i: int| records[i].row())
}

/// The rows shown for a list of tasks.
pub open spec fn task_rows(records: Seq<TaskView>) -> Seq<Seq<Seq<char>>> {
    Seq::new(records.len(), |i: int| records[i].row())
}

/// The rows shown for a list of containers.
pub open spec fn container_rows(records: Seq<ContainerView>) -> Seq<Seq<Seq<char>>> {
    Seq::new(records.len(), |i: int| records[i].row())
}

/// Adds the records of one page behind those of the pages before it.
pub fn append_clusters(records: &mut Vec<ClusterRecord>, page: &Vec<ClusterDescription>)
    ensures
        cluster_views(final(records)@) == cluster_views(old(records)@) + described_clusters(page@),
{
    let mut i: usize = 0;
    while i < page.len()
        invariant
            i <= page@.len(),
            cluster_views(records@) == cluster_views(old(records)@) + described_clusters(
                page@.take(i as int),
            ),
        decreases page@.len() - i,
    {
        let ghost before = records@;
        records.push(ClusterRecord::from_description(&page[i]));
        assert(cluster_views(records@) =~= cluster_views(before).push(page@[i as int].record()));
        assert(described_clusters(page@.take(i + 1)) =~= described_clusters(
            page@.take(i as int),
        ).push(page@[i as int].record()));
        i += 1;
    }
    assert(page@.take(i as int) =~= page@);
}

/// Adds the records of one page behind those of the pages before it.
pub fn append_tasks(records: &mut Vec<TaskRecord>, page: &Vec<TaskDescription>)
    ensures
        task_views(final(records)@) == task_views(old(records)@) + described_tasks(page@),
{
    let mut i: usize = 0;
    while i < page.len()
        invariant
            i <= page@.len(),
            task_views(records@) == task_views(old(records)@) + described_tasks(
                page@.take(i as int),
            ),
        decreases page@.len() - i,
    {
        let ghost before = records@;
        records.push(TaskRecord::from_description(&page[i]));
        assert(task_views(records@) =~= task_views(before).push(page@[i as int].record()));
        assert(described_tasks(page@.take(i + 1)) =~= described_tasks(page@.take(i as int)).push(
            page@[i as int].record(),
        ));
        i += 1;
    }
    assert(page@.take(i as int) =~= page@);
}

/// The table of a cluster listing: one row per cluster, in the given order.
pub fn cluster_table(records: &Vec<ClusterRecord>) -> (text: String)
    ensures
        text@ == table_text(cluster_titles(), cluster_rows(cluster_views(records@))),
{
    let mut titles: Vec<String> = Vec::new();
    titles.push(String::from_str("Arn"));
    titles.push(String::from_str("Name"));
    assert(texts(titles@) =~= cluster_titles());
    let mut rows: Vec<Vec<String>> = Vec::new();
    let mut i: usize = 0;
    while i < records.len()
        invariant
            i <= records@.len(),
            rows@.len() == i,
            forall|j: int| 0 <= j < i ==> texts(#[trigger] rows@[j]@) == records@[j]@.row(),
        decreases records@.len() - i,
    {
        rows.push(records[i].row());
        i += 1;
    }
    assert(row_texts(rows@) =~= cluster_rows(cluster_views(records@)));
    render(titles, rows)
}

/// The table of a task listing: one row per task, in the given order.
pub fn task_table(records: &Vec<TaskRecord>) -> (text: String)
    ensures
        text@ == table_text(task_titles(), task_rows(task_views(records@))),
{
    let mut titles: Vec<String> = Vec::new();
    titles.push(String::from_str("Task Id"));
    titles.push(String::from_str("Group"));
    titles.push(String::from_str("AZ"));
    titles.push(String::from_str("Cpu"));
    titles.push(String::from_str("Memory"));
    assert(texts(titles@) =~= task_titles());
    let mut rows: Vec<Vec<String>> = Vec::new();
    let mut i: usize = 0;
    while i < records.len()
        invariant
            i <= records@.len(),
            rows@.len() == i,
            forall|j: int| 0 <= j < i ==> texts(#[trigger] rows@[j]@) == records@[j]@.row(),
        decreases records@.len() - i,
    {
        rows.push(records[i].row());
        i += 1;
    }
    assert(row_texts(rows@) =~= task_rows(task_views(records@)));
    render(titles, rows)
}

/// The table of a task's containers: one row per container, in the given
/// order.
pub fn container_table(records: &Vec<ContainerRecord>) -> (text: String)
    ensures
        text@ == table_text(
            container_titles(),
            container_rows(crate::inspect::container_views(records@)),
        ),
{
    let mut titles: Vec<String> = Vec::new();
    titles.push(String::from_str("Name"));
    titles.push(String::from_str("ID"));
    titles.push(String::from_str("Image"));
    titles.push(String::from_str("Exit Code"));
    assert(texts(titles@) =~= container_titles());
    let mut rows: Vec<Vec<String>> = Vec::new();
    let mut i: usize = 0;
    while i < records.len()
        invariant
            i <= records@.len(),
            rows@.len() == i,
            forall|j: int| 0 <= j < i ==> texts(#[trigger] rows@[j]@) == records@[j]@.row(),
        decreases records@.len() - i,
    {
        rows.push(records[i].row());
        i += 1;
    }
    assert(row_texts(rows@) =~= container_rows(crate::inspect::container_views(records@)));
    render(titles, rows)
}

/// Listing two pages one after the other gives the records of the first page
/// followed by those of the second: page order is kept and nothing is
/// sorted.
pub proof fn lemma_cluster_pages_in_order(
    first: Seq<ClusterDescription>,
    second: Seq<ClusterDescription>,
)
    ensures
        described_clusters(first + second) == described_clusters(first) + described_clusters(
            second,
        ),
        described_clusters(first + second).len() == first.len() + second.len(),
{
    assert(described_clusters(first + second) =~= described_clusters(first) + described_clusters(
        second,
    ));
}

/// Listing two pages one after the other gives the records of the first page
/// followed by those of the second: page order is kept and nothing is
/// sorted.
pub proof fn lemma_task_pages_in_order(first: Seq<TaskDescription>, second: Seq<TaskDescription>)
    ensures
        described_tasks(first + second) == described_tasks(first) + described_tasks(second),
        described_tasks(first + second).len() == first.len() + second.len(),
{
    assert(described_tasks(first + second) =~= described_tasks(first) + described_tasks(second));
}

} // verus!
