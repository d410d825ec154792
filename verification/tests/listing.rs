use opfyx::inspect::get_containers;
use opfyx::listing::{append_clusters, append_tasks, cluster_table, container_table, task_table};
use opfyx::paginate::Paginator;
use opfyx::records::{
    ClusterDescription, ClusterRecord, ContainerDescription, TaskDescription, TaskRecord,
};

fn cluster(arn: &str, name: &str) -> ClusterDescription {
    ClusterDescription { cluster_arn: Some(arn.to_string()), cluster_name: Some(name.to_string()) }
}

fn task(arn: &str) -> TaskDescription {
    TaskDescription {
        task_arn: Some(arn.to_string()),
        group: Some("g".to_string()),
        availability_zone: Some("az".to_string()),
        cpu: Some("256".to_string()),
        memory: Some("512".to_string()),
        containers: vec![],
    }
}

#[test]
fn two_clusters_on_two_pages_are_listed_in_page_order() {
    type Page = Vec<ClusterDescription>;
    let mut paginator = Paginator::new(());
    let mut records: Vec<ClusterRecord> = Vec::new();
    let mut calls = 0;
    loop {
        let op = |_: (), token: Option<String>| -> Result<(Page, (), Option<String>), ()> {
            match token.as_deref() {
                None => Ok((vec![cluster("arn:c/one", "one")], (), Some("page-2".to_string()))),
                Some("page-2") => Ok((vec![cluster("arn:c/two", "two")], (), None)),
                Some(other) => panic!("unknown token {}", other),
            }
        };
        match paginator.next_page(op) {
            Some(Ok(page)) => {
                calls += 1;
                append_clusters(&mut records, &page);
            }
            Some(Err(())) => panic!("the listing failed"),
            None => break,
        }
    }
    assert_eq!(calls, 2);
    assert_eq!(
        records,
        vec![
            ClusterRecord { arn: "arn:c/one".to_string(), name: "one".to_string() },
            ClusterRecord { arn: "arn:c/two".to_string(), name: "two".to_string() },
        ]
    );
}

#[test]
fn pages_are_appended_without_sorting() {
    let mut records: Vec<ClusterRecord> = Vec::new();
    append_clusters(&mut records, &vec![cluster("z", "z"), cluster("a", "a")]);
    append_clusters(&mut records, &vec![]);
    append_clusters(&mut records, &vec![cluster("m", "m")]);
    let arns: Vec<&str> = records.iter().map(|r| r.arn.as_str()).collect();
    assert_eq!(arns, vec!["z", "a", "m"]);
}

#[test]
fn task_pages_are_appended_in_order() {
    let mut records: Vec<TaskRecord> = Vec::new();
    append_tasks(&mut records, &vec![task("arn:task/c/t2"), task("arn:task/c/t1")]);
    append_tasks(&mut records, &vec![task("arn:task/c/t3")]);
    let ids: Vec<&str> = records.iter().map(|r| r.id.as_str()).collect();
    assert_eq!(ids, vec!["t2", "t1", "t3"]);
}

#[test]
fn cluster_table_layout() {
    let mut records: Vec<ClusterRecord> = Vec::new();
    append_clusters(&mut records, &vec![cluster("arn:1", "alpha")]);
    let expected = [
        "+-------+-------+",
        "| Arn   | Name  |",
        "+===============+",
        "| arn:1 | alpha |",
        "+-------+-------+",
    ]
    .join("\n");
    assert_eq!(cluster_table(&records), expected);
}

#[test]
fn cluster_table_without_rows_has_titles_only() {
    let expected =
        ["+-----+------+", "| Arn | Name |", "+============+", "+-----+------+"].join("\n");
    assert_eq!(cluster_table(&Vec::new()), expected);
}

#[test]
fn task_table_has_one_line_per_task() {
    let mut records: Vec<TaskRecord> = Vec::new();
    append_tasks(&mut records, &vec![task("arn:task/c/t1"), task("arn:task/c/t2")]);
    let text = task_table(&records);
    let lines: Vec<&str> = text.lines().collect();
    assert_eq!(lines[1], "| Task Id | Group | AZ | Cpu | Memory |");
    assert_eq!(lines[3], "| t1      | g     | az | 256 | 512    |");
    assert_eq!(lines[5], "| t2      | g     | az | 256 | 512    |");
    assert_eq!(lines.len(), 7);
}

#[test]
fn container_table_shows_exit_codes() {
    let tasks = vec![TaskDescription {
        task_arn: Some("arn:task/c/t1".to_string()),
        group: None,
        availability_zone: None,
        cpu: None,
        memory: None,
        containers: vec![
            ContainerDescription {
                name: Some("web".to_string()),
                runtime_id: Some("rt-1".to_string()),
                image: Some("nginx".to_string()),
                exit_code: None,
            },
            ContainerDescription {
                name: Some("init".to_string()),
                runtime_id: None,
                image: Some("busybox".to_string()),
                exit_code: Some(0),
            },
        ],
    }];
    let snapshot = get_containers(&tasks).unwrap();
    let expected = [
        "+------+------+---------+-----------+",
        "| Name | ID   | Image   | Exit Code |",
        "+===================================+",
        "| web  | rt-1 | nginx   |           |",
        "|------+------+---------+-----------|",
        "| init |      | busybox | 0         |",
        "+------+------+---------+-----------+",
    ]
    .join("\n");
    assert_eq!(container_table(&snapshot.containers), expected);
}
