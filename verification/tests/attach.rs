use opfyx::action::{Action, Event};
use opfyx::attach::{Exec, ExecPhase};
use opfyx::error::Error;
use opfyx::records::{ContainerDescription, TaskDescription};

fn container(name: &str, runtime_id: Option<&str>, exit_code: Option<i32>) -> ContainerDescription {
    ContainerDescription {
        name: Some(name.to_string()),
        runtime_id: runtime_id.map(|id| id.to_string()),
        image: None,
        exit_code,
    }
}

fn described(containers: Vec<ContainerDescription>) -> Event {
    Event::Described(vec![TaskDescription {
        task_arn: None,
        group: None,
        availability_zone: None,
        cpu: None,
        memory: None,
        containers,
    }])
}

fn begin(container: &str) -> (Exec, Action) {
    Exec::start("mycluster".to_string(), "mytask".to_string(), container.to_string())
}

fn attached() -> Exec {
    let (session, _) = begin("web");
    let (session, _) = session
        .step(described(vec![container("side", Some("rt-0"), None), container("web", Some("rt-1"), None)]))
        .unwrap();
    let (session, action) = session.step(Event::Spawned).unwrap();
    assert_eq!(action, Action::AwaitExit { remind: false });
    session
}

#[test]
fn exec_attaches_to_the_named_container() {
    let (session, action) = begin("web");
    assert_eq!(
        action,
        Action::DescribeTask { cluster: "mycluster".to_string(), task: "mytask".to_string() }
    );
    assert_eq!(session.phase(), ExecPhase::Resolving);
    let (session, action) = session
        .step(described(vec![container("side", Some("rt-0"), None), container("web", Some("rt-1"), None)]))
        .unwrap();
    assert_eq!(
        action,
        Action::Spawn {
            arguments: vec![
                "ssm".to_string(),
                "start-session".to_string(),
                "--target".to_string(),
                "ecs:mycluster_mytask_rt-1".to_string(),
            ],
        }
    );
    assert_eq!(session.phase(), ExecPhase::Spawning);
    let (session, action) = session.step(Event::Spawned).unwrap();
    assert_eq!(action, Action::AwaitExit { remind: false });
    assert_eq!(session.phase(), ExecPhase::Attached);
}

#[test]
fn interrupt_while_attached_is_swallowed() {
    let mut session = attached();
    for _ in 0..5 {
        let (next, action) = session.step(Event::Interrupted).unwrap();
        assert_eq!(action, Action::AwaitExit { remind: true });
        assert_eq!(next.phase(), ExecPhase::Attached);
        session = next;
    }
    let (session, action) = session.step(Event::ChildExited).unwrap();
    assert_eq!(action, Action::Finish(Ok(())));
    assert_eq!(session.phase(), ExecPhase::Done);
}

#[test]
fn child_exit_ends_the_command() {
    let (session, action) = attached().step(Event::ChildExited).unwrap();
    assert_eq!(action, Action::Finish(Ok(())));
    assert_eq!(session.phase(), ExecPhase::Done);
    assert!(session.step(Event::ChildExited).is_none());
}

#[test]
fn exec_on_an_exited_container_still_resolves() {
    let (session, _) = begin("job");
    let (_, action) = session.step(described(vec![container("job", Some("rt-7"), Some(0))])).unwrap();
    assert_eq!(
        action,
        Action::Spawn {
            arguments: vec![
                "ssm".to_string(),
                "start-session".to_string(),
                "--target".to_string(),
                "ecs:mycluster_mytask_rt-7".to_string(),
            ],
        }
    );
}

#[test]
fn exec_failures_while_resolving() {
    let (session, _) = begin("web");
    let (session, action) = session.step(Event::RemoteFailed).unwrap();
    assert_eq!(action, Action::Finish(Err(Error::RemoteCallFailed)));
    assert_eq!(session.phase(), ExecPhase::Done);

    let (session, _) = begin("web");
    let (_, action) = session.step(Event::Described(vec![])).unwrap();
    assert_eq!(action, Action::Finish(Err(Error::NotFound)));

    let (session, _) = begin("web");
    let (_, action) = session.step(described(vec![container("db", Some("rt-1"), None)])).unwrap();
    assert_eq!(action, Action::Finish(Err(Error::ContainerNotFound)));

    let (session, _) = begin("web");
    let (_, action) = session.step(described(vec![container("web", None, None)])).unwrap();
    assert_eq!(action, Action::Finish(Err(Error::MissingRuntimeId)));
}

#[test]
fn exec_spawn_failure() {
    let (session, _) = begin("web");
    let (session, _) = session.step(described(vec![container("web", Some("rt-1"), None)])).unwrap();
    let (session, action) = session.step(Event::SpawnFailed).unwrap();
    assert_eq!(action, Action::Finish(Err(Error::SubprocessSpawnFailed)));
    assert_eq!(session.phase(), ExecPhase::Done);
}

#[test]
fn exec_refuses_events_out_of_turn() {
    let (session, _) = begin("web");
    assert!(session.step(Event::Interrupted).is_none());
    let (session, _) = begin("web");
    assert!(session.step(Event::ChildExited).is_none());
    assert!(attached().step(Event::Terminated).is_none());
    assert!(attached().step(Event::Spawned).is_none());
    assert!(attached().step(Event::RemoteFailed).is_none());
}
