use opfyx::action::Action;
use opfyx::attach::ExecPhase;
use opfyx::cluster;
use opfyx::error::{ArgumentFault, Error};
use opfyx::forward::Phase;
use opfyx::paginate::PaginationState;
use opfyx::task::{self, ExecArgs, GetArgs, GetOp, PortForwardArgs, Run};

fn describe() -> Action {
    Action::DescribeTask { cluster: "mycluster".to_string(), task: "mytask".to_string() }
}

fn task_args(operation: task::Operation) -> task::Args {
    task::Args { operation, cluster: "mycluster".to_string() }
}

#[test]
fn cluster_list_starts_a_listing() {
    let args = cluster::Args { operation: cluster::Operation::List };
    assert_eq!(args.run(), PaginationState::Start(()));
}

#[test]
fn task_list_carries_the_cluster() {
    match task_args(task::Operation::List).run() {
        Run::Listing(state) => assert_eq!(state, PaginationState::Start("mycluster".to_string())),
        _ => panic!("expected a listing"),
    }
}

#[test]
fn task_get_describes_the_task() {
    let get = GetArgs { task: "mytask".to_string(), op: GetOp::Containers };
    match task_args(task::Operation::Get(get)).run() {
        Run::Inspecting(action) => assert_eq!(action, describe()),
        _ => panic!("expected an inspection"),
    }
}

#[test]
fn task_port_forward_starts_a_session() {
    let forward = PortForwardArgs { task: "mytask".to_string(), port: vec!["8080:80".to_string()] };
    match task_args(task::Operation::PortForward(forward)).run() {
        Run::Forwarding(session, action) => {
            assert_eq!(action, describe());
            assert_eq!(session.phase(), Phase::Resolving);
        }
        _ => panic!("expected a port-forwarding session"),
    }
}

#[test]
fn task_port_forward_without_ports_fails() {
    let forward = PortForwardArgs { task: "mytask".to_string(), port: vec![] };
    match task_args(task::Operation::PortForward(forward)).run() {
        Run::Forwarding(session, action) => {
            assert_eq!(
                action,
                Action::Finish(Err(Error::InvalidArgument(ArgumentFault::NoPortSpecified)))
            );
            assert_eq!(session.phase(), Phase::Done);
            assert_eq!(session.spawned(), 0);
        }
        _ => panic!("expected a port-forwarding session"),
    }
}

#[test]
fn task_exec_starts_a_session() {
    let exec = ExecArgs { task: "mytask".to_string(), container: "web".to_string() };
    match task_args(task::Operation::Exec(exec)).run() {
        Run::Attaching(session, action) => {
            assert_eq!(action, describe());
            assert_eq!(session.phase(), ExecPhase::Resolving);
        }
        _ => panic!("expected an interactive session"),
    }
}
