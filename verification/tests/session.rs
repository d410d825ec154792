use opfyx::error::{ArgumentFault, Error};
use opfyx::session::{exec_command, forward_command, session_target, PortMapping};

#[test]
fn target_is_composed_in_order() {
    assert_eq!(session_target("mycluster", "mytask", "rt-1"), "ecs:mycluster_mytask_rt-1");
}

#[test]
fn target_keeps_empty_parts() {
    assert_eq!(session_target("", "", ""), "ecs:__");
}

#[test]
fn mapping_is_split_at_the_colon() {
    let mapping = PortMapping::parse("8080:80").unwrap();
    assert_eq!(mapping.local(), "8080");
    assert_eq!(mapping.remote(), "80");
}

#[test]
fn mapping_is_split_at_the_first_colon() {
    let mapping = PortMapping::parse("a:b:c").unwrap();
    assert_eq!(mapping.local(), "a");
    assert_eq!(mapping.remote(), "b:c");
}

#[test]
fn mapping_is_not_validated_as_number() {
    let mapping = PortMapping::parse("http:päge").unwrap();
    assert_eq!(mapping.local(), "http");
    assert_eq!(mapping.remote(), "päge");
}

#[test]
fn mapping_without_colon_is_malformed() {
    assert_eq!(
        PortMapping::parse("8080"),
        Err(Error::InvalidArgument(ArgumentFault::MalformedPort))
    );
}

#[test]
fn mapping_with_an_empty_side_is_malformed() {
    let malformed = Err(Error::InvalidArgument(ArgumentFault::MalformedPort));
    assert_eq!(PortMapping::parse(":80"), malformed);
    assert_eq!(PortMapping::parse("8080:"), malformed);
    assert_eq!(PortMapping::parse(":"), malformed);
    assert_eq!(PortMapping::parse(""), malformed);
}

#[test]
fn parameters_document_is_exact() {
    let mapping = PortMapping::parse("8080:80").unwrap();
    assert_eq!(mapping.parameters(), "{\"portNumber\":[\"80\"],\"localPortNumber\":[\"8080\"]}");
}

#[test]
fn mapping_clone_is_equal() {
    let mapping = PortMapping::parse("9090:90").unwrap();
    assert_eq!(mapping.clone(), mapping);
}

#[test]
fn forward_command_arguments() {
    let mapping = PortMapping::parse("9090:90").unwrap();
    assert_eq!(
        forward_command("ecs:c_t_r", &mapping),
        vec![
            "ssm",
            "start-session",
            "--target",
            "ecs:c_t_r",
            "--document-name",
            "AWS-StartPortForwardingSessionToRemoteHost",
            "--parameters",
            "{\"portNumber\":[\"90\"],\"localPortNumber\":[\"9090\"]}",
        ]
    );
}

#[test]
fn exec_command_arguments() {
    assert_eq!(exec_command("ecs:c_t_r"), vec!["ssm", "start-session", "--target", "ecs:c_t_r"]);
}

#[test]
fn messages_name_the_failure() {
    assert_eq!(Error::NotFound.message(), "Task not found");
    assert_eq!(Error::ContainerNotFound.message(), "container not found");
    assert_eq!(Error::NoRunningContainer.message(), "no running container");
    assert_eq!(Error::MissingRuntimeId.message(), "missing runtime id");
    assert_eq!(
        Error::InvalidArgument(ArgumentFault::NoPortSpecified).message(),
        "no port specified"
    );
    assert_eq!(Error::InvalidArgument(ArgumentFault::MalformedPort).message(), "invalid port");
    assert_eq!(Error::RemoteCallFailed.message(), "remote call failed");
    assert_eq!(Error::SubprocessSpawnFailed.message(), "failed to start session process");
    assert_eq!(Error::SubprocessWaitFailed.message(), "failed to stop session process");
}
