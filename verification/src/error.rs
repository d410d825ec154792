//! The failures a command can surface.

use vstd::prelude::*;

verus! {

/// Why an argument was rejected.
#[derive(Clone, Copy, Debug, PartialEq, Eq, Structural)]
pub enum ArgumentFault {
    /// Port forwarding was asked for without any port mapping.
    NoPortSpecified,
    /// A port mapping is not of the form `local:remote` with both parts non-empty.
    MalformedPort,
}

/// Every failure is fatal to the command that met it.
#[derive(Clone, Copy, Debug, PartialEq, Eq, Structural)]
pub enum Error {
    /// A remote call failed; it is not retried.
    RemoteCallFailed,
    /// The remote answer held no matching task.
    NotFound,
    /// No container of the task has the requested name.
    ContainerNotFound,
    /// Every container of the task has already exited.
    NoRunningContainer,
    /// The chosen container lacks the handle needed to address it.
    MissingRuntimeId,
    /// An argument was rejected before any work was done with it.
    InvalidArgument(ArgumentFault),
    /// A tunnel process could not be started.
    SubprocessSpawnFailed,
    /// Terminating a tunnel process, or waiting for it, failed.
    SubprocessWaitFailed,
}

impl Error {
    /// The text of the message shown for this failure.
    pub open spec fn message_text(self) -> Seq<char> {
        match self {
            Error::RemoteCallFailed => "remote call failed"@,
            Error::NotFound => "Task not found"@,
            Error::ContainerNotFound => "container not found"@,
            Error::NoRunningContainer => "no running container"@,
            Error::MissingRuntimeId => "missing runtime id"@,
            Error::InvalidArgument(ArgumentFault::NoPortSpecified) => "no port specified"@,
            Error::InvalidArgument(ArgumentFault::MalformedPort) => "invalid port"@,
            Error::SubprocessSpawnFailed => "failed to start session process"@,
            Error::SubprocessWaitFailed => "failed to stop session process"@,
        }
    }

    /// The message shown to the operator.
    pub fn message(&self) -> (text: String)
        ensures
            text@ == self.message_text(),
    {
        let text: &str = match self {
            Error::RemoteCallFailed => "remote call failed",
            Error::NotFound => "Task not found",
            Error::ContainerNotFound => "container not found",
            Error::NoRunningContainer => "no running container",
            Error::MissingRuntimeId => "missing runtime id",
            Error::InvalidArgument(ArgumentFault::NoPortSpecified) => "no port specified",
            Error::InvalidArgument(ArgumentFault::MalformedPort) => "invalid port",
            Error::SubprocessSpawnFailed => "failed to start session process",
            Error::SubprocessWaitFailed => "failed to stop session process",
        };
        text.to_owned()
    }
}

} // verus!
