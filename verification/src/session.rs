//! What a session is addressed to and how its tunnel process is started.

use crate::error::{ArgumentFault, Error};
use crate::text::{find_first, first_index_of, lemma_first_index_of, texts};
use vstd::prelude::*;
use vstd::string::*;

verus! {

/// The text that addresses one container to the session service:
/// `ecs:`, the cluster, `_`, the task, `_`, the container's runtime id.
pub open spec fn target_text(cluster: Seq<char>, task: Seq<char>, runtime_id: Seq<char>) -> Seq<
    char,
> {
    "ecs:"@ + cluster + "_"@ + task + "_"@ + runtime_id
}

/// The two sides of a `local:remote` pair, split at its first colon; `None`
/// where there is no colon or a side is empty.
pub open spec fn mapping_parts(s: Seq<char>) -> Option<(Seq<char>, Seq<char>)> {
    let k = first_index_of(s, ':');
    if 0 < k && k + 1 < s.len() {
        Some((s.subrange(0, k), s.subrange(k + 1, s.len() as int)))
    } else {
        None
    }
}

/// The `--parameters` document of a port-forwarding session.
pub open spec fn parameters_text(local: Seq<char>, remote: Seq<char>) -> Seq<char> {
    "{\"portNumber\":[\""@ + remote + "\"],\"localPortNumber\":[\""@ + local + "\"]}"@
}

/// The arguments of the tunnel process that forwards one port.
pub open spec fn forward_arguments(target: Seq<char>, local: Seq<char>, remote: Seq<char>) -> Seq<
    Seq<char>,
> {
    seq![
        "ssm"@,
        "start-session"@,
        "--target"@,
        target,
        "--document-name"@,
        "AWS-StartPortForwardingSessionToRemoteHost"@,
        "--parameters"@,
        parameters_text(local, remote),
    ]
}

/// The arguments of the tunnel process that attaches interactively.
pub open spec fn exec_arguments(target: Seq<char>) -> Seq<Seq<char>> {
    seq!["ssm"@, "start-session"@, "--target"@, target]
}

/// Builds the session target of a container.
pub fn session_target(cluster: &str, task: &str, runtime_id: &str) -> (target: String)
    ensures
        target@ == target_text(cluster@, task@, runtime_id@),
{
    let mut target = String::from_str("ecs:");
    target.append(cluster);
    target.append("_");
    target.append(task);
    target.append("_");
    target.append(runtime_id);
    target
}

/// One port of the operator's machine and the remote port it leads to.
#[derive(Debug, PartialEq, Eq)]
pub struct PortMapping {
    local: String,
    remote: String,
}

impl Clone for PortMapping {
    fn clone(&self) -> (copy: Self)
        ensures
            copy == *self,
    {
        proof {
            use_type_invariant(self);
        }
        PortMapping { local: self.local.clone(), remote: self.remote.clone() }
    }
}

impl PortMapping {
    #[verifier::type_invariant]
    spec fn both_sides(self) -> bool {
        self.local@.len() > 0 && self.remote@.len() > 0
    }

    /// The local port, as written.
    pub closed spec fn local_text(self) -> Seq<char> {
        self.local@
    }

    /// The remote port, as written.
    pub closed spec fn remote_text(self) -> Seq<char> {
        self.remote@
    }

    /// Reads a `local:remote` pair. The text is split at its first colon and
    /// neither side is looked into.
    pub fn parse(s: &str) -> (r: Result<PortMapping, Error>)
        ensures
            match r {
                Ok(m) => mapping_parts(s@) == Some((m.local_text(), m.remote_text())),
                Err(e) => mapping_parts(s@) is None && e == Error::InvalidArgument(
                    ArgumentFault::MalformedPort,
                ),
            },
    {
        let n = s.unicode_len();
        let k = find_first(s, ':');
        proof {
            lemma_first_index_of(s@, ':');
        }
        if 0 < k && k < n && k + 1 < n {
            let local = s.substring_char(0, k).to_owned();
            let remote = s.substring_char(k + 1, n).to_owned();
            Ok(PortMapping { local, remote })
        } else {
            Err(Error::InvalidArgument(ArgumentFault::MalformedPort))
        }
    }

    /// The local port, as written.
    pub fn local(&self) -> (s: &str)
        ensures
            s@ == self.local_text(),
            s@.len() > 0,
    {
        proof {
            use_type_invariant(self);
        }
        self.local.as_str()
    }

    /// The remote port, as written.
    pub fn remote(&self) -> (s: &str)
        ensures
            s@ == self.remote_text(),
            s@.len() > 0,
    {
        proof {
            use_type_invariant(self);
        }
        self.remote.as_str()
    }

    /// The `--parameters` document that asks for this mapping.
    pub fn parameters(&self) -> (doc: String)
        ensures
            doc@ == parameters_text(self.local_text(), self.remote_text()),
    {
        let mut doc = String::from_str("{\"portNumber\":[\"");
        doc.append(self.remote.as_str());
        doc.append("\"],\"localPortNumber\":[\"");
        doc.append(self.local.as_str());
        doc.append("\"]}");
        doc
    }
}

/// The arguments with which the tunnel process is started to forward
/// `mapping` to the container that `target` addresses.
pub fn forward_command(target: &str, mapping: &PortMapping) -> (argv: Vec<String>)
    ensures
        texts(argv@) == forward_arguments(target@, mapping.local_text(), mapping.remote_text()),
{
    let mut argv: Vec<String> = Vec::new();
    argv.push(String::from_str("ssm"));
    argv.push(String::from_str("start-session"));
    argv.push(String::from_str("--target"));
    argv.push(String::from_str(target));
    argv.push(String::from_str("--document-name"));
    argv.push(String::from_str("AWS-StartPortForwardingSessionToRemoteHost"));
    argv.push(String::from_str("--parameters"));
    argv.push(mapping.parameters());
    assert(texts(argv@) =~= forward_arguments(
        target@,
        mapping.local_text(),
        mapping.remote_text(),
    ));
    argv
}

/// The arguments with which the tunnel process is started to attach to the
/// container that `target` addresses.
pub fn exec_command(target: &str) -> (argv: Vec<String>)
    ensures
        texts(argv@) == exec_arguments(target@),
{
    let mut argv: Vec<String> = Vec::new();
    argv.push(String::from_str("ssm"));
    argv.push(String::from_str("start-session"));
    argv.push(String::from_str("--target"));
    argv.push(String::from_str(target));
    assert(texts(argv@) =~= exec_arguments(target@));
    argv
}

} // verus!
