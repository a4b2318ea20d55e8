//! The runtime capability check at the host-call boundary, and the
//! marker-trait layer that decides at compile time which agent classes may
//! ask for which kinds of work.
use std::marker::PhantomData;
use vstd::prelude::*;
use vstd::string::StringExecFns;

use crate::capability::{grant_allows, lemma_prefix_pattern_allows_its_extensions, Capability};
use crate::glob::glob_matches;
use vstd::utf8::encode_utf8;
use crate::error::{
    is_plain_text, request_debug_text, str_debug, str_debug_text, ActionKind, ActionView, AgentError,
    Request,
};

verus! {

/// Marker for the generator agent class: no capabilities at all.
pub struct GeneratorClass;

/// Marker for the committer agent class: `git commit` and `git push`.
pub struct CommitterClass;

/// A running agent instance: its grant, and a class marker that carries no
/// data and only selects which marker traits the handle implements.
pub struct AgentHandle<Class> {
    pub capabilities: Vec<Capability>,
    _class: PhantomData<Class>,
}

impl<Class> AgentHandle<Class> {
    /// The handle's grant.
    pub closed spec fn grant(&self) -> Seq<Capability> {
        self.capabilities@
    }

    /// A handle with the given grant.
    pub fn new(capabilities: Vec<Capability>) -> (handle: Self)
        ensures
            handle.grant() == capabilities@,
    {
        AgentHandle { capabilities, _class: PhantomData }
    }
}

/// What an executed request produces.
pub type Output = String;

/// Some grant in `grant` allows `request`.
pub open spec fn grant_permits(grant: Seq<Capability>, request: ActionView) -> bool {
    exists|i: int| 0 <= i < grant.len() && grant_allows(#[trigger] grant[i]@, request)
}

/// The output of an executed request: `executed: ` and then the request as
/// `{:?}` prints it.
pub open spec fn execution_report(request: ActionView) -> Seq<char> {
    "executed: "@ + request_debug_text(request)
}

/// The runtime capability check at the host-call boundary. Deny by default:
/// the request is carried out only if some capability in the agent's grant
/// allows it; otherwise the request comes back in `CapabilityDenied`.
pub fn execute_request<Class>(agent: &AgentHandle<Class>, request: &Request) -> (result: Result<
    Output,
    AgentError,
>)
    ensures
        result is Ok <==> grant_permits(agent.grant(), request@),
        result is Ok <==> exists|i: int|
            0 <= i < agent.grant().len() && #[trigger] agent.grant()[i]@.kind == request@.kind
                && glob_matches(encode_utf8(agent.grant()[i]@.text), encode_utf8(request@.text)),
        result matches Ok(output) ==> output@ == execution_report(request@),
        result matches Err(error) ==> error == AgentError::CapabilityDenied(*request),
{
    let n = agent.capabilities.len();
    let mut i: usize = 0;
    while i < n
        invariant
            n == agent.grant().len(),
            agent.grant() == agent.capabilities@,
            i <= n,
            forall|j: int| 0 <= j < i ==> !grant_allows(#[trigger] agent.grant()[j]@, request@),
        decreases n - i,
    {
        if agent.capabilities[i].allows(request) {
            let mut output = String::from_str("executed: ");
            let shown = request.debug_text();
            output.append(shown.as_str());
            return Ok(output);
        }
        i = i + 1;
    }
    Err(AgentError::CapabilityDenied(request.clone()))
}

/// The request that commits with the already quoted message `quoted`.
pub open spec fn quoted_commit_request(quoted: Seq<char>) -> ActionView {
    ActionView { kind: ActionKind::ShellExec, text: "git commit -m "@ + quoted }
}

/// The request that commits with message `msg`: the message is quoted as
/// `{:?}` prints a string.
pub open spec fn commit_request(msg: Seq<char>) -> ActionView {
    quoted_commit_request(str_debug_text(msg))
}

impl AgentHandle<CommitterClass> {
    /// Asks for `git commit -m <quoted>` through the runtime check, where
    /// `quoted` is the message already quoted.
    pub fn commit_quoted(&self, quoted: &str) -> (result: Result<(), AgentError>)
        ensures
            result is Ok <==> grant_permits(self.grant(), quoted_commit_request(quoted@)),
            result matches Err(AgentError::CapabilityDenied(denied)) ==> denied@
                == quoted_commit_request(quoted@),
    {
        let mut command = String::from_str("git commit -m ");
        command.append(quoted);
        let request = Request::ShellExec(command);
        match execute_request(self, &request) {
            Ok(_) => Ok(()),
            Err(error) => Err(error),
        }
    }
}

/// The compile-time layer: only classes that may commit implement this
/// trait, so asking any other class to commit does not compile.
pub trait CanCommit {
    fn git_commit(&self, msg: &str) -> Result<(), AgentError>;
}

impl CanCommit for AgentHandle<CommitterClass> {
    /// Asks for `git commit -m <msg quoted>` through the runtime check.
    fn git_commit(&self, msg: &str) -> (result: Result<(), AgentError>)
        ensures
            result is Ok <==> grant_permits(self.grant(), commit_request(msg@)),
            result matches Err(AgentError::CapabilityDenied(denied)) ==> denied@ == commit_request(
                msg@,
            ),
    {
        let quoted = str_debug(msg);
        self.commit_quoted(quoted.as_str())
    }
}

/// A grant permits a request exactly when one of its capabilities allows it.
pub proof fn lemma_grant_permits_iff_some_capability_allows(
    grant: Seq<Capability>,
    request: ActionView,
)
    ensures
        grant_permits(grant, request) <==> exists|i: int|
            0 <= i < grant.len() && grant_allows(#[trigger] grant[i]@, request),
{
}

/// A grant of one capability permits exactly what that capability allows.
pub proof fn lemma_single_capability_grant(capability: Capability, request: ActionView)
    ensures
        grant_permits(seq![capability], request) == grant_allows(capability@, request),
{
    if grant_allows(capability@, request) {
        assert(seq![capability][0] == capability);
    }
}

/// A grant whose capabilities are all of other kinds than the request
/// denies it, whatever the patterns: a read grant never permits a write.
pub proof fn lemma_grant_of_other_kinds_denies(grant: Seq<Capability>, request: ActionView)
    requires
        forall|i: int| 0 <= i < grant.len() ==> (#[trigger] grant[i]@).kind != request.kind,
    ensures
        !grant_permits(grant, request),
{
}

/// A grant permits a request only when some capability of the request's
/// kind is in it.
pub proof fn lemma_permission_needs_a_capability_of_the_kind(
    grant: Seq<Capability>,
    request: ActionView,
)
    requires
        grant_permits(grant, request),
    ensures
        exists|i: int| 0 <= i < grant.len() && (#[trigger] grant[i]@).kind == request.kind,
{
    let i = choose|i: int| 0 <= i < grant.len() && grant_allows(#[trigger] grant[i]@, request);
    assert(grant[i]@.kind == request.kind);
}

/// A commit with a plain message (printable ASCII without `"` or `\`)
/// asks for `git commit -m "<message>"`, the message as it is.
pub proof fn lemma_plain_message_is_committed_verbatim(msg: Seq<char>)
    requires
        is_plain_text(msg),
    ensures
        commit_request(msg).kind == ActionKind::ShellExec,
        commit_request(msg).text == "git commit -m "@ + seq!['"'] + msg + seq!['"'],
{
    assert(commit_request(msg).text =~= "git commit -m "@ + seq!['"'] + msg + seq!['"']);
}

/// A grant without any capability denies every request.
pub proof fn lemma_empty_grant_denies_everything(request: ActionView)
    ensures
        !grant_permits(Seq::empty(), request),
{
}

/// Joining two grants permits exactly what either of them permits.
pub proof fn lemma_joined_grant_permits_either(
    first: Seq<Capability>,
    second: Seq<Capability>,
    request: ActionView,
)
    ensures
        grant_permits(first + second, request) == (grant_permits(first, request) || grant_permits(
            second,
            request,
        )),
{
    let joined = first + second;
    if grant_permits(first, request) {
        let i = choose|i: int| 0 <= i < first.len() && grant_allows(#[trigger] first[i]@, request);
        assert(joined[i] == first[i]);
    }
    if grant_permits(second, request) {
        let i = choose|i: int| 0 <= i < second.len() && grant_allows(#[trigger] second[i]@, request);
        assert(joined[first.len() + i] == second[i]);
    }
    if grant_permits(joined, request) {
        let i = choose|i: int| 0 <= i < joined.len() && grant_allows(#[trigger] joined[i]@, request);
        if i < first.len() {
            assert(joined[i] == first[i]);
        } else {
            assert(joined[i] == second[i - first.len()]);
        }
    }
}

/// A grant that holds every capability of another grant, in any order and
/// with any others beside, permits whatever the other permits.
pub proof fn lemma_covering_grant_keeps_permissions(
    grant: Seq<Capability>,
    wider: Seq<Capability>,
    request: ActionView,
)
    requires
        forall|i: int|
            0 <= i < grant.len() ==> exists|j: int|
                0 <= j < wider.len() && #[trigger] wider[j]@ == #[trigger] grant[i]@,
        grant_permits(grant, request),
    ensures
        grant_permits(wider, request),
{
    let i = choose|i: int| 0 <= i < grant.len() && grant_allows(#[trigger] grant[i]@, request);
    let j = choose|j: int| 0 <= j < wider.len() && #[trigger] wider[j]@ == grant[i]@;
    assert(grant_allows(wider[j]@, request));
}

/// A grant that holds `ShellExec("git commit *")` permits a commit with
/// any message whatever, however it is quoted.
pub proof fn lemma_commit_grant_admits_every_message(
    grant: Seq<Capability>,
    i: int,
    quoted: Seq<char>,
)
    requires
        0 <= i < grant.len(),
        grant[i]@ == (ActionView { kind: ActionKind::ShellExec, text: "git commit *"@ }),
    ensures
        grant_permits(grant, quoted_commit_request(quoted)),
{
    reveal_strlit("git commit *");
    reveal_strlit("git commit -m ");
    let pattern = "git commit *"@;
    let prefix = pattern.take(11);
    assert(pattern =~= prefix + seq!['*']);
    assert(!prefix.contains('*'));
    assert(prefix.is_prefix_of(quoted_commit_request(quoted).text));
    lemma_prefix_pattern_allows_its_extensions(grant[i]@, prefix, quoted_commit_request(quoted));
    assert(grant_allows(grant[i]@, quoted_commit_request(quoted)));
}

/// The compile-time layer admits the class that it is meant for: a
/// committer handle granted the matching `ShellExec` capability commits.
///
/// ```
/// use agent_core::capability::Capability;
/// use agent_core::enforce::{AgentHandle, CanCommit, CommitterClass};
///
/// let agent = AgentHandle::<CommitterClass>::new(vec![Capability::ShellExec(
///     "git commit *".to_string(),
/// )]);
/// assert!(agent.git_commit("chassis bootstrap").is_ok());
/// ```
///
/// And it refuses the others: a generator handle has no `CanCommit` impl, so
/// calling `git_commit` on it fails to compile (E0599), rather than failing
/// when it runs.
///
/// ```compile_fail
/// use agent_core::enforce::{AgentHandle, CanCommit, GeneratorClass};
///
/// let agent = AgentHandle::<GeneratorClass>::new(vec![]);
/// let _ = agent.git_commit("should not compile");
/// ```
pub struct CanCommitDoctestAnchor;

} // verus!
