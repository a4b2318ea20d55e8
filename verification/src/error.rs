//! `Request`, the concrete ask that an agent's output makes at the host-call
//! boundary, and `AgentError`, the closed set of agent-level failures.
use vstd::prelude::*;
use vstd::string::StringExecFns;

verus! {

/// The kind of host call that a request asks for, or that a grant permits.
#[derive(Debug, Clone, Copy, PartialEq, Eq, Structural)]
pub enum ActionKind {
    ShellExec,
    FileRead,
    FileWrite,
}

/// What a request or a grant amounts to: its kind and its text (the command
/// line or path of a request, the pattern of a grant).
pub struct ActionView {
    pub kind: ActionKind,
    pub text: Seq<char>,
}

/// A concrete ask that an agent's output makes at the host-call boundary.
/// Its shape mirrors `Capability` one for one, so that a grant can be held
/// against a request.
#[derive(Debug, PartialEq)]
pub enum Request {
    ShellExec(String),
    FileRead(String),
    FileWrite(String),
}

impl View for Request {
    type V = ActionView;

    open spec fn view(&self) -> ActionView {
        match self {
            Request::ShellExec(command) => ActionView { kind: ActionKind::ShellExec, text: command@ },
            Request::FileRead(path) => ActionView { kind: ActionKind::FileRead, text: path@ },
            Request::FileWrite(path) => ActionView { kind: ActionKind::FileWrite, text: path@ },
        }
    }
}

impl Clone for Request {
    fn clone(&self) -> (copy: Self)
        ensures
            copy == *self,
    {
        match self {
            Request::ShellExec(command) => Request::ShellExec(command.clone()),
            Request::FileRead(path) => Request::FileRead(path.clone()),
            Request::FileWrite(path) => Request::FileWrite(path.clone()),
        }
    }
}

/// Every character of `text` is printable ASCII (space to `~`) other than
/// `"` and `\`: `{:?}` writes such characters as they are.
pub open spec fn is_plain_text(text: Seq<char>) -> bool {
    forall|i: int|
        0 <= i < text.len() ==> ' ' <= #[trigger] text[i] <= '~' && text[i] != '"' && text[i]
            != '\\'
}

/// The text that `{:?}` prints for a string that is not plain: the string in
/// double quotes, with escapes, as `Debug` for `str` writes it.
pub uninterp spec fn escaped_str_debug_text(text: Seq<char>) -> Seq<char>;

/// The text that `{:?}` prints for a string with the given characters: a
/// plain string in double quotes as it is, any other as std escapes it.
pub open spec fn str_debug_text(text: Seq<char>) -> Seq<char> {
    if is_plain_text(text) {
        seq!['"'] + text + seq!['"']
    } else {
        escaped_str_debug_text(text)
    }
}

/// Formats `text` with `{:?}`, std's `Debug` impl for `str`. Trusted to write
/// a plain text (printable ASCII without `"` or `\`) between double quotes
/// as it is, and any other text the same way for the same characters; what
/// the escapes are is left to `escaped_str_debug_text`.
#[verifier::external_body]
pub(crate) fn str_debug(text: &str) -> (shown: String)
    ensures
        is_plain_text(text@) ==> shown@ == seq!['"'] + text@ + seq!['"'],
        !is_plain_text(text@) ==> shown@ == escaped_str_debug_text(text@),
{
    format!("{text:?}")
}

/// `{:?}` writes a plain text between double quotes and otherwise as it is.
pub proof fn lemma_plain_text_is_quoted_verbatim(text: Seq<char>)
    requires
        is_plain_text(text),
    ensures
        str_debug_text(text) == seq!['"'] + text + seq!['"'],
        str_debug_text(text).len() == text.len() + 2,
        forall|i: int| 0 <= i < text.len() ==> str_debug_text(text)[i + 1] == text[i],
{
}

/// What `{:?}` prints of a request before its text: the variant's name and
/// an opening bracket.
pub open spec fn debug_opening(kind: ActionKind) -> Seq<char> {
    match kind {
        ActionKind::ShellExec => "ShellExec("@,
        ActionKind::FileRead => "FileRead("@,
        ActionKind::FileWrite => "FileWrite("@,
    }
}

/// The text that `{:?}` prints for a request: the variant's name, and in
/// brackets the text as `{:?}` prints a string.
pub open spec fn request_debug_text(request: ActionView) -> Seq<char> {
    debug_opening(request.kind) + str_debug_text(request.text) + ")"@
}

/// Whatever its characters, a request's text is shown quoted as `{:?}`
/// quotes a string, after the variant's name and `(`, and before `)`.
pub proof fn lemma_request_debug_text_quotes_the_text(request: ActionView)
    ensures
        request_debug_text(request) == debug_opening(request.kind) + str_debug_text(request.text)
            + ")"@,
{
}

/// A request with a plain text is shown as its variant's name and the text
/// between `("` and `")`.
pub proof fn lemma_plain_request_debug_text(request: ActionView)
    requires
        is_plain_text(request.text),
    ensures
        request_debug_text(request) == debug_opening(request.kind) + seq!['"'] + request.text
            + seq!['"'] + ")"@,
{
    assert(request_debug_text(request) =~= debug_opening(request.kind) + seq!['"'] + request.text
        + seq!['"'] + ")"@);
}

impl Request {
    /// The request as `{:?}` prints it, as `Debug` writes it for this enum:
    /// for example `FileRead("docs/design.md")`.
    pub fn debug_text(&self) -> (text: String)
        ensures
            text@ == request_debug_text(self@),
            text@ == debug_opening(self@.kind) + str_debug_text(self@.text) + ")"@,
    {
        let (opening, inner) = match self {
            Request::ShellExec(command) => ("ShellExec(", command),
            Request::FileRead(path) => ("FileRead(", path),
            Request::FileWrite(path) => ("FileWrite(", path),
        };
        let mut text = String::from_str(opening);
        let quoted = str_debug(inner.as_str());
        text.append(quoted.as_str());
        text.append(")");
        text
    }
}

/// Agent-level failures. Adding a failure mode means adding a variant here;
/// there is no catch-all.
#[derive(Debug, Clone, PartialEq)]
pub enum AgentError {
    /// The request was outside the agent's grant. The request is kept for
    /// diagnostics.
    CapabilityDenied(Request),
}

/// The message that describes a denial of `request`.
pub open spec fn denial_message(request: ActionView) -> Seq<char> {
    "capability denied: "@ + request_debug_text(request)
}

impl AgentError {
    /// The error's message: `capability denied: ` and then the request as
    /// `{:?}` prints it.
    pub fn message(&self) -> (text: String)
        ensures
            match self {
                AgentError::CapabilityDenied(request) => text@ == denial_message(request@),
            },
    {
        match self {
            AgentError::CapabilityDenied(request) => {
                let mut text = String::from_str("capability denied: ");
                let shown = request.debug_text();
                text.append(shown.as_str());
                text
            },
        }
    }
}

} // verus!
