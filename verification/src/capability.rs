//! `Capability`: the closed set of everything that an agent instance may be
//! granted, and the check of a grant against a request.
use vstd::prelude::*;
use vstd::utf8::{encode_utf8, encode_utf8_decode_utf8};

use crate::error::{ActionKind, ActionView, Request};
use crate::glob::{
    glob_match, glob_matches, lemma_encode_utf8_concat, lemma_literal_matches_only_itself,
    lemma_literal_then_star, lemma_star_char_encodes_to_star, lemma_star_matches_any_run,
    lemma_star_matches_everything, lemma_text_without_star_is_literal, lemma_double_star_is_single_star,
    lemma_literal_matches_itself, STAR,
};

verus! {

/// A command pattern, such as `"cargo build --target wasm32v1-none *"`.
pub type CommandPattern = String;

/// A file glob, such as `"docs/**"`.
pub type GlobPattern = String;

/// A single granted permission. The set is closed: there is no escape hatch,
/// and extending it means editing this enum and every match over it.
#[derive(Debug, Clone, PartialEq)]
pub enum Capability {
    /// Shell commands that match a pattern.
    ShellExec(CommandPattern),
    /// Reads of files whose paths match a glob.
    FileRead(GlobPattern),
    /// Writes of files whose paths match a glob.
    FileWrite(GlobPattern),
}

impl View for Capability {
    type V = ActionView;

    open spec fn view(&self) -> ActionView {
        match self {
            Capability::ShellExec(pattern) => ActionView { kind: ActionKind::ShellExec, text: pattern@ },
            Capability::FileRead(pattern) => ActionView { kind: ActionKind::FileRead, text: pattern@ },
            Capability::FileWrite(pattern) => ActionView { kind: ActionKind::FileWrite, text: pattern@ },
        }
    }
}

/// A grant allows a request when both are of the same kind and the grant's
/// pattern matches the whole of the request's text, byte by byte in UTF-8.
pub open spec fn grant_allows(grant: ActionView, request: ActionView) -> bool {
    &&& grant.kind == request.kind
    &&& glob_matches(encode_utf8(grant.text), encode_utf8(request.text))
}

impl Capability {
    /// Does this grant allow `request`? Deny by default: only a grant of the
    /// same variant whose pattern matches the request's text allows it.
    pub fn allows(&self, request: &Request) -> (allowed: bool)
        ensures
            allowed == grant_allows(self@, request@),
            allowed == (self@.kind == request@.kind && glob_matches(
                encode_utf8(self@.text),
                encode_utf8(request@.text),
            )),
    {
        match (self, request) {
            (Capability::ShellExec(pattern), Request::ShellExec(command)) => {
                glob_match(pattern.as_str(), command.as_str())
            },
            (Capability::FileRead(pattern), Request::FileRead(path)) => {
                glob_match(pattern.as_str(), path.as_str())
            },
            (Capability::FileWrite(pattern), Request::FileWrite(path)) => {
                glob_match(pattern.as_str(), path.as_str())
            },
            _ => false,
        }
    }
}

/// A grant allows a request exactly when both are of the same kind and the
/// grant's pattern matches the whole of the request's text, byte by byte in
/// UTF-8.
pub proof fn lemma_grant_allows_is_kind_and_glob(grant: ActionView, request: ActionView)
    ensures
        grant_allows(grant, request) <==> (grant.kind == request.kind && glob_matches(
            encode_utf8(grant.text),
            encode_utf8(request.text),
        )),
{
}

/// A grant whose pattern is a text without `*` and then `**` allows every
/// request of its kind whose text starts with that text, whatever follows
/// (`/` included): `docs/**` allows every path under `docs/`.
pub proof fn lemma_double_star_pattern_allows_its_extensions(
    grant: ActionView,
    prefix: Seq<char>,
    request: ActionView,
)
    requires
        !prefix.contains('*'),
        grant.text == prefix + seq!['*', '*'],
        grant.kind == request.kind,
        prefix.is_prefix_of(request.text),
    ensures
        grant_allows(grant, request),
{
    let rest = request.text.skip(prefix.len() as int);
    assert(request.text =~= prefix + rest);
    assert(seq!['*', '*'] =~= seq!['*'] + seq!['*']);
    lemma_star_char_encodes_to_star();
    lemma_encode_utf8_concat(seq!['*'], seq!['*']);
    lemma_encode_utf8_concat(prefix, seq!['*', '*']);
    lemma_encode_utf8_concat(prefix, rest);
    let stars = encode_utf8(seq!['*', '*']);
    assert(stars =~= seq![STAR, STAR] + Seq::<u8>::empty());
    let literal = encode_utf8(prefix);
    let text = encode_utf8(request.text);
    lemma_text_without_star_is_literal(prefix);
    lemma_literal_matches_itself(literal, stars, text);
    assert(text.take(literal.len() as int) =~= literal);
    assert(text.skip(literal.len() as int) =~= encode_utf8(rest));
    lemma_double_star_is_single_star(Seq::empty(), encode_utf8(rest));
    assert(seq![STAR] + Seq::<u8>::empty() =~= seq![STAR]);
    lemma_star_matches_everything(encode_utf8(rest));
}

/// A grant whose pattern is a text without `*`, one `*`, and another text
/// without `*` allows every request of its kind whose text is the first
/// text, anything, and the second text: `docs/*.md` allows `docs/a/b.md`.
pub proof fn lemma_inner_star_pattern_allows_its_fillings(
    grant: ActionView,
    prefix: Seq<char>,
    suffix: Seq<char>,
    middle: Seq<char>,
    request: ActionView,
)
    requires
        !prefix.contains('*'),
        !suffix.contains('*'),
        grant.text == prefix + seq!['*'] + suffix,
        grant.kind == request.kind,
        request.text == prefix + middle + suffix,
    ensures
        grant_allows(grant, request),
{
    lemma_star_char_encodes_to_star();
    lemma_encode_utf8_concat(prefix, seq!['*']);
    lemma_encode_utf8_concat(prefix + seq!['*'], suffix);
    lemma_encode_utf8_concat(prefix, middle);
    lemma_encode_utf8_concat(prefix + middle, suffix);
    lemma_encode_utf8_concat(middle, suffix);
    let lp = encode_utf8(prefix);
    let lm = encode_utf8(middle);
    let ls = encode_utf8(suffix);
    assert(encode_utf8(grant.text) =~= lp + (seq![STAR] + ls));
    assert(encode_utf8(request.text) =~= lp + (lm + ls));
    lemma_text_without_star_is_literal(prefix);
    lemma_text_without_star_is_literal(suffix);
    let text = lp + (lm + ls);
    lemma_literal_matches_itself(lp, seq![STAR] + ls, text);
    assert(text.take(lp.len() as int) =~= lp);
    assert(text.skip(lp.len() as int) =~= lm + ls);
    lemma_star_matches_any_run(ls, lm + ls);
    assert((lm + ls).skip(lm.len() as int) =~= ls);
    lemma_literal_matches_only_itself(ls, ls);
    assert(glob_matches(ls, (lm + ls).skip(lm.len() as int)));
}

/// A grant never allows a request of another kind, whatever the texts.
pub proof fn lemma_kinds_never_cross(grant: ActionView, request: ActionView)
    requires
        grant.kind != request.kind,
    ensures
        !grant_allows(grant, request),
{
}

/// A grant whose pattern has no `*` allows exactly the requests of its kind
/// whose text equals the pattern.
pub proof fn lemma_plain_pattern_allows_only_its_text(grant: ActionView, request: ActionView)
    requires
        !grant.text.contains('*'),
    ensures
        grant_allows(grant, request) <==> (grant.kind == request.kind && request.text
            == grant.text),
{
    lemma_text_without_star_is_literal(grant.text);
    lemma_literal_matches_only_itself(encode_utf8(grant.text), encode_utf8(request.text));
    if encode_utf8(request.text) == encode_utf8(grant.text) {
        encode_utf8_decode_utf8(request.text);
        encode_utf8_decode_utf8(grant.text);
    }
}

/// A grant whose pattern is `*` allows every request of its kind.
pub proof fn lemma_lone_star_allows_its_whole_kind(grant: ActionView, request: ActionView)
    requires
        grant.text == seq!['*'],
    ensures
        grant_allows(grant, request) <==> grant.kind == request.kind,
{
    lemma_star_char_encodes_to_star();
    lemma_star_matches_everything(encode_utf8(request.text));
}

/// A grant whose pattern is a text without `*` and then one `*` allows
/// exactly the requests of its kind whose UTF-8 bytes start with those of
/// that text; in particular every request whose text starts with it.
pub proof fn lemma_prefix_pattern_allows_its_extensions(
    grant: ActionView,
    prefix: Seq<char>,
    request: ActionView,
)
    requires
        !prefix.contains('*'),
        grant.text == prefix + seq!['*'],
    ensures
        grant_allows(grant, request) <==> (grant.kind == request.kind && encode_utf8(
            prefix,
        ).is_prefix_of(encode_utf8(request.text))),
        grant.kind == request.kind && prefix.is_prefix_of(request.text) ==> grant_allows(
            grant,
            request,
        ),
{
    lemma_text_without_star_is_literal(prefix);
    lemma_encode_utf8_concat(prefix, seq!['*']);
    lemma_star_char_encodes_to_star();
    lemma_literal_then_star(encode_utf8(prefix), encode_utf8(request.text));
    if prefix.is_prefix_of(request.text) {
        let rest = request.text.skip(prefix.len() as int);
        assert(request.text =~= prefix + rest);
        lemma_encode_utf8_concat(prefix, rest);
        assert(encode_utf8(prefix).is_prefix_of(encode_utf8(request.text)));
    }
}

/// The set of capabilities is closed, and the compiler holds every `match`
/// over it to all of its variants: one that covers only two of the three
/// must fail to compile with `error[E0004]: non-exhaustive patterns`.
///
/// ```compile_fail
/// use agent_core::capability::Capability;
///
/// fn handle(cap: Capability) -> &'static str {
///     match cap {
///         Capability::ShellExec(_) => "shell",
///         Capability::FileRead(_) => "read",
///         // Capability::FileWrite intentionally omitted.
///     }
/// }
/// ```
///
/// Control case: the same match, made exhaustive, compiles. This pins the
/// failure above to the missing arm, not to some unrelated error.
///
/// ```
/// use agent_core::capability::Capability;
///
/// fn handle(cap: Capability) -> &'static str {
///     match cap {
///         Capability::ShellExec(_) => "shell",
///         Capability::FileRead(_) => "read",
///         Capability::FileWrite(_) => "write",
///     }
/// }
/// # let _ = handle(Capability::FileRead("x".into()));
/// ```
pub struct ExhaustivenessDoctestAnchor;

} // verus!
