//! The pattern language of grants: a byte string in which `*` stands for
//! any run of bytes, the empty one included, and every other byte stands
//! for itself.
use vstd::prelude::*;
use vstd::utf8::*;

verus! {

/// The byte that matches any run of bytes.
pub const STAR: u8 = 42;

/// Does `pattern` match the whole of `text`?
pub open spec fn glob_matches(pattern: Seq<u8>, text: Seq<u8>) -> bool
    decreases pattern.len(), text.len(),
{
    if pattern.len() == 0 {
        text.len() == 0
    } else if pattern[0] == STAR {
        glob_matches(pattern.drop_first(), text) || (text.len() > 0 && glob_matches(
            pattern,
            text.drop_first(),
        ))
    } else {
        text.len() > 0 && text[0] == pattern[0] && glob_matches(
            pattern.drop_first(),
            text.drop_first(),
        )
    }
}

/// Matches `pattern[i..]` against `text[j..]`.
fn glob_match_from(pattern: &[u8], text: &[u8], i: usize, j: usize) -> (matched: bool)
    requires
        i <= pattern@.len(),
        j <= text@.len(),
    ensures
        matched == glob_matches(pattern@.skip(i as int), text@.skip(j as int)),
    decreases pattern@.len() - i, text@.len() - j,
{
    let ghost p = pattern@.skip(i as int);
    let ghost t = text@.skip(j as int);
    if i == pattern.len() {
        j == text.len()
    } else if pattern[i] == STAR {
        assert(p.drop_first() =~= pattern@.skip(i + 1));
        assert(j < text@.len() ==> t.drop_first() =~= text@.skip(j + 1));
        if glob_match_from(pattern, text, i + 1, j) {
            true
        } else if j < text.len() {
            glob_match_from(pattern, text, i, j + 1)
        } else {
            false
        }
    } else {
        assert(p.drop_first() =~= pattern@.skip(i + 1));
        if j < text.len() && text[j] == pattern[i] {
            assert(t.drop_first() =~= text@.skip(j + 1));
            glob_match_from(pattern, text, i + 1, j + 1)
        } else {
            false
        }
    }
}

/// Does the glob `pattern` match the whole of `text`, byte by byte?
pub fn glob_match(pattern: &str, text: &str) -> (matched: bool)
    ensures
        matched == glob_matches(encode_utf8(pattern@), encode_utf8(text@)),
{
    let p = pattern.as_bytes();
    let t = text.as_bytes();
    assert(p@.skip(0) =~= p@);
    assert(t@.skip(0) =~= t@);
    glob_match_from(p, t, 0, 0)
}

/// No byte of `literal` is a `*`.
pub open spec fn is_literal(literal: Seq<u8>) -> bool {
    forall|i: int| 0 <= i < literal.len() ==> literal[i] != STAR
}

/// `*` matches any run of bytes, the empty one included: a pattern that
/// starts with `*` matches `text` exactly when the rest of the pattern
/// matches some suffix of `text`.
pub proof fn lemma_star_matches_any_run(rest: Seq<u8>, text: Seq<u8>)
    ensures
        glob_matches(seq![STAR] + rest, text) <==> exists|k: int|
            0 <= k <= text.len() && #[trigger] glob_matches(rest, text.skip(k)),
    decreases text.len(),
{
    let pattern = seq![STAR] + rest;
    assert(pattern.drop_first() =~= rest);
    assert(text.skip(0) =~= text);
    if glob_matches(rest, text) {
        assert(glob_matches(rest, text.skip(0)));
    }
    if text.len() > 0 {
        let tail = text.drop_first();
        lemma_star_matches_any_run(rest, tail);
        assert(glob_matches(pattern, text) == (glob_matches(rest, text) || glob_matches(pattern, tail)));
        if glob_matches(pattern, tail) {
            let k = choose|k: int| 0 <= k <= tail.len() && #[trigger] glob_matches(rest, tail.skip(k));
            assert(tail.skip(k) =~= text.skip(k + 1));
            assert(glob_matches(rest, text.skip(k + 1)));
        }
        if exists|k: int| 0 <= k <= text.len() && #[trigger] glob_matches(rest, text.skip(k)) {
            let k = choose|k: int| 0 <= k <= text.len() && #[trigger] glob_matches(rest, text.skip(k));
            if k > 0 {
                assert(tail.skip(k - 1) =~= text.skip(k));
                assert(glob_matches(rest, tail.skip(k - 1)));
            }
        }
    } else {
        assert(glob_matches(pattern, text) == glob_matches(rest, text));
        if exists|k: int| 0 <= k <= text.len() && #[trigger] glob_matches(rest, text.skip(k)) {
            let k = choose|k: int| 0 <= k <= text.len() && #[trigger] glob_matches(rest, text.skip(k));
            assert(k == 0);
        }
    }
}

/// A byte other than `*` matches only itself: a pattern that starts with a
/// run of such bytes matches `text` exactly when `text` starts with that run
/// and the rest of the pattern matches the rest of `text`.
pub proof fn lemma_literal_matches_itself(literal: Seq<u8>, rest: Seq<u8>, text: Seq<u8>)
    requires
        is_literal(literal),
    ensures
        glob_matches(literal + rest, text) <==> (literal.len() <= text.len() && text.take(
            literal.len() as int,
        ) == literal && glob_matches(rest, text.skip(literal.len() as int))),
    decreases literal.len(),
{
    let pattern = literal + rest;
    if literal.len() == 0 {
        assert(pattern =~= rest);
        assert(text.skip(0) =~= text);
        assert(text.take(0) =~= literal);
    } else {
        let lit_tail = literal.drop_first();
        assert(pattern.drop_first() =~= lit_tail + rest);
        assert(pattern[0] == literal[0]);
        if text.len() > 0 {
            let tail = text.drop_first();
            lemma_literal_matches_itself(lit_tail, rest, tail);
            if literal.len() <= text.len() {
                assert(tail.skip(lit_tail.len() as int) =~= text.skip(literal.len() as int));
                if text.take(literal.len() as int) == literal {
                    assert(tail.take(lit_tail.len() as int) =~= lit_tail);
                }
                if text[0] == literal[0] && tail.take(lit_tail.len() as int) == lit_tail {
                    assert forall|i: int| 0 < i < literal.len() implies text[i] == literal[i] by {
                        assert(tail.take(lit_tail.len() as int)[i - 1] == tail[i - 1]);
                    }
                    assert(text.take(literal.len() as int) =~= literal);
                }
                if text.take(literal.len() as int) == literal {
                    assert(text.take(literal.len() as int)[0] == text[0]);
                }
            }
        }
    }
}

/// A lone `*` matches every text.
pub proof fn lemma_star_matches_everything(text: Seq<u8>)
    ensures
        glob_matches(seq![STAR], text),
{
    lemma_star_matches_any_run(Seq::empty(), text);
    assert(seq![STAR] + Seq::<u8>::empty() =~= seq![STAR]);
    assert(text.skip(text.len() as int) =~= Seq::<u8>::empty());
    assert(glob_matches(Seq::empty(), text.skip(text.len() as int)));
}

/// A pattern without `*` matches exactly the text equal to it.
pub proof fn lemma_literal_matches_only_itself(literal: Seq<u8>, text: Seq<u8>)
    requires
        is_literal(literal),
    ensures
        glob_matches(literal, text) <==> text == literal,
{
    lemma_literal_matches_itself(literal, Seq::empty(), text);
    assert(literal + Seq::<u8>::empty() =~= literal);
    if text == literal {
        assert(text.take(literal.len() as int) =~= literal);
        assert(text.skip(literal.len() as int) =~= Seq::<u8>::empty());
    }
    if glob_matches(literal, text) {
        assert(text.skip(literal.len() as int).len() == 0);
        assert(text =~= text.take(literal.len() as int));
    }
}

/// A pattern made of a run without `*` and then one `*` matches exactly the
/// texts that start with that run.
pub proof fn lemma_literal_then_star(literal: Seq<u8>, text: Seq<u8>)
    requires
        is_literal(literal),
    ensures
        glob_matches(literal + seq![STAR], text) <==> literal.is_prefix_of(text),
{
    lemma_literal_matches_itself(literal, seq![STAR], text);
    lemma_star_matches_everything(text.skip(literal.len() as int));
    if literal.is_prefix_of(text) {
        assert(text.take(literal.len() as int) =~= literal);
    }
    if literal.len() <= text.len() && text.take(literal.len() as int) == literal {
        assert forall|i: int| 0 <= i < literal.len() implies literal[i] == text[i] by {
            assert(text.take(literal.len() as int)[i] == text[i]);
        }
    }
}

/// Two `*` in a row match what one `*` matches.
pub proof fn lemma_double_star_is_single_star(rest: Seq<u8>, text: Seq<u8>)
    ensures
        glob_matches(seq![STAR, STAR] + rest, text) == glob_matches(seq![STAR] + rest, text),
{
    let single = seq![STAR] + rest;
    assert(seq![STAR, STAR] + rest =~= seq![STAR] + single);
    lemma_star_matches_any_run(single, text);
    lemma_star_matches_any_run(rest, text);
    if glob_matches(seq![STAR] + single, text) {
        let k = choose|k: int| 0 <= k <= text.len() && #[trigger] glob_matches(single, text.skip(k));
        lemma_star_matches_any_run(rest, text.skip(k));
        let k2 = choose|k2: int|
            0 <= k2 <= text.skip(k).len() && #[trigger] glob_matches(rest, text.skip(k).skip(k2));
        assert(text.skip(k).skip(k2) =~= text.skip(k + k2));
        assert(glob_matches(rest, text.skip(k + k2)));
    }
    if glob_matches(single, text) {
        assert(text.skip(0) =~= text);
        assert(glob_matches(single, text.skip(0)));
    }
}

/// The empty pattern matches only the empty text.
pub proof fn lemma_empty_pattern_matches_only_empty(text: Seq<u8>)
    ensures
        glob_matches(Seq::empty(), text) <==> text.len() == 0,
{
}

/// Every pattern matches its own bytes: a `*` may stand for itself.
pub proof fn lemma_pattern_matches_itself(pattern: Seq<u8>)
    ensures
        glob_matches(pattern, pattern),
    decreases pattern.len(),
{
    if pattern.len() > 0 {
        let rest = pattern.drop_first();
        lemma_pattern_matches_itself(rest);
        if pattern[0] == STAR {
            assert(glob_matches(pattern, rest));
        }
    }
}

/// Turning one byte of a pattern into `*` never loses a match.
pub proof fn lemma_star_widens_pattern(pattern: Seq<u8>, text: Seq<u8>, i: int)
    requires
        0 <= i < pattern.len(),
        glob_matches(pattern, text),
    ensures
        glob_matches(pattern.update(i, STAR), text),
    decreases pattern.len(), text.len(),
{
    let wider = pattern.update(i, STAR);
    let rest = pattern.drop_first();
    if pattern[0] == STAR {
        if i > 0 {
            assert(wider.drop_first() =~= rest.update(i - 1, STAR));
            if glob_matches(rest, text) {
                lemma_star_widens_pattern(rest, text, i - 1);
            } else {
                lemma_star_widens_pattern(pattern, text.drop_first(), i);
            }
        } else {
            assert(wider =~= pattern);
        }
    } else {
        let tail = text.drop_first();
        if i > 0 {
            assert(wider.drop_first() =~= rest.update(i - 1, STAR));
            lemma_star_widens_pattern(rest, tail, i - 1);
        } else {
            assert(wider.drop_first() =~= rest);
            assert(glob_matches(wider, tail));
        }
    }
}

/// UTF-8 encoding takes concatenation to concatenation.
pub proof fn lemma_encode_utf8_concat(a: Seq<char>, b: Seq<char>)
    ensures
        encode_utf8(a + b) == encode_utf8(a) + encode_utf8(b),
    decreases a.len(),
{
    if a.len() == 0 {
        assert(a + b =~= b);
        assert(encode_utf8(a) + encode_utf8(b) =~= encode_utf8(b));
    } else {
        lemma_encode_utf8_concat(a.drop_first(), b);
        assert((a + b).drop_first() =~= a.drop_first() + b);
        assert((a + b)[0] == a[0]);
        assert(encode_utf8(a + b) =~= encode_utf8(a) + encode_utf8(b));
    }
}

/// No byte of the UTF-8 encoding of a character other than `*` is a `*`.
proof fn lemma_encoded_char_has_no_star(c: char)
    requires
        c != '*',
    ensures
        is_literal(encode_scalar(c as u32)),
{
    let v = c as u32;
    char_is_scalar(c);
    if v == 42 {
        char_u32_cast(c, v);
        assert(c == '*');
    }
    if has_width_1_encoding(v) {
        assert(((v & 0x7F) as u8) != 42u8) by (bit_vector)
            requires
                v <= 0x7F,
                v != 42,
        ;
    } else if has_width_2_encoding(v) {
        assert((0xC0 | ((v >> 6) & 0x1F) as u8) != 42u8) by (bit_vector);
        assert((0x80 | (v & 0x3F) as u8) != 42u8) by (bit_vector);
    } else if has_width_3_encoding(v) {
        assert((0xE0 | ((v >> 12) & 0x0F) as u8) != 42u8) by (bit_vector);
        assert((0x80 | ((v >> 6) & 0x3F) as u8) != 42u8) by (bit_vector);
        assert((0x80 | (v & 0x3F) as u8) != 42u8) by (bit_vector);
    } else {
        assert((0xF0 | ((v >> 18) & 0x7) as u8) != 42u8) by (bit_vector);
        assert((0x80 | ((v >> 12) & 0x3F) as u8) != 42u8) by (bit_vector);
        assert((0x80 | ((v >> 6) & 0x3F) as u8) != 42u8) by (bit_vector);
        assert((0x80 | (v & 0x3F) as u8) != 42u8) by (bit_vector);
    }
}

/// A text without the character `*` encodes to bytes without `*`.
pub proof fn lemma_text_without_star_is_literal(text: Seq<char>)
    requires
        !text.contains('*'),
    ensures
        is_literal(encode_utf8(text)),
    decreases text.len(),
{
    if text.len() > 0 {
        let rest = text.drop_first();
        assert(!rest.contains('*')) by {
            if rest.contains('*') {
                let k = choose|k: int| 0 <= k < rest.len() && rest[k] == '*';
                assert(text[k + 1] == '*');
            }
        }
        assert(text[0] != '*');
        lemma_encoded_char_has_no_star(text[0]);
        lemma_text_without_star_is_literal(rest);
        let head = encode_scalar(text[0] as u32);
        let tail = encode_utf8(rest);
        assert(encode_utf8(text) == head + tail);
        assert forall|i: int| 0 <= i < (head + tail).len() implies (head + tail)[i] != STAR by {
            if i >= head.len() {
                assert((head + tail)[i] == tail[i - head.len()]);
            }
        }
    }
}

/// The character `*` encodes to the single byte `*`.
pub proof fn lemma_star_char_encodes_to_star()
    ensures
        encode_utf8(seq!['*']) == seq![STAR],
{
    assert(is_ascii_chars(seq!['*']));
    is_ascii_chars_encode_utf8(seq!['*']);
    assert(encode_utf8(seq!['*']) =~= seq![STAR]);
}

} // verus!
