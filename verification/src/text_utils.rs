//! Small text-processing utilities used by the replacer and elsewhere.

use vstd::prelude::*;

verus! {

broadcast use vstd::string::group_string_axioms;

/// Appends one character to a `String` (std's `String::push`).
///
/// Trusted: the contract claims that `String::push` leaves the old characters in
/// place and adds `c` at the end, as std documents.
#[verifier::external_body]
pub(crate) fn push_char(s: &mut String, c: char)
    ensures
        final(s)@ == old(s)@.push(c),
{
    s.push(c);
}

/// A Unicode scalar value: not a surrogate code point, at most 0x10FFFF.
pub open spec fn is_scalar_value(v: u32) -> bool {
    v <= 0xD7FF || (0xE000 <= v && v <= 0x10FFFF)
}

/// The character with a given code point (std's `char::from_u32`).
///
/// Trusted: the contract claims what std documents, that `char::from_u32`
/// returns the character exactly for Unicode scalar values and `None` for
/// every other value.
#[verifier::external_body]
pub(crate) fn char_from_u32(v: u32) -> (r: Option<char>)
    ensures
        is_scalar_value(v) ==> r == Some(v as char),
        !is_scalar_value(v) ==> r is None,
{
    char::from_u32(v)
}

/// Compares two strings character by character.
pub fn str_equals(a: &str, b: &str) -> (r: bool)
    ensures
        r == (a@ == b@),
{
    let n = a.unicode_len();
    if n != b.unicode_len() {
        return false;
    }
    let mut i: usize = 0;
    for c in it: a.chars()
        invariant
            it.seq() == a@,
            i == it.index(),
            n == a@.len(),
            n == b@.len(),
            forall|j: int| 0 <= j < i ==> a@[j] == b@[j],
    {
        if c != b.get_char(i) {
            return false;
        }
        i = i + 1;
    }
    assert(a@ =~= b@);
    true
}

/// The parts joined in order, with `sep` between neighbours.
pub open spec fn join_with(parts: Seq<Seq<char>>, sep: Seq<char>) -> Seq<char>
    decreases parts.len(),
{
    if parts.len() == 0 {
        Seq::empty()
    } else if parts.len() == 1 {
        parts[0]
    } else {
        join_with(parts.drop_last(), sep) + sep + parts.last()
    }
}

/// Appends `part` to a join in progress: `out` holds the join of `parts`.
pub(crate) fn append_part(out: &mut String, first: bool, sep: &str, part: &str, Ghost(parts): Ghost<
    Seq<Seq<char>>,
>)
    requires
        old(out)@ == join_with(parts, sep@),
        first == (parts.len() == 0),
    ensures
        final(out)@ == join_with(parts.push(part@), sep@),
{
    let ghost next = parts.push(part@);
    assert(next.drop_last() =~= parts);
    if !first {
        out.append(sep);
    }
    out.append(part);
    if first {
        assert(old(out)@ =~= Seq::<char>::empty());
        assert(out@ =~= part@);
    }
}

/// `s` with every `"\r\n"` pair replaced by a single `'\n'`.
pub open spec fn collapse_crlf(s: Seq<char>) -> Seq<char>
    decreases s.len(),
{
    if s.len() == 0 {
        s
    } else if s.len() >= 2 && s[s.len() - 2] == '\r' && s.last() == '\n' {
        collapse_crlf(s.subrange(0, s.len() - 2)).push('\n')
    } else {
        collapse_crlf(s.drop_last()).push(s.last())
    }
}

/// `s` with every `'\n'` replaced by the pair `"\r\n"`.
pub open spec fn expand_lf(s: Seq<char>) -> Seq<char>
    decreases s.len(),
{
    if s.len() == 0 {
        s
    } else if s.last() == '\n' {
        expand_lf(s.drop_last()).push('\r').push('\n')
    } else {
        expand_lf(s.drop_last()).push(s.last())
    }
}

/// Line endings normalised to CRLF: existing CRLF pairs are first collapsed to
/// LF, then every LF becomes CRLF.
pub open spec fn spec_normalise_to_crlf(s: Seq<char>) -> Seq<char> {
    expand_lf(collapse_crlf(s))
}

/// Every `'\n'` in `s` directly follows a `'\r'`.
pub open spec fn all_lf_in_crlf(s: Seq<char>) -> bool {
    forall|i: int| #![trigger s[i]] 0 <= i < s.len() && s[i] == '\n' ==> i > 0 && s[i - 1] == '\r'
}

proof fn lemma_collapse_step(p: Seq<char>, c: char)
    ensures
        (c == '\n' && p.len() > 0 && p.last() == '\r') ==> collapse_crlf(p.push(c)) == collapse_crlf(
            p.drop_last(),
        ).push('\n') && collapse_crlf(p) == collapse_crlf(p.drop_last()).push('\r'),
        !(c == '\n' && p.len() > 0 && p.last() == '\r') ==> collapse_crlf(p.push(c))
            == collapse_crlf(p).push(c),
{
    let q = p.push(c);
    assert(q.drop_last() =~= p);
    if c == '\n' && p.len() > 0 && p.last() == '\r' {
        assert(q.subrange(0, q.len() - 2) =~= p.drop_last());
        assert(q[q.len() - 2] == '\r');
    }
}

proof fn lemma_expand_step(t: Seq<char>, c: char)
    ensures
        c == '\n' ==> expand_lf(t.push(c)) == expand_lf(t).push('\r').push('\n'),
        c != '\n' ==> expand_lf(t.push(c)) == expand_lf(t).push(c),
{
    assert(t.push(c).drop_last() =~= t);
}

/// Normalises line endings in a string to CRLF (`\r\n`), as required by the
/// Win32 `CF_UNICODETEXT` clipboard format specification.
///
/// Any existing `\r\n` sequences are first collapsed to `\n` to prevent
/// double-conversion, then every remaining `\n` is replaced with `\r\n`.
pub fn normalise_to_crlf(text: &str) -> (r: String)
    ensures
        r@ == spec_normalise_to_crlf(text@),
{
    let mut out = String::new();
    let mut prev_cr = false;
    for c in it: text.chars()
        invariant
            it.seq() == text@,
            out@ == spec_normalise_to_crlf(text@.subrange(0, it.index())),
            prev_cr == (it.index() > 0 && text@[it.index() - 1] == '\r'),
    {
        let ghost p = text@.subrange(0, it.index());
        let ghost p2 = text@.subrange(0, it.index() + 1);
        assert(p.push(c) =~= p2);
        proof {
            lemma_collapse_step(p, c);
            if c == '\n' && prev_cr {
                lemma_expand_step(collapse_crlf(p.drop_last()), '\r');
                lemma_expand_step(collapse_crlf(p.drop_last()), '\n');
            } else {
                lemma_expand_step(collapse_crlf(p), c);
            }
        }
        if c == '\n' {
            if prev_cr {
                push_char(&mut out, '\n');
            } else {
                push_char(&mut out, '\r');
                push_char(&mut out, '\n');
            }
        } else {
            push_char(&mut out, c);
        }
        prev_cr = c == '\r';
    }
    assert(text@.subrange(0, text@.len() as int) =~= text@);
    out
}

/// Normalised text never holds a bare line feed.
pub proof fn lemma_expand_lf_all_crlf(s: Seq<char>)
    ensures
        all_lf_in_crlf(expand_lf(s)),
    decreases s.len(),
{
    if s.len() > 0 {
        lemma_expand_lf_all_crlf(s.drop_last());
        let e = expand_lf(s.drop_last());
        if s.last() == '\n' {
            let r = e.push('\r').push('\n');
            assert forall|i: int| 0 <= i < r.len() && #[trigger] r[i] == '\n' implies i > 0 && r[i
                - 1] == '\r' by {
                if i < e.len() {
                    assert(r[i] == e[i]);
                    if i > 0 {
                        assert(r[i - 1] == e[i - 1]);
                    }
                }
            }
        } else {
            let r = e.push(s.last());
            assert forall|i: int| 0 <= i < r.len() && #[trigger] r[i] == '\n' implies i > 0 && r[i
                - 1] == '\r' by {
                if i < e.len() {
                    assert(r[i] == e[i]);
                    if i > 0 {
                        assert(r[i - 1] == e[i - 1]);
                    }
                }
            }
        }
    }
}

/// Text whose line feeds are already all part of CRLF pairs is left unchanged.
pub proof fn lemma_normalise_keeps_crlf_text(s: Seq<char>)
    requires
        all_lf_in_crlf(s),
    ensures
        spec_normalise_to_crlf(s) == s,
    decreases s.len(),
{
    if s.len() > 0 {
        let n = s.len() as int;
        if s.len() >= 2 && s[n - 2] == '\r' && s.last() == '\n' {
            let t = s.subrange(0, n - 2);
            assert forall|i: int| 0 <= i < t.len() && #[trigger] t[i] == '\n' implies i > 0 && t[i
                - 1] == '\r' by {
                assert(s[i] == t[i]);
                assert(s[i - 1] == t[i - 1]);
            }
            lemma_normalise_keeps_crlf_text(t);
            let c = collapse_crlf(t);
            assert(collapse_crlf(s) == c.push('\n'));
            assert(c.push('\n').drop_last() =~= c);
            assert(expand_lf(c.push('\n')) == expand_lf(c).push('\r').push('\n'));
            assert(t.push('\r').push('\n') =~= s);
        } else {
            let t = s.drop_last();
            if s.last() == '\n' {
                assert(s[n - 1] == '\n');
                assert(s[n - 2] == '\r');
            }
            assert forall|i: int| 0 <= i < t.len() && #[trigger] t[i] == '\n' implies i > 0 && t[i
                - 1] == '\r' by {
                assert(s[i] == t[i]);
                assert(s[i - 1] == t[i - 1]);
            }
            lemma_normalise_keeps_crlf_text(t);
            let c = collapse_crlf(t);
            assert(collapse_crlf(s) == c.push(s.last()));
            assert(c.push(s.last()).drop_last() =~= c);
            assert(t.push(s.last()) =~= s);
        }
    }
}

/// Normalising twice gives the same text as normalising once.
pub proof fn lemma_normalise_idempotent(s: Seq<char>)
    ensures
        spec_normalise_to_crlf(spec_normalise_to_crlf(s)) == spec_normalise_to_crlf(s),
        all_lf_in_crlf(spec_normalise_to_crlf(s)),
{
    lemma_expand_lf_all_crlf(collapse_crlf(s));
    lemma_normalise_keeps_crlf_text(spec_normalise_to_crlf(s));
}

} // verus!
